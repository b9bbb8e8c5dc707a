use canary_watcher::guard::{Guard, TamperEvent};
use canary_watcher::lockdown::SystemAction;
use canary_watcher::mode::ArmMode;
use canary_watcher::volume::VolumeMapping;

fn guard(mode: ArmMode) -> Guard {
    Guard::new(mode, VolumeMapping::new("luks-bbb".to_string()))
}

#[test]
fn first_event_starts_the_lockdown() {
    let mut guard = guard(ArmMode::Armed);
    assert!(!guard.is_tripped());
    let executor = guard.trip(TamperEvent {}).unwrap();
    assert!(guard.is_tripped());
    assert_eq!(executor.mode(), ArmMode::Armed);
    assert_eq!(executor.volume().as_str(), "luks-bbb");
    assert!(executor.outcomes().is_empty());
    assert_eq!(
        executor.pending(),
        Some(SystemAction::WriteControl {
            path: "/proc/sys/kernel/sysrq".to_string(),
            data: "1".to_string()
        })
    );
}

#[test]
fn later_events_start_nothing() {
    let mut guard = guard(ArmMode::Test);
    let mut started = 0;
    for _ in 0..10 {
        if guard.trip(TamperEvent {}).is_some() {
            started += 1;
        }
    }
    assert_eq!(started, 1);
    assert!(guard.is_tripped());
}

#[test]
fn guard_hands_its_mode_to_the_lockdown() {
    let mut guard = guard(ArmMode::Test);
    assert_eq!(guard.mode(), ArmMode::Test);
    assert_eq!(guard.volume().identifier().as_str(), "luks-bbb");
    let executor = guard.trip(TamperEvent {}).unwrap();
    assert_eq!(executor.mode(), ArmMode::Test);
}
