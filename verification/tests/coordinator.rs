use canary_watcher::coordinator::{Backend, Invocation, Trigger, UsageError};
use canary_watcher::mode::ArmMode;
use canary_watcher::volume::VolumeMapping;
use canary_watcher::watch::{WatchAction, WatchEvent};

fn args(words: &[&str]) -> Vec<String> {
    words.iter().map(|word| word.to_string()).collect()
}

fn invocation(mode: ArmMode, backend: Backend, path: &str) -> Invocation {
    Invocation { mode, backend, path: path.to_string() }
}

#[test]
fn command_line_names_mode_trigger_and_path() {
    assert_eq!(
        Invocation::parse(&args(&["guard", "arm", "notify", "/srv/secret"])),
        Ok(invocation(ArmMode::Armed, Backend::Watch, "/srv/secret"))
    );
    assert_eq!(
        Invocation::parse(&args(&["guard", "test", "notify", "/srv/secret"])),
        Ok(invocation(ArmMode::Test, Backend::Watch, "/srv/secret"))
    );
    assert_eq!(
        Invocation::parse(&args(&["guard", "arm", "fuse", "/mnt/trap"])),
        Ok(invocation(ArmMode::Armed, Backend::Trap, "/mnt/trap"))
    );
    assert_eq!(
        Invocation::parse(&args(&["guard", "test", "fuse", ""])),
        Ok(invocation(ArmMode::Test, Backend::Trap, ""))
    );
}

#[test]
fn wrong_number_of_words_is_a_usage_error() {
    for words in [
        &[][..],
        &["guard"][..],
        &["guard", "arm"][..],
        &["guard", "arm", "notify"][..],
        &["guard", "arm", "notify", "/a", "/b"][..],
        &["guard", "bogus", "bogus"][..],
    ] {
        assert_eq!(Invocation::parse(&args(words)), Err(UsageError::ArgumentCount));
    }
}

#[test]
fn unknown_mode_is_a_usage_error() {
    for mode in ["", "armed", "Arm", "TEST", "tes", "notify"] {
        assert_eq!(
            Invocation::parse(&args(&["guard", mode, "notify", "/a"])),
            Err(UsageError::UnknownMode)
        );
    }
}

#[test]
fn unknown_trigger_is_a_usage_error() {
    for backend in ["", "inotify", "Fuse", "watch", "trap", "arm"] {
        assert_eq!(
            Invocation::parse(&args(&["guard", "arm", backend, "/a"])),
            Err(UsageError::UnknownBackend)
        );
    }
}

#[test]
fn mode_is_looked_at_before_the_trigger() {
    assert_eq!(
        Invocation::parse(&args(&["guard", "bogus", "bogus", "/a"])),
        Err(UsageError::UnknownMode)
    );
}

#[test]
fn usage_is_put_in_words() {
    assert_eq!(
        UsageError::ArgumentCount.message(),
        "usage: <program> [test|arm] [notify|fuse] <path>"
    );
    assert_eq!(
        UsageError::UnknownMode.message(),
        "usage: <program> [test|arm] [notify|fuse] <path>"
    );
    assert_eq!(UsageError::UnknownBackend.message(), "usage: <program> [notify|fuse] <path>");
}

#[test]
fn watch_invocation_starts_a_watch_on_its_path() {
    let volume = VolumeMapping::new("luks-bbb".to_string());
    match invocation(ArmMode::Test, Backend::Watch, "/srv/secret").trigger(volume) {
        Trigger::Watch(mut trigger) => {
            trigger.step(WatchEvent::Start);
            match trigger.step(WatchEvent::Opened) {
                WatchAction::Register { path, .. } => assert_eq!(path, "/srv/secret"),
                _ => panic!("expected a registration"),
            }
            assert!(matches!(trigger.step(WatchEvent::Registered), WatchAction::Await));
            match trigger.step(WatchEvent::Batch { events: 1 }) {
                WatchAction::Lockdown(executor) => {
                    assert_eq!(executor.mode(), ArmMode::Test);
                    assert_eq!(executor.volume().as_str(), "luks-bbb");
                }
                _ => panic!("expected the lockdown"),
            }
        }
        Trigger::Trap(_) => panic!("expected a watch trigger"),
    }
}

#[test]
fn trap_invocation_starts_a_trap_at_its_path() {
    let volume = VolumeMapping::new("luks-bbb".to_string());
    match invocation(ArmMode::Armed, Backend::Trap, "/mnt/trap").trigger(volume) {
        Trigger::Trap(mut trigger) => {
            assert_eq!(trigger.mountpoint().as_str(), "/mnt/trap");
            let executor = trigger.readdir(1, 0).lockdown.unwrap();
            assert_eq!(executor.mode(), ArmMode::Armed);
            assert_eq!(executor.volume().as_str(), "luks-bbb");
        }
        Trigger::Watch(_) => panic!("expected a trap trigger"),
    }
}
