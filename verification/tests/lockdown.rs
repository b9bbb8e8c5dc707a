use canary_watcher::lockdown::{LockdownExecutor, LockdownOutcome, Stage, SystemAction, STAGE_COUNT};
use canary_watcher::mode::ArmMode;
use canary_watcher::volume::VolumeMapping;

fn volume() -> VolumeMapping {
    VolumeMapping::new("luks-bbb".to_string())
}

fn write(path: &str, data: &str) -> SystemAction {
    SystemAction::WriteControl { path: path.to_string(), data: data.to_string() }
}

fn launch(program: &str, args: &[&str]) -> SystemAction {
    SystemAction::Launch {
        program: program.to_string(),
        args: args.iter().map(|arg| arg.to_string()).collect(),
    }
}

fn announce(message: &str) -> SystemAction {
    SystemAction::Announce { message: message.to_string() }
}

fn live_plan() -> Vec<SystemAction> {
    vec![
        write("/proc/sys/kernel/sysrq", "1"),
        launch("/usr/sbin/cryptsetup", &["luksClose", "luks-bbb"]),
        write("/proc/sysrq-trigger", "b"),
        launch("/usr/sbin/reboot", &["--force", "--force"]),
    ]
}

/// Stands in for the host: takes note of every action and reports the
/// outcome that the test has lined up for it.
struct Recorder {
    writes: Vec<(String, String)>,
    launches: Vec<(String, Vec<String>)>,
    announcements: Vec<String>,
    failing: Vec<usize>,
    attempts: usize,
}

impl Recorder {
    fn new(failing: &[usize]) -> Recorder {
        Recorder {
            writes: Vec::new(),
            launches: Vec::new(),
            announcements: Vec::new(),
            failing: failing.to_vec(),
            attempts: 0,
        }
    }

    fn perform(&mut self, action: SystemAction) -> LockdownOutcome {
        let attempt = self.attempts;
        self.attempts += 1;
        match action {
            SystemAction::WriteControl { path, data } => self.writes.push((path, data)),
            SystemAction::Launch { program, args } => self.launches.push((program, args)),
            SystemAction::Announce { message } => self.announcements.push(message),
        }
        if self.failing.contains(&attempt) {
            LockdownOutcome::Failed(format!("stage {} failed", attempt))
        } else {
            LockdownOutcome::Succeeded
        }
    }

    fn run(&mut self, executor: &mut LockdownExecutor) {
        while let Some(action) = executor.pending() {
            let outcome = self.perform(action);
            executor.record(outcome);
        }
    }
}

#[test]
fn armed_lockdown_runs_the_four_stages_in_order() {
    let mut executor = LockdownExecutor::new(ArmMode::Armed, &volume());
    let mut seen = Vec::new();
    while let Some(action) = executor.pending() {
        seen.push(action);
        executor.record(LockdownOutcome::Succeeded);
    }
    assert_eq!(seen, live_plan());
    assert!(executor.is_finished());
    assert_eq!(executor.outcomes(), &vec![LockdownOutcome::Succeeded; 4]);
}

#[test]
fn armed_lockdown_closes_the_volume_it_was_given() {
    let other = VolumeMapping::new("luks-9f3c".to_string());
    let mut executor = LockdownExecutor::new(ArmMode::Armed, &other);
    executor.record(LockdownOutcome::Succeeded);
    assert_eq!(
        executor.pending(),
        Some(launch("/usr/sbin/cryptsetup", &["luksClose", "luks-9f3c"]))
    );
    assert_eq!(executor.volume().as_str(), "luks-9f3c");
}

#[test]
fn test_mode_touches_nothing() {
    let mut executor = LockdownExecutor::new(ArmMode::Test, &volume());
    let mut host = Recorder::new(&[]);
    host.run(&mut executor);
    assert!(host.writes.is_empty());
    assert!(host.launches.is_empty());
    assert_eq!(host.announcements.len(), 4);
    assert_eq!(executor.outcomes().len(), 4);
    assert!(executor.is_finished());
}

#[test]
fn test_mode_touches_nothing_when_reports_say_failure() {
    let mut executor = LockdownExecutor::new(ArmMode::Test, &volume());
    let mut host = Recorder::new(&[0, 1, 2, 3]);
    host.run(&mut executor);
    assert!(host.writes.is_empty());
    assert!(host.launches.is_empty());
    assert_eq!(host.attempts, 4);
    assert_eq!(executor.outcomes().len(), 4);
}

#[test]
fn test_mode_announces_what_would_be_done() {
    let mut executor = LockdownExecutor::new(ArmMode::Test, &volume());
    let mut seen = Vec::new();
    while let Some(action) = executor.pending() {
        seen.push(action);
        executor.record(LockdownOutcome::Succeeded);
    }
    assert_eq!(
        seen,
        vec![
            announce("would write 1 to /proc/sys/kernel/sysrq"),
            announce("would start /usr/sbin/cryptsetup luksClose luks-bbb"),
            announce("would write b to /proc/sysrq-trigger"),
            announce("would start /usr/sbin/reboot --force --force"),
        ]
    );
}

#[test]
fn failed_volume_close_does_not_stop_the_later_stages() {
    let mut executor = LockdownExecutor::new(ArmMode::Armed, &volume());
    let mut host = Recorder::new(&[1]);
    host.run(&mut executor);
    assert_eq!(host.attempts, 4);
    assert_eq!(
        host.writes,
        vec![
            ("/proc/sys/kernel/sysrq".to_string(), "1".to_string()),
            ("/proc/sysrq-trigger".to_string(), "b".to_string()),
        ]
    );
    assert_eq!(
        host.launches,
        vec![
            (
                "/usr/sbin/cryptsetup".to_string(),
                vec!["luksClose".to_string(), "luks-bbb".to_string()]
            ),
            ("/usr/sbin/reboot".to_string(), vec!["--force".to_string(), "--force".to_string()]),
        ]
    );
    assert_eq!(
        executor.outcomes(),
        &vec![
            LockdownOutcome::Succeeded,
            LockdownOutcome::Failed("stage 1 failed".to_string()),
            LockdownOutcome::Succeeded,
            LockdownOutcome::Succeeded,
        ]
    );
}

#[test]
fn every_stage_is_attempted_whichever_stages_fail() {
    for failing in 0u32..16 {
        let stages: Vec<usize> = (0..4).filter(|stage| failing & (1 << stage) != 0).collect();
        let mut executor = LockdownExecutor::new(ArmMode::Armed, &volume());
        let mut seen = Vec::new();
        let mut done = 0;
        while let Some(action) = executor.pending() {
            seen.push(action);
            if stages.contains(&done) {
                executor.record(LockdownOutcome::Failed("refused".to_string()));
            } else {
                executor.record(LockdownOutcome::Succeeded);
            }
            done += 1;
        }
        assert_eq!(seen, live_plan());
        let failed: Vec<usize> = executor
            .outcomes()
            .iter()
            .enumerate()
            .filter(|(_, outcome)| **outcome != LockdownOutcome::Succeeded)
            .map(|(stage, _)| stage)
            .collect();
        assert_eq!(failed, stages);
    }
}

#[test]
fn pending_action_stays_until_it_is_reported() {
    let executor = LockdownExecutor::new(ArmMode::Armed, &volume());
    assert_eq!(executor.pending(), Some(write("/proc/sys/kernel/sysrq", "1")));
    assert_eq!(executor.pending(), Some(write("/proc/sys/kernel/sysrq", "1")));
    assert!(!executor.is_finished());
    assert!(executor.outcomes().is_empty());
}

#[test]
fn stage_follows_the_reports() {
    let mut executor = LockdownExecutor::new(ArmMode::Armed, &volume());
    let mut stages = Vec::new();
    while let Some(stage) = executor.stage() {
        stages.push(stage);
        executor.record(LockdownOutcome::Failed("refused".to_string()));
    }
    assert_eq!(
        stages,
        vec![Stage::EnableControls, Stage::CloseVolume, Stage::ForceCrash, Stage::Reboot]
    );
    assert_eq!(executor.stage(), None);
}

#[test]
fn report_after_the_last_stage_is_dropped() {
    let mut executor = LockdownExecutor::new(ArmMode::Test, &volume());
    for _ in 0..4 {
        executor.record(LockdownOutcome::Succeeded);
    }
    executor.record(LockdownOutcome::Failed("late".to_string()));
    assert_eq!(executor.outcomes(), &vec![LockdownOutcome::Succeeded; 4]);
    assert_eq!(executor.pending(), None);
    assert!(executor.is_finished());
}

#[test]
fn stages_are_counted_from_the_first() {
    assert_eq!(STAGE_COUNT, 4);
    assert_eq!(Stage::nth(0), Some(Stage::EnableControls));
    assert_eq!(Stage::nth(1), Some(Stage::CloseVolume));
    assert_eq!(Stage::nth(2), Some(Stage::ForceCrash));
    assert_eq!(Stage::nth(3), Some(Stage::Reboot));
    assert_eq!(Stage::nth(4), None);
    assert_eq!(Stage::nth(usize::MAX), None);
}

#[test]
fn actions_are_described_in_words() {
    assert_eq!(write("/proc/sysrq-trigger", "b").describe(), "write b to /proc/sysrq-trigger");
    assert_eq!(launch("/usr/sbin/reboot", &[]).describe(), "start /usr/sbin/reboot");
    assert_eq!(
        launch("/usr/sbin/cryptsetup", &["luksClose", "luks-bbb"]).describe(),
        "start /usr/sbin/cryptsetup luksClose luks-bbb"
    );
    assert_eq!(announce("would do nothing").describe(), "would do nothing");
}

#[test]
fn executor_keeps_its_mode() {
    assert_eq!(LockdownExecutor::new(ArmMode::Armed, &volume()).mode(), ArmMode::Armed);
    assert_eq!(LockdownExecutor::new(ArmMode::Test, &volume()).mode(), ArmMode::Test);
    assert!(ArmMode::Armed.is_armed());
    assert!(!ArmMode::Test.is_armed());
}

#[test]
fn outcome_copies_compare_equal() {
    let failed = LockdownOutcome::Failed("permission denied".to_string());
    assert_eq!(failed.clone(), failed);
    assert_eq!(LockdownOutcome::Succeeded.clone(), LockdownOutcome::Succeeded);
    assert_ne!(failed, LockdownOutcome::Succeeded);
}
