//! The lockdown sequence.
//!
//! A lockdown runs four stages in a fixed order: unlock the kernel's
//! emergency controls, force the encrypted volume closed, force a kernel
//! crash, force a reboot. The executor decides what each stage does and keeps
//! the outcomes; carrying an action out is left to its caller, who reports
//! back how it went. Whatever is reported, the next stage follows: an outcome
//! is a record and never a reason to stop. In test mode every stage is an
//! announcement, so that a rehearsal touches nothing.

use vstd::prelude::*;
use vstd::string::*;
use crate::mode::ArmMode;
use crate::volume::VolumeMapping;

verus! {

/// How many stages a lockdown has.
pub const STAGE_COUNT: usize = 4;

/// A stage of the lockdown.
#[derive(Clone, Copy, Debug, PartialEq, Eq, Structural)]
pub enum Stage {
    /// Unlock the kernel's emergency controls.
    EnableControls,
    /// Force the encrypted volume closed.
    CloseVolume,
    /// Force an immediate kernel crash.
    ForceCrash,
    /// Force a hard reboot.
    Reboot,
}

impl Stage {
    /// The stage that runs after `done` stages, if one is left.
    pub open spec fn at(done: int) -> Option<Stage> {
        if done == 0 {
            Some(Stage::EnableControls)
        } else if done == 1 {
            Some(Stage::CloseVolume)
        } else if done == 2 {
            Some(Stage::ForceCrash)
        } else if done == 3 {
            Some(Stage::Reboot)
        } else {
            None
        }
    }

    /// The stage that runs after `done` stages, if one is left.
    pub fn nth(done: usize) -> (stage: Option<Stage>)
        ensures
            stage == Stage::at(done as int),
    {
        if done == 0 {
            Some(Stage::EnableControls)
        } else if done == 1 {
            Some(Stage::CloseVolume)
        } else if done == 2 {
            Some(Stage::ForceCrash)
        } else if done == 3 {
            Some(Stage::Reboot)
        } else {
            None
        }
    }
}

/// Something for the caller of the executor to do.
#[derive(Debug, PartialEq, Eq)]
pub enum SystemAction {
    /// Write `data` to the kernel control file at `path`.
    WriteControl { path: String, data: String },
    /// Start `program` with `args` as a process of its own, and do not wait
    /// for it.
    Launch { program: String, args: Vec<String> },
    /// Touch nothing and put `message` on record.
    Announce { message: String },
}

/// What a `SystemAction` says, as plain sequences.
pub enum ActionView {
    WriteControl { path: Seq<char>, data: Seq<char> },
    Launch { program: Seq<char>, args: Seq<Seq<char>> },
    Announce { message: Seq<char> },
}

impl View for SystemAction {
    type V = ActionView;

    open spec fn view(&self) -> ActionView {
        match self {
            SystemAction::WriteControl { path, data } => ActionView::WriteControl {
                path: path@,
                data: data@,
            },
            SystemAction::Launch { program, args } => ActionView::Launch {
                program: program@,
                args: args@.map_values(|arg: String| arg@),
            },
            SystemAction::Announce { message } => ActionView::Announce { message: message@ },
        }
    }
}

impl ActionView {
    /// The action writes to a kernel control file.
    pub open spec fn writes_control(self) -> bool {
        self is WriteControl
    }

    /// The action starts a process.
    pub open spec fn starts_process(self) -> bool {
        self is Launch
    }
}

/// `words`, each with a space before it.
pub open spec fn spaced(words: Seq<Seq<char>>) -> Seq<char>
    decreases words.len(),
{
    if words.len() == 0 {
        Seq::empty()
    } else {
        spaced(words.drop_last()) + " "@ + words.last()
    }
}

/// An action in words.
pub open spec fn description(action: ActionView) -> Seq<char> {
    match action {
        ActionView::WriteControl { path, data } => "write "@ + data + " to "@ + path,
        ActionView::Launch { program, args } => "start "@ + program + spaced(args),
        ActionView::Announce { message } => message,
    }
}

/// What a stage does to the host when the guard is armed.
pub open spec fn live_action(stage: Stage, volume: Seq<char>) -> ActionView {
    match stage {
        Stage::EnableControls => ActionView::WriteControl {
            path: "/proc/sys/kernel/sysrq"@,
            data: "1"@,
        },
        Stage::CloseVolume => ActionView::Launch {
            program: "/usr/sbin/cryptsetup"@,
            args: seq!["luksClose"@, volume],
        },
        Stage::ForceCrash => ActionView::WriteControl {
            path: "/proc/sysrq-trigger"@,
            data: "b"@,
        },
        Stage::Reboot => ActionView::Launch {
            program: "/usr/sbin/reboot"@,
            args: seq!["--force"@, "--force"@],
        },
    }
}

/// What a stage comes to in `mode`: the live action when armed, and in test
/// mode the announcement of what the live action would have been.
pub open spec fn action_for(mode: ArmMode, stage: Stage, volume: Seq<char>) -> ActionView {
    match mode {
        ArmMode::Armed => live_action(stage, volume),
        ArmMode::Test => ActionView::Announce {
            message: "would "@ + description(live_action(stage, volume)),
        },
    }
}

impl SystemAction {
    /// The action in words.
    pub fn describe(&self) -> (text: String)
        ensures
            text@ == description(self@),
    {
        match self {
            SystemAction::WriteControl { path, data } => {
                String::from_str("write ").concat(data.as_str()).concat(" to ").concat(
                    path.as_str(),
                )
            },
            SystemAction::Launch { program, args } => {
                let mut text = String::from_str("start ").concat(program.as_str());
                let ghost words = args@.map_values(|arg: String| arg@);
                let mut k: usize = 0;
                while k < args.len()
                    invariant
                        k <= args.len(),
                        words == args@.map_values(|arg: String| arg@),
                        text@ == "start "@ + program@ + spaced(words.take(k as int)),
                    decreases args.len() - k,
                {
                    proof {
                        let upto = words.take(k + 1);
                        assert(upto.drop_last() =~= words.take(k as int));
                    }
                    text = text.concat(" ").concat(args[k].as_str());
                    k += 1;
                }
                assert(words.take(args.len() as int) =~= words);
                text
            },
            SystemAction::Announce { message } => message.clone(),
        }
    }
}

/// How a stage went.
#[derive(Debug, PartialEq, Eq)]
pub enum LockdownOutcome {
    /// The stage's action was carried out, or announced in test mode.
    Succeeded,
    /// The stage's action failed, for the reason given.
    Failed(String),
}

/// What a `LockdownOutcome` says, as plain sequences.
pub enum OutcomeView {
    Succeeded,
    Failed(Seq<char>),
}

impl View for LockdownOutcome {
    type V = OutcomeView;

    open spec fn view(&self) -> OutcomeView {
        match self {
            LockdownOutcome::Succeeded => OutcomeView::Succeeded,
            LockdownOutcome::Failed(reason) => OutcomeView::Failed(reason@),
        }
    }
}

impl Clone for LockdownOutcome {
    fn clone(&self) -> (copy: LockdownOutcome)
        ensures
            copy@ == self@,
    {
        match self {
            LockdownOutcome::Succeeded => LockdownOutcome::Succeeded,
            LockdownOutcome::Failed(reason) => LockdownOutcome::Failed(reason.clone()),
        }
    }
}

/// A lockdown under way: its mode, the volume it closes, and how the stages
/// run so far went.
pub struct LockdownState {
    pub mode: ArmMode,
    pub volume: Seq<char>,
    pub outcomes: Seq<OutcomeView>,
}

impl LockdownState {
    /// A lockdown of which no stage has run.
    pub open spec fn start(mode: ArmMode, volume: Seq<char>) -> LockdownState {
        LockdownState { mode, volume, outcomes: Seq::empty() }
    }

    /// Every stage has run.
    pub open spec fn finished(self) -> bool {
        self.outcomes.len() >= STAGE_COUNT
    }

    /// The action of the next stage, if one is left. It is a matter of the
    /// mode, the volume and the number of stages run, and of nothing else.
    pub open spec fn pending(self) -> Option<ActionView> {
        match Stage::at(self.outcomes.len() as int) {
            Some(stage) => Some(action_for(self.mode, stage, self.volume)),
            None => None,
        }
    }

    /// The lockdown after the pending stage went as `outcome` says. Once
    /// every stage has run there is nothing left to record.
    pub open spec fn record(self, outcome: OutcomeView) -> LockdownState {
        if self.finished() {
            self
        } else {
            LockdownState { outcomes: self.outcomes.push(outcome), ..self }
        }
    }

    /// The lockdown after the coming stages went as `reports` say, one
    /// after the other.
    pub open spec fn replay(self, reports: Seq<OutcomeView>) -> LockdownState
        decreases reports.len(),
    {
        if reports.len() == 0 {
            self
        } else {
            self.replay(reports.drop_last()).record(reports.last())
        }
    }
}

/// Runs the lockdown sequence, one stage at a time.
pub struct LockdownExecutor {
    mode: ArmMode,
    volume: String,
    outcomes: Vec<LockdownOutcome>,
}

impl View for LockdownExecutor {
    type V = LockdownState;

    closed spec fn view(&self) -> LockdownState {
        LockdownState {
            mode: self.mode,
            volume: self.volume@,
            outcomes: self.outcomes@.map_values(|outcome: LockdownOutcome| outcome@),
        }
    }
}

impl LockdownExecutor {
    /// An executor that is about to lock `volume` down.
    pub fn new(mode: ArmMode, volume: &VolumeMapping) -> (executor: LockdownExecutor)
        ensures
            executor@ == LockdownState::start(mode, volume@),
    {
        let executor = LockdownExecutor {
            mode,
            volume: volume.identifier().clone(),
            outcomes: Vec::new(),
        };
        assert(executor@.outcomes =~= Seq::empty());
        executor
    }

    /// The action of the next stage, or `None` once all four have run.
    /// An armed executor hands out the live action. An executor in test mode
    /// hands out an announcement of it and never the action itself.
    pub fn pending(&self) -> (action: Option<SystemAction>)
        ensures
            match action {
                Some(a) => self@.pending() == Some(a@),
                None => self@.pending().is_none(),
            },
    {
        let stage = match Stage::nth(self.outcomes.len()) {
            Some(stage) => stage,
            None => {
                return None;
            },
        };
        let live = match stage {
            Stage::EnableControls => SystemAction::WriteControl {
                path: String::from_str("/proc/sys/kernel/sysrq"),
                data: String::from_str("1"),
            },
            Stage::CloseVolume => {
                let mut args: Vec<String> = Vec::new();
                args.push(String::from_str("luksClose"));
                args.push(self.volume.clone());
                SystemAction::Launch { program: String::from_str("/usr/sbin/cryptsetup"), args }
            },
            Stage::ForceCrash => SystemAction::WriteControl {
                path: String::from_str("/proc/sysrq-trigger"),
                data: String::from_str("b"),
            },
            Stage::Reboot => {
                let mut args: Vec<String> = Vec::new();
                args.push(String::from_str("--force"));
                args.push(String::from_str("--force"));
                SystemAction::Launch { program: String::from_str("/usr/sbin/reboot"), args }
            },
        };
        proof {
            if let ActionView::Launch { program, args } = live@ {
                assert(args =~= live_action(stage, self.volume@)->Launch_args);
            }
        }
        match self.mode {
            ArmMode::Armed => Some(live),
            ArmMode::Test => Some(
                SystemAction::Announce {
                    message: String::from_str("would ").concat(live.describe().as_str()),
                },
            ),
        }
    }

    /// Puts on record how the pending stage went and moves on to the next
    /// one, whether the stage succeeded or failed. Once all four stages have
    /// run the report is dropped.
    pub fn record(&mut self, outcome: LockdownOutcome)
        ensures
            final(self)@ == old(self)@.record(outcome@),
    {
        if self.outcomes.len() < STAGE_COUNT {
            self.outcomes.push(outcome);
            assert(self@.outcomes =~= old(self)@.outcomes.push(outcome@));
        }
    }

    /// Whether all four stages have run.
    pub fn is_finished(&self) -> (finished: bool)
        ensures
            finished == self@.finished(),
    {
        self.outcomes.len() >= STAGE_COUNT
    }

    /// The stage whose action is pending, or `None` once all four have run.
    pub fn stage(&self) -> (stage: Option<Stage>)
        ensures
            stage == Stage::at(self@.outcomes.len() as int),
    {
        Stage::nth(self.outcomes.len())
    }

    /// Whether the executor acts or rehearses.
    pub fn mode(&self) -> (mode: ArmMode)
        ensures
            mode == self@.mode,
    {
        self.mode
    }

    /// The name of the volume that the executor closes.
    pub fn volume(&self) -> (name: &String)
        ensures
            name@ == self@.volume,
    {
        &self.volume
    }

    /// How the stages run so far went, in the order in which they ran.
    pub fn outcomes(&self) -> (outcomes: &Vec<LockdownOutcome>)
        ensures
            outcomes@.map_values(|outcome: LockdownOutcome| outcome@) == self@.outcomes,
    {
        &self.outcomes
    }
}

/// Every stage is attempted: however the stages run so far went, the next
/// stage's action is pending until all four have run. A failure aborts
/// nothing.
pub proof fn lemma_every_stage_is_attempted(
    mode: ArmMode,
    volume: Seq<char>,
    reports: Seq<OutcomeView>,
)
    ensures
        LockdownState::start(mode, volume).replay(reports).pending() == match Stage::at(
            reports.len() as int,
        ) {
            Some(stage) => Some(action_for(mode, stage, volume)),
            None => None,
        },
{
    lemma_replay_keeps_the_record(LockdownState::start(mode, volume), reports);
}

/// Replaying reports changes neither mode nor volume, and puts the reports
/// on record in their order until four stages have run.
pub proof fn lemma_replay_keeps_the_record(state: LockdownState, reports: Seq<OutcomeView>)
    ensures
        state.replay(reports).mode == state.mode,
        state.replay(reports).volume == state.volume,
        state.outcomes.len() + reports.len() <= STAGE_COUNT ==> state.replay(reports).outcomes
            == state.outcomes + reports,
        state.outcomes.len() <= STAGE_COUNT <= state.outcomes.len() + reports.len()
            ==> state.replay(reports).outcomes == (state.outcomes + reports).take(
            STAGE_COUNT as int,
        ),
    decreases reports.len(),
{
    if reports.len() > 0 {
        lemma_replay_keeps_the_record(state, reports.drop_last());
    }
}

/// A rehearsal is harmless and complete: in test mode no pending action of
/// a lockdown ever writes to a kernel control file or starts a process,
/// however the stages are reported to have gone, and four reports leave four
/// outcomes on record.
pub proof fn lemma_test_mode_touches_nothing(volume: Seq<char>, reports: Seq<OutcomeView>)
    ensures
        match LockdownState::start(ArmMode::Test, volume).replay(reports).pending() {
            Some(action) => !action.writes_control() && !action.starts_process(),
            None => reports.len() >= STAGE_COUNT,
        },
        reports.len() >= STAGE_COUNT ==> LockdownState::start(ArmMode::Test, volume).replay(
            reports,
        ).outcomes == reports.take(STAGE_COUNT as int),
{
    let start = LockdownState::start(ArmMode::Test, volume);
    lemma_every_stage_is_attempted(ArmMode::Test, volume, reports);
    lemma_replay_keeps_the_record(start, reports);
}

} // verus!
