//! From the command line to a trigger.
//!
//! The guard is started with three words: `arm` or `test`, then `notify`
//! for the watch trigger or `fuse` for the trap trigger, then the path to
//! guard. Anything else is a usage error.

use vstd::prelude::*;
use vstd::string::*;
use crate::mode::ArmMode;
use crate::trap::{TrapState, TrapTrigger};
use crate::guard::GuardState;
use crate::volume::VolumeMapping;
use crate::watch::{WatchState, WatchTrigger};

verus! {

/// Which trigger guards the path.
#[derive(Clone, Copy, Debug, PartialEq, Eq, Structural)]
pub enum Backend {
    /// Watch the path for file system events.
    Watch,
    /// Serve a trap file system at the path.
    Trap,
}

/// Why a command line was turned down.
#[derive(Clone, Copy, Debug, PartialEq, Eq, Structural)]
pub enum UsageError {
    /// The command line does not hold the program's name and three words.
    ArgumentCount,
    /// The first word is neither `arm` nor `test`.
    UnknownMode,
    /// The second word is neither `notify` nor `fuse`.
    UnknownBackend,
}

impl UsageError {
    /// What to tell the operator.
    pub fn message(&self) -> (text: String)
        ensures
            text@ == match *self {
                UsageError::ArgumentCount => "usage: <program> [test|arm] [notify|fuse] <path>"@,
                UsageError::UnknownMode => "usage: <program> [test|arm] [notify|fuse] <path>"@,
                UsageError::UnknownBackend => "usage: <program> [notify|fuse] <path>"@,
            },
    {
        match self {
            UsageError::ArgumentCount => String::from_str(
                "usage: <program> [test|arm] [notify|fuse] <path>",
            ),
            UsageError::UnknownMode => String::from_str(
                "usage: <program> [test|arm] [notify|fuse] <path>",
            ),
            UsageError::UnknownBackend => String::from_str("usage: <program> [notify|fuse] <path>"),
        }
    }
}

/// What the operator asked for.
#[derive(Debug, PartialEq, Eq)]
pub struct Invocation {
    pub mode: ArmMode,
    pub backend: Backend,
    pub path: String,
}

/// What an `Invocation` says, as plain values.
pub struct InvocationView {
    pub mode: ArmMode,
    pub backend: Backend,
    pub path: Seq<char>,
}

impl View for Invocation {
    type V = InvocationView;

    open spec fn view(&self) -> InvocationView {
        InvocationView { mode: self.mode, backend: self.backend, path: self.path@ }
    }
}

/// What a command line asks for. The mode is looked at before the trigger,
/// so that a command line with both wrong is turned down for its mode.
pub open spec fn invocation_of(args: Seq<Seq<char>>) -> Result<InvocationView, UsageError> {
    if args.len() != 4 {
        Err(UsageError::ArgumentCount)
    } else if args[1] != "test"@ && args[1] != "arm"@ {
        Err(UsageError::UnknownMode)
    } else if args[2] != "notify"@ && args[2] != "fuse"@ {
        Err(UsageError::UnknownBackend)
    } else {
        Ok(
            InvocationView {
                mode: if args[1] == "test"@ {
                    ArmMode::Test
                } else {
                    ArmMode::Armed
                },
                backend: if args[2] == "notify"@ {
                    Backend::Watch
                } else {
                    Backend::Trap
                },
                path: args[3],
            },
        )
    }
}

/// The trigger that the coordinator starts.
pub enum Trigger {
    Watch(WatchTrigger),
    Trap(TrapTrigger),
}

/// What a `Trigger` is, as contracts see it.
pub enum TriggerView {
    Watch(WatchState),
    Trap(TrapState),
}

impl View for Trigger {
    type V = TriggerView;

    open spec fn view(&self) -> TriggerView {
        match self {
            Trigger::Watch(trigger) => TriggerView::Watch(trigger@),
            Trigger::Trap(trigger) => TriggerView::Trap(trigger@),
        }
    }
}

impl Invocation {
    /// Reads a command line, the program's name first.
    pub fn parse(args: &Vec<String>) -> (parsed: Result<Invocation, UsageError>)
        ensures
            match parsed {
                Ok(invocation) => invocation_of(args@.map_values(|arg: String| arg@)) == Ok::<
                    InvocationView,
                    UsageError,
                >(invocation@),
                Err(e) => invocation_of(args@.map_values(|arg: String| arg@)) == Err::<
                    InvocationView,
                    UsageError,
                >(e),
            },
    {
        if args.len() != 4 {
            return Err(UsageError::ArgumentCount);
        }
        let test = args[1] == String::from_str("test");
        if !test && !(args[1] == String::from_str("arm")) {
            return Err(UsageError::UnknownMode);
        }
        let watch = args[2] == String::from_str("notify");
        if !watch && !(args[2] == String::from_str("fuse")) {
            return Err(UsageError::UnknownBackend);
        }
        Ok(
            Invocation {
                mode: if test {
                    ArmMode::Test
                } else {
                    ArmMode::Armed
                },
                backend: if watch {
                    Backend::Watch
                } else {
                    Backend::Trap
                },
                path: args[3].clone(),
            },
        )
    }

    /// The one trigger that guards the path over `volume`: a watch trigger
    /// with the path for its only target, or a trap trigger mounted at the
    /// path.
    pub fn trigger(self, volume: VolumeMapping) -> (trigger: Trigger)
        ensures
            trigger@ == match self.backend {
                Backend::Watch => TriggerView::Watch(
                    WatchState::initial(seq![self.path@], self.mode, volume@),
                ),
                Backend::Trap => TriggerView::Trap(
                    TrapState {
                        mountpoint: self.path@,
                        guard: GuardState::fresh(self.mode, volume@),
                    },
                ),
            },
    {
        match self.backend {
            Backend::Watch => {
                let mut targets: Vec<String> = Vec::new();
                targets.push(self.path);
                assert(targets@.map_values(|target: String| target@) =~= seq![self.path@]);
                Trigger::Watch(WatchTrigger::new(targets, self.mode, volume))
            },
            Backend::Trap => Trigger::Trap(TrapTrigger::new(self.path, self.mode, volume)),
        }
    }
}

} // verus!
