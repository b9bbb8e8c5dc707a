//! One lockdown per guard.
//!
//! A trigger reports that it saw activity by handing its guard a tamper
//! event. The first event starts the lockdown; the guard stays tripped from
//! then on, and no later event starts another.

use vstd::prelude::*;
use crate::lockdown::{LockdownExecutor, LockdownState};
use crate::mode::ArmMode;
use crate::volume::VolumeMapping;

verus! {

/// The signal that a trigger gives the moment it detects activity. It says
/// that a trigger fired and nothing more.
#[derive(Clone, Copy, Debug, PartialEq, Eq, Structural)]
pub struct TamperEvent {}

/// A guard as contracts see it.
pub struct GuardState {
    pub mode: ArmMode,
    pub volume: Seq<char>,
    pub tripped: bool,
}

impl GuardState {
    /// A guard that no event has reached.
    pub open spec fn fresh(mode: ArmMode, volume: Seq<char>) -> GuardState {
        GuardState { mode, volume, tripped: false }
    }

    /// The guard after an event has reached it.
    pub open spec fn trip(self) -> GuardState {
        GuardState { tripped: true, ..self }
    }

    /// The lockdown that an event starts: one for the guard's mode and
    /// volume if the guard is fresh, none if it has tripped before.
    pub open spec fn started(self) -> Option<LockdownState> {
        if self.tripped {
            None
        } else {
            Some(LockdownState::start(self.mode, self.volume))
        }
    }

    /// How many lockdowns `events` events in a row start.
    pub open spec fn lockdowns(self, events: nat) -> nat
        decreases events,
    {
        if events == 0 {
            0
        } else {
            (if self.started().is_some() {
                1nat
            } else {
                0nat
            }) + self.trip().lockdowns((events - 1) as nat)
        }
    }
}

/// The first tamper event is the only one that counts: a fresh guard starts
/// exactly one lockdown however many events reach it, and a tripped guard
/// starts none.
pub proof fn lemma_one_lockdown_per_guard(guard: GuardState, events: nat)
    ensures
        guard.lockdowns(events) == if guard.tripped || events == 0 {
            0nat
        } else {
            1nat
        },
    decreases events,
{
    if events > 0 {
        lemma_one_lockdown_per_guard(guard.trip(), (events - 1) as nat);
    }
}

/// Holds what a lockdown needs until a trigger fires, and sees to it that
/// only one lockdown is ever started.
pub struct Guard {
    mode: ArmMode,
    volume: VolumeMapping,
    tripped: bool,
}

impl View for Guard {
    type V = GuardState;

    closed spec fn view(&self) -> GuardState {
        GuardState { mode: self.mode, volume: self.volume@, tripped: self.tripped }
    }
}

impl Guard {
    /// A fresh guard over `volume`.
    pub fn new(mode: ArmMode, volume: VolumeMapping) -> (guard: Guard)
        ensures
            guard@ == GuardState::fresh(mode, volume@),
    {
        Guard { mode, volume, tripped: false }
    }

    /// Takes a tamper event. The first one is answered with the executor of
    /// the lockdown, every later one with `None`.
    pub fn trip(&mut self, event: TamperEvent) -> (lockdown: Option<LockdownExecutor>)
        ensures
            final(self)@ == old(self)@.trip(),
            match lockdown {
                Some(executor) => old(self)@.started() == Some(executor@),
                None => old(self)@.started().is_none(),
            },
    {
        if self.tripped {
            None
        } else {
            self.tripped = true;
            Some(LockdownExecutor::new(self.mode, &self.volume))
        }
    }

    /// Whether an event has reached the guard.
    pub fn is_tripped(&self) -> (tripped: bool)
        ensures
            tripped == self@.tripped,
    {
        self.tripped
    }

    /// Whether the guard's lockdown is live or a rehearsal.
    pub fn mode(&self) -> (mode: ArmMode)
        ensures
            mode == self@.mode,
    {
        self.mode
    }

    /// The volume that the guard protects.
    pub fn volume(&self) -> (volume: &VolumeMapping)
        ensures
            volume@ == self@.volume,
    {
        &self.volume
    }
}

} // verus!
