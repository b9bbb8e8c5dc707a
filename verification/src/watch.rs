//! The watch trigger: a guard that fires on file system events.
//!
//! The trigger asks for a watch on each of its targets, for every kind of
//! event, and then waits. The first batch of events that is not empty counts
//! as one tamper event, whatever it holds, and starts the lockdown. The
//! trigger itself touches nothing: it is told what happened, event by event,
//! and answers each event with the next thing to do.

use vstd::prelude::*;
use vstd::string::*;
use crate::guard::{Guard, GuardState, TamperEvent};
use crate::host::{all_events_mask, ALL_EVENTS_MASK};
use crate::lockdown::{LockdownExecutor, LockdownState};
use crate::mode::ArmMode;
use crate::volume::VolumeMapping;

verus! {

/// Why a watch trigger gave up. Each of these ends the guard before or
/// instead of a lockdown and is reported to the operator.
#[derive(Clone, Copy, Debug, PartialEq, Eq, Structural)]
pub enum WatchFailure {
    /// The event queue could not be opened.
    Open,
    /// The watch on the target with this index could not be registered.
    Register { target: usize },
    /// Waiting for events failed.
    Read,
    /// An event was reported that the pending action cannot have led to.
    OutOfTurn,
}

impl WatchFailure {
    /// What to tell the operator.
    pub fn message(&self) -> (text: String)
        ensures
            text@ == match *self {
                WatchFailure::Open => "error while initializing the event queue"@,
                WatchFailure::Register { .. } => "failed to add file watch"@,
                WatchFailure::Read => "error while reading events"@,
                WatchFailure::OutOfTurn => "event reported out of turn"@,
            },
    {
        match self {
            WatchFailure::Open => String::from_str("error while initializing the event queue"),
            WatchFailure::Register { .. } => String::from_str("failed to add file watch"),
            WatchFailure::Read => String::from_str("error while reading events"),
            WatchFailure::OutOfTurn => String::from_str("event reported out of turn"),
        }
    }
}

/// Where a watch trigger stands.
#[derive(Clone, Copy, Debug, PartialEq, Eq, Structural)]
pub enum WatchPhase {
    /// Not started.
    Idle,
    /// Opening the event queue.
    Opening,
    /// Registering the watch on the target with index `next`; the targets
    /// before it are watched.
    Registering { next: usize },
    /// Every target is watched; waiting for events.
    Waiting,
    /// The lockdown has been handed out and is running.
    Firing,
    /// The lockdown is over.
    Done,
    /// The trigger gave up.
    Failed(WatchFailure),
}

/// What the caller of a watch trigger reports to it.
#[derive(Clone, Copy, Debug, PartialEq, Eq, Structural)]
pub enum WatchEvent {
    /// The caller is ready to run the trigger.
    Start,
    /// The event queue is open.
    Opened,
    /// The event queue could not be opened.
    OpenFailed,
    /// The watch asked for is registered.
    Registered,
    /// The watch asked for could not be registered.
    RegisterFailed,
    /// The wait is over and brought this many events.
    Batch { events: usize },
    /// The wait failed.
    ReadFailed,
    /// The lockdown handed out has run to its end.
    LockdownFinished,
}

/// What a watch trigger asks its caller to do next.
pub enum WatchAction {
    /// Open the event queue.
    Open,
    /// Register a watch on `path` for the events in `mask`.
    Register { path: String, mask: u32 },
    /// Block until events arrive.
    Await,
    /// Run this lockdown to its end.
    Lockdown(LockdownExecutor),
    /// Return: the trigger's work is done.
    Exit,
    /// Fail loudly for the reason given.
    Abort(WatchFailure),
}

/// What a `WatchAction` says, as plain values.
pub enum WatchActionView {
    Open,
    Register { path: Seq<char>, mask: u32 },
    Await,
    Lockdown(LockdownState),
    Exit,
    Abort(WatchFailure),
}

impl View for WatchAction {
    type V = WatchActionView;

    open spec fn view(&self) -> WatchActionView {
        match self {
            WatchAction::Open => WatchActionView::Open,
            WatchAction::Register { path, mask } => WatchActionView::Register {
                path: path@,
                mask: *mask,
            },
            WatchAction::Await => WatchActionView::Await,
            WatchAction::Lockdown(executor) => WatchActionView::Lockdown(executor@),
            WatchAction::Exit => WatchActionView::Exit,
            WatchAction::Abort(failure) => WatchActionView::Abort(*failure),
        }
    }
}

/// A watch trigger as contracts see it.
pub struct WatchState {
    pub targets: Seq<Seq<char>>,
    pub guard: GuardState,
    pub phase: WatchPhase,
}

impl WatchState {
    /// A trigger that has not started.
    pub open spec fn initial(targets: Seq<Seq<char>>, mode: ArmMode, volume: Seq<char>) -> WatchState {
        WatchState { targets, guard: GuardState::fresh(mode, volume), phase: WatchPhase::Idle }
    }

    /// The phase in which the targets from index `next` on are still to be
    /// registered.
    pub open spec fn registering_from(self, next: int) -> WatchPhase {
        if 0 <= next < self.targets.len() {
            WatchPhase::Registering { next: next as usize }
        } else {
            WatchPhase::Waiting
        }
    }

    /// What is asked of the caller on entering `phase`. A watch always asks
    /// for every kind of event.
    pub open spec fn action_on_entering(self, phase: WatchPhase) -> WatchActionView {
        match phase {
            WatchPhase::Idle => WatchActionView::Abort(WatchFailure::OutOfTurn),
            WatchPhase::Opening => WatchActionView::Open,
            WatchPhase::Registering { next } => if next < self.targets.len() {
                WatchActionView::Register { path: self.targets[next as int], mask: ALL_EVENTS_MASK }
            } else {
                WatchActionView::Abort(WatchFailure::OutOfTurn)
            },
            WatchPhase::Waiting => WatchActionView::Await,
            WatchPhase::Firing => WatchActionView::Lockdown(
                LockdownState::start(self.guard.mode, self.guard.volume),
            ),
            WatchPhase::Done => WatchActionView::Exit,
            WatchPhase::Failed(failure) => WatchActionView::Abort(failure),
        }
    }

    /// The phase that `event` leads to.
    ///
    /// An empty batch leaves the trigger waiting. Any other batch is one
    /// tamper event, however many events it holds and of whatever kind: it
    /// starts the lockdown if the guard is fresh. What went wrong while
    /// opening, registering or waiting ends the trigger, and so does an event
    /// that does not answer the pending action. A trigger that is done or has
    /// failed stays as it is.
    pub open spec fn phase_after(self, event: WatchEvent) -> WatchPhase {
        match (self.phase, event) {
            (WatchPhase::Idle, WatchEvent::Start) => WatchPhase::Opening,
            (WatchPhase::Opening, WatchEvent::Opened) => self.registering_from(0),
            (WatchPhase::Opening, WatchEvent::OpenFailed) => WatchPhase::Failed(WatchFailure::Open),
            (WatchPhase::Registering { next }, WatchEvent::Registered) => self.registering_from(
                next + 1,
            ),
            (WatchPhase::Registering { next }, WatchEvent::RegisterFailed) => WatchPhase::Failed(
                WatchFailure::Register { target: next },
            ),
            (WatchPhase::Waiting, WatchEvent::Batch { events }) => if events == 0 {
                WatchPhase::Waiting
            } else if self.guard.tripped {
                WatchPhase::Done
            } else {
                WatchPhase::Firing
            },
            (WatchPhase::Waiting, WatchEvent::ReadFailed) => WatchPhase::Failed(WatchFailure::Read),
            (WatchPhase::Firing, WatchEvent::LockdownFinished) => WatchPhase::Done,
            (WatchPhase::Done, _) => WatchPhase::Done,
            (WatchPhase::Failed(failure), _) => WatchPhase::Failed(failure),
            _ => WatchPhase::Failed(WatchFailure::OutOfTurn),
        }
    }

    /// `event` is a batch that counts as a tamper event.
    pub open spec fn is_tamper(self, event: WatchEvent) -> bool {
        &&& self.phase == WatchPhase::Waiting
        &&& event matches WatchEvent::Batch { events }
        &&& events > 0
    }

    /// The trigger after `event`, and what it asks of its caller.
    pub open spec fn step(self, event: WatchEvent) -> (WatchState, WatchActionView) {
        let phase = self.phase_after(event);
        let guard = if self.is_tamper(event) {
            self.guard.trip()
        } else {
            self.guard
        };
        (WatchState { phase, guard, ..self }, self.action_on_entering(phase))
    }

    /// The trigger after the events of `events`, one after the other.
    pub open spec fn replay(self, events: Seq<WatchEvent>) -> WatchState
        decreases events.len(),
    {
        if events.len() == 0 {
            self
        } else {
            self.replay(events.drop_last()).step(events.last()).0
        }
    }

    /// How many lockdowns the trigger hands out while the events of `events`
    /// reach it, one after the other.
    pub open spec fn lockdowns(self, events: Seq<WatchEvent>) -> nat
        decreases events.len(),
    {
        if events.len() == 0 {
            0
        } else {
            let before = self.replay(events.drop_last());
            self.lockdowns(events.drop_last()) + if before.step(events.last()).1 is Lockdown {
                1nat
            } else {
                0nat
            }
        }
    }

    /// No lockdown can come any more: one has been handed out, or the
    /// trigger has failed.
    pub open spec fn spent(self) -> bool {
        self.phase is Firing || self.phase is Done || self.phase is Failed
    }
}

/// The events that bring a trigger with `targets` targets from its start to
/// the point where it waits: the start, the opening of the queue and one
/// registration for each target.
pub open spec fn arming(targets: nat) -> Seq<WatchEvent> {
    seq![WatchEvent::Start, WatchEvent::Opened] + Seq::new(targets, |k: int| WatchEvent::Registered)
}

/// A step leaves a spent trigger spent, and only a trigger that is not
/// spent hands out a lockdown, which leaves it spent.
pub proof fn lemma_step(state: WatchState, event: WatchEvent)
    ensures
        state.step(event).0.targets == state.targets,
        state.spent() ==> state.step(event).0.spent(),
        state.step(event).1 is Lockdown ==> !state.spent() && state.step(event).0.spent(),
{
}

/// Replaying events leaves a spent trigger spent, and a trigger that has
/// handed out a lockdown is spent.
pub proof fn lemma_replay(state: WatchState, events: Seq<WatchEvent>)
    ensures
        state.replay(events).targets == state.targets,
        state.spent() ==> state.replay(events).spent(),
        state.lockdowns(events) == 0 || state.replay(events).spent(),
        state.spent() ==> state.lockdowns(events) == 0,
        state.lockdowns(events) <= 1,
    decreases events.len(),
{
    if events.len() > 0 {
        lemma_replay(state, events.drop_last());
        lemma_step(state.replay(events.drop_last()), events.last());
    }
}

/// Exactly once, at most: whatever events reach a trigger, in whatever
/// order and however many per batch, it hands out at most one lockdown.
pub proof fn lemma_at_most_one_lockdown(state: WatchState, events: Seq<WatchEvent>)
    ensures
        state.lockdowns(events) <= 1,
{
    lemma_replay(state, events);
}

/// Replaying one run of events after another is replaying them all, and the
/// lockdowns add up.
pub proof fn lemma_replay_in_parts(state: WatchState, first: Seq<WatchEvent>, then: Seq<WatchEvent>)
    ensures
        state.replay(first + then) == state.replay(first).replay(then),
        state.lockdowns(first + then) == state.lockdowns(first) + state.replay(first).lockdowns(
            then,
        ),
    decreases then.len(),
{
    if then.len() > 0 {
        assert((first + then).drop_last() =~= first + then.drop_last());
        lemma_replay_in_parts(state, first, then.drop_last());
    }
}

/// After the start, the opening of the queue and `registered`
/// registrations a trigger registers the next target, or waits if none is
/// left; its guard is fresh and it has handed out no lockdown.
proof fn lemma_arming_in_progress(
    targets: Seq<Seq<char>>,
    mode: ArmMode,
    volume: Seq<char>,
    registered: nat,
)
    requires
        registered <= targets.len() <= usize::MAX,
    ensures
        ({
            let state = WatchState::initial(targets, mode, volume);
            let armed = state.replay(arming(registered));
            &&& armed.phase == state.registering_from(registered as int)
            &&& armed.guard == GuardState::fresh(mode, volume)
            &&& armed.targets == targets
            &&& state.lockdowns(arming(registered)) == 0
        }),
    decreases registered,
{
    let state = WatchState::initial(targets, mode, volume);
    let events = arming(registered);
    if registered == 0 {
        let started = seq![WatchEvent::Start];
        assert(events.drop_last() =~= started);
        assert(state.lockdowns(started.drop_last()) == 0);
        assert(state.lockdowns(started) == 0);
    } else {
        let before = arming((registered - 1) as nat);
        assert(events.drop_last() =~= before);
        lemma_arming_in_progress(targets, mode, volume, (registered - 1) as nat);
    }
}

/// One batch, one lockdown: once a trigger is armed, the first batch that
/// is not empty makes it hand out the lockdown for its mode and volume, and
/// over the whole run it hands out exactly one, however many events the
/// batch holds and whatever is reported afterwards.
pub proof fn lemma_first_batch_fires_once(
    targets: Seq<Seq<char>>,
    mode: ArmMode,
    volume: Seq<char>,
    events: usize,
    afterwards: Seq<WatchEvent>,
)
    requires
        events > 0,
        targets.len() <= usize::MAX,
    ensures
        ({
            let state = WatchState::initial(targets, mode, volume);
            let armed = state.replay(arming(targets.len()));
            let batch = WatchEvent::Batch { events };
            &&& armed.phase == WatchPhase::Waiting
            &&& armed.step(batch).1 == WatchActionView::Lockdown(
                LockdownState::start(mode, volume),
            )
            &&& state.lockdowns(arming(targets.len()) + seq![batch] + afterwards) == 1
        }),
{
    let state = WatchState::initial(targets, mode, volume);
    let run = arming(targets.len());
    let armed = state.replay(run);
    let batch = WatchEvent::Batch { events };
    lemma_arming_in_progress(targets, mode, volume, targets.len());
    lemma_replay(state, run);
    lemma_replay_in_parts(state, run, seq![batch]);
    reveal_with_fuel(WatchState::lockdowns, 2);
    lemma_replay_in_parts(state, run + seq![batch], afterwards);
    let fired = state.replay(run + seq![batch]);
    lemma_step(armed, batch);
    lemma_replay(fired, afterwards);
}

/// Guards a set of paths by watching them for file system events.
pub struct WatchTrigger {
    targets: Vec<String>,
    guard: Guard,
    phase: WatchPhase,
}

impl View for WatchTrigger {
    type V = WatchState;

    closed spec fn view(&self) -> WatchState {
        WatchState {
            targets: self.targets@.map_values(|target: String| target@),
            guard: self.guard@,
            phase: self.phase,
        }
    }
}

impl WatchTrigger {
    /// A trigger over `targets` that starts a lockdown of `volume` in `mode`
    /// when it fires.
    pub fn new(targets: Vec<String>, mode: ArmMode, volume: VolumeMapping) -> (trigger:
        WatchTrigger)
        ensures
            trigger@ == WatchState::initial(
                targets@.map_values(|target: String| target@),
                mode,
                volume@,
            ),
    {
        WatchTrigger { targets, guard: Guard::new(mode, volume), phase: WatchPhase::Idle }
    }

    /// Where the trigger stands.
    pub fn phase(&self) -> (phase: WatchPhase)
        ensures
            phase == self@.phase,
    {
        self.phase
    }

    /// The phase in which the targets from index `next` on are still to be
    /// registered.
    fn registering_from(&self, next: usize) -> (phase: WatchPhase)
        ensures
            phase == self@.registering_from(next as int),
    {
        if next < self.targets.len() {
            WatchPhase::Registering { next }
        } else {
            WatchPhase::Waiting
        }
    }

    /// Takes the report of what happened and answers with what to do next.
    ///
    /// The first batch that is not empty is answered with the lockdown, and
    /// nothing after it is: see `lemma_at_most_one_lockdown` and
    /// `lemma_first_batch_fires_once`.
    pub fn step(&mut self, event: WatchEvent) -> (action: WatchAction)
        ensures
            (final(self)@, action@) == old(self)@.step(event),
    {
        let mut lockdown: Option<LockdownExecutor> = None;
        let phase = match self.phase {
            WatchPhase::Idle => match event {
                WatchEvent::Start => WatchPhase::Opening,
                _ => WatchPhase::Failed(WatchFailure::OutOfTurn),
            },
            WatchPhase::Opening => match event {
                WatchEvent::Opened => self.registering_from(0),
                WatchEvent::OpenFailed => WatchPhase::Failed(WatchFailure::Open),
                _ => WatchPhase::Failed(WatchFailure::OutOfTurn),
            },
            WatchPhase::Registering { next } => match event {
                WatchEvent::Registered => if next < self.targets.len() {
                    self.registering_from(next + 1)
                } else {
                    WatchPhase::Waiting
                },
                WatchEvent::RegisterFailed => WatchPhase::Failed(
                    WatchFailure::Register { target: next },
                ),
                _ => WatchPhase::Failed(WatchFailure::OutOfTurn),
            },
            WatchPhase::Waiting => match event {
                WatchEvent::Batch { events } => if events == 0 {
                    WatchPhase::Waiting
                } else {
                    lockdown = self.guard.trip(TamperEvent {  });
                    if lockdown.is_some() {
                        WatchPhase::Firing
                    } else {
                        WatchPhase::Done
                    }
                },
                WatchEvent::ReadFailed => WatchPhase::Failed(WatchFailure::Read),
                _ => WatchPhase::Failed(WatchFailure::OutOfTurn),
            },
            WatchPhase::Firing => match event {
                WatchEvent::LockdownFinished => WatchPhase::Done,
                _ => WatchPhase::Failed(WatchFailure::OutOfTurn),
            },
            WatchPhase::Done => WatchPhase::Done,
            WatchPhase::Failed(failure) => WatchPhase::Failed(failure),
        };
        self.phase = phase;
        match lockdown {
            Some(executor) => WatchAction::Lockdown(executor),
            None => match phase {
                WatchPhase::Opening => WatchAction::Open,
                WatchPhase::Registering { next } => if next < self.targets.len() {
                    WatchAction::Register {
                        path: self.targets[next].clone(),
                        mask: all_events_mask(),
                    }
                } else {
                    WatchAction::Abort(WatchFailure::OutOfTurn)
                },
                WatchPhase::Waiting => WatchAction::Await,
                WatchPhase::Done => WatchAction::Exit,
                WatchPhase::Failed(failure) => WatchAction::Abort(failure),
                WatchPhase::Idle | WatchPhase::Firing => WatchAction::Abort(
                    WatchFailure::OutOfTurn,
                ),
            },
        }
    }
}

} // verus!
