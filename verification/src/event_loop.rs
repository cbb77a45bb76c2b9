//! When cycles are run: once, or again and again until cancelled.
//!
//! The library neither sleeps nor listens. An [`EventLoop`] says what is to
//! be done now and takes word of what came of it; whoever drives it runs
//! the cycle, or waits for the first of a change notification, the timer
//! and a cancellation, and reports back.

use crate::cycle::CycleError;
use std::time::Duration;
use vstd::prelude::*;

verus! {

/// How a run ended.
#[derive(Clone, Copy, Debug, PartialEq, Eq, Structural)]
pub enum ExitStatus {
    /// The one cycle of a single run was carried out, or a continuous run
    /// was cancelled.
    Clean,
    /// A cycle failed.
    Failed(CycleError),
}

/// Where a run stands.
#[derive(Clone, Copy, Debug, PartialEq, Eq, Structural)]
pub enum LoopState {
    /// A cycle is under way. `cancelled` tells whether the user has asked
    /// for the run to end since the cycle began.
    Running { cancelled: bool },
    /// Between two cycles of a continuous run.
    Idle,
    /// The run is over.
    Terminated(ExitStatus),
}

/// What happened.
#[derive(Clone, Copy, Debug, PartialEq, Eq)]
pub enum LoopEvent {
    /// The cycle that was under way has ended, like this.
    CycleEnded(Result<(), CycleError>),
    /// The device source gave notice of a change.
    Notified,
    /// The time to wait has passed.
    TimerElapsed,
    /// The user asked for the run to end.
    Cancelled,
}

/// What is to be done now.
#[derive(Clone, Copy, Debug, PartialEq, Eq)]
pub enum LoopAction {
    /// Run a cycle, then report [`LoopEvent::CycleEnded`].
    RunCycle,
    /// Wait for a change notification, for the given time to pass, or for a
    /// cancellation, whichever comes first, and report that one. The time
    /// counts from now.
    Wait(Duration),
    /// Stop.
    Exit(ExitStatus),
}

/// The status that the result of a cycle stands for.
pub open spec fn status_of(result: Result<(), CycleError>) -> ExitStatus {
    match result {
        Ok(_) => ExitStatus::Clean,
        Err(error) => ExitStatus::Failed(error),
    }
}

/// The state at the start of a run: the first cycle is under way.
pub open spec fn initial() -> LoopState {
    LoopState::Running { cancelled: false }
}

/// The state after `event`.
///
/// A cycle that fails ends the run. A cycle that succeeds ends a single run
/// and is followed by a wait in a continuous one. A notification or the
/// timer ends the wait and starts the next cycle; a cancellation ends the
/// wait and the run.
///
/// A cycle is never cut short. A cancellation that arrives while a cycle is
/// under way is kept in mind, and ends the run when the cycle has ended. A
/// notification or a timer that arrives then is lost: the next wait starts
/// afresh. An event that does not belong to the state otherwise, such as
/// the end of a cycle during a wait, or any event after the end of the run,
/// changes nothing.
pub open spec fn react(continuous: bool, state: LoopState, event: LoopEvent) -> LoopState {
    match state {
        LoopState::Running { cancelled } => match event {
            LoopEvent::CycleEnded(Ok(_)) => if continuous && !cancelled {
                LoopState::Idle
            } else {
                LoopState::Terminated(ExitStatus::Clean)
            },
            LoopEvent::CycleEnded(Err(error)) => LoopState::Terminated(ExitStatus::Failed(error)),
            LoopEvent::Cancelled => LoopState::Running { cancelled: true },
            LoopEvent::Notified => state,
            LoopEvent::TimerElapsed => state,
        },
        LoopState::Idle => match event {
            LoopEvent::Notified => LoopState::Running { cancelled: false },
            LoopEvent::TimerElapsed => LoopState::Running { cancelled: false },
            LoopEvent::Cancelled => LoopState::Terminated(ExitStatus::Clean),
            LoopEvent::CycleEnded(_) => state,
        },
        LoopState::Terminated(_) => state,
    }
}

/// Whether a cycle is under way in `state`.
pub open spec fn cycle_under_way(state: LoopState) -> bool {
    state is Running
}

/// What is to be done in a state.
pub open spec fn action_in(refresh: Duration, state: LoopState) -> LoopAction {
    match state {
        LoopState::Running { .. } => LoopAction::RunCycle,
        LoopState::Idle => LoopAction::Wait(refresh),
        LoopState::Terminated(status) => LoopAction::Exit(status),
    }
}

/// The state after a series of events.
pub open spec fn follow(continuous: bool, state: LoopState, events: Seq<LoopEvent>) -> LoopState
    decreases events.len(),
{
    if events.len() == 0 {
        state
    } else {
        react(continuous, follow(continuous, state, events.drop_last()), events.last())
    }
}

impl ExitStatus {
    /// The exit code of the process: 0 for a clean end, 1 for a failure.
    pub fn code(self) -> (code: u8)
        ensures
            code == 0 <==> self == ExitStatus::Clean,
            code == 0 || code == 1,
    {
        match self {
            ExitStatus::Clean => 0,
            ExitStatus::Failed(_) => 1,
        }
    }
}

/// A run: one cycle, or cycle after cycle with waits in between.
#[derive(Debug)]
pub struct EventLoop {
    continuous: bool,
    refresh: Duration,
    state: LoopState,
}

impl EventLoop {
    #[verifier::type_invariant]
    spec fn well_formed(self) -> bool {
        self.state == LoopState::Idle ==> self.continuous
    }

    /// Whether the run goes on after its first cycle.
    pub closed spec fn continuous(&self) -> bool {
        self.continuous
    }

    /// How long a wait lasts at most.
    pub closed spec fn refresh(&self) -> Duration {
        self.refresh
    }

    /// Where the run stands.
    pub closed spec fn state(&self) -> LoopState {
        self.state
    }

    /// A run at its start: the first cycle is to be run.
    pub fn new(continuous: bool, refresh: Duration) -> (run: EventLoop)
        ensures
            run.continuous() == continuous,
            run.refresh() == refresh,
            run.state() == initial(),
    {
        EventLoop { continuous, refresh, state: LoopState::Running { cancelled: false } }
    }

    /// What is to be done now.
    pub fn action(&self) -> (action: LoopAction)
        ensures
            action == action_in(self.refresh(), self.state()),
    {
        match self.state {
            LoopState::Running { .. } => LoopAction::RunCycle,
            LoopState::Idle => LoopAction::Wait(self.refresh),
            LoopState::Terminated(status) => LoopAction::Exit(status),
        }
    }

    /// Takes word of what happened.
    pub fn step(&mut self, event: LoopEvent)
        ensures
            final(self).continuous() == old(self).continuous(),
            final(self).refresh() == old(self).refresh(),
            final(self).state() == react(old(self).continuous(), old(self).state(), event),
    {
        proof {
            use_type_invariant(&*self);
        }
        let next = match self.state {
            LoopState::Running { cancelled } => match event {
                LoopEvent::CycleEnded(Ok(_)) => if self.continuous && !cancelled {
                    LoopState::Idle
                } else {
                    LoopState::Terminated(ExitStatus::Clean)
                },
                LoopEvent::CycleEnded(Err(error)) => LoopState::Terminated(
                    ExitStatus::Failed(error),
                ),
                LoopEvent::Cancelled => LoopState::Running { cancelled: true },
                LoopEvent::Notified => LoopState::Running { cancelled },
                LoopEvent::TimerElapsed => LoopState::Running { cancelled },
            },
            LoopState::Idle => match event {
                LoopEvent::Notified => LoopState::Running { cancelled: false },
                LoopEvent::TimerElapsed => LoopState::Running { cancelled: false },
                LoopEvent::Cancelled => LoopState::Terminated(ExitStatus::Clean),
                LoopEvent::CycleEnded(_) => LoopState::Idle,
            },
            LoopState::Terminated(status) => LoopState::Terminated(status),
        };
        self.state = next;
    }
}

/// A run that is over stays over: whatever happens afterwards, no cycle is
/// run and the status does not change.
pub proof fn lemma_terminated_is_final(
    continuous: bool,
    status: ExitStatus,
    events: Seq<LoopEvent>,
)
    ensures
        follow(continuous, LoopState::Terminated(status), events) == LoopState::Terminated(status),
    decreases events.len(),
{
    if events.len() > 0 {
        lemma_terminated_is_final(continuous, status, events.drop_last());
    }
}

/// A cancellation that arrives during a wait ends the run cleanly, and no
/// cycle is run after it, whatever else arrives.
pub proof fn lemma_cancel_while_idle(continuous: bool, refresh: Duration, later: Seq<LoopEvent>)
    ensures
        react(continuous, LoopState::Idle, LoopEvent::Cancelled) == LoopState::Terminated(
            ExitStatus::Clean,
        ),
        follow(continuous, react(continuous, LoopState::Idle, LoopEvent::Cancelled), later)
            == LoopState::Terminated(ExitStatus::Clean),
        action_in(
            refresh,
            follow(continuous, react(continuous, LoopState::Idle, LoopEvent::Cancelled), later),
        ) == LoopAction::Exit(ExitStatus::Clean),
{
    lemma_terminated_is_final(continuous, ExitStatus::Clean, later);
}

/// A cancellation that arrives while a cycle is under way does not cut the
/// cycle short; the run ends when the cycle has ended, cleanly if the cycle
/// succeeded, and no further cycle is run.
pub proof fn lemma_cancel_during_cycle(
    continuous: bool,
    cancelled: bool,
    result: Result<(), CycleError>,
)
    ensures
        cycle_under_way(react(continuous, LoopState::Running { cancelled }, LoopEvent::Cancelled)),
        react(
            continuous,
            react(continuous, LoopState::Running { cancelled }, LoopEvent::Cancelled),
            LoopEvent::CycleEnded(result),
        ) == LoopState::Terminated(status_of(result)),
{
}

/// A single run carries out its first cycle and no other: until that cycle
/// has ended it is the one under way, and once it has ended the run is over,
/// with the status of the cycle.
pub proof fn lemma_single_run_runs_once(events: Seq<LoopEvent>)
    ensures
        cycle_under_way(follow(false, initial(), events)) || exists|
            result: Result<(), CycleError>,
        |
            events.contains(LoopEvent::CycleEnded(result)) && follow(false, initial(), events)
                == LoopState::Terminated(status_of(result)),
        cycle_under_way(follow(false, initial(), events)) ==> forall|
            result: Result<(), CycleError>,
        |
            !events.contains(LoopEvent::CycleEnded(result)),
    decreases events.len(),
{
    if events.len() > 0 {
        let before = events.drop_last();
        lemma_single_run_runs_once(before);
        let earlier = follow(false, initial(), before);
        if cycle_under_way(earlier) {
            match events.last() {
                LoopEvent::CycleEnded(result) => {
                    lemma_last_or_before(events, LoopEvent::CycleEnded(result));
                    assert(follow(false, initial(), events) == LoopState::Terminated(
                        status_of(result),
                    ));
                },
                _ => {
                    assert forall|result: Result<(), CycleError>|
                        !events.contains(LoopEvent::CycleEnded(result)) by {
                        lemma_last_or_before(events, LoopEvent::CycleEnded(result));
                    }
                },
            }
        } else {
            let result = choose|result: Result<(), CycleError>|
                before.contains(LoopEvent::CycleEnded(result)) && earlier
                    == LoopState::Terminated(status_of(result));
            lemma_last_or_before(events, LoopEvent::CycleEnded(result));
            assert(follow(false, initial(), events) == LoopState::Terminated(status_of(result)));
        }
    }
}

/// A continuous run does not end by itself: where it has ended cleanly, it
/// was cancelled, and where it has ended in failure, a cycle failed so.
pub proof fn lemma_continuous_run_goes_on(events: Seq<LoopEvent>)
    ensures
        follow(true, initial(), events) == LoopState::Terminated(ExitStatus::Clean)
            ==> events.contains(LoopEvent::Cancelled),
        forall|error: CycleError|
            follow(true, initial(), events) == LoopState::Terminated(ExitStatus::Failed(error))
                ==> events.contains(LoopEvent::CycleEnded(Err(error))),
        follow(true, initial(), events) matches LoopState::Running { cancelled } ==> (cancelled
            ==> events.contains(LoopEvent::Cancelled)),
    decreases events.len(),
{
    if events.len() > 0 {
        let before = events.drop_last();
        lemma_continuous_run_goes_on(before);
        lemma_last_or_before(events, LoopEvent::Cancelled);
        assert forall|error: CycleError|
            follow(true, initial(), events) == LoopState::Terminated(
                ExitStatus::Failed(error),
            ) implies events.contains(LoopEvent::CycleEnded(Err(error))) by {
            lemma_last_or_before(events, LoopEvent::CycleEnded(Err(error)));
        }
    }
}

/// A series of events holds what is its last event and what the events
/// before the last hold, and nothing else.
proof fn lemma_last_or_before(events: Seq<LoopEvent>, event: LoopEvent)
    requires
        events.len() > 0,
    ensures
        events.contains(event) <==> events.last() == event || events.drop_last().contains(event),
{
    if events.drop_last().contains(event) {
        let at = choose|i: int| 0 <= i < events.len() - 1 && events.drop_last()[i] == event;
        assert(events[at] == event);
    }
    if events.contains(event) && events.last() != event {
        let at = choose|i: int| 0 <= i < events.len() && events[i] == event;
        assert(events.drop_last()[at] == event);
    }
}

} // verus!
