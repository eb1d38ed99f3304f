//! The supervisor's lifecycle: which phase it is in, what each request of the
//! host and each report of the runtime does to it, and what has to be done in
//! answer.

use vstd::prelude::*;
use crate::error::HubError;

verus! {

/// Where a supervisor stands.
#[derive(Debug, Clone, Copy, PartialEq, Eq, Structural)]
pub enum Phase {
    /// No supervisor: the registry holds no handles.
    Idle,
    /// Handles are published and the runtime is being brought up.
    Starting,
    /// The runtime serves clients.
    Running,
    /// The supervisor has seen the shutdown signal and is ending its tasks.
    Stopping,
}

/// What happens to a supervisor.
#[derive(Debug, Clone, Copy, PartialEq, Eq, Structural)]
pub enum Event {
    /// The host asks for a start.
    StartRequested,
    /// The runtime is up and the acceptor launched.
    LaunchSucceeded,
    /// The runtime or the listener could not be created.
    LaunchFailed,
    /// The host asks for a shutdown.
    ShutdownRequested,
    /// The listening socket died.
    ListenerFailed,
    /// The supervisor sees the shutdown signal.
    ShutdownObserved,
    /// The acceptor and the connection tasks have ended, or the grace budget
    /// has run out.
    Drained,
}

/// What has to be done in answer to an event.
#[derive(Debug, Clone, Copy, PartialEq, Eq, Structural)]
pub enum Effect {
    /// Nothing.
    Nothing,
    /// Build bus, mailbox and the two watches, publish the handles and spawn
    /// the runtime.
    Launch,
    /// Refuse the start and record that a supervisor is there already.
    Refuse,
    /// Set liveness to true: the start has succeeded.
    GoLive,
    /// Take the handles out of the registry again, record the failure and
    /// report the start as failed.
    RollBack,
    /// Set the shutdown watch to true.
    Signal,
    /// Record that the listener failed and set the shutdown watch to true.
    ListenerDown,
    /// Stop the acceptor and signal every connection task.
    BeginTeardown,
    /// Drop bus and mailbox, set liveness to false and clear the registry.
    FinishTeardown,
}

/// The state of a lifecycle as plain values.
pub struct State {
    pub phase: Phase,
    /// The shutdown watch of this lifetime.
    pub shutdown: bool,
}

impl State {
    /// No supervisor, nothing requested.
    pub open spec fn idle() -> State {
        State { phase: Phase::Idle, shutdown: false }
    }

    /// A shutdown watch exists only with a supervisor, and a supervisor stops
    /// only on the signal.
    pub open spec fn wf(self) -> bool {
        &&& self.phase is Idle ==> !self.shutdown
        &&& self.phase is Stopping ==> self.shutdown
    }

    /// Liveness: true from a successful start until the teardown is done.
    pub open spec fn live(self) -> bool {
        self.phase is Running || self.phase is Stopping
    }

    /// The state after an event, and what has to be done.
    pub open spec fn next(self, event: Event) -> (State, Effect) {
        match (self.phase, event) {
            (Phase::Idle, Event::StartRequested) => (
                State { phase: Phase::Starting, shutdown: false },
                Effect::Launch,
            ),
            (_, Event::StartRequested) => (self, Effect::Refuse),
            (Phase::Starting, Event::LaunchSucceeded) => (
                State { phase: Phase::Running, shutdown: self.shutdown },
                Effect::GoLive,
            ),
            (Phase::Starting, Event::LaunchFailed) => (State::idle(), Effect::RollBack),
            (Phase::Starting, Event::ShutdownRequested) | (Phase::Running, Event::ShutdownRequested) => (
                State { phase: self.phase, shutdown: true },
                if self.shutdown {
                    Effect::Nothing
                } else {
                    Effect::Signal
                },
            ),
            (Phase::Running, Event::ListenerFailed) => (
                State { phase: Phase::Running, shutdown: true },
                Effect::ListenerDown,
            ),
            (Phase::Running, Event::ShutdownObserved) => if self.shutdown {
                (State { phase: Phase::Stopping, shutdown: true }, Effect::BeginTeardown)
            } else {
                (self, Effect::Nothing)
            },
            (Phase::Stopping, Event::Drained) => (State::idle(), Effect::FinishTeardown),
            _ => (self, Effect::Nothing),
        }
    }

    /// The state after a sequence of events.
    pub open spec fn run(self, events: Seq<Event>) -> State
        decreases events.len(),
    {
        if events.len() == 0 {
            self
        } else {
            self.run(events.drop_last()).next(events.last()).0
        }
    }

    /// How often a sequence of events, run from this state, calls for `effect`.
    pub open spec fn count(self, events: Seq<Event>, effect: Effect) -> nat
        decreases events.len(),
    {
        if events.len() == 0 {
            0
        } else {
            let earlier = self.count(events.drop_last(), effect);
            if self.run(events.drop_last()).next(events.last()).1 == effect {
                earlier + 1
            } else {
                earlier
            }
        }
    }
}

impl State {
    /// A whole start as the host sees it: the request and, where the launch is
    /// asked for, its outcome. The result is the state afterwards and whether
    /// a new supervisor is live.
    pub open spec fn start(self, launched: bool) -> (State, bool) {
        let (asked, effect) = self.next(Event::StartRequested);
        if effect == Effect::Launch {
            let (after, outcome) = asked.next(
                if launched {
                    Event::LaunchSucceeded
                } else {
                    Event::LaunchFailed
                },
            );
            (after, outcome == Effect::GoLive)
        } else {
            (asked, false)
        }
    }

    /// A whole shutdown: the host asks, the supervisor sees the signal, and
    /// its tasks end.
    pub open spec fn shut_down(self) -> State {
        self.next(Event::ShutdownRequested).0.next(Event::ShutdownObserved).0.next(
            Event::Drained,
        ).0
    }
}

/// The same event, `n` times.
pub open spec fn repeated(event: Event, n: nat) -> Seq<Event> {
    Seq::new(n, |i: int| event)
}

/// One for true, nothing for false.
pub open spec fn one_if(b: bool) -> nat {
    if b {
        1
    } else {
        0
    }
}

/// Whatever happens to a well-formed state, the next one is well formed; the
/// shutdown flag, once set, stays set until the lifetime ends; and liveness
/// changes only where the supervisor goes live or finishes its teardown.
pub proof fn lemma_next(s: State, event: Event)
    requires
        s.wf(),
    ensures
        s.next(event).0.wf(),
        s.shutdown ==> s.next(event).0.shutdown || s.next(event).0.phase is Idle,
        s.next(event).1 is GoLive <==> !s.live() && s.next(event).0.live(),
        s.next(event).1 is FinishTeardown <==> s.live() && !s.next(event).0.live(),
{
}

/// A run from a well-formed state ends in a well-formed state.
pub proof fn lemma_run(s: State, events: Seq<Event>)
    requires
        s.wf(),
    ensures
        s.run(events).wf(),
    decreases events.len(),
{
    if events.len() > 0 {
        lemma_run(s, events.drop_last());
        lemma_next(s.run(events.drop_last()), events.last());
    }
}

/// A request to shut down never fails and records nothing, in any phase. It
/// leaves the phase and liveness as they are, and a second request changes
/// nothing at all.
pub proof fn law_shutdown_is_idempotent(s: State)
    requires
        s.wf(),
    ensures
        s.next(Event::ShutdownRequested).1.recorded() is None,
        s.next(Event::ShutdownRequested).0.phase == s.phase,
        s.next(Event::ShutdownRequested).0.next(Event::ShutdownRequested) == (
            s.next(Event::ShutdownRequested).0,
            Effect::Nothing,
        ),
{
}

/// Any number of requests to shut down, one or more, leaves the state that
/// one request leaves, sets the watch as often as the first request alone
/// does, at most once, and starts or finishes no teardown by itself.
pub proof fn law_repeated_shutdown(s: State, n: nat)
    requires
        s.wf(),
        n >= 1,
    ensures
        s.run(repeated(Event::ShutdownRequested, n)) == s.next(Event::ShutdownRequested).0,
        s.count(repeated(Event::ShutdownRequested, n), Effect::Signal) == one_if(
            s.next(Event::ShutdownRequested).1 is Signal,
        ),
        s.count(repeated(Event::ShutdownRequested, n), Effect::FinishTeardown) == 0,
    decreases n,
{
    let events = repeated(Event::ShutdownRequested, n);
    assert(events.last() == Event::ShutdownRequested);
    if n == 1 {
        assert(events.drop_last().len() == 0);
        assert(s.run(events.drop_last()) == s);
        assert(s.count(events.drop_last(), Effect::Signal) == 0);
        assert(s.count(events.drop_last(), Effect::FinishTeardown) == 0);
    } else {
        let shorter = (n - 1) as nat;
        assert(events.drop_last() == repeated(Event::ShutdownRequested, shorter));
        law_repeated_shutdown(s, shorter);
        law_shutdown_is_idempotent(s);
    }
}

/// Over any sequence of events, whatever the host asks and however often,
/// the supervisor finishes exactly one teardown for each time it went live:
/// the two counts differ only by a supervisor that was live at the beginning
/// or is live at the end.
pub proof fn law_one_teardown_per_start(s: State, events: Seq<Event>)
    requires
        s.wf(),
    ensures
        s.count(events, Effect::GoLive) + one_if(s.live()) == s.count(
            events,
            Effect::FinishTeardown,
        ) + one_if(s.run(events).live()),
    decreases events.len(),
{
    if events.len() > 0 {
        law_one_teardown_per_start(s, events.drop_last());
        lemma_run(s, events.drop_last());
        lemma_next(s.run(events.drop_last()), events.last());
    }
}

/// A start succeeds exactly from the idle phase with a launch that succeeds.
/// Right after a successful start the supervisor is live, and while it is
/// live every further start is refused and changes nothing: within one
/// lifetime a start succeeds at most once.
pub proof fn law_start_gating(s: State, launched: bool, again: bool)
    requires
        s.wf(),
    ensures
        s.start(launched).1 <==> s.phase is Idle && launched,
        s.start(launched).1 ==> s.start(launched).0.live(),
        s.start(launched).1 ==> !s.start(launched).0.start(again).1,
        s.live() ==> s.start(again) == (s, false),
        s.live() ==> s.next(Event::StartRequested).1.recorded() == Some(HubError::AlreadyRunning),
{
}

/// Once a shutdown of a live supervisor is complete, the lifecycle is idle
/// again: liveness is false, and the next start with a launch that succeeds
/// returns true.
pub proof fn law_restart_after_shutdown(s: State)
    requires
        s.wf(),
        s.live(),
    ensures
        s.shut_down() == State::idle(),
        !s.shut_down().live(),
        s.shut_down().start(true).1,
        s.shut_down().start(true).0.live(),
{
}

impl Effect {
    /// The kind of failure that is recorded in the last-error slot with an
    /// effect.
    pub open spec fn recorded(self) -> Option<HubError> {
        match self {
            Effect::Refuse => Some(HubError::AlreadyRunning),
            Effect::RollBack => Some(HubError::StartupFailed),
            Effect::ListenerDown => Some(HubError::ListenerFailed),
            _ => None,
        }
    }
}

} // verus!
