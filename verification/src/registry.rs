//! The registry: the one place that holds the handles of the supervisor, its
//! lifecycle and the last-error slot. Whoever has access to it, shared or
//! exclusive, goes through the operations here.

use vstd::prelude::*;
use crate::channels::ServerState;
use crate::error::{text_view, ErrorSlot, HubError};
use crate::lifecycle::{Effect, Event, Phase, State};

verus! {

/// Where a supervisor that exists stands. A stopping supervisor has seen the
/// shutdown signal, so it carries no flag of its own.
enum Stage {
    Starting { shutdown: bool },
    Running { shutdown: bool },
    Stopping,
}

/// A supervisor as the registry holds it: its stage and its handles.
struct Supervisor {
    stage: Stage,
    handles: ServerState,
}

/// The holder of at most one supervisor and of the last-error slot.
pub struct Registry {
    supervisor: Option<Supervisor>,
    errors: ErrorSlot,
}

/// What a registry holds, as plain values. Handles are published exactly
/// while the lifecycle is not idle.
pub struct RegistryView {
    pub state: State,
    pub last_error: Option<Seq<char>>,
}

impl RegistryView {
    /// Whether the registry holds the handles of a supervisor.
    pub open spec fn occupied(self) -> bool {
        !(self.state.phase is Idle)
    }
}

impl View for Registry {
    type V = RegistryView;

    closed spec fn view(&self) -> RegistryView {
        RegistryView {
            state: match self.supervisor {
                None => State::idle(),
                Some(supervisor) => match supervisor.stage {
                    Stage::Starting { shutdown } => State { phase: Phase::Starting, shutdown },
                    Stage::Running { shutdown } => State { phase: Phase::Running, shutdown },
                    Stage::Stopping => State { phase: Phase::Stopping, shutdown: true },
                },
            },
            last_error: self.errors@,
        }
    }
}

/// The event that the outcome of a launch stands for.
pub open spec fn launch_event(outcome: Result<(), String>) -> Event {
    match outcome {
        Ok(_) => Event::LaunchSucceeded,
        Err(_) => Event::LaunchFailed,
    }
}

impl Registry {
    /// An empty registry: no supervisor, no error recorded.
    pub fn new() -> (registry: Registry)
        ensures
            registry@.state == State::idle(),
            registry@.last_error is None,
    {
        Registry { supervisor: None, errors: ErrorSlot::new() }
    }

    /// The lifecycle of every registry is well formed.
    pub proof fn lemma_well_formed(self)
        ensures
            self@.state.wf(),
    {
    }

    /// The phase of the lifecycle.
    pub fn phase(&self) -> (phase: Phase)
        ensures
            phase == self@.state.phase,
    {
        match &self.supervisor {
            None => Phase::Idle,
            Some(supervisor) => match supervisor.stage {
                Stage::Starting { .. } => Phase::Starting,
                Stage::Running { .. } => Phase::Running,
                Stage::Stopping => Phase::Stopping,
            },
        }
    }

    /// Liveness: whether a supervisor is running and serving.
    pub fn is_live(&self) -> (live: bool)
        ensures
            live == self@.state.live(),
    {
        match self.phase() {
            Phase::Running => true,
            Phase::Stopping => true,
            _ => false,
        }
    }

    /// Whether the handles of a supervisor are published.
    pub fn has_supervisor(&self) -> (occupied: bool)
        ensures
            occupied == self@.occupied(),
    {
        self.supervisor.is_some()
    }

    /// Whether the shutdown watch of the present lifetime is set.
    pub fn shutdown_requested(&self) -> (requested: bool)
        ensures
            requested == self@.state.shutdown,
    {
        match &self.supervisor {
            None => false,
            Some(supervisor) => match supervisor.stage {
                Stage::Starting { shutdown } => shutdown,
                Stage::Running { shutdown } => shutdown,
                Stage::Stopping => true,
            },
        }
    }

    /// The text of the most recent failure, if any was recorded. Reading does
    /// not clear it.
    pub fn last_error(&self) -> (text: Option<String>)
        ensures
            text_view(text) == self@.last_error,
    {
        self.errors.last()
    }

    /// Records a failure or a warning by its kind, in place of what was
    /// recorded before. The lifecycle is untouched.
    pub fn record(&mut self, kind: HubError)
        ensures
            final(self)@.state == old(self)@.state,
            final(self)@.last_error == Some(kind.message()),
    {
        self.errors.record_kind(kind);
    }

    /// Records a failure by its text, in place of what was recorded before.
    /// The lifecycle is untouched.
    pub fn record_text(&mut self, text: String)
        ensures
            final(self)@.state == old(self)@.state,
            final(self)@.last_error == Some(text@),
    {
        self.errors.record(text);
    }

    /// A start is requested, with the handles of the supervisor to be. An idle
    /// registry publishes them and asks for the launch. Any other refuses,
    /// records that a supervisor is there already and drops the handles.
    pub fn begin_start(&mut self, handles: ServerState) -> (effect: Effect)
        ensures
            (final(self)@.state, effect) == old(self)@.state.next(Event::StartRequested),
            final(self)@.last_error == (if effect is Refuse {
                Some(HubError::AlreadyRunning.message())
            } else {
                old(self)@.last_error
            }),
    {
        if self.supervisor.is_some() {
            self.errors.record_kind(HubError::AlreadyRunning);
            Effect::Refuse
        } else {
            self.supervisor = Some(
                Supervisor { stage: Stage::Starting { shutdown: false }, handles },
            );
            Effect::Launch
        }
    }

    /// The launch has ended. A starting supervisor goes live on success; on
    /// failure its handles leave the registry and the cause is recorded.
    /// Outside a start nothing happens.
    pub fn end_start(&mut self, outcome: Result<(), String>) -> (effect: Effect)
        ensures
            (final(self)@.state, effect) == old(self)@.state.next(launch_event(outcome)),
            final(self)@.last_error == (match outcome {
                Err(cause) if effect is RollBack => Some(cause@),
                _ => old(self)@.last_error,
            }),
    {
        match self.supervisor.take() {
            Some(Supervisor { stage: Stage::Starting { shutdown }, handles }) => match outcome {
                Ok(_) => {
                    self.supervisor = Some(
                        Supervisor { stage: Stage::Running { shutdown }, handles },
                    );
                    Effect::GoLive
                },
                Err(cause) => {
                    self.errors.record(cause);
                    Effect::RollBack
                },
            },
            other => {
                self.supervisor = other;
                Effect::Nothing
            },
        }
    }

    /// A shutdown is requested. A starting or running supervisor has its
    /// shutdown watch set, once; asking again, or with no supervisor, or
    /// while one is stopping, does nothing. Nothing is recorded.
    pub fn request_shutdown(&mut self) -> (effect: Effect)
        ensures
            (final(self)@.state, effect) == old(self)@.state.next(Event::ShutdownRequested),
            final(self)@.last_error == old(self)@.last_error,
    {
        match self.supervisor.take() {
            Some(Supervisor { stage: Stage::Starting { shutdown }, handles }) => {
                if !shutdown {
                    handles.signal_shutdown();
                }
                self.supervisor = Some(
                    Supervisor { stage: Stage::Starting { shutdown: true }, handles },
                );
                if shutdown {
                    Effect::Nothing
                } else {
                    Effect::Signal
                }
            },
            Some(Supervisor { stage: Stage::Running { shutdown }, handles }) => {
                if !shutdown {
                    handles.signal_shutdown();
                }
                self.supervisor = Some(
                    Supervisor { stage: Stage::Running { shutdown: true }, handles },
                );
                if shutdown {
                    Effect::Nothing
                } else {
                    Effect::Signal
                }
            },
            other => {
                self.supervisor = other;
                Effect::Nothing
            },
        }
    }

    /// The listening socket died. A running supervisor records it and has its
    /// shutdown watch set; in any other phase nothing happens.
    pub fn listener_failed(&mut self) -> (effect: Effect)
        ensures
            (final(self)@.state, effect) == old(self)@.state.next(Event::ListenerFailed),
            final(self)@.last_error == (if effect is ListenerDown {
                Some(HubError::ListenerFailed.message())
            } else {
                old(self)@.last_error
            }),
    {
        match self.supervisor.take() {
            Some(Supervisor { stage: Stage::Running { .. }, handles }) => {
                handles.signal_shutdown();
                self.supervisor = Some(
                    Supervisor { stage: Stage::Running { shutdown: true }, handles },
                );
                self.errors.record_kind(HubError::ListenerFailed);
                Effect::ListenerDown
            },
            other => {
                self.supervisor = other;
                Effect::Nothing
            },
        }
    }

    /// The supervisor sees the shutdown signal. If it runs and the watch is
    /// set it starts to stop; otherwise nothing happens.
    pub fn observe_shutdown(&mut self) -> (effect: Effect)
        ensures
            (final(self)@.state, effect) == old(self)@.state.next(Event::ShutdownObserved),
            final(self)@.last_error == old(self)@.last_error,
    {
        match self.supervisor.take() {
            Some(Supervisor { stage: Stage::Running { shutdown: true }, handles }) => {
                self.supervisor = Some(Supervisor { stage: Stage::Stopping, handles });
                Effect::BeginTeardown
            },
            other => {
                self.supervisor = other;
                Effect::Nothing
            },
        }
    }

    /// The tasks of a stopping supervisor have ended. Its handles are dropped
    /// and the registry is idle again; in any other phase nothing happens.
    pub fn finish_teardown(&mut self) -> (effect: Effect)
        ensures
            (final(self)@.state, effect) == old(self)@.state.next(Event::Drained),
            final(self)@.last_error == old(self)@.last_error,
    {
        match self.supervisor.take() {
            Some(Supervisor { stage: Stage::Stopping, handles: _ }) => Effect::FinishTeardown,
            other => {
                self.supervisor = other;
                Effect::Nothing
            },
        }
    }

    /// Publishes one batch on the bus of the supervisor, if there is one, and
    /// says whether it did. The number of subscribers plays no part.
    pub fn publish(&self, batch: Vec<tungstenite::Message>) -> (issued: bool)
        ensures
            issued == self@.occupied(),
    {
        match &self.supervisor {
            Some(supervisor) => {
                let _ = supervisor.handles.publish(batch);
                true
            },
            None => false,
        }
    }

    /// Pulls from the mailbox of the supervisor every message that can be had
    /// without waiting. With no supervisor there is none. Lifecycle and error
    /// slot are untouched.
    pub fn pull_pending(&mut self) -> (pulled: Vec<tungstenite::Message>)
        ensures
            final(self)@ == old(self)@,
            !old(self)@.occupied() ==> pulled@.len() == 0,
    {
        match self.supervisor.take() {
            Some(supervisor) => {
                let mut supervisor = supervisor;
                let pulled = supervisor.handles.pull_pending();
                self.supervisor = Some(supervisor);
                pulled
            },
            None => Vec::new(),
        }
    }
}

} // verus!
