//! The host facade: the six operations that a synchronous host calls. Each
//! takes the access to the registry that the caller could get, shared or
//! exclusive, or none where the registry could not be had at that moment.
//! None of them waits.

use vstd::prelude::*;
use crate::channels::ServerState;
use crate::error::{text_view, HubError};
use crate::lifecycle::{Effect, Event};
use crate::payload::MessagePayload;
use crate::registry::{launch_event, Registry};
use crate::wire::{outbound_batch, payloads_of_messages};

verus! {

/// The answer to a request to start.
#[derive(Debug, Clone, Copy, PartialEq, Eq, Structural)]
pub enum StartStep {
    /// The handles are published: bring the runtime up, then report how it
    /// went with `finish_start`.
    Launch,
    /// No supervisor was started, for the reason given.
    Refused(HubError),
}

/// Asks for a start, with the handles of the supervisor to be. An idle
/// registry publishes them and answers `Launch`. Where a supervisor is
/// there already, starting, live or stopping, the start is refused and that
/// is recorded; without access to the registry it is refused too. Handles
/// that are refused are dropped.
pub fn start_server(registry: Option<&mut Registry>, handles: ServerState) -> (step: StartStep)
    ensures
        match registry {
            None => step == StartStep::Refused(HubError::RegistryUnavailable),
            Some(r) => {
                &&& final(r)@.state == r@.state.next(Event::StartRequested).0
                &&& step == (if r@.state.phase is Idle {
                    StartStep::Launch
                } else {
                    StartStep::Refused(HubError::AlreadyRunning)
                })
                &&& final(r)@.last_error == (if r@.state.phase is Idle {
                    r@.last_error
                } else {
                    Some(HubError::AlreadyRunning.message())
                })
            },
        },
{
    match registry {
        None => StartStep::Refused(HubError::RegistryUnavailable),
        Some(r) => match r.begin_start(handles) {
            Effect::Launch => StartStep::Launch,
            _ => StartStep::Refused(HubError::AlreadyRunning),
        },
    }
}

/// Reports how the launch went, and says whether a new supervisor is live
/// now: it is exactly when the registry was starting and the launch
/// succeeded. A failed launch takes the handles out of the registry again
/// and records the cause.
pub fn finish_start(registry: Option<&mut Registry>, outcome: Result<(), String>) -> (started: bool)
    ensures
        match registry {
            None => !started,
            Some(r) => {
                &&& final(r)@.state == r@.state.next(launch_event(outcome)).0
                &&& started == (r@.state.phase is Starting && outcome is Ok)
                &&& final(r)@.last_error == (match outcome {
                    Err(cause) if r@.state.phase is Starting => Some(cause@),
                    _ => r@.last_error,
                })
            },
        },
{
    match registry {
        None => false,
        Some(r) => match r.end_start(outcome) {
            Effect::GoLive => true,
            _ => false,
        },
    }
}

/// Liveness: true while a supervisor is running and serving, false at any
/// other time and without access to the registry.
pub fn is_server_running(registry: Option<&Registry>) -> (running: bool)
    ensures
        running == (registry matches Some(r) && r@.state.live()),
{
    match registry {
        None => false,
        Some(r) => r.is_live(),
    }
}

/// Asks the supervisor to shut down and returns at once. The shutdown watch
/// of a starting or running supervisor is set; it stays set for that
/// lifetime. Asking again, or with no supervisor, or without access to the
/// registry, does nothing, and nothing is ever recorded.
pub fn shutdown_server(registry: Option<&mut Registry>)
    ensures
        registry matches Some(r) ==> {
            &&& final(r)@.state == r@.state.next(Event::ShutdownRequested).0
            &&& final(r)@.last_error == r@.last_error
        },
{
    match registry {
        None => {},
        Some(r) => {
            let _ = r.request_shutdown();
        },
    }
}

/// The text of the most recent failure, or nothing if none was recorded or
/// the registry could not be had. Reading does not clear it.
pub fn get_last_error_string(registry: Option<&Registry>) -> (text: Option<String>)
    ensures
        text_view(text) == (match registry {
            Some(r) => r@.last_error,
            None => None,
        }),
{
    match registry {
        None => None,
        Some(r) => r.last_error(),
    }
}

/// Publishes the payloads as one batch to every connected client: one message
/// for each payload, in the order given. It succeeds whenever the batch was
/// handed to the bus, whether or not anyone is subscribed, and fails only
/// where the registry could not be had or holds no supervisor.
pub fn try_send_messages(registry: Option<&Registry>, messages: Vec<MessagePayload>) -> (sent: Result<
    (),
    HubError,
>)
    ensures
        sent is Ok <==> (registry matches Some(r) && r@.occupied()),
        sent is Err ==> sent == Err::<(), HubError>(HubError::RegistryUnavailable),
{
    let batch = outbound_batch(messages);
    match registry {
        None => Err(HubError::RegistryUnavailable),
        Some(r) => if r.publish(batch) {
            Ok(())
        } else {
            Err(HubError::RegistryUnavailable)
        },
    }
}

/// Drains the mailbox: the payloads of the text and binary messages that
/// clients have sent and that can be had without waiting, in the order in
/// which the mailbox yields them. Pings, pongs and closes are left out. It is
/// empty where the registry could not be had or holds no supervisor. The
/// registry's lifecycle and error slot are untouched.
pub fn drain_client_message_bytes(registry: Option<&mut Registry>) -> (drained: Vec<MessagePayload>)
    ensures
        registry matches Some(r) ==> final(r)@ == r@,
        !(registry matches Some(r) && r@.occupied()) ==> drained@.len() == 0,
{
    match registry {
        None => Vec::new(),
        Some(r) => {
            let pulled = r.pull_pending();
            let drained = payloads_of_messages(pulled);
            proof {
                if pulled@.len() == 0 {
                    assert(crate::payload::payload_views(drained@).len() == 0);
                }
            }
            drained
        },
    }
}

} // verus!
