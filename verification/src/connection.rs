//! One connection task: its states, what can happen to it, and what it has to
//! do in answer. The task itself reads, writes and waits; it asks here what
//! comes next.

use vstd::prelude::*;
use crate::error::HubError;
use crate::payload::{Frame, MessagePayload};
use crate::wire::{frame_of_message, message_frame};

verus! {

/// Where a connection task stands.
#[derive(Debug, Clone, Copy, PartialEq, Eq, Structural)]
pub enum ConnState {
    /// The WebSocket upgrade is under way on the raw socket.
    Handshaking,
    /// The socket is split, the task is subscribed to the bus and pumps in
    /// both directions.
    Running,
    /// The task tries to send a Close frame, within the grace budget.
    Draining,
    /// The socket is dropped and the subscription gone.
    Terminated,
}

/// What can happen to a connection task.
#[derive(Debug, PartialEq, Eq)]
pub enum ConnEvent {
    /// The upgrade succeeded.
    HandshakeSucceeded,
    /// The upgrade failed.
    HandshakeFailed,
    /// The bus yields the next batch.
    Outbound(Vec<tungstenite::Message>),
    /// The bus reports that this many batches were missed.
    Lagged(u64),
    /// The bus has no producer any more.
    BusClosed,
    /// The read half yields a frame.
    Inbound(Frame),
    /// The read half failed or ended.
    ReadFailed,
    /// A write or the flush failed.
    WriteFailed,
    /// The shutdown watch is set.
    ShutdownObserved,
    /// The Close frame is out, or the budget for it has run out.
    CloseAttempted,
}

/// What a connection task has to do.
#[derive(Debug, PartialEq, Eq)]
pub enum ConnAction {
    /// Nothing: go on waiting.
    Nothing,
    /// Split the socket, subscribe to the bus and begin to pump.
    Subscribe,
    /// Write these messages in this order, then flush the write half once.
    Write(Vec<tungstenite::Message>),
    /// Record the warning that this many batches were missed, and go on from
    /// the head of the bus.
    RecordLag(u64),
    /// Put this payload into the mailbox.
    Enqueue(MessagePayload),
    /// Try to send a Close frame within the grace budget.
    SendClose,
    /// Drop the socket and the subscription.
    Release,
}

impl ConnAction {
    /// The warning that goes into the last-error slot with an action: a lag
    /// is recorded, nothing else is.
    pub open spec fn warning(self) -> Option<HubError> {
        match self {
            ConnAction::RecordLag(_) => Some(HubError::ConnectionLag),
            _ => None,
        }
    }

    /// The warning to record in the last-error slot for this action, if any.
    pub fn to_record(&self) -> (kind: Option<HubError>)
        ensures
            kind == self.warning(),
    {
        match self {
            ConnAction::RecordLag(_) => Some(HubError::ConnectionLag),
            _ => None,
        }
    }
}

impl ConnState {
    /// Whether the task has left the running state for good.
    pub open spec fn closing(self) -> bool {
        self is Draining || self is Terminated
    }

    /// The state after an event, and what has to be done.
    pub open spec fn next(self, event: ConnEvent) -> (ConnState, ConnAction) {
        match self {
            ConnState::Handshaking => match event {
                ConnEvent::HandshakeSucceeded => (ConnState::Running, ConnAction::Subscribe),
                ConnEvent::HandshakeFailed => (ConnState::Terminated, ConnAction::Release),
                _ => (ConnState::Handshaking, ConnAction::Nothing),
            },
            ConnState::Running => match event {
                ConnEvent::Outbound(batch) => (ConnState::Running, ConnAction::Write(batch)),
                ConnEvent::Lagged(missed) => (ConnState::Running, ConnAction::RecordLag(missed)),
                ConnEvent::Inbound(frame) => match frame.data() {
                    Some(payload) => (ConnState::Running, ConnAction::Enqueue(payload)),
                    None => if frame is Close {
                        (ConnState::Draining, ConnAction::SendClose)
                    } else {
                        (ConnState::Running, ConnAction::Nothing)
                    },
                },
                ConnEvent::BusClosed
                | ConnEvent::ReadFailed
                | ConnEvent::WriteFailed
                | ConnEvent::ShutdownObserved => (ConnState::Draining, ConnAction::SendClose),
                _ => (ConnState::Running, ConnAction::Nothing),
            },
            ConnState::Draining => (ConnState::Terminated, ConnAction::Release),
            ConnState::Terminated => (ConnState::Terminated, ConnAction::Nothing),
        }
    }

    /// Takes one event: says what state comes next and what has to be done.
    pub fn step(self, event: ConnEvent) -> (next: (ConnState, ConnAction))
        ensures
            next == self.next(event),
    {
        match self {
            ConnState::Handshaking => match event {
                ConnEvent::HandshakeSucceeded => (ConnState::Running, ConnAction::Subscribe),
                ConnEvent::HandshakeFailed => (ConnState::Terminated, ConnAction::Release),
                _ => (ConnState::Handshaking, ConnAction::Nothing),
            },
            ConnState::Running => match event {
                ConnEvent::Outbound(batch) => (ConnState::Running, ConnAction::Write(batch)),
                ConnEvent::Lagged(missed) => (ConnState::Running, ConnAction::RecordLag(missed)),
                ConnEvent::Inbound(frame) => match frame {
                    Frame::Close => (ConnState::Draining, ConnAction::SendClose),
                    Frame::Ping(_) => (ConnState::Running, ConnAction::Nothing),
                    Frame::Pong(_) => (ConnState::Running, ConnAction::Nothing),
                    data => match data.into_payload() {
                        Some(payload) => (ConnState::Running, ConnAction::Enqueue(payload)),
                        None => (ConnState::Running, ConnAction::Nothing),
                    },
                },
                ConnEvent::BusClosed => (ConnState::Draining, ConnAction::SendClose),
                ConnEvent::ReadFailed => (ConnState::Draining, ConnAction::SendClose),
                ConnEvent::WriteFailed => (ConnState::Draining, ConnAction::SendClose),
                ConnEvent::ShutdownObserved => (ConnState::Draining, ConnAction::SendClose),
                _ => (ConnState::Running, ConnAction::Nothing),
            },
            ConnState::Draining => (ConnState::Terminated, ConnAction::Release),
            ConnState::Terminated => (ConnState::Terminated, ConnAction::Nothing),
        }
    }
}

impl ConnState {
    /// Takes a message that the read half yielded: the event is the frame
    /// that the message stands for.
    pub fn on_message(self, message: tungstenite::Message) -> (next: (ConnState, ConnAction))
        ensures
            exists|frame: Frame|
                frame@ == message_frame(message) && next == #[trigger] self.next(
                    ConnEvent::Inbound(frame),
                ),
    {
        let frame = frame_of_message(message);
        self.step(ConnEvent::Inbound(frame))
    }
}

/// Fan-out: every connection that is running answers a batch from the bus by
/// writing exactly that batch, its messages in their order, and goes on
/// running. A connection in any other state writes nothing.
pub proof fn law_fan_out(connections: Seq<ConnState>, batch: Vec<tungstenite::Message>)
    ensures
        forall|i: int|
            0 <= i < connections.len() && connections[i] is Running ==> (
            #[trigger] connections[i]).next(ConnEvent::Outbound(batch)) == (
                ConnState::Running,
                ConnAction::Write(batch),
            ),
        forall|i: int|
            0 <= i < connections.len() && !(connections[i] is Running) ==> !((
            #[trigger] connections[i]).next(ConnEvent::Outbound(batch)).1 is Write),
{
}

/// A lagging connection is not closed: it records the warning and goes on
/// running.
pub proof fn law_lag_is_survived(missed: u64)
    ensures
        ConnState::Running.next(ConnEvent::Lagged(missed)) == (
            ConnState::Running,
            ConnAction::RecordLag(missed),
        ),
{
}

/// Only the content of a text or binary frame, read by a running connection,
/// is ever put into the mailbox, and it is put there unchanged. A Ping, a
/// Pong or a Close never is.
pub proof fn law_only_data_is_enqueued(state: ConnState, event: ConnEvent)
    ensures
        state.next(event).1 matches ConnAction::Enqueue(payload) ==> {
            &&& state is Running
            &&& event matches ConnEvent::Inbound(frame)
            &&& frame.data() == Some(payload)
            &&& !frame@.is_control()
            &&& frame@.payload() == Some(payload@)
        },
        event matches ConnEvent::Inbound(frame) && frame@.is_control() ==> !(state.next(event).1
            is Enqueue),
{
}

/// A connection that has begun to close never runs again: from then on it
/// puts nothing into the mailbox and writes no batch, and once terminated it
/// does nothing at all.
pub proof fn law_closing_is_final(state: ConnState, event: ConnEvent)
    requires
        state.closing(),
    ensures
        state.next(event).0 is Terminated,
        !(state.next(event).1 is Enqueue),
        !(state.next(event).1 is Write),
        state is Terminated ==> state.next(event).1 is Nothing,
{
}

/// A running connection begins to close on exactly these events: the peer's
/// Close, a failed read or write, the end of the bus, and shutdown.
pub proof fn law_leaving_running(event: ConnEvent)
    ensures
        ConnState::Running.next(event).0 is Draining <==> {
            ||| event matches ConnEvent::Inbound(frame) && frame is Close
            ||| event is ReadFailed
            ||| event is WriteFailed
            ||| event is BusClosed
            ||| event is ShutdownObserved
        },
        ConnState::Running.next(event).0 is Draining ==> ConnState::Running.next(event).1
            is SendClose,
        ConnState::Running.next(event).0 is Running || ConnState::Running.next(event).0
            is Draining,
{
}

/// How one attempt to accept a client ended.
#[derive(Debug, Clone, Copy, PartialEq, Eq, Structural)]
pub enum AcceptOutcome {
    /// A client is connected.
    Accepted,
    /// The attempt failed in a way that passes: a reset in the middle, a
    /// resource that ran short for a moment.
    Transient,
    /// The listening socket itself failed.
    Fatal,
    /// No attempt ended: the shutdown watch changed.
    Woken,
}

/// What the acceptor does after one attempt.
#[derive(Debug, Clone, Copy, PartialEq, Eq, Structural)]
pub enum AcceptorStep {
    /// Spawn a connection task for the client and go on accepting.
    Spawn,
    /// Record the failure and go on accepting.
    RecordAndContinue,
    /// Go on accepting.
    Continue,
    /// Stop accepting and tell the supervisor that the listener failed.
    Fail,
    /// Leave the accept loop: shutdown is signalled.
    Exit,
}

impl AcceptorStep {
    /// The failure that goes into the last-error slot with a step of the
    /// acceptor: an attempt that failed in passing is recorded as a failed
    /// connection. A failed listener is recorded where the supervisor is told.
    pub open spec fn failure(self) -> Option<HubError> {
        match self {
            AcceptorStep::RecordAndContinue => Some(HubError::ConnectionFailed),
            _ => None,
        }
    }

    /// The failure to record in the last-error slot for this step, if any.
    pub fn to_record(&self) -> (kind: Option<HubError>)
        ensures
            kind == self.failure(),
    {
        match self {
            AcceptorStep::RecordAndContinue => Some(HubError::ConnectionFailed),
            _ => None,
        }
    }
}

/// What the acceptor does after one attempt, given the shutdown watch.
pub open spec fn acceptor_next(shutdown: bool, outcome: AcceptOutcome) -> AcceptorStep {
    if shutdown {
        AcceptorStep::Exit
    } else {
        match outcome {
            AcceptOutcome::Accepted => AcceptorStep::Spawn,
            AcceptOutcome::Transient => AcceptorStep::RecordAndContinue,
            AcceptOutcome::Fatal => AcceptorStep::Fail,
            AcceptOutcome::Woken => AcceptorStep::Continue,
        }
    }
}

/// Decides what the acceptor does after one attempt. Once shutdown is
/// signalled it leaves its loop, whatever the attempt brought.
pub fn acceptor_step(shutdown: bool, outcome: AcceptOutcome) -> (step: AcceptorStep)
    ensures
        step == acceptor_next(shutdown, outcome),
{
    if shutdown {
        AcceptorStep::Exit
    } else {
        match outcome {
            AcceptOutcome::Accepted => AcceptorStep::Spawn,
            AcceptOutcome::Transient => AcceptorStep::RecordAndContinue,
            AcceptOutcome::Fatal => AcceptorStep::Fail,
            AcceptOutcome::Woken => AcceptorStep::Continue,
        }
    }
}

} // verus!
