//! The kinds of failure that the hub knows, and the slot that keeps the text
//! of the most recent one.

use vstd::prelude::*;

verus! {

/// What can go wrong in the hub. Publishing to no subscriber is not among
/// them: it succeeds, and the batch is discarded.
#[derive(Debug, Clone, Copy, PartialEq, Eq, Structural)]
pub enum HubError {
    /// `start` was called while a supervisor was there already: starting,
    /// live or stopping.
    AlreadyRunning,
    /// The runtime or the listener could not be created.
    StartupFailed,
    /// The registry could not be accessed, or held no supervisor.
    RegistryUnavailable,
    /// A client fell behind the capacity of the bus. A warning: the
    /// connection goes on from the current head.
    ConnectionLag,
    /// One connection failed in its handshake or its I/O.
    ConnectionFailed,
    /// The listening socket died.
    ListenerFailed,
}

impl HubError {
    /// The text recorded for this kind of failure.
    pub open spec fn message(self) -> Seq<char> {
        match self {
            HubError::AlreadyRunning => "Server is already running, can't invoke start_server()."@,
            HubError::StartupFailed => "Server failed to start."@,
            HubError::RegistryUnavailable => "Server state could not be accessed."@,
            HubError::ConnectionLag => "A client fell behind the broadcast bus and skipped batches."@,
            HubError::ConnectionFailed => "A client connection failed."@,
            HubError::ListenerFailed => "The listening socket failed; the server is shutting down."@,
        }
    }

    /// The text recorded for this kind of failure.
    pub fn describe(&self) -> (text: String)
        ensures
            text@ == self.message(),
    {
        match self {
            HubError::AlreadyRunning => "Server is already running, can't invoke start_server().".to_owned(),
            HubError::StartupFailed => "Server failed to start.".to_owned(),
            HubError::RegistryUnavailable => "Server state could not be accessed.".to_owned(),
            HubError::ConnectionLag => "A client fell behind the broadcast bus and skipped batches.".to_owned(),
            HubError::ConnectionFailed => "A client connection failed.".to_owned(),
            HubError::ListenerFailed => "The listening socket failed; the server is shutting down.".to_owned(),
        }
    }
}

/// The last-error slot: it holds the text of the most recent failure, each
/// record replacing the one before, and reading never empties it.
pub struct ErrorSlot {
    last: Option<String>,
}

impl View for ErrorSlot {
    type V = Option<Seq<char>>;

    closed spec fn view(&self) -> Option<Seq<char>> {
        match self.last {
            Some(text) => Some(text@),
            None => None,
        }
    }
}

/// The view of a text that may be absent.
pub open spec fn text_view(text: Option<String>) -> Option<Seq<char>> {
    match text {
        Some(t) => Some(t@),
        None => None,
    }
}

impl ErrorSlot {
    /// A slot in which nothing has been recorded.
    pub fn new() -> (slot: ErrorSlot)
        ensures
            slot@ is None,
    {
        ErrorSlot { last: None }
    }

    /// Records a failure by its text.
    pub fn record(&mut self, text: String)
        ensures
            final(self)@ == Some(text@),
    {
        self.last = Some(text);
    }

    /// Records a failure by its kind.
    pub fn record_kind(&mut self, kind: HubError)
        ensures
            final(self)@ == Some(kind.message()),
    {
        self.last = Some(kind.describe());
    }

    /// The text of the most recent failure, if any was recorded.
    pub fn last(&self) -> (text: Option<String>)
        ensures
            text_view(text) == self@,
    {
        match &self.last {
            Some(t) => Some(t.clone()),
            None => None,
        }
    }
}

} // verus!
