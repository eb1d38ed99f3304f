//! The handles that a supervisor publishes, and the calls that the facade
//! makes on them. Other threads hold the far ends, so nothing is claimed of
//! what a call finds there.

use vstd::prelude::*;
use futures_util::FutureExt;

verus! {

/// `tokio::sync::broadcast::Sender`, carried through as it is.
#[verifier::external_type_specification]
#[verifier::external_body]
#[verifier::reject_recursive_types(T)]
pub struct ExBroadcastSender<T>(tokio::sync::broadcast::Sender<T>);

/// `tokio::sync::mpsc::UnboundedReceiver`, carried through as it is.
#[verifier::external_type_specification]
#[verifier::external_body]
#[verifier::reject_recursive_types(T)]
pub struct ExUnboundedReceiver<T>(tokio::sync::mpsc::UnboundedReceiver<T>);

/// `tokio::sync::watch::Sender`, carried through as it is.
#[verifier::external_type_specification]
#[verifier::external_body]
#[verifier::reject_recursive_types(T)]
pub struct ExWatchSender<T>(tokio::sync::watch::Sender<T>);

/// `tokio::sync::broadcast::Sender::send`: hands the batch to the receivers
/// subscribed at this moment and reports how many there are, at least one.
/// With no receiver the batch is dropped and nothing is reported. The call
/// does not wait for any receiver.
#[verifier::external_body]
fn bus_send(
    bus: &tokio::sync::broadcast::Sender<Vec<tungstenite::Message>>,
    batch: Vec<tungstenite::Message>,
) -> (receivers: Option<usize>)
    ensures
        receivers matches Some(n) ==> n >= 1,
{
    bus.send(batch).ok()
}

/// `tokio::sync::mpsc::UnboundedReceiver::recv`, polled once through
/// `futures_util::FutureExt::now_or_never`: the next message if one can be had
/// without waiting, nothing if none can or if every sender is gone.
#[verifier::external_body]
fn mailbox_poll(
    mailbox: &mut tokio::sync::mpsc::UnboundedReceiver<tungstenite::Message>,
) -> (message: Option<tungstenite::Message>) {
    mailbox.recv().now_or_never().flatten()
}

/// `tokio::sync::watch::Sender::send`: sets the watched value and wakes the
/// receivers, if there is any receiver. Reports whether there was one; with
/// none the value is not set.
#[verifier::external_body]
fn watch_send(watch: &tokio::sync::watch::Sender<bool>, value: bool) -> (told: bool) {
    watch.send(value).is_ok()
}

/// The handles that one supervisor publishes for the host: the producer side
/// of the bus, the consumer side of the mailbox, and the sender of the
/// shutdown watch.
pub struct ServerState {
    bus: tokio::sync::broadcast::Sender<Vec<tungstenite::Message>>,
    mailbox: tokio::sync::mpsc::UnboundedReceiver<tungstenite::Message>,
    shutdown: tokio::sync::watch::Sender<bool>,
}

impl ServerState {
    /// The producer side of the bus that these handles hold.
    pub closed spec fn bus_handle(self) -> tokio::sync::broadcast::Sender<
        Vec<tungstenite::Message>,
    > {
        self.bus
    }

    /// The consumer side of the mailbox that these handles hold.
    pub closed spec fn mailbox_handle(self) -> tokio::sync::mpsc::UnboundedReceiver<
        tungstenite::Message,
    > {
        self.mailbox
    }

    /// The sender of the shutdown watch that these handles hold.
    pub closed spec fn shutdown_handle(self) -> tokio::sync::watch::Sender<bool> {
        self.shutdown
    }

    /// Puts the three handles of a supervisor together.
    pub fn new(
        bus: tokio::sync::broadcast::Sender<Vec<tungstenite::Message>>,
        mailbox: tokio::sync::mpsc::UnboundedReceiver<tungstenite::Message>,
        shutdown: tokio::sync::watch::Sender<bool>,
    ) -> (state: ServerState)
        ensures
            state.bus_handle() == bus,
            state.mailbox_handle() == mailbox,
            state.shutdown_handle() == shutdown,
    {
        ServerState { bus, mailbox, shutdown }
    }

    /// Publishes one batch on the bus. Whether anyone is subscribed does not
    /// matter: the number of receivers is reported, none for no receiver.
    pub(crate) fn publish(&self, batch: Vec<tungstenite::Message>) -> (receivers: Option<usize>)
        ensures
            receivers matches Some(n) ==> n >= 1,
    {
        bus_send(&self.bus, batch)
    }

    /// Sets the shutdown watch. Setting it again changes nothing.
    pub(crate) fn signal_shutdown(&self) {
        let _ = watch_send(&self.shutdown, true);
    }

    /// Pulls from the mailbox every message that can be had without waiting,
    /// in the order in which the mailbox yields them, and stops at the first
    /// moment at which none is there, or when it holds as many messages as a
    /// `usize` counts.
    pub(crate) fn pull_pending(&mut self) -> (pulled: Vec<tungstenite::Message>)
        ensures
            final(self).bus_handle() == old(self).bus_handle(),
            final(self).shutdown_handle() == old(self).shutdown_handle(),
    {
        let mut pulled: Vec<tungstenite::Message> = Vec::new();
        let mut room: usize = usize::MAX;
        while room > 0
            invariant
                self.bus_handle() == old(self).bus_handle(),
                self.shutdown_handle() == old(self).shutdown_handle(),
            decreases room,
        {
            match mailbox_poll(&mut self.mailbox) {
                Some(message) => {
                    pulled.push(message);
                    room = room - 1;
                },
                None => {
                    return pulled;
                },
            }
        }
        pulled
    }
}

} // verus!
