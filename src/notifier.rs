use vstd::prelude::*;

use tokio::sync::broadcast::error::SendError;
use tokio::sync::broadcast::{Receiver, Sender};

verus! {

#[verifier::external_type_specification]
#[verifier::external_body]
#[verifier::reject_recursive_types(T)]
pub struct ExSender<T>(Sender<T>);

#[verifier::external_type_specification]
#[verifier::external_body]
#[verifier::reject_recursive_types(T)]
pub struct ExReceiver<T>(Receiver<T>);

#[verifier::external_type_specification]
#[verifier::external_body]
#[verifier::reject_recursive_types(T)]
pub struct ExSendError<T>(SendError<T>);

/// Slots of the start signal: a receiver that has not taken a pending signal
/// keeps only the latest one.
pub const SIGNAL_CAPACITY: usize = 1;

/// Relies on tokio's `broadcast::Sender::new`: a sender with no receiver yet,
/// which panics on a capacity of zero or above `usize::MAX / 2`.
#[verifier::external_body]
fn signal_sender(capacity: usize) -> (r: Sender<()>)
    requires
        0 < capacity <= usize::MAX / 2,
{
    Sender::new(capacity)
}

/// Relies on tokio's `broadcast::Sender::send`: it does not block, and it
/// returns `Ok(n)` with `n` the number of subscribed receivers, failing only
/// when there is none.
#[verifier::external_body]
fn send_signal(sender: &Sender<()>) -> (r: Result<usize, SendError<()>>)
    ensures
        r is Ok ==> r->Ok_0 >= 1,
{
    sender.send(())
}

/// Relies on tokio's `broadcast::Sender::subscribe`: a receiver that gets
/// the signals sent after this call.
#[verifier::external_body]
fn subscribe_signal(sender: &Sender<()>) -> (r: Receiver<()>) {
    sender.subscribe()
}

/// The start-signal bus: one publish wakes every receiver subscribed at
/// that moment; it keeps nothing for receivers that subscribe later.
pub struct Notifier {
    sender: Sender<()>,
}

impl Notifier {
    pub fn new() -> (r: Notifier) {
        Notifier { sender: signal_sender(SIGNAL_CAPACITY) }
    }

    /// A new receiver, which observes only the signals published after it.
    pub fn subscribe(&self) -> (r: Receiver<()>) {
        subscribe_signal(&self.sender)
    }

    /// Publishes the start signal and returns the number of receivers it
    /// reached. With no receiver it reaches none; that is no error.
    pub fn send_signal(&self) -> (r: usize) {
        match send_signal(&self.sender) {
            Ok(n) => n,
            Err(_) => 0,
        }
    }
}

} // verus!
