//! Bounded queues between tasks.
//!
//! The queues are tokio's bounded channels. What a non-blocking send or
//! receive returns depends on what the other tasks have done in the
//! meantime, so nothing is claimed of the outcome: the callers here state
//! what they do for each of them.

use tokio::sync::mpsc::error::{TryRecvError, TrySendError};
use tokio::sync::mpsc::{Receiver, Sender};
use vstd::prelude::*;

verus! {

/// The sending half of a bounded channel.
#[verifier::external_type_specification]
#[verifier::external_body]
#[verifier::reject_recursive_types(T)]
pub struct ExSender<T>(tokio::sync::mpsc::Sender<T>);

/// The receiving half of a bounded channel.
#[verifier::external_type_specification]
#[verifier::external_body]
#[verifier::reject_recursive_types(T)]
pub struct ExReceiver<T>(tokio::sync::mpsc::Receiver<T>);

/// What came of a send that does not wait.
#[derive(Debug, Clone, Copy, PartialEq, Eq, Structural)]
pub enum TrySend {
    /// The item is in the queue.
    Sent,
    /// The queue held as many items as it was made for; the item is dropped.
    Full,
    /// The receiving half is gone; the item is dropped.
    Closed,
}

/// What came of a receive that does not wait.
#[derive(Debug)]
pub enum TryRecv<T> {
    /// The oldest item of the queue.
    Item(T),
    /// Nothing is queued, but a sender is still there.
    Empty,
    /// Nothing is queued and every sender is gone.
    Disconnected,
}

/// Whether a channel can be made for `capacity` items: at least one, and no
/// more than the channel's semaphore can count.
pub open spec fn capacity_ok(capacity: usize) -> bool {
    0 < capacity <= usize::MAX / 8
}

/// Makes a channel with `tokio::sync::mpsc::channel`, which buffers up to
/// `capacity` items and panics on a capacity of zero or above
/// `usize::MAX >> 3`. Nothing is claimed of the two halves.
#[verifier::external_body]
pub(crate) fn bounded<T>(capacity: usize) -> (halves: (Sender<T>, Receiver<T>))
    requires
        capacity_ok(capacity),
{
    tokio::sync::mpsc::channel(capacity)
}

/// Offers an item with `Sender::try_send` and tells the three outcomes apart.
/// Which one comes depends on the state of the channel, so none is promised.
#[verifier::external_body]
pub(crate) fn try_send<T>(sender: &Sender<T>, item: T) -> (outcome: TrySend) {
    match sender.try_send(item) {
        Ok(()) => TrySend::Sent,
        Err(TrySendError::Full(_)) => TrySend::Full,
        Err(TrySendError::Closed(_)) => TrySend::Closed,
    }
}

/// Takes an item with `Receiver::try_recv` and tells the three outcomes
/// apart. Which one comes depends on the state of the channel, so none is
/// promised.
#[verifier::external_body]
pub(crate) fn try_recv<T>(receiver: &mut Receiver<T>) -> (outcome: TryRecv<T>) {
    match receiver.try_recv() {
        Ok(item) => TryRecv::Item(item),
        Err(TryRecvError::Empty) => TryRecv::Empty,
        Err(TryRecvError::Disconnected) => TryRecv::Disconnected,
    }
}

} // verus!
