//! The batching store: accepted payments wait in a bounded queue and are
//! written to the database one round at a time.

use crate::channel::{bounded, try_recv, try_send, TryRecv, TrySend};
use crate::payment::Payment;
use tokio::sync::mpsc::{Receiver, Sender};
use vstd::prelude::*;
use vstd::string::StringExecFns;

verus! {

/// How many payments can wait for the writer.
pub const STORE_CAPACITY: usize = 16384;

/// How long the writer rests between two rounds, in milliseconds.
pub const ROUND_PAUSE_MS: u64 = 1;

/// Room that the writer's buffer starts with.
pub const BUFFER_HINT: usize = 256;

#[derive(Debug, Clone, Copy, PartialEq, Eq, Structural)]
pub enum StoreError {
    PushPaymentError,
}

impl StoreError {
    pub fn to_string(&self) -> (r: String)
        ensures
            r@ == "push payment into the store failed"@,
    {
        String::from_str("push payment into the store failed")
    }
}

/// What the writer does with the payments of one round.
pub enum Flush {
    /// Nothing was waiting.
    Nothing,
    /// One payment: a single insert.
    Single(Payment),
    /// Several payments: one bulk copy, in this order.
    Batch(Vec<Payment>),
}

/// The outcome of one round of the writer.
pub struct Round {
    /// What to write.
    pub flush: Flush,
    /// Whether the writer stops after this round.
    pub finished: bool,
}

impl Flush {
    /// The payments that a flush writes, in order.
    pub open spec fn payments(self) -> Seq<Payment> {
        match self {
            Flush::Nothing => Seq::<Payment>::empty(),
            Flush::Single(payment) => seq![payment],
            Flush::Batch(payments) => payments@,
        }
    }
}

/// The producer side of the store.
pub struct Store {
    sender: Option<Sender<Payment>>,
}

impl Store {
    /// Whether the queue to the writer exists.
    pub closed spec fn initialized(&self) -> bool {
        self.sender is Some
    }

    /// A store whose queue does not exist yet.
    pub fn new() -> (store: Self)
        ensures
            !store.initialized(),
    {
        Self { sender: None }
    }

    /// Makes the queue to the writer, for `STORE_CAPACITY` payments, and
    /// returns the end that the writer reads.
    pub fn init(&mut self) -> (receiver: Receiver<Payment>)
        ensures
            final(self).initialized(),
    {
        let (sender, receiver) = bounded::<Payment>(STORE_CAPACITY);
        self.sender = Some(sender);
        receiver
    }

    /// What the producer is told for each outcome of offering a payment.
    pub fn push_result(outcome: TrySend) -> (r: Result<(), StoreError>)
        ensures
            r is Ok <==> outcome == TrySend::Sent,
            r is Err ==> r == Err::<(), StoreError>(StoreError::PushPaymentError),
    {
        match outcome {
            TrySend::Sent => Ok(()),
            TrySend::Full => Err(StoreError::PushPaymentError),
            TrySend::Closed => Err(StoreError::PushPaymentError),
        }
    }

    /// Offers a payment to the writer without waiting. A payment that finds
    /// no queue, a full queue or a closed one is dropped.
    pub fn push_payment(&self, payment: Payment) -> (r: Result<(), StoreError>)
        ensures
            !self.initialized() ==> r is Err,
            r is Err ==> r == Err::<(), StoreError>(StoreError::PushPaymentError),
    {
        match &self.sender {
            Some(sender) => Self::push_result(try_send(sender, payment)),
            None => Err(StoreError::PushPaymentError),
        }
    }

    /// What one receive means for a round of the writer. A payment joins
    /// the end of the buffer, and the round goes on receiving. An empty
    /// queue ends the receiving, and so does a closed one, which is told
    /// apart by `Some(true)`.
    pub fn absorb(outcome: TryRecv<Payment>, buffer: &mut Vec<Payment>) -> (stop: Option<bool>)
        ensures
            outcome is Item ==> {
                &&& stop is None
                &&& final(buffer)@ == old(buffer)@.push(outcome->Item_0)
            },
            outcome is Empty ==> {
                &&& stop == Some(false)
                &&& final(buffer)@ == old(buffer)@
            },
            outcome is Disconnected ==> {
                &&& stop == Some(true)
                &&& final(buffer)@ == old(buffer)@
            },
    {
        match outcome {
            TryRecv::Item(payment) => {
                buffer.push(payment);
                None
            },
            TryRecv::Empty => Some(false),
            TryRecv::Disconnected => Some(true),
        }
    }

    /// Moves every payment that is waiting now to the end of `buffer`, in
    /// the order it was sent. Returns whether the queue is closed for good.
    /// What is waiting is the queue's to say: each receive is taken in by
    /// `absorb`, until one ends the receiving.
    pub fn drain(receiver: &mut Receiver<Payment>, buffer: &mut Vec<Payment>) -> (disconnected:
        bool)
        ensures
            old(buffer)@.is_prefix_of(final(buffer)@),
    {
        let mut stop: Option<bool> = None;
        while stop.is_none() && buffer.len() < usize::MAX
            invariant
                old(buffer)@.is_prefix_of(buffer@),
            decreases
                    usize::MAX - buffer@.len(),
                    (if stop is None {
                        1int
                    } else {
                        0int
                    }),
        {
            stop = Self::absorb(try_recv(receiver), buffer);
        }
        match stop {
            Some(disconnected) => disconnected,
            None => false,
        }
    }

    /// Decides what one round writes, and empties the buffer.
    pub fn next_flush(buffer: &mut Vec<Payment>, disconnected: bool) -> (round: Round)
        ensures
            final(buffer)@.len() == 0,
            round.finished == disconnected,
            round.flush.payments() == old(buffer)@,
            round.flush is Single <==> old(buffer)@.len() == 1 && !disconnected,
            round.flush is Nothing <==> old(buffer)@.len() == 0,
    {
        let waiting: usize = buffer.len();
        if waiting == 0 {
            Round { flush: Flush::Nothing, finished: disconnected }
        } else if waiting == 1 && !disconnected {
            let payment = buffer[0];
            buffer.clear();
            assert(seq![payment] =~= old(buffer)@);
            Round { flush: Flush::Single(payment), finished: false }
        } else {
            let mut payments: Vec<Payment> = Vec::new();
            std::mem::swap(buffer, &mut payments);
            Round { flush: Flush::Batch(payments), finished: disconnected }
        }
    }
}

} // verus!
