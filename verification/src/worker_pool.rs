//! The worker pool: one bounded queue per worker, filled in turn, and the
//! steps a worker takes with each message.

use crate::channel::{bounded, capacity_ok, try_send, TrySend};
use crate::health_monitor::{select_processor, HealthMonitor};
use crate::payment::{Payment, PaymentMessage};
use crate::payment_processor::PaymentProcessorError;
use crate::processor_type::ProcessorType;
use crate::retry::{retry, RetryOutcome, RetryScheduler};
use crate::retry_heap::RetryItem;
use crate::store::Store;
use tokio::sync::mpsc::{Receiver, Sender};
use vstd::arithmetic::div_mod::lemma_add_mod_noop_right;
use vstd::prelude::*;
use vstd::string::StringExecFns;

verus! {

/// Messages that the worker queues hold together, and that the scheduler's
/// queue holds alone.
pub const BUFFER_SIZE: usize = 32768;

/// The error that reading a message from its bytes can give.
#[verifier::external_type_specification]
#[verifier::external_body]
pub struct ExJsonError(serde_json::Error);

#[derive(Debug)]
pub enum WorkerPoolError {
    JsonParseError(serde_json::Error),
    QueueClosed,
    QueueFull,
    PaymentFailed(PaymentProcessorError),
    ProcessorsUnavailable,
}

/// Prints a parse error with `serde_json::Error`'s `Display`. Nothing is
/// claimed of the text.
#[verifier::external_body]
fn json_error_text(error: &serde_json::Error) -> (text: String) {
    format!("{}", error)
}

/// Reads the wall clock with `time::UtcDateTime::now` and gives the instant
/// an offset of zero. Nothing is claimed of the instant. (The call panics
/// only where the system clock stands beyond the year 9999.)
#[verifier::external_body]
fn utc_now() -> (now: time::OffsetDateTime) {
    time::UtcDateTime::now().to_offset(time::UtcOffset::UTC)
}

impl WorkerPoolError {
    /// The text before the cause, or the whole text where there is no
    /// cause.
    pub open spec fn headline(&self) -> Seq<char> {
        match self {
            WorkerPoolError::JsonParseError(_) => "JSON parse error: "@,
            WorkerPoolError::QueueClosed => "Queue closed"@,
            WorkerPoolError::QueueFull => "Queue full"@,
            WorkerPoolError::PaymentFailed(_) => "Payment failed: "@,
            WorkerPoolError::ProcessorsUnavailable => "No processors available"@,
        }
    }

    pub fn to_string(&self) -> (r: String)
        ensures
            self.headline().is_prefix_of(r@),
            self is PaymentFailed ==> r@ == self.headline() + self->PaymentFailed_0.message(),
            !(self is JsonParseError) && !(self is PaymentFailed) ==> r@ == self.headline(),
    {
        match self {
            WorkerPoolError::JsonParseError(e) => {
                let cause = json_error_text(e);
                String::from_str("JSON parse error: ").concat(cause.as_str())
            },
            WorkerPoolError::QueueClosed => String::from_str("Queue closed"),
            WorkerPoolError::QueueFull => String::from_str("Queue full"),
            WorkerPoolError::PaymentFailed(e) => {
                let cause = e.to_string();
                String::from_str("Payment failed: ").concat(cause.as_str())
            },
            WorkerPoolError::ProcessorsUnavailable => String::from_str("No processors available"),
        }
    }
}

/// The queue that a cursor selects among `count` queues.
pub open spec fn queue_of(cursor: usize, count: nat) -> int {
    cursor as int % count as int
}

/// Where the cursor stands after a submission to one of `count` queues: one
/// queue on, and past the last queue at the first.
pub open spec fn cursor_after(cursor: usize, count: nat) -> int {
    (cursor + 1) % count as int
}

/// Where the cursor stands after `submissions` submissions in a row: where
/// it stood if there were none, else as many queues on, round the queues.
pub open spec fn cursor_after_many(cursor: usize, count: nat, submissions: nat) -> int {
    if submissions == 0 {
        cursor as int
    } else {
        (cursor + submissions) % count as int
    }
}

/// One more submission moves the cursor one queue on.
proof fn lemma_cursor_moves_on(cursor: usize, count: nat, submissions: nat, now: usize)
    requires
        count > 0,
        now == cursor_after_many(cursor, count, submissions),
    ensures
        cursor_after(now, count) == cursor_after_many(cursor, count, submissions + 1),
{
    if submissions > 0 {
        lemma_add_mod_noop_right(1, cursor + submissions, count as int);
        assert((1 + (cursor + submissions) % count as int) % count as int == (1 + (cursor
            + submissions)) % count as int);
    }
}

/// The receiving ends that `WorkerPool::start` hands to the tasks.
pub struct WorkerChannels {
    /// One per worker, in the order of the workers.
    pub receivers: Vec<Receiver<PaymentMessage>>,
    /// Where a worker sends a message whose attempt failed.
    pub retry_sender: Sender<RetryItem>,
    /// Where the scheduler picks up those messages.
    pub retry_receiver: Receiver<RetryItem>,
}

/// What a worker has done with a message.
#[derive(Debug, Clone, Copy, PartialEq, Eq, Structural)]
pub enum Settlement {
    /// The payment was accepted by a processor and offered to the store.
    Done,
    /// The attempt failed; the message went the way of a retry.
    Failed(RetryOutcome),
}

/// The queues of the workers.
pub struct WorkerPool {
    senders: Vec<Sender<PaymentMessage>>,
    num_workers: usize,
    queue_capacity: usize,
}

impl WorkerPool {
    #[verifier::type_invariant]
    spec fn inv(self) -> bool {
        self.senders@.len() == 0 || (self.senders@.len() == self.num_workers
            && self.queue_capacity == BUFFER_SIZE / self.num_workers)
    }

    /// How many queues exist: none before `start`, one per worker after.
    pub closed spec fn queue_count(&self) -> nat {
        self.senders@.len()
    }

    /// How many workers the pool is meant for.
    pub closed spec fn spec_num_workers(&self) -> usize {
        self.num_workers
    }

    /// The number of messages each queue was made for.
    pub closed spec fn spec_queue_capacity(&self) -> usize {
        self.queue_capacity
    }

    /// A pool for `num_workers` workers, without queues yet.
    pub fn new(num_workers: usize) -> (pool: Self)
        ensures
            pool.spec_num_workers() == num_workers,
            pool.queue_count() == 0,
    {
        Self { senders: Vec::with_capacity(num_workers), num_workers, queue_capacity: 0 }
    }

    #[verifier::when_used_as_spec(spec_num_workers)]
    pub fn num_workers(&self) -> (n: usize)
        ensures
            n == self.spec_num_workers(),
    {
        self.num_workers
    }

    /// The number of messages each queue was made for. Once there are
    /// queues, there is one per worker, each made for
    /// `BUFFER_SIZE / num_workers` messages: a queue never holds more.
    #[verifier::when_used_as_spec(spec_queue_capacity)]
    pub fn queue_capacity(&self) -> (n: usize)
        ensures
            n == self.spec_queue_capacity(),
            self.queue_count() > 0 ==> self.queue_count() == self.spec_num_workers() && n
                == BUFFER_SIZE / self.spec_num_workers(),
    {
        proof {
            use_type_invariant(self);
        }
        self.queue_capacity
    }

    /// The number of messages that each of `num_workers` queues is made
    /// for.
    pub fn queue_capacity_for(num_workers: usize) -> (capacity: usize)
        requires
            0 < num_workers <= BUFFER_SIZE,
        ensures
            capacity == BUFFER_SIZE / num_workers,
            capacity_ok(capacity),
    {
        let capacity: usize = BUFFER_SIZE / num_workers;
        assert(1 <= BUFFER_SIZE as int / num_workers as int <= BUFFER_SIZE) by (nonlinear_arith)
            requires
                0 < num_workers <= BUFFER_SIZE,
        ;
        capacity
    }

    /// Makes one queue per worker, each for `BUFFER_SIZE / num_workers`
    /// messages, and the scheduler's queue for `BUFFER_SIZE` retries. The
    /// pool keeps the sending ends of the workers' queues.
    pub fn start(&mut self) -> (channels: WorkerChannels)
        requires
            0 < old(self).spec_num_workers() <= BUFFER_SIZE,
        ensures
            final(self).spec_num_workers() == old(self).spec_num_workers(),
            final(self).queue_count() == old(self).spec_num_workers(),
            final(self).spec_queue_capacity() == BUFFER_SIZE / old(self).spec_num_workers(),
            channels.receivers@.len() == old(self).spec_num_workers(),
    {
        let count: usize = self.num_workers;
        let capacity: usize = Self::queue_capacity_for(count);
        let mut senders: Vec<Sender<PaymentMessage>> = Vec::new();
        let mut receivers: Vec<Receiver<PaymentMessage>> = Vec::new();
        let mut made: usize = 0;
        while made < count
            invariant
                made <= count,
                senders@.len() == made,
                receivers@.len() == made,
                capacity_ok(capacity),
            decreases count - made,
        {
            let (sender, receiver) = bounded::<PaymentMessage>(capacity);
            senders.push(sender);
            receivers.push(receiver);
            made = made + 1;
        }
        let (retry_sender, retry_receiver) = bounded::<RetryItem>(BUFFER_SIZE);
        proof {
            use_type_invariant(&*self);
        }
        self.queue_capacity = capacity;
        self.senders = senders;
        WorkerChannels { receivers, retry_sender, retry_receiver }
    }

    /// What the submitter is told for each outcome of offering a message.
    pub fn submit_result(outcome: TrySend) -> (r: Result<(), WorkerPoolError>)
        ensures
            outcome == TrySend::Sent <==> r is Ok,
            outcome == TrySend::Full <==> r is Err && r->Err_0 is QueueFull,
            outcome == TrySend::Closed <==> r is Err && r->Err_0 is QueueClosed,
    {
        match outcome {
            TrySend::Sent => Ok(()),
            TrySend::Full => Err(WorkerPoolError::QueueFull),
            TrySend::Closed => Err(WorkerPoolError::QueueClosed),
        }
    }

    /// Picks the queue for the next message and moves the cursor on. Each
    /// submitting thread keeps a cursor of its own.
    pub fn next_queue(&self, cursor: &mut usize) -> (r: Option<usize>)
        ensures
            self.queue_count() == 0 ==> r is None && *final(cursor) == *old(cursor),
            self.queue_count() > 0 ==> {
                &&& r == Some(queue_of(*old(cursor), self.queue_count()) as usize)
                &&& *final(cursor) == cursor_after(*old(cursor), self.queue_count())
            },
    {
        let count: usize = self.senders.len();
        if count == 0 {
            return None;
        }
        let index: usize = *cursor % count;
        proof {
            lemma_add_mod_noop_right(1, *cursor as int, count as int);
            assert((1 + *cursor % count) % (count as int) == (1 + *cursor) % (count as int));
        }
        *cursor = (index + 1) % count;
        Some(index)
    }

    /// Offers a message to the queue that the cursor selects, without
    /// waiting. A message that finds the queue full or closed is dropped.
    pub fn submit_internal(&self, msg: PaymentMessage, cursor: &mut usize) -> (r: Result<
        (),
        WorkerPoolError,
    >)
        ensures
            self.queue_count() == 0 ==> *final(cursor) == *old(cursor) && r is Err && r->Err_0
                is QueueClosed,
            self.queue_count() > 0 ==> *final(cursor) == cursor_after(
                *old(cursor),
                self.queue_count(),
            ),
            r is Err ==> r->Err_0 is QueueFull || r->Err_0 is QueueClosed,
    {
        match self.next_queue(cursor) {
            None => Err(WorkerPoolError::QueueClosed),
            Some(index) => Self::submit_result(try_send(&self.senders[index], msg)),
        }
    }

    /// Takes what the receiver read from a frame: a frame that held no
    /// message is passed over in silence, a message is submitted.
    pub fn submit(&self, msg: Option<PaymentMessage>, cursor: &mut usize) -> (r: Result<
        (),
        WorkerPoolError,
    >)
        ensures
            msg is None ==> r is Ok && *final(cursor) == *old(cursor),
            msg is Some && self.queue_count() == 0 ==> *final(cursor) == *old(cursor) && r is Err
                && r->Err_0 is QueueClosed,
            msg is Some && self.queue_count() > 0 ==> *final(cursor) == cursor_after(
                *old(cursor),
                self.queue_count(),
            ),
            r is Err ==> r->Err_0 is QueueFull || r->Err_0 is QueueClosed,
    {
        match msg {
            Some(msg) => self.submit_internal(msg, cursor),
            None => Ok(()),
        }
    }

    /// Resubmits retries that are due, in order, each to the queue that the
    /// cursor selects. Returns how many found their queue full or closed;
    /// those are dropped, not scheduled again.
    pub fn resubmit(&self, due: &Vec<RetryItem>, cursor: &mut usize) -> (dropped: usize)
        ensures
            dropped <= due@.len(),
            self.queue_count() == 0 ==> dropped == due@.len() && *final(cursor) == *old(cursor),
            self.queue_count() > 0 ==> *final(cursor) == cursor_after_many(
                *old(cursor),
                self.queue_count(),
                due@.len(),
            ),
    {
        let mut dropped: usize = 0;
        let mut i: usize = 0;
        while i < due.len()
            invariant
                i <= due@.len(),
                dropped <= i,
                self.queue_count() == 0 ==> dropped == i && *cursor == *old(cursor),
                self.queue_count() > 0 ==> *cursor == cursor_after_many(
                    *old(cursor),
                    self.queue_count(),
                    i as nat,
                ),
            decreases due@.len() - i,
        {
            proof {
                if self.queue_count() > 0 {
                    lemma_cursor_moves_on(*old(cursor), self.queue_count(), i as nat, *cursor);
                }
            }
            if self.submit_internal(due[i].msg, cursor).is_err() {
                dropped = dropped + 1;
            }
            i = i + 1;
        }
        dropped
    }

    /// One round of the scheduler: every retry that is due at `now` leaves
    /// the scheduler, earliest first, and is resubmitted. Returns how many
    /// were taken and how many of them were dropped.
    pub fn resubmit_due(
        &self,
        scheduler: &mut RetryScheduler,
        cursor: &mut usize,
        now: u64,
    ) -> (r: (usize, usize))
        ensures
            r.1 <= r.0,
            r.0 + final(scheduler)@.len() == old(scheduler)@.len(),
            final(scheduler)@.subset_of(old(scheduler)@),
            forall|x: RetryItem|
                final(scheduler)@.count(x) == if x.next_attempt > now {
                    old(scheduler)@.count(x)
                } else {
                    0
                },
            self.queue_count() == 0 ==> r.1 == r.0 && *final(cursor) == *old(cursor),
            self.queue_count() > 0 ==> *final(cursor) == cursor_after_many(
                *old(cursor),
                self.queue_count(),
                r.0 as nat,
            ),
    {
        let due = scheduler.take_due(now);
        proof {
            due@.to_multiset_ensures();
            let taken = due@.to_multiset();
            let left = scheduler@;
            assert forall|x: RetryItem|
                left.count(x) == if x.next_attempt > now {
                    old(scheduler)@.count(x)
                } else {
                    0
                } by {
                if x.next_attempt > now {
                    if taken.count(x) > 0 {
                        assert(due@.contains(x));
                        let i = choose|i: int| 0 <= i < due@.len() && due@[i] == x;
                        assert(due@[i].next_attempt <= now);
                    }
                } else {
                    if left.count(x) > 0 {
                        assert(left.contains(x));
                    }
                }
            }
        }
        let dropped = self.resubmit(&due, cursor);
        (due.len(), dropped)
    }

    /// The payment record of an attempt with a given processor at a given
    /// instant.
    pub fn stamp(
        msg: &PaymentMessage,
        processor: ProcessorType,
        now: time::OffsetDateTime,
    ) -> (payment: Payment)
        ensures
            payment.amount == msg.amount,
            payment.correlation_id == msg.correlation_id,
            payment.processor == processor,
            payment.requested_at == now,
    {
        Payment::new(msg.amount, msg.correlation_id, processor, now)
    }

    /// Begins an attempt: picks the processor by the health of both and
    /// stamps the payment with the current time. With both processors
    /// failing there is no attempt.
    pub fn process_message(msg: &PaymentMessage, health: &HealthMonitor) -> (r: Result<
        Payment,
        WorkerPoolError,
    >)
        ensures
            match select_processor(
                health.healths()[ProcessorType::Default],
                health.healths()[ProcessorType::Fallback],
            ) {
                Ok(processor) => r is Ok && r->Ok_0.amount == msg.amount && r->Ok_0.correlation_id
                    == msg.correlation_id && r->Ok_0.processor == processor,
                Err(_) => r is Err && r->Err_0 is ProcessorsUnavailable,
            },
    {
        match health.next_processor() {
            Ok(processor) => Ok(Self::stamp(msg, processor, utc_now())),
            Err(_) => Err(WorkerPoolError::ProcessorsUnavailable),
        }
    }

    /// Ends an attempt: a payment that the processor accepted is offered to
    /// the store, and counts as done even where the store drops it; a
    /// failure is reported with its cause.
    pub fn finish_attempt(
        payment: Payment,
        verdict: Result<(), PaymentProcessorError>,
        store: &Store,
    ) -> (r: Result<(), WorkerPoolError>)
        ensures
            verdict is Ok ==> r is Ok,
            verdict is Err ==> r == Err::<(), WorkerPoolError>(
                WorkerPoolError::PaymentFailed(verdict->Err_0),
            ),
    {
        match verdict {
            Ok(()) => {
                let _ = store.push_payment(payment);
                Ok(())
            },
            Err(e) => Err(WorkerPoolError::PaymentFailed(e)),
        }
    }

    /// Settles a message after its attempt: any failure hands it to the
    /// retry scheduler, which gives it up once it has been retried
    /// `MAX_RETRIES` times.
    pub fn settle(
        msg: PaymentMessage,
        attempt: &Result<(), WorkerPoolError>,
        now: u64,
        retry_sender: &Sender<RetryItem>,
    ) -> (r: Settlement)
        ensures
            attempt is Ok <==> r == Settlement::Done,
            attempt is Err ==> r is Failed && (r->Failed_0 == RetryOutcome::Exhausted
                <==> msg.retry_count >= crate::backoff::MAX_RETRIES),
    {
        match attempt {
            Ok(()) => Settlement::Done,
            Err(_) => Settlement::Failed(retry(msg, now, retry_sender)),
        }
    }
}

} // verus!
