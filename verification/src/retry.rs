//! The retry scheduler: when a failed payment is tried again, and when it
//! is given up.

use crate::backoff::{backoff_ms, calc_backoff, lemma_backoff_within_jitter, MAX_RETRIES};
use crate::channel::{try_send, TrySend};
use crate::payment::PaymentMessage;
use crate::retry_heap::{RetryHeap, RetryItem};
use tokio::sync::mpsc::Sender;
use vstd::multiset::Multiset;
use vstd::prelude::*;
use vstd::seq_lib::to_multiset_build;

verus! {

/// Nanoseconds in a millisecond.
pub const NANOS_PER_MILLI: u64 = 1_000_000;

/// Room that the scheduler's heap starts with.
pub const HEAP_HINT: usize = 8192;

/// The instant `delay_ms` milliseconds after `now`, or the end of the clock
/// where that lies beyond it.
pub open spec fn deadline_after(now: u64, delay_ms: int) -> int {
    let at = now + delay_ms * NANOS_PER_MILLI;
    if at > u64::MAX {
        u64::MAX as int
    } else {
        at
    }
}

/// What the scheduler does with a message whose attempt failed at `now`:
/// nothing once the message has been retried `MAX_RETRIES` times, else it
/// counts the retry and sets the next attempt one backoff later.
pub open spec fn retry_plan(msg: PaymentMessage, now: u64) -> Option<RetryItem> {
    if msg.retry_count >= MAX_RETRIES {
        None
    } else {
        let retry_count = (msg.retry_count + 1) as u32;
        Some(
            RetryItem {
                msg: PaymentMessage { retry_count, ..msg },
                next_attempt: deadline_after(now, backoff_ms(retry_count)) as u64,
            },
        )
    }
}

/// The message as it stands after its attempts failed at each instant of
/// `failures` in turn, or `None` once the scheduler has given it up.
pub open spec fn after_failures(msg: PaymentMessage, failures: Seq<u64>) -> Option<PaymentMessage>
    decreases failures.len(),
{
    if failures.len() == 0 {
        Some(msg)
    } else {
        match after_failures(msg, failures.drop_last()) {
            None => None,
            Some(earlier) => match retry_plan(earlier, failures.last()) {
                None => None,
                Some(item) => Some(item.msg),
            },
        }
    }
}

/// A message is retried until it has `MAX_RETRIES` retries behind it and is
/// given up at the next failure, not before. Until then every failure adds
/// one to its retry count and changes nothing else.
pub proof fn lemma_retry_budget(msg: PaymentMessage, failures: Seq<u64>)
    ensures
        after_failures(msg, failures) is Some <==> failures.len() == 0 || msg.retry_count
            + failures.len() <= MAX_RETRIES,
        after_failures(msg, failures) is Some ==> after_failures(msg, failures)->0
            == (PaymentMessage {
            retry_count: (msg.retry_count + failures.len()) as u32,
            ..msg
        }),
    decreases failures.len(),
{
    if failures.len() > 0 {
        lemma_retry_budget(msg, failures.drop_last());
    }
}

/// A retry is due no sooner than four fifths of its delay before jitter
/// after the failure, and, short of the end of the clock, no later than six
/// fifths of it.
pub proof fn lemma_retry_not_before_backoff(msg: PaymentMessage, now: u64)
    requires
        msg.retry_count < MAX_RETRIES,
    ensures
        retry_plan(msg, now) is Some,
        retry_plan(msg, now)->0.next_attempt >= now,
        retry_plan(msg, now)->0.next_attempt < u64::MAX ==> {
            let waited = retry_plan(msg, now)->0.next_attempt - now;
            let base = crate::backoff::base_delay_ms((msg.retry_count + 1) as u32);
            &&& waited == backoff_ms((msg.retry_count + 1) as u32) * NANOS_PER_MILLI
            &&& 5 * waited >= 4 * base * NANOS_PER_MILLI
            &&& 5 * waited <= 6 * base * NANOS_PER_MILLI
        },
{
    lemma_backoff_within_jitter((msg.retry_count + 1) as u32);
}

/// Decides whether a failed message is tried again, and when.
pub fn plan_retry(msg: PaymentMessage, now: u64) -> (r: Option<RetryItem>)
    ensures
        r == retry_plan(msg, now),
{
    if msg.retry_count >= MAX_RETRIES {
        return None;
    }
    let retry_count: u32 = msg.retry_count + 1;
    let delay: u64 = calc_backoff(retry_count);
    proof {
        lemma_backoff_within_jitter(retry_count);
    }
    let next_attempt: u64 = now.saturating_add(delay * NANOS_PER_MILLI);
    Some(
        RetryItem {
            msg: PaymentMessage {
                amount: msg.amount,
                correlation_id: msg.correlation_id,
                retry_count,
            },
            next_attempt,
        },
    )
}

/// What became of a message whose attempt failed.
#[derive(Debug, Clone, Copy, PartialEq, Eq, Structural)]
pub enum RetryOutcome {
    /// It waits in the scheduler's queue for its next attempt.
    Scheduled,
    /// It had been retried `MAX_RETRIES` times and is given up.
    Exhausted,
    /// The scheduler's queue took no more; it is dropped.
    Dropped,
}

/// What a send to the scheduler's queue means for the message.
pub fn retry_result(outcome: TrySend) -> (r: RetryOutcome)
    ensures
        outcome == TrySend::Sent ==> r == RetryOutcome::Scheduled,
        outcome != TrySend::Sent ==> r == RetryOutcome::Dropped,
{
    match outcome {
        TrySend::Sent => RetryOutcome::Scheduled,
        TrySend::Full => RetryOutcome::Dropped,
        TrySend::Closed => RetryOutcome::Dropped,
    }
}

/// Hands a failed message to the scheduler, unless it is given up. The
/// send does not wait: a queue that takes no more drops the message.
pub fn retry(msg: PaymentMessage, now: u64, retry_sender: &Sender<RetryItem>) -> (r: RetryOutcome)
    ensures
        r == RetryOutcome::Exhausted <==> msg.retry_count >= MAX_RETRIES,
{
    match plan_retry(msg, now) {
        None => RetryOutcome::Exhausted,
        Some(item) => retry_result(try_send(retry_sender, item)),
    }
}

/// The retries, ascending by the instant of their next attempt.
pub open spec fn ascending(items: Seq<RetryItem>) -> bool {
    forall|i: int, j: int|
        0 <= i <= j < items.len() ==> items[i].next_attempt <= items[j].next_attempt
}

/// `at` is the instant of a retry in `bag`, and no retry in `bag` is due
/// before it.
pub open spec fn is_earliest_instant(bag: Multiset<RetryItem>, at: u64) -> bool {
    &&& exists|x: RetryItem| #[trigger] bag.contains(x) && x.next_attempt == at
    &&& forall|x: RetryItem| bag.contains(x) ==> at <= x.next_attempt
}

/// The delayed retries, and the rule by which they come back.
pub struct RetryScheduler {
    heap: RetryHeap,
}

impl View for RetryScheduler {
    type V = Multiset<RetryItem>;

    closed spec fn view(&self) -> Multiset<RetryItem> {
        self.heap@
    }
}

impl RetryScheduler {
    /// A scheduler with nothing waiting.
    pub fn new() -> (s: Self)
        ensures
            s@ == Multiset::<RetryItem>::empty(),
    {
        Self { heap: RetryHeap::with_capacity(HEAP_HINT) }
    }

    /// How many retries are waiting.
    pub fn len(&self) -> (n: usize)
        ensures
            n == self@.len(),
    {
        self.heap.len()
    }

    /// Takes in a retry that arrived on the scheduler's queue.
    pub fn schedule(&mut self, item: RetryItem)
        ensures
            final(self)@ == old(self)@.insert(item),
    {
        self.heap.push(item);
    }

    /// The instant until which the scheduler may sleep: that of the earliest
    /// retry. With nothing waiting there is none.
    pub fn next_deadline(&self) -> (r: Option<u64>)
        ensures
            r is None <==> self@.len() == 0,
            r is Some ==> is_earliest_instant(self@, r->0),
    {
        match self.heap.peek() {
            None => None,
            Some(item) => {
                assert(self@.contains(item) && item.next_attempt == item.next_attempt);
                Some(item.next_attempt)
            },
        }
    }

    /// Removes and returns every retry whose next attempt is at or before
    /// `now`, earliest first. No retry comes back before its instant, and
    /// none that is due stays behind.
    pub fn take_due(&mut self, now: u64) -> (due: Vec<RetryItem>)
        ensures
            due@.to_multiset().add(final(self)@) == old(self)@,
            forall|i: int| 0 <= i < due@.len() ==> due@[i].next_attempt <= now,
            forall|x: RetryItem| final(self)@.contains(x) ==> x.next_attempt > now,
            ascending(due@),
    {
        let mut due: Vec<RetryItem> = Vec::new();
        assert(due@.to_multiset().add(self@) =~= old(self)@) by {
            due@.to_multiset_ensures();
            assert(due@.to_multiset().len() == 0);
        }
        loop
            invariant
                due@.to_multiset().add(self@) == old(self)@,
                forall|i: int| 0 <= i < due@.len() ==> due@[i].next_attempt <= now,
                forall|i: int, x: RetryItem|
                    0 <= i < due@.len() && self@.contains(x) ==> due@[i].next_attempt
                        <= x.next_attempt,
                ascending(due@),
            ensures
                due@.to_multiset().add(self@) == old(self)@,
                forall|i: int| 0 <= i < due@.len() ==> due@[i].next_attempt <= now,
                forall|x: RetryItem| self@.contains(x) ==> x.next_attempt > now,
                ascending(due@),
            decreases self@.len(),
        {
            match self.heap.peek() {
                None => {
                    break ;
                },
                Some(top) => {
                    if top.next_attempt > now {
                        break ;
                    }
                },
            }
            let ghost waiting = self@;
            let ghost taken = due@;
            let item = self.heap.pop().unwrap();
            due.push(item);
            proof {
                to_multiset_build(taken, item);
                assert(due@.to_multiset().add(self@) =~= taken.to_multiset().add(waiting));
                assert forall|i: int, j: int| 0 <= i <= j < due@.len() implies due@[i].next_attempt
                    <= due@[j].next_attempt by {
                    if j == taken.len() && i < j {
                        assert(waiting.contains(item));
                    }
                }
                assert forall|i: int, x: RetryItem|
                    0 <= i < due@.len() && self@.contains(x) implies due@[i].next_attempt
                    <= x.next_attempt by {
                    assert(waiting.contains(x));
                }
            }
        }
        due
    }
}

} // verus!
