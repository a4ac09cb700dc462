use payment_pipeline::backoff::{
    calc_backoff, BASE_BACKOFF_MS, MAX_BACKOFF_MS, MAX_RETRIES,
};
use payment_pipeline::payment::{Amount, PaymentMessage};
use payment_pipeline::retry::{
    plan_retry, retry, retry_result, RetryOutcome, RetryScheduler, NANOS_PER_MILLI,
};
use payment_pipeline::channel::TrySend;
use payment_pipeline::retry_heap::{RetryHeap, RetryItem};

fn message(id: u128, retry_count: u32) -> PaymentMessage {
    PaymentMessage {
        amount: Amount::new(1000, 2).unwrap(),
        correlation_id: uuid::Uuid::from_u128(id),
        retry_count,
    }
}

fn item(id: u128, next_attempt: u64) -> RetryItem {
    RetryItem { msg: message(id, 1), next_attempt }
}

fn base_delay(retry_count: u32) -> u64 {
    (BASE_BACKOFF_MS << retry_count.min(10)).min(MAX_BACKOFF_MS)
}

#[test]
fn backoff_constants() {
    assert_eq!(BASE_BACKOFF_MS, 500);
    assert_eq!(MAX_BACKOFF_MS, 2000);
    assert_eq!(MAX_RETRIES, 50);
}

#[test]
fn backoff_exact_values() {
    assert_eq!(calc_backoff(0), 545);
    assert_eq!(calc_backoff(1), 1190);
    assert_eq!(calc_backoff(2), 2035);
    assert_eq!(calc_backoff(3), 2080);
    assert_eq!(calc_backoff(4), 2029);
    assert_eq!(calc_backoff(10), 2203);
    assert_eq!(calc_backoff(11), 2248);
    assert_eq!(calc_backoff(49), 2198);
    assert_eq!(calc_backoff(50), 2243);
    assert_eq!(calc_backoff(u32::MAX), 1996);
}

#[test]
fn backoff_follows_the_congruential_formula() {
    for retry_count in 0..200u32 {
        let delay = base_delay(retry_count);
        let span = delay / 5;
        let seed = retry_count.wrapping_mul(1103515245).wrapping_add(12345) as u64;
        let expected = delay - span + seed % (2 * span);
        assert_eq!(calc_backoff(retry_count), expected, "retry {}", retry_count);
    }
}

#[test]
fn backoff_stays_within_a_fifth_of_the_base_delay() {
    for retry_count in (0..2000u32).chain([u32::MAX - 1, u32::MAX]) {
        let d = base_delay(retry_count);
        let delay = calc_backoff(retry_count);
        assert!(5 * delay >= 4 * d, "retry {} delay {}", retry_count, delay);
        assert!(5 * delay <= 6 * d, "retry {} delay {}", retry_count, delay);
    }
}

#[test]
fn first_retries_fall_in_the_expected_windows() {
    let first = calc_backoff(1);
    assert!((800..=1200).contains(&first));
    let second = calc_backoff(2);
    assert!((1600..=2400).contains(&second));
}

#[test]
fn plan_counts_the_retry_and_sets_the_deadline() {
    let planned = plan_retry(message(7, 0), 5_000).unwrap();
    assert_eq!(planned.msg.retry_count, 1);
    assert_eq!(planned.msg.correlation_id, uuid::Uuid::from_u128(7));
    assert_eq!(planned.msg.amount, Amount::new(1000, 2).unwrap());
    assert_eq!(planned.next_attempt, 5_000 + 1190 * NANOS_PER_MILLI);

    let later = plan_retry(message(7, 1), 0).unwrap();
    assert_eq!(later.msg.retry_count, 2);
    assert_eq!(later.next_attempt, 2035 * NANOS_PER_MILLI);
}

#[test]
fn plan_gives_up_at_max_retries() {
    assert!(plan_retry(message(1, 49), 0).is_some());
    assert_eq!(plan_retry(message(1, 49), 0).unwrap().msg.retry_count, 50);
    assert!(plan_retry(message(1, 50), 0).is_none());
    assert!(plan_retry(message(1, 51), 0).is_none());
    assert!(plan_retry(message(1, u32::MAX), 0).is_none());
}

#[test]
fn plan_saturates_at_the_end_of_the_clock() {
    let planned = plan_retry(message(1, 0), u64::MAX - 10).unwrap();
    assert_eq!(planned.next_attempt, u64::MAX);
}

#[test]
fn a_fresh_message_is_retried_fifty_times_then_dropped() {
    let mut msg = message(9, 0);
    let mut now = 0u64;
    let mut retries = 0;
    let mut waited_ms = 0u64;
    loop {
        match plan_retry(msg, now) {
            Some(planned) => {
                assert_eq!(planned.msg.retry_count, msg.retry_count + 1);
                assert!(planned.next_attempt >= now);
                waited_ms += (planned.next_attempt - now) / NANOS_PER_MILLI;
                now = planned.next_attempt;
                msg = planned.msg;
                retries += 1;
            }
            None => break,
        }
    }
    assert_eq!(retries, 50);
    assert_eq!(msg.retry_count, 50);
    assert!(waited_ms >= 800 + 49 * 1600);
    assert!(waited_ms <= 1200 + 49 * 2400);
}

#[test]
fn retry_result_of_each_send_outcome() {
    assert_eq!(retry_result(TrySend::Sent), RetryOutcome::Scheduled);
    assert_eq!(retry_result(TrySend::Full), RetryOutcome::Dropped);
    assert_eq!(retry_result(TrySend::Closed), RetryOutcome::Dropped);
}

#[test]
fn retry_sends_the_planned_item() {
    let (sender, mut receiver) = tokio::sync::mpsc::channel::<RetryItem>(4);
    assert_eq!(retry(message(3, 0), 100, &sender), RetryOutcome::Scheduled);
    let received = receiver.try_recv().unwrap();
    assert_eq!(received.msg.retry_count, 1);
    assert_eq!(received.msg.correlation_id, uuid::Uuid::from_u128(3));
    assert_eq!(received.next_attempt, 100 + 1190 * NANOS_PER_MILLI);
    assert!(receiver.try_recv().is_err());
}

#[test]
fn retry_drops_when_the_queue_is_full_or_closed() {
    let (sender, receiver) = tokio::sync::mpsc::channel::<RetryItem>(1);
    assert_eq!(retry(message(1, 0), 0, &sender), RetryOutcome::Scheduled);
    assert_eq!(retry(message(2, 0), 0, &sender), RetryOutcome::Dropped);
    drop(receiver);
    assert_eq!(retry(message(3, 0), 0, &sender), RetryOutcome::Dropped);
}

#[test]
fn retry_of_an_exhausted_message_sends_nothing() {
    let (sender, mut receiver) = tokio::sync::mpsc::channel::<RetryItem>(1);
    assert_eq!(retry(message(1, 50), 0, &sender), RetryOutcome::Exhausted);
    assert!(receiver.try_recv().is_err());
}

#[test]
fn heap_pops_earliest_first() {
    let mut heap = RetryHeap::new();
    assert!(heap.is_empty());
    assert!(heap.peek().is_none());
    assert!(heap.pop().is_none());
    for (id, at) in [(1, 50u64), (2, 10), (3, 40), (4, 10), (5, 30), (6, 20), (7, 60), (8, 0)] {
        heap.push(item(id, at));
    }
    assert_eq!(heap.len(), 8);
    assert_eq!(heap.peek().unwrap().next_attempt, 0);
    let mut order = Vec::new();
    while let Some(next) = heap.pop() {
        order.push(next.next_attempt);
    }
    assert_eq!(order, vec![0, 10, 10, 20, 30, 40, 50, 60]);
    assert!(heap.is_empty());
}

#[test]
fn heap_keeps_every_item() {
    let mut heap = RetryHeap::with_capacity(16);
    let mut state = 12345u64;
    let mut pushed = Vec::new();
    for id in 0..500u128 {
        state = state.wrapping_mul(6364136223846793005).wrapping_add(1442695040888963407);
        let at = state >> 40;
        heap.push(item(id, at));
        pushed.push((at, id));
    }
    let mut popped = Vec::new();
    let mut last = 0u64;
    while let Some(next) = heap.pop() {
        assert!(next.next_attempt >= last);
        last = next.next_attempt;
        popped.push((next.next_attempt, next.msg.correlation_id.as_u128()));
    }
    pushed.sort();
    popped.sort();
    assert_eq!(pushed, popped);
}

#[test]
fn heap_interleaves_pushes_and_pops() {
    let mut heap = RetryHeap::new();
    heap.push(item(1, 30));
    heap.push(item(2, 10));
    assert_eq!(heap.pop().unwrap().next_attempt, 10);
    heap.push(item(3, 20));
    heap.push(item(4, 5));
    assert_eq!(heap.pop().unwrap().next_attempt, 5);
    assert_eq!(heap.pop().unwrap().next_attempt, 20);
    assert_eq!(heap.pop().unwrap().next_attempt, 30);
    assert!(heap.pop().is_none());
}

#[test]
fn scheduler_sleeps_until_the_earliest_deadline() {
    let mut scheduler = RetryScheduler::new();
    assert_eq!(scheduler.next_deadline(), None);
    scheduler.schedule(item(1, 300));
    scheduler.schedule(item(2, 100));
    scheduler.schedule(item(3, 200));
    assert_eq!(scheduler.len(), 3);
    assert_eq!(scheduler.next_deadline(), Some(100));
}

#[test]
fn scheduler_never_resurfaces_a_message_before_its_instant() {
    let mut scheduler = RetryScheduler::new();
    for (id, at) in [(1, 300u64), (2, 100), (3, 200), (4, 201), (5, 100)] {
        scheduler.schedule(item(id, at));
    }
    assert!(scheduler.take_due(99).is_empty());
    assert_eq!(scheduler.len(), 5);

    let due: Vec<u64> = scheduler.take_due(200).iter().map(|i| i.next_attempt).collect();
    assert_eq!(due, vec![100, 100, 200]);
    assert_eq!(scheduler.len(), 2);
    assert_eq!(scheduler.next_deadline(), Some(201));

    let rest: Vec<u128> =
        scheduler.take_due(u64::MAX).iter().map(|i| i.msg.correlation_id.as_u128()).collect();
    assert_eq!(rest, vec![4, 1]);
    assert_eq!(scheduler.next_deadline(), None);
}
