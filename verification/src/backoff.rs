//! The delay before a failed payment is tried again.
//!
//! The delay doubles with every retry until it reaches a ceiling, and is
//! then moved by up to a fifth in either direction. The movement is derived
//! from the retry count alone, so the scheduler keeps no random state.

use vstd::arithmetic::power2::{lemma2_to64, pow2};
use vstd::bits::lemma_u64_shl_is_mul;
use vstd::prelude::*;

verus! {

/// A message that has been retried this often is given up.
pub const MAX_RETRIES: u32 = 50;

/// The delay before the first doubling, in milliseconds.
pub const BASE_BACKOFF_MS: u64 = 500;

/// The ceiling of the delay before jitter, in milliseconds.
pub const MAX_BACKOFF_MS: u64 = 2_000;

/// The delay stops doubling after this many retries.
pub const MAX_DOUBLINGS: u32 = 10;

/// The jitter moves the delay by at most one part in this many.
pub const JITTER_DIVISOR: u64 = 5;

/// Multiplier and increment of the congruential step that makes the jitter.
pub const JITTER_MULTIPLIER: u64 = 1103515245;

pub const JITTER_INCREMENT: u64 = 12345;

/// The delay before jitter: `BASE_BACKOFF_MS * 2^min(retry_count, 10)`, capped
/// at `MAX_BACKOFF_MS`.
pub open spec fn base_delay_ms(retry_count: u32) -> int {
    let doublings = if retry_count < MAX_DOUBLINGS {
        retry_count
    } else {
        MAX_DOUBLINGS
    };
    let doubled = BASE_BACKOFF_MS * pow2(doublings as nat);
    if doubled < MAX_BACKOFF_MS {
        doubled
    } else {
        MAX_BACKOFF_MS as int
    }
}

/// The widest movement in one direction that jitter gives a delay.
pub open spec fn jitter_span_ms(delay: int) -> int {
    delay / (JITTER_DIVISOR as int)
}

/// The pseudo-random number of a retry count: one congruential step, taken
/// modulo 2^32.
pub open spec fn jitter_seed(retry_count: u32) -> int {
    (retry_count * JITTER_MULTIPLIER + JITTER_INCREMENT) % 0x1_0000_0000
}

/// The delay of a retry, jitter included.
pub open spec fn backoff_ms(retry_count: u32) -> int {
    let delay = base_delay_ms(retry_count);
    let span = jitter_span_ms(delay);
    delay - span + jitter_seed(retry_count) % (2 * span)
}

/// The delay before jitter is one of three values.
pub proof fn lemma_base_delay_values(retry_count: u32)
    ensures
        retry_count == 0 ==> base_delay_ms(retry_count) == 500,
        retry_count == 1 ==> base_delay_ms(retry_count) == 1000,
        retry_count >= 2 ==> base_delay_ms(retry_count) == 2000,
{
    lemma2_to64();
    if 2 <= retry_count < MAX_DOUBLINGS {
        vstd::arithmetic::power2::lemma_pow2_strictly_increases(1, retry_count as nat);
        let doubling = pow2(retry_count as nat) as int;
        assert(doubling > 2);
        assert(BASE_BACKOFF_MS * doubling == 500 * doubling);
    }
}

/// The jittered delay stays within a fifth of the delay before jitter.
pub proof fn lemma_backoff_within_jitter(retry_count: u32)
    ensures
        5 * backoff_ms(retry_count) >= 4 * base_delay_ms(retry_count),
        5 * backoff_ms(retry_count) <= 6 * base_delay_ms(retry_count),
        400 <= backoff_ms(retry_count) <= 2400,
{
    lemma_base_delay_values(retry_count);
}

/// The delay in milliseconds before retry number `retry_count`.
pub fn calc_backoff(retry_count: u32) -> (delay: u64)
    ensures
        delay == backoff_ms(retry_count),
        5 * delay >= 4 * base_delay_ms(retry_count),
        5 * delay <= 6 * base_delay_ms(retry_count),
{
    let doublings: u64 = if retry_count < MAX_DOUBLINGS {
        retry_count as u64
    } else {
        MAX_DOUBLINGS as u64
    };
    proof {
        lemma2_to64();
        vstd::arithmetic::power2::lemma_pow2_strictly_increases(doublings as nat, 11);
        assert(1 * pow2(doublings as nat) <= u64::MAX);
        lemma_u64_shl_is_mul(1, doublings);
        let doubling = pow2(doublings as nat) as int;
        assert(doubling < 2048);
        assert(BASE_BACKOFF_MS * doubling == 500 * doubling);
    }
    let factor: u64 = 1u64 << doublings;
    let doubled: u64 = BASE_BACKOFF_MS * factor;
    let delay: u64 = if doubled < MAX_BACKOFF_MS {
        doubled
    } else {
        MAX_BACKOFF_MS
    };
    proof {
        lemma_base_delay_values(retry_count);
        lemma_backoff_within_jitter(retry_count);
    }
    let span: u64 = delay / JITTER_DIVISOR;
    let seed: u64 = (retry_count as u64 * JITTER_MULTIPLIER + JITTER_INCREMENT) % 0x1_0000_0000;
    let jitter: u64 = seed % (2 * span);
    delay - span + jitter
}

} // verus!
