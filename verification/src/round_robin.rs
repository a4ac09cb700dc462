//! Round-robin selection of a backend by an atomic ticket counter.

use crate::text::views_of;
use std::sync::atomic::AtomicUsize;
use vstd::arithmetic::div_mod::{lemma_fundamental_div_mod, lemma_fundamental_div_mod_converse};
use vstd::prelude::*;

verus! {

/// The index that a ticket selects among `count` backends.
pub open spec fn slot_of(ticket: int, count: int) -> int {
    ticket % count
}

/// How many of the `count` tickets from `first` on select `slot` among
/// `backends` backends.
pub open spec fn hits(first: nat, count: nat, backends: nat, slot: nat) -> nat
    decreases count,
{
    if count == 0 {
        0
    } else {
        let earlier = hits(first, (count - 1) as nat, backends, slot);
        if slot_of(first + count - 1, backends as int) == slot {
            earlier + 1
        } else {
            earlier
        }
    }
}

/// The tickets from `first` on are the tickets below `first + count`
/// without those below `first`.
proof fn lemma_hits_from_zero(first: nat, count: nat, backends: nat, slot: nat)
    ensures
        hits(first, count, backends, slot) == hits(0, first + count, backends, slot) - hits(
            0,
            first,
            backends,
            slot,
        ),
    decreases count,
{
    if count > 0 {
        lemma_hits_from_zero(first, (count - 1) as nat, backends, slot);
        assert(hits(0, first + count, backends, slot) == hits(
            0,
            (first + count - 1) as nat,
            backends,
            slot,
        ) + if slot_of(0 + (first + count) - 1, backends as int) == slot {
            1nat
        } else {
            0nat
        });
    }
}

/// Of the tickets below `limit`, one in every `backends` selects `slot`,
/// the first of them being ticket `slot`.
proof fn lemma_hits_below(limit: nat, backends: nat, slot: nat)
    requires
        backends > 0,
        slot < backends,
    ensures
        hits(0, limit, backends, slot) == (limit + backends - 1 - slot) / (backends as int),
    decreases limit,
{
    let b = backends as int;
    if limit == 0 {
        lemma_fundamental_div_mod_converse(b - 1 - slot, b, 0, b - 1 - slot);
    } else {
        let n = limit - 1;
        lemma_hits_below(n as nat, backends, slot);
        let x = n + b - 1 - slot;
        let q = x / b;
        let r = x % b;
        lemma_fundamental_div_mod(x, b);
        vstd::arithmetic::div_mod::lemma_mod_bound(x, b);
        assert(b * q == q * b) by (nonlinear_arith);
        if r == b - 1 {
            assert(x + 1 == (q + 1) * b + 0) by (nonlinear_arith)
                requires
                    x == q * b + r,
                    r == b - 1,
            ;
            lemma_fundamental_div_mod_converse(x + 1, b, q + 1, 0);
            assert(n == q * b + slot);
            lemma_fundamental_div_mod_converse(n, b, q, slot as int);
        } else {
            lemma_fundamental_div_mod_converse(x + 1, b, q, r + 1);
            if r + 1 + slot < b {
                assert(n == (q - 1) * b + (r + 1 + slot)) by (nonlinear_arith)
                    requires
                        n == q * b + r - b + 1 + slot,
                ;
                lemma_fundamental_div_mod_converse(n, b, q - 1, r + 1 + slot);
            } else {
                assert(n == q * b + (r + 1 + slot - b));
                lemma_fundamental_div_mod_converse(n, b, q, r + 1 + slot - b);
            }
            assert(n % b != slot);
        }
    }
}

/// Round-robin is fair: of `count` tickets in a row, starting anywhere,
/// every backend gets the share rounded down or the share rounded up.
///
/// The tickets of one counter come in a row for as long as the counter has
/// not wrapped round, which is what the last precondition asks.
pub proof fn lemma_round_robin_fair(first: nat, count: nat, backends: nat, slot: nat)
    requires
        backends > 0,
        slot < backends,
        first + count <= usize::MAX + 1,
    ensures
        count / backends <= hits(first, count, backends, slot),
        hits(first, count, backends, slot) <= (count + backends - 1) / (backends as int),
{
    let b = backends as int;
    lemma_hits_from_zero(first, count, backends, slot);
    lemma_hits_below(first + count, backends, slot);
    lemma_hits_below(first, backends, slot);
    let u = first + b - 1 - slot;
    let q1 = u / b;
    let r1 = u % b;
    let q2 = count as int / b;
    let r2 = count as int % b;
    lemma_fundamental_div_mod(u, b);
    lemma_fundamental_div_mod(count as int, b);
    vstd::arithmetic::div_mod::lemma_mod_bound(u, b);
    vstd::arithmetic::div_mod::lemma_mod_bound(count as int, b);
    assert(b * q1 == q1 * b) by (nonlinear_arith);
    assert(b * q2 == q2 * b) by (nonlinear_arith);
    if r1 + r2 < b {
        assert(u + count == (q1 + q2) * b + (r1 + r2)) by (nonlinear_arith)
            requires
                u == q1 * b + r1,
                count == q2 * b + r2,
        ;
        lemma_fundamental_div_mod_converse(u + count, b, q1 + q2, r1 + r2);
    } else {
        assert(u + count == (q1 + q2 + 1) * b + (r1 + r2 - b)) by (nonlinear_arith)
            requires
                u == q1 * b + r1,
                count == q2 * b + r2,
        ;
        lemma_fundamental_div_mod_converse(u + count, b, q1 + q2 + 1, r1 + r2 - b);
    }
    if r2 == 0 {
        assert(count + b - 1 == q2 * b + (b - 1));
        lemma_fundamental_div_mod_converse(count + b - 1, b, q2, b - 1);
    } else {
        assert(count + b - 1 == (q2 + 1) * b + (r2 - 1)) by (nonlinear_arith)
            requires
                count == q2 * b + r2,
        ;
        lemma_fundamental_div_mod_converse(count + b - 1, b, q2 + 1, r2 - 1);
    }
}

/// Hands out socket paths in turn.
pub struct UdsRoundRobin {
    paths: Vec<String>,
    counter: AtomicUsize,
}

impl UdsRoundRobin {
    /// The paths, in the order in which they are handed out.
    pub closed spec fn paths(&self) -> Seq<Seq<char>> {
        views_of(self.paths@)
    }

    pub fn new(paths: Vec<String>) -> (r: Self)
        ensures
            r.paths() == views_of(paths@),
    {
        Self { paths, counter: AtomicUsize::new(0) }
    }

    /// The path that a given ticket selects.
    pub fn path_for(&self, ticket: usize) -> (r: Option<String>)
        ensures
            self.paths().len() == 0 ==> r is None,
            self.paths().len() > 0 ==> r is Some && r->0@ == self.paths()[slot_of(
                ticket as int,
                self.paths().len() as int,
            )],
    {
        if self.paths.len() == 0 {
            return None;
        }
        Some(self.paths[ticket % self.paths.len()].clone())
    }

    /// Draws the next ticket. Concurrent callers each get a ticket of their own.
    fn next_ticket(&self) -> usize {
        self.counter.fetch_add(1, std::sync::atomic::Ordering::Relaxed)
    }

    /// Draws the next ticket and returns the path it selects.
    pub fn select(&self) -> (r: Option<String>)
        ensures
            self.paths().len() == 0 ==> r is None,
            self.paths().len() > 0 ==> r is Some && self.paths().contains(r->0@),
    {
        if self.paths.len() == 0 {
            return None;
        }
        let current: usize = self.next_ticket();
        let r = self.path_for(current);
        assert(self.paths()[slot_of(current as int, self.paths().len() as int)] == r->0@);
        r
    }
}

} // verus!
