//! A binary min-heap of delayed retries, keyed by the instant of the next
//! attempt.

use crate::payment::PaymentMessage;
use vstd::multiset::Multiset;
use vstd::prelude::*;
use vstd::seq_lib::{to_multiset_build, to_multiset_insert, to_multiset_remove};

verus! {

/// A message waiting for its next attempt.
///
/// `next_attempt` counts nanoseconds on the scheduler's monotonic clock.
#[derive(Debug, Clone, Copy)]
pub struct RetryItem {
    pub msg: PaymentMessage,
    pub next_attempt: u64,
}

/// The index of the parent of node `i` (for `i > 0`).
spec fn parent(i: int) -> int {
    (i - 1) / 2
}

/// Node `i` is due no earlier than its parent.
spec fn ordered_at(s: Seq<RetryItem>, i: int) -> bool {
    s[parent(i)].next_attempt <= s[i].next_attempt
}

/// Every node is due no earlier than its parent.
spec fn is_heap(s: Seq<RetryItem>) -> bool {
    forall|i: int| 0 < i < s.len() ==> #[trigger] ordered_at(s, i)
}

/// The heap order holds everywhere but between node `i` and its parent, and
/// the children of `i` are due no earlier than the parent of `i`.
spec fn heap_but_above(s: Seq<RetryItem>, i: int) -> bool {
    &&& forall|j: int| 0 < j < s.len() && j != i ==> #[trigger] ordered_at(s, j)
    &&& i > 0 ==> forall|j: int|
        0 < j < s.len() && parent(j) == i ==> s[parent(i)].next_attempt
            <= (#[trigger] s[j]).next_attempt
}

/// The heap order holds everywhere but between node `i` and its children, and
/// the children of `i` are due no earlier than the parent of `i`.
spec fn heap_but_below(s: Seq<RetryItem>, i: int) -> bool {
    &&& forall|j: int| 0 < j < s.len() && parent(j) != i ==> #[trigger] ordered_at(s, j)
    &&& i > 0 ==> forall|j: int|
        0 < j < s.len() && parent(j) == i ==> s[parent(i)].next_attempt
            <= (#[trigger] s[j]).next_attempt
}

/// `item` is due no later than anything in `bag`.
pub open spec fn earliest_in(item: RetryItem, bag: Multiset<RetryItem>) -> bool {
    forall|x: RetryItem| bag.contains(x) ==> item.next_attempt <= x.next_attempt
}

/// In a heap the root is due first.
proof fn lemma_root_is_earliest(s: Seq<RetryItem>, i: int)
    requires
        is_heap(s),
        0 <= i < s.len(),
    ensures
        s[0].next_attempt <= s[i].next_attempt,
    decreases i,
{
    if i > 0 {
        assert(ordered_at(s, i));
        lemma_root_is_earliest(s, parent(i));
    }
}

/// In a heap the root is due no later than anything in the heap's bag.
proof fn lemma_root_earliest_in_bag(s: Seq<RetryItem>)
    requires
        is_heap(s),
        s.len() > 0,
    ensures
        earliest_in(s[0], s.to_multiset()),
        s.to_multiset().contains(s[0]),
{
    s.to_multiset_ensures();
    assert(s.contains(s[0]));
    assert forall|x: RetryItem| s.to_multiset().contains(x) implies s[0].next_attempt
        <= x.next_attempt by {
        assert(s.contains(x));
        let i = choose|i: int| 0 <= i < s.len() && s[i] == x;
        lemma_root_is_earliest(s, i);
    }
}

/// Exchanging two nodes keeps the bag.
proof fn lemma_swap_keeps_bag(s: Seq<RetryItem>, i: int, j: int)
    requires
        0 <= i < s.len(),
        0 <= j < s.len(),
    ensures
        s.update(i, s[j]).update(j, s[i]).to_multiset() == s.to_multiset(),
{
    let a = s[i];
    let b = s[j];
    if i == j {
        assert(s.update(i, s[j]).update(j, s[i]) =~= s);
    } else {
        let s1 = s.update(i, b);
        assert(s1 =~= s.remove(i).insert(i, b));
        to_multiset_remove(s, i);
        to_multiset_insert(s.remove(i), i, b);
        let s2 = s1.update(j, a);
        assert(s2 =~= s1.remove(j).insert(j, a));
        to_multiset_remove(s1, j);
        to_multiset_insert(s1.remove(j), j, a);
        s.to_multiset_ensures();
        assert(s.contains(a));
        let m = s.to_multiset();
        assert(m.count(a) > 0);
        assert(s1[j] == b);
        assert(s1.to_multiset() == m.remove(a).insert(b));
        assert(s2.to_multiset() == m.remove(a).insert(b).remove(b).insert(a));
        assert(m.remove(a).insert(b).remove(b) =~= m.remove(a));
        assert(m.remove(a).insert(a) =~= m);
    }
}

/// Exchanges nodes `i` and `j`.
fn swap_nodes(items: &mut Vec<RetryItem>, i: usize, j: usize)
    requires
        i < old(items)@.len(),
        j < old(items)@.len(),
    ensures
        final(items)@ == old(items)@.update(i as int, old(items)@[j as int]).update(
            j as int,
            old(items)@[i as int],
        ),
        final(items)@.to_multiset() == old(items)@.to_multiset(),
{
    proof {
        lemma_swap_keeps_bag(items@, i as int, j as int);
    }
    let a = items[i];
    let b = items[j];
    items.set(i, b);
    items.set(j, a);
}

/// Moves node `start` towards the root until its parent is due no later.
fn sift_up(items: &mut Vec<RetryItem>, start: usize)
    requires
        start < old(items)@.len(),
        heap_but_above(old(items)@, start as int),
    ensures
        is_heap(final(items)@),
        final(items)@.to_multiset() == old(items)@.to_multiset(),
{
    let mut i: usize = start;
    while i > 0
        invariant
            i < items@.len(),
            heap_but_above(items@, i as int),
            items@.to_multiset() == old(items)@.to_multiset(),
        ensures
            is_heap(items@),
            items@.to_multiset() == old(items)@.to_multiset(),
        decreases i,
    {
        let up: usize = (i - 1) / 2;
        if items[up].next_attempt <= items[i].next_attempt {
            assert(ordered_at(items@, i as int));
            break ;
        }
        let ghost before = items@;
        swap_nodes(items, i, up);
        proof {
            let after = items@;
            assert forall|j: int| 0 < j < after.len() && j != up implies #[trigger] ordered_at(
                after,
                j,
            ) by {
                if j == i {
                } else if parent(j) == i {
                    assert(before[parent(i as int)].next_attempt <= before[j].next_attempt);
                } else {
                    assert(ordered_at(before, j));
                }
            }
            if up > 0 {
                assert(ordered_at(before, up as int));
                assert forall|j: int| 0 < j < after.len() && parent(j) == up implies after[parent(
                    up as int,
                )].next_attempt <= (#[trigger] after[j]).next_attempt by {
                    if j != i {
                        assert(ordered_at(before, j));
                    }
                }
            }
        }
        i = up;
    }
}

/// Moves node `start` away from the root until its children are due no
/// earlier.
fn sift_down(items: &mut Vec<RetryItem>, start: usize)
    requires
        start < old(items)@.len(),
        heap_but_below(old(items)@, start as int),
    ensures
        is_heap(final(items)@),
        final(items)@.to_multiset() == old(items)@.to_multiset(),
{
    let len: usize = items.len();
    let mut i: usize = start;
    while i < len / 2
        invariant
            len == items@.len(),
            i < len,
            heap_but_below(items@, i as int),
            items@.to_multiset() == old(items)@.to_multiset(),
        ensures
            is_heap(items@),
            items@.to_multiset() == old(items)@.to_multiset(),
        decreases len - i,
    {
        let left: usize = 2 * i + 1;
        let right: usize = left + 1;
        let child: usize = if right < len && items[right].next_attempt
            < items[left].next_attempt {
            right
        } else {
            left
        };
        if items[i].next_attempt <= items[child].next_attempt {
            proof {
                let s = items@;
                assert forall|j: int| 0 < j < s.len() implies #[trigger] ordered_at(s, j) by {
                    if parent(j) == i {
                        assert(j == left || j == right);
                    }
                }
            }
            break ;
        }
        let ghost before = items@;
        swap_nodes(items, i, child);
        proof {
            let after = items@;
            assert forall|j: int|
                0 < j < after.len() && parent(j) != child implies #[trigger] ordered_at(
                after,
                j,
            ) by {
                if j == child {
                } else if parent(j) == i {
                    assert(j == left || j == right);
                } else if j == i {
                    assert(before[parent(i as int)].next_attempt
                        <= before[child as int].next_attempt);
                } else {
                    assert(ordered_at(before, j));
                }
            }
            assert forall|j: int| 0 < j < after.len() && parent(j) == child implies after[parent(
                child as int,
            )].next_attempt <= (#[trigger] after[j]).next_attempt by {
                assert(ordered_at(before, j));
            }
        }
        i = child;
    }
    proof {
        let s = items@;
        if i >= len / 2 {
            assert forall|j: int| 0 < j < s.len() implies #[trigger] ordered_at(s, j) by {
                assert(parent(j) != i);
            }
        }
    }
}

/// The retries that wait for their next attempt, earliest first.
pub struct RetryHeap {
    items: Vec<RetryItem>,
}

impl View for RetryHeap {
    type V = Multiset<RetryItem>;

    closed spec fn view(&self) -> Multiset<RetryItem> {
        self.items@.to_multiset()
    }
}

impl RetryHeap {
    #[verifier::type_invariant]
    spec fn inv(self) -> bool {
        is_heap(self.items@)
    }

    /// An empty heap.
    pub fn new() -> (heap: Self)
        ensures
            heap@ == Multiset::<RetryItem>::empty(),
    {
        let heap = Self { items: Vec::new() };
        assert(heap.items@.to_multiset() =~= Multiset::<RetryItem>::empty()) by {
            heap.items@.to_multiset_ensures();
            assert(heap.items@.to_multiset().len() == 0);
        }
        heap
    }

    /// An empty heap with room for `capacity` items.
    pub fn with_capacity(capacity: usize) -> (heap: Self)
        ensures
            heap@ == Multiset::<RetryItem>::empty(),
    {
        let heap = Self { items: Vec::with_capacity(capacity) };
        assert(heap.items@.to_multiset() =~= Multiset::<RetryItem>::empty()) by {
            heap.items@.to_multiset_ensures();
            assert(heap.items@.to_multiset().len() == 0);
        }
        heap
    }

    /// The number of waiting items.
    pub fn len(&self) -> (n: usize)
        ensures
            n == self@.len(),
    {
        proof {
            self.items@.to_multiset_ensures();
        }
        self.items.len()
    }

    pub fn is_empty(&self) -> (b: bool)
        ensures
            b == (self@.len() == 0),
    {
        proof {
            self.items@.to_multiset_ensures();
        }
        self.items.len() == 0
    }

    /// The item that is due first, if there is one.
    pub fn peek(&self) -> (r: Option<RetryItem>)
        ensures
            self@.len() == 0 ==> r is None,
            self@.len() > 0 ==> r is Some && self@.contains(r->0) && earliest_in(r->0, self@),
    {
        proof {
            use_type_invariant(self);
            self.items@.to_multiset_ensures();
        }
        if self.items.len() == 0 {
            None
        } else {
            proof {
                lemma_root_earliest_in_bag(self.items@);
            }
            Some(self.items[0])
        }
    }

    /// Adds an item.
    pub fn push(&mut self, item: RetryItem)
        ensures
            final(self)@ == old(self)@.insert(item),
    {
        proof {
            use_type_invariant(&*self);
        }
        let mut items: Vec<RetryItem> = Vec::new();
        std::mem::swap(&mut items, &mut self.items);
        let ghost before = items@;
        items.push(item);
        proof {
            to_multiset_build(before, item);
            let s = items@;
            let last = s.len() - 1;
            assert forall|j: int| 0 < j < s.len() && j != last implies #[trigger] ordered_at(
                s,
                j,
            ) by {
                assert(ordered_at(before, j));
            }
        }
        let last: usize = items.len() - 1;
        sift_up(&mut items, last);
        self.items = items;
    }

    /// Removes and returns the item that is due first, if there is one.
    pub fn pop(&mut self) -> (r: Option<RetryItem>)
        ensures
            old(self)@.len() == 0 ==> r is None && final(self)@ == old(self)@,
            old(self)@.len() > 0 ==> r is Some && old(self)@.contains(r->0) && earliest_in(
                r->0,
                old(self)@,
            ) && final(self)@ == old(self)@.remove(r->0),
    {
        proof {
            use_type_invariant(&*self);
            self.items@.to_multiset_ensures();
        }
        if self.items.len() == 0 {
            return None;
        }
        let mut items: Vec<RetryItem> = Vec::new();
        std::mem::swap(&mut items, &mut self.items);
        let ghost before = items@;
        proof {
            lemma_root_earliest_in_bag(before);
        }
        let last: usize = items.len() - 1;
        swap_nodes(&mut items, 0, last);
        let ghost swapped = items@;
        let top = items.pop().unwrap();
        proof {
            assert(top == before[0]);
            assert(items@ =~= swapped.remove(last as int));
            to_multiset_remove(swapped, last as int);
            let s = items@;
            assert forall|j: int| 0 < j < s.len() && parent(j) != 0 implies #[trigger] ordered_at(
                s,
                j,
            ) by {
                assert(ordered_at(before, j));
            }
        }
        if items.len() > 0 {
            sift_down(&mut items, 0);
        }
        self.items = items;
        Some(top)
    }
}

} // verus!
