//! A priority queue of queue items.

use vstd::multiset::Multiset;
use vstd::prelude::*;
use vstd::seq_lib::*;
use crate::queue::item::{
    lemma_precedes_transitive, precedes, same_kind, uniform, QueueItem,
};

verus! {

/// A priority queue: items go in in any order and come out in the order
/// given by `precedes`.
///
/// Its view is the multiset of the items it holds.
pub struct PriorityQueue {
    items: Vec<QueueItem>,
}

impl View for PriorityQueue {
    type V = Multiset<QueueItem>;

    closed spec fn view(&self) -> Multiset<QueueItem> {
        self.items@.to_multiset()
    }
}

impl PriorityQueue {
    /// An empty queue.
    pub fn new() -> (queue: PriorityQueue)
        ensures
            queue@ == Multiset::<QueueItem>::empty(),
    {
        let queue = PriorityQueue { items: Vec::new() };
        proof {
            broadcast use group_to_multiset_ensures;

            assert(queue.items@.to_multiset() =~= Multiset::<QueueItem>::empty());
        }
        queue
    }

    /// A queue that holds the given items.
    pub fn from_vec(items: Vec<QueueItem>) -> (queue: PriorityQueue)
        ensures
            queue@ == items@.to_multiset(),
    {
        PriorityQueue { items }
    }

    /// The number of items in the queue.
    pub fn len(&self) -> (n: usize)
        ensures
            n == self@.len(),
    {
        proof {
            broadcast use group_to_multiset_ensures;

        }
        self.items.len()
    }

    /// Whether the queue holds no item.
    pub fn is_empty(&self) -> (empty: bool)
        ensures
            empty == (self@.len() == 0),
    {
        proof {
            broadcast use group_to_multiset_ensures;

        }
        self.items.len() == 0
    }

    /// Adds an item.
    pub fn push(&mut self, item: QueueItem)
        ensures
            final(self)@ == old(self)@.insert(item),
    {
        proof {
            broadcast use group_to_multiset_ensures;

        }
        self.items.push(item);
    }

    /// Adds all the given items.
    pub fn extend(&mut self, items: Vec<QueueItem>)
        ensures
            final(self)@ == old(self)@.add(items@.to_multiset()),
    {
        let mut rest = items;
        proof {
            broadcast use group_to_multiset_ensures;

        }
        while rest.len() > 0
            invariant
                self@.add(rest@.to_multiset()) == old(self)@.add(items@.to_multiset()),
            decreases rest.len(),
        {
            let ghost before = self.items@;
            let ghost rest_before = rest@;
            let n = rest.len();
            let item = rest.remove(n - 1);
            self.items.push(item);
            proof {
                broadcast use group_to_multiset_ensures;

                assert(rest@.to_multiset() == rest_before.to_multiset().remove(item));
                assert(rest_before.to_multiset().contains(item));
                assert(self.items@.to_multiset() == before.to_multiset().insert(item));
                assert(before.to_multiset().insert(item).add(
                    rest_before.to_multiset().remove(item),
                ) =~= before.to_multiset().add(rest_before.to_multiset()));
            }
        }
        proof {
            broadcast use group_to_multiset_ensures;

            assert(rest@.to_multiset() =~= Multiset::<QueueItem>::empty());
            assert(self@.add(Multiset::<QueueItem>::empty()) =~= self@);
        }
    }

    /// Takes out an item that no other item precedes.
    ///
    /// Returns `None` exactly when the queue is empty. In a queue whose items
    /// are all of one kind the item returned is a first one in the order;
    /// which of several items of the same rank leaves is not fixed.
    pub fn pop(&mut self) -> (top: Option<QueueItem>)
        ensures
            top is None <==> old(self)@.len() == 0,
            top is None ==> final(self)@ == old(self)@,
            top matches Some(x) ==> {
                &&& old(self)@.contains(x)
                &&& final(self)@ == old(self)@.remove(x)
                &&& uniform(old(self)@) ==> forall|y: QueueItem|
                    old(self)@.contains(y) ==> !#[trigger] precedes(y, x)
            },
    {
        proof {
            broadcast use group_to_multiset_ensures;

        }
        let n = self.items.len();
        if n == 0 {
            return None;
        }
        let mut best: usize = 0;
        let mut i: usize = 1;
        while i < n
            invariant
                n == self.items.len(),
                0 <= best < i <= n,
                uniform(self@) ==> forall|j: int|
                    0 <= j < i ==> !#[trigger] precedes(self.items@[j], self.items@[best as int]),
            decreases n - i,
        {
            let ghost prev = best;
            if self.items[i].outranks(&self.items[best]) {
                best = i;
                proof {
                    broadcast use group_to_multiset_ensures;

                    if uniform(self@) {
                        assert forall|j: int| 0 <= j < i + 1 implies !#[trigger] precedes(
                            self.items@[j],
                            self.items@[best as int],
                        ) by {
                            let a = self.items@[j];
                            let b = self.items@[i as int];
                            let c = self.items@[prev as int];
                            assert(self.items@.contains(a));
                            assert(self.items@.contains(b));
                            assert(self.items@.contains(c));
                            assert(self@.contains(a) && self@.contains(b) && self@.contains(c));
                            assert(same_kind(a, b));
                            assert(same_kind(b, c));
                            crate::queue::item::lemma_precedes_asymmetric(b, b);
                            if precedes(a, b) {
                                lemma_precedes_transitive(a, b, c);
                            }
                        }
                    }
                }
            }
            i += 1;
        }
        let ghost before = self.items@;
        let top = self.items.remove(best);
        proof {
            assert(before.contains(top));
            if uniform(old(self)@) {
                assert forall|y: QueueItem| old(self)@.contains(y) implies !#[trigger] precedes(
                    y,
                    top,
                ) by {
                    assert(before.contains(y));
                    let j = choose|j: int| 0 <= j < before.len() && before[j] == y;
                    assert(!precedes(before[j], before[best as int]));
                }
            }
        }
        Some(top)
    }
}

} // verus!
