use vstd::prelude::*;
use std::collections::VecDeque;

verus! {

/// The last `cap` items of `s` (all of `s` when it is not longer than `cap`).
pub open spec fn spec_keep_last<T>(s: Seq<T>, cap: nat) -> Seq<T> {
    if s.len() <= cap {
        s
    } else {
        s.skip(s.len() - cap)
    }
}

/// The contents of a history of capacity `cap` after pushing `xs`, one by
/// one, onto an empty history.
pub open spec fn spec_pushed<T>(xs: Seq<T>, cap: nat) -> Seq<T>
    decreases xs.len(),
{
    if xs.len() == 0 {
        Seq::empty()
    } else {
        spec_keep_last(spec_pushed(xs.drop_last(), cap).push(xs.last()), cap)
    }
}

/// Index at which the most recent `count` items of a sequence of length
/// `len` begin.
pub open spec fn spec_recent_start(len: nat, count: nat) -> nat {
    if len > count {
        (len - count) as nat
    } else {
        0
    }
}

/// A first-in first-out record that keeps only its most recent items:
/// once it holds `capacity` items, each new item pushes out the oldest.
pub struct BoundedHistory<T> {
    items: VecDeque<T>,
    capacity: usize,
}

impl<T> View for BoundedHistory<T> {
    type V = Seq<T>;

    /// The items held, oldest first.
    closed spec fn view(&self) -> Seq<T> {
        self.items@
    }
}

impl<T> BoundedHistory<T> {
    /// The most items the history holds.
    pub closed spec fn spec_capacity(&self) -> nat {
        self.capacity as nat
    }

    /// The history never holds more than its capacity.
    pub closed spec fn wf(&self) -> bool {
        self.items@.len() <= self.capacity
    }

    /// An empty history holding at most `capacity` items.
    pub fn new(capacity: usize) -> (h: Self)
        ensures
            h.wf(),
            h@ == Seq::<T>::empty(),
            h.spec_capacity() == capacity,
    {
        BoundedHistory { items: VecDeque::new(), capacity }
    }

    /// Appends `x` as the newest item, dropping the oldest item when the
    /// history was full.
    pub fn push(&mut self, x: T)
        requires
            old(self).wf(),
        ensures
            final(self).wf(),
            final(self).spec_capacity() == old(self).spec_capacity(),
            final(self)@ == spec_keep_last(old(self)@.push(x), old(self).spec_capacity()),
    {
        self.items.push_back(x);
        if self.items.len() > self.capacity {
            let _oldest = self.items.pop_front();
            assert(self.items@ =~= old(self)@.push(x).skip(1));
        }
    }

    /// Number of items held.
    pub fn len(&self) -> (n: usize)
        ensures
            n == self@.len(),
    {
        self.items.len()
    }

    /// The most items the history holds.
    pub fn capacity(&self) -> (c: usize)
        ensures
            c == self.spec_capacity(),
    {
        self.capacity
    }

    /// The items held, oldest first.
    pub fn items(&self) -> (d: &VecDeque<T>)
        ensures
            d@ == self@,
    {
        &self.items
    }

    /// The item at position `i`, counting from the oldest.
    pub fn get(&self, i: usize) -> (x: &T)
        requires
            i < self@.len(),
        ensures
            *x == self@[i as int],
    {
        &self.items[i]
    }

    /// Position of the first of the most recent `count` items; the items
    /// from there to the end are the `min(count, len)` newest ones.
    pub fn recent_start(&self, count: usize) -> (start: usize)
        ensures
            start == spec_recent_start(self@.len(), count as nat),
            start <= self@.len(),
            self@.skip(start as int).len() == if self@.len() < count { self@.len() } else { count as nat },
    {
        let len = self.items.len();
        if len > count {
            len - count
        } else {
            0
        }
    }
}

/// Pushing items one at a time onto an empty history leaves exactly the
/// last `cap` of them, in the order they were pushed.
pub proof fn lemma_history_keeps_last<T>(xs: Seq<T>, cap: nat)
    ensures
        spec_pushed(xs, cap) == spec_keep_last(xs, cap),
    decreases xs.len(),
{
    if xs.len() > 0 {
        let init = xs.drop_last();
        lemma_history_keeps_last(init, cap);
        let prev = spec_keep_last(init, cap);
        if init.len() <= cap {
            assert(prev.push(xs.last()) =~= xs);
        } else {
            assert(prev.push(xs.last()) =~= xs.skip(xs.len() - cap - 1));
            assert(prev.push(xs.last()).skip(1) =~= xs.skip(xs.len() - cap));
        }
    }
}

/// A full history stays full: pushing onto a history holding `cap` items
/// drops exactly one item and the newest item is the one pushed.
pub proof fn lemma_push_full<T>(s: Seq<T>, x: T, cap: nat)
    requires
        s.len() == cap,
        cap > 0,
    ensures
        spec_keep_last(s.push(x), cap).len() == cap,
        spec_keep_last(s.push(x), cap).last() == x,
        spec_keep_last(s.push(x), cap) == s.skip(1).push(x),
{
    assert(s.push(x).skip(1) =~= s.skip(1).push(x));
}


/// Keeping the last `cap` items keeps `min(len, cap)` items, and they are
/// the final items of the sequence, in order.
pub proof fn lemma_keep_last<T>(s: Seq<T>, cap: nat)
    ensures
        spec_keep_last(s, cap).len() == if s.len() <= cap { s.len() } else { cap },
        forall|i: int| 0 <= i < spec_keep_last(s, cap).len() ==>
            #[trigger] spec_keep_last(s, cap)[i] == s[s.len() - spec_keep_last(s, cap).len() + i],
{
}

} // verus!
