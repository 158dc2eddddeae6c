//! A bounded window of the most recently pushed items.

use vstd::prelude::*;
use std::collections::VecDeque;

verus! {

/// The window after pushing `e` onto `w`: the new item goes in front and, when
/// the bound `size` is exceeded, the item at the back leaves. A negative
/// bound places no limit.
pub open spec fn window_push<T>(w: Seq<T>, e: T, size: int) -> Seq<T> {
    let grown = seq![e] + w;
    if size >= 0 && grown.len() > size {
        grown.drop_last()
    } else {
        grown
    }
}

/// The window after pushing each of `items` in turn onto `w`.
pub open spec fn window_push_all<T>(w: Seq<T>, items: Seq<T>, size: int) -> Seq<T>
    decreases items.len(),
{
    if items.len() == 0 {
        w
    } else {
        window_push(window_push_all(w, items.drop_last(), size), items.last(), size)
    }
}

/// A double-ended queue that holds at most `size` items: the most recently
/// pushed one in front, the earliest at the back.
pub struct FixedDeque<T> {
    queue: VecDeque<T>,
    size: i32,
}

impl<T> View for FixedDeque<T> {
    type V = Seq<T>;

    /// The items from front (latest pushed) to back (earliest pushed).
    closed spec fn view(&self) -> Seq<T> {
        self.queue@
    }
}

impl<T> FixedDeque<T> {
    /// The bound this window was made with.
    pub closed spec fn capacity(&self) -> int {
        self.size as int
    }

    /// The window never holds more than its bound.
    pub open spec fn wf(&self) -> bool {
        self.capacity() < 0 || self@.len() <= self.capacity()
    }

    /// An empty window bounded by `size`.
    pub fn new(size: i32) -> (r: Self)
        ensures
            r@ == Seq::<T>::empty(),
            r.capacity() == size as int,
            r.wf(),
    {
        FixedDeque { queue: VecDeque::new(), size }
    }

    /// Pushes `element` in front, evicting the item at the back when the
    /// bound is exceeded.
    pub fn push(&mut self, element: T)
        requires
            old(self).wf(),
        ensures
            final(self)@ == window_push(old(self)@, element, old(self).capacity()),
            final(self).capacity() == old(self).capacity(),
            final(self).wf(),
    {
        self.queue.push_front(element);
        if self.size >= 0 && self.queue.len() > self.size as usize {
            self.queue.pop_back();
        }
    }

    /// The items in order from front to back, that is from the latest pushed
    /// to the earliest.
    pub fn iterator(self) -> (r: Vec<T>)
        ensures
            r@ == self@,
    {
        let mut queue = self.queue;
        let ghost all = queue@;
        let mut r: Vec<T> = Vec::new();
        while queue.len() > 0
            invariant
                r@ + queue@ == all,
            decreases queue@.len(),
        {
            match queue.pop_front() {
                Some(x) => {
                    r.push(x);
                    assert(r@ + queue@ =~= all);
                },
                None => {},
            }
        }
        assert(r@ =~= all);
        r
    }
}

/// Pushing items one at a time into a bounded window keeps exactly the last
/// `size` of them, the latest in front.
pub proof fn lemma_window_keeps_latest<T>(items: Seq<T>, size: int)
    requires
        size >= 0,
    ensures
        window_push_all(Seq::empty(), items, size) == items.subrange(
            if items.len() > size { items.len() - size } else { 0 },
            items.len() as int,
        ).reverse(),
    decreases items.len(),
{
    if items.len() > 0 {
        let prev = items.drop_last();
        lemma_window_keeps_latest(prev, size);
        let lo_prev: int = if prev.len() > size { prev.len() - size } else { 0 };
        let lo: int = if items.len() > size { items.len() - size } else { 0 };
        let w = prev.subrange(lo_prev, prev.len() as int).reverse();
        let grown = seq![items.last()] + w;
        if size >= 0 && grown.len() > size {
            assert(grown.drop_last() =~= items.subrange(lo, items.len() as int).reverse());
        } else {
            assert(grown =~= items.subrange(lo, items.len() as int).reverse());
        }
    } else {
        assert(items.subrange(0, 0).reverse() =~= Seq::<T>::empty());
    }
}

/// A window of bound `n` that has taken `n + 1` items holds the `n` latest of
/// them, the earliest pushed item having been evicted.
pub proof fn lemma_window_evicts_oldest<T>(items: Seq<T>, n: int)
    requires
        n >= 0,
        items.len() == n + 1,
    ensures
        window_push_all(Seq::empty(), items, n).reverse() == items.subrange(1, n + 1),
        window_push_all(Seq::empty(), items, n).len() == n,
{
    lemma_window_keeps_latest(items, n);
    assert(items.subrange(1, n + 1).reverse().reverse() =~= items.subrange(1, n + 1));
}

} // verus!
