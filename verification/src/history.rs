//! A rolling window over the most recent samples of one quantity.
use crate::HISTORY_LENGTH;
use std::collections::VecDeque;
use vstd::prelude::*;

verus! {

/// The window after `value` arrives: the value goes to the back, and the
/// oldest entry leaves once the window would hold more than
/// `HISTORY_LENGTH` entries.
pub open spec fn pushed<T>(items: Seq<T>, value: T) -> Seq<T> {
    let grown = items.push(value);
    if grown.len() > HISTORY_LENGTH {
        grown.subrange(1, grown.len() as int)
    } else {
        grown
    }
}

/// First-in, first-out window of at most `HISTORY_LENGTH` entries, oldest
/// first.
pub struct History<T> {
    items: VecDeque<T>,
}

impl<T> View for History<T> {
    type V = Seq<T>;

    closed spec fn view(&self) -> Seq<T> {
        self.items@
    }
}

impl<T> History<T> {
    /// The window never holds more than `HISTORY_LENGTH` entries.
    pub open spec fn wf(&self) -> bool {
        self@.len() <= HISTORY_LENGTH
    }

    pub fn new() -> (h: Self)
        ensures
            h@ == Seq::<T>::empty(),
            h.wf(),
    {
        History { items: VecDeque::new() }
    }

    pub fn len(&self) -> (n: usize)
        ensures
            n == self@.len(),
    {
        self.items.len()
    }

    pub fn is_empty(&self) -> (b: bool)
        ensures
            b == (self@.len() == 0),
    {
        self.items.len() == 0
    }

    /// Appends `value`, evicting the oldest entry when the window is full.
    pub fn push(&mut self, value: T)
        requires
            old(self).wf(),
        ensures
            final(self)@ == pushed(old(self)@, value),
            final(self).wf(),
    {
        self.items.push_back(value);
        if self.items.len() > HISTORY_LENGTH {
            let _ = self.items.pop_front();
        }
    }

    /// The entry at position `i`, counted from the oldest.
    pub fn get(&self, i: usize) -> (r: Option<&T>)
        ensures
            i < self@.len() ==> r == Some(&self@[i as int]),
            i >= self@.len() ==> r.is_none(),
    {
        if i < self.items.len() {
            Some(&self.items[i])
        } else {
            None
        }
    }

    /// The most recent entry.
    pub fn latest(&self) -> (r: Option<&T>)
        ensures
            self@.len() > 0 ==> r == Some(&self@[self@.len() - 1]),
            self@.len() == 0 ==> r.is_none(),
    {
        let n: usize = self.items.len();
        if n > 0 {
            Some(&self.items[n - 1])
        } else {
            None
        }
    }
}

/// Pushing into a window that respects the bound keeps the bound, keeps the
/// new value at the back, and keeps the order of what stays.
pub proof fn lemma_pushed_bounded<T>(items: Seq<T>, value: T)
    requires
        items.len() <= HISTORY_LENGTH,
    ensures
        pushed(items, value).len() <= HISTORY_LENGTH,
        pushed(items, value).len() == if items.len() < HISTORY_LENGTH {
            items.len() + 1
        } else {
            HISTORY_LENGTH as nat
        },
        pushed(items, value).last() == value,
        forall|i: int|
            0 <= i < pushed(items, value).len() - 1 ==> pushed(items, value)[i] == items[i
                + items.len() + 1 - pushed(items, value).len()],
{
}

} // verus!
