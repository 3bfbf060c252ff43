//! A rotation: a list of items with a cursor that goes round and round.

use vstd::prelude::*;

verus! {

/// A list of items and the index of the current one. Advancing past the last
/// item comes back to the first.
pub struct InfiniteIterator<T> {
    items: Vec<T>,
    // Stays a valid index into `items` from the moment there is an item.
    current_index: usize,
}

/// The index that follows `index` in a rotation of `len` items.
pub open spec fn next_index(index: nat, len: nat) -> nat {
    (index + 1) % len
}

/// The index reached from `start` by advancing `steps` times in a rotation
/// of `len` items.
pub open spec fn index_after(start: nat, len: nat, steps: nat) -> nat
    decreases steps,
{
    if steps == 0 {
        start
    } else {
        next_index(index_after(start, len, (steps - 1) as nat), len)
    }
}

proof fn lemma_index_after(start: nat, len: nat, steps: nat)
    requires
        start < len,
    ensures
        index_after(start, len, steps) == (start + steps) % len,
    decreases steps,
{
    if steps > 0 {
        lemma_index_after(start, len, (steps - 1) as nat);
        let before = (start + steps - 1) as nat;
        assert((before % len + 1) % len == (before + 1) % len) by {
            vstd::arithmetic::div_mod::lemma_add_mod_noop(before as int, 1, len as int);
            vstd::arithmetic::div_mod::lemma_mod_bound(before as int, len as int);
            if len > 1 {
                vstd::arithmetic::div_mod::lemma_small_mod(1, len);
            }
        }
    } else {
        vstd::arithmetic::div_mod::lemma_small_mod(start, len);
    }
}

/// Advancing as many times as the rotation has items comes back to where it
/// started.
pub proof fn lemma_full_round(start: nat, len: nat)
    requires
        start < len,
    ensures
        index_after(start, len, len) == start,
{
    lemma_index_after(start, len, len);
    vstd::arithmetic::div_mod::lemma_mod_add_multiples_vanish(start as int, len as int);
    vstd::arithmetic::div_mod::lemma_small_mod(start, len);
}

impl<T> InfiniteIterator<T> {
    /// The items, in the order of the rotation.
    pub closed spec fn items(&self) -> Seq<T> {
        self.items@
    }

    /// The index of the current item.
    pub closed spec fn index(&self) -> nat {
        self.current_index as nat
    }

    /// The cursor is on an item, or at 0 while there is none.
    pub open spec fn wf(&self) -> bool {
        if self.items().len() == 0 {
            self.index() == 0
        } else {
            self.index() < self.items().len()
        }
    }

    /// There is a current item.
    pub open spec fn has_current(&self) -> bool {
        self.index() < self.items().len()
    }

    /// A rotation without items yet.
    pub fn new() -> (rotation: Self)
        ensures
            rotation.items() == Seq::<T>::empty(),
            rotation.index() == 0,
            rotation.wf(),
    {
        InfiniteIterator { items: Vec::new(), current_index: 0 }
    }

    /// A rotation of `items` that starts at the first of them.
    pub fn from_vec(items: Vec<T>) -> (rotation: Self)
        requires
            items@.len() > 0,
        ensures
            rotation.items() == items@,
            rotation.index() == 0,
            rotation.wf(),
    {
        InfiniteIterator { items, current_index: 0 }
    }

    /// Adds an item at the end of the rotation. The cursor stays where it is.
    pub fn push(&mut self, item: T)
        requires
            old(self).wf(),
        ensures
            final(self).items() == old(self).items().push(item),
            final(self).index() == old(self).index(),
            final(self).wf(),
    {
        self.items.push(item);
    }

    pub fn len(&self) -> (len: usize)
        ensures
            len == self.items().len(),
    {
        self.items.len()
    }

    /// Whether there is a current item, which `current`, `current_mut` and
    /// `advance` ask for.
    pub fn check_invariants(&self) -> (ok: bool)
        ensures
            ok == self.has_current(),
    {
        self.current_index < self.items.len()
    }

    pub fn current(&self) -> (item: &T)
        requires
            self.has_current(),
        ensures
            *item == self.items()[self.index() as int],
    {
        &self.items[self.current_index]
    }

    /// The current item, to change in place. Nothing else of the rotation
    /// changes.
    pub fn current_mut(&mut self) -> (item: &mut T)
        requires
            old(self).has_current(),
        ensures
            *item == old(self).items()[old(self).index() as int],
            final(self).items() == old(self).items().update(
                old(self).index() as int,
                *final(item),
            ),
            final(self).index() == old(self).index(),
    {
        &mut self.items[self.current_index]
    }

    /// Moves the cursor to the next item, and from the last item to the first.
    pub fn advance(&mut self)
        requires
            old(self).has_current(),
        ensures
            final(self).items() == old(self).items(),
            final(self).index() == next_index(old(self).index(), old(self).items().len()),
            final(self).has_current(),
    {
        let len = self.items.len();
        self.current_index = (self.current_index + 1) % len;
    }

    /// Moves the cursor to the next item, as `advance` does.
    pub fn increment(&mut self)
        requires
            old(self).has_current(),
        ensures
            final(self).items() == old(self).items(),
            final(self).index() == next_index(old(self).index(), old(self).items().len()),
            final(self).has_current(),
    {
        self.advance();
    }

    /// The items and the index of the current one.
    pub fn raw(&self) -> (raw: (&Vec<T>, usize))
        ensures
            raw.0@ == self.items(),
            raw.1 == self.index(),
    {
        (&self.items, self.current_index)
    }
}

} // verus!
