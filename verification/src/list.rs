//! A list of entries with one of them selected, where the selection can be
//! stepped up and down and wraps around at either end.
use vstd::prelude::*;

verus! {

/// The selection after a step down in a list of `len` entries.
pub open spec fn index_down(index: nat, len: nat) -> nat
    recommends
        len > 0,
{
    ((index as int + 1) % (len as int)) as nat
}

/// The selection after a step up in a list of `len` entries.
pub open spec fn index_up(index: nat, len: nat) -> nat
    recommends
        len > 0,
{
    if index == 0 {
        (len - 1) as nat
    } else {
        (index - 1) as nat
    }
}

/// The selection after `n` steps down.
pub open spec fn index_down_times(index: nat, len: nat, n: nat) -> nat
    decreases n,
{
    if n == 0 {
        index
    } else {
        index_down_times(index_down(index, len), len, (n - 1) as nat)
    }
}

/// Entries with a selected one.
pub struct List<T> {
    entries: Vec<T>,
    index: usize,
}

impl<T> List<T> {
    /// The entries, in order.
    pub closed spec fn entries(&self) -> Seq<T> {
        self.entries@
    }

    /// The position of the selected entry.
    pub closed spec fn selected(&self) -> nat {
        self.index as nat
    }

    /// The selection points at an entry, or is the first position of an empty list.
    pub open spec fn wf(&self) -> bool {
        if self.entries().len() == 0 {
            self.selected() == 0
        } else {
            self.selected() < self.entries().len()
        }
    }

    /// A list of `entries` with the first one selected.
    pub fn new(entries: Vec<T>) -> (list: Self)
        ensures
            list.wf(),
            list.entries() == entries@,
            list.selected() == 0,
    {
        Self { entries, index: 0 }
    }

    /// The position of the selected entry.
    pub fn index(&self) -> (index: usize)
        ensures
            index == self.selected(),
    {
        self.index
    }

    /// Selects the entry at `index`, which must exist.
    pub fn set_index(&mut self, index: usize)
        requires
            index < old(self).entries().len(),
        ensures
            final(self).wf(),
            final(self).entries() == old(self).entries(),
            final(self).selected() == index,
    {
        self.index = index;
    }

    /// Replaces the entries by `entries`, which must not be empty; the
    /// selection stays where it was, or moves to the last entry if the new
    /// entries do not reach it.
    pub fn set_entries(&mut self, entries: Vec<T>)
        requires
            entries.len() > 0,
        ensures
            final(self).wf(),
            final(self).entries() == entries@,
            final(self).selected() == if old(self).selected() < entries.len() {
                old(self).selected()
            } else {
                (entries.len() - 1) as nat
            },
    {
        self.entries = entries;
        let last = self.entries.len() - 1;
        if last < self.index {
            self.index = last;
        }
    }

    /// Removes every entry.
    pub fn clear_entries(&mut self)
        ensures
            final(self).wf(),
            final(self).entries() == Seq::<T>::empty(),
            final(self).selected() == 0,
    {
        self.index = 0;
        self.entries.clear();
    }

    /// Adds `entry` at the end; the selection stays.
    pub fn push_entry(&mut self, entry: T)
        requires
            old(self).wf(),
        ensures
            final(self).wf(),
            final(self).entries() == old(self).entries().push(entry),
            final(self).selected() == old(self).selected(),
    {
        self.entries.push(entry);
    }

    /// Inserts `entry` at position `index`, which must be at most the length;
    /// the selection keeps its position.
    pub fn insert_entry(&mut self, index: usize, entry: T)
        requires
            old(self).wf(),
            index <= old(self).entries().len(),
        ensures
            final(self).wf(),
            final(self).entries() == old(self).entries().insert(index as int, entry),
            final(self).selected() == old(self).selected(),
    {
        self.entries.insert(index, entry);
    }

    /// Selects the entry before, or the last one from the first; the list
    /// must not be empty.
    pub fn rotate_up(&mut self)
        requires
            old(self).wf(),
            old(self).entries().len() > 0,
        ensures
            final(self).wf(),
            final(self).entries() == old(self).entries(),
            final(self).selected() == index_up(old(self).selected(), old(self).entries().len()),
    {
        let last = self.entries.len() - 1;
        self.index = match self.index.checked_sub(1) {
            Some(previous) => previous,
            None => last,
        };
    }

    /// Selects the entry after, or the first one from the last; the list
    /// must not be empty.
    pub fn rotate_down(&mut self)
        requires
            old(self).wf(),
            old(self).entries().len() > 0,
        ensures
            final(self).wf(),
            final(self).entries() == old(self).entries(),
            final(self).selected() == index_down(old(self).selected(), old(self).entries().len()),
    {
        proof {
            assert(self.index < self.entries.len());
        }
        self.index = (self.index + 1) % self.entries.len();
    }

    /// The selected entry; the list must not be empty.
    pub fn get(&self) -> (entry: &T)
        requires
            self.wf(),
            self.entries().len() > 0,
        ensures
            *entry == self.entries()[self.selected() as int],
    {
        &self.entries[self.index]
    }

    /// The selected entry, to be changed in place; the list must not be empty.
    pub fn get_mut(&mut self) -> (entry: &mut T)
        requires
            old(self).wf(),
            old(self).entries().len() > 0,
        ensures
            *entry == old(self).entries()[old(self).selected() as int],
            final(self).entries() == old(self).entries().update(
                old(self).selected() as int,
                *final(entry),
            ),
            final(self).selected() == old(self).selected(),
    {
        let index = self.index;
        &mut self.entries[index]
    }

    /// All entries, in order.
    pub fn iter(&self) -> (entries: &[T])
        ensures
            entries@ == self.entries(),
    {
        self.entries.as_slice()
    }

    /// The entry at `index`, which must exist.
    pub fn index_at(&self, index: usize) -> (entry: &T)
        requires
            index < self.entries().len(),
        ensures
            *entry == self.entries()[index as int],
    {
        &self.entries[index]
    }

    /// The entry at `index`, which must exist, to be changed in place.
    pub fn index_mut(&mut self, index: usize) -> (entry: &mut T)
        requires
            index < old(self).entries().len(),
        ensures
            *entry == old(self).entries()[index as int],
            final(self).entries() == old(self).entries().update(index as int, *final(entry)),
            final(self).selected() == old(self).selected(),
    {
        &mut self.entries[index]
    }
}

/// A step down undoes a step up, and a step up undoes a step down.
pub proof fn law_rotate_inverse(index: nat, len: nat)
    requires
        index < len,
    ensures
        index_down(index_up(index, len), len) == index,
        index_up(index_down(index, len), len) == index,
        index_up(index, len) < len,
        index_down(index, len) < len,
{
    let l = len as int;
    let i = index as int;
    if i + 1 == l {
        vstd::arithmetic::div_mod::lemma_mod_self_0(l);
    } else {
        vstd::arithmetic::div_mod::lemma_small_mod((i + 1) as nat, len);
    }
    if i == 0 {
        vstd::arithmetic::div_mod::lemma_mod_self_0(l);
    } else {
        vstd::arithmetic::div_mod::lemma_small_mod(index, len);
    }
}

/// Stepping down once per entry brings the selection back where it started.
pub proof fn law_rotate_full_circle(index: nat, len: nat)
    requires
        index < len,
    ensures
        index_down_times(index, len, len) == index,
{
    lemma_down_times(index, len, len);
    vstd::arithmetic::div_mod::lemma_mod_add_multiples_vanish(index as int, len as int);
    vstd::arithmetic::div_mod::lemma_small_mod(index, len);
}

/// `n` steps down move the selection `n` places on, wrapping around.
proof fn lemma_down_times(index: nat, len: nat, n: nat)
    requires
        index < len,
    ensures
        index_down_times(index, len, n) as int == (index as int + n as int) % (len as int),
    decreases n,
{
    let l = len as int;
    let i = index as int;
    if n == 0 {
        vstd::arithmetic::div_mod::lemma_small_mod(index, len);
    } else {
        let next = index_down(index, len);
        vstd::arithmetic::div_mod::lemma_mod_bound(i + 1, l);
        lemma_down_times(next, len, (n - 1) as nat);
        // ((i + 1) % l + (n - 1)) % l == (i + 1 + (n - 1)) % l
        vstd::arithmetic::div_mod::lemma_add_mod_noop(i + 1, n - 1, l);
        vstd::arithmetic::div_mod::lemma_mod_twice(i + 1, l);
        vstd::arithmetic::div_mod::lemma_add_mod_noop((i + 1) % l, n - 1, l);
        vstd::arithmetic::div_mod::lemma_small_mod((n - 1) as nat % len, len);
    }
}

} // verus!
