//! A map that hands out its own keys: every value pushed into it gets the
//! next identifier in sequence, and keeps it for as long as the map lives.
use std::collections::hash_map::Entry;
use std::collections::HashMap;
use vstd::prelude::*;

verus! {

broadcast use vstd::std_specs::hash::group_hash_axioms;

/// An identifier that is allocated in sequence, starting from the first one.
///
/// Each identifier stands for a number, its index; a map stores its values
/// under that index.
pub trait ID: Copy + Sized {
    /// The number that this identifier stands for.
    spec fn index(&self) -> u32;

    /// The first identifier of the sequence.
    fn first() -> (id: Self)
        ensures
            id.index() == 0,
    ;

    /// Moves on to the next identifier of the sequence.
    fn increment(&mut self)
        requires
            old(self).index() < u32::MAX,
        ensures
            final(self).index() == old(self).index() + 1,
    ;

    /// The index of this identifier.
    fn to_index(&self) -> (index: u32)
        ensures
            index == self.index(),
    ;
}

/// A value that can be told which identifier it has been given.
pub trait IDed<I: ID>: Sized {
    /// The identifier that the value holds.
    spec fn id_of(&self) -> I;

    /// The same value, holding `id` in place of its identifier.
    spec fn with_id(self, id: I) -> Self;

    fn set_id(&mut self, id: I)
        ensures
            *final(self) == old(self).with_id(id),
            final(self).id_of() == id,
    ;

    fn get_id(&self) -> (id: I)
        ensures
            id == self.id_of(),
    ;
}

/// A map from identifiers to values, which allocates the identifiers itself.
///
/// Its view maps the index of each identifier handed out so far to the value
/// stored under it.
pub struct AutoIDMap<I: ID, T> {
    next_id: I,
    inner: HashMap<u32, T>,
}

impl<I: ID, T> View for AutoIDMap<I, T> {
    type V = Map<u32, T>;

    closed spec fn view(&self) -> Map<u32, T> {
        self.inner@
    }
}

impl<I: ID, T: IDed<I>> AutoIDMap<I, T> {
    /// The index that the next pushed value will get.
    pub closed spec fn next_index(&self) -> u32 {
        self.next_id.index()
    }

    /// The keys are exactly the indices handed out so far.
    pub closed spec fn wf(&self) -> bool {
        &&& forall|k: u32| #[trigger] self.inner@.contains_key(k) <==> k < self.next_id.index()
        &&& self.inner@.len() == self.next_id.index()
    }

    /// Creates an empty map whose first identifier is the first of the sequence.
    pub fn new() -> (map: Self)
        ensures
            map.wf(),
            map@ == Map::<u32, T>::empty(),
            map.next_index() == 0,
    {
        Self { next_id: I::first(), inner: HashMap::new() }
    }

    /// Creates an empty map, with room set aside for `cap` values.
    pub fn with_capacity(cap: usize) -> (map: Self)
        ensures
            map.wf(),
            map@ == Map::<u32, T>::empty(),
            map.next_index() == 0,
    {
        Self { next_id: I::first(), inner: HashMap::with_capacity(cap) }
    }

    /// Stores `item` under the next identifier, tells the item its
    /// identifier, and returns it.
    pub fn push(&mut self, item: T) -> (id: I)
        requires
            old(self).wf(),
            old(self).next_index() < u32::MAX,
        ensures
            final(self).wf(),
            id.index() == old(self).next_index(),
            final(self).next_index() == old(self).next_index() + 1,
            !old(self)@.contains_key(id.index()),
            final(self)@ == old(self)@.insert(id.index(), item.with_id(id)),
            final(self)@[id.index()].id_of() == id,
    {
        let id = self.next_id;
        let mut item = item;
        item.set_id(id);
        let key = id.to_index();
        proof {
            assert(!self.inner@.contains_key(key));
        }
        self.inner.insert(key, item);
        self.next_id.increment();
        proof {
            assert(self.inner@.dom() == old(self).inner@.dom().insert(key));
        }
        id
    }

    /// The value stored under `id`, if there is one.
    pub fn get(&self, id: I) -> (result: Option<&T>)
        ensures
            match result {
                Some(r) => self@.contains_key(id.index()) && *r == self@[id.index()],
                None => !self@.contains_key(id.index()),
            },
    {
        let key = id.to_index();
        self.inner.get(&key)
    }

    /// The value stored under `id`, if there is one, to be changed in place.
    pub fn get_mut(&mut self, id: I) -> (result: Option<&mut T>)
        requires
            old(self).wf(),
        ensures
            final(self).wf(),
            final(self).next_index() == old(self).next_index(),
            match result {
                Some(r) => old(self)@.contains_key(id.index()) && *r == old(self)@[id.index()]
                    && final(self)@ == old(self)@.insert(id.index(), *final(r)),
                None => !old(self)@.contains_key(id.index()) && final(self)@ == old(self)@,
            },
    {
        let key = id.to_index();
        match self.inner.entry(key) {
            Entry::Occupied(entry) => Some(entry.into_mut()),
            Entry::Vacant(_) => None,
        }
    }

    /// The value stored under `id`, which must be there.
    pub fn index(&self, id: I) -> (result: &T)
        requires
            self@.contains_key(id.index()),
        ensures
            *result == self@[id.index()],
    {
        self.get(id).unwrap()
    }

    /// The value stored under `id`, which must be there, to be changed in place.
    pub fn index_mut(&mut self, id: I) -> (result: &mut T)
        requires
            old(self).wf(),
            old(self)@.contains_key(id.index()),
        ensures
            final(self).wf(),
            final(self).next_index() == old(self).next_index(),
            *result == old(self)@[id.index()],
            final(self)@ == old(self)@.insert(id.index(), *final(result)),
    {
        self.get_mut(id).unwrap()
    }

    /// All stored values, in the order in which their identifiers were handed out.
    pub fn iter(&self) -> (values: Vec<&T>)
        requires
            self.wf(),
        ensures
            values.len() == self.next_index(),
            forall|i: int|
                0 <= i < values.len() ==> self@.contains_key(i as u32) && *#[trigger] values[i]
                    == self@[i as u32],
            forall|k: u32| #[trigger] self@.contains_key(k) ==> k < self.next_index(),
    {
        let n = self.next_id.to_index();
        let mut values: Vec<&T> = Vec::new();
        let mut i: u32 = 0;
        while i < n
            invariant
                self.wf(),
                n == self.next_index(),
                i <= n,
                values.len() == i,
                forall|j: int| 0 <= j < values.len() ==> *#[trigger] values[j] == self@[j as u32],
            decreases n - i,
        {
            match self.inner.get(&i) {
                Some(r) => values.push(r),
                None => {
                    proof {
                        assert(self.inner@.contains_key(i));
                    }
                },
            }
            i = i + 1;
        }
        values
    }

    /// Replaces every stored value by what `f` makes of it.
    pub fn iter_mut<F: Fn(T) -> T>(&mut self, f: F)
        requires
            old(self).wf(),
            forall|k: u32| old(self)@.contains_key(k) ==> f.requires((old(self)@[k],)),
        ensures
            final(self).wf(),
            final(self).next_index() == old(self).next_index(),
            final(self)@.dom() == old(self)@.dom(),
            forall|k: u32|
                #[trigger] old(self)@.contains_key(k) ==> f.ensures(
                    (old(self)@[k],),
                    final(self)@[k],
                ),
    {
        let n = self.next_id.to_index();
        let ghost start = self.inner@;
        let mut i: u32 = 0;
        while i < n
            invariant
                self.wf(),
                n == self.next_index(),
                n == old(self).next_index(),
                start == old(self)@,
                i <= n,
                self.inner@.dom() == start.dom(),
                forall|k: u32| start.contains_key(k) ==> f.requires((start[k],)),
                forall|k: u32| i <= k < n ==> #[trigger] self.inner@[k] == start[k],
                forall|k: u32| k < i ==> f.ensures((start[k],), #[trigger] self.inner@[k]),
            decreases n - i,
        {
            proof {
                assert(self.inner@.contains_key(i));
            }
            match self.inner.remove(&i) {
                Some(v) => {
                    let w = f(v);
                    self.inner.insert(i, w);
                    proof {
                        assert(self.inner@.dom() =~= start.dom());
                    }
                },
                None => {},
            }
            i = i + 1;
        }
    }

    /// The number of values stored.
    pub fn len(&self) -> (len: usize)
        requires
            self.wf(),
        ensures
            len == self@.len(),
            len == self.next_index(),
    {
        self.inner.len()
    }

    /// Builds a map from `items`, which get the identifiers in their order.
    pub fn from_iter(items: Vec<T>) -> (map: Self)
        requires
            items.len() < u32::MAX,
        ensures
            map.wf(),
            map.next_index() == items.len(),
            forall|i: u32|
                i < items.len() ==> {
                    &&& #[trigger] map@.contains_key(i)
                    &&& map@[i].id_of().index() == i
                    &&& map@[i] == items@[i as int].with_id(map@[i].id_of())
                },
    {
        let mut map = Self::with_capacity(items.len());
        let ghost all = items@;
        let n = items.len();
        // Reverse the items, so that popping hands them out front first.
        let mut items = items;
        let mut reversed: Vec<T> = Vec::new();
        while items.len() > 0
            invariant
                n == all.len(),
                items.len() + reversed.len() == n,
                items@ == all.take(items.len() as int),
                forall|j: int|
                    0 <= j < reversed.len() ==> #[trigger] reversed@[j] == all[n - 1 - j],
            decreases items.len(),
        {
            let item = items.pop().unwrap();
            reversed.push(item);
            proof {
                assert(items@ =~= all.take(items.len() as int));
            }
        }
        while reversed.len() > 0
            invariant
                map.wf(),
                n < u32::MAX,
                n == all.len(),
                map.next_index() + reversed.len() == n,
                forall|j: int|
                    0 <= j < reversed.len() ==> #[trigger] reversed@[j] == all[n - 1 - j],
                forall|i: u32|
                    i < map.next_index() ==> {
                        &&& #[trigger] map@.contains_key(i)
                        &&& map@[i].id_of().index() == i
                        &&& map@[i] == all[i as int].with_id(map@[i].id_of())
                    },
            decreases reversed.len(),
        {
            let ghost before = map;
            let item = reversed.pop().unwrap();
            map.push(item);
            assert forall|i: u32| i < map.next_index() implies {
                &&& #[trigger] map@.contains_key(i)
                &&& map@[i].id_of().index() == i
                &&& map@[i] == all[i as int].with_id(map@[i].id_of())
            } by {
                if i < before.next_index() {
                    assert(before@.contains_key(i));
                }
            }
        }
        map
    }
}

/// A well-formed map holds a value under exactly the indices handed out so
/// far, and as many values as indices.
pub proof fn law_wf_keys<I: ID, T: IDed<I>>(map: AutoIDMap<I, T>)
    requires
        map.wf(),
    ensures
        forall|k: u32| #[trigger] map@.contains_key(k) <==> k < map.next_index(),
        map@.len() == map.next_index(),
{
}

/// Identifiers are never reused: the one that `push` hands out comes after
/// every identifier already in the map.
pub proof fn law_push_fresh<I: ID, T: IDed<I>>(before: AutoIDMap<I, T>, id: I, key: u32)
    requires
        before.wf(),
        id.index() == before.next_index(),
        before@.contains_key(key),
    ensures
        key < id.index(),
{
}

/// Reading back what was pushed: after `push` stores `item` under `id`, a
/// lookup of `id` finds the item holding `id`, and every other identifier
/// finds what it found before.
pub proof fn law_get_after_push<I: ID, T: IDed<I>>(
    before: AutoIDMap<I, T>,
    after: AutoIDMap<I, T>,
    id: I,
    item: T,
    other: u32,
)
    requires
        before.wf(),
        id.index() == before.next_index(),
        after@ == before@.insert(id.index(), item.with_id(id)),
        other != id.index(),
    ensures
        after@.contains_key(id.index()),
        after@[id.index()] == item.with_id(id),
        after@.contains_key(other) == before@.contains_key(other),
        before@.contains_key(other) ==> after@[other] == before@[other],
        !before@.contains_key(id.index()),
{
}

} // verus!
