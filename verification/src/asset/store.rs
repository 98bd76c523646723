use std::collections::hash_map::Entry;
use std::collections::HashMap;
use std::marker::PhantomData;
use vstd::prelude::*;
use vstd::std_specs::iter::IteratorSpec;

verus! {

broadcast use vstd::std_specs::hash::group_hash_axioms;

/// Typed, copyable reference to an asset held by an [`AssetStore`].
#[derive(Debug)]
pub struct Handle<T> {
    pub id: u64,
    pub _marker: PhantomData<T>,
}

impl<T> Clone for Handle<T> {
    fn clone(&self) -> (r: Self)
        ensures
            r.id == self.id,
    {
        Handle { id: self.id, _marker: PhantomData }
    }
}

impl<T> Copy for Handle<T> {
}

impl<T> Handle<T> {
    pub fn new(id: u64) -> (r: Self)
        ensures
            r.id == id,
    {
        Handle { id, _marker: PhantomData }
    }
}

impl<T> Default for Handle<T> {
    fn default() -> (r: Self)
        ensures
            r.id == 0,
    {
        Handle::new(0)
    }
}

/// Assets of one kind, keyed by the id of the handle that `insert` gave out.
pub struct AssetStore<T> {
    assets: HashMap<u64, T>,
    next_id: u64,
}

impl<T> View for AssetStore<T> {
    type V = Map<u64, T>;

    closed spec fn view(&self) -> Map<u64, T> {
        self.assets@
    }
}

impl<T> AssetStore<T> {
    /// Finitely many assets, each stored under an id handed out before
    /// `next_id`, so ids are never reused.
    pub closed spec fn wf(&self) -> bool {
        &&& self.assets@.dom().finite()
        &&& forall|id: u64| #[trigger] self.assets@.contains_key(id) ==> id < self.next_id
    }

    /// A well-formed store holds finitely many assets.
    pub proof fn lemma_finite(&self)
        requires
            self.wf(),
        ensures
            self@.dom().finite(),
    {
    }

    /// The id that the next `insert` hands out.
    pub closed spec fn next_id(&self) -> u64 {
        self.next_id
    }

    /// A well-formed store holds no id at or above `next_id`.
    pub proof fn lemma_fresh(&self, id: u64)
        requires
            self.wf(),
            id >= self.next_id(),
        ensures
            !self@.contains_key(id),
    {
    }

    pub fn new() -> (s: Self)
        ensures
            s.wf(),
            s@ == Map::<u64, T>::empty(),
            s.next_id() == 0,
    {
        AssetStore { assets: HashMap::new(), next_id: 0 }
    }

    /// Store `asset` under a fresh id and return its handle.
    pub fn insert(&mut self, asset: T) -> (h: Handle<T>)
        requires
            old(self).wf(),
            old(self).next_id() < u64::MAX,
        ensures
            final(self).wf(),
            h.id == old(self).next_id(),
            !old(self)@.contains_key(h.id),
            final(self)@ == old(self)@.insert(h.id, asset),
            final(self)@.dom().finite(),
            final(self)@.len() == old(self)@.len() + 1,
            final(self).next_id() == old(self).next_id() + 1,
    {
        let id = self.next_id;
        self.assets.insert(id, asset);
        self.next_id = id + 1;
        Handle::new(id)
    }

    pub fn get(&self, handle: Handle<T>) -> (r: Option<&T>)
        ensures
            match r {
                Some(v) => self@.contains_key(handle.id) && *v == self@[handle.id],
                None => !self@.contains_key(handle.id),
            },
    {
        self.assets.get(&handle.id)
    }

    pub fn get_mut(&mut self, handle: Handle<T>) -> (r: Option<&mut T>)
        requires
            old(self).wf(),
        ensures
            final(self).next_id() == old(self).next_id(),
            match r {
                Some(v) => {
                    &&& old(self)@.contains_key(handle.id)
                    &&& *v == old(self)@[handle.id]
                    &&& final(self)@ == old(self)@.insert(handle.id, *final(v))
                    &&& final(self).wf()
                },
                None => {
                    &&& !old(self)@.contains_key(handle.id)
                    &&& final(self)@ == old(self)@
                    &&& final(self).wf()
                },
            },
    {
        match self.assets.entry(handle.id) {
            Entry::Occupied(entry) => Some(entry.into_mut()),
            Entry::Vacant(_) => None,
        }
    }

    pub fn remove(&mut self, handle: Handle<T>) -> (r: Option<T>)
        requires
            old(self).wf(),
        ensures
            final(self).wf(),
            final(self)@ == old(self)@.remove(handle.id),
            final(self)@.dom().finite(),
            final(self).next_id() == old(self).next_id(),
            match r {
                Some(v) => old(self)@.contains_key(handle.id) && v == old(self)@[handle.id]
                    && final(self)@.len() == old(self)@.len() - 1,
                None => !old(self)@.contains_key(handle.id) && final(self)@ == old(self)@,
            },
    {
        self.assets.remove(&handle.id)
    }

    /// Every stored `(id, asset)` pair, each id once, in the map's own order.
    pub fn get_all(&self) -> (r: Vec<(u64, &T)>)
        ensures
            r@.len() == self@.len(),
            forall|i: int| 0 <= i < r@.len() ==> #[trigger] self@.contains_key(r@[i].0) && *r@[i].1 == self@[r@[i].0],
            forall|id: u64| #[trigger] self@.contains_key(id) ==> exists|i: int| 0 <= i < r@.len() && #[trigger] r@[i].0 == id,
            forall|i: int, j: int| 0 <= i < j < r@.len() ==> r@[i].0 != r@[j].0,
    {
        let ghost v = vstd::std_specs::hash::spec_hash_map_iter(&self.assets).remaining();
        let mut out: Vec<(u64, &T)> = Vec::new();
        for pair in it: self.assets.iter()
            invariant
                it.seq() == v,
                out@.len() == it.index(),
                forall|i: int| 0 <= i < it.index() ==> #[trigger] out@[i] == (*v[i].0, v[i].1),
        {
            let (k, v) = pair;
            out.push((*k, v));
        }
        assert forall|id: u64| #[trigger] self@.contains_key(id) implies exists|i: int| 0 <= i < out@.len() && #[trigger] out@[i].0 == id by {
            assert(v.contains((&id, &self@[id])));
            let i = choose|i: int| 0 <= i < v.len() && v[i] == (&id, &self@[id]);
            assert(out@[i].0 == id);
        }
        assert forall|i: int, j: int| 0 <= i < j < out@.len() implies out@[i].0 != out@[j].0 by {
            if out@[i].0 == out@[j].0 {
                assert(self@.contains_key(*v[i].0));
                assert(v[i] == v[j]);
            }
        }
        out
    }

    /// Keep `handle` when it names a stored asset; otherwise store the asset
    /// built by `create` and return its new handle. `create` runs only then.
    pub fn get_or_insert_with<F: FnOnce() -> T>(&mut self, handle: Option<Handle<T>>, create: F) -> (h: Handle<T>)
        requires
            old(self).wf(),
            old(self).next_id() < u64::MAX,
            call_requires(create, ()),
        ensures
            final(self).wf(),
            final(self)@.contains_key(h.id),
            (handle is Some && old(self)@.contains_key(handle->0.id)) ==> {
                &&& h.id == handle->0.id
                &&& final(self)@ == old(self)@
                &&& final(self).next_id() == old(self).next_id()
            },
            !(handle is Some && old(self)@.contains_key(handle->0.id)) ==> {
                &&& h.id == old(self).next_id()
                &&& !old(self)@.contains_key(h.id)
                &&& final(self).next_id() == old(self).next_id() + 1
                &&& final(self)@.len() == old(self)@.len() + 1
                &&& exists|v: T| call_ensures(create, (), v) && final(self)@ == old(self)@.insert(h.id, v)
            },
    {
        if let Some(existing) = handle {
            if self.get(existing).is_some() {
                return existing;
            }
        }
        let asset = create();
        self.insert(asset)
    }

    /// Whether `insert` still has an id to hand out.
    pub fn has_free_id(&self) -> (b: bool)
        ensures
            b == (self.next_id() < u64::MAX),
    {
        self.next_id < u64::MAX
    }

    pub fn len(&self) -> (n: usize)
        ensures
            n == self@.len(),
    {
        self.assets.len()
    }

    pub fn is_empty(&self) -> (b: bool)
        ensures
            b == (self@.len() == 0),
    {
        self.assets.is_empty()
    }
}

} // verus!
