//! The map from subscriber id to the handle of a live connection.

use std::collections::HashMap;
use vstd::prelude::*;

verus! {

broadcast use vstd::std_specs::hash::group_hash_axioms;

/// The live connections, each under its subscriber id.
pub struct ConnectionRegistry<H> {
    entries: HashMap<u64, H>,
}

impl<H> View for ConnectionRegistry<H> {
    type V = Map<u64, H>;

    closed spec fn view(&self) -> Map<u64, H> {
        self.entries@
    }
}

impl<H> ConnectionRegistry<H> {
    /// A registry with no connection in it.
    pub fn new() -> (r: Self)
        ensures
            r@ == Map::<u64, H>::empty(),
    {
        ConnectionRegistry { entries: HashMap::new() }
    }

    /// Puts `handle` under `id`, in place of any handle that was there.
    pub fn register(&mut self, id: u64, handle: H)
        ensures
            final(self)@ == old(self)@.insert(id, handle),
    {
        self.entries.insert(id, handle);
    }

    /// Takes out the entry of `id`; returns whether there was one. Taking out
    /// an id that is not there changes nothing.
    pub fn unregister(&mut self, id: u64) -> (r: bool)
        ensures
            final(self)@ == old(self)@.remove(id),
            r == old(self)@.contains_key(id),
    {
        self.entries.remove(&id).is_some()
    }

    /// The handle registered under `id`, if any.
    pub fn lookup(&self, id: u64) -> (r: Option<&H>)
        ensures
            match r {
                Some(h) => self@.contains_key(id) && *h == self@[id],
                None => !self@.contains_key(id),
            },
    {
        self.entries.get(&id)
    }

    /// Whether a connection is registered under `id`.
    pub fn contains(&self, id: u64) -> (r: bool)
        ensures
            r == self@.contains_key(id),
    {
        self.entries.contains_key(&id)
    }

    /// The number of registered connections.
    pub fn len(&self) -> (r: usize)
        ensures
            r as nat == self@.len(),
    {
        self.entries.len()
    }
}

} // verus!
