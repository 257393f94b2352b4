//! The registry: which owner each live instance belongs to.

use crate::slots::{
    slab_entries, slab_get, slab_insert, slab_new, slab_try_remove, slab_vacant_key,
};
use slab::Slab;
use vstd::prelude::*;

verus! {

/// A table from instance ids to owners. An owner is the number under which
/// the caller that owns the instance is known. An id names one instance for
/// as long as the instance is in the table, and may be given out again once
/// the instance has left.
pub struct Registry {
    owners: Slab<u64>,
}

impl View for Registry {
    type V = Map<usize, u64>;

    closed spec fn view(&self) -> Map<usize, u64> {
        slab_entries(self.owners)
    }
}

impl Registry {
    /// The id that the next instance gets. It is 0 in a new registry, and
    /// once an instance has left it is the id of that instance.
    pub closed spec fn next_id(&self) -> usize {
        slab_vacant_key(self.owners)
    }

    /// A registry without instances.
    pub fn new() -> (registry: Registry)
        ensures
            registry@ == Map::<usize, u64>::empty(),
            registry.next_id() == 0,
    {
        Registry { owners: slab_new() }
    }

    /// Enters an instance of `owner` and returns its id, which no instance
    /// in the table has.
    pub fn insert(&mut self, owner: u64) -> (id: usize)
        ensures
            id == old(self).next_id(),
            !old(self)@.contains_key(id),
            final(self)@ == old(self)@.insert(id, owner),
    {
        slab_insert(&mut self.owners, owner)
    }

    /// The owner of the instance `id`, if there is such an instance.
    pub fn get(&self, id: usize) -> (owner: Option<u64>)
        ensures
            owner == if self@.contains_key(id) {
                Some(self@[id])
            } else {
                None::<u64>
            },
    {
        slab_get(&self.owners, id)
    }

    /// Takes the instance `id` out, if it is there, and returns its owner.
    /// The id of an instance that has left is the next to be given out.
    pub fn remove(&mut self, id: usize) -> (owner: Option<u64>)
        ensures
            owner == if old(self)@.contains_key(id) {
                Some(old(self)@[id])
            } else {
                None::<u64>
            },
            final(self)@ == old(self)@.remove(id),
            final(self).next_id() == if old(self)@.contains_key(id) {
                id
            } else {
                old(self).next_id()
            },
    {
        slab_try_remove(&mut self.owners, id)
    }
}

} // verus!
