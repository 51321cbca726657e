//! The process-wide permuter registry: all currently active permuters keyed
//! by a monotonically assigned identifier, plus the counter that issues the
//! identifiers. Identifiers are never reused; an entry exists exactly while
//! some live connection owns that search task. The process serializes access
//! under one lock (held by the caller, outside this module, only across these
//! in-memory operations).

use vstd::prelude::*;
use std::collections::HashMap;
use crate::permuter::Permuter;

verus! {

broadcast use vstd::std_specs::hash::group_hash_axioms;

/// The shared registry of active permuters.
pub struct Registry {
    /// The next identifier to issue; strictly larger than every identifier
    /// ever issued so far.
    pub next_permuter_id: u64,
    /// The active permuters, keyed by identifier.
    pub permuters: HashMap<u64, Permuter>,
}

impl Registry {
    /// The registry's contents as a mathematical map.
    pub open spec fn entries(self) -> Map<u64, Permuter> {
        self.permuters@
    }

    /// Every registered identifier was issued, i.e. lies below the counter.
    pub open spec fn wf(self) -> bool {
        forall|id: u64| self.entries().contains_key(id) ==> id < self.next_permuter_id
    }

    /// An empty registry whose counter starts at zero.
    pub fn new() -> (r: Registry)
        ensures
            r.wf(),
            r.entries() == Map::<u64, Permuter>::empty(),
            r.next_permuter_id == 0,
    {
        Registry { next_permuter_id: 0, permuters: HashMap::new() }
    }

    /// How many permuters are currently registered.
    pub fn len(&self) -> (r: usize)
        ensures
            r == self.entries().len(),
    {
        self.permuters.len()
    }

    /// Issues a fresh identifier: returns the counter and advances it.
    /// The contents are untouched, so every identifier ever issued is unique.
    pub fn allocate_id(&mut self) -> (r: u64)
        requires
            old(self).wf(),
            old(self).next_permuter_id < u64::MAX,
        ensures
            final(self).wf(),
            r == old(self).next_permuter_id,
            final(self).next_permuter_id == old(self).next_permuter_id + 1,
            final(self).entries() == old(self).entries(),
    {
        let id = self.next_permuter_id;
        self.next_permuter_id = self.next_permuter_id + 1;
        proof {
            assert forall|i: u64| self.entries().contains_key(i) implies i
                < self.next_permuter_id by {
                assert(old(self).entries().contains_key(i));
            }
        }
        id
    }

    /// Inserts a permuter under an identifier this registry issued.
    pub fn insert(&mut self, id: u64, q: Permuter)
        requires
            old(self).wf(),
            id < old(self).next_permuter_id,
        ensures
            final(self).wf(),
            final(self).next_permuter_id == old(self).next_permuter_id,
            final(self).entries() == old(self).entries().insert(id, q),
    {
        self.permuters.insert(id, q);
        proof {
            assert forall|i: u64| self.entries().contains_key(i) implies i
                < self.next_permuter_id by {
                if i != id {
                    assert(old(self).entries().contains_key(i));
                }
            }
        }
    }

    /// Removes and returns the permuter registered under `id`; a no-op, not
    /// an error, if the identifier is absent (a connection may race with
    /// supervisory cleanup).
    pub fn remove(&mut self, id: u64) -> (r: Option<Permuter>)
        requires
            old(self).wf(),
        ensures
            final(self).wf(),
            final(self).next_permuter_id == old(self).next_permuter_id,
            final(self).entries() == old(self).entries().remove(id),
            r matches Some(q) ==> old(self).entries().contains_key(id) && q == old(self).entries()[id],
            r is None ==> !old(self).entries().contains_key(id),
    {
        let r = self.permuters.remove(&id);
        proof {
            assert forall|i: u64| self.entries().contains_key(i) implies i
                < self.next_permuter_id by {
                assert(old(self).entries().contains_key(i));
            }
        }
        r
    }

    /// Looks up the permuter registered under `id`.
    pub fn get(&self, id: u64) -> (r: Option<&Permuter>)
        ensures
            r matches Some(q) ==> self.entries().contains_key(id) && *q == self.entries()[id],
            r is None ==> !self.entries().contains_key(id),
    {
        self.permuters.get(&id)
    }

    /// The registry always holds finitely many permuters.
    pub proof fn lemma_entries_finite(self)
        ensures
            self.entries().dom().finite(),
    {
        assert(self.permuters@.dom().finite());
    }

    /// Whether a permuter is registered under `id`.
    pub fn contains(&self, id: u64) -> (r: bool)
        ensures
            r == self.entries().contains_key(id),
    {
        self.permuters.contains_key(&id)
    }
}

} // verus!
