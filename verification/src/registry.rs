//! The capability registry: a concurrent store mapping rendezvous keys to
//! capability handles, with single-flight insertion.
//!
//! The store itself is dashmap's shard-locked hash map, taken on trust; its
//! contents are named by [`map_contents`], and every access goes through
//! the wrappers below. Everything built on top is verified against their
//! contracts.

use vstd::prelude::*;
use crate::anchor::RendezvousKey;
use crate::handle::CapabilityHandle;

verus! {

/// The empty mapping: what a fresh registry holds.
pub open spec fn empty_contents() -> Map<RendezvousKey, CapabilityHandle> {
    Map::empty()
}

/// dashmap's shard-locked concurrent hash map, the store behind the
/// registry. Opaque to the verifier: what it holds is named by
/// [`map_contents`], and only the trusted wrappers below say how each
/// operation reads or changes it.
#[verifier::external_type_specification]
#[verifier::external_body]
#[verifier::reject_recursive_types(K)]
#[verifier::reject_recursive_types(V)]
#[verifier::reject_recursive_types(S)]
pub struct ExDashMap<K, V, S>(dashmap::DashMap<K, V, S>);

/// The key-to-handle mapping a dashmap currently holds. Named rather than
/// defined: the store is dashmap's, and only the trusted wrappers below say
/// how each operation reads or changes it.
pub uninterp spec fn map_contents(
    m: dashmap::DashMap<RendezvousKey, CapabilityHandle>,
) -> Map<RendezvousKey, CapabilityHandle>;

/// The concurrent key-to-handle store. Keys are unique, at most one handle
/// per key at any time; no operation removes an entry. The inner map shards
/// its keys, so operations on unrelated keys never contend on one lock.
pub struct Registry {
    /// The trusted store; verified code reads and changes it only through
    /// the wrappers below.
    pub inner: dashmap::DashMap<RendezvousKey, CapabilityHandle>,
}

impl Registry {
    /// The mapping this registry currently holds.
    pub open spec fn contents(self) -> Map<RendezvousKey, CapabilityHandle> {
        map_contents(self.inner)
    }

    /// Relies on `dashmap::DashMap::new`: the freshly created map is empty.
    #[verifier::external_body]
    pub fn new() -> (reg: Registry)
        ensures
            map_contents(reg.inner) == empty_contents(),
    {
        Registry { inner: dashmap::DashMap::new() }
    }

    /// Insert `handle` at `key` only if `key` is vacant; report whether the
    /// insertion happened.
    ///
    /// Relies on dashmap's entry API: `DashMap::entry` locks the key's shard,
    /// so the vacancy test and the insertion are one atomic step — under
    /// concurrent calls on the same key exactly one caller finds it vacant.
    /// `VacantEntry::insert` adds the pair; an occupied entry is left as it
    /// was, so a stored handle is never overwritten.
    #[verifier::external_body]
    pub fn try_insert(&mut self, key: RendezvousKey, handle: CapabilityHandle) -> (inserted: bool)
        ensures
            inserted == !map_contents(old(self).inner).dom().contains(key),
            map_contents(final(self).inner) == if inserted {
                map_contents(old(self).inner).insert(key, handle)
            } else {
                map_contents(old(self).inner)
            },
    {
        match self.inner.entry(key) {
            dashmap::Entry::Occupied(_) => false,
            dashmap::Entry::Vacant(entry) => {
                entry.insert(handle);
                true
            },
        }
    }

    /// Return a clone of the handle stored at `key`, if any, without
    /// changing the registry.
    ///
    /// Relies on `dashmap::DashMap::get`: it yields the value stored at the
    /// key, or nothing if the key is vacant. The stored handle is cloned to
    /// leave the shard guard behind, and a clone of a capability handle is
    /// the same shared reference.
    #[verifier::external_body]
    pub fn lookup(&self, key: RendezvousKey) -> (found: Option<CapabilityHandle>)
        ensures
            found == if map_contents(self.inner).dom().contains(key) {
                Some(map_contents(self.inner)[key])
            } else {
                None::<CapabilityHandle>
            },
    {
        self.inner.get(&key).map(|entry| entry.value().clone())
    }
}

} // verus!
