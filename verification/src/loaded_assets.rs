//! What the asset loader has finished loading, as the registry is told.

use std::collections::HashMap;
use vstd::prelude::*;
use crate::handle::RawHandle;

verus! {

broadcast use vstd::std_specs::hash::group_hash_axioms;

/// What the asset-loading subsystem has finished loading: for each load
/// handle whose load is complete, the handle of the resource it resolved
/// to. A load handle that is absent is still loading, or was never issued.
pub struct LoadedAssets {
    resolved: HashMap<u64, RawHandle>,
}

impl View for LoadedAssets {
    type V = Map<RawHandle, RawHandle>;

    closed spec fn view(&self) -> Map<RawHandle, RawHandle> {
        Map::new(
            |load_handle: RawHandle| self.resolved@.contains_key(load_handle.id),
            |load_handle: RawHandle| self.resolved@[load_handle.id],
        )
    }
}

impl LoadedAssets {
    /// Nothing has finished loading.
    pub fn new() -> (loaded: LoadedAssets)
        ensures
            (loaded@ == Map::<RawHandle, RawHandle>::empty()),
    {
        let loaded = LoadedAssets { resolved: HashMap::new() };
        assert(loaded@ =~= Map::<RawHandle, RawHandle>::empty());
        loaded
    }

    /// Records that the load behind `load_handle` has completed and
    /// resolved to `resource`. A later completion for the same load handle
    /// replaces the earlier one.
    pub fn insert(&mut self, load_handle: RawHandle, resource: RawHandle)
        ensures
            final(self)@ == old(self)@.insert(load_handle, resource),
    {
        self.resolved.insert(load_handle.id, resource);
        assert(self@ =~= old(self)@.insert(load_handle, resource));
    }

    /// Forgets the load behind `load_handle`, as when its resource is
    /// unloaded again.
    pub fn remove(&mut self, load_handle: RawHandle)
        ensures
            final(self)@ == old(self)@.remove(load_handle),
    {
        self.resolved.remove(&load_handle.id);
        assert(self@ =~= old(self)@.remove(load_handle));
    }

    /// The resource that `load_handle` resolved to, if its load is complete.
    pub fn get(&self, load_handle: RawHandle) -> (resource: Option<RawHandle>)
        ensures
            resource == (if self@.contains_key(load_handle) {
                Some(self@[load_handle])
            } else {
                None
            }),
    {
        match self.resolved.get(&load_handle.id) {
            Some(resource) => Some(*resource),
            None => None,
        }
    }

    /// Whether the load behind `load_handle` is complete.
    pub fn contains(&self, load_handle: RawHandle) -> (complete: bool)
        ensures
            complete == self@.contains_key(load_handle),
    {
        self.resolved.contains_key(&load_handle.id)
    }
}

} // verus!
