use vstd::prelude::*;

use core::marker::PhantomData;
use std::collections::HashSet;

verus! {

broadcast use vstd::std_specs::hash::group_hash_axioms;

/// An opaque machine-word handle value produced by the native library.
///
/// Nothing about its bit pattern is meaningful to this layer; its only
/// property of interest is whether it is currently registered as live.
pub type Handle = u64;

/// The set of currently-live handles of resource kind `K`, the kind
/// parameter keeping handles of different kinds from ever colliding.
///
/// The registry owns no native resources; it is pure bookkeeping.  Its
/// invariant: a handle is a member if and only if it was tracked by a
/// successful create and has not since been untracked by a destroy.
/// Callers that share one registry across threads place it behind a
/// mutual-exclusion lock held for the full duration of each operation;
/// every operation is a single set insert, remove or lookup.
#[verifier::reject_recursive_types(K)]
pub struct HandleRegistry<K> {
    live: HashSet<u64>,
    kind: PhantomData<K>,
}

impl<K> View for HandleRegistry<K> {
    type V = Set<u64>;

    closed spec fn view(&self) -> Set<u64> {
        self.live@
    }
}

impl<K> HandleRegistry<K> {
    /// A registry with no live handles.
    pub fn new() -> (registry: Self)
        ensures
            registry@ == Set::<u64>::empty(),
    {
        HandleRegistry { live: HashSet::new(), kind: PhantomData }
    }

    /// Record `handle` as live.
    ///
    /// The handle must have just been produced by a successful native
    /// create call; a handle that is already present would mean the native
    /// library reused a live handle, a logic fault in the caller rather
    /// than a recoverable error, so it is excluded by precondition.
    pub fn track(&mut self, handle: Handle)
        requires
            !old(self)@.contains(handle),
        ensures
            final(self)@ == old(self)@.insert(handle),
    {
        self.live.insert(handle);
    }

    /// Remove `handle` from the live set.
    ///
    /// The handle must be present: untracking an absent handle would mean
    /// a destroy of something never created, or destroyed twice.
    pub fn untrack(&mut self, handle: Handle)
        requires
            old(self)@.contains(handle),
        ensures
            final(self)@ == old(self)@.remove(handle),
    {
        self.live.remove(&handle);
    }

    /// Non-mutating liveness check: the defensive test made before any
    /// operation is issued against a handle, to fail fast on
    /// use-after-destroy rather than hand the native library a stale handle.
    pub fn is_live(&self, handle: Handle) -> (present: bool)
        ensures
            present == self@.contains(handle),
    {
        self.live.contains(&handle)
    }

    /// How many handles are currently live.
    pub fn len(&self) -> (n: usize)
        ensures
            n == self@.len(),
    {
        self.live.len()
    }
}

} // verus!
