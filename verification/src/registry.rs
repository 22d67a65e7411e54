//! The token registry: the mapping from handle to pending operation that
//! correlates an OS-level readiness event with the promise awaiting it.
//!
//! Handles come from a dedicated monotonically increasing counter, never from
//! the registry's current occupancy, so allocation stays collision-free as
//! operations are created and retired: every handle ever handed out is below
//! the counter, and a handle is never reused even after its operation has
//! been settled. The registry is generic in the pending payload, which in the
//! embedder is the promise capability owning the operation.

use vstd::prelude::*;
use std::collections::HashMap;

verus! {

broadcast use vstd::std_specs::hash::group_hash_axioms;

/// Bookkeeping for in-flight operations: a monotone handle counter, the
/// pending payload per live handle, and (in ghost state) every handle that
/// has already been settled.
pub struct TokenRegistry<P> {
    next_handle: u64,
    pending: HashMap<u64, P>,
    settled: Ghost<Set<u64>>,
}

impl<P> TokenRegistry<P> {
    /// The handle the next registration will receive.
    pub closed spec fn next(&self) -> u64 {
        self.next_handle
    }

    /// The pending operations, keyed by handle.
    pub closed spec fn pending_map(&self) -> Map<u64, P> {
        self.pending@
    }

    /// Every handle whose operation has already been settled.
    pub closed spec fn settled_set(&self) -> Set<u64> {
        self.settled@
    }

    /// Well-formedness: all handles ever seen lie below the counter, and no
    /// handle is pending and settled at once.
    pub closed spec fn wf(&self) -> bool {
        &&& forall|h: u64| #[trigger] self.pending@.contains_key(h) ==> h < self.next_handle
        &&& forall|h: u64| #[trigger] self.settled@.contains(h) ==> h < self.next_handle
        &&& forall|h: u64|
            #[trigger] self.pending@.contains_key(h) ==> !self.settled@.contains(h)
    }

    pub fn new() -> (registry: Self)
        ensures
            registry.wf(),
            registry.pending_map() == Map::<u64, P>::empty(),
            registry.settled_set() == Set::<u64>::empty(),
            registry.next() == 0,
    {
        TokenRegistry { next_handle: 0, pending: HashMap::new(), settled: Ghost(Set::empty()) }
    }

    /// Allocates a fresh handle and stores the pending operation under it.
    /// The handle collides with nothing: not with any currently pending
    /// operation, and not with any handle already settled and retired.
    pub fn register(&mut self, payload: P) -> (h: u64)
        requires
            old(self).wf(),
            old(self).next() < u64::MAX,
        ensures
            final(self).wf(),
            h == old(self).next(),
            !old(self).pending_map().contains_key(h),
            !old(self).settled_set().contains(h),
            final(self).pending_map() == old(self).pending_map().insert(h, payload),
            final(self).settled_set() == old(self).settled_set(),
            final(self).next() == old(self).next() + 1,
    {
        let h = self.next_handle;
        self.next_handle = self.next_handle + 1;
        self.pending.insert(h, payload);
        h
    }

    /// Whether `h` has a pending operation.
    pub fn contains(&self, h: u64) -> (present: bool)
        ensures
            present == self.pending_map().contains_key(h),
    {
        self.pending.contains_key(&h)
    }

    /// How many operations are in flight.
    pub fn pending_count(&self) -> (n: usize)
        ensures
            n == self.pending_map().len(),
    {
        self.pending.len()
    }

    /// The settlement path: removes the pending operation for `h`, marking
    /// the handle settled, and hands back its payload. `None` means the
    /// handle is unknown here — never registered, or already settled — so
    /// a settlement that did happen can never happen a second time.
    pub fn take(&mut self, h: u64) -> (r: Option<P>)
        requires
            old(self).wf(),
        ensures
            final(self).wf(),
            r matches Some(payload) ==> old(self).pending_map().contains_key(h)
                && payload == old(self).pending_map()[h],
            r is None ==> !old(self).pending_map().contains_key(h),
            final(self).pending_map() == old(self).pending_map().remove(h),
            !final(self).pending_map().contains_key(h),
            final(self).next() == old(self).next(),
            old(self).pending_map().contains_key(h) ==> final(self).settled_set()
                == old(self).settled_set().insert(h),
            !old(self).pending_map().contains_key(h) ==> final(self).settled_set()
                == old(self).settled_set(),
    {
        let r = self.pending.remove(&h);
        if r.is_some() {
            proof {
                self.settled@ = self.settled@.insert(h);
            }
        }
        r
    }
}

} // verus!
