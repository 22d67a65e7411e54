//! The response store: the mapping from handle to completed result that
//! carries an operation's outcome across the worker/main thread boundary.
//!
//! A worker inserts exactly one response per handle immediately before it
//! raises the readiness signal; the settlement handler takes (removes, not
//! merely peeks at) the response when the reactor reports the handle ready.
//! The store itself is single-owner verified code; the embedder wraps one in
//! whatever mutual exclusion the thread boundary needs.

use vstd::prelude::*;
use std::collections::HashMap;
use crate::fs::FsResponse;

verus! {

broadcast use vstd::std_specs::hash::group_hash_axioms;

/// Mapping from handle to the completed result of its operation, written once
/// by a worker and consumed once by the main thread.
pub struct ResponseStore {
    responses: HashMap<u64, FsResponse>,
}

impl ResponseStore {
    /// The store abstracts to the map from handle to stored response.
    pub closed spec fn view(&self) -> Map<u64, FsResponse> {
        self.responses@
    }

    pub fn new() -> (store: Self)
        ensures
            store@ == Map::<u64, FsResponse>::empty(),
    {
        ResponseStore { responses: HashMap::new() }
    }

    pub fn contains(&self, token: u64) -> (present: bool)
        ensures
            present == self@.contains_key(token),
    {
        self.responses.contains_key(&token)
    }

    /// The write side: one insertion per handle, performed by the worker just
    /// before it signals readiness. A second insertion under the same handle
    /// would break the at-most-one-response invariant, so it is ruled out.
    pub fn insert(&mut self, token: u64, response: FsResponse)
        requires
            !old(self)@.contains_key(token),
        ensures
            final(self)@ == old(self)@.insert(token, response),
    {
        self.responses.insert(token, response);
    }

    /// The read side: the settlement path takes ownership of the response,
    /// leaving nothing behind. `None` means no response was ever stored for
    /// the handle, or it was already consumed.
    pub fn take(&mut self, token: u64) -> (r: Option<FsResponse>)
        ensures
            final(self)@ == old(self)@.remove(token),
            r matches Some(response) ==> old(self)@.contains_key(token)
                && response == old(self)@[token],
            r is None ==> !old(self)@.contains_key(token),
    {
        self.responses.remove(&token)
    }
}

} // verus!
