//! The endpoint cache: the last discovered endpoint, shared by the searches
//! of one client. A caller guards it with a lock held only while it reads or
//! writes the cell, never across a network call.
use vstd::prelude::*;
use crate::discovery::ApiKeys;

verus! {

/// The keys held by an optional cache cell, as values.
pub open spec fn keys_view(k: Option<ApiKeys>) -> Option<(Seq<char>, Seq<char>)> {
    match k {
        Some(k) => Some(k@),
        None => None,
    }
}

/// Holds the endpoint of the last successful discovery, or nothing.
pub struct EndpointCache {
    pub keys: Option<ApiKeys>,
}

impl View for EndpointCache {
    type V = Option<(Seq<char>, Seq<char>)>;

    open spec fn view(&self) -> Option<(Seq<char>, Seq<char>)> {
        keys_view(self.keys)
    }
}

impl EndpointCache {
    /// An empty cache: the endpoint is unresolved.
    pub fn new() -> (r: EndpointCache)
        ensures
            r@ is None,
    {
        EndpointCache { keys: None }
    }

    /// A copy of the cached keys, if any.
    pub fn lookup(&self) -> (r: Option<ApiKeys>)
        ensures
            keys_view(r) == self@,
    {
        match &self.keys {
            Some(k) => Some(k.duplicate()),
            None => None,
        }
    }

    /// Replaces the cached keys.
    pub fn store(&mut self, keys: ApiKeys)
        ensures
            final(self)@ == Some(keys@),
    {
        self.keys = Some(keys);
    }

    /// Forgets the cached keys.
    pub fn clear(&mut self)
        ensures
            final(self)@ is None,
    {
        self.keys = None;
    }
}

} // verus!
