//! The provider-API identity: a client value holding the caller's API key.
//!
//! All traffic to the provider (listing domains and records, creating
//! records) is thin HTTP glue and happens outside the library; the verified
//! core only keeps the key and hands it out unchanged.

use vstd::prelude::*;

verus! {

/// A handle on the provider API, configured with the caller's API key.
pub struct Godaddy {
    api_key: String,
}

impl Godaddy {
    /// A client that will authenticate with the given key.
    pub fn new(api_key: String) -> (c: Godaddy)
        ensures
            c.key_view() == api_key@,
    {
        Godaddy { api_key }
    }

    /// The key as the contracts see it.
    pub closed spec fn key_view(&self) -> Seq<char> {
        self.api_key@
    }

    /// The key, unchanged, for building request headers.
    pub fn api_key(&self) -> (k: &String)
        ensures
            k@ == self.key_view(),
    {
        &self.api_key
    }
}

} // verus!
