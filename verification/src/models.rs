//! Plain data carried between the library and the provider API: domains,
//! listed records, and the body of a record-creation request.

use vstd::prelude::*;

verus! {

/// The TTL, in seconds, given to every record the creation flow submits.
pub const DEFAULT_TTL: u32 = 3600;

/// A domain as the provider lists it.
#[derive(Clone, Debug)]
pub struct Domain {
    pub domain: String,
}

/// A DNS record as the provider lists it.
#[derive(Clone, Debug)]
pub struct Record {
    pub name: String,
    pub record_type: String,
    pub data: String,
}

/// The body of a record-creation request: the address to point at, and its
/// TTL.
#[derive(Clone, Debug)]
pub struct DnsRecord {
    pub data: String,
    pub ttl: u32,
}

impl DnsRecord {
    /// The record the creation flow submits: the given address text with the
    /// default TTL.
    pub fn new(data: String) -> (r: DnsRecord)
        ensures
            r.data@ == data@,
            r.ttl == DEFAULT_TTL,
    {
        DnsRecord { data, ttl: DEFAULT_TTL }
    }
}

} // verus!
