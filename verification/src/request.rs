//! Eager validation of a propagation-check request.
//!
//! A malformed domain name or expected-address text is a caller-visible
//! configuration error, rejected here before any polling starts; it is never
//! a retryable condition.

use vstd::prelude::*;

use crate::domain::is_valid_domain;
use crate::domain::valid_domain;
use crate::ip::Ipv4;
use crate::ip::parse_ipv4;
use crate::ip::spec_parse_ipv4;

verus! {

/// Why a request was rejected before polling.
#[derive(Clone, Copy, Debug, PartialEq, Eq, Structural, Hash)]
pub enum ConfigError {
    /// The domain name is not syntactically valid.
    InvalidDomain,
    /// The expected-address text is not dotted-quad notation.
    InvalidAddress,
}

/// A validated request: a syntactically valid name and the address it is
/// expected to resolve to.
#[derive(Clone, Debug)]
pub struct CheckRequest {
    pub domain: Vec<u8>,
    pub expected: Ipv4,
}

impl CheckRequest {
    /// What every constructed request satisfies.
    pub open spec fn wf(self) -> bool {
        valid_domain(self.domain@)
    }
}

/// Validates a request. Returns the request exactly when the name is valid
/// and the address text parses; otherwise says which input was rejected,
/// the name being checked first.
pub fn prepare_check(domain: Vec<u8>, expected_text: &Vec<u8>) -> (r: Result<
    CheckRequest,
    ConfigError,
>)
    ensures
        r is Ok <==> valid_domain(domain@) && spec_parse_ipv4(expected_text@) is Some,
        r is Ok ==> r->Ok_0.domain@ == domain@ && spec_parse_ipv4(expected_text@) == Some(
            r->Ok_0.expected,
        ) && r->Ok_0.wf(),
        !valid_domain(domain@) ==> r == Err::<CheckRequest, ConfigError>(
            ConfigError::InvalidDomain,
        ),
        valid_domain(domain@) && spec_parse_ipv4(expected_text@) is None ==> r == Err::<
            CheckRequest,
            ConfigError,
        >(ConfigError::InvalidAddress),
{
    if !is_valid_domain(&domain) {
        return Err(ConfigError::InvalidDomain);
    }
    match parse_ipv4(expected_text) {
        Some(expected) => Ok(CheckRequest { domain, expected }),
        None => Err(ConfigError::InvalidAddress),
    }
}

} // verus!
