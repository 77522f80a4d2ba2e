//! Per-resolver lookup outcomes and the multi-resolver agreement rule.
//!
//! One DNS query against one resolver yields a [`LookupOutcome`]: either the
//! set of IPv4 addresses the resolver answered with (possibly empty — an
//! NXDOMAIN or empty answer is a successful, empty outcome, not an error) or
//! a resolution failure. A propagation attempt queries every configured
//! resolver and counts as agreed only when every outcome is a success whose
//! address set contains the expected address.

use vstd::prelude::*;

use crate::ip::Ipv4;

verus! {

/// The port DNS resolvers are queried on.
pub const DNS_PORT: u16 = 53;

/// Transport used to reach a resolver.
#[derive(Clone, Copy, Debug, PartialEq, Eq, Structural, Hash)]
pub enum Transport {
    Udp,
    Tcp,
}

/// A DNS server to query directly: its address and transport.
/// Read-only configuration, fixed before a check starts.
#[derive(Clone, Copy, Debug, PartialEq, Eq, Structural, Hash)]
pub struct ResolverEndpoint {
    pub address: Ipv4,
    pub transport: Transport,
}

/// Why a single lookup failed. All variants are folded into "not propagated
/// yet" by the checker; none aborts the polling loop. Deliberately, then, a
/// caller cannot tell a window in which every query failed in transport from
/// one in which the record genuinely never appeared: both end as a timeout.
#[derive(Clone, Copy, Debug, PartialEq, Eq, Structural, Hash)]
pub enum LookupError {
    /// The resolver could not be reached.
    Unreachable,
    /// The individual query's own short timeout elapsed.
    QueryTimeout,
    /// The response could not be interpreted.
    Malformed,
}

/// What one query against one resolver produced: the addresses it answered
/// with, or a failure. Zero addresses is a valid successful outcome.
#[derive(Clone, Debug)]
pub enum LookupOutcome {
    Success(Vec<Ipv4>),
    Failure(LookupError),
}

/// Whether an outcome confirms the expected address: it must be a success
/// whose address set contains the address. Failures never confirm.
pub open spec fn outcome_matches_spec(outcome: LookupOutcome, expected: Ipv4) -> bool {
    match outcome {
        LookupOutcome::Success(addrs) => addrs@.contains(expected),
        LookupOutcome::Failure(_) => false,
    }
}

/// Whether every outcome of one attempt confirms the expected address.
pub open spec fn all_agree(outcomes: Seq<LookupOutcome>, expected: Ipv4) -> bool {
    forall|i: int| 0 <= i < outcomes.len() ==> outcome_matches_spec(outcomes[i], expected)
}

/// The default resolver set: a single well-known public resolver,
/// 8.8.8.8 over UDP.
pub fn default_resolvers() -> (r: Vec<ResolverEndpoint>)
    ensures
        r@.len() == 1,
        r@[0] == (ResolverEndpoint {
            address: Ipv4 { o0: 8, o1: 8, o2: 8, o3: 8 },
            transport: Transport::Udp,
        }),
{
    let mut v: Vec<ResolverEndpoint> = Vec::new();
    v.push(ResolverEndpoint { address: Ipv4::new(8, 8, 8, 8), transport: Transport::Udp });
    v
}

/// Membership test over an answer's address set.
pub fn contains_addr(addrs: &Vec<Ipv4>, expected: &Ipv4) -> (found: bool)
    ensures
        found == addrs@.contains(*expected),
{
    let mut i: usize = 0;
    while i < addrs.len()
        invariant
            i <= addrs.len(),
            forall|k: int| 0 <= k < i ==> addrs@[k] != *expected,
        decreases addrs.len() - i,
    {
        if addrs[i] == *expected {
            assert(addrs@[i as int] == *expected);
            return true;
        }
        i += 1;
    }
    false
}

/// Whether one resolver's outcome confirms the expected address.
pub fn outcome_matches(outcome: &LookupOutcome, expected: &Ipv4) -> (m: bool)
    ensures
        m == outcome_matches_spec(*outcome, *expected),
{
    match outcome {
        LookupOutcome::Success(addrs) => contains_addr(addrs, expected),
        LookupOutcome::Failure(_) => false,
    }
}

/// Decides one propagation attempt: true iff every configured resolver's
/// outcome is a success containing the expected address. Outcomes are read
/// in configured order and the scan stops at the first disagreement.
pub fn check_dns_propagation(outcomes: &Vec<LookupOutcome>, expected: &Ipv4) -> (agreed: bool)
    ensures
        agreed == all_agree(outcomes@, *expected),
{
    let mut i: usize = 0;
    while i < outcomes.len()
        invariant
            i <= outcomes.len(),
            forall|k: int| 0 <= k < i ==> outcome_matches_spec(outcomes@[k], *expected),
        decreases outcomes.len() - i,
    {
        if !outcome_matches(&outcomes[i], expected) {
            assert(!outcome_matches_spec(outcomes@[i as int], *expected));
            return false;
        }
        i += 1;
    }
    true
}

/// One disagreeing resolver is enough to reject a whole attempt.
pub proof fn lemma_one_disagreement_fails_attempt(
    outcomes: Seq<LookupOutcome>,
    expected: Ipv4,
    k: int,
)
    requires
        0 <= k < outcomes.len(),
        !outcome_matches_spec(outcomes[k], expected),
    ensures
        !all_agree(outcomes, expected),
{
}

/// Disagreement degrades an attempt to "not propagated", never to an error:
/// with one resolver answering exactly the expected address and another
/// answering exactly some other address, the first outcome confirms, the
/// second does not, and the attempt as a whole is rejected.
pub proof fn lemma_disagreement_is_not_propagated(
    agreeing: Vec<Ipv4>,
    other_answer: Vec<Ipv4>,
    expected: Ipv4,
    other: Ipv4,
)
    requires
        agreeing@ == seq![expected],
        other_answer@ == seq![other],
        other != expected,
    ensures
        outcome_matches_spec(LookupOutcome::Success(agreeing), expected),
        !outcome_matches_spec(LookupOutcome::Success(other_answer), expected),
        !all_agree(
            seq![LookupOutcome::Success(agreeing), LookupOutcome::Success(other_answer)],
            expected,
        ),
{
    assert(agreeing@[0] == expected);
    assert(agreeing@.contains(expected));
    assert(forall|i: int| 0 <= i < other_answer@.len() ==> other_answer@[i] != expected);
    assert(!other_answer@.contains(expected));
    let pair = seq![
        LookupOutcome::Success(agreeing),
        LookupOutcome::Success(other_answer),
    ];
    assert(!outcome_matches_spec(pair[1], expected));
}

/// A resolution failure counts exactly like a successful answer with no
/// addresses: neither confirms the expected address.
pub proof fn lemma_failure_like_empty(
    empty_answer: Vec<Ipv4>,
    err: LookupError,
    expected: Ipv4,
)
    requires
        empty_answer@ == Seq::<Ipv4>::empty(),
    ensures
        outcome_matches_spec(LookupOutcome::Failure(err), expected)
            == outcome_matches_spec(LookupOutcome::Success(empty_answer), expected),
        !outcome_matches_spec(LookupOutcome::Failure(err), expected),
{
    assert(!empty_answer@.contains(expected));
}

} // verus!
