use dns_propagation::DNS_PORT;
use dns_propagation::Ipv4;
use dns_propagation::LookupError;
use dns_propagation::LookupOutcome;
use dns_propagation::Transport;
use dns_propagation::check_dns_propagation;
use dns_propagation::contains_addr;
use dns_propagation::default_resolvers;
use dns_propagation::outcome_matches;

#[test]
fn address_set_membership() {
    let expected = Ipv4::new(203, 0, 113, 10);
    let other = Ipv4::new(198, 51, 100, 7);
    assert!(contains_addr(&vec![expected], &expected));
    assert!(contains_addr(&vec![other, expected], &expected));
    assert!(!contains_addr(&vec![other], &expected));
    assert!(!contains_addr(&vec![], &expected));
}

#[test]
fn success_confirms_only_with_expected_address() {
    let expected = Ipv4::new(203, 0, 113, 10);
    let other = Ipv4::new(198, 51, 100, 7);
    assert!(outcome_matches(&LookupOutcome::Success(vec![expected]), &expected));
    assert!(outcome_matches(&LookupOutcome::Success(vec![other, expected]), &expected));
    assert!(!outcome_matches(&LookupOutcome::Success(vec![other]), &expected));
    assert!(!outcome_matches(&LookupOutcome::Success(vec![]), &expected));
}

#[test]
fn failures_never_confirm() {
    let expected = Ipv4::new(203, 0, 113, 10);
    assert!(!outcome_matches(&LookupOutcome::Failure(LookupError::Unreachable), &expected));
    assert!(!outcome_matches(&LookupOutcome::Failure(LookupError::QueryTimeout), &expected));
    assert!(!outcome_matches(&LookupOutcome::Failure(LookupError::Malformed), &expected));
}

#[test]
fn attempt_agrees_when_every_resolver_confirms() {
    let expected = Ipv4::new(203, 0, 113, 10);
    let outcomes = vec![
        LookupOutcome::Success(vec![expected]),
        LookupOutcome::Success(vec![Ipv4::new(1, 1, 1, 1), expected]),
    ];
    assert!(check_dns_propagation(&outcomes, &expected));
}

#[test]
fn disagreement_yields_not_propagated_not_error() {
    let expected = Ipv4::new(203, 0, 113, 10);
    let other = Ipv4::new(198, 51, 100, 7);
    let outcomes = vec![
        LookupOutcome::Success(vec![expected]),
        LookupOutcome::Success(vec![other]),
    ];
    assert!(!check_dns_propagation(&outcomes, &expected));
}

#[test]
fn transport_failure_counts_like_empty_answer() {
    let expected = Ipv4::new(203, 0, 113, 10);
    let failing = vec![LookupOutcome::Failure(LookupError::Unreachable)];
    let empty = vec![LookupOutcome::Success(vec![])];
    assert_eq!(
        check_dns_propagation(&failing, &expected),
        check_dns_propagation(&empty, &expected),
    );
    assert!(!check_dns_propagation(&failing, &expected));
}

#[test]
fn empty_resolver_set_agrees_vacuously() {
    let expected = Ipv4::new(203, 0, 113, 10);
    assert!(check_dns_propagation(&vec![], &expected));
}

#[test]
fn default_resolver_set_is_one_public_resolver() {
    let resolvers = default_resolvers();
    assert_eq!(resolvers.len(), 1);
    assert_eq!(resolvers[0].address, Ipv4::new(8, 8, 8, 8));
    assert_eq!(resolvers[0].transport, Transport::Udp);
    assert_eq!(DNS_PORT, 53);
}
