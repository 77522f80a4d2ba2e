use dns_propagation::AttemptReport;
use dns_propagation::CheckerState;
use dns_propagation::DEFAULT_BACKOFF_MS;
use dns_propagation::DEFAULT_TIMEOUT_MS;
use dns_propagation::Ipv4;
use dns_propagation::LookupError;
use dns_propagation::LookupOutcome;
use dns_propagation::PropagationChecker;
use dns_propagation::check_dns_propagation;

#[test]
fn defaults_match_the_design() {
    assert_eq!(DEFAULT_BACKOFF_MS, 30_000);
    assert_eq!(DEFAULT_TIMEOUT_MS, 300_000);
    let c = PropagationChecker::new(5_000);
    assert_eq!(c.timeout_ms, 5_000);
    assert_eq!(c.backoff_ms, 30_000);
}

#[test]
fn immediate_success_with_short_budget() {
    // domain "sub.example.com", expected 203.0.113.10, one stub resolver
    // answering exactly that address, budget five seconds: the check
    // succeeds on the first attempt, at once.
    let expected = Ipv4::new(203, 0, 113, 10);
    let outcomes = vec![LookupOutcome::Success(vec![expected])];
    let agreed = check_dns_propagation(&outcomes, &expected);
    assert!(agreed);

    let checker = PropagationChecker::new(5_000);
    let run = checker.run_simulated(&vec![AttemptReport { agreed, duration_ms: 0 }]);
    assert!(run.succeeded);
    assert_eq!(run.attempts, 1);
    assert_eq!(run.finished_at_ms, 0);
}

#[test]
fn success_on_first_attempt_skips_backoff() {
    let checker = PropagationChecker::with_backoff(300_000, 30_000);
    let run = checker.run_simulated(&vec![AttemptReport { agreed: true, duration_ms: 250 }]);
    assert!(run.succeeded);
    assert_eq!(run.attempts, 1);
    assert_eq!(run.finished_at_ms, 250);
}

#[test]
fn empty_answers_for_whole_window_time_out() {
    // A stub answering an empty set for the whole window, budget 65 s,
    // backoff 30 s: attempts at 0 s, 30 s and 60 s, timed out at 65 s
    // because the last wait is capped at the rest of the budget.
    let checker = PropagationChecker::with_backoff(65_000, 30_000);
    let run = checker.run_simulated(&vec![]);
    assert!(!run.succeeded);
    assert_eq!(run.attempts, 3);
    assert_eq!(run.finished_at_ms, 65_000);
}

#[test]
fn transport_errors_behave_like_empty_answers() {
    let expected = Ipv4::new(203, 0, 113, 10);
    let erring = vec![LookupOutcome::Failure(LookupError::Unreachable)];
    let empty: Vec<LookupOutcome> = vec![LookupOutcome::Success(vec![])];

    let checker = PropagationChecker::with_backoff(65_000, 30_000);
    let from_errors: Vec<AttemptReport> = (0..3)
        .map(|_| AttemptReport {
            agreed: check_dns_propagation(&erring, &expected),
            duration_ms: 0,
        })
        .collect();
    let from_empty: Vec<AttemptReport> = (0..3)
        .map(|_| AttemptReport {
            agreed: check_dns_propagation(&empty, &expected),
            duration_ms: 0,
        })
        .collect();

    let run_errors = checker.run_simulated(&from_errors);
    let run_empty = checker.run_simulated(&from_empty);
    assert_eq!(run_errors, run_empty);
    assert!(!run_errors.succeeded);
    assert_eq!(run_errors.finished_at_ms, 65_000);
}

#[test]
fn repeated_runs_are_identical() {
    let checker = PropagationChecker::with_backoff(65_000, 30_000);
    let schedule = vec![
        AttemptReport { agreed: false, duration_ms: 120 },
        AttemptReport { agreed: false, duration_ms: 80 },
    ];
    let first = checker.run_simulated(&schedule);
    let second = checker.run_simulated(&schedule);
    assert_eq!(first, second);
}

#[test]
fn budget_shorter_than_one_query_round_still_times_out() {
    // The first attempt overshoots a one-second budget; the check ends
    // timed out right where the attempt finished, with no further round.
    let checker = PropagationChecker::with_backoff(1_000, 30_000);
    let run = checker.run_simulated(&vec![AttemptReport { agreed: false, duration_ms: 2_500 }]);
    assert!(!run.succeeded);
    assert_eq!(run.attempts, 1);
    assert_eq!(run.finished_at_ms, 2_500);
}

#[test]
fn timeout_never_reported_early() {
    let checker = PropagationChecker::with_backoff(10_000, 3_000);
    let schedule: Vec<AttemptReport> = (0..10)
        .map(|_| AttemptReport { agreed: false, duration_ms: 10 })
        .collect();
    let run = checker.run_simulated(&schedule);
    assert!(!run.succeeded);
    assert!(run.finished_at_ms >= 10_000);
}

#[test]
fn zero_budget_times_out_without_an_attempt() {
    let checker = PropagationChecker::new(0);
    let run = checker.run_simulated(&vec![AttemptReport { agreed: true, duration_ms: 0 }]);
    assert!(!run.succeeded);
    assert_eq!(run.attempts, 0);
    assert_eq!(run.finished_at_ms, 0);
}

#[test]
fn late_agreement_is_found_within_budget() {
    let checker = PropagationChecker::with_backoff(65_000, 30_000);
    let schedule = vec![
        AttemptReport { agreed: false, duration_ms: 0 },
        AttemptReport { agreed: false, duration_ms: 0 },
        AttemptReport { agreed: true, duration_ms: 40 },
    ];
    let run = checker.run_simulated(&schedule);
    assert!(run.succeeded);
    assert_eq!(run.attempts, 3);
    assert_eq!(run.finished_at_ms, 60_040);
}

#[test]
fn deadline_check_and_capped_backoff() {
    let checker = PropagationChecker::with_backoff(65_000, 30_000);
    assert!(!checker.deadline_elapsed(0));
    assert!(!checker.deadline_elapsed(64_999));
    assert!(checker.deadline_elapsed(65_000));
    assert!(checker.deadline_elapsed(90_000));
    assert_eq!(checker.backoff_wait(0), 30_000);
    assert_eq!(checker.backoff_wait(30_000), 30_000);
    assert_eq!(checker.backoff_wait(60_000), 5_000);
    assert_eq!(checker.backoff_wait(65_000), 0);
    assert_eq!(checker.backoff_wait(70_000), 0);
}

#[test]
fn step_transitions() {
    let checker = PropagationChecker::with_backoff(65_000, 30_000);
    assert_eq!(checker.step(CheckerState::Polling, 0, true), CheckerState::Succeeded);
    assert_eq!(checker.step(CheckerState::Polling, 0, false), CheckerState::Polling);
    assert_eq!(checker.step(CheckerState::Polling, 65_000, true), CheckerState::TimedOut);
    assert_eq!(checker.step(CheckerState::Succeeded, 90_000, false), CheckerState::Succeeded);
    assert_eq!(checker.step(CheckerState::TimedOut, 0, true), CheckerState::TimedOut);
}
