//! The propagation checker: a polling state machine under a time budget.
//!
//! One check owns a deadline (a fixed timeout counted from its start) and
//! repeats attempts until one agrees or the budget is spent. The deadline is
//! checked at the top of every attempt; a failed attempt is followed by a
//! fixed backoff wait, capped at what is left of the budget so the wait never
//! runs past the deadline. The clock is injectable: every function here takes
//! elapsed time as a plain value, and [`PropagationChecker::run_simulated`]
//! replays a whole check against a deterministic stub without real waiting.

use vstd::prelude::*;

use crate::dns::LookupOutcome;
use crate::dns::all_agree;
use crate::dns::lemma_one_disagreement_fails_attempt;
use crate::dns::outcome_matches_spec;
use crate::ip::Ipv4;

verus! {

/// Default wait between unsuccessful polling attempts: 30 seconds.
pub const DEFAULT_BACKOFF_MS: u64 = 30_000;

/// Default overall time budget of a check: 5 minutes.
pub const DEFAULT_TIMEOUT_MS: u64 = 300_000;

/// Upper bound on every duration handled here, so that sums of two
/// durations always fit in a `u64`.
pub const MAX_MS: u64 = 0x4000_0000_0000_0000;

/// Where one check stands: still polling, confirmed on every resolver, or
/// out of budget. The two last states are terminal and absorbing.
#[derive(Clone, Copy, Debug, PartialEq, Eq, Structural, Hash)]
pub enum CheckerState {
    Polling,
    Succeeded,
    TimedOut,
}

/// What one polling attempt did, as seen by a simulated clock: whether every
/// resolver agreed, and how long the query round took.
#[derive(Clone, Copy, Debug, PartialEq, Eq, Structural)]
pub struct AttemptReport {
    pub agreed: bool,
    pub duration_ms: u64,
}

/// The mathematical outcome of a whole check: whether it succeeded, how many
/// attempts ran, and the elapsed time at which it finished.
pub struct RunModel {
    pub succeeded: bool,
    pub attempts: int,
    pub finished_at_ms: int,
}

/// The outcome of a simulated check.
#[derive(Clone, Copy, Debug, PartialEq, Eq, Structural)]
pub struct RunOutcome {
    pub succeeded: bool,
    pub attempts: u64,
    pub finished_at_ms: u64,
}

impl View for RunOutcome {
    type V = RunModel;

    open spec fn view(&self) -> RunModel {
        RunModel {
            succeeded: self.succeeded,
            attempts: self.attempts as int,
            finished_at_ms: self.finished_at_ms as int,
        }
    }
}

/// Whether attempt `i` of a stubbed run agrees. Past the end of the stub's
/// script the resolvers keep disagreeing.
pub open spec fn attempt_agreed_at(schedule: Seq<AttemptReport>, i: int) -> bool {
    if 0 <= i < schedule.len() {
        schedule[i].agreed
    } else {
        false
    }
}

/// How long attempt `i` of a stubbed run takes. Past the end of the stub's
/// script attempts are instant.
pub open spec fn attempt_duration_at(schedule: Seq<AttemptReport>, i: int) -> int {
    if 0 <= i < schedule.len() {
        schedule[i].duration_ms as int
    } else {
        0
    }
}

/// Termination measure of a run: the budget still left.
pub open spec fn run_measure(timeout_ms: int, elapsed_ms: int) -> nat {
    if elapsed_ms <= timeout_ms {
        (timeout_ms - elapsed_ms) as nat
    } else {
        0
    }
}

/// The fixed configuration of one check: the overall budget and the wait
/// between unsuccessful attempts.
#[derive(Clone, Copy, Debug, PartialEq, Eq, Structural)]
pub struct PropagationChecker {
    pub timeout_ms: u64,
    pub backoff_ms: u64,
}

impl PropagationChecker {
    /// Well-formed configuration: a positive backoff (so a run of failed
    /// attempts always spends budget) and durations within [`MAX_MS`].
    pub open spec fn wf(self) -> bool {
        &&& 1 <= self.backoff_ms
        &&& self.backoff_ms <= MAX_MS
        &&& self.timeout_ms <= MAX_MS
    }

    /// A checker with the given budget and the default backoff.
    pub fn new(timeout_ms: u64) -> (c: PropagationChecker)
        requires
            timeout_ms <= MAX_MS,
        ensures
            c == (PropagationChecker { timeout_ms, backoff_ms: DEFAULT_BACKOFF_MS }),
            c.wf(),
    {
        PropagationChecker { timeout_ms, backoff_ms: DEFAULT_BACKOFF_MS }
    }

    /// A checker with the given budget and backoff.
    pub fn with_backoff(timeout_ms: u64, backoff_ms: u64) -> (c: PropagationChecker)
        requires
            timeout_ms <= MAX_MS,
            1 <= backoff_ms <= MAX_MS,
        ensures
            c == (PropagationChecker { timeout_ms, backoff_ms }),
            c.wf(),
    {
        PropagationChecker { timeout_ms, backoff_ms }
    }

    /// The deadline check made at the top of every attempt.
    pub fn deadline_elapsed(&self, elapsed_ms: u64) -> (over: bool)
        ensures
            over == (elapsed_ms >= self.timeout_ms),
    {
        elapsed_ms >= self.timeout_ms
    }

    /// How long to wait after an attempt that failed at `elapsed_ms`: the
    /// fixed backoff, capped at what is left of the budget.
    pub open spec fn spec_backoff_wait(self, elapsed_ms: int) -> int {
        if elapsed_ms >= self.timeout_ms {
            0
        } else if self.backoff_ms <= self.timeout_ms - elapsed_ms {
            self.backoff_ms as int
        } else {
            self.timeout_ms - elapsed_ms
        }
    }

    /// See [`Self::spec_backoff_wait`].
    pub fn backoff_wait(&self, elapsed_ms: u64) -> (wait: u64)
        ensures
            wait == self.spec_backoff_wait(elapsed_ms as int),
    {
        if elapsed_ms >= self.timeout_ms {
            0
        } else if self.backoff_ms <= self.timeout_ms - elapsed_ms {
            self.backoff_ms
        } else {
            self.timeout_ms - elapsed_ms
        }
    }

    /// One transition of the state machine, decided from the elapsed time at
    /// the top of an attempt and, where the attempt ran, whether every
    /// resolver agreed. The deadline takes priority: once the budget is
    /// spent no further attempt is considered.
    pub open spec fn spec_step(
        self,
        state: CheckerState,
        elapsed_ms: int,
        attempt_agreed: bool,
    ) -> CheckerState {
        match state {
            CheckerState::Polling => if elapsed_ms >= self.timeout_ms {
                CheckerState::TimedOut
            } else if attempt_agreed {
                CheckerState::Succeeded
            } else {
                CheckerState::Polling
            },
            terminal => terminal,
        }
    }

    /// See [`Self::spec_step`].
    pub fn step(
        &self,
        state: CheckerState,
        elapsed_ms: u64,
        attempt_agreed: bool,
    ) -> (next: CheckerState)
        ensures
            next == self.spec_step(state, elapsed_ms as int, attempt_agreed),
    {
        match state {
            CheckerState::Polling => if elapsed_ms >= self.timeout_ms {
                CheckerState::TimedOut
            } else if attempt_agreed {
                CheckerState::Succeeded
            } else {
                CheckerState::Polling
            },
            CheckerState::Succeeded => CheckerState::Succeeded,
            CheckerState::TimedOut => CheckerState::TimedOut,
        }
    }

    /// The whole check, unrolled against a stub, starting from attempt `i`
    /// at time `elapsed_ms`: check the deadline, run the attempt, stop on
    /// agreement, otherwise wait the capped backoff and go round again.
    /// An ill-formed configuration (a zero backoff would never spend budget)
    /// is cut off at once to keep the definition total.
    pub open spec fn spec_run_from(
        self,
        schedule: Seq<AttemptReport>,
        i: int,
        elapsed_ms: int,
    ) -> RunModel
        decreases run_measure(self.timeout_ms as int, elapsed_ms),
    {
        if !self.wf() {
            RunModel { succeeded: false, attempts: i, finished_at_ms: elapsed_ms }
        } else if elapsed_ms >= self.timeout_ms {
            RunModel { succeeded: false, attempts: i, finished_at_ms: elapsed_ms }
        } else {
            let after = elapsed_ms + attempt_duration_at(schedule, i);
            if attempt_agreed_at(schedule, i) {
                RunModel { succeeded: true, attempts: i + 1, finished_at_ms: after }
            } else {
                self.spec_run_from(schedule, i + 1, after + self.spec_backoff_wait(after))
            }
        }
    }

    /// A whole check from its start.
    pub open spec fn spec_run(self, schedule: Seq<AttemptReport>) -> RunModel {
        self.spec_run_from(schedule, 0, 0)
    }

    /// Replays a whole check against a deterministic stub, with a simulated
    /// clock: `schedule[i]` says what attempt `i` did; attempts past the end
    /// of the schedule disagree instantly. No real time passes.
    pub fn run_simulated(&self, schedule: &Vec<AttemptReport>) -> (r: RunOutcome)
        requires
            self.wf(),
            forall|k: int| 0 <= k < schedule@.len() ==> schedule@[k].duration_ms <= MAX_MS,
        ensures
            r@ == self.spec_run(schedule@),
    {
        let mut elapsed: u64 = 0;
        let mut attempts: u64 = 0;
        loop
            invariant
                self.wf(),
                forall|k: int| 0 <= k < schedule@.len() ==> schedule@[k].duration_ms <= MAX_MS,
                elapsed <= 2 * MAX_MS,
                attempts <= elapsed + 1,
                self.spec_run(schedule@) == self.spec_run_from(
                    schedule@,
                    attempts as int,
                    elapsed as int,
                ),
            decreases run_measure(self.timeout_ms as int, elapsed as int),
        {
            let (agreed, duration_ms): (bool, u64) = if attempts < schedule.len() as u64 {
                let rep = schedule[attempts as usize];
                (rep.agreed, rep.duration_ms)
            } else {
                (false, 0)
            };
            assert(agreed == attempt_agreed_at(schedule@, attempts as int));
            assert(duration_ms == attempt_duration_at(schedule@, attempts as int));
            match self.step(CheckerState::Polling, elapsed, agreed) {
                CheckerState::TimedOut => {
                    return RunOutcome { succeeded: false, attempts, finished_at_ms: elapsed };
                },
                CheckerState::Succeeded => {
                    return RunOutcome {
                        succeeded: true,
                        attempts: attempts + 1,
                        finished_at_ms: elapsed + duration_ms,
                    };
                },
                CheckerState::Polling => {
                    elapsed = elapsed + duration_ms;
                    attempts = attempts + 1;
                    elapsed = elapsed + self.backoff_wait(elapsed);
                },
            }
        }
    }
}

/// Agreement on the first attempt ends the check at once: it succeeds on
/// that attempt alone, at the attempt's own duration, with no backoff wait.
pub proof fn lemma_success_on_first_attempt(c: PropagationChecker, schedule: Seq<AttemptReport>)
    requires
        c.wf(),
        1 <= c.timeout_ms,
        1 <= schedule.len(),
        schedule[0].agreed,
    ensures
        c.spec_run(schedule) == (RunModel {
            succeeded: true,
            attempts: 1,
            finished_at_ms: schedule[0].duration_ms as int,
        }),
{
}

/// When every resolver's outcome on the first attempt confirms the expected
/// address, that attempt agrees and the whole check succeeds at once: one
/// attempt, no backoff wait, finished the moment the query round ends.
pub proof fn lemma_all_agree_succeeds_first_attempt(
    c: PropagationChecker,
    outcomes: Seq<LookupOutcome>,
    expected: Ipv4,
    schedule: Seq<AttemptReport>,
)
    requires
        c.wf(),
        1 <= c.timeout_ms,
        1 <= schedule.len(),
        forall|i: int| 0 <= i < outcomes.len() ==> outcome_matches_spec(outcomes[i], expected),
        schedule[0].agreed == all_agree(outcomes, expected),
    ensures
        c.spec_run(schedule) == (RunModel {
            succeeded: true,
            attempts: 1,
            finished_at_ms: schedule[0].duration_ms as int,
        }),
{
    assert(all_agree(outcomes, expected));
    lemma_success_on_first_attempt(c, schedule);
}

/// One resolver that never confirms the expected address makes every
/// attempt disagree, so the check ends timed out — and never before the
/// whole budget has elapsed. `rounds[k]` is what the resolvers answered on
/// attempt `k`, and `j` names the disagreeing resolver.
pub proof fn lemma_persistent_disagreement_times_out(
    c: PropagationChecker,
    rounds: Seq<Seq<LookupOutcome>>,
    expected: Ipv4,
    j: int,
    schedule: Seq<AttemptReport>,
)
    requires
        c.wf(),
        schedule.len() == rounds.len(),
        forall|k: int| #![trigger rounds[k]]
            0 <= k < rounds.len() ==> 0 <= j < rounds[k].len() && !outcome_matches_spec(
                rounds[k][j],
                expected,
            ),
        forall|k: int| #![trigger schedule[k]]
            0 <= k < schedule.len() ==> schedule[k].agreed == all_agree(rounds[k], expected),
    ensures
        !c.spec_run(schedule).succeeded,
        c.spec_run(schedule).finished_at_ms >= c.timeout_ms,
{
    assert forall|k: int| 0 <= k < schedule.len() implies !schedule[k].agreed by {
        lemma_one_disagreement_fails_attempt(rounds[k], expected, j);
    }
    lemma_timeout_never_early(c, schedule);
}

/// A check in which no attempt ever agrees ends in a timeout, and never
/// before the whole budget has elapsed.
pub proof fn lemma_timeout_never_early(c: PropagationChecker, schedule: Seq<AttemptReport>)
    requires
        c.wf(),
        forall|k: int| 0 <= k < schedule.len() ==> !schedule[k].agreed,
    ensures
        !c.spec_run(schedule).succeeded,
        c.spec_run(schedule).finished_at_ms >= c.timeout_ms,
{
    lemma_timeout_never_early_from(c, schedule, 0, 0);
}

/// Induction step of [`lemma_timeout_never_early`], from any attempt index
/// and elapsed time.
proof fn lemma_timeout_never_early_from(
    c: PropagationChecker,
    schedule: Seq<AttemptReport>,
    i: int,
    elapsed_ms: int,
)
    requires
        c.wf(),
        forall|k: int| 0 <= k < schedule.len() ==> !schedule[k].agreed,
    ensures
        !c.spec_run_from(schedule, i, elapsed_ms).succeeded,
        c.spec_run_from(schedule, i, elapsed_ms).finished_at_ms >= if elapsed_ms
            >= c.timeout_ms {
            elapsed_ms
        } else {
            c.timeout_ms as int
        },
    decreases run_measure(c.timeout_ms as int, elapsed_ms),
{
    if elapsed_ms >= c.timeout_ms {
    } else {
        let after = elapsed_ms + attempt_duration_at(schedule, i);
        assert(!attempt_agreed_at(schedule, i));
        lemma_timeout_never_early_from(c, schedule, i + 1, after + c.spec_backoff_wait(after));
    }
}

/// A check is a pure function of its configuration and its resolvers'
/// behaviour: two runs with identical inputs give identical outcomes.
pub proof fn lemma_run_deterministic(
    c: PropagationChecker,
    schedule: Seq<AttemptReport>,
    first: RunOutcome,
    second: RunOutcome,
)
    requires
        first@ == c.spec_run(schedule),
        second@ == c.spec_run(schedule),
    ensures
        first == second,
{
    assert(first.attempts as int == second.attempts as int);
    assert(first.finished_at_ms as int == second.finished_at_ms as int);
}

/// A budget shorter than the first query round still times out rather than
/// hanging: the one attempt runs, overshoots the deadline, and the check
/// ends timed out right where that attempt finished.
pub proof fn lemma_short_budget_single_attempt(
    c: PropagationChecker,
    schedule: Seq<AttemptReport>,
)
    requires
        c.wf(),
        1 <= c.timeout_ms,
        1 <= schedule.len(),
        !schedule[0].agreed,
        schedule[0].duration_ms >= c.timeout_ms,
    ensures
        c.spec_run(schedule) == (RunModel {
            succeeded: false,
            attempts: 1,
            finished_at_ms: schedule[0].duration_ms as int,
        }),
{
    let after = 0 + attempt_duration_at(schedule, 0);
    assert(c.spec_backoff_wait(after) == 0);
    assert(c.spec_run_from(schedule, 1, after) == (RunModel {
        succeeded: false,
        attempts: 1,
        finished_at_ms: after,
    }));
}

} // verus!
