//! A suite of experiments: what is counted and when it stops.

use vstd::prelude::*;
use crate::error::SimuForgeError;
use crate::report::ReportStatus;

verus! {

/// What a suite came to.
#[derive(Clone, Copy, Debug, PartialEq, Eq, Structural)]
pub struct SuiteSummary {
    /// Experiments whose report passed.
    pub passed: usize,
    /// Experiments whose report failed.
    pub failed: usize,
    /// Experiments that gave no report.
    pub errors: usize,
    /// Experiments that were run, whatever they came to.
    pub attempted: usize,
}

/// Whether the experiment passed.
pub open spec fn is_pass(outcome: Result<ReportStatus, SimuForgeError>) -> bool {
    outcome matches Ok(ReportStatus::Passed)
}

/// Whether the experiment failed.
pub open spec fn is_fail(outcome: Result<ReportStatus, SimuForgeError>) -> bool {
    outcome matches Ok(ReportStatus::Failed)
}

/// Whether the experiment gave no report.
pub open spec fn is_error(outcome: Result<ReportStatus, SimuForgeError>) -> bool {
    outcome is Err
}

/// Whether a suite that fails fast stops after this outcome.
pub open spec fn halts(outcome: Result<ReportStatus, SimuForgeError>) -> bool {
    is_fail(outcome) || is_error(outcome)
}

/// How many of `outcomes` meet `kind`.
pub open spec fn count_of(
    outcomes: Seq<Result<ReportStatus, SimuForgeError>>,
    kind: spec_fn(Result<ReportStatus, SimuForgeError>) -> bool,
) -> nat
    decreases outcomes.len(),
{
    if outcomes.len() == 0 {
        0
    } else {
        count_of(outcomes.drop_last(), kind) + if kind(outcomes.last()) {
            1nat
        } else {
            0nat
        }
    }
}

/// No more outcomes meet a condition than there are outcomes.
pub proof fn lemma_count_bounded(
    outcomes: Seq<Result<ReportStatus, SimuForgeError>>,
    kind: spec_fn(Result<ReportStatus, SimuForgeError>) -> bool,
)
    ensures
        count_of(outcomes, kind) <= outcomes.len(),
    decreases outcomes.len(),
{
    if outcomes.len() > 0 {
        lemma_count_bounded(outcomes.drop_last(), kind);
    }
}

impl SuiteSummary {
    /// The summary of the experiments run so far, `outcomes` in their order.
    pub open spec fn counts(&self, outcomes: Seq<Result<ReportStatus, SimuForgeError>>) -> bool {
        &&& self.attempted == outcomes.len()
        &&& self.passed == count_of(outcomes, |o| is_pass(o))
        &&& self.failed == count_of(outcomes, |o| is_fail(o))
        &&& self.errors == count_of(outcomes, |o| is_error(o))
    }

    /// The summary of a suite before its first experiment.
    pub fn new() -> (s: SuiteSummary)
        ensures
            s == (SuiteSummary { passed: 0, failed: 0, errors: 0, attempted: 0 }),
    {
        SuiteSummary { passed: 0, failed: 0, errors: 0, attempted: 0 }
    }

    /// Whether the counts can be those of a suite: no more experiments
    /// counted than run.
    pub open spec fn wf(&self) -> bool {
        self.passed + self.failed + self.errors <= self.attempted
    }

    /// Counts one more experiment. Returns whether a suite that fails fast
    /// stops here: after a failed report or an error. A report that neither
    /// passed nor failed counts as run and as nothing else.
    pub fn record(&mut self, outcome: &Result<ReportStatus, SimuForgeError>) -> (stop: bool)
        requires
            old(self).wf(),
            old(self).attempted < usize::MAX,
        ensures
            final(self).wf(),
            final(self).attempted == old(self).attempted + 1,
            final(self).passed == old(self).passed + (if is_pass(*outcome) { 1int } else { 0int }),
            final(self).failed == old(self).failed + (if is_fail(*outcome) { 1int } else { 0int }),
            final(self).errors == old(self).errors + (if is_error(*outcome) { 1int } else { 0int }),
            stop == halts(*outcome),
    {
        self.attempted = self.attempted + 1;
        match outcome {
            Ok(ReportStatus::Passed) => {
                self.passed = self.passed + 1;
                false
            },
            Ok(ReportStatus::Failed) => {
                self.failed = self.failed + 1;
                true
            },
            Ok(_) => false,
            Err(_) => {
                self.errors = self.errors + 1;
                true
            },
        }
    }

    /// Whether the suite is a success: no report failed and no experiment
    /// ended in an error.
    pub fn succeeded(&self) -> (ok: bool)
        ensures
            ok == (self.failed == 0 && self.errors == 0),
    {
        self.failed == 0 && self.errors == 0
    }
}

/// Whether `summary` is what a suite of `count` experiments comes to where
/// experiment `i` came to `outcomes[i]`: the experiments were run in order,
/// all of them unless the suite fails fast, in which case the first failed
/// report or error was the last one run.
pub open spec fn suite_gives(
    count: usize,
    fail_fast: bool,
    outcomes: Seq<Result<ReportStatus, SimuForgeError>>,
    summary: SuiteSummary,
) -> bool {
    &&& summary.counts(outcomes)
    &&& outcomes.len() <= count
    &&& forall|i: int| 0 <= i < outcomes.len() - 1 ==> !(fail_fast && halts(#[trigger] outcomes[i]))
    &&& outcomes.len() < count ==> outcomes.len() > 0 && fail_fast && halts(outcomes.last())
}

/// Runs the experiments `0` to `count - 1` through `run_one` and counts
/// what they come to. With `fail_fast` the suite stops after the first
/// failed report or error. An experiment that ends in an error does not
/// keep the others from running otherwise.
pub fn run_suite<R: Fn(usize) -> Result<ReportStatus, SimuForgeError>>(
    count: usize,
    fail_fast: bool,
    run_one: &R,
) -> (summary: SuiteSummary)
    requires
        forall|i: usize| i < count ==> #[trigger] run_one.requires((i,)),
    ensures
        exists|outcomes: Seq<Result<ReportStatus, SimuForgeError>>|
            suite_gives(count, fail_fast, outcomes, summary) && forall|i: int|
                0 <= i < outcomes.len() ==> run_one.ensures((i as usize,), #[trigger] outcomes[i]),
{
    let mut summary = SuiteSummary::new();
    let ghost mut outcomes: Seq<Result<ReportStatus, SimuForgeError>> = Seq::empty();
    let mut i: usize = 0;
    let mut stopped = false;
    while i < count && !stopped
        invariant
            forall|k: usize| k < count ==> #[trigger] run_one.requires((k,)),
            i <= count,
            outcomes.len() == i,
            summary.counts(outcomes),
            summary.wf(),
            forall|k: int| 0 <= k < outcomes.len() ==> run_one.ensures((k as usize,), #[trigger] outcomes[k]),
            forall|k: int| 0 <= k < outcomes.len() - 1 ==> !(fail_fast && halts(#[trigger] outcomes[k])),
            !stopped ==> forall|k: int| 0 <= k < outcomes.len() ==> !(fail_fast && halts(#[trigger] outcomes[k])),
            stopped ==> outcomes.len() > 0 && fail_fast && halts(outcomes.last()),
        decreases count - i, if stopped { 0int } else { 1int },
    {
        let outcome = run_one(i);
        proof {
            assert(outcomes.push(outcome).drop_last() =~= outcomes);
            lemma_count_bounded(outcomes, |o| is_pass(o));
            lemma_count_bounded(outcomes, |o| is_fail(o));
            lemma_count_bounded(outcomes, |o| is_error(o));
        }
        let halt = summary.record(&outcome);
        proof {
            outcomes = outcomes.push(outcome);
        }
        if halt && fail_fast {
            stopped = true;
        }
        i = i + 1;
    }
    proof {
        assert(suite_gives(count, fail_fast, outcomes, summary));
    }
    summary
}

} // verus!
