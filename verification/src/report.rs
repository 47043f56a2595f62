//! Aggregation of per-file outcomes: the run-level tally the reporter
//! prints when every worker has finished.

use vstd::prelude::*;

use crate::pipeline::PipelineOutcome;
use crate::pipeline::PipelineOutcomeV;

verus! {

impl vstd::prelude::DeepView for PipelineOutcome {
    type V = PipelineOutcomeV;

    open spec fn deep_view(&self) -> PipelineOutcomeV {
        self.view()
    }
}

/// The number of successes among `outcomes`.
pub open spec fn spec_success_count(outcomes: Seq<PipelineOutcomeV>) -> int
    decreases outcomes.len(),
{
    if outcomes.len() == 0 {
        0
    } else {
        spec_success_count(outcomes.drop_last()) + if outcomes.last() is Success {
            1int
        } else {
            0int
        }
    }
}

pub proof fn lemma_success_count_bounds(outcomes: Seq<PipelineOutcomeV>)
    ensures
        0 <= spec_success_count(outcomes) <= outcomes.len(),
    decreases outcomes.len(),
{
    if outcomes.len() > 0 {
        lemma_success_count_bounds(outcomes.drop_last());
    }
}

/// The tally of one run: how many files were processed, and how many
/// of them succeeded and failed. Failures never abort the run, so the
/// three always satisfy `succeeded + failed == total`.
#[derive(PartialEq, Eq, Structural, Clone, Copy, Debug)]
pub struct RunSummary {
    pub total: usize,
    pub succeeded: usize,
    pub failed: usize,
}

/// Tally the outcomes of a finished run: every candidate is counted
/// exactly once, as a success or as a failure.
pub fn summarize(outcomes: &Vec<PipelineOutcome>) -> (r: RunSummary)
    ensures
        r.total == outcomes@.len(),
        r.succeeded == spec_success_count(outcomes.deep_view()),
        r.failed == r.total - r.succeeded,
{
    let n = outcomes.len();
    let mut succeeded: usize = 0;
    let mut i: usize = 0;
    while i < n
        invariant
            n == outcomes@.len(),
            i <= n,
            succeeded <= i,
            succeeded == spec_success_count(outcomes.deep_view().subrange(0, i as int)),
        decreases n - i,
    {
        let ghost prefix = outcomes.deep_view().subrange(0, i as int);
        proof {
            assert(outcomes.deep_view().subrange(0, i + 1).drop_last() =~= prefix);
            assert(outcomes.deep_view().subrange(0, i + 1).last() == outcomes@[i as int]@);
        }
        if outcomes[i].is_success() {
            succeeded = succeeded + 1;
        }
        i = i + 1;
    }
    proof {
        assert(outcomes.deep_view().subrange(0, n as int) =~= outcomes.deep_view());
        lemma_success_count_bounds(outcomes.deep_view());
        assert(outcomes.deep_view().len() == outcomes@.len());
    }
    RunSummary { total: n, succeeded, failed: n - succeeded }
}

} // verus!
