//! The allocator self-test as one call, for an allocator whose replies are
//! at hand.

use vstd::prelude::*;
use crate::harness::{all_pass, plan_view, Harness, HarnessView, Scenario, Step, Verdict};
use crate::scenario::Reply;

verus! {

/// The outcome of a run of the harness: the verdicts in the order of the
/// plan, one for each scenario that was judged.
#[derive(Debug)]
pub struct TestReport {
    /// The verdicts. Only the last one can be a failure.
    pub verdicts: Vec<Verdict>,
    /// The number of scenarios in the plan.
    pub scenarios: usize,
}

impl TestReport {
    /// Every scenario of the plan was judged and passed.
    pub open spec fn all_passed(self) -> bool {
        self.verdicts@.len() == self.scenarios && all_pass(self.verdicts@)
    }

    pub fn passed(&self) -> (yes: bool)
        ensures
            yes == self.all_passed(),
    {
        if self.verdicts.len() != self.scenarios {
            return false;
        }
        let mut i: usize = 0;
        while i < self.verdicts.len()
            invariant
                i <= self.verdicts@.len(),
                forall|j: int| 0 <= j < i ==> (#[trigger] self.verdicts@[j]) is Pass,
            decreases self.verdicts@.len() - i,
        {
            match self.verdicts[i] {
                Verdict::Pass => {},
                Verdict::Fail { .. } => {
                    return false;
                },
            }
            i = i + 1;
        }
        true
    }
}

/// Runs the scenarios of `plan` against an allocator that answers the
/// requests of the harness with `replies`, in order, and returns the
/// verdicts.
///
/// The run stops at the first scenario that fails. It stops as well where
/// the replies run out before the plan does: the report is then shorter
/// than the plan, and holds no failure.
pub fn run_allocator_tests(plan: Vec<Scenario>, replies: &Vec<Reply>) -> (report: TestReport)
    ensures
        report.verdicts@ == HarnessView::start(plan_view(plan@)).drive(replies@).report,
        report.scenarios == plan@.len(),
{
    let ghost start = HarnessView::start(plan_view(plan@));
    let scenarios: usize = plan.len();
    let mut harness = Harness::new(plan);
    let mut i: usize = 0;
    proof {
        assert(replies@.skip(0) =~= replies@);
    }
    loop
        invariant
            i <= replies@.len(),
            harness@.well_formed(),
            start.drive(replies@) == harness@.drive(replies@.skip(i as int)),
        ensures
            start.drive(replies@) == harness@,
        decreases replies@.len() - i, harness@.left().0, harness@.left().1, harness@.left().2,
    {
        let ghost rest = replies@.skip(i as int);
        match harness.pending() {
            Step::Over { .. } => {
                break ;
            },
            Step::Ask(_) => {
                if i == replies.len() {
                    break ;
                }
                proof {
                    assert(rest[0] == replies@[i as int]);
                    assert(rest.drop_first() =~= replies@.skip(i + 1));
                }
                harness = harness.advance(&replies[i]);
                i = i + 1;
            },
            _ => {
                harness = harness.advance(&Reply::Done);
            },
        }
    }
    TestReport { verdicts: harness.report(), scenarios }
}

} // verus!
