//! What holds of every run of the harness.

use vstd::prelude::*;
use crate::block::{disjoint, lemma_conflict_from, Block};
use crate::harness::{
    lemma_next_well_formed, lemma_start_well_formed, plan_fits, HarnessView, ScenarioView, Step,
    Verdict,
};
use crate::pattern::{lemma_matches_pattern, pattern};
use crate::scenario::{apply, judge, request_of, Op, Reply};

verus! {

/// A block fits into `slot` when it is sound and conflicts with no block
/// that another slot holds.
pub open spec fn fits(slots: Seq<Option<Block>>, slot: usize, block: Block) -> bool {
    &&& block.sound()
    &&& forall|j: int|
        0 <= j < slots.len() && j != slot && slots[j] is Some ==> !(#[trigger] slots[j])->0.conflicts(
            block,
        )
}

/// What an operation stands for, said of its reply: an allocation and a
/// growth were served with a block that fits, a probe was refused or
/// served with a block that fits, a read-back gave the pattern over the
/// whole length asked for, and a write and a release were done.
pub open spec fn upheld(op: Op, slots: Seq<Option<Block>>, reply: Reply) -> bool {
    match op {
        Op::Allocate { slot, size } => reply matches Reply::Address(Some(addr)) && fits(
            slots,
            slot,
            Block { addr, size },
        ),
        Op::Probe { slot, size } => reply == Reply::Address(None) || (reply matches Reply::Address(
            Some(addr),
        ) && fits(slots, slot, Block { addr, size })),
        Op::Fill { slot, seed } => reply is Done,
        Op::Verify { slot, len, seed } => reply matches Reply::Bytes(bytes) && bytes@ == pattern(
            seed,
            len as nat,
        ),
        Op::Grow { slot, size } => reply matches Reply::Address(Some(addr)) && fits(
            slots,
            slot,
            Block { addr, size },
        ),
        Op::Release { slot } => reply is Done,
    }
}

/// A reply is rejected exactly when it does not uphold what its operation
/// stands for.
pub proof fn law_rejected_iff_not_upheld(op: Op, slots: Seq<Option<Block>>, reply: Reply)
    ensures
        judge(op, slots, reply) is Reject <==> !upheld(op, slots, reply),
{
    match op {
        Op::Allocate { slot, size } => {
            if let Reply::Address(Some(addr)) = reply {
                lemma_conflict_from(slots, Block { addr, size }, slot as int, 0);
            }
        },
        Op::Probe { slot, size } => {
            if let Reply::Address(Some(addr)) = reply {
                lemma_conflict_from(slots, Block { addr, size }, slot as int, 0);
            }
        },
        Op::Grow { slot, size } => {
            if let Reply::Address(Some(addr)) = reply {
                lemma_conflict_from(slots, Block { addr, size }, slot as int, 0);
            }
        },
        Op::Verify { slot, len, seed } => {
            if let Reply::Bytes(bytes) = reply {
                lemma_matches_pattern(bytes@, seed);
            }
        },
        _ => {},
    }
}

/// Replies leave a well-formed harness well formed.
pub proof fn law_after_well_formed(v: HarnessView, replies: Seq<Reply>)
    requires
        v.well_formed(),
    ensures
        v.after(replies).well_formed(),
    decreases replies.len(),
{
    if replies.len() > 0 {
        law_after_well_formed(v, replies.drop_last());
        lemma_next_well_formed(v.after(replies.drop_last()), replies.last());
    }
}

/// The report only grows: what a step finds in it stays in it, at its
/// place, and the plan stays the plan.
pub proof fn law_report_grows(v: HarnessView, replies: Seq<Reply>)
    requires
        v.well_formed(),
    ensures
        v.after(replies).plan == v.plan,
        v.report.len() <= v.after(replies).report.len(),
        forall|k: int| 0 <= k < v.report.len() ==> v.after(replies).report[k] == v.report[k],
    decreases replies.len(),
{
    if replies.len() > 0 {
        law_report_grows(v, replies.drop_last());
        law_after_well_formed(v, replies.drop_last());
    }
}

/// Replies that come in two parts leave the harness where the second part
/// leaves the harness that the first part left.
pub proof fn law_after_concat(v: HarnessView, first: Seq<Reply>, second: Seq<Reply>)
    ensures
        v.after(first + second) == v.after(first).after(second),
    decreases second.len(),
{
    if second.len() == 0 {
        assert(first + second =~= first);
    } else {
        law_after_concat(v, first, second.drop_last());
        assert((first + second).drop_last() =~= first + second.drop_last());
        assert((first + second).last() == second.last());
    }
}

/// A pass means that every request of the scenario was upheld.
///
/// Take any run of the harness and any step `i` of it at which an
/// operation made a request. If the report of the run holds a pass for the
/// scenario of that operation, the reply at step `i` upheld what the
/// operation stands for: the block that came fits beside all live blocks,
/// the bytes read back are the pattern, the allocation that had to succeed
/// did.
pub proof fn law_pass_means_upheld(v: HarnessView, replies: Seq<Reply>, i: int)
    requires
        v.well_formed(),
        0 <= i < replies.len(),
        v.after(replies.take(i)).stage is Running,
        request_of(v.after(replies.take(i)).op(), v.after(replies.take(i)).slots) is Some,
        v.after(replies).report.len() > v.after(replies.take(i)).scenario,
        v.after(replies).report[v.after(replies.take(i)).scenario as int] is Pass,
    ensures
        upheld(v.after(replies.take(i)).op(), v.after(replies.take(i)).slots, replies[i]),
{
    let at = v.after(replies.take(i));
    let then = v.after(replies.take(i + 1));
    assert(replies.take(i + 1).drop_last() =~= replies.take(i));
    assert(replies.take(i + 1).last() == replies[i]);
    assert(then == at.next(replies[i]));
    law_after_well_formed(v, replies.take(i));
    law_after_well_formed(v, replies.take(i + 1));
    assert(replies =~= replies.take(i + 1) + replies.skip(i + 1));
    law_after_concat(v, replies.take(i + 1), replies.skip(i + 1));
    law_report_grows(then, replies.skip(i + 1));
    law_rejected_iff_not_upheld(at.op(), at.slots, replies[i]);
    if judge(at.op(), at.slots, replies[i]) is Reject {
        assert(then.report[at.scenario as int] is Fail);
    }
}

/// A rejected reply is the failure of the scenario under way, at the step
/// at hand, and nothing else is touched.
pub proof fn law_rejection_fails(v: HarnessView, reply: Reply)
    requires
        v.well_formed(),
        v.stage is Running,
        request_of(v.op(), v.slots) is Some,
        judge(v.op(), v.slots, reply) is Reject,
    ensures
        v.next(reply).failure() == Some(
            (
                v.scenario as usize,
                Verdict::Fail {
                    step: v.pc as usize,
                    finding: judge(v.op(), v.slots, reply)->Reject_0,
                },
            ),
        ),
        v.next(reply).stage is Reporting,
        v.next(reply).slots == v.slots,
{
}

/// Fail-fast: once a scenario has failed, no operation runs any more.
///
/// Whatever replies follow, the harness stays with the failed scenario,
/// its report stays as it is, a failure as its last verdict, and what is
/// pending is the report of that verdict or nothing at all, never a
/// request.
pub proof fn law_fail_fast(v: HarnessView, replies: Seq<Reply>)
    requires
        v.well_formed(),
        v.failure() is Some,
    ensures
        v.after(replies).scenario == v.scenario,
        v.after(replies).report == v.report,
        v.after(replies).slots == v.slots,
        v.after(replies).failure() == v.failure(),
        v.after(replies).pending() == (Step::Tell {
            scenario: v.scenario as usize,
            verdict: v.report.last(),
        }) || v.after(replies).pending() == (Step::Over { passed: false }),
    decreases replies.len(),
{
    assert(v.stage is Reporting || v.stage is Halted) by {
        if v.stage is Running || v.stage is Finished {
            assert(v.report.last() is Pass);
        }
    }
    if replies.len() > 0 {
        law_fail_fast(v, replies.drop_last());
        law_after_well_formed(v, replies.drop_last());
        let before = v.after(replies.drop_last());
        assert(before.stage is Reporting || before.stage is Halted) by {
            if before.stage is Running || before.stage is Finished {
                assert(before.report.last() is Pass);
            }
        }
    }
}

/// The verdicts of a report are one for each scenario that was judged, in
/// the order of the plan, and no verdict follows a failure.
pub proof fn law_report_shape(v: HarnessView, k: int)
    requires
        v.well_formed(),
        0 <= k < v.report.len(),
    ensures
        v.report.len() <= v.plan.len(),
        v.report[k] is Fail ==> k == v.report.len() - 1,
{
    if v.report[k] is Fail && k < v.report.len() - 1 {
        assert(v.report.drop_last()[k] == v.report[k]);
    }
}

/// One more reply is one more step.
pub proof fn lemma_after_take(v: HarnessView, replies: Seq<Reply>, j: int)
    requires
        0 <= j < replies.len(),
    ensures
        v.after(replies.take(j + 1)) == v.after(replies.take(j)).next(replies[j]),
{
    assert(replies.take(j + 1).drop_last() =~= replies.take(j));
    assert(replies.take(j + 1).last() == replies[j]);
}

/// The harness `s` stands at operation `pc` of the scenario that `v`
/// began, with these slots, and with nothing reported since.
pub open spec fn on_script(
    v: HarnessView,
    s: HarnessView,
    pc: int,
    slots: Seq<Option<Block>>,
) -> bool {
    &&& s.well_formed()
    &&& s.stage is Running
    &&& s.plan == v.plan
    &&& s.scenario == v.scenario
    &&& s.report == v.report
    &&& s.pc == pc
    &&& s.slots == slots
}

/// One request of a script: a reply that is not upheld is the failure of
/// the scenario, and one that is upheld leads to the next operation, or to
/// the pass after the last one.
pub proof fn lemma_script_step(v: HarnessView, s: HarnessView, reply: Reply)
    requires
        on_script(v, s, s.pc as int, s.slots),
        request_of(s.op(), s.slots) is Some,
    ensures
        !upheld(s.op(), s.slots, reply) ==> s.next(reply).report.len() > v.scenario && s.next(
            reply,
        ).report[v.scenario as int] is Fail,
        upheld(s.op(), s.slots, reply) && s.pc + 1 < s.script().len() ==> on_script(
            v,
            s.next(reply),
            (s.pc + 1) as int,
            apply(s.slots, judge(s.op(), s.slots, reply)),
        ),
        upheld(s.op(), s.slots, reply) && s.pc + 1 == s.script().len() ==> s.next(reply).report
            == v.report.push(Verdict::Pass) && s.next(reply).slots == apply(
            s.slots,
            judge(s.op(), s.slots, reply),
        ),
        upheld(s.op(), s.slots, reply) ==> !(judge(s.op(), s.slots, reply) is Reject),
{
    law_rejected_iff_not_upheld(s.op(), s.slots, reply);
    lemma_next_well_formed(s, reply);
}

/// A failure that is in the report after some replies is in it after all
/// of them.
pub proof fn lemma_failure_stays(v: HarnessView, replies: Seq<Reply>, j: int)
    requires
        v.well_formed(),
        0 <= j <= replies.len(),
        v.after(replies.take(j)).report.len() > v.scenario,
        v.after(replies.take(j)).report[v.scenario as int] is Fail,
    ensures
        v.after(replies).report.len() > v.scenario,
        v.after(replies).report[v.scenario as int] is Fail,
{
    assert(replies =~= replies.take(j) + replies.skip(j));
    law_after_concat(v, replies.take(j), replies.skip(j));
    law_after_well_formed(v, replies.take(j));
    law_report_grows(v.after(replies.take(j)), replies.skip(j));
}

/// What is asked of step `j` of a run for the scenario that `v` began to
/// pass: if the scenario is still under way at that step and its operation
/// makes a request, the reply upholds what the operation stands for.
pub open spec fn step_upheld(v: HarnessView, replies: Seq<Reply>, j: int) -> bool {
    let s = v.after(replies.take(j));
    s.stage is Running && s.scenario == v.scenario && request_of(s.op(), s.slots) is Some
        ==> upheld(s.op(), s.slots, replies[j])
}

/// While every step so far was upheld, the scenario is under way at the
/// operation of that number, and after the last operation it has passed.
proof fn lemma_upheld_so_far(v: HarnessView, replies: Seq<Reply>, j: int)
    requires
        v.well_formed(),
        v.stage is Running,
        v.pc == 0,
        0 <= j <= replies.len() == v.script().len(),
        forall|i: int| 0 <= i < j ==> step_upheld(v, replies, i),
    ensures
        j < replies.len() ==> on_script(
            v,
            v.after(replies.take(j)),
            j,
            v.after(replies.take(j)).slots,
        ),
        j == replies.len() ==> v.after(replies.take(j)).report == v.report.push(Verdict::Pass),
    decreases j,
{
    if j == 0 {
        assert(v.after(replies.take(0)) == v);
    } else {
        lemma_upheld_so_far(v, replies, j - 1);
        let s = v.after(replies.take(j - 1));
        lemma_after_take(v, replies, j - 1);
        assert(step_upheld(v, replies, j - 1));
        lemma_next_well_formed(s, replies[j - 1]);
        if request_of(s.op(), s.slots) is Some {
            lemma_script_step(v, s, replies[j - 1]);
        }
    }
}

/// A scenario passes exactly when every request that it made was upheld.
///
/// Take a harness at the first operation of a scenario and one reply for
/// each operation of its script. The report then holds a pass for the
/// scenario if and only if at every step the reply upheld what the
/// operation stands for: every block that came fits beside all live
/// blocks, every read-back gave the pattern that was written, over the
/// whole length asked for, and every allocation that had to succeed did.
/// Operations that make no request ask nothing of their reply.
pub proof fn law_pass_iff_all_upheld(v: HarnessView, replies: Seq<Reply>)
    requires
        v.well_formed(),
        v.stage is Running,
        v.pc == 0,
        replies.len() == v.script().len(),
    ensures
        (v.after(replies).report.len() > v.scenario && v.after(replies).report[v.scenario as int]
            is Pass) <==> (forall|j: int| 0 <= j < replies.len() ==> step_upheld(v, replies, j)),
{
    let end = v.after(replies);
    let k = v.scenario as int;
    assert(replies.take(replies.len() as int) =~= replies);
    if end.report.len() > k && end.report[k] is Pass {
        assert forall|j: int| 0 <= j < replies.len() implies step_upheld(v, replies, j) by {
            let s = v.after(replies.take(j));
            if s.stage is Running && s.scenario == v.scenario && request_of(s.op(), s.slots)
                is Some {
                law_pass_means_upheld(v, replies, j);
            }
        }
    }
    if forall|j: int| 0 <= j < replies.len() ==> step_upheld(v, replies, j) {
        lemma_upheld_so_far(v, replies, replies.len() as int);
    } else {
        let j = choose|j: int| 0 <= j < replies.len() && !step_upheld(v, replies, j);
        let s = v.after(replies.take(j));
        law_after_well_formed(v, replies.take(j));
        law_report_grows(v, replies.take(j));
        assert(s.report.len() == k);
        lemma_after_take(v, replies, j);
        law_rejected_iff_not_upheld(s.op(), s.slots, replies[j]);
        assert(s.next(replies[j]).report[k] is Fail);
        lemma_failure_stays(v, replies, j + 1);
    }
}

/// The live blocks never overlap.
///
/// At every moment of every run of the harness each live block is sound
/// and no two live blocks conflict.
pub proof fn law_live_blocks_never_overlap(plan: Seq<ScenarioView>, replies: Seq<Reply>)
    requires
        plan_fits(plan),
    ensures
        disjoint(HarnessView::start(plan).after(replies).slots),
        forall|i: int|
            0 <= i < HarnessView::start(plan).after(replies).slots.len() && HarnessView::start(
                plan,
            ).after(replies).slots[i] is Some ==> (#[trigger] HarnessView::start(plan).after(
                replies,
            ).slots[i])->0.sound(),
{
    lemma_start_well_formed(plan);
    law_after_well_formed(HarnessView::start(plan), replies);
}

/// One step keeps what the report held.
proof fn lemma_step_keeps_report(v: HarnessView, reply: Reply)
    requires
        v.well_formed(),
    ensures
        v.report.len() <= v.next(reply).report.len(),
        forall|k: int| 0 <= k < v.report.len() ==> v.next(reply).report[k] == v.report[k],
{
}

/// A harness that is driven stays well formed, keeps its plan, and keeps
/// what its report held. So the report of a driven harness has its
/// verdicts in the order of the plan and a failure, if any, at its end.
pub proof fn law_drive_well_formed(v: HarnessView, replies: Seq<Reply>)
    requires
        v.well_formed(),
    ensures
        v.drive(replies).well_formed(),
        v.drive(replies).plan == v.plan,
        v.report.len() <= v.drive(replies).report.len(),
        forall|k: int| 0 <= k < v.report.len() ==> v.drive(replies).report[k] == v.report[k],
    decreases replies.len(), v.left().0, v.left().1, v.left().2,
{
    match v.pending() {
        Step::Over { .. } => {},
        Step::Ask(_) => {
            if replies.len() > 0 {
                lemma_next_well_formed(v, replies[0]);
                lemma_step_keeps_report(v, replies[0]);
                law_drive_well_formed(v.next(replies[0]), replies.drop_first());
            }
        },
        _ => {
            lemma_next_well_formed(v, Reply::Done);
            lemma_step_keeps_report(v, Reply::Done);
            law_drive_well_formed(v.next(Reply::Done), replies);
        },
    }
}

/// A harness that is driven with enough replies comes to its end: it is
/// over, or it waits for a reply that was not there.
pub proof fn law_drive_stops(v: HarnessView, replies: Seq<Reply>)
    requires
        v.well_formed(),
    ensures
        v.drive(replies).over() || v.drive(replies).pending() is Ask,
    decreases replies.len(), v.left().0, v.left().1, v.left().2,
{
    match v.pending() {
        Step::Over { .. } => {},
        Step::Ask(_) => {
            if replies.len() > 0 {
                lemma_next_well_formed(v, replies[0]);
                law_drive_stops(v.next(replies[0]), replies.drop_first());
            }
        },
        _ => {
            lemma_next_well_formed(v, Reply::Done);
            law_drive_stops(v.next(Reply::Done), replies);
        },
    }
}

} // verus!
