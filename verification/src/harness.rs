//! The allocator self-test harness.
//!
//! The harness runs the scenarios of its plan in order, one scripted
//! operation at a time. It says what it needs next ([`Harness::pending`]),
//! is told how that went ([`Harness::advance`]), and stops at the first
//! scenario that fails.

use vstd::prelude::*;
use crate::block::{
    disjoint, lemma_bind_keeps_disjoint, lemma_conflict_from, lemma_release_keeps_disjoint, Block,
};
use crate::scenario::{
    apply, judge, judge_reply, request_for, request_of, Finding, Judgement, Op, Reply, Request,
    SLOT_COUNT,
};

verus! {

/// One test case: a label for people and a script for the harness.
#[derive(Debug)]
pub struct Scenario {
    pub label: String,
    pub script: Vec<Op>,
}

/// A [`Scenario`] as contracts see it.
pub struct ScenarioView {
    pub label: Seq<char>,
    pub script: Seq<Op>,
}

impl View for Scenario {
    type V = ScenarioView;

    open spec fn view(&self) -> ScenarioView {
        ScenarioView { label: self.label@, script: self.script@ }
    }
}

/// A plan as contracts see it: the view of each of its scenarios.
pub open spec fn plan_view(plan: Seq<Scenario>) -> Seq<ScenarioView> {
    plan.map_values(|scenario: Scenario| scenario@)
}

/// A plan fits when a machine can hold it: the number of its scenarios and
/// the length of each script are machine integers.
pub open spec fn plan_fits(plan: Seq<ScenarioView>) -> bool {
    &&& plan.len() <= usize::MAX
    &&& forall|k: int| 0 <= k < plan.len() ==> (#[trigger] plan[k]).script.len() <= usize::MAX
}

/// The outcome of one scenario.
#[derive(Clone, Copy, Debug, PartialEq, Eq, Structural)]
pub enum Verdict {
    /// Every operation of the script met what it expects.
    Pass,
    /// The operation at `step` of the script did not.
    Fail { step: usize, finding: Finding },
}

/// Where the harness stands.
#[derive(Clone, Copy, Debug, PartialEq, Eq, Structural)]
pub enum Stage {
    /// An operation of the current scenario is next.
    Running,
    /// The current scenario has its verdict, which is to be reported.
    Reporting,
    /// Every scenario passed.
    Finished,
    /// A scenario failed and its verdict was reported. Nothing runs any more.
    Halted,
}

/// What the harness needs next.
#[derive(Clone, Copy, Debug, PartialEq, Eq, Structural)]
pub enum Step {
    /// The allocator is to answer this request.
    Ask(Request),
    /// The operation at hand makes no request and is passed over.
    Skip,
    /// The verdict of scenario `scenario` is to be reported.
    Tell { scenario: usize, verdict: Verdict },
    /// The harness is done: with every scenario passed, or halted on a
    /// failure.
    Over { passed: bool },
}

/// The harness as contracts see it.
pub struct HarnessView {
    pub plan: Seq<ScenarioView>,
    pub scenario: nat,
    pub pc: nat,
    pub slots: Seq<Option<Block>>,
    pub report: Seq<Verdict>,
    pub stage: Stage,
}

/// Every verdict of the report is a pass.
pub open spec fn all_pass(report: Seq<Verdict>) -> bool {
    forall|i: int| 0 <= i < report.len() ==> #[trigger] report[i] is Pass
}

impl HarnessView {
    /// The script of the scenario under way.
    pub open spec fn script(self) -> Seq<Op> {
        self.plan[self.scenario as int].script
    }

    /// The operation that is next.
    pub open spec fn op(self) -> Op {
        self.script()[self.pc as int]
    }

    pub open spec fn well_formed(self) -> bool {
        &&& plan_fits(self.plan)
        &&& self.slots.len() == SLOT_COUNT
        &&& disjoint(self.slots)
        &&& forall|i: int|
            0 <= i < self.slots.len() && self.slots[i] is Some ==> (#[trigger] self.slots[i])->0.sound()
        &&& match self.stage {
            Stage::Running => {
                &&& self.scenario < self.plan.len()
                &&& self.pc < self.script().len()
                &&& self.report.len() == self.scenario
                &&& all_pass(self.report)
            },
            Stage::Reporting => {
                &&& self.scenario < self.plan.len()
                &&& self.report.len() == self.scenario + 1
                &&& all_pass(self.report.drop_last())
            },
            Stage::Finished => {
                &&& self.scenario == self.plan.len()
                &&& self.report.len() == self.scenario
                &&& all_pass(self.report)
            },
            Stage::Halted => {
                &&& self.scenario < self.plan.len()
                &&& self.report.len() == self.scenario + 1
                &&& all_pass(self.report.drop_last())
                &&& self.report.last() is Fail
            },
        }
    }

    /// The harness at the start of scenario `scenario`, all scenarios before
    /// it passed: finished when the plan has no such scenario, reporting a
    /// pass at once when its script is empty, and at its first operation
    /// otherwise.
    pub open spec fn enter(
        plan: Seq<ScenarioView>,
        scenario: nat,
        slots: Seq<Option<Block>>,
        report: Seq<Verdict>,
    ) -> HarnessView {
        if scenario >= plan.len() {
            HarnessView { plan, scenario: plan.len(), pc: 0, slots, report, stage: Stage::Finished }
        } else if plan[scenario as int].script.len() == 0 {
            HarnessView {
                plan,
                scenario,
                pc: 0,
                slots,
                report: report.push(Verdict::Pass),
                stage: Stage::Reporting,
            }
        } else {
            HarnessView { plan, scenario, pc: 0, slots, report, stage: Stage::Running }
        }
    }

    /// The harness before its first step: no block is live and no verdict
    /// is in.
    pub open spec fn start(plan: Seq<ScenarioView>) -> HarnessView {
        HarnessView::enter(
            plan,
            0,
            Seq::new(SLOT_COUNT as nat, |i: int| None::<Block>),
            Seq::empty(),
        )
    }

    /// The harness after the operation at hand went well and left `slots`:
    /// at the next operation, or reporting a pass after the last one.
    pub open spec fn proceed(self, slots: Seq<Option<Block>>) -> HarnessView {
        if self.pc + 1 < self.script().len() {
            HarnessView { pc: self.pc + 1, slots, ..self }
        } else {
            HarnessView {
                pc: self.pc + 1,
                slots,
                report: self.report.push(Verdict::Pass),
                stage: Stage::Reporting,
                ..self
            }
        }
    }

    /// The scenario that failed, with its verdict, if one did. Only the
    /// last verdict of a report can be a failure.
    pub open spec fn failure(self) -> Option<(usize, Verdict)> {
        if self.report.len() > 0 && self.report.last() is Fail {
            Some(((self.report.len() - 1) as usize, self.report.last()))
        } else {
            None
        }
    }

    /// The label of scenario `scenario` of the plan.
    pub open spec fn label(self, scenario: int) -> Seq<char> {
        self.plan[scenario].label
    }

    /// Whether the harness takes no further step.
    pub open spec fn over(self) -> bool {
        self.stage is Finished || self.stage is Halted
    }

    /// What the harness needs next.
    pub open spec fn pending(self) -> Step {
        match self.stage {
            Stage::Running => match request_of(self.op(), self.slots) {
                Some(request) => Step::Ask(request),
                None => Step::Skip,
            },
            Stage::Reporting => Step::Tell {
                scenario: self.scenario as usize,
                verdict: self.report.last(),
            },
            Stage::Finished => Step::Over { passed: true },
            Stage::Halted => Step::Over { passed: false },
        }
    }

    /// How much a harness that is told nothing can still do on its own,
    /// as three numbers of which the first counts most: the scenarios that
    /// are left, whether the one under way still runs, and the operations
    /// that it has left.
    pub open spec fn left(self) -> (nat, nat, nat) {
        (
            (self.plan.len() - self.scenario) as nat,
            match self.stage {
                Stage::Running => 2,
                Stage::Reporting => 1,
                _ => 0,
            },
            if self.stage is Running {
                (self.script().len() - self.pc) as nat
            } else {
                0
            },
        )
    }

    /// The harness after the allocator answered its requests with these
    /// replies, in order, one reply for each request. What needs no answer
    /// is taken as done: an operation that is passed over, and the report
    /// of a verdict. The harness stops when it is over, or at the request
    /// for which no reply is left.
    pub open spec fn drive(self, replies: Seq<Reply>) -> HarnessView
        decreases replies.len(), self.left().0, self.left().1, self.left().2,
        when self.well_formed()
    {
        match self.pending() {
            Step::Over { .. } => self,
            Step::Ask(_) => if replies.len() == 0 {
                self
            } else {
                self.next(replies[0]).drive(replies.drop_first())
            },
            _ => self.next(Reply::Done).drive(replies),
        }
    }

    /// The harness after these replies came in, one for each step.
    pub open spec fn after(self, replies: Seq<Reply>) -> HarnessView
        decreases replies.len(),
    {
        if replies.len() == 0 {
            self
        } else {
            self.after(replies.drop_last()).next(replies.last())
        }
    }

    /// The harness after `reply` answered what was pending.
    ///
    /// A request is judged by its reply: a rejection is the verdict of the
    /// scenario, anything else moves on to the next operation. A skip and a
    /// report take any reply as done. After a reported pass the next
    /// scenario begins, after a reported failure the harness halts. A
    /// harness that is over stays as it is.
    pub open spec fn next(self, reply: Reply) -> HarnessView {
        match self.stage {
            Stage::Running => match request_of(self.op(), self.slots) {
                Some(_) => match judge(self.op(), self.slots, reply) {
                    Judgement::Reject(finding) => HarnessView {
                        report: self.report.push(
                            Verdict::Fail { step: self.pc as usize, finding },
                        ),
                        stage: Stage::Reporting,
                        ..self
                    },
                    judgement => self.proceed(apply(self.slots, judgement)),
                },
                None => self.proceed(self.slots),
            },
            Stage::Reporting => if self.report.last() is Pass {
                HarnessView::enter(self.plan, self.scenario + 1, self.slots, self.report)
            } else {
                HarnessView { stage: Stage::Halted, ..self }
            },
            Stage::Finished => self,
            Stage::Halted => self,
        }
    }
}

/// A report without the verdict that was put at its end is the report
/// before.
proof fn lemma_push_drop_last(report: Seq<Verdict>, verdict: Verdict)
    ensures
        report.push(verdict).drop_last() == report,
{
    assert(report.push(verdict).drop_last() =~= report);
}

/// A step of a well-formed harness leaves it well formed: the live blocks
/// stay sound and disjoint, and the report keeps one verdict for each
/// scenario that was judged, with no pass after a failure.
pub proof fn lemma_next_well_formed(v: HarnessView, reply: Reply)
    requires
        v.well_formed(),
    ensures
        v.next(reply).well_formed(),
{
    match v.stage {
        Stage::Running => {
            lemma_push_drop_last(v.report, Verdict::Pass);
            if request_of(v.op(), v.slots) is Some {
                match judge(v.op(), v.slots, reply) {
                    Judgement::Reject(finding) => {
                        lemma_push_drop_last(
                            v.report,
                            Verdict::Fail { step: v.pc as usize, finding },
                        );
                    },
                    Judgement::Bind { slot, block } => {
                        lemma_conflict_from(v.slots, block, slot as int, 0);
                        lemma_bind_keeps_disjoint(v.slots, slot as int, block);
                    },
                    Judgement::Free { slot } => {
                        lemma_release_keeps_disjoint(v.slots, slot as int);
                    },
                    Judgement::Keep => {},
                }
            }
        },
        Stage::Reporting => {
            if v.report.last() is Pass {
                assert(v.report =~= v.report.drop_last().push(v.report.last()));
                lemma_push_drop_last(v.report, Verdict::Pass);
            }
        },
        Stage::Finished => {},
        Stage::Halted => {},
    }
}

/// The harness before its first step is well formed.
pub proof fn lemma_start_well_formed(plan: Seq<ScenarioView>)
    requires
        plan_fits(plan),
    ensures
        HarnessView::start(plan).well_formed(),
{
    lemma_push_drop_last(Seq::empty(), Verdict::Pass);
}

/// The harness itself. It owns its plan and is made and changed only by
/// its own functions, so it is well formed wherever it is seen.
pub struct Harness {
    plan: Vec<Scenario>,
    scenario: usize,
    pc: usize,
    slots: Vec<Option<Block>>,
    report: Vec<Verdict>,
    stage: Stage,
}

impl View for Harness {
    type V = HarnessView;

    closed spec fn view(&self) -> HarnessView {
        HarnessView {
            plan: plan_view(self.plan@),
            scenario: self.scenario as nat,
            pc: self.pc as nat,
            slots: self.slots@,
            report: self.report@,
            stage: self.stage,
        }
    }
}

/// A plan that is held in memory fits.
pub proof fn lemma_plan_fits(plan: &Vec<Scenario>)
    ensures
        plan_fits(plan_view(plan@)),
{
    assert(plan.len() == plan@.len());
    assert forall|k: int| 0 <= k < plan_view(plan@).len() implies (#[trigger] plan_view(
        plan@,
    )[k]).script.len() <= usize::MAX by {
        let scenario = plan@[k];
        assert(scenario.script.len() == scenario.script@.len());
    }
}

/// Slots for a harness that holds no block yet.
fn empty_slots() -> (slots: Vec<Option<Block>>)
    ensures
        slots@ == Seq::new(SLOT_COUNT as nat, |i: int| None::<Block>),
{
    let mut slots: Vec<Option<Block>> = Vec::new();
    let mut i: usize = 0;
    while i < SLOT_COUNT
        invariant
            i <= SLOT_COUNT,
            slots@.len() == i,
            forall|j: int| 0 <= j < i ==> slots@[j] is None,
        decreases SLOT_COUNT - i,
    {
        slots.push(None);
        i = i + 1;
    }
    assert(slots@ =~= Seq::new(SLOT_COUNT as nat, |i: int| None::<Block>));
    slots
}

impl Harness {
    #[verifier::type_invariant]
    spec fn inv(&self) -> bool {
        self@.well_formed()
    }

    /// Puts the harness at the start of scenario `scenario`.
    fn enter(
        plan: Vec<Scenario>,
        scenario: usize,
        slots: Vec<Option<Block>>,
        report: Vec<Verdict>,
    ) -> (harness: Harness)
        requires
            HarnessView::enter(plan_view(plan@), scenario as nat, slots@, report@).well_formed(),
        ensures
            harness@ == HarnessView::enter(plan_view(plan@), scenario as nat, slots@, report@),
    {
        if scenario >= plan.len() {
            let end: usize = plan.len();
            Harness { plan, scenario: end, pc: 0, slots, report, stage: Stage::Finished }
        } else if plan[scenario].script.len() == 0 {
            let mut report = report;
            report.push(Verdict::Pass);
            Harness { plan, scenario, pc: 0, slots, report, stage: Stage::Reporting }
        } else {
            Harness { plan, scenario, pc: 0, slots, report, stage: Stage::Running }
        }
    }

    /// A harness for `plan`, before its first step.
    pub fn new(plan: Vec<Scenario>) -> (harness: Harness)
        ensures
            harness@ == HarnessView::start(plan_view(plan@)),
            harness@.well_formed(),
    {
        proof {
            lemma_plan_fits(&plan);
            lemma_start_well_formed(plan_view(plan@));
        }
        Harness::enter(plan, 0, empty_slots(), Vec::new())
    }

    /// What the harness needs next.
    pub fn pending(&self) -> (step: Step)
        ensures
            step == self@.pending(),
    {
        proof {
            use_type_invariant(self);
        }
        match self.stage {
            Stage::Running => {
                let op = self.plan[self.scenario].script[self.pc];
                match request_for(op, &self.slots) {
                    Some(request) => Step::Ask(request),
                    None => Step::Skip,
                }
            },
            Stage::Reporting => Step::Tell {
                scenario: self.scenario,
                verdict: self.report[self.report.len() - 1],
            },
            Stage::Finished => Step::Over { passed: true },
            Stage::Halted => Step::Over { passed: false },
        }
    }

    /// The label of scenario `scenario`, where the plan has one.
    pub fn label(&self, scenario: usize) -> (label: Option<&String>)
        ensures
            scenario < self@.plan.len() ==> label is Some && label->0@ == self@.label(
                scenario as int,
            ),
            scenario >= self@.plan.len() ==> label is None,
    {
        if scenario < self.plan.len() {
            Some(&self.plan[scenario].label)
        } else {
            None
        }
    }

    /// The number of scenarios in the plan.
    pub fn plan_len(&self) -> (n: usize)
        ensures
            n == self@.plan.len(),
    {
        self.plan.len()
    }

    /// The verdicts so far, one for each scenario that was judged, in the
    /// order of the plan.
    pub fn report(&self) -> (report: Vec<Verdict>)
        ensures
            report@ == self@.report,
    {
        let mut report: Vec<Verdict> = Vec::new();
        let mut i: usize = 0;
        while i < self.report.len()
            invariant
                i <= self.report@.len(),
                report@ == self.report@.take(i as int),
            decreases self.report@.len() - i,
        {
            report.push(self.report[i]);
            assert(self.report@.take(i + 1) =~= self.report@.take(i as int).push(
                self.report@[i as int],
            ));
            i = i + 1;
        }
        assert(self.report@.take(i as int) =~= self.report@);
        report
    }

    /// The scenario that failed, with its verdict, if one did.
    pub fn failure(&self) -> (failure: Option<(usize, Verdict)>)
        ensures
            failure == self@.failure(),
    {
        let n: usize = self.report.len();
        if n == 0 {
            None
        } else {
            match self.report[n - 1] {
                Verdict::Pass => None,
                Verdict::Fail { step, finding } => Some((n - 1, Verdict::Fail { step, finding })),
            }
        }
    }

    /// Whether the harness takes no further step.
    pub fn is_over(&self) -> (over: bool)
        ensures
            over == self@.over(),
    {
        match self.stage {
            Stage::Finished => true,
            Stage::Halted => true,
            _ => false,
        }
    }

    /// Takes the reply to what was pending and moves on.
    pub fn advance(self, reply: &Reply) -> (harness: Harness)
        ensures
            harness@ == self@.next(*reply),
            harness@.well_formed(),
    {
        proof {
            use_type_invariant(&self);
            lemma_next_well_formed(self@, *reply);
        }
        match self.stage {
            Stage::Running => {
                let op = self.plan[self.scenario].script[self.pc];
                match request_for(op, &self.slots) {
                    Some(_) => {
                        let judgement = judge_reply(op, &self.slots, reply);
                        let Harness { plan, scenario, pc, mut slots, mut report, stage } = self;
                        match judgement {
                            Judgement::Reject(finding) => {
                                report.push(Verdict::Fail { step: pc, finding });
                                Harness {
                                    plan,
                                    scenario,
                                    pc,
                                    slots,
                                    report,
                                    stage: Stage::Reporting,
                                }
                            },
                            Judgement::Bind { slot, block } => {
                                if slot < slots.len() {
                                    slots.set(slot, Some(block));
                                }
                                Harness::proceed_with(plan, scenario, pc, slots, report)
                            },
                            Judgement::Free { slot } => {
                                if slot < slots.len() {
                                    slots.set(slot, None);
                                }
                                Harness::proceed_with(plan, scenario, pc, slots, report)
                            },
                            Judgement::Keep => Harness::proceed_with(
                                plan,
                                scenario,
                                pc,
                                slots,
                                report,
                            ),
                        }
                    },
                    None => {
                        let Harness { plan, scenario, pc, slots, report, stage } = self;
                        Harness::proceed_with(plan, scenario, pc, slots, report)
                    },
                }
            },
            Stage::Reporting => {
                let passed = match self.report[self.report.len() - 1] {
                    Verdict::Pass => true,
                    Verdict::Fail { .. } => false,
                };
                let Harness { plan, scenario, pc, slots, report, stage } = self;
                if passed {
                    Harness::enter(plan, scenario + 1, slots, report)
                } else {
                    Harness { plan, scenario, pc, slots, report, stage: Stage::Halted }
                }
            },
            Stage::Finished => self,
            Stage::Halted => self,
        }
    }

    /// The running harness one operation on, with `slots` as the operation
    /// left them.
    fn proceed_with(
        plan: Vec<Scenario>,
        scenario: usize,
        pc: usize,
        slots: Vec<Option<Block>>,
        report: Vec<Verdict>,
    ) -> (harness: Harness)
        requires
            scenario < plan@.len(),
            pc < plan@[scenario as int].script@.len(),
            (HarnessView {
                plan: plan_view(plan@),
                scenario: scenario as nat,
                pc: pc as nat,
                slots: slots@,
                report: report@,
                stage: Stage::Running,
            }).proceed(slots@).well_formed(),
        ensures
            harness@ == (HarnessView {
                plan: plan_view(plan@),
                scenario: scenario as nat,
                pc: pc as nat,
                slots: slots@,
                report: report@,
                stage: Stage::Running,
            }).proceed(slots@),
    {
        let len: usize = plan[scenario].script.len();
        if pc + 1 < len {
            Harness { plan, scenario, pc: pc + 1, slots, report, stage: Stage::Running }
        } else {
            let mut report = report;
            report.push(Verdict::Pass);
            Harness { plan, scenario, pc: pc + 1, slots, report, stage: Stage::Reporting }
        }
    }
}

} // verus!
