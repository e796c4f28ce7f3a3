use rstiny::battery::{round_trip, standard_plan};
use rstiny::block::Block;
use rstiny::harness::{Harness, Scenario, Step, Verdict};
use rstiny::pattern::{pattern_at, pattern_bytes};
use rstiny::scenario::{Finding, Op, Reply, Request};
use rstiny::selftest::{run_allocator_tests, TestReport};

/// A toy allocator whose blocks lie one behind the other.
struct Bump {
    next: usize,
    live: Vec<(usize, Vec<u8>)>,
}

impl Bump {
    fn new() -> Bump {
        Bump { next: 0x8000, live: Vec::new() }
    }

    fn find(&self, block: &Block) -> usize {
        self.live.iter().position(|(addr, _)| *addr == block.addr).expect("a live block")
    }

    fn take(&mut self, size: usize) -> usize {
        let addr = self.next;
        self.next += (size + 8) / 8 * 8;
        self.live.push((addr, vec![0; size]));
        addr
    }

    fn answer(&mut self, request: &Request) -> Reply {
        match request {
            Request::Allocate { size } => Reply::Address(Some(self.take(*size))),
            Request::Reallocate { block, size } => {
                let at = self.find(block);
                let (_, old) = self.live.remove(at);
                let addr = self.take(*size);
                let kept = old.len().min(*size);
                let last = self.live.len() - 1;
                self.live[last].1[..kept].copy_from_slice(&old[..kept]);
                Reply::Address(Some(addr))
            }
            Request::Deallocate { block } => {
                let at = self.find(block);
                self.live.remove(at);
                Reply::Done
            }
            Request::Fill { block, seed } => {
                let at = self.find(block);
                for i in 0..block.size {
                    self.live[at].1[i] = pattern_at(*seed, i);
                }
                Reply::Done
            }
            Request::Read { block, len } => {
                let at = self.find(block);
                Reply::Bytes(self.live[at].1[..*len].to_vec())
            }
        }
    }
}

/// Runs a harness to its end and returns the replies that the allocator
/// gave, in order.
fn replies_for(plan: Vec<Scenario>) -> (Vec<Reply>, Harness) {
    let mut harness = Harness::new(plan);
    let mut heap = Bump::new();
    let mut replies = Vec::new();
    loop {
        match harness.pending() {
            Step::Over { .. } => return (replies, harness),
            Step::Ask(request) => {
                let reply = heap.answer(&request);
                harness = harness.advance(&reply);
                replies.push(reply);
            }
            _ => harness = harness.advance(&Reply::Done),
        }
    }
}

fn one(script: Vec<Op>) -> Vec<Scenario> {
    vec![Scenario { label: String::from("one"), script }]
}

#[test]
fn a_new_harness_asks_for_the_first_operation() {
    let harness = Harness::new(standard_plan());
    assert_eq!(harness.plan_len(), 5);
    assert_eq!(harness.pending(), Step::Ask(Request::Allocate { size: 64 }));
    assert!(!harness.is_over());
    assert_eq!(harness.failure(), None);
    assert!(harness.report().is_empty());
    assert_eq!(
        harness.label(2).map(|label| label.as_str()),
        Some("growth (reallocation)")
    );
    assert_eq!(harness.label(5), None);
}

#[test]
fn a_harness_without_a_plan_is_over_at_once() {
    let harness = Harness::new(Vec::new());
    assert_eq!(harness.pending(), Step::Over { passed: true });
    assert!(harness.is_over());
    let harness = harness.advance(&Reply::Done);
    assert_eq!(harness.pending(), Step::Over { passed: true });
    assert!(harness.report().is_empty());
}

#[test]
fn a_scenario_steps_through_its_script() {
    let harness = Harness::new(one(vec![
        Op::Allocate { slot: 3, size: 4 },
        Op::Fill { slot: 3, seed: 9 },
        Op::Verify { slot: 3, len: 4, seed: 9 },
        Op::Release { slot: 3 },
    ]));
    let held = Block { addr: 0x40, size: 4 };
    assert_eq!(harness.pending(), Step::Ask(Request::Allocate { size: 4 }));
    let harness = harness.advance(&Reply::Address(Some(0x40)));
    assert_eq!(harness.pending(), Step::Ask(Request::Fill { block: held, seed: 9 }));
    let harness = harness.advance(&Reply::Done);
    assert_eq!(harness.pending(), Step::Ask(Request::Read { block: held, len: 4 }));
    let harness = harness.advance(&Reply::Bytes(vec![9, 10, 11, 12]));
    assert_eq!(harness.pending(), Step::Ask(Request::Deallocate { block: held }));
    let harness = harness.advance(&Reply::Done);
    assert_eq!(harness.pending(), Step::Tell { scenario: 0, verdict: Verdict::Pass });
    assert_eq!(harness.report(), vec![Verdict::Pass]);
    assert!(!harness.is_over());
    let harness = harness.advance(&Reply::Done);
    assert_eq!(harness.pending(), Step::Over { passed: true });
    assert!(harness.is_over());
    assert_eq!(harness.report(), vec![Verdict::Pass]);
}

#[test]
fn operations_without_a_request_are_passed_over() {
    let harness = Harness::new(one(vec![
        Op::Release { slot: 0 },
        Op::Probe { slot: 1, size: 0 },
        Op::Fill { slot: 1, seed: 1 },
        Op::Verify { slot: 9, len: 1, seed: 1 },
    ]));
    assert_eq!(harness.pending(), Step::Skip);
    let harness = harness.advance(&Reply::Done);
    assert_eq!(harness.pending(), Step::Ask(Request::Allocate { size: 0 }));
    let harness = harness.advance(&Reply::Address(None));
    assert_eq!(harness.pending(), Step::Skip);
    // What is passed over takes any reply as done.
    let harness = harness.advance(&Reply::Bytes(vec![1, 2, 3]));
    assert_eq!(harness.pending(), Step::Skip);
    let harness = harness.advance(&Reply::Address(Some(1)));
    assert_eq!(harness.pending(), Step::Tell { scenario: 0, verdict: Verdict::Pass });
}

#[test]
fn the_first_failure_halts_the_harness() {
    let plan = vec![
        Scenario { label: String::from("first"), script: vec![Op::Allocate { slot: 0, size: 8 }] },
        Scenario { label: String::from("second"), script: vec![Op::Allocate { slot: 1, size: 8 }] },
        Scenario { label: String::from("third"), script: vec![Op::Allocate { slot: 2, size: 8 }] },
    ];
    let harness = Harness::new(plan);
    let harness = harness.advance(&Reply::Address(Some(0x100)));
    let harness = harness.advance(&Reply::Done);
    assert_eq!(harness.pending(), Step::Ask(Request::Allocate { size: 8 }));
    let harness = harness.advance(&Reply::Address(Some(0x104)));
    let failed = Verdict::Fail { step: 0, finding: Finding::Misaligned { addr: 0x104 } };
    assert_eq!(harness.pending(), Step::Tell { scenario: 1, verdict: failed });
    assert_eq!(harness.failure(), Some((1, failed)));
    assert!(!harness.is_over());
    let harness = harness.advance(&Reply::Done);
    assert_eq!(harness.pending(), Step::Over { passed: false });
    assert!(harness.is_over());
    // Nothing moves it any more: the third scenario never runs.
    let harness = harness.advance(&Reply::Address(Some(0x200)));
    let harness = harness.advance(&Reply::Done);
    assert_eq!(harness.pending(), Step::Over { passed: false });
    assert_eq!(harness.report(), vec![Verdict::Pass, failed]);
    assert_eq!(harness.failure(), Some((1, failed)));
}

#[test]
fn live_blocks_may_not_overlap() {
    let harness = Harness::new(one(vec![
        Op::Allocate { slot: 0, size: 32 },
        Op::Allocate { slot: 1, size: 32 },
    ]));
    let harness = harness.advance(&Reply::Address(Some(0x100)));
    let harness = harness.advance(&Reply::Address(Some(0x118)));
    assert_eq!(
        harness.report(),
        vec![Verdict::Fail {
            step: 1,
            finding: Finding::Overlap {
                block: Block { addr: 0x118, size: 32 },
                slot: 0,
                with: Block { addr: 0x100, size: 32 },
            },
        }]
    );
}

#[test]
fn a_released_block_may_be_handed_out_again() {
    let (replies, harness) = replies_for(one(vec![
        Op::Allocate { slot: 0, size: 32 },
        Op::Release { slot: 0 },
        Op::Allocate { slot: 1, size: 32 },
    ]));
    assert_eq!(replies.len(), 3);
    assert_eq!(harness.report(), vec![Verdict::Pass]);
    let harness = Harness::new(one(vec![
        Op::Allocate { slot: 0, size: 32 },
        Op::Release { slot: 0 },
        Op::Allocate { slot: 1, size: 32 },
    ]));
    let harness = harness.advance(&Reply::Address(Some(0x100)));
    let harness = harness.advance(&Reply::Done);
    let harness = harness.advance(&Reply::Address(Some(0x100)));
    assert_eq!(harness.report(), vec![Verdict::Pass]);
}

#[test]
fn round_trip_of_any_size() {
    for size in [0usize, 1, 7, 8, 64, 255, 256, 257, 4096] {
        let harness = Harness::new(vec![round_trip(size)]);
        let harness = harness.advance(&Reply::Address(Some(0x1000)));
        let harness = harness.advance(&Reply::Done);
        let harness = harness.advance(&Reply::Bytes(pattern_bytes(0xA5, size)));
        let harness = harness.advance(&Reply::Done);
        // The second block may be the first one again, or any other.
        let harness = harness.advance(&Reply::Address(Some(0x2000)));
        let harness = harness.advance(&Reply::Done);
        let harness = harness.advance(&Reply::Bytes(pattern_bytes(0x5A, size)));
        let harness = harness.advance(&Reply::Done);
        assert_eq!(harness.report(), vec![Verdict::Pass], "size {}", size);
    }
}

#[test]
fn round_trip_fails_when_the_second_block_is_short() {
    let harness = Harness::new(vec![round_trip(16)]);
    let harness = harness.advance(&Reply::Address(Some(0x1000)));
    let harness = harness.advance(&Reply::Done);
    let harness = harness.advance(&Reply::Bytes(pattern_bytes(0xA5, 16)));
    let harness = harness.advance(&Reply::Done);
    let harness = harness.advance(&Reply::Address(Some(0x1000)));
    let harness = harness.advance(&Reply::Done);
    let mut bytes = pattern_bytes(0x5A, 16);
    bytes[15] = 0;
    let harness = harness.advance(&Reply::Bytes(bytes));
    assert_eq!(
        harness.report(),
        vec![Verdict::Fail {
            step: 6,
            finding: Finding::Corrupted { offset: 15, expected: 0x69, observed: 0 },
        }]
    );
}

#[test]
fn round_trip_fails_when_the_second_block_is_refused() {
    let harness = Harness::new(vec![round_trip(16)]);
    let harness = harness.advance(&Reply::Address(Some(0x1000)));
    let harness = harness.advance(&Reply::Done);
    let harness = harness.advance(&Reply::Bytes(pattern_bytes(0xA5, 16)));
    let harness = harness.advance(&Reply::Done);
    let harness = harness.advance(&Reply::Address(None));
    assert_eq!(
        harness.report(),
        vec![Verdict::Fail { step: 4, finding: Finding::Refused { size: 16 } }]
    );
}

#[test]
fn run_allocator_tests_on_the_battery() {
    let (replies, harness) = replies_for(standard_plan());
    assert_eq!(replies.len(), 59);
    assert_eq!(harness.report(), vec![Verdict::Pass; 5]);
    let report = run_allocator_tests(standard_plan(), &replies);
    assert_eq!(report.verdicts, vec![Verdict::Pass; 5]);
    assert_eq!(report.scenarios, 5);
    assert!(report.passed());
}

#[test]
fn run_allocator_tests_stops_at_the_first_failure() {
    let (mut replies, _) = replies_for(standard_plan());
    // The third read-back of the second scenario comes back damaged.
    replies[8 + 10] = Reply::Bytes(vec![0; 32]);
    let report = run_allocator_tests(standard_plan(), &replies);
    assert_eq!(
        report.verdicts,
        vec![
            Verdict::Pass,
            Verdict::Fail {
                step: 10,
                finding: Finding::Corrupted { offset: 0, expected: 0x30, observed: 0 },
            },
        ]
    );
    assert!(!report.passed());
}

#[test]
fn run_allocator_tests_with_too_few_replies() {
    let (mut replies, _) = replies_for(standard_plan());
    replies.truncate(8 + 16 + 3);
    let report = run_allocator_tests(standard_plan(), &replies);
    assert_eq!(report.verdicts, vec![Verdict::Pass, Verdict::Pass]);
    assert_eq!(report.scenarios, 5);
    assert!(!report.passed());
    let none = run_allocator_tests(standard_plan(), &Vec::new());
    assert!(none.verdicts.is_empty());
    assert!(!none.passed());
}

#[test]
fn run_allocator_tests_on_an_empty_plan() {
    let report = run_allocator_tests(Vec::new(), &Vec::new());
    assert!(report.verdicts.is_empty());
    assert_eq!(report.scenarios, 0);
    assert!(report.passed());
}

#[test]
fn a_report_passes_only_when_it_is_whole_and_clean() {
    let failed = Verdict::Fail { step: 0, finding: Finding::Null };
    assert!(TestReport { verdicts: vec![Verdict::Pass, Verdict::Pass], scenarios: 2 }.passed());
    assert!(!TestReport { verdicts: vec![Verdict::Pass], scenarios: 2 }.passed());
    assert!(!TestReport { verdicts: vec![Verdict::Pass, failed], scenarios: 2 }.passed());
    assert!(!TestReport { verdicts: vec![failed], scenarios: 1 }.passed());
}
