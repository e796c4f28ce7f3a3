use rstiny::battery::{boundary, concurrent, fragmentation, growth, round_trip, standard_plan};
use rstiny::block::{find_conflict, Block, BLOCK_ALIGN};
use rstiny::harness::Verdict;
use rstiny::logging::Level;
use rstiny::pattern::{first_mismatch, pattern_at, pattern_bytes};
use rstiny::report::{level_of_verdict, render_failure, render_finding, render_verdict};
use rstiny::scenario::{
    block_in, compare_bytes, judge_reply, place_block, request_for, Finding, Judgement, Op, Reply,
    Request, SLOT_COUNT,
};
use rstiny::text::push_decimal;
use rstiny::zeroing::zero_uninitialized_region;

fn decimal(n: usize) -> String {
    let mut out = String::from("n=");
    push_decimal(&mut out, n);
    out
}

#[test]
fn decimal_text() {
    assert_eq!(decimal(0), "n=0");
    assert_eq!(decimal(7), "n=7");
    assert_eq!(decimal(10), "n=10");
    assert_eq!(decimal(255), "n=255");
    assert_eq!(decimal(1_000_000), "n=1000000");
    assert_eq!(decimal(usize::MAX), format!("n={}", usize::MAX));
}

#[test]
fn pattern_is_the_seed_plus_the_index_modulo_256() {
    assert_eq!(pattern_at(0xA5, 0), 0xA5);
    assert_eq!(pattern_at(0xA5, 1), 0xA6);
    assert_eq!(pattern_at(0xFF, 1), 0);
    assert_eq!(pattern_at(0x10, 256), 0x10);
    assert_eq!(pattern_at(200, 100), 44);
    assert_eq!(pattern_at(1, usize::MAX), 0);
    assert_eq!(pattern_bytes(0xFE, 4), vec![0xFE, 0xFF, 0x00, 0x01]);
    assert_eq!(pattern_bytes(9, 0), Vec::<u8>::new());
}

#[test]
fn first_mismatch_is_the_lowest_offset_that_differs() {
    assert_eq!(first_mismatch(&pattern_bytes(0x33, 300), 0x33), None);
    assert_eq!(first_mismatch(&Vec::new(), 0x33), None);
    let mut bytes = pattern_bytes(0x33, 300);
    bytes[299] ^= 1;
    assert_eq!(first_mismatch(&bytes, 0x33), Some(299));
    bytes[17] ^= 0x80;
    assert_eq!(first_mismatch(&bytes, 0x33), Some(17));
    // The pattern of another seed differs at once.
    assert_eq!(first_mismatch(&pattern_bytes(0x34, 8), 0x33), Some(0));
}

#[test]
fn zeroing_clears_every_byte_and_keeps_the_length() {
    let mut region = vec![0xAAu8; 4096];
    region[0] = 1;
    region[4095] = 0xFF;
    zero_uninitialized_region(&mut region);
    assert_eq!(region.len(), 4096);
    assert!(region.iter().all(|byte| *byte == 0));
    let mut nothing: Vec<u8> = Vec::new();
    zero_uninitialized_region(&mut nothing);
    assert!(nothing.is_empty());
    let mut part = vec![7u8; 8];
    zero_uninitialized_region(&mut part[2..6]);
    assert_eq!(part, vec![7, 7, 0, 0, 0, 0, 7, 7]);
}

fn block(addr: usize, size: usize) -> Block {
    Block { addr, size }
}

#[test]
fn blocks_conflict_when_they_share_a_byte_or_an_address() {
    assert!(block(16, 8).clashes(&block(16, 8)));
    assert!(block(16, 8).clashes(&block(23, 8)));
    assert!(block(23, 8).clashes(&block(16, 8)));
    assert!(!block(16, 8).clashes(&block(24, 8)));
    assert!(!block(24, 8).clashes(&block(16, 8)));
    // A block of no bytes: a handle that has to be its own.
    assert!(block(16, 0).clashes(&block(16, 0)));
    assert!(block(16, 0).clashes(&block(16, 8)));
    assert!(block(20, 0).clashes(&block(16, 8)));
    assert!(!block(24, 0).clashes(&block(16, 8)));
    assert!(!block(8, 0).clashes(&block(16, 0)));
    // Blocks at the top of the address space.
    assert!(block(usize::MAX - 7, 8).clashes(&block(usize::MAX - 3, 100)));
    assert!(!block(8, usize::MAX).clashes(&block(0, 8)));
}

#[test]
fn sound_blocks() {
    assert_eq!(BLOCK_ALIGN, 8);
    assert!(block(8, 0).is_sound());
    assert!(block(0x1000, 64).is_sound());
    assert!(!block(0, 64).is_sound());
    assert!(!block(0x1004, 64).is_sound());
    assert!(block(usize::MAX - 7, 7).is_sound());
    assert!(!block(usize::MAX - 7, 8).is_sound());
}

fn slots(held: &[(usize, Block)]) -> Vec<Option<Block>> {
    let mut slots = vec![None; SLOT_COUNT];
    for (slot, block) in held {
        slots[*slot] = Some(*block);
    }
    slots
}

#[test]
fn find_conflict_gives_the_lowest_slot_and_leaves_one_out() {
    let held = slots(&[(1, block(0x100, 32)), (3, block(0x200, 32)), (5, block(0x110, 8))]);
    assert_eq!(find_conflict(&held, block(0x300, 8), 0), None);
    assert_eq!(find_conflict(&held, block(0x118, 16), 0), Some(1));
    assert_eq!(find_conflict(&held, block(0x110, 4), 0), Some(1));
    assert_eq!(find_conflict(&held, block(0x110, 4), 1), Some(5));
    assert_eq!(find_conflict(&held, block(0x200, 64), 3), None);
    assert_eq!(find_conflict(&held, block(0x200, 64), 7), Some(3));
    assert_eq!(find_conflict(&Vec::new(), block(0x200, 64), 0), None);
}

#[test]
fn operations_ask_what_the_slots_allow() {
    let held = slots(&[(2, block(0x100, 32))]);
    assert_eq!(SLOT_COUNT, 8);
    assert_eq!(block_in(&held, 2), Some(block(0x100, 32)));
    assert_eq!(block_in(&held, 0), None);
    assert_eq!(block_in(&held, 8), None);
    assert_eq!(
        request_for(Op::Allocate { slot: 0, size: 9 }, &held),
        Some(Request::Allocate { size: 9 })
    );
    assert_eq!(request_for(Op::Probe { slot: 0, size: 0 }, &held), Some(Request::Allocate { size: 0 }));
    assert_eq!(request_for(Op::Allocate { slot: 2, size: 9 }, &held), None);
    assert_eq!(request_for(Op::Allocate { slot: 8, size: 9 }, &held), None);
    assert_eq!(request_for(Op::Probe { slot: 2, size: 9 }, &held), None);
    assert_eq!(
        request_for(Op::Fill { slot: 2, seed: 4 }, &held),
        Some(Request::Fill { block: block(0x100, 32), seed: 4 })
    );
    assert_eq!(request_for(Op::Fill { slot: 1, seed: 4 }, &held), None);
    assert_eq!(
        request_for(Op::Verify { slot: 2, len: 32, seed: 4 }, &held),
        Some(Request::Read { block: block(0x100, 32), len: 32 })
    );
    assert_eq!(request_for(Op::Verify { slot: 2, len: 33, seed: 4 }, &held), None);
    assert_eq!(request_for(Op::Verify { slot: 9, len: 1, seed: 4 }, &held), None);
    assert_eq!(
        request_for(Op::Grow { slot: 2, size: 64 }, &held),
        Some(Request::Reallocate { block: block(0x100, 32), size: 64 })
    );
    assert_eq!(request_for(Op::Grow { slot: 3, size: 64 }, &held), None);
    assert_eq!(
        request_for(Op::Release { slot: 2 }, &held),
        Some(Request::Deallocate { block: block(0x100, 32) })
    );
    assert_eq!(request_for(Op::Release { slot: 0 }, &held), None);
}

#[test]
fn each_finding_has_a_reply_that_gives_it() {
    let held = slots(&[(1, block(0x100, 32))]);
    let allocate = Op::Allocate { slot: 0, size: 16 };
    assert_eq!(
        judge_reply(allocate, &held, &Reply::Address(None)),
        Judgement::Reject(Finding::Refused { size: 16 })
    );
    assert_eq!(
        judge_reply(allocate, &held, &Reply::Address(Some(0))),
        Judgement::Reject(Finding::Null)
    );
    assert_eq!(
        judge_reply(allocate, &held, &Reply::Address(Some(0x204))),
        Judgement::Reject(Finding::Misaligned { addr: 0x204 })
    );
    assert_eq!(
        judge_reply(allocate, &held, &Reply::Address(Some(usize::MAX - 7))),
        Judgement::Reject(Finding::OutOfRange { block: block(usize::MAX - 7, 16) })
    );
    assert_eq!(
        judge_reply(allocate, &held, &Reply::Address(Some(0x118))),
        Judgement::Reject(Finding::Overlap {
            block: block(0x118, 16),
            slot: 1,
            with: block(0x100, 32)
        })
    );
    assert_eq!(
        judge_reply(allocate, &held, &Reply::Done),
        Judgement::Reject(Finding::Unexpected)
    );
    assert_eq!(
        judge_reply(allocate, &held, &Reply::Bytes(vec![1])),
        Judgement::Reject(Finding::Unexpected)
    );
    let verify = Op::Verify { slot: 1, len: 4, seed: 0x80 };
    assert_eq!(
        judge_reply(verify, &held, &Reply::Bytes(vec![0x80, 0x81, 0x00, 0x83])),
        Judgement::Reject(Finding::Corrupted { offset: 2, expected: 0x82, observed: 0 })
    );
    assert_eq!(
        judge_reply(verify, &held, &Reply::Bytes(vec![0x80, 0x81, 0x82])),
        Judgement::Reject(Finding::Truncated { len: 4, read: 3 })
    );
    assert_eq!(
        judge_reply(verify, &held, &Reply::Bytes(vec![0x80, 0x81, 0x82, 0x83, 0x84])),
        Judgement::Reject(Finding::Truncated { len: 4, read: 5 })
    );
    assert_eq!(judge_reply(verify, &held, &Reply::Done), Judgement::Reject(Finding::Unexpected));
}

#[test]
fn replies_that_are_upheld() {
    let held = slots(&[(1, block(0x100, 32))]);
    assert_eq!(
        judge_reply(Op::Allocate { slot: 0, size: 16 }, &held, &Reply::Address(Some(0x120))),
        Judgement::Bind { slot: 0, block: block(0x120, 16) }
    );
    assert_eq!(
        judge_reply(Op::Probe { slot: 0, size: 0 }, &held, &Reply::Address(None)),
        Judgement::Keep
    );
    assert_eq!(
        judge_reply(Op::Probe { slot: 0, size: 0 }, &held, &Reply::Address(Some(0x120))),
        Judgement::Bind { slot: 0, block: block(0x120, 0) }
    );
    assert_eq!(
        judge_reply(Op::Probe { slot: 0, size: 0 }, &held, &Reply::Address(Some(0x108))),
        Judgement::Reject(Finding::Overlap {
            block: block(0x108, 0),
            slot: 1,
            with: block(0x100, 32)
        })
    );
    // A block that grows may stay where it is.
    assert_eq!(
        judge_reply(Op::Grow { slot: 1, size: 64 }, &held, &Reply::Address(Some(0x100))),
        Judgement::Bind { slot: 1, block: block(0x100, 64) }
    );
    assert_eq!(
        judge_reply(Op::Grow { slot: 1, size: 64 }, &held, &Reply::Address(None)),
        Judgement::Reject(Finding::Refused { size: 64 })
    );
    assert_eq!(judge_reply(Op::Fill { slot: 1, seed: 1 }, &held, &Reply::Done), Judgement::Keep);
    assert_eq!(
        judge_reply(Op::Fill { slot: 1, seed: 1 }, &held, &Reply::Address(None)),
        Judgement::Reject(Finding::Unexpected)
    );
    assert_eq!(
        judge_reply(
            Op::Verify { slot: 1, len: 3, seed: 0xFF },
            &held,
            &Reply::Bytes(vec![0xFF, 0, 1])
        ),
        Judgement::Keep
    );
    assert_eq!(
        judge_reply(Op::Verify { slot: 1, len: 0, seed: 0xFF }, &held, &Reply::Bytes(Vec::new())),
        Judgement::Keep
    );
    assert_eq!(
        judge_reply(Op::Release { slot: 1 }, &held, &Reply::Done),
        Judgement::Free { slot: 1 }
    );
    assert_eq!(
        judge_reply(Op::Release { slot: 1 }, &held, &Reply::Bytes(Vec::new())),
        Judgement::Reject(Finding::Unexpected)
    );
    assert_eq!(place_block(&held, 0, block(0x120, 16)), Judgement::Bind {
        slot: 0,
        block: block(0x120, 16)
    });
    assert_eq!(compare_bytes(&vec![5, 6], 2, 5), Judgement::Keep);
}

#[test]
fn findings_in_words() {
    assert_eq!(
        render_finding(Finding::Refused { size: 64 }),
        "expected a block of 64 bytes, observed a refusal"
    );
    assert_eq!(render_finding(Finding::Null), "expected a block, observed the null address");
    assert_eq!(
        render_finding(Finding::Misaligned { addr: 4100 }),
        "expected an address aligned to 8, observed 4100"
    );
    assert_eq!(
        render_finding(Finding::OutOfRange { block: block(4096, 100) }),
        "expected a block inside the address space, observed 100 bytes at 4096"
    );
    assert_eq!(
        render_finding(Finding::Overlap { block: block(280, 16), slot: 1, with: block(256, 32) }),
        "expected no conflict with slot 1, which holds 32 bytes at 256, observed 16 bytes at 280"
    );
    assert_eq!(
        render_finding(Finding::Corrupted { offset: 12, expected: 207, observed: 0 }),
        "expected byte 207 at offset 12, observed byte 0"
    );
    assert_eq!(
        render_finding(Finding::Truncated { len: 64, read: 60 }),
        "expected 64 bytes read back, observed 60"
    );
    assert_eq!(
        render_finding(Finding::Unexpected),
        "expected a reply to the request, observed one of another kind"
    );
}

#[test]
fn verdicts_in_words() {
    assert_eq!(render_verdict("growth (reallocation)", Verdict::Pass), "allocator test `growth (reallocation)`: pass");
    let failed = Verdict::Fail { step: 4, finding: Finding::Refused { size: 128 } };
    assert_eq!(
        render_verdict("growth (reallocation)", failed),
        "allocator test `growth (reallocation)`: FAIL at step 4: \
         expected a block of 128 bytes, observed a refusal"
    );
    assert_eq!(
        render_failure("growth (reallocation)", failed),
        "allocator self-test failed: allocator test `growth (reallocation)`: FAIL at step 4: \
         expected a block of 128 bytes, observed a refusal"
    );
    assert_eq!(level_of_verdict(Verdict::Pass), Level::Info);
    assert_eq!(level_of_verdict(failed), Level::Error);
}

#[test]
fn the_battery_is_five_scenarios_in_a_fixed_order() {
    let plan = standard_plan();
    let labels: Vec<&str> = plan.iter().map(|scenario| scenario.label.as_str()).collect();
    assert_eq!(
        labels,
        vec![
            "single allocation/deallocation round-trip",
            "multiple concurrent live allocations",
            "growth (reallocation)",
            "fragmentation/reuse after mixed free pattern",
            "zero-size / boundary requests",
        ]
    );
    let lengths: Vec<usize> = plan.iter().map(|scenario| scenario.script.len()).collect();
    assert_eq!(lengths, vec![8, 16, 12, 12, 11]);
    assert_eq!(plan[0].script, round_trip(64).script);
    assert_eq!(plan[1].script, concurrent(32).script);
    assert_eq!(plan[2].script, growth(32, 128).script);
    assert_eq!(plan[3].script, fragmentation(64, 128).script);
    assert_eq!(plan[4].script, boundary(16).script);
}

#[test]
fn scripts_of_the_battery() {
    assert_eq!(
        round_trip(24).script,
        vec![
            Op::Allocate { slot: 0, size: 24 },
            Op::Fill { slot: 0, seed: 0xA5 },
            Op::Verify { slot: 0, len: 24, seed: 0xA5 },
            Op::Release { slot: 0 },
            Op::Allocate { slot: 0, size: 24 },
            Op::Fill { slot: 0, seed: 0x5A },
            Op::Verify { slot: 0, len: 24, seed: 0x5A },
            Op::Release { slot: 0 },
        ]
    );
    let grown = growth(8, 40).script;
    assert_eq!(grown[4], Op::Grow { slot: 0, size: 40 });
    assert_eq!(grown[5], Op::Verify { slot: 0, len: 8, seed: 0xC3 });
    assert_eq!(grown[8], Op::Verify { slot: 0, len: 40, seed: 0x77 });
    let mixed = fragmentation(8, 24).script;
    assert_eq!(
        mixed[4..9],
        [
            Op::Release { slot: 1 },
            Op::Release { slot: 3 },
            Op::Release { slot: 0 },
            Op::Release { slot: 2 },
            Op::Allocate { slot: 4, size: 24 },
        ]
    );
    assert_eq!(boundary(16).script[2], Op::Probe { slot: 1, size: 0 });
    assert_eq!(concurrent(4).label, "multiple concurrent live allocations");
}
