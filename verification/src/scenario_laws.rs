//! What a pass of a scenario of the battery says, reply by reply.

use vstd::prelude::*;
use crate::battery::{
    boundary_script, concurrent_script, fragmentation_script, growth_script, round_trip_script,
};
use crate::block::Block;
use crate::harness::{lemma_next_well_formed, HarnessView};
use crate::harness_laws::{
    fits, lemma_after_take, lemma_failure_stays, lemma_script_step, on_script, upheld,
};
use crate::pattern::pattern;
use crate::scenario::{request_of, Op, Reply};

verus! {

/// The report of the run holds a pass for the scenario that `v` began.
pub open spec fn passed(v: HarnessView, replies: Seq<Reply>) -> bool {
    v.after(replies).report.len() > v.scenario && v.after(replies).report[v.scenario as int]
        is Pass
}

/// The report of the run holds a failure for the scenario that `v` began.
pub open spec fn failed(v: HarnessView, replies: Seq<Reply>) -> bool {
    v.after(replies).report.len() > v.scenario && v.after(replies).report[v.scenario as int]
        is Fail
}

/// The slots with the block that a reply brought for `slot`.
pub open spec fn with_block(
    slots: Seq<Option<Block>>,
    slot: usize,
    size: usize,
    reply: Reply,
) -> Seq<Option<Block>> {
    match reply {
        Reply::Address(Some(addr)) => slots.update(slot as int, Some(Block { addr, size })),
        _ => slots,
    }
}

/// The slots after a reply that upholds its operation.
pub open spec fn slots_after(op: Op, slots: Seq<Option<Block>>, reply: Reply) -> Seq<
    Option<Block>,
> {
    match op {
        Op::Allocate { slot, size } => with_block(slots, slot, size, reply),
        Op::Probe { slot, size } => with_block(slots, slot, size, reply),
        Op::Grow { slot, size } => with_block(slots, slot, size, reply),
        Op::Release { slot } => slots.update(slot as int, None),
        _ => slots,
    }
}

/// After `j` of the replies the run stands at operation `j` of the
/// scenario that `v` began, with these slots and nothing in the report
/// that was not there before.
#[verifier::opaque]
pub open spec fn at_step(
    v: HarnessView,
    replies: Seq<Reply>,
    j: int,
    slots: Seq<Option<Block>>,
) -> bool {
    on_script(v, v.after(replies.take(j)), j, slots)
}

/// A scenario begins at its first operation.
proof fn lemma_begin(v: HarnessView, replies: Seq<Reply>)
    requires
        v.well_formed(),
        v.stage is Running,
        v.pc == 0,
    ensures
        at_step(v, replies, 0, v.slots),
{
    reveal(at_step);
    assert(v.after(replies.take(0)) == v);
}

/// One link of the chain: the request of operation `j` and its reply.
proof fn lemma_link(v: HarnessView, replies: Seq<Reply>, j: int, slots: Seq<Option<Block>>)
    requires
        v.well_formed(),
        replies.len() == v.script().len(),
        0 <= j < replies.len(),
        at_step(v, replies, j, slots),
        request_of(v.script()[j], slots) is Some,
    ensures
        !upheld(v.script()[j], slots, replies[j]) ==> failed(v, replies),
        upheld(v.script()[j], slots, replies[j]) && j + 1 < replies.len() ==> at_step(
            v,
            replies,
            j + 1,
            slots_after(v.script()[j], slots, replies[j]),
        ),
        upheld(v.script()[j], slots, replies[j]) && j + 1 == replies.len() ==> passed(v, replies)
            && v.after(replies).slots == slots_after(v.script()[j], slots, replies[j]),
{
    reveal(at_step);
    let s = v.after(replies.take(j));
    lemma_after_take(v, replies, j);
    lemma_script_step(v, s, replies[j]);
    if !upheld(v.script()[j], slots, replies[j]) {
        lemma_failure_stays(v, replies, j + 1);
    } else if j + 1 == replies.len() {
        assert(replies.take(j + 1) =~= replies);
    }
}

/// One link of the chain that asks nothing: operation `j` makes no
/// request and is passed over, whatever the reply.
proof fn lemma_pass_over(v: HarnessView, replies: Seq<Reply>, j: int, slots: Seq<Option<Block>>)
    requires
        v.well_formed(),
        replies.len() == v.script().len(),
        0 <= j < replies.len(),
        at_step(v, replies, j, slots),
        request_of(v.script()[j], slots) is None,
    ensures
        j + 1 < replies.len() ==> at_step(v, replies, j + 1, slots),
        j + 1 == replies.len() ==> passed(v, replies) && v.after(replies).slots == slots,
{
    reveal(at_step);
    let s = v.after(replies.take(j));
    lemma_after_take(v, replies, j);
    lemma_next_well_formed(s, replies[j]);
    if j + 1 == replies.len() {
        assert(replies.take(j + 1) =~= replies);
    }
}

/// A pass and a failure exclude each other.
proof fn lemma_failed_is_not_passed(v: HarnessView, replies: Seq<Reply>)
    ensures
        failed(v, replies) ==> !passed(v, replies),
{
}

/// The round trip, for a block of any size.
///
/// A scenario that allocates a block of `size` bytes, writes a pattern
/// over all of it, reads it back, gives the block back and does the same
/// once more passes exactly when both allocations were served with a block
/// that fits beside the live blocks, both read-backs gave the whole
/// pattern, `size` bytes of it, and both writes and both releases were
/// done. So a pass says that the second block was there and was writable
/// in full. What the second block held before it was written is not
/// looked at.
/// A scenario that passes leaves every slot as it found it.
pub proof fn law_round_trip(v: HarnessView, size: usize, replies: Seq<Reply>)
    requires
        v.well_formed(),
        v.stage is Running,
        v.pc == 0,
        v.script() == round_trip_script(size),
        v.slots[0] is None,
        replies.len() == 8,
    ensures
        passed(v, replies) <==> ({
            &&& replies[0] matches Reply::Address(Some(first))
            &&& fits(v.slots, 0, Block { addr: first, size })
            &&& replies[1] is Done
            &&& replies[2] matches Reply::Bytes(bytes)
            &&& bytes@ == pattern(0xA5, size as nat)
            &&& replies[3] is Done
            &&& replies[4] matches Reply::Address(Some(second))
            &&& fits(v.slots, 0, Block { addr: second, size })
            &&& replies[5] is Done
            &&& replies[6] matches Reply::Bytes(again)
            &&& again@ == pattern(0x5A, size as nat)
            &&& replies[7] is Done
        }),
        passed(v, replies) ==> v.after(replies).slots == v.slots,
{
    let script = round_trip_script(size);
    assert(script.len() == 8);
    lemma_failed_is_not_passed(v, replies);
    lemma_begin(v, replies);
    lemma_link(v, replies, 0, v.slots);
    if upheld(script[0], v.slots, replies[0]) {
        let first = v.slots.update(0, Some(Block { addr: replies[0]->Address_0->0, size }));
        lemma_link(v, replies, 1, first);
        if upheld(script[1], first, replies[1]) {
            lemma_link(v, replies, 2, first);
            if upheld(script[2], first, replies[2]) {
                lemma_link(v, replies, 3, first);
                if upheld(script[3], first, replies[3]) {
                    assert(first.update(0, None) =~= v.slots);
                    lemma_link(v, replies, 4, v.slots);
                    if upheld(script[4], v.slots, replies[4]) {
                        let second = v.slots.update(
                            0,
                            Some(Block { addr: replies[4]->Address_0->0, size }),
                        );
                        lemma_link(v, replies, 5, second);
                        if upheld(script[5], second, replies[5]) {
                            lemma_link(v, replies, 6, second);
                            if upheld(script[6], second, replies[6]) {
                                lemma_link(v, replies, 7, second);
                                assert(second.update(0, None) =~= v.slots);
                            }
                        }
                    }
                }
            }
        }
    }
}

/// Growth keeps the contents, for blocks of any size.
///
/// A scenario that lets a block grow from `size` to `grown` bytes beside
/// a live neighbour passes exactly when: both blocks were served and fit;
/// the grown block was served and fits beside the neighbour; the first
/// `size` bytes of the grown block read back as they were written before
/// it grew; the neighbour reads back untouched, before and after the
/// grown block was written anew; the grown block reads back in full what
/// was written over all of it; and every write and release was done.
/// A scenario that passes leaves every slot as it found it.
pub proof fn law_growth(v: HarnessView, size: usize, grown: usize, replies: Seq<Reply>)
    requires
        v.well_formed(),
        v.stage is Running,
        v.pc == 0,
        v.script() == growth_script(size, grown),
        v.slots[0] is None,
        v.slots[1] is None,
        size <= grown,
        replies.len() == 12,
    ensures
        passed(v, replies) <==> ({
            &&& replies[0] matches Reply::Address(Some(first))
            &&& fits(v.slots, 0, Block { addr: first, size })
            &&& replies[1] matches Reply::Address(Some(beside))
            &&& fits(
                v.slots.update(0, Some(Block { addr: first, size })),
                1,
                Block { addr: beside, size },
            )
            &&& replies[2] is Done
            &&& replies[3] is Done
            &&& replies[4] matches Reply::Address(Some(moved))
            &&& fits(
                v.slots.update(0, Some(Block { addr: first, size })).update(
                    1,
                    Some(Block { addr: beside, size }),
                ),
                0,
                Block { addr: moved, size: grown },
            )
            &&& replies[5] matches Reply::Bytes(kept)
            &&& kept@ == pattern(0xC3, size as nat)
            &&& replies[6] matches Reply::Bytes(untouched)
            &&& untouched@ == pattern(0x3C, size as nat)
            &&& replies[7] is Done
            &&& replies[8] matches Reply::Bytes(whole)
            &&& whole@ == pattern(0x77, grown as nat)
            &&& replies[9] matches Reply::Bytes(still)
            &&& still@ == pattern(0x3C, size as nat)
            &&& replies[10] is Done
            &&& replies[11] is Done
        }),
        passed(v, replies) ==> v.after(replies).slots == v.slots,
{
    let script = growth_script(size, grown);
    assert(script.len() == 12);
    lemma_failed_is_not_passed(v, replies);
    lemma_begin(v, replies);
    lemma_link(v, replies, 0, v.slots);
    if upheld(script[0], v.slots, replies[0]) {
        let one = v.slots.update(0, Some(Block { addr: replies[0]->Address_0->0, size }));
        lemma_link(v, replies, 1, one);
        if upheld(script[1], one, replies[1]) {
            let both = one.update(1, Some(Block { addr: replies[1]->Address_0->0, size }));
            lemma_link(v, replies, 2, both);
            if upheld(script[2], both, replies[2]) {
                lemma_link(v, replies, 3, both);
                if upheld(script[3], both, replies[3]) {
                    lemma_link(v, replies, 4, both);
                    if upheld(script[4], both, replies[4]) {
                        let after = both.update(
                            0,
                            Some(Block { addr: replies[4]->Address_0->0, size: grown }),
                        );
                        lemma_link(v, replies, 5, after);
                        if upheld(script[5], after, replies[5]) {
                            lemma_link(v, replies, 6, after);
                            if upheld(script[6], after, replies[6]) {
                                lemma_link(v, replies, 7, after);
                                if upheld(script[7], after, replies[7]) {
                                    lemma_link(v, replies, 8, after);
                                    if upheld(script[8], after, replies[8]) {
                                        lemma_link(v, replies, 9, after);
                                        if upheld(script[9], after, replies[9]) {
                                            lemma_link(v, replies, 10, after);
                                            if upheld(script[10], after, replies[10]) {
                                                lemma_link(
                                                    v,
                                                    replies,
                                                    11,
                                                    after.update(0, None),
                                                );
                                                assert(after.update(0, None).update(1, None)
                                                    =~= v.slots);
                                            }
                                        }
                                    }
                                }
                            }
                        }
                    }
                }
            }
        }
    }
}

/// Reuse after a mixed free pattern, for blocks of any size.
///
/// A scenario that allocates four blocks, gives them back out of order and
/// then asks for one block of `large` bytes passes exactly when the four
/// blocks were served and fit one beside the other, the four releases were
/// done, the large block was served and fits beside what else is live, it
/// was written and read back in full, and it was given back.
/// A scenario that passes leaves every slot as it found it.
pub proof fn law_reuse_after_fragmentation(
    v: HarnessView,
    size: usize,
    large: usize,
    replies: Seq<Reply>,
)
    requires
        v.well_formed(),
        v.stage is Running,
        v.pc == 0,
        v.script() == fragmentation_script(size, large),
        forall|slot: int| 0 <= slot < 5 ==> v.slots[slot] is None,
        replies.len() == 12,
    ensures
        passed(v, replies) <==> ({
            &&& replies[0] matches Reply::Address(Some(a0))
            &&& replies[1] matches Reply::Address(Some(a1))
            &&& replies[2] matches Reply::Address(Some(a2))
            &&& replies[3] matches Reply::Address(Some(a3))
            &&& fits(v.slots, 0, Block { addr: a0, size })
            &&& fits(v.slots.update(0, Some(Block { addr: a0, size })), 1, Block { addr: a1, size })
            &&& fits(
                v.slots.update(0, Some(Block { addr: a0, size })).update(
                    1,
                    Some(Block { addr: a1, size }),
                ),
                2,
                Block { addr: a2, size },
            )
            &&& fits(
                v.slots.update(0, Some(Block { addr: a0, size })).update(
                    1,
                    Some(Block { addr: a1, size }),
                ).update(2, Some(Block { addr: a2, size })),
                3,
                Block { addr: a3, size },
            )
            &&& replies[4] is Done
            &&& replies[5] is Done
            &&& replies[6] is Done
            &&& replies[7] is Done
            &&& replies[8] matches Reply::Address(Some(addr))
            &&& fits(v.slots, 4, Block { addr, size: large })
            &&& replies[9] is Done
            &&& replies[10] matches Reply::Bytes(bytes)
            &&& bytes@ == pattern(0x99, large as nat)
            &&& replies[11] is Done
        }),
        passed(v, replies) ==> v.after(replies).slots == v.slots,
{
    let script = fragmentation_script(size, large);
    assert(script.len() == 12);
    lemma_failed_is_not_passed(v, replies);
    lemma_begin(v, replies);
    lemma_link(v, replies, 0, v.slots);
    if upheld(script[0], v.slots, replies[0]) {
        let one = v.slots.update(0, Some(Block { addr: replies[0]->Address_0->0, size }));
        lemma_link(v, replies, 1, one);
        if upheld(script[1], one, replies[1]) {
            let two = one.update(1, Some(Block { addr: replies[1]->Address_0->0, size }));
            lemma_link(v, replies, 2, two);
            if upheld(script[2], two, replies[2]) {
                let three = two.update(2, Some(Block { addr: replies[2]->Address_0->0, size }));
                lemma_link(v, replies, 3, three);
                if upheld(script[3], three, replies[3]) {
                    let four = three.update(
                        3,
                        Some(Block { addr: replies[3]->Address_0->0, size }),
                    );
                    lemma_link(v, replies, 4, four);
                    if upheld(script[4], four, replies[4]) {
                        let less = four.update(1, None);
                        lemma_link(v, replies, 5, less);
                        if upheld(script[5], less, replies[5]) {
                            let fewer = less.update(3, None);
                            lemma_link(v, replies, 6, fewer);
                            if upheld(script[6], fewer, replies[6]) {
                                let last = fewer.update(0, None);
                                lemma_link(v, replies, 7, last);
                                if upheld(script[7], last, replies[7]) {
                                    assert(last.update(2, None) =~= v.slots);
                                    lemma_reuse_tail(v, size, large, replies);
                                }
                            }
                        }
                    }
                }
            }
        }
    }
}

/// The end of the fragmentation scenario, from the large block on.
proof fn lemma_reuse_tail(v: HarnessView, size: usize, large: usize, replies: Seq<Reply>)
    requires
        v.well_formed(),
        v.script() == fragmentation_script(size, large),
        v.slots[4] is None,
        replies.len() == 12,
        at_step(v, replies, 8, v.slots),
    ensures
        passed(v, replies) <==> ({
            &&& replies[8] matches Reply::Address(Some(addr))
            &&& fits(v.slots, 4, Block { addr, size: large })
            &&& replies[9] is Done
            &&& replies[10] matches Reply::Bytes(bytes)
            &&& bytes@ == pattern(0x99, large as nat)
            &&& replies[11] is Done
        }),
        passed(v, replies) ==> v.after(replies).slots == v.slots,
{
    let script = fragmentation_script(size, large);
    assert(script.len() == 12);
    lemma_failed_is_not_passed(v, replies);
    lemma_link(v, replies, 8, v.slots);
    if upheld(script[8], v.slots, replies[8]) {
        let held = v.slots.update(4, Some(Block { addr: replies[8]->Address_0->0, size: large }));
        lemma_link(v, replies, 9, held);
        if upheld(script[9], held, replies[9]) {
            lemma_link(v, replies, 10, held);
            if upheld(script[10], held, replies[10]) {
                lemma_link(v, replies, 11, held);
                assert(held.update(4, None) =~= v.slots);
            }
        }
    }
}

/// Blocks that are live at once, of any size.
///
/// A scenario that holds four blocks at once passes exactly when each was
/// served and fits beside those served before it, each was written, each
/// read back its own pattern after the last one was written, and each was
/// given back.
/// A scenario that passes leaves every slot as it found it.
pub proof fn law_concurrent(v: HarnessView, size: usize, replies: Seq<Reply>)
    requires
        v.well_formed(),
        v.stage is Running,
        v.pc == 0,
        v.script() == concurrent_script(size),
        forall|slot: int| 0 <= slot < 4 ==> v.slots[slot] is None,
        replies.len() == 16,
    ensures
        passed(v, replies) <==> ({
            &&& replies[0] matches Reply::Address(Some(a0))
            &&& replies[1] matches Reply::Address(Some(a1))
            &&& replies[2] matches Reply::Address(Some(a2))
            &&& replies[3] matches Reply::Address(Some(a3))
            &&& fits(v.slots, 0, Block { addr: a0, size })
            &&& fits(v.slots.update(0, Some(Block { addr: a0, size })), 1, Block { addr: a1, size })
            &&& fits(
                v.slots.update(0, Some(Block { addr: a0, size })).update(
                    1,
                    Some(Block { addr: a1, size }),
                ),
                2,
                Block { addr: a2, size },
            )
            &&& fits(
                v.slots.update(0, Some(Block { addr: a0, size })).update(
                    1,
                    Some(Block { addr: a1, size }),
                ).update(2, Some(Block { addr: a2, size })),
                3,
                Block { addr: a3, size },
            )
            &&& replies[4] is Done
            &&& replies[5] is Done
            &&& replies[6] is Done
            &&& replies[7] is Done
            &&& replies[8] matches Reply::Bytes(b0)
            &&& replies[9] matches Reply::Bytes(b1)
            &&& replies[10] matches Reply::Bytes(b2)
            &&& replies[11] matches Reply::Bytes(b3)
            &&& b0@ == pattern(0x10, size as nat)
            &&& b1@ == pattern(0x20, size as nat)
            &&& b2@ == pattern(0x30, size as nat)
            &&& b3@ == pattern(0x40, size as nat)
            &&& replies[12] is Done
            &&& replies[13] is Done
            &&& replies[14] is Done
            &&& replies[15] is Done
        }),
        passed(v, replies) ==> v.after(replies).slots == v.slots,
{
    let script = concurrent_script(size);
    assert(script.len() == 16);
    lemma_failed_is_not_passed(v, replies);
    lemma_begin(v, replies);
    lemma_link(v, replies, 0, v.slots);
    if upheld(script[0], v.slots, replies[0]) {
        let one = v.slots.update(0, Some(Block { addr: replies[0]->Address_0->0, size }));
        lemma_link(v, replies, 1, one);
        if upheld(script[1], one, replies[1]) {
            let two = one.update(1, Some(Block { addr: replies[1]->Address_0->0, size }));
            lemma_link(v, replies, 2, two);
            if upheld(script[2], two, replies[2]) {
                let three = two.update(2, Some(Block { addr: replies[2]->Address_0->0, size }));
                lemma_link(v, replies, 3, three);
                if upheld(script[3], three, replies[3]) {
                    let four = three.update(
                        3,
                        Some(Block { addr: replies[3]->Address_0->0, size }),
                    );
                    lemma_concurrent_tail(v, size, replies, four);
                    assert(four.update(0, None).update(1, None).update(2, None).update(3, None)
                        =~= v.slots);
                }
            }
        }
    }
}

/// The rest of the scenario of live blocks, once all four are held.
proof fn lemma_concurrent_tail(
    v: HarnessView,
    size: usize,
    replies: Seq<Reply>,
    four: Seq<Option<Block>>,
)
    requires
        v.well_formed(),
        v.script() == concurrent_script(size),
        replies.len() == 16,
        at_step(v, replies, 4, four),
        four.len() == v.slots.len(),
        forall|slot: int| 0 <= slot < 4 ==> four[slot] is Some && (#[trigger] four[slot])->0.size == size,
    ensures
        passed(v, replies) <==> ({
            &&& replies[4] is Done
            &&& replies[5] is Done
            &&& replies[6] is Done
            &&& replies[7] is Done
            &&& replies[8] matches Reply::Bytes(b0)
            &&& replies[9] matches Reply::Bytes(b1)
            &&& replies[10] matches Reply::Bytes(b2)
            &&& replies[11] matches Reply::Bytes(b3)
            &&& b0@ == pattern(0x10, size as nat)
            &&& b1@ == pattern(0x20, size as nat)
            &&& b2@ == pattern(0x30, size as nat)
            &&& b3@ == pattern(0x40, size as nat)
            &&& replies[12] is Done
            &&& replies[13] is Done
            &&& replies[14] is Done
            &&& replies[15] is Done
        }),
        passed(v, replies) ==> v.after(replies).slots == four.update(0, None).update(
            1,
            None,
        ).update(2, None).update(3, None),
{
    let script = concurrent_script(size);
    assert(script.len() == 16);
    lemma_failed_is_not_passed(v, replies);
    assert(four[0] is Some && four[1] is Some && four[2] is Some && four[3] is Some);
    lemma_link(v, replies, 4, four);
    if upheld(script[4], four, replies[4]) {
        lemma_link(v, replies, 5, four);
        if upheld(script[5], four, replies[5]) {
            lemma_link(v, replies, 6, four);
            if upheld(script[6], four, replies[6]) {
                lemma_link(v, replies, 7, four);
                if upheld(script[7], four, replies[7]) {
                    lemma_link(v, replies, 8, four);
                    if upheld(script[8], four, replies[8]) {
                        lemma_link(v, replies, 9, four);
                        if upheld(script[9], four, replies[9]) {
                            lemma_link(v, replies, 10, four);
                            if upheld(script[10], four, replies[10]) {
                                lemma_link(v, replies, 11, four);
                                if upheld(script[11], four, replies[11]) {
                                    lemma_link(v, replies, 12, four);
                                    if upheld(script[12], four, replies[12]) {
                                        let three = four.update(0, None);
                                        lemma_link(v, replies, 13, three);
                                        if upheld(script[13], three, replies[13]) {
                                            let two = three.update(1, None);
                                            lemma_link(v, replies, 14, two);
                                            if upheld(script[14], two, replies[14]) {
                                                lemma_link(v, replies, 15, two.update(2, None));
                                            }
                                        }
                                    }
                                }
                            }
                        }
                    }
                }
            }
        }
    }
}

/// A request for no bytes, beside a live block of any size.
///
/// The scenario passes exactly when: the live block was served, fits and
/// was written; the request for no bytes was refused, or was served with
/// a handle of its own, one that conflicts with no live block; the live
/// block reads back as it was written, right after that request and once
/// more at the end; the handle, where one came, was given back; a further
/// block was served beside the live one, fits, and was written and read
/// back in full; and both blocks were given back.
/// A scenario that passes leaves every slot as it found it.
pub proof fn law_boundary(v: HarnessView, size: usize, replies: Seq<Reply>)
    requires
        v.well_formed(),
        v.stage is Running,
        v.pc == 0,
        v.script() == boundary_script(size),
        forall|slot: int| 0 <= slot < 3 ==> v.slots[slot] is None,
        replies.len() == 11,
    ensures
        passed(v, replies) <==> ({
            &&& replies[0] matches Reply::Address(Some(live))
            &&& fits(v.slots, 0, Block { addr: live, size })
            &&& replies[1] is Done
            &&& (replies[2] == Reply::Address(None) || (replies[2] matches Reply::Address(
                Some(handle),
            ) && fits(
                v.slots.update(0, Some(Block { addr: live, size })),
                1,
                Block { addr: handle, size: 0 },
            ) && replies[4] is Done))
            &&& replies[3] matches Reply::Bytes(kept)
            &&& kept@ == pattern(0xE1, size as nat)
            &&& replies[5] matches Reply::Address(Some(further))
            &&& fits(
                v.slots.update(0, Some(Block { addr: live, size })),
                2,
                Block { addr: further, size },
            )
            &&& replies[6] is Done
            &&& replies[7] matches Reply::Bytes(fresh)
            &&& fresh@ == pattern(0x1E, size as nat)
            &&& replies[8] matches Reply::Bytes(still)
            &&& still@ == pattern(0xE1, size as nat)
            &&& replies[9] is Done
            &&& replies[10] is Done
        }),
        passed(v, replies) ==> v.after(replies).slots == v.slots,
{
    let script = boundary_script(size);
    assert(script.len() == 11);
    lemma_failed_is_not_passed(v, replies);
    lemma_begin(v, replies);
    lemma_link(v, replies, 0, v.slots);
    if upheld(script[0], v.slots, replies[0]) {
        let one = v.slots.update(0, Some(Block { addr: replies[0]->Address_0->0, size }));
        lemma_link(v, replies, 1, one);
        if upheld(script[1], one, replies[1]) {
            lemma_link(v, replies, 2, one);
            if upheld(script[2], one, replies[2]) {
                if replies[2] == Reply::Address(None) {
                    lemma_link(v, replies, 3, one);
                    if upheld(script[3], one, replies[3]) {
                        lemma_pass_over(v, replies, 4, one);
                        lemma_boundary_tail(v, size, replies, one);
                        assert(one.update(0, None) =~= v.slots);
                    }
                } else {
                    let probed = one.update(
                        1,
                        Some(Block { addr: replies[2]->Address_0->0, size: 0 }),
                    );
                    lemma_link(v, replies, 3, probed);
                    if upheld(script[3], probed, replies[3]) {
                        lemma_link(v, replies, 4, probed);
                        if upheld(script[4], probed, replies[4]) {
                            assert(probed.update(1, None) =~= one);
                            lemma_boundary_tail(v, size, replies, one);
                            assert(one.update(0, None) =~= v.slots);
                        }
                    }
                }
            }
        }
    }
}

/// The end of the boundary scenario, from the further block on.
proof fn lemma_boundary_tail(
    v: HarnessView,
    size: usize,
    replies: Seq<Reply>,
    one: Seq<Option<Block>>,
)
    requires
        v.well_formed(),
        v.script() == boundary_script(size),
        replies.len() == 11,
        at_step(v, replies, 5, one),
        one.len() == v.slots.len(),
        one[0] is Some && one[0]->0.size == size,
        one[2] is None,
    ensures
        passed(v, replies) <==> ({
            &&& replies[5] matches Reply::Address(Some(further))
            &&& fits(one, 2, Block { addr: further, size })
            &&& replies[6] is Done
            &&& replies[7] matches Reply::Bytes(fresh)
            &&& fresh@ == pattern(0x1E, size as nat)
            &&& replies[8] matches Reply::Bytes(still)
            &&& still@ == pattern(0xE1, size as nat)
            &&& replies[9] is Done
            &&& replies[10] is Done
        }),
        passed(v, replies) ==> v.after(replies).slots == one.update(0, None),
{
    let script = boundary_script(size);
    assert(script.len() == 11);
    lemma_failed_is_not_passed(v, replies);
    lemma_link(v, replies, 5, one);
    if upheld(script[5], one, replies[5]) {
        let two = one.update(2, Some(Block { addr: replies[5]->Address_0->0, size }));
        lemma_link(v, replies, 6, two);
        if upheld(script[6], two, replies[6]) {
            lemma_link(v, replies, 7, two);
            if upheld(script[7], two, replies[7]) {
                lemma_link(v, replies, 8, two);
                if upheld(script[8], two, replies[8]) {
                    lemma_link(v, replies, 9, two);
                    if upheld(script[9], two, replies[9]) {
                        lemma_link(v, replies, 10, two.update(2, None));
                        assert(two.update(2, None).update(0, None) =~= one.update(0, None));
                    }
                }
            }
        }
    }
}

} // verus!
