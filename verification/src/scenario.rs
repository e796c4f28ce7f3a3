//! What a test scenario is made of: scripted operations on numbered slots,
//! the requests they turn into, and the judgement of each reply.

use vstd::prelude::*;
use crate::block::{conflict_from, find_conflict, Block, BLOCK_ALIGN};
use crate::pattern::{first_mismatch, mismatch_from, pattern_at, pattern_byte};

verus! {

/// The number of slots that a script can name.
pub const SLOT_COUNT: usize = 8;

/// One scripted operation. A slot holds at most one live block.
#[derive(Clone, Copy, Debug, PartialEq, Eq, Structural)]
pub enum Op {
    /// Allocate `size` bytes into an empty slot. The allocator must succeed.
    Allocate { slot: usize, size: usize },
    /// Allocate `size` bytes into an empty slot. The allocator may refuse,
    /// and the slot then stays empty.
    Probe { slot: usize, size: usize },
    /// Write the pattern of `seed` over the whole block of the slot.
    Fill { slot: usize, seed: u8 },
    /// Read the first `len` bytes of the block back and expect the pattern
    /// of `seed`.
    Verify { slot: usize, len: usize, seed: u8 },
    /// Reallocate the block of the slot to `size` bytes. The allocator must
    /// succeed.
    Grow { slot: usize, size: usize },
    /// Give the block of the slot back.
    Release { slot: usize },
}

/// What the harness asks of the allocator and of the memory it handed out.
/// Every block is requested with an alignment of [`BLOCK_ALIGN`].
#[derive(Clone, Copy, Debug, PartialEq, Eq, Structural)]
pub enum Request {
    Allocate { size: usize },
    Reallocate { block: Block, size: usize },
    Deallocate { block: Block },
    /// Write `pattern_at(seed, i)` to byte `i` of the block, for every `i`.
    Fill { block: Block, seed: u8 },
    /// Read the first `len` bytes of the block.
    Read { block: Block, len: usize },
}

/// The answer to a [`Request`].
#[derive(Debug)]
pub enum Reply {
    /// `Deallocate` and `Fill` are answered so.
    Done,
    /// `Allocate` and `Reallocate` are answered with the address of the
    /// block, or with nothing where the allocator refused.
    Address(Option<usize>),
    /// `Read` is answered with the bytes that were read.
    Bytes(Vec<u8>),
}

/// What a scenario expected and what it observed instead.
#[derive(Clone, Copy, Debug, PartialEq, Eq, Structural)]
pub enum Finding {
    /// A block of `size` bytes was expected, the allocator refused.
    Refused { size: usize },
    /// A block was expected, the address was null.
    Null,
    /// An address aligned to [`BLOCK_ALIGN`] was expected.
    Misaligned { addr: usize },
    /// The block was expected to end inside the address space.
    OutOfRange { block: Block },
    /// The block was expected to conflict with no live block, and conflicts
    /// with the one in `slot`.
    Overlap { block: Block, slot: usize, with: Block },
    /// The byte at `offset` was expected to be the pattern's.
    Corrupted { offset: usize, expected: u8, observed: u8 },
    /// `len` bytes were to be read back, `read` came.
    Truncated { len: usize, read: usize },
    /// The reply was of another kind than the request calls for.
    Unexpected,
}

/// What a reply does to the slots, or why it is rejected.
#[derive(Clone, Copy, Debug, PartialEq, Eq, Structural)]
pub enum Judgement {
    /// The reply is as expected and the slots stay as they are.
    Keep,
    /// The reply is as expected and `slot` now holds `block`.
    Bind { slot: usize, block: Block },
    /// The reply is as expected and `slot` is empty again.
    Free { slot: usize },
    /// The reply violates what the operation expects.
    Reject(Finding),
}

/// The block that a slot holds, none for a slot that the script cannot name.
pub open spec fn held(slots: Seq<Option<Block>>, slot: usize) -> Option<Block> {
    if slot < slots.len() {
        slots[slot as int]
    } else {
        None
    }
}

/// Whether a script can allocate into `slot`: it exists and is empty.
pub open spec fn vacant(slots: Seq<Option<Block>>, slot: usize) -> bool {
    slot < slots.len() && slots[slot as int] is None
}

/// The request that an operation makes with the slots as they are. An
/// operation makes none, and is passed over, when it allocates into a slot
/// that is not vacant, works on a slot that holds no block, or reads more
/// bytes than the block has.
pub open spec fn request_of(op: Op, slots: Seq<Option<Block>>) -> Option<Request> {
    match op {
        Op::Allocate { slot, size } => if vacant(slots, slot) {
            Some(Request::Allocate { size })
        } else {
            None
        },
        Op::Probe { slot, size } => if vacant(slots, slot) {
            Some(Request::Allocate { size })
        } else {
            None
        },
        Op::Fill { slot, seed } => match held(slots, slot) {
            Some(block) => Some(Request::Fill { block, seed }),
            None => None,
        },
        Op::Verify { slot, len, seed } => match held(slots, slot) {
            Some(block) => if len <= block.size {
                Some(Request::Read { block, len })
            } else {
                None
            },
            None => None,
        },
        Op::Grow { slot, size } => match held(slots, slot) {
            Some(block) => Some(Request::Reallocate { block, size }),
            None => None,
        },
        Op::Release { slot } => match held(slots, slot) {
            Some(block) => Some(Request::Deallocate { block }),
            None => None,
        },
    }
}

/// The judgement of a block that the allocator handed out for `slot`: it
/// has to be sound and may conflict with no block of another slot.
pub open spec fn place(slots: Seq<Option<Block>>, slot: usize, block: Block) -> Judgement {
    if block.addr == 0 {
        Judgement::Reject(Finding::Null)
    } else if block.addr % BLOCK_ALIGN != 0 {
        Judgement::Reject(Finding::Misaligned { addr: block.addr })
    } else if block.end() > usize::MAX {
        Judgement::Reject(Finding::OutOfRange { block })
    } else {
        match conflict_from(slots, block, slot as int, 0) {
            Some(other) => Judgement::Reject(
                Finding::Overlap { block, slot: other as usize, with: slots[other]->0 },
            ),
            None => Judgement::Bind { slot, block },
        }
    }
}

/// The judgement of the bytes read back for a `Verify` of `len` bytes.
pub open spec fn compare(observed: Seq<u8>, len: usize, seed: u8) -> Judgement {
    if observed.len() != len {
        Judgement::Reject(Finding::Truncated { len, read: observed.len() as usize })
    } else {
        match mismatch_from(observed, seed, observed.len() as int, 0) {
            Some(at) => Judgement::Reject(
                Finding::Corrupted {
                    offset: at as usize,
                    expected: pattern_byte(seed, at),
                    observed: observed[at],
                },
            ),
            None => Judgement::Keep,
        }
    }
}

/// The judgement of the reply to the request that `op` made.
pub open spec fn judge(op: Op, slots: Seq<Option<Block>>, reply: Reply) -> Judgement {
    match op {
        Op::Allocate { slot, size } => match reply {
            Reply::Address(Some(addr)) => place(slots, slot, Block { addr, size }),
            Reply::Address(None) => Judgement::Reject(Finding::Refused { size }),
            _ => Judgement::Reject(Finding::Unexpected),
        },
        Op::Probe { slot, size } => match reply {
            Reply::Address(Some(addr)) => place(slots, slot, Block { addr, size }),
            Reply::Address(None) => Judgement::Keep,
            _ => Judgement::Reject(Finding::Unexpected),
        },
        Op::Fill { slot, seed } => match reply {
            Reply::Done => Judgement::Keep,
            _ => Judgement::Reject(Finding::Unexpected),
        },
        Op::Verify { slot, len, seed } => match reply {
            Reply::Bytes(bytes) => compare(bytes@, len, seed),
            _ => Judgement::Reject(Finding::Unexpected),
        },
        Op::Grow { slot, size } => match reply {
            Reply::Address(Some(addr)) => place(slots, slot, Block { addr, size }),
            Reply::Address(None) => Judgement::Reject(Finding::Refused { size }),
            _ => Judgement::Reject(Finding::Unexpected),
        },
        Op::Release { slot } => match reply {
            Reply::Done => Judgement::Free { slot },
            _ => Judgement::Reject(Finding::Unexpected),
        },
    }
}

/// The slots after a judgement that is no rejection.
pub open spec fn apply(slots: Seq<Option<Block>>, judgement: Judgement) -> Seq<Option<Block>> {
    match judgement {
        Judgement::Bind { slot, block } => if slot < slots.len() {
            slots.update(slot as int, Some(block))
        } else {
            slots
        },
        Judgement::Free { slot } => if slot < slots.len() {
            slots.update(slot as int, None)
        } else {
            slots
        },
        _ => slots,
    }
}

/// The block that `slot` holds.
pub fn block_in(slots: &Vec<Option<Block>>, slot: usize) -> (block: Option<Block>)
    ensures
        block == held(slots@, slot),
{
    if slot < slots.len() {
        slots[slot]
    } else {
        None
    }
}

/// Computes the request that `op` makes with the slots as they are.
pub fn request_for(op: Op, slots: &Vec<Option<Block>>) -> (request: Option<Request>)
    ensures
        request == request_of(op, slots@),
{
    match op {
        Op::Allocate { slot, size } => {
            if slot < slots.len() && slots[slot].is_none() {
                Some(Request::Allocate { size })
            } else {
                None
            }
        },
        Op::Probe { slot, size } => {
            if slot < slots.len() && slots[slot].is_none() {
                Some(Request::Allocate { size })
            } else {
                None
            }
        },
        Op::Fill { slot, seed } => match block_in(slots, slot) {
            Some(block) => Some(Request::Fill { block, seed }),
            None => None,
        },
        Op::Verify { slot, len, seed } => match block_in(slots, slot) {
            Some(block) => {
                if len <= block.size {
                    Some(Request::Read { block, len })
                } else {
                    None
                }
            },
            None => None,
        },
        Op::Grow { slot, size } => match block_in(slots, slot) {
            Some(block) => Some(Request::Reallocate { block, size }),
            None => None,
        },
        Op::Release { slot } => match block_in(slots, slot) {
            Some(block) => Some(Request::Deallocate { block }),
            None => None,
        },
    }
}

/// Judges a block that the allocator handed out for `slot`.
pub fn place_block(slots: &Vec<Option<Block>>, slot: usize, block: Block) -> (judgement: Judgement)
    ensures
        judgement == place(slots@, slot, block),
{
    if block.addr == 0 {
        Judgement::Reject(Finding::Null)
    } else if block.addr % BLOCK_ALIGN != 0 {
        Judgement::Reject(Finding::Misaligned { addr: block.addr })
    } else if block.size > usize::MAX - block.addr {
        Judgement::Reject(Finding::OutOfRange { block })
    } else {
        match find_conflict(slots, block, slot) {
            Some(other) => {
                proof {
                    crate::block::lemma_conflict_from(slots@, block, slot as int, 0);
                }
                let with = slots[other].unwrap();
                Judgement::Reject(Finding::Overlap { block, slot: other, with })
            },
            None => Judgement::Bind { slot, block },
        }
    }
}

/// Judges the bytes read back for a `Verify` of `len` bytes.
pub fn compare_bytes(observed: &Vec<u8>, len: usize, seed: u8) -> (judgement: Judgement)
    ensures
        judgement == compare(observed@, len, seed),
{
    if observed.len() != len {
        Judgement::Reject(Finding::Truncated { len, read: observed.len() })
    } else {
        match first_mismatch(observed, seed) {
            Some(at) => {
                proof {
                    crate::pattern::lemma_mismatch_from(observed@, seed, 0);
                }
                Judgement::Reject(
                    Finding::Corrupted {
                        offset: at,
                        expected: pattern_at(seed, at),
                        observed: observed[at],
                    },
                )
            },
            None => Judgement::Keep,
        }
    }
}

/// Judges the reply to the request that `op` made.
pub fn judge_reply(op: Op, slots: &Vec<Option<Block>>, reply: &Reply) -> (judgement: Judgement)
    ensures
        judgement == judge(op, slots@, *reply),
{
    match op {
        Op::Allocate { slot, size } => match reply {
            Reply::Address(Some(addr)) => place_block(slots, slot, Block { addr: *addr, size }),
            Reply::Address(None) => Judgement::Reject(Finding::Refused { size }),
            _ => Judgement::Reject(Finding::Unexpected),
        },
        Op::Probe { slot, size } => match reply {
            Reply::Address(Some(addr)) => place_block(slots, slot, Block { addr: *addr, size }),
            Reply::Address(None) => Judgement::Keep,
            _ => Judgement::Reject(Finding::Unexpected),
        },
        Op::Fill { slot, seed } => match reply {
            Reply::Done => Judgement::Keep,
            _ => Judgement::Reject(Finding::Unexpected),
        },
        Op::Verify { slot, len, seed } => match reply {
            Reply::Bytes(bytes) => compare_bytes(bytes, len, seed),
            _ => Judgement::Reject(Finding::Unexpected),
        },
        Op::Grow { slot, size } => match reply {
            Reply::Address(Some(addr)) => place_block(slots, slot, Block { addr: *addr, size }),
            Reply::Address(None) => Judgement::Reject(Finding::Refused { size }),
            _ => Judgement::Reject(Finding::Unexpected),
        },
        Op::Release { slot } => match reply {
            Reply::Done => Judgement::Free { slot },
            _ => Judgement::Reject(Finding::Unexpected),
        },
    }
}

} // verus!
