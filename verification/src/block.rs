//! Blocks of the heap as the harness sees them: an address and a size.

use vstd::prelude::*;

verus! {

/// The alignment that every request of the harness asks for.
pub const BLOCK_ALIGN: usize = 8;

/// A block that the allocator handed out.
#[derive(Clone, Copy, Debug, PartialEq, Eq, Structural)]
pub struct Block {
    pub addr: usize,
    pub size: usize,
}

impl Block {
    /// The address one past the last byte of the block.
    pub open spec fn end(self) -> int {
        self.addr + self.size
    }

    /// Two blocks conflict when they have the same address or share a byte.
    /// A block of size zero conflicts with a block that it lies inside of.
    pub open spec fn conflicts(self, other: Block) -> bool {
        self.addr == other.addr || (self.addr < other.end() && other.addr < self.end())
    }

    /// A block is sound when its address is not null, is aligned to
    /// [`BLOCK_ALIGN`], and its last byte lies inside the address space.
    pub open spec fn sound(self) -> bool {
        self.addr != 0 && self.addr % BLOCK_ALIGN == 0 && self.end() <= usize::MAX
    }

    /// Whether `self` starts before the end of `other`, without computing
    /// that end.
    fn starts_before_end_of(&self, other: &Block) -> (b: bool)
        ensures
            b == (self.addr < other.end()),
    {
        self.addr < other.addr || self.addr - other.addr < other.size
    }

    pub fn clashes(&self, other: &Block) -> (b: bool)
        ensures
            b == self.conflicts(*other),
    {
        self.addr == other.addr || (self.starts_before_end_of(other) && other.starts_before_end_of(
            self,
        ))
    }

    pub fn is_sound(&self) -> (b: bool)
        ensures
            b == self.sound(),
    {
        self.addr != 0 && self.addr % BLOCK_ALIGN == 0 && self.size <= usize::MAX - self.addr
    }
}

/// The lowest slot from `from` on, other than `except`, that holds a block
/// in conflict with `candidate`.
pub open spec fn conflict_from(
    slots: Seq<Option<Block>>,
    candidate: Block,
    except: int,
    from: int,
) -> Option<int>
    decreases slots.len() - from,
{
    if from < 0 || from >= slots.len() {
        None
    } else if from != except && slots[from] is Some && slots[from]->0.conflicts(candidate) {
        Some(from)
    } else {
        conflict_from(slots, candidate, except, from + 1)
    }
}

/// No two slots hold blocks that conflict.
pub open spec fn disjoint(slots: Seq<Option<Block>>) -> bool {
    forall|i: int, j: int|
        0 <= i < slots.len() && 0 <= j < slots.len() && i != j && slots[i] is Some
            && slots[j] is Some ==> !(#[trigger] slots[i])->0.conflicts((#[trigger] slots[j])->0)
}

/// Looks for a live block that `candidate` conflicts with. The slot
/// `except` is left out: it is the one the candidate is about to replace.
pub fn find_conflict(slots: &Vec<Option<Block>>, candidate: Block, except: usize) -> (found:
    Option<usize>)
    ensures
        found matches Some(i) ==> conflict_from(slots@, candidate, except as int, 0) == Some(
            i as int,
        ),
        found is None ==> conflict_from(slots@, candidate, except as int, 0) is None,
{
    let n: usize = slots.len();
    let mut i: usize = 0;
    while i < n
        invariant
            i <= n,
            n == slots@.len(),
            conflict_from(slots@, candidate, except as int, 0) == conflict_from(
                slots@,
                candidate,
                except as int,
                i as int,
            ),
        decreases n - i,
    {
        if i != except {
            match slots[i] {
                Some(held) => {
                    if held.clashes(&candidate) {
                        return Some(i);
                    }
                },
                None => {},
            }
        }
        i = i + 1;
    }
    None
}

/// `conflict_from` finds nothing exactly when no slot from `from` on, but
/// `except`, holds a block in conflict with the candidate; what it finds is
/// the lowest such slot.
pub proof fn lemma_conflict_from(
    slots: Seq<Option<Block>>,
    candidate: Block,
    except: int,
    from: int,
)
    requires
        0 <= from,
    ensures
        conflict_from(slots, candidate, except, from) is None <==> (forall|i: int|
            from <= i < slots.len() && i != except && slots[i] is Some ==> !(#[trigger] slots[i])->0.conflicts(
                candidate,
            )),
        conflict_from(slots, candidate, except, from) matches Some(at) ==> from <= at < slots.len()
            && at != except && slots[at] is Some && slots[at]->0.conflicts(candidate),
    decreases slots.len() - from,
{
    if from < slots.len() {
        lemma_conflict_from(slots, candidate, except, from + 1);
    }
}

/// Putting a block into a slot keeps the slots disjoint when the block
/// conflicts with no other slot.
pub proof fn lemma_bind_keeps_disjoint(slots: Seq<Option<Block>>, slot: int, block: Block)
    requires
        disjoint(slots),
        0 <= slot < slots.len(),
        conflict_from(slots, block, slot, 0) is None,
    ensures
        disjoint(slots.update(slot, Some(block))),
{
    lemma_conflict_from(slots, block, slot, 0);
    let after = slots.update(slot, Some(block));
    assert forall|i: int, j: int|
        0 <= i < after.len() && 0 <= j < after.len() && i != j && after[i] is Some
            && after[j] is Some implies !(#[trigger] after[i])->0.conflicts(
        (#[trigger] after[j])->0,
    ) by {
        if i == slot {
            assert(slots[j] is Some);
            assert(!slots[j]->0.conflicts(block));
        } else if j == slot {
            assert(slots[i] is Some);
            assert(!slots[i]->0.conflicts(block));
        } else {
            assert(!slots[i]->0.conflicts(slots[j]->0));
        }
    }
}

/// Emptying a slot keeps the slots disjoint.
pub proof fn lemma_release_keeps_disjoint(slots: Seq<Option<Block>>, slot: int)
    requires
        disjoint(slots),
        0 <= slot < slots.len(),
    ensures
        disjoint(slots.update(slot, None)),
{
    let after = slots.update(slot, None::<Block>);
    assert forall|i: int, j: int|
        0 <= i < after.len() && 0 <= j < after.len() && i != j && after[i] is Some
            && after[j] is Some implies !(#[trigger] after[i])->0.conflicts(
        (#[trigger] after[j])->0,
    ) by {
        assert(!slots[i]->0.conflicts(slots[j]->0));
    }
}

} // verus!
