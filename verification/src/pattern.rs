//! The byte pattern that the harness writes into a block and expects back.

use vstd::prelude::*;
use vstd::arithmetic::div_mod::lemma_add_mod_noop_right;

verus! {

/// The byte that belongs at `index` of a block filled with `seed`: the seed
/// plus the index, modulo 256. Neighbouring bytes differ, so a block that
/// was moved by some bytes no longer reads back as its pattern.
pub open spec fn pattern_byte(seed: u8, index: int) -> u8 {
    ((seed as int + index) % 256) as u8
}

/// The first `len` bytes of the pattern of `seed`.
pub open spec fn pattern(seed: u8, len: nat) -> Seq<u8> {
    Seq::new(len, |i: int| pattern_byte(seed, i))
}

/// The first index from `from` on, below `len`, at which `observed` differs
/// from the pattern of `seed`.
pub open spec fn mismatch_from(observed: Seq<u8>, seed: u8, len: int, from: int) -> Option<int>
    decreases len - from,
{
    if from < 0 || from >= len || from >= observed.len() {
        None
    } else if observed[from] != pattern_byte(seed, from) {
        Some(from)
    } else {
        mismatch_from(observed, seed, len, from + 1)
    }
}

/// The byte to write at `index` of a block that is filled with `seed`.
pub fn pattern_at(seed: u8, index: usize) -> (byte: u8)
    ensures
        byte == pattern_byte(seed, index as int),
{
    let low: usize = index % 256;
    let sum: usize = seed as usize + low;
    proof {
        lemma_add_mod_noop_right(seed as int, index as int, 256);
    }
    (sum % 256) as u8
}

/// The pattern of `seed`, `len` bytes long.
pub fn pattern_bytes(seed: u8, len: usize) -> (bytes: Vec<u8>)
    ensures
        bytes@ == pattern(seed, len as nat),
{
    let mut bytes: Vec<u8> = Vec::new();
    let mut i: usize = 0;
    while i < len
        invariant
            i <= len,
            bytes@.len() == i,
            forall|j: int| 0 <= j < i ==> bytes@[j] == pattern_byte(seed, j),
        decreases len - i,
    {
        bytes.push(pattern_at(seed, i));
        i = i + 1;
    }
    assert(bytes@ =~= pattern(seed, len as nat));
    bytes
}

/// Compares what was read back with the pattern of `seed` and returns the
/// first offset below `observed.len()` at which the two differ.
pub fn first_mismatch(observed: &Vec<u8>, seed: u8) -> (at: Option<usize>)
    ensures
        at matches Some(i) ==> mismatch_from(observed@, seed, observed@.len() as int, 0) == Some(
            i as int,
        ),
        at is None ==> mismatch_from(observed@, seed, observed@.len() as int, 0) is None,
{
    let n: usize = observed.len();
    let mut i: usize = 0;
    while i < n
        invariant
            i <= n,
            n == observed@.len(),
            mismatch_from(observed@, seed, n as int, 0) == mismatch_from(
                observed@,
                seed,
                n as int,
                i as int,
            ),
        decreases n - i,
    {
        if observed[i] != pattern_at(seed, i) {
            return Some(i);
        }
        i = i + 1;
    }
    None
}

/// No mismatch from `from` on means that every byte from there on is the
/// pattern's, and a mismatch is the first byte that is not.
pub proof fn lemma_mismatch_from(observed: Seq<u8>, seed: u8, from: int)
    requires
        0 <= from,
    ensures
        mismatch_from(observed, seed, observed.len() as int, from) is None <==> (forall|i: int|
            from <= i < observed.len() ==> observed[i] == pattern_byte(seed, i)),
        mismatch_from(observed, seed, observed.len() as int, from) matches Some(at) ==> from <= at
            < observed.len() && observed[at] != pattern_byte(seed, at) && (forall|i: int|
            from <= i < at ==> observed[i] == pattern_byte(seed, i)),
    decreases observed.len() - from,
{
    if from < observed.len() {
        lemma_mismatch_from(observed, seed, from + 1);
        if observed[from] == pattern_byte(seed, from) {
            assert forall|i: int| from <= i < observed.len() && (forall|k: int|
                from + 1 <= k < observed.len() ==> observed[k] == pattern_byte(
                    seed,
                    k,
                )) implies observed[i] == pattern_byte(seed, i) by {
                if i > from {
                    assert(from + 1 <= i);
                }
            }
        }
    }
}

/// What reads back without a mismatch, at the length of the pattern, is the
/// pattern.
pub proof fn lemma_matches_pattern(observed: Seq<u8>, seed: u8)
    ensures
        mismatch_from(observed, seed, observed.len() as int, 0) is None <==> observed == pattern(
            seed,
            observed.len(),
        ),
{
    lemma_mismatch_from(observed, seed, 0);
    if mismatch_from(observed, seed, observed.len() as int, 0) is None {
        assert(observed =~= pattern(seed, observed.len()));
    }
}

} // verus!
