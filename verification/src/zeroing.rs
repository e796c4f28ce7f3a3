//! Memory zeroing: the first thing a boot does.

use vstd::prelude::*;

verus! {

/// Writes zero over every byte of the statically allocated region whose
/// first content is undefined. The length of the region stays as it was.
pub fn zero_uninitialized_region(region: &mut [u8])
    ensures
        final(region)@.len() == old(region)@.len(),
        forall|i: int| 0 <= i < final(region)@.len() ==> final(region)@[i] == 0u8,
{
    let n: usize = region.len();
    let mut i: usize = 0;
    while i < n
        invariant
            i <= n,
            region@.len() == n,
            n == old(region)@.len(),
            forall|j: int| 0 <= j < i ==> region@[j] == 0u8,
        decreases n - i,
    {
        region[i] = 0u8;
        i = i + 1;
    }
}

} // verus!
