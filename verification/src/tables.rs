//! Auxiliary counting function used when tabulating base-13 chunk
//! conversions.

use vstd::prelude::*;

verus! {

/// The block count assigned to a group of four base-13 chunks of which `n`
/// are non-zero: 0, 0, 1, 13 and 170 for n = 0 through 4.
pub open spec fn spec_block_counting(n: int) -> u64 {
    if n == 2 {
        1
    } else if n == 3 {
        13
    } else if n == 4 {
        170
    } else {
        0
    }
}

/// The block count for `n` non-zero chunks out of four.
pub fn block_counting_function(n: usize) -> (r: u64)
    requires
        n <= 4,
    ensures
        r == spec_block_counting(n as int),
{
    if n == 2 {
        1
    } else if n == 3 {
        13
    } else if n == 4 {
        170
    } else {
        0
    }
}

} // verus!
