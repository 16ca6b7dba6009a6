//! Tensor shapes and their element counts.

use vstd::prelude::*;

verus! {

/// The shape of a rank-4 tensor: batch, channels, height, width.
pub type Shape4 = [usize; 4];

/// Whether a shape reported by a backend is exactly the expected one.
pub fn shape_matches(reported: &Vec<usize>, expected: &Shape4) -> (same: bool)
    ensures
        same == (reported@ == expected@),
{
    if reported.len() != 4 {
        return false;
    }
    let mut i: usize = 0;
    while i < 4
        invariant
            i <= 4,
            reported@.len() == 4,
            expected@.len() == 4,
            forall|j: int| 0 <= j < i ==> reported@[j] == expected@[j],
        decreases 4 - i,
    {
        if reported[i] != expected[i] {
            return false;
        }
        i = i + 1;
    }
    assert(reported@ =~= expected@);
    true
}

} // verus!
