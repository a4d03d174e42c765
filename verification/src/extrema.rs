//! The greatest and the least element of a slice, by reference.

use vstd::prelude::*;

verus! {

/// References to the greatest and the least element of a slice.
pub struct Extrema<'elt> {
    pub greatest: &'elt i32,
    pub least: &'elt i32,
}

/// Finds the greatest and the least element of a slice that is not empty.
pub fn find_extrema<'s>(slice: &'s [i32]) -> (extrema: Extrema<'s>)
    requires
        slice@.len() > 0,
    ensures
        forall|i: int|
            0 <= i < slice@.len() ==> *extrema.least <= #[trigger] slice@[i] && slice@[i]
                <= *extrema.greatest,
        exists|i: int| 0 <= i < slice@.len() && #[trigger] slice@[i] == *extrema.least,
        exists|i: int| 0 <= i < slice@.len() && #[trigger] slice@[i] == *extrema.greatest,
{
    let mut greatest = &slice[0];
    let mut least = &slice[0];

    let ghost mut at_least: int = 0;
    let ghost mut at_greatest: int = 0;
    for i in 1..slice.len()
        invariant
            forall|k: int| 0 <= k < i ==> *least <= #[trigger] slice@[k] && slice@[k] <= *greatest,
            0 <= at_least < i && slice@[at_least] == *least,
            0 <= at_greatest < i && slice@[at_greatest] == *greatest,
    {
        if slice[i] < *least {
            least = &slice[i];
            proof {
                at_least = i as int;
            }
        }
        if slice[i] > *greatest {
            greatest = &slice[i];
            proof {
                at_greatest = i as int;
            }
        }
    }
    Extrema { greatest, least }
}

} // verus!
