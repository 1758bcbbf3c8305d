//! Changing a vector through a mutable reference.

use vstd::prelude::*;

verus! {

/// What `write_vector` leaves of `items`: the last element, if there is
/// one, replaced by 6; an empty vector gets the 6 alone.
pub open spec fn rewritten(items: Seq<i32>) -> Seq<i32> {
    if items.len() > 0 {
        items.drop_last().push(6)
    } else {
        items.push(6)
    }
}

/// Removes the last element, if any, and pushes 6.
pub fn write_vector(vec: &mut Vec<i32>)
    ensures
        final(vec)@ == rewritten(old(vec)@),
        final(vec)@.len() > 0 && final(vec)@.last() == 6,
{
    vec.pop();
    vec.push(6);
}

} // verus!
