//! Changing the elements of an array through a mutable slice.

use vstd::prelude::*;

verus! {

/// Overwrites the first element, if there is one, with `"Modified"` and the
/// second, if there is one, with `"Slice"`. All others stay.
pub fn modify_str_array_by_mutable_slice(slice: &mut [&str])
    ensures
        final(slice)@.len() == old(slice)@.len(),
        final(slice)@.len() > 0 ==> final(slice)@[0]@ == "Modified"@,
        final(slice)@.len() > 1 ==> final(slice)@[1]@ == "Slice"@,
        forall|i: int| 2 <= i < old(slice)@.len() ==> final(slice)@[i] == old(slice)@[i],
{
    if !slice.is_empty() {
        slice[0] = "Modified";
    }
    if slice.len() > 1 {
        slice[1] = "Slice";
    }
}

/// Overwrites both elements of the borrowed array, so that the caller sees
/// the change.
pub fn write_array2(arr2: &mut [&str; 2])
    ensures
        final(arr2)@[0]@ == "Hello, Buddy!"@,
        final(arr2)@[1]@ == "Enjoy Blockchain!"@,
{
    arr2[0] = "Hello, Buddy!";
    arr2[1] = "Enjoy Blockchain!";
}

} // verus!
