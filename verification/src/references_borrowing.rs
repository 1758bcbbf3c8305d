//! Reading a string through a shared reference and changing it through a
//! mutable one.

use vstd::prelude::*;
use vstd::string::StringExecFns;
use crate::text::{byte_len, text_len};

verus! {

/// The length in bytes of a borrowed string, which stays with its owner.
pub fn calculate_length(s: &String) -> (length: usize)
    ensures
        length == byte_len(s@),
{
    text_len(s.as_str())
}

/// Appends `" world!"` to the borrowed string.
pub fn change_string(some_string: &mut String)
    ensures
        final(some_string)@ == old(some_string)@ + " world!"@,
{
    some_string.append(" world!");
}

/// The length in bytes of a borrowed string.
pub fn get_length(a: &String) -> (length: usize)
    ensures
        length == byte_len(a@),
{
    let length: usize = text_len(a.as_str());
    length
}

/// Appends `" Blockchain!"` to the borrowed string.
pub fn modified_string(b: &mut String)
    ensures
        final(b)@ == old(b)@ + " Blockchain!"@,
{
    b.append(" Blockchain!");
}

} // verus!
