//! What is said about an age that was read from the console.

use vstd::prelude::*;

verus! {

/// The age from which a person counts as an adult.
pub const ADULT_AGE: u32 = 18;

/// The line that tells an adult from a minor.
pub open spec fn age_message_of(age: u32) -> Seq<char> {
    if age >= ADULT_AGE {
        "You are an adult."@
    } else {
        "You are a minor."@
    }
}

/// Whether a person of this age is an adult.
pub fn is_adult(age: u32) -> (adult: bool)
    ensures
        adult == (age >= ADULT_AGE),
{
    age >= ADULT_AGE
}

/// The line that tells an adult from a minor.
pub fn age_message(age: u32) -> (message: &'static str)
    ensures
        message@ == age_message_of(age),
{
    if is_adult(age) {
        "You are an adult."
    } else {
        "You are a minor."
    }
}

} // verus!
