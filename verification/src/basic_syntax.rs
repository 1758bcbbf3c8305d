//! Functions that return a value.

use vstd::prelude::*;

verus! {

/// The sum of two signed integers that fits the type.
pub fn add_numbers(a: i32, b: i32) -> (sum: i32)
    requires
        i32::MIN <= a + b <= i32::MAX,
    ensures
        sum == a + b,
{
    a + b
}

/// The sum of two small unsigned integers that fits the type.
pub fn add_original_main(x: u8, y: u8) -> (sum: u8)
    requires
        x + y <= u8::MAX,
    ensures
        sum == x + y,
{
    x + y
}

} // verus!
