//! Branching on a value: `if` chains and `match`, each as an expression
//! that gives a line of text.

use vstd::prelude::*;
use crate::text::same_text;

verus! {

/// The line for a number, by the first condition of the chain that holds.
pub open spec fn size_message_of(number: u8) -> Seq<char> {
    if number < 5 {
        "Condition: number < 5 is true. Number is small."@
    } else if number > 20 {
        "Condition: number > 20 is true. Number is large."@
    } else if number == 10 {
        "Condition: number == 10 is true. Number is exactly 10!"@
    } else {
        "Condition: number is between 5 and 20 (inclusive), but not 10."@
    }
}

/// The line for a number, by the first condition of the chain that holds.
pub fn size_message(number: u8) -> (message: &'static str)
    ensures
        message@ == size_message_of(number),
{
    if number < 5 {
        "Condition: number < 5 is true. Number is small."
    } else if number > 20 {
        "Condition: number > 20 is true. Number is large."
    } else if number == 10 {
        "Condition: number == 10 is true. Number is exactly 10!"
    } else {
        "Condition: number is between 5 and 20 (inclusive), but not 10."
    }
}

/// An `if` as an expression: one text for each truth value.
pub fn condition_message(condition: bool) -> (message: &'static str)
    ensures
        condition ==> message@ == "Condition was true"@,
        !condition ==> message@ == "Condition was false"@,
{
    if condition {
        "Condition was true"
    } else {
        "Condition was false"
    }
}

/// The line for a value, by the pattern it falls under.
pub open spec fn match_message_of(value: u8) -> Seq<char> {
    if value == 0 {
        "Match: value is Zero"@
    } else if value == 1 {
        "Match: value is One"@
    } else if value == 2 || value == 3 {
        "Match: value is Two or Three"@
    } else if 4 <= value <= 6 {
        "Match: value is between Four and Six (inclusive)"@
    } else {
        "Match: value is something else (default case using wildcard `_`)"@
    }
}

/// The line for a value, by the pattern it falls under.
pub fn match_message(value: u8) -> (message: &'static str)
    ensures
        message@ == match_message_of(value),
{
    match value {
        0 => "Match: value is Zero",
        1 => "Match: value is One",
        2 | 3 => "Match: value is Two or Three",
        4..=6 => "Match: value is between Four and Six (inclusive)",
        _ => "Match: value is something else (default case using wildcard `_`)",
    }
}

/// What kind of fruit a food is.
pub open spec fn fruit_type_of(food: Seq<char>) -> Seq<char> {
    if food == "apple"@ {
        "It's a crunchy fruit!"@
    } else if food == "banana"@ {
        "It's a soft fruit!"@
    } else if food == "orange"@ || food == "lemon"@ {
        "It's a citrus fruit!"@
    } else {
        "It's some other kind of food."@
    }
}

/// What kind of fruit a food is.
pub fn fruit_type(food: &str) -> (kind: &'static str)
    ensures
        kind@ == fruit_type_of(food@),
{
    if same_text(food, "apple") {
        "It's a crunchy fruit!"
    } else if same_text(food, "banana") {
        "It's a soft fruit!"
    } else if same_text(food, "orange") || same_text(food, "lemon") {
        "It's a citrus fruit!"
    } else {
        "It's some other kind of food."
    }
}

} // verus!
