//! Small, self-contained building blocks: a rock-paper-scissors round
//! (validation of the player's text, the computer's draw, the outcome)
//! and a handful of elementary helpers on integers, strings, slices and
//! vectors.

pub mod array_type;
pub mod basic_syntax;
pub mod choice;
pub mod control_flow;
pub mod input;
pub mod references_borrowing;
pub mod round;
pub mod text;
pub mod user_input;
pub mod vector_type;
