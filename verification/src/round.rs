//! One round of the game: the computer's draw, the pairing of the two
//! choices, and what is reported to the player.

use vstd::prelude::*;
use vstd::string::StringExecFns;
use rand::rngs::ThreadRng;
use rand::seq::SliceRandom;
use crate::choice::{Choice, Outcome, all_choices, name_of, outcome_of, resolve};
use crate::input::{lemma_parsed_some_iff, normalize_input, normalized, parse_choice, parsed};

verus! {

/// The thread-local random number generator of the `rand` crate. Nothing
/// inside it is visible here.
#[verifier::external_type_specification]
#[verifier::external_body]
pub struct ExThreadRng(rand::rngs::ThreadRng);

/// Calls `rand::thread_rng`, which hands out the generator of the current
/// thread, seeded by the operating system on first use; it does not return
/// where the system gives no seed. Nothing is claimed of the generator.
/// Trusted, not proved.
#[verifier::external_body]
fn thread_rng() -> ThreadRng {
    rand::thread_rng()
}

/// Calls `rand::seq::SliceRandom::choose` on a slice of choices. An empty
/// slice gives `None`; any other gives one of its elements, which one is
/// left open. Trusted, not proved.
#[verifier::external_body]
fn choose_one(choices: &[Choice], rng: &mut ThreadRng) -> (picked: Option<Choice>)
    ensures
        picked is None <==> choices@.len() == 0,
        picked is Some ==> choices@.contains(picked.unwrap()),
{
    choices.choose(rng).copied()
}

/// Draws the computer's choice at random from the three-element alphabet.
/// Which of the three comes out is up to the generator.
pub fn draw_computer_choice() -> (choice: Choice)
    ensures
        all_choices().contains(choice),
{
    let mut rng = thread_rng();
    let choices = Choice::all();
    match choose_one(choices.as_slice(), &mut rng) {
        Some(choice) => choice,
        None => vstd::pervasive::unreached(),
    }
}

/// The pairing of the player's choice with the computer's, for the one
/// comparison it is made for.
#[derive(Clone, Copy, Debug, PartialEq, Eq, Structural)]
pub struct Round {
    pub player: Choice,
    pub computer: Choice,
}

/// The round that a raw line of input opens against `computer`: none where
/// the line, once normalized, names no choice.
pub open spec fn round_of(raw: Seq<char>, computer: Choice) -> Option<Round> {
    match parsed(normalized(raw)) {
        Some(player) => Some(Round { player, computer }),
        None => None,
    }
}

/// What a raw line of input is worth against `computer`.
pub open spec fn played(raw: Seq<char>, computer: Choice) -> Option<Outcome> {
    match round_of(raw, computer) {
        Some(round) => Some(outcome_of(round.player, round.computer)),
        None => None,
    }
}

impl Round {
    /// Pairs the player's raw line of input with the computer's choice.
    /// Invalid text produces no round.
    pub fn from_input(raw: &str, computer: Choice) -> (round: Option<Round>)
        ensures
            round == round_of(raw@, computer),
            round is Some <==> parsed(normalized(raw@)) is Some,
    {
        let text = normalize_input(raw);
        match parse_choice(text.as_str()) {
            Some(player) => Some(Round { player, computer }),
            None => None,
        }
    }

    /// The result of the round, from the player's side.
    pub fn outcome(&self) -> (outcome: Outcome)
        ensures
            outcome == outcome_of(self.player, self.computer),
    {
        resolve(self.player, self.computer)
    }
}

/// Plays the player's raw line of input against the computer's choice.
/// Invalid text produces no outcome.
pub fn play(raw: &str, computer: Choice) -> (outcome: Option<Outcome>)
    ensures
        outcome == played(raw@, computer),
        outcome is Some <==> parsed(normalized(raw@)) is Some,
{
    match Round::from_input(raw, computer) {
        Some(round) => Some(round.outcome()),
        None => None,
    }
}

/// The line that tells the player which choice was understood.
pub open spec fn choice_message_of(choice: Choice) -> Seq<char> {
    "You chose: "@ + name_of(choice)
}

/// The line that tells the player which choice was understood.
pub fn choice_message(choice: Choice) -> (message: String)
    ensures
        message@ == choice_message_of(choice),
{
    String::from_str("You chose: ").concat(choice.name())
}

/// The line reported for an outcome.
pub open spec fn message_of(outcome: Outcome) -> Seq<char> {
    match outcome {
        Outcome::Win => "You win!"@,
        Outcome::Tie => "It's a tie!"@,
        Outcome::Lose => "You lose!"@,
    }
}

/// The line reported at the end of a run: the outcome's message, or the
/// guidance given for invalid input.
pub open spec fn report_of(outcome: Option<Outcome>) -> Seq<char> {
    match outcome {
        Some(outcome) => message_of(outcome),
        None => "Invalid choice. Please choose rock, paper, or scissors."@,
    }
}

/// The line reported for an outcome.
pub fn outcome_message(outcome: Outcome) -> (message: &'static str)
    ensures
        message@ == message_of(outcome),
{
    match outcome {
        Outcome::Win => "You win!",
        Outcome::Tie => "It's a tie!",
        Outcome::Lose => "You lose!",
    }
}

/// The guidance given when the input names no choice.
pub fn invalid_choice_message() -> (message: &'static str)
    ensures
        message@ == report_of(None),
{
    "Invalid choice. Please choose rock, paper, or scissors."
}

/// The line reported at the end of a run.
pub fn report(outcome: Option<Outcome>) -> (message: &'static str)
    ensures
        message@ == report_of(outcome),
{
    match outcome {
        Some(outcome) => outcome_message(outcome),
        None => invalid_choice_message(),
    }
}

/// A line of input opens a round as a given choice exactly when its normal
/// form is that choice's label, and the round is then worth what the
/// comparison of the two choices gives.
pub proof fn lemma_played(raw: Seq<char>, computer: Choice, player: Choice)
    ensures
        round_of(raw, computer) == Some(Round { player, computer }) <==> normalized(raw) == name_of(
            player,
        ),
        normalized(raw) == name_of(player) ==> played(raw, computer) == Some(
            outcome_of(player, computer),
        ),
        played(raw, computer) is None <==> round_of(raw, computer) is None,
        round_of(raw, computer) is None <==> parsed(normalized(raw)) is None,
{
    lemma_parsed_some_iff(normalized(raw));
}

} // verus!
