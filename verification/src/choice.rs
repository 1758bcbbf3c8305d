//! The three-element alphabet of the game and the result of comparing two
//! of its elements.

use vstd::prelude::*;

verus! {

/// One of the three things a player can throw.
#[derive(Clone, Copy, Debug, PartialEq, Eq, Structural)]
pub enum Choice {
    Rock,
    Paper,
    Scissors,
}

/// The result of a round, seen from the player's side.
#[derive(Clone, Copy, Debug, PartialEq, Eq, Structural)]
pub enum Outcome {
    Win,
    Lose,
    Tie,
}

/// The canonical lowercase label of a choice.
pub open spec fn name_of(choice: Choice) -> Seq<char> {
    match choice {
        Choice::Rock => "rock"@,
        Choice::Paper => "paper"@,
        Choice::Scissors => "scissors"@,
    }
}

/// The alphabet, in its fixed order.
pub open spec fn all_choices() -> Seq<Choice> {
    seq![Choice::Rock, Choice::Paper, Choice::Scissors]
}

impl Choice {
    /// The canonical lowercase label.
    pub fn name(self) -> (label: &'static str)
        ensures
            label@ == name_of(self),
    {
        match self {
            Choice::Rock => "rock",
            Choice::Paper => "paper",
            Choice::Scissors => "scissors",
        }
    }

    /// The alphabet, in its fixed order.
    pub fn all() -> (choices: [Choice; 3])
        ensures
            choices@ == all_choices(),
    {
        let choices = [Choice::Rock, Choice::Paper, Choice::Scissors];
        assert(choices@ =~= all_choices());
        choices
    }
}

/// The beats-relation: rock blunts scissors, paper wraps rock, scissors cut
/// paper. Nothing else beats anything.
pub open spec fn beats(a: Choice, b: Choice) -> bool {
    ||| (a == Choice::Rock && b == Choice::Scissors)
    ||| (a == Choice::Paper && b == Choice::Rock)
    ||| (a == Choice::Scissors && b == Choice::Paper)
}

/// What a round is worth to `player` against `computer`.
pub open spec fn outcome_of(player: Choice, computer: Choice) -> Outcome {
    if player == computer {
        Outcome::Tie
    } else if beats(player, computer) {
        Outcome::Win
    } else {
        Outcome::Lose
    }
}

/// Compares the player's choice with the computer's.
pub fn resolve(player: Choice, computer: Choice) -> (outcome: Outcome)
    ensures
        outcome == outcome_of(player, computer),
        outcome == Outcome::Tie <==> player == computer,
        outcome == Outcome::Win <==> beats(player, computer),
        outcome == Outcome::Lose <==> beats(computer, player),
{
    match (player, computer) {
        (Choice::Rock, Choice::Scissors) => Outcome::Win,
        (Choice::Paper, Choice::Rock) => Outcome::Win,
        (Choice::Scissors, Choice::Paper) => Outcome::Win,
        (Choice::Rock, Choice::Rock) => Outcome::Tie,
        (Choice::Paper, Choice::Paper) => Outcome::Tie,
        (Choice::Scissors, Choice::Scissors) => Outcome::Tie,
        _ => Outcome::Lose,
    }
}

/// A round is a tie exactly when both sides chose the same.
pub proof fn lemma_tie_iff_same(a: Choice, b: Choice)
    ensures
        outcome_of(a, b) == Outcome::Tie <==> a == b,
{
}

/// The beats-relation is antisymmetric: one side wins exactly when the
/// other side, with the roles exchanged, loses.
pub proof fn lemma_win_iff_reverse_loses(a: Choice, b: Choice)
    ensures
        outcome_of(a, b) == Outcome::Win <==> outcome_of(b, a) == Outcome::Lose,
        outcome_of(a, b) == Outcome::Lose <==> outcome_of(b, a) == Outcome::Win,
        outcome_of(a, b) == Outcome::Tie <==> outcome_of(b, a) == Outcome::Tie,
{
}

/// Every pair of distinct choices has exactly one winner.
pub proof fn lemma_one_winner(a: Choice, b: Choice)
    requires
        a != b,
    ensures
        beats(a, b) != beats(b, a),
        outcome_of(a, b) != Outcome::Tie,
        (outcome_of(a, b) == Outcome::Win) != (outcome_of(a, b) == Outcome::Lose),
{
}

/// Nothing beats itself, and the relation is a three-cycle: each choice
/// beats exactly one other and is beaten by exactly the remaining one.
pub proof fn lemma_three_cycle(a: Choice)
    ensures
        !beats(a, a),
        beats(Choice::Rock, Choice::Scissors),
        beats(Choice::Scissors, Choice::Paper),
        beats(Choice::Paper, Choice::Rock),
        forall|b: Choice, c: Choice| beats(a, b) && beats(a, c) ==> b == c,
        forall|b: Choice, c: Choice| beats(b, a) && beats(c, a) ==> b == c,
{
}

/// Different choices carry different labels.
pub proof fn lemma_names_distinct(a: Choice, b: Choice)
    ensures
        name_of(a) == name_of(b) <==> a == b,
{
    reveal_strlit("rock");
    reveal_strlit("paper");
    reveal_strlit("scissors");
    assert("rock"@.len() == 4);
    assert("paper"@.len() == 5);
    assert("scissors"@.len() == 8);
}

} // verus!
