use rust_tutorial::choice::{resolve, Choice, Outcome};
use rust_tutorial::input::{normalize_input, parse_choice};
use rust_tutorial::round::{
    choice_message, draw_computer_choice, invalid_choice_message, outcome_message, play, report,
    Round,
};

const ALL: [Choice; 3] = [Choice::Rock, Choice::Paper, Choice::Scissors];

#[test]
fn resolve_gives_the_full_table() {
    assert_eq!(resolve(Choice::Rock, Choice::Rock), Outcome::Tie);
    assert_eq!(resolve(Choice::Rock, Choice::Paper), Outcome::Lose);
    assert_eq!(resolve(Choice::Rock, Choice::Scissors), Outcome::Win);
    assert_eq!(resolve(Choice::Paper, Choice::Rock), Outcome::Win);
    assert_eq!(resolve(Choice::Paper, Choice::Paper), Outcome::Tie);
    assert_eq!(resolve(Choice::Paper, Choice::Scissors), Outcome::Lose);
    assert_eq!(resolve(Choice::Scissors, Choice::Rock), Outcome::Lose);
    assert_eq!(resolve(Choice::Scissors, Choice::Paper), Outcome::Win);
    assert_eq!(resolve(Choice::Scissors, Choice::Scissors), Outcome::Tie);
}

#[test]
fn resolve_is_antisymmetric() {
    for a in ALL {
        for b in ALL {
            let forth = resolve(a, b);
            let back = resolve(b, a);
            assert_eq!(forth == Outcome::Tie, a == b);
            assert_eq!(forth == Outcome::Win, back == Outcome::Lose);
            assert_eq!(forth == Outcome::Lose, back == Outcome::Win);
        }
    }
}

#[test]
fn all_lists_the_alphabet_in_order() {
    assert_eq!(Choice::all(), ALL);
    assert_eq!(Choice::Rock.name(), "rock");
    assert_eq!(Choice::Paper.name(), "paper");
    assert_eq!(Choice::Scissors.name(), "scissors");
}

#[test]
fn normalize_input_trims_and_lowercases() {
    assert_eq!(normalize_input("rock"), "rock");
    assert_eq!(normalize_input("  rock  "), "rock");
    assert_eq!(normalize_input("ROCK"), "rock");
    assert_eq!(normalize_input("Paper\n"), "paper");
    assert_eq!(normalize_input("\t ScIsSoRs\r\n"), "scissors");
    assert_eq!(normalize_input("rock paper"), "rock paper");
    assert_eq!(normalize_input(" Rock  Paper "), "rock  paper");
    assert_eq!(normalize_input(""), "");
    assert_eq!(normalize_input("\n"), "");
    assert_eq!(normalize_input(" \t\r\n\u{a0}\u{3000}"), "");
    assert_eq!(normalize_input("\u{a0}\u{c9}T\u{c9}\u{2003}"), "\u{e9}t\u{e9}");
    assert_eq!(normalize_input("rock!"), "rock!");
}

#[test]
fn normalize_input_is_idempotent() {
    let samples = [
        "rock",
        "  Rock \n",
        "PAPER",
        "",
        "   ",
        "a b\tC",
        "\u{130}stanbul",
        "\u{3a3}\u{391}\u{3a3} ",
        "ROC\u{212a}",
        "Stra\u{df}e\n",
    ];
    for raw in samples {
        let once = normalize_input(raw);
        let twice = normalize_input(&once);
        assert_eq!(twice, once);
    }
}

#[test]
fn parse_choice_round_trips_the_labels() {
    for c in ALL {
        assert_eq!(parse_choice(&normalize_input(c.name())), Some(c));
        assert_eq!(parse_choice(c.name()), Some(c));
    }
    assert_eq!(parse_choice("rock"), Some(Choice::Rock));
    assert_eq!(parse_choice("paper"), Some(Choice::Paper));
    assert_eq!(parse_choice("scissors"), Some(Choice::Scissors));
}

#[test]
fn parse_choice_rejects_what_is_outside_the_vocabulary() {
    assert_eq!(parse_choice(""), None);
    assert_eq!(parse_choice("Rock"), None);
    assert_eq!(parse_choice("ROCK"), None);
    assert_eq!(parse_choice("rock!"), None);
    assert_eq!(parse_choice("rock "), None);
    assert_eq!(parse_choice(" rock"), None);
    assert_eq!(parse_choice("paper."), None);
    assert_eq!(parse_choice("scissor"), None);
    assert_eq!(parse_choice("lizard"), None);
    assert_eq!(parse_choice("rockpaper"), None);
    assert_eq!(parse_choice("r"), None);
}

#[test]
fn the_kelvin_sign_lowercases_to_a_plain_k() {
    assert_eq!(normalize_input("ROC\u{212a}"), "rock");
    assert_eq!(play("ROC\u{212a}", Choice::Scissors), Some(Outcome::Win));
    assert_eq!(parse_choice("roc\u{212a}"), None);
}

#[test]
fn rock_against_scissors_wins() {
    assert_eq!(play("rock", Choice::Scissors), Some(Outcome::Win));
    assert_eq!(report(play("rock", Choice::Scissors)), "You win!");
}

#[test]
fn paper_with_newline_against_paper_ties() {
    assert_eq!(play("Paper\n", Choice::Paper), Some(Outcome::Tie));
    assert_eq!(report(play("Paper\n", Choice::Paper)), "It's a tie!");
}

#[test]
fn upper_case_scissors_against_rock_loses() {
    assert_eq!(play("SCISSORS", Choice::Rock), Some(Outcome::Lose));
    assert_eq!(report(play("SCISSORS", Choice::Rock)), "You lose!");
}

#[test]
fn lizard_is_an_invalid_choice() {
    for computer in ALL {
        assert_eq!(play("lizard", computer), None);
        assert_eq!(Round::from_input("lizard", computer), None);
    }
    assert_eq!(
        report(play("lizard", Choice::Rock)),
        "Invalid choice. Please choose rock, paper, or scissors."
    );
}

#[test]
fn an_empty_line_is_an_invalid_choice() {
    for computer in ALL {
        assert_eq!(play("\n", computer), None);
        assert_eq!(play("", computer), None);
        assert_eq!(Round::from_input("\n", computer), None);
    }
    assert_eq!(
        report(play("\n", Choice::Paper)),
        "Invalid choice. Please choose rock, paper, or scissors."
    );
}

#[test]
fn round_pairs_the_two_choices() {
    let round = Round::from_input(" Rock\n", Choice::Paper);
    assert_eq!(round, Some(Round { player: Choice::Rock, computer: Choice::Paper }));
    assert_eq!(round.unwrap().outcome(), Outcome::Lose);
    for player in ALL {
        for computer in ALL {
            let round = Round { player, computer };
            assert_eq!(round.outcome(), resolve(player, computer));
            assert_eq!(play(player.name(), computer), Some(resolve(player, computer)));
        }
    }
}

#[test]
fn messages_are_the_fixed_lines() {
    assert_eq!(outcome_message(Outcome::Win), "You win!");
    assert_eq!(outcome_message(Outcome::Tie), "It's a tie!");
    assert_eq!(outcome_message(Outcome::Lose), "You lose!");
    assert_eq!(
        invalid_choice_message(),
        "Invalid choice. Please choose rock, paper, or scissors."
    );
    assert_eq!(report(Some(Outcome::Win)), "You win!");
    assert_eq!(report(Some(Outcome::Tie)), "It's a tie!");
    assert_eq!(report(Some(Outcome::Lose)), "You lose!");
    assert_eq!(report(None), invalid_choice_message());
    assert_eq!(choice_message(Choice::Rock), "You chose: rock");
    assert_eq!(choice_message(Choice::Paper), "You chose: paper");
    assert_eq!(choice_message(Choice::Scissors), "You chose: scissors");
}

#[test]
fn draws_stay_in_the_alphabet_and_reach_all_of_it() {
    let mut seen = [false; 3];
    for _ in 0..600 {
        match draw_computer_choice() {
            Choice::Rock => seen[0] = true,
            Choice::Paper => seen[1] = true,
            Choice::Scissors => seen[2] = true,
        }
    }
    assert_eq!(seen, [true, true, true]);
}
