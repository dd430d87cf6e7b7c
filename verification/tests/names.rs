use chess_games::game_outcome::{show_outcome, GameOutcome, GameOutcomeError};
use chess_games::game_status::{GameStatus, GameStatusError};
use chess_games::game_winner::{show_winner, GameWinner, GameWinnerError};
use chess_games::game::{other_side, winner_of};
use chess_games::request::MakeMoveRequest;
use chess_games::rules::Player;
use chess_games::text::str_eq;

#[test]
fn status_names_round_trip() {
    let all = [
        (GameStatus::Created, "created"),
        (GameStatus::Active, "active"),
        (GameStatus::Complete, "complete"),
        (GameStatus::Abandoned, "abandoned"),
    ];
    for (status, name) in all {
        assert_eq!(status.to_string(), name);
        assert_eq!(GameStatus::try_from(name), Ok(status));
        assert_eq!(GameStatus::try_from(status.to_string().as_str()), Ok(status));
    }
}

#[test]
fn unknown_status_is_rejected() {
    for text in ["", "Created", "completed", "active ", "draw"] {
        assert_eq!(GameStatus::try_from(text), Err(GameStatusError::InvalidGameStatus));
    }
}

#[test]
fn winner_names_round_trip() {
    let all =
        [(GameWinner::White, "white"), (GameWinner::Black, "black"), (GameWinner::Draw, "draw")];
    for (winner, name) in all {
        assert_eq!(winner.to_string(), name);
        assert_eq!(GameWinner::try_from(name), Ok(winner));
    }
}

#[test]
fn unknown_winner_is_rejected() {
    for text in ["", "White", "none", "checkmate"] {
        assert_eq!(GameWinner::try_from(text), Err(GameWinnerError::InvalidGameWinner));
    }
}

#[test]
fn outcome_names_round_trip() {
    let all = [
        (GameOutcome::Checkmate, "checkmate"),
        (GameOutcome::Stalemate, "stalemate"),
        (GameOutcome::Resignation, "resignation"),
    ];
    for (outcome, name) in all {
        assert_eq!(outcome.to_string(), name);
        assert_eq!(GameOutcome::try_from(name), Ok(outcome));
    }
}

#[test]
fn unknown_outcome_is_rejected() {
    for text in ["", "Checkmate", "resigned", "white"] {
        assert_eq!(GameOutcome::try_from(text), Err(GameOutcomeError::InvalidGameOutcome));
    }
}

#[test]
fn missing_winner_and_outcome_are_shown_as_none() {
    assert_eq!(show_winner(&None), "None");
    assert_eq!(show_winner(&Some(GameWinner::Draw)), "draw");
    assert_eq!(show_outcome(&None), "None");
    assert_eq!(show_outcome(&Some(GameOutcome::Resignation)), "resignation");
}

#[test]
fn sides_and_winners_correspond() {
    assert_eq!(winner_of(Player::White), GameWinner::White);
    assert_eq!(winner_of(Player::Black), GameWinner::Black);
    assert_eq!(other_side(Player::White), Player::Black);
    assert_eq!(other_side(Player::Black), Player::White);
}

#[test]
fn strings_compare_by_their_characters() {
    assert!(str_eq("", ""));
    assert!(str_eq("e2e4", "e2e4"));
    assert!(!str_eq("e2e4", "e2e5"));
    assert!(!str_eq("e2e4", "e2e"));
    assert!(str_eq("\u{2659}x", "\u{2659}x"));
    assert!(!str_eq("\u{2659}", "\u{2658}"));
}

#[test]
fn request_resigns_only_when_it_says_so() {
    let plain = MakeMoveRequest { uci_move: String::from("e2e4"), resign: None };
    assert!(!plain.resigns());
    let no = MakeMoveRequest { uci_move: String::from("e2e4"), resign: Some(false) };
    assert!(!no.resigns());
    let yes = MakeMoveRequest { uci_move: String::new(), resign: Some(true) };
    assert!(yes.resigns());
}
