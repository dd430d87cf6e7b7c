//! Who won a finished game, and the textual form of that verdict.

use vstd::prelude::*;
use vstd::string::*;
use crate::text::str_eq;

verus! {

/// The side a finished game went to, or a draw.
#[derive(Clone, Copy, Debug, PartialEq, Eq, Structural)]
pub enum GameWinner {
    White,
    Black,
    Draw,
}

/// Why a text could not be read as a `GameWinner`.
#[derive(Clone, Copy, Debug, PartialEq, Eq, Structural)]
pub enum GameWinnerError {
    InvalidGameWinner,
}

impl GameWinner {
    /// The lower-case name under which the winner is stored and shown.
    pub open spec fn name(self) -> Seq<char> {
        match self {
            GameWinner::White => "white"@,
            GameWinner::Black => "black"@,
            GameWinner::Draw => "draw"@,
        }
    }

    /// The winner that a text names, if it names one.
    pub open spec fn parse(text: Seq<char>) -> Option<GameWinner> {
        if text == "white"@ {
            Some(GameWinner::White)
        } else if text == "black"@ {
            Some(GameWinner::Black)
        } else if text == "draw"@ {
            Some(GameWinner::Draw)
        } else {
            None
        }
    }

    /// Renders the winner as its stored name.
    pub fn to_string(&self) -> (text: String)
        ensures
            text@ == self.name(),
    {
        match self {
            GameWinner::White => String::from_str("white"),
            GameWinner::Black => String::from_str("black"),
            GameWinner::Draw => String::from_str("draw"),
        }
    }

    /// Reads a stored name back; any other text is rejected.
    pub fn try_from(value: &str) -> (parsed: Result<GameWinner, GameWinnerError>)
        ensures
            match GameWinner::parse(value@) {
                Some(winner) => parsed == Ok::<GameWinner, GameWinnerError>(winner),
                None => parsed == Err::<GameWinner, GameWinnerError>(
                    GameWinnerError::InvalidGameWinner,
                ),
            },
    {
        if str_eq(value, "white") {
            Ok(GameWinner::White)
        } else if str_eq(value, "black") {
            Ok(GameWinner::Black)
        } else if str_eq(value, "draw") {
            Ok(GameWinner::Draw)
        } else {
            Err(GameWinnerError::InvalidGameWinner)
        }
    }
}

/// How a winner is shown where there may be none yet.
pub open spec fn shown_winner(winner: Option<GameWinner>) -> Seq<char> {
    match winner {
        Some(winner) => winner.name(),
        None => "None"@,
    }
}

/// Shows a winner, or `None` where there is none yet.
pub fn show_winner(winner: &Option<GameWinner>) -> (text: String)
    ensures
        text@ == shown_winner(*winner),
{
    match winner {
        Some(winner) => winner.to_string(),
        None => String::from_str("None"),
    }
}

/// Every winner reads back from its own name.
pub proof fn winner_name_round_trip(winner: GameWinner)
    ensures
        GameWinner::parse(winner.name()) == Some(winner),
{
    reveal_strlit("white");
    reveal_strlit("black");
    reveal_strlit("draw");
    assert("white"@[0] == 'w');
    assert("black"@[0] == 'b');
    assert("draw"@.len() == 4);
}

} // verus!
