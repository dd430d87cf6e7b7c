//! How a finished game ended, and the textual form of that ending.

use vstd::prelude::*;
use vstd::string::*;
use crate::text::str_eq;

verus! {

/// The way in which a game came to its end.
#[derive(Clone, Copy, Debug, PartialEq, Eq, Structural)]
pub enum GameOutcome {
    Checkmate,
    Stalemate,
    Resignation,
}

/// Why a text could not be read as a `GameOutcome`.
#[derive(Clone, Copy, Debug, PartialEq, Eq, Structural)]
pub enum GameOutcomeError {
    InvalidGameOutcome,
}

impl GameOutcome {
    /// The lower-case name under which the outcome is stored and shown.
    pub open spec fn name(self) -> Seq<char> {
        match self {
            GameOutcome::Checkmate => "checkmate"@,
            GameOutcome::Stalemate => "stalemate"@,
            GameOutcome::Resignation => "resignation"@,
        }
    }

    /// The outcome that a text names, if it names one.
    pub open spec fn parse(text: Seq<char>) -> Option<GameOutcome> {
        if text == "checkmate"@ {
            Some(GameOutcome::Checkmate)
        } else if text == "stalemate"@ {
            Some(GameOutcome::Stalemate)
        } else if text == "resignation"@ {
            Some(GameOutcome::Resignation)
        } else {
            None
        }
    }

    /// Renders the outcome as its stored name.
    pub fn to_string(&self) -> (text: String)
        ensures
            text@ == self.name(),
    {
        match self {
            GameOutcome::Checkmate => String::from_str("checkmate"),
            GameOutcome::Stalemate => String::from_str("stalemate"),
            GameOutcome::Resignation => String::from_str("resignation"),
        }
    }

    /// Reads a stored name back; any other text is rejected.
    pub fn try_from(value: &str) -> (parsed: Result<GameOutcome, GameOutcomeError>)
        ensures
            match GameOutcome::parse(value@) {
                Some(outcome) => parsed == Ok::<GameOutcome, GameOutcomeError>(outcome),
                None => parsed == Err::<GameOutcome, GameOutcomeError>(
                    GameOutcomeError::InvalidGameOutcome,
                ),
            },
    {
        if str_eq(value, "checkmate") {
            Ok(GameOutcome::Checkmate)
        } else if str_eq(value, "stalemate") {
            Ok(GameOutcome::Stalemate)
        } else if str_eq(value, "resignation") {
            Ok(GameOutcome::Resignation)
        } else {
            Err(GameOutcomeError::InvalidGameOutcome)
        }
    }
}

/// How an outcome is shown where there may be none yet.
pub open spec fn shown_outcome(outcome: Option<GameOutcome>) -> Seq<char> {
    match outcome {
        Some(outcome) => outcome.name(),
        None => "None"@,
    }
}

/// Shows an outcome, or `None` where there is none yet.
pub fn show_outcome(outcome: &Option<GameOutcome>) -> (text: String)
    ensures
        text@ == shown_outcome(*outcome),
{
    match outcome {
        Some(outcome) => outcome.to_string(),
        None => String::from_str("None"),
    }
}

/// Every outcome reads back from its own name.
pub proof fn outcome_name_round_trip(outcome: GameOutcome)
    ensures
        GameOutcome::parse(outcome.name()) == Some(outcome),
{
    reveal_strlit("checkmate");
    reveal_strlit("stalemate");
    reveal_strlit("resignation");
    assert("checkmate"@[0] == 'c');
    assert("stalemate"@[0] == 's');
    assert("resignation"@[0] == 'r');
}

} // verus!
