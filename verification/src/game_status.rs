//! The lifecycle status of a game and its textual form.

use vstd::prelude::*;
use vstd::string::*;
use crate::text::str_eq;

verus! {

/// Where a game stands in its lifecycle.
#[derive(Clone, Copy, Debug, PartialEq, Eq, Structural)]
pub enum GameStatus {
    Created,
    Active,
    Complete,
    Abandoned,
}

/// Why a text could not be read as a `GameStatus`.
#[derive(Clone, Copy, Debug, PartialEq, Eq, Structural)]
pub enum GameStatusError {
    InvalidGameStatus,
}

impl GameStatus {
    /// The lower-case name under which the status is stored and shown.
    pub open spec fn name(self) -> Seq<char> {
        match self {
            GameStatus::Created => "created"@,
            GameStatus::Active => "active"@,
            GameStatus::Complete => "complete"@,
            GameStatus::Abandoned => "abandoned"@,
        }
    }

    /// The status that a text names, if it names one.
    pub open spec fn parse(text: Seq<char>) -> Option<GameStatus> {
        if text == "created"@ {
            Some(GameStatus::Created)
        } else if text == "active"@ {
            Some(GameStatus::Active)
        } else if text == "complete"@ {
            Some(GameStatus::Complete)
        } else if text == "abandoned"@ {
            Some(GameStatus::Abandoned)
        } else {
            None
        }
    }

    /// Renders the status as its stored name.
    pub fn to_string(&self) -> (text: String)
        ensures
            text@ == self.name(),
    {
        match self {
            GameStatus::Created => String::from_str("created"),
            GameStatus::Active => String::from_str("active"),
            GameStatus::Complete => String::from_str("complete"),
            GameStatus::Abandoned => String::from_str("abandoned"),
        }
    }

    /// Reads a stored name back; any other text is rejected.
    pub fn try_from(value: &str) -> (parsed: Result<GameStatus, GameStatusError>)
        ensures
            match GameStatus::parse(value@) {
                Some(status) => parsed == Ok::<GameStatus, GameStatusError>(status),
                None => parsed == Err::<GameStatus, GameStatusError>(
                    GameStatusError::InvalidGameStatus,
                ),
            },
    {
        if str_eq(value, "created") {
            Ok(GameStatus::Created)
        } else if str_eq(value, "active") {
            Ok(GameStatus::Active)
        } else if str_eq(value, "complete") {
            Ok(GameStatus::Complete)
        } else if str_eq(value, "abandoned") {
            Ok(GameStatus::Abandoned)
        } else {
            Err(GameStatusError::InvalidGameStatus)
        }
    }
}

/// Every status reads back from its own name.
pub proof fn status_name_round_trip(status: GameStatus)
    ensures
        GameStatus::parse(status.name()) == Some(status),
{
    reveal_strlit("created");
    reveal_strlit("active");
    reveal_strlit("complete");
    reveal_strlit("abandoned");
    assert("created"@.len() == 7);
    assert("active"@.len() == 6);
    assert("complete"@.len() == 8);
    assert("abandoned"@.len() == 9);
}

} // verus!
