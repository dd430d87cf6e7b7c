//! A game as the page of a single game shows it.

use vstd::prelude::*;
use vstd::string::*;
use crate::game_outcome::{show_outcome, shown_outcome, GameOutcome};
use crate::game_status::GameStatus;
use crate::game_winner::{show_winner, shown_winner, GameWinner};
use crate::ident::{id_text, write_id};
use crate::records::Game;

verus! {

/// A game with its id in text.
pub struct ApiGame {
    pub id: String,
    pub status: GameStatus,
    pub winner: Option<GameWinner>,
    pub outcome: Option<GameOutcome>,
}

impl ApiGame {
    /// Takes over where a game stands and writes its id as text.
    pub fn from(game: Game) -> (shown: ApiGame)
        ensures
            shown.id@ == id_text(game.id),
            shown.status == game.status,
            shown.winner == game.winner,
            shown.outcome == game.outcome,
    {
        ApiGame {
            id: write_id(game.id),
            status: game.status,
            winner: game.winner,
            outcome: game.outcome,
        }
    }

    pub fn id(&self) -> (id: &str)
        ensures
            id@ == self.id@,
    {
        self.id.as_str()
    }

    /// The name of the status.
    pub fn status(&self) -> (text: String)
        ensures
            text@ == self.status.name(),
    {
        self.status.to_string()
    }

    /// The name of the winner, or `None`.
    pub fn winner(&self) -> (text: String)
        ensures
            text@ == shown_winner(self.winner),
    {
        show_winner(&self.winner)
    }

    /// The name of the outcome, or `None`.
    pub fn outcome(&self) -> (text: String)
        ensures
            text@ == shown_outcome(self.outcome),
    {
        show_outcome(&self.outcome)
    }
}

} // verus!
