//! The rows that the store keeps: games and the moves recorded for them.

use vstd::prelude::*;
use crate::game_outcome::GameOutcome;
use crate::game_status::GameStatus;
use crate::game_winner::GameWinner;

verus! {

/// A game: its identity, when the store wrote and last changed it, and where
/// it stands.
#[derive(Clone, Copy, Debug)]
pub struct Game {
    pub id: u128,
    pub created_at: i64,
    pub updated_at: i64,
    pub status: GameStatus,
    pub winner: Option<GameWinner>,
    pub outcome: Option<GameOutcome>,
}

impl Game {
    /// A winner and an outcome are set exactly when the game is complete, and
    /// a draw is always a stalemate.
    pub open spec fn consistent(self) -> bool {
        &&& self.winner.is_some() <==> self.status == GameStatus::Complete
        &&& self.outcome.is_some() <==> self.status == GameStatus::Complete
        &&& self.winner == Some(GameWinner::Draw) ==> self.outcome == Some(GameOutcome::Stalemate)
    }

    pub fn id(&self) -> (id: u128)
        ensures
            id == self.id,
    {
        self.id
    }

    pub fn status(&self) -> (status: &GameStatus)
        ensures
            *status == self.status,
    {
        &self.status
    }

    pub fn winner(&self) -> (winner: &Option<GameWinner>)
        ensures
            *winner == self.winner,
    {
        &self.winner
    }

    pub fn outcome(&self) -> (outcome: &Option<GameOutcome>)
        ensures
            *outcome == self.outcome,
    {
        &self.outcome
    }
}

/// One entry of a game's move ledger: the position that the game reached
/// with its move number `move_number`, counted from zero.
#[derive(Clone, Copy, Debug)]
pub struct Move {
    pub id: u128,
    pub game_id: u128,
    pub position_id: u128,
    pub move_number: i32,
    pub created_at: i64,
}

} // verus!
