//! A game with its board as the page of the game shows it.

use vstd::prelude::*;
use vstd::string::*;
use crate::board::DatabaseBoard;
use crate::game::{winner_of, GameBoard};
use crate::game_outcome::{show_outcome, shown_outcome, GameOutcome};
use crate::game_status::GameStatus;
use crate::game_winner::{show_winner, shown_winner, GameWinner};
use crate::html::{board_html, render_board};
use crate::ident::{id_text, write_id};
use crate::model::winner_for;
use crate::rules::{side_to_move, Player};

verus! {

/// A game and its latest board, with the game's id in text.
pub struct ApiGameBoard {
    pub game_id: String,
    pub board: DatabaseBoard,
    pub status: GameStatus,
    pub winner: Option<GameWinner>,
    pub outcome: Option<GameOutcome>,
}

impl ApiGameBoard {
    /// Takes over a game and its board and writes the game's id as text.
    pub fn from(game_board: GameBoard) -> (shown: ApiGameBoard)
        ensures
            shown.game_id@ == id_text(game_board.id),
            shown.board@ == game_board.board@,
            shown.status == game_board.status,
            shown.winner == game_board.winner,
            shown.outcome == game_board.outcome,
    {
        ApiGameBoard {
            game_id: write_id(game_board.id),
            board: game_board.board,
            status: game_board.status,
            winner: game_board.winner,
            outcome: game_board.outcome,
        }
    }

    pub fn game_id(&self) -> (id: &str)
        ensures
            id@ == self.game_id@,
    {
        self.game_id.as_str()
    }

    /// The side to move, named as a winner would be: `white` or `black`.
    pub fn turn(&self) -> (text: String)
        ensures
            text@ == winner_for(side_to_move(self.board@)).name(),
    {
        winner_of(self.board.turn()).to_string()
    }

    /// The name of the status.
    pub fn status(&self) -> (text: String)
        ensures
            text@ == self.status.name(),
    {
        self.status.to_string()
    }

    /// The name of the winner, or `None`.
    pub fn winner(&self) -> (text: String)
        ensures
            text@ == shown_winner(self.winner),
    {
        show_winner(&self.winner)
    }

    /// The name of the outcome, or `None`.
    pub fn outcome(&self) -> (text: String)
        ensures
            text@ == shown_outcome(self.outcome),
    {
        show_outcome(&self.outcome)
    }

    /// The board as a table, seen from the side that is to move: from
    /// White's side when White is to move, turned when Black is.
    pub fn board_html(&self) -> (html: String)
        ensures
            html@ == board_html(self.board@, side_to_move(self.board@) == Player::Black),
    {
        match self.board.turn() {
            Player::White => render_board(&self.board, false),
            Player::Black => render_board(&self.board, true),
        }
    }
}

} // verus!
