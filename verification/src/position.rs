//! Stored positions: one row for each distinct board.

use vstd::prelude::*;
use vstd::string::*;
use crate::board::{playable, DatabaseBoard};
use crate::database::Database;
use crate::model::PositionView;
use crate::rules::{half_moves, opponent, position_after, side_to_move};

verus! {

/// A stored position: a board and the id under which the ledgers refer to it.
pub struct Position {
    pub id: u128,
    pub board: DatabaseBoard,
}

impl View for Position {
    type V = PositionView;

    open spec fn view(&self) -> PositionView {
        PositionView { id: self.id, encoding: self.board@ }
    }
}

/// Why a move was not recorded as a position.
pub enum PositionError {
    /// The move cannot be played on the board; the move and the board are
    /// handed back.
    InvalidUciMove(String, DatabaseBoard),
    /// The store has no id left for the position.
    Storage,
}

impl Position {
    /// Plays a move on a board and stores the position it leads to, giving
    /// the id under which the position stands. A move that cannot be played
    /// leaves the board and the store as they are.
    pub fn record_move(db: &mut Database, board: &mut DatabaseBoard, uci_move: &str) -> (id:
        Result<u128, PositionError>)
        requires
            old(db)@.wf(),
        ensures
            final(db)@.wf(),
            !playable(old(board)@, uci_move@) ==> final(board)@ == old(board)@ && final(db)@
                == old(db)@ && (id matches Err(PositionError::InvalidUciMove(text, rejected))
                && text@ == uci_move@ && rejected@ == old(board)@),
            playable(old(board)@, uci_move@) ==> Some(final(board)@) == position_after(
                old(board)@,
                uci_move@,
            ) && half_moves(final(board)@) == half_moves(old(board)@) + 1 && side_to_move(
                final(board)@,
            ) == opponent(side_to_move(old(board)@)),
            playable(old(board)@, uci_move@) && (old(db)@.has_position(final(board)@)
                || old(db)@.next_id < u128::MAX) ==> final(db)@ == old(db)@.with_position(
                final(board)@,
            ) && (id matches Ok(stored) && stored == final(db)@.position_id(final(board)@)),
            playable(old(board)@, uci_move@) && !(old(db)@.has_position(final(board)@)
                || old(db)@.next_id < u128::MAX) ==> final(db)@ == old(db)@ && id
                is Err && id->Err_0 is Storage,
    {
        let played = board.apply_uci_move(uci_move);
        if !played {
            return Err(
                PositionError::InvalidUciMove(String::from_str(uci_move), board.duplicate()),
            );
        }
        match db.get_or_create_position(board) {
            Ok(stored) => Ok(stored),
            Err(_) => Err(PositionError::Storage),
        }
    }
}

} // verus!
