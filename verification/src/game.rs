//! Games as callers see them, and the state machine that applies a move or
//! a resignation to a game.

use vstd::prelude::*;
use crate::board::DatabaseBoard;
use crate::database::Database;
use crate::game_outcome::GameOutcome;
use crate::game_status::GameStatus;
use crate::game_winner::GameWinner;
use crate::invariants::{
    lemma_commit_moved, lemma_commit_resigned, lemma_ledger_entry, lemma_same_rows,
    lemma_with_move, lemma_with_position,
};
use crate::model::{
    answer_of, transition_of, winner_for, GameBoardView, GameError, TransitionView,
};
use crate::records::{Game, Move};
use crate::rules::{half_moves, opponent, side_to_move, Player};

verus! {

/// The maker of new games.
pub struct NewGame;

impl NewGame {
    /// Adds a game in status `Created`, without a winner or an outcome.
    pub fn create(db: &mut Database) -> (made: Result<Game, GameError>)
        requires
            old(db)@.wf(),
        ensures
            final(db)@.wf(),
            old(db)@.next_id < u128::MAX && old(db)@.clock < i64::MAX ==> made == Ok::<
                Game,
                GameError,
            >(old(db)@.new_game()) && final(db)@ == old(db)@.with_game(),
            !(old(db)@.next_id < u128::MAX && old(db)@.clock < i64::MAX) ==> made == Err::<
                Game,
                GameError,
            >(GameError::Storage) && final(db)@ == old(db)@,
    {
        db.create_game()
    }
}

impl Game {
    /// Whether a game exists.
    pub fn exists_in(db: &Database, game_id: u128) -> (known: bool)
        ensures
            known == db@.has_game(game_id),
    {
        db.game_exists(game_id)
    }

    /// All games, the one created last first.
    pub fn read_all(db: &Database) -> (games: Vec<Game>)
        ensures
            games@ == db@.games.reverse(),
    {
        db.read_all_games()
    }
}

/// A game as a caller sees it: its latest board and where it stands.
pub struct GameBoard {
    pub id: u128,
    pub board: DatabaseBoard,
    pub status: GameStatus,
    pub winner: Option<GameWinner>,
    pub outcome: Option<GameOutcome>,
}

impl View for GameBoard {
    type V = GameBoardView;

    open spec fn view(&self) -> GameBoardView {
        GameBoardView {
            id: self.id,
            board: self.board@,
            status: self.status,
            winner: self.winner,
            outcome: self.outcome,
        }
    }
}

/// What a request asks of the store.
pub enum Transition {
    /// Nothing: the game is complete, or the move cannot be played.
    Unchanged,
    /// The side to move resigns; the game goes to `winner`.
    Resigned { winner: GameWinner },
    /// A move is played and leads to `board`; `verdict` is set where it ends the game.
    Moved { board: DatabaseBoard, verdict: Option<(GameWinner, GameOutcome)> },
}

impl View for Transition {
    type V = TransitionView;

    open spec fn view(&self) -> TransitionView {
        match *self {
            Transition::Unchanged => TransitionView::Unchanged,
            Transition::Resigned { winner } => TransitionView::Resigned { winner },
            Transition::Moved { board, verdict } => TransitionView::Moved {
                board: board@,
                verdict,
            },
        }
    }
}

/// The answer to a request as the model gives it.
pub open spec fn answer_view(answer: Result<GameBoard, GameError>) -> Result<
    GameBoardView,
    GameError,
> {
    match answer {
        Ok(game) => Ok(game@),
        Err(error) => Err(error),
    }
}

/// The winner that stands for a side.
pub fn winner_of(player: Player) -> (winner: GameWinner)
    ensures
        winner == winner_for(player),
{
    match player {
        Player::White => GameWinner::White,
        Player::Black => GameWinner::Black,
    }
}

/// The opponent of a side.
pub fn other_side(player: Player) -> (other: Player)
    ensures
        other == opponent(player),
{
    match player {
        Player::White => Player::Black,
        Player::Black => Player::White,
    }
}

impl GameBoard {
    pub fn id(&self) -> (id: u128)
        ensures
            id == self.id,
    {
        self.id
    }

    pub fn board(&self) -> (board: &DatabaseBoard)
        ensures
            *board == self.board,
    {
        &self.board
    }

    pub fn status(&self) -> (status: &GameStatus)
        ensures
            *status == self.status,
    {
        &self.status
    }

    pub fn winner(&self) -> (winner: &Option<GameWinner>)
        ensures
            *winner == self.winner,
    {
        &self.winner
    }

    pub fn outcome(&self) -> (outcome: &Option<GameOutcome>)
        ensures
            *outcome == self.outcome,
    {
        &self.outcome
    }

    /// Reads a game and the last entry of its ledger.
    fn resolve(db: &Database, game_id: u128) -> (found: (GameBoard, Option<Move>))
        requires
            db@.wf(),
        ensures
            found.0@ == db@.current(game_id),
            match found.1 {
                Some(entry) => db@.ledger(game_id).len() > 0 && entry == db@.ledger(game_id).last(),
                None => db@.ledger(game_id).len() == 0 && half_moves(found.0@.board) == 0,
            },
    {
        let last = db.latest_move(game_id);
        let board = match last {
            None => DatabaseBoard::new(),
            Some(entry) => {
                proof {
                    lemma_ledger_entry(db@, game_id, db@.ledger(game_id).len() - 1);
                }
                match db.board_of(entry.position_id) {
                    Some(board) => board,
                    None => DatabaseBoard::new(),
                }
            },
        };
        let game = match db.find_game(game_id) {
            Some(game) => GameBoard {
                id: game_id,
                board,
                status: game.status,
                winner: game.winner,
                outcome: game.outcome,
            },
            None => GameBoard {
                id: game_id,
                board,
                status: GameStatus::Created,
                winner: None,
                outcome: None,
            },
        };
        (game, last)
    }

    /// The latest board of a game and where the game stands. A game without
    /// a move shows the starting position; a game that the store does not
    /// know is shown as a fresh one. Nothing is written.
    pub fn latest(db: &Database, game_id: u128) -> (game: GameBoard)
        requires
            db@.wf(),
        ensures
            game@ == db@.current(game_id),
            db@.ledger(game_id).len() == 0 ==> half_moves(game@.board) == 0,
    {
        Self::resolve(db, game_id).0
    }

    /// What a move or a resignation asks of the store, decided from the game
    /// alone. A game that is complete or abandoned takes nothing more. A
    /// resignation gives the game to the opponent of the side to move. A
    /// move that cannot be played changes nothing. A move that is played
    /// ends the game where it mates (the mover wins) or leaves a position
    /// that the engine reports as a stalemate (a draw).
    pub fn transition(&self, uci_move: &str, resign: bool) -> (transition: Transition)
        ensures
            transition@ == transition_of(self@.status, self@.board, uci_move@, resign),
            transition matches Transition::Moved { board, .. } ==> half_moves(board@)
                == half_moves(self@.board) + 1 && side_to_move(board@) == opponent(
                side_to_move(self@.board),
            ),
    {
        match self.status {
            GameStatus::Complete => {
                return Transition::Unchanged;
            },
            GameStatus::Abandoned => {
                return Transition::Unchanged;
            },
            _ => {},
        }
        let player = self.board.turn();
        if resign {
            return Transition::Resigned { winner: winner_of(other_side(player)) };
        }
        let mut board = self.board.duplicate();
        if !board.apply_uci_move(uci_move) {
            return Transition::Unchanged;
        }
        let verdict = if board.checkmate() {
            Some((winner_of(player), GameOutcome::Checkmate))
        } else if board.stalemate() {
            Some((GameWinner::Draw, GameOutcome::Stalemate))
        } else {
            None
        };
        Transition::Moved { board, verdict }
    }

    /// The answer to a request that found the game as `self` and asked for
    /// `transition`.
    pub fn answer(self, transition: Transition) -> (answer: GameBoard)
        ensures
            answer@ == answer_of(self@, transition@),
    {
        match transition {
            Transition::Unchanged => self,
            Transition::Resigned { winner } => GameBoard {
                id: self.id,
                board: self.board,
                status: GameStatus::Complete,
                winner: Some(winner),
                outcome: Some(GameOutcome::Resignation),
            },
            Transition::Moved { board, verdict } => match verdict {
                Some((winner, outcome)) => GameBoard {
                    id: self.id,
                    board,
                    status: GameStatus::Complete,
                    winner: Some(winner),
                    outcome: Some(outcome),
                },
                None => GameBoard {
                    id: self.id,
                    board,
                    status: GameStatus::Active,
                    winner: None,
                    outcome: None,
                },
            },
        }
    }

    /// The number under which the next move of a game is recorded, given the
    /// number of its last move, if it has one: the numbers count from zero
    /// without a gap. There is none where the ledger is full.
    pub fn next_move_number(last: Option<i32>) -> (next: Option<i32>)
        ensures
            next == match last {
                None => Some(0i32),
                Some(number) => if number < i32::MAX - 1 {
                    Some((number + 1) as i32)
                } else {
                    None
                },
            },
    {
        match last {
            None => Some(0),
            Some(number) => if number < i32::MAX - 1 {
                Some(number + 1)
            } else {
                None
            },
        }
    }

    /// Applies a move, or a resignation, to a game: `DatabaseView::step`.
    ///
    /// A game that does not exist gives `NotFound`. Otherwise the answer is
    /// the game as it stands after the request, and the store holds the rows
    /// that the request asked for: none for a game that is over or a move that
    /// cannot be played; the new status for a resignation; for a move that is
    /// played the position (once, however many games reach it), the next
    /// entry of the game's ledger and the new status. Where the store has no
    /// room for what is to be written (a time stamp for a resignation, the
    /// rows of a move) it gives `Storage` and stays as it was.
    pub fn make_move(db: &mut Database, game_id: u128, uci_move: &str, resign: bool) -> (answer:
        Result<GameBoard, GameError>)
        requires
            old(db)@.wf(),
        ensures
            final(db)@.wf(),
            final(db)@ == old(db)@.step(game_id, uci_move@, resign).0,
            answer_view(answer) == old(db)@.step(game_id, uci_move@, resign).1,
            forall|any: u128|
                old(db)@.ledger_tracks_board(any) ==> #[trigger] final(db)@.ledger_tracks_board(
                    any,
                ),
            answer matches Ok(game) ==> (old(db)@.ledger_tracks_board(game_id) ==> half_moves(
                game@.board,
            ) == final(db)@.ledger(game_id).len()),
    {
        if !db.game_exists(game_id) {
            return Err(GameError::NotFound);
        }
        let (current, last) = Self::resolve(db, game_id);
        let transition = current.transition(uci_move, resign);
        match &transition {
            Transition::Unchanged => {},
            Transition::Resigned { winner } => {
                if !db.has_tick() {
                    return Err(GameError::Storage);
                }
                proof {
                    lemma_commit_resigned(db@, game_id, *winner);
                }
                match db.mark_terminal(game_id, *winner, GameOutcome::Resignation) {
                    Ok(()) => {},
                    Err(error) => {
                        return Err(error);
                    },
                }
            },
            Transition::Moved { board, verdict } => {
                if !db.has_room(game_id) {
                    return Err(GameError::Storage);
                }
                let last_number = match last {
                    None => None,
                    Some(entry) => {
                        proof {
                            lemma_ledger_entry(db@, game_id, db@.ledger(game_id).len() - 1);
                        }
                        Some(entry.move_number)
                    },
                };
                let move_number = match Self::next_move_number(last_number) {
                    Some(number) => number,
                    None => {
                        return Err(GameError::Storage);
                    },
                };
                proof {
                    lemma_commit_moved(db@, game_id, board@, *verdict);
                    lemma_with_position(db@, board@);
                    lemma_same_rows(db@, db@.with_position(board@));
                }
                let position_id = match db.get_or_create_position(board) {
                    Ok(id) => id,
                    Err(error) => {
                        return Err(error);
                    },
                };
                proof {
                    lemma_with_move(db@, game_id, position_id);
                    lemma_same_rows(db@, db@.with_move(game_id, position_id));
                }
                match db.append_move(game_id, position_id, move_number) {
                    Ok(()) => {},
                    Err(error) => {
                        return Err(error);
                    },
                }
                let settled = match verdict {
                    Some((winner, outcome)) => db.mark_terminal(game_id, *winner, *outcome),
                    None => db.mark_active_if_created(game_id),
                };
                match settled {
                    Ok(()) => {},
                    Err(error) => {
                        return Err(error);
                    },
                }
            },
        }
        Ok(current.answer(transition))
    }
}

} // verus!
