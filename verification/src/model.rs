//! The mathematical model of the store and of the game state machine.
//!
//! The store is three tables: games, positions (one row for each distinct
//! encoding) and moves (one ledger for each game, told apart by the game's
//! id). The state machine is the function `step`: from a store and a request
//! to the store that results and the answer that is given.

use vstd::prelude::*;
use crate::board::playable;
use crate::game_outcome::GameOutcome;
use crate::game_status::GameStatus;
use crate::game_winner::GameWinner;
use crate::records::{Game, Move};
use crate::rules::{
    half_moves, is_checkmate, is_stalemate, opponent, position_after, side_to_move, start_text,
    Player,
};

verus! {

/// What can go wrong when the store is asked for something.
#[derive(Clone, Copy, Debug, PartialEq, Eq, Structural)]
pub enum GameError {
    /// The game that the request names does not exist.
    NotFound,
    /// The move number is not the next one of the game's ledger.
    SequenceConflict,
    /// The store has run out of ids, of clock ticks or of move numbers.
    Storage,
}

/// A stored position: its id and its canonical encoding.
pub struct PositionView {
    pub id: u128,
    pub encoding: Seq<char>,
}

/// A game as a caller sees it: its latest board and where it stands.
pub struct GameBoardView {
    pub id: u128,
    pub board: Seq<char>,
    pub status: GameStatus,
    pub winner: Option<GameWinner>,
    pub outcome: Option<GameOutcome>,
}

/// What a request asks of the store.
pub enum TransitionView {
    /// Nothing: the game is over, or the move cannot be played.
    Unchanged,
    /// The side to move resigns; the game goes to `winner`.
    Resigned { winner: GameWinner },
    /// A move is played and leads to `board`; `verdict` is set where it ends the game.
    Moved { board: Seq<char>, verdict: Option<(GameWinner, GameOutcome)> },
}

/// The whole store as a value.
pub struct DatabaseView {
    pub games: Seq<Game>,
    pub positions: Seq<PositionView>,
    pub moves: Seq<Move>,
    /// The id that the next new row gets.
    pub next_id: u128,
    /// The time stamp that the next write gets.
    pub clock: i64,
}

/// The test that tells the moves of one game from the others.
pub open spec fn in_game(game_id: u128) -> spec_fn(Move) -> bool {
    |entry: Move| entry.game_id == game_id
}

/// The winner that stands for a side.
pub open spec fn winner_for(player: Player) -> GameWinner {
    match player {
        Player::White => GameWinner::White,
        Player::Black => GameWinner::Black,
    }
}

/// How a move that is played ends the game, if it does: a mate is won by the
/// side that moved, and a position that the engine reports as a stalemate
/// (no move without check, or fifty quiet half-moves) is a draw.
pub open spec fn verdict_after(mover: Player, next: Seq<char>) -> Option<
    (GameWinner, GameOutcome),
> {
    if is_checkmate(next) {
        Some((winner_for(mover), GameOutcome::Checkmate))
    } else if is_stalemate(next) {
        Some((GameWinner::Draw, GameOutcome::Stalemate))
    } else {
        None
    }
}

/// What a request asks of a game that stands at `status` with latest board
/// `board`. A game that is complete or abandoned takes nothing more. A
/// resignation gives the game to the opponent of the side to move. A move
/// that cannot be played changes nothing.
pub open spec fn transition_of(
    status: GameStatus,
    board: Seq<char>,
    uci_move: Seq<char>,
    resign: bool,
) -> TransitionView {
    if status == GameStatus::Complete || status == GameStatus::Abandoned {
        TransitionView::Unchanged
    } else if resign {
        TransitionView::Resigned { winner: winner_for(opponent(side_to_move(board))) }
    } else if !playable(board, uci_move) {
        TransitionView::Unchanged
    } else {
        let next = position_after(board, uci_move).unwrap();
        TransitionView::Moved { board: next, verdict: verdict_after(side_to_move(board), next) }
    }
}

/// The answer to a request that found the game as `current`.
pub open spec fn answer_of(current: GameBoardView, transition: TransitionView) -> GameBoardView {
    match transition {
        TransitionView::Unchanged => current,
        TransitionView::Resigned { winner } => GameBoardView {
            id: current.id,
            board: current.board,
            status: GameStatus::Complete,
            winner: Some(winner),
            outcome: Some(GameOutcome::Resignation),
        },
        TransitionView::Moved { board, verdict } => match verdict {
            Some((winner, outcome)) => GameBoardView {
                id: current.id,
                board,
                status: GameStatus::Complete,
                winner: Some(winner),
                outcome: Some(outcome),
            },
            None => GameBoardView {
                id: current.id,
                board,
                status: GameStatus::Active,
                winner: None,
                outcome: None,
            },
        },
    }
}

impl DatabaseView {
    /// The empty store.
    pub open spec fn empty() -> DatabaseView {
        DatabaseView {
            games: Seq::empty(),
            positions: Seq::empty(),
            moves: Seq::empty(),
            next_id: 0,
            clock: 0,
        }
    }

    // ----- games -----

    pub open spec fn has_game(self, id: u128) -> bool {
        exists|i: int| 0 <= i < self.games.len() && (#[trigger] self.games[i]).id == id
    }

    pub open spec fn game_index(self, id: u128) -> int {
        choose|i: int| 0 <= i < self.games.len() && (#[trigger] self.games[i]).id == id
    }

    /// The game with an id; meaningful where `has_game` holds.
    pub open spec fn game(self, id: u128) -> Game {
        self.games[self.game_index(id)]
    }

    /// The store with one more game, in status `Created`.
    pub open spec fn with_game(self) -> DatabaseView {
        DatabaseView {
            games: self.games.push(self.new_game()),
            next_id: (self.next_id + 1) as u128,
            clock: (self.clock + 1) as i64,
            ..self
        }
    }

    /// The game that `with_game` adds.
    pub open spec fn new_game(self) -> Game {
        Game {
            id: self.next_id,
            created_at: self.clock,
            updated_at: self.clock,
            status: GameStatus::Created,
            winner: None,
            outcome: None,
        }
    }

    /// The store with a game marked complete.
    pub open spec fn mark_terminal(
        self,
        id: u128,
        winner: GameWinner,
        outcome: GameOutcome,
    ) -> DatabaseView {
        DatabaseView {
            games: self.games.update(
                self.game_index(id),
                Game {
                    status: GameStatus::Complete,
                    winner: Some(winner),
                    outcome: Some(outcome),
                    updated_at: self.clock,
                    ..self.game(id)
                },
            ),
            clock: (self.clock + 1) as i64,
            ..self
        }
    }

    /// Whether a game exists and is still in status `Created`.
    pub open spec fn awaits_first_move(self, id: u128) -> bool {
        self.has_game(id) && self.game(id).status == GameStatus::Created
    }

    /// The store with a game taken from `Created` to `Active`; any other game
    /// is left as it is.
    pub open spec fn mark_active_if_created(self, id: u128) -> DatabaseView {
        if self.awaits_first_move(id) {
            DatabaseView {
                games: self.games.update(
                    self.game_index(id),
                    Game { status: GameStatus::Active, updated_at: self.clock, ..self.game(id) },
                ),
                clock: (self.clock + 1) as i64,
                ..self
            }
        } else {
            self
        }
    }

    // ----- positions -----

    pub open spec fn has_position(self, encoding: Seq<char>) -> bool {
        exists|i: int|
            0 <= i < self.positions.len() && (#[trigger] self.positions[i]).encoding == encoding
    }

    pub open spec fn position_index(self, encoding: Seq<char>) -> int {
        choose|i: int|
            0 <= i < self.positions.len() && (#[trigger] self.positions[i]).encoding == encoding
    }

    /// The id under which an encoding is stored; meaningful where `has_position` holds.
    pub open spec fn position_id(self, encoding: Seq<char>) -> u128 {
        self.positions[self.position_index(encoding)].id
    }

    pub open spec fn has_position_id(self, id: u128) -> bool {
        exists|i: int| 0 <= i < self.positions.len() && (#[trigger] self.positions[i]).id == id
    }

    pub open spec fn position_row(self, id: u128) -> int {
        choose|i: int| 0 <= i < self.positions.len() && (#[trigger] self.positions[i]).id == id
    }

    /// The encoding stored under an id; meaningful where `has_position_id` holds.
    pub open spec fn encoding_of(self, id: u128) -> Seq<char> {
        self.positions[self.position_row(id)].encoding
    }

    /// The store in which an encoding has a row: the same store where it had
    /// one, else the store with a new row for it.
    pub open spec fn with_position(self, encoding: Seq<char>) -> DatabaseView {
        if self.has_position(encoding) {
            self
        } else {
            DatabaseView {
                positions: self.positions.push(PositionView { id: self.next_id, encoding }),
                next_id: (self.next_id + 1) as u128,
                ..self
            }
        }
    }

    // ----- moves -----

    /// The ledger of a game: its moves in the order in which they were recorded.
    pub open spec fn ledger(self, game_id: u128) -> Seq<Move> {
        self.moves.filter(in_game(game_id))
    }

    /// The store with one more move at the end of a game's ledger.
    pub open spec fn with_move(self, game_id: u128, position_id: u128) -> DatabaseView {
        DatabaseView {
            moves: self.moves.push(
                Move {
                    id: self.next_id,
                    game_id,
                    position_id,
                    move_number: self.ledger(game_id).len() as i32,
                    created_at: self.clock,
                },
            ),
            next_id: (self.next_id + 1) as u128,
            clock: (self.clock + 1) as i64,
            ..self
        }
    }

    /// What the ledger answers when it is asked to record a move under a
    /// number: it takes the next number of the game's ledger and no other.
    pub open spec fn append_check(
        self,
        game_id: u128,
        position_id: u128,
        move_number: i32,
    ) -> Result<(), GameError> {
        if !self.has_game(game_id) {
            Err(GameError::NotFound)
        } else if !self.has_position_id(position_id) {
            Err(GameError::Storage)
        } else if move_number != self.ledger(game_id).len() {
            Err(GameError::SequenceConflict)
        } else if self.next_id == u128::MAX || self.clock == i64::MAX {
            Err(GameError::Storage)
        } else {
            Ok(())
        }
    }

    // ----- the state machine -----

    /// The encoding of a game's latest board: the position of its last move,
    /// or the starting position where it has none.
    pub open spec fn current_text(self, game_id: u128) -> Seq<char> {
        let ledger = self.ledger(game_id);
        if ledger.len() == 0 {
            start_text()
        } else {
            self.encoding_of(ledger.last().position_id)
        }
    }

    /// A game as a caller sees it. A game that the store does not know is
    /// shown as a fresh one.
    pub open spec fn current(self, game_id: u128) -> GameBoardView {
        if self.has_game(game_id) {
            GameBoardView {
                id: game_id,
                board: self.current_text(game_id),
                status: self.game(game_id).status,
                winner: self.game(game_id).winner,
                outcome: self.game(game_id).outcome,
            }
        } else {
            GameBoardView {
                id: game_id,
                board: self.current_text(game_id),
                status: GameStatus::Created,
                winner: None,
                outcome: None,
            }
        }
    }

    /// Whether the latest board of a game has as many half-moves behind it as
    /// the game's ledger has entries. A game without a move is in step: it
    /// stands at the starting position, behind which no move lies.
    pub open spec fn ledger_tracks_board(self, game_id: u128) -> bool {
        self.ledger(game_id).len() == 0 || half_moves(self.current_text(game_id))
            == self.ledger(game_id).len()
    }

    /// Whether the store can take the rows of one more move of a game: two
    /// ids, two clock ticks and a move number.
    pub open spec fn has_room(self, game_id: u128) -> bool {
        &&& self.next_id <= u128::MAX - 2
        &&& self.clock <= i64::MAX - 2
        &&& self.ledger(game_id).len() < i32::MAX
    }

    /// Whether the store can take what a transition writes: nothing, or one
    /// time stamp for a resignation, or the rows of a move.
    pub open spec fn has_room_for(self, game_id: u128, transition: TransitionView) -> bool {
        match transition {
            TransitionView::Unchanged => true,
            TransitionView::Resigned { .. } => self.clock < i64::MAX,
            TransitionView::Moved { .. } => self.has_room(game_id),
        }
    }

    /// The store after a transition of a game.
    pub open spec fn commit(self, game_id: u128, transition: TransitionView) -> DatabaseView {
        match transition {
            TransitionView::Unchanged => self,
            TransitionView::Resigned { winner } => self.mark_terminal(
                game_id,
                winner,
                GameOutcome::Resignation,
            ),
            TransitionView::Moved { board, verdict } => {
                let placed = self.with_position(board);
                let recorded = placed.with_move(game_id, placed.position_id(board));
                match verdict {
                    Some((winner, outcome)) => recorded.mark_terminal(game_id, winner, outcome),
                    None => recorded.mark_active_if_created(game_id),
                }
            },
        }
    }

    /// The state machine: the store after a request and the answer to it.
    pub open spec fn step(self, game_id: u128, uci_move: Seq<char>, resign: bool) -> (
        DatabaseView,
        Result<GameBoardView, GameError>,
    ) {
        if !self.has_game(game_id) {
            (self, Err(GameError::NotFound))
        } else {
            let current = self.current(game_id);
            let transition = transition_of(current.status, current.board, uci_move, resign);
            if transition is Unchanged {
                (self, Ok(current))
            } else if !self.has_room_for(game_id, transition) {
                (self, Err(GameError::Storage))
            } else {
                (self.commit(game_id, transition), Ok(answer_of(current, transition)))
            }
        }
    }

    // ----- what holds of every store -----

    pub open spec fn games_wf(self) -> bool {
        &&& forall|i: int, j: int|
            0 <= i < j < self.games.len() ==> (#[trigger] self.games[i]).id != (
            #[trigger] self.games[j]).id
        &&& forall|i: int, j: int|
            0 <= i < j < self.games.len() ==> (#[trigger] self.games[i]).created_at < (
            #[trigger] self.games[j]).created_at
        &&& forall|i: int|
            0 <= i < self.games.len() ==> {
                let game = #[trigger] self.games[i];
                &&& game.consistent()
                &&& game.id < self.next_id
                &&& 0 <= game.created_at <= game.updated_at < self.clock
            }
    }

    pub open spec fn positions_wf(self) -> bool {
        &&& forall|i: int, j: int|
            0 <= i < j < self.positions.len() ==> (#[trigger] self.positions[i]).encoding != (
            #[trigger] self.positions[j]).encoding
        &&& forall|i: int, j: int|
            0 <= i < j < self.positions.len() ==> (#[trigger] self.positions[i]).id != (
            #[trigger] self.positions[j]).id
        &&& forall|i: int|
            0 <= i < self.positions.len() ==> (#[trigger] self.positions[i]).id < self.next_id
    }

    pub open spec fn moves_wf(self) -> bool {
        &&& forall|i: int, j: int|
            0 <= i < j < self.moves.len() ==> (#[trigger] self.moves[i]).id != (
            #[trigger] self.moves[j]).id
        &&& forall|k: int|
            0 <= k < self.moves.len() ==> {
                let entry = #[trigger] self.moves[k];
                &&& self.has_game(entry.game_id)
                &&& self.has_position_id(entry.position_id)
                &&& entry.id < self.next_id
                &&& 0 <= entry.created_at < self.clock
            }
        &&& forall|game_id: u128, n: int|
            0 <= n < self.ledger(game_id).len() ==> (#[trigger] self.ledger(game_id)[n]).move_number
                == n
    }

    /// The invariant of the store: ids and encodings are unique, every move
    /// belongs to a game and points to a position, the n-th move of every
    /// ledger bears the number n - 1, and every game is consistent.
    pub open spec fn wf(self) -> bool {
        &&& self.clock >= 0
        &&& self.games_wf()
        &&& self.positions_wf()
        &&& self.moves_wf()
    }
}

} // verus!
