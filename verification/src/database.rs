//! The store: games, deduplicated positions and the move ledgers, held in
//! memory. Rows are never removed. The store hands out its own ids and
//! stamps every write with its own clock, so that what it holds is a
//! function of the requests it has served.

use vstd::prelude::*;
use vstd::string::*;
use crate::board::DatabaseBoard;
use crate::game_outcome::GameOutcome;
use crate::game_status::GameStatus;
use crate::game_winner::GameWinner;
use crate::invariants::{
    lemma_game_at, lemma_ledger_entry, lemma_ledger_push, lemma_position_at, lemma_rewrite_game,
    lemma_with_game, lemma_with_move, lemma_with_position,
};
use crate::model::{in_game, DatabaseView, GameError, PositionView};
use crate::position::Position;
use crate::records::{Game, Move};

verus! {

/// The rows of the position table as the model sees them.
pub open spec fn position_views(rows: Seq<Position>) -> Seq<PositionView> {
    Seq::new(rows.len(), |i: int| rows[i]@)
}

/// The store.
pub struct Database {
    games: Vec<Game>,
    positions: Vec<Position>,
    moves: Vec<Move>,
    next_id: u128,
    clock: i64,
}

impl View for Database {
    type V = DatabaseView;

    closed spec fn view(&self) -> DatabaseView {
        DatabaseView {
            games: self.games@,
            positions: position_views(self.positions@),
            moves: self.moves@,
            next_id: self.next_id,
            clock: self.clock,
        }
    }
}

impl Database {
    /// An empty store.
    pub fn new() -> (db: Database)
        ensures
            db@ == DatabaseView::empty(),
            db@.wf(),
    {
        let db = Database {
            games: Vec::new(),
            positions: Vec::new(),
            moves: Vec::new(),
            next_id: 0,
            clock: 0,
        };
        proof {
            assert(db@.positions =~= Seq::<PositionView>::empty());
            assert(db@.games =~= Seq::<Game>::empty());
            assert(db@.moves =~= Seq::<Move>::empty());
            db@.moves.lemma_filter_len(in_game(0));
            assert forall|game_id: u128, n: int| 0 <= n < db@.ledger(game_id).len() implies (
            #[trigger] db@.ledger(game_id)[n]).move_number == n by {
                db@.moves.lemma_filter_len(in_game(game_id));
            }
        }
        db
    }

    /// The number of stored positions.
    pub fn position_count(&self) -> (count: usize)
        ensures
            count == self@.positions.len(),
    {
        self.positions.len()
    }

    /// The number of moves recorded for all games together.
    pub fn move_count(&self) -> (count: usize)
        ensures
            count == self@.moves.len(),
    {
        self.moves.len()
    }

    /// The row in which a game stands.
    fn game_row(&self, id: u128) -> (row: Option<usize>)
        ensures
            match row {
                Some(k) => k < self@.games.len() && self@.games[k as int].id == id
                    && self@.has_game(id),
                None => !self@.has_game(id),
            },
    {
        let mut i: usize = 0;
        while i < self.games.len()
            invariant
                i <= self.games@.len(),
                forall|k: int| 0 <= k < i ==> (#[trigger] self.games@[k]).id != id,
            decreases self.games@.len() - i,
        {
            if self.games[i].id == id {
                assert(self@.games[i as int].id == id);
                return Some(i);
            }
            i += 1;
        }
        None
    }

    /// Whether a game exists.
    pub fn game_exists(&self, id: u128) -> (known: bool)
        ensures
            known == self@.has_game(id),
    {
        self.game_row(id).is_some()
    }

    /// The game with an id.
    pub fn find_game(&self, id: u128) -> (found: Option<Game>)
        requires
            self@.wf(),
        ensures
            match found {
                Some(game) => self@.has_game(id) && game == self@.game(id),
                None => !self@.has_game(id),
            },
    {
        match self.game_row(id) {
            Some(k) => {
                proof {
                    lemma_game_at(self@, k as int);
                }
                Some(self.games[k])
            },
            None => None,
        }
    }

    /// Adds a game in status `Created`. The store refuses when it has no id
    /// or no clock tick left.
    pub fn create_game(&mut self) -> (made: Result<Game, GameError>)
        requires
            old(self)@.wf(),
        ensures
            final(self)@.wf(),
            old(self)@.next_id < u128::MAX && old(self)@.clock < i64::MAX ==> made == Ok::<
                Game,
                GameError,
            >(old(self)@.new_game()) && final(self)@ == old(self)@.with_game(),
            !(old(self)@.next_id < u128::MAX && old(self)@.clock < i64::MAX) ==> made == Err::<
                Game,
                GameError,
            >(GameError::Storage) && final(self)@ == old(self)@,
    {
        if self.next_id == u128::MAX || self.clock == i64::MAX {
            return Err(GameError::Storage);
        }
        let game = Game {
            id: self.next_id,
            created_at: self.clock,
            updated_at: self.clock,
            status: GameStatus::Created,
            winner: None,
            outcome: None,
        };
        self.games.push(game);
        self.next_id = self.next_id + 1;
        self.clock = self.clock + 1;
        proof {
            lemma_with_game(old(self)@);
            assert(self@.games =~= old(self)@.with_game().games);
            assert(self@.positions =~= old(self)@.with_game().positions);
            assert(self@.moves =~= old(self)@.with_game().moves);
        }
        Ok(game)
    }

    /// All games, the one created last first.
    pub fn read_all_games(&self) -> (games: Vec<Game>)
        ensures
            games@ == self@.games.reverse(),
    {
        let mut games: Vec<Game> = Vec::new();
        let n = self.games.len();
        let mut i: usize = 0;
        while i < n
            invariant
                n == self.games@.len(),
                i <= n,
                games@.len() == i,
                forall|k: int| 0 <= k < i ==> games@[k] == self.games@[n - 1 - k],
            decreases n - i,
        {
            games.push(self.games[n - 1 - i]);
            i += 1;
        }
        assert(games@ =~= self@.games.reverse());
        games
    }

    /// The row in which an encoding stands.
    fn position_row(&self, text: &String) -> (row: Option<usize>)
        ensures
            match row {
                Some(k) => k < self@.positions.len() && self@.positions[k as int].encoding
                    == text@ && self@.has_position(text@),
                None => !self@.has_position(text@),
            },
    {
        let mut i: usize = 0;
        while i < self.positions.len()
            invariant
                i <= self.positions@.len(),
                forall|k: int| 0 <= k < i ==> (#[trigger] self@.positions[k]).encoding != text@,
            decreases self.positions@.len() - i,
        {
            let stored = self.positions[i].board.fen();
            if stored == *text {
                assert(self@.positions[i as int].encoding == text@);
                return Some(i);
            }
            assert(self@.positions[i as int].encoding != text@);
            i += 1;
        }
        None
    }

    /// The id under which a board is stored, after storing it where it was
    /// not: equal boards get one row, whoever asks and however often. The
    /// store refuses when the board needs a row and no id is left.
    pub fn get_or_create_position(&mut self, board: &DatabaseBoard) -> (id: Result<u128, GameError>)
        requires
            old(self)@.wf(),
        ensures
            final(self)@.wf(),
            old(self)@.has_position(board@) || old(self)@.next_id < u128::MAX ==> final(self)@
                == old(self)@.with_position(board@) && id == Ok::<u128, GameError>(
                final(self)@.position_id(board@),
            ),
            !(old(self)@.has_position(board@) || old(self)@.next_id < u128::MAX) ==> final(self)@
                == old(self)@ && id == Err::<u128, GameError>(GameError::Storage),
    {
        let text = board.fen();
        match self.position_row(&text) {
            Some(k) => {
                proof {
                    lemma_position_at(self@, k as int);
                    lemma_with_position(self@, board@);
                }
                Ok(self.positions[k].id)
            },
            None => {
                if self.next_id == u128::MAX {
                    return Err(GameError::Storage);
                }
                let id = self.next_id;
                self.positions.push(Position { id, board: board.duplicate() });
                self.next_id = self.next_id + 1;
                proof {
                    lemma_with_position(old(self)@, board@);
                    assert(self@.positions =~= old(self)@.with_position(board@).positions);
                    assert(self@.games =~= old(self)@.with_position(board@).games);
                    assert(self@.moves =~= old(self)@.with_position(board@).moves);
                }
                Ok(id)
            },
        }
    }

    /// The board stored under a position id.
    pub fn board_of(&self, position_id: u128) -> (board: Option<DatabaseBoard>)
        requires
            self@.wf(),
        ensures
            match board {
                Some(board) => self@.has_position_id(position_id) && board@ == self@.encoding_of(
                    position_id,
                ),
                None => !self@.has_position_id(position_id),
            },
    {
        let mut i: usize = 0;
        while i < self.positions.len()
            invariant
                self@.wf(),
                i <= self.positions@.len(),
                forall|k: int| 0 <= k < i ==> (#[trigger] self@.positions[k]).id != position_id,
            decreases self.positions@.len() - i,
        {
            if self.positions[i].id == position_id {
                proof {
                    assert(self@.positions[i as int].id == position_id);
                    lemma_position_at(self@, i as int);
                }
                return Some(self.positions[i].board.duplicate());
            }
            assert(self@.positions[i as int].id != position_id);
            i += 1;
        }
        None
    }

    /// The last move of a game's ledger, if it has one.
    pub fn latest_move(&self, game_id: u128) -> (last: Option<Move>)
        ensures
            match last {
                Some(entry) => self@.ledger(game_id).len() > 0 && entry == self@.ledger(
                    game_id,
                ).last(),
                None => self@.ledger(game_id).len() == 0,
            },
    {
        let mut last: Option<Move> = None;
        let n = self.moves.len();
        let mut i: usize = 0;
        proof {
            self.moves@.take(0).lemma_filter_len(in_game(game_id));
        }
        while i < n
            invariant
                n == self.moves@.len(),
                i <= n,
                match last {
                    Some(entry) => self.moves@.take(i as int).filter(in_game(game_id)).len() > 0
                        && entry == self.moves@.take(i as int).filter(in_game(game_id)).last(),
                    None => self.moves@.take(i as int).filter(in_game(game_id)).len() == 0,
                },
            decreases n - i,
        {
            let entry = self.moves[i];
            proof {
                assert(self.moves@.take(i as int + 1) =~= self.moves@.take(i as int).push(entry));
                lemma_ledger_push(self.moves@.take(i as int), entry, game_id);
            }
            if entry.game_id == game_id {
                last = Some(entry);
            }
            i += 1;
        }
        assert(self.moves@.take(n as int) =~= self.moves@);
        last
    }

    /// Whether the store has a time stamp left for one more write.
    pub fn has_tick(&self) -> (left: bool)
        ensures
            left == (self@.clock < i64::MAX),
    {
        self.clock < i64::MAX
    }

    /// Whether the store can take the rows of one more move of a game.
    pub fn has_room(&self, game_id: u128) -> (room: bool)
        requires
            self@.wf(),
        ensures
            room == self@.has_room(game_id),
    {
        let short = match self.latest_move(game_id) {
            None => true,
            Some(entry) => {
                proof {
                    lemma_ledger_entry(self@, game_id, self@.ledger(game_id).len() - 1);
                }
                entry.move_number < i32::MAX - 1
            },
        };
        short && self.next_id <= u128::MAX - 2 && self.clock <= i64::MAX - 2
    }

    /// Records a move at the end of a game's ledger. The ledger takes the next
    /// number and no other: a number that is taken already, or one that would
    /// leave a gap, is a conflict.
    pub fn append_move(&mut self, game_id: u128, position_id: u128, move_number: i32) -> (done:
        Result<(), GameError>)
        requires
            old(self)@.wf(),
        ensures
            final(self)@.wf(),
            done == old(self)@.append_check(game_id, position_id, move_number),
            done.is_ok() ==> final(self)@ == old(self)@.with_move(game_id, position_id),
            done.is_err() ==> final(self)@ == old(self)@,
    {
        if !self.game_exists(game_id) {
            return Err(GameError::NotFound);
        }
        if self.board_of(position_id).is_none() {
            return Err(GameError::Storage);
        }
        let in_step = match self.latest_move(game_id) {
            None => move_number == 0,
            Some(entry) => {
                proof {
                    lemma_ledger_entry(self@, game_id, self@.ledger(game_id).len() - 1);
                }
                entry.move_number < i32::MAX && move_number == entry.move_number + 1
            },
        };
        if !in_step {
            return Err(GameError::SequenceConflict);
        }
        if self.next_id == u128::MAX || self.clock == i64::MAX {
            return Err(GameError::Storage);
        }
        self.moves.push(
            Move { id: self.next_id, game_id, position_id, move_number, created_at: self.clock },
        );
        self.next_id = self.next_id + 1;
        self.clock = self.clock + 1;
        proof {
            lemma_with_move(old(self)@, game_id, position_id);
            assert(self@.moves =~= old(self)@.with_move(game_id, position_id).moves);
            assert(self@.positions =~= old(self)@.with_move(game_id, position_id).positions);
            assert(self@.games =~= old(self)@.with_move(game_id, position_id).games);
        }
        Ok(())
    }

    /// Marks a game complete. A draw can only be recorded as a stalemate.
    pub fn mark_terminal(&mut self, id: u128, winner: GameWinner, outcome: GameOutcome) -> (done:
        Result<(), GameError>)
        requires
            old(self)@.wf(),
            winner == GameWinner::Draw ==> outcome == GameOutcome::Stalemate,
        ensures
            final(self)@.wf(),
            !old(self)@.has_game(id) ==> done == Err::<(), GameError>(GameError::NotFound)
                && final(self)@ == old(self)@,
            old(self)@.has_game(id) && old(self)@.clock == i64::MAX ==> done == Err::<
                (),
                GameError,
            >(GameError::Storage) && final(self)@ == old(self)@,
            old(self)@.has_game(id) && old(self)@.clock < i64::MAX ==> done == Ok::<(), GameError>(
                (),
            ) && final(self)@ == old(self)@.mark_terminal(id, winner, outcome),
    {
        match self.game_row(id) {
            None => Err(GameError::NotFound),
            Some(k) => {
                if self.clock == i64::MAX {
                    return Err(GameError::Storage);
                }
                let game = self.games[k];
                let changed = Game {
                    id: game.id,
                    created_at: game.created_at,
                    updated_at: self.clock,
                    status: GameStatus::Complete,
                    winner: Some(winner),
                    outcome: Some(outcome),
                };
                self.games.set(k, changed);
                self.clock = self.clock + 1;
                proof {
                    lemma_game_at(old(self)@, k as int);
                    lemma_rewrite_game(old(self)@, id, changed);
                    assert(self@.games =~= old(self)@.mark_terminal(id, winner, outcome).games);
                    assert(self@.positions =~= old(self)@.positions);
                    assert(self@.moves =~= old(self)@.moves);
                }
                Ok(())
            },
        }
    }

    /// Takes a game from `Created` to `Active`. A game in any other status,
    /// or one that does not exist, is left as it is.
    pub fn mark_active_if_created(&mut self, id: u128) -> (done: Result<(), GameError>)
        requires
            old(self)@.wf(),
        ensures
            final(self)@.wf(),
            old(self)@.awaits_first_move(id) && old(self)@.clock == i64::MAX ==> done == Err::<
                (),
                GameError,
            >(GameError::Storage) && final(self)@ == old(self)@,
            !(old(self)@.awaits_first_move(id) && old(self)@.clock == i64::MAX) ==> done == Ok::<
                (),
                GameError,
            >(()) && final(self)@ == old(self)@.mark_active_if_created(id),
    {
        match self.game_row(id) {
            None => Ok(()),
            Some(k) => {
                proof {
                    lemma_game_at(self@, k as int);
                }
                let game = self.games[k];
                match game.status {
                    GameStatus::Created => {
                        if self.clock == i64::MAX {
                            return Err(GameError::Storage);
                        }
                        let changed = Game {
                            id: game.id,
                            created_at: game.created_at,
                            updated_at: self.clock,
                            status: GameStatus::Active,
                            winner: game.winner,
                            outcome: game.outcome,
                        };
                        self.games.set(k, changed);
                        self.clock = self.clock + 1;
                        proof {
                            lemma_rewrite_game(old(self)@, id, changed);
                            assert(self@.games =~= old(self)@.mark_active_if_created(id).games);
                            assert(self@.positions =~= old(self)@.positions);
                            assert(self@.moves =~= old(self)@.moves);
                        }
                        Ok(())
                    },
                    _ => Ok(()),
                }
            },
        }
    }
}

} // verus!
