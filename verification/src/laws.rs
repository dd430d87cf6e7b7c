//! What holds of every store and of every step of the state machine.

use vstd::prelude::*;
use crate::board::playable;
use crate::game_status::GameStatus;
use crate::invariants::{
    lemma_commit_moved, lemma_commit_resigned, lemma_game_row, lemma_ledger_entry,
    lemma_position_at, lemma_with_game, lemma_with_position,
};
use crate::model::{transition_of, DatabaseView, GameBoardView, GameError, TransitionView};
use crate::rules::{half_moves, position_after, start_text};

verus! {

/// Whether a request plays a move: the game exists and is neither complete
/// nor abandoned, the request is no resignation, and the move can be played
/// on the latest board.
pub open spec fn plays_a_move(v: DatabaseView, game_id: u128, uci_move: Seq<char>, resign: bool)
    -> bool {
    &&& v.has_game(game_id)
    &&& v.game(game_id).status != GameStatus::Complete
    &&& v.game(game_id).status != GameStatus::Abandoned
    &&& !resign
    &&& playable(v.current_text(game_id), uci_move)
}

/// The n-th move recorded for a game bears the number n - 1: the entries of
/// every ledger are numbered from zero without a gap.
pub proof fn law_moves_are_numbered(v: DatabaseView, game_id: u128, n: int)
    requires
        v.wf(),
        0 <= n < v.ledger(game_id).len(),
    ensures
        v.ledger(game_id)[n].move_number == n,
        v.ledger(game_id)[n].game_id == game_id,
{
    lemma_ledger_entry(v, game_id, n);
}

/// Every step of the state machine keeps the store well formed.
pub proof fn law_step_keeps_store_well_formed(
    v: DatabaseView,
    game_id: u128,
    uci_move: Seq<char>,
    resign: bool,
)
    requires
        v.wf(),
    ensures
        v.step(game_id, uci_move, resign).0.wf(),
{
    if v.has_game(game_id) {
        let current = v.current(game_id);
        let transition = transition_of(current.status, current.board, uci_move, resign);
        if v.has_room_for(game_id, transition) {
            match transition {
                TransitionView::Unchanged => {},
                TransitionView::Resigned { winner } => {
                    lemma_commit_resigned(v, game_id, winner);
                },
                TransitionView::Moved { board, verdict } => {
                    lemma_commit_moved(v, game_id, board, verdict);
                },
            }
        }
    }
}

/// A move that is played and answered adds exactly one entry to the ledger
/// of its game. The entry bears the number of moves recorded before it and
/// points to the position that the move leads to, behind which one more
/// half-move lies than behind the board before. No other ledger changes.
pub proof fn law_played_move_takes_next_number(
    v: DatabaseView,
    game_id: u128,
    uci_move: Seq<char>,
    resign: bool,
)
    requires
        v.wf(),
        plays_a_move(v, game_id, uci_move, resign),
        v.step(game_id, uci_move, resign).1.is_ok(),
    ensures
        ({
            let after = v.step(game_id, uci_move, resign).0;
            &&& after.ledger(game_id).len() == v.ledger(game_id).len() + 1
            &&& half_moves(after.current_text(game_id)) == half_moves(v.current_text(game_id))
                + 1
            &&& after.ledger(game_id).drop_last() == v.ledger(game_id)
            &&& after.ledger(game_id).last().move_number == v.ledger(game_id).len()
            &&& Some(after.current_text(game_id)) == position_after(
                v.current_text(game_id),
                uci_move,
            )
            &&& forall|other: u128| other != game_id ==> after.ledger(other) == v.ledger(other)
        }),
{
    let current = v.current(game_id);
    let transition = transition_of(current.status, current.board, uci_move, resign);
    match transition {
        TransitionView::Moved { board, verdict } => {
            lemma_commit_moved(v, game_id, board, verdict);
        },
        _ => {},
    }
}

/// A game that has just been created has no move behind it: its ledger is
/// empty, it shows the starting position in status `Created`, and the next
/// move recorded for it will bear the number 0.
pub proof fn law_new_game_starts_empty(v: DatabaseView)
    requires
        v.wf(),
        v.next_id < u128::MAX,
        v.clock < i64::MAX,
    ensures
        v.with_game().wf(),
        v.with_game().ledger(v.next_id).len() == 0,
        v.with_game().ledger_tracks_board(v.next_id),
        v.with_game().current(v.next_id) == (GameBoardView {
            id: v.next_id,
            board: start_text(),
            status: GameStatus::Created,
            winner: None,
            outcome: None,
        }),
{
    lemma_with_game(v);
    if v.ledger(v.next_id).len() > 0 {
        lemma_ledger_entry(v, v.next_id, 0);
    }
    assert(v.with_game().ledger(v.next_id) == v.ledger(v.next_id));
}

/// The store after a row of moves for one game, each handed to the state
/// machine in turn.
pub open spec fn play_all(v: DatabaseView, game_id: u128, moves: Seq<Seq<char>>) -> DatabaseView
    decreases moves.len(),
{
    if moves.len() == 0 {
        v
    } else {
        play_all(v, game_id, moves.drop_last()).step(game_id, moves.last(), false).0
    }
}

/// Whether every move of a row is played and answered when its turn comes.
pub open spec fn all_played(v: DatabaseView, game_id: u128, moves: Seq<Seq<char>>) -> bool
    decreases moves.len(),
{
    moves.len() == 0 || {
        let before = play_all(v, game_id, moves.drop_last());
        &&& all_played(v, game_id, moves.drop_last())
        &&& plays_a_move(before, game_id, moves.last(), false)
        &&& before.step(game_id, moves.last(), false).1.is_ok()
    }
}

/// The board that a row of moves leads to from a position, where each of
/// them can be played in its turn.
pub open spec fn board_after_all(position: Seq<char>, moves: Seq<Seq<char>>) -> Seq<char>
    decreases moves.len(),
{
    if moves.len() == 0 {
        position
    } else {
        position_after(board_after_all(position, moves.drop_last()), moves.last()).unwrap()
    }
}

/// A row of moves that are all played and answered, in whatever way the
/// requests for them were brought into that order, adds exactly one entry
/// for each move to the ledger of the game. The entries follow those that
/// were there, they are numbered on without a gap, and the game's latest
/// board is the one that the moves lead to one after the other. For a game
/// that had no move, the n-th move of the row bears the number n - 1. Where
/// the latest board had as many half-moves behind it as the ledger had
/// entries, it has so afterwards.
pub proof fn law_moves_in_a_row(v: DatabaseView, game_id: u128, moves: Seq<Seq<char>>)
    requires
        v.wf(),
        all_played(v, game_id, moves),
    ensures
        ({
            let after = play_all(v, game_id, moves);
            let before = v.ledger(game_id).len() as int;
            &&& after.wf()
            &&& after.ledger(game_id).len() == before + moves.len()
            &&& after.ledger(game_id).take(before) == v.ledger(game_id)
            &&& forall|n: int|
                0 <= n < moves.len() ==> (#[trigger] after.ledger(game_id)[before + n]).move_number
                    == before + n
            &&& after.current_text(game_id) == board_after_all(v.current_text(game_id), moves)
            &&& half_moves(after.current_text(game_id)) == half_moves(v.current_text(game_id))
                + moves.len()
        }),
    decreases moves.len(),
{
    let before = v.ledger(game_id).len() as int;
    if moves.len() == 0 {
        assert(v.ledger(game_id).take(before) =~= v.ledger(game_id));
    } else {
        let earlier = play_all(v, game_id, moves.drop_last());
        let after = play_all(v, game_id, moves);
        law_moves_in_a_row(v, game_id, moves.drop_last());
        law_played_move_takes_next_number(earlier, game_id, moves.last(), false);
        law_step_keeps_store_well_formed(earlier, game_id, moves.last(), false);
        assert(after.ledger(game_id).take(before) =~= earlier.ledger(game_id).take(before)) by {
            assert(after.ledger(game_id).drop_last() == earlier.ledger(game_id));
        }
        assert forall|n: int| 0 <= n < moves.len() implies (#[trigger] after.ledger(game_id)[before
            + n]).move_number == before + n by {
            lemma_ledger_entry(after, game_id, before + n);
        }
    }
}

/// A request that plays no move and is no resignation of a running game
/// writes nothing; in particular a move that cannot be played leaves the
/// store as it was and is answered with the game as it stood.
pub proof fn law_rejected_move_changes_nothing(
    v: DatabaseView,
    game_id: u128,
    uci_move: Seq<char>,
)
    requires
        v.has_game(game_id),
        !playable(v.current_text(game_id), uci_move),
    ensures
        v.step(game_id, uci_move, false) == (v, Ok::<GameBoardView, GameError>(v.current(game_id))),
{
}

/// No two rows of the position table hold the same encoding.
pub proof fn law_one_row_for_each_encoding(v: DatabaseView, i: int, j: int)
    requires
        v.wf(),
        0 <= i < v.positions.len(),
        0 <= j < v.positions.len(),
        v.positions[i].encoding == v.positions[j].encoding,
    ensures
        i == j,
{
    lemma_position_at(v, i);
    lemma_position_at(v, j);
}

/// Placing an encoding a second time changes nothing and gives the same id.
pub proof fn law_placing_twice_is_placing_once(v: DatabaseView, encoding: Seq<char>)
    requires
        v.wf(),
        v.has_position(encoding) || v.next_id < u128::MAX,
    ensures
        v.with_position(encoding).with_position(encoding) == v.with_position(encoding),
        v.with_position(encoding).has_position(encoding),
{
    lemma_with_position(v, encoding);
}

/// Two games that reach the same position share its row: after a move of
/// one game and a move of another that lead to the same encoding, the
/// second move has added no position, and the last entries of both ledgers
/// point to the same id.
pub proof fn law_games_share_positions(
    v: DatabaseView,
    first: u128,
    first_move: Seq<char>,
    second: u128,
    second_move: Seq<char>,
)
    requires
        v.wf(),
        first != second,
        plays_a_move(v, first, first_move, false),
        v.step(first, first_move, false).1.is_ok(),
        plays_a_move(v.step(first, first_move, false).0, second, second_move, false),
        v.step(first, first_move, false).0.step(second, second_move, false).1.is_ok(),
        position_after(v.current_text(first), first_move) == position_after(
            v.step(first, first_move, false).0.current_text(second),
            second_move,
        ),
    ensures
        ({
            let between = v.step(first, first_move, false).0;
            let after = between.step(second, second_move, false).0;
            &&& after.positions == between.positions
            &&& after.ledger(first).last().position_id == after.ledger(second).last().position_id
        }),
{
    let between = v.step(first, first_move, false).0;
    let after = between.step(second, second_move, false).0;
    let encoding = position_after(v.current_text(first), first_move).unwrap();
    let current = v.current(first);
    let transition = transition_of(current.status, current.board, first_move, false);
    match transition {
        TransitionView::Moved { board, verdict } => {
            lemma_commit_moved(v, first, board, verdict);
        },
        _ => {},
    }
    let current2 = between.current(second);
    let transition2 = transition_of(current2.status, current2.board, second_move, false);
    match transition2 {
        TransitionView::Moved { board, verdict } => {
            lemma_commit_moved(between, second, board, verdict);
        },
        _ => {},
    }
    lemma_with_position(v, encoding);
    lemma_with_position(between, encoding);
    assert(between.with_position(encoding) == between);
    assert(after.ledger(first) == between.ledger(first));
    let row = between.position_index(encoding);
    lemma_position_at(between, row);
    let placed = v.with_position(encoding);
    lemma_position_at(placed, placed.position_index(encoding));
    assert(between.positions == v.with_position(encoding).positions);
}

/// A game that is complete or abandoned absorbs every request: the answer
/// is the game as it stood before the call, and the store is the store as
/// it was.
pub proof fn law_finished_game_absorbs(
    v: DatabaseView,
    game_id: u128,
    uci_move: Seq<char>,
    resign: bool,
)
    requires
        v.has_game(game_id),
        v.game(game_id).status == GameStatus::Complete || v.game(game_id).status
            == GameStatus::Abandoned,
    ensures
        v.step(game_id, uci_move, resign) == (
            v,
            Ok::<GameBoardView, GameError>(v.current(game_id)),
        ),
{
}

/// Once a request has completed a game, every later request for that game
/// is given the same answer again and writes nothing.
pub proof fn law_final_answer_is_repeated(
    v: DatabaseView,
    game_id: u128,
    uci_move: Seq<char>,
    resign: bool,
    later_move: Seq<char>,
    later_resign: bool,
)
    requires
        v.wf(),
        v.step(game_id, uci_move, resign).1 matches Ok(answer) && answer.status
            == GameStatus::Complete,
    ensures
        v.step(game_id, uci_move, resign).0.step(game_id, later_move, later_resign) == (
            v.step(game_id, uci_move, resign).0,
            v.step(game_id, uci_move, resign).1,
        ),
{
    let current = v.current(game_id);
    let transition = transition_of(current.status, current.board, uci_move, resign);
    let after = v.step(game_id, uci_move, resign).0;
    match transition {
        TransitionView::Unchanged => {},
        TransitionView::Resigned { winner } => {
            lemma_commit_resigned(v, game_id, winner);
            assert(after.ledger(game_id) == v.ledger(game_id));
        },
        TransitionView::Moved { board, verdict } => {
            lemma_commit_moved(v, game_id, board, verdict);
        },
    }
    assert(after.has_game(game_id));
    assert(after.current(game_id) == v.step(game_id, uci_move, resign).1->Ok_0);
}

/// The state machine never answers with a sequence conflict: it reads the
/// next number from the ledger it is about to write.
pub proof fn law_step_never_conflicts(
    v: DatabaseView,
    game_id: u128,
    uci_move: Seq<char>,
    resign: bool,
)
    ensures
        v.step(game_id, uci_move, resign).1 != Err::<GameBoardView, GameError>(
            GameError::SequenceConflict,
        ),
{
}

/// A winner and an outcome are set exactly for complete games, and a draw
/// is always a stalemate.
pub proof fn law_games_are_consistent(v: DatabaseView, game_id: u128)
    requires
        v.wf(),
        v.has_game(game_id),
    ensures
        v.game(game_id).consistent(),
{
    lemma_game_row(v, game_id);
}

/// The state machine takes no game to `Abandoned`: a game that a request
/// leaves in that status was in it before.
pub proof fn law_step_never_abandons(
    v: DatabaseView,
    game_id: u128,
    uci_move: Seq<char>,
    resign: bool,
    any: u128,
)
    requires
        v.wf(),
        v.has_game(any),
        v.step(game_id, uci_move, resign).0.game(any).status == GameStatus::Abandoned,
    ensures
        v.game(any).status == GameStatus::Abandoned,
{
    if v.has_game(game_id) {
        let current = v.current(game_id);
        let transition = transition_of(current.status, current.board, uci_move, resign);
        if v.has_room_for(game_id, transition) {
            match transition {
                TransitionView::Unchanged => {},
                TransitionView::Resigned { winner } => {
                    lemma_commit_resigned(v, game_id, winner);
                },
                TransitionView::Moved { board, verdict } => {
                    lemma_commit_moved(v, game_id, board, verdict);
                },
            }
        }
    }
}

/// Read newest first, the games come in falling order of their time of creation.
pub proof fn law_games_are_read_newest_first(v: DatabaseView, i: int, j: int)
    requires
        v.wf(),
        0 <= i < j < v.games.len(),
    ensures
        v.games.reverse()[i].created_at > v.games.reverse()[j].created_at,
{
    let n = v.games.len() as int;
    assert(v.games.reverse()[i] == v.games[n - 1 - i]);
    assert(v.games.reverse()[j] == v.games[n - 1 - j]);
}

} // verus!
