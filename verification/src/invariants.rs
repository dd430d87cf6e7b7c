//! Proofs that every operation of the model keeps the store well formed, and
//! the facts about lookups that the executable store rests on.

use vstd::prelude::*;
use crate::game_outcome::GameOutcome;
use crate::game_status::GameStatus;
use crate::game_winner::GameWinner;
use crate::model::{in_game, DatabaseView, PositionView, TransitionView};
use crate::records::{Game, Move};

verus! {

/// The game in row `k` is the game that its id names.
pub proof fn lemma_game_at(v: DatabaseView, k: int)
    requires
        v.games_wf(),
        0 <= k < v.games.len(),
    ensures
        v.has_game(v.games[k].id),
        v.game_index(v.games[k].id) == k,
        v.game(v.games[k].id) == v.games[k],
{
    let id = v.games[k].id;
    assert(v.has_game(id));
    let c = v.game_index(id);
    assert(0 <= c < v.games.len() && v.games[c].id == id);
    if c < k {
        assert(v.games[c].id != v.games[k].id);
    } else if k < c {
        assert(v.games[k].id != v.games[c].id);
    }
}

/// A game that the store has stands in the row that `game_index` names.
pub proof fn lemma_game_row(v: DatabaseView, id: u128)
    requires
        v.has_game(id),
    ensures
        0 <= v.game_index(id) < v.games.len(),
        v.games[v.game_index(id)].id == id,
        v.game(id).id == id,
{
}

/// The position in row `k` is the one that its encoding names, and the one
/// that its id names.
pub proof fn lemma_position_at(v: DatabaseView, k: int)
    requires
        v.positions_wf(),
        0 <= k < v.positions.len(),
    ensures
        v.has_position(v.positions[k].encoding),
        v.position_index(v.positions[k].encoding) == k,
        v.position_id(v.positions[k].encoding) == v.positions[k].id,
        v.has_position_id(v.positions[k].id),
        v.position_row(v.positions[k].id) == k,
        v.encoding_of(v.positions[k].id) == v.positions[k].encoding,
{
    let encoding = v.positions[k].encoding;
    assert(v.has_position(encoding));
    let c = v.position_index(encoding);
    assert(0 <= c < v.positions.len() && v.positions[c].encoding == encoding);
    if c < k {
        assert(v.positions[c].encoding != v.positions[k].encoding);
    } else if k < c {
        assert(v.positions[k].encoding != v.positions[c].encoding);
    }
    let id = v.positions[k].id;
    assert(v.has_position_id(id));
    let r = v.position_row(id);
    assert(0 <= r < v.positions.len() && v.positions[r].id == id);
    if r < k {
        assert(v.positions[r].id != v.positions[k].id);
    } else if k < r {
        assert(v.positions[k].id != v.positions[r].id);
    }
}

/// Two stores with the same games know the same games, and two with the same
/// positions know the same positions.
pub proof fn lemma_same_rows(v: DatabaseView, w: DatabaseView)
    ensures
        v.games == w.games ==> forall|id: u128| v.has_game(id) == w.has_game(id),
        v.positions == w.positions ==> forall|id: u128|
            v.has_position_id(id) == w.has_position_id(id),
{
    if v.games == w.games {
        assert forall|id: u128| v.has_game(id) == w.has_game(id) by {
            if v.has_game(id) {
                assert(w.games[v.game_index(id)].id == id);
            }
            if w.has_game(id) {
                assert(v.games[w.game_index(id)].id == id);
            }
        }
    }
    if v.positions == w.positions {
        assert forall|id: u128| v.has_position_id(id) == w.has_position_id(id) by {
            if v.has_position_id(id) {
                assert(w.positions[v.position_row(id)].id == id);
            }
            if w.has_position_id(id) {
                assert(v.positions[w.position_row(id)].id == id);
            }
        }
    }
}

/// Recording a move lengthens the ledger of its game by that move and
/// leaves every other ledger as it was.
pub proof fn lemma_ledger_push(moves: Seq<Move>, entry: Move, game_id: u128)
    ensures
        moves.push(entry).filter(in_game(game_id)) == if entry.game_id == game_id {
            moves.filter(in_game(game_id)).push(entry)
        } else {
            moves.filter(in_game(game_id))
        },
{
    moves.lemma_filter_push(entry, in_game(game_id));
}

/// Every entry of a game's ledger is a move of that game, and the position
/// it points to is stored.
pub proof fn lemma_ledger_entry(v: DatabaseView, game_id: u128, n: int)
    requires
        v.wf(),
        0 <= n < v.ledger(game_id).len(),
    ensures
        v.ledger(game_id)[n].game_id == game_id,
        v.ledger(game_id)[n].move_number == n,
        v.has_game(game_id),
        v.has_position_id(v.ledger(game_id)[n].position_id),
{
    let entry = v.ledger(game_id)[n];
    v.moves.lemma_filter_pred(in_game(game_id), n);
    assert(v.moves.filter(in_game(game_id)).contains(entry));
    v.moves.lemma_filter_contains_rev(in_game(game_id), entry);
    let k = choose|k: int| 0 <= k < v.moves.len() && v.moves[k] == entry;
    assert(v.has_game(v.moves[k].game_id));
}

/// Adding a game keeps the store well formed.
pub proof fn lemma_with_game(v: DatabaseView)
    requires
        v.wf(),
        v.next_id < u128::MAX,
        v.clock < i64::MAX,
    ensures
        v.with_game().wf(),
        v.with_game().has_game(v.next_id),
        v.with_game().game(v.next_id) == v.new_game(),
        !v.has_game(v.next_id),
        forall|id: u128| v.has_game(id) ==> v.with_game().has_game(id),
{
    let w = v.with_game();
    let last = v.games.len() as int;
    assert(w.games[last] == v.new_game());
    assert forall|id: u128| v.has_game(id) implies w.has_game(id) by {
        let i = v.game_index(id);
        assert(w.games[i].id == id);
    }
    assert forall|i: int, j: int| 0 <= i < j < w.games.len() implies (#[trigger] w.games[i]).id != (
    #[trigger] w.games[j]).id && w.games[i].created_at < w.games[j].created_at by {
        if j == last {
            assert(w.games[i] == v.games[i]);
        } else {
            assert(w.games[i] == v.games[i]);
            assert(w.games[j] == v.games[j]);
        }
    }
    assert forall|i: int| 0 <= i < w.games.len() implies {
        let game = #[trigger] w.games[i];
        &&& game.consistent()
        &&& game.id < w.next_id
        &&& 0 <= game.created_at <= game.updated_at < w.clock
    } by {
        if i < last {
            assert(w.games[i] == v.games[i]);
        }
    }
    assert(w.games_wf());
    assert(w.positions_wf());
    assert forall|k: int| 0 <= k < w.moves.len() implies {
        let entry = #[trigger] w.moves[k];
        &&& w.has_game(entry.game_id)
        &&& w.has_position_id(entry.position_id)
        &&& entry.id < w.next_id
        &&& 0 <= entry.created_at < w.clock
    } by {
        assert(w.moves[k] == v.moves[k]);
        assert(v.has_game(v.moves[k].game_id));
        assert(v.has_position_id(v.moves[k].position_id));
        lemma_same_rows(v, w);
    }
    assert forall|game_id: u128, n: int| 0 <= n < w.ledger(game_id).len() implies (
    #[trigger] w.ledger(game_id)[n]).move_number == n by {
        assert(w.ledger(game_id) == v.ledger(game_id));
    }
    assert(w.moves_wf());
    lemma_game_at(w, last);
    if v.has_game(v.next_id) {
        let i = v.game_index(v.next_id);
        assert(v.games[i].id < v.next_id);
    }
}

/// Placing an encoding keeps the store well formed; afterwards the encoding
/// has a row, under the id it had before or under a new one.
pub proof fn lemma_with_position(v: DatabaseView, encoding: Seq<char>)
    requires
        v.wf(),
        v.has_position(encoding) || v.next_id < u128::MAX,
    ensures
        v.with_position(encoding).wf(),
        v.with_position(encoding).has_position(encoding),
        v.with_position(encoding).position_id(encoding) == if v.has_position(encoding) {
            v.position_id(encoding)
        } else {
            v.next_id
        },
        v.with_position(encoding).has_position_id(v.with_position(encoding).position_id(encoding)),
        v.with_position(encoding).encoding_of(v.with_position(encoding).position_id(encoding))
            == encoding,
        forall|id: u128|
            v.has_position_id(id) ==> v.with_position(encoding).has_position_id(id)
                && v.with_position(encoding).encoding_of(id) == v.encoding_of(id),
{
    let w = v.with_position(encoding);
    if v.has_position(encoding) {
        let k = v.position_index(encoding);
        lemma_position_at(v, k);
    } else {
        let last = v.positions.len() as int;
        assert(w.positions[last] == PositionView { id: v.next_id, encoding });
        assert forall|i: int, j: int| 0 <= i < j < w.positions.len() implies (
        #[trigger] w.positions[i]).encoding != (#[trigger] w.positions[j]).encoding
            && w.positions[i].id != w.positions[j].id by {
            assert(w.positions[i] == v.positions[i]);
            if j == last {
                assert(v.positions[i].id < v.next_id);
                if v.positions[i].encoding == encoding {
                    assert(v.has_position(encoding));
                }
            } else {
                assert(w.positions[j] == v.positions[j]);
            }
        }
        assert forall|i: int| 0 <= i < w.positions.len() implies (#[trigger] w.positions[i]).id
            < w.next_id by {
            if i < last {
                assert(w.positions[i] == v.positions[i]);
            }
        }
        assert(w.positions_wf());
        assert forall|id: u128| v.has_position_id(id) implies w.has_position_id(id)
            && w.encoding_of(id) == v.encoding_of(id) by {
            let r = v.position_row(id);
            assert(w.positions[r] == v.positions[r]);
            lemma_position_at(v, r);
            lemma_position_at(w, r);
        }
        assert forall|k: int| 0 <= k < w.moves.len() implies {
            let entry = #[trigger] w.moves[k];
            &&& w.has_game(entry.game_id)
            &&& w.has_position_id(entry.position_id)
            &&& entry.id < w.next_id
            &&& 0 <= entry.created_at < w.clock
        } by {
            assert(w.moves[k] == v.moves[k]);
            assert(v.has_position_id(v.moves[k].position_id));
        }
        assert forall|game_id: u128, n: int| 0 <= n < w.ledger(game_id).len() implies (
        #[trigger] w.ledger(game_id)[n]).move_number == n by {
            assert(w.ledger(game_id) == v.ledger(game_id));
        }
        assert(w.moves_wf());
        assert forall|i: int| 0 <= i < w.games.len() implies {
            let game = #[trigger] w.games[i];
            &&& game.consistent()
            &&& game.id < w.next_id
            &&& 0 <= game.created_at <= game.updated_at < w.clock
        } by {
            assert(w.games[i] == v.games[i]);
        }
        assert(w.games_wf());
        lemma_position_at(w, last);
    }
}

/// Recording a move keeps the store well formed and lengthens the ledger of
/// its game by one entry, which bears the next number.
pub proof fn lemma_with_move(v: DatabaseView, game_id: u128, position_id: u128)
    requires
        v.wf(),
        v.has_game(game_id),
        v.has_position_id(position_id),
        v.next_id < u128::MAX,
        v.clock < i64::MAX,
        v.ledger(game_id).len() <= i32::MAX,
    ensures
        v.with_move(game_id, position_id).wf(),
        v.with_move(game_id, position_id).ledger(game_id) == v.ledger(game_id).push(
            v.with_move(game_id, position_id).moves.last(),
        ),
        v.with_move(game_id, position_id).moves.last().position_id == position_id,
        v.with_move(game_id, position_id).moves.last().move_number == v.ledger(game_id).len(),
        forall|other: u128|
            other != game_id ==> v.with_move(game_id, position_id).ledger(other) == v.ledger(other),
{
    let w = v.with_move(game_id, position_id);
    let last = v.moves.len() as int;
    let entry = w.moves[last];
    assert(w.moves == v.moves.push(entry));
    assert forall|other: u128| true implies w.ledger(other) == if other == game_id {
        v.ledger(other).push(entry)
    } else {
        v.ledger(other)
    } by {
        lemma_ledger_push(v.moves, entry, other);
    }
    assert forall|i: int, j: int| 0 <= i < j < w.moves.len() implies (#[trigger] w.moves[i]).id != (
    #[trigger] w.moves[j]).id by {
        assert(w.moves[i] == v.moves[i]);
        if j < last {
            assert(w.moves[j] == v.moves[j]);
        }
    }
    assert forall|k: int| 0 <= k < w.moves.len() implies {
        let e = #[trigger] w.moves[k];
        &&& w.has_game(e.game_id)
        &&& w.has_position_id(e.position_id)
        &&& e.id < w.next_id
        &&& 0 <= e.created_at < w.clock
    } by {
        lemma_same_rows(v, w);
        if k < last {
            assert(w.moves[k] == v.moves[k]);
            assert(v.has_game(v.moves[k].game_id));
            assert(v.has_position_id(v.moves[k].position_id));
        }
    }
    assert forall|g: u128, n: int| 0 <= n < w.ledger(g).len() implies (#[trigger] w.ledger(
        g,
    )[n]).move_number == n by {
        if g == game_id {
            if n < v.ledger(g).len() {
                assert(w.ledger(g)[n] == v.ledger(g)[n]);
            }
        } else {
            assert(w.ledger(g) == v.ledger(g));
        }
    }
    assert(w.moves_wf());
    assert forall|i: int| 0 <= i < w.games.len() implies {
        let game = #[trigger] w.games[i];
        &&& game.consistent()
        &&& game.id < w.next_id
        &&& 0 <= game.created_at <= game.updated_at < w.clock
    } by {
        assert(w.games[i] == v.games[i]);
    }
    assert(w.games_wf());
    assert forall|i: int| 0 <= i < w.positions.len() implies (#[trigger] w.positions[i]).id
        < w.next_id by {
        assert(w.positions[i] == v.positions[i]);
    }
    assert(w.positions_wf());
}

/// Rewriting where a game stands keeps the store well formed, as long as the
/// game keeps its id and its time of creation and is consistent.
pub proof fn lemma_rewrite_game(v: DatabaseView, id: u128, changed: Game)
    requires
        v.wf(),
        v.has_game(id),
        v.clock < i64::MAX,
        changed.id == id,
        changed.created_at == v.game(id).created_at,
        changed.updated_at == v.clock,
        changed.consistent(),
    ensures
        ({
            let w = DatabaseView {
                games: v.games.update(v.game_index(id), changed),
                clock: (v.clock + 1) as i64,
                ..v
            };
            &&& w.wf()
            &&& w.game(id) == changed
            &&& forall|other: u128| w.has_game(other) == v.has_game(other)
            &&& forall|other: u128|
                other != id && v.has_game(other) ==> w.game(other) == v.game(other)
        }),
{
    let k = v.game_index(id);
    let w = DatabaseView { games: v.games.update(k, changed), clock: (v.clock + 1) as i64, ..v };
    lemma_game_row(v, id);
    assert forall|i: int| 0 <= i < w.games.len() implies (#[trigger] w.games[i]).id == v.games[i].id
        && w.games[i].created_at == v.games[i].created_at by {
        if i != k {
            assert(w.games[i] == v.games[i]);
        }
    }
    assert forall|i: int, j: int| 0 <= i < j < w.games.len() implies (#[trigger] w.games[i]).id != (
    #[trigger] w.games[j]).id && w.games[i].created_at < w.games[j].created_at by {
        assert(v.games[i].id != v.games[j].id);
        assert(v.games[i].created_at < v.games[j].created_at);
    }
    assert forall|i: int| 0 <= i < w.games.len() implies {
        let game = #[trigger] w.games[i];
        &&& game.consistent()
        &&& game.id < w.next_id
        &&& 0 <= game.created_at <= game.updated_at < w.clock
    } by {
        if i != k {
            assert(w.games[i] == v.games[i]);
        } else {
            assert(v.games[k].id < v.next_id);
            assert(0 <= v.games[k].created_at <= v.games[k].updated_at < v.clock);
        }
    }
    assert(w.games_wf());
    assert forall|other: u128| w.has_game(other) == v.has_game(other) by {
        if v.has_game(other) {
            let i = v.game_index(other);
            assert(w.games[i].id == other);
        }
        if w.has_game(other) {
            let i = w.game_index(other);
            assert(v.games[i].id == other);
        }
    }
    assert forall|other: u128| other != id && v.has_game(other) implies w.game(other) == v.game(
        other,
    ) by {
        let i = v.game_index(other);
        assert(w.games[i] == v.games[i]);
        lemma_game_at(v, i);
        lemma_game_at(w, i);
    }
    lemma_game_at(w, k);
    assert(w.positions_wf());
    assert forall|n: int| 0 <= n < w.moves.len() implies {
        let e = #[trigger] w.moves[n];
        &&& w.has_game(e.game_id)
        &&& w.has_position_id(e.position_id)
        &&& e.id < w.next_id
        &&& 0 <= e.created_at < w.clock
    } by {
        assert(w.moves[n] == v.moves[n]);
        assert(v.has_game(v.moves[n].game_id));
        assert(v.has_position_id(v.moves[n].position_id));
        lemma_same_rows(v, w);
    }
    assert forall|g: u128, n: int| 0 <= n < w.ledger(g).len() implies (#[trigger] w.ledger(
        g,
    )[n]).move_number == n by {
        assert(w.ledger(g) == v.ledger(g));
    }
    assert(w.moves_wf());
}

/// A verdict that the store can record: a draw only as a stalemate.
pub open spec fn verdict_ok(verdict: Option<(GameWinner, GameOutcome)>) -> bool {
    verdict matches Some((winner, outcome)) ==> (winner == GameWinner::Draw ==> outcome
        == GameOutcome::Stalemate)
}

/// The game that a verdict leaves of a game.
pub open spec fn settled(game: Game, clock: i64, winner: GameWinner, outcome: GameOutcome) -> Game {
    Game {
        status: GameStatus::Complete,
        winner: Some(winner),
        outcome: Some(outcome),
        updated_at: clock,
        ..game
    }
}

/// What marking a game complete does to the store.
pub proof fn lemma_mark_terminal(
    v: DatabaseView,
    id: u128,
    winner: GameWinner,
    outcome: GameOutcome,
)
    requires
        v.wf(),
        v.has_game(id),
        v.clock < i64::MAX,
        winner == GameWinner::Draw ==> outcome == GameOutcome::Stalemate,
    ensures
        v.mark_terminal(id, winner, outcome).wf(),
        v.mark_terminal(id, winner, outcome).game(id) == settled(
            v.game(id),
            v.clock,
            winner,
            outcome,
        ),
        v.mark_terminal(id, winner, outcome).positions == v.positions,
        v.mark_terminal(id, winner, outcome).moves == v.moves,
        v.mark_terminal(id, winner, outcome).next_id == v.next_id,
        forall|other: u128|
            v.mark_terminal(id, winner, outcome).has_game(other) == v.has_game(other),
        forall|other: u128|
            other != id && v.has_game(other) ==> v.mark_terminal(id, winner, outcome).game(other)
                == v.game(other),
{
    lemma_game_row(v, id);
    lemma_rewrite_game(v, id, settled(v.game(id), v.clock, winner, outcome));
}

/// What the first move does to where a game stands.
pub proof fn lemma_mark_active(v: DatabaseView, id: u128)
    requires
        v.wf(),
        v.has_game(id),
        v.clock < i64::MAX,
    ensures
        v.mark_active_if_created(id).wf(),
        v.mark_active_if_created(id).game(id).status == if v.game(id).status
            == GameStatus::Created {
            GameStatus::Active
        } else {
            v.game(id).status
        },
        v.mark_active_if_created(id).game(id).winner == v.game(id).winner,
        v.mark_active_if_created(id).game(id).outcome == v.game(id).outcome,
        v.mark_active_if_created(id).positions == v.positions,
        v.mark_active_if_created(id).moves == v.moves,
        v.mark_active_if_created(id).next_id == v.next_id,
        forall|other: u128| v.mark_active_if_created(id).has_game(other) == v.has_game(other),
        forall|other: u128|
            other != id && v.has_game(other) ==> v.mark_active_if_created(id).game(other)
                == v.game(other),
{
    lemma_game_row(v, id);
    if v.game(id).status == GameStatus::Created {
        let k = v.game_index(id);
        assert(v.games[k].consistent());
        lemma_rewrite_game(
            v,
            id,
            Game { status: GameStatus::Active, updated_at: v.clock, ..v.game(id) },
        );
    }
}

/// What a move that is played does to the store: the position has its one
/// row, the ledger of the game has one entry more, which bears the next
/// number and points to that position, and the game stands as the verdict
/// says. No other ledger and no other game is touched.
pub proof fn lemma_commit_moved(
    v: DatabaseView,
    game_id: u128,
    board: Seq<char>,
    verdict: Option<(GameWinner, GameOutcome)>,
)
    requires
        v.wf(),
        v.has_game(game_id),
        v.has_room(game_id),
        verdict_ok(verdict),
    ensures
        ({
            let w = v.commit(game_id, TransitionView::Moved { board, verdict });
            let placed = v.with_position(board);
            &&& w.wf()
            &&& w.positions == placed.positions
            &&& w.has_position(board)
            &&& w.ledger(game_id).len() == v.ledger(game_id).len() + 1
            &&& w.ledger(game_id).drop_last() == v.ledger(game_id)
            &&& w.ledger(game_id).last().move_number == v.ledger(game_id).len()
            &&& w.ledger(game_id).last().position_id == placed.position_id(board)
            &&& w.current_text(game_id) == board
            &&& forall|other: u128|
                other != game_id ==> w.ledger(other) == v.ledger(other) && w.current_text(other)
                    == v.current_text(other)
            &&& forall|other: u128| w.has_game(other) == v.has_game(other)
            &&& forall|other: u128|
                other != game_id && v.has_game(other) ==> w.game(other) == v.game(other)
            &&& w.game(game_id).id == game_id
            &&& match verdict {
                Some((winner, outcome)) => {
                    &&& w.game(game_id).status == GameStatus::Complete
                    &&& w.game(game_id).winner == Some(winner)
                    &&& w.game(game_id).outcome == Some(outcome)
                },
                None => {
                    &&& w.game(game_id).status == if v.game(game_id).status
                        == GameStatus::Created {
                        GameStatus::Active
                    } else {
                        v.game(game_id).status
                    }
                    &&& w.game(game_id).winner == v.game(game_id).winner
                    &&& w.game(game_id).outcome == v.game(game_id).outcome
                },
            }
        }),
{
    let placed = v.with_position(board);
    let position_id = placed.position_id(board);
    let recorded = placed.with_move(game_id, position_id);
    let w = v.commit(game_id, TransitionView::Moved { board, verdict });
    lemma_with_position(v, board);
    lemma_same_rows(v, placed);
    assert(placed.ledger(game_id) == v.ledger(game_id));
    lemma_with_move(placed, game_id, position_id);
    lemma_same_rows(placed, recorded);
    lemma_game_row(v, game_id);
    lemma_game_row(recorded, game_id);
    assert(recorded.game(game_id) == v.game(game_id)) by {
        lemma_game_at(v, v.game_index(game_id));
        assert(recorded.games == v.games);
        lemma_game_at(recorded, v.game_index(game_id));
    }
    match verdict {
        Some((winner, outcome)) => {
            lemma_mark_terminal(recorded, game_id, winner, outcome);
        },
        None => {
            lemma_mark_active(recorded, game_id);
        },
    }
    assert(w.positions == placed.positions);
    assert(w.moves == recorded.moves);
    assert(w.ledger(game_id) == v.ledger(game_id).push(recorded.moves.last()));
    assert(w.ledger(game_id).drop_last() =~= v.ledger(game_id));
    lemma_position_at(placed, placed.position_index(board));
    assert(w.current_text(game_id) == board) by {
        assert(w.encoding_of(position_id) == placed.encoding_of(position_id));
    }
    assert(w.has_position(board)) by {
        assert(w.positions[placed.position_index(board)].encoding == board);
    }
    assert forall|other: u128| other != game_id implies w.ledger(other) == v.ledger(other)
        && w.current_text(other) == v.current_text(other) by {
        assert(w.ledger(other) == recorded.ledger(other));
        assert(placed.ledger(other) == v.ledger(other));
        if v.ledger(other).len() > 0 {
            let last = v.ledger(other).len() - 1;
            lemma_ledger_entry(v, other, last);
            let id = v.ledger(other)[last].position_id;
            assert(placed.encoding_of(id) == v.encoding_of(id));
            assert(w.encoding_of(id) == placed.encoding_of(id));
        }
    }
    assert forall|other: u128| other != game_id && v.has_game(other) implies w.game(other)
        == v.game(other) by {
        lemma_game_at(v, v.game_index(other));
        lemma_game_at(recorded, v.game_index(other));
    }
}

/// What a resignation does to the store: the game is complete and goes to
/// the winner; no position, no move and no other game is touched.
pub proof fn lemma_commit_resigned(v: DatabaseView, game_id: u128, winner: GameWinner)
    requires
        v.wf(),
        v.has_game(game_id),
        v.clock < i64::MAX,
        winner != GameWinner::Draw,
    ensures
        ({
            let w = v.commit(game_id, TransitionView::Resigned { winner });
            &&& w.wf()
            &&& w.positions == v.positions
            &&& w.moves == v.moves
            &&& w.game(game_id).status == GameStatus::Complete
            &&& w.game(game_id).winner == Some(winner)
            &&& w.game(game_id).outcome == Some(GameOutcome::Resignation)
            &&& forall|other: u128| w.has_game(other) == v.has_game(other)
            &&& forall|other: u128| w.current_text(other) == v.current_text(other)
            &&& forall|other: u128|
                other != game_id && v.has_game(other) ==> w.game(other) == v.game(other)
        }),
{
    lemma_mark_terminal(v, game_id, winner, GameOutcome::Resignation);
}

} // verus!
