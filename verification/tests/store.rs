use chess_games::board::DatabaseBoard;
use chess_games::database::Database;
use chess_games::game::NewGame;
use chess_games::game_outcome::GameOutcome;
use chess_games::game_status::GameStatus;
use chess_games::game_winner::GameWinner;
use chess_games::model::GameError;
use chess_games::position::{Position, PositionError};
use chess_games::records::Game;

#[test]
fn ids_and_time_stamps_are_handed_out_in_order() {
    let mut db = Database::new();
    let first = NewGame::create(&mut db).unwrap();
    let second = NewGame::create(&mut db).unwrap();
    assert_eq!(first.id(), 0);
    assert_eq!(second.id(), 1);
    assert_eq!(first.created_at, 0);
    assert_eq!(first.updated_at, 0);
    assert_eq!(second.created_at, 1);
}

#[test]
fn games_are_read_newest_first() {
    let mut db = Database::new();
    assert!(Game::read_all(&db).is_empty());
    let a = NewGame::create(&mut db).unwrap().id();
    let b = NewGame::create(&mut db).unwrap().id();
    let c = NewGame::create(&mut db).unwrap().id();
    let all = Game::read_all(&db);
    let ids: Vec<u128> = all.iter().map(|game| game.id()).collect();
    assert_eq!(ids, vec![c, b, a]);
    assert!(all[0].created_at > all[1].created_at);
    assert!(all[1].created_at > all[2].created_at);
}

#[test]
fn position_is_created_once_and_found_afterwards() {
    let mut db = Database::new();
    let start = DatabaseBoard::new();
    let first = db.get_or_create_position(&start).unwrap();
    let second = db.get_or_create_position(&start.duplicate()).unwrap();
    assert_eq!(first, second);
    assert_eq!(db.position_count(), 1);
    let mut other = DatabaseBoard::new();
    assert!(other.apply_uci_move("e2e4"));
    let third = db.get_or_create_position(&other).unwrap();
    assert_ne!(first, third);
    assert_eq!(db.position_count(), 2);
    assert_eq!(db.board_of(first).unwrap().fen(), start.fen());
    assert_eq!(db.board_of(third).unwrap().fen(), other.fen());
    assert!(db.board_of(third + 1).is_none());
}

#[test]
fn ledger_takes_the_next_number_only() {
    let mut db = Database::new();
    let game = NewGame::create(&mut db).unwrap().id();
    let position = db.get_or_create_position(&DatabaseBoard::new()).unwrap();
    assert!(db.latest_move(game).is_none());
    assert!(matches!(db.append_move(game, position, 1), Err(GameError::SequenceConflict)));
    assert_eq!(db.append_move(game, position, 0), Ok(()));
    assert!(matches!(db.append_move(game, position, 0), Err(GameError::SequenceConflict)));
    assert!(matches!(db.append_move(game, position, 2), Err(GameError::SequenceConflict)));
    assert!(matches!(db.append_move(game, position, -1), Err(GameError::SequenceConflict)));
    assert_eq!(db.append_move(game, position, 1), Ok(()));
    let last = db.latest_move(game).unwrap();
    assert_eq!(last.move_number, 1);
    assert_eq!(last.position_id, position);
    assert_eq!(db.move_count(), 2);
}

#[test]
fn ledger_refuses_unknown_games_and_positions() {
    let mut db = Database::new();
    let game = NewGame::create(&mut db).unwrap().id();
    let position = db.get_or_create_position(&DatabaseBoard::new()).unwrap();
    assert!(matches!(db.append_move(game + 10, position, 0), Err(GameError::NotFound)));
    assert!(matches!(db.append_move(game, position + 10, 0), Err(GameError::Storage)));
    assert_eq!(db.move_count(), 0);
}

#[test]
fn marking_terminal_sets_winner_and_outcome() {
    let mut db = Database::new();
    let game = NewGame::create(&mut db).unwrap().id();
    assert_eq!(db.mark_terminal(game, GameWinner::Draw, GameOutcome::Stalemate), Ok(()));
    let stored = db.find_game(game).unwrap();
    assert_eq!(*stored.status(), GameStatus::Complete);
    assert_eq!(*stored.winner(), Some(GameWinner::Draw));
    assert_eq!(*stored.outcome(), Some(GameOutcome::Stalemate));
    assert!(stored.updated_at > stored.created_at);
    assert!(matches!(
        db.mark_terminal(game + 1, GameWinner::White, GameOutcome::Checkmate),
        Err(GameError::NotFound)
    ));
}

#[test]
fn marking_active_happens_once_and_only_from_created() {
    let mut db = Database::new();
    let game = NewGame::create(&mut db).unwrap().id();
    assert_eq!(db.mark_active_if_created(game), Ok(()));
    let first = db.find_game(game).unwrap();
    assert_eq!(*first.status(), GameStatus::Active);
    assert_eq!(db.mark_active_if_created(game), Ok(()));
    let second = db.find_game(game).unwrap();
    assert_eq!(*second.status(), GameStatus::Active);
    assert_eq!(second.updated_at, first.updated_at);
    assert_eq!(db.mark_terminal(game, GameWinner::White, GameOutcome::Resignation), Ok(()));
    assert_eq!(db.mark_active_if_created(game), Ok(()));
    assert_eq!(*db.find_game(game).unwrap().status(), GameStatus::Complete);
    assert_eq!(db.mark_active_if_created(game + 5), Ok(()));
    assert!(db.find_game(game + 5).is_none());
}

#[test]
fn room_is_there_in_a_young_store() {
    let mut db = Database::new();
    let game = NewGame::create(&mut db).unwrap().id();
    assert!(db.has_room(game));
    assert!(db.has_tick());
    assert!(db.game_exists(game));
    assert!(!db.game_exists(game + 1));
}

#[test]
fn recording_a_move_plays_it_and_stores_the_position() {
    let mut db = Database::new();
    let mut board = DatabaseBoard::new();
    let first = Position::record_move(&mut db, &mut board, "e2e4").ok().unwrap();
    assert_eq!(board.fen(), "rnbqkbnr/pppppppp/8/8/4P3/8/PPPP1PPP/RNBQKBNR b KQkq - 0 1");
    assert_eq!(db.position_count(), 1);
    let mut again = DatabaseBoard::new();
    let second = Position::record_move(&mut db, &mut again, "e2e4").ok().unwrap();
    assert_eq!(first, second);
    assert_eq!(db.position_count(), 1);
}

#[test]
fn recording_an_invalid_move_hands_move_and_board_back() {
    let mut db = Database::new();
    let mut board = DatabaseBoard::new();
    match Position::record_move(&mut db, &mut board, "e2e5") {
        Err(PositionError::InvalidUciMove(uci, rejected)) => {
            assert_eq!(uci, "e2e5");
            assert_eq!(rejected.fen(), DatabaseBoard::new().fen());
        }
        _ => panic!("the move is not legal"),
    }
    assert_eq!(board.fen(), DatabaseBoard::new().fen());
    assert_eq!(db.position_count(), 0);
}
