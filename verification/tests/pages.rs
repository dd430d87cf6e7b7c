use chess_games::api_board::{render_html_board, ApiBoard, ApiBoardError, PartialGameWithFen};
use chess_games::api_game::ApiGame;
use chess_games::api_game_board::ApiGameBoard;
use chess_games::api_game_item::ApiGameItem;
use chess_games::board::DatabaseBoard;
use chess_games::database::Database;
use chess_games::game::{GameBoard, NewGame};
use chess_games::game_outcome::GameOutcome;
use chess_games::game_status::GameStatus;
use chess_games::game_winner::GameWinner;
use chess_games::html::{render_board, render_cell, render_html_piece, render_row};
use chess_games::records::Game;
use chess_games::rules::Piece;

const ID: u128 = 0xa1a2a3a4b1b2c1c2d1d2d3d4d5d6d7d8;

fn game(status: GameStatus, winner: Option<GameWinner>, outcome: Option<GameOutcome>) -> Game {
    Game { id: ID, created_at: 3, updated_at: 4, status, winner, outcome }
}

#[test]
fn game_is_shown_with_its_id_in_text() {
    let shown = ApiGame::from(game(GameStatus::Created, None, None));
    assert_eq!(shown.id(), "a1a2a3a4-b1b2-c1c2-d1d2-d3d4d5d6d7d8");
    assert_eq!(shown.status(), "created");
    assert_eq!(shown.winner(), "None");
    assert_eq!(shown.outcome(), "None");
}

#[test]
fn small_ids_are_padded_with_zeros() {
    let first = Game {
        id: 0,
        created_at: 0,
        updated_at: 0,
        status: GameStatus::Active,
        winner: None,
        outcome: None,
    };
    assert_eq!(ApiGameItem::from(first).id(), "00000000-0000-0000-0000-000000000000");
    let other = Game { id: 0x1f, ..first };
    assert_eq!(ApiGame::from(other).id(), "00000000-0000-0000-0000-00000000001f");
}

#[test]
fn finished_game_item_names_winner_and_outcome() {
    let shown = ApiGameItem::from(game(
        GameStatus::Complete,
        Some(GameWinner::Draw),
        Some(GameOutcome::Stalemate),
    ));
    assert_eq!(shown.id(), "a1a2a3a4-b1b2-c1c2-d1d2-d3d4d5d6d7d8");
    assert_eq!(shown.status(), "complete");
    assert_eq!(shown.winner(), "draw");
    assert_eq!(shown.outcome(), "stalemate");
}

#[test]
fn game_board_names_the_side_to_move() {
    let mut db = Database::new();
    let id = NewGame::create(&mut db).unwrap().id();
    let shown = ApiGameBoard::from(GameBoard::latest(&db, id));
    assert_eq!(shown.game_id(), "00000000-0000-0000-0000-000000000000");
    assert_eq!(shown.turn(), "white");
    assert_eq!(shown.status(), "created");
    assert_eq!(shown.winner(), "None");
    assert_eq!(shown.outcome(), "None");
    let after = GameBoard::make_move(&mut db, id, "e2e4", false).unwrap();
    let shown = ApiGameBoard::from(after);
    assert_eq!(shown.turn(), "black");
    assert_eq!(shown.status(), "active");
}

#[test]
fn glyphs_of_the_pieces() {
    assert_eq!(render_html_piece(Piece::Empty), None);
    assert_eq!(render_html_piece(Piece::WhitePawn).unwrap(), "\u{2659}");
    assert_eq!(render_html_piece(Piece::WhiteKnight).unwrap(), "\u{2658}");
    assert_eq!(render_html_piece(Piece::WhiteBishop).unwrap(), "\u{2657}");
    assert_eq!(render_html_piece(Piece::WhiteRook).unwrap(), "\u{2656}");
    assert_eq!(render_html_piece(Piece::WhiteQueen).unwrap(), "\u{2655}");
    assert_eq!(render_html_piece(Piece::WhiteKing).unwrap(), "\u{2654}");
    assert_eq!(render_html_piece(Piece::BlackPawn).unwrap(), "\u{265F}\u{FE0E}");
    assert_eq!(render_html_piece(Piece::BlackKnight).unwrap(), "\u{265E}");
    assert_eq!(render_html_piece(Piece::BlackBishop).unwrap(), "\u{265D}");
    assert_eq!(render_html_piece(Piece::BlackRook).unwrap(), "\u{265C}");
    assert_eq!(render_html_piece(Piece::BlackQueen).unwrap(), "\u{265B}");
    assert_eq!(render_html_piece(Piece::BlackKing).unwrap(), "\u{265A}");
}

#[test]
fn cells_carry_name_shade_and_piece() {
    let board = DatabaseBoard::new();
    assert_eq!(
        render_cell(&board, 0),
        "<td id='a1' class='chess-square-light chess-piece-R'>\u{2656}</td>"
    );
    assert_eq!(
        render_cell(&board, 1),
        "<td id='b1' class='chess-square-dark chess-piece-N'>\u{2658}</td>"
    );
    assert_eq!(
        render_cell(&board, 8),
        "<td id='a2' class='chess-square-dark chess-piece-P'>\u{2659}</td>"
    );
    assert_eq!(
        render_cell(&board, 52),
        "<td id='e7' class='chess-square-light chess-piece-p'>\u{265F}\u{FE0E}</td>"
    );
    assert_eq!(
        render_cell(&board, 60),
        "<td id='e8' class='chess-square-dark chess-piece-k'>\u{265A}</td>"
    );
    assert_eq!(
        render_cell(&board, 63),
        "<td id='h8' class='chess-square-light chess-piece-r'>\u{265C}</td>"
    );
    assert_eq!(render_cell(&board, 27), "<td id='d4' class='chess-square-light'></td>");
    assert_eq!(render_cell(&board, 28), "<td id='e4' class='chess-square-dark'></td>");
}

#[test]
fn empty_rank_is_a_row_of_eight_empty_cells() {
    let board = DatabaseBoard::new();
    let expected = "<tr class='chess-rank'>\
        <td id='a4' class='chess-square-dark'></td>\
        <td id='b4' class='chess-square-light'></td>\
        <td id='c4' class='chess-square-dark'></td>\
        <td id='d4' class='chess-square-light'></td>\
        <td id='e4' class='chess-square-dark'></td>\
        <td id='f4' class='chess-square-light'></td>\
        <td id='g4' class='chess-square-dark'></td>\
        <td id='h4' class='chess-square-light'></td>\
        </tr>";
    assert_eq!(render_row(&board, 3, false), expected);
    let turned = "<tr class='chess-rank'>\
        <td id='h4' class='chess-square-light'></td>\
        <td id='g4' class='chess-square-dark'></td>\
        <td id='f4' class='chess-square-light'></td>\
        <td id='e4' class='chess-square-dark'></td>\
        <td id='d4' class='chess-square-light'></td>\
        <td id='c4' class='chess-square-dark'></td>\
        <td id='b4' class='chess-square-light'></td>\
        <td id='a4' class='chess-square-dark'></td>\
        </tr>";
    assert_eq!(render_row(&board, 3, true), turned);
}

fn expected_board(board: &DatabaseBoard, turned: bool) -> String {
    let mut html = String::from("<table class='chess-board'>");
    for row in 0..8u8 {
        let rank = if turned { row } else { 7 - row };
        html.push_str("<tr class='chess-rank'>");
        for column in 0..8u8 {
            let file = if turned { 7 - column } else { column };
            html.push_str(&render_cell(board, rank * 8 + file));
        }
        html.push_str("</tr>");
    }
    html.push_str("</table>");
    html
}

#[test]
fn board_is_drawn_from_the_eighth_rank_down_for_white() {
    let board = DatabaseBoard::new();
    let html = render_board(&board, false);
    assert_eq!(html, expected_board(&board, false));
    assert!(html.starts_with(
        "<table class='chess-board'><tr class='chess-rank'>\
         <td id='a8' class='chess-square-dark chess-piece-r'>\u{265C}</td>"
    ));
    assert!(html.ends_with(
        "<td id='h1' class='chess-square-dark chess-piece-R'>\u{2656}</td></tr></table>"
    ));
    assert_eq!(html.matches("<tr class='chess-rank'>").count(), 8);
    assert_eq!(html.matches("<td id='").count(), 64);
    assert_eq!(html.matches("chess-piece-").count(), 32);
}

#[test]
fn board_is_turned_for_black() {
    let mut board = DatabaseBoard::new();
    assert!(board.apply_uci_move("e2e4"));
    let game = GameBoard {
        id: ID,
        board,
        status: GameStatus::Active,
        winner: None,
        outcome: None,
    };
    let expected = expected_board(game.board(), true);
    let shown = ApiGameBoard::from(game);
    let html = shown.board_html();
    assert_eq!(html, expected);
    assert!(html.starts_with(
        "<table class='chess-board'><tr class='chess-rank'>\
         <td id='h1' class='chess-square-dark chess-piece-R'>\u{2656}</td>"
    ));
    assert!(html.ends_with(
        "<td id='a8' class='chess-square-dark chess-piece-r'>\u{265C}</td></tr></table>"
    ));
}

#[test]
fn board_of_a_game_with_white_to_move_is_not_turned() {
    let shown = ApiGameBoard::from(GameBoard {
        id: 1,
        board: DatabaseBoard::new(),
        status: GameStatus::Created,
        winner: None,
        outcome: None,
    });
    assert_eq!(shown.board_html(), expected_board(&DatabaseBoard::new(), false));
}

#[test]
fn board_is_drawn_from_a_stored_text() {
    let text = "8/8/8/8/8/2K5/p7/k7 w - - 0 1";
    let html = render_html_board(text).unwrap();
    assert_eq!(html, expected_board(&DatabaseBoard::from_fen(text).unwrap(), false));
    assert!(html.contains("<td id='c3' class='chess-square-light chess-piece-K'>\u{2654}</td>"));
    assert!(html.contains("<td id='a1' class='chess-square-light chess-piece-k'>\u{265A}</td>"));
    assert_eq!(html.matches("chess-piece-").count(), 3);
    let drawn = ApiBoard::try_from(PartialGameWithFen {
        id: ID,
        current_fen: String::from(text),
    })
    .unwrap();
    assert_eq!(drawn.game_id(), "a1a2a3a4-b1b2-c1c2-d1d2-d3d4d5d6d7d8");
    assert_eq!(drawn.board_html(), html);
}

#[test]
fn board_is_drawn_from_any_text_that_the_engine_reads() {
    let four = render_html_board("4k3/8/8/8/8/8/8/4K3 w - -").unwrap();
    let six = render_html_board("4k3/8/8/8/8/8/8/4K3 w - - 0 1").unwrap();
    assert_eq!(four, six);
    assert_eq!(render_html_board("4k3/8/8/8/8/8/8/4K3 b - - 5").unwrap(), six);
    assert_eq!(six.matches("<td id='").count(), 64);
    assert_eq!(six.matches("chess-piece-").count(), 2);
    assert!(six.starts_with(
        "<table class='chess-board'><tr class='chess-rank'>\
         <td id='a8' class='chess-square-dark'></td>"
    ));
    let misplaced = render_html_board("4k3/8/8/8/8/8/8/R2K3R w KQ - 0 1").unwrap();
    assert!(misplaced.contains("<td id='d1' class='chess-square-dark chess-piece-K'>"));
    assert_eq!(misplaced.matches("chess-piece-").count(), 4);
    let capture = render_html_board("4k3/8/4N3/3Pp3/8/8/8/4K3 w - e6 0 1").unwrap();
    assert!(capture.contains("<td id='e6' class='chess-square-dark chess-piece-N'>"));
    let queens =
        render_html_board("QQQQQQQQ/Q6Q/Q4k1Q/Q6Q/Q6Q/Q1K4Q/Q6Q/QQQQQQQQ w - - 0 1").unwrap();
    assert_eq!(queens.matches("chess-piece-Q").count(), 28);
    assert!(DatabaseBoard::from_fen("4k3/8/8/8/8/8/8/R2K3R w KQ - 0 1").is_err());
}

#[test]
fn text_without_a_board_is_not_drawn() {
    match render_html_board("This shouldn't parse!") {
        Err(ApiBoardError::FenBuilder(fault)) => assert_eq!(fault, "misshapen text"),
        Ok(_) => panic!("the text names no position"),
    }
    let refused = "rnbqkbnr/pppppppp/8/8/8/7P/PPPPPPPP/RNBQKBNR w KQkq - 0 1";
    match ApiBoard::try_from(PartialGameWithFen { id: 1, current_fen: String::from(refused) }) {
        Err(ApiBoardError::FenBuilder(fault)) => assert!(fault.contains("Too many pawns")),
        Ok(_) => panic!("nine pawns are too many"),
    }
}
