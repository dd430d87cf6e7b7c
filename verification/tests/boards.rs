use chess_games::board::{DatabaseBoard, DatabaseBoardError};
use chess_games::fen::{
    check_castling, check_move_field, check_move_number, check_placement, check_shape,
};
use chess_games::rules::{Piece, Player};

const START: &str = "rnbqkbnr/pppppppp/8/8/8/8/PPPPPPPP/RNBQKBNR w KQkq - 0 1";

#[test]
fn new_board_is_the_starting_position() {
    let board = DatabaseBoard::new();
    assert_eq!(board.fen(), START);
    assert_eq!(board.turn(), Player::White);
    assert_eq!(board.moves_played(), 0);
    assert!(!board.checkmate());
    assert!(!board.stalemate());
}

#[test]
fn pieces_stand_where_the_text_puts_them() {
    let board = DatabaseBoard::new();
    assert_eq!(board.piece_at(0), Piece::WhiteRook);
    assert_eq!(board.piece_at(1), Piece::WhiteKnight);
    assert_eq!(board.piece_at(2), Piece::WhiteBishop);
    assert_eq!(board.piece_at(3), Piece::WhiteQueen);
    assert_eq!(board.piece_at(4), Piece::WhiteKing);
    assert_eq!(board.piece_at(8), Piece::WhitePawn);
    assert_eq!(board.piece_at(27), Piece::Empty);
    assert_eq!(board.piece_at(48), Piece::BlackPawn);
    assert_eq!(board.piece_at(56), Piece::BlackRook);
    assert_eq!(board.piece_at(57), Piece::BlackKnight);
    assert_eq!(board.piece_at(58), Piece::BlackBishop);
    assert_eq!(board.piece_at(59), Piece::BlackQueen);
    assert_eq!(board.piece_at(60), Piece::BlackKing);
    assert_eq!(board.piece_at(63), Piece::BlackRook);
}

#[test]
fn legal_move_changes_board_turn_and_count() {
    let mut board = DatabaseBoard::new();
    assert!(board.apply_uci_move("e2e4"));
    assert_eq!(board.fen(), "rnbqkbnr/pppppppp/8/8/4P3/8/PPPP1PPP/RNBQKBNR b KQkq - 0 1");
    assert_eq!(board.turn(), Player::Black);
    assert_eq!(board.moves_played(), 1);
    assert_eq!(board.piece_at(28), Piece::WhitePawn);
    assert_eq!(board.piece_at(12), Piece::Empty);
}

#[test]
fn illegal_move_leaves_the_board() {
    let mut board = DatabaseBoard::new();
    assert!(!board.apply_uci_move("e2e5"));
    assert!(!board.apply_uci_move(""));
    assert!(!board.apply_uci_move("e7e5"));
    assert_eq!(board.fen(), START);
    assert_eq!(board.moves_played(), 0);
}

#[test]
fn duplicate_holds_the_same_position_and_moves_alone() {
    let mut board = DatabaseBoard::new();
    assert!(board.apply_uci_move("d2d4"));
    let mut copy = board.duplicate();
    assert_eq!(copy.fen(), board.fen());
    assert_eq!(copy.moves_played(), 1);
    assert!(copy.apply_uci_move("d7d5"));
    assert_eq!(board.fen(), "rnbqkbnr/pppppppp/8/8/3P4/8/PPP1PPPP/RNBQKBNR b KQkq - 0 1");
    assert_eq!(copy.moves_played(), 2);
}

#[test]
fn board_is_read_from_its_text() {
    let text = "r1bqkbnr/1ppp1ppp/p1n5/1B2p3/4P3/5N2/PPPP1PPP/RNBQK2R w KQkq - 0 4";
    let board = DatabaseBoard::from_fen(text).unwrap();
    assert_eq!(board.fen(), text);
    assert_eq!(board.turn(), Player::White);
    assert_eq!(board.moves_played(), 6);
    assert_eq!(board.piece_at(33), Piece::WhiteBishop);
}

#[test]
fn mate_and_stalemate_are_told_apart() {
    let mated =
        DatabaseBoard::from_fen("rnb1kbnr/pppp1ppp/8/4p3/6Pq/5P2/PPPPP2P/RNBQKBNR w KQkq - 1 3")
            .unwrap();
    assert!(mated.checkmate());
    assert!(!mated.stalemate());
    let stuck = DatabaseBoard::from_fen("8/8/8/8/8/6k1/6p1/6K1 w - - 0 1").unwrap();
    assert!(stuck.stalemate());
    assert!(!stuck.checkmate());
}

#[test]
fn misshapen_text_is_invalid() {
    for text in [
        "",
        "This shouldn't parse!",
        "rnbqkbnr/pppppppp/8/8/8/8/PPPPPPPP/RNBQKBNR w KQkq",
        "rnbqkbnr/pppppppp/8/8/8/8/PPPPPPPP/RNBQKBNR w KQkq - 0 1 9",
        "rnbqkbnr/pppppppp/8/8/8/8/PPPPPPPP/RNBQKBNR w KQkq - 0 0",
        "rnbqkbnr/pppppppp/8/8/8/8/PPPPPPPP/RNBQKBNR w KQkq - 0 32769",
        "rnbqkbnr/pppppppp/8/8/8/8/PPPPPPPP/RNBQKBNR w KQxq - 0 1",
        "rnbqkbnr/pppppppp/9/8/8/8/PPPPPPPP/RNBQKBNR w KQkq - 0 1",
        "rnbqkbnr/pppppppp/8/8/8/8/PPPPPPPP/RNBQ1BNR w KQkq - 0 1",
        "rnbqkbnr/pppppppp/8/8/8/8/PPPPPPPP/RNBQKKNR w KQkq - 0 1",
        "rnbqkbnr/pppppppp/8/8/8/8/PPPPPPPP w KQkq - 0 1",
        "rnbqkbnr/ppppppppp/8/8/8/8/PPPPPPPP/RNBQKBNR w KQkq - 0 1",
    ] {
        assert!(!check_shape(text));
        assert!(matches!(DatabaseBoard::from_fen(text), Err(DatabaseBoardError::InvalidFen)));
        assert_eq!(DatabaseBoard::read_fen(text).err().unwrap(), "misshapen text");
    }
}

#[test]
fn text_that_the_engine_refuses_is_invalid() {
    let extra_pawn = "rnbqkbnr/pppppppp/8/8/8/7P/PPPPPPPP/RNBQKBNR w KQkq - 0 1";
    assert!(check_shape(extra_pawn));
    assert!(matches!(DatabaseBoard::from_fen(extra_pawn), Err(DatabaseBoardError::InvalidFen)));
    let reason = DatabaseBoard::read_fen(extra_pawn).err().unwrap();
    assert!(!reason.is_empty());
    assert_ne!(reason, "misshapen text");
    let bad_turn = "rnbqkbnr/pppppppp/8/8/8/8/PPPPPPPP/RNBQKBNR x KQkq - 0 1";
    assert!(check_shape(bad_turn));
    assert!(matches!(DatabaseBoard::from_fen(bad_turn), Err(DatabaseBoardError::InvalidFen)));
}

#[test]
fn move_is_refused_where_a_counter_is_at_its_limit() {
    let full = "rnbqkbnr/pppppppp/8/8/4P3/8/PPPP1PPP/RNBQKBNR b KQkq - 0 32768";
    let mut board = DatabaseBoard::from_fen(full).unwrap();
    assert_eq!(board.moves_played(), 65535);
    assert!(!board.apply_uci_move("e7e5"));
    assert_eq!(board.moves_played(), 65535);
    let quiet = "rnbqkbnr/pppppppp/8/8/8/8/PPPPPPPP/RNBQKBNR w KQkq - 32767 1";
    let mut board = DatabaseBoard::from_fen(quiet).unwrap();
    assert!(!board.apply_uci_move("g1f3"));
    assert_eq!(board.fen(), quiet);
    let below = "rnbqkbnr/pppppppp/8/8/8/8/PPPPPPPP/RNBQKBNR w KQkq - 32766 1";
    let mut board = DatabaseBoard::from_fen(below).unwrap();
    assert!(board.apply_uci_move("g1f3"));
}

#[test]
fn placement_needs_eight_ranks_of_eight_and_one_king_each() {
    assert!(check_placement("rnbqkbnr/pppppppp/8/8/8/8/PPPPPPPP/RNBQKBNR"));
    assert!(check_placement("8/8/8/8/8/2K5/p7/k7"));
    assert!(check_placement("k7/8/8/8/8/8/8/7K"));
    assert!(!check_placement(""));
    assert!(!check_placement("8/8/8/8/8/8/8/8"));
    assert!(!check_placement("k7/8/8/8/8/8/8/8"));
    assert!(!check_placement("kk6/8/8/8/8/8/8/7K"));
    assert!(!check_placement("k7/8/8/8/8/8/8/6KK"));
    assert!(!check_placement("k7/8/8/8/8/8/7K"));
    assert!(!check_placement("k7/8/8/8/8/8/8/8/7K"));
    assert!(!check_placement("k7/8/8/8/8/8/8/7K/"));
    assert!(!check_placement("k8/8/8/8/8/8/8/7K"));
    assert!(check_placement("k6/8/8/8/8/8/8/7K"));
    assert!(check_placement("k///////K"));
    assert!(!check_placement("k44/8/8/8/8/8/8/7K"));
    assert!(!check_placement("k7/8/8/8/8/8/8/7KP"));
    assert!(!check_placement("k7/8/8/8/8/8/8/6xK"));
    assert!(!check_placement("k7/9/8/8/8/8/8/7K"));
    assert!(!check_placement("k7/08/8/8/8/8/8/7K"));
    assert!(!check_placement("k7/8/8/8/8/8/8/7K "));
}

#[test]
fn castling_field_holds_rights_or_a_dash() {
    assert!(check_castling("KQkq"));
    assert!(check_castling("-"));
    assert!(check_castling("Kq"));
    assert!(check_castling(""));
    assert!(!check_castling("KQkx"));
    assert!(!check_castling("AHah"));
}

#[test]
fn move_number_is_one_to_five_digits_in_range() {
    assert!(check_move_number("1"));
    assert!(check_move_number("00001"));
    assert!(check_move_number("124"));
    assert!(check_move_number("32768"));
    assert!(!check_move_number("32769"));
    assert!(!check_move_number("99999"));
    assert!(!check_move_number("0"));
    assert!(!check_move_number("00000"));
    assert!(!check_move_number(""));
    assert!(!check_move_number("000001"));
    assert!(!check_move_number("+1"));
    assert!(!check_move_number("-1"));
    assert!(!check_move_number("1a"));
}

#[test]
fn shape_reads_fields_parted_by_any_white_space() {
    assert!(check_shape(START));
    assert!(check_shape("  rnbqkbnr/pppppppp/8/8/8/8/PPPPPPPP/RNBQKBNR \t w  KQkq - 0\n1 "));
    assert!(!check_shape("rnbqkbnr/pppppppp/8/8/8/8/PPPPPPPP/RNBQKBNR w KQkq - 0 1 extra"));
    assert!(check_shape("rnbqkbnr/pppppppp/8/8/8/8/PPPPPPPP/RNBQKBNR w KQkq - 0"));
    assert!(check_shape("rnbqkbnr/pppppppp/8/8/8/8/PPPPPPPP/RNBQKBNR w KQkq -"));
    assert!(check_shape("rnbqkbnr/pppppppp/8/8/8/8/PPPPPPPP/RNBQKBNR w KQkq - 0 -"));
    assert!(!check_shape("rnbqkbnr/pppppppp/8/8/8/8/PPPPPPPP/RNBQKBNR w KQkq"));
}

#[test]
fn move_field_may_be_a_dash() {
    assert!(check_move_field("-"));
    assert!(check_move_field("7"));
    assert!(!check_move_field("--"));
    assert!(!check_move_field("0"));
    assert!(!check_move_field(""));
}

#[test]
fn text_of_four_or_five_fields_gives_a_board() {
    let four = DatabaseBoard::from_fen("4k3/8/8/8/8/8/8/4K3 b - -").unwrap();
    assert_eq!(four.fen(), "4k3/8/8/8/8/8/8/4K3 b - - 0 1");
    assert_eq!(four.moves_played(), 1);
    let five = DatabaseBoard::from_fen("4k3/8/8/8/8/8/8/4K3 w - - 7").unwrap();
    assert_eq!(five.fen(), "4k3/8/8/8/8/8/8/4K3 w - - 7 1");
    let short = DatabaseBoard::from_fen("4k/8/8/8/8/8/8/4K w - - 0 1").unwrap();
    assert_eq!(short.fen(), "4k3/8/8/8/8/8/8/4K3 w - - 0 1");
}

#[test]
fn en_passant_square_must_be_empty_for_play() {
    let text = "4k3/8/4N3/3Pp3/8/8/8/4K3 w - e6 0 1";
    assert!(check_shape(text));
    assert!(matches!(DatabaseBoard::from_fen(text), Err(DatabaseBoardError::InvalidFen)));
    assert_eq!(DatabaseBoard::read_fen(text).err().unwrap(), "position unfit for play");
    let clear = "4k3/8/8/3Pp3/8/8/8/4K3 w - e6 0 1";
    let mut board = DatabaseBoard::from_fen(clear).unwrap();
    assert!(board.apply_uci_move("d5e6"));
    assert_eq!(board.fen(), "4k3/8/4P3/8/8/8/8/4K3 b - - 0 1");
}

#[test]
fn double_push_sets_the_en_passant_square_and_the_capture_is_played() {
    let mut board = DatabaseBoard::from_fen("4k3/8/8/8/3p4/8/4P3/4K3 w - - 0 1").unwrap();
    assert!(board.apply_uci_move("e2e4"));
    assert_eq!(board.fen(), "4k3/8/8/8/3pP3/8/8/4K3 b - e3 0 1");
    assert!(board.apply_uci_move("d4e3"));
    assert_eq!(board.fen(), "4k3/8/8/8/8/4p3/8/4K3 w - - 0 2");
}

#[test]
fn position_with_more_moves_than_the_engine_lists_is_unfit_for_play() {
    let queens = "QQQQQQQQ/Q6Q/Q4k1Q/Q6Q/Q6Q/Q1K4Q/Q6Q/QQQQQQQQ w - - 0 1";
    assert!(check_shape(queens));
    assert!(matches!(DatabaseBoard::from_fen(queens), Err(DatabaseBoardError::InvalidFen)));
    assert_eq!(DatabaseBoard::read_fen(queens).err().unwrap(), "position unfit for play");
    let nine = "3QQQQQ/8/8/8/8/8/QQQQ4/k6K w - - 0 1";
    let board = DatabaseBoard::from_fen(nine).unwrap();
    assert!(!board.stalemate());
    let ten = "2QQQQQQ/8/8/8/8/8/QQQQ4/k6K w - - 0 1";
    assert!(matches!(DatabaseBoard::from_fen(ten), Err(DatabaseBoardError::InvalidFen)));
}
