use chess_games::board::{DatabaseBoard, DatabaseBoardError};
use chess_games::rules::Player;

/// A small xorshift generator, so that the positions are the same on every run.
struct Draws(u64);

impl Draws {
    fn next(&mut self) -> u64 {
        self.0 ^= self.0 << 13;
        self.0 ^= self.0 >> 7;
        self.0 ^= self.0 << 17;
        self.0
    }

    fn below(&mut self, n: u64) -> usize {
        (self.next() % n) as usize
    }
}

fn drawn_text(draws: &mut Draws) -> String {
    let kinds = ['P', 'N', 'B', 'R', 'Q', 'p', 'n', 'b', 'r', 'q', 'R', 'r', 'P', 'p'];
    let mut squares = [' '; 64];
    if draws.below(3) == 0 {
        squares[4] = 'K';
        squares[60] = 'k';
        for (corner, rook) in [(0, 'R'), (7, 'R'), (56, 'r'), (63, 'r')] {
            if draws.below(2) == 0 {
                squares[corner] = rook;
            }
        }
    } else {
        let white = draws.below(64);
        let mut black = draws.below(64);
        while black == white {
            black = draws.below(64);
        }
        squares[white] = 'K';
        squares[black] = 'k';
    }
    for _ in 0..draws.below(12) {
        let square = draws.below(64);
        if squares[square] == ' ' {
            squares[square] = kinds[draws.below(kinds.len() as u64)];
        }
    }
    let mut placement = String::new();
    for rank in (0..8).rev() {
        let mut gap = 0;
        for file in 0..8 {
            let piece = squares[rank * 8 + file];
            if piece == ' ' {
                gap += 1;
            } else {
                if gap > 0 {
                    placement.push_str(&gap.to_string());
                    gap = 0;
                }
                placement.push(piece);
            }
        }
        if gap > 0 {
            placement.push_str(&gap.to_string());
        }
        if rank > 0 {
            placement.push('/');
        }
    }
    let mut castling = String::new();
    for (right, king, rook, corner) in
        [('K', 'K', 'R', 7), ('Q', 'K', 'R', 0), ('k', 'k', 'r', 63), ('q', 'k', 'r', 56)]
    {
        let home = if king == 'K' { 4 } else { 60 };
        if squares[home] == king && squares[corner] == rook && draws.below(3) > 0 {
            castling.push(right);
        }
    }
    if castling.is_empty() {
        castling.push('-');
    }
    let turn = if draws.below(2) == 0 { "w" } else { "b" };
    let quiet = [0, 0, 3, 49, 50, 99][draws.below(6)];
    let number = [1, 1, 2, 40, 32768][draws.below(5)];
    let files = ['a', 'b', 'c', 'd', 'e', 'f', 'g', 'h'];
    let en_passant = match draws.below(5) {
        0 => format!("{}{}", files[draws.below(8)], if turn == "w" { 6 } else { 3 }),
        _ => String::from("-"),
    };
    format!("{} {} {} {} {} {}", placement, turn, castling, en_passant, quiet, number)
}

fn every_move() -> Vec<String> {
    let name = |square: usize| {
        let mut text = String::new();
        text.push((b'a' + (square % 8) as u8) as char);
        text.push((b'1' + (square / 8) as u8) as char);
        text
    };
    let mut moves = Vec::new();
    for from in 0..64 {
        for to in 0..64 {
            let plain = format!("{}{}", name(from), name(to));
            if (from / 8 == 6 && to / 8 == 7) || (from / 8 == 1 && to / 8 == 0) {
                for piece in ["q", "r", "b", "n"] {
                    moves.push(format!("{}{}", plain, piece));
                }
            }
            moves.push(plain);
        }
    }
    moves
}

/// Plays every move that the engine accepts from positions drawn at random
/// and reads each resulting board back from its text: the board read back
/// must answer every question as the board that was moved does. Returns the
/// number of moves played.
fn walk(seed: u64, positions: usize, plies: usize) -> usize {
    let mut draws = Draws(seed);
    let moves = every_move();
    let mut played = 0;
    for _ in 0..positions {
        let mut board = match DatabaseBoard::from_fen(&drawn_text(&mut draws)) {
            Ok(board) => board,
            Err(_) => continue,
        };
        for _ in 0..plies {
            let mut reached = Vec::new();
            for uci in &moves {
                let mut next = board.clone();
                if !next.apply_uci_move(uci) {
                    assert_eq!(next.fen(), board.fen());
                    continue;
                }
                played += 1;
                assert_eq!(next.moves_played(), board.moves_played() + 1);
                assert_ne!(next.turn(), board.turn());
                let text = next.fen();
                let read = DatabaseBoard::from_fen(&text).unwrap();
                assert_eq!(read.fen(), text);
                assert_eq!(read.turn(), next.turn());
                assert_eq!(read.moves_played(), next.moves_played());
                assert_eq!(read.checkmate(), next.checkmate());
                assert_eq!(read.stalemate(), next.stalemate());
                for square in 0..64 {
                    assert_eq!(read.piece_at(square), next.piece_at(square));
                }
                reached.push(next);
            }
            if reached.is_empty() {
                break;
            }
            board = reached.swap_remove(draws.below(reached.len() as u64));
        }
    }
    played
}

#[test]
fn boards_read_back_from_their_text_agree_with_the_boards_moved() {
    assert!(walk(0x1111111111111111, 60, 3) > 500);
}

#[test]
fn boards_agree_along_longer_lines() {
    assert!(walk(0x9999999999999991, 12, 12) > 500);
}

#[test]
fn games_from_the_start_agree_with_their_text() {
    let mut draws = Draws(0x5DEECE66D);
    let moves = every_move();
    for _ in 0..3 {
        let mut board = DatabaseBoard::new();
        for ply in 0..30u16 {
            assert_eq!(board.moves_played(), ply);
            let mut reached = Vec::new();
            for uci in &moves {
                let mut next = board.clone();
                if next.apply_uci_move(uci) {
                    reached.push(next);
                }
            }
            if reached.is_empty() {
                assert!(board.checkmate() || board.stalemate());
                break;
            }
            board = reached.swap_remove(draws.below(reached.len() as u64));
            let read = DatabaseBoard::from_fen(&board.fen()).unwrap();
            assert_eq!(read.fen(), board.fen());
            assert_eq!(read.checkmate(), board.checkmate());
            assert_eq!(read.stalemate(), board.stalemate());
        }
    }
}

#[test]
fn castling_right_without_king_or_rook_at_home_is_invalid() {
    for text in [
        "4k3/8/8/8/8/8/8/4K3 w K - 0 1",
        "4k3/8/8/8/8/8/8/4K3 w q - 0 1",
        "4k3/8/8/8/8/8/8/R2K3R w KQ - 0 1",
        "7K/8/p7/2p2k2/2P5/7p/8/2Q4R w K - 50 2",
        "4k3/8/8/8/8/8/8/4K2r w K - 0 1",
        "r3k2r/8/8/8/8/8/8/R3K2R w KQkq - 0 1 ".replace("r3k2r", "r3k2n").as_str(),
    ] {
        assert!(matches!(DatabaseBoard::from_fen(text), Err(DatabaseBoardError::InvalidFen)));
        assert_eq!(DatabaseBoard::read_fen(text).err().unwrap(), "position unfit for play");
    }
    let sound = DatabaseBoard::from_fen("r3k2r/8/8/8/8/8/8/R3K2R w KQkq - 0 1").unwrap();
    assert_eq!(sound.fen(), "r3k2r/8/8/8/8/8/8/R3K2R w KQkq - 0 1");
}

#[test]
fn castling_is_played_and_gives_up_the_rights() {
    let mut board = DatabaseBoard::from_fen("r3k2r/8/8/8/8/8/8/R3K2R w KQkq - 0 1").unwrap();
    assert!(board.apply_uci_move("e1g1"));
    assert_eq!(board.fen(), "r3k2r/8/8/8/8/8/8/R4RK1 b kq - 1 1");
    assert!(board.apply_uci_move("e8c8"));
    assert_eq!(board.fen(), "2kr3r/8/8/8/8/8/8/R4RK1 w - - 2 2");
}

#[test]
fn position_with_the_waiting_side_in_check_takes_no_move() {
    let text = "4k3/4R3/8/8/8/8/8/4K3 w - - 0 1";
    let mut board = DatabaseBoard::from_fen(text).unwrap();
    assert_eq!(board.turn(), Player::White);
    for uci in ["e7e8", "e1d1", "e7e6", "e7a7"] {
        assert!(!board.apply_uci_move(uci));
        assert_eq!(board.fen(), text);
    }
    assert!(!board.checkmate());
    let mut kings = DatabaseBoard::from_fen("8/8/8/3kK3/8/8/8/8 w - - 0 1").unwrap();
    assert!(!kings.apply_uci_move("e5d5"));
    assert!(!kings.apply_uci_move("e5e6"));
}
