//! The board of a game: a position of the rules engine, known by its
//! Forsyth-Edwards text.

use vstd::prelude::*;
use vstd::string::*;
use crate::fen::{check_shape, safe_to_parse, split_fields};
use crate::rules::{
    attackers_of, board_text, checkmate_of, copy_board, describe_refusal, half_moves,
    is_checkmate, is_stalemate, king_of, king_square, moves_fit, moves_played_of, occupied_by_of,
    occupied_of, opponent, owner, parse_board, parsed_text, piece_at, piece_load, piece_on,
    play_uci_move, position_after, quiet_half_moves, right_in_place, rule_50_of, safe_for_moves,
    side_load, side_to_move, stalemate_of, start_board, start_text, turn_of,
    waiting_side_attacked, write_text, Piece, Player, MOVE_LIST_ROOM,
};

verus! {

/// A chess position as the games and the position store hold it.
pub struct DatabaseBoard {
    board: pleco::Board,
}

/// Why a text does not give a board.
#[derive(Clone, Copy, Debug, PartialEq, Eq, Structural)]
pub enum DatabaseBoardError {
    InvalidFen,
}

impl View for DatabaseBoard {
    type V = Seq<char>;

    /// The canonical encoding of the position: its Forsyth-Edwards text.
    closed spec fn view(&self) -> Seq<char> {
        board_text(self.board)
    }
}

/// Whether a move can be played in a position. The position is one that the
/// engine may be asked to move in: neither of its counters is at its limit,
/// and the side that is not to move does not stand in check. The engine
/// accepts the move, and the position that the move leads to is again one
/// whose moves the engine may be asked for. A move that is played hands the
/// turn over and adds one to the count of half-moves.
pub open spec fn playable(position: Seq<char>, uci_move: Seq<char>) -> bool {
    &&& half_moves(position) < u16::MAX
    &&& quiet_half_moves(position) < i16::MAX
    &&& !waiting_side_attacked(position)
    &&& position_after(position, uci_move) matches Some(next) && safe_for_moves(next)
        && half_moves(next) == half_moves(position) + 1 && side_to_move(next) == opponent(
        side_to_move(position),
    )
}

/// The position that a text shows: the engine's reading of it, where the
/// text is safe to hand to the engine and the engine accepts it.
pub open spec fn shown(fen: Seq<char>) -> Option<Seq<char>> {
    if safe_to_parse(fen) {
        parsed_text(fen)
    } else {
        None
    }
}

/// The board that a text gives for play: the position it shows, where the
/// engine may be asked for its moves.
pub open spec fn decoded(fen: Seq<char>) -> Option<Seq<char>> {
    if shown(fen) matches Some(position) && safe_for_moves(position) {
        shown(fen)
    } else {
        None
    }
}

/// Reads the engine's board from a text, for showing it.
pub(crate) fn read_shown(fen: &str) -> (parsed: Result<pleco::Board, String>)
    ensures
        match shown(fen@) {
            Some(position) => parsed.is_ok() && board_text(parsed->Ok_0) == position,
            None => parsed.is_err(),
        },
        !safe_to_parse(fen@) ==> parsed.is_err() && parsed->Err_0@ == "misshapen text"@,
{
    if !check_shape(fen) {
        return Err(String::from_str("misshapen text"));
    }
    match parse_board(fen) {
        Ok(board) => Ok(board),
        Err(refusal) => Err(describe_refusal(&refusal)),
    }
}

/// Checks one castling right against the board.
fn right_stands(board: &pleco::Board, right: char) -> (ok: bool)
    ensures
        ok == right_in_place(board_text(*board), right),
{
    if right == 'K' {
        piece_at(board, 4) == Piece::WhiteKing && piece_at(board, 7) == Piece::WhiteRook
    } else if right == 'Q' {
        piece_at(board, 4) == Piece::WhiteKing && piece_at(board, 0) == Piece::WhiteRook
    } else if right == 'k' {
        piece_at(board, 60) == Piece::BlackKing && piece_at(board, 63) == Piece::BlackRook
    } else if right == 'q' {
        piece_at(board, 60) == Piece::BlackKing && piece_at(board, 56) == Piece::BlackRook
    } else {
        true
    }
}

/// Checks the castling rights that a field grants against the board.
fn castling_in_place(board: &pleco::Board, rights: &str) -> (ok: bool)
    ensures
        ok == forall|k: int|
            0 <= k < rights@.len() ==> right_in_place(board_text(*board), #[trigger] rights@[k]),
{
    let n = rights.unicode_len();
    let mut i: usize = 0;
    while i < n
        invariant
            n == rights@.len(),
            i <= n,
            forall|k: int|
                0 <= k < i ==> right_in_place(board_text(*board), #[trigger] rights@[k]),
        decreases n - i,
    {
        if !right_stands(board, rights.get_char(i)) {
            return false;
        }
        i += 1;
    }
    true
}

/// Checks that an en-passant field is a dash or names an empty square.
fn en_passant_in_place(board: &pleco::Board, field: &str) -> (ok: bool)
    ensures
        ok == (field@ == seq!['-'] || (field@.len() == 2 && 'a' <= field@[0] <= 'h' && '1'
            <= field@[1] <= '8' && piece_on(
            board_text(*board),
            ((field@[1] as u8 - '1' as u8) * 8 + (field@[0] as u8 - 'a' as u8)) as u8,
        ) == Piece::Empty)),
{
    let n = field.unicode_len();
    if n == 1 {
        let dash = field.get_char(0) == '-';
        if dash {
            assert(field@ =~= seq!['-']);
        }
        return dash;
    }
    proof {
        if field@ == seq!['-'] {
            assert(field@.len() == 1);
        }
    }
    if n != 2 {
        return false;
    }
    let file = field.get_char(0);
    let rank = field.get_char(1);
    if file >= 'a' && file <= 'h' && rank >= '1' && rank <= '8' {
        let square: u8 = (rank as u8 - '1' as u8) * 8 + (file as u8 - 'a' as u8);
        piece_at(board, square) == Piece::Empty
    } else {
        false
    }
}

/// The load of a piece where it belongs to a side, else none.
fn load_for(piece: Piece, player: Player) -> (load: u32)
    ensures
        load == if owner(piece) == Some(player) {
            piece_load(piece)
        } else {
            0
        },
        load <= 27,
{
    match (piece, player) {
        (Piece::WhitePawn, Player::White) => 12,
        (Piece::WhiteKnight, Player::White) => 8,
        (Piece::WhiteBishop, Player::White) => 13,
        (Piece::WhiteRook, Player::White) => 14,
        (Piece::WhiteQueen, Player::White) => 27,
        (Piece::WhiteKing, Player::White) => 8,
        (Piece::BlackPawn, Player::Black) => 12,
        (Piece::BlackKnight, Player::Black) => 8,
        (Piece::BlackBishop, Player::Black) => 13,
        (Piece::BlackRook, Player::Black) => 14,
        (Piece::BlackQueen, Player::Black) => 27,
        (Piece::BlackKing, Player::Black) => 8,
        _ => 0,
    }
}

/// Checks that neither side can have more moves than the engine's list holds.
fn moves_in_bounds(board: &pleco::Board) -> (ok: bool)
    ensures
        ok == moves_fit(board_text(*board)),
{
    let mut white: u32 = 0;
    let mut black: u32 = 0;
    let mut square: u8 = 0;
    while square < 64
        invariant
            square <= 64,
            white == side_load(board_text(*board), Player::White, square as int),
            black == side_load(board_text(*board), Player::Black, square as int),
            white <= 27 * square,
            black <= 27 * square,
        decreases 64 - square,
    {
        let piece = piece_at(board, square);
        white = white + load_for(piece, Player::White);
        black = black + load_for(piece, Player::Black);
        square += 1;
    }
    white <= MOVE_LIST_ROOM && black <= MOVE_LIST_ROOM
}

/// Checks that the engine may be asked for the moves of a board.
fn fit_for_moves(board: &pleco::Board) -> (ok: bool)
    ensures
        ok == safe_for_moves(board_text(*board)),
{
    let text = write_text(board);
    let fields = split_fields(text.as_str());
    if fields.len() != 6 {
        return false;
    }
    castling_in_place(board, fields[2].as_str()) && en_passant_in_place(
        board,
        fields[3].as_str(),
    ) && moves_in_bounds(board)
}

/// The square on which the king of a side stands, or 64 where it has none.
fn find_king(board: &pleco::Board, player: Player) -> (square: u8)
    ensures
        square == king_square(board_text(*board), player, 0),
        square <= 64,
{
    let king = match player {
        Player::White => Piece::WhiteKing,
        Player::Black => Piece::BlackKing,
    };
    let mut square: u8 = 0;
    while square < 64
        invariant
            square <= 64,
            king == king_of(player),
            king_square(board_text(*board), player, 0) == king_square(
                board_text(*board),
                player,
                square as int,
            ),
        decreases 64 - square,
    {
        if piece_at(board, square) == king {
            return square;
        }
        square += 1;
    }
    square
}

/// Whether the side that is not to move stands in check.
fn waiting_side_in_check(board: &pleco::Board) -> (attacked: bool)
    ensures
        attacked == waiting_side_attacked(board_text(*board)),
{
    let mover = turn_of(board);
    let waiting = match mover {
        Player::White => Player::Black,
        Player::Black => Player::White,
    };
    let king = find_king(board, waiting);
    if king >= 64 {
        return true;
    }
    let all = occupied_of(board);
    let attacking = attackers_of(board, king, all);
    let own = occupied_by_of(board, mover);
    attacking & own != 0
}

impl DatabaseBoard {
    /// The engine may be asked for the moves of every board.
    #[verifier::type_invariant]
    spec fn sound(self) -> bool {
        safe_for_moves(board_text(self.board))
    }

    /// The engine's board behind this one.
    pub(crate) fn engine(&self) -> (board: &pleco::Board)
        ensures
            board_text(*board) == self@,
    {
        &self.board
    }
}

impl Clone for DatabaseBoard {
    /// A second board holding the same position.
    fn clone(&self) -> (copy: DatabaseBoard)
        ensures
            copy@ == self@,
    {
        self.duplicate()
    }
}

impl DatabaseBoard {
    /// The starting position.
    pub fn new() -> (board: DatabaseBoard)
        ensures
            board@ == start_text(),
            half_moves(board@) == 0,
            side_to_move(board@) == Player::White,
    {
        DatabaseBoard { board: start_board() }
    }

    /// Reads a board from its Forsyth-Edwards text; a text that gives no
    /// board is answered with a description of the fault. A text that is not
    /// safe to hand to the engine is described as misshapen, and a position
    /// whose moves the engine cannot safely be asked for as unfit for play;
    /// for any other the description is the engine's own.
    pub fn read_fen(fen: &str) -> (parsed: Result<DatabaseBoard, String>)
        ensures
            match decoded(fen@) {
                Some(position) => parsed.is_ok() && parsed->Ok_0@ == position,
                None => parsed.is_err(),
            },
            !safe_to_parse(fen@) ==> parsed.is_err() && parsed->Err_0@ == "misshapen text"@,
            (shown(fen@) matches Some(position) && !safe_for_moves(position)) ==> parsed.is_err()
                && parsed->Err_0@ == "position unfit for play"@,
    {
        match read_shown(fen) {
            Ok(board) => {
                if fit_for_moves(&board) {
                    Ok(DatabaseBoard { board })
                } else {
                    Err(String::from_str("position unfit for play"))
                }
            },
            Err(fault) => Err(fault),
        }
    }

    /// Reads a board from its Forsyth-Edwards text.
    pub fn from_fen(fen: &str) -> (parsed: Result<DatabaseBoard, DatabaseBoardError>)
        ensures
            match decoded(fen@) {
                Some(position) => parsed.is_ok() && parsed->Ok_0@ == position,
                None => parsed == Err::<DatabaseBoard, DatabaseBoardError>(
                    DatabaseBoardError::InvalidFen,
                ),
            },
    {
        match Self::read_fen(fen) {
            Ok(board) => Ok(board),
            Err(_) => Err(DatabaseBoardError::InvalidFen),
        }
    }

    /// A second board holding the same position.
    pub fn duplicate(&self) -> (copy: DatabaseBoard)
        ensures
            copy@ == self@,
    {
        proof {
            use_type_invariant(self);
        }
        DatabaseBoard { board: copy_board(&self.board) }
    }

    /// The canonical encoding of the position.
    pub fn fen(&self) -> (text: String)
        ensures
            text@ == self@,
    {
        write_text(&self.board)
    }

    /// The side that is to move.
    pub fn turn(&self) -> (player: Player)
        ensures
            player == side_to_move(self@),
    {
        turn_of(&self.board)
    }

    /// The count of half-moves that lie behind the position.
    pub fn moves_played(&self) -> (count: u16)
        ensures
            count == half_moves(self@),
    {
        moves_played_of(&self.board)
    }

    /// Whether the side to move is mated.
    pub fn checkmate(&self) -> (mated: bool)
        ensures
            mated == is_checkmate(self@),
    {
        proof {
            use_type_invariant(self);
        }
        checkmate_of(&self.board)
    }

    /// Whether the position is a draw: the side to move is not in check and
    /// either has no move or fifty quiet half-moves have passed.
    pub fn stalemate(&self) -> (drawn: bool)
        ensures
            drawn == is_stalemate(self@),
    {
        proof {
            use_type_invariant(self);
        }
        stalemate_of(&self.board)
    }

    /// What stands on a square, numbered from 0 (a1) to 63 (h8).
    pub fn piece_at(&self, square: u8) -> (piece: Piece)
        requires
            square < 64,
        ensures
            piece == piece_on(self@, square),
    {
        piece_at(&self.board, square)
    }

    /// Plays a move given in UCI notation. The board is changed if and only if
    /// the move is playable; the answer says whether it was.
    pub fn apply_uci_move(&mut self, uci_move: &str) -> (played: bool)
        ensures
            played == playable(old(self)@, uci_move@),
            played ==> Some(final(self)@) == position_after(old(self)@, uci_move@),
            played ==> half_moves(final(self)@) == half_moves(old(self)@) + 1,
            played ==> side_to_move(final(self)@) == opponent(side_to_move(old(self)@)),
            !played ==> final(self)@ == old(self)@,
    {
        if moves_played_of(&self.board) == u16::MAX || rule_50_of(&self.board) == i16::MAX {
            return false;
        }
        if waiting_side_in_check(&self.board) {
            return false;
        }
        proof {
            use_type_invariant(&*self);
        }
        let mut next = copy_board(&self.board);
        if !play_uci_move(&mut next, uci_move) {
            return false;
        }
        if !fit_for_moves(&next) {
            return false;
        }
        self.board = next;
        true
    }
}

} // verus!
