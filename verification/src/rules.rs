//! The boundary to the chess rules engine.
//!
//! Move generation, legality and mate detection are the work of the `pleco`
//! crate. Nothing in this file is proved: each function states what the
//! engine's source shows of one of its functions, and the rest of the crate
//! is verified against these statements. A position is spoken of through its
//! Forsyth-Edwards text, which the engine writes for every board it holds.

use vstd::prelude::*;
use crate::fen::whitespace_fields;

verus! {

/// The engine's board, carried through as an opaque value.
#[verifier::external_type_specification]
#[verifier::external_body]
pub struct ExBoard(pleco::Board);

/// The engine's reason for refusing a Forsyth-Edwards text.
#[verifier::external_type_specification]
#[verifier::external_body]
pub struct ExFenBuildError(pleco::board::FenBuildError);

/// The side that is to move.
#[derive(Clone, Copy, Debug, PartialEq, Eq, Structural)]
pub enum Player {
    White,
    Black,
}

/// What stands on a square of the board.
#[derive(Clone, Copy, Debug, PartialEq, Eq, Structural)]
pub enum Piece {
    Empty,
    WhitePawn,
    WhiteKnight,
    WhiteBishop,
    WhiteRook,
    WhiteQueen,
    WhiteKing,
    BlackPawn,
    BlackKnight,
    BlackBishop,
    BlackRook,
    BlackQueen,
    BlackKing,
}

/// What a board holds: the Forsyth-Edwards text that `Board::fen` writes for it.
pub uninterp spec fn board_text(board: pleco::Board) -> Seq<char>;

/// The text of the board that `Board::from_fen` builds from a text, or `None`
/// where it refuses the text.
pub uninterp spec fn parsed_text(fen: Seq<char>) -> Option<Seq<char>>;

/// The side to move in a position, as `Board::turn` reports it.
pub uninterp spec fn side_to_move(position: Seq<char>) -> Player;

/// The count of half-moves behind a position, as `Board::moves_played` reports it.
pub uninterp spec fn half_moves(position: Seq<char>) -> u16;

/// The half-moves since the last capture or pawn move, as `Board::rule_50` reports them.
pub uninterp spec fn quiet_half_moves(position: Seq<char>) -> i16;

/// Whether the side to move is mated, as `Board::checkmate` reports it.
pub uninterp spec fn is_checkmate(position: Seq<char>) -> bool;

/// Whether the position is a draw as `Board::stalemate` reports it: the side
/// to move is not in check and either has no move or fifty quiet half-moves
/// have passed.
pub uninterp spec fn is_stalemate(position: Seq<char>) -> bool;

/// The occupied squares of a position as `Board::occupied` reports them: bit
/// `n` stands for square `n`.
pub uninterp spec fn occupied(position: Seq<char>) -> u64;

/// The squares that the pieces of one side occupy, as
/// `Board::get_occupied_player` reports them.
pub uninterp spec fn occupied_by(position: Seq<char>, player: Player) -> u64;

/// The squares from which a piece of either side attacks a square on a board
/// occupied as given, as `Board::attackers_to` reports them.
pub uninterp spec fn attackers(position: Seq<char>, square: u8, occupied: u64) -> u64;

/// The position that `Board::apply_uci_move` leaves for a move it accepts,
/// or `None` where it refuses the move.
pub uninterp spec fn position_after(position: Seq<char>, uci_move: Seq<char>) -> Option<Seq<char>>;

/// What stands on a square of a position, as `Board::piece_at_sq` reports it.
/// Squares are numbered from 0 (a1) along the ranks to 63 (h8).
pub uninterp spec fn piece_on(position: Seq<char>, square: u8) -> Piece;

/// The text of the position from which every game starts.
pub open spec fn start_text() -> Seq<char> {
    "rnbqkbnr/pppppppp/8/8/8/8/PPPPPPPP/RNBQKBNR w KQkq - 0 1"@
}

/// The opponent of a side.
pub open spec fn opponent(player: Player) -> Player {
    match player {
        Player::White => Player::Black,
        Player::Black => Player::White,
    }
}

/// Whether a castling right finds its king and its rook at home: `K` and `Q`
/// the white king on e1 and the white rook on h1 or a1, `k` and `q` the
/// black king on e8 and the black rook on h8 or a8. Any other character
/// names no right.
pub open spec fn right_in_place(position: Seq<char>, right: char) -> bool {
    &&& right == 'K' ==> piece_on(position, 4) == Piece::WhiteKing && piece_on(position, 7)
        == Piece::WhiteRook
    &&& right == 'Q' ==> piece_on(position, 4) == Piece::WhiteKing && piece_on(position, 0)
        == Piece::WhiteRook
    &&& right == 'k' ==> piece_on(position, 60) == Piece::BlackKing && piece_on(position, 63)
        == Piece::BlackRook
    &&& right == 'q' ==> piece_on(position, 60) == Piece::BlackKing && piece_on(position, 56)
        == Piece::BlackRook
}

/// Whether the castling rights that a position's text grants all find their
/// king and rook at home. The engine generates castling moves from the
/// rights alone and runs off the board where a king is not at home, so it is
/// asked for moves only in positions whose rights are in place.
pub open spec fn castling_consistent(position: Seq<char>) -> bool {
    let fields = whitespace_fields(position);
    &&& fields.len() == 6
    &&& forall|i: int|
        0 <= i < fields[2].len() ==> right_in_place(position, #[trigger] fields[2][i])
}

/// Whether the en-passant field of a position's text is a dash or names an
/// empty square. The engine offers the capture onto the square that the
/// field names without looking at it, and fails when the capture is played
/// onto a piece.
pub open spec fn en_passant_clear(position: Seq<char>) -> bool {
    let fields = whitespace_fields(position);
    &&& fields.len() == 6
    &&& fields[3] == seq!['-'] || (fields[3].len() == 2 && 'a' <= fields[3][0] <= 'h' && '1'
        <= fields[3][1] <= '8' && piece_on(
        position,
        ((fields[3][1] as u8 - '1' as u8) * 8 + (fields[3][0] as u8 - 'a' as u8)) as u8,
    ) == Piece::Empty)
}

/// The most moves that a piece can have: a queen 27, a rook 14, a bishop 13,
/// a knight 8, a king 8 (at home with castling it has fewer than 8 others),
/// a pawn 12 (three squares on the last rank, four promotions each).
pub open spec fn piece_load(piece: Piece) -> int {
    match piece {
        Piece::Empty => 0,
        Piece::WhitePawn | Piece::BlackPawn => 12,
        Piece::WhiteKnight | Piece::BlackKnight => 8,
        Piece::WhiteBishop | Piece::BlackBishop => 13,
        Piece::WhiteRook | Piece::BlackRook => 14,
        Piece::WhiteQueen | Piece::BlackQueen => 27,
        Piece::WhiteKing | Piece::BlackKing => 8,
    }
}

/// The side that a piece belongs to.
pub open spec fn owner(piece: Piece) -> Option<Player> {
    match piece {
        Piece::Empty => None,
        Piece::WhitePawn | Piece::WhiteKnight | Piece::WhiteBishop | Piece::WhiteRook
        | Piece::WhiteQueen | Piece::WhiteKing => Some(Player::White),
        _ => Some(Player::Black),
    }
}

/// The sum of the loads of the pieces of one side on the squares below `end`:
/// a bound on the number of moves that the side can have.
pub open spec fn side_load(position: Seq<char>, player: Player, end: int) -> int
    decreases end,
{
    if end <= 0 {
        0
    } else {
        side_load(position, player, end - 1) + if owner(piece_on(position, (end - 1) as u8))
            == Some(player) {
            piece_load(piece_on(position, (end - 1) as u8))
        } else {
            0
        }
    }
}

/// The number of moves that the engine's move list holds. The engine writes
/// the moves it generates into the list without asking for room.
pub const MOVE_LIST_ROOM: u32 = 252;

/// Whether neither side can have more moves than the engine's move list holds.
pub open spec fn moves_fit(position: Seq<char>) -> bool {
    &&& side_load(position, Player::White, 64) <= MOVE_LIST_ROOM
    &&& side_load(position, Player::Black, 64) <= MOVE_LIST_ROOM
}

/// Whether the engine may be asked for the moves of a position: the castling
/// rights are in place, the en-passant square is clear and the moves fit its
/// list.
pub open spec fn safe_for_moves(position: Seq<char>) -> bool {
    &&& castling_consistent(position)
    &&& en_passant_clear(position)
    &&& moves_fit(position)
}

/// The first square from `from` on which the king of a side stands, or 64.
pub open spec fn king_square(position: Seq<char>, player: Player, from: int) -> int
    decreases 64 - from,
{
    if from >= 64 || from < 0 {
        64
    } else if piece_on(position, from as u8) == king_of(player) {
        from
    } else {
        king_square(position, player, from + 1)
    }
}

/// The king of a side.
pub open spec fn king_of(player: Player) -> Piece {
    match player {
        Player::White => Piece::WhiteKing,
        Player::Black => Piece::BlackKing,
    }
}

/// Whether the side that is not to move stands in check, or has no king:
/// whether a piece of the side to move attacks its king. No game reaches
/// such a position.
pub open spec fn waiting_side_attacked(position: Seq<char>) -> bool {
    let king = king_square(position, opponent(side_to_move(position)), 0);
    king >= 64 || attackers(position, king as u8, occupied(position)) & occupied_by(
        position,
        side_to_move(position),
    ) != 0
}

/// `pleco::Board::occupied`: the occupied squares as a set of bits.
#[verifier::external_body]
pub(crate) fn occupied_of(board: &pleco::Board) -> (squares: u64)
    ensures
        squares == occupied(board_text(*board)),
{
    board.occupied().0
}

/// `pleco::Board::get_occupied_player`: the squares of one side's pieces.
#[verifier::external_body]
pub(crate) fn occupied_by_of(board: &pleco::Board, player: Player) -> (squares: u64)
    ensures
        squares == occupied_by(board_text(*board), player),
{
    board.get_occupied_player(match player {
        Player::White => pleco::Player::White,
        Player::Black => pleco::Player::Black,
    }).0
}

/// `pleco::Board::attackers_to`: the squares from which a square is attacked
/// on a board occupied as given. The engine looks the square up in its
/// tables unchecked, so it is kept on the board here.
#[verifier::external_body]
pub(crate) fn attackers_of(board: &pleco::Board, square: u8, blockers: u64) -> (squares: u64)
    requires
        square < 64,
    ensures
        squares == attackers(board_text(*board), square, blockers),
{
    board.attackers_to(pleco::SQ(square), pleco::BitBoard(blockers)).0
}

/// `pleco::Board::start_pos`: the board of the starting position. Its text
/// is the one the engine's documentation gives for it, no move lies behind
/// it, White is to move, and the engine may be asked for its moves.
#[verifier::external_body]
pub(crate) fn start_board() -> (board: pleco::Board)
    ensures
        board_text(board) == start_text(),
        half_moves(board_text(board)) == 0,
        side_to_move(board_text(board)) == Player::White,
        safe_for_moves(board_text(board)),
{
    pleco::Board::start_pos()
}

/// `pleco::Board::fen`: writes the board's Forsyth-Edwards text.
#[verifier::external_body]
pub(crate) fn write_text(board: &pleco::Board) -> (text: String)
    ensures
        text@ == board_text(*board),
{
    board.fen()
}

/// `Clone::clone` of `pleco::Board`: a second board holding the same position
/// and the same count of half-moves.
#[verifier::external_body]
pub(crate) fn copy_board(board: &pleco::Board) -> (copy: pleco::Board)
    ensures
        board_text(copy) == board_text(*board),
{
    board.clone()
}

/// `pleco::Board::turn`: the side to move.
#[verifier::external_body]
pub(crate) fn turn_of(board: &pleco::Board) -> (player: Player)
    ensures
        player == side_to_move(board_text(*board)),
{
    match board.turn() {
        pleco::Player::White => Player::White,
        pleco::Player::Black => Player::Black,
    }
}

/// `pleco::Board::moves_played`: the count of half-moves behind the board.
#[verifier::external_body]
pub(crate) fn moves_played_of(board: &pleco::Board) -> (count: u16)
    ensures
        count == half_moves(board_text(*board)),
{
    board.moves_played()
}

/// `pleco::Board::rule_50`: the half-moves since the last capture or pawn move.
#[verifier::external_body]
pub(crate) fn rule_50_of(board: &pleco::Board) -> (count: i16)
    ensures
        count == quiet_half_moves(board_text(*board)),
{
    board.rule_50()
}

/// `pleco::Board::checkmate`: whether the side to move is mated.
#[verifier::external_body]
pub(crate) fn checkmate_of(board: &pleco::Board) -> (mated: bool)
    requires
        safe_for_moves(board_text(*board)),
    ensures
        mated == is_checkmate(board_text(*board)),
{
    board.checkmate()
}

/// `pleco::Board::stalemate`: whether the side to move is not in check and
/// either has no move or fifty quiet half-moves have passed.
#[verifier::external_body]
pub(crate) fn stalemate_of(board: &pleco::Board) -> (drawn: bool)
    requires
        safe_for_moves(board_text(*board)),
    ensures
        drawn == is_stalemate(board_text(*board)),
{
    board.stalemate()
}

/// `pleco::Board::apply_uci_move`: plays the legal move that the text names
/// and answers `true`, or leaves the board as it is and answers `false`. A
/// move that is played adds one to the count of half-moves and hands the turn
/// to the other side. Both of the board's counters are stepped without a
/// check, so the call is kept away from a board on which either is at its
/// limit. In a position that no game can reach, where the side that is not
/// to move stands in check, the engine offers the capture of the king,
/// panics when it is played, and after any other move holds a board whose
/// answers no longer follow from its text; the call is kept away from such
/// a position.
#[verifier::external_body]
pub(crate) fn play_uci_move(board: &mut pleco::Board, uci_move: &str) -> (played: bool)
    requires
        half_moves(board_text(*old(board))) < u16::MAX,
        quiet_half_moves(board_text(*old(board))) < i16::MAX,
        !waiting_side_attacked(board_text(*old(board))),
        safe_for_moves(board_text(*old(board))),
    ensures
        played == position_after(board_text(*old(board)), uci_move@).is_some(),
        played ==> position_after(board_text(*old(board)), uci_move@) == Some(
            board_text(*final(board)),
        ),
        played ==> half_moves(board_text(*final(board))) == half_moves(board_text(*old(board)))
            + 1,
        played ==> side_to_move(board_text(*final(board))) == opponent(
            side_to_move(board_text(*old(board))),
        ),
        !played ==> board_text(*final(board)) == board_text(*old(board)),
{
    board.apply_uci_move(uci_move)
}

/// `pleco::Board::piece_at_sq`: what stands on a square. The engine checks
/// the square's number in debug builds only, so it is kept on the board here.
#[verifier::external_body]
pub(crate) fn piece_at(board: &pleco::Board, square: u8) -> (piece: Piece)
    requires
        square < 64,
    ensures
        piece == piece_on(board_text(*board), square),
{
    match board.piece_at_sq(pleco::SQ(square)) {
        pleco::Piece::None => Piece::Empty,
        pleco::Piece::WhitePawn => Piece::WhitePawn,
        pleco::Piece::WhiteKnight => Piece::WhiteKnight,
        pleco::Piece::WhiteBishop => Piece::WhiteBishop,
        pleco::Piece::WhiteRook => Piece::WhiteRook,
        pleco::Piece::WhiteQueen => Piece::WhiteQueen,
        pleco::Piece::WhiteKing => Piece::WhiteKing,
        pleco::Piece::BlackPawn => Piece::BlackPawn,
        pleco::Piece::BlackKnight => Piece::BlackKnight,
        pleco::Piece::BlackBishop => Piece::BlackBishop,
        pleco::Piece::BlackRook => Piece::BlackRook,
        pleco::Piece::BlackQueen => Piece::BlackQueen,
        pleco::Piece::BlackKing => Piece::BlackKing,
    }
}

/// The name of a square: its file letter from `a` to `h`, then its rank digit
/// from `1` to `8`.
pub open spec fn square_name(square: u8) -> Seq<char> {
    seq![(('a' as u8) + square % 8) as char, (('1' as u8) + square / 8) as char]
}

/// `pleco::SQ::to_string`: the name of a square, which the engine reads from
/// a table of the sixty-four names; it panics for a number that is off the board.
#[verifier::external_body]
pub(crate) fn name_of_square(square: u8) -> (name: String)
    requires
        square < 64,
    ensures
        name@ == square_name(square),
{
    pleco::SQ(square).to_string()
}

/// Whether the engine counts a square as light. Its mask holds the squares
/// whose file and rank numbers add up to an even number, a1 among them.
pub open spec fn counts_as_light(square: u8) -> bool {
    (square / 8 + square % 8) % 2 == 0
}

/// `pleco::SQ::on_light_square`: tests the square against the engine's mask
/// `0xAA55AA55AA55AA55`; it panics for a number that is off the board.
#[verifier::external_body]
pub(crate) fn is_light_square(square: u8) -> (light: bool)
    requires
        square < 64,
    ensures
        light == counts_as_light(square),
{
    pleco::SQ(square).on_light_square()
}

/// The letter of a piece: upper case for White, lower case for Black.
pub open spec fn piece_letter(piece: Piece) -> char {
    match piece {
        Piece::Empty => ' ',
        Piece::WhitePawn => 'P',
        Piece::WhiteKnight => 'N',
        Piece::WhiteBishop => 'B',
        Piece::WhiteRook => 'R',
        Piece::WhiteQueen => 'Q',
        Piece::WhiteKing => 'K',
        Piece::BlackPawn => 'p',
        Piece::BlackKnight => 'n',
        Piece::BlackBishop => 'b',
        Piece::BlackRook => 'r',
        Piece::BlackQueen => 'q',
        Piece::BlackKing => 'k',
    }
}

/// `pleco::Piece::character_lossy`: the letter of a piece; it panics where
/// there is no piece.
#[verifier::external_body]
pub(crate) fn letter_of(piece: Piece) -> (letter: char)
    requires
        piece != Piece::Empty,
    ensures
        letter == piece_letter(piece),
{
    match piece {
        Piece::Empty => pleco::Piece::None,
        Piece::WhitePawn => pleco::Piece::WhitePawn,
        Piece::WhiteKnight => pleco::Piece::WhiteKnight,
        Piece::WhiteBishop => pleco::Piece::WhiteBishop,
        Piece::WhiteRook => pleco::Piece::WhiteRook,
        Piece::WhiteQueen => pleco::Piece::WhiteQueen,
        Piece::WhiteKing => pleco::Piece::WhiteKing,
        Piece::BlackPawn => pleco::Piece::BlackPawn,
        Piece::BlackKnight => pleco::Piece::BlackKnight,
        Piece::BlackBishop => pleco::Piece::BlackBishop,
        Piece::BlackRook => pleco::Piece::BlackRook,
        Piece::BlackQueen => pleco::Piece::BlackQueen,
        Piece::BlackKing => pleco::Piece::BlackKing,
    }.character_lossy()
}

/// `pleco::Board::from_fen`: builds the board that a Forsyth-Edwards text
/// describes, or refuses the text. The engine's source panics on some texts
/// (a rank that runs past the board, a side without its king, a castling
/// letter it does not know, a move number it cannot double); the call is
/// kept to texts that `fen::safe_to_parse` admits, which are free of these.
#[verifier::external_body]
pub(crate) fn parse_board(fen: &str) -> (parsed: Result<pleco::Board, pleco::board::FenBuildError>)
    requires
        crate::fen::safe_to_parse(fen@),
    ensures
        parsed.is_ok() == parsed_text(fen@).is_some(),
        parsed matches Ok(board) ==> parsed_text(fen@) == Some(board_text(board)),
{
    pleco::Board::from_fen(fen)
}

/// The `Debug` rendering of `pleco::board::FenBuildError`, which is the only
/// description the engine gives of a refusal.
#[verifier::external_body]
pub(crate) fn describe_refusal(error: &pleco::board::FenBuildError) -> (text: String) {
    format!("{:?}", error)
}

} // verus!
