//! A board drawn as an HTML table, one cell for each square.
//!
//! Every cell carries the name of its square as its id and two classes: the
//! shade of the square and, where a piece stands on it, the letter of the
//! piece. The piece itself is shown by its chess glyph.

use vstd::prelude::*;
use vstd::string::*;
use crate::board::DatabaseBoard;
use crate::rules::{
    board_text, counts_as_light, is_light_square, letter_of, name_of_square, piece_at,
    piece_letter, piece_on, square_name, Piece,
};

verus! {

/// `String::push`: one more character at the end of a string.
#[verifier::external_body]
pub(crate) fn push_char(text: &mut String, c: char)
    ensures
        final(text)@ == old(text)@.push(c),
{
    text.push(c)
}

/// The glyph that shows a piece.
pub open spec fn glyph(piece: Piece) -> Seq<char> {
    match piece {
        Piece::Empty => Seq::empty(),
        Piece::WhitePawn => "\u{2659}"@,
        Piece::WhiteKnight => "\u{2658}"@,
        Piece::WhiteBishop => "\u{2657}"@,
        Piece::WhiteRook => "\u{2656}"@,
        Piece::WhiteQueen => "\u{2655}"@,
        Piece::WhiteKing => "\u{2654}"@,
        Piece::BlackPawn => "\u{265F}\u{FE0E}"@,
        Piece::BlackKnight => "\u{265E}"@,
        Piece::BlackBishop => "\u{265D}"@,
        Piece::BlackRook => "\u{265C}"@,
        Piece::BlackQueen => "\u{265B}"@,
        Piece::BlackKing => "\u{265A}"@,
    }
}

/// The glyph of a piece, or nothing for an empty square.
pub fn render_html_piece(piece: Piece) -> (shown: Option<String>)
    ensures
        piece == Piece::Empty ==> shown.is_none(),
        piece != Piece::Empty ==> shown.is_some() && shown.unwrap()@ == glyph(piece),
{
    match piece {
        Piece::Empty => None,
        Piece::WhitePawn => Some(String::from_str("\u{2659}")),
        Piece::WhiteKnight => Some(String::from_str("\u{2658}")),
        Piece::WhiteBishop => Some(String::from_str("\u{2657}")),
        Piece::WhiteRook => Some(String::from_str("\u{2656}")),
        Piece::WhiteQueen => Some(String::from_str("\u{2655}")),
        Piece::WhiteKing => Some(String::from_str("\u{2654}")),
        Piece::BlackPawn => Some(String::from_str("\u{265F}\u{FE0E}")),
        Piece::BlackKnight => Some(String::from_str("\u{265E}")),
        Piece::BlackBishop => Some(String::from_str("\u{265D}")),
        Piece::BlackRook => Some(String::from_str("\u{265C}")),
        Piece::BlackQueen => Some(String::from_str("\u{265B}")),
        Piece::BlackKing => Some(String::from_str("\u{265A}")),
    }
}

/// The class word for the shade of a square.
pub open spec fn shade(square: u8) -> Seq<char> {
    if counts_as_light(square) {
        "light"@
    } else {
        "dark"@
    }
}

/// The cell of a square.
pub open spec fn cell_html(position: Seq<char>, square: u8) -> Seq<char> {
    let piece = piece_on(position, square);
    if piece == Piece::Empty {
        "<td id='"@ + square_name(square) + "' class='chess-square-"@ + shade(square)
            + "'></td>"@
    } else {
        "<td id='"@ + square_name(square) + "' class='chess-square-"@ + shade(square)
            + " chess-piece-"@ + seq![piece_letter(piece)] + "'>"@ + glyph(piece) + "</td>"@
    }
}

/// The rank that the `row`-th row of the table shows: the eighth rank comes
/// first, unless the board is turned.
pub open spec fn shown_rank(row: int, turned: bool) -> int {
    if turned {
        row
    } else {
        7 - row
    }
}

/// The file that the `column`-th cell of a row shows: the a-file comes first,
/// unless the board is turned.
pub open spec fn shown_file(column: int, turned: bool) -> int {
    if turned {
        7 - column
    } else {
        column
    }
}

/// The first `columns` cells of the row that shows a rank.
pub open spec fn row_cells(position: Seq<char>, rank: int, columns: int, turned: bool) -> Seq<char>
    decreases columns,
{
    if columns <= 0 {
        Seq::empty()
    } else {
        row_cells(position, rank, columns - 1, turned) + cell_html(
            position,
            (rank * 8 + shown_file(columns - 1, turned)) as u8,
        )
    }
}

/// The row that shows a rank.
pub open spec fn row_html(position: Seq<char>, rank: int, turned: bool) -> Seq<char> {
    "<tr class='chess-rank'>"@ + row_cells(position, rank, 8, turned) + "</tr>"@
}

/// The first `rows` rows of the table.
pub open spec fn board_rows(position: Seq<char>, rows: int, turned: bool) -> Seq<char>
    decreases rows,
{
    if rows <= 0 {
        Seq::empty()
    } else {
        board_rows(position, rows - 1, turned) + row_html(
            position,
            shown_rank(rows - 1, turned),
            turned,
        )
    }
}

/// The table of a position, seen from White's side or, turned, from Black's.
pub open spec fn board_html(position: Seq<char>, turned: bool) -> Seq<char> {
    "<table class='chess-board'>"@ + board_rows(position, 8, turned) + "</table>"@
}

/// Draws the cell of a square of the engine's board.
pub(crate) fn draw_cell(board: &pleco::Board, square: u8) -> (html: String)
    requires
        square < 64,
    ensures
        html@ == cell_html(board_text(*board), square),
{
    let piece = piece_at(board, square);
    let name = name_of_square(square);
    let mut html = String::from_str("<td id='");
    html.append(name.as_str());
    html.append("' class='chess-square-");
    if is_light_square(square) {
        html.append("light");
    } else {
        html.append("dark");
    }
    match render_html_piece(piece) {
        Some(shown) => {
            html.append(" chess-piece-");
            push_char(&mut html, letter_of(piece));
            html.append("'>");
            html.append(shown.as_str());
            html.append("</td>");
            assert(html@ =~= cell_html(board_text(*board), square));
        },
        None => {
            html.append("'></td>");
            assert(html@ =~= cell_html(board_text(*board), square));
        },
    }
    html
}

/// Draws the row that shows a rank of the engine's board.
pub(crate) fn draw_row(board: &pleco::Board, rank: u8, turned: bool) -> (html: String)
    requires
        rank < 8,
    ensures
        html@ == row_html(board_text(*board), rank as int, turned),
{
    let mut html = String::from_str("<tr class='chess-rank'>");
    let mut column: u8 = 0;
    assert(html@ =~= "<tr class='chess-rank'>"@ + row_cells(
        board_text(*board),
        rank as int,
        0,
        turned,
    ));
    while column < 8
        invariant
            rank < 8,
            column <= 8,
            html@ == "<tr class='chess-rank'>"@ + row_cells(
                board_text(*board),
                rank as int,
                column as int,
                turned,
            ),
        decreases 8 - column,
    {
        let file: u8 = if turned {
            7 - column
        } else {
            column
        };
        let cell = draw_cell(board, rank * 8 + file);
        html.append(cell.as_str());
        column += 1;
        assert(html@ =~= "<tr class='chess-rank'>"@ + row_cells(
            board_text(*board),
            rank as int,
            column as int,
            turned,
        ));
    }
    html.append("</tr>");
    html
}

/// Draws the table of the engine's board.
pub(crate) fn draw_board(board: &pleco::Board, turned: bool) -> (html: String)
    ensures
        html@ == board_html(board_text(*board), turned),
{
    let mut html = String::from_str("<table class='chess-board'>");
    let mut row: u8 = 0;
    assert(html@ =~= "<table class='chess-board'>"@ + board_rows(board_text(*board), 0, turned));
    while row < 8
        invariant
            row <= 8,
            html@ == "<table class='chess-board'>"@ + board_rows(
                board_text(*board),
                row as int,
                turned,
            ),
        decreases 8 - row,
    {
        let rank: u8 = if turned {
            row
        } else {
            7 - row
        };
        let shown = draw_row(board, rank, turned);
        html.append(shown.as_str());
        row += 1;
        assert(html@ =~= "<table class='chess-board'>"@ + board_rows(
            board_text(*board),
            row as int,
            turned,
        ));
    }
    html.append("</table>");
    html
}

/// Draws the cell of a square.
pub fn render_cell(board: &DatabaseBoard, square: u8) -> (html: String)
    requires
        square < 64,
    ensures
        html@ == cell_html(board@, square),
{
    draw_cell(board.engine(), square)
}

/// Draws the row that shows a rank.
pub fn render_row(board: &DatabaseBoard, rank: u8, turned: bool) -> (html: String)
    requires
        rank < 8,
    ensures
        html@ == row_html(board@, rank as int, turned),
{
    draw_row(board.engine(), rank, turned)
}

/// Draws the table of a board, seen from White's side or, turned, from Black's.
pub fn render_board(board: &DatabaseBoard, turned: bool) -> (html: String)
    ensures
        html@ == board_html(board@, turned),
{
    draw_board(board.engine(), turned)
}

} // verus!
