//! The shape of a Forsyth-Edwards text, checked before the rules engine sees it.
//!
//! The engine reads a text in four to six fields parted by white space: the
//! piece placement, the side to move, the castling rights, the en-passant
//! square and, where they are given, the count of quiet half-moves and the
//! move number. It answers most malformed texts with an error, but not all
//! of them; this module admits only texts on which it is safe to call.

use vstd::prelude::*;
use vstd::string::*;

verus! {

/// The fields that `str::split_whitespace` cuts a text into, in order.
pub uninterp spec fn whitespace_fields(text: Seq<char>) -> Seq<Seq<char>>;

/// `str::split_whitespace`, gathered into owned strings: the maximal runs of
/// characters that are not white space, in the order in which they stand.
#[verifier::external_body]
pub(crate) fn split_fields(text: &str) -> (fields: Vec<String>)
    ensures
        fields@.len() == whitespace_fields(text@).len(),
        forall|i: int|
            0 <= i < fields@.len() ==> (#[trigger] fields@[i])@ == whitespace_fields(text@)[i],
{
    text.split_whitespace().map(String::from).collect()
}

/// Whether a character stands for a piece in the placement field.
pub open spec fn is_piece_letter(c: char) -> bool {
    c == 'p' || c == 'n' || c == 'b' || c == 'r' || c == 'q' || c == 'k' || c == 'P' || c == 'N'
        || c == 'B' || c == 'R' || c == 'Q' || c == 'K'
}

/// Whether a character stands for a run of one to eight empty squares.
pub open spec fn is_gap_digit(c: char) -> bool {
    '1' <= c <= '8'
}

/// The number of squares that a placement character covers.
pub open spec fn squares_of(c: char) -> int {
    if is_gap_digit(c) {
        c as int - '0' as int
    } else if is_piece_letter(c) {
        1
    } else {
        0
    }
}

/// The squares covered in the rank that is open at index `end`: those of the
/// characters between the last `/` before `end` and `end` itself.
pub open spec fn rank_width(placement: Seq<char>, end: int) -> int
    decreases end,
{
    if end <= 0 {
        0
    } else if placement[end - 1] == '/' {
        0
    } else {
        rank_width(placement, end - 1) + squares_of(placement[end - 1])
    }
}

/// How often a character occurs among the first `end` characters.
pub open spec fn occurrences(text: Seq<char>, c: char, end: int) -> int
    decreases end,
{
    if end <= 0 {
        0
    } else {
        occurrences(text, c, end - 1) + if text[end - 1] == c {
            1int
        } else {
            0int
        }
    }
}

/// A placement field that names eight ranks of at most eight squares each
/// and gives each side exactly one king.
pub open spec fn placement_ok(placement: Seq<char>) -> bool {
    &&& forall|i: int|
        0 <= i < placement.len() ==> is_piece_letter(#[trigger] placement[i]) || is_gap_digit(
            placement[i],
        ) || placement[i] == '/'
    &&& forall|i: int|
        0 <= i < placement.len() && #[trigger] placement[i] == '/' ==> rank_width(placement, i)
            <= 8
    &&& rank_width(placement, placement.len() as int) <= 8
    &&& occurrences(placement, '/', placement.len() as int) == 7
    &&& occurrences(placement, 'K', placement.len() as int) == 1
    &&& occurrences(placement, 'k', placement.len() as int) == 1
}

/// A castling field made of the four right letters and the dash alone.
pub open spec fn castling_ok(castling: Seq<char>) -> bool {
    forall|i: int|
        0 <= i < castling.len() ==> {
            let c = #[trigger] castling[i];
            c == 'K' || c == 'Q' || c == 'k' || c == 'q' || c == '-'
        }
}

/// The number that the first `end` characters spell in decimal digits.
pub open spec fn decimal_value(digits: Seq<char>, end: int) -> int
    decreases end,
{
    if end <= 0 {
        0
    } else {
        decimal_value(digits, end - 1) * 10 + (digits[end - 1] as int - '0' as int)
    }
}

/// The largest move number whose half-move count still fits the engine's counter.
pub const MAX_MOVE_NUMBER: u32 = 32768;

/// A move-number field of one to five digits that spells a number from 1 to
/// `MAX_MOVE_NUMBER`.
pub open spec fn move_number_ok(field: Seq<char>) -> bool {
    &&& 1 <= field.len() <= 5
    &&& forall|i: int| 0 <= i < field.len() ==> '0' <= #[trigger] field[i] <= '9'
    &&& 1 <= decimal_value(field, field.len() as int) <= MAX_MOVE_NUMBER
}

/// A move-number field that the engine can take: a dash, which it passes
/// over, or a number in range.
pub open spec fn move_field_ok(field: Seq<char>) -> bool {
    field == seq!['-'] || move_number_ok(field)
}

/// A text on which the engine's parser is safe to call: four to six fields,
/// of which the placement and the castling rights are well formed, and so is
/// the move number where there is one.
pub open spec fn safe_to_parse(text: Seq<char>) -> bool {
    let fields = whitespace_fields(text);
    &&& 4 <= fields.len() <= 6
    &&& placement_ok(fields[0])
    &&& castling_ok(fields[2])
    &&& fields.len() == 6 ==> move_field_ok(fields[5])
}

/// Checks a placement field.
pub fn check_placement(placement: &str) -> (ok: bool)
    ensures
        ok == placement_ok(placement@),
{
    let n = placement.unicode_len();
    let mut i: usize = 0;
    let mut width: u8 = 0;
    let mut slashes: u8 = 0;
    let mut white_kings: u8 = 0;
    let mut black_kings: u8 = 0;
    while i < n
        invariant
            n == placement@.len(),
            i <= n,
            width <= 8,
            slashes <= 7,
            white_kings <= 1,
            black_kings <= 1,
            width == rank_width(placement@, i as int),
            slashes == occurrences(placement@, '/', i as int),
            white_kings == occurrences(placement@, 'K', i as int),
            black_kings == occurrences(placement@, 'k', i as int),
            forall|k: int|
                0 <= k < i ==> is_piece_letter(#[trigger] placement@[k]) || is_gap_digit(
                    placement@[k],
                ) || placement@[k] == '/',
            forall|k: int|
                0 <= k < i && #[trigger] placement@[k] == '/' ==> rank_width(placement@, k) <= 8,
        decreases n - i,
    {
        let c = placement.get_char(i);
        proof {
            lemma_occurrences_grow(placement@, '/', i as int, n as int);
            lemma_occurrences_grow(placement@, 'K', i as int, n as int);
            lemma_occurrences_grow(placement@, 'k', i as int, n as int);
        }
        if c == '/' {
            if slashes == 7 {
                proof {
                    lemma_occurrences_grow(placement@, '/', i as int + 1, n as int);
                }
                return false;
            }
            slashes += 1;
            width = 0;
        } else if c >= '1' && c <= '8' {
            let gap: u8 = (c as u32 - '0' as u32) as u8;
            if gap > 8 - width {
                proof {
                    lemma_rank_overflow(placement@, i as int + 1, n as int);
                }
                return false;
            }
            width += gap;
        } else if c == 'p' || c == 'n' || c == 'b' || c == 'r' || c == 'q' || c == 'k' || c == 'P'
            || c == 'N' || c == 'B' || c == 'R' || c == 'Q' || c == 'K' {
            if width == 8 {
                proof {
                    lemma_rank_overflow(placement@, i as int + 1, n as int);
                }
                return false;
            }
            if c == 'K' {
                if white_kings == 1 {
                    proof {
                        lemma_occurrences_grow(placement@, 'K', i as int + 1, n as int);
                    }
                    return false;
                }
                white_kings += 1;
            }
            if c == 'k' {
                if black_kings == 1 {
                    proof {
                        lemma_occurrences_grow(placement@, 'k', i as int + 1, n as int);
                    }
                    return false;
                }
                black_kings += 1;
            }
            width += 1;
        } else {
            return false;
        }
        i += 1;
    }
    slashes == 7 && white_kings == 1 && black_kings == 1
}

/// Checks a castling field.
pub fn check_castling(castling: &str) -> (ok: bool)
    ensures
        ok == castling_ok(castling@),
{
    let n = castling.unicode_len();
    let mut i: usize = 0;
    while i < n
        invariant
            n == castling@.len(),
            i <= n,
            forall|k: int|
                0 <= k < i ==> {
                    let c = #[trigger] castling@[k];
                    c == 'K' || c == 'Q' || c == 'k' || c == 'q' || c == '-'
                },
        decreases n - i,
    {
        let c = castling.get_char(i);
        if !(c == 'K' || c == 'Q' || c == 'k' || c == 'q' || c == '-') {
            return false;
        }
        i += 1;
    }
    true
}

/// Checks a move-number field.
pub fn check_move_number(field: &str) -> (ok: bool)
    ensures
        ok == move_number_ok(field@),
{
    let n = field.unicode_len();
    if n < 1 || n > 5 {
        return false;
    }
    let mut i: usize = 0;
    let mut value: u32 = 0;
    while i < n
        invariant
            n == field@.len(),
            n <= 5,
            i <= n,
            value == decimal_value(field@, i as int),
            value < 100000,
            i <= 4 ==> value < 10000,
            forall|k: int| 0 <= k < i ==> '0' <= #[trigger] field@[k] <= '9',
        decreases n - i,
    {
        let c = field.get_char(i);
        if c < '0' || c > '9' {
            return false;
        }
        proof {
            lemma_decimal_bound(field@, i as int);
        }
        value = value * 10 + (c as u32 - '0' as u32);
        i += 1;
    }
    1 <= value && value <= MAX_MOVE_NUMBER
}

/// Whether the rules engine may be handed a text: see `safe_to_parse`.
pub fn check_shape(text: &str) -> (ok: bool)
    ensures
        ok == safe_to_parse(text@),
{
    let fields = split_fields(text);
    if fields.len() < 4 || fields.len() > 6 {
        return false;
    }
    if !check_placement(fields[0].as_str()) || !check_castling(fields[2].as_str()) {
        return false;
    }
    if fields.len() == 6 {
        check_move_field(fields[5].as_str())
    } else {
        true
    }
}

/// Checks a move-number field where the text has one.
pub fn check_move_field(field: &str) -> (ok: bool)
    ensures
        ok == move_field_ok(field@),
{
    if field.unicode_len() == 1 && field.get_char(0) == '-' {
        assert(field@ =~= seq!['-']);
        return true;
    }
    proof {
        if field@ == seq!['-'] {
            assert(field@.len() == 1 && field@[0] == '-');
        }
    }
    check_move_number(field)
}

/// A run of `end` digits spells a number below ten to the power of `end`.
pub proof fn lemma_decimal_bound(digits: Seq<char>, end: int)
    requires
        0 <= end <= 5,
        forall|k: int| 0 <= k < end ==> '0' <= #[trigger] digits[k] <= '9',
    ensures
        end == 0 ==> decimal_value(digits, end) == 0,
        end <= 1 ==> decimal_value(digits, end) < 10,
        end <= 2 ==> decimal_value(digits, end) < 100,
        end <= 3 ==> decimal_value(digits, end) < 1000,
        end <= 4 ==> decimal_value(digits, end) < 10000,
        decimal_value(digits, end) < 100000,
        decimal_value(digits, end) >= 0,
    decreases end,
{
    if end > 0 {
        lemma_decimal_bound(digits, end - 1);
    }
}

/// A count of occurrences never shrinks as the prefix grows.
pub proof fn lemma_occurrences_grow(text: Seq<char>, c: char, from: int, to: int)
    requires
        0 <= from <= to,
    ensures
        occurrences(text, c, from) <= occurrences(text, c, to),
    decreases to - from,
{
    if from < to {
        lemma_occurrences_grow(text, c, from, to - 1);
    }
}

/// A rank that has passed eight squares stays a fault of the whole field:
/// either a later `/` closes it too wide, or the field ends in it.
pub proof fn lemma_rank_overflow(placement: Seq<char>, at: int, len: int)
    requires
        0 <= at <= len,
        len == placement.len(),
        rank_width(placement, at) > 8,
        forall|i: int| 0 <= i < len ==> squares_of(#[trigger] placement[i]) >= 0,
    ensures
        rank_width(placement, len) > 8 || exists|i: int|
            at <= i < len && #[trigger] placement[i] == '/' && rank_width(placement, i) > 8,
    decreases len - at,
{
    if at < len {
        if placement[at] == '/' {
            assert(placement[at] == '/' && rank_width(placement, at) > 8);
        } else {
            assert(rank_width(placement, at + 1) == rank_width(placement, at) + squares_of(
                placement[at],
            ));
            lemma_rank_overflow(placement, at + 1, len);
        }
    }
}

} // verus!
