//! The textual form of the ids that the store hands out: that of a UUID.

use vstd::prelude::*;

verus! {

/// The lower-case hexadecimal digit for a value from 0 to 15.
pub open spec fn hex_digit(value: u128) -> char {
    if value < 10 {
        ((48 + value) as u8) as char
    } else {
        ((87 + value) as u8) as char
    }
}

/// The `place`-th of the thirty-two hexadecimal digits of an id, counted from
/// the most significant one.
pub open spec fn id_digit(id: u128, place: int) -> char {
    hex_digit((id >> ((4 * (31 - place)) as u128)) & 0xf)
}

/// The number of hyphens that stand before index `at` of the text of an id.
pub open spec fn hyphens_before(at: int) -> int {
    (if at > 8 {
        1int
    } else {
        0int
    }) + (if at > 13 {
        1int
    } else {
        0int
    }) + (if at > 18 {
        1int
    } else {
        0int
    }) + (if at > 23 {
        1int
    } else {
        0int
    })
}

/// The text of an id: its thirty-two lower-case hexadecimal digits, most
/// significant first, in groups of 8, 4, 4, 4 and 12 parted by hyphens.
pub open spec fn id_text(id: u128) -> Seq<char> {
    Seq::new(
        36,
        |at: int|
            if at == 8 || at == 13 || at == 18 || at == 23 {
                '-'
            } else {
                id_digit(id, at - hyphens_before(at))
            },
    )
}

/// `uuid::Uuid::from_u128` and the `Display` of the UUID it gives: the
/// hyphenated lower-case form, with the most significant byte first.
#[verifier::external_body]
pub(crate) fn write_id(id: u128) -> (text: String)
    ensures
        text@ == id_text(id),
{
    uuid::Uuid::from_u128(id).to_string()
}

} // verus!
