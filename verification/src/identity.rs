//! Instance identifiers: one fresh UUID per registration attempt.

use vstd::prelude::*;

verus! {

/// The lower-case hexadecimal digit for a value below sixteen.
pub open spec fn hex_digit(nibble: int) -> char {
    "0123456789abcdef"@[nibble]
}

/// The character at position `i` of the hyphenated form of `id`: a hyphen at
/// positions 8, 13, 18 and 23, otherwise the next hexadecimal digit of `id`,
/// most significant first (digit 0 is the topmost four bits).
pub open spec fn hyphenated_char(id: u128, i: int) -> char {
    if i == 8 || i == 13 || i == 18 || i == 23 {
        '-'
    } else {
        let digit = if i < 8 {
            i
        } else if i < 13 {
            i - 1
        } else if i < 18 {
            i - 2
        } else if i < 23 {
            i - 3
        } else {
            i - 4
        };
        hex_digit(((id >> (4 * (31 - digit)) as u128) & 0xf) as int)
    }
}

/// The 36-character hyphenated form of a UUID given as a 128-bit value, such as
/// `a1a2a3a4-b1b2-c1c2-d1d2-d3d4d5d6d7d8`.
pub open spec fn hyphenated(id: u128) -> Seq<char> {
    Seq::new(36, |i: int| hyphenated_char(id, i))
}

/// Whether `id` carries the version and variant marks of a random UUID.
pub open spec fn is_random_uuid(id: u128) -> bool {
    (id >> 76) & 0xf == 4 && (id >> 62) & 0x3 == 2
}

/// Draws a fresh random identifier with `uuid::Uuid::new_v4` and hands it back
/// as its 128-bit value (`Uuid::as_u128`).
///
/// Trusted: whatever the random source yields, the crate sets the version
/// nibble to 4 and the variant bits to `10`. Nothing else is claimed; two
/// calls are unrelated. The crate panics when the operating system cannot
/// supply random bytes.
#[verifier::external_body]
pub(crate) fn new_instance_id() -> (id: u128)
    ensures
        is_random_uuid(id),
{
    uuid::Uuid::new_v4().as_u128()
}

/// Renders an identifier as `uuid::Uuid` displays it (`Uuid::from_u128`, then
/// `to_string`).
///
/// Trusted: the display form of a `Uuid` is its lower-case hyphenated form,
/// the 32 hexadecimal digits of the value from the most significant down, in
/// groups of 8, 4, 4, 4 and 12.
#[verifier::external_body]
pub(crate) fn instance_id_text(id: u128) -> (text: String)
    ensures
        text@ == hyphenated(id),
{
    uuid::Uuid::from_u128(id).to_string()
}

} // verus!
