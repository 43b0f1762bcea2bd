//! The keys of the bar's numpad: four rows of three keys (`7 8 9`, `4 5 6`,
//! `1 2 3`, then the decimal comma, `0` and erase) above a full-width delete
//! key.

use vstd::prelude::*;

verus! {

/// A key of the numpad.
#[derive(Clone, Copy, Debug, PartialEq, Eq, Structural)]
pub enum NumpadKey {
    /// A digit (the keys of the first three rows give `7 + col`, `4 + col`
    /// and `1 + col`)
    Number(u8),
    /// The decimal comma
    Comma,
    /// Erases the last character
    Back,
    /// The full-width key of the last row
    Delete,
}

/// The key at `row` and `col` of the four rows of three keys, if there is
/// one there.
pub open spec fn key_at(row: usize, col: usize) -> Option<NumpadKey> {
    if row == 0 {
        Some(NumpadKey::Number((7 + col as u8) as u8))
    } else if row == 1 {
        Some(NumpadKey::Number((4 + col as u8) as u8))
    } else if row == 2 {
        Some(NumpadKey::Number((1 + col as u8) as u8))
    } else if row == 3 {
        if col == 0 {
            Some(NumpadKey::Comma)
        } else if col == 1 {
            Some(NumpadKey::Number(0))
        } else if col == 2 {
            Some(NumpadKey::Back)
        } else {
            None
        }
    } else {
        None
    }
}

/// The key of the four rows of three keys at `row` and `col` (the delete
/// key of the last row is found by the widget from its own geometry). The
/// digit of the first rows must fit in a `u8`.
pub fn numpad_key_at(row: usize, col: usize) -> (key: Option<NumpadKey>)
    requires
        row == 0 ==> (col as u8) <= 248,
        row == 1 ==> (col as u8) <= 251,
        row == 2 ==> (col as u8) <= 254,
    ensures
        key == key_at(row, col),
{
    #[verifier::truncate]
    let c = col as u8;
    match row {
        0 => Some(NumpadKey::Number(7 + c)),
        1 => Some(NumpadKey::Number(4 + c)),
        2 => Some(NumpadKey::Number(1 + c)),
        3 => match col {
            0 => Some(NumpadKey::Comma),
            1 => Some(NumpadKey::Number(0)),
            2 => Some(NumpadKey::Back),
            _ => None,
        },
        _ => None,
    }
}

} // verus!
