//! The identifier that a caller gives to a snapshot, and the text under which
//! it is stored.

use vstd::prelude::*;

verus! {

/// A 128-bit universally unique identifier, by its value with the most
/// significant byte first.
#[derive(Clone, Copy, Debug, PartialEq, Eq, Structural)]
pub struct SaveUuid {
    pub value: u128,
}

/// The lower-case hexadecimal digit for a number from 0 to 15.
pub open spec fn hex_digit(digit: int) -> char {
    if digit < 10 {
        (48 + digit) as char
    } else {
        (87 + digit) as char
    }
}

/// The number of hyphens that stand before position `at` of the text.
pub open spec fn hyphens_before(at: int) -> int {
    if at < 8 {
        0
    } else if at < 13 {
        1
    } else if at < 18 {
        2
    } else if at < 23 {
        3
    } else {
        4
    }
}

/// 16 to the power `exponent`.
pub open spec fn sixteen_to(exponent: nat) -> int
    decreases exponent,
{
    if exponent == 0 {
        1
    } else {
        16 * sixteen_to((exponent - 1) as nat)
    }
}

/// The hyphenated text of an identifier: its 32 hexadecimal digits in lower
/// case, most significant first, in groups of 8, 4, 4, 4 and 12 with a hyphen
/// between two groups.
pub open spec fn hyphenated(value: u128) -> Seq<char> {
    Seq::new(
        36,
        |at: int|
            if at == 8 || at == 13 || at == 18 || at == 23 {
                '-'
            } else {
                hex_digit((value as int / sixteen_to((31 - (at - hyphens_before(at))) as nat)) % 16)
            },
    )
}

/// Calls `uuid::Uuid::from_u128` and the `to_string` of `uuid::Uuid`.
/// Trusted: the text is the identifier's hyphenated lower-case form.
#[verifier::external_body]
pub(crate) fn uuid_text(uuid: SaveUuid) -> (text: String)
    ensures
        text@ == hyphenated(uuid.value),
{
    uuid::Uuid::from_u128(uuid.value).to_string()
}

impl SaveUuid {
    /// The text under which this identifier is stored.
    pub fn text(&self) -> (text: String)
        ensures
            text@ == hyphenated(self.value),
    {
        uuid_text(*self)
    }
}

} // verus!
