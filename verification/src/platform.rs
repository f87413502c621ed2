//! What only the machine knows: the time of day and fresh random identifiers.
//!
//! Nothing is claimed of either result. Every function that reads one of them
//! hands it to a function that takes it as an argument and is verified for all
//! of its values.

use vstd::prelude::*;
use crate::text::hex_lower;

verus! {

/// `chrono::Utc::now().timestamp()`: the current Unix time in whole seconds.
#[verifier::external_body]
pub(crate) fn unix_now() -> i64 {
    chrono::Utc::now().timestamp()
}

/// `uuid::Uuid::new_v4()` as its 128 bits: a random version-4 identifier.
#[verifier::external_body]
pub(crate) fn fresh_uuid() -> u128 {
    uuid::Uuid::new_v4().as_u128()
}

/// A number without its `places` lowest bytes.
pub open spec fn without_low_bytes(n: nat, places: nat) -> nat
    decreases places,
{
    if places == 0 {
        n
    } else {
        without_low_bytes(n, (places - 1) as nat) / 256
    }
}

/// The sixteen bytes of an identifier, the highest first.
pub open spec fn uuid_bytes(id: u128) -> Seq<u8> {
    Seq::new(16, |i: int| (without_low_bytes(id as nat, (15 - i) as nat) % 256) as u8)
}

/// The hyphenated lower-case text of an identifier, as `Uuid`'s `Display`
/// writes it: the bytes in hexadecimal, with a hyphen behind the eighth,
/// twelfth, sixteenth and twentieth digit.
pub open spec fn uuid_text_of(id: u128) -> Seq<char> {
    let digits = hex_lower(uuid_bytes(id));
    digits.subrange(0, 8) + seq!['-'] + digits.subrange(8, 12) + seq!['-'] + digits.subrange(12, 16)
        + seq!['-'] + digits.subrange(16, 20) + seq!['-'] + digits.subrange(20, 32)
}

/// The identifier that `Uuid::parse_str` reads from a text, if it reads one.
pub uninterp spec fn uuid_parsed(text: Seq<char>) -> Option<u128>;

/// `Uuid::from_u128(id).to_string()`: the hyphenated text of the identifier.
/// Parsing the text yields `id` again.
#[verifier::external_body]
pub(crate) fn uuid_text(id: u128) -> (text: String)
    ensures
        text@ == uuid_text_of(id),
        uuid_parsed(text@) == Some(id),
{
    uuid::Uuid::from_u128(id).to_string()
}

/// `Uuid::parse_str(text)`, as the 128 bits of what it read.
#[verifier::external_body]
pub(crate) fn uuid_parse(text: &str) -> (id: Option<u128>)
    ensures
        id == uuid_parsed(text@),
{
    uuid::Uuid::parse_str(text).ok().map(|u| u.as_u128())
}

} // verus!
