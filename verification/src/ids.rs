//! Session and event identifiers: 128-bit values of random (version 4) UUIDs,
//! and their text forms as the `uuid` crate renders them.

use vstd::prelude::*;

use crate::text::fixed_digits;

verus! {

/// The simple form of a UUID: its 32 lower-case hexadecimal digits,
/// most significant first.
pub open spec fn uuid_simple(v: u128) -> Seq<char> {
    fixed_digits(v as nat, 16, 32)
}

/// The hyphenated form of a UUID: the 32 digits in groups of 8, 4, 4, 4
/// and 12, joined by '-'.
pub open spec fn uuid_hyphenated(v: u128) -> Seq<char> {
    let h = uuid_simple(v);
    h.subrange(0, 8) + seq!['-'] + h.subrange(8, 12) + seq!['-'] + h.subrange(12, 16) + seq!['-']
        + h.subrange(16, 20) + seq!['-'] + h.subrange(20, 32)
}

/// `uuid::Uuid::new_v4`, taken as its 128-bit value (`as_u128`). The value
/// is random: nothing is stated of it.
#[verifier::external_body]
pub(crate) fn random_uuid() -> (r: u128) {
    uuid::Uuid::new_v4().as_u128()
}

/// `uuid::Uuid::simple` of `Uuid::from_u128(v)`, rendered with `to_string`:
/// the 32 lower-case hexadecimal digits of `v`, most significant first, as
/// the crate's `format_simple` writes them.
#[verifier::external_body]
pub(crate) fn uuid_simple_text(v: u128) -> (r: String)
    ensures
        r@ == uuid_simple(v),
{
    uuid::Uuid::from_u128(v).simple().to_string()
}

/// The `Display` text of `Uuid::from_u128(v)`: the hyphenated lower-case
/// form (8-4-4-4-12 digits), as the crate's `format_hyphenated` writes it.
#[verifier::external_body]
pub(crate) fn uuid_text(v: u128) -> (r: String)
    ensures
        r@ == uuid_hyphenated(v),
{
    uuid::Uuid::from_u128(v).to_string()
}

} // verus!
