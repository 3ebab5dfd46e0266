//! Identifiers: freshly generated user and wallet ids, and parsing of a
//! textual identifier back to its 128-bit value.

use vstd::prelude::*;

verus! {

/// The 128-bit value, if any, that an identifier string denotes: `None`
/// where the string is malformed, `Some(n)` where it parses to the
/// identifier with value `n`.
pub uninterp spec fn uuid_value(s: Seq<char>) -> Option<u128>;

/// Relies on uuid's `Uuid::new_v4`, `Display` and `as_u128`: the display
/// form of an identifier is its 36-character hyphenated encoding, which
/// `Uuid::parse_str` accepts and parses back to the same value.
#[verifier::external_body]
pub(crate) fn fresh_uuid() -> (r: (String, u128))
    ensures
        r.0@.len() == 36,
        uuid_value(r.0@) == Some(r.1),
{
    let id = uuid::Uuid::new_v4();
    (id.to_string(), id.as_u128())
}

/// Relies on uuid's `Uuid::parse_str` and `as_u128`: which strings parse,
/// and to which value, depends on the string alone.
#[verifier::external_body]
pub(crate) fn parse_uuid(s: &str) -> (r: Option<u128>)
    ensures
        uuid_value(s@) == r,
{
    match uuid::Uuid::parse_str(s) {
        Ok(id) => Some(id.as_u128()),
        Err(_) => None,
    }
}

} // verus!
