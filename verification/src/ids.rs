//! Resource identifiers.
//!
//! Every user, board, list and card is addressed by a 128-bit id. On the
//! wire and inside token claims an id travels in its canonical hyphenated
//! string form; the conversions between the two forms are delegated to the
//! `uuid` crate.

use vstd::prelude::*;

verus! {

/// The id value a well-formed id string denotes, if any.
pub uninterp spec fn uuid_of(s: Seq<char>) -> Option<u128>;

/// The canonical hyphenated string form of an id value.
pub uninterp spec fn uuid_str_of(id: u128) -> Seq<char>;

/// Relies on uuid::Uuid::new_v4: a freshly drawn random id. Nothing is
/// assumed of its value.
#[verifier::external_body]
pub(crate) fn fresh_id() -> u128 {
    uuid::Uuid::new_v4().as_u128()
}

/// Relies on uuid::Uuid::parse_str and Uuid::as_u128: whether a string is a
/// well-formed id, and which id it denotes, is a deterministic function of
/// the string alone.
#[verifier::external_body]
pub(crate) fn parse_uuid(s: &str) -> (r: Option<u128>)
    ensures
        r == uuid_of(s@),
{
    match uuid::Uuid::parse_str(s) {
        Ok(u) => Some(u.as_u128()),
        Err(_) => None,
    }
}

/// Relies on uuid::Uuid::from_u128 and the hyphenated Display form: the
/// string form is a deterministic function of the id value, and parsing it
/// back yields the same id.
#[verifier::external_body]
pub(crate) fn uuid_to_string(id: u128) -> (r: String)
    ensures
        r@ == uuid_str_of(id),
        uuid_of(r@) == Some(id),
{
    uuid::Uuid::from_u128(id).to_string()
}

} // verus!
