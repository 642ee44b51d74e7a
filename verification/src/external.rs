//! Trusted boundary to unverified code.
//!
//! Everything the engine takes from `uuid` and `chrono`, and from the
//! few standard-library functions that carry no specification, passes
//! through the wrappers in this module; Verus believes their contracts
//! without reading their bodies.

use vstd::prelude::*;

verus! {

/// The canonical (hyphenated, lower-case) text of the UUID that `s`
/// denotes, or `None` when `s` is not a UUID text.
pub uninterp spec fn uuid_canonical(s: Seq<char>) -> Option<Seq<char>>;

/// Relies on `uuid::Uuid::new_v4` for a fresh random UUID and on its
/// `Display` impl for the canonical 36-character hyphenated text,
/// which `parse_str` accepts and re-renders unchanged.
#[verifier::external_body]
pub(crate) fn uuid_v4_string() -> (r: String)
    ensures
        r@.len() == 36,
        uuid_canonical(r@) == Some(r@),
{
    uuid::Uuid::new_v4().to_string()
}

/// Relies on `uuid::Uuid::parse_str` to accept exactly the UUID texts,
/// and on the `Display` impl of `uuid::Uuid` for the canonical form of
/// the accepted ones; a canonical text re-renders unchanged, so
/// canonicalisation is idempotent.
#[verifier::external_body]
pub(crate) fn uuid_parse_canonical(s: &str) -> (r: Option<String>)
    ensures
        r is Some <==> uuid_canonical(s@) is Some,
        r matches Some(t) ==> uuid_canonical(s@) == Some(t@) && uuid_canonical(t@) == Some(t@),
{
    uuid::Uuid::parse_str(s).ok().map(|u| u.to_string())
}

/// Relies on `chrono::Utc::now` and `DateTime::timestamp`: seconds since
/// the Unix epoch at the moment of the call.  Nothing is promised of the
/// value; callers state what holds of every reading.
#[verifier::external_body]
pub(crate) fn now_seconds() -> i64 {
    chrono::Utc::now().timestamp()
}

/// The uppercase text of `s`.
pub uninterp spec fn upper_of(s: Seq<char>) -> Seq<char>;

/// Relies on `str::to_uppercase`: the result depends on the
/// characters alone, and an empty text stays empty.
#[verifier::external_body]
pub(crate) fn uppercase(s: &str) -> (r: String)
    ensures
        r@ == upper_of(s@),
        s@.len() == 0 ==> r@.len() == 0,
{
    s.to_uppercase()
}

/// Relies on `String::from_utf8`: ASCII bytes decode to exactly the
/// characters with the same code points.
#[verifier::external_body]
pub(crate) fn ascii_to_string(bytes: Vec<u8>) -> (r: String)
    requires
        forall|i: int| 0 <= i < bytes@.len() ==> bytes@[i] < 128,
    ensures
        r@ == bytes@.map_values(|b: u8| b as char),
{
    String::from_utf8(bytes).unwrap_or_default()
}

/// Relies on `chrono::Utc::now` and `DateTime::timestamp_millis`:
/// milliseconds since the Unix epoch at the moment of the call.  Nothing
/// is promised of the value; callers state what holds of every reading.
#[verifier::external_body]
pub(crate) fn now_millis() -> i64 {
    chrono::Utc::now().timestamp_millis()
}

} // verus!
