//! Trusted bridge to the identifier, clock and case-mapping routines
//! that the rest of the library is specified against.

use vstd::prelude::*;

verus! {

/// Sequence of characters that Unicode upper-casing yields for `s`;
/// it depends on the characters of `s` alone.
pub uninterp spec fn upper_of(s: Seq<char>) -> Seq<char>;

/// Sequence of characters that Unicode lower-casing yields for `s`;
/// it depends on the characters of `s` alone.
pub uninterp spec fn lower_of(s: Seq<char>) -> Seq<char>;

/// Relies on str::to_uppercase: the result is a function of the
/// characters of `s` alone.
#[verifier::external_body]
pub(crate) fn to_upper_string(s: &str) -> (r: String)
    ensures
        r@ == upper_of(s@),
{
    s.to_uppercase()
}

/// Relies on str::to_lowercase: the result is a function of the
/// characters of `s` alone.
#[verifier::external_body]
pub(crate) fn to_lower_string(s: &str) -> (r: String)
    ensures
        r@ == lower_of(s@),
{
    s.to_lowercase()
}

/// Relies on uuid::Uuid::new_v4 rendered through its Display impl: a
/// fresh random identifier in the hyphenated form, which is always 36
/// characters long. Nothing further is assumed of the value.
#[verifier::external_body]
pub(crate) fn fresh_uuid() -> (r: String)
    ensures
        r@.len() == 36,
{
    uuid::Uuid::new_v4().to_string()
}

/// Relies on chrono::Utc::now and DateTime::timestamp_millis: the wall
/// clock at the moment of the call, in milliseconds since the Unix
/// epoch. Nothing is assumed of the value.
#[verifier::external_body]
pub(crate) fn now_millis() -> i64 {
    chrono::Utc::now().timestamp_millis()
}

} // verus!
