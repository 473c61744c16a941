//! Trusted wrappers around outside crates: UUID generation, parsing and
//! formatting, the clock, and URI validation.

use vstd::prelude::*;

verus! {

/// The UUID that a string parses to, if any. Parsing depends on the
/// characters alone.
pub uninterp spec fn uuid_of_str(s: Seq<char>) -> Option<u128>;

/// The canonical (hyphenated) rendering of a UUID. It depends on the
/// value alone.
pub uninterp spec fn uuid_str(u: u128) -> Seq<char>;

/// Whether a string parses as a URI. It depends on the characters alone.
pub uninterp spec fn uri_ok(s: Seq<char>) -> bool;

/// Relies on `uuid::Uuid::new_v4`: a random UUID, of which nothing is
/// promised.
#[verifier::external_body]
pub fn new_uuid() -> u128 {
    uuid::Uuid::new_v4().as_u128()
}

/// Relies on `uuid::Uuid::parse_str`: accepts or rejects a UUID string
/// as a function of its characters alone.
#[verifier::external_body]
pub fn parse_uuid(s: &str) -> (r: Option<u128>)
    ensures
        r == uuid_of_str(s@),
{
    uuid::Uuid::parse_str(s).ok().map(|u| u.as_u128())
}

/// Relies on `uuid::Uuid`'s hyphenated rendering, which
/// `uuid::Uuid::parse_str` accepts back unchanged.
#[verifier::external_body]
pub fn format_uuid(u: u128) -> (r: String)
    ensures
        r@ == uuid_str(u),
        uuid_of_str(r@) == Some(u),
{
    uuid::Uuid::from_u128(u).to_string()
}

/// Relies on `chrono::Utc::now`: the current time as seconds since the
/// epoch, of which nothing is promised.
#[verifier::external_body]
pub fn now_timestamp() -> i64 {
    chrono::Utc::now().naive_utc().and_utc().timestamp()
}

/// Relies on `http::Uri`'s `FromStr`: whether the characters form a
/// well-formed URI.
#[verifier::external_body]
pub fn uri_parses(s: &str) -> (r: bool)
    ensures
        r == uri_ok(s@),
{
    s.parse::<http::Uri>().is_ok()
}

} // verus!
