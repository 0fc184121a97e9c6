//! Instants are whole seconds since the Unix epoch, in UTC.
//! Calendar text is read and written through chrono.

use vstd::prelude::*;

verus! {

/// 0000-01-01T00:00:00Z, the first instant that four-digit RFC 3339 text can name.
pub const MIN_INSTANT: i64 = -62167219200;

/// 9999-12-31T23:59:59Z, the last instant that four-digit RFC 3339 text can name.
pub const MAX_INSTANT: i64 = 253402300799;

/// An instant that the scheduler works with: years 0000 to 9999.
pub open spec fn valid_instant(t: int) -> bool {
    MIN_INSTANT <= t <= MAX_INSTANT
}

/// The instant that chrono reads from a stored timestamp text, if it reads one.
pub uninterp spec fn utc_text_seconds(s: Seq<char>) -> Option<int>;

/// Relies on `<chrono::DateTime<chrono::Utc> as FromStr>::from_str` and `DateTime::timestamp`:
/// the outcome depends on the text alone.
#[verifier::external_body]
pub(crate) fn parse_utc_text(s: &str) -> (r: Option<i64>)
    ensures
        r matches Some(t) ==> utc_text_seconds(s@) == Some(t as int),
        r is None ==> utc_text_seconds(s@) is None,
{
    s.parse::<chrono::DateTime<chrono::Utc>>().ok().map(|d| d.timestamp())
}

/// The instant that chrono reads from `YYYY-MM-DDTHH:MM:SS` text taken as UTC, if it reads one.
pub uninterp spec fn naive_utc_seconds(s: Seq<char>) -> Option<int>;

/// Relies on `chrono::NaiveDateTime::parse_from_str` with the format `%Y-%m-%dT%H:%M:%S`
/// and `NaiveDateTime::and_utc`: the outcome depends on the text alone.
#[verifier::external_body]
pub(crate) fn parse_naive_utc(s: &str) -> (r: Option<i64>)
    ensures
        r matches Some(t) ==> naive_utc_seconds(s@) == Some(t as int),
        r is None ==> naive_utc_seconds(s@) is None,
{
    chrono::NaiveDateTime::parse_from_str(s, "%Y-%m-%dT%H:%M:%S").ok().map(|d| d.and_utc().timestamp())
}

/// The RFC 3339 text that chrono writes for an instant, where chrono can represent it.
pub uninterp spec fn rfc3339_text(t: int) -> Option<Seq<char>>;

/// Relies on `chrono::DateTime::from_timestamp` and `DateTime::to_rfc3339`: the text depends
/// on the instant alone, and every instant of years 0000 to 9999 is representable.
#[verifier::external_body]
pub(crate) fn to_rfc3339(t: i64) -> (r: Option<String>)
    ensures
        r matches Some(x) ==> rfc3339_text(t as int) == Some(x@),
        r is None ==> rfc3339_text(t as int) is None,
        valid_instant(t as int) ==> r is Some,
{
    chrono::DateTime::from_timestamp(t, 0).map(|d| d.to_rfc3339())
}

/// The `YYYY-MM-DD HH:MM:SS` text that chrono writes for an instant.
pub uninterp spec fn stamp_text(t: int) -> Seq<char>;

/// Relies on `chrono::DateTime::from_timestamp` and `DateTime::format` with
/// `%Y-%m-%d %H:%M:%S`: the text depends on the instant alone; every instant of
/// years 0000 to 9999 is representable.
#[verifier::external_body]
pub(crate) fn format_stamp(t: i64) -> (r: String)
    requires
        valid_instant(t as int),
    ensures
        r@ == stamp_text(t as int),
{
    chrono::DateTime::from_timestamp(t, 0).unwrap().format("%Y-%m-%d %H:%M:%S").to_string()
}

} // verus!
