//! Trusted boundary to the date-time library. Timestamps inside the library
//! are plain values: seconds since the Unix epoch, UTC.

use vstd::prelude::*;

verus! {

/// The timestamp that the date-time library reads out of a
/// `YYYY-MM-DD HH:MM:SS` date and time token pair, if the pair is
/// well-formed; the outcome depends on the two tokens alone.
pub uninterp spec fn utc_datetime_of(date: Seq<char>, time: Seq<char>) -> Option<i64>;

/// Relies on `chrono::NaiveDateTime::parse_from_str` with the
/// `"%Y-%m-%d %H:%M:%S"` format, interpreted as UTC via
/// `NaiveDateTime::and_utc` and `DateTime::timestamp`. On failure the
/// library's error text is handed back as the cause.
#[verifier::external_body]
pub(crate) fn parse_utc_datetime(date: &str, time: &str) -> (r: Result<i64, String>)
    ensures
        r matches Ok(t) ==> utc_datetime_of(date@, time@) == Some(t),
        r matches Err(_) ==> utc_datetime_of(date@, time@) is None,
{
    let joined = format!("{} {}", date, time);
    match chrono::NaiveDateTime::parse_from_str(&joined, "%Y-%m-%d %H:%M:%S") {
        Ok(dt) => Ok(dt.and_utc().timestamp()),
        Err(e) => Err(e.to_string()),
    }
}

/// The canonical RFC 3339 text of a UTC timestamp.
pub uninterp spec fn rfc3339_of(t: i64) -> Seq<char>;

/// The timestamp that an RFC 3339 text stands for, if any.
pub uninterp spec fn rfc3339_value_of(s: Seq<char>) -> Option<i64>;

/// Timestamps whose UTC year lies in 0000 through 9999: the range on which
/// the RFC 3339 formatter writes a four-digit year that the RFC 3339
/// parser reads back. The bounds are 0000-01-01 00:00:00 and
/// 9999-12-31 23:59:59 UTC as epoch seconds.
pub open spec fn rfc3339_representable(t: i64) -> bool {
    -62167219200 <= t <= 253402300799
}

/// Whether the RFC 3339 formatter round-trips the timestamp.
pub fn is_rfc3339_representable(t: i64) -> (r: bool)
    ensures
        r == rfc3339_representable(t),
{
    -62167219200 <= t && t <= 253402300799
}

/// Relies on `chrono::DateTime::from_timestamp` and
/// `DateTime::to_rfc3339`. The precondition keeps the UTC year within
/// 0000–9999: there `from_timestamp` yields a value, the formatter writes a
/// four-digit year, and `parse_from_rfc3339` reads the text back to the
/// same timestamp. Outside that range the formatter would write a signed
/// year of five or more digits, which the RFC 3339 parser does not accept,
/// so such timestamps are rejected in verified code before this call.
#[verifier::external_body]
pub(crate) fn format_rfc3339(t: i64) -> (r: Option<String>)
    requires
        rfc3339_representable(t),
    ensures
        r is Some,
        r matches Some(s) ==> s@ == rfc3339_of(t) && rfc3339_value_of(s@) == Some(t),
{
    chrono::DateTime::<chrono::Utc>::from_timestamp(t, 0).map(|d| d.to_rfc3339())
}

/// Relies on `chrono::DateTime::parse_from_rfc3339` and
/// `DateTime::timestamp`; the outcome depends on the text alone.
#[verifier::external_body]
pub(crate) fn parse_rfc3339(s: &str) -> (r: Option<i64>)
    ensures
        r == rfc3339_value_of(s@),
{
    match chrono::DateTime::parse_from_rfc3339(s) {
        Ok(d) => Some(d.timestamp()),
        Err(_) => None,
    }
}

} // verus!
