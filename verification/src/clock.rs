//! Instants in time and their textual forms.
//!
//! The library never reads a clock: callers hand it an instant. The calendar
//! arithmetic that turns an instant into text is done by the `chrono` crate.

use vstd::prelude::*;

verus! {

/// An instant: seconds since 1970-01-01T00:00:00Z, and nanoseconds into that
/// second.
#[derive(Debug, Clone, Copy, PartialEq, Eq, Structural)]
pub struct Timestamp {
    pub secs: i64,
    pub nanos: u32,
}

/// The UTC calendar time of an instant in the compact form
/// `YYYYMMDDThhmmssZ`, where the calendar can express that instant.
pub uninterp spec fn compact_utc(secs: int) -> Option<Seq<char>>;

/// The UTC calendar time of an instant in the RFC 3339 form
/// `YYYY-MM-DDThh:mm:ssZ`, where the calendar can express that instant.
pub uninterp spec fn rfc3339_utc(secs: int) -> Option<Seq<char>>;

/// `chrono::DateTime::format` with the pattern `%Y%m%dT%H%M%SZ`, on the UTC
/// date-time that `chrono::DateTime::from_timestamp` makes of `secs`. There is
/// no text where `from_timestamp` finds `secs` out of the calendar's range.
/// The text depends on `secs` alone.
#[verifier::external_body]
pub(crate) fn format_compact(secs: i64) -> (out: Option<String>)
    ensures
        match out {
            Some(s) => compact_utc(secs as int) == Some(s@),
            None => compact_utc(secs as int) is None,
        },
{
    match chrono::DateTime::from_timestamp(secs, 0) {
        Some(t) => Some(t.format("%Y%m%dT%H%M%SZ").to_string()),
        None => None,
    }
}

/// `chrono::DateTime::to_rfc3339_opts` with whole seconds and the `Z` suffix,
/// on the UTC date-time that `chrono::DateTime::from_timestamp` makes of
/// `secs`. There is no text where `from_timestamp` finds `secs` out of the
/// calendar's range. The text depends on `secs` alone.
#[verifier::external_body]
pub(crate) fn format_rfc3339(secs: i64) -> (out: Option<String>)
    ensures
        match out {
            Some(s) => rfc3339_utc(secs as int) == Some(s@),
            None => rfc3339_utc(secs as int) is None,
        },
{
    match chrono::DateTime::from_timestamp(secs, 0) {
        Some(t) => Some(t.to_rfc3339_opts(chrono::SecondsFormat::Secs, true)),
        None => None,
    }
}

} // verus!
