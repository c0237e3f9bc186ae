//! Date formatting and parsing, delegated to chrono behind trusted wrappers.
//!
//! Timestamps run through the engine as plain Unix seconds (`i64`). What only
//! a calendar library can compute — RFC-7231 dates for the Sunset header, the
//! `YYYY-MM-DD` form used in notices, RFC 3339 text — is named here and
//! computed by chrono.

use vstd::prelude::*;

verus! {

/// Unix seconds the date formatters accept: comfortably inside the range that
/// chrono's `DateTime<Utc>` represents (about ±262,000 years from 1970).
pub open spec fn valid_unix_time(ts: i64) -> bool {
    -8000000000000 <= ts <= 8000000000000
}

/// The RFC-7231-style HTTP date (`Ddd, DD Mon YYYY HH:MM:SS GMT`) of a Unix
/// second, as chrono renders it.
pub uninterp spec fn http_date_of(ts: i64) -> Seq<char>;

/// Relies on chrono's `DateTime::<Utc>::from_timestamp` and `format` with
/// `"%a, %d %b %Y %H:%M:%S GMT"`: the text is a function of the timestamp
/// alone and ends with the format string's literal `GMT`.
#[verifier::external_body]
pub(crate) fn format_http_date(ts: i64) -> (r: String)
    requires
        valid_unix_time(ts),
    ensures
        r@ == http_date_of(ts),
        r@.len() >= 3,
        r@.subrange(r@.len() - 3, r@.len() as int) == "GMT"@,
{
    match chrono::DateTime::<chrono::Utc>::from_timestamp(ts, 0) {
        Some(dt) => dt.format("%a, %d %b %Y %H:%M:%S GMT").to_string(),
        None => String::new(),
    }
}

/// The `YYYY-MM-DD` date of a Unix second, as chrono renders it.
pub uninterp spec fn ymd_of(ts: i64) -> Seq<char>;

/// Relies on chrono's `DateTime::<Utc>::from_timestamp` and `format` with
/// `"%Y-%m-%d"`: the text is a function of the timestamp alone.
#[verifier::external_body]
pub(crate) fn format_ymd(ts: i64) -> (r: String)
    requires
        valid_unix_time(ts),
    ensures
        r@ == ymd_of(ts),
{
    match chrono::DateTime::<chrono::Utc>::from_timestamp(ts, 0) {
        Some(dt) => dt.format("%Y-%m-%d").to_string(),
        None => String::new(),
    }
}

/// The RFC 3339 text of a Unix second, as chrono renders it.
pub uninterp spec fn rfc3339_of(ts: i64) -> Seq<char>;

/// Relies on chrono's `DateTime::<Utc>::from_timestamp` and `to_rfc3339`: the
/// text is a function of the timestamp alone.
#[verifier::external_body]
pub(crate) fn format_rfc3339(ts: i64) -> (r: String)
    requires
        valid_unix_time(ts),
    ensures
        r@ == rfc3339_of(ts),
{
    match chrono::DateTime::<chrono::Utc>::from_timestamp(ts, 0) {
        Some(dt) => dt.to_rfc3339(),
        None => String::new(),
    }
}

/// The Unix second parsed from a date in the RFC 7231 shape with its trailing
/// ` GMT` already removed, or nothing where the text does not parse.
pub uninterp spec fn rfc7231_value(s: Seq<char>) -> Option<i64>;

/// Relies on chrono's `NaiveDateTime::parse_from_str` with
/// `"%a, %d %b %Y %H:%M:%S"`, `and_utc` and `timestamp`: the result is a
/// function of the text alone.
#[verifier::external_body]
pub(crate) fn parse_rfc7231_naive(s: &str) -> (r: Option<i64>)
    ensures
        r == rfc7231_value(s@),
{
    match chrono::NaiveDateTime::parse_from_str(s, "%a, %d %b %Y %H:%M:%S") {
        Ok(naive) => Some(naive.and_utc().timestamp()),
        Err(_) => None,
    }
}

/// The Unix second parsed from RFC 3339 / ISO 8601 text, or nothing where the
/// text does not parse.
pub uninterp spec fn rfc3339_value(s: Seq<char>) -> Option<i64>;

/// Relies on chrono's `FromStr` for `DateTime<Utc>` and `timestamp`: the
/// result is a function of the text alone.
#[verifier::external_body]
pub(crate) fn parse_rfc3339_text(s: &str) -> (r: Option<i64>)
    ensures
        r == rfc3339_value(s@),
{
    match s.parse::<chrono::DateTime<chrono::Utc>>() {
        Ok(dt) => Some(dt.timestamp()),
        Err(_) => None,
    }
}

/// Relies on chrono's `Utc::now` and `timestamp`: the current time as Unix
/// seconds. Nothing is promised of the value; callers hand it to functions
/// whose contracts hold for every time.
#[verifier::external_body]
pub(crate) fn now_unix() -> i64 {
    chrono::Utc::now().timestamp()
}

} // verus!
