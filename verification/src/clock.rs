//! Wall-clock time and RFC 3339 timestamps, in milliseconds since the Unix
//! epoch. The calendar arithmetic is chrono's; what the engine decides from a
//! time is decided on the plain number.

use vstd::prelude::*;

verus! {

/// Milliseconds in one day.
pub const MILLIS_PER_DAY: i64 = 86_400_000;

/// The instant an RFC 3339 text names, in milliseconds since the Unix epoch,
/// where the text is well formed.
pub uninterp spec fn rfc3339_millis(s: Seq<char>) -> Option<i64>;

/// The RFC 3339 text of an instant given in milliseconds since the Unix
/// epoch; empty where the instant is outside the calendar's range.
pub uninterp spec fn rfc3339_text(millis: i64) -> Seq<char>;

/// `chrono::Utc::now` read through `DateTime::timestamp_millis`: the current
/// wall-clock time. Nothing is promised of the value; two calls may even go
/// backwards when the system clock is set. chrono stops the program where
/// the system clock stands before 1970, which no precondition can exclude.
#[verifier::external_body]
pub(crate) fn now_millis() -> i64 {
    chrono::Utc::now().timestamp_millis()
}

/// `chrono::DateTime::parse_from_rfc3339`, read through
/// `DateTime::timestamp_millis`: `None` where chrono rejects the text. The
/// result depends on the text alone.
#[verifier::external_body]
pub(crate) fn parse_rfc3339(s: &str) -> (r: Option<i64>)
    ensures
        r == rfc3339_millis(s@),
{
    match chrono::DateTime::parse_from_rfc3339(s) {
        Ok(t) => Some(t.timestamp_millis()),
        Err(_) => None,
    }
}

/// `chrono::DateTime::from_timestamp_millis` followed by
/// `DateTime::to_rfc3339`: the UTC timestamp text of an instant. The result
/// depends on the number alone.
#[verifier::external_body]
pub(crate) fn format_rfc3339(millis: i64) -> (r: String)
    ensures
        r@ == rfc3339_text(millis),
{
    match chrono::DateTime::from_timestamp_millis(millis) {
        Some(t) => t.to_rfc3339(),
        None => String::new(),
    }
}

/// Whole days in a span of milliseconds, rounded toward zero.
pub open spec fn spec_whole_days(span_ms: int) -> int {
    if span_ms >= 0 {
        span_ms / (MILLIS_PER_DAY as int)
    } else {
        -((-span_ms) / (MILLIS_PER_DAY as int))
    }
}

/// Whole days between two instants, rounded toward zero.
pub fn whole_days_between(earlier_ms: i64, later_ms: i64) -> (d: i64)
    ensures
        d == spec_whole_days(later_ms as int - earlier_ms as int),
{
    let span: i128 = later_ms as i128 - earlier_ms as i128;
    if span >= 0 {
        (span / 86_400_000) as i64
    } else {
        (-((-span) / 86_400_000)) as i64
    }
}

/// The instant a timestamp text names.
pub fn timestamp_millis(s: &str) -> (r: Option<i64>)
    ensures
        r == rfc3339_millis(s@),
{
    parse_rfc3339(s)
}

/// The timestamp text of an instant.
pub fn timestamp_text(millis: i64) -> (r: String)
    ensures
        r@ == rfc3339_text(millis),
{
    format_rfc3339(millis)
}

} // verus!
