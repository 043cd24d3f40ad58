//! Points in time, as milliseconds since the Unix epoch, read off text.

use vstd::prelude::*;

verus! {

/// The instant that a text in RFC 3339 form names, in UTC.
pub uninterp spec fn rfc3339_instant(text: Seq<char>) -> Option<i64>;

/// The first instant that the calendar reaches: the start of the year
/// -262143.
pub const EARLIEST_MILLIS: i64 = -8334601228800000;

/// The last instant that the calendar reaches: the last millisecond of the
/// year 262142.
pub const LATEST_MILLIS: i64 = 8210266876799999;

/// Whether the calendar reaches the instant `millis`.
pub open spec fn calendar_holds(millis: i64) -> bool {
    EARLIEST_MILLIS <= millis <= LATEST_MILLIS
}

/// The instant that `text` names when read as date and time of day in the
/// `strftime` format `format`, taken as UTC.
pub uninterp spec fn datetime_instant(text: Seq<char>, format: Seq<char>) -> Option<i64>;

/// The instant at which the day begins, in UTC, that `text` names when read
/// as a date in the `strftime` format `format`.
pub uninterp spec fn date_instant(text: Seq<char>, format: Seq<char>) -> Option<i64>;

/// The instant at which the given day of the proleptic Gregorian calendar
/// begins, in UTC, if there is such a day.
pub uninterp spec fn day_instant(year: i32, month: u32, day: u32) -> Option<i64>;

/// Reads a date and time in RFC 3339 form.
///
/// Trusted: calls `chrono::DateTime::parse_from_rfc3339`, moves the result to
/// UTC with `with_timezone` and reads it with `timestamp_millis`. The result
/// depends on the text alone. The contract names it and says nothing else of
/// it.
#[verifier::external_body]
pub(crate) fn parse_rfc3339(text: &str) -> (r: Option<i64>)
    ensures
        r == rfc3339_instant(text@),
{
    match chrono::DateTime::parse_from_rfc3339(text) {
        Ok(at) => Some(at.with_timezone(&chrono::Utc).timestamp_millis()),
        Err(_) => None,
    }
}

/// Gives `millis` back where the calendar reaches that instant.
///
/// Trusted: calls `chrono::DateTime::from_timestamp_millis`, which is `None`
/// for an instant outside the years -262143 to 262142 that chrono counts, and
/// reads the result with `timestamp_millis`, which gives the same number back.
#[verifier::external_body]
pub(crate) fn checked_millis(millis: i64) -> (r: Option<i64>)
    ensures
        r == if EARLIEST_MILLIS <= millis <= LATEST_MILLIS {
            Some(millis)
        } else {
            None
        },
{
    match chrono::DateTime::from_timestamp_millis(millis) {
        Some(at) => Some(at.timestamp_millis()),
        None => None,
    }
}

/// Reads a date with time of day in a given format.
///
/// Trusted: calls `chrono::NaiveDateTime::parse_from_str`, takes the result
/// as UTC with `and_utc` and reads it with `timestamp_millis`. The result
/// depends on the two texts alone. The contract names it and says nothing
/// else of it.
#[verifier::external_body]
pub(crate) fn parse_datetime(text: &str, format: &str) -> (r: Option<i64>)
    ensures
        r == datetime_instant(text@, format@),
{
    match chrono::NaiveDateTime::parse_from_str(text, format) {
        Ok(at) => Some(at.and_utc().timestamp_millis()),
        Err(_) => None,
    }
}

/// Reads a date in a given format.
///
/// Trusted: calls `chrono::NaiveDate::parse_from_str`, takes midnight of the
/// result with `and_hms_opt(0, 0, 0)` as UTC with `and_utc` and reads it with
/// `timestamp_millis`. The result depends on the two texts alone. The
/// contract names it and says nothing else of it.
#[verifier::external_body]
pub(crate) fn parse_date(text: &str, format: &str) -> (r: Option<i64>)
    ensures
        r == date_instant(text@, format@),
{
    match chrono::NaiveDate::parse_from_str(text, format) {
        Ok(day) => day.and_hms_opt(0, 0, 0).map(|at| at.and_utc().timestamp_millis()),
        Err(_) => None,
    }
}

/// The start of a day of the calendar.
///
/// Trusted: calls `chrono::NaiveDate::from_ymd_opt`, which is `None` where
/// the calendar has no such day, takes midnight of the result with
/// `and_hms_opt(0, 0, 0)` as UTC with `and_utc` and reads it with
/// `timestamp_millis`. The contract names the result and says nothing else of
/// it.
#[verifier::external_body]
pub(crate) fn start_of_day(year: i32, month: u32, day: u32) -> (r: Option<i64>)
    ensures
        r == day_instant(year, month, day),
{
    match chrono::NaiveDate::from_ymd_opt(year, month, day) {
        Some(date) => date.and_hms_opt(0, 0, 0).map(|at| at.and_utc().timestamp_millis()),
        None => None,
    }
}

} // verus!
