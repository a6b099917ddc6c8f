//! Instants are milliseconds since the Unix epoch, in UTC.
use vstd::prelude::*;

verus! {

pub const HOUR_MS: i64 = 3_600_000;

pub const WEEK_MS: i64 = 604_800_000;

/// How long before unlocking the waitlist of the previous week is carried over.
pub const CARRYOVER_LEAD_MS: i64 = 30_000;

/// Bound on the instants this library handles; every `chrono::DateTime<Utc>`
/// lies within it.
pub const INSTANT_LIMIT_MS: i64 = 8_640_000_000_000_000;

pub open spec fn valid_instant(t: i64) -> bool {
    -INSTANT_LIMIT_MS <= t <= INSTANT_LIMIT_MS
}

/// Checks `valid_instant`.
pub fn is_valid_instant(t: i64) -> (r: bool)
    ensures
        r == valid_instant(t),
{
    -INSTANT_LIMIT_MS <= t && t <= INSTANT_LIMIT_MS
}

/// Relies on chrono's `Utc::now` and `DateTime::timestamp_millis`: the
/// current time, which chrono reads from the system clock as a duration since
/// the epoch and so never before it.
#[verifier::external_body]
pub(crate) fn now_millis() -> (r: i64)
    ensures
        0 <= r,
        valid_instant(r),
{
    chrono::Utc::now().timestamp_millis()
}

/// Relies on chrono's `Utc::now` and `Datelike::year`: the current calendar
/// year in UTC; the clock is never before the epoch, so never before 1970.
#[verifier::external_body]
pub(crate) fn current_year() -> (r: u32)
    ensures
        r >= 1970,
{
    chrono::Datelike::year(&chrono::Utc::now()) as u32
}

/// The instant, in milliseconds since the epoch, that chrono's
/// `NaiveDateTime::parse_from_str` reads from `text` under the strftime-style
/// format `fmt`, taken as UTC; `None` when it does not parse.
pub uninterp spec fn parsed_datetime(text: Seq<char>, fmt: Seq<char>) -> Option<i64>;

/// Relies on chrono's `NaiveDateTime::parse_from_str` and `and_utc`: the
/// result depends on the two texts alone and lies in chrono's date range.
#[verifier::external_body]
pub(crate) fn parse_datetime(text: &str, fmt: &str) -> (r: Option<i64>)
    ensures
        r == parsed_datetime(text@, fmt@),
        r is Some ==> valid_instant(r->0),
{
    match chrono::NaiveDateTime::parse_from_str(text, fmt) {
        Ok(d) => Some(d.and_utc().timestamp_millis()),
        Err(_) => None,
    }
}

/// The strftime-style format of a practice's heading on its sheet, such as
/// `Thursday, November 28 (07:00 PM)`.
pub open spec fn heading_format() -> Seq<char> {
    "%A, %B %d (%I:%M %p)"@
}

/// The text chrono's `DateTime::<Utc>::format` gives for the instant `ms`
/// under `fmt`; `None` when `ms` lies outside chrono's range.
pub uninterp spec fn formatted_datetime(ms: i64, fmt: Seq<char>) -> Option<Seq<char>>;

/// Relies on chrono's `DateTime::from_timestamp_millis` and
/// `DateTime::format`: the text depends on the instant and the format alone.
/// Only the heading format is passed, whose items chrono accepts, so writing
/// the text out cannot fail.
#[verifier::external_body]
pub(crate) fn format_datetime(ms: i64, fmt: &str) -> (r: Option<String>)
    requires
        fmt@ == heading_format(),
    ensures
        match r {
            Some(t) => formatted_datetime(ms, fmt@) == Some(t@),
            None => formatted_datetime(ms, fmt@) is None,
        },
{
    match chrono::DateTime::from_timestamp_millis(ms) {
        Some(d) => Some(d.format(fmt).to_string()),
        None => None,
    }
}

} // verus!
