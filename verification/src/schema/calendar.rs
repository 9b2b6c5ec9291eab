//! Calendar arithmetic and the text forms of dates and instants, as the
//! `chrono` crate computes them.

use vstd::prelude::*;
use chrono::{DateTime, NaiveDate, TimeDelta, Utc};

verus! {

/// The RFC 3339 text of the UTC instant that lies `seconds` whole seconds and
/// `nanoseconds` nanoseconds after 1970-01-01T00:00:00Z, as
/// `DateTime::<Utc>::from_timestamp` followed by `DateTime::to_rfc3339` gives
/// it; `None` where `from_timestamp` has no such instant.
pub uninterp spec fn utc_instant_text(seconds: int, nanoseconds: int) -> Option<Seq<char>>;

/// The text, as year, month and day, of the date that lies the whole days of
/// `milliseconds` after 1970-01-01, as `NaiveDate::from_ymd_opt` for that
/// day, `NaiveDate::checked_add_signed` with `TimeDelta::milliseconds` and
/// `NaiveDate::format` with `%Y-%m-%d` give it; `None` where the sum is out
/// of range.
pub uninterp spec fn epoch_date_text(milliseconds: int) -> Option<Seq<char>>;

/// Whether `NaiveDate::parse_from_str` reads `text` as a date in the given
/// `strftime` format.
pub uninterp spec fn date_text_accepted(text: Seq<char>, format: Seq<char>) -> bool;

/// Whether `DateTime::parse_from_rfc3339` reads `text` as an instant.
pub uninterp spec fn instant_text_accepted(text: Seq<char>) -> bool;

/// The characters of an optional string.
pub open spec fn text_of(s: Option<String>) -> Option<Seq<char>> {
    match s {
        Some(t) => Some(t@),
        None => None,
    }
}

/// The seconds since the epoch of the instants that the calendar of `chrono`
/// is sure to hold: eight million million seconds to either side of the
/// epoch, which is more than 250000 years and less than the 262000 years
/// that the calendar reaches.
pub open spec fn in_calendar(seconds: int) -> bool {
    -8_000_000_000_000 <= seconds <= 8_000_000_000_000
}

/// The seconds since the epoch of the instants of the years 0 to 9999: from
/// 0000-01-01T00:00:00Z to 9999-12-31T23:59:59Z.
pub open spec fn in_four_digit_years(seconds: int) -> bool {
    -62_167_219_200 <= seconds <= 253_402_300_799
}

/// Calls `DateTime::<Utc>::from_timestamp`, which returns `None` for seconds
/// out of range or an invalid nanosecond, and renders the instant with
/// `DateTime::to_rfc3339`. The result depends on the two numbers alone.
///
/// Two more facts are taken from the crate. Its calendar reaches from the
/// year -262143 to the year 262142, so that it has an instant for every
/// count of seconds `in_calendar` with less than a second of nanoseconds.
/// And its RFC 3339 parser, which reads a year of exactly four digits, reads
/// what `to_rfc3339` writes of an instant of the years 0 to 9999.
#[verifier::external_body]
pub(crate) fn rfc3339_from_timestamp(seconds: i64, nanoseconds: u32) -> (r: Option<String>)
    ensures
        text_of(r) == utc_instant_text(seconds as int, nanoseconds as int),
        in_calendar(seconds as int) && nanoseconds < 1_000_000_000 ==> r is Some,
        in_four_digit_years(seconds as int) && nanoseconds < 1_000_000_000 ==> r is Some
            && instant_text_accepted(r->Some_0@),
{
    let instant = DateTime::<Utc>::from_timestamp(seconds, nanoseconds)?;
    Some(instant.to_rfc3339())
}

/// Builds the start date with `NaiveDate::from_ymd_opt`, adds the whole days
/// of `TimeDelta::milliseconds(milliseconds)` with
/// `NaiveDate::checked_add_signed`, which returns `None` where the sum is out
/// of range, and renders the sum with `NaiveDate::format`. The contract
/// speaks of the start 1970-01-01 and the format `%Y-%m-%d` alone, for which
/// the result depends on the milliseconds alone. `TimeDelta::milliseconds`
/// panics on the smallest `i64`, and formatting panics on a malformed
/// format: both are left out.
///
/// Two more facts are taken from the crate. What it prints of a date in this
/// format, it reads again in this format. And its dates reach from the year
/// -262143 to the year 262142, so that 1970-01-01 with an offset of at most
/// 10^15 milliseconds, less than 32000 years, has a sum.
#[verifier::external_body]
pub(crate) fn shifted_date(year: i32, month: u32, day: u32, milliseconds: i64, format: &str) -> (r:
    Option<String>)
    requires
        year == 1970,
        month == 1,
        day == 1,
        milliseconds > i64::MIN,
        format@ == "%Y-%m-%d"@,
    ensures
        text_of(r) == epoch_date_text(milliseconds as int),
        r matches Some(text) ==> date_text_accepted(text@, format@),
        -1_000_000_000_000_000 <= milliseconds <= 1_000_000_000_000_000 ==> r is Some,
{
    let start = NaiveDate::from_ymd_opt(year, month, day)?;
    let sum = start.checked_add_signed(TimeDelta::milliseconds(milliseconds))?;
    Some(sum.format(format).to_string())
}

/// Calls `NaiveDate::parse_from_str` and tells whether it succeeded. The
/// answer depends on the two texts alone.
#[verifier::external_body]
pub(crate) fn parses_as_date(text: &str, format: &str) -> (ok: bool)
    ensures
        ok == date_text_accepted(text@, format@),
{
    NaiveDate::parse_from_str(text, format).is_ok()
}

/// Calls `DateTime::parse_from_rfc3339` and tells whether it succeeded. The
/// answer depends on the text alone.
#[verifier::external_body]
pub(crate) fn parses_as_instant(text: &str) -> (ok: bool)
    ensures
        ok == instant_text_accepted(text@),
{
    DateTime::parse_from_rfc3339(text).is_ok()
}

} // verus!
