//! Unix times written as text, through chrono's UTC date-times.

use vstd::prelude::*;
use vstd::string::StringExecFns;

verus! {

/// The earliest Unix time that a chrono UTC date-time reaches
/// (1 January of the year -262143, 00:00:00).
pub const MIN_UTC_TIMESTAMP: i64 = -8_334_601_228_800;

/// The latest Unix time that a chrono UTC date-time reaches
/// (31 December of the year 262142, 23:59:59).
pub const MAX_UTC_TIMESTAMP: i64 = 8_210_266_876_799;

/// Whether chrono can make a UTC date-time of `secs` seconds since the Unix
/// epoch.
pub open spec fn representable(secs: i64) -> bool {
    MIN_UTC_TIMESTAMP <= secs <= MAX_UTC_TIMESTAMP
}

/// The strftime patterns that the library writes times with.
pub open spec fn supported_pattern(pattern: Seq<char>) -> bool {
    ||| pattern == "%l%P"@
    ||| pattern == "%a %d/%m"@
    ||| pattern == "%H:%M"@
    ||| pattern == "Sunrise %H:%M"@
    ||| pattern == "Sunset %H:%M"@
}

/// The text that chrono writes for the UTC date-time `secs` seconds after the
/// Unix epoch with the strftime pattern `pattern`.
pub uninterp spec fn utc_text(secs: i64, pattern: Seq<char>) -> Seq<char>;

/// The hour of the day (0 to 23) in UTC, `secs` seconds after the Unix epoch.
pub open spec fn utc_hour(secs: int) -> int {
    (secs % 86400) / 3600
}

/// The minute of the hour (0 to 59) in UTC, `secs` seconds after the Unix
/// epoch.
pub open spec fn utc_minute(secs: int) -> int {
    (secs % 3600) / 60
}

/// The decimal digit for `d` (0 to 9).
pub open spec fn digit(d: int) -> char {
    seq!['0', '1', '2', '3', '4', '5', '6', '7', '8', '9'][d]
}

/// A number from 0 to 99 as two decimal digits, with a leading zero.
pub open spec fn two_digits(n: int) -> Seq<char> {
    seq![digit(n / 10), digit(n % 10)]
}

/// The hour on a 12-hour clock (1 to 12) for an hour of the day.
pub open spec fn twelve_hour_clock(hour: int) -> int {
    if hour % 12 == 0 {
        12
    } else {
        hour % 12
    }
}

/// What "%l%P" writes: the hour on a 12-hour clock, right-aligned in two
/// columns, then "am" or "pm" (such as " 3pm" or "12am").
pub open spec fn twelve_hour_text(secs: i64) -> Seq<char> {
    let hour = utc_hour(secs as int);
    let h = twelve_hour_clock(hour);
    (if h < 10 {
        seq![' ', digit(h)]
    } else {
        two_digits(h)
    }) + (if hour < 12 {
        "am"@
    } else {
        "pm"@
    })
}

/// What "%H:%M" writes: the hour of the day and the minute, each as two
/// digits (such as "07:05").
pub open spec fn clock_text(secs: i64) -> Seq<char> {
    two_digits(utc_hour(secs as int)) + ":"@ + two_digits(utc_minute(secs as int))
}

/// The text written for `secs` with `pattern`: stated for the clock
/// patterns, and chrono's text (`utc_text`) for the date pattern
/// "%a %d/%m".
pub open spec fn pattern_text(secs: i64, pattern: Seq<char>) -> Seq<char> {
    if pattern == "%l%P"@ {
        twelve_hour_text(secs)
    } else if pattern == "%H:%M"@ {
        clock_text(secs)
    } else if pattern == "Sunrise %H:%M"@ {
        "Sunrise "@ + clock_text(secs)
    } else if pattern == "Sunset %H:%M"@ {
        "Sunset "@ + clock_text(secs)
    } else {
        utc_text(secs, pattern)
    }
}

/// Calls `chrono::DateTime::from_timestamp_secs(secs)` and, where it gives a
/// date-time, writes it with `DateTime::format(pattern)` and `to_string`.
/// Claimed: the result is present exactly when `secs` lies in chrono's range
/// (`representable`); its text depends on `secs` and `pattern` alone
/// (`utc_text`); and for the clock patterns it is what chrono documents for
/// "%l" (hour on a 12-hour clock, space-padded to two columns), "%P" ("am" or
/// "pm"), "%H" and "%M" (zero-padded to two digits), of the UTC time of day
/// `secs.rem_euclid(86400)` (`pattern_text`). The date pattern "%a %d/%m" is
/// left to the name `utc_text`. The patterns are restricted to ones that
/// chrono accepts, so that writing them never fails.
#[verifier::external_body]
fn format_utc_timestamp(secs: i64, pattern: &str) -> (r: Option<String>)
    requires
        supported_pattern(pattern@),
    ensures
        r is Some <==> representable(secs),
        r matches Some(text) ==> text@ == utc_text(secs, pattern@),
        r matches Some(text) ==> text@ == pattern_text(secs, pattern@),
{
    match chrono::DateTime::from_timestamp_secs(secs) {
        Some(time) => Some(time.format(pattern).to_string()),
        None => None,
    }
}

/// The hour of day of a Unix time, as "%l%P" writes it (such as " 3pm").
pub fn hour_of_day_text(secs: i64) -> (r: String)
    requires
        representable(secs),
    ensures
        r@ == twelve_hour_text(secs),
{
    format_utc_timestamp(secs, "%l%P").unwrap()
}

/// The label of a Unix time written with `pattern`, or "Invalid Timestamp"
/// where chrono cannot make a date-time of it.
pub open spec fn timestamp_label_text(secs: i64, pattern: Seq<char>) -> Seq<char> {
    if representable(secs) {
        pattern_text(secs, pattern)
    } else {
        "Invalid Timestamp"@
    }
}

/// The label of a Unix time written with `pattern`, or "Invalid Timestamp"
/// where chrono cannot make a date-time of it.
pub fn timestamp_label(secs: i64, pattern: &str) -> (r: String)
    requires
        supported_pattern(pattern@),
    ensures
        r@ == timestamp_label_text(secs, pattern@),
{
    match format_utc_timestamp(secs, pattern) {
        Some(text) => text,
        None => String::from_str("Invalid Timestamp"),
    }
}

} // verus!
