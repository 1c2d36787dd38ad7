//! Which dates and times of day exist, as chrono decides it.

use vstd::prelude::*;

verus! {

/// The first year that chrono's dates hold.
pub const MIN_YEAR: i32 = -262143;

/// The last year that chrono's dates hold.
pub const MAX_YEAR: i32 = 262142;

/// Leap years of the proleptic Gregorian calendar.
pub open spec fn is_leap_year(year: int) -> bool {
    year % 4 == 0 && (year % 100 != 0 || year % 400 == 0)
}

/// The number of days of a month; 0 where there is no such month.
pub open spec fn days_in_month(year: int, month: int) -> int {
    if month == 4 || month == 6 || month == 9 || month == 11 {
        30
    } else if month == 2 {
        if is_leap_year(year) {
            29
        } else {
            28
        }
    } else if 1 <= month <= 12 {
        31
    } else {
        0
    }
}

/// The day exists in the calendar, in a year that chrono can hold.
pub open spec fn is_calendar_date(year: int, month: int, day: int) -> bool {
    &&& MIN_YEAR <= year <= MAX_YEAR
    &&& 1 <= month <= 12
    &&& 1 <= day <= days_in_month(year, month)
}

/// The time of day exists, with the microsecond counted as chrono does: one
/// million or more for a leap second, which only second 59 can have.
pub open spec fn is_clock_time(hour: int, minute: int, second: int, microsecond: int) -> bool {
    &&& 0 <= hour < 24
    &&& 0 <= minute < 60
    &&& 0 <= second < 60
    &&& 0 <= microsecond < 2_000_000
    &&& (microsecond >= 1_000_000 ==> second == 59)
}

/// Calls `chrono::NaiveDate::from_ymd_opt` and reads the date back through
/// `Datelike::year`, `month` and `day`. Believed of chrono: it accepts
/// exactly the days of the proleptic Gregorian calendar between its first and
/// last year, and the date it returns has the fields it was given.
#[verifier::external_body]
pub(crate) fn checked_date(year: i32, month: u32, day: u32) -> (r: Option<(i32, u32, u32)>)
    ensures
        r == if is_calendar_date(year as int, month as int, day as int) {
            Some((year, month, day))
        } else {
            None
        },
{
    match chrono::NaiveDate::from_ymd_opt(year, month, day) {
        Some(d) => Some(
            (chrono::Datelike::year(&d), chrono::Datelike::month(&d), chrono::Datelike::day(&d)),
        ),
        None => None,
    }
}

/// Calls `chrono::NaiveTime::from_hms_micro_opt` and reads the time back
/// through `Timelike::hour`, `minute`, `second` and `nanosecond`. Believed of
/// chrono: it accepts exactly the times of `is_clock_time`, and the time it
/// returns has the hour, minute and second it was given and a thousand
/// nanoseconds for each microsecond.
#[verifier::external_body]
pub(crate) fn checked_time(hour: u32, minute: u32, second: u32, microsecond: u32) -> (r: Option<
    (u32, u32, u32, u32),
>)
    ensures
        r == if is_clock_time(hour as int, minute as int, second as int, microsecond as int) {
            Some((hour, minute, second, (microsecond * 1000) as u32))
        } else {
            None
        },
{
    match chrono::NaiveTime::from_hms_micro_opt(hour, minute, second, microsecond) {
        Some(t) => Some(
            (
                chrono::Timelike::hour(&t),
                chrono::Timelike::minute(&t),
                chrono::Timelike::second(&t),
                chrono::Timelike::nanosecond(&t),
            ),
        ),
        None => None,
    }
}

} // verus!
