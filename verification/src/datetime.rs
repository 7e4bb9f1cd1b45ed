//! Calendar validation and Unix-timestamp conversion.
//!
//! The wrapper-format header carries a packed date-time as six integer
//! fields.  Whether the fields form a real calendar date-time is stated
//! here directly; the conversion of a valid date-time to a Unix timestamp
//! is delegated to chrono.

use vstd::prelude::*;

verus! {

/// Whether `y` is a leap year of the proleptic Gregorian calendar.
pub open spec fn is_leap_year(y: int) -> bool {
    (y % 4 == 0 && y % 100 != 0) || y % 400 == 0
}

/// Number of days of month `m` of year `y`.
pub open spec fn days_in_month(y: int, m: int) -> int {
    if m == 4 || m == 6 || m == 9 || m == 11 {
        30
    } else if m == 2 {
        if is_leap_year(y) {
            29
        } else {
            28
        }
    } else {
        31
    }
}

/// Whether the six fields form a real calendar date-time.
pub open spec fn valid_datetime(y: int, mo: int, d: int, h: int, mi: int, s: int) -> bool {
    &&& 1 <= mo <= 12
    &&& 1 <= d <= days_in_month(y, mo)
    &&& 0 <= h < 24
    &&& 0 <= mi < 60
    &&& 0 <= s < 60
}

/// The Unix timestamp of the given UTC calendar date-time.
pub uninterp spec fn unix_timestamp_of(y: int, mo: int, d: int, h: int, mi: int, s: int) -> int;

/// Relies on chrono: `NaiveDate::from_ymd_opt` returns `Some` exactly for a
/// real calendar date (every u16 year lies within chrono's year range),
/// `NaiveTime::from_hms_opt` returns `Some` exactly for hour < 24,
/// minute < 60 and second < 60, and `NaiveDateTime::new`, `and_utc` and
/// `DateTime::timestamp` turn the pair into a Unix timestamp that depends
/// on the six fields alone.
#[verifier::external_body]
pub fn datetime_to_unix(year: u16, month: u8, day: u8, hour: u8, minute: u8, second: u8) -> (r:
    Option<i64>)
    ensures
        (r is Some) == valid_datetime(
            year as int,
            month as int,
            day as int,
            hour as int,
            minute as int,
            second as int,
        ),
        r is Some ==> r->0 == unix_timestamp_of(
            year as int,
            month as int,
            day as int,
            hour as int,
            minute as int,
            second as int,
        ),
{
    let date = chrono::NaiveDate::from_ymd_opt(year as i32, month as u32, day as u32)?;
    let time = chrono::NaiveTime::from_hms_opt(hour as u32, minute as u32, second as u32)?;
    Some(chrono::NaiveDateTime::new(date, time).and_utc().timestamp())
}

} // verus!
