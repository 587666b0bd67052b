//! What this library takes from the `time` crate, and what it assumes of it.
//!
//! Each function below is a thin call into `time` on plain integers. Its
//! contract is believed, not proved: it restates, over the model in
//! [`crate::calendar`], what the documentation and source of `time` show.

use crate::calendar::{day_in_range, days_in_month, ymd};
use vstd::prelude::*;

verus! {

/// Calls `time::util::days_in_month`.
///
/// Assumed: the result is the length of the month in the proleptic Gregorian
/// calendar, 28 to 31 days, with 29 days for February exactly in leap years.
#[verifier::external_body]
pub(crate) fn month_length(year: i32, month: u8) -> (days: u8)
    requires
        1 <= month <= 12,
    ensures
        days == days_in_month(year as int, month as int),
{
    let month = time::Month::try_from(month).unwrap();
    time::util::days_in_month(month, year)
}

/// Calls `time::Date::checked_add` with a duration of `days` whole days.
///
/// Assumed: the sum is the date whose Julian day number is that of the given
/// date plus `days`, and the call returns `None` exactly when that day lies
/// outside the range from `Date::MIN` to `Date::MAX`, which are 1 January
/// of `MIN_YEAR` and 31 December of `MAX_YEAR`.
#[verifier::external_body]
pub(crate) fn date_plus_days(year: i32, month: u8, day: u8, days: i32) -> (sum: Option<
    (i32, u8, u8),
>)
    requires
        ymd(year as int, month as int, day as int).is_valid(),
    ensures
        sum is Some <==> day_in_range(
            ymd(year as int, month as int, day as int).julian_day() + days,
        ),
        sum matches Some((y, m, d)) ==> {
            &&& ymd(y as int, m as int, d as int).is_valid()
            &&& ymd(y as int, m as int, d as int).julian_day() == ymd(
                year as int,
                month as int,
                day as int,
            ).julian_day() + days
        },
{
    let month = time::Month::try_from(month).unwrap();
    let date = time::Date::from_calendar_date(year, month, day).unwrap();
    let sum = date.checked_add(time::Duration::days(i64::from(days)))?;
    Some((sum.year(), u8::from(sum.month()), sum.day()))
}

/// Calls `time::OffsetDateTime::now_local` and takes the date of the result.
///
/// Assumed: whatever the clock and the time zone say, a date that is handed
/// back is a date of the calendar within the supported years (`time` holds
/// no other date, and panics on a clock beyond them). `None` stands for the
/// error that `time` returns when it cannot determine the local offset.
#[verifier::external_body]
pub(crate) fn local_today() -> (today: Option<(i32, u8, u8)>)
    ensures
        today matches Some((y, m, d)) ==> ymd(y as int, m as int, d as int).is_valid(),
{
    let date = time::OffsetDateTime::now_local().ok()?.date();
    Some((date.year(), u8::from(date.month()), date.day()))
}

/// Calls `time::OffsetDateTime::now_utc` and takes the date of the result.
///
/// Assumed: whatever the clock says, a date that is handed back is a date of
/// the calendar within the supported years (`time` holds no other date, and
/// panics on a clock beyond them).
#[verifier::external_body]
pub(crate) fn utc_today() -> (today: (i32, u8, u8))
    ensures
        ymd(today.0 as int, today.1 as int, today.2 as int).is_valid(),
{
    let date = time::OffsetDateTime::now_utc().date();
    (date.year(), u8::from(date.month()), date.day())
}

} // verus!
