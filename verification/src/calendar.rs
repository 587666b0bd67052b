//! The mathematical model of calendar dates.
//!
//! Everything here is ghost code: a date is a triple of integers, and the
//! proleptic Gregorian calendar is described by a handful of spec functions.
//! The lemmas relate the lexicographic order on dates to the count of days.

use vstd::prelude::*;

verus! {

/// The smallest year a date may carry.
pub const MIN_YEAR: i32 = -9999;

/// The largest year a date may carry.
pub const MAX_YEAR: i32 = 9999;

/// A year, month and day as unbounded integers: the model of a date.
pub struct CivilDate {
    pub year: int,
    pub month: int,
    pub day: int,
}

/// The date model with the given year, month and day.
pub open spec fn ymd(year: int, month: int, day: int) -> CivilDate {
    CivilDate { year, month, day }
}

/// Leap years are the multiples of 4 that are not multiples of 100, and the
/// multiples of 400 (astronomical year numbering: year 0 is a leap year).
pub open spec fn is_leap_year(year: int) -> bool {
    year % 4 == 0 && (year % 100 != 0 || year % 400 == 0)
}

/// The number of days of `month` (1 to 12) in `year`.
pub open spec fn days_in_month(year: int, month: int) -> int {
    if month == 2 {
        if is_leap_year(year) {
            29
        } else {
            28
        }
    } else if month == 4 || month == 6 || month == 9 || month == 11 {
        30
    } else {
        31
    }
}

/// The number of days of `year` that lie before the first of `month`.
pub open spec fn days_before_month(year: int, month: int) -> int
    decreases month,
{
    if month <= 1 {
        0
    } else {
        days_before_month(year, month - 1) + days_in_month(year, month - 1)
    }
}

/// The number of days from 1 January of year 1 up to, and not including,
/// 1 January of `year` (negative for years before 1).
pub open spec fn days_before_year(year: int) -> int {
    365 * (year - 1) + (year - 1) / 4 - (year - 1) / 100 + (year - 1) / 400
}

impl CivilDate {
    /// The month and the day exist in the calendar.
    pub open spec fn in_calendar(self) -> bool {
        &&& 1 <= self.month <= 12
        &&& 1 <= self.day <= days_in_month(self.year, self.month)
    }

    /// A date of the calendar whose year lies in `MIN_YEAR..=MAX_YEAR`.
    pub open spec fn is_valid(self) -> bool {
        &&& MIN_YEAR <= self.year <= MAX_YEAR
        &&& self.in_calendar()
    }

    /// The Julian day number: a count of days that grows by one from each
    /// date to the next. 1 January 2000 is day 2 451 545.
    pub open spec fn julian_day(self) -> int {
        days_before_year(self.year) + days_before_month(self.year, self.month) + self.day
            + 1_721_425
    }

    /// Strictly earlier, by year, then month, then day.
    pub open spec fn before(self, other: CivilDate) -> bool {
        ||| self.year < other.year
        ||| self.year == other.year && self.month < other.month
        ||| self.year == other.year && self.month == other.month && self.day < other.day
    }

    /// Earlier or equal.
    pub open spec fn at_most(self, other: CivilDate) -> bool {
        self.before(other) || self == other
    }

    /// The valid date that lies `days` days after this one (before it, for a
    /// negative count). There is exactly one such date where `day_in_range`
    /// holds of the target day number: see `lemma_plus_days` and
    /// `lemma_plus_days_unique`.
    pub open spec fn plus_days(self, days: int) -> CivilDate {
        choose|to: CivilDate| to.is_valid() && to.julian_day() == self.julian_day() + days
    }

    /// The day after this one.
    pub open spec fn next_day(self) -> CivilDate {
        if self.day < days_in_month(self.year, self.month) {
            CivilDate { day: self.day + 1, ..self }
        } else if self.month < 12 {
            CivilDate { year: self.year, month: self.month + 1, day: 1 }
        } else {
            CivilDate { year: self.year + 1, month: 1, day: 1 }
        }
    }

    /// The months from January of year 0 to the month of this date.
    pub open spec fn month_index(self) -> int {
        self.year * 12 + (self.month - 1)
    }

    /// The date `delta` months later (earlier, for a negative count). Years
    /// roll over at December and January. A day that the target month lacks
    /// becomes the last day of that month. Where the target year is not
    /// supported, the date stays as it is.
    pub open spec fn shift_months(self, delta: int) -> CivilDate {
        let index = self.month_index() + delta;
        let year = index / 12;
        let month = index % 12 + 1;
        let last = days_in_month(year, month);
        if MIN_YEAR <= year <= MAX_YEAR {
            CivilDate { year, month, day: if self.day > last { last } else { self.day } }
        } else {
            self
        }
    }
}

/// The earliest valid date.
pub open spec fn min_date() -> CivilDate {
    ymd(MIN_YEAR as int, 1, 1)
}

/// The latest valid date.
pub open spec fn max_date() -> CivilDate {
    ymd(MAX_YEAR as int, 12, 31)
}

/// Whether a day number is that of a valid date.
pub open spec fn day_in_range(julian_day: int) -> bool {
    min_date().julian_day() <= julian_day <= max_date().julian_day()
}

/// Dates are totally ordered by year, then month, then day.
pub proof fn lemma_before_is_total_order(a: CivilDate, b: CivilDate, c: CivilDate)
    ensures
        !a.before(a),
        a.before(b) && b.before(c) ==> a.before(c),
        a.before(b) || a == b || b.before(a),
        !(a.before(b) && b.before(a)),
{
}

/// The days before each month, written out.
pub proof fn lemma_days_before_month(year: int)
    ensures
        days_before_month(year, 1) == 0,
        days_before_month(year, 2) == 31,
        days_before_month(year, 3) == 59 + if is_leap_year(year) { 1int } else { 0int },
        days_before_month(year, 4) == 90 + if is_leap_year(year) { 1int } else { 0int },
        days_before_month(year, 5) == 120 + if is_leap_year(year) { 1int } else { 0int },
        days_before_month(year, 6) == 151 + if is_leap_year(year) { 1int } else { 0int },
        days_before_month(year, 7) == 181 + if is_leap_year(year) { 1int } else { 0int },
        days_before_month(year, 8) == 212 + if is_leap_year(year) { 1int } else { 0int },
        days_before_month(year, 9) == 243 + if is_leap_year(year) { 1int } else { 0int },
        days_before_month(year, 10) == 273 + if is_leap_year(year) { 1int } else { 0int },
        days_before_month(year, 11) == 304 + if is_leap_year(year) { 1int } else { 0int },
        days_before_month(year, 12) == 334 + if is_leap_year(year) { 1int } else { 0int },
        days_before_month(year, 13) == 365 + if is_leap_year(year) { 1int } else { 0int },
{
    reveal_with_fuel(days_before_month, 14);
}

/// A year has 365 days, and one more when it is a leap year.
pub proof fn lemma_year_length(year: int)
    ensures
        days_before_year(year + 1) - days_before_year(year) == days_before_month(year, 13),
{
    lemma_days_before_month(year);
}

/// Later years begin later.
pub proof fn lemma_days_before_year_monotonic(a: int, b: int)
    requires
        a <= b,
    ensures
        days_before_year(a) <= days_before_year(b),
        a < b ==> days_before_year(a + 1) <= days_before_year(b),
{
}

/// The order of dates is the order of their day numbers.
pub proof fn lemma_julian_day_order(a: CivilDate, b: CivilDate)
    requires
        a.in_calendar(),
        b.in_calendar(),
    ensures
        a.before(b) <==> a.julian_day() < b.julian_day(),
        a == b <==> a.julian_day() == b.julian_day(),
{
    lemma_days_before_month(a.year);
    lemma_days_before_month(b.year);
    if a.year < b.year {
        lemma_days_before_year_monotonic(a.year, b.year);
        lemma_year_length(a.year);
    } else if b.year < a.year {
        lemma_days_before_year_monotonic(b.year, a.year);
        lemma_year_length(b.year);
    }
}

/// The day numbers of valid dates lie between those of the earliest and the
/// latest valid date.
pub proof fn lemma_julian_day_bounds(date: CivilDate)
    requires
        date.is_valid(),
    ensures
        day_in_range(date.julian_day()),
        min_date().julian_day() == -1_930_999,
        max_date().julian_day() == 5_373_484,
{
    lemma_julian_day_order(min_date(), date);
    lemma_julian_day_order(date, max_date());
    lemma_days_before_month(MIN_YEAR as int);
    lemma_days_before_month(MAX_YEAR as int);
}

/// A valid date with the right day number is the date that `plus_days` names.
pub proof fn lemma_plus_days_unique(from: CivilDate, days: int, to: CivilDate)
    requires
        to.is_valid(),
        to.julian_day() == from.julian_day() + days,
    ensures
        from.plus_days(days) == to,
{
    lemma_julian_day_order(from.plus_days(days), to);
}

/// The day after a date of the calendar is a date of the calendar, and its
/// day number is one more.
pub proof fn lemma_next_day(date: CivilDate)
    requires
        date.in_calendar(),
    ensures
        date.next_day().in_calendar(),
        date.next_day().julian_day() == date.julian_day() + 1,
{
    lemma_days_before_month(date.year);
    lemma_days_before_month(date.year + 1);
    lemma_year_length(date.year);
}

/// Every day number in range is the day number of a valid date.
pub proof fn lemma_day_has_date(julian_day: int)
    requires
        day_in_range(julian_day),
    ensures
        exists|date: CivilDate| date.is_valid() && #[trigger] date.julian_day() == julian_day,
    decreases julian_day - min_date().julian_day(),
{
    if julian_day == min_date().julian_day() {
        assert(min_date().is_valid());
    } else {
        lemma_day_has_date(julian_day - 1);
        let before = choose|date: CivilDate|
            date.is_valid() && #[trigger] date.julian_day() == julian_day - 1;
        lemma_next_day(before);
        lemma_julian_day_order(before, max_date());
        assert(before.next_day().is_valid());
    }
}

/// Where the target day is in range, `plus_days` is a valid date with the
/// target's day number, and the only one.
pub proof fn lemma_plus_days(from: CivilDate, days: int)
    requires
        day_in_range(from.julian_day() + days),
    ensures
        from.plus_days(days).is_valid(),
        from.plus_days(days).julian_day() == from.julian_day() + days,
{
    lemma_day_has_date(from.julian_day() + days);
}

/// Moving by days and back by as many restores a valid date.
pub proof fn lemma_plus_days_back(from: CivilDate, days: int)
    requires
        from.is_valid(),
        day_in_range(from.julian_day() + days),
    ensures
        from.plus_days(days).plus_days(-days) == from,
{
    lemma_plus_days(from, days);
    lemma_plus_days_unique(from.plus_days(days), -days, from);
}

/// Moving by a positive number of days leads to a later date, by a negative
/// number to an earlier one, and by none to the date itself.
pub proof fn lemma_plus_days_order(from: CivilDate, days: int)
    requires
        from.is_valid(),
        day_in_range(from.julian_day() + days),
    ensures
        days > 0 <==> from.before(from.plus_days(days)),
        days < 0 <==> from.plus_days(days).before(from),
        days == 0 <==> from.plus_days(days) == from,
{
    lemma_plus_days(from, days);
    lemma_julian_day_order(from, from.plus_days(days));
    lemma_julian_day_order(from.plus_days(days), from);
}

/// Shifting by months and back by as many restores the date, provided that
/// the shift reached its target month and did not have to cut the day.
pub proof fn lemma_shift_months_back(date: CivilDate, delta: int)
    requires
        date.is_valid(),
        date.shift_months(delta).month_index() == date.month_index() + delta,
        date.shift_months(delta).day == date.day,
    ensures
        date.shift_months(delta).shift_months(-delta) == date,
{
}

/// Shifting by months and back need not restore the date: where the target
/// month is shorter the day is cut, and the way back does not lengthen it.
/// From 31 January 2021, one month on is 28 February, and one month back
/// from there is 28 January.
pub proof fn lemma_shift_months_back_may_differ()
    ensures
        exists|date: CivilDate, delta: int|
            date.is_valid() && #[trigger] date.shift_months(delta).shift_months(-delta) != date,
{
    let date = ymd(2021, 1, 31);
    assert(date.shift_months(1) == ymd(2021, 2, 28));
    assert(date.shift_months(1).shift_months(-1) == ymd(2021, 1, 28));
}

/// Shifting by months yields a valid date.
pub proof fn lemma_shift_months_valid(date: CivilDate, delta: int)
    requires
        date.is_valid(),
    ensures
        date.shift_months(delta).is_valid(),
{
}

} // verus!
