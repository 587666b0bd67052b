//! The calendar date value.

use crate::calendar::{
    day_in_range, lemma_julian_day_bounds, lemma_plus_days_unique, ymd, CivilDate, MAX_YEAR,
    MIN_YEAR,
};
use crate::error::InvalidCalendarDate;
use crate::month::{get_month, lemma_month_number_injective, Month};
use crate::timelib::{date_plus_days, month_length};
use std::cmp::Ordering;
use vstd::pervasive::unreached;
use vstd::prelude::*;
use vstd::std_specs::cmp::PartialOrdSpecImpl;

verus! {

/// A date of the proleptic Gregorian calendar, in the years `MIN_YEAR` to
/// `MAX_YEAR`. Every value is a date that exists: the day is one of its month.
#[derive(Clone, Copy, Debug, PartialEq, Eq, Ord, Hash, Structural)]
pub struct CalendarDate {
    year: i32,
    month: Month,
    day: u8,
}

impl View for CalendarDate {
    type V = CivilDate;

    closed spec fn view(&self) -> CivilDate {
        ymd(self.year as int, self.month.number(), self.day as int)
    }
}

impl CalendarDate {
    /// Every date value is valid.
    #[verifier::type_invariant]
    pub open spec fn well_formed(self) -> bool {
        self@.is_valid()
    }

    /// Makes a date of a year, a month and a day, if there is such a date.
    pub fn from_calendar_date(year: i32, month: Month, day: u8) -> (made: Result<
        CalendarDate,
        InvalidCalendarDate,
    >)
        ensures
            made is Ok <==> ymd(year as int, month.number(), day as int).is_valid(),
            made matches Ok(date) ==> date@ == ymd(year as int, month.number(), day as int),
            made matches Err(e) ==> e == if MIN_YEAR <= year <= MAX_YEAR {
                InvalidCalendarDate::DayOutOfRange
            } else {
                InvalidCalendarDate::YearOutOfRange
            },
    {
        if year < MIN_YEAR || year > MAX_YEAR {
            return Err(InvalidCalendarDate::YearOutOfRange);
        }
        if day < 1 || day > month_length(year, month.to_number()) {
            return Err(InvalidCalendarDate::DayOutOfRange);
        }
        Ok(CalendarDate { year, month, day })
    }

    /// Makes a date of a year, a month and a day that are known to make one.
    pub(crate) fn from_valid_parts(year: i32, month: Month, day: u8) -> (date: CalendarDate)
        requires
            ymd(year as int, month.number(), day as int).is_valid(),
        ensures
            date@ == ymd(year as int, month.number(), day as int),
    {
        CalendarDate { year, month, day }
    }

    /// The date `days` days later (earlier, for a negative count), or `None`
    /// where that day lies outside the supported years.
    pub fn checked_add_days(self, days: i32) -> (sum: Option<CalendarDate>)
        ensures
            sum is Some <==> day_in_range(self@.julian_day() + days),
            sum matches Some(date) ==> date@ == self@.plus_days(days as int),
            sum matches Some(date) ==> date@.julian_day() == self@.julian_day() + days,
    {
        proof {
            use_type_invariant(&self);
        }
        match date_plus_days(self.year, self.month.to_number(), self.day, days) {
            Some((year, month, day)) => {
                let date = CalendarDate { year, month: get_month(month), day };
                proof {
                    lemma_plus_days_unique(self@, days as int, date@);
                }
                Some(date)
            },
            None => None,
        }
    }

    /// The date `days` days later (earlier, for a negative count). That day
    /// must lie within the supported years; `checked_add_days` finds out
    /// whether it does.
    pub fn add_days(self, days: i32) -> (sum: CalendarDate)
        requires
            day_in_range(self@.julian_day() + days),
        ensures
            sum@ == self@.plus_days(days as int),
            sum@.julian_day() == self@.julian_day() + days,
    {
        match self.checked_add_days(days) {
            Some(date) => date,
            None => unreached(),
        }
    }

    /// The date `weeks` weeks later (earlier, for a negative count). That
    /// day must lie within the supported years.
    pub fn add_weeks(self, weeks: i32) -> (sum: CalendarDate)
        requires
            day_in_range(self@.julian_day() + 7 * weeks),
        ensures
            sum@ == self@.plus_days(7 * weeks),
            sum@.julian_day() == self@.julian_day() + 7 * weeks,
    {
        proof {
            use_type_invariant(&self);
            lemma_julian_day_bounds(self@);
        }
        self.add_days(7 * weeks)
    }

    /// The date `delta` months later (earlier, for a negative count). A day
    /// that the target month lacks becomes that month's last day; where the
    /// target year is not supported, the date is returned unchanged.
    pub fn shift_months(self, delta: i32) -> (shifted: CalendarDate)
        ensures
            shifted@ == self@.shift_months(delta as int),
    {
        proof {
            use_type_invariant(&self);
        }
        let month: i64 = self.month.to_number() as i64;
        let index: i64 = self.year as i64 * 12 + (month - 1) + delta as i64;
        // Shift the index by a whole number of years so that it is positive
        // and division rounds as the calendar needs.
        let cycle: i64 = 200_000_000;
        let lifted: i64 = index + 12 * cycle;
        let year: i64 = lifted / 12 - cycle;
        let month: i64 = lifted % 12 + 1;
        if year < MIN_YEAR as i64 || year > MAX_YEAR as i64 {
            return self;
        }
        let last: u8 = month_length(year as i32, month as u8);
        let day: u8 = if self.day > last {
            last
        } else {
            self.day
        };
        CalendarDate { year: year as i32, month: get_month(month as u8), day }
    }

    /// The year.
    pub fn year(&self) -> (year: i32)
        ensures
            year == self@.year,
    {
        self.year
    }

    /// The month.
    pub fn month(&self) -> (month: Month)
        ensures
            month.number() == self@.month,
    {
        self.month
    }

    /// The day of the month.
    pub fn day(&self) -> (day: u8)
        ensures
            day == self@.day,
    {
        self.day
    }
}

impl PartialOrd for CalendarDate {
    /// Orders dates by year, then month, then day.
    fn partial_cmp(&self, other: &CalendarDate) -> (order: Option<Ordering>) {
        let month = self.month.to_number();
        let other_month = other.month.to_number();
        if self.year < other.year {
            Some(Ordering::Less)
        } else if self.year > other.year {
            Some(Ordering::Greater)
        } else if month < other_month {
            Some(Ordering::Less)
        } else if month > other_month {
            Some(Ordering::Greater)
        } else if self.day < other.day {
            Some(Ordering::Less)
        } else if self.day > other.day {
            Some(Ordering::Greater)
        } else {
            Some(Ordering::Equal)
        }
    }
}

impl PartialOrdSpecImpl for CalendarDate {
    open spec fn obeys_partial_cmp_spec() -> bool {
        true
    }

    open spec fn partial_cmp_spec(&self, other: &CalendarDate) -> Option<Ordering> {
        if self@.before(other@) {
            Some(Ordering::Less)
        } else if other@.before(self@) {
            Some(Ordering::Greater)
        } else {
            Some(Ordering::Equal)
        }
    }
}

/// Dates with the same year, month and day are the same value.
pub proof fn lemma_view_injective(a: CalendarDate, b: CalendarDate)
    ensures
        a@ == b@ <==> a == b,
{
    lemma_month_number_injective(a.month, b.month);
}

} // verus!
