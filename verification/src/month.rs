//! Months and weekdays.

use vstd::prelude::*;

verus! {

/// A month of the year.
#[derive(Clone, Copy, Debug, PartialEq, Eq, PartialOrd, Ord, Hash, Structural)]
pub enum Month {
    January,
    February,
    March,
    April,
    May,
    June,
    July,
    August,
    September,
    October,
    November,
    December,
}

/// A day of the week.
#[derive(Clone, Copy, Debug, PartialEq, Eq, Hash, Structural)]
pub enum Weekday {
    Sunday,
    Monday,
    Tuesday,
    Wednesday,
    Thursday,
    Friday,
    Saturday,
}

impl Month {
    /// The month's number in the year: 1 for January up to 12 for December.
    pub open spec fn number(self) -> int {
        match self {
            Month::January => 1,
            Month::February => 2,
            Month::March => 3,
            Month::April => 4,
            Month::May => 5,
            Month::June => 6,
            Month::July => 7,
            Month::August => 8,
            Month::September => 9,
            Month::October => 10,
            Month::November => 11,
            Month::December => 12,
        }
    }

    /// The month's number in the year, from 1 to 12.
    pub fn to_number(self) -> (n: u8)
        ensures
            n == self.number(),
    {
        match self {
            Month::January => 1,
            Month::February => 2,
            Month::March => 3,
            Month::April => 4,
            Month::May => 5,
            Month::June => 6,
            Month::July => 7,
            Month::August => 8,
            Month::September => 9,
            Month::October => 10,
            Month::November => 11,
            Month::December => 12,
        }
    }

    /// The month with the given number, if there is one.
    pub fn from_number(n: u8) -> (month: Option<Month>)
        ensures
            month is Some <==> 1 <= n <= 12,
            month matches Some(m) ==> m.number() == n,
    {
        if 1 <= n && n <= 12 {
            Some(get_month(n))
        } else {
            None
        }
    }
}

/// The month with the given number, from 1 for January to 12 for December.
pub fn get_month(month: u8) -> (named: Month)
    requires
        1 <= month <= 12,
    ensures
        named.number() == month,
{
    if month == 1 {
        Month::January
    } else if month == 2 {
        Month::February
    } else if month == 3 {
        Month::March
    } else if month == 4 {
        Month::April
    } else if month == 5 {
        Month::May
    } else if month == 6 {
        Month::June
    } else if month == 7 {
        Month::July
    } else if month == 8 {
        Month::August
    } else if month == 9 {
        Month::September
    } else if month == 10 {
        Month::October
    } else if month == 11 {
        Month::November
    } else {
        Month::December
    }
}

/// Two months with the same number are the same month.
pub proof fn lemma_month_number_injective(a: Month, b: Month)
    ensures
        1 <= a.number() <= 12,
        a.number() == b.number() <==> a == b,
{
}

} // verus!
