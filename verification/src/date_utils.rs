//! Helpers around dates: today's date, the first day of a month, month
//! names, and the date type that free-text prompts read and write.

use crate::calendar::{ymd, CivilDate, MAX_YEAR, MIN_YEAR};
use crate::date::CalendarDate;
use crate::error::DateParseError;
use crate::month::{get_month, Month};
use crate::text::{parse, parse_date};
use crate::timelib::{local_today, utc_today};
use std::str::FromStr;
use vstd::prelude::*;

verus! {

/// Today's date, chosen from what the clocks gave: the local date where the
/// local offset could be determined, else the date in UTC.
///
/// The UTC date is a fallback of lesser standing: near midnight it may
/// differ from the local date by one day.
pub fn today_from(local: Option<CalendarDate>, utc: CalendarDate) -> (today: CalendarDate)
    ensures
        today == match local {
            Some(date) => date,
            None => utc,
        },
{
    match local {
        Some(date) => date,
        None => utc,
    }
}

/// Today's date.
///
/// Both clocks are read, and [`today_from`] chooses between the readings:
/// the date in the local time zone where the local offset can be
/// determined, else the date in UTC.
pub fn get_current_date() -> (today: CalendarDate)
    ensures
        today.well_formed(),
{
    let local = match local_today() {
        Some((year, month, day)) => Some(
            CalendarDate::from_valid_parts(year, get_month(month), day),
        ),
        None => None,
    };
    let (year, month, day) = utc_today();
    let utc = CalendarDate::from_valid_parts(year, get_month(month), day);
    let today = today_from(local, utc);
    proof {
        use_type_invariant(&today);
    }
    today
}

/// The first day of a month.
pub fn get_start_date(month: Month, year: i32) -> (first: CalendarDate)
    requires
        MIN_YEAR <= year <= MAX_YEAR,
    ensures
        first@ == ymd(year as int, month.number(), 1),
{
    CalendarDate::from_valid_parts(year, month, 1)
}

/// The French name of a month, as a sequence of characters.
pub open spec fn month_name_fr(month: Month) -> Seq<char> {
    match month {
        Month::January => "Janvier"@,
        Month::February => "Février"@,
        Month::March => "Mars"@,
        Month::April => "Avril"@,
        Month::May => "Mai"@,
        Month::June => "Juin"@,
        Month::July => "Juillet"@,
        Month::August => "Août"@,
        Month::September => "Septembre"@,
        Month::October => "Octobre"@,
        Month::November => "Novembre"@,
        Month::December => "Décembre"@,
    }
}

/// The French name of a month.
pub fn display_month_fr(month: Month) -> (name: &'static str)
    ensures
        name@ == month_name_fr(month),
{
    match month {
        Month::January => "Janvier",
        Month::February => "Février",
        Month::March => "Mars",
        Month::April => "Avril",
        Month::May => "Mai",
        Month::June => "Juin",
        Month::July => "Juillet",
        Month::August => "Août",
        Month::September => "Septembre",
        Month::October => "Octobre",
        Month::November => "Novembre",
        Month::December => "Décembre",
    }
}

/// A date that can be read from text, for prompts that take typed input.
/// The text is the pattern `dd/mm/yyyy` of [`crate::text`].
#[derive(Clone, Copy, Debug, PartialEq, Eq, Structural)]
pub struct DateFromStr {
    /// The date that was read.
    pub date: CalendarDate,
}

impl DateFromStr {
    /// Reads a date written as `dd/mm/yyyy`.
    pub fn parse(text: &str) -> (parsed: Result<DateFromStr, DateParseError>)
        ensures
            parse_date(text@) == match parsed {
                Ok(read) => Ok::<CivilDate, DateParseError>(read.date@),
                Err(e) => Err(e),
            },
    {
        match parse(text) {
            Ok(date) => Ok(DateFromStr { date }),
            Err(e) => Err(e),
        }
    }

    /// Writes the date as `dd/mm/yyyy`.
    pub fn to_string(&self) -> (text: String)
        ensures
            text@ == crate::text::format_date(self.date@),
    {
        crate::text::format(self.date)
    }
}

impl FromStr for DateFromStr {
    type Err = DateParseError;

    /// Reads a date written as `dd/mm/yyyy`.
    fn from_str(text: &str) -> (parsed: Result<DateFromStr, DateParseError>)
        ensures
            parse_date(text@) == match parsed {
                Ok(read) => Ok::<CivilDate, DateParseError>(read.date@),
                Err(e) => Err(e),
            },
    {
        DateFromStr::parse(text)
    }
}

} // verus!
