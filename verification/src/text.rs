//! Dates as text, in the fixed pattern `dd/mm/yyyy`.
//!
//! The pattern is two digits for the day, two for the month and four for the
//! year, separated by slashes; nothing else is accepted. Formatting writes
//! the same pattern, so a formatted date of a year from 0 on parses back to
//! itself. A year before 0 is written with a minus sign before its four
//! digits, which the pattern does not admit.

use crate::calendar::{days_in_month, CivilDate};
use crate::date::CalendarDate;
use crate::error::DateParseError;
use crate::month::Month;
use vstd::prelude::*;
use vstd::string::*;

verus! {

/// The character of a decimal digit, for `n` from 0 to 9.
pub open spec fn digit_char(n: int) -> char {
    ('0' as int + n) as char
}

/// Whether a character is one of the ASCII digits `0` to `9`.
pub open spec fn is_digit(c: char) -> bool {
    '0' <= c <= '9'
}

/// The value of an ASCII digit.
pub open spec fn digit_value(c: char) -> int {
    c as int - '0' as int
}

/// A number from 0 to 99 as two digits.
pub open spec fn two_digits(n: int) -> Seq<char> {
    seq![digit_char(n / 10), digit_char(n % 10)]
}

/// A number from 0 to 9999 as four digits.
pub open spec fn four_digits(n: int) -> Seq<char> {
    two_digits(n / 100) + two_digits(n % 100)
}

/// A year as text: four digits, after a minus sign for a year before 0.
pub open spec fn year_text(year: int) -> Seq<char> {
    if year < 0 {
        seq!['-'] + four_digits(-year)
    } else {
        four_digits(year)
    }
}

/// A date as text: day, month and year, separated by slashes.
pub open spec fn format_date(date: CivilDate) -> Seq<char> {
    two_digits(date.day) + seq!['/'] + two_digits(date.month) + seq!['/'] + year_text(date.year)
}

/// Whether a text is two digits, a slash, two digits, a slash, four digits.
pub open spec fn matches_pattern(text: Seq<char>) -> bool {
    &&& text.len() == 10
    &&& is_digit(text[0])
    &&& is_digit(text[1])
    &&& text[2] == '/'
    &&& is_digit(text[3])
    &&& is_digit(text[4])
    &&& text[5] == '/'
    &&& is_digit(text[6])
    &&& is_digit(text[7])
    &&& is_digit(text[8])
    &&& is_digit(text[9])
}

/// The number that the two digits at `at` and `at + 1` write.
pub open spec fn number_at(text: Seq<char>, at: int) -> int {
    10 * digit_value(text[at]) + digit_value(text[at + 1])
}

/// The date that a text writes, or why it writes none.
pub open spec fn parse_date(text: Seq<char>) -> Result<CivilDate, DateParseError> {
    let day = number_at(text, 0);
    let month = number_at(text, 3);
    let year = 100 * number_at(text, 6) + number_at(text, 8);
    if !matches_pattern(text) {
        Err(DateParseError::PatternMismatch)
    } else if !(1 <= month <= 12) {
        Err(DateParseError::MonthOutOfRange)
    } else if !(1 <= day <= days_in_month(year, month)) {
        Err(DateParseError::DayOutOfRange)
    } else {
        Ok(CivilDate { year, month, day })
    }
}

/// A result of reading, with the date taken by its model.
pub open spec fn civil_result(parsed: Result<CalendarDate, DateParseError>) -> Result<
    CivilDate,
    DateParseError,
> {
    match parsed {
        Ok(date) => Ok(date@),
        Err(e) => Err(e),
    }
}

/// A formatted date parses back to the date it was made from, for every
/// valid date of a year from 0 on.
pub proof fn lemma_parse_format_roundtrip(date: CivilDate)
    requires
        date.is_valid(),
        date.year >= 0,
    ensures
        parse_date(format_date(date)) == Ok::<CivilDate, DateParseError>(date),
{
    let text = format_date(date);
    assert(text.len() == 10);
    assert(text[0] == digit_char(date.day / 10));
    assert(text[1] == digit_char(date.day % 10));
    assert(text[2] == '/');
    assert(text[3] == digit_char(date.month / 10));
    assert(text[4] == digit_char(date.month % 10));
    assert(text[5] == '/');
    assert(text[6] == digit_char(date.year / 100 / 10));
    assert(text[7] == digit_char(date.year / 100 % 10));
    assert(text[8] == digit_char(date.year % 100 / 10));
    assert(text[9] == digit_char(date.year % 100 % 10));
}

/// The ASCII code of the digit `0`.
const ZERO: u8 = 48;

/// The ASCII code of the digit `9`.
const NINE: u8 = 57;

/// The ASCII code of the slash.
const SLASH: u8 = 47;

/// Whether a byte is one of the ASCII digits.
fn is_digit_byte(byte: u8) -> (digit: bool)
    ensures
        digit == (ZERO <= byte <= NINE),
{
    ZERO <= byte && byte <= NINE
}

/// Reads a date written as `dd/mm/yyyy`.
///
/// The text must be exactly two digits, a slash, two digits, a slash and
/// four digits, and must name a day that its month has.
pub fn parse(text: &str) -> (parsed: Result<CalendarDate, DateParseError>)
    ensures
        civil_result(parsed) == parse_date(text@),
{
    broadcast use is_ascii_spec_bytes;

    if !text.is_ascii() {
        assert(!matches_pattern(text@));
        return Err(DateParseError::PatternMismatch);
    }
    let bytes = text.as_bytes();
    if bytes.len() != 10 {
        return Err(DateParseError::PatternMismatch);
    }
    assert(forall|i: int| 0 <= i < 10 ==> bytes@[i] == text@[i] as u8);
    if !(is_digit_byte(bytes[0]) && is_digit_byte(bytes[1]) && bytes[2] == SLASH && is_digit_byte(
        bytes[3],
    ) && is_digit_byte(bytes[4]) && bytes[5] == SLASH && is_digit_byte(bytes[6]) && is_digit_byte(
        bytes[7],
    ) && is_digit_byte(bytes[8]) && is_digit_byte(bytes[9])) {
        return Err(DateParseError::PatternMismatch);
    }
    let day: u8 = 10 * (bytes[0] - ZERO) + (bytes[1] - ZERO);
    let month: u8 = 10 * (bytes[3] - ZERO) + (bytes[4] - ZERO);
    let century: u8 = 10 * (bytes[6] - ZERO) + (bytes[7] - ZERO);
    let decade: u8 = 10 * (bytes[8] - ZERO) + (bytes[9] - ZERO);
    let year: i32 = 100 * (century as i32) + decade as i32;
    let month = match Month::from_number(month) {
        Some(month) => month,
        None => {
            return Err(DateParseError::MonthOutOfRange);
        },
    };
    match CalendarDate::from_calendar_date(year, month, day) {
        Ok(date) => Ok(date),
        Err(_) => Err(DateParseError::DayOutOfRange),
    }
}

/// Appends the digit of `n` to a text.
fn push_digit(text: &mut String, n: u8)
    requires
        n <= 9,
    ensures
        final(text)@ == old(text)@.push(digit_char(n as int)),
{
    let digits = "0123456789";
    proof {
        reveal_strlit("0123456789");
    }
    let at = n as usize;
    text.append(digits.substring_ascii(at, at + 1));
    assert(digits@.subrange(at as int, at + 1) =~= seq![digit_char(n as int)]);
}

/// Appends a number from 0 to 99 as two digits.
fn push_two_digits(text: &mut String, n: u8)
    requires
        n <= 99,
    ensures
        final(text)@ == old(text)@ + two_digits(n as int),
{
    push_digit(text, n / 10);
    push_digit(text, n % 10);
}

/// Writes a date as `dd/mm/yyyy`, each number padded with zeros. A year
/// before 0 is written with a minus sign before its four digits.
pub fn format(date: CalendarDate) -> (text: String)
    ensures
        text@ == format_date(date@),
{
    proof {
        use_type_invariant(&date);
    }
    let mut text = String::new();
    push_two_digits(&mut text, date.day());
    proof {
        reveal_strlit("/");
        reveal_strlit("-");
    }
    text.append("/");
    push_two_digits(&mut text, date.month().to_number());
    text.append("/");
    let year: i32 = date.year();
    let magnitude: i32 = if year < 0 {
        text.append("-");
        -year
    } else {
        year
    };
    push_two_digits(&mut text, (magnitude / 100) as u8);
    push_two_digits(&mut text, (magnitude % 100) as u8);
    assert(text@ =~= format_date(date@));
    text
}

} // verus!
