//! The errors that the library returns.

use vstd::prelude::*;

verus! {

/// A year, month and day that do not make a date.
#[derive(Clone, Copy, Debug, PartialEq, Eq, Structural)]
pub enum InvalidCalendarDate {
    /// The year lies outside `MIN_YEAR..=MAX_YEAR`.
    YearOutOfRange,
    /// The month of that year has no such day.
    DayOutOfRange,
}

/// A text that is not a date written as `dd/mm/yyyy`.
#[derive(Clone, Copy, Debug, PartialEq, Eq, Structural)]
pub enum DateParseError {
    /// The text is not two digits, a slash, two digits, a slash, four digits.
    PatternMismatch,
    /// The month is not one of 01 to 12.
    MonthOutOfRange,
    /// The month of that year has no such day.
    DayOutOfRange,
}

/// An error of a validator's own making: not a rejection of the date, but a
/// failure to judge it.
#[derive(Clone, Debug, PartialEq, Eq)]
pub struct CustomUserError {
    /// What went wrong, in the validator's words.
    pub message: String,
}

/// The errors that end a prompt.
#[derive(Clone, Debug, PartialEq, Eq)]
pub enum InquireError {
    /// The prompt's settings contradict each other; the text says how.
    InvalidConfiguration(String),
    /// A validator failed while judging the answer.
    Custom(CustomUserError),
}

} // verus!
