//! A calendar date picker: a date value type over the proleptic Gregorian
//! calendar, a `dd/mm/yyyy` text adapter, and the selection state of a
//! date-select prompt with range enforcement and validator-driven submission.
//!
//! Every executable function is verified against a contract stated over the
//! mathematical model in [`calendar`]. The few facts taken on trust about the
//! `time` crate are gathered in [`timelib`].

pub mod action;
pub mod calendar;
pub mod config;
pub mod date;
pub mod date_utils;
pub mod error;
pub mod month;
pub mod prompt;
pub mod range;
pub mod text;
pub mod timelib;
pub mod validator;

pub use crate::action::{ActionResult, DateSelectPromptAction};
pub use crate::config::DateSelectConfig;
pub use crate::date::CalendarDate;
pub use crate::date_utils::{
    display_month_fr, get_current_date, get_start_date, today_from, DateFromStr,
};
pub use crate::error::{CustomUserError, DateParseError, InquireError, InvalidCalendarDate};
pub use crate::month::{Month, Weekday};
pub use crate::prompt::{DateSelect, DateSelectPrompt, RenderContract};
pub use crate::validator::{ErrorMessage, Validation};
