//! The navigation steps of the calendar, and the date each one leads to.

use crate::calendar::{day_in_range, CivilDate};
use crate::date::CalendarDate;
use vstd::prelude::*;

verus! {

/// One step of navigation in the calendar.
#[derive(Clone, Copy, Debug, PartialEq, Eq, Hash, Structural)]
pub enum DateSelectPromptAction {
    /// Move to the same weekday of the previous week.
    GoToPrevWeek,
    /// Move to the same weekday of the next week.
    GoToNextWeek,
    /// Move to the day before.
    GoToPrevDay,
    /// Move to the day after.
    GoToNextDay,
    /// Move to the same month of the previous year.
    GoToPrevYear,
    /// Move to the same month of the next year.
    GoToNextYear,
    /// Move to the previous month.
    GoToPrevMonth,
    /// Move to the next month.
    GoToNextMonth,
}

/// What a step did to what is shown.
#[derive(Clone, Copy, Debug, PartialEq, Eq, Hash, Structural)]
pub enum ActionResult {
    /// Nothing changed: no redraw is needed.
    Clean,
    /// Something changed: the prompt must be drawn again.
    NeedsRedraw,
}

impl DateSelectPromptAction {
    /// The number of days that a day or week step moves by; 0 for the others.
    pub open spec fn day_step(self) -> int {
        match self {
            DateSelectPromptAction::GoToPrevWeek => -7,
            DateSelectPromptAction::GoToNextWeek => 7,
            DateSelectPromptAction::GoToPrevDay => -1,
            DateSelectPromptAction::GoToNextDay => 1,
            _ => 0,
        }
    }

    /// The number of months that a month or year step moves by; 0 for the
    /// others.
    pub open spec fn month_step(self) -> int {
        match self {
            DateSelectPromptAction::GoToPrevYear => -12,
            DateSelectPromptAction::GoToNextYear => 12,
            DateSelectPromptAction::GoToPrevMonth => -1,
            DateSelectPromptAction::GoToNextMonth => 1,
            _ => 0,
        }
    }

    /// Whether the step moves by days or weeks, not by months or years.
    pub open spec fn moves_by_days(self) -> bool {
        self.day_step() != 0
    }
}

impl CivilDate {
    /// The date `days` days later (earlier, for a negative count), or this
    /// date itself where that day lies outside the supported years.
    pub open spec fn plus_days_or_stay(self, days: int) -> CivilDate {
        if day_in_range(self.julian_day() + days) {
            self.plus_days(days)
        } else {
            self
        }
    }

    /// The date that a step leads to, before any bound is applied. A step
    /// that would leave the supported years leads nowhere: the date stays.
    pub open spec fn advance(self, action: DateSelectPromptAction) -> CivilDate {
        if action.moves_by_days() {
            self.plus_days_or_stay(action.day_step())
        } else {
            self.shift_months(action.month_step())
        }
    }
}

/// The date `days` days after `current`, or `current` itself where that day
/// lies outside the supported years.
pub fn add_days_or_stay(current: CalendarDate, days: i32) -> (moved: CalendarDate)
    ensures
        moved@ == current@.plus_days_or_stay(days as int),
{
    match current.checked_add_days(days) {
        Some(moved) => moved,
        None => current,
    }
}

/// The date that a step leads to from `current`. Bounds are not applied
/// here: the result may lie outside the range that a prompt allows. A step
/// that would leave the supported years leads nowhere: the result is
/// `current`.
pub fn advance(current: CalendarDate, action: DateSelectPromptAction) -> (candidate: CalendarDate)
    ensures
        candidate@ == current@.advance(action),
{
    match action {
        DateSelectPromptAction::GoToPrevWeek => add_days_or_stay(current, -7),
        DateSelectPromptAction::GoToNextWeek => add_days_or_stay(current, 7),
        DateSelectPromptAction::GoToPrevDay => add_days_or_stay(current, -1),
        DateSelectPromptAction::GoToNextDay => add_days_or_stay(current, 1),
        DateSelectPromptAction::GoToPrevYear => current.shift_months(-12),
        DateSelectPromptAction::GoToNextYear => current.shift_months(12),
        DateSelectPromptAction::GoToPrevMonth => current.shift_months(-1),
        DateSelectPromptAction::GoToNextMonth => current.shift_months(1),
    }
}

} // verus!
