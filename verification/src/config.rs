//! The settings of a date-select prompt that stay fixed during a session.

use crate::date::CalendarDate;
use crate::month::Weekday;
use crate::prompt::DateSelect;
use vstd::prelude::*;
use vstd::std_specs::convert::FromSpecImpl;

verus! {

/// Configuration settings used in the execution of a date-select prompt.
#[derive(Copy, Clone, Debug)]
pub struct DateSelectConfig {
    /// Min date allowed to be selected.
    pub min_date: Option<CalendarDate>,
    /// Max date allowed to be selected.
    pub max_date: Option<CalendarDate>,
    /// Weekday to start the week on.
    pub week_start: Weekday,
}

impl<'a, V, F> From<&DateSelect<'a, V, F>> for DateSelectConfig {
    /// Takes the bounds and the first weekday from a prompt's options.
    fn from(value: &DateSelect<'a, V, F>) -> (config: DateSelectConfig) {
        DateSelectConfig {
            min_date: value.min_date,
            max_date: value.max_date,
            week_start: value.week_start,
        }
    }
}

impl<'a, V, F> FromSpecImpl<&DateSelect<'a, V, F>> for DateSelectConfig {
    open spec fn obeys_from_spec() -> bool {
        true
    }

    open spec fn from_spec(value: &DateSelect<'a, V, F>) -> DateSelectConfig {
        DateSelectConfig {
            min_date: value.min_date,
            max_date: value.max_date,
            week_start: value.week_start,
        }
    }
}

} // verus!
