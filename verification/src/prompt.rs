//! The selection state of a date-select prompt: construction, navigation,
//! submission, and the snapshot handed to whatever draws the prompt.

use crate::action::{add_days_or_stay, ActionResult, DateSelectPromptAction};
use crate::calendar::CivilDate;
use crate::config::DateSelectConfig;
use crate::date::{lemma_view_injective, CalendarDate};
use crate::date_utils::get_current_date;
use crate::error::{CustomUserError, InquireError};
use crate::month::Weekday;
use crate::range::{civil, clamp};
use crate::validator::{ErrorMessage, Validation};
use vstd::prelude::*;

verus! {

/// The options from which a date-select prompt is made.
///
/// A validator is anything that can be called with a date and answers with a
/// [`Validation`] or fails with an error of its own. The formatter turns the
/// accepted date into the text that is shown as the answer.
pub struct DateSelect<'a, V, F> {
    /// Message to be presented to the user.
    pub message: &'a str,
    /// First day of the week when displaying week rows.
    pub week_start: Weekday,
    /// Starting date to be selected.
    pub starting_date: CalendarDate,
    /// Min date allowed to be selected.
    pub min_date: Option<CalendarDate>,
    /// Max date allowed to be selected.
    pub max_date: Option<CalendarDate>,
    /// Help message to be presented to the user.
    pub help_message: Option<&'a str>,
    /// Function that formats the user input and presents it to the user as
    /// the final rendering of the prompt.
    pub formatter: F,
    /// Validators to apply to the selected date, in this order.
    pub validators: Vec<V>,
}

/// The state of a selection as the contracts speak of it.
pub struct SelectionState {
    /// The date that is selected.
    pub current: CivilDate,
    /// The earliest date that may be selected, if there is a limit.
    pub min: Option<CivilDate>,
    /// The latest date that may be selected, if there is a limit.
    pub max: Option<CivilDate>,
    /// The weekday that a week row starts with.
    pub week_start: Weekday,
    /// The message of the last rejected submission, if it is still shown.
    pub error: Option<ErrorMessage>,
}

impl SelectionState {
    /// The selected date lies within the bounds.
    pub open spec fn in_bounds(self) -> bool {
        self.current.within(self.min, self.max)
    }

    /// The selected date and the bounds are valid dates, and the selected
    /// date lies within the bounds. This holds of every prompt at all times.
    pub open spec fn well_formed(self) -> bool {
        &&& self.current.is_valid()
        &&& self.min matches Some(min) ==> min.is_valid()
        &&& self.max matches Some(max) ==> max.is_valid()
        &&& self.in_bounds()
    }
}

/// What is handed to the drawing side on each cycle.
pub struct RenderContract<'a> {
    /// The prompt's message.
    pub message: &'a str,
    /// The message of the last rejected submission, if any.
    pub error: Option<&'a ErrorMessage>,
    /// The selected date.
    pub current_date: CalendarDate,
    /// Today's date, for highlighting.
    pub today: CalendarDate,
    /// The earliest date that may be selected, if there is a limit.
    pub min_date: Option<CalendarDate>,
    /// The latest date that may be selected, if there is a limit.
    pub max_date: Option<CalendarDate>,
    /// The weekday that a week row starts with.
    pub week_start: Weekday,
    /// The help message, if any.
    pub help_message: Option<&'a str>,
}

/// A date-select prompt in progress.
pub struct DateSelectPrompt<'a, V, F> where
    V: Fn(CalendarDate) -> Result<Validation, CustomUserError>,
    F: Fn(CalendarDate) -> String,
 {
    message: &'a str,
    config: DateSelectConfig,
    current_date: CalendarDate,
    help_message: Option<&'a str>,
    formatter: F,
    validators: Vec<V>,
    error: Option<ErrorMessage>,
}

/// The text of the error for a lower bound after the starting date.
pub open spec fn min_date_message() -> Seq<char> {
    "Min date can not be greater than starting date"@
}

/// The text of the error for an upper bound before the starting date.
pub open spec fn max_date_message() -> Seq<char> {
    "Max date can not be smaller than starting date"@
}

/// Whether a function can be called with every date: it demands nothing of
/// its argument but that it is a date.
pub open spec fn takes_any_date<R, G: Fn(CalendarDate) -> R>(function: G) -> bool {
    forall|date: CalendarDate| date.well_formed() ==> call_requires(function, (date,))
}

/// Whether `verdict` may come out of asking the validators about `date`, one
/// after the other, up to the first that does not accept: either all of them
/// may accept, or one of them may give that verdict after every earlier one
/// may have accepted.
pub open spec fn chain_may_return<V: Fn(CalendarDate) -> Result<Validation, CustomUserError>>(
    validators: Seq<V>,
    date: CalendarDate,
    verdict: Result<Validation, CustomUserError>,
) -> bool {
    if verdict == Ok::<Validation, CustomUserError>(Validation::Valid) {
        forall|i: int|
            0 <= i < validators.len() ==> call_ensures(
                #[trigger] validators[i],
                (date,),
                Ok::<Validation, CustomUserError>(Validation::Valid),
            )
    } else {
        exists|i: int|
            {
                &&& 0 <= i < validators.len()
                &&& call_ensures(#[trigger] validators[i], (date,), verdict)
                &&& forall|j: int|
                    0 <= j < i ==> call_ensures(
                        #[trigger] validators[j],
                        (date,),
                        Ok::<Validation, CustomUserError>(Validation::Valid),
                    )
            }
    }
}

impl<'a, V, F> View for DateSelectPrompt<'a, V, F> where
    V: Fn(CalendarDate) -> Result<Validation, CustomUserError>,
    F: Fn(CalendarDate) -> String,
 {
    type V = SelectionState;

    closed spec fn view(&self) -> SelectionState {
        SelectionState {
            current: self.current_date@,
            min: civil(self.config.min_date),
            max: civil(self.config.max_date),
            week_start: self.config.week_start,
            error: self.error,
        }
    }
}

impl<'a, V, F> DateSelectPrompt<'a, V, F> where
    V: Fn(CalendarDate) -> Result<Validation, CustomUserError>,
    F: Fn(CalendarDate) -> String,
 {
    /// The selected date lies within the bounds, and the validators and the
    /// formatter can be called with any date.
    #[verifier::type_invariant]
    closed spec fn well_formed(self) -> bool {
        &&& self@.well_formed()
        &&& forall|i: int|
            0 <= i < self.validators@.len() ==> takes_any_date(#[trigger] self.validators@[i])
        &&& takes_any_date(self.formatter)
    }

    /// The validators, in the order in which they are asked.
    pub closed spec fn validators(&self) -> Seq<V> {
        self.validators@
    }

    /// The formatter.
    pub closed spec fn formatter(&self) -> F {
        self.formatter
    }

    /// The prompt's message.
    pub closed spec fn message_text(&self) -> Seq<char> {
        self.message@
    }

    /// The help message, if there is one.
    pub closed spec fn help_text(&self) -> Option<Seq<char>> {
        match self.help_message {
            Some(help) => Some(help@),
            None => None,
        }
    }

    /// The selected date, as a value.
    pub closed spec fn selected(&self) -> CalendarDate {
        self.current_date
    }

    /// The bounds and the first weekday, as a value.
    pub closed spec fn settings(&self) -> DateSelectConfig {
        self.config
    }

    /// The same message, help, validators, formatter, bounds and first
    /// weekday as `other`: all that a session never changes.
    pub open spec fn same_setup(&self, other: &Self) -> bool {
        &&& self.validators() == other.validators()
        &&& self.formatter() == other.formatter()
        &&& self.message_text() == other.message_text()
        &&& self.help_text() == other.help_text()
        &&& self.settings() == other.settings()
    }

    /// Whether the options make a prompt: the starting date must not lie
    /// before the lower bound nor after the upper one.
    pub open spec fn admits(so: DateSelect<'a, V, F>) -> bool {
        so.starting_date@.within(civil(so.min_date), civil(so.max_date))
    }

    /// Starts a prompt from its options. The starting date becomes the
    /// selected date and no error is shown.
    ///
    /// Fails where the starting date lies outside the bounds: the check is
    /// made once, here, and is no clamp.
    pub fn new(so: DateSelect<'a, V, F>) -> (made: Result<Self, InquireError>)
        requires
            forall|i: int|
                0 <= i < so.validators@.len() ==> takes_any_date(#[trigger] so.validators@[i]),
            takes_any_date(so.formatter),
        ensures
            made is Ok <==> Self::admits(so),
            made matches Ok(prompt) ==> {
                &&& prompt@ == SelectionState {
                    current: so.starting_date@,
                    min: civil(so.min_date),
                    max: civil(so.max_date),
                    week_start: so.week_start,
                    error: None,
                }
                &&& prompt@.well_formed()
                &&& prompt.selected() == so.starting_date
                &&& prompt.settings() == (DateSelectConfig {
                    min_date: so.min_date,
                    max_date: so.max_date,
                    week_start: so.week_start,
                })
                &&& prompt.validators() == so.validators@
                &&& prompt.formatter() == so.formatter
                &&& prompt.message_text() == so.message@
                &&& prompt.help_text() == match so.help_message {
                    Some(help) => Some(help@),
                    None => None,
                }
            },
            made matches Err(e) ==> {
                &&& e matches InquireError::InvalidConfiguration(text)
                &&& text@ == if so.min_date is Some && so.starting_date@.before(
                    so.min_date->0@,
                ) {
                    min_date_message()
                } else {
                    max_date_message()
                }
            },
    {
        let starting_date = so.starting_date;
        proof {
            use_type_invariant(&starting_date);
        }
        if let Some(min_date) = so.min_date {
            proof {
                use_type_invariant(&min_date);
            }
            if min_date > so.starting_date {
                return Err(
                    InquireError::InvalidConfiguration(
                        "Min date can not be greater than starting date".to_owned(),
                    ),
                );
            }
        }
        if let Some(max_date) = so.max_date {
            proof {
                use_type_invariant(&max_date);
            }
            if max_date < so.starting_date {
                return Err(
                    InquireError::InvalidConfiguration(
                        "Max date can not be smaller than starting date".to_owned(),
                    ),
                );
            }
        }
        proof {
            if let Some(min_date) = so.min_date {
                lemma_view_injective(min_date, so.starting_date);
            }
            if let Some(max_date) = so.max_date {
                lemma_view_injective(max_date, so.starting_date);
            }
        }
        Ok(
            DateSelectPrompt {
                message: so.message,
                current_date: so.starting_date,
                config: DateSelectConfig::from(&so),
                help_message: so.help_message,
                formatter: so.formatter,
                validators: so.validators,
                error: None,
            },
        )
    }

    /// Moves the selection by a number of days, then applies the bounds.
    /// Where the target day lies outside the supported years, the selection
    /// stays where it is.
    pub fn shift_date(&mut self, days: i32) -> (result: ActionResult)
        ensures
            final(self)@ == (SelectionState {
                current: old(self)@.current.plus_days_or_stay(days as int).clamp(
                    old(self)@.min,
                    old(self)@.max,
                ),
                ..old(self)@
            }),
            final(self)@.well_formed(),
            final(self).same_setup(old(self)),
            result == if old(self)@.current.plus_days_or_stay(days as int) == old(self)@.current {
                ActionResult::Clean
            } else {
                ActionResult::NeedsRedraw
            },
    {
        let moved = add_days_or_stay(self.current_date, days);
        self.update_date(moved)
    }

    /// Moves the selection by a number of months, then applies the bounds.
    pub fn shift_months(&mut self, qty: i32) -> (result: ActionResult)
        ensures
            final(self)@ == (SelectionState {
                current: old(self)@.current.shift_months(qty as int).clamp(
                    old(self)@.min,
                    old(self)@.max,
                ),
                ..old(self)@
            }),
            final(self)@.well_formed(),
            final(self).same_setup(old(self)),
            result == if old(self)@.current.shift_months(qty as int) == old(self)@.current {
                ActionResult::Clean
            } else {
                ActionResult::NeedsRedraw
            },
    {
        let moved = self.current_date.shift_months(qty);
        self.update_date(moved)
    }

    /// Selects a date, forced into the bounds. A date that equals the
    /// selected one changes nothing and needs no redraw; any other date
    /// needs one, even where the bounds bring it back to the selected date.
    pub fn update_date(&mut self, new_date: CalendarDate) -> (result: ActionResult)
        ensures
            final(self)@ == (SelectionState {
                current: new_date@.clamp(old(self)@.min, old(self)@.max),
                ..old(self)@
            }),
            final(self)@.well_formed(),
            final(self).same_setup(old(self)),
            result == if new_date@ == old(self)@.current {
                ActionResult::Clean
            } else {
                ActionResult::NeedsRedraw
            },
    {
        proof {
            use_type_invariant(&*self);
            lemma_view_injective(self.current_date, new_date);
        }
        if self.current_date == new_date {
            return ActionResult::Clean;
        }
        let enforced = clamp(new_date, self.config.min_date, self.config.max_date);
        proof {
            use_type_invariant(&enforced);
        }
        self.current_date = enforced;
        ActionResult::NeedsRedraw
    }

    /// Asks the validators about the selected date, in order, and stops at
    /// the first that does not accept it.
    pub fn validate_current_answer(&self) -> (verdict: Result<Validation, InquireError>)
        ensures
            match verdict {
                Ok(validation) => chain_may_return(
                    self.validators(),
                    self.selected(),
                    Ok(validation),
                ),
                Err(InquireError::Custom(error)) => chain_may_return(
                    self.validators(),
                    self.selected(),
                    Err(error),
                ),
                Err(_) => false,
            },
    {
        proof {
            use_type_invariant(self);
        }
        let date = self.cur_answer();
        proof {
            use_type_invariant(&date);
        }
        let mut i: usize = 0;
        while i < self.validators.len()
            invariant
                i <= self.validators@.len(),
                date == self.current_date,
                date.well_formed(),
                forall|j: int|
                    0 <= j < self.validators@.len() ==> takes_any_date(
                        #[trigger] self.validators@[j],
                    ),
                forall|j: int|
                    0 <= j < i ==> call_ensures(
                        #[trigger] self.validators@[j],
                        (date,),
                        Ok::<Validation, CustomUserError>(Validation::Valid),
                    ),
            decreases self.validators@.len() - i,
        {
            match (self.validators[i])(date) {
                Ok(Validation::Valid) => {},
                Ok(Validation::Invalid(message)) => {
                    return Ok(Validation::Invalid(message));
                },
                Err(error) => {
                    return Err(InquireError::Custom(error));
                },
            }
            i += 1;
        }
        Ok(Validation::Valid)
    }

    /// The selected date.
    pub fn cur_answer(&self) -> (date: CalendarDate)
        ensures
            date == self.selected(),
            date@ == self@.current,
            self@.well_formed(),
    {
        proof {
            use_type_invariant(self);
        }
        self.current_date
    }

    /// The prompt's message.
    pub fn message(&self) -> (message: &str)
        ensures
            message@ == self.message_text(),
    {
        self.message
    }

    /// The text that the formatter makes of an answer.
    pub fn format_answer(&self, answer: &CalendarDate) -> (text: String)
        ensures
            call_ensures(self.formatter(), (*answer,), text),
    {
        proof {
            use_type_invariant(self);
            use_type_invariant(answer);
        }
        (self.formatter)(*answer)
    }

    /// The bounds and the first weekday.
    pub fn config(&self) -> (config: &DateSelectConfig)
        ensures
            *config == self.settings(),
            civil(config.min_date) == self@.min,
            civil(config.max_date) == self@.max,
            config.week_start == self@.week_start,
    {
        &self.config
    }

    /// Records what the validators said of the selected date. An accepted
    /// date is the answer, and no error is shown any more; a rejection shows
    /// its message and leaves the prompt waiting.
    pub fn settle(&mut self, verdict: Validation) -> (answer: Option<CalendarDate>)
        ensures
            final(self).same_setup(old(self)),
            final(self).selected() == old(self).selected(),
            match verdict {
                Validation::Valid => {
                    &&& answer == Some(old(self).selected())
                    &&& final(self)@ == SelectionState { error: None, ..old(self)@ }
                },
                Validation::Invalid(message) => {
                    &&& answer is None
                    &&& final(self)@ == SelectionState { error: Some(message), ..old(self)@ }
                },
            },
    {
        proof {
            use_type_invariant(&*self);
        }
        match verdict {
            Validation::Valid => {
                self.error = None;
                Some(self.current_date)
            },
            Validation::Invalid(message) => {
                self.error = Some(message);
                None
            },
        }
    }

    /// Submits the selected date: the validators are asked in order. Where
    /// all accept, the date is the answer and the error is cleared. Where
    /// one rejects, its message becomes the error and there is no answer
    /// yet. Where one fails, its error is returned and nothing changes.
    pub fn submit(&mut self) -> (answer: Result<Option<CalendarDate>, InquireError>)
        ensures
            final(self).same_setup(old(self)),
            final(self).selected() == old(self).selected(),
            match answer {
                Ok(Some(date)) => {
                    &&& date == old(self).selected()
                    &&& final(self)@ == SelectionState { error: None, ..old(self)@ }
                    &&& chain_may_return(
                        old(self).validators(),
                        old(self).selected(),
                        Ok(Validation::Valid),
                    )
                },
                Ok(None) => {
                    &&& final(self)@.error matches Some(message)
                    &&& final(self)@ == SelectionState { error: Some(message), ..old(self)@ }
                    &&& chain_may_return(
                        old(self).validators(),
                        old(self).selected(),
                        Ok(Validation::Invalid(message)),
                    )
                },
                Err(e) => {
                    &&& *final(self) == *old(self)
                    &&& e matches InquireError::Custom(error)
                    &&& chain_may_return(
                        old(self).validators(),
                        old(self).selected(),
                        Err(error),
                    )
                },
            },
    {
        match self.validate_current_answer() {
            Ok(verdict) => Ok(self.settle(verdict)),
            Err(error) => Err(error),
        }
    }

    /// Takes one step of navigation: the selected date moves as the step
    /// says and is then forced into the bounds. The error, if one is shown,
    /// stays.
    pub fn handle(&mut self, action: DateSelectPromptAction) -> (result: Result<
        ActionResult,
        InquireError,
    >)
        ensures
            final(self)@ == (SelectionState {
                current: old(self)@.current.advance(action).clamp(old(self)@.min, old(self)@.max),
                ..old(self)@
            }),
            final(self)@.well_formed(),
            final(self).same_setup(old(self)),
            result == Ok::<ActionResult, InquireError>(
                if old(self)@.current.advance(action) == old(self)@.current {
                    ActionResult::Clean
                } else {
                    ActionResult::NeedsRedraw
                },
            ),
    {
        let result = match action {
            DateSelectPromptAction::GoToPrevWeek => self.shift_date(-7),
            DateSelectPromptAction::GoToNextWeek => self.shift_date(7),
            DateSelectPromptAction::GoToPrevDay => self.shift_date(-1),
            DateSelectPromptAction::GoToNextDay => self.shift_date(1),
            DateSelectPromptAction::GoToPrevYear => self.shift_months(-12),
            DateSelectPromptAction::GoToNextYear => self.shift_months(12),
            DateSelectPromptAction::GoToPrevMonth => self.shift_months(-1),
            DateSelectPromptAction::GoToNextMonth => self.shift_months(1),
        };
        Ok(result)
    }

    /// What is to be drawn, given today's date.
    pub fn render_snapshot<'s>(&'s self, today: CalendarDate) -> (snapshot: RenderContract<'s>)
        ensures
            snapshot.message@ == self.message_text(),
            match snapshot.error {
                Some(message) => self@.error == Some(*message),
                None => self@.error is None,
            },
            snapshot.current_date == self.selected(),
            snapshot.today == today,
            snapshot.min_date == self.settings().min_date,
            snapshot.max_date == self.settings().max_date,
            snapshot.week_start == self.settings().week_start,
            match snapshot.help_message {
                Some(help) => self.help_text() == Some(help@),
                None => self.help_text() is None,
            },
    {
        RenderContract {
            message: self.message,
            error: self.error.as_ref(),
            current_date: self.current_date,
            today,
            min_date: self.config.min_date,
            max_date: self.config.max_date,
            week_start: self.config.week_start,
            help_message: self.help_message,
        }
    }

    /// What is to be drawn now: the snapshot of the state with today's date
    /// as the clock gives it.
    pub fn render<'s>(&'s self) -> (snapshot: RenderContract<'s>)
        ensures
            snapshot.message@ == self.message_text(),
            match snapshot.error {
                Some(message) => self@.error == Some(*message),
                None => self@.error is None,
            },
            snapshot.current_date == self.selected(),
            snapshot.today.well_formed(),
            snapshot.min_date == self.settings().min_date,
            snapshot.max_date == self.settings().max_date,
            snapshot.week_start == self.settings().week_start,
            match snapshot.help_message {
                Some(help) => self.help_text() == Some(help@),
                None => self.help_text() is None,
            },
    {
        self.render_snapshot(get_current_date())
    }
}

} // verus!
