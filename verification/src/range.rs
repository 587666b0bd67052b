//! Keeping a date within an optional lower and upper bound.

use crate::calendar::CivilDate;
use crate::date::CalendarDate;
use vstd::prelude::*;

verus! {

/// The model of an optional date.
pub open spec fn civil(date: Option<CalendarDate>) -> Option<CivilDate> {
    match date {
        Some(date) => Some(date@),
        None => None,
    }
}

impl CivilDate {
    /// Not before `min`, where there is one, and not after `max`, where
    /// there is one.
    pub open spec fn within(self, min: Option<CivilDate>, max: Option<CivilDate>) -> bool {
        &&& min matches Some(min) ==> min.at_most(self)
        &&& max matches Some(max) ==> self.at_most(max)
    }

    /// The date forced into the bounds: `min` where the date is before it,
    /// else `max` where the date is after it, else the date itself.
    pub open spec fn clamp(self, min: Option<CivilDate>, max: Option<CivilDate>) -> CivilDate {
        if min is Some && self.before(min->0) {
            min->0
        } else if max is Some && max->0.before(self) {
            max->0
        } else {
            self
        }
    }
}

/// Forces a date into its bounds: the result is `min` where the candidate lies
/// before it, else `max` where the candidate lies after it, else the
/// candidate.
pub fn clamp(candidate: CalendarDate, min: Option<CalendarDate>, max: Option<CalendarDate>) -> (enforced:
    CalendarDate)
    ensures
        enforced@ == candidate@.clamp(civil(min), civil(max)),
        candidate@.within(civil(min), civil(max)) ==> enforced == candidate,
        min matches Some(low) ==> (candidate@.before(low@) ==> enforced == low),
        max matches Some(high) ==> (high@.before(candidate@) && !(min matches Some(low)
            && candidate@.before(low@)) ==> enforced == high),
        enforced == candidate || min == Some(enforced) || max == Some(enforced),
{
    if let Some(low) = min {
        if candidate < low {
            return low;
        }
    }
    if let Some(high) = max {
        if candidate > high {
            return high;
        }
    }
    candidate
}

/// A clamped date lies within the bounds, where the bounds leave room: where
/// the lower bound is not after the upper one.
pub proof fn lemma_clamp_within(date: CivilDate, min: Option<CivilDate>, max: Option<CivilDate>)
    requires
        min is Some && max is Some ==> min->0.at_most(max->0),
    ensures
        date.clamp(min, max).within(min, max),
        date.within(min, max) ==> date.clamp(min, max) == date,
{
}

} // verus!
