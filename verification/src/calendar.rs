//! The calendar configuration: how long a working day, week and month are.

use vstd::prelude::*;

verus! {

/// Conversion constants for calendar-relative time units.
///
/// The engine reads these to turn days, weeks, months and years into hours.
/// All three constants must be positive; a day has at most 24 hours, a week
/// at most 7 days, a month at most 31 days.
#[derive(Clone, Copy, PartialEq, Eq, Structural, Debug)]
pub struct ConfTimeUnit {
    pub number_of_hours_per_day: u8,
    pub number_of_day_per_week: u8,
    pub number_of_day_per_month: u8,
}

impl ConfTimeUnit {
    /// The configuration invariant: every constant positive and within its
    /// natural calendar bound.
    pub open spec fn wf(self) -> bool {
        &&& 0 < self.number_of_hours_per_day <= 24
        &&& 0 < self.number_of_day_per_week <= 7
        &&& 0 < self.number_of_day_per_month <= 31
    }

    /// Builds a configuration, rejecting constants outside the invariant.
    pub fn new(hours_per_day: u8, days_per_week: u8, days_per_month: u8) -> (r: Option<
        ConfTimeUnit,
    >)
        ensures
            r is Some <==> (0 < hours_per_day <= 24 && 0 < days_per_week <= 7 && 0 < days_per_month
                <= 31),
            r matches Some(c) ==> c == (ConfTimeUnit {
                number_of_hours_per_day: hours_per_day,
                number_of_day_per_week: days_per_week,
                number_of_day_per_month: days_per_month,
            }) && c.wf(),
    {
        if 0 < hours_per_day && hours_per_day <= 24 && 0 < days_per_week && days_per_week <= 7 && 0
            < days_per_month && days_per_month <= 31 {
            Some(
                ConfTimeUnit {
                    number_of_hours_per_day: hours_per_day,
                    number_of_day_per_week: days_per_week,
                    number_of_day_per_month: days_per_month,
                },
            )
        } else {
            None
        }
    }
}

} // verus!
