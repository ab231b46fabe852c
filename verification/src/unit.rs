//! The closed set of time units and their conversions.
//!
//! `to_seconds` uses fixed, calendar-independent multipliers (it serves
//! sub-hour display only). `to_hours` and `to_times_per_days` are
//! calendar-relative: a day is `number_of_hours_per_day` hours, a week
//! `number_of_day_per_week` days, a month `number_of_day_per_month` days and
//! a year twelve such months.

use vstd::prelude::*;
use crate::calendar::ConfTimeUnit;
use crate::rat::Rat;

verus! {

/// A unit of time, or of a recurrence rate ("times per unit").
#[derive(Clone, Copy, PartialEq, Eq, Structural, Debug)]
pub enum TimeUnit {
    Seconds,
    Minutes,
    Hours,
    Days,
    Weeks,
    Months,
    Years,
}

/// Seconds in one unit, by the fixed calendar-independent multipliers
/// (a day 86400 s, a week 7 days, a month 30 days, a year 365 days).
pub open spec fn secs_per_unit(u: TimeUnit) -> int {
    match u {
        TimeUnit::Seconds => 1,
        TimeUnit::Minutes => 60,
        TimeUnit::Hours => 3600,
        TimeUnit::Days => 86400,
        TimeUnit::Weeks => 604800,
        TimeUnit::Months => 2592000,
        TimeUnit::Years => 31536000,
    }
}

/// Numerator of `n / d` of unit `u` expressed in hours, under calendar `c`.
pub open spec fn hours_num(u: TimeUnit, n: int, c: ConfTimeUnit) -> int {
    match u {
        TimeUnit::Seconds => n,
        TimeUnit::Minutes => n,
        TimeUnit::Hours => n,
        TimeUnit::Days => n * c.number_of_hours_per_day,
        TimeUnit::Weeks => n * c.number_of_hours_per_day * c.number_of_day_per_week,
        TimeUnit::Months => n * c.number_of_hours_per_day * c.number_of_day_per_month,
        TimeUnit::Years => n * c.number_of_hours_per_day * c.number_of_day_per_month * 12,
    }
}

/// Denominator of `n / d` of unit `u` expressed in hours.
pub open spec fn hours_den(u: TimeUnit, d: int) -> int {
    match u {
        TimeUnit::Seconds => d * 3600,
        TimeUnit::Minutes => d * 60,
        _ => d,
    }
}

/// Numerator of the rate "`n / d` times per `u`" expressed in times per day,
/// under calendar `c`.
pub open spec fn rate_num(u: TimeUnit, n: int, c: ConfTimeUnit) -> int {
    match u {
        TimeUnit::Seconds => n * 3600 * c.number_of_hours_per_day,
        TimeUnit::Minutes => n * 60 * c.number_of_hours_per_day,
        TimeUnit::Hours => n * c.number_of_hours_per_day,
        _ => n,
    }
}

/// Denominator of the rate "`n / d` times per `u`" expressed in times per
/// day, under calendar `c`.
pub open spec fn rate_den(u: TimeUnit, d: int, c: ConfTimeUnit) -> int {
    match u {
        TimeUnit::Weeks => d * c.number_of_day_per_week,
        TimeUnit::Months => d * c.number_of_day_per_month,
        TimeUnit::Years => d * c.number_of_day_per_month * 12,
        _ => d,
    }
}

impl TimeUnit {
    /// The unit's plural English name.
    pub fn plural(&self) -> (r: &'static str)
        ensures
            r@ == match *self {
                TimeUnit::Seconds => "seconds"@,
                TimeUnit::Minutes => "minutes"@,
                TimeUnit::Hours => "hours"@,
                TimeUnit::Days => "days"@,
                TimeUnit::Weeks => "weeks"@,
                TimeUnit::Months => "months"@,
                TimeUnit::Years => "years"@,
            },
    {
        match self {
            TimeUnit::Seconds => "seconds",
            TimeUnit::Minutes => "minutes",
            TimeUnit::Hours => "hours",
            TimeUnit::Days => "days",
            TimeUnit::Weeks => "weeks",
            TimeUnit::Months => "months",
            TimeUnit::Years => "years",
        }
    }

    /// The unit's singular English name.
    pub fn singular(&self) -> (r: &'static str)
        ensures
            r@ == match *self {
                TimeUnit::Seconds => "second"@,
                TimeUnit::Minutes => "minute"@,
                TimeUnit::Hours => "hour"@,
                TimeUnit::Days => "day"@,
                TimeUnit::Weeks => "week"@,
                TimeUnit::Months => "month"@,
                TimeUnit::Years => "year"@,
            },
    {
        match self {
            TimeUnit::Seconds => "second",
            TimeUnit::Minutes => "minute",
            TimeUnit::Hours => "hour",
            TimeUnit::Days => "day",
            TimeUnit::Weeks => "week",
            TimeUnit::Months => "month",
            TimeUnit::Years => "year",
        }
    }

    /// Converts an amount of this unit into seconds, by the fixed
    /// calendar-independent multipliers.
    pub fn to_seconds(&self, value: Rat) -> (r: Rat)
        requires
            value.wf(),
            0 <= value.num <= 1_000_000_000_000_000_000_000_000_000_000,
            value.den <= 1_000_000_000_000_000_000_000_000_000_000_000_000,
        ensures
            r.den == value.den,
            r.num == value.num * secs_per_unit(*self),
            r.wf(),
            0 <= r.num,
    {
        proof {
            assert(value.num * 31536000 <= 1_000_000_000_000_000_000_000_000_000_000 * 31536000
                && value.num * 60 >= 0 && value.num * 3600 >= 0 && value.num * 86400 >= 0
                && value.num * 604800 >= 0 && value.num * 2592000 >= 0 && value.num * 31536000 >= 0
                && value.num * 60 <= value.num * 31536000 && value.num * 3600 <= value.num
                * 31536000 && value.num * 86400 <= value.num * 31536000 && value.num * 604800
                <= value.num * 31536000 && value.num * 2592000 <= value.num * 31536000)
                by (nonlinear_arith)
                requires
                    0 <= value.num <= 1_000_000_000_000_000_000_000_000_000_000;
        }
        match self {
            TimeUnit::Seconds => value,
            TimeUnit::Minutes => Rat { num: value.num * 60, den: value.den },
            TimeUnit::Hours => Rat { num: value.num * 3600, den: value.den },
            TimeUnit::Days => Rat { num: value.num * 86400, den: value.den },
            TimeUnit::Weeks => Rat { num: value.num * 604800, den: value.den },
            TimeUnit::Months => Rat { num: value.num * 2592000, den: value.den },
            TimeUnit::Years => Rat { num: value.num * 31536000, den: value.den },
        }
    }

    /// Converts an amount of this unit into hours under the given calendar.
    pub fn to_hours(&self, value: Rat, conf_time_unit: &ConfTimeUnit) -> (r: Rat)
        requires
            conf_time_unit.wf(),
            value.wf(),
            0 <= value.num <= 10_000_000_000_000_000_000_000_000_000_000_000,
            value.den <= 10_000_000_000_000_000_000_000_000_000_000_000,
        ensures
            r.num == hours_num(*self, value.num as int, *conf_time_unit),
            r.den == hours_den(*self, value.den as int),
            r.wf(),
            0 <= r.num <= value.num * 8928,
            r.den <= value.den * 3600,
    {
        let hpd = conf_time_unit.number_of_hours_per_day as i128;
        let dpw = conf_time_unit.number_of_day_per_week as i128;
        let dpm = conf_time_unit.number_of_day_per_month as i128;
        proof {
            assert(0 <= value.num * hpd <= value.num * 8928 && 0 <= value.num * hpd * dpw
                <= value.num * 8928 && 0 <= value.num * hpd * dpm <= value.num * 8928 && 0
                <= value.num * hpd * dpm * 12 <= value.num * 8928 && value.num * 8928
                <= 10_000_000_000_000_000_000_000_000_000_000_000 * 8928 && value.den * 60
                <= value.den * 3600 && value.den * 3600
                <= 10_000_000_000_000_000_000_000_000_000_000_000 * 3600)
                by (nonlinear_arith)
                requires
                    0 <= value.num <= 10_000_000_000_000_000_000_000_000_000_000_000,
                    0 < value.den <= 10_000_000_000_000_000_000_000_000_000_000_000,
                    0 < hpd <= 24,
                    0 < dpw <= 7,
                    0 < dpm <= 31;
        }
        match self {
            TimeUnit::Seconds => Rat { num: value.num, den: value.den * 3600 },
            TimeUnit::Minutes => Rat { num: value.num, den: value.den * 60 },
            TimeUnit::Hours => value,
            TimeUnit::Days => Rat { num: value.num * hpd, den: value.den },
            TimeUnit::Weeks => Rat { num: value.num * hpd * dpw, den: value.den },
            TimeUnit::Months => Rat { num: value.num * hpd * dpm, den: value.den },
            TimeUnit::Years => Rat { num: value.num * hpd * dpm * 12, den: value.den },
        }
    }

    /// Converts a rate of "so many times per this unit" into times per day
    /// under the given calendar.
    pub fn to_times_per_days(&self, value: Rat, conf_time_unit: &ConfTimeUnit) -> (r: Rat)
        requires
            conf_time_unit.wf(),
            value.wf(),
            0 <= value.num <= 1_000_000_000_000_000_000_000_000_000_000_000,
            value.den <= 1_000_000_000_000_000_000_000_000_000_000_000,
        ensures
            r.num == rate_num(*self, value.num as int, *conf_time_unit),
            r.den == rate_den(*self, value.den as int, *conf_time_unit),
            r.wf(),
            0 <= r.num <= value.num * 86400,
            r.den <= value.den * 372,
    {
        let hpd = conf_time_unit.number_of_hours_per_day as i128;
        let dpw = conf_time_unit.number_of_day_per_week as i128;
        let dpm = conf_time_unit.number_of_day_per_month as i128;
        proof {
            assert(0 <= value.num * 3600 * hpd <= value.num * 86400 && 0 <= value.num * 60 * hpd
                <= value.num * 86400 && 0 <= value.num * hpd <= value.num * 86400 && value.num
                <= value.num * 86400 && value.num * 86400
                <= 1_000_000_000_000_000_000_000_000_000_000_000 * 86400 && 0 < value.den * dpw
                <= value.den * 372 && 0 < value.den * dpm <= value.den * 372 && 0 < value.den * dpm
                * 12 <= value.den * 372 && value.den <= value.den * 372 && value.den * 372
                <= 1_000_000_000_000_000_000_000_000_000_000_000 * 372)
                by (nonlinear_arith)
                requires
                    0 <= value.num <= 1_000_000_000_000_000_000_000_000_000_000_000,
                    0 < value.den <= 1_000_000_000_000_000_000_000_000_000_000_000,
                    0 < hpd <= 24,
                    0 < dpw <= 7,
                    0 < dpm <= 31;
        }
        match self {
            TimeUnit::Seconds => Rat { num: value.num * 3600 * hpd, den: value.den },
            TimeUnit::Minutes => Rat { num: value.num * 60 * hpd, den: value.den },
            TimeUnit::Hours => Rat { num: value.num * hpd, den: value.den },
            TimeUnit::Days => value,
            TimeUnit::Weeks => Rat { num: value.num, den: value.den * dpw },
            TimeUnit::Months => Rat { num: value.num, den: value.den * dpm },
            TimeUnit::Years => Rat { num: value.num, den: value.den * dpm * 12 },
        }
    }
}

/// Converting an amount to hours and dividing again by the hours-per-unit
/// multiplier recovers the amount exactly: for every unit `u`, amount `v`
/// and calendar `c`, the hours value `hours_num(u, v.num, c) /
/// hours_den(u, v.den)` divided by `hours_num(u, 1, c) / hours_den(u, 1)`
/// equals `v.num / v.den`.
pub proof fn lemma_to_hours_round_trip(u: TimeUnit, v: Rat, c: ConfTimeUnit)
    requires
        c.wf(),
        v.wf(),
    ensures
        hours_num(u, v.num as int, c) * hours_den(u, 1) * v.den == v.num * hours_den(
            u,
            v.den as int,
        ) * hours_num(u, 1, c),
        hours_num(u, 1, c) > 0,
        hours_den(u, 1) > 0,
{
    let hpd = c.number_of_hours_per_day as int;
    let dpw = c.number_of_day_per_week as int;
    let dpm = c.number_of_day_per_month as int;
    let n = v.num as int;
    let d = v.den as int;
    match u {
        TimeUnit::Seconds => {
            assert(n * 3600 * d == n * (d * 3600) * 1) by (nonlinear_arith);
        },
        TimeUnit::Minutes => {
            assert(n * 60 * d == n * (d * 60) * 1) by (nonlinear_arith);
        },
        TimeUnit::Hours => {},
        TimeUnit::Days => {
            assert(n * hpd * 1 * d == n * d * (1 * hpd)) by (nonlinear_arith);
            assert(1 * hpd > 0) by (nonlinear_arith)
                requires
                    hpd > 0;
        },
        TimeUnit::Weeks => {
            assert(n * hpd * dpw * 1 * d == n * d * (1 * hpd * dpw)) by (nonlinear_arith);
            assert(1 * hpd * dpw > 0) by (nonlinear_arith)
                requires
                    hpd > 0,
                    dpw > 0;
        },
        TimeUnit::Months => {
            assert(n * hpd * dpm * 1 * d == n * d * (1 * hpd * dpm)) by (nonlinear_arith);
            assert(1 * hpd * dpm > 0) by (nonlinear_arith)
                requires
                    hpd > 0,
                    dpm > 0;
        },
        TimeUnit::Years => {
            assert(n * hpd * dpm * 12 * 1 * d == n * d * (1 * hpd * dpm * 12)) by (nonlinear_arith);
            assert(1 * hpd * dpm * 12 > 0) by (nonlinear_arith)
                requires
                    hpd > 0,
                    dpm > 0;
        },
    }
}

} // verus!
