//! The scenario: the full input aggregate the engine computes from.
//!
//! A scenario holds the task's cost before and after the optimization, the
//! one-time investment, the recurrence rate, the projection horizon in days
//! and the calendar configuration. The engine is a pure function of this
//! value; it holds no state across calls.

use vstd::prelude::*;
use crate::calendar::ConfTimeUnit;
use crate::rat::Rat;
use crate::unit::TimeUnit;
use crate::unit::hours_den;
use crate::unit::hours_num;
use crate::unit::rate_den;
use crate::unit::rate_num;

verus! {

/// Clamping two ordered non-negative fractions to 24 keeps their order:
/// with `xn/xd <= yn/yd`, the clamped value of the first is at most the
/// clamped value of the second, clamps written as the daily-cost clamp
/// writes them.
proof fn lemma_clamped_le(xn: int, xd: int, yn: int, yd: int)
    requires
        0 < xd,
        0 < yd,
        0 <= xn,
        0 <= yn,
        xn * yd <= yn * xd,
    ensures
        (if xn <= 24 * xd {
            xn
        } else {
            24
        }) * (if yn <= 24 * yd {
            yd
        } else {
            1
        }) <= (if yn <= 24 * yd {
            yn
        } else {
            24
        }) * (if xn <= 24 * xd {
            xd
        } else {
            1
        }),
{
    if xn <= 24 * xd {
        if yn <= 24 * yd {
        } else {
        }
    } else {
        if yn <= 24 * yd {
            assert(24 * yd <= yn) by (nonlinear_arith)
                requires
                    xn * yd <= yn * xd,
                    24 * xd < xn,
                    0 < xd,
                    0 < yd,
                    0 <= yn;
        } else {
        }
    }
}

/// The input aggregate: costs, investment, recurrence, horizon, calendar.
#[derive(Clone, Copy, Debug)]
pub struct Scenario {
    /// Time one occurrence of the task costs today.
    pub before_taken_time: Rat,
    pub before_taken_time_unit: TimeUnit,
    /// Time one occurrence costs once optimized.
    pub after_taken_time: Rat,
    pub after_taken_time_unit: TimeUnit,
    /// One-time cost of building the optimization.
    pub invest_taken_time: Rat,
    pub invest_taken_time_unit: TimeUnit,
    /// How often the task recurs: so many times per `repeat_count_time_unit`.
    pub repeat_count: Rat,
    pub repeat_count_time_unit: TimeUnit,
    /// Number of days to project.
    pub scale_number_of_day: usize,
    pub conf_time_unit: ConfTimeUnit,
}

impl Scenario {
    /// An amount the engine accepts: non-negative, with denominator at most
    /// 100 (hundredth-of-a-unit resolution) and numerator at most a million,
    /// so at most ten thousand units, the range the input widgets offer.
    /// The magnitude caps keep every intermediate product of the engine
    /// within `i128`.
    pub open spec fn amount_wf(v: Rat) -> bool {
        &&& 0 <= v.num <= 1_000_000
        &&& 0 < v.den <= 100
    }

    /// The scenario invariant: all amounts well-formed, the horizon between
    /// one day and ten thousand days, the calendar configuration valid.
    pub open spec fn wf(self) -> bool {
        &&& Self::amount_wf(self.before_taken_time)
        &&& Self::amount_wf(self.after_taken_time)
        &&& Self::amount_wf(self.invest_taken_time)
        &&& Self::amount_wf(self.repeat_count)
        &&& 1 <= self.scale_number_of_day <= 10_000
        &&& self.conf_time_unit.wf()
    }

    /// The projection horizon, in days.
    pub open spec fn horizon_days(self) -> int {
        self.scale_number_of_day as int
    }

    /// Numerator of the recurrence rate in times per day.
    pub open spec fn freq_rate_num(self) -> int {
        rate_num(self.repeat_count_time_unit, self.repeat_count.num as int, self.conf_time_unit)
    }

    /// Denominator of the recurrence rate in times per day.
    pub open spec fn freq_rate_den(self) -> int {
        rate_den(self.repeat_count_time_unit, self.repeat_count.den as int, self.conf_time_unit)
    }

    /// Numerator of the unclamped daily cost of a task costing `v` of unit
    /// `u` per occurrence: hours per occurrence times occurrences per day.
    pub open spec fn raw_daily_num(self, u: TimeUnit, v: Rat) -> int {
        hours_num(u, v.num as int, self.conf_time_unit) * self.freq_rate_num()
    }

    /// Denominator of the unclamped daily cost.
    pub open spec fn raw_daily_den(self, u: TimeUnit, v: Rat) -> int {
        hours_den(u, v.den as int) * self.freq_rate_den()
    }

    /// Whether the unclamped daily cost stays within 24 hours per day.
    pub open spec fn daily_within_cap(self, u: TimeUnit, v: Rat) -> bool {
        self.raw_daily_num(u, v) <= 24 * self.raw_daily_den(u, v)
    }

    /// Numerator of the daily cost, clamped to 24 hours per day: a day
    /// cannot contain more task time than it has hours.
    pub open spec fn daily_num(self, u: TimeUnit, v: Rat) -> int {
        if self.daily_within_cap(u, v) {
            self.raw_daily_num(u, v)
        } else {
            24
        }
    }

    /// Denominator of the clamped daily cost.
    pub open spec fn daily_den(self, u: TimeUnit, v: Rat) -> int {
        if self.daily_within_cap(u, v) {
            self.raw_daily_den(u, v)
        } else {
            1
        }
    }

    /// Daily cost of the task before the optimization, as a fraction.
    pub open spec fn before_daily_num(self) -> int {
        self.daily_num(self.before_taken_time_unit, self.before_taken_time)
    }

    pub open spec fn before_daily_den(self) -> int {
        self.daily_den(self.before_taken_time_unit, self.before_taken_time)
    }

    /// Daily cost of the task after the optimization, as a fraction.
    pub open spec fn after_daily_num(self) -> int {
        self.daily_num(self.after_taken_time_unit, self.after_taken_time)
    }

    pub open spec fn after_daily_den(self) -> int {
        self.daily_den(self.after_taken_time_unit, self.after_taken_time)
    }

    /// The one-time investment expressed in hours, as a fraction.
    pub open spec fn invest_hours_num(self) -> int {
        hours_num(self.invest_taken_time_unit, self.invest_taken_time.num as int, self.conf_time_unit)
    }

    pub open spec fn invest_hours_den(self) -> int {
        hours_den(self.invest_taken_time_unit, self.invest_taken_time.den as int)
    }

    /// The default scenario: a forty-second task repeated twenty times an
    /// hour, reducible to ten seconds for a two-hour investment, projected
    /// over ninety days of an eight-hour, five-day, twenty-two-day calendar.
    pub fn new() -> (r: Scenario)
        ensures
            r.before_taken_time == (Rat { num: 40, den: 1 }),
            r.before_taken_time_unit == TimeUnit::Seconds,
            r.after_taken_time == (Rat { num: 10, den: 1 }),
            r.after_taken_time_unit == TimeUnit::Seconds,
            r.invest_taken_time == (Rat { num: 2, den: 1 }),
            r.invest_taken_time_unit == TimeUnit::Hours,
            r.repeat_count == (Rat { num: 20, den: 1 }),
            r.repeat_count_time_unit == TimeUnit::Hours,
            r.scale_number_of_day == 90,
            r.conf_time_unit == (ConfTimeUnit {
                number_of_hours_per_day: 8,
                number_of_day_per_week: 5,
                number_of_day_per_month: 22,
            }),
            r.wf(),
    {
        Scenario {
            before_taken_time: Rat { num: 40, den: 1 },
            before_taken_time_unit: TimeUnit::Seconds,
            after_taken_time: Rat { num: 10, den: 1 },
            after_taken_time_unit: TimeUnit::Seconds,
            invest_taken_time: Rat { num: 2, den: 1 },
            invest_taken_time_unit: TimeUnit::Hours,
            repeat_count: Rat { num: 20, den: 1 },
            repeat_count_time_unit: TimeUnit::Hours,
            scale_number_of_day: 90,
            conf_time_unit: ConfTimeUnit {
                number_of_hours_per_day: 8,
                number_of_day_per_week: 5,
                number_of_day_per_month: 22,
            },
        }
    }

    /// The clamped daily cost never exceeds 24 hours per day: a day cannot
    /// contain more task time than it has hours.
    pub proof fn lemma_daily_cost_at_most_24(self, u: TimeUnit, v: Rat)
        requires
            self.wf(),
            Self::amount_wf(v),
        ensures
            self.daily_num(u, v) <= 24 * self.daily_den(u, v),
            0 < self.daily_den(u, v),
            0 <= self.daily_num(u, v),
    {
        self.lemma_raw_daily_signs(u, v);
    }

    /// The unclamped daily cost has a positive denominator and non-negative
    /// numerator.
    proof fn lemma_raw_daily_signs(self, u: TimeUnit, v: Rat)
        requires
            self.wf(),
            Self::amount_wf(v),
        ensures
            0 < self.raw_daily_den(u, v),
            0 <= self.raw_daily_num(u, v),
            0 <= hours_num(u, v.num as int, self.conf_time_unit),
            0 < hours_den(u, v.den as int),
            0 <= rate_num(self.repeat_count_time_unit, self.repeat_count.num as int, self.conf_time_unit),
            0 < rate_den(self.repeat_count_time_unit, self.repeat_count.den as int, self.conf_time_unit),
    {
        let c = self.conf_time_unit;
        assert(0 <= hours_num(u, v.num as int, c) && 0 < hours_den(u, v.den as int) && 0
            <= rate_num(self.repeat_count_time_unit, self.repeat_count.num as int, c) && 0
            < rate_den(self.repeat_count_time_unit, self.repeat_count.den as int, c))
            by (nonlinear_arith)
            requires
                0 <= v.num,
                0 < v.den,
                0 <= self.repeat_count.num,
                0 < self.repeat_count.den,
                0 < c.number_of_hours_per_day,
                0 < c.number_of_day_per_week,
                0 < c.number_of_day_per_month,
                hours_num(u, v.num as int, c) == match u {
                    TimeUnit::Seconds => v.num as int,
                    TimeUnit::Minutes => v.num as int,
                    TimeUnit::Hours => v.num as int,
                    TimeUnit::Days => v.num * c.number_of_hours_per_day,
                    TimeUnit::Weeks => v.num * c.number_of_hours_per_day
                        * c.number_of_day_per_week,
                    TimeUnit::Months => v.num * c.number_of_hours_per_day
                        * c.number_of_day_per_month,
                    TimeUnit::Years => v.num * c.number_of_hours_per_day
                        * c.number_of_day_per_month * 12,
                },
                hours_den(u, v.den as int) == match u {
                    TimeUnit::Seconds => v.den * 3600,
                    TimeUnit::Minutes => v.den * 60,
                    _ => v.den as int,
                },
                rate_num(self.repeat_count_time_unit, self.repeat_count.num as int, c) == match self
                    .repeat_count_time_unit {
                    TimeUnit::Seconds => self.repeat_count.num * 3600
                        * c.number_of_hours_per_day,
                    TimeUnit::Minutes => self.repeat_count.num * 60 * c.number_of_hours_per_day,
                    TimeUnit::Hours => self.repeat_count.num * c.number_of_hours_per_day,
                    _ => self.repeat_count.num as int,
                },
                rate_den(self.repeat_count_time_unit, self.repeat_count.den as int, c) == match self
                    .repeat_count_time_unit {
                    TimeUnit::Weeks => self.repeat_count.den * c.number_of_day_per_week,
                    TimeUnit::Months => self.repeat_count.den * c.number_of_day_per_month,
                    TimeUnit::Years => self.repeat_count.den * c.number_of_day_per_month * 12,
                    _ => self.repeat_count.den as int,
                };
        assert(0 <= self.raw_daily_num(u, v) && 0 < self.raw_daily_den(u, v)) by (nonlinear_arith)
            requires
                0 <= hours_num(u, v.num as int, c),
                0 < hours_den(u, v.den as int),
                0 <= rate_num(self.repeat_count_time_unit, self.repeat_count.num as int, c),
                0 < rate_den(self.repeat_count_time_unit, self.repeat_count.den as int, c),
                self.raw_daily_num(u, v) == hours_num(u, v.num as int, c) * rate_num(
                    self.repeat_count_time_unit,
                    self.repeat_count.num as int,
                    c,
                ),
                self.raw_daily_den(u, v) == hours_den(u, v.den as int) * rate_den(
                    self.repeat_count_time_unit,
                    self.repeat_count.den as int,
                    c,
                );
    }

    /// Converting to hours preserves the order of amounts of the same unit:
    /// the hours fraction is the amount times a positive unit multiplier.
    proof fn lemma_hours_monotonic(self, u: TimeUnit, v1: Rat, v2: Rat)
        requires
            self.wf(),
            Self::amount_wf(v1),
            Self::amount_wf(v2),
            v1.num * v2.den <= v2.num * v1.den,
        ensures
            hours_num(u, v1.num as int, self.conf_time_unit) * hours_den(u, v2.den as int)
                <= hours_num(u, v2.num as int, self.conf_time_unit) * hours_den(u, v1.den as int),
    {
        let c = self.conf_time_unit;
        let hpd = c.number_of_hours_per_day as int;
        let dpw = c.number_of_day_per_week as int;
        let dpm = c.number_of_day_per_month as int;
        let n1 = v1.num as int;
        let d1 = v1.den as int;
        let n2 = v2.num as int;
        let d2 = v2.den as int;
        match u {
            TimeUnit::Seconds => {
                assert(n1 * (d2 * 3600) <= n2 * (d1 * 3600)) by (nonlinear_arith)
                    requires
                        n1 * d2 <= n2 * d1;
            },
            TimeUnit::Minutes => {
                assert(n1 * (d2 * 60) <= n2 * (d1 * 60)) by (nonlinear_arith)
                    requires
                        n1 * d2 <= n2 * d1;
            },
            TimeUnit::Hours => {},
            TimeUnit::Days => {
                assert(n1 * hpd * d2 <= n2 * hpd * d1) by (nonlinear_arith)
                    requires
                        n1 * d2 <= n2 * d1,
                        0 < hpd;
            },
            TimeUnit::Weeks => {
                assert(n1 * hpd * dpw * d2 <= n2 * hpd * dpw * d1) by (nonlinear_arith)
                    requires
                        n1 * d2 <= n2 * d1,
                        0 < hpd,
                        0 < dpw;
            },
            TimeUnit::Months => {
                assert(n1 * hpd * dpm * d2 <= n2 * hpd * dpm * d1) by (nonlinear_arith)
                    requires
                        n1 * d2 <= n2 * d1,
                        0 < hpd,
                        0 < dpm;
            },
            TimeUnit::Years => {
                assert(n1 * hpd * dpm * 12 * d2 <= n2 * hpd * dpm * 12 * d1) by (nonlinear_arith)
                    requires
                        n1 * d2 <= n2 * d1,
                        0 < hpd,
                        0 < dpm;
            },
        }
    }

    /// The clamped daily cost is monotonic non-decreasing in the amount of
    /// the per-occurrence cost: a task that costs no more per occurrence
    /// costs no more per day, whatever the recurrence.
    pub proof fn lemma_daily_cost_monotonic_in_amount(self, u: TimeUnit, v1: Rat, v2: Rat)
        requires
            self.wf(),
            Self::amount_wf(v1),
            Self::amount_wf(v2),
            v1.num * v2.den <= v2.num * v1.den,
        ensures
            self.daily_num(u, v1) * self.daily_den(u, v2) <= self.daily_num(u, v2)
                * self.daily_den(u, v1),
    {
        let c = self.conf_time_unit;
        self.lemma_hours_monotonic(u, v1, v2);
        self.lemma_raw_daily_signs(u, v1);
        self.lemma_raw_daily_signs(u, v2);
        let h1n = hours_num(u, v1.num as int, c);
        let h1d = hours_den(u, v1.den as int);
        let h2n = hours_num(u, v2.num as int, c);
        let h2d = hours_den(u, v2.den as int);
        let rn = rate_num(self.repeat_count_time_unit, self.repeat_count.num as int, c);
        let rd = rate_den(self.repeat_count_time_unit, self.repeat_count.den as int, c);
        assert(0 <= rn * rd) by (nonlinear_arith)
            requires
                0 <= rn,
                0 < rd;
        assert((h1n * rn) * (h2d * rd) <= (h2n * rn) * (h1d * rd)) by (nonlinear_arith)
            requires
                h1n * h2d <= h2n * h1d,
                0 <= rn * rd;
        lemma_clamped_le(
            self.raw_daily_num(u, v1),
            self.raw_daily_den(u, v1),
            self.raw_daily_num(u, v2),
            self.raw_daily_den(u, v2),
        );
    }

    /// The clamped daily cost is monotonic non-decreasing in the recurrence
    /// count: a task repeated no more often costs no more per day. The two
    /// scenarios must agree except possibly in `repeat_count`.
    pub proof fn lemma_daily_cost_monotonic_in_frequency(
        self,
        other: Scenario,
        u: TimeUnit,
        v: Rat,
    )
        requires
            self.wf(),
            other.wf(),
            Self::amount_wf(v),
            other.conf_time_unit == self.conf_time_unit,
            other.repeat_count_time_unit == self.repeat_count_time_unit,
            self.repeat_count.num * other.repeat_count.den <= other.repeat_count.num
                * self.repeat_count.den,
        ensures
            self.daily_num(u, v) * other.daily_den(u, v) <= other.daily_num(u, v)
                * self.daily_den(u, v),
    {
        let c = self.conf_time_unit;
        let ru = self.repeat_count_time_unit;
        self.lemma_raw_daily_signs(u, v);
        other.lemma_raw_daily_signs(u, v);
        let r1n = rate_num(ru, self.repeat_count.num as int, c);
        let r1d = rate_den(ru, self.repeat_count.den as int, c);
        let r2n = rate_num(ru, other.repeat_count.num as int, c);
        let r2d = rate_den(ru, other.repeat_count.den as int, c);
        let q1 = self.repeat_count.num as int;
        let e1 = self.repeat_count.den as int;
        let q2 = other.repeat_count.num as int;
        let e2 = other.repeat_count.den as int;
        let hpd = c.number_of_hours_per_day as int;
        let dpw = c.number_of_day_per_week as int;
        let dpm = c.number_of_day_per_month as int;
        assert(r1n * r2d <= r2n * r1d) by (nonlinear_arith)
            requires
                q1 * e2 <= q2 * e1,
                0 < hpd,
                0 < dpw,
                0 < dpm,
                r1n == match ru {
                    TimeUnit::Seconds => q1 * 3600 * hpd,
                    TimeUnit::Minutes => q1 * 60 * hpd,
                    TimeUnit::Hours => q1 * hpd,
                    _ => q1,
                },
                r2n == match ru {
                    TimeUnit::Seconds => q2 * 3600 * hpd,
                    TimeUnit::Minutes => q2 * 60 * hpd,
                    TimeUnit::Hours => q2 * hpd,
                    _ => q2,
                },
                r1d == match ru {
                    TimeUnit::Weeks => e1 * dpw,
                    TimeUnit::Months => e1 * dpm,
                    TimeUnit::Years => e1 * dpm * 12,
                    _ => e1,
                },
                r2d == match ru {
                    TimeUnit::Weeks => e2 * dpw,
                    TimeUnit::Months => e2 * dpm,
                    TimeUnit::Years => e2 * dpm * 12,
                    _ => e2,
                };
        let hn = hours_num(u, v.num as int, c);
        let hd = hours_den(u, v.den as int);
        assert(0 <= hn && 0 < hd) by (nonlinear_arith)
            requires
                0 <= v.num,
                0 < v.den,
                0 < hpd,
                0 < dpw,
                0 < dpm,
                hn == match u {
                    TimeUnit::Seconds => v.num as int,
                    TimeUnit::Minutes => v.num as int,
                    TimeUnit::Hours => v.num as int,
                    TimeUnit::Days => v.num * hpd,
                    TimeUnit::Weeks => v.num * hpd * dpw,
                    TimeUnit::Months => v.num * hpd * dpm,
                    TimeUnit::Years => v.num * hpd * dpm * 12,
                },
                hd == match u {
                    TimeUnit::Seconds => v.den * 3600,
                    TimeUnit::Minutes => v.den * 60,
                    _ => v.den as int,
                };
        assert(0 <= hn * hd) by (nonlinear_arith)
            requires
                0 <= hn,
                0 < hd;
        assert((hn * r1n) * (hd * r2d) <= (hn * r2n) * (hd * r1d)) by (nonlinear_arith)
            requires
                r1n * r2d <= r2n * r1d,
                0 <= hn * hd;
        lemma_clamped_le(
            self.raw_daily_num(u, v),
            self.raw_daily_den(u, v),
            other.raw_daily_num(u, v),
            other.raw_daily_den(u, v),
        );
    }

    /// Hours per day the task consumes when each occurrence costs
    /// `time_taken` of unit `time_unit`, clamped to 24 hours per day.
    pub fn daily_cost_hours(&self, time_unit: &TimeUnit, time_taken: Rat) -> (r: Rat)
        requires
            self.wf(),
            Self::amount_wf(time_taken),
        ensures
            r.num == self.daily_num(*time_unit, time_taken),
            r.den == self.daily_den(*time_unit, time_taken),
            r.wf(),
            0 <= r.num <= 24 * r.den,
            r.den <= 13_392_000_000,
    {
        let hours = time_unit.to_hours(time_taken, &self.conf_time_unit);
        let rate = self.repeat_count_time_unit.to_times_per_days(
            self.repeat_count,
            &self.conf_time_unit,
        );
        proof {
            assert(hours.num * rate.num <= 8_928_000_000 * 86_400_000_000 && hours.num * rate.num
                >= 0 && 0 < hours.den * rate.den <= 360_000 * 37_200)
                by (nonlinear_arith)
                requires
                    0 <= hours.num <= 8_928_000_000,
                    0 < hours.den <= 360_000,
                    0 <= rate.num <= 86_400_000_000,
                    0 < rate.den <= 37_200;
        }
        let raw = Rat { num: hours.num * rate.num, den: hours.den * rate.den };
        if raw.num <= 24 * raw.den {
            raw
        } else {
            Rat { num: 24, den: 1 }
        }
    }

    /// The cumulative hours spent on the task by day `t`: the clamped daily
    /// cost times the day index. Returns the pair `(t, cost)`, one sample
    /// point of a cost curve.
    pub fn time_taken_per_day_in_hours(&self, t: Rat, time_unit: &TimeUnit, time_taken: Rat) -> (r:
        (Rat, Rat))
        requires
            self.wf(),
            Self::amount_wf(time_taken),
            t.wf(),
            0 <= t.num <= 1_000_000_000_000_000,
            t.den <= 1_000_000_000_000_000,
        ensures
            r.0 == t,
            r.1.num == self.daily_num(*time_unit, time_taken) * t.num,
            r.1.den == self.daily_den(*time_unit, time_taken) * t.den,
            r.1.wf(),
            0 <= r.1.num,
    {
        let daily = self.daily_cost_hours(time_unit, time_taken);
        proof {
            assert(0 <= daily.num * t.num <= 321_408_000_000 * 1_000_000_000_000_000 && 0
                < daily.den * t.den <= 13_392_000_000 * 1_000_000_000_000_000)
                by (nonlinear_arith)
                requires
                    0 <= daily.num <= 24 * daily.den,
                    0 < daily.den <= 13_392_000_000,
                    0 <= t.num <= 1_000_000_000_000_000,
                    0 < t.den <= 1_000_000_000_000_000;
        }
        (t, Rat { num: daily.num * t.num, den: daily.den * t.den })
    }
}

} // verus!
