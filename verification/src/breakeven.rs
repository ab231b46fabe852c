//! The break-even solver.
//!
//! The before-curve is the line `a * day` and the after-curve the line
//! `invest + a1 * (day - start)` with `start = invest / hours_per_day`, both
//! with clamped daily costs `a` and `a1`. They cross at
//! `day = invest * (hours_per_day - a1) / (hours_per_day * (a - a1))`.
//! The solver classifies the crossing: no benefit when `a1 >= a`, not worth
//! it when the crossing lies at or before day 0, beyond the horizon when it
//! lies past the projection window, achieved otherwise.

use vstd::prelude::*;
use vstd::arithmetic::mul::lemma_mul_is_associative;
use crate::rat::Rat;
use crate::scenario::Scenario;

verus! {

/// Multiplying out a three-term sum.
proof fn lemma_mul_distributes_sub(x: int, y: int, z: int, w: int)
    ensures
        (x + y - z) * w == x * w + y * w - z * w,
{
    assert((x + y - z) * w == x * w + y * w - z * w) by (nonlinear_arith);
}

/// Multiplying out a difference.
proof fn lemma_mul_distributes_diff(x: int, z: int, w: int)
    ensures
        (x - z) * w == x * w - z * w,
{
    assert((x - z) * w == x * w - z * w) by (nonlinear_arith);
}

/// The outcome of the break-even analysis.
#[derive(Clone, Copy, PartialEq, Eq, Structural, Debug)]
pub enum BreakEvenResult {
    /// The optimization never pays for itself: it is not cheaper, or the
    /// scenario is ill-posed (a crossing at or before day 0).
    NotWorthIt,
    /// The optimization pays for itself, but only after the projection
    /// horizon, on day `day`.
    BeyondHorizon { day: Rat },
    /// The optimization pays for itself on day `day`, within the horizon;
    /// `saved_hours` is the total saving accumulated by the horizon.
    Achieved { day: Rat, saved_hours: Rat },
}

impl Scenario {
    /// Numerator of the daily saving `a - a1` over the denominator
    /// `before_daily_den * after_daily_den`: positive exactly when the
    /// optimized task is cheaper per day.
    pub open spec fn slope_gap(self) -> int {
        self.before_daily_num() * self.after_daily_den() - self.after_daily_num()
            * self.before_daily_den()
    }

    /// Numerator of `hours_per_day - a1` over the denominator
    /// `after_daily_den`: positive exactly when the optimized task leaves
    /// room in the working day to spend invested effort.
    pub open spec fn head_room(self) -> int {
        self.conf_time_unit.number_of_hours_per_day * self.after_daily_den()
            - self.after_daily_num()
    }

    /// Numerator of the break-even day
    /// `invest * (hours_per_day - a1) / (hours_per_day * (a - a1))`.
    pub open spec fn cross_num(self) -> int {
        self.invest_hours_num() * self.head_room() * self.before_daily_den()
    }

    /// Denominator of the break-even day; positive whenever `slope_gap` is.
    pub open spec fn cross_den(self) -> int {
        self.invest_hours_den() * self.conf_time_unit.number_of_hours_per_day * self.slope_gap()
    }

    /// Numerator of the hours saved by the horizon,
    /// `(a - a1) * horizon - invest * (hours_per_day - a1) / hours_per_day`,
    /// which equals `(a - a1) * (horizon - break-even day)`.
    pub open spec fn saved_num(self) -> int {
        self.horizon_days() * self.cross_den() - self.cross_num()
    }

    /// Denominator of the hours saved by the horizon.
    pub open spec fn saved_den(self) -> int {
        self.before_daily_den() * self.after_daily_den() * (self.invest_hours_den()
            * self.conf_time_unit.number_of_hours_per_day)
    }

    /// Finds the day the optimization pays for itself, per the scenario's
    /// horizon, and classifies the outcome.
    pub fn compute_break_even(&self) -> (r: BreakEvenResult)
        requires
            self.wf(),
        ensures
            r == BreakEvenResult::NotWorthIt <==> (self.slope_gap() <= 0 || self.cross_num() <= 0),
            (self.slope_gap() > 0 && self.cross_num() > 0 && self.cross_num() > self.horizon_days()
                * self.cross_den()) ==> r == (BreakEvenResult::BeyondHorizon {
                day: Rat { num: self.cross_num() as i128, den: self.cross_den() as i128 },
            }),
            (self.slope_gap() > 0 && self.cross_num() > 0 && self.cross_num() <= self.horizon_days()
                * self.cross_den()) ==> r == (BreakEvenResult::Achieved {
                day: Rat { num: self.cross_num() as i128, den: self.cross_den() as i128 },
                saved_hours: Rat { num: self.saved_num() as i128, den: self.saved_den() as i128 },
            }),
            r matches BreakEvenResult::BeyondHorizon { day } ==> day.wf() && 0 < day.num,
            r matches BreakEvenResult::Achieved { day, saved_hours } ==> day.wf() && 0 < day.num
                && day.num <= self.horizon_days() * day.den && saved_hours.wf() && 0
                <= saved_hours.num,
    {
        let a = self.daily_cost_hours(&self.before_taken_time_unit, self.before_taken_time);
        let a1 = self.daily_cost_hours(&self.after_taken_time_unit, self.after_taken_time);
        let i_h = self.invest_taken_time_unit.to_hours(self.invest_taken_time, &self.conf_time_unit);
        let h = self.conf_time_unit.number_of_hours_per_day as i128;
        let hz = self.scale_number_of_day as i128;
        proof {
            assert(0 <= a.num * a1.den <= 321_408_000_000 * 13_392_000_000 && 0 <= a1.num * a.den
                <= 321_408_000_000 * 13_392_000_000 && 0 <= h * a1.den <= 24 * 13_392_000_000)
                by (nonlinear_arith)
                requires
                    0 <= a.num <= 321_408_000_000,
                    0 < a.den <= 13_392_000_000,
                    0 <= a1.num <= 321_408_000_000,
                    0 < a1.den <= 13_392_000_000,
                    0 < h <= 24;
        }
        let q = a.num * a1.den - a1.num * a.den;
        if q <= 0 {
            return BreakEvenResult::NotWorthIt;
        }
        let p = h * a1.den - a1.num;
        proof {
            assert(-(8_928_000_000 * 642_816_000_000) <= i_h.num * p <= 8_928_000_000
                * 642_816_000_000 && -(8_928_000_000 * 642_816_000_000 * 13_392_000_000) <= i_h.num
                * p * a.den <= 8_928_000_000 * 642_816_000_000 * 13_392_000_000 && 0 < i_h.den * h
                <= 8_640_000 && 0 < i_h.den * h * q <= 8_640_000 * (321_408_000_000
                * 13_392_000_000))
                by (nonlinear_arith)
                requires
                    0 <= i_h.num <= 8_928_000_000,
                    0 < i_h.den <= 360_000,
                    -642_816_000_000 <= p <= 642_816_000_000,
                    0 < q <= 321_408_000_000 * 13_392_000_000,
                    0 < a.den <= 13_392_000_000,
                    0 < h <= 24;
        }
        let x_n = i_h.num * p * a.den;
        let x_d = i_h.den * h * q;
        if x_n <= 0 {
            return BreakEvenResult::NotWorthIt;
        }
        proof {
            assert(0 <= hz * x_d <= 10_000 * (8_640_000 * (321_408_000_000 * 13_392_000_000)))
                by (nonlinear_arith)
                requires
                    0 < x_d <= 8_640_000 * (321_408_000_000 * 13_392_000_000),
                    1 <= hz <= 10_000;
        }
        if x_n > hz * x_d {
            return BreakEvenResult::BeyondHorizon { day: Rat { num: x_n, den: x_d } };
        }
        proof {
            assert(0 < a.den * a1.den <= 13_392_000_000 * 13_392_000_000 && 0 < a.den * a1.den * (
            i_h.den * h) <= 13_392_000_000 * 13_392_000_000 * 8_640_000) by (nonlinear_arith)
                requires
                    0 < a.den <= 13_392_000_000,
                    0 < a1.den <= 13_392_000_000,
                    0 < i_h.den * h <= 8_640_000;
        }
        let s_n = hz * x_d - x_n;
        let s_d = a.den * a1.den * (i_h.den * h);
        BreakEvenResult::Achieved {
            day: Rat { num: x_n, den: x_d },
            saved_hours: Rat { num: s_n, den: s_d },
        }
    }

    /// The saving reported for the horizon is the gap between the two
    /// curves there: `saved_num / saved_den` equals the before-line at the
    /// horizon, `a * horizon`, minus the after-line at the horizon,
    /// `invest + a1 * horizon - a1 * (invest / hours_per_day)`, both written
    /// over the common denominator `saved_den`.
    pub proof fn lemma_saved_hours_matches_curves(self)
        requires
            self.wf(),
        ensures
            self.saved_num() == self.before_daily_num() * self.horizon_days() * (
            self.after_daily_den() * (self.invest_hours_den()
                * self.conf_time_unit.number_of_hours_per_day)) - (self.invest_hours_num()
                * self.after_daily_den() * self.conf_time_unit.number_of_hours_per_day
                + self.after_daily_num() * self.horizon_days() * (self.invest_hours_den()
                * self.conf_time_unit.number_of_hours_per_day) - self.after_daily_num()
                * self.invest_hours_num()) * self.before_daily_den(),
            self.saved_den() == self.before_daily_den() * (self.after_daily_den() * (
            self.invest_hours_den() * self.conf_time_unit.number_of_hours_per_day)),
    {
        let an = self.before_daily_num();
        let ad = self.before_daily_den();
        let a1n = self.after_daily_num();
        let a1d = self.after_daily_den();
        let inn = self.invest_hours_num();
        let idd = self.invest_hours_den();
        let h = self.conf_time_unit.number_of_hours_per_day as int;
        let hz = self.horizon_days();
        assert(self.saved_num() == hz * (idd * h * (an * a1d - a1n * ad)) - inn * (h * a1d - a1n)
            * ad);
        // distribute the slope gap over the horizon term and permute
        assert(hz * (idd * h * (an * a1d - a1n * ad)) == (an * a1d - a1n * ad) * (hz * (idd * h)))
            by (nonlinear_arith);
        lemma_mul_distributes_diff(an * a1d, a1n * ad, hz * (idd * h));
        assert((an * a1d) * (hz * (idd * h)) == an * hz * (a1d * (idd * h))) by (nonlinear_arith);
        assert((a1n * ad) * (hz * (idd * h)) == a1n * hz * (idd * h) * ad) by (nonlinear_arith);
        // distribute the head room over the investment term and permute
        assert(inn * (h * a1d - a1n) == inn * (h * a1d) - inn * a1n) by (nonlinear_arith);
        lemma_mul_distributes_diff(inn * (h * a1d), inn * a1n, ad);
        assert(inn * (h * a1d - a1n) * ad == (inn * (h * a1d) - inn * a1n) * ad)
            by (nonlinear_arith)
            requires
                inn * (h * a1d - a1n) == inn * (h * a1d) - inn * a1n;
        assert((inn * (h * a1d)) * ad == inn * a1d * h * ad) by (nonlinear_arith);
        assert((inn * a1n) * ad == a1n * inn * ad) by (nonlinear_arith);
        lemma_mul_distributes_sub(inn * a1d * h, a1n * hz * (idd * h), a1n * inn, ad);
        assert(self.saved_den() == ad * (a1d * (idd * h))) by (nonlinear_arith)
            requires
                self.saved_den() == ad * a1d * (idd * h);
    }

    /// No benefit, no break-even: when the optimized task costs exactly what
    /// the unoptimized one does (same amount, same unit), the daily saving is
    /// zero whatever the investment, and `compute_break_even` reports
    /// `NotWorthIt` by its contract.
    pub proof fn lemma_equal_costs_never_worth_it(self)
        requires
            self.wf(),
            self.after_taken_time == self.before_taken_time,
            self.after_taken_time_unit == self.before_taken_time_unit,
        ensures
            self.slope_gap() == 0,
    {
        assert(self.after_daily_num() == self.before_daily_num());
        assert(self.after_daily_den() == self.before_daily_den());
    }

    /// The returned day is where the two cost lines meet: the before-line
    /// `a * day` equals the after-line
    /// `invest + a1 * day - a1 * (invest / hours_per_day)` at
    /// `day = cross_num / cross_den`. Both sides are written as fractions
    /// over the common denominator
    /// `after_daily_den * invest_hours_den * hours_per_day * cross_den`
    /// and compared by cross-multiplication.
    pub proof fn lemma_cross_day_is_crossing(self)
        requires
            self.wf(),
            self.slope_gap() != 0,
        ensures
            self.before_daily_num() * self.cross_num() * (self.after_daily_den()
                * (self.invest_hours_den() * self.conf_time_unit.number_of_hours_per_day)
                * self.cross_den()) == (self.invest_hours_num() * self.after_daily_den()
                * self.conf_time_unit.number_of_hours_per_day * self.cross_den()
                + self.after_daily_num() * self.cross_num() * (self.invest_hours_den()
                * self.conf_time_unit.number_of_hours_per_day) - self.after_daily_num()
                * self.invest_hours_num() * self.cross_den()) * (self.before_daily_den()
                * self.cross_den()),
    {
        let an = self.before_daily_num();
        let ad = self.before_daily_den();
        let a1n = self.after_daily_num();
        let a1d = self.after_daily_den();
        let inn = self.invest_hours_num();
        let idd = self.invest_hours_den();
        let h = self.conf_time_unit.number_of_hours_per_day as int;
        let q = self.slope_gap();
        let p = self.head_room();
        let xn = self.cross_num();
        let xd = self.cross_den();
        assert(q == an * a1d - a1n * ad);
        assert(p == h * a1d - a1n);
        assert(xn == inn * p * ad);
        assert(xd == idd * h * q);
        // the slope gap absorbs the difference of the two numerator slopes,
        // and the head room cancels against the after-slope terms
        assert(an * p * a1d - a1n * p * ad == p * q) by (nonlinear_arith)
            requires
                q == an * a1d - a1n * ad;
        assert(p * q - a1d * h * q + a1n * q == 0) by (nonlinear_arith)
            requires
                p == h * a1d - a1n;
        assert(an * p * a1d == a1n * p * ad + a1d * h * q - a1n * q);
        // regroup both sides of the crossing equation around that identity
        assert(an * (inn * p * ad) * (a1d * (idd * h)) == (an * p * a1d) * (inn * ad * (idd * h)))
            by (nonlinear_arith);
        assert(an * xn * (a1d * (idd * h)) == (a1n * p * ad + a1d * h * q - a1n * q) * (inn * ad * (
        idd * h)));
        lemma_mul_distributes_sub(a1n * p * ad, a1d * h * q, a1n * q, inn * ad * (idd * h));
        assert((a1d * h * q) * (inn * ad * (idd * h)) == (inn * a1d * h * (idd * h * q)) * ad)
            by (nonlinear_arith);
        assert((a1n * p * ad) * (inn * ad * (idd * h)) == (a1n * (inn * p * ad) * (idd * h)) * ad)
            by (nonlinear_arith);
        assert((a1n * q) * (inn * ad * (idd * h)) == (a1n * inn * (idd * h * q)) * ad)
            by (nonlinear_arith);
        assert(an * xn * (a1d * (idd * h)) == (inn * a1d * h * xd) * ad + (a1n * xn * (idd * h))
            * ad - (a1n * inn * xd) * ad);
        lemma_mul_distributes_sub(inn * a1d * h * xd, a1n * xn * (idd * h), a1n * inn * xd, ad);
        assert(an * xn * (a1d * (idd * h)) == (inn * a1d * h * xd + a1n * xn * (idd * h) - a1n * inn
            * xd) * ad);
        // multiply through by the day's denominator to reach the stated form
        lemma_mul_is_associative(an * xn, a1d * (idd * h), xd);
        lemma_mul_is_associative(
            inn * a1d * h * xd + a1n * xn * (idd * h) - a1n * inn * xd,
            ad,
            xd,
        );
        assert(an * xn * (a1d * (idd * h) * xd) == (inn * a1d * h * xd + a1n * xn * (idd * h) - a1n
            * inn * xd) * (ad * xd));
    }
}

} // verus!
