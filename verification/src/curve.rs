//! The three cumulative cost curves: before, invested effort, after.
//!
//! Every curve is a vector of `(day, hours)` sample points. The horizon is
//! measured from day 0; the after-curve is empty before the investment
//! completes, and empty altogether when the investment does not complete
//! within the horizon.

use vstd::prelude::*;
use crate::rat::Rat;
use crate::scenario::Scenario;

verus! {

/// The before-, invested-effort- and after-curves of one scenario.
pub struct Curves {
    pub before: Vec<(Rat, Rat)>,
    pub invest: Vec<(Rat, Rat)>,
    pub after: Vec<(Rat, Rat)>,
}

impl Scenario {
    /// Number of sample points of the invested-effort curve: one per full
    /// working day the investment consumes, and never fewer than two, so a
    /// near-zero investment still yields a visible segment.
    pub open spec fn invest_curve_points(self) -> int {
        let f = self.invest_hours_num() / (self.invest_hours_den()
            * self.conf_time_unit.number_of_hours_per_day);
        if f < 2 {
            2
        } else {
            f
        }
    }

    /// Whether the investment completes only after the horizon, in which
    /// case the after-curve is empty.
    pub open spec fn after_start_exceeds_horizon(self) -> bool {
        self.invest_hours_num() > self.horizon_days() * (self.invest_hours_den()
            * self.conf_time_unit.number_of_hours_per_day)
    }

    /// Denominator of the after-curve's sampled day indexes.
    pub open spec fn after_t_den(self) -> int {
        self.invest_hours_den() * self.conf_time_unit.number_of_hours_per_day
            * self.horizon_days()
    }

    /// Numerator of the `k`-th sampled day index of the after-curve: the
    /// samples run from the completion day to the horizon.
    pub open spec fn after_t_num(self, k: int) -> int {
        self.invest_hours_num() * self.horizon_days() + (self.horizon_days()
            * self.invest_hours_den() * self.conf_time_unit.number_of_hours_per_day
            - self.invest_hours_num()) * k
    }

    /// Denominator of the after-curve's sampled cost values.
    pub open spec fn after_v_den(self) -> int {
        self.after_daily_den() * self.after_t_den()
    }

    /// Numerator of the `k`-th sampled cost value of the after-curve: the
    /// invested hours, plus the after-cost accumulated since the completion
    /// day, all over the common denominator `after_v_den`.
    pub open spec fn after_v_num(self, k: int) -> int {
        self.invest_hours_num() * (self.after_daily_den()
            * self.conf_time_unit.number_of_hours_per_day * self.horizon_days())
            + self.after_daily_num() * self.after_t_num(k) - self.after_daily_num()
            * self.invest_hours_num() * self.horizon_days()
    }

    /// The before-curve: cumulative hours of the unoptimized task, one
    /// sample per integer day from day 0 to the horizon. Linear: the
    /// clamped daily cost times the day index.
    pub fn before_curve(&self) -> (r: Vec<(Rat, Rat)>)
        requires
            self.wf(),
        ensures
            r@.len() == self.horizon_days() + 1,
            forall|k: int|
                0 <= k < r@.len() ==> {
                    &&& (#[trigger] r@[k]).0.num == k
                    &&& r@[k].0.den == 1
                    &&& r@[k].1.num == self.before_daily_num() * k
                    &&& r@[k].1.den == self.before_daily_den()
                    &&& r@[k].0.wf()
                    &&& r@[k].1.wf()
                },
    {
        let daily = self.daily_cost_hours(&self.before_taken_time_unit, self.before_taken_time);
        let hz = self.scale_number_of_day;
        let mut out: Vec<(Rat, Rat)> = Vec::new();
        let mut k: usize = 0;
        while k <= hz
            invariant
                self.wf(),
                daily.num == self.before_daily_num(),
                daily.den == self.before_daily_den(),
                0 <= daily.num <= 24 * daily.den,
                0 < daily.den <= 13_392_000_000,
                hz == self.scale_number_of_day,
                k <= hz + 1,
                out@.len() == k,
                forall|j: int|
                    0 <= j < k ==> {
                        &&& (#[trigger] out@[j]).0.num == j
                        &&& out@[j].0.den == 1
                        &&& out@[j].1.num == self.before_daily_num() * j
                        &&& out@[j].1.den == self.before_daily_den()
                        &&& out@[j].0.wf()
                        &&& out@[j].1.wf()
                    },
            decreases hz + 1 - k,
        {
            let ki = k as i128;
            proof {
                assert(0 <= daily.num * ki <= 321_408_000_000 * 10_000) by (nonlinear_arith)
                    requires
                        0 <= daily.num <= 321_408_000_000,
                        0 <= ki <= 10_000;
            }
            out.push((Rat { num: ki, den: 1 }, Rat { num: daily.num * ki, den: daily.den }));
            k = k + 1;
        }
        out
    }

    /// The invested-effort curve: the investment consumes a full working
    /// day per day until exhausted, so the curve climbs at
    /// `number_of_hours_per_day` hours per day from day 0 to the completion
    /// day, sampled at `invest_curve_points` evenly spaced points.
    pub fn invest_curve(&self) -> (r: Vec<(Rat, Rat)>)
        requires
            self.wf(),
        ensures
            r@.len() == self.invest_curve_points(),
            forall|i: int|
                0 <= i < r@.len() ==> {
                    &&& (#[trigger] r@[i]).0.num == self.invest_hours_num() * i
                    &&& r@[i].0.den == self.invest_hours_den()
                        * self.conf_time_unit.number_of_hours_per_day * (self.invest_curve_points()
                        - 1)
                    &&& r@[i].1.num == self.invest_hours_num() * i
                    &&& r@[i].1.den == self.invest_hours_den() * (self.invest_curve_points() - 1)
                    &&& r@[i].0.wf()
                    &&& r@[i].1.wf()
                },
    {
        let i_h = self.invest_taken_time_unit.to_hours(self.invest_taken_time, &self.conf_time_unit);
        let h = self.conf_time_unit.number_of_hours_per_day as i128;
        proof {
            assert(0 < i_h.den * h <= 8_640_000) by (nonlinear_arith)
                requires
                    0 < i_h.den <= 360_000,
                    0 < h <= 24;
        }
        let denom = i_h.den * h;
        let f = (i_h.num as u128 / denom as u128) as i128;
        proof {
            assert(i_h.num as u128 / denom as u128 == self.invest_hours_num() / (
            self.invest_hours_den() * self.conf_time_unit.number_of_hours_per_day)
                && i_h.num as u128 / denom as u128 <= i_h.num as u128) by (nonlinear_arith)
                requires
                    0 <= i_h.num,
                    i_h.num == self.invest_hours_num(),
                    denom == self.invest_hours_den() * self.conf_time_unit.number_of_hours_per_day,
                    0 < denom;
        }
        let n_pts: i128 = if f < 2 {
            2
        } else {
            f
        };
        let mut out: Vec<(Rat, Rat)> = Vec::new();
        let mut i: i128 = 0;
        while i < n_pts
            invariant
                self.wf(),
                i_h.num == self.invest_hours_num(),
                i_h.den == self.invest_hours_den(),
                0 <= i_h.num <= 8_928_000_000,
                0 < i_h.den <= 360_000,
                h == self.conf_time_unit.number_of_hours_per_day,
                0 < h <= 24,
                denom == i_h.den * h,
                0 < denom <= 8_640_000,
                n_pts == self.invest_curve_points(),
                2 <= n_pts <= 8_928_000_000,
                0 <= i <= n_pts,
                out@.len() == i,
                forall|j: int|
                    0 <= j < i ==> {
                        &&& (#[trigger] out@[j]).0.num == self.invest_hours_num() * j
                        &&& out@[j].0.den == self.invest_hours_den()
                            * self.conf_time_unit.number_of_hours_per_day * (
                        self.invest_curve_points() - 1)
                        &&& out@[j].1.num == self.invest_hours_num() * j
                        &&& out@[j].1.den == self.invest_hours_den() * (self.invest_curve_points()
                            - 1)
                        &&& out@[j].0.wf()
                        &&& out@[j].1.wf()
                    },
            decreases n_pts - i,
        {
            proof {
                assert(0 <= i_h.num * i <= 8_928_000_000 * 8_928_000_000 && 0 < denom * (n_pts - 1)
                    <= 8_640_000 * 8_928_000_000 && 0 < i_h.den * (n_pts - 1) <= 360_000
                    * 8_928_000_000 && i_h.num * i * i_h.den <= i_h.num * (i_h.den * (n_pts - 1))
                    && 0 <= i_h.num * i * i_h.den <= 8_928_000_000 * 8_928_000_000 * 360_000 && 0
                    <= i_h.num * (i_h.den * (n_pts - 1)) <= 8_928_000_000 * (360_000
                    * 8_928_000_000)) by (nonlinear_arith)
                    requires
                        0 <= i_h.num <= 8_928_000_000,
                        0 < i_h.den <= 360_000,
                        0 < denom <= 8_640_000,
                        0 <= i <= n_pts - 1,
                        2 <= n_pts <= 8_928_000_000;
            }
            let t = Rat { num: i_h.num * i, den: denom * (n_pts - 1) };
            let ht = Rat { num: i_h.num * i, den: i_h.den * (n_pts - 1) };
            // the hours already invested cannot exceed the total investment
            let v = if ht.num * i_h.den <= i_h.num * ht.den {
                ht
            } else {
                i_h
            };
            proof {
                if !(ht.num * i_h.den <= i_h.num * ht.den) {
                    assert(false) by (nonlinear_arith)
                        requires
                            ht.num == i_h.num * i,
                            ht.den == i_h.den * (n_pts - 1),
                            0 <= i <= n_pts - 1,
                            0 <= i_h.num,
                            0 < i_h.den,
                            !(ht.num * i_h.den <= i_h.num * ht.den);
                }
            }
            out.push((t, v));
            i = i + 1;
        }
        out
    }

    /// The after-curve: cumulative hours once the optimization is live. It
    /// starts at the completion day with exactly the invested hours and
    /// climbs at the clamped after-cost per day, sampled at horizon-many
    /// even steps up to the horizon. Empty when the investment does not
    /// complete within the horizon.
    pub fn after_curve(&self) -> (r: Vec<(Rat, Rat)>)
        requires
            self.wf(),
        ensures
            self.after_start_exceeds_horizon() ==> r@.len() == 0,
            !self.after_start_exceeds_horizon() ==> r@.len() == self.horizon_days() + 1,
            forall|k: int|
                0 <= k < r@.len() ==> {
                    &&& (#[trigger] r@[k]).0.num == self.after_t_num(k)
                    &&& r@[k].0.den == self.after_t_den()
                    &&& r@[k].1.num == self.after_v_num(k)
                    &&& r@[k].1.den == self.after_v_den()
                    &&& r@[k].0.wf()
                    &&& r@[k].1.wf()
                },
    {
        let i_h = self.invest_taken_time_unit.to_hours(self.invest_taken_time, &self.conf_time_unit);
        let a1 = self.daily_cost_hours(&self.after_taken_time_unit, self.after_taken_time);
        let h = self.conf_time_unit.number_of_hours_per_day as i128;
        let hz = self.scale_number_of_day as i128;
        proof {
            assert(0 < i_h.den * h <= 8_640_000 && hz * (i_h.den * h) <= 10_000 * 8_640_000 && hz
                * (i_h.den * h) >= 0) by (nonlinear_arith)
                requires
                    0 < i_h.den <= 360_000,
                    0 < h <= 24,
                    1 <= hz <= 10_000;
        }
        let mut out: Vec<(Rat, Rat)> = Vec::new();
        if i_h.num > hz * (i_h.den * h) {
            return out;
        }
        let t_den = i_h.den * h * hz;
        let step = hz * (i_h.den * h) - i_h.num;
        proof {
            assert(i_h.den * h * hz == i_h.den * h * hz && 0 < i_h.den * h * hz <= 86_400_000_000
                && 0 < a1.den * (i_h.den * h * hz) <= 13_392_000_000 * 86_400_000_000)
                by (nonlinear_arith)
                requires
                    0 < i_h.den * h <= 8_640_000,
                    1 <= hz <= 10_000,
                    0 < a1.den <= 13_392_000_000;
        }
        let v_den = a1.den * t_den;
        let mut k: i128 = 0;
        while k <= hz
            invariant
                self.wf(),
                i_h.num == self.invest_hours_num(),
                i_h.den == self.invest_hours_den(),
                0 <= i_h.num <= 8_928_000_000,
                0 < i_h.den <= 360_000,
                a1.num == self.after_daily_num(),
                a1.den == self.after_daily_den(),
                0 <= a1.num <= 24 * a1.den,
                0 < a1.den <= 13_392_000_000,
                h == self.conf_time_unit.number_of_hours_per_day,
                0 < h <= 24,
                hz == self.horizon_days(),
                1 <= hz <= 10_000,
                t_den == self.after_t_den(),
                0 < t_den <= 86_400_000_000,
                step == hz * (i_h.den * h) - i_h.num,
                0 <= step <= 86_400_000_000,
                v_den == self.after_v_den(),
                0 < v_den,
                0 <= k <= hz + 1,
                out@.len() == k,
                forall|j: int|
                    0 <= j < k ==> {
                        &&& (#[trigger] out@[j]).0.num == self.after_t_num(j)
                        &&& out@[j].0.den == self.after_t_den()
                        &&& out@[j].1.num == self.after_v_num(j)
                        &&& out@[j].1.den == self.after_v_den()
                        &&& out@[j].0.wf()
                        &&& out@[j].1.wf()
                    },
            decreases hz + 1 - k,
        {
            proof {
                assert(0 <= i_h.num * hz <= 8_928_000_000 * 10_000 && 0 <= step * k
                    <= 86_400_000_000 * 10_000 && 0 <= a1.den * h <= 13_392_000_000 * 24 && 0
                    <= a1.den * h * hz <= 13_392_000_000 * 24 * 10_000 && 0 <= i_h.num * (a1.den * h
                    * hz) <= 8_928_000_000 * (13_392_000_000 * 24 * 10_000) && 0 <= a1.num * (
                    i_h.num * hz + step * k) <= 321_408_000_000 * (8_928_000_000 * 10_000
                    + 86_400_000_000 * 10_000) && 0 <= a1.num * i_h.num <= 321_408_000_000
                    * 8_928_000_000 && 0 <= a1.num * i_h.num * hz <= 321_408_000_000
                    * 8_928_000_000 * 10_000) by (nonlinear_arith)
                    requires
                        0 <= i_h.num <= 8_928_000_000,
                        0 <= a1.num <= 321_408_000_000,
                        0 < a1.den <= 13_392_000_000,
                        0 < h <= 24,
                        1 <= hz <= 10_000,
                        0 <= step <= 86_400_000_000,
                        0 <= k <= hz;
            }
            let t_num = i_h.num * hz + step * k;
            let v_num = i_h.num * (a1.den * h * hz) + a1.num * t_num - a1.num * i_h.num * hz;
            proof {
                assert(v_num == self.after_v_num(k as int)) by (nonlinear_arith)
                    requires
                        v_num == i_h.num * (a1.den * h * hz) + a1.num * (i_h.num * hz + step * k)
                            - a1.num * i_h.num * hz,
                        i_h.num == self.invest_hours_num(),
                        i_h.den == self.invest_hours_den(),
                        a1.num == self.after_daily_num(),
                        a1.den == self.after_daily_den(),
                        h == self.conf_time_unit.number_of_hours_per_day,
                        hz == self.horizon_days(),
                        step == hz * (i_h.den * h) - i_h.num,
                        self.after_t_num(k as int) == self.invest_hours_num() * self.horizon_days()
                            + (self.horizon_days() * self.invest_hours_den()
                            * self.conf_time_unit.number_of_hours_per_day
                            - self.invest_hours_num()) * k,
                        self.after_v_num(k as int) == self.invest_hours_num() * (
                        self.after_daily_den() * self.conf_time_unit.number_of_hours_per_day
                            * self.horizon_days()) + self.after_daily_num() * self.after_t_num(
                            k as int,
                        ) - self.after_daily_num() * self.invest_hours_num() * self.horizon_days();
                assert(t_num == self.after_t_num(k as int)) by (nonlinear_arith)
                    requires
                        t_num == i_h.num * hz + step * k,
                        i_h.num == self.invest_hours_num(),
                        i_h.den == self.invest_hours_den(),
                        h == self.conf_time_unit.number_of_hours_per_day,
                        hz == self.horizon_days(),
                        step == hz * (i_h.den * h) - i_h.num,
                        self.after_t_num(k as int) == self.invest_hours_num() * self.horizon_days()
                            + (self.horizon_days() * self.invest_hours_den()
                            * self.conf_time_unit.number_of_hours_per_day
                            - self.invest_hours_num()) * k;
            }
            out.push((Rat { num: t_num, den: t_den }, Rat { num: v_num, den: v_den }));
            k = k + 1;
        }
        out
    }

    /// Computes the three curves of the scenario at once.
    pub fn compute_curves(&self) -> (r: Curves)
        requires
            self.wf(),
        ensures
            r.before@.len() == self.horizon_days() + 1,
            forall|k: int|
                0 <= k < r.before@.len() ==> {
                    &&& (#[trigger] r.before@[k]).0.num == k
                    &&& r.before@[k].0.den == 1
                    &&& r.before@[k].1.num == self.before_daily_num() * k
                    &&& r.before@[k].1.den == self.before_daily_den()
                },
            r.invest@.len() == self.invest_curve_points(),
            forall|i: int|
                0 <= i < r.invest@.len() ==> {
                    &&& (#[trigger] r.invest@[i]).0.num == self.invest_hours_num() * i
                    &&& r.invest@[i].0.den == self.invest_hours_den()
                        * self.conf_time_unit.number_of_hours_per_day * (self.invest_curve_points()
                        - 1)
                    &&& r.invest@[i].1.num == self.invest_hours_num() * i
                    &&& r.invest@[i].1.den == self.invest_hours_den() * (self.invest_curve_points()
                        - 1)
                },
            self.after_start_exceeds_horizon() ==> r.after@.len() == 0,
            !self.after_start_exceeds_horizon() ==> r.after@.len() == self.horizon_days() + 1,
            forall|k: int|
                0 <= k < r.after@.len() ==> {
                    &&& (#[trigger] r.after@[k]).0.num == self.after_t_num(k)
                    &&& r.after@[k].0.den == self.after_t_den()
                    &&& r.after@[k].1.num == self.after_v_num(k)
                    &&& r.after@[k].1.den == self.after_v_den()
                },
    {
        Curves { before: self.before_curve(), invest: self.invest_curve(), after: self.after_curve() }
    }

    /// The before-curve is linear: the cumulative cost at day `2 * d` is
    /// exactly twice the cost at day `d`. The 24-hour clamp applies to the
    /// daily rate before it is accumulated, so linearity holds with no
    /// proviso.
    pub proof fn lemma_before_curve_linear(self, d: int)
        requires
            self.wf(),
        ensures
            self.before_daily_num() * (2 * d) == 2 * (self.before_daily_num() * d),
    {
        assert(self.before_daily_num() * (2 * d) == 2 * (self.before_daily_num() * d))
            by (nonlinear_arith);
    }

    /// The after-curve's first sample lies at the completion day and its
    /// value is exactly the invested hours: the curve is normalized to
    /// start at `investmentHours`.
    pub proof fn lemma_after_curve_starts_at_investment(self)
        requires
            self.wf(),
        ensures
            self.after_t_num(0) * (self.invest_hours_den()
                * self.conf_time_unit.number_of_hours_per_day) == self.invest_hours_num()
                * self.after_t_den(),
            self.after_v_num(0) * self.invest_hours_den() == self.invest_hours_num()
                * self.after_v_den(),
    {
        let i_n = self.invest_hours_num();
        let i_d = self.invest_hours_den();
        let h = self.conf_time_unit.number_of_hours_per_day as int;
        let hz = self.horizon_days();
        let a1n = self.after_daily_num();
        let a1d = self.after_daily_den();
        assert((i_n * hz + (hz * i_d * h - i_n) * 0) * (i_d * h) == i_n * (i_d * h * hz))
            by (nonlinear_arith);
        assert(self.after_t_num(0) == i_n * hz + (hz * i_d * h - i_n) * 0);
        assert(a1n * (i_n * hz + (hz * i_d * h - i_n) * 0) == a1n * i_n * hz) by (nonlinear_arith);
        assert((i_n * (a1d * h * hz)) * i_d == i_n * (a1d * (i_d * h * hz))) by (nonlinear_arith);
        assert(self.after_v_num(0) == i_n * (a1d * h * hz) + a1n * (i_n * hz + (hz * i_d * h - i_n)
            * 0) - a1n * i_n * hz);
    }
}

} // verus!
