//! Exact rational numbers: the engine's substitute for floating point.
//!
//! A [`Rat`] is a fraction of two `i128`s with a positive denominator.
//! Fractions are kept unreduced; two `Rat`s denote the same quantity when
//! they cross-multiply equal, which is what [`Rat::same_value`] decides and
//! what contracts throughout the crate state.

use vstd::prelude::*;

verus! {

/// A rational number `num / den`. Well-formed values have `den > 0`.
#[derive(Clone, Copy, PartialEq, Eq, Structural, Debug)]
pub struct Rat {
    pub num: i128,
    pub den: i128,
}

impl Rat {
    /// A well-formed fraction has a positive denominator.
    pub open spec fn wf(self) -> bool {
        0 < self.den
    }

    /// Builds the fraction `num / den`.
    pub fn new(num: i128, den: i128) -> (r: Rat)
        requires
            0 < den,
        ensures
            r.num == num,
            r.den == den,
            r.wf(),
    {
        Rat { num, den }
    }

    /// Builds the whole number `n`.
    pub fn from_int(n: i128) -> (r: Rat)
        ensures
            r.num == n,
            r.den == 1,
            r.wf(),
    {
        Rat { num: n, den: 1 }
    }

    /// Decides whether two fractions denote the same rational value.
    pub fn same_value(&self, other: &Rat) -> (r: bool)
        requires
            self.wf(),
            other.wf(),
            -1_000_000_000_000_000_000 <= self.num <= 1_000_000_000_000_000_000,
            self.den <= 1_000_000_000_000_000_000,
            -1_000_000_000_000_000_000 <= other.num <= 1_000_000_000_000_000_000,
            other.den <= 1_000_000_000_000_000_000,
        ensures
            r <==> self.num * other.den == other.num * self.den,
    {
        proof {
            assert(self.num * other.den <= 1_000_000_000_000_000_000_000_000_000_000_000_000
                && self.num * other.den >= -1_000_000_000_000_000_000_000_000_000_000_000_000
                && other.num * self.den <= 1_000_000_000_000_000_000_000_000_000_000_000_000
                && other.num * self.den >= -1_000_000_000_000_000_000_000_000_000_000_000_000)
                by (nonlinear_arith)
                requires
                    -1_000_000_000_000_000_000 <= self.num <= 1_000_000_000_000_000_000,
                    0 < self.den <= 1_000_000_000_000_000_000,
                    -1_000_000_000_000_000_000 <= other.num <= 1_000_000_000_000_000_000,
                    0 < other.den <= 1_000_000_000_000_000_000;
        }
        self.num * other.den == other.num * self.den
    }
}

} // verus!
