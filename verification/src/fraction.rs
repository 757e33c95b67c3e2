//! Exact rational values in the unit interval.
//!
//! Quality metrics and scores are rational numbers in [0, 1]. They are kept
//! as explicit numerator/denominator pairs so that every formula of the
//! scoring engine is computed exactly, with no rounding anywhere.

use vstd::prelude::*;

verus! {

/// Largest denominator the engine ever produces: the common denominator of a
/// quality score over a payload of at most `u32::MAX` bytes (5 * 65025 * n^2).
pub const MAX_DEN: u128 = 5 * 65025 * 4294967296 * 4294967296;

/// A rational number in the unit interval, kept exactly.
#[derive(Clone, Copy, Debug, PartialEq, Eq, Structural)]
pub struct Frac {
    /// Numerator.
    pub num: u128,
    /// Denominator (never zero).
    pub den: u128,
}

impl Frac {
    /// Well-formed: a value in [0, 1] whose denominator is small enough that
    /// comparisons against parts-per-million thresholds cannot overflow.
    pub open spec fn wf(self) -> bool {
        0 < self.den <= MAX_DEN && self.num <= self.den
    }

    /// The rational value of `self` equals `p / q`.
    pub open spec fn is_ratio(self, p: int, q: int) -> bool {
        self.num * q == p * self.den
    }

    /// Exact zero.
    pub fn zero() -> (r: Frac)
        ensures
            r.wf(),
            r.is_ratio(0, 1),
            r.num == 0,
            r.den == 1,
    {
        Frac { num: 0, den: 1 }
    }

    /// Exact one.
    pub fn one() -> (r: Frac)
        ensures
            r.wf(),
            r.is_ratio(1, 1),
            r.num == 1,
            r.den == 1,
    {
        Frac { num: 1, den: 1 }
    }

    /// True iff the value is exactly zero.
    pub fn is_zero(&self) -> (r: bool)
        requires
            self.wf(),
        ensures
            r == (self.num == 0),
    {
        self.num == 0
    }

    /// True iff the value is exactly one.
    pub fn is_one(&self) -> (r: bool)
        requires
            self.wf(),
        ensures
            r == (self.num == self.den),
    {
        self.num == self.den
    }

    /// The value truncated to parts per million.
    pub fn as_ppm(&self) -> (r: u64)
        requires
            self.wf(),
        ensures
            r == (self.num as int) * 1000000 / (self.den as int),
            r <= 1000000,
    {
        proof {
            lemma_ppm_in_range(*self);
        }
        ((self.num * 1000000) / self.den) as u64
    }

    /// True iff the value is at least `t` parts per million.
    pub fn ge_ppm(&self, t: u32) -> (r: bool)
        requires
            self.wf(),
        ensures
            r == ((self.num as int) * 1000000 >= (t as int) * (self.den as int)),
    {
        proof {
            lemma_ppm_in_range(*self);
            assert((t as int) * (self.den as int) <= 4294967295 * (MAX_DEN as int))
                by (nonlinear_arith)
                requires
                    t <= 4294967295 && 0 < self.den <= MAX_DEN,
            ;
        }
        self.num * 1000000 >= (t as u128) * self.den
    }
}

proof fn lemma_ppm_in_range(f: Frac)
    requires
        f.wf(),
    ensures
        (f.num as int) * 1000000 / (f.den as int) <= 1000000,
        (f.num as int) * 1000000 <= (MAX_DEN as int) * 1000000,
{
    let n = f.num as int;
    let d = f.den as int;
    assert(n * 1000000 <= d * 1000000) by (nonlinear_arith)
        requires
            n <= d,
    ;
    assert(n * 1000000 / d <= d * 1000000 / d) by {
        vstd::arithmetic::div_mod::lemma_div_is_ordered(n * 1000000, d * 1000000, d);
    }
    assert(d * 1000000 / d == 1000000) by {
        vstd::arithmetic::div_mod::lemma_div_by_multiple(1000000, d);
    }
    assert(n * 1000000 <= MAX_DEN * 1000000) by (nonlinear_arith)
        requires
            n <= MAX_DEN,
    ;
}

} // verus!
