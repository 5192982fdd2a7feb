//! Exact non-negative rational numbers used for engineered features.
//!
//! Every derived statistic of the pipeline (accuracy rate, headshot ratio,
//! hit rate) is a quotient of two unsigned counters.  Instead of dividing in
//! floating point, the pipeline keeps the numerator and denominator exactly,
//! with the convention that a quotient with zero denominator is represented
//! by the zero ratio `0 / 1`.

use vstd::prelude::*;

verus! {

/// An exact non-negative rational number `num / den`.
///
/// A well-formed ratio has a strictly positive denominator; the zero
/// denominator case of a derived statistic is always normalised to
/// [`zero_ratio`] before a `Ratio` is built.
#[derive(Clone, Copy, Debug, PartialEq, Eq, Structural)]
pub struct Ratio {
    /// Numerator.
    pub num: u128,
    /// Denominator; strictly positive for a well-formed ratio.
    pub den: u128,
}

/// The canonical zero ratio `0 / 1`.
pub open spec fn zero_ratio() -> Ratio {
    Ratio { num: 0, den: 1 }
}

/// The ratio `n / d`, normalised to the zero ratio when `d == 0`.
///
/// This is the single zero-denominator rule of the whole pipeline: a
/// statistic whose denominator is zero is defined to be zero.
pub open spec fn ratio_of(n: int, d: int) -> Ratio {
    if d == 0 {
        zero_ratio()
    } else {
        Ratio { num: n as u128, den: d as u128 }
    }
}

/// `r > n / d`, compared exactly by cross multiplication.
pub open spec fn ratio_exceeds(r: Ratio, n: int, d: int) -> bool {
    r.num * d > n * r.den
}

impl Ratio {
    /// A well-formed ratio has a strictly positive denominator.
    pub open spec fn wf(self) -> bool {
        self.den > 0
    }

    /// Builds the ratio `n / d` from two counters, applying the
    /// zero-denominator rule.
    pub fn new(n: u64, d: u64) -> (r: Ratio)
        ensures
            r == ratio_of(n as int, d as int),
            r.wf(),
    {
        if d == 0 {
            Ratio { num: 0, den: 1 }
        } else {
            Ratio { num: n as u128, den: d as u128 }
        }
    }

    /// Decides whether this ratio strictly exceeds the threshold `n / d`.
    ///
    /// The comparison is exact cross multiplication; the caller must show
    /// that neither cross product overflows `u128`, which is immediate for
    /// the small thresholds of this library.
    pub fn exceeds(&self, n: u64, d: u64) -> (r: bool)
        requires
            d > 0,
            self.num * d <= u128::MAX,
            n * self.den <= u128::MAX,
        ensures
            r == ratio_exceeds(*self, n as int, d as int),
    {
        self.num * (d as u128) > (n as u128) * self.den
    }
}

} // verus!
