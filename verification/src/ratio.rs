//! Exact ratios of integers, in which the instance attributes are kept.

use vstd::prelude::*;

verus! {

/// A rational number `num / den`: the mathematical value of a [`Ratio`].
pub struct Rational {
    pub num: int,
    pub den: int,
}

impl Rational {
    /// A denominator is positive, a numerator is not negative.
    pub open spec fn wf(self) -> bool {
        0 <= self.num && 0 < self.den
    }

    /// `self < other`, for two well-formed values.
    pub open spec fn lt(self, other: Rational) -> bool {
        self.num * other.den < other.num * self.den
    }

    /// `self <= other`, for two well-formed values.
    pub open spec fn le(self, other: Rational) -> bool {
        self.num * other.den <= other.num * self.den
    }
}

/// The whole number `n` as a rational.
pub open spec fn whole(n: int) -> Rational {
    Rational { num: n, den: 1 }
}

/// A non-negative ratio of two integers. It is not reduced: `6 / 20` and
/// `3 / 10` are different values of this type for the same number.
#[derive(Debug, Clone, Copy, PartialEq, Eq, Structural)]
pub struct Ratio {
    pub num: u128,
    pub den: u128,
}

impl View for Ratio {
    type V = Rational;

    open spec fn view(&self) -> Rational {
        Rational { num: self.num as int, den: self.den as int }
    }
}

} // verus!
