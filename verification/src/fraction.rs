//! Exact non-negative fractions, the model in which rates are stated.

use vstd::prelude::*;

verus! {

/// A fraction `num / den` of mathematical integers.
pub struct Fraction {
    pub num: int,
    pub den: int,
}

impl Fraction {
    /// The whole number `n`, as `n / 1`.
    pub open spec fn whole(n: int) -> Fraction {
        Fraction { num: n, den: 1 }
    }

    /// Two fractions denote the same number: they agree when multiplied
    /// out. Between fractions of positive denominators this is equality of
    /// the numbers they stand for.
    pub open spec fn same(self, other: Fraction) -> bool {
        self.num * other.den == other.num * self.den
    }

    /// This fraction is no greater than the other; both have positive
    /// denominators.
    pub open spec fn at_most(self, other: Fraction) -> bool
        recommends
            self.den > 0,
            other.den > 0,
    {
        self.num * other.den <= other.num * self.den
    }

    /// This fraction is less than the other; both have positive
    /// denominators.
    pub open spec fn below(self, other: Fraction) -> bool
        recommends
            self.den > 0,
            other.den > 0,
    {
        self.num * other.den < other.num * self.den
    }

    /// The sum of two fractions, over the product of their denominators.
    pub open spec fn plus(self, other: Fraction) -> Fraction {
        Fraction { num: self.num * other.den + other.num * self.den, den: self.den * other.den }
    }

    /// This fraction times `p / q`.
    pub open spec fn scaled(self, p: int, q: int) -> Fraction {
        Fraction { num: self.num * p, den: self.den * q }
    }
}

/// A rate held as an exact fraction of two machine integers.
#[derive(Clone, Copy, Debug, PartialEq, Eq, Structural)]
pub struct Rate {
    pub num: u128,
    pub den: u128,
}

impl View for Rate {
    type V = Fraction;

    open spec fn view(&self) -> Fraction {
        Fraction { num: self.num as int, den: self.den as int }
    }
}

} // verus!
