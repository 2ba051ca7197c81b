//! Exact rational values: a mathematical model for specifications and two
//! machine representations.
use vstd::prelude::*;

verus! {

/// A rational number as a pair of mathematical integers. The value is
/// `num / den`; a pair with `den == 0` denotes no number.
pub struct Rational {
    pub num: int,
    pub den: int,
}

impl Rational {
    pub open spec fn of(num: int, den: int) -> Rational {
        Rational { num, den }
    }

    pub open spec fn whole(v: int) -> Rational {
        Rational { num: v, den: 1 }
    }

    pub open spec fn minus(self, o: Rational) -> Rational {
        Rational { num: self.num * o.den - o.num * self.den, den: self.den * o.den }
    }

    pub open spec fn times(self, o: Rational) -> Rational {
        Rational { num: self.num * o.num, den: self.den * o.den }
    }

    /// Division; the quotient denotes no number when `o` is zero.
    pub open spec fn over(self, o: Rational) -> Rational {
        Rational { num: self.num * o.den, den: self.den * o.num }
    }

    /// Both pairs denote the same number.
    pub open spec fn eqv(self, o: Rational) -> bool {
        self.num * o.den == o.num * self.den
    }

    pub open spec fn is_positive(self) -> bool {
        self.num * self.den > 0
    }
}

/// An input quantity `num / den` (odds, a probability, a price, a capital).
#[derive(Clone, Copy, Debug, PartialEq, Eq, Structural)]
pub struct Ratio {
    pub num: i64,
    pub den: i64,
}

impl View for Ratio {
    type V = Rational;

    open spec fn view(&self) -> Rational {
        Rational { num: self.num as int, den: self.den as int }
    }
}

impl Ratio {
    /// The denominator is positive, so the pair denotes a number.
    pub open spec fn wf(self) -> bool {
        self.den > 0
    }
}

/// A computed quantity `num / den`, wide enough to hold products of inputs.
#[derive(Clone, Copy, Debug, PartialEq, Eq, Structural)]
pub struct Fraction {
    pub num: i128,
    pub den: i128,
}

impl View for Fraction {
    type V = Rational;

    open spec fn view(&self) -> Rational {
        Rational { num: self.num as int, den: self.den as int }
    }
}

impl Fraction {
    pub open spec fn wf(self) -> bool {
        self.den > 0
    }
}

} // verus!
