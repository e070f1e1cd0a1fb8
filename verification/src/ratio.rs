//! Ratios of two counts, kept as the pair they were made from.
//!
//! A ratio is read as the quotient of its two counts. With a denominator of
//! zero it is not guarded: a positive count over zero is infinite, a
//! negative one is infinite below zero, and zero over zero is no number at
//! all. Each of these is shown and compared as such.

use vstd::prelude::*;
use vstd::math::abs;
use crate::text::{fixed_two, magnitude, push_fixed_two};

verus! {

/// The quotient of two counts.
#[derive(Clone, Copy, Debug, PartialEq, Eq, Structural)]
pub struct Ratio {
    pub numerator: i32,
    pub denominator: i32,
}

impl Ratio {
    /// Zero over zero: not a number.
    pub open spec fn is_undefined(self) -> bool {
        self.denominator == 0 && self.numerator == 0
    }

    /// A count other than zero over zero.
    pub open spec fn is_infinite(self) -> bool {
        self.denominator == 0 && self.numerator != 0
    }

    /// Whether the ratio carries a minus sign. Zero is positive, and so is
    /// a zero denominator; zero over a negative count is a negative zero.
    pub open spec fn is_negative(self) -> bool {
        (self.numerator < 0) != (self.denominator < 0)
    }

    /// Whether the ratio lies strictly above the whole number `bound`.
    /// What is not a number lies above nothing.
    pub open spec fn above(self, bound: int) -> bool {
        if self.denominator > 0 {
            self.numerator > bound * self.denominator
        } else if self.denominator < 0 {
            self.numerator < bound * self.denominator
        } else {
            self.numerator > 0
        }
    }

    /// The ratio as it is shown: `NaN`, `inf` or `-inf` where the
    /// denominator is zero, and else the quotient with two decimal places,
    /// rounded to the nearest hundredth, a tie going to the even one.
    pub open spec fn shown(self) -> Seq<char> {
        if self.is_undefined() {
            "NaN"@
        } else if self.is_infinite() {
            if self.numerator < 0 {
                "-inf"@
            } else {
                "inf"@
            }
        } else {
            fixed_two(
                self.is_negative(),
                abs(self.numerator as int) as nat,
                abs(self.denominator as int) as nat,
            )
        }
    }

    /// The ratio of `numerator` to `denominator`.
    pub fn new(numerator: i32, denominator: i32) -> (ratio: Ratio)
        ensures
            ratio.numerator == numerator,
            ratio.denominator == denominator,
    {
        Ratio { numerator, denominator }
    }

    /// Whether the ratio lies strictly above `bound`.
    pub fn exceeds(&self, bound: u32) -> (b: bool)
        ensures
            b == self.above(bound as int),
    {
        let n: i64 = self.numerator as i64;
        let d: i64 = self.denominator as i64;
        let k: i64 = bound as i64;
        assert(-0x8000_0000_0000_0000 <= k * d <= 0x7fff_ffff_ffff_ffff) by (nonlinear_arith)
            requires
                0 <= k <= 0xffff_ffff,
                -0x8000_0000 <= d <= 0x7fff_ffff,
        ;
        if d > 0 {
            n > k * d
        } else if d < 0 {
            n < k * d
        } else {
            n > 0
        }
    }

    /// Appends the ratio as it is shown to `out`.
    pub fn push_shown(&self, out: &mut String)
        ensures
            final(out)@ == old(out)@ + self.shown(),
    {
        if self.denominator == 0 {
            if self.numerator == 0 {
                out.append("NaN");
            } else if self.numerator < 0 {
                out.append("-inf");
            } else {
                out.append("inf");
            }
        } else {
            let negative: bool = (self.numerator < 0) != (self.denominator < 0);
            push_fixed_two(
                out,
                negative,
                magnitude(self.numerator as i64),
                magnitude(self.denominator as i64),
            );
        }
    }
}

/// A ratio above a bound is above every lower bound.
pub proof fn lemma_above_lower_bound(ratio: Ratio, low: int, high: int)
    requires
        low <= high,
        ratio.above(high),
    ensures
        ratio.above(low),
{
    let d = ratio.denominator as int;
    if d > 0 {
        assert(low * d <= high * d) by (nonlinear_arith)
            requires
                low <= high,
                d > 0,
        ;
    } else if d < 0 {
        assert(low * d >= high * d) by (nonlinear_arith)
            requires
                low <= high,
                d < 0,
        ;
    }
}

} // verus!
