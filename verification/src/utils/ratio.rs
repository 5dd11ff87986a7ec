//! Exact fractions.

use vstd::prelude::*;

verus! {

/// A quotient of two integers, kept exactly as it was formed.
///
/// The denominator may be zero: such a ratio stands for the infinite (or undefined) value that
/// the division has.
#[derive(Debug, Clone, Copy, PartialEq, Eq, Structural)]
pub struct Ratio {
    pub num: i128,
    pub den: u128,
}

impl Ratio {
    pub open spec fn zero_spec() -> Ratio {
        Ratio { num: 0, den: 1 }
    }

    pub open spec fn one_spec() -> Ratio {
        Ratio { num: 1, den: 1 }
    }

    pub fn new(num: i128, den: u128) -> (ratio: Self)
        ensures
            ratio == (Ratio { num, den }),
    {
        Ratio { num, den }
    }

    pub fn zero() -> (ratio: Self)
        ensures
            ratio == Ratio::zero_spec(),
    {
        Ratio { num: 0, den: 1 }
    }

    pub fn one() -> (ratio: Self)
        ensures
            ratio == Ratio::one_spec(),
    {
        Ratio { num: 1, den: 1 }
    }

    /// The value of the ratio is one, however it was formed.
    pub open spec fn is_one_spec(self) -> bool {
        self.den > 0 && self.num == self.den
    }

    pub fn is_one(&self) -> (one: bool)
        ensures
            one == self.is_one_spec(),
    {
        self.den > 0 && self.num > 0 && self.num as u128 == self.den
    }
}

/// `a / b` rounded to the nearest integer, halves away from zero, for `a >= 0` and `b > 0`.
pub open spec fn rounded(a: int, b: int) -> int {
    (2 * a + b) / (2 * b)
}

/// Divides with rounding to the nearest integer, halves up.
pub fn round_div(a: u128, b: u128) -> (quotient: u128)
    requires
        b > 0,
        2 * a + b <= u128::MAX,
        2 * b <= u128::MAX,
    ensures
        quotient == rounded(a as int, b as int),
{
    (2 * a + b) / (2 * b)
}

/// `a / b` rounded to the nearest integer, halves away from zero, for `b > 0`.
pub open spec fn rounded_away(a: int, b: int) -> int {
    if a >= 0 {
        rounded(a, b)
    } else {
        -rounded(-a, b)
    }
}

/// Divides with rounding to the nearest integer, halves away from zero.
pub fn round_div_signed(a: i64, b: u32) -> (quotient: i64)
    requires
        b > 0,
    ensures
        quotient == rounded_away(a as int, b as int),
{
    let magnitude: u128 = if a >= 0 {
        a as u128
    } else {
        (-(a as i128)) as u128
    };
    let quotient: u128 = round_div(magnitude, b as u128);
    proof {
        rounded_is_nearest(magnitude as int, b as int);
        assert(quotient <= magnitude) by (nonlinear_arith)
            requires
                2 * (b as int) * quotient <= 2 * magnitude + b,
                b >= 1,
                quotient >= 0,
                magnitude >= 0,
        ;
    }
    if a >= 0 {
        quotient as i64
    } else {
        (-(quotient as i128)) as i64
    }
}

/// The rounded quotient is the integer nearest to `a / b`: it is off by at most one half, and
/// it takes the upper neighbour when both are equally near.
pub proof fn rounded_is_nearest(a: int, b: int)
    requires
        0 <= a,
        0 < b,
    ensures
        2 * b * rounded(a, b) <= 2 * a + b,
        2 * a < 2 * b * rounded(a, b) + b,
        0 <= rounded(a, b),
{
    let q = rounded(a, b);
    vstd::arithmetic::div_mod::lemma_fundamental_div_mod(2 * a + b, 2 * b);
    vstd::arithmetic::div_mod::lemma_div_pos_is_pos(2 * a + b, 2 * b);
}

/// Rounding takes a whole quotient as it is, goes to a nearest integer otherwise, and takes the one
/// farther away from zero when two are equally near. It is symmetric about zero and keeps the order.
pub proof fn law_rounding(a: int, c: int, b: int)
    requires
        0 < b,
    ensures
        rounded_away(c * b, b) == c,
        2 * (b * rounded_away(a, b) - a) <= b,
        2 * (a - b * rounded_away(a, b)) <= b,
        a > 0 ==> 2 * (a - b * rounded_away(a, b)) < b,
        a < 0 ==> 2 * (b * rounded_away(a, b) - a) < b,
        rounded_away(-a, b) == -rounded_away(a, b),
        a <= c ==> rounded_away(a, b) <= rounded_away(c, b),
{
    lemma_rounding_is_near(a, b);
    lemma_rounding_is_near(c, b);
    lemma_rounding_is_near(c * b, b);
    let (p, q, r) = (rounded_away(a, b), rounded_away(c, b), rounded_away(c * b, b));
    assert(r == c) by (nonlinear_arith)
        requires
            0 < b,
            2 * (b * r - c * b) <= b,
            2 * (c * b - b * r) <= b,
    ;
    if a <= c && p > q {
        assert(b * p >= b * q + b) by (nonlinear_arith)
            requires
                0 < b,
                p >= q + 1,
        ;
    }
}

/// The rounded quotient is off by at most one half, and by less than one half towards zero.
proof fn lemma_rounding_is_near(a: int, b: int)
    requires
        0 < b,
    ensures
        2 * (b * rounded_away(a, b) - a) <= b,
        2 * (a - b * rounded_away(a, b)) <= b,
        a > 0 ==> 2 * (a - b * rounded_away(a, b)) < b,
        a < 0 ==> 2 * (b * rounded_away(a, b) - a) < b,
        a == 0 ==> rounded_away(a, b) == 0,
{
    let m = if a >= 0 { a } else { -a };
    rounded_is_nearest(m, b);
    let q = rounded(m, b);
    assert(2 * b * q == 2 * (b * q)) by (nonlinear_arith);
    assert(b * (-q) == -(b * q)) by (nonlinear_arith);
    if a == 0 {
        assert(q == 0) by (nonlinear_arith)
            requires
                0 < b,
                2 * b * q <= b,
                q >= 0,
        ;
    }
}

/// A ratio is one if it was formed from two equal numbers, and only then; a division by zero never
/// is.
pub proof fn law_ratios_of_equal_numbers_are_one(num: i128, den: u128)
    ensures
        den > 0 && num == den ==> (Ratio { num, den }).is_one_spec(),
        num != den ==> !(Ratio { num, den }).is_one_spec(),
        !(Ratio { num, den: 0 }).is_one_spec(),
        Ratio::one_spec().is_one_spec() && !Ratio::zero_spec().is_one_spec(),
{
}

} // verus!
