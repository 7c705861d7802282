//! Exact fractions: the executable `Ratio` and its mathematical model
//! `Rational`.

use vstd::prelude::*;

verus! {

/// A fraction `num / den` of mathematical integers.
pub struct Rational {
    pub num: int,
    pub den: int,
}

impl Rational {
    /// The whole number `n`.
    pub open spec fn whole(n: int) -> Rational {
        Rational { num: n, den: 1 }
    }

    /// A fraction is valid when its denominator is positive.
    pub open spec fn is_valid(self) -> bool {
        self.den > 0
    }

    /// Whether two valid fractions denote the same number.
    pub open spec fn same_value(self, other: Rational) -> bool {
        self.num * other.den == other.num * self.den
    }

    /// Whether `self` denotes a smaller number than `other`, both valid.
    pub open spec fn less_than(self, other: Rational) -> bool {
        self.num * other.den < other.num * self.den
    }

    /// Whether `self` denotes a number no larger than `other`, both valid.
    pub open spec fn at_most(self, other: Rational) -> bool {
        self.num * other.den <= other.num * self.den
    }

    /// The product of two fractions.
    pub open spec fn times(self, other: Rational) -> Rational {
        Rational { num: self.num * other.num, den: self.den * other.den }
    }

    /// The quotient of two fractions; valid where `other` is positive.
    pub open spec fn over(self, other: Rational) -> Rational {
        Rational { num: self.num * other.den, den: self.den * other.num }
    }

    /// The difference of two fractions.
    pub open spec fn minus(self, other: Rational) -> Rational {
        Rational { num: self.num * other.den - other.num * self.den, den: self.den * other.den }
    }

    /// `self * per_unit` rounded to the nearest integer, a tie going to the
    /// even neighbour. Meant for valid fractions that are not negative.
    pub open spec fn rounded(self, per_unit: int) -> int {
        let scaled = self.num * per_unit;
        let floor = scaled / self.den;
        let rest = scaled % self.den;
        if 2 * rest > self.den || (2 * rest == self.den && floor % 2 == 1) {
            floor + 1
        } else {
            floor
        }
    }
}

/// A fraction of two machine integers. It is valid when `den` is not zero.
#[derive(Clone, Copy, Debug, PartialEq, Eq)]
pub struct Ratio {
    pub num: u64,
    pub den: u64,
}

impl View for Ratio {
    type V = Rational;

    open spec fn view(&self) -> Rational {
        Rational { num: self.num as int, den: self.den as int }
    }
}

/// The product of two 64-bit numbers fits in 128 bits.
proof fn lemma_product_fits(a: u64, b: u64)
    ensures
        0 <= a * b <= 0xFFFF_FFFF_FFFF_FFFE_0000_0000_0000_0001,
{
    assert(0 <= a * b <= 0xFFFF_FFFF_FFFF_FFFF * 0xFFFF_FFFF_FFFF_FFFF) by (nonlinear_arith)
        requires
            0 <= a <= 0xFFFF_FFFF_FFFF_FFFF,
            0 <= b <= 0xFFFF_FFFF_FFFF_FFFF,
    ;
}

impl Ratio {
    /// The whole number `n` as a fraction.
    pub fn whole(n: u64) -> (r: Ratio)
        ensures
            r@ == Rational::whole(n as int),
    {
        Ratio { num: n, den: 1 }
    }

    /// Whether `self` is smaller than `other`.
    pub fn less_than(&self, other: &Ratio) -> (smaller: bool)
        ensures
            smaller == self@.less_than(other@),
    {
        proof {
            lemma_product_fits(self.num, other.den);
            lemma_product_fits(other.num, self.den);
        }
        let left: u128 = self.num as u128 * other.den as u128;
        let right: u128 = other.num as u128 * self.den as u128;
        left < right
    }

    /// Whether `self` is no larger than `other`.
    pub fn at_most(&self, other: &Ratio) -> (no_larger: bool)
        ensures
            no_larger == self@.at_most(other@),
    {
        proof {
            lemma_product_fits(self.num, other.den);
            lemma_product_fits(other.num, self.den);
        }
        let left: u128 = self.num as u128 * other.den as u128;
        let right: u128 = other.num as u128 * self.den as u128;
        left <= right
    }

    /// `self * per_unit` rounded to the nearest integer, a tie going to the
    /// even neighbour.
    pub fn rounded(&self, per_unit: u64) -> (nearest: u128)
        requires
            self@.is_valid(),
        ensures
            nearest == self@.rounded(per_unit as int),
    {
        proof {
            lemma_product_fits(self.num, per_unit);
        }
        let scaled: u128 = self.num as u128 * per_unit as u128;
        let den: u128 = self.den as u128;
        let floor: u128 = scaled / den;
        let rest: u128 = scaled % den;
        assert(floor <= scaled) by (nonlinear_arith)
            requires
                floor == scaled / den,
                den >= 1,
        ;
        if 2 * rest > den || (2 * rest == den && floor % 2 == 1) {
            floor + 1
        } else {
            floor
        }
    }
}

/// The rounded value is the integer nearest to `r * per_unit`: it lies within
/// half a unit of it, and where it lies exactly half a unit away it is even.
pub proof fn rounded_is_nearest(r: Rational, per_unit: int)
    requires
        r.is_valid(),
    ensures
        ({
            let nearest = r.rounded(per_unit);
            let gap = r.num * per_unit - nearest * r.den;
            &&& -r.den <= 2 * gap <= r.den
            &&& (2 * gap == r.den || 2 * gap == -r.den) ==> nearest % 2 == 0
        }),
{
    let scaled = r.num * per_unit;
    let floor = scaled / r.den;
    let rest = scaled % r.den;
    vstd::arithmetic::div_mod::lemma_fundamental_div_mod(scaled, r.den);
    vstd::arithmetic::div_mod::lemma_mod_bound(scaled, r.den);
    assert(scaled == r.den * floor + rest);
    assert(r.den * floor == floor * r.den) by (nonlinear_arith);
    assert((floor + 1) * r.den == floor * r.den + r.den) by (nonlinear_arith);
}

/// Only one integer is nearest in that sense.
pub proof fn nearest_is_unique(r: Rational, per_unit: int, a: int, b: int)
    requires
        r.is_valid(),
        -r.den <= 2 * (r.num * per_unit - a * r.den) <= r.den,
        -r.den <= 2 * (r.num * per_unit - b * r.den) <= r.den,
        (2 * (r.num * per_unit - a * r.den) == r.den || 2 * (r.num * per_unit - a * r.den)
            == -r.den) ==> a % 2 == 0,
        (2 * (r.num * per_unit - b * r.den) == r.den || 2 * (r.num * per_unit - b * r.den)
            == -r.den) ==> b % 2 == 0,
    ensures
        a == b,
{
    let d = r.den;
    assert(-2 * d <= 2 * ((a - b) * d) <= 2 * d) by (nonlinear_arith)
        requires
            -d <= 2 * (r.num * per_unit - a * d) <= d,
            -d <= 2 * (r.num * per_unit - b * d) <= d,
    ;
    assert(-1 <= a - b <= 1) by (nonlinear_arith)
        requires
            d > 0,
            -2 * d <= 2 * ((a - b) * d) <= 2 * d,
    ;
    if a - b == 1 {
        assert((a - b) * d == d) by (nonlinear_arith)
            requires
                a - b == 1,
        ;
        assert(a * d == b * d + d) by (nonlinear_arith)
            requires
                a - b == 1,
        ;
    } else if a - b == -1 {
        assert(b * d == a * d + d) by (nonlinear_arith)
            requires
                a - b == -1,
        ;
    }
}

/// To denote the same number is an equivalence of valid fractions.
pub proof fn same_value_is_an_equivalence(a: Rational, b: Rational, c: Rational)
    requires
        a.is_valid(),
        b.is_valid(),
        c.is_valid(),
    ensures
        a.same_value(a),
        a.same_value(b) == b.same_value(a),
        a.same_value(b) && b.same_value(c) ==> a.same_value(c),
{
    if a.same_value(b) && b.same_value(c) {
        assert(a.num * c.den == c.num * a.den) by (nonlinear_arith)
            requires
                a.num * b.den == b.num * a.den,
                b.num * c.den == c.num * b.den,
                b.den > 0,
        {
            assert((a.num * c.den) * b.den == (a.num * b.den) * c.den);
            assert((c.num * a.den) * b.den == (c.num * b.den) * a.den);
            assert((b.num * a.den) * c.den == (b.num * c.den) * a.den);
        }
    }
}

/// Two valid fractions that denote the same number stand in the same order
/// to every valid fraction.
pub proof fn order_respects_value(a: Rational, b: Rational, c: Rational)
    requires
        a.is_valid(),
        b.is_valid(),
        c.is_valid(),
        a.same_value(b),
    ensures
        a.less_than(c) == b.less_than(c),
        c.less_than(a) == c.less_than(b),
        a.at_most(c) == b.at_most(c),
        c.at_most(a) == c.at_most(b),
{
    let left = a.num * c.den - c.num * a.den;
    let right = b.num * c.den - c.num * b.den;
    assert(left * b.den == right * a.den) by (nonlinear_arith)
        requires
            left == a.num * c.den - c.num * a.den,
            right == b.num * c.den - c.num * b.den,
            a.num * b.den == b.num * a.den,
    {
        assert((a.num * c.den) * b.den == (a.num * b.den) * c.den);
        assert((b.num * c.den) * a.den == (b.num * a.den) * c.den);
        assert((c.num * a.den) * b.den == (c.num * b.den) * a.den);
    }
    assert((left < 0) == (right < 0) && (left > 0) == (right > 0)) by (nonlinear_arith)
        requires
            left * b.den == right * a.den,
            a.den > 0,
            b.den > 0,
    ;
}

} // verus!
