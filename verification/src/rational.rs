//! Exact rational numbers.
//!
//! Pixel coordinates and matrix cells are carried as fractions of `i128`
//! integers instead of machine floats, so every arithmetic step in the crate
//! is exact. The bounds in the requires clauses below are generous envelopes
//! for the values that actually arise (inputs are 32-bit, so numerators stay
//! far below `i128` range); they exist only to rule out overflow.

use vstd::prelude::*;

verus! {

/// An exact fraction `num / den`. Constructors keep the denominator
/// positive, so the sign of the value is the sign of `num`.
#[derive(Clone, Copy, PartialEq, Eq, Structural, Debug)]
pub struct Rational {
    pub num: i128,
    pub den: i128,
}

/// A fraction in ghost form, for stating laws about compositions of
/// rational values without overflow concerns.
pub ghost struct Frac {
    pub num: int,
    pub den: int,
}

/// Two fractions denote the same rational value.
pub open spec fn frac_eq(a: Frac, b: Frac) -> bool {
    &&& a.den != 0
    &&& b.den != 0
    &&& a.num * b.den == b.num * a.den
}

pub open spec fn frac_mul(a: Frac, b: Frac) -> Frac {
    Frac { num: a.num * b.num, den: a.den * b.den }
}

pub open spec fn frac_add(a: Frac, b: Frac) -> Frac {
    Frac { num: a.num * b.den + b.num * a.den, den: a.den * b.den }
}

impl Rational {
    /// The denominator is positive.
    pub open spec fn wf(self) -> bool {
        self.den > 0
    }

    /// The value is exactly `n / d`.
    pub open spec fn is_frac(self, n: int, d: int) -> bool {
        &&& d != 0
        &&& self.num * d == n * self.den
    }

    /// Builds `num / den`, moving the sign into the numerator.
    pub fn new(num: i128, den: i128) -> (r: Rational)
        requires
            den != 0,
            i128::MIN < num,
            i128::MIN < den,
        ensures
            r.wf(),
            r.is_frac(num as int, den as int),
            r.num == num || r.num == -num,
            r.den == den || r.den == -den,
    {
        if den < 0 {
            proof {
                assert((-num) * den == num * (-den)) by (nonlinear_arith);
            }
            Rational { num: -num, den: -den }
        } else {
            Rational { num, den }
        }
    }

    pub fn zero() -> (r: Rational)
        ensures
            r == (Rational { num: 0, den: 1 }),
            r.wf(),
            r.is_frac(0, 1),
    {
        Rational { num: 0, den: 1 }
    }

    pub fn one() -> (r: Rational)
        ensures
            r == (Rational { num: 1, den: 1 }),
            r.wf(),
            r.is_frac(1, 1),
    {
        Rational { num: 1, den: 1 }
    }

    /// Multiplies by the fraction `n / d`, without reduction.
    pub fn scaled(self, n: i128, d: i128) -> (r: Rational)
        requires
            self.wf(),
            1 <= d <= 0x1_0000_0000,
            0 <= n <= 0x1_0000_0000,
            -0x1_0000_0000_0000_0000_0000 <= self.num <= 0x1_0000_0000_0000_0000_0000,
            self.den <= 0x8000_0000_0000_0000,
        ensures
            r.wf(),
            r.num == self.num * n,
            r.den == self.den * d,
    {
        proof {
            lemma_mul_in_range(
                self.num as int,
                n as int,
                0x1_0000_0000_0000_0000_0000,
                0x1_0000_0000,
            );
            lemma_mul_in_range(self.den as int, d as int, 0x8000_0000_0000_0000, 0x1_0000_0000);
            lemma_pos_mul_pos(self.den as int, d as int);
        }
        Rational { num: self.num * n, den: self.den * d }
    }

    /// Divides by `d`, then adds the offset `off_num / off_den`, without
    /// reduction: the result is `self / d + off_num / off_den`.
    pub fn div_offset(self, d: i128, off_num: i128, off_den: i128) -> (r: Rational)
        requires
            self.wf(),
            1 <= d <= 0x1_0000_0000,
            1 <= off_den <= 2,
            0 <= off_num <= 1,
            -0x1_0000_0000_0000_0000_0000 <= self.num <= 0x1_0000_0000_0000_0000_0000,
            self.den <= 0x8000_0000_0000_0000,
        ensures
            r.wf(),
            r.num == self.num * off_den + off_num * (self.den * d),
            r.den == (self.den * d) * off_den,
    {
        proof {
            lemma_mul_in_range(self.den as int, d as int, 0x8000_0000_0000_0000, 0x1_0000_0000);
            lemma_pos_mul_pos(self.den as int, d as int);
        }
        let wide_den: i128 = self.den * d;
        proof {
            lemma_mul_in_range(self.num as int, off_den as int, 0x1_0000_0000_0000_0000_0000, 2);
            lemma_mul_in_range(
                off_num as int,
                wide_den as int,
                1,
                0x8000_0000_0000_0000_0000_0000,
            );
            lemma_mul_in_range(
                wide_den as int,
                off_den as int,
                0x8000_0000_0000_0000_0000_0000,
                2,
            );
            lemma_pos_mul_pos(wide_den as int, off_den as int);
        }
        let num: i128 = self.num * off_den + off_num * wide_den;
        let den: i128 = wide_den * off_den;
        Rational { num, den }
    }
}

/// A product of factors bounded in magnitude is bounded by the product of
/// the bounds.
pub proof fn lemma_mul_in_range(x: int, y: int, a: int, b: int)
    by (nonlinear_arith)
    requires
        0 <= a,
        0 <= b,
        -a <= x <= a,
        -b <= y <= b,
    ensures
        -(a * b) <= x * y <= a * b,
{
}

/// A product of positive factors is positive.
pub proof fn lemma_pos_mul_pos(x: int, y: int)
    by (nonlinear_arith)
    requires
        x > 0,
        y > 0,
    ensures
        x * y > 0,
{
}

/// A product of nonzero factors is nonzero.
pub proof fn lemma_nonzero_mul(x: int, y: int)
    by (nonlinear_arith)
    requires
        x != 0,
        y != 0,
    ensures
        x * y != 0,
{
}

/// Multiplying two fractions respects value equality: the products of
/// value-equal fractions are value-equal. Stated over the raw cross
/// products, as `frac_eq` and `frac_mul` unfold to.
pub proof fn lemma_frac_mul_congruence(
    an: int,
    ad: int,
    xn: int,
    xd: int,
    bn: int,
    bd: int,
    yn: int,
    yd: int,
)
    by (nonlinear_arith)
    requires
        an * xd == xn * ad,
        bn * yd == yn * bd,
    ensures
        (an * bn) * (xd * yd) == (xn * yn) * (ad * bd),
{
}

/// Adding two fractions respects value equality, in the same raw form.
pub proof fn lemma_frac_add_congruence(
    an: int,
    ad: int,
    xn: int,
    xd: int,
    bn: int,
    bd: int,
    yn: int,
    yd: int,
)
    requires
        an * xd == xn * ad,
        bn * yd == yn * bd,
    ensures
        (an * bd + bn * ad) * (xd * yd) == (xn * yd + yn * xd) * (ad * bd),
{
    assert((an * bd + bn * ad) * (xd * yd) == (an * bd) * (xd * yd) + (bn * ad) * (xd * yd))
        by (nonlinear_arith);
    assert((an * bd) * (xd * yd) == (an * xd) * (bd * yd)) by (nonlinear_arith);
    assert((bn * ad) * (xd * yd) == (bn * yd) * (ad * xd)) by (nonlinear_arith);
    assert((an * xd) * (bd * yd) == (xn * ad) * (bd * yd));
    assert((bn * yd) * (ad * xd) == (yn * bd) * (ad * xd));
    assert((xn * ad) * (bd * yd) == (xn * yd) * (ad * bd)) by (nonlinear_arith);
    assert((yn * bd) * (ad * xd) == (yn * xd) * (ad * bd)) by (nonlinear_arith);
    assert((xn * yd + yn * xd) * (ad * bd) == (xn * yd) * (ad * bd) + (yn * xd) * (ad * bd))
        by (nonlinear_arith);
}

/// Value equality of fractions is transitive when the middle denominator is
/// nonzero.
pub proof fn lemma_frac_eq_trans(an: int, ad: int, bn: int, bd: int, cn: int, cd: int)
    by (nonlinear_arith)
    requires
        bd != 0,
        an * bd == bn * ad,
        bn * cd == cn * bd,
    ensures
        an * cd == cn * ad,
{
}

} // verus!
