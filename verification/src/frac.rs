//! Exact rational numbers.
//!
//! Camera positions, scales and input deltas are held as fractions of
//! two machine integers.  Every arithmetic operation is exact, so the
//! contracts of the camera algorithms can state their results without
//! any error tolerance.  The mathematical value of a fraction is
//! described by [`FracVal`], a pair of unbounded integers; executable
//! operations mirror the corresponding specification operation
//! representation-for-representation.

use vstd::prelude::*;

use vstd::arithmetic::div_mod::lemma_fundamental_div_mod;
use vstd::arithmetic::div_mod::lemma_mod_multiples_vanish;
use vstd::arithmetic::div_mod::lemma_mod_self_0;
use vstd::arithmetic::div_mod::lemma_small_mod;
use vstd::math::abs;

verus! {

/// Magnitude bound on the numerator and denominator of a well-formed
/// [`Frac`].  Keeping both within this bound lets every product of two
/// of them be computed in 128-bit arithmetic without overflow.
pub const MAG_LIMIT: i128 = 0x7fff_ffff_ffff_ffff;

/// The mathematical value of a [`Frac`]: the rational `num / den`.
pub struct FracVal {
    /// Numerator; carries the sign.
    pub num: int,
    /// Denominator; positive for a well-formed value.
    pub den: int,
}

/// A well-formed fraction value: positive denominator, and both parts
/// within [`MAG_LIMIT`] so that executable arithmetic cannot overflow.
pub open spec fn fval_ok(v: FracVal) -> bool {
    &&& 0 < v.den <= MAG_LIMIT
    &&& -MAG_LIMIT <= v.num <= MAG_LIMIT
}

/// The value zero.
pub open spec fn fzero() -> FracVal {
    FracVal { num: 0, den: 1 }
}

/// The value one.
pub open spec fn fone() -> FracVal {
    FracVal { num: 1, den: 1 }
}

/// Negation.
pub open spec fn fneg(a: FracVal) -> FracVal {
    FracVal { num: -a.num, den: a.den }
}

/// Sum, on the common denominator.
pub open spec fn fadd(a: FracVal, b: FracVal) -> FracVal {
    FracVal { num: a.num * b.den + b.num * a.den, den: a.den * b.den }
}

/// Difference, on the common denominator.
pub open spec fn fsub(a: FracVal, b: FracVal) -> FracVal {
    FracVal { num: a.num * b.den - b.num * a.den, den: a.den * b.den }
}

/// Product.
pub open spec fn fmul(a: FracVal, b: FracVal) -> FracVal {
    FracVal { num: a.num * b.num, den: a.den * b.den }
}

/// Quotient `a / b`; the sign moves to the numerator so that the
/// denominator stays positive whenever `b` is nonzero.
pub open spec fn fdiv(a: FracVal, b: FracVal) -> FracVal {
    let n = a.num * b.den;
    let d = a.den * b.num;
    if d < 0 {
        FracVal { num: -n, den: -d }
    } else {
        FracVal { num: n, den: d }
    }
}

/// Half of `a`.
pub open spec fn fhalf(a: FracVal) -> FracVal {
    FracVal { num: a.num, den: a.den * 2 }
}

/// Order on fraction values, by cross multiplication; the denominators
/// must be positive for this to agree with the rational order.
pub open spec fn fle(a: FracVal, b: FracVal) -> bool {
    a.num * b.den <= b.num * a.den
}

/// Strict order on fraction values.
pub open spec fn flt(a: FracVal, b: FracVal) -> bool {
    a.num * b.den < b.num * a.den
}

/// Equality of the rational values, regardless of representation.
pub open spec fn feq(a: FracVal, b: FracVal) -> bool {
    a.num * b.den == b.num * a.den
}

/// The smaller of two values; `a` when they are equal.
pub open spec fn fmin(a: FracVal, b: FracVal) -> FracVal {
    if fle(a, b) {
        a
    } else {
        b
    }
}

/// Strictly positive value (with a positive denominator).
pub open spec fn fpos(a: FracVal) -> bool {
    a.num > 0
}

/// A mathematically meaningful fraction value: positive denominator.
/// Weaker than [`fval_ok`], which also bounds the magnitudes; the
/// general laws of the library only need this.
pub open spec fn fvalid(v: FracVal) -> bool {
    0 < v.den
}

/// Bounds a product of two magnitudes.
proof fn lemma_mul_mag(a: int, b: int, m: int) by (nonlinear_arith)
    requires
        -m <= a <= m,
        -m <= b <= m,
        0 <= m,
    ensures
        -(m * m) <= a * b <= m * m,
{
}

/// Transitivity of the cross-multiplied order, on raw parts.
proof fn lemma_cross_trans(an: int, ad: int, bn: int, bd: int, cn: int, cd: int)
    by (nonlinear_arith)
    requires
        ad > 0,
        bd > 0,
        cd > 0,
        an * bd <= bn * ad,
        bn * cd <= cn * bd,
    ensures
        an * cd <= cn * ad,
{
}

/// The order on fraction values is transitive.
pub proof fn lemma_fle_trans(a: FracVal, b: FracVal, c: FracVal)
    requires
        fvalid(a),
        fvalid(b),
        fvalid(c),
        fle(a, b),
        fle(b, c),
    ensures
        fle(a, c),
{
    lemma_cross_trans(a.num, a.den, b.num, b.den, c.num, c.den);
}

/// A product of positives is positive.
proof fn lemma_mul_pos_parts(a: int, b: int) by (nonlinear_arith)
    requires
        a > 0,
        b > 0,
    ensures
        a * b > 0,
{
}

/// The quotient of two positive values is positive.
pub proof fn lemma_fdiv_pos(s: FracVal, v: FracVal)
    requires
        fvalid(s),
        fvalid(v),
        fpos(s),
        fpos(v),
    ensures
        fvalid(fdiv(s, v)),
        fpos(fdiv(s, v)),
{
    lemma_mul_pos_parts(s.num, v.den);
    lemma_mul_pos_parts(s.den, v.num);
}

/// Sums, differences, products and halves of valid values are valid:
/// their denominators stay positive.
pub proof fn lemma_ops_valid(a: FracVal, b: FracVal)
    requires
        fvalid(a),
        fvalid(b),
    ensures
        fvalid(fadd(a, b)),
        fvalid(fsub(a, b)),
        fvalid(fmul(a, b)),
        fvalid(fhalf(a)),
{
    lemma_mul_pos_parts(a.den, b.den);
}

/// A product of positive values is positive and valid.
pub proof fn lemma_fmul_pos(a: FracVal, b: FracVal)
    requires
        fvalid(a),
        fvalid(b),
        fpos(a),
        fpos(b),
    ensures
        fvalid(fmul(a, b)),
        fpos(fmul(a, b)),
{
    lemma_mul_pos_parts(a.den, b.den);
    lemma_mul_pos_parts(a.num, b.num);
}

/// A quotient by a positive divisor is valid, whatever its sign.
pub proof fn lemma_fdiv_valid(s: FracVal, v: FracVal)
    requires
        fvalid(s),
        fvalid(v),
        fpos(v),
    ensures
        fvalid(fdiv(s, v)),
{
    lemma_mul_pos_parts(s.den, v.num);
}

/// Rearrangement behind [`lemma_le_div_mul`], on raw parts.
proof fn lemma_cross_divmul(an: int, ad: int, sn: int, sd: int, vn: int, vd: int)
    by (nonlinear_arith)
    requires
        ad > 0,
        sd > 0,
        vd > 0,
        vn > 0,
        an * (sd * vn) <= (sn * vd) * ad,
    ensures
        (an * vn) * sd <= sn * (ad * vd),
{
}

/// A value below the quotient `s / v`, scaled back up by the positive
/// divisor `v`, stays below `s`.
pub proof fn lemma_le_div_mul(a: FracVal, s: FracVal, v: FracVal)
    requires
        fvalid(a),
        fvalid(s),
        fvalid(v),
        fpos(v),
        fle(a, fdiv(s, v)),
    ensures
        fle(fmul(a, v), s),
{
    lemma_mul_pos_parts(s.den, v.num);
    lemma_cross_divmul(a.num, a.den, s.num, s.den, v.num, v.den);
}

/// Anything at least as large as a positive value is positive.
pub proof fn lemma_fle_pos(a: FracVal, b: FracVal)
    requires
        fvalid(a),
        fvalid(b),
        fpos(a),
        fle(a, b),
    ensures
        fpos(b),
{
    lemma_mul_pos_parts(a.num, b.den);
    assert(b.num * a.den > 0);
    assert(b.num > 0) by (nonlinear_arith)
        requires
            b.num * a.den > 0,
            a.den > 0,
    ;
}

/// Divisibility survives taking a remainder: a common divisor of `a`
/// and `b` also divides `a % b`.
proof fn lemma_mod_preserves_divisor(a: int, b: int, d: int)
    requires
        0 <= a,
        0 < b,
        0 < d,
        a % d == 0,
        b % d == 0,
    ensures
        (a % b) % d == 0,
{
    lemma_fundamental_div_mod(a, b);
    lemma_fundamental_div_mod(a, d);
    lemma_fundamental_div_mod(b, d);
    let q = a / b;
    let r = a % b;
    let x = a / d;
    let y = b / d;
    assert(r == d * (x - y * q) + 0) by (nonlinear_arith)
        requires
            a == b * q + r,
            a == d * x + 0,
            b == d * y + 0,
    ;
    lemma_mod_multiples_vanish(x - y * q, 0, d);
    lemma_small_mod(0, d as nat);
}

/// Divisibility climbs back up Euclid's recursion: what divides `b`
/// and `a % b` divides `a`.
proof fn lemma_mod_zero_transfer(a: int, b: int, g: int)
    requires
        0 <= a,
        0 < b,
        0 < g,
        b % g == 0,
        (a % b) % g == 0,
    ensures
        a % g == 0,
{
    lemma_fundamental_div_mod(a, b);
    lemma_fundamental_div_mod(b, g);
    let q = a / b;
    let r = a % b;
    let k = b / g;
    assert(a == g * (k * q) + r) by (nonlinear_arith)
        requires
            a == b * q + r,
            b == g * k + 0,
    ;
    lemma_mod_multiples_vanish(k * q, r, g);
}

/// Euclid's algorithm: a positive common divisor of `a` and `b` that
/// every common divisor divides — their greatest.
fn gcd_u64(a: u64, b: u64) -> (g: u64)
    requires
        b > 0,
    ensures
        0 < g <= b,
        a % g == 0,
        b % g == 0,
        forall|d: int|
            0 < d && (a as int) % d == 0 && (b as int) % d == 0
                ==> #[trigger] ((g as int) % d) == 0,
    decreases b,
{
    let r = a % b;
    if r == 0 {
        proof {
            lemma_mod_self_0(b as int);
        }
        b
    } else {
        let g = gcd_u64(b, r);
        proof {
            lemma_mod_zero_transfer(a as int, b as int, g as int);
            assert forall|d: int|
                0 < d && (a as int) % d == 0 && (b as int) % d == 0
                    implies #[trigger] ((g as int) % d) == 0 by {
                lemma_mod_preserves_divisor(a as int, b as int, d);
            }
        }
        g
    }
}

/// An exact rational number, the numeric type of the whole library.
#[derive(Clone, Copy, PartialEq, Eq, Debug)]
pub struct Frac {
    /// Numerator; carries the sign.
    pub num: i128,
    /// Denominator; positive for a well-formed value.
    pub den: i128,
}

impl View for Frac {
    type V = FracVal;

    open spec fn view(&self) -> FracVal {
        FracVal { num: self.num as int, den: self.den as int }
    }
}

impl Frac {
    /// Well-formedness: the mathematical value is a well-formed
    /// fraction value.
    pub open spec fn wf(self) -> bool {
        fval_ok(self@)
    }

    /// Builds the fraction `num / den`.
    pub fn new(num: i64, den: i64) -> (r: Frac)
        requires
            den > 0,
            -MAG_LIMIT <= num as int,
        ensures
            r.wf(),
            r@ == (FracVal { num: num as int, den: den as int }),
    {
        Frac { num: num as i128, den: den as i128 }
    }

    /// Builds the whole number `num`.
    pub fn from_whole(num: i64) -> (r: Frac)
        requires
            -MAG_LIMIT <= num as int,
        ensures
            r.wf(),
            r@ == (FracVal { num: num as int, den: 1 }),
    {
        Frac { num: num as i128, den: 1 }
    }

    /// The value zero.
    pub fn zero() -> (r: Frac)
        ensures
            r.wf(),
            r@ == fzero(),
    {
        Frac { num: 0, den: 1 }
    }

    /// The value one.
    pub fn one() -> (r: Frac)
        ensures
            r.wf(),
            r@ == fone(),
    {
        Frac { num: 1, den: 1 }
    }

    /// Negation.
    pub fn neg(self) -> (r: Frac)
        requires
            self.wf(),
        ensures
            r.wf(),
            r@ == fneg(self@),
    {
        Frac { num: -self.num, den: self.den }
    }

    /// Sum.
    pub fn add(self, other: Frac) -> (r: Frac)
        requires
            self.wf(),
            other.wf(),
            fval_ok(fadd(self@, other@)),
        ensures
            r.wf(),
            r@ == fadd(self@, other@),
    {
        proof {
            lemma_mul_mag(self.num as int, other.den as int, MAG_LIMIT as int);
            lemma_mul_mag(other.num as int, self.den as int, MAG_LIMIT as int);
            lemma_mul_mag(self.den as int, other.den as int, MAG_LIMIT as int);
        }
        Frac { num: self.num * other.den + other.num * self.den, den: self.den * other.den }
    }

    /// Difference.
    pub fn sub(self, other: Frac) -> (r: Frac)
        requires
            self.wf(),
            other.wf(),
            fval_ok(fsub(self@, other@)),
        ensures
            r.wf(),
            r@ == fsub(self@, other@),
    {
        proof {
            lemma_mul_mag(self.num as int, other.den as int, MAG_LIMIT as int);
            lemma_mul_mag(other.num as int, self.den as int, MAG_LIMIT as int);
            lemma_mul_mag(self.den as int, other.den as int, MAG_LIMIT as int);
        }
        Frac { num: self.num * other.den - other.num * self.den, den: self.den * other.den }
    }

    /// Product.
    pub fn mul(self, other: Frac) -> (r: Frac)
        requires
            self.wf(),
            other.wf(),
            fval_ok(fmul(self@, other@)),
        ensures
            r.wf(),
            r@ == fmul(self@, other@),
    {
        proof {
            lemma_mul_mag(self.num as int, other.num as int, MAG_LIMIT as int);
            lemma_mul_mag(self.den as int, other.den as int, MAG_LIMIT as int);
        }
        Frac { num: self.num * other.num, den: self.den * other.den }
    }

    /// Quotient `self / other`.
    pub fn div(self, other: Frac) -> (r: Frac)
        requires
            self.wf(),
            other.wf(),
            other@.num != 0,
            fval_ok(fdiv(self@, other@)),
        ensures
            r.wf(),
            r@ == fdiv(self@, other@),
    {
        proof {
            lemma_mul_mag(self.num as int, other.den as int, MAG_LIMIT as int);
            lemma_mul_mag(self.den as int, other.num as int, MAG_LIMIT as int);
        }
        let n = self.num * other.den;
        let d = self.den * other.num;
        if d < 0 {
            Frac { num: -n, den: -d }
        } else {
            Frac { num: n, den: d }
        }
    }

    /// Half of the value.
    pub fn half(self) -> (r: Frac)
        requires
            self.wf(),
            fval_ok(fhalf(self@)),
        ensures
            r.wf(),
            r@ == fhalf(self@),
    {
        Frac { num: self.num, den: self.den * 2 }
    }

    /// `self <= other` on the rational values.
    pub fn le(self, other: Frac) -> (r: bool)
        requires
            self.wf(),
            other.wf(),
        ensures
            r == fle(self@, other@),
    {
        proof {
            lemma_mul_mag(self.num as int, other.den as int, MAG_LIMIT as int);
            lemma_mul_mag(other.num as int, self.den as int, MAG_LIMIT as int);
        }
        self.num * other.den <= other.num * self.den
    }

    /// `self < other` on the rational values.
    pub fn lt(self, other: Frac) -> (r: bool)
        requires
            self.wf(),
            other.wf(),
        ensures
            r == flt(self@, other@),
    {
        proof {
            lemma_mul_mag(self.num as int, other.den as int, MAG_LIMIT as int);
            lemma_mul_mag(other.num as int, self.den as int, MAG_LIMIT as int);
        }
        self.num * other.den < other.num * self.den
    }

    /// Whether the two fractions denote the same rational value, even
    /// with different representations.
    pub fn same_value(self, other: Frac) -> (r: bool)
        requires
            self.wf(),
            other.wf(),
        ensures
            r == feq(self@, other@),
    {
        proof {
            lemma_mul_mag(self.num as int, other.den as int, MAG_LIMIT as int);
            lemma_mul_mag(other.num as int, self.den as int, MAG_LIMIT as int);
        }
        self.num * other.den == other.num * self.den
    }

    /// Whether the value is exactly zero.
    pub fn is_zero(self) -> (r: bool)
        requires
            self.wf(),
        ensures
            r == (self@.num == 0),
    {
        self.num == 0
    }

    /// Whether the value is strictly positive.
    pub fn is_pos(self) -> (r: bool)
        requires
            self.wf(),
        ensures
            r == fpos(self@),
    {
        self.num > 0
    }

    /// Divides the numerator and denominator by their greatest common
    /// divisor: the value is unchanged, neither part grows, and no
    /// factor above one is left dividing both.  A host that reduces
    /// the values it carries from frame to frame keeps the magnitude
    /// preconditions of the arithmetic satisfiable indefinitely.
    pub fn reduce(self) -> (r: Frac)
        requires
            self.wf(),
        ensures
            r.wf(),
            feq(r@, self@),
            0 < r@.den <= self@.den,
            abs(r@.num) <= abs(self@.num),
            forall|d: int| 1 < d && #[trigger] (r@.den % d) == 0 ==> abs(r@.num) as int % d != 0,
    {
        let negative = self.num < 0;
        let mag: u64 = if negative {
            (-self.num) as u64
        } else {
            self.num as u64
        };
        let den: u64 = self.den as u64;
        let g = gcd_u64(mag, den);
        let p = mag / g;
        let q = den / g;
        proof {
            lemma_fundamental_div_mod(mag as int, g as int);
            lemma_fundamental_div_mod(den as int, g as int);
            assert(0 < q as int <= den as int) by (nonlinear_arith)
                requires
                    den as int == g as int * (q as int) + 0,
                    0 < den as int,
                    0 < g as int,
            ;
            assert(p as int <= mag as int) by (nonlinear_arith)
                requires
                    mag as int == g as int * (p as int) + 0,
                    0 <= p as int,
                    0 < g as int,
            ;
            assert((p as int) * (den as int) == (mag as int) * (q as int)) by (nonlinear_arith)
                requires
                    mag as int == g as int * (p as int),
                    den as int == g as int * (q as int),
            ;
            if negative {
                assert((-(p as int)) * (self.den as int) == (self.num as int) * (q as int))
                    by (nonlinear_arith)
                    requires
                        (p as int) * (den as int) == (mag as int) * (q as int),
                        self.num as int == -(mag as int),
                        self.den as int == den as int,
                ;
            }
            assert forall|d: int| 1 < d && #[trigger] ((q as int) % d) == 0
                implies abs(p as int) as int % d != 0 by {
                if abs(p as int) as int % d == 0 {
                    lemma_fundamental_div_mod(p as int, d);
                    lemma_fundamental_div_mod(q as int, d);
                    let u = p as int / d;
                    let v = q as int / d;
                    let m = g as int * d;
                    lemma_mul_pos_parts(g as int, d - 1);
                    assert(m - g as int == (g as int) * (d - 1)) by (nonlinear_arith)
                        requires
                            m == g as int * d,
                    ;
                    assert(mag as int == m * u + 0) by (nonlinear_arith)
                        requires
                            mag as int == g as int * (p as int),
                            p as int == d * u + 0,
                            m == g as int * d,
                    ;
                    assert(den as int == m * v + 0) by (nonlinear_arith)
                        requires
                            den as int == g as int * (q as int),
                            q as int == d * v + 0,
                            m == g as int * d,
                    ;
                    lemma_mod_multiples_vanish(u, 0, m);
                    lemma_mod_multiples_vanish(v, 0, m);
                    lemma_small_mod(0, m as nat);
                    assert(g as int % m == 0);
                    lemma_small_mod(g as nat, m as nat);
                    assert(false);
                }
            }
        }
        let num_r: i128 = if negative {
            -(p as i128)
        } else {
            p as i128
        };
        Frac { num: num_r, den: q as i128 }
    }

    /// The smaller of the two values; `self` when they are equal.
    pub fn min(self, other: Frac) -> (r: Frac)
        requires
            self.wf(),
            other.wf(),
        ensures
            r.wf(),
            r@ == fmin(self@, other@),
    {
        if self.le(other) {
            self
        } else {
            other
        }
    }
}

} // verus!
