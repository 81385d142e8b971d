//! Error-bounded scalars.
//!
//! An `Ef` carries a working value together with a lower and an upper bound.
//! Every operation keeps the bracket conservative: when the bounds of the
//! operands bracket some exact quantity, the bounds of the result bracket
//! the exact result of the operation on those quantities.  The containment
//! lemmas in this module state that guarantee precisely, over exact integer
//! arithmetic at the fixed-point scale.

use vstd::prelude::*;
use vstd::arithmetic::div_mod::{
    lemma_fundamental_div_mod, lemma_fundamental_div_mod_converse,
    lemma_div_is_ordered, lemma_div_is_ordered_by_denominator,
};
use crate::fixed::{
    Fx, SCALE, sat64, ceil_div, fx_add, fx_sub, fx_neg, fx_mul, fx_div, fx_half,
    fx_half_up, fx_sqrt, fx_sqrt_up, is_isqrt, sqrt_floor, lemma_isqrt_unique,
    lemma_isqrt_mono, mul_i64_wide, sat_to_i64, floor_div_wide, ceil_div_wide,
    isqrt,
};

verus! {

/// The smaller of two integers.
pub open spec fn imin(a: int, b: int) -> int {
    if a <= b {
        a
    } else {
        b
    }
}

/// The larger of two integers.
pub open spec fn imax(a: int, b: int) -> int {
    if a >= b {
        a
    } else {
        b
    }
}

/// An integer clamped into `[lo, hi]`.
pub open spec fn iclamp(x: int, lo: int, hi: int) -> int {
    if x < lo {
        lo
    } else if x > hi {
        hi
    } else {
        x
    }
}

/// A scalar with conservative error bounds: `lo <= v <= hi`.
#[derive(Clone, Copy, PartialEq, Eq, Structural, Debug)]
pub struct Ef {
    /// The working value.
    pub v: Fx,
    /// Lower bound of the bracket.
    pub lo: Fx,
    /// Upper bound of the bracket.
    pub hi: Fx,
}

/// The bracket invariant of an error-bounded scalar.
pub open spec fn ef_wf(e: Ef) -> bool {
    e.lo.bits <= e.v.bits <= e.hi.bits
}

/// An exact scalar: both bounds equal the value.
pub open spec fn ef_exact(v: Fx) -> Ef {
    Ef { v, lo: v, hi: v }
}

/// A scalar with a symmetric absolute error.
pub open spec fn ef_with_err(v: Fx, err: Fx) -> Ef {
    Ef {
        v,
        lo: (Fx { bits: fx_sub(v.bits as int, err.bits as int) as i64 }),
        hi: (Fx { bits: fx_add(v.bits as int, err.bits as int) as i64 }),
    }
}

/// Interval sum.
pub open spec fn ef_add(a: Ef, b: Ef) -> Ef {
    Ef {
        v: (Fx { bits: fx_add(a.v.bits as int, b.v.bits as int) as i64 }),
        lo: (Fx { bits: fx_add(a.lo.bits as int, b.lo.bits as int) as i64 }),
        hi: (Fx { bits: fx_add(a.hi.bits as int, b.hi.bits as int) as i64 }),
    }
}

/// Interval difference.
pub open spec fn ef_sub(a: Ef, b: Ef) -> Ef {
    Ef {
        v: (Fx { bits: fx_sub(a.v.bits as int, b.v.bits as int) as i64 }),
        lo: (Fx { bits: fx_sub(a.lo.bits as int, b.hi.bits as int) as i64 }),
        hi: (Fx { bits: fx_sub(a.hi.bits as int, b.lo.bits as int) as i64 }),
    }
}

/// Interval negation.
pub open spec fn ef_neg(a: Ef) -> Ef {
    Ef {
        v: (Fx { bits: fx_neg(a.v.bits as int) as i64 }),
        lo: (Fx { bits: fx_neg(a.hi.bits as int) as i64 }),
        hi: (Fx { bits: fx_neg(a.lo.bits as int) as i64 }),
    }
}

/// Interval halving, rounded outward.
pub open spec fn ef_half(a: Ef) -> Ef {
    Ef {
        v: (Fx { bits: fx_half(a.v.bits as int) as i64 }),
        lo: (Fx { bits: fx_half(a.lo.bits as int) as i64 }),
        hi: (Fx { bits: fx_half_up(a.hi.bits as int) as i64 }),
    }
}

/// The smallest of the four corner products of two intervals.
pub open spec fn corner_min(a: Ef, b: Ef) -> int {
    imin(
        imin(a.lo.bits as int * b.lo.bits as int, a.lo.bits as int * b.hi.bits as int),
        imin(a.hi.bits as int * b.lo.bits as int, a.hi.bits as int * b.hi.bits as int),
    )
}

/// The largest of the four corner products of two intervals.
pub open spec fn corner_max(a: Ef, b: Ef) -> int {
    imax(
        imax(a.lo.bits as int * b.lo.bits as int, a.lo.bits as int * b.hi.bits as int),
        imax(a.hi.bits as int * b.lo.bits as int, a.hi.bits as int * b.hi.bits as int),
    )
}

/// Interval product, rounded outward.
pub open spec fn ef_mul(a: Ef, b: Ef) -> Ef {
    Ef {
        v: (Fx { bits: fx_mul(a.v.bits as int, b.v.bits as int) as i64 }),
        lo: (Fx { bits: sat64(corner_min(a, b) / (SCALE as int)) as i64 }),
        hi: (Fx { bits: sat64(ceil_div(corner_max(a, b), SCALE as int)) as i64 }),
    }
}

/// Interval square root, rounded outward; negative parts clamp to zero.
pub open spec fn ef_sqrt(a: Ef) -> Ef {
    Ef {
        v: (Fx { bits: fx_sqrt(a.v.bits as int) as i64 }),
        lo: (Fx { bits: fx_sqrt(a.lo.bits as int) as i64 }),
        hi: (Fx { bits: fx_sqrt_up(a.hi.bits as int) as i64 }),
    }
}

/// Interval quotient for a divisor interval that is entirely positive.
pub open spec fn ef_div_pos(a: Ef, b: Ef) -> Ef {
    Ef {
        v: (Fx { bits: fx_div(a.v.bits as int, b.v.bits as int) as i64 }),
        lo: (Fx {
            bits: sat64(
                imin(
                    (a.lo.bits as int * SCALE as int) / (b.lo.bits as int),
                    (a.lo.bits as int * SCALE as int) / (b.hi.bits as int),
                ),
            ) as i64,
        }),
        hi: (Fx {
            bits: sat64(
                imax(
                    ceil_div(a.hi.bits as int * SCALE as int, b.lo.bits as int),
                    ceil_div(a.hi.bits as int * SCALE as int, b.hi.bits as int),
                ),
            ) as i64,
        }),
    }
}

/// The working value of a quotient whose divisor may be zero: saturates
/// by the sign of the dividend, mirroring division of finite numbers by zero.
pub open spec fn div_value(a: int, b: int) -> int {
    if b != 0 {
        fx_div(a, b)
    } else if a > 0 {
        i64::MAX as int
    } else if a < 0 {
        i64::MIN as int
    } else {
        0
    }
}

/// Interval quotient.  When the divisor interval contains zero the result
/// bracket is the whole representable line, which brackets anything.
pub open spec fn ef_div(a: Ef, b: Ef) -> Ef {
    if b.lo.bits > 0 && b.hi.bits > 0 {
        ef_div_pos(a, b)
    } else if b.hi.bits < 0 && b.lo.bits < 0 && b.lo.bits > i64::MIN {
        ef_div_pos(ef_neg(a), ef_neg(b))
    } else {
        Ef {
            v: (Fx { bits: div_value(a.v.bits as int, b.v.bits as int) as i64 }),
            lo: (Fx { bits: i64::MIN }),
            hi: (Fx { bits: i64::MAX }),
        }
    }
}

/// Floor does not exceed ceiling, and the quotient brackets the dividend.
pub proof fn lemma_floor_le_ceil(n: int, d: int)
    requires
        d > 0,
    ensures
        n / d <= ceil_div(n, d),
        d * (n / d) <= n,
        n <= d * ceil_div(n, d),
{
    lemma_fundamental_div_mod(n, d);
    lemma_fundamental_div_mod(-n, d);
    assert(d * (n / d) <= n);
    assert(d * ((-n) / d) <= -n);
    assert(n <= d * (-((-n) / d))) by (nonlinear_arith)
        requires
            d * ((-n) / d) <= -n,
    ;
    assert(d * (n / d) <= d * ceil_div(n, d));
    assert(n / d <= ceil_div(n, d)) by (nonlinear_arith)
        requires
            d > 0,
            d * (n / d) <= d * ceil_div(n, d),
    ;
}

/// For a positive dividend, the ceiling quotient in closed form.
pub proof fn lemma_ceil_div_pos(m: int, d: int)
    requires
        m >= 1,
        d >= 1,
    ensures
        ceil_div(m, d) == (m - 1) / d + 1,
{
    let q = (m - 1) / d;
    let r = (m - 1) % d;
    lemma_fundamental_div_mod(m - 1, d);
    assert(m - 1 == d * q + r);
    assert(0 <= d - 1 - r < d);
    assert(-m == (-q - 1) * d + (d - 1 - r)) by (nonlinear_arith)
        requires
            m - 1 == d * q + r,
    ;
    lemma_fundamental_div_mod_converse(-m, d, -q - 1, d - 1 - r);
    assert((-m) / d == -q - 1);
}

/// For a nonnegative dividend, a larger positive divisor gives a smaller
/// ceiling quotient.
pub proof fn lemma_ceil_denominator_mono(m: int, d1: int, d2: int)
    requires
        m >= 0,
        0 < d1 <= d2,
    ensures
        ceil_div(m, d2) <= ceil_div(m, d1),
{
    if m == 0 {
        assert(ceil_div(0, d1) == 0);
        assert(ceil_div(0, d2) == 0);
    } else {
        lemma_ceil_div_pos(m, d1);
        lemma_ceil_div_pos(m, d2);
        lemma_div_is_ordered_by_denominator(m - 1, d1, d2);
    }
}

/// For a nonpositive dividend, a larger positive divisor gives a larger
/// flooring quotient.
pub proof fn lemma_floor_neg_denominator_mono(x: int, d1: int, d2: int)
    requires
        x <= 0,
        0 < d1 <= d2,
    ensures
        x / d1 <= x / d2,
{
    assert(x / d1 == -ceil_div(-x, d1));
    assert(x / d2 == -ceil_div(-x, d2));
    lemma_ceil_denominator_mono(-x, d1, d2);
}

/// Any quotient of a number from the dividend interval by a number from a
/// positive divisor interval lies between the outward-rounded corner
/// quotients.
pub proof fn lemma_div_pos_bounds(nlo: int, nhi: int, dlo: int, dhi: int, n: int, d: int)
    requires
        0 < dlo <= d <= dhi,
        nlo <= n <= nhi,
    ensures
        imin(nlo / dlo, nlo / dhi) <= n / d,
        ceil_div(n, d) <= imax(ceil_div(nhi, dlo), ceil_div(nhi, dhi)),
{
    lemma_div_is_ordered(nlo, n, d);
    if nlo >= 0 {
        lemma_div_is_ordered_by_denominator(nlo, d, dhi);
        assert(nlo / dhi <= nlo / d);
    } else {
        lemma_floor_neg_denominator_mono(nlo, dlo, d);
        assert(nlo / dlo <= nlo / d);
    }
    lemma_div_is_ordered(-nhi, -n, d);
    assert(ceil_div(n, d) <= ceil_div(nhi, d));
    if nhi >= 0 {
        lemma_ceil_denominator_mono(nhi, dlo, d);
        assert(ceil_div(nhi, d) <= ceil_div(nhi, dlo));
    } else {
        lemma_div_is_ordered_by_denominator(-nhi, d, dhi);
        assert(ceil_div(nhi, d) <= ceil_div(nhi, dhi));
    }
}

/// Any product of numbers from two intervals lies between the smallest and
/// the largest corner product.
pub proof fn lemma_corner_products(alo: int, ahi: int, blo: int, bhi: int, x: int, y: int)
    by (nonlinear_arith)
    requires
        alo <= x <= ahi,
        blo <= y <= bhi,
    ensures
        imin(imin(alo * blo, alo * bhi), imin(ahi * blo, ahi * bhi)) <= x * y,
        x * y <= imax(imax(alo * blo, alo * bhi), imax(ahi * blo, ahi * bhi)),
{
}

/// For moderate inputs the square-root floor fits an `i64`.
pub proof fn lemma_sqrt_floor_small(n: int)
    requires
        0 <= n < 0x4000_0000_0000_0000_0000_0000_0000_0000,
    ensures
        is_isqrt(n, sqrt_floor(n)),
        0 <= sqrt_floor(n) <= i64::MAX as int,
{
    lemma_isqrt_exists(n);
    assert(sqrt_floor(n) < 0x8000_0000_0000_0000) by (nonlinear_arith)
        requires
            is_isqrt(n, sqrt_floor(n)),
            n < 0x4000_0000_0000_0000_0000_0000_0000_0000,
    ;
}

/// The square-root floor exists for every nonnegative integer.
pub proof fn lemma_isqrt_exists(n: int)
    requires
        n >= 0,
    ensures
        is_isqrt(n, sqrt_floor(n)),
    decreases n,
{
    if n == 0 {
        assert(is_isqrt(0, 0));
    } else {
        lemma_isqrt_exists(n - 1);
        let r = sqrt_floor(n - 1);
        assert(is_isqrt(n - 1, r));
        if n < (r + 1) * (r + 1) {
            assert(is_isqrt(n, r));
        } else {
            assert(is_isqrt(n, r + 1)) by (nonlinear_arith)
                requires
                    is_isqrt(n - 1, r),
                    n >= (r + 1) * (r + 1),
            ;
        }
    }
    assert(exists|r: int| is_isqrt(n, r));
    let w = choose|r: int| is_isqrt(n, r);
    lemma_isqrt_unique(n, w, sqrt_floor(n));
}

impl Ef {
    /// An exact scalar with no error.
    pub fn exact(v: Fx) -> (r: Ef)
        ensures
            r == ef_exact(v),
            ef_wf(r),
    {
        Ef { v, lo: v, hi: v }
    }

    /// A scalar with the given symmetric absolute error.
    pub fn with_err(v: Fx, err: Fx) -> (r: Ef)
        requires
            err.bits >= 0,
        ensures
            r == ef_with_err(v, err),
            ef_wf(r),
    {
        Ef { v, lo: v.sub(err), hi: v.add(err) }
    }

    /// Lower bound of the bracket.
    pub fn lower_bound(self) -> (r: Fx)
        ensures
            r == self.lo,
    {
        self.lo
    }

    /// Upper bound of the bracket.
    pub fn upper_bound(self) -> (r: Fx)
        ensures
            r == self.hi,
    {
        self.hi
    }

    /// Interval sum.
    pub fn add(self, o: Ef) -> (r: Ef)
        ensures
            r == ef_add(self, o),
            ef_wf(self) && ef_wf(o) ==> ef_wf(r),
    {
        Ef { v: self.v.add(o.v), lo: self.lo.add(o.lo), hi: self.hi.add(o.hi) }
    }

    /// Interval difference.
    pub fn sub(self, o: Ef) -> (r: Ef)
        ensures
            r == ef_sub(self, o),
            ef_wf(self) && ef_wf(o) ==> ef_wf(r),
    {
        Ef { v: self.v.sub(o.v), lo: self.lo.sub(o.hi), hi: self.hi.sub(o.lo) }
    }

    /// Interval negation.
    pub fn neg(self) -> (r: Ef)
        ensures
            r == ef_neg(self),
            ef_wf(self) ==> ef_wf(r),
    {
        Ef { v: self.v.neg(), lo: self.hi.neg(), hi: self.lo.neg() }
    }

    /// Interval halving, rounded outward.
    pub fn half(self) -> (r: Ef)
        ensures
            r == ef_half(self),
            ef_wf(self) ==> ef_wf(r),
    {
        let r = Ef { v: self.v.half(), lo: self.lo.half(), hi: self.hi.half_up() };
        proof {
            if ef_wf(self) {
                lemma_div_is_ordered(self.lo.bits as int, self.v.bits as int, 2);
                lemma_div_is_ordered(self.v.bits as int, self.hi.bits as int, 2);
                lemma_floor_le_ceil(self.hi.bits as int, 2);
            }
        }
        r
    }

    /// Interval product, rounded outward.
    pub fn mul(self, o: Ef) -> (r: Ef)
        ensures
            r == ef_mul(self, o),
            ef_wf(self) && ef_wf(o) ==> ef_wf(r),
    {
        let pll: i128 = mul_i64_wide(self.lo.bits, o.lo.bits);
        let plh: i128 = mul_i64_wide(self.lo.bits, o.hi.bits);
        let phl: i128 = mul_i64_wide(self.hi.bits, o.lo.bits);
        let phh: i128 = mul_i64_wide(self.hi.bits, o.hi.bits);
        let m: i128 = min4_i128(pll, plh, phl, phh);
        let mm: i128 = max4_i128(pll, plh, phl, phh);
        let lo: i64 = sat_to_i64(floor_div_wide(m, 0x1_0000_0000));
        let hi: i64 = sat_to_i64(ceil_div_wide(mm, 0x1_0000_0000));
        let v: Fx = self.v.mul(o.v);
        proof {
            assert(m as int == corner_min(self, o));
            assert(mm as int == corner_max(self, o));
            if ef_wf(self) && ef_wf(o) {
                lemma_corner_products(
                    self.lo.bits as int, self.hi.bits as int,
                    o.lo.bits as int, o.hi.bits as int,
                    self.v.bits as int, o.v.bits as int,
                );
                let p = self.v.bits as int * o.v.bits as int;
                lemma_div_is_ordered(m as int, p, SCALE as int);
                lemma_div_is_ordered(p, mm as int, SCALE as int);
                lemma_floor_le_ceil(mm as int, SCALE as int);
            }
        }
        Ef { v, lo: (Fx { bits: lo }), hi: (Fx { bits: hi }) }
    }

    /// Interval square root; the negative part of the bracket clamps to zero.
    pub fn sqrt(self) -> (r: Ef)
        ensures
            r == ef_sqrt(self),
            ef_wf(self) ==> ef_wf(r),
    {
        let v: Fx = self.v.sqrt();
        let lo: Fx = self.lo.sqrt();
        let hi: Fx = self.hi.sqrt_up();
        proof {
            if ef_wf(self) {
                if self.lo.bits > 0 {
                    lemma_isqrt_exists(self.lo.bits as int * SCALE as int);
                    lemma_isqrt_exists(self.v.bits as int * SCALE as int);
                    lemma_isqrt_mono(
                        self.lo.bits as int * SCALE as int,
                        self.v.bits as int * SCALE as int,
                        sqrt_floor(self.lo.bits as int * SCALE as int),
                        sqrt_floor(self.v.bits as int * SCALE as int),
                    );
                }
                if self.v.bits > 0 {
                    lemma_isqrt_exists(self.v.bits as int * SCALE as int);
                    lemma_isqrt_exists(self.hi.bits as int * SCALE as int);
                    lemma_isqrt_mono(
                        self.v.bits as int * SCALE as int,
                        self.hi.bits as int * SCALE as int,
                        sqrt_floor(self.v.bits as int * SCALE as int),
                        sqrt_floor(self.hi.bits as int * SCALE as int),
                    );
                }
            }
        }
        Ef { v, lo, hi }
    }

    /// Interval quotient; a divisor interval containing zero yields the
    /// whole representable line as the bracket.
    pub fn div(self, o: Ef) -> (r: Ef)
        ensures
            r == ef_div(self, o),
            ef_wf(self) && ef_wf(o) ==> ef_wf(r),
    {
        if o.lo.bits > 0 && o.hi.bits > 0 {
            self.div_pos(o)
        } else if o.hi.bits < 0 && o.lo.bits < 0 && o.lo.bits > i64::MIN {
            self.neg().div_pos(o.neg())
        } else {
            let v: i64 = if o.v.bits != 0 {
                self.v.div(o.v).bits
            } else if self.v.bits > 0 {
                i64::MAX
            } else if self.v.bits < 0 {
                i64::MIN
            } else {
                0
            };
            Ef { v: (Fx { bits: v }), lo: (Fx { bits: i64::MIN }), hi: (Fx { bits: i64::MAX }) }
        }
    }

    /// Interval quotient for an entirely positive divisor interval.
    fn div_pos(self, o: Ef) -> (r: Ef)
        requires
            o.lo.bits > 0,
            o.hi.bits > 0,
        ensures
            r == ef_div_pos(self, o),
            ef_wf(self) && ef_wf(o) ==> ef_wf(r),
    {
        let nlo: i128 = mul_i64_wide(self.lo.bits, SCALE);
        let nhi: i128 = mul_i64_wide(self.hi.bits, SCALE);
        let q1: i128 = floor_div_wide(nlo, o.lo.bits as i128);
        let q2: i128 = floor_div_wide(nlo, o.hi.bits as i128);
        let q3: i128 = ceil_div_wide(nhi, o.lo.bits as i128);
        let q4: i128 = ceil_div_wide(nhi, o.hi.bits as i128);
        let lo: i64 = sat_to_i64(if q1 <= q2 { q1 } else { q2 });
        let hi: i64 = sat_to_i64(if q3 >= q4 { q3 } else { q4 });
        let v: Fx = if o.v.bits != 0 { self.v.div(o.v) } else { Fx::zero() };
        proof {
            if ef_wf(self) && ef_wf(o) {
                lemma_div_pos_bounds(
                    self.lo.bits as int * SCALE as int,
                    self.hi.bits as int * SCALE as int,
                    o.lo.bits as int,
                    o.hi.bits as int,
                    self.v.bits as int * SCALE as int,
                    o.v.bits as int,
                );
                lemma_floor_le_ceil(self.v.bits as int * SCALE as int, o.v.bits as int);
            }
        }
        Ef { v, lo: (Fx { bits: lo }), hi: (Fx { bits: hi }) }
    }
}

/// The smallest of four wide integers.
fn min4_i128(a: i128, b: i128, c: i128, d: i128) -> (r: i128)
    ensures
        r as int == imin(imin(a as int, b as int), imin(c as int, d as int)),
{
    let m1: i128 = if a <= b { a } else { b };
    let m2: i128 = if c <= d { c } else { d };
    if m1 <= m2 { m1 } else { m2 }
}

/// The largest of four wide integers.
fn max4_i128(a: i128, b: i128, c: i128, d: i128) -> (r: i128)
    ensures
        r as int == imax(imax(a as int, b as int), imax(c as int, d as int)),
{
    let m1: i128 = if a >= b { a } else { b };
    let m2: i128 = if c >= d { c } else { d };
    if m1 >= m2 { m1 } else { m2 }
}

/// When the operand brackets hold exact quantities `x` and `y` and the sums
/// of the bound bits stay representable, the sum bracket holds `x + y`.
pub proof fn lemma_add_contains(a: Ef, b: Ef, x: int, y: int)
    requires
        a.lo.bits <= x <= a.hi.bits,
        b.lo.bits <= y <= b.hi.bits,
        i64::MIN <= a.lo.bits + b.lo.bits,
        a.hi.bits + b.hi.bits <= i64::MAX,
    ensures
        ef_add(a, b).lo.bits <= x + y <= ef_add(a, b).hi.bits,
{
}

/// The difference bracket holds `x - y` under the same conditions.
pub proof fn lemma_sub_contains(a: Ef, b: Ef, x: int, y: int)
    requires
        a.lo.bits <= x <= a.hi.bits,
        b.lo.bits <= y <= b.hi.bits,
        i64::MIN <= a.lo.bits - b.hi.bits,
        a.hi.bits - b.lo.bits <= i64::MAX,
    ensures
        ef_sub(a, b).lo.bits <= x - y <= ef_sub(a, b).hi.bits,
{
}

/// The product bracket holds the exact product: at the fixed-point scale,
/// `lo <= x*y / SCALE <= hi` stated without division as
/// `lo * SCALE <= x * y <= hi * SCALE`.
pub proof fn lemma_mul_contains(a: Ef, b: Ef, x: int, y: int)
    requires
        a.lo.bits <= x <= a.hi.bits,
        b.lo.bits <= y <= b.hi.bits,
        i64::MIN as int * SCALE as int <= corner_min(a, b),
        corner_max(a, b) <= i64::MAX as int * SCALE as int,
    ensures
        ef_mul(a, b).lo.bits as int * SCALE as int <= x * y,
        x * y <= ef_mul(a, b).hi.bits as int * SCALE as int,
{
    lemma_corner_products(
        a.lo.bits as int, a.hi.bits as int, b.lo.bits as int, b.hi.bits as int, x, y,
    );
    let m = corner_min(a, b);
    let mm = corner_max(a, b);
    lemma_floor_le_ceil(m, SCALE as int);
    lemma_floor_le_ceil(mm, SCALE as int);
    lemma_div_is_ordered(i64::MIN as int * SCALE as int, m, SCALE as int);
    lemma_div_is_ordered(mm, i64::MAX as int * SCALE as int, SCALE as int);
    assert((i64::MIN as int * SCALE as int) / (SCALE as int) == i64::MIN as int);
    assert(ceil_div(i64::MAX as int * SCALE as int, SCALE as int) == i64::MAX as int) by {
        assert((-(i64::MAX as int * SCALE as int)) / (SCALE as int)
            == -(i64::MAX as int)) by (nonlinear_arith);
    }
    assert(ceil_div(m, SCALE as int) <= ceil_div(mm, SCALE as int)) by {
        lemma_div_is_ordered(-mm, -m, SCALE as int);
    }
    assert(ef_mul(a, b).lo.bits as int == m / (SCALE as int));
    assert(ef_mul(a, b).hi.bits as int == ceil_div(mm, SCALE as int));
    assert((m / (SCALE as int)) * SCALE as int <= m) by (nonlinear_arith)
        requires
            SCALE as int * (m / (SCALE as int)) <= m,
    ;
    assert(mm <= ceil_div(mm, SCALE as int) * SCALE as int) by (nonlinear_arith)
        requires
            mm <= SCALE as int * ceil_div(mm, SCALE as int),
    ;
}

/// The square-root bracket holds the exact square root: for a nonnegative
/// bracketed quantity `x`, `lo^2 <= x * SCALE <= hi^2`.
pub proof fn lemma_sqrt_contains(a: Ef, x: int)
    requires
        a.lo.bits <= x <= a.hi.bits,
        x >= 0,
    ensures
        ef_sqrt(a).lo.bits as int * ef_sqrt(a).lo.bits as int <= x * SCALE as int,
        x * SCALE as int <= ef_sqrt(a).hi.bits as int * ef_sqrt(a).hi.bits as int,
{
    let lo = ef_sqrt(a).lo.bits as int;
    let hi = ef_sqrt(a).hi.bits as int;
    if a.lo.bits <= 0 {
        assert(lo == 0);
    } else {
        lemma_sqrt_floor_small(a.lo.bits as int * SCALE as int);
        assert(lo == sqrt_floor(a.lo.bits as int * SCALE as int));
        assert(lo * lo <= a.lo.bits as int * SCALE as int);
        assert(a.lo.bits as int * SCALE as int <= x * SCALE as int);
    }
    if a.hi.bits <= 0 {
        assert(x == 0);
        assert(hi == 0);
    } else {
        lemma_sqrt_floor_small(a.hi.bits as int * SCALE as int);
        let s = sqrt_floor(a.hi.bits as int * SCALE as int);
        assert(s < 0x1_0000_0000_0000) by (nonlinear_arith)
            requires
                is_isqrt(a.hi.bits as int * SCALE as int, s),
                (a.hi.bits as int * SCALE as int) < 0x1_0000_0000_0000_0000_0000_0000,
        ;
        assert(x * SCALE as int <= a.hi.bits as int * SCALE as int);
        if s * s == a.hi.bits as int * SCALE as int {
            assert(hi == s);
        } else {
            assert(hi == s + 1);
            assert((a.hi.bits as int * SCALE as int) < (s + 1) * (s + 1));
        }
    }
}

/// The positive-divisor quotient bracket holds the exact quotient: for
/// bracketed `x` over bracketed positive `y`, stated without division as
/// `lo * y <= x * SCALE <= hi * y`.
pub proof fn lemma_div_contains(a: Ef, b: Ef, x: int, y: int)
    requires
        a.lo.bits <= x <= a.hi.bits,
        b.lo.bits <= y <= b.hi.bits,
        b.lo.bits > 0,
        i64::MIN <= imin(
            (a.lo.bits as int * SCALE as int) / (b.lo.bits as int),
            (a.lo.bits as int * SCALE as int) / (b.hi.bits as int),
        ),
        imax(
            ceil_div(a.hi.bits as int * SCALE as int, b.lo.bits as int),
            ceil_div(a.hi.bits as int * SCALE as int, b.hi.bits as int),
        ) <= i64::MAX,
    ensures
        ef_div(a, b).lo.bits as int * y <= x * SCALE as int,
        x * SCALE as int <= ef_div(a, b).hi.bits as int * y,
{
    lemma_div_pos_bounds(
        a.lo.bits as int * SCALE as int,
        a.hi.bits as int * SCALE as int,
        b.lo.bits as int,
        b.hi.bits as int,
        x * SCALE as int,
        y,
    );
    let lo = ef_div(a, b).lo.bits as int;
    let hi = ef_div(a, b).hi.bits as int;
    let n = x * SCALE as int;
    lemma_floor_le_ceil(n, y);
    assert(lo <= n / y);
    assert(ceil_div(n, y) <= hi);
    assert(lo * y <= n) by (nonlinear_arith)
        requires
            lo <= n / y,
            y > 0,
            y * (n / y) <= n,
    ;
    assert(n <= hi * y) by (nonlinear_arith)
        requires
            ceil_div(n, y) <= hi,
            y > 0,
            n <= y * ceil_div(n, y),
    ;
}

/// Result of solving the quadratic `a t^2 + b t + c = 0` over the working
/// values, with outward-rounded brackets for the two roots.
pub open spec fn spec_quadratic(a: Ef, b: Ef, c: Ef) -> Option<(Ef, Ef)> {
    if a.v.bits == 0 {
        Option::None
    } else {
        let bb = iclamp(
            b.v.bits as int * b.v.bits as int,
            -0x100_0000_0000_0000_0000_0000_0000_0000,
            0x100_0000_0000_0000_0000_0000_0000_0000,
        );
        let ac = iclamp(
            a.v.bits as int * c.v.bits as int,
            -0x100_0000_0000_0000_0000_0000_0000_0000,
            0x100_0000_0000_0000_0000_0000_0000_0000,
        );
        let disc = bb - 4 * ac;
        if disc < 0 {
            Option::None
        } else {
            let s = sqrt_floor(disc);
            let sd = Ef {
                v: (Fx { bits: sat64(s) as i64 }),
                lo: (Fx { bits: sat64(s) as i64 }),
                hi: (Fx { bits: sat64(s + 1) as i64 }),
            };
            let q = if b.v.bits < 0 {
                ef_half(ef_sub(sd, b))
            } else {
                ef_half(ef_neg(ef_add(b, sd)))
            };
            let t0 = ef_div(q, a);
            let t1 = ef_div(c, q);
            if t0.v.bits > t1.v.bits {
                Option::Some((t1, t0))
            } else {
                Option::Some((t0, t1))
            }
        }
    }
}

/// Solves `a t^2 + b t + c = 0` over the working values with a numerically
/// stable choice of root formula: the discriminant is formed exactly in wide
/// integers, and the root with the larger magnitude denominator is computed
/// first, so no catastrophic cancellation occurs.  Returns the two roots in
/// ascending order of working value, or nothing when the (clamped, exact)
/// discriminant is negative or the leading coefficient is zero.
pub fn quadratic(a: Ef, b: Ef, c: Ef) -> (r: Option<(Ef, Ef)>)
    ensures
        r == spec_quadratic(a, b, c),
        match r {
            Option::Some(p) => (ef_wf(a) && ef_wf(b) && ef_wf(c)) ==> (ef_wf(p.0)
                && ef_wf(p.1) && p.0.v.bits <= p.1.v.bits),
            Option::None => true,
        },
{
    if a.v.bits == 0 {
        return Option::None;
    }
    let bb_w: i128 = mul_i64_wide(b.v.bits, b.v.bits);
    let ac_w: i128 = mul_i64_wide(a.v.bits, c.v.bits);
    let bb: i128 = clamp_i128(
        bb_w,
        -0x100_0000_0000_0000_0000_0000_0000_0000,
        0x100_0000_0000_0000_0000_0000_0000_0000,
    );
    let ac: i128 = clamp_i128(
        ac_w,
        -0x100_0000_0000_0000_0000_0000_0000_0000,
        0x100_0000_0000_0000_0000_0000_0000_0000,
    );
    let disc: i128 = bb - 4 * ac;
    if disc < 0 {
        return Option::None;
    }
    let s: u64 = isqrt(disc as u128);
    let sv: i64 = sat_to_i64(s as i128);
    let sh: i64 = sat_to_i64(s as i128 + 1);
    let sd = Ef { v: (Fx { bits: sv }), lo: (Fx { bits: sv }), hi: (Fx { bits: sh }) };
    let q: Ef = if b.v.bits < 0 {
        sd.sub(b).half()
    } else {
        b.add(sd).neg().half()
    };
    let t0: Ef = q.div(a);
    let t1: Ef = c.div(q);
    if t0.v.bits > t1.v.bits {
        Option::Some((t1, t0))
    } else {
        Option::Some((t0, t1))
    }
}

/// A wide integer clamped into `[lo, hi]`.
fn clamp_i128(x: i128, lo: i128, hi: i128) -> (r: i128)
    requires
        lo <= hi,
    ensures
        r as int == iclamp(x as int, lo as int, hi as int),
{
    if x < lo {
        lo
    } else if x > hi {
        hi
    } else {
        x
    }
}

} // verus!
