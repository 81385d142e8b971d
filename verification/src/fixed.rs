//! Q32.32 fixed-point scalars.
//!
//! A scalar value is `bits / 2^32`.  Every operation has an exact integer
//! specification: results saturate at the `i64` range instead of wrapping,
//! and rounding is always directed (floor or ceiling), so callers can build
//! conservative interval arithmetic on top of these primitives.

use vstd::prelude::*;
use vstd::arithmetic::div_mod::{
    lemma_fundamental_div_mod, lemma_fundamental_div_mod_converse,
};

verus! {

/// Number of units in one: the fixed-point scale factor 2^32.
pub const SCALE: i64 = 0x1_0000_0000;

/// Clamps an unbounded integer into the `i64` range.
pub open spec fn sat64(x: int) -> int {
    if x > i64::MAX as int {
        i64::MAX as int
    } else if x < i64::MIN as int {
        i64::MIN as int
    } else {
        x
    }
}

/// Ceiling division for a positive divisor, expressed with the flooring
/// division of the specification language.
pub open spec fn ceil_div(n: int, d: int) -> int {
    -((-n) / d)
}

/// Saturating sum of two raw bit values.
pub open spec fn fx_add(a: int, b: int) -> int {
    sat64(a + b)
}

/// Saturating difference of two raw bit values.
pub open spec fn fx_sub(a: int, b: int) -> int {
    sat64(a - b)
}

/// Saturating negation of a raw bit value.
pub open spec fn fx_neg(a: int) -> int {
    sat64(-a)
}

/// Saturating absolute value of a raw bit value.
pub open spec fn fx_abs(a: int) -> int {
    if a < 0 {
        sat64(-a)
    } else {
        a
    }
}

/// Fixed-point product rounded toward negative infinity.
pub open spec fn fx_mul(a: int, b: int) -> int {
    sat64((a * b) / (SCALE as int))
}

/// Fixed-point product rounded toward positive infinity.
pub open spec fn fx_mul_up(a: int, b: int) -> int {
    sat64(ceil_div(a * b, SCALE as int))
}

/// Fixed-point quotient rounded toward negative infinity.
/// Division by zero yields zero; the executable operation excludes it.
pub open spec fn fx_div(a: int, b: int) -> int {
    if b == 0 {
        0
    } else if b > 0 {
        sat64((a * SCALE) / b)
    } else {
        sat64(((-a) * SCALE) / (-b))
    }
}

/// Fixed-point quotient rounded toward positive infinity.
pub open spec fn fx_div_up(a: int, b: int) -> int {
    if b == 0 {
        0
    } else if b > 0 {
        sat64(ceil_div(a * SCALE, b))
    } else {
        sat64(ceil_div((-a) * SCALE, -b))
    }
}

/// Half of a raw bit value, rounded toward negative infinity.
pub open spec fn fx_half(a: int) -> int {
    a / 2
}

/// Half of a raw bit value, rounded toward positive infinity.
pub open spec fn fx_half_up(a: int) -> int {
    ceil_div(a, 2)
}

/// Raw bit values of moderate magnitude (about 16384 in scalar value):
/// sums and dot products of such values never saturate, so arithmetic on
/// them is exact up to directed rounding.
pub open spec fn moderate(b: int) -> bool {
    -0x4000_0000_0000 <= b <= 0x4000_0000_0000
}

/// `r` is the integer square root (rounded down) of `n`.
pub open spec fn is_isqrt(n: int, r: int) -> bool {
    0 <= r && r * r <= n && n < (r + 1) * (r + 1)
}

/// The integer square root of `n`, rounded down.
pub open spec fn sqrt_floor(n: int) -> int {
    choose|r: int| is_isqrt(n, r)
}

/// The integer square root of `n`, rounded up.
pub open spec fn sqrt_ceil(n: int) -> int {
    if sqrt_floor(n) * sqrt_floor(n) == n {
        sqrt_floor(n)
    } else {
        sqrt_floor(n) + 1
    }
}

/// Fixed-point square root rounded toward negative infinity;
/// non-positive inputs map to zero.
pub open spec fn fx_sqrt(a: int) -> int {
    if a <= 0 {
        0
    } else {
        sqrt_floor(a * SCALE)
    }
}

/// Fixed-point square root rounded toward positive infinity;
/// non-positive inputs map to zero.
pub open spec fn fx_sqrt_up(a: int) -> int {
    if a <= 0 {
        0
    } else {
        sqrt_ceil(a * SCALE)
    }
}

/// Two integer square roots of the same value agree.
pub proof fn lemma_isqrt_unique(n: int, r1: int, r2: int)
    by (nonlinear_arith)
    requires
        is_isqrt(n, r1),
        is_isqrt(n, r2),
    ensures
        r1 == r2,
{
}

/// The integer square root is monotone.
pub proof fn lemma_isqrt_mono(n1: int, n2: int, r1: int, r2: int)
    by (nonlinear_arith)
    requires
        is_isqrt(n1, r1),
        is_isqrt(n2, r2),
        n1 <= n2,
    ensures
        r1 <= r2,
{
}

/// A Q32.32 fixed-point scalar; the value represented is `bits / 2^32`.
#[derive(Clone, Copy, PartialEq, Eq, Structural, Debug)]
pub struct Fx {
    pub bits: i64,
}

/// Widening product of two `i64` values.
pub fn mul_i64_wide(a: i64, b: i64) -> (p: i128)
    ensures
        p as int == (a as int) * (b as int),
        -0x4000_0000_0000_0000_0000_0000_0000_0000 <= p
            <= 0x4000_0000_0000_0000_0000_0000_0000_0000,
{
    proof {
        assert((a as int) * (b as int) <= i128::MAX as int && (a as int) * (b as int)
            >= i128::MIN as int && -0x4000_0000_0000_0000_0000_0000_0000_0000
            <= (a as int) * (b as int)
            <= 0x4000_0000_0000_0000_0000_0000_0000_0000) by (nonlinear_arith)
            requires
                i64::MIN as int <= a as int <= i64::MAX as int,
                i64::MIN as int <= b as int <= i64::MAX as int,
        ;
    }
    (a as i128) * (b as i128)
}

/// Clamps an `i128` into the `i64` range.
pub fn sat_to_i64(x: i128) -> (r: i64)
    ensures
        r as int == sat64(x as int),
{
    if x > i64::MAX as i128 {
        i64::MAX
    } else if x < i64::MIN as i128 {
        i64::MIN
    } else {
        x as i64
    }
}

/// Flooring division of an `i128` by a positive divisor.
pub fn floor_div_wide(n: i128, d: i128) -> (q: i128)
    requires
        d > 0,
        -0x4000_0000_0000_0000_0000_0000_0000_0000 <= n,
    ensures
        q as int == n as int / d as int,
{
    if n >= 0 {
        let nm: u128 = n as u128;
        let dm: u128 = d as u128;
        let qm: u128 = nm / dm;
        qm as i128
    } else {
        let nm: u128 = (-n) as u128;
        let dm: u128 = d as u128;
        let qm: u128 = (nm + (dm - 1)) / dm;
        proof {
            let m = nm as int;
            let dd = dm as int;
            let q = (m + dd - 1) / dd;
            let r = (m + dd - 1) % dd;
            lemma_fundamental_div_mod(m + dd - 1, dd);
            assert(m + dd - 1 == dd * q + r);
            assert(0 <= dd - 1 - r < dd);
            assert(-m == (-q) * dd + (dd - 1 - r)) by (nonlinear_arith)
                requires
                    m + dd - 1 == dd * q + r,
            ;
            lemma_fundamental_div_mod_converse(-m, dd, -q, dd - 1 - r);
            assert((-m) / dd == -q);
            assert(q <= m) by {
                assert((m + dd - 1) / dd <= m) by (nonlinear_arith)
                    requires
                        dd >= 1,
                        m >= 1,
                        q == (m + dd - 1) / dd,
                        r == (m + dd - 1) % dd,
                        m + dd - 1 == dd * q + r,
                        0 <= r < dd,
                ;
            }
        }
        -(qm as i128)
    }
}

/// Ceiling division of an `i128` by a positive divisor.
pub fn ceil_div_wide(n: i128, d: i128) -> (q: i128)
    requires
        d > 0,
        -0x4000_0000_0000_0000_0000_0000_0000_0000 <= n
            <= 0x4000_0000_0000_0000_0000_0000_0000_0000,
    ensures
        q as int == ceil_div(n as int, d as int),
{
    let f: i128 = floor_div_wide(-n, d);
    proof {
        assert(-0x4000_0000_0000_0000_0000_0000_0000_0000 <= (f as int)
            <= 0x4000_0000_0000_0000_0000_0000_0000_0000) by (nonlinear_arith)
            requires
                d as int > 0,
                -0x4000_0000_0000_0000_0000_0000_0000_0000 <= (n as int)
                    <= 0x4000_0000_0000_0000_0000_0000_0000_0000,
                f as int == (-n as int) / (d as int),
        ;
    }
    -f
}

/// Integer square root of a `u128`, rounded down.
pub fn isqrt(n: u128) -> (r: u64)
    ensures
        is_isqrt(n as int, r as int),
        r as int == sqrt_floor(n as int),
{
    let mut lo: u128 = 0;
    let mut hi: u128 = 0x1_0000_0000_0000_0000;
    proof {
        assert((0x1_0000_0000_0000_0000 as int) * (0x1_0000_0000_0000_0000 as int)
            == 0x1_0000_0000_0000_0000_0000_0000_0000_0000);
    }
    while hi - lo > 1
        invariant
            lo < hi,
            hi <= 0x1_0000_0000_0000_0000,
            (lo as int) * (lo as int) <= n as int,
            (n as int) < (hi as int) * (hi as int),
        decreases hi - lo,
    {
        let mid: u128 = lo + (hi - lo) / 2;
        proof {
            assert((mid as int) * (mid as int)
                <= u128::MAX as int) by (nonlinear_arith)
                requires
                    0 <= (mid as int) < 0x1_0000_0000_0000_0000,
            ;
        }
        let sq: u128 = mid * mid;
        if sq <= n {
            lo = mid;
        } else {
            hi = mid;
        }
    }
    proof {
        assert(is_isqrt(n as int, lo as int));
        lemma_isqrt_unique(n as int, lo as int, sqrt_floor(n as int));
    }
    lo as u64
}

impl Fx {
    /// The scalar with the given raw bit value.
    pub fn from_bits(bits: i64) -> (r: Fx)
        ensures
            r.bits == bits,
    {
        Fx { bits }
    }

    /// Zero.
    pub fn zero() -> (r: Fx)
        ensures
            r.bits == 0,
    {
        Fx { bits: 0 }
    }

    /// One.
    pub fn one() -> (r: Fx)
        ensures
            r.bits == SCALE,
    {
        Fx { bits: SCALE }
    }

    /// The scalar representing the integer `i` exactly.
    pub fn from_int(i: i32) -> (r: Fx)
        ensures
            r.bits as int == (i as int) * (SCALE as int),
    {
        Fx { bits: (i as i64) * SCALE }
    }

    /// Saturating addition.
    pub fn add(self, o: Fx) -> (r: Fx)
        ensures
            r.bits as int == fx_add(self.bits as int, o.bits as int),
    {
        let s: i128 = self.bits as i128 + o.bits as i128;
        Fx { bits: sat_to_i64(s) }
    }

    /// Saturating subtraction.
    pub fn sub(self, o: Fx) -> (r: Fx)
        ensures
            r.bits as int == fx_sub(self.bits as int, o.bits as int),
    {
        let s: i128 = self.bits as i128 - o.bits as i128;
        Fx { bits: sat_to_i64(s) }
    }

    /// Saturating negation.
    pub fn neg(self) -> (r: Fx)
        ensures
            r.bits as int == fx_neg(self.bits as int),
    {
        let s: i128 = -(self.bits as i128);
        Fx { bits: sat_to_i64(s) }
    }

    /// Saturating absolute value.
    pub fn abs(self) -> (r: Fx)
        ensures
            r.bits as int == fx_abs(self.bits as int),
    {
        if self.bits < 0 {
            self.neg()
        } else {
            self
        }
    }

    /// Product, rounded toward negative infinity.
    pub fn mul(self, o: Fx) -> (r: Fx)
        ensures
            r.bits as int == fx_mul(self.bits as int, o.bits as int),
    {
        let p: i128 = mul_i64_wide(self.bits, o.bits);
        let q: i128 = floor_div_wide(p, SCALE as i128);
        Fx { bits: sat_to_i64(q) }
    }

    /// Product, rounded toward positive infinity.
    pub fn mul_up(self, o: Fx) -> (r: Fx)
        ensures
            r.bits as int == fx_mul_up(self.bits as int, o.bits as int),
    {
        let p: i128 = mul_i64_wide(self.bits, o.bits);
        let q: i128 = ceil_div_wide(p, SCALE as i128);
        Fx { bits: sat_to_i64(q) }
    }

    /// Quotient, rounded toward negative infinity.
    pub fn div(self, o: Fx) -> (r: Fx)
        requires
            o.bits != 0,
        ensures
            r.bits as int == fx_div(self.bits as int, o.bits as int),
    {
        let n: i128 = (self.bits as i128) * 0x1_0000_0000;
        proof {
            assert(SCALE == 0x1_0000_0000);
        }
        if o.bits > 0 {
            let q: i128 = floor_div_wide(n, o.bits as i128);
            Fx { bits: sat_to_i64(q) }
        } else {
            let q: i128 = floor_div_wide(-n, -(o.bits as i128));
            Fx { bits: sat_to_i64(q) }
        }
    }

    /// Quotient, rounded toward positive infinity.
    pub fn div_up(self, o: Fx) -> (r: Fx)
        requires
            o.bits != 0,
        ensures
            r.bits as int == fx_div_up(self.bits as int, o.bits as int),
    {
        let n: i128 = (self.bits as i128) * 0x1_0000_0000;
        proof {
            assert(SCALE == 0x1_0000_0000);
        }
        if o.bits > 0 {
            let q: i128 = ceil_div_wide(n, o.bits as i128);
            Fx { bits: sat_to_i64(q) }
        } else {
            let q: i128 = ceil_div_wide(-n, -(o.bits as i128));
            Fx { bits: sat_to_i64(q) }
        }
    }

    /// Half, rounded toward negative infinity.
    pub fn half(self) -> (r: Fx)
        ensures
            r.bits as int == fx_half(self.bits as int),
    {
        let q: i128 = floor_div_wide(self.bits as i128, 2);
        Fx { bits: sat_to_i64(q) }
    }

    /// Half, rounded toward positive infinity.
    pub fn half_up(self) -> (r: Fx)
        ensures
            r.bits as int == fx_half_up(self.bits as int),
    {
        let q: i128 = ceil_div_wide(self.bits as i128, 2);
        Fx { bits: sat_to_i64(q) }
    }

    /// Square root, rounded toward negative infinity.
    pub fn sqrt(self) -> (r: Fx)
        ensures
            r.bits as int == fx_sqrt(self.bits as int),
            r.bits >= 0,
    {
        if self.bits <= 0 {
            Fx { bits: 0 }
        } else {
            let n: u128 = (self.bits as u128) * 0x1_0000_0000;
            let s: u64 = isqrt(n);
            proof {
                assert((s as int) * (s as int) <= n as int);
                assert(s as int <= 0x1_0000_0000_0000) by (nonlinear_arith)
                    requires
                        (s as int) * (s as int) <= n as int,
                        (n as int) < 0x1_0000_0000_0000_0000_0000_0000,
                        s as int >= 0,
                ;
            }
            Fx { bits: s as i64 }
        }
    }

    /// Square root, rounded toward positive infinity.
    pub fn sqrt_up(self) -> (r: Fx)
        ensures
            r.bits as int == fx_sqrt_up(self.bits as int),
            r.bits >= 0,
    {
        if self.bits <= 0 {
            Fx { bits: 0 }
        } else {
            let n: u128 = (self.bits as u128) * 0x1_0000_0000;
            let s: u64 = isqrt(n);
            proof {
                assert(s as int <= 0x1_0000_0000_0000) by (nonlinear_arith)
                    requires
                        (s as int) * (s as int) <= n as int,
                        (n as int) < 0x1_0000_0000_0000_0000_0000_0000,
                        s as int >= 0,
                ;
            }
            if (s as u128) * (s as u128) == n {
                Fx { bits: s as i64 }
            } else {
                Fx { bits: (s as i64) + 1 }
            }
        }
    }

    /// The smaller of two scalars.
    pub fn min(self, o: Fx) -> (r: Fx)
        ensures
            r.bits == if self.bits <= o.bits { self.bits } else { o.bits },
    {
        if self.bits <= o.bits {
            self
        } else {
            o
        }
    }

    /// The larger of two scalars.
    pub fn max(self, o: Fx) -> (r: Fx)
        ensures
            r.bits == if self.bits >= o.bits { self.bits } else { o.bits },
    {
        if self.bits >= o.bits {
            self
        } else {
            o
        }
    }

    /// The scalar clamped into `[lo, hi]`.
    pub fn clamp(self, lo: Fx, hi: Fx) -> (r: Fx)
        requires
            lo.bits <= hi.bits,
        ensures
            r.bits == if self.bits < lo.bits {
                lo.bits
            } else if self.bits > hi.bits {
                hi.bits
            } else {
                self.bits
            },
    {
        if self.bits < lo.bits {
            lo
        } else if self.bits > hi.bits {
            hi
        } else {
            self
        }
    }

    /// The greatest multiple of one below the scalar.
    pub fn floor(self) -> (r: Fx)
        ensures
            r.bits as int == (self.bits as int / SCALE as int) * SCALE as int,
    {
        let q: i128 = floor_div_wide(self.bits as i128, SCALE as i128);
        proof {
            lemma_fundamental_div_mod(self.bits as int, SCALE as int);
            assert((q as int) * (SCALE as int) == self.bits as int - (
            self.bits as int % SCALE as int));
        }
        Fx { bits: (q as i64) * SCALE }
    }

    /// The fractional part of the scalar, always in `[0, 1)`.
    pub fn fract(self) -> (r: Fx)
        ensures
            r.bits as int == self.bits as int % SCALE as int,
            0 <= r.bits < SCALE,
    {
        let f: Fx = self.floor();
        proof {
            lemma_fundamental_div_mod(self.bits as int, SCALE as int);
        }
        Fx { bits: self.bits - f.bits }
    }
}

} // verus!
