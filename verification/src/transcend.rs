//! Fixed-point angle and exponential functions.
//!
//! The intersection code needs the azimuthal angle of a point, the polar
//! angle of a sphere hit, and a decaying exponential for filter falloff.
//! Each function here is a deterministic polynomial or algebraic
//! approximation with an exact integer specification; range facts and the
//! values at the axes are part of the contracts, since the clipping tests
//! and the parametric coordinates depend on them.

use vstd::prelude::*;
use vstd::arithmetic::div_mod::{
    lemma_div_is_ordered, lemma_div_is_ordered_by_denominator, lemma_div_multiples_vanish,
    lemma_div_of0,
};
use crate::fixed::{
    Fx, SCALE, fx_add, fx_sub, fx_abs, fx_mul, fx_div, fx_half, fx_sqrt,
    sqrt_floor, is_isqrt, lemma_isqrt_unique,
};
use crate::efloat::{iclamp, lemma_sqrt_floor_small};

verus! {

/// Pi at the fixed-point scale, rounded down.
pub const PI_BITS: i64 = 13493037704;

/// Half pi at the fixed-point scale; exactly half of `PI_BITS`.
pub const HALF_PI_BITS: i64 = 6746518852;

/// A quarter pi at the fixed-point scale; exactly a quarter of `PI_BITS`.
pub const QUARTER_PI_BITS: i64 = 3373259426;

/// Two pi at the fixed-point scale; exactly twice `PI_BITS`.
pub const TWO_PI_BITS: i64 = 26986075408;

/// Tuning constant of the arctangent approximation, about 0.273.
pub const ATAN_K_BITS: i64 = 1172526072;

/// A fixed-point product with a zero factor is zero.
pub proof fn lemma_fx_mul_zero(a: int)
    ensures
        fx_mul(a, 0) == 0,
        fx_mul(0, a) == 0,
{
    assert(a * 0 == 0) by (nonlinear_arith);
    assert(0 * a == 0) by (nonlinear_arith);
    lemma_div_of0(SCALE as int);
}

/// The square of plus or minus one is exactly one.
pub proof fn lemma_fx_square_one(a: int)
    requires
        a == SCALE as int || a == -(SCALE as int),
    ensures
        fx_mul(a, a) == SCALE as int,
{
    assert(a * a == SCALE as int * SCALE as int) by (nonlinear_arith)
        requires
            a == SCALE as int || a == -(SCALE as int),
    ;
    lemma_div_multiples_vanish(SCALE as int, SCALE as int);
}

/// A product of two scalars in `[0, 1]` stays in `[0, 1]`, and squares of
/// scalars in `[-1, 1]` land in `[0, 1]`.
pub proof fn lemma_fx_mul_unit(a: int, b: int)
    requires
        -(SCALE as int) <= a <= SCALE as int,
        -(SCALE as int) <= b <= SCALE as int,
        0 <= a * b,
    ensures
        0 <= fx_mul(a, b) <= SCALE as int,
{
    assert(a * b <= SCALE as int * SCALE as int) by (nonlinear_arith)
        requires
            -(SCALE as int) <= a <= SCALE as int,
            -(SCALE as int) <= b <= SCALE as int,
    ;
    lemma_div_is_ordered(0, a * b, SCALE as int);
    lemma_div_is_ordered(a * b, SCALE as int * SCALE as int, SCALE as int);
    assert((SCALE as int * SCALE as int) / (SCALE as int) == SCALE as int) by {
        lemma_div_multiples_vanish(SCALE as int, SCALE as int);
    }
}

/// Arctangent on `[0, 1]`, clamped into `[0, pi/2]`.
pub open spec fn spec_atan_unit(z: int) -> int {
    iclamp(
        fx_add(
            fx_mul(QUARTER_PI_BITS as int, z),
            fx_mul(ATAN_K_BITS as int, fx_mul(z, fx_sub(SCALE as int, z))),
        ),
        0,
        HALF_PI_BITS as int,
    )
}

/// Arctangent of a ratio in `[0, 1]`, in radians at the fixed-point scale.
///
/// Exact at the endpoints: zero maps to zero and one maps to a quarter pi.
pub fn atan_unit(z: Fx) -> (r: Fx)
    requires
        0 <= z.bits <= SCALE,
    ensures
        r.bits as int == spec_atan_unit(z.bits as int),
        0 <= r.bits <= HALF_PI_BITS,
        z.bits == 0 ==> r.bits == 0,
        z.bits == SCALE ==> r.bits == QUARTER_PI_BITS,
{
    let qp = Fx { bits: QUARTER_PI_BITS };
    let k = Fx { bits: ATAN_K_BITS };
    let omz = Fx { bits: SCALE }.sub(z);
    let t1 = qp.mul(z);
    let t2 = k.mul(z.mul(omz));
    let sum = t1.add(t2);
    let r = sum.clamp(Fx { bits: 0 }, Fx { bits: HALF_PI_BITS });
    proof {
        assert(SCALE == 0x1_0000_0000);
        if z.bits == 0 {
            lemma_fx_mul_zero(QUARTER_PI_BITS as int);
            lemma_fx_mul_zero(fx_sub(SCALE as int, z.bits as int));
            lemma_fx_mul_zero(ATAN_K_BITS as int);
        }
        if z.bits == SCALE {
            assert((QUARTER_PI_BITS as int * SCALE as int) / (SCALE as int)
                == QUARTER_PI_BITS as int) by {
                lemma_div_multiples_vanish(QUARTER_PI_BITS as int, SCALE as int);
            }
            assert(fx_sub(SCALE as int, z.bits as int) == 0);
            lemma_fx_mul_zero(z.bits as int);
            lemma_fx_mul_zero(ATAN_K_BITS as int);
        }
    }
    r
}

/// The angle of the point `(x, y)` measured counterclockwise from the
/// positive x axis, wrapped into `[0, 2 pi]`.
pub open spec fn spec_atan2(y: int, x: int) -> int {
    if y == 0 {
        if x >= 0 {
            0
        } else {
            PI_BITS as int
        }
    } else if x == 0 {
        if y > 0 {
            HALF_PI_BITS as int
        } else {
            PI_BITS as int + HALF_PI_BITS as int
        }
    } else {
        let ax = fx_abs(x);
        let ay = fx_abs(y);
        let base = if ay <= ax {
            spec_atan_unit(fx_div(ay, ax))
        } else {
            HALF_PI_BITS as int - spec_atan_unit(fx_div(ax, ay))
        };
        if x > 0 && y > 0 {
            base
        } else if x < 0 && y > 0 {
            PI_BITS as int - base
        } else if x < 0 {
            PI_BITS as int + base
        } else {
            TWO_PI_BITS as int - base
        }
    }
}

/// The azimuthal angle of `(x, y)`, in `[0, 2 pi]` at the fixed-point scale.
///
/// On the axes the result is exact: the positive x axis gives zero, the
/// positive y axis a half pi, the negative x axis pi, the negative y axis
/// three half pi.
pub fn atan2_fx(y: Fx, x: Fx) -> (r: Fx)
    ensures
        r.bits as int == spec_atan2(y.bits as int, x.bits as int),
        0 <= r.bits <= TWO_PI_BITS,
        y.bits >= 0 ==> r.bits <= PI_BITS,
{
    if y.bits == 0 {
        if x.bits >= 0 {
            Fx { bits: 0 }
        } else {
            Fx { bits: PI_BITS }
        }
    } else if x.bits == 0 {
        if y.bits > 0 {
            Fx { bits: HALF_PI_BITS }
        } else {
            Fx { bits: PI_BITS + HALF_PI_BITS }
        }
    } else {
        let ax = x.abs();
        let ay = y.abs();
        let base: Fx = if ay.bits <= ax.bits {
            let z = ay.div(ax);
            proof {
                lemma_div_is_ordered(0, ay.bits as int * SCALE as int, ax.bits as int);
                lemma_div_is_ordered(
                    ay.bits as int * SCALE as int,
                    ax.bits as int * SCALE as int,
                    ax.bits as int,
                );
                lemma_div_multiples_vanish(SCALE as int, ax.bits as int);
            }
            atan_unit(z)
        } else {
            let z = ax.div(ay);
            proof {
                lemma_div_is_ordered(0, ax.bits as int * SCALE as int, ay.bits as int);
                lemma_div_is_ordered(
                    ax.bits as int * SCALE as int,
                    ay.bits as int * SCALE as int,
                    ay.bits as int,
                );
                lemma_div_multiples_vanish(SCALE as int, ay.bits as int);
            }
            Fx { bits: HALF_PI_BITS - atan_unit(z).bits }
        };
        if x.bits > 0 && y.bits > 0 {
            base
        } else if x.bits < 0 && y.bits > 0 {
            Fx { bits: PI_BITS - base.bits }
        } else if x.bits < 0 {
            Fx { bits: PI_BITS + base.bits }
        } else {
            Fx { bits: TWO_PI_BITS - base.bits }
        }
    }
}

/// The arccosine of a scalar in `[-1, 1]`, via the identity
/// `acos(x) = atan2(sqrt(1 - x^2), x)`.
pub open spec fn spec_acos(x: int) -> int {
    spec_atan2(fx_sqrt(fx_sub(SCALE as int, fx_mul(x, x))), x)
}

/// The arccosine, in `[0, pi]` at the fixed-point scale.
///
/// Exact at the special points: one maps to zero, minus one to pi, and
/// zero to a half pi.
pub fn acos_fx(x: Fx) -> (r: Fx)
    requires
        -SCALE <= x.bits <= SCALE,
    ensures
        r.bits as int == spec_acos(x.bits as int),
        0 <= r.bits <= PI_BITS,
        x.bits == SCALE ==> r.bits == 0,
        x.bits == -SCALE ==> r.bits == PI_BITS,
        x.bits == 0 ==> r.bits == HALF_PI_BITS,
{
    let xx = x.mul(x);
    proof {
        assert(0 <= x.bits as int * x.bits as int) by (nonlinear_arith);
        lemma_fx_mul_unit(x.bits as int, x.bits as int);
    }
    let s2 = Fx { bits: SCALE }.sub(xx);
    let sn = s2.sqrt();
    proof {
        assert(SCALE == 0x1_0000_0000);
        if x.bits == 0 {
            lemma_fx_mul_zero(0);
            assert(xx.bits == 0);
            assert(s2.bits == SCALE);
            assert(is_isqrt(SCALE as int * SCALE as int, SCALE as int)) by (nonlinear_arith);
            lemma_sqrt_floor_small(SCALE as int * SCALE as int);
            lemma_isqrt_unique(
                SCALE as int * SCALE as int,
                SCALE as int,
                sqrt_floor(SCALE as int * SCALE as int),
            );
            assert(sn.bits == SCALE);
        }
        if x.bits == SCALE || x.bits == -SCALE {
            lemma_fx_square_one(x.bits as int);
            assert(xx.bits == SCALE);
            assert(s2.bits == 0);
            assert(sn.bits == 0);
        }
    }
    atan2_fx(sn, x)
}

/// Degrees to radians at the fixed-point scale.
pub open spec fn spec_to_radians(d: int) -> int {
    fx_div(fx_mul(d, PI_BITS as int), 180 * SCALE as int)
}

/// Converts degrees to radians.
pub fn to_radians(d: Fx) -> (r: Fx)
    ensures
        r.bits as int == spec_to_radians(d.bits as int),
{
    let p = d.mul(Fx { bits: PI_BITS });
    p.div(Fx { bits: 180 * SCALE })
}

/// A decaying exponential: `1 / (1 + x + x^2/2 + x^3/6)`, a rational
/// approximation of `exp(-x)` for nonnegative `x`.
pub open spec fn spec_exp_neg(x: int) -> int {
    let x2 = fx_mul(x, x);
    let x3 = fx_mul(x2, x);
    let den = fx_add(fx_add(fx_add(SCALE as int, x), fx_half(x2)), fx_div(x3, 6 * SCALE as int));
    fx_div(SCALE as int, den)
}

/// Evaluates the decaying exponential; the result stays in `[0, 1]` and is
/// exactly one at zero.
pub fn exp_neg(x: Fx) -> (r: Fx)
    requires
        x.bits >= 0,
    ensures
        r.bits as int == spec_exp_neg(x.bits as int),
        0 <= r.bits <= SCALE,
        x.bits == 0 ==> r.bits == SCALE,
{
    let x2 = x.mul(x);
    proof {
        assert(0 <= x.bits as int * x.bits as int) by (nonlinear_arith);
        lemma_div_is_ordered(0, x.bits as int * x.bits as int, SCALE as int);
    }
    let x3 = x2.mul(x);
    proof {
        assert(0 <= x2.bits as int * x.bits as int) by (nonlinear_arith)
            requires
                x2.bits >= 0,
                x.bits >= 0,
        ;
        lemma_div_is_ordered(0, x2.bits as int * x.bits as int, SCALE as int);
    }
    let t3 = x3.div(Fx { bits: 6 * SCALE });
    proof {
        lemma_div_is_ordered(0, x3.bits as int * SCALE as int, 6 * SCALE as int);
    }
    let den = Fx { bits: SCALE }.add(x).add(x2.half()).add(t3);
    proof {
        assert(den.bits >= SCALE);
    }
    let r = Fx { bits: SCALE }.div(den);
    proof {
        lemma_div_is_ordered(0, SCALE as int * SCALE as int, den.bits as int);
        lemma_div_is_ordered_by_denominator(
            SCALE as int * SCALE as int,
            SCALE as int,
            den.bits as int,
        );
        lemma_div_multiples_vanish(SCALE as int, SCALE as int);
    }
    r
}

} // verus!
