//! Unit tests for the fixed-point scalars, the error-bounded intervals,
//! and the angle functions.

use quadric::fixed::{Fx, SCALE};
use quadric::efloat::{Ef, quadratic};
use quadric::transcend::{
    acos_fx, atan2_fx, exp_neg, to_radians, PI_BITS, HALF_PI_BITS, TWO_PI_BITS,
};

fn fx(i: i32) -> Fx {
    Fx::from_int(i)
}

#[test]
fn fixed_point_basics() {
    assert_eq!(fx(2).add(fx(3)).bits, 5 * SCALE);
    assert_eq!(fx(2).sub(fx(3)).bits, -SCALE);
    assert_eq!(fx(6).mul(fx(7)).bits, 42 * SCALE);
    assert_eq!(fx(-6).mul(fx(7)).bits, -42 * SCALE);
    // Division rounds toward negative infinity.
    assert_eq!(fx(1).div(fx(3)).bits, SCALE / 3);
    assert_eq!(fx(4).sqrt().bits, 2 * SCALE);
    assert_eq!(fx(2).sqrt().bits, 6074000999);
    assert_eq!(fx(-5).abs().bits, 5 * SCALE);
    assert_eq!(fx(-5).neg().bits, 5 * SCALE);
    assert_eq!(fx(7).min(fx(3)).bits, 3 * SCALE);
    assert_eq!(fx(7).max(fx(3)).bits, 7 * SCALE);
    assert_eq!(fx(9).clamp(fx(0), fx(4)).bits, 4 * SCALE);
}

#[test]
fn fixed_point_saturates_instead_of_wrapping() {
    let huge = Fx::from_bits(i64::MAX);
    assert_eq!(huge.add(huge).bits, i64::MAX);
    assert_eq!(huge.neg().add(huge.neg()).bits, i64::MIN);
    assert_eq!(huge.mul(huge).bits, i64::MAX);
}

#[test]
fn fract_and_floor() {
    let x = Fx::from_bits(3 * SCALE + SCALE / 4);
    assert_eq!(x.floor().bits, 3 * SCALE);
    assert_eq!(x.fract().bits, SCALE / 4);
    let y = Fx::from_bits(-SCALE / 4);
    // The fractional part is always in [0, 1).
    assert_eq!(y.floor().bits, -SCALE);
    assert_eq!(y.fract().bits, 3 * (SCALE / 4));
}

#[test]
fn interval_ops_keep_the_bracket() {
    let a = Ef::with_err(fx(3), Fx::from_bits(7));
    let b = Ef::with_err(fx(-2), Fx::from_bits(5));
    for r in [a.add(b), a.sub(b), a.mul(b), a.neg(), a.half(), a.div(b)] {
        assert!(r.lo.bits <= r.v.bits && r.v.bits <= r.hi.bits);
    }
    let s = Ef::with_err(fx(9), Fx::from_bits(3)).sqrt();
    assert!(s.lo.bits <= s.v.bits && s.v.bits <= s.hi.bits);
    assert_eq!(s.v.bits, 3 * SCALE);
}

#[test]
fn interval_division_by_zero_spans_everything() {
    let a = Ef::exact(fx(1));
    let b = Ef::with_err(fx(0), Fx::from_bits(10));
    let r = a.div(b);
    assert_eq!(r.lo.bits, i64::MIN);
    assert_eq!(r.hi.bits, i64::MAX);
}

#[test]
fn quadratic_finds_ordered_roots() {
    // t^2 - 3 t + 2: roots 1 and 2.
    let r = quadratic(Ef::exact(fx(1)), Ef::exact(fx(-3)), Ef::exact(fx(2)));
    let (t0, t1) = r.expect("a positive discriminant must yield roots");
    assert_eq!(t0.v.bits, SCALE);
    assert_eq!(t1.v.bits, 2 * SCALE);
    assert!(t0.lo.bits <= t0.v.bits && t0.v.bits <= t0.hi.bits);
    assert!(t1.lo.bits <= t1.v.bits && t1.v.bits <= t1.hi.bits);
}

#[test]
fn quadratic_rejects_negative_discriminant() {
    // t^2 + 1: no real roots.
    assert!(quadratic(Ef::exact(fx(1)), Ef::exact(fx(0)), Ef::exact(fx(1))).is_none());
}

#[test]
fn angles_are_exact_on_the_axes() {
    let z = Fx::from_bits(0);
    assert_eq!(atan2_fx(z, fx(3)).bits, 0);
    assert_eq!(atan2_fx(fx(3), z).bits, HALF_PI_BITS);
    assert_eq!(atan2_fx(z, fx(-3)).bits, PI_BITS);
    assert_eq!(atan2_fx(fx(-3), z).bits, PI_BITS + HALF_PI_BITS);
    let r = atan2_fx(fx(-1), fx(5));
    assert!(0 <= r.bits && r.bits <= TWO_PI_BITS);
    assert!(r.bits > PI_BITS);
}

#[test]
fn arccosine_hits_the_special_points() {
    assert_eq!(acos_fx(Fx::from_bits(SCALE)).bits, 0);
    assert_eq!(acos_fx(Fx::from_bits(-SCALE)).bits, PI_BITS);
    assert_eq!(acos_fx(Fx::from_bits(0)).bits, HALF_PI_BITS);
    let r = acos_fx(Fx::from_bits(SCALE / 2));
    assert!(0 < r.bits && r.bits < PI_BITS);
}

#[test]
fn degrees_convert_exactly_for_full_turns() {
    assert_eq!(to_radians(fx(360)).bits, TWO_PI_BITS);
    assert_eq!(to_radians(fx(180)).bits, PI_BITS);
    assert_eq!(to_radians(fx(90)).bits, HALF_PI_BITS);
    assert_eq!(to_radians(fx(0)).bits, 0);
}

#[test]
fn decaying_exponential_stays_in_range() {
    assert_eq!(exp_neg(Fx::from_bits(0)).bits, SCALE);
    let r1 = exp_neg(fx(1));
    let r2 = exp_neg(fx(2));
    assert!(0 < r2.bits && r2.bits < r1.bits && r1.bits < SCALE);
}
