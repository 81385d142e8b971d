//! Scenario tests for the sphere: straight hits, clipping with the
//! farther-root retry, the tangent ray, and the error-bound guarantee.

use quadric::fixed::{Fx, SCALE};
use quadric::transcend::PI_BITS;
use quadric::transform::Transform;
use quadric::vecmath::{point3, vector3};
use quadric::shape::ray;
use quadric::sphere::sphere;

fn fx(i: i32) -> Fx {
    Fx::from_int(i)
}

fn zero() -> Fx {
    Fx::from_bits(0)
}

fn big_t() -> Fx {
    Fx::from_int(1_000_000)
}

/// A full unit sphere at the origin with identity transforms.
fn unit_sphere() -> quadric::sphere::Sphere {
    let t = Transform::identity();
    sphere(t, t, false, fx(1), fx(-1), fx(1), fx(360))
}

#[test]
fn axial_ray_hits_unit_sphere_at_four() {
    let s = unit_sphere();
    let r = ray(
        point3(zero(), zero(), fx(5)),
        vector3(zero(), zero(), fx(-1)),
        big_t(),
        zero(),
    );
    let it = s.intersect(&r, true).expect("the axial ray must hit");
    // Hit distance is exactly 4.
    assert_eq!(it.t.bits, 4 * SCALE);
    // Hit position is (nudge, 0, 1): the z-axis hit is nudged off the
    // axis by about 1e-5 of the radius to keep the angle defined.
    assert_eq!(it.isect.hit.p.x.bits, 42950);
    assert_eq!(it.isect.hit.p.y.bits, 0);
    assert_eq!(it.isect.hit.p.z.bits, SCALE);
    // Parametric coordinates: u = 0, v = 1.
    assert_eq!(it.isect.uv.x.bits, 0);
    assert_eq!(it.isect.uv.y.bits, SCALE);
    // The reported normal is (0, 0, 1) up to the last few fixed-point
    // digits of the normalization.
    assert_eq!(it.isect.hit.n.x.bits, 0);
    assert_eq!(it.isect.hit.n.y.bits, 0);
    assert!((it.isect.hit.n.z.bits - SCALE).abs() <= SCALE / 256);
    // The shading normal starts out equal to the geometric normal.
    assert_eq!(it.isect.shading.n.x.bits, it.isect.hit.n.x.bits);
    assert_eq!(it.isect.shading.n.y.bits, it.isect.hit.n.y.bits);
    assert_eq!(it.isect.shading.n.z.bits, it.isect.hit.n.z.bits);
    // The boolean query agrees.
    assert!(s.intersect_p(&r, true));
}

#[test]
fn clipped_sphere_rejects_both_roots() {
    // z in [0, 1/2]: the near hit at z = 1 is clipped, and the far hit at
    // z = -1 is clipped too after the retry with the farther root.
    let t = Transform::identity();
    let s = sphere(t, t, false, fx(1), fx(0), Fx::from_bits(SCALE / 2), fx(360));
    let r = ray(
        point3(zero(), zero(), fx(5)),
        vector3(zero(), zero(), fx(-1)),
        big_t(),
        zero(),
    );
    assert!(s.intersect(&r, true).is_none());
    assert!(!s.intersect_p(&r, true));
}

#[test]
fn clip_retry_accepts_far_root() {
    // z in [-1, 1/2]: the near hit at z = 1 is clipped, but z_min stays at
    // the full -radius, so the far hit at z = -1 passes the retry and the
    // reported distance is the farther root, 6.
    let t = Transform::identity();
    let s = sphere(t, t, false, fx(1), fx(-1), Fx::from_bits(SCALE / 2), fx(360));
    let r = ray(
        point3(zero(), zero(), fx(5)),
        vector3(zero(), zero(), fx(-1)),
        big_t(),
        zero(),
    );
    let it = s.intersect(&r, true).expect("the far root must be accepted");
    assert_eq!(it.t.bits, 6 * SCALE);
    assert_eq!(it.isect.hit.p.z.bits, -SCALE);
    assert!(s.intersect_p(&r, true));
}

#[test]
fn tangent_ray_is_consistent() {
    // A ray grazing the unit sphere at (1, 0, 0): the discriminant is
    // exactly zero, both roots are 5, and the decision is a definite hit
    // for both queries.
    let s = unit_sphere();
    let r = ray(
        point3(fx(1), zero(), fx(5)),
        vector3(zero(), zero(), fx(-1)),
        big_t(),
        zero(),
    );
    let it = s.intersect(&r, true).expect("the tangent ray must decide hit");
    assert_eq!(it.t.bits, 5 * SCALE);
    assert_eq!(it.isect.hit.p.x.bits, SCALE);
    assert_eq!(it.isect.hit.p.y.bits, 0);
    assert_eq!(it.isect.hit.p.z.bits, 0);
    assert!(s.intersect_p(&r, true));
}

#[test]
fn miss_is_consistent() {
    let s = unit_sphere();
    let r = ray(
        point3(fx(3), zero(), fx(5)),
        vector3(zero(), zero(), fx(-1)),
        big_t(),
        zero(),
    );
    assert!(s.intersect(&r, true).is_none());
    assert!(!s.intersect_p(&r, true));
}

#[test]
fn behind_origin_is_rejected() {
    // The sphere lies behind the ray: both roots are negative.
    let s = unit_sphere();
    let r = ray(
        point3(zero(), zero(), fx(5)),
        vector3(zero(), zero(), fx(1)),
        big_t(),
        zero(),
    );
    assert!(s.intersect(&r, true).is_none());
    assert!(!s.intersect_p(&r, true));
}

#[test]
fn determinism_same_ray_same_answer() {
    let s = unit_sphere();
    let r = ray(
        point3(Fx::from_bits(SCALE / 3), Fx::from_bits(-SCALE / 7), fx(5)),
        vector3(Fx::from_bits(SCALE / 100), zero(), fx(-1)),
        big_t(),
        zero(),
    );
    let a = s.intersect(&r, true);
    let b = s.intersect(&r, true);
    match (a, b) {
        (Some(x), Some(y)) => {
            assert_eq!(x.t.bits, y.t.bits);
            assert_eq!(x.isect.hit.p.x.bits, y.isect.hit.p.x.bits);
            assert_eq!(x.isect.hit.p.y.bits, y.isect.hit.p.y.bits);
            assert_eq!(x.isect.hit.p.z.bits, y.isect.hit.p.z.bits);
            assert_eq!(x.isect.uv.x.bits, y.isect.uv.x.bits);
            assert_eq!(x.isect.uv.y.bits, y.isect.uv.y.bits);
        },
        (None, None) => {},
        _ => panic!("the same ray decided differently twice"),
    }
}

#[test]
fn error_bound_brackets_true_distance() {
    // Against a sphere of radius 2 at the origin with the identity
    // transform, the squared distance of every reported hit point from
    // the center lies within (radius +- p_error)^2, exactly as integers.
    let t = Transform::identity();
    let s = sphere(t, t, false, fx(2), fx(-2), fx(2), fx(360));
    let origins = [
        (0i64, 0, 5 * SCALE),
        (SCALE / 2, SCALE / 3, 6 * SCALE),
        (-SCALE, SCALE / 5, 4 * SCALE),
        (3 * SCALE / 2, -SCALE / 2, 7 * SCALE),
        (-SCALE / 4, -SCALE / 4, 5 * SCALE),
    ];
    let dirs = [
        (0i64, 0, -SCALE),
        (-SCALE / 10, 0, -SCALE),
        (SCALE / 20, SCALE / 30, -SCALE),
    ];
    let mut hits = 0u32;
    for (ox, oy, oz) in origins {
        for (dx, dy, dz) in dirs {
            let r = ray(
                point3(Fx::from_bits(ox), Fx::from_bits(oy), Fx::from_bits(oz)),
                vector3(Fx::from_bits(dx), Fx::from_bits(dy), Fx::from_bits(dz)),
                big_t(),
                zero(),
            );
            assert_eq!(s.intersect(&r, true).is_some(), s.intersect_p(&r, true));
            if let Some(it) = s.intersect(&r, true) {
                hits += 1;
                let px = it.isect.hit.p.x.bits as i128;
                let py = it.isect.hit.p.y.bits as i128;
                let pz = it.isect.hit.p.z.bits as i128;
                let d2 = px * px + py * py + pz * pz;
                let rad = (2 * SCALE) as i128;
                let e = it.isect.hit.p_error.x.bits as i128;
                assert!((rad - e) * (rad - e) <= d2, "distance below the bound");
                assert!(d2 <= (rad + e) * (rad + e), "distance above the bound");
            }
        }
    }
    assert!(hits >= 5, "the sample must contain real hits");
}

#[test]
fn area_of_unit_sphere_is_four_pi() {
    let s = unit_sphere();
    assert_eq!(s.area().bits, 4 * PI_BITS);
}

#[test]
fn area_of_hemisphere_is_two_pi() {
    let t = Transform::identity();
    let s = sphere(t, t, false, fx(1), fx(0), fx(1), fx(360));
    assert_eq!(s.area().bits, 2 * PI_BITS);
}

#[test]
fn object_bound_covers_the_clipped_sphere() {
    let t = Transform::identity();
    let s = sphere(t, t, false, fx(2), fx(-1), fx(1), fx(360));
    let b = s.object_bound();
    assert_eq!(b.p_min.x.bits, -2 * SCALE);
    assert_eq!(b.p_min.y.bits, -2 * SCALE);
    assert_eq!(b.p_min.z.bits, -SCALE);
    assert_eq!(b.p_max.x.bits, 2 * SCALE);
    assert_eq!(b.p_max.y.bits, 2 * SCALE);
    assert_eq!(b.p_max.z.bits, SCALE);
}
