//! Tests for vectors, normals, transforms, the transform cache, and the
//! transform round trip.

use quadric::fixed::{Fx, SCALE};
use quadric::vecmath::{normal3, zero_normal3, vector3, point3};
use quadric::transform::{Transform, Matrix4, transform, TransformCache};

fn fx(i: i32) -> Fx {
    Fx::from_int(i)
}

fn fb(b: i64) -> Fx {
    Fx::from_bits(b)
}

#[test]
fn zero_vector() {
    assert!(normal3(fb(0), fb(0), fb(0)) == zero_normal3());
    assert!(normal3(fx(0), fx(0), fx(0)) == zero_normal3());
}

#[test]
fn length_squared_matches_components() {
    let n = normal3(fx(1), fx(2), fx(3));
    assert_eq!(n.length_squared().bits, 14 * SCALE);
    let v = vector3(fx(3), fx(4), fx(0));
    assert_eq!(v.length().bits, 5 * SCALE);
    assert_eq!(v.normalize().x.bits, 3 * SCALE / 5);
    assert_eq!(v.normalize().y.bits, 4 * SCALE / 5);
}

#[test]
fn cross_and_dot() {
    let x = vector3(fx(1), fx(0), fx(0));
    let y = vector3(fx(0), fx(1), fx(0));
    let c = x.cross(y);
    assert_eq!(c.x.bits, 0);
    assert_eq!(c.y.bits, 0);
    assert_eq!(c.z.bits, SCALE);
    assert_eq!(x.dot(y).bits, 0);
    assert_eq!(x.dot(x).bits, SCALE);
}

#[test]
fn face_forward_flips_against_the_reference() {
    let n = normal3(fx(0), fx(0), fx(1));
    let v = vector3(fx(0), fx(0), fx(-1));
    let f = n.face_forward(v);
    assert_eq!(f.z.bits, -SCALE);
    let f2 = n.face_forward(v.neg());
    assert_eq!(f2.z.bits, SCALE);
}

/// A translation by (tx, ty, tz) and its inverse.
fn translation(tx: i32, ty: i32, tz: i32) -> Transform {
    let i = Matrix4::identity();
    let m = Matrix4 { m03: fx(tx), m13: fx(ty), m23: fx(tz), ..i };
    let m_inv = Matrix4 { m03: fx(-tx), m13: fx(-ty), m23: fx(-tz), ..i };
    transform(m, m_inv)
}

#[test]
fn translation_moves_points_not_vectors() {
    let t = translation(1, 2, 3);
    let p = t.transform_point(point3(fx(10), fx(10), fx(10)));
    assert_eq!(p.x.bits, 11 * SCALE);
    assert_eq!(p.y.bits, 12 * SCALE);
    assert_eq!(p.z.bits, 13 * SCALE);
    let v = t.transform_vector(vector3(fx(10), fx(10), fx(10)));
    assert_eq!(v.x.bits, 10 * SCALE);
    assert!(!t.swaps_handedness);
}

#[test]
fn mirror_swaps_handedness() {
    let i = Matrix4::identity();
    let m = Matrix4 { m00: fx(-1), ..i };
    let t = transform(m, m);
    assert!(t.swaps_handedness);
}

#[test]
fn round_trip_stays_within_the_error_bound() {
    // Carry a point forward and back through a translation: the result
    // returns to the original within the propagated error bound.
    let t = translation(7, -4, 9);
    let p = point3(fb(SCALE / 3), fb(-SCALE / 7), fb(5 * SCALE / 2));
    let zero_err = vector3(fb(0), fb(0), fb(0));
    let (q, qe) = t.transform_point_with_err(p, zero_err);
    let (back, be) = t.inverse().transform_point_with_err(q, qe);
    assert!((back.x.bits - p.x.bits).abs() <= be.x.bits);
    assert!((back.y.bits - p.y.bits).abs() <= be.y.bits);
    assert!((back.z.bits - p.z.bits).abs() <= be.z.bits);
}

#[test]
fn cache_stores_one_instance_per_value() {
    let mut cache = TransformCache::new();
    let a = translation(1, 2, 3);
    let b = translation(1, 2, 3);
    let c = translation(4, 5, 6);
    let r1 = cache.lookup(a);
    let r2 = cache.lookup(b);
    assert!(r1 == a && r2 == a);
    assert_eq!(cache.transforms.len(), 1);
    let _ = cache.lookup(c);
    assert_eq!(cache.transforms.len(), 2);
    let _ = cache.lookup(b);
    assert_eq!(cache.transforms.len(), 2);
    cache.clear();
    assert_eq!(cache.transforms.len(), 0);
}
