//! Tests for the paraboloid, the shape family, lights, filters, textures
//! and the geometric primitive.

use quadric::fixed::{Fx, SCALE};
use quadric::transcend::PI_BITS;
use quadric::transform::Transform;
use quadric::vecmath::{point3, vector3, point2};
use quadric::shape::{ray, MediumInterface};
use quadric::sphere::sphere;
use quadric::paraboloid::paraboloid;
use quadric::quadric::Shape;
use quadric::spectrum::RGBSpectrum;
use quadric::light::{DiffuseAreaLight, LightType, AREA_LIGHT, DELTA_POSITION_LIGHT,
    DELTA_DIRECTION_LIGHT, INFINITE_LIGHT};
use quadric::filter::{FilterData, GaussianFilter, Filter};
use quadric::texture::{TextureMapping2D, UVTexture};
use quadric::primitive::GeometricPrimitive;
use quadric::interaction::surface_interaction;
use quadric::vecmath::{Vector2, normal3};

fn fx(i: i32) -> Fx {
    Fx::from_int(i)
}

fn fb(b: i64) -> Fx {
    Fx::from_bits(b)
}

fn big_t() -> Fx {
    Fx::from_int(1_000_000)
}

fn unit_paraboloid() -> quadric::paraboloid::Paraboloid {
    let t = Transform::identity();
    paraboloid(t, t, false, fx(2), fx(0), fx(2), fx(360))
}

#[test]
fn lateral_ray_hits_paraboloid() {
    // z = (x^2 + y^2) / 2 here; the ray from (0, 0, 1) along +x meets the
    // surface where x = sqrt(2), at height 1.
    let s = unit_paraboloid();
    let r = ray(
        point3(fx(0), fx(0), fx(1)),
        vector3(fx(1), fx(0), fx(0)),
        big_t(),
        fx(0),
    );
    let it = s.intersect(&r, true).expect("the lateral ray must hit");
    // t = sqrt(2) up to the rounding of the root computation.
    assert!((it.t.bits - 6074000999).abs() <= 64);
    assert_eq!(it.isect.hit.p.z.bits, SCALE);
    // u = 0 (the hit lies on the +x half plane), v = z fraction = 1/2.
    assert_eq!(it.isect.uv.x.bits, 0);
    assert_eq!(it.isect.uv.y.bits, SCALE / 2);
    assert!(s.intersect_p(&r, true));
}

#[test]
fn vertical_ray_on_axis_misses_paraboloid() {
    // Straight down the axis the quadratic degenerates (no quadratic
    // term); both queries must agree on the rejection.
    let s = unit_paraboloid();
    let r = ray(
        point3(fx(0), fx(0), fx(5)),
        vector3(fx(0), fx(0), fx(-1)),
        big_t(),
        fx(0),
    );
    assert_eq!(s.intersect(&r, true).is_some(), s.intersect_p(&r, true));
    assert!(!s.intersect_p(&r, true));
}

#[test]
fn paraboloid_clips_above_z_max() {
    let t = Transform::identity();
    let s = paraboloid(t, t, false, fx(2), fx(0), fb(SCALE / 2), fx(360));
    // The same lateral ray at height 1 now lies above z_max = 1/2.
    let r = ray(
        point3(fx(0), fx(0), fx(1)),
        vector3(fx(1), fx(0), fx(0)),
        big_t(),
        fx(0),
    );
    assert!(s.intersect(&r, true).is_none());
    assert!(!s.intersect_p(&r, true));
}

#[test]
fn paraboloid_area_matches_the_closed_form() {
    // radius 1, z in [0, 1]: area = (pi / 6) (5^1.5 - 1), about 5.3304.
    let t = Transform::identity();
    let s = paraboloid(t, t, false, fx(1), fx(0), fx(1), fx(360));
    let a = s.area().bits;
    let lo = (SCALE as i128 * 53) / 10;
    let hi = (SCALE as i128 * 54) / 10;
    assert!(lo < a as i128 && (a as i128) < hi);
}

#[test]
fn shape_family_dispatches_consistently() {
    let t = Transform::identity();
    let sp = Shape::Sphere(sphere(t, t, false, fx(1), fx(-1), fx(1), fx(360)));
    let pb = Shape::Paraboloid(unit_paraboloid());
    let r = ray(
        point3(fx(0), fx(0), fx(5)),
        vector3(fx(0), fx(0), fx(-1)),
        big_t(),
        fx(0),
    );
    for s in [sp, pb] {
        assert_eq!(s.intersect(&r, true).is_some(), s.intersect_p(&r, true));
    }
    assert_eq!(sp.area().bits, 4 * PI_BITS);
}

#[test]
fn light_type_flags() {
    let lt = LightType::new(DELTA_POSITION_LIGHT);
    assert!(lt.matches(DELTA_POSITION_LIGHT));
    assert!(!lt.matches(AREA_LIGHT));
    assert!(lt.is_delta_light());
    let area = LightType::new(AREA_LIGHT);
    assert!(!area.is_delta_light());
    let dir = LightType::new(DELTA_DIRECTION_LIGHT);
    assert!(dir.is_delta_light());
    let inf = LightType::new(INFINITE_LIGHT);
    assert!(!inf.is_delta_light());
}

#[test]
fn diffuse_area_light_emits_one_sided() {
    let t = Transform::identity();
    let sp = Shape::Sphere(sphere(t, t, false, fx(1), fx(-1), fx(1), fx(360)));
    let mi = MediumInterface { inside: None, outside: None };
    let emit = RGBSpectrum::new(fx(3));
    let light = DiffuseAreaLight::new(t, mi, emit, 4, sp, false);
    assert_eq!(light.area.bits, 4 * PI_BITS);
    assert_eq!(light.light_type.t, AREA_LIGHT);
    // Build a hit on the light's surface facing +z.
    let r = ray(
        point3(fx(0), fx(0), fx(5)),
        vector3(fx(0), fx(0), fx(-1)),
        big_t(),
        fx(0),
    );
    let sphere_shape = match sp {
        Shape::Sphere(x) => x,
        _ => unreachable!(),
    };
    let it = sphere_shape.intersect(&r, true).expect("must hit");
    let toward = vector3(fx(0), fx(0), fx(1));
    let away = vector3(fx(0), fx(0), fx(-1));
    assert_eq!(light.l(&it.isect.hit, &toward).c0.bits, 3 * SCALE);
    assert!(light.l(&it.isect.hit, &away).is_black());
    let two = DiffuseAreaLight::new(t, mi, emit, 4, sp, true);
    assert_eq!(two.l(&it.isect.hit, &away).c0.bits, 3 * SCALE);
}

#[test]
fn filter_data_caches_reciprocals() {
    let d = FilterData::new(Vector2 { x: fx(2), y: fx(4) });
    assert_eq!(d.inv_radius.x.bits, SCALE / 2);
    assert_eq!(d.inv_radius.y.bits, SCALE / 4);
}

#[test]
fn gaussian_filter_vanishes_at_its_radius() {
    let radius = Vector2 { x: fx(2), y: fx(2) };
    let f = GaussianFilter::new(radius, fx(1));
    // At the center the filter is positive.
    let center = f.evaluate(&point2(fx(0), fx(0)));
    assert!(center.bits > 0);
    // On the radius each axis factor is exactly zero.
    assert_eq!(f.gaussian(fx(2), f.exp_x).bits, 0);
    assert_eq!(f.evaluate(&point2(fx(2), fx(2))).bits, 0);
    // The filter decreases away from the center.
    let off = f.evaluate(&point2(fx(1), fx(0)));
    assert!(off.bits < center.bits);
    assert_eq!(f.get_data().radius.x.bits, 2 * SCALE);
}

#[test]
fn uv_texture_shows_the_parametrization() {
    // A direct interaction with uv = (1/4, 3/2): the texture shows the
    // fractional parts (1/4, 1/2).
    let si = surface_interaction(
        point3(fx(0), fx(0), fx(0)),
        vector3(fx(0), fx(0), fx(0)),
        point2(fb(SCALE / 4), fb(3 * (SCALE / 2))),
        vector3(fx(0), fx(0), fx(1)),
        vector3(fx(1), fx(0), fx(0)),
        vector3(fx(0), fx(1), fx(0)),
        normal3(fx(0), fx(0), fx(0)),
        normal3(fx(0), fx(0), fx(0)),
        fx(0),
        None,
    );
    let tex = UVTexture::new(TextureMapping2D::identity());
    let c = tex.evaluate(&si);
    assert_eq!(c.c0.bits, SCALE / 4);
    assert_eq!(c.c1.bits, SCALE / 2);
    assert_eq!(c.c2.bits, 0);
}

#[test]
fn primitive_attaches_itself_and_shrinks_the_ray() {
    let t = Transform::identity();
    let sp = Shape::Sphere(sphere(t, t, false, fx(1), fx(-1), fx(1), fx(360)));
    let mi = MediumInterface { inside: Some(7), outside: None };
    let prim = GeometricPrimitive::new(sp, Some(11), None, mi, 42);
    let mut r = ray(
        point3(fx(0), fx(0), fx(5)),
        vector3(fx(0), fx(0), fx(-1)),
        big_t(),
        fx(0),
    );
    let si = prim.intersect(&mut r).expect("must hit");
    assert_eq!(r.t_max.bits, 4 * SCALE);
    assert_eq!(si.primitive, Some(42));
    // The interface marks a transition, so it is attached as is.
    assert_eq!(si.hit.medium_interface.unwrap().inside, Some(7));
    // The shrunk ray now ends at the hit, whose conservative upper bound
    // lies just past t_max, so a requery reports no hit; a fresh ray hits.
    assert!(!prim.intersect_p(&r));
    let fresh = ray(
        point3(fx(0), fx(0), fx(5)),
        vector3(fx(0), fx(0), fx(-1)),
        big_t(),
        fx(0),
    );
    assert!(prim.intersect_p(&fresh));
    assert_eq!(prim.get_material(), Some(11));
    assert_eq!(prim.get_area_light(), None);
    // A miss leaves the ray unchanged.
    let mut miss = ray(
        point3(fx(9), fx(0), fx(5)),
        vector3(fx(0), fx(0), fx(-1)),
        big_t(),
        fx(0),
    );
    assert!(prim.intersect(&mut miss).is_none());
    assert_eq!(miss.t_max.bits, big_t().bits);
}

#[test]
fn update_shading_geometry_keeps_the_hemisphere() {
    let t = Transform::identity();
    let s = sphere(t, t, true, fx(1), fx(-1), fx(1), fx(360));
    let r = ray(
        point3(fx(0), fx(0), fx(5)),
        vector3(fx(0), fx(0), fx(-1)),
        big_t(),
        fx(0),
    );
    // With reverse orientation the reported normal points inward.
    let it = s.intersect(&r, true).expect("must hit");
    assert!(it.isect.hit.n.z.bits < 0);
    let (hn, sh) = it.isect.update_shading_geometry(
        it.isect.dpdu,
        it.isect.dpdv,
        it.isect.dndu,
        it.isect.dndv,
        false,
    );
    // The updated shading normal stays in the hemisphere of the geometric
    // normal: their dot product is not negative.
    let d = (hn.x.bits as i128) * (sh.n.x.bits as i128)
        + (hn.y.bits as i128) * (sh.n.y.bits as i128)
        + (hn.z.bits as i128) * (sh.n.z.bits as i128);
    assert!(d >= 0);
}

#[test]
fn update_shading_geometry_face_forwards_without_a_flip() {
    // A fresh cross product opposing the geometric normal, on a shape with
    // no effective flip: the face-forward correction turns the new shading
    // normal back into the geometric normal's hemisphere.
    let si = surface_interaction(
        point3(fx(0), fx(0), fx(0)),
        vector3(fx(0), fx(0), fx(0)),
        point2(fx(0), fx(0)),
        vector3(fx(0), fx(0), fx(1)),
        vector3(fx(1), fx(0), fx(0)),
        vector3(fx(0), fx(1), fx(0)),
        normal3(fx(0), fx(0), fx(0)),
        normal3(fx(0), fx(0), fx(0)),
        fx(0),
        None,
    );
    assert_eq!(si.hit.n.z.bits, SCALE);
    // Swapped derivatives give the opposite cross product.
    let (hn, sh) = si.update_shading_geometry(
        vector3(fx(0), fx(1), fx(0)),
        vector3(fx(1), fx(0), fx(0)),
        normal3(fx(0), fx(0), fx(0)),
        normal3(fx(0), fx(0), fx(0)),
        false,
    );
    assert_eq!(hn.z.bits, SCALE);
    assert_eq!(sh.n.z.bits, SCALE);
    // Authoritative update instead flips the geometric normal.
    let (hn2, sh2) = si.update_shading_geometry(
        vector3(fx(0), fx(1), fx(0)),
        vector3(fx(1), fx(0), fx(0)),
        normal3(fx(0), fx(0), fx(0)),
        normal3(fx(0), fx(0), fx(0)),
        true,
    );
    assert_eq!(sh2.n.z.bits, -SCALE);
    assert_eq!(hn2.z.bits, -SCALE);
}

#[test]
fn light_type_equality_is_subset_matching() {
    // A light type matches another when all its flags are set there.
    let area = LightType { t: AREA_LIGHT };
    let both = LightType { t: AREA_LIGHT | INFINITE_LIGHT };
    assert!(area == both);
    assert!(!(both == area));
    assert!(area == area);
}

#[test]
fn paraboloid_hit_lies_on_the_surface() {
    // At the lateral-ray hit, z equals z_max (x^2 + y^2) / radius^2 within
    // a small multiple of the reported positional error.
    let s = unit_paraboloid();
    let r = ray(
        point3(fx(0), fx(0), fx(1)),
        vector3(fx(1), fx(0), fx(0)),
        big_t(),
        fx(0),
    );
    let it = s.intersect(&r, true).expect("must hit");
    let p = it.isect.hit.p;
    let x = p.x.bits as i128;
    let y = p.y.bits as i128;
    let z = p.z.bits as i128;
    let scale = SCALE as i128;
    // k = z_max / radius^2 = 1/2 for this paraboloid.
    let lhs = z;
    let rhs = (x * x + y * y) / (2 * scale);
    let err = it.isect.hit.p_error.x.bits as i128 + it.isect.hit.p_error.z.bits as i128;
    assert!((lhs - rhs).abs() <= 8 * err + 8);
}
