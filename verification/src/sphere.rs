//! Spheres centered at the object-space origin.
//!
//! The intersection routine follows the common quadric pattern: carry the
//! ray into object space with positional error bounds, form the quadratic
//! coefficients in error-bounded arithmetic, solve with the stable root
//! formula, test the bracketed roots conservatively against the ray range,
//! reproject the hit onto the exact radius, clip, and retry once with the
//! farther root.  `intersect` and `intersect_p` share one candidate
//! search, so they provably accept and reject the same rays.

use vstd::prelude::*;
use crate::fixed::{
    Fx, SCALE, sat64, ceil_div, fx_add, fx_sub, fx_neg, fx_mul, fx_div, fx_sqrt,
    moderate, mul_i64_wide, sat_to_i64, ceil_div_wide,
};
use crate::efloat::{
    Ef, ef_wf, ef_exact, ef_with_err, ef_add, ef_sub, ef_mul, spec_quadratic,
    quadratic, iclamp, imin, imax,
};
use crate::vecmath::{
    Vector3, Point3, Normal3, Point2, sv3, sp3, sn3, point3, point2, vector3,
    dot3, cross3, normalize3, scale3, v3_add, v3_neg,
};
use crate::transform::{
    Transform, transform_wf, spec_xform_point, spec_xform_vector, spec_xform_normal,
    spec_xform_err, lemma_err_row_zero,
};
use crate::shape::{
    Ray, Bounds3, ShapeData, shape_data, shape_data_wf, bounds3, spec_ray_at,
    transform_ray_with_error,
};
use crate::interaction::{
    Intersection, intersection, surface_interaction, transform_surface_interaction,
    spec_geometric_normal,
};
use crate::transcend::{acos_fx, atan2_fx, to_radians, spec_acos, spec_atan2, spec_to_radians};

verus! {

/// The origin nudge applied to hits on the z axis, about `1e-5` of the
/// radius: a heuristic offset that keeps the azimuthal angle defined.
pub const NUDGE_BITS: i64 = 42950;

/// A sphere of the given radius at the object-space origin, optionally
/// truncated in `z` and in the azimuthal angle.
#[derive(Clone, Copy, Debug)]
pub struct Sphere {
    /// Common shape data.
    pub data: ShapeData,
    /// Radius of the sphere.
    pub radius: Fx,
    /// Minimum z-value of the truncated sphere.
    pub z_min: Fx,
    /// Maximum z-value of the truncated sphere.
    pub z_max: Fx,
    /// Polar angle of the `z_min` cap.
    pub theta_min: Fx,
    /// Polar angle of the `z_max` cap.
    pub theta_max: Fx,
    /// Largest azimuthal angle of the truncated sphere.
    pub phi_max: Fx,
}

/// The sphere invariant established at construction.
pub open spec fn sphere_wf(s: Sphere) -> bool {
    &&& shape_data_wf(s.data)
    &&& s.data.world_to_object is Some
    &&& s.radius.bits > 0
    &&& fx_neg(s.radius.bits as int) <= s.z_min.bits as int
    &&& s.z_min.bits <= s.z_max.bits
    &&& s.z_max.bits <= s.radius.bits
}

/// The derived fields of a sphere, mirrored in specification space.
pub open spec fn spec_sphere(
    object_to_world: Transform,
    world_to_object: Transform,
    reverse_orientation: bool,
    radius: Fx,
    z_min: Fx,
    z_max: Fx,
    phi_max: Fx,
) -> Sphere {
    let zmin = iclamp(
        imin(z_min.bits as int, z_max.bits as int),
        fx_neg(radius.bits as int),
        radius.bits as int,
    );
    let zmax = iclamp(
        imax(z_min.bits as int, z_max.bits as int),
        fx_neg(radius.bits as int),
        radius.bits as int,
    );
    Sphere {
        data: ShapeData {
            object_to_world,
            world_to_object: Option::Some(world_to_object),
            reverse_orientation,
            transform_swaps_handedness: object_to_world.swaps_handedness,
        },
        radius,
        z_min: (Fx { bits: zmin as i64 }),
        z_max: (Fx { bits: zmax as i64 }),
        theta_min: (Fx {
            bits: spec_acos(
                iclamp(fx_div(zmin, radius.bits as int), -(SCALE as int), SCALE as int),
            ) as i64,
        }),
        theta_max: (Fx {
            bits: spec_acos(
                iclamp(fx_div(zmax, radius.bits as int), -(SCALE as int), SCALE as int),
            ) as i64,
        }),
        phi_max: (Fx {
            bits: spec_to_radians(
                iclamp(phi_max.bits as int, 0, 360 * SCALE as int),
            ) as i64,
        }),
    }
}

/// Creates a new sphere at the object-space origin.
///
/// The z-bounds are ordered and clamped into `[-radius, radius]`, the polar
/// angles of the caps are derived once, and the azimuthal limit is clamped
/// into `[0, 360]` degrees and converted to radians.  A positive radius is
/// a construction-time precondition: a scene with a degenerate sphere is
/// rejected before rendering starts.
pub fn sphere(
    object_to_world: Transform,
    world_to_object: Transform,
    reverse_orientation: bool,
    radius: Fx,
    z_min: Fx,
    z_max: Fx,
    phi_max: Fx,
) -> (r: Sphere)
    requires
        transform_wf(object_to_world),
        transform_wf(world_to_object),
        radius.bits > 0,
    ensures
        r == spec_sphere(
            object_to_world, world_to_object, reverse_orientation,
            radius, z_min, z_max, phi_max,
        ),
        sphere_wf(r),
{
    let nr = radius.neg();
    let zmin = z_min.min(z_max).clamp(nr, radius);
    let zmax = z_min.max(z_max).clamp(nr, radius);
    let one = Fx { bits: SCALE };
    let none = Fx { bits: -SCALE };
    let theta_min = acos_fx(zmin.div(radius).clamp(none, one));
    let theta_max = acos_fx(zmax.div(radius).clamp(none, one));
    let pm = to_radians(phi_max.clamp(Fx { bits: 0 }, Fx::from_int(360)));
    let data = shape_data(object_to_world, Some(world_to_object), reverse_orientation);
    Sphere {
        data,
        radius,
        z_min: zmin,
        z_max: zmax,
        theta_min,
        theta_max,
        phi_max: pm,
    }
}

/// The quadratic coefficients of the sphere equation along a ray, in
/// error-bounded arithmetic, as a specification value.
pub open spec fn spec_sphere_coeffs(robj: Ray, oe: Vector3, de: Vector3, radius: Fx) -> (Ef,
    Ef, Ef) {
    let ox = ef_with_err(robj.o.x, oe.x);
    let oy = ef_with_err(robj.o.y, oe.y);
    let oz = ef_with_err(robj.o.z, oe.z);
    let dx = ef_with_err(robj.d.x, de.x);
    let dy = ef_with_err(robj.d.y, de.y);
    let dz = ef_with_err(robj.d.z, de.z);
    let a = ef_add(ef_add(ef_mul(dx, dx), ef_mul(dy, dy)), ef_mul(dz, dz));
    let ib = ef_add(ef_add(ef_mul(dx, ox), ef_mul(dy, oy)), ef_mul(dz, oz));
    let b = ef_add(ib, ib);
    let er = ef_exact(radius);
    let c = ef_sub(
        ef_add(ef_add(ef_mul(ox, ox), ef_mul(oy, oy)), ef_mul(oz, oz)),
        ef_mul(er, er),
    );
    (a, b, c)
}

/// Forms the quadratic coefficients `a t^2 + b t + c` of the sphere
/// equation along the object-space ray.
pub fn sphere_coeffs(robj: &Ray, oe: &Vector3, de: &Vector3, radius: Fx) -> (r: (Ef, Ef, Ef))
    requires
        oe.x.bits >= 0, oe.y.bits >= 0, oe.z.bits >= 0,
        de.x.bits >= 0, de.y.bits >= 0, de.z.bits >= 0,
    ensures
        (r.0, r.1, r.2) == spec_sphere_coeffs(*robj, *oe, *de, radius),
        ef_wf(r.0) && ef_wf(r.1) && ef_wf(r.2),
{
    let ox = Ef::with_err(robj.o.x, oe.x);
    let oy = Ef::with_err(robj.o.y, oe.y);
    let oz = Ef::with_err(robj.o.z, oe.z);
    let dx = Ef::with_err(robj.d.x, de.x);
    let dy = Ef::with_err(robj.d.y, de.y);
    let dz = Ef::with_err(robj.d.z, de.z);
    let a = dx.mul(dx).add(dy.mul(dy)).add(dz.mul(dz));
    let ib = dx.mul(ox).add(dy.mul(oy)).add(dz.mul(oz));
    let b = ib.add(ib);
    let er = Ef::exact(radius);
    let c = ox.mul(ox).add(oy.mul(oy)).add(oz.mul(oz)).sub(er.mul(er));
    (a, b, c)
}

/// The sum of the squared components of a point, each square clamped into
/// a wide safe range: the exact squared distance from the origin whenever
/// the components are moderate.
pub open spec fn spec_sq3_clamped(p: Point3) -> int {
    iclamp(
        p.x.bits as int * p.x.bits as int,
        -0x10_0000_0000_0000_0000_0000_0000_0000,
        0x10_0000_0000_0000_0000_0000_0000_0000,
    ) + iclamp(
        p.y.bits as int * p.y.bits as int,
        -0x10_0000_0000_0000_0000_0000_0000_0000,
        0x10_0000_0000_0000_0000_0000_0000_0000,
    ) + iclamp(
        p.z.bits as int * p.z.bits as int,
        -0x10_0000_0000_0000_0000_0000_0000_0000,
        0x10_0000_0000_0000_0000_0000_0000_0000,
    )
}

/// The reprojected point and its adaptive radial error bound, as a
/// specification value.
pub open spec fn spec_refine(p: Point3, radius: Fx) -> (Point3, Fx) {
    let dist = fx_sqrt(
        fx_add(
            fx_add(
                fx_mul(p.x.bits as int, p.x.bits as int),
                fx_mul(p.y.bits as int, p.y.bits as int),
            ),
            fx_mul(p.z.bits as int, p.z.bits as int),
        ),
    );
    let q = if dist == 0 {
        p
    } else {
        let s = fx_div(radius.bits as int, dist);
        sp3(
            fx_mul(p.x.bits as int, s),
            fx_mul(p.y.bits as int, s),
            fx_mul(p.z.bits as int, s),
        )
    };
    let e = if radius.bits <= 0 {
        0
    } else {
        let d2 = spec_sq3_clamped(q);
        let rr = iclamp(
            radius.bits as int * radius.bits as int,
            -0x10_0000_0000_0000_0000_0000_0000_0000,
            0x10_0000_0000_0000_0000_0000_0000_0000,
        );
        let ad = if d2 >= rr {
            d2 - rr
        } else {
            rr - d2
        };
        sat64(ceil_div(ad, radius.bits as int) + 1)
    };
    (q, (Fx { bits: e as i64 }))
}

/// Reprojects a computed hit point onto the exact sphere radius and
/// derives a conservative radial error bound for it.
///
/// The bound is sound: for a positive radius, the squared distance of the
/// returned point from the origin is at most `(radius + e)^2`; and when
/// the radius is moderate and the bound does not exceed the radius, it is
/// also at least `(radius - e)^2`.  The true distance of the reported hit
/// from the center therefore lies within `radius` plus or minus the
/// reported bound.
pub fn refine_to_radius(p: Point3, radius: Fx) -> (r: (Point3, Fx))
    ensures
        r == spec_refine(p, radius),
        r.1.bits >= 0,
        radius.bits > 0 ==> spec_sq3_clamped(r.0)
            <= (radius.bits as int + r.1.bits as int) * (radius.bits as int + r.1.bits as int),
        radius.bits > 0 && moderate(radius.bits as int) && r.1.bits <= radius.bits
            ==> (radius.bits as int - r.1.bits as int) * (radius.bits as int - r.1.bits as int)
                <= spec_sq3_clamped(r.0),
{
    let dist = p.to_vec().length();
    let q = if dist.bits == 0 {
        p
    } else {
        let s = radius.div(dist);
        Point3 { x: p.x.mul(s), y: p.y.mul(s), z: p.z.mul(s) }
    };
    if radius.bits <= 0 {
        return (q, Fx { bits: 0 });
    }
    let sx = clamp_sq(q.x);
    let sy = clamp_sq(q.y);
    let sz = clamp_sq(q.z);
    let d2: i128 = sx + sy + sz;
    let rrw: i128 = mul_i64_wide(radius.bits, radius.bits);
    let rr: i128 = if rrw > 0x10_0000_0000_0000_0000_0000_0000_0000 {
        0x10_0000_0000_0000_0000_0000_0000_0000
    } else {
        rrw
    };
    let ad: i128 = if d2 >= rr {
        d2 - rr
    } else {
        rr - d2
    };
    let ew: i128 = ceil_div_wide(ad, radius.bits as i128);
    proof {
        let rb = radius.bits as int;
        assert(0 <= sx as int <= 0x10_0000_0000_0000_0000_0000_0000_0000 || (
        -0x10_0000_0000_0000_0000_0000_0000_0000 <= sx as int <= 0));
        assert(rrw as int >= 0) by (nonlinear_arith)
            requires
                rrw as int == radius.bits as int * radius.bits as int,
        ;
        assert(0 <= rr as int <= 0x10_0000_0000_0000_0000_0000_0000_0000);
        assert(0 <= ad as int <= 0x40_0000_0000_0000_0000_0000_0000_0000);
        assert((-(ad as int)) / rb <= 0) by {
            vstd::arithmetic::div_mod::lemma_div_is_ordered(-(ad as int), 0, rb);
            vstd::arithmetic::div_mod::lemma_div_of0(rb);
        }
        assert(ew as int >= 0);
        if ad as int >= 1 {
            crate::efloat::lemma_ceil_div_pos(ad as int, rb);
            vstd::arithmetic::div_mod::lemma_div_is_ordered_by_denominator(
                ad as int - 1, 1, rb,
            );
            assert((ad as int - 1) / 1 == ad as int - 1);
            assert(ew as int <= ad as int);
        } else {
            assert(ad as int == 0);
            assert(ceil_div(0, rb) == 0) by {
                vstd::arithmetic::div_mod::lemma_div_of0(rb);
            }
        }
    }
    let e: i64 = sat_to_i64(ew + 1);
    proof {
        let rb = radius.bits as int;
        let eb = e as int;
        crate::efloat::lemma_floor_le_ceil(ad as int, rb);
        assert(ad as int <= rb * ceil_div(ad as int, rb));
        assert(rr as int <= rb * rb);
        if eb == ew as int + 1 {
            assert(rb * eb >= ad as int + rb) by (nonlinear_arith)
                requires
                    rb >= 1,
                    eb == ew as int + 1,
                    ad as int <= rb * (ew as int),
            ;
            assert((rb + eb) * (rb + eb) >= rb * rb + rb * eb) by (nonlinear_arith)
                requires
                    rb >= 0,
                    eb >= 0,
            ;
        } else {
            assert(eb == i64::MAX as int);
            assert((rb + eb) * (rb + eb) >= eb * eb) by (nonlinear_arith)
                requires
                    rb >= 1,
                    eb >= 0,
            ;
            assert(eb * eb > 0x50_0000_0000_0000_0000_0000_0000_0000) by (nonlinear_arith)
                requires
                    eb == i64::MAX as int,
            ;
            assert(d2 as int <= 0x30_0000_0000_0000_0000_0000_0000_0000);
        }
        if moderate(rb) && eb <= rb {
            assert(eb == ew as int + 1);
            assert(rb * eb >= ad as int + rb) by (nonlinear_arith)
                requires
                    rb >= 1,
                    eb == ew as int + 1,
                    ad as int <= rb * (ew as int),
            ;
            assert(rr as int == rb * rb) by (nonlinear_arith)
                requires
                    moderate(rb),
                    rr as int == if rb * rb > 0x10_0000_0000_0000_0000_0000_0000_0000 {
                        0x10_0000_0000_0000_0000_0000_0000_0000int
                    } else {
                        rb * rb
                    },
            ;
            assert((rb - eb) * (rb - eb) <= rb * rb - rb * eb) by (nonlinear_arith)
                requires
                    0 <= eb <= rb,
            ;
        }
    }
    (q, Fx { bits: e })
}

/// One squared component, clamped into the wide safe range.
fn clamp_sq(x: Fx) -> (r: i128)
    ensures
        r as int == iclamp(
            x.bits as int * x.bits as int,
            -0x10_0000_0000_0000_0000_0000_0000_0000,
            0x10_0000_0000_0000_0000_0000_0000_0000,
        ),
{
    let w: i128 = mul_i64_wide(x.bits, x.bits);
    if w > 0x10_0000_0000_0000_0000_0000_0000_0000 {
        0x10_0000_0000_0000_0000_0000_0000_0000
    } else if w < -0x10_0000_0000_0000_0000_0000_0000_0000 {
        -0x10_0000_0000_0000_0000_0000_0000_0000
    } else {
        w
    }
}

/// The candidate hit point of the sphere at ray parameter `t`: the ray
/// evaluated, reprojected onto the radius, nudged off the z axis if
/// needed, with its azimuthal angle; as a specification value the tuple is
/// `(point, radial error bound, phi)`.
pub open spec fn spec_sphere_hit_point(radius: Fx, robj: Ray, tv: int) -> (Point3, Fx, Fx) {
    let p0 = spec_ray_at(robj, tv);
    let (p1, eps) = spec_refine(p0, radius);
    let nraw = fx_mul(radius.bits as int, NUDGE_BITS as int);
    let nb = if nraw < 1 {
        1
    } else {
        nraw
    };
    if p1.x.bits == 0 && p1.y.bits == 0 {
        let p = sp3(nb, p1.y.bits as int, p1.z.bits as int);
        let e2 = fx_add(eps.bits as int, nb);
        let phi = spec_atan2(p.y.bits as int, p.x.bits as int);
        (p, (Fx { bits: e2 as i64 }), (Fx { bits: phi as i64 }))
    } else {
        let phi = spec_atan2(p1.y.bits as int, p1.x.bits as int);
        (p1, eps, (Fx { bits: phi as i64 }))
    }
}

/// Evaluates, reprojects and nudges the hit point at parameter `t`, and
/// computes its azimuthal angle in `[0, 2 pi]`.  The nudge widens the
/// radial error bound by its own size, so the returned bound still
/// brackets the distance of the returned point from the center:
/// its squared distance stays within `(radius +- bound)^2`.
pub fn sphere_hit_point(radius: Fx, robj: &Ray, tv: Fx) -> (r: (Point3, Fx, Fx))
    ensures
        r == spec_sphere_hit_point(radius, *robj, tv.bits as int),
        r.1.bits >= 0,
        radius.bits > 0 ==> spec_sq3_clamped(r.0) <= (radius.bits as int + r.1.bits as int)
            * (radius.bits as int + r.1.bits as int),
        radius.bits > 0 && moderate(radius.bits as int) && r.1.bits <= radius.bits
            ==> (radius.bits as int - r.1.bits as int) * (radius.bits as int - r.1.bits as int)
                <= spec_sq3_clamped(r.0),
{
    let p0 = robj.at(tv);
    let (p1, eps) = refine_to_radius(p0, radius);
    if p1.x.bits == 0 && p1.y.bits == 0 {
        let nraw = radius.mul(Fx { bits: NUDGE_BITS });
        let nb: i64 = if nraw.bits < 1 {
            1
        } else {
            nraw.bits
        };
        let p = Point3 { x: Fx { bits: nb }, y: p1.y, z: p1.z };
        let e2 = eps.add(Fx { bits: nb });
        let phi = atan2_fx(p.y, p.x);
        proof {
            let rb = radius.bits as int;
            let eb = eps.bits as int;
            let e2b = e2.bits as int;
            let nbi = nb as int;
            assert(0 * 0 == 0) by (nonlinear_arith);
            assert(0 <= nbi * nbi) by (nonlinear_arith)
                requires
                    nbi >= 1,
            ;
            assert(iclamp(
                nbi * nbi,
                -0x10_0000_0000_0000_0000_0000_0000_0000,
                0x10_0000_0000_0000_0000_0000_0000_0000,
            ) <= nbi * nbi);
            if rb > 0 {
                if e2b == eb + nbi {
                    assert((rb + eb) * (rb + eb) + nbi * nbi <= (rb + e2b) * (rb + e2b))
                        by (nonlinear_arith)
                        requires
                            rb >= 1,
                            eb >= 0,
                            nbi >= 1,
                            e2b == eb + nbi,
                    ;
                } else {
                    assert(e2b == i64::MAX as int);
                    assert((rb + e2b) * (rb + e2b) >= e2b * e2b) by (nonlinear_arith)
                        requires
                            rb >= 1,
                            e2b >= 0,
                    ;
                    assert(e2b * e2b > 0x50_0000_0000_0000_0000_0000_0000_0000)
                        by (nonlinear_arith)
                        requires
                            e2b == i64::MAX as int,
                    ;
                }
                if moderate(rb) && e2b <= rb {
                    assert(e2b == eb + nbi);
                    assert((rb - e2b) * (rb - e2b) <= (rb - eb) * (rb - eb))
                        by (nonlinear_arith)
                        requires
                            0 <= rb - e2b,
                            rb - e2b <= rb - eb,
                    ;
                }
            }
        }
        (p, e2, phi)
    } else {
        let phi = atan2_fx(p1.y, p1.x);
        (p1, eps, phi)
    }
}

/// Whether a candidate hit violates the sphere's clipping parameters.
pub open spec fn spec_sphere_clipped(s: Sphere, p: Point3, phi: Fx) -> bool {
    ||| (s.z_min.bits as int > fx_neg(s.radius.bits as int) && p.z.bits < s.z_min.bits)
    ||| (s.z_max.bits < s.radius.bits && p.z.bits > s.z_max.bits)
    ||| phi.bits > s.phi_max.bits
}

impl Sphere {
    /// Tests a candidate hit against the clipping parameters.
    pub fn clipped(&self, p: Point3, phi: Fx) -> (r: bool)
        ensures
            r == spec_sphere_clipped(*self, p, phi),
    {
        let nr = self.radius.neg();
        (self.z_min.bits > nr.bits && p.z.bits < self.z_min.bits)
            || (self.z_max.bits < self.radius.bits && p.z.bits > self.z_max.bits)
            || phi.bits > self.phi_max.bits
    }

    /// Returns the underlying shape data.
    pub fn get_data(&self) -> (r: ShapeData)
        ensures
            r == self.data,
    {
        self.data
    }

    /// Returns a bounding box in the shape's object space.
    pub fn object_bound(&self) -> (r: Bounds3)
        requires
            sphere_wf(*self),
        ensures
            r.p_min.x.bits as int == fx_neg(self.radius.bits as int),
            r.p_min.y.bits as int == fx_neg(self.radius.bits as int),
            r.p_min.z.bits == self.z_min.bits,
            r.p_max.x.bits == self.radius.bits,
            r.p_max.y.bits == self.radius.bits,
            r.p_max.z.bits == self.z_max.bits,
    {
        let nr = self.radius.neg();
        bounds3(
            point3(nr, nr, self.z_min),
            point3(self.radius, self.radius, self.z_max),
        )
    }

    /// Returns the surface area of the truncated sphere in object space:
    /// `phi_max * radius * (z_max - z_min)`, exact in fixed-point
    /// arithmetic up to the directed rounding of the two products.
    pub fn area(&self) -> (r: Fx)
        ensures
            r.bits as int == fx_mul(
                fx_mul(self.phi_max.bits as int, self.radius.bits as int),
                fx_sub(self.z_max.bits as int, self.z_min.bits as int),
            ),
    {
        self.phi_max.mul(self.radius).mul(self.z_max.sub(self.z_min))
    }
}

/// The shared candidate search of `intersect` and `intersect_p`: the
/// accepted root with its bracket, the reprojected and nudged hit point,
/// the radial error bound and the azimuthal angle; or nothing.
pub open spec fn spec_sphere_find_hit(s: Sphere, r: Ray) -> Option<(Ef, Point3, Fx, Fx)> {
    match s.data.world_to_object {
        Option::None => Option::None,
        Option::Some(w2o) => {
            let robj = Ray {
                o: spec_xform_point(w2o.m, r.o),
                d: spec_xform_vector(w2o.m, r.d),
                t_max: r.t_max,
                time: r.time,
                medium: r.medium,
            };
            let oe = spec_xform_err(w2o.m, sv3(0, 0, 0));
            let (a, b, c) = spec_sphere_coeffs(robj, oe, oe, s.radius);
            match spec_quadratic(a, b, c) {
                Option::None => Option::None,
                Option::Some(roots) => {
                    let t0 = roots.0;
                    let t1 = roots.1;
                    if t0.hi.bits > robj.t_max.bits || t1.lo.bits <= 0 {
                        Option::None
                    } else {
                        let near = if t0.lo.bits <= 0 {
                            t1
                        } else {
                            t0
                        };
                        if t0.lo.bits <= 0 && t1.hi.bits > robj.t_max.bits {
                            Option::None
                        } else {
                            let (p, eps, phi) = spec_sphere_hit_point(
                                s.radius, robj, near.v.bits as int,
                            );
                            if spec_sphere_clipped(s, p, phi) {
                                if near.v.bits == t1.v.bits {
                                    Option::None
                                } else if t1.hi.bits > robj.t_max.bits {
                                    Option::None
                                } else {
                                    let (p2, eps2, phi2) = spec_sphere_hit_point(
                                        s.radius, robj, t1.v.bits as int,
                                    );
                                    if spec_sphere_clipped(s, p2, phi2) {
                                        Option::None
                                    } else {
                                        Option::Some((t1, p2, eps2, phi2))
                                    }
                                }
                            } else {
                                Option::Some((near, p, eps, phi))
                            }
                        }
                    }
                },
            }
        },
    }
}

impl Sphere {
    /// The candidate search shared by `intersect` and `intersect_p`:
    /// solves the quadratic, applies the conservative range tests on the
    /// bracketed roots, computes and clips the hit point, and retries the
    /// farther root exactly once.
    #[verifier::rlimit(100)]
    pub fn find_hit(&self, r: &Ray) -> (res: Option<(Ef, Point3, Fx, Fx)>)
        requires
            sphere_wf(*self),
        ensures
            res == spec_sphere_find_hit(*self, *r),
            match res {
                Option::Some(h) => {
                    &&& ef_wf(h.0)
                    &&& 0 < h.0.lo.bits
                    &&& h.0.hi.bits <= r.t_max.bits
                    &&& spec_sq3_clamped(h.1) <= (self.radius.bits as int + h.2.bits as int)
                        * (self.radius.bits as int + h.2.bits as int)
                    &&& (moderate(self.radius.bits as int) && h.2.bits <= self.radius.bits)
                        ==> (self.radius.bits as int - h.2.bits as int)
                            * (self.radius.bits as int - h.2.bits as int)
                            <= spec_sq3_clamped(h.1)
                },
                Option::None => true,
            },
    {
        let w2o = match self.data.world_to_object {
            Option::Some(t) => t,
            Option::None => {
                proof {
                    assert(false);
                }
                Transform::identity()
            },
        };
        let (robj, o_err, d_err) = transform_ray_with_error(&w2o, r);
        proof {
            lemma_err_row_zero(
                w2o.m.m00.bits as int, w2o.m.m01.bits as int, w2o.m.m02.bits as int,
            );
            lemma_err_row_zero(
                w2o.m.m10.bits as int, w2o.m.m11.bits as int, w2o.m.m12.bits as int,
            );
            lemma_err_row_zero(
                w2o.m.m20.bits as int, w2o.m.m21.bits as int, w2o.m.m22.bits as int,
            );
        }
        let (a, b, c) = sphere_coeffs(&robj, &o_err, &o_err, self.radius);
        match quadratic(a, b, c) {
            Option::None => Option::None,
            Option::Some((t0, t1)) => {
                if t0.hi.bits > robj.t_max.bits || t1.lo.bits <= 0 {
                    return Option::None;
                }
                let near = if t0.lo.bits <= 0 {
                    t1
                } else {
                    t0
                };
                if t0.lo.bits <= 0 && t1.hi.bits > robj.t_max.bits {
                    return Option::None;
                }
                let (p, eps, phi) = sphere_hit_point(self.radius, &robj, near.v);
                if self.clipped(p, phi) {
                    if near.v.bits == t1.v.bits {
                        return Option::None;
                    }
                    if t1.hi.bits > robj.t_max.bits {
                        return Option::None;
                    }
                    let (p2, eps2, phi2) = sphere_hit_point(self.radius, &robj, t1.v);
                    if self.clipped(p2, phi2) {
                        Option::None
                    } else {
                        Option::Some((t1, p2, eps2, phi2))
                    }
                } else {
                    Option::Some((near, p, eps, phi))
                }
            },
        }
    }
}

/// The parametric coordinates of a sphere hit: the azimuthal fraction and
/// the polar fraction between the two cap angles.  Degenerate angular
/// ranges map to zero, a defensive guard against division by zero.
pub open spec fn spec_sphere_uv(s: Sphere, p: Point3, phi: Fx) -> Point2 {
    let u = if s.phi_max.bits == 0 {
        0
    } else {
        fx_div(phi.bits as int, s.phi_max.bits as int)
    };
    let theta = spec_acos(
        iclamp(
            fx_div(p.z.bits as int, s.radius.bits as int),
            -(SCALE as int),
            SCALE as int,
        ),
    );
    let den = fx_sub(s.theta_max.bits as int, s.theta_min.bits as int);
    let v = if den == 0 {
        0
    } else {
        fx_div(fx_sub(theta, s.theta_min.bits as int), den)
    };
    Point2 {
        x: (Fx { bits: iclamp(u, 0, SCALE as int) as i64 }),
        y: (Fx { bits: iclamp(v, 0, SCALE as int) as i64 }),
    }
}

/// The partial derivatives of position and of the normal at a sphere hit:
/// the parametric derivatives of the sphere's surface, the analytic
/// normal, and the normal derivatives from the two fundamental forms.  A
/// degenerate fundamental-form determinant yields zero normal derivatives,
/// the defensive guard against a division by zero.
pub open spec fn spec_sphere_geom(s: Sphere, p: Point3) -> (Vector3, Vector3, Normal3,
    Normal3) {
    let px = p.x.bits as int;
    let py = p.y.bits as int;
    let pz = p.z.bits as int;
    let phimax = s.phi_max.bits as int;
    let z_radius = fx_sqrt(fx_add(fx_mul(px, px), fx_mul(py, py)));
    let cos_phi = if z_radius == 0 {
        SCALE as int
    } else {
        fx_div(px, z_radius)
    };
    let sin_phi = if z_radius == 0 {
        0
    } else {
        fx_div(py, z_radius)
    };
    let dpdu = sv3(fx_mul(fx_neg(phimax), py), fx_mul(phimax, px), 0);
    let zr = iclamp(fx_div(pz, s.radius.bits as int), -(SCALE as int), SCALE as int);
    let sin_theta = fx_sqrt(fx_sub(SCALE as int, fx_mul(zr, zr)));
    let dtheta = fx_sub(s.theta_max.bits as int, s.theta_min.bits as int);
    let dpdv = scale3(
        fx_mul(pz, cos_phi),
        fx_mul(pz, sin_phi),
        fx_mul(fx_neg(s.radius.bits as int), sin_theta),
        dtheta,
    );
    let d2p_duu = scale3(px, py, 0, fx_mul(fx_neg(phimax), phimax));
    let d2p_duv = scale3(fx_neg(sin_phi), cos_phi, 0, fx_mul(fx_mul(dtheta, pz), phimax));
    let d2p_dvv = scale3(px, py, pz, fx_mul(fx_neg(dtheta), dtheta));
    let c = cross3(
        dpdu.x.bits as int, dpdu.y.bits as int, dpdu.z.bits as int,
        dpdv.x.bits as int, dpdv.y.bits as int, dpdv.z.bits as int,
    );
    let nv = normalize3(c.x.bits as int, c.y.bits as int, c.z.bits as int);
    let e1 = dot3(
        dpdu.x.bits as int, dpdu.y.bits as int, dpdu.z.bits as int,
        dpdu.x.bits as int, dpdu.y.bits as int, dpdu.z.bits as int,
    );
    let f1 = dot3(
        dpdu.x.bits as int, dpdu.y.bits as int, dpdu.z.bits as int,
        dpdv.x.bits as int, dpdv.y.bits as int, dpdv.z.bits as int,
    );
    let g1 = dot3(
        dpdv.x.bits as int, dpdv.y.bits as int, dpdv.z.bits as int,
        dpdv.x.bits as int, dpdv.y.bits as int, dpdv.z.bits as int,
    );
    let e2 = dot3(
        nv.x.bits as int, nv.y.bits as int, nv.z.bits as int,
        d2p_duu.x.bits as int, d2p_duu.y.bits as int, d2p_duu.z.bits as int,
    );
    let f2 = dot3(
        nv.x.bits as int, nv.y.bits as int, nv.z.bits as int,
        d2p_duv.x.bits as int, d2p_duv.y.bits as int, d2p_duv.z.bits as int,
    );
    let g2 = dot3(
        nv.x.bits as int, nv.y.bits as int, nv.z.bits as int,
        d2p_dvv.x.bits as int, d2p_dvv.y.bits as int, d2p_dvv.z.bits as int,
    );
    let egf = fx_sub(fx_mul(e1, g1), fx_mul(f1, f1));
    if egf == 0 {
        (dpdu, dpdv, sn3(0, 0, 0), sn3(0, 0, 0))
    } else {
        let inv = fx_div(SCALE as int, egf);
        let du = v3_add(
            scale3(
                dpdu.x.bits as int, dpdu.y.bits as int, dpdu.z.bits as int,
                fx_mul(fx_sub(fx_mul(f2, f1), fx_mul(e2, g1)), inv),
            ),
            scale3(
                dpdv.x.bits as int, dpdv.y.bits as int, dpdv.z.bits as int,
                fx_mul(fx_sub(fx_mul(e2, f1), fx_mul(f2, e1)), inv),
            ),
        );
        let dv = v3_add(
            scale3(
                dpdu.x.bits as int, dpdu.y.bits as int, dpdu.z.bits as int,
                fx_mul(fx_sub(fx_mul(g2, f1), fx_mul(f2, g1)), inv),
            ),
            scale3(
                dpdv.x.bits as int, dpdv.y.bits as int, dpdv.z.bits as int,
                fx_mul(fx_sub(fx_mul(f2, f1), fx_mul(g2, e1)), inv),
            ),
        );
        (
            dpdu,
            dpdv,
            sn3(du.x.bits as int, du.y.bits as int, du.z.bits as int),
            sn3(dv.x.bits as int, dv.y.bits as int, dv.z.bits as int),
        )
    }
}

/// Computes the partial derivatives of position and of the normal at a
/// sphere hit point.
fn sphere_local_geom(s: &Sphere, p_hit: Point3) -> (g: (Vector3, Vector3, Normal3, Normal3))
    requires
        sphere_wf(*s),
    ensures
        g == spec_sphere_geom(*s, p_hit),
{
    let one = Fx { bits: SCALE };
    let none = Fx { bits: -SCALE };
    let z_radius = p_hit.x.mul(p_hit.x).add(p_hit.y.mul(p_hit.y)).sqrt();
    let (cos_phi, sin_phi) = if z_radius.bits == 0 {
        (one, Fx { bits: 0 })
    } else {
        (p_hit.x.div(z_radius), p_hit.y.div(z_radius))
    };
    let dpdu = vector3(
        s.phi_max.neg().mul(p_hit.y),
        s.phi_max.mul(p_hit.x),
        Fx { bits: 0 },
    );
    let zr = p_hit.z.div(s.radius).clamp(none, one);
    let sin_theta = one.sub(zr.mul(zr)).sqrt();
    let dtheta = s.theta_max.sub(s.theta_min);
    let dpdv = vector3(
        p_hit.z.mul(cos_phi),
        p_hit.z.mul(sin_phi),
        s.radius.neg().mul(sin_theta),
    ).scale(dtheta);
    let d2p_duu = vector3(p_hit.x, p_hit.y, Fx { bits: 0 }).scale(
        s.phi_max.neg().mul(s.phi_max),
    );
    let d2p_duv = vector3(sin_phi.neg(), cos_phi, Fx { bits: 0 }).scale(
        dtheta.mul(p_hit.z).mul(s.phi_max),
    );
    let d2p_dvv = vector3(p_hit.x, p_hit.y, p_hit.z).scale(dtheta.neg().mul(dtheta));
    let nvec = dpdu.cross(dpdv).normalize_or_zero();
    let e1 = dpdu.dot(dpdu);
    let f1 = dpdu.dot(dpdv);
    let g1 = dpdv.dot(dpdv);
    let e2 = nvec.dot(d2p_duu);
    let f2 = nvec.dot(d2p_duv);
    let g2 = nvec.dot(d2p_dvv);
    let egf = e1.mul(g1).sub(f1.mul(f1));
    if egf.bits == 0 {
        (
            dpdu,
            dpdv,
            Normal3 { x: Fx { bits: 0 }, y: Fx { bits: 0 }, z: Fx { bits: 0 } },
            Normal3 { x: Fx { bits: 0 }, y: Fx { bits: 0 }, z: Fx { bits: 0 } },
        )
    } else {
        let inv = one.div(egf);
        let du = dpdu.scale(f2.mul(f1).sub(e2.mul(g1)).mul(inv)).add(
            dpdv.scale(e2.mul(f1).sub(f2.mul(e1)).mul(inv)),
        );
        let dv = dpdu.scale(g2.mul(f1).sub(f2.mul(g1)).mul(inv)).add(
            dpdv.scale(f2.mul(f1).sub(g2.mul(e1)).mul(inv)),
        );
        (dpdu, dpdv, Normal3::from_vec(du), Normal3::from_vec(dv))
    }
}

impl Sphere {
    /// Returns geometric details if the ray intersects the sphere, or
    /// nothing.  The decision, the hit distance, the world-space hit point
    /// with its error bound, the parametric coordinates in the unit
    /// square, the position and normal derivatives, the geometric normal
    /// (the flip-corrected normalized cross product of the derivatives,
    /// carried by the inverse transpose), and the outgoing direction are
    /// all pinned to the shared candidate search, so a hit is reported
    /// exactly when `intersect_p` reports one, at a parameter in
    /// `(0, t_max]`, with the hit's squared object-space distance from the
    /// center bracketed by the radius plus or minus the reported bound.
    ///
    /// The alpha-texture argument of the shape interface is accepted and
    /// ignored: alpha masking is outside this core.
    #[verifier::rlimit(100)]
    pub fn intersect(&self, r: &Ray, _test_alpha_texture: bool) -> (res: Option<Intersection>)
        requires
            sphere_wf(*self),
        ensures
            (res is Some) == (spec_sphere_find_hit(*self, *r) is Some),
            match res {
                Option::Some(it) => {
                    let h = spec_sphere_find_hit(*self, *r)->Some_0;
                    let g = spec_sphere_geom(*self, h.1);
                    &&& it.t == h.0.v
                    &&& 0 < h.0.lo.bits
                    &&& h.0.hi.bits <= r.t_max.bits
                    &&& it.isect.hit.p == spec_xform_point(
                        self.data.object_to_world.m, h.1,
                    )
                    &&& it.isect.hit.p_error == spec_xform_err(
                        self.data.object_to_world.m,
                        sv3(h.2.bits as int, h.2.bits as int, h.2.bits as int),
                    )
                    &&& spec_sq3_clamped(h.1) <= (self.radius.bits as int + h.2.bits as int)
                        * (self.radius.bits as int + h.2.bits as int)
                    &&& (moderate(self.radius.bits as int) && h.2.bits <= self.radius.bits)
                        ==> (self.radius.bits as int - h.2.bits as int)
                            * (self.radius.bits as int - h.2.bits as int)
                            <= spec_sq3_clamped(h.1)
                    &&& it.isect.uv == spec_sphere_uv(*self, h.1, h.3)
                    &&& 0 <= it.isect.uv.x.bits <= SCALE
                    &&& 0 <= it.isect.uv.y.bits <= SCALE
                    &&& it.isect.dpdu == spec_xform_vector(self.data.object_to_world.m, g.0)
                    &&& it.isect.dpdv == spec_xform_vector(self.data.object_to_world.m, g.1)
                    &&& it.isect.dndu == spec_xform_normal(
                        self.data.object_to_world.m_inv, g.2,
                    )
                    &&& it.isect.dndv == spec_xform_normal(
                        self.data.object_to_world.m_inv, g.3,
                    )
                    &&& it.isect.hit.n == spec_xform_normal(
                        self.data.object_to_world.m_inv,
                        spec_geometric_normal(g.0, g.1, Option::Some(self.data)),
                    )
                    &&& it.isect.hit.wo == spec_xform_vector(
                        self.data.object_to_world.m,
                        v3_neg(spec_xform_vector(
                            self.data.world_to_object->Some_0.m, r.d,
                        )),
                    )
                    &&& it.isect.shading.n == it.isect.hit.n
                    &&& it.isect.hit.time == r.time
                },
                Option::None => true,
            },
    {
        match self.find_hit(r) {
            Option::None => Option::None,
            Option::Some((t_shape_hit, p_hit, eps, phi)) => {
                let w2o = match self.data.world_to_object {
                    Option::Some(t) => t,
                    Option::None => {
                        proof {
                            assert(false);
                        }
                        Transform::identity()
                    },
                };
                let (robj, _, _) = transform_ray_with_error(&w2o, r);

                // Parametric representation of the hit.
                let zero = Fx { bits: 0 };
                let one = Fx { bits: SCALE };
                let none = Fx { bits: -SCALE };
                let u = if self.phi_max.bits == 0 {
                    zero
                } else {
                    phi.div(self.phi_max)
                }.clamp(zero, one);
                let theta = acos_fx(p_hit.z.div(self.radius).clamp(none, one));
                let den = self.theta_max.sub(self.theta_min);
                let v = if den.bits == 0 {
                    zero
                } else {
                    theta.sub(self.theta_min).div(den)
                }.clamp(zero, one);

                // Differential geometry of the hit.
                let (dpdu, dpdv, dndu, dndv) = sphere_local_geom(self, p_hit);

                let p_error = vector3(eps, eps, eps);
                let si = surface_interaction(
                    p_hit,
                    p_error,
                    point2(u, v),
                    robj.d.neg(),
                    dpdu,
                    dpdv,
                    dndu,
                    dndv,
                    robj.time,
                    Some(self.data),
                );
                let isect = transform_surface_interaction(&self.data.object_to_world, &si);
                Option::Some(intersection(t_shape_hit.v, isect))
            },
        }
    }

    /// Returns whether the ray intersects the sphere, by the same
    /// candidate search as `intersect`: the two functions provably accept
    /// and reject exactly the same rays.
    pub fn intersect_p(&self, r: &Ray, _test_alpha_texture: bool) -> (res: bool)
        requires
            sphere_wf(*self),
        ensures
            res == (spec_sphere_find_hit(*self, *r) is Some),
    {
        match self.find_hit(r) {
            Option::Some(_) => true,
            Option::None => false,
        }
    }
}

} // verus!
