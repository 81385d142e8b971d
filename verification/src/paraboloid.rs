//! Paraboloids centered on the z axis with base at the object-space origin.
//!
//! The intersection follows the same quadric pattern as the sphere; the
//! positional error bound of a hit is derived differently, by carrying the
//! ray evaluation itself through error-bounded arithmetic, since the
//! sphere's exact-radius reprojection has no analogue here.

use vstd::prelude::*;
use crate::fixed::{Fx, SCALE, fx_add, fx_sub, fx_neg, fx_mul, fx_div};
use crate::efloat::{
    Ef, ef_wf, ef_exact, ef_with_err, ef_add, ef_sub, ef_mul, ef_div, spec_quadratic,
    quadratic, iclamp, imin, imax,
};
use crate::vecmath::{
    Vector3, Point3, Normal3, Point2, sv3, sn3, point3, point2, vector3,
    dot3, cross3, normalize3, scale3, v3_add, v3_neg,
};
use crate::transform::{
    Transform, transform_wf, spec_xform_point, spec_xform_vector, spec_xform_normal,
    spec_xform_err, lemma_err_row_zero,
};
use crate::shape::{
    Ray, Bounds3, ShapeData, shape_data, shape_data_wf, bounds3, spec_ray_at,
    transform_ray_with_error,
};
use crate::interaction::{
    Intersection, intersection, surface_interaction, transform_surface_interaction,
    spec_geometric_normal,
};
use crate::transcend::{atan2_fx, to_radians, spec_atan2, spec_to_radians};

verus! {

/// A paraboloid `z = z_max (x^2 + y^2) / radius^2`, truncated in `z` and
/// in the azimuthal angle.
#[derive(Clone, Copy, Debug)]
pub struct Paraboloid {
    /// Common shape data.
    pub data: ShapeData,
    /// Radius at `z = z_max`.
    pub radius: Fx,
    /// Minimum z-value of the truncated paraboloid.
    pub z_min: Fx,
    /// Maximum z-value of the truncated paraboloid.
    pub z_max: Fx,
    /// Largest azimuthal angle of the truncated paraboloid.
    pub phi_max: Fx,
}

/// The paraboloid invariant established at construction.
pub open spec fn paraboloid_wf(s: Paraboloid) -> bool {
    &&& shape_data_wf(s.data)
    &&& s.data.world_to_object is Some
    &&& s.radius.bits > 0
    &&& fx_neg(s.radius.bits as int) <= s.z_min.bits as int
    &&& s.z_min.bits <= s.z_max.bits
    &&& s.z_max.bits <= s.radius.bits
}

/// The derived fields of a paraboloid, mirrored in specification space.
pub open spec fn spec_paraboloid(
    object_to_world: Transform,
    world_to_object: Transform,
    reverse_orientation: bool,
    radius: Fx,
    z_min: Fx,
    z_max: Fx,
    phi_max: Fx,
) -> Paraboloid {
    let zmin = iclamp(
        imin(z_min.bits as int, z_max.bits as int),
        fx_neg(radius.bits as int),
        radius.bits as int,
    );
    let zmax = iclamp(
        imax(z_min.bits as int, z_max.bits as int),
        fx_neg(radius.bits as int),
        radius.bits as int,
    );
    Paraboloid {
        data: ShapeData {
            object_to_world,
            world_to_object: Option::Some(world_to_object),
            reverse_orientation,
            transform_swaps_handedness: object_to_world.swaps_handedness,
        },
        radius,
        z_min: (Fx { bits: zmin as i64 }),
        z_max: (Fx { bits: zmax as i64 }),
        phi_max: (Fx {
            bits: spec_to_radians(
                iclamp(phi_max.bits as int, 0, 360 * SCALE as int),
            ) as i64,
        }),
    }
}

/// Creates a new paraboloid centered on the z axis with base at the
/// object-space origin.  The z-bounds are ordered and clamped into
/// `[-radius, radius]` and the azimuthal limit is clamped into `[0, 360]`
/// degrees and converted to radians.
pub fn paraboloid(
    object_to_world: Transform,
    world_to_object: Transform,
    reverse_orientation: bool,
    radius: Fx,
    z_min: Fx,
    z_max: Fx,
    phi_max: Fx,
) -> (r: Paraboloid)
    requires
        transform_wf(object_to_world),
        transform_wf(world_to_object),
        radius.bits > 0,
    ensures
        r == spec_paraboloid(
            object_to_world, world_to_object, reverse_orientation,
            radius, z_min, z_max, phi_max,
        ),
        paraboloid_wf(r),
{
    let nr = radius.neg();
    let zmin = z_min.min(z_max).clamp(nr, radius);
    let zmax = z_min.max(z_max).clamp(nr, radius);
    let pm = to_radians(phi_max.clamp(Fx { bits: 0 }, Fx::from_int(360)));
    let data = shape_data(object_to_world, Some(world_to_object), reverse_orientation);
    Paraboloid { data, radius, z_min: zmin, z_max: zmax, phi_max: pm }
}

/// The quadratic coefficients of the paraboloid equation along a ray, in
/// error-bounded arithmetic, as a specification value.
pub open spec fn spec_parab_coeffs(robj: Ray, oe: Vector3, de: Vector3, radius: Fx, z_max: Fx)
    -> (Ef, Ef, Ef) {
    let ox = ef_with_err(robj.o.x, oe.x);
    let oy = ef_with_err(robj.o.y, oe.y);
    let oz = ef_with_err(robj.o.z, oe.z);
    let dx = ef_with_err(robj.d.x, de.x);
    let dy = ef_with_err(robj.d.y, de.y);
    let dz = ef_with_err(robj.d.z, de.z);
    let k = ef_div(ef_exact(z_max), ef_mul(ef_exact(radius), ef_exact(radius)));
    let a = ef_mul(k, ef_add(ef_mul(dx, dx), ef_mul(dy, dy)));
    let kk = ef_add(k, k);
    let b = ef_sub(ef_mul(kk, ef_add(ef_mul(dx, ox), ef_mul(dy, oy))), dz);
    let c = ef_sub(ef_mul(k, ef_add(ef_mul(ox, ox), ef_mul(oy, oy))), oz);
    (a, b, c)
}

/// Forms the quadratic coefficients `a t^2 + b t + c` of the paraboloid
/// equation along the object-space ray.
pub fn parab_coeffs(robj: &Ray, oe: &Vector3, de: &Vector3, radius: Fx, z_max: Fx) -> (r: (Ef,
    Ef, Ef))
    requires
        oe.x.bits >= 0, oe.y.bits >= 0, oe.z.bits >= 0,
        de.x.bits >= 0, de.y.bits >= 0, de.z.bits >= 0,
    ensures
        (r.0, r.1, r.2) == spec_parab_coeffs(*robj, *oe, *de, radius, z_max),
        ef_wf(r.0) && ef_wf(r.1) && ef_wf(r.2),
{
    let ox = Ef::with_err(robj.o.x, oe.x);
    let oy = Ef::with_err(robj.o.y, oe.y);
    let oz = Ef::with_err(robj.o.z, oe.z);
    let dx = Ef::with_err(robj.d.x, de.x);
    let dy = Ef::with_err(robj.d.y, de.y);
    let dz = Ef::with_err(robj.d.z, de.z);
    let k = Ef::exact(z_max).div(Ef::exact(radius).mul(Ef::exact(radius)));
    let a = k.mul(dx.mul(dx).add(dy.mul(dy)));
    let kk = k.add(k);
    let b = kk.mul(dx.mul(ox).add(dy.mul(oy))).sub(dz);
    let c = k.mul(ox.mul(ox).add(oy.mul(oy))).sub(oz);
    (a, b, c)
}

/// Whether a candidate hit violates the paraboloid's clipping parameters.
pub open spec fn spec_parab_clipped(s: Paraboloid, p: Point3, phi: Fx) -> bool {
    ||| p.z.bits < s.z_min.bits
    ||| p.z.bits > s.z_max.bits
    ||| phi.bits > s.phi_max.bits
}

/// The candidate hit point of the paraboloid at ray parameter `t`, with
/// its azimuthal angle.
pub open spec fn spec_parab_hit_point(robj: Ray, tv: int) -> (Point3, Fx) {
    let p = spec_ray_at(robj, tv);
    let phi = spec_atan2(p.y.bits as int, p.x.bits as int);
    (p, (Fx { bits: phi as i64 }))
}

/// The propagated positional error of the hit: the ray evaluation carried
/// through error-bounded scalars, one absolute error per component.
pub open spec fn spec_parab_perr(robj: Ray, oe: Vector3, de: Vector3, t: Ef) -> Vector3 {
    let px = ef_add(ef_with_err(robj.o.x, oe.x), ef_mul(t, ef_with_err(robj.d.x, de.x)));
    let py = ef_add(ef_with_err(robj.o.y, oe.y), ef_mul(t, ef_with_err(robj.d.y, de.y)));
    let pz = ef_add(ef_with_err(robj.o.z, oe.z), ef_mul(t, ef_with_err(robj.d.z, de.z)));
    sv3(
        imax(fx_sub(px.hi.bits as int, px.v.bits as int), fx_sub(px.v.bits as int, px.lo.bits as int)),
        imax(fx_sub(py.hi.bits as int, py.v.bits as int), fx_sub(py.v.bits as int, py.lo.bits as int)),
        imax(fx_sub(pz.hi.bits as int, pz.v.bits as int), fx_sub(pz.v.bits as int, pz.lo.bits as int)),
    )
}

/// The absolute error of an error-bounded scalar: the larger distance from
/// the working value to either bound.
pub fn absolute_error(e: Ef) -> (r: Fx)
    ensures
        r.bits as int == imax(
            fx_sub(e.hi.bits as int, e.v.bits as int),
            fx_sub(e.v.bits as int, e.lo.bits as int),
        ),
{
    e.hi.sub(e.v).max(e.v.sub(e.lo))
}

impl Paraboloid {
    /// Tests a candidate hit against the clipping parameters.
    pub fn clipped(&self, p: Point3, phi: Fx) -> (r: bool)
        ensures
            r == spec_parab_clipped(*self, p, phi),
    {
        p.z.bits < self.z_min.bits || p.z.bits > self.z_max.bits
            || phi.bits > self.phi_max.bits
    }

    /// Returns the underlying shape data.
    pub fn get_data(&self) -> (r: ShapeData)
        ensures
            r == self.data,
    {
        self.data
    }

    /// Returns a bounding box in the shape's object space.
    pub fn object_bound(&self) -> (r: Bounds3)
        requires
            paraboloid_wf(*self),
        ensures
            r.p_min.x.bits as int == fx_neg(self.radius.bits as int),
            r.p_min.y.bits as int == fx_neg(self.radius.bits as int),
            r.p_min.z.bits == self.z_min.bits,
            r.p_max.x.bits == self.radius.bits,
            r.p_max.y.bits == self.radius.bits,
            r.p_max.z.bits == self.z_max.bits,
    {
        let nr = self.radius.neg();
        bounds3(
            point3(nr, nr, self.z_min),
            point3(self.radius, self.radius, self.z_max),
        )
    }

    /// Returns the closed-form surface area of the truncated paraboloid in
    /// object space, evaluated in fixed-point arithmetic; degenerate
    /// parameters (a zero height) yield zero.
    pub fn area(&self) -> (r: Fx)
        ensures
            r.bits as int == spec_parab_area(*self),
    {
        let radius2 = self.radius.mul(self.radius);
        if self.z_max.bits == 0 || radius2.bits == 0 {
            return Fx { bits: 0 };
        }
        let four = Fx::from_int(4);
        let k = four.mul(self.z_max).div(radius2);
        let twelve = Fx::from_int(12);
        let den = twelve.mul(self.z_max).mul(self.z_max);
        if den.bits == 0 {
            return Fx { bits: 0 };
        }
        let one = Fx { bits: SCALE };
        let lead = radius2.mul(radius2).mul(self.phi_max).div(den);
        let hi_t = k.mul(self.z_max).add(one);
        let lo_t = k.mul(self.z_min).add(one);
        let hi15 = hi_t.mul(hi_t.sqrt());
        let lo15 = lo_t.mul(lo_t.sqrt());
        lead.mul(hi15.sub(lo15))
    }
}

/// The closed-form area of the truncated paraboloid, in fixed-point
/// arithmetic: the antiderivative of the lateral-surface integrand
/// evaluated at the two caps, with `t^(3/2)` computed as `t * sqrt(t)`.
pub open spec fn spec_parab_area(s: Paraboloid) -> int {
    let radius2 = fx_mul(s.radius.bits as int, s.radius.bits as int);
    if s.z_max.bits == 0 || radius2 == 0 {
        0
    } else {
        let k = fx_div(fx_mul(4 * SCALE as int, s.z_max.bits as int), radius2);
        let den = fx_mul(fx_mul(12 * SCALE as int, s.z_max.bits as int), s.z_max.bits as int);
        if den == 0 {
            0
        } else {
            let lead = fx_div(fx_mul(fx_mul(radius2, radius2), s.phi_max.bits as int), den);
            let hi_t = fx_add(fx_mul(k, s.z_max.bits as int), SCALE as int);
            let lo_t = fx_add(fx_mul(k, s.z_min.bits as int), SCALE as int);
            let hi15 = fx_mul(hi_t, crate::fixed::fx_sqrt(hi_t));
            let lo15 = fx_mul(lo_t, crate::fixed::fx_sqrt(lo_t));
            fx_mul(lead, fx_sub(hi15, lo15))
        }
    }
}

/// The shared candidate search of the paraboloid's `intersect` and
/// `intersect_p`: the accepted root, the hit point, its propagated error
/// bound and the azimuthal angle; or nothing.
pub open spec fn spec_parab_find_hit(s: Paraboloid, r: Ray) -> Option<(Ef, Point3, Vector3,
    Fx)> {
    match s.data.world_to_object {
        Option::None => Option::None,
        Option::Some(w2o) => {
            let robj = Ray {
                o: spec_xform_point(w2o.m, r.o),
                d: spec_xform_vector(w2o.m, r.d),
                t_max: r.t_max,
                time: r.time,
                medium: r.medium,
            };
            let oe = spec_xform_err(w2o.m, sv3(0, 0, 0));
            let (a, b, c) = spec_parab_coeffs(robj, oe, oe, s.radius, s.z_max);
            match spec_quadratic(a, b, c) {
                Option::None => Option::None,
                Option::Some(roots) => {
                    let t0 = roots.0;
                    let t1 = roots.1;
                    if t0.hi.bits > robj.t_max.bits || t1.lo.bits <= 0 {
                        Option::None
                    } else {
                        let near = if t0.lo.bits <= 0 {
                            t1
                        } else {
                            t0
                        };
                        if t0.lo.bits <= 0 && t1.hi.bits > robj.t_max.bits {
                            Option::None
                        } else {
                            let (p, phi) = spec_parab_hit_point(robj, near.v.bits as int);
                            if spec_parab_clipped(s, p, phi) {
                                if near.v.bits == t1.v.bits {
                                    Option::None
                                } else if t1.hi.bits > robj.t_max.bits {
                                    Option::None
                                } else {
                                    let (p2, phi2) = spec_parab_hit_point(
                                        robj, t1.v.bits as int,
                                    );
                                    if spec_parab_clipped(s, p2, phi2) {
                                        Option::None
                                    } else {
                                        Option::Some((
                                            t1, p2, spec_parab_perr(robj, oe, oe, t1), phi2,
                                        ))
                                    }
                                }
                            } else {
                                Option::Some((
                                    near, p, spec_parab_perr(robj, oe, oe, near), phi,
                                ))
                            }
                        }
                    }
                },
            }
        },
    }
}

/// The parametric coordinates of a paraboloid hit: the azimuthal fraction
/// and the height fraction.  Degenerate ranges map to zero.
pub open spec fn spec_parab_uv(s: Paraboloid, p: Point3, phi: Fx) -> Point2 {
    let u = if s.phi_max.bits == 0 {
        0
    } else {
        fx_div(phi.bits as int, s.phi_max.bits as int)
    };
    let den = fx_sub(s.z_max.bits as int, s.z_min.bits as int);
    let v = if den == 0 {
        0
    } else {
        fx_div(fx_sub(p.z.bits as int, s.z_min.bits as int), den)
    };
    Point2 {
        x: (Fx { bits: iclamp(u, 0, SCALE as int) as i64 }),
        y: (Fx { bits: iclamp(v, 0, SCALE as int) as i64 }),
    }
}

/// The partial derivatives of position and of the normal at a paraboloid
/// hit: the parametric derivatives of the surface, the analytic normal,
/// and the normal derivatives from the two fundamental forms.  Divisions
/// by a degenerate height or determinant fall back to zero, the defensive
/// guard against a division by zero.
pub open spec fn spec_parab_geom(s: Paraboloid, p: Point3) -> (Vector3, Vector3, Normal3,
    Normal3) {
    let px = p.x.bits as int;
    let py = p.y.bits as int;
    let pz = p.z.bits as int;
    let phimax = s.phi_max.bits as int;
    let dz = fx_sub(s.z_max.bits as int, s.z_min.bits as int);
    let dpdu = sv3(fx_mul(fx_neg(phimax), py), fx_mul(phimax, px), 0);
    let two_z = fx_add(pz, pz);
    let x2z = if two_z == 0 {
        0
    } else {
        fx_div(px, two_z)
    };
    let y2z = if two_z == 0 {
        0
    } else {
        fx_div(py, two_z)
    };
    let dpdv = scale3(x2z, y2z, SCALE as int, dz);
    let d2p_duu = scale3(px, py, 0, fx_mul(fx_neg(phimax), phimax));
    let d2p_duv = scale3(fx_neg(y2z), x2z, 0, fx_mul(dz, phimax));
    let four_z2 = fx_mul(two_z, two_z);
    let x4z = if four_z2 == 0 {
        0
    } else {
        fx_div(px, four_z2)
    };
    let y4z = if four_z2 == 0 {
        0
    } else {
        fx_div(py, four_z2)
    };
    let d2p_dvv = scale3(x4z, y4z, 0, fx_mul(fx_neg(dz), dz));
    let c = cross3(
        dpdu.x.bits as int, dpdu.y.bits as int, dpdu.z.bits as int,
        dpdv.x.bits as int, dpdv.y.bits as int, dpdv.z.bits as int,
    );
    let nv = normalize3(c.x.bits as int, c.y.bits as int, c.z.bits as int);
    let e1 = dot3(
        dpdu.x.bits as int, dpdu.y.bits as int, dpdu.z.bits as int,
        dpdu.x.bits as int, dpdu.y.bits as int, dpdu.z.bits as int,
    );
    let f1 = dot3(
        dpdu.x.bits as int, dpdu.y.bits as int, dpdu.z.bits as int,
        dpdv.x.bits as int, dpdv.y.bits as int, dpdv.z.bits as int,
    );
    let g1 = dot3(
        dpdv.x.bits as int, dpdv.y.bits as int, dpdv.z.bits as int,
        dpdv.x.bits as int, dpdv.y.bits as int, dpdv.z.bits as int,
    );
    let e2 = dot3(
        nv.x.bits as int, nv.y.bits as int, nv.z.bits as int,
        d2p_duu.x.bits as int, d2p_duu.y.bits as int, d2p_duu.z.bits as int,
    );
    let f2 = dot3(
        nv.x.bits as int, nv.y.bits as int, nv.z.bits as int,
        d2p_duv.x.bits as int, d2p_duv.y.bits as int, d2p_duv.z.bits as int,
    );
    let g2 = dot3(
        nv.x.bits as int, nv.y.bits as int, nv.z.bits as int,
        d2p_dvv.x.bits as int, d2p_dvv.y.bits as int, d2p_dvv.z.bits as int,
    );
    let egf = fx_sub(fx_mul(e1, g1), fx_mul(f1, f1));
    if egf == 0 {
        (dpdu, dpdv, sn3(0, 0, 0), sn3(0, 0, 0))
    } else {
        let inv = fx_div(SCALE as int, egf);
        let du = v3_add(
            scale3(
                dpdu.x.bits as int, dpdu.y.bits as int, dpdu.z.bits as int,
                fx_mul(fx_sub(fx_mul(f2, f1), fx_mul(e2, g1)), inv),
            ),
            scale3(
                dpdv.x.bits as int, dpdv.y.bits as int, dpdv.z.bits as int,
                fx_mul(fx_sub(fx_mul(e2, f1), fx_mul(f2, e1)), inv),
            ),
        );
        let dv = v3_add(
            scale3(
                dpdu.x.bits as int, dpdu.y.bits as int, dpdu.z.bits as int,
                fx_mul(fx_sub(fx_mul(g2, f1), fx_mul(f2, g1)), inv),
            ),
            scale3(
                dpdv.x.bits as int, dpdv.y.bits as int, dpdv.z.bits as int,
                fx_mul(fx_sub(fx_mul(f2, f1), fx_mul(g2, e1)), inv),
            ),
        );
        (
            dpdu,
            dpdv,
            sn3(du.x.bits as int, du.y.bits as int, du.z.bits as int),
            sn3(dv.x.bits as int, dv.y.bits as int, dv.z.bits as int),
        )
    }
}

/// Computes the partial derivatives of position and of the normal at a
/// paraboloid hit point.
fn parab_local_geom(s: &Paraboloid, p_hit: Point3) -> (g: (Vector3, Vector3, Normal3,
    Normal3))
    ensures
        g == spec_parab_geom(*s, p_hit),
{
    let zero = Fx { bits: 0 };
    let one = Fx { bits: SCALE };
    let dz = s.z_max.sub(s.z_min);
    let dpdu = vector3(
        s.phi_max.neg().mul(p_hit.y),
        s.phi_max.mul(p_hit.x),
        zero,
    );
    let two_z = p_hit.z.add(p_hit.z);
    let (x2z, y2z) = if two_z.bits == 0 {
        (zero, zero)
    } else {
        (p_hit.x.div(two_z), p_hit.y.div(two_z))
    };
    let dpdv = vector3(x2z, y2z, one).scale(dz);
    let d2p_duu = vector3(p_hit.x, p_hit.y, zero).scale(s.phi_max.neg().mul(s.phi_max));
    let d2p_duv = vector3(y2z.neg(), x2z, zero).scale(dz.mul(s.phi_max));
    let four_z2 = two_z.mul(two_z);
    let (x4z, y4z) = if four_z2.bits == 0 {
        (zero, zero)
    } else {
        (p_hit.x.div(four_z2), p_hit.y.div(four_z2))
    };
    let d2p_dvv = vector3(x4z, y4z, zero).scale(dz.neg().mul(dz));
    let nvec = dpdu.cross(dpdv).normalize_or_zero();
    let e1 = dpdu.dot(dpdu);
    let f1 = dpdu.dot(dpdv);
    let g1 = dpdv.dot(dpdv);
    let e2 = nvec.dot(d2p_duu);
    let f2 = nvec.dot(d2p_duv);
    let g2 = nvec.dot(d2p_dvv);
    let egf = e1.mul(g1).sub(f1.mul(f1));
    if egf.bits == 0 {
        (
            dpdu,
            dpdv,
            Normal3 { x: zero, y: zero, z: zero },
            Normal3 { x: zero, y: zero, z: zero },
        )
    } else {
        let inv = one.div(egf);
        let du = dpdu.scale(f2.mul(f1).sub(e2.mul(g1)).mul(inv)).add(
            dpdv.scale(e2.mul(f1).sub(f2.mul(e1)).mul(inv)),
        );
        let dv = dpdu.scale(g2.mul(f1).sub(f2.mul(g1)).mul(inv)).add(
            dpdv.scale(f2.mul(f1).sub(g2.mul(e1)).mul(inv)),
        );
        (dpdu, dpdv, Normal3::from_vec(du), Normal3::from_vec(dv))
    }
}

impl Paraboloid {
    /// The candidate search shared by `intersect` and `intersect_p`.
    #[verifier::rlimit(100)]
    pub fn find_hit(&self, r: &Ray) -> (res: Option<(Ef, Point3, Vector3, Fx)>)
        requires
            paraboloid_wf(*self),
        ensures
            res == spec_parab_find_hit(*self, *r),
            match res {
                Option::Some(h) => ef_wf(h.0) && 0 < h.0.lo.bits
                    && h.0.hi.bits <= r.t_max.bits,
                Option::None => true,
            },
    {
        let w2o = match self.data.world_to_object {
            Option::Some(t) => t,
            Option::None => {
                proof {
                    assert(false);
                }
                Transform::identity()
            },
        };
        let (robj, o_err, d_err) = transform_ray_with_error(&w2o, r);
        proof {
            lemma_err_row_zero(
                w2o.m.m00.bits as int, w2o.m.m01.bits as int, w2o.m.m02.bits as int,
            );
            lemma_err_row_zero(
                w2o.m.m10.bits as int, w2o.m.m11.bits as int, w2o.m.m12.bits as int,
            );
            lemma_err_row_zero(
                w2o.m.m20.bits as int, w2o.m.m21.bits as int, w2o.m.m22.bits as int,
            );
        }
        let (a, b, c) = parab_coeffs(&robj, &o_err, &o_err, self.radius, self.z_max);
        match quadratic(a, b, c) {
            Option::None => Option::None,
            Option::Some((t0, t1)) => {
                if t0.hi.bits > robj.t_max.bits || t1.lo.bits <= 0 {
                    return Option::None;
                }
                let near = if t0.lo.bits <= 0 {
                    t1
                } else {
                    t0
                };
                if t0.lo.bits <= 0 && t1.hi.bits > robj.t_max.bits {
                    return Option::None;
                }
                let p = robj.at(near.v);
                let phi = atan2_fx(p.y, p.x);
                if self.clipped(p, phi) {
                    if near.v.bits == t1.v.bits {
                        return Option::None;
                    }
                    if t1.hi.bits > robj.t_max.bits {
                        return Option::None;
                    }
                    let p2 = robj.at(t1.v);
                    let phi2 = atan2_fx(p2.y, p2.x);
                    if self.clipped(p2, phi2) {
                        Option::None
                    } else {
                        Option::Some((t1, p2, self.propagated_err(&robj, &o_err, t1), phi2))
                    }
                } else {
                    Option::Some((near, p, self.propagated_err(&robj, &o_err, near), phi))
                }
            },
        }
    }

    /// The positional error of the hit at root `t`, from the ray equation
    /// carried through error-bounded scalars.
    fn propagated_err(&self, robj: &Ray, oe: &Vector3, t: Ef) -> (r: Vector3)
        requires
            oe.x.bits >= 0, oe.y.bits >= 0, oe.z.bits >= 0,
        ensures
            r == spec_parab_perr(*robj, *oe, *oe, t),
    {
        let px = Ef::with_err(robj.o.x, oe.x).add(t.mul(Ef::with_err(robj.d.x, oe.x)));
        let py = Ef::with_err(robj.o.y, oe.y).add(t.mul(Ef::with_err(robj.d.y, oe.y)));
        let pz = Ef::with_err(robj.o.z, oe.z).add(t.mul(Ef::with_err(robj.d.z, oe.z)));
        Vector3 { x: absolute_error(px), y: absolute_error(py), z: absolute_error(pz) }
    }

    /// Returns geometric details if the ray intersects the paraboloid, or
    /// nothing.  As for the sphere, the decision, the hit distance, the
    /// hit point with its propagated error bound, the parametric
    /// coordinates in the unit square, the derivatives, the geometric
    /// normal and the outgoing direction are all pinned to the shared
    /// candidate search.
    ///
    /// The alpha-texture argument of the shape interface is accepted and
    /// ignored: alpha masking is outside this core.
    #[verifier::rlimit(100)]
    pub fn intersect(&self, r: &Ray, _test_alpha_texture: bool) -> (res: Option<Intersection>)
        requires
            paraboloid_wf(*self),
        ensures
            (res is Some) == (spec_parab_find_hit(*self, *r) is Some),
            match res {
                Option::Some(it) => {
                    let h = spec_parab_find_hit(*self, *r)->Some_0;
                    let g = spec_parab_geom(*self, h.1);
                    &&& it.t == h.0.v
                    &&& 0 < h.0.lo.bits
                    &&& h.0.hi.bits <= r.t_max.bits
                    &&& it.isect.hit.p == spec_xform_point(
                        self.data.object_to_world.m, h.1,
                    )
                    &&& it.isect.hit.p_error == spec_xform_err(
                        self.data.object_to_world.m, h.2,
                    )
                    &&& it.isect.uv == spec_parab_uv(*self, h.1, h.3)
                    &&& 0 <= it.isect.uv.x.bits <= SCALE
                    &&& 0 <= it.isect.uv.y.bits <= SCALE
                    &&& it.isect.dpdu == spec_xform_vector(self.data.object_to_world.m, g.0)
                    &&& it.isect.dpdv == spec_xform_vector(self.data.object_to_world.m, g.1)
                    &&& it.isect.dndu == spec_xform_normal(
                        self.data.object_to_world.m_inv, g.2,
                    )
                    &&& it.isect.dndv == spec_xform_normal(
                        self.data.object_to_world.m_inv, g.3,
                    )
                    &&& it.isect.hit.n == spec_xform_normal(
                        self.data.object_to_world.m_inv,
                        spec_geometric_normal(g.0, g.1, Option::Some(self.data)),
                    )
                    &&& it.isect.hit.wo == spec_xform_vector(
                        self.data.object_to_world.m,
                        v3_neg(spec_xform_vector(
                            self.data.world_to_object->Some_0.m, r.d,
                        )),
                    )
                    &&& it.isect.shading.n == it.isect.hit.n
                    &&& it.isect.hit.time == r.time
                },
                Option::None => true,
            },
    {
        match self.find_hit(r) {
            Option::None => Option::None,
            Option::Some((t_shape_hit, p_hit, p_error, phi)) => {
                let w2o = match self.data.world_to_object {
                    Option::Some(t) => t,
                    Option::None => {
                        proof {
                            assert(false);
                        }
                        Transform::identity()
                    },
                };
                let (robj, _, _) = transform_ray_with_error(&w2o, r);

                // Parametric representation of the hit.
                let zero = Fx { bits: 0 };
                let one = Fx { bits: SCALE };
                let u = if self.phi_max.bits == 0 {
                    zero
                } else {
                    phi.div(self.phi_max)
                }.clamp(zero, one);
                let dz = self.z_max.sub(self.z_min);
                let v = if dz.bits == 0 {
                    zero
                } else {
                    p_hit.z.sub(self.z_min).div(dz)
                }.clamp(zero, one);

                // Differential geometry of the hit.
                let (dpdu, dpdv, dndu, dndv) = parab_local_geom(self, p_hit);

                let si = surface_interaction(
                    p_hit,
                    p_error,
                    point2(u, v),
                    robj.d.neg(),
                    dpdu,
                    dpdv,
                    dndu,
                    dndv,
                    robj.time,
                    Some(self.data),
                );
                let isect = transform_surface_interaction(&self.data.object_to_world, &si);
                Option::Some(intersection(t_shape_hit.v, isect))
            },
        }
    }

    /// Returns whether the ray intersects the paraboloid, by the same
    /// candidate search as `intersect`.
    pub fn intersect_p(&self, r: &Ray, _test_alpha_texture: bool) -> (res: bool)
        requires
            paraboloid_wf(*self),
        ensures
            res == (spec_parab_find_hit(*self, *r) is Some),
    {
        match self.find_hit(r) {
            Option::Some(_) => true,
            Option::None => false,
        }
    }
}

} // verus!
