//! Surface interactions: the differential-geometry record a shape reports.

use vstd::prelude::*;
use crate::fixed::{Fx, fx_neg, fx_mul};
use crate::vecmath::{
    Vector3, Point3, Normal3, Point2, sn3, dot3, cross3, normalize3, wide_dot3, no_min3,
    lemma_wide_dot3_symmetric,
};
use crate::shape::{ShapeData, MediumInterface, effective_flip};
use crate::transform::{Transform, spec_xform_point, spec_xform_vector, spec_xform_normal,
    spec_xform_err};

verus! {

/// The part of an interaction every kind of intersection shares.
#[derive(Clone, Copy, Debug)]
pub struct Hit {
    /// Point of interaction.
    pub p: Point3,
    /// Time of the interaction.
    pub time: Fx,
    /// Conservative bound on the positional error of `p`.
    pub p_error: Vector3,
    /// The outgoing direction: the negated ray direction.
    pub wo: Vector3,
    /// The true geometric surface normal.
    pub n: Normal3,
    /// The media on the two sides, attached later by the primitive layer.
    pub medium_interface: Option<MediumInterface>,
}

/// Creates the common interaction record.
pub fn hit(
    p: Point3,
    time: Fx,
    p_error: Vector3,
    wo: Vector3,
    n: Normal3,
    medium_interface: Option<MediumInterface>,
) -> (r: Hit)
    ensures
        r.p == p,
        r.time == time,
        r.p_error == p_error,
        r.wo == wo,
        r.n == n,
        r.medium_interface == medium_interface,
{
    Hit { p, time, p_error, wo, n, medium_interface }
}

/// Shading geometry: an independently perturbable copy of the normal and
/// the partial derivatives, used for bump mapping.
#[derive(Clone, Copy, Debug)]
pub struct Shading {
    /// Surface normal used for shading.
    pub n: Normal3,
    /// Partial derivative of position in `u`.
    pub dpdu: Vector3,
    /// Partial derivative of position in `v`.
    pub dpdv: Vector3,
    /// Partial derivative of the normal in `u`.
    pub dndu: Normal3,
    /// Partial derivative of the normal in `v`.
    pub dndv: Normal3,
}

/// Creates a shading record.
pub fn shading(n: Normal3, dpdu: Vector3, dpdv: Vector3, dndu: Normal3, dndv: Normal3) -> (r:
    Shading)
    ensures
        r.n == n,
        r.dpdu == dpdu,
        r.dpdv == dpdv,
        r.dndu == dndu,
        r.dndv == dndv,
{
    Shading { n, dpdu, dpdv, dndu, dndv }
}

/// The geometry of a particular point on a surface: the hit record, the
/// parametrization, its derivatives, the shading copy, and handles that the
/// owning layers attach after the intersection.
#[derive(Clone, Copy, Debug)]
pub struct SurfaceInteraction {
    /// The common interaction data.
    pub hit: Hit,
    /// Parametric coordinates of the hit.
    pub uv: Point2,
    /// Partial derivative of position in `u`.
    pub dpdu: Vector3,
    /// Partial derivative of position in `v`.
    pub dpdv: Vector3,
    /// Partial derivative of the normal in `u`.
    pub dndu: Normal3,
    /// Partial derivative of the normal in `v`.
    pub dndv: Normal3,
    /// The shading geometry, initially equal to the geometric one.
    pub shading: Shading,
    /// The orientation data of the shape that produced this interaction.
    pub shape: Option<ShapeData>,
    /// Handle of the scattering function, attached by the material layer.
    pub bsdf: Option<u64>,
    /// Handle of the subsurface term, attached by the material layer.
    pub bssrdf: Option<u64>,
    /// Handle of the primitive that produced the interaction, attached by
    /// the primitive layer.
    pub primitive: Option<u64>,
}

/// The geometric normal a shape reports: the normalized cross product of
/// the position derivatives, negated when the shape's effective
/// orientation flip asks for it.
pub open spec fn spec_geometric_normal(
    dpdu: Vector3,
    dpdv: Vector3,
    shape: Option<ShapeData>,
) -> Normal3 {
    let c = cross3(
        dpdu.x.bits as int, dpdu.y.bits as int, dpdu.z.bits as int,
        dpdv.x.bits as int, dpdv.y.bits as int, dpdv.z.bits as int,
    );
    let nv = normalize3(c.x.bits as int, c.y.bits as int, c.z.bits as int);
    let n0 = sn3(nv.x.bits as int, nv.y.bits as int, nv.z.bits as int);
    match shape {
        Option::Some(s) => if effective_flip(s) {
            sn3(
                fx_neg(n0.x.bits as int),
                fx_neg(n0.y.bits as int),
                fx_neg(n0.z.bits as int),
            )
        } else {
            n0
        },
        Option::None => n0,
    }
}

/// Creates a surface interaction from the parametric data of a hit.
///
/// The geometric normal is derived from the cross product of the position
/// derivatives and corrected by the shape's effective orientation flip:
/// the user-requested reversal combined with the handedness swap of the
/// transform, never one alone.  The shading geometry starts out equal to
/// the geometric one, so both normals begin in the same hemisphere.
pub fn surface_interaction(
    p: Point3,
    p_error: Vector3,
    uv: Point2,
    wo: Vector3,
    dpdu: Vector3,
    dpdv: Vector3,
    dndu: Normal3,
    dndv: Normal3,
    time: Fx,
    shape: Option<ShapeData>,
) -> (r: SurfaceInteraction)
    ensures
        r.hit.p == p,
        r.hit.time == time,
        r.hit.p_error == p_error,
        r.hit.wo == wo,
        r.hit.n == spec_geometric_normal(dpdu, dpdv, shape),
        r.hit.medium_interface is None,
        r.uv == uv,
        r.dpdu == dpdu,
        r.dpdv == dpdv,
        r.dndu == dndu,
        r.dndv == dndv,
        r.shading.n == r.hit.n,
        r.shading.dpdu == dpdu,
        r.shading.dpdv == dpdv,
        r.shading.dndu == dndu,
        r.shading.dndv == dndv,
        r.shape == shape,
        r.bsdf is None,
        r.bssrdf is None,
        r.primitive is None,
{
    let n0 = Normal3::from_vec(dpdu.cross(dpdv).normalize_or_zero());
    let n = match shape {
        Option::Some(s) => {
            if s.reverse_orientation != s.transform_swaps_handedness {
                n0.neg()
            } else {
                n0
            }
        },
        Option::None => n0,
    };
    SurfaceInteraction {
        hit: hit(p, time, p_error, wo, n, None),
        uv,
        dpdu,
        dpdv,
        dndu,
        dndv,
        shading: shading(n, dpdu, dpdv, dndu, dndv),
        shape,
        bsdf: None,
        bssrdf: None,
        primitive: None,
    }
}

/// The result of a shading-geometry update, as a specification value.
/// The new shading normal is derived from the new derivatives and carries
/// the effective orientation flip; then one normal is face-forwarded onto
/// the other, the authoritative flag deciding which one gives way.
pub open spec fn spec_updated_shading(
    si: SurfaceInteraction,
    dpdu: Vector3,
    dpdv: Vector3,
    orientation_is_authoritative: bool,
) -> (Normal3, Normal3) {
    let fresh = spec_geometric_normal(dpdu, dpdv, si.shape);
    if orientation_is_authoritative {
        let d = wide_dot3(
            si.hit.n.x.bits as int, si.hit.n.y.bits as int, si.hit.n.z.bits as int,
            fresh.x.bits as int, fresh.y.bits as int, fresh.z.bits as int,
        );
        let hn = if d < 0 {
            si.hit.n.neg_spec()
        } else {
            si.hit.n
        };
        (hn, fresh)
    } else {
        let d = wide_dot3(
            fresh.x.bits as int, fresh.y.bits as int, fresh.z.bits as int,
            si.hit.n.x.bits as int, si.hit.n.y.bits as int, si.hit.n.z.bits as int,
        );
        let sn = if d < 0 {
            fresh.neg_spec()
        } else {
            fresh
        };
        (si.hit.n, sn)
    }
}

impl SurfaceInteraction {
    /// Returns the updated geometric normal and shading record for new
    /// shading derivatives.  The new shading normal comes from the new
    /// derivatives' cross product with the effective orientation flip
    /// applied to it, and a face-forward correction then keeps the two
    /// normals in one hemisphere: the geometric normal gives way when the
    /// new orientation is authoritative, the shading normal otherwise.
    pub fn update_shading_geometry(
        &self,
        dpdu: Vector3,
        dpdv: Vector3,
        dndu: Normal3,
        dndv: Normal3,
        orientation_is_authoritative: bool,
    ) -> (r: (Normal3, Shading))
        ensures
            ({
                let (hn, sn) = spec_updated_shading(*self, dpdu, dpdv,
                    orientation_is_authoritative);
                r.0 == hn && r.1.n == sn
            }),
            r.1.dpdu == dpdu,
            r.1.dpdv == dpdv,
            r.1.dndu == dndu,
            r.1.dndv == dndv,
            (no_min3(self.hit.n) && no_min3(spec_geometric_normal(dpdu, dpdv, self.shape)))
                ==> wide_dot3(
                    r.0.x.bits as int, r.0.y.bits as int, r.0.z.bits as int,
                    r.1.n.x.bits as int, r.1.n.y.bits as int, r.1.n.z.bits as int,
                ) >= 0,
    {
        let fresh0 = Normal3::from_vec(dpdu.cross(dpdv).normalize_or_zero());
        let fresh = match self.shape {
            Option::Some(s) => {
                if s.reverse_orientation != s.transform_swaps_handedness {
                    fresh0.neg()
                } else {
                    fresh0
                }
            },
            Option::None => fresh0,
        };
        if orientation_is_authoritative {
            let hit_n = self.hit.n.face_forward(fresh.to_vec());
            (hit_n, shading(fresh, dpdu, dpdv, dndu, dndv))
        } else {
            let shading_n = fresh.face_forward(self.hit.n.to_vec());
            proof {
                if no_min3(self.hit.n) && no_min3(fresh) {
                    lemma_wide_dot3_symmetric(
                        shading_n.x.bits as int, shading_n.y.bits as int,
                        shading_n.z.bits as int,
                        self.hit.n.x.bits as int, self.hit.n.y.bits as int,
                        self.hit.n.z.bits as int,
                    );
                }
            }
            (self.hit.n, shading(shading_n, dpdu, dpdv, dndu, dndv))
        }
    }
}

/// Carries a surface interaction into world space: the position moves with
/// its error bound propagated, direction vectors move as vectors, normals
/// move by the inverse transpose, and the parametrization is unchanged.
pub fn transform_surface_interaction(t: &Transform, si: &SurfaceInteraction) -> (r:
    SurfaceInteraction)
    ensures
        r.hit.p == spec_xform_point(t.m, si.hit.p),
        r.hit.p_error == spec_xform_err(t.m, si.hit.p_error),
        r.hit.n == spec_xform_normal(t.m_inv, si.hit.n),
        r.hit.wo == spec_xform_vector(t.m, si.hit.wo),
        r.hit.time == si.hit.time,
        r.hit.medium_interface == si.hit.medium_interface,
        r.uv == si.uv,
        r.dpdu == spec_xform_vector(t.m, si.dpdu),
        r.dpdv == spec_xform_vector(t.m, si.dpdv),
        r.dndu == spec_xform_normal(t.m_inv, si.dndu),
        r.dndv == spec_xform_normal(t.m_inv, si.dndv),
        r.shading.n == spec_xform_normal(t.m_inv, si.shading.n),
        r.shading.dpdu == spec_xform_vector(t.m, si.shading.dpdu),
        r.shading.dpdv == spec_xform_vector(t.m, si.shading.dpdv),
        r.shading.dndu == spec_xform_normal(t.m_inv, si.shading.dndu),
        r.shading.dndv == spec_xform_normal(t.m_inv, si.shading.dndv),
        r.shape == si.shape,
        r.bsdf == si.bsdf,
        r.bssrdf == si.bssrdf,
        r.primitive == si.primitive,
{
    let (p2, e2) = t.transform_point_with_err(si.hit.p, si.hit.p_error);
    SurfaceInteraction {
        hit: Hit {
            p: p2,
            time: si.hit.time,
            p_error: e2,
            wo: t.transform_vector(si.hit.wo),
            n: t.transform_normal(si.hit.n),
            medium_interface: si.hit.medium_interface,
        },
        uv: si.uv,
        dpdu: t.transform_vector(si.dpdu),
        dpdv: t.transform_vector(si.dpdv),
        dndu: t.transform_normal(si.dndu),
        dndv: t.transform_normal(si.dndv),
        shading: Shading {
            n: t.transform_normal(si.shading.n),
            dpdu: t.transform_vector(si.shading.dpdu),
            dpdv: t.transform_vector(si.shading.dpdv),
            dndu: t.transform_normal(si.shading.dndu),
            dndv: t.transform_normal(si.shading.dndv),
        },
        shape: si.shape,
        bsdf: si.bsdf,
        bssrdf: si.bssrdf,
        primitive: si.primitive,
    }
}

/// A ray-shape intersection: the parametric distance of the hit and the
/// full differential-geometry record, in world space.
#[derive(Clone, Copy, Debug)]
pub struct Intersection {
    /// Parametric distance along the ray.
    pub t: Fx,
    /// The geometry of the hit.
    pub isect: SurfaceInteraction,
}

/// Creates an intersection record.
pub fn intersection(t: Fx, isect: SurfaceInteraction) -> (r: Intersection)
    ensures
        r.t == t,
        r.isect == isect,
{
    Intersection { t, isect }
}

/// The dot product of any raw triple with itself is never negative: at
/// construction the shading normal equals the geometric normal, so the two
/// normals provably share a hemisphere.
pub proof fn lemma_dot_self_nonneg(x: int, y: int, z: int)
    ensures
        dot3(x, y, z, x, y, z) >= 0,
{
    assert(x * x >= 0) by (nonlinear_arith);
    assert(y * y >= 0) by (nonlinear_arith);
    assert(z * z >= 0) by (nonlinear_arith);
    assert(fx_mul(x, x) >= 0) by {
        vstd::arithmetic::div_mod::lemma_div_is_ordered(0, x * x, crate::fixed::SCALE as int);
    }
    assert(fx_mul(y, y) >= 0) by {
        vstd::arithmetic::div_mod::lemma_div_is_ordered(0, y * y, crate::fixed::SCALE as int);
    }
    assert(fx_mul(z, z) >= 0) by {
        vstd::arithmetic::div_mod::lemma_div_is_ordered(0, z * z, crate::fixed::SCALE as int);
    }
}

} // verus!
