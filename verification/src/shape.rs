//! Shared shape data: rays, bounding boxes, and the per-shape record.

use vstd::prelude::*;
use crate::fixed::{Fx, fx_add, fx_mul};
use crate::vecmath::{Vector3, Point3, sp3, sv3};
use crate::efloat::{imin, imax};
use crate::transform::{Transform, transform_wf, spec_xform_point, spec_xform_vector,
    spec_xform_err};

verus! {

/// A semi-infinite line of origin, direction, maximum parameter and time.
#[derive(Clone, Copy, Debug)]
pub struct Ray {
    /// Origin.
    pub o: Point3,
    /// Direction; not necessarily of unit length.
    pub d: Vector3,
    /// The largest parameter value still considered a hit.
    pub t_max: Fx,
    /// The time at which the ray is traced.
    pub time: Fx,
    /// Handle of the medium the ray travels in, if any.
    pub medium: Option<u64>,
}

/// The point of a ray at parameter `t`.
pub open spec fn spec_ray_at(r: Ray, t: int) -> Point3 {
    sp3(
        fx_add(r.o.x.bits as int, fx_mul(r.d.x.bits as int, t)),
        fx_add(r.o.y.bits as int, fx_mul(r.d.y.bits as int, t)),
        fx_add(r.o.z.bits as int, fx_mul(r.d.z.bits as int, t)),
    )
}

/// Creates a new ray.
pub fn ray(o: Point3, d: Vector3, t_max: Fx, time: Fx) -> (r: Ray)
    ensures
        r.o == o,
        r.d == d,
        r.t_max == t_max,
        r.time == time,
        r.medium is None,
{
    Ray { o, d, t_max, time, medium: None }
}

impl Ray {
    /// The point reached after traveling `t` along the ray.
    pub fn at(&self, t: Fx) -> (r: Point3)
        ensures
            r == spec_ray_at(*self, t.bits as int),
    {
        self.o.add_vec(self.d.scale(t))
    }
}

/// An axis-aligned box given by two opposite corners.
#[derive(Clone, Copy, Debug)]
pub struct Bounds3 {
    /// Corner with the smallest coordinates.
    pub p_min: Point3,
    /// Corner with the largest coordinates.
    pub p_max: Point3,
}

/// Creates a bounding box from two corners, ordering each coordinate.
pub fn bounds3(p1: Point3, p2: Point3) -> (r: Bounds3)
    ensures
        r.p_min.x.bits as int == imin(p1.x.bits as int, p2.x.bits as int),
        r.p_min.y.bits as int == imin(p1.y.bits as int, p2.y.bits as int),
        r.p_min.z.bits as int == imin(p1.z.bits as int, p2.z.bits as int),
        r.p_max.x.bits as int == imax(p1.x.bits as int, p2.x.bits as int),
        r.p_max.y.bits as int == imax(p1.y.bits as int, p2.y.bits as int),
        r.p_max.z.bits as int == imax(p1.z.bits as int, p2.z.bits as int),
{
    Bounds3 {
        p_min: Point3 { x: p1.x.min(p2.x), y: p1.y.min(p2.y), z: p1.z.min(p2.z) },
        p_max: Point3 { x: p1.x.max(p2.x), y: p1.y.max(p2.y), z: p1.z.max(p2.z) },
    }
}

/// Information about the participating media on the two sides of a surface,
/// as opaque handles owned by the scene.
#[derive(Clone, Copy, PartialEq, Eq, Debug)]
pub struct MediumInterface {
    /// Handle of the medium on the inside.
    pub inside: Option<u64>,
    /// Handle of the medium on the outside.
    pub outside: Option<u64>,
}

impl MediumInterface {
    /// Whether the interface marks a transition between distinct media.
    pub fn is_medium_transition(&self) -> (r: bool)
        ensures
            r == (self.inside != self.outside),
    {
        match (self.inside, self.outside) {
            (Option::Some(a), Option::Some(b)) => a != b,
            (Option::None, Option::None) => false,
            _ => true,
        }
    }
}

/// The immutable record shared by every concrete shape: the transform pair
/// and the orientation flags.
#[derive(Clone, Copy, Debug)]
pub struct ShapeData {
    /// Transform from object space to world space.
    pub object_to_world: Transform,
    /// Transform from world space to object space, for shapes that need it.
    pub world_to_object: Option<Transform>,
    /// Whether the user asked for the surface normals to be reversed.
    pub reverse_orientation: bool,
    /// Whether the object-to-world transform swaps handedness.
    pub transform_swaps_handedness: bool,
}

/// The shape data invariant: the cached handedness flag agrees with the
/// object-to-world transform, whose own flag agrees with its determinant.
pub open spec fn shape_data_wf(d: ShapeData) -> bool {
    &&& transform_wf(d.object_to_world)
    &&& d.transform_swaps_handedness == d.object_to_world.swaps_handedness
    &&& match d.world_to_object {
        Option::Some(w) => transform_wf(w),
        Option::None => true,
    }
}

/// The effective normal-flip decision of a shape: the user-requested
/// reversal combined, by exclusive or, with the handedness swap of the
/// transform.  Both flags together, never one alone.
pub open spec fn effective_flip(d: ShapeData) -> bool {
    d.reverse_orientation != d.transform_swaps_handedness
}

/// Creates the shared shape record.  The handedness flag is derived from
/// the object-to-world transform once, here.
pub fn shape_data(
    object_to_world: Transform,
    world_to_object: Option<Transform>,
    reverse_orientation: bool,
) -> (r: ShapeData)
    requires
        transform_wf(object_to_world),
        match world_to_object {
            Option::Some(w) => transform_wf(w),
            Option::None => true,
        },
    ensures
        r.object_to_world == object_to_world,
        r.world_to_object == world_to_object,
        r.reverse_orientation == reverse_orientation,
        r.transform_swaps_handedness == object_to_world.swaps_handedness,
        shape_data_wf(r),
{
    ShapeData {
        object_to_world,
        world_to_object,
        reverse_orientation,
        transform_swaps_handedness: object_to_world.swaps_handedness,
    }
}

/// A ray carried into another space together with the conservative error
/// bounds on its transformed origin and direction.
pub fn transform_ray_with_error(t: &Transform, r: &Ray) -> (res: (Ray, Vector3, Vector3))
    ensures
        res.0.o == spec_xform_point(t.m, r.o),
        res.0.d == spec_xform_vector(t.m, r.d),
        res.0.t_max == r.t_max,
        res.0.time == r.time,
        res.0.medium == r.medium,
        res.1 == spec_xform_err(t.m, sv3(0, 0, 0)),
        res.2 == spec_xform_err(t.m, sv3(0, 0, 0)),
{
    let zero_err = Vector3 { x: Fx { bits: 0 }, y: Fx { bits: 0 }, z: Fx { bits: 0 } };
    let (o2, o_err) = t.transform_point_with_err(r.o, zero_err);
    let d2 = t.transform_vector(r.d);
    let d_err = Vector3 { x: o_err.x, y: o_err.y, z: o_err.z };
    let r2 = Ray { o: o2, d: d2, t_max: r.t_max, time: r.time, medium: r.medium };
    (r2, o_err, d_err)
}

} // verus!
