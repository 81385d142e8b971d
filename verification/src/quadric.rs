//! The closed family of quadric shapes, dispatched as a tagged enumeration.

use vstd::prelude::*;
use crate::fixed::{Fx, fx_mul, fx_sub, fx_neg};
use crate::shape::{Ray, Bounds3, ShapeData};
use crate::interaction::Intersection;
use crate::sphere::{Sphere, sphere_wf, spec_sphere_find_hit};
use crate::paraboloid::{Paraboloid, paraboloid_wf, spec_parab_find_hit, spec_parab_area};

verus! {

/// A concrete quadric shape.  The shape set is small, fixed and
/// performance sensitive, so it is a closed enumeration rather than an
/// open hierarchy.
#[derive(Clone, Copy, Debug)]
pub enum Shape {
    /// A sphere at the object-space origin.
    Sphere(Sphere),
    /// A paraboloid centered on the z axis.
    Paraboloid(Paraboloid),
}

/// The invariant of a shape: the invariant of its variant.
pub open spec fn shape_inv(s: Shape) -> bool {
    match s {
        Shape::Sphere(x) => sphere_wf(x),
        Shape::Paraboloid(x) => paraboloid_wf(x),
    }
}

/// The object-space surface area of a shape, as a specification value.
pub open spec fn spec_shape_area(s: Shape) -> int {
    match s {
        Shape::Sphere(x) => fx_mul(
            fx_mul(x.phi_max.bits as int, x.radius.bits as int),
            fx_sub(x.z_max.bits as int, x.z_min.bits as int),
        ),
        Shape::Paraboloid(x) => spec_parab_area(x),
    }
}

/// Whether a ray hits a shape, as a specification value: the shared
/// candidate search of the matching variant reports a candidate.
pub open spec fn spec_shape_hit_some(s: Shape, r: Ray) -> bool {
    match s {
        Shape::Sphere(x) => spec_sphere_find_hit(x, r) is Some,
        Shape::Paraboloid(x) => spec_parab_find_hit(x, r) is Some,
    }
}

/// The parametric distance of the accepted hit, as a specification value.
pub open spec fn spec_shape_hit_t(s: Shape, r: Ray) -> Option<Fx> {
    match s {
        Shape::Sphere(x) => match spec_sphere_find_hit(x, r) {
            Option::Some(h) => Option::Some(h.0.v),
            Option::None => Option::None,
        },
        Shape::Paraboloid(x) => match spec_parab_find_hit(x, r) {
            Option::Some(h) => Option::Some(h.0.v),
            Option::None => Option::None,
        },
    }
}

impl Shape {
    /// Returns the underlying shape data.
    pub fn get_data(&self) -> (r: ShapeData)
        ensures
            r == match *self {
                Shape::Sphere(x) => x.data,
                Shape::Paraboloid(x) => x.data,
            },
    {
        match self {
            Shape::Sphere(x) => x.get_data(),
            Shape::Paraboloid(x) => x.get_data(),
        }
    }

    /// Returns a bounding box in the shape's object space: the square
    /// prism of the variant's radius, cut at its z-bounds.
    pub fn object_bound(&self) -> (r: Bounds3)
        requires
            shape_inv(*self),
        ensures
            match *self {
                Shape::Sphere(x) => {
                    &&& r.p_min.x.bits as int == fx_neg(x.radius.bits as int)
                    &&& r.p_min.y.bits as int == fx_neg(x.radius.bits as int)
                    &&& r.p_min.z.bits == x.z_min.bits
                    &&& r.p_max.x.bits == x.radius.bits
                    &&& r.p_max.y.bits == x.radius.bits
                    &&& r.p_max.z.bits == x.z_max.bits
                },
                Shape::Paraboloid(x) => {
                    &&& r.p_min.x.bits as int == fx_neg(x.radius.bits as int)
                    &&& r.p_min.y.bits as int == fx_neg(x.radius.bits as int)
                    &&& r.p_min.z.bits == x.z_min.bits
                    &&& r.p_max.x.bits == x.radius.bits
                    &&& r.p_max.y.bits == x.radius.bits
                    &&& r.p_max.z.bits == x.z_max.bits
                },
            },
    {
        match self {
            Shape::Sphere(x) => x.object_bound(),
            Shape::Paraboloid(x) => x.object_bound(),
        }
    }

    /// Returns the object-space surface area of the shape.
    pub fn area(&self) -> (r: Fx)
        ensures
            r.bits as int == spec_shape_area(*self),
    {
        match self {
            Shape::Sphere(x) => x.area(),
            Shape::Paraboloid(x) => x.area(),
        }
    }

    /// Returns geometric details if the ray intersects the shape, or
    /// nothing; a hit is reported exactly when `intersect_p` reports one,
    /// at the parametric distance of the shared candidate search.
    pub fn intersect(&self, r: &Ray, test_alpha_texture: bool) -> (res: Option<Intersection>)
        requires
            shape_inv(*self),
        ensures
            (res is Some) == spec_shape_hit_some(*self, *r),
            match res {
                Option::Some(it) => {
                    &&& spec_shape_hit_t(*self, *r) == Option::Some(it.t)
                    &&& it.isect.shading.n == it.isect.hit.n
                    &&& it.isect.hit.time == r.time
                },
                Option::None => true,
            },
    {
        match self {
            Shape::Sphere(x) => x.intersect(r, test_alpha_texture),
            Shape::Paraboloid(x) => x.intersect(r, test_alpha_texture),
        }
    }

    /// Returns whether the ray intersects the shape, by the same candidate
    /// search as `intersect`.
    pub fn intersect_p(&self, r: &Ray, test_alpha_texture: bool) -> (res: bool)
        requires
            shape_inv(*self),
        ensures
            res == spec_shape_hit_some(*self, *r),
    {
        match self {
            Shape::Sphere(x) => x.intersect_p(r, test_alpha_texture),
            Shape::Paraboloid(x) => x.intersect_p(r, test_alpha_texture),
        }
    }
}

} // verus!
