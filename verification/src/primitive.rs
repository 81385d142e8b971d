//! Geometric primitives: a shape paired with its scene-level attachments.

use vstd::prelude::*;
use crate::shape::{Ray, MediumInterface};
use crate::interaction::SurfaceInteraction;
use crate::quadric::{Shape, shape_inv, spec_shape_hit_some, spec_shape_hit_t};

verus! {

/// A single shape in a scene, together with handles to its material, an
/// optional area light, the media around it, and its own identifier in
/// the scene's primitive table.  The identifier replaces a raw back
/// pointer: interactions carry it so that later stages can find the
/// primitive without holding an unmanaged reference.
#[derive(Clone, Copy, Debug)]
pub struct GeometricPrimitive {
    /// The shape.
    pub shape: Shape,
    /// Handle of the material, if any.
    pub material: Option<u64>,
    /// Handle of the area light describing the primitive's emission, if
    /// it emits light.
    pub area_light: Option<u64>,
    /// The participating media inside and outside the primitive.
    pub medium_interface: MediumInterface,
    /// This primitive's identifier in the scene's primitive table.
    pub id: u64,
}

impl GeometricPrimitive {
    /// Creates a new geometric primitive.
    pub fn new(
        shape: Shape,
        material: Option<u64>,
        area_light: Option<u64>,
        medium_interface: MediumInterface,
        id: u64,
    ) -> (r: GeometricPrimitive)
        ensures
            r.shape == shape,
            r.material == material,
            r.area_light == area_light,
            r.medium_interface == medium_interface,
            r.id == id,
    {
        GeometricPrimitive { shape, material, area_light, medium_interface, id }
    }

    /// Intersects a ray with the primitive's shape.  On a hit, the ray's
    /// maximum parameter shrinks to the hit distance, the interaction
    /// carries this primitive's identifier and a shading normal equal to
    /// the geometric normal (the hemisphere relation the renderer relies
    /// on, here an equality proved rather than asserted at run time), and
    /// the medium information is attached: the primitive's own interface
    /// when it marks a true transition, otherwise the ray's medium on both
    /// sides.  On a miss the ray is unchanged.
    pub fn intersect(&self, r: &mut Ray) -> (res: Option<SurfaceInteraction>)
        requires
            shape_inv(self.shape),
        ensures
            (res is Some) == spec_shape_hit_some(self.shape, *old(r)),
            match res {
                Option::Some(si) => {
                    &&& spec_shape_hit_t(self.shape, *old(r))
                        == Option::Some(final(r).t_max)
                    &&& si.primitive == Option::Some(self.id)
                    &&& si.shading.n == si.hit.n
                    &&& si.hit.medium_interface == (
                    if self.medium_interface.inside != self.medium_interface.outside {
                        Option::Some(self.medium_interface)
                    } else {
                        match old(r).medium {
                            Option::Some(m) => Option::Some(
                                (MediumInterface {
                                    inside: Option::Some(m),
                                    outside: Option::Some(m),
                                }),
                            ),
                            Option::None => Option::None,
                        }
                    })
                    &&& final(r).o == old(r).o
                    &&& final(r).d == old(r).d
                    &&& final(r).time == old(r).time
                    &&& final(r).medium == old(r).medium
                },
                Option::None => *final(r) == *old(r),
            },
    {
        match self.shape.intersect(r, true) {
            Option::Some(it) => {
                r.t_max = it.t;
                let mut isect = it.isect;
                isect.primitive = Some(self.id);
                let is_transition = self.medium_interface.is_medium_transition();
                isect.hit.medium_interface = if is_transition {
                    Some(self.medium_interface)
                } else {
                    match r.medium {
                        Option::Some(m) => Some(
                            MediumInterface { inside: Some(m), outside: Some(m) },
                        ),
                        Option::None => None,
                    }
                };
                Some(isect)
            },
            Option::None => None,
        }
    }

    /// Returns whether a ray intersects the primitive's shape, without
    /// computing the interaction.
    pub fn intersect_p(&self, r: &Ray) -> (res: bool)
        requires
            shape_inv(self.shape),
        ensures
            res == spec_shape_hit_some(self.shape, *r),
    {
        self.shape.intersect_p(r, true)
    }

    /// Returns the handle of the area light describing the primitive's
    /// emission, if the primitive is itself a light source.
    pub fn get_area_light(&self) -> (r: Option<u64>)
        ensures
            r == self.area_light,
    {
        self.area_light
    }

    /// Returns the handle of the material assigned to the primitive; with
    /// no material, intersections with the primitive only delineate a
    /// volume of space for participating media.
    pub fn get_material(&self) -> (r: Option<u64>)
        ensures
            r == self.material,
    {
        self.material
    }
}

} // verus!
