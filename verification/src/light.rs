//! Light types and the diffuse area light.

use vstd::prelude::*;
use crate::fixed::Fx;
use crate::vecmath::{Vector3, dot3};
use crate::interaction::Hit;
use crate::shape::MediumInterface;
use crate::transform::Transform;
use crate::spectrum::RGBSpectrum;
use crate::quadric::{Shape, spec_shape_area};

verus! {

/// Flag of lights described by a delta distribution in position.
pub const DELTA_POSITION_LIGHT: u8 = 1;

/// Flag of lights described by a delta distribution in direction.
pub const DELTA_DIRECTION_LIGHT: u8 = 2;

/// Flag of area lights.
pub const AREA_LIGHT: u8 = 4;

/// Flag of infinite lights.
pub const INFINITE_LIGHT: u8 = 8;

/// A combination of light type flags.
#[derive(Clone, Copy, Debug)]
pub struct LightType {
    /// The flag bits.
    pub t: u8,
}

impl PartialEq for LightType {
    /// Two light types match when every flag of the left side is set on
    /// the right side: a subset test, not symmetric equality.
    fn eq(&self, other: &LightType) -> (r: bool) {
        self.t & other.t == self.t
    }
}

impl vstd::std_specs::cmp::PartialEqSpecImpl for LightType {
    open spec fn obeys_eq_spec() -> bool {
        true
    }

    open spec fn eq_spec(&self, other: &LightType) -> bool {
        (self.t & other.t) == self.t
    }
}

impl LightType {
    /// A light type from raw flag bits; bits above the defined flags are
    /// rejected at construction.
    pub fn new(t: u8) -> (r: LightType)
        requires
            t <= INFINITE_LIGHT,
        ensures
            r.t == t,
    {
        LightType { t }
    }

    /// Tests a single light type flag.
    pub fn matches(&self, flag: u8) -> (r: bool)
        ensures
            r == ((self.t & flag) > 0),
    {
        self.t & flag > 0
    }

    /// Whether the light is described by a delta distribution, in
    /// position or in direction.
    pub fn is_delta_light(&self) -> (r: bool)
        ensures
            r == ((self.t & DELTA_POSITION_LIGHT) > 0 || (self.t & DELTA_DIRECTION_LIGHT)
                > 0),
    {
        self.t & DELTA_POSITION_LIGHT > 0 || self.t & DELTA_DIRECTION_LIGHT > 0
    }
}

/// An area light with uniform spatial and directional radiance.
#[derive(Clone, Copy, Debug)]
pub struct DiffuseAreaLight {
    /// The light's type: always an area light.
    pub light_type: LightType,
    /// Number of shadow rays traced to the light for soft shadows.
    pub n_samples: usize,
    /// The participating media around the light.
    pub medium_interface: MediumInterface,
    /// Transform from light space to world space.
    pub light_to_world: Transform,
    /// Transform from world space to light space.
    pub world_to_light: Transform,
    /// Emitted radiance.
    pub l_emit: RGBSpectrum,
    /// The shape that gives the light its surface.
    pub shape: Shape,
    /// The surface area of the shape, cached at construction.
    pub area: Fx,
    /// Whether the light emits from both sides of its surface.
    pub two_sided: bool,
}

impl DiffuseAreaLight {
    /// Creates a diffuse area light over a shape.  The cached area is the
    /// shape's own surface area, and the light type is the area-light
    /// flag.
    pub fn new(
        light_to_world: Transform,
        medium_interface: MediumInterface,
        l_emit: RGBSpectrum,
        n_samples: usize,
        shape: Shape,
        two_sided: bool,
    ) -> (r: DiffuseAreaLight)
        ensures
            r.light_type.t == AREA_LIGHT,
            r.n_samples == n_samples,
            r.medium_interface == medium_interface,
            r.light_to_world == light_to_world,
            r.world_to_light.m == light_to_world.m_inv,
            r.world_to_light.m_inv == light_to_world.m,
            r.l_emit == l_emit,
            r.shape == shape,
            r.area.bits as int == spec_shape_area(shape),
            r.two_sided == two_sided,
    {
        let world_to_light = light_to_world.inverse();
        let area = shape.area();
        DiffuseAreaLight {
            light_type: LightType::new(AREA_LIGHT),
            n_samples,
            medium_interface,
            light_to_world,
            world_to_light,
            l_emit,
            shape,
            area,
            two_sided,
        }
    }

    /// The radiance emitted toward `w` from an interaction point on the
    /// light: the emitted spectrum on the emitting side or for a two-sided
    /// light, black otherwise.
    pub fn l(&self, intr: &Hit, w: &Vector3) -> (r: RGBSpectrum)
        ensures
            (self.two_sided || dot3(
                intr.n.x.bits as int, intr.n.y.bits as int, intr.n.z.bits as int,
                w.x.bits as int, w.y.bits as int, w.z.bits as int,
            ) > 0) ==> r == self.l_emit,
            !(self.two_sided || dot3(
                intr.n.x.bits as int, intr.n.y.bits as int, intr.n.z.bits as int,
                w.x.bits as int, w.y.bits as int, w.z.bits as int,
            ) > 0) ==> (r.c0.bits == 0 && r.c1.bits == 0 && r.c2.bits == 0),
    {
        if self.two_sided || intr.n.dot_vec(*w).bits > 0 {
            self.l_emit
        } else {
            RGBSpectrum::zero()
        }
    }
}

} // verus!
