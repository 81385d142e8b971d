//! Textures over the surface parametrization.

use vstd::prelude::*;
use crate::fixed::{Fx, SCALE, fx_add, fx_mul};
use crate::interaction::SurfaceInteraction;
use crate::spectrum::RGBSpectrum;

verus! {

/// An affine mapping from surface `(u, v)` coordinates to texture
/// `(s, t)` coordinates.
#[derive(Clone, Copy, PartialEq, Eq, Structural, Debug)]
pub struct TextureMapping2D {
    /// Scale of `u`.
    pub su: Fx,
    /// Scale of `v`.
    pub sv: Fx,
    /// Offset of `s`.
    pub du: Fx,
    /// Offset of `t`.
    pub dv: Fx,
}

/// One mapped texture coordinate: `scale * coordinate + offset`.
pub open spec fn spec_map_coord(scale: int, coord: int, offset: int) -> int {
    fx_add(fx_mul(scale, coord), offset)
}

impl TextureMapping2D {
    /// The identity mapping: texture coordinates equal surface
    /// coordinates.
    pub fn identity() -> (r: TextureMapping2D)
        ensures
            r.su.bits == SCALE,
            r.sv.bits == SCALE,
            r.du.bits == 0,
            r.dv.bits == 0,
    {
        TextureMapping2D {
            su: Fx { bits: SCALE },
            sv: Fx { bits: SCALE },
            du: Fx { bits: 0 },
            dv: Fx { bits: 0 },
        }
    }

    /// Maps the parametrization of an interaction to texture coordinates.
    pub fn map(&self, si: &SurfaceInteraction) -> (r: (Fx, Fx))
        ensures
            r.0.bits as int == spec_map_coord(
                self.su.bits as int, si.uv.x.bits as int, self.du.bits as int,
            ),
            r.1.bits as int == spec_map_coord(
                self.sv.bits as int, si.uv.y.bits as int, self.dv.bits as int,
            ),
    {
        (self.su.mul(si.uv.x).add(self.du), self.sv.mul(si.uv.y).add(self.dv))
    }
}

/// A texture that shows the surface parametrization itself: the
/// fractional parts of the mapped coordinates become the red and green
/// channels.
#[derive(Clone, Copy, Debug)]
pub struct UVTexture {
    /// The 2-D mapping applied before sampling.
    pub mapping: TextureMapping2D,
}

impl UVTexture {
    /// Creates a new parametrization texture over a mapping.
    pub fn new(mapping: TextureMapping2D) -> (r: UVTexture)
        ensures
            r.mapping == mapping,
    {
        UVTexture { mapping }
    }

    /// Evaluates the texture at a surface interaction: the fractional
    /// parts of the mapped coordinates, which always lie in `[0, 1)`, as
    /// the red and green channels, with a black blue channel.
    pub fn evaluate(&self, si: &SurfaceInteraction) -> (r: RGBSpectrum)
        ensures
            r.c0.bits as int == spec_map_coord(
                self.mapping.su.bits as int, si.uv.x.bits as int, self.mapping.du.bits as int,
            ) % (SCALE as int),
            r.c1.bits as int == spec_map_coord(
                self.mapping.sv.bits as int, si.uv.y.bits as int, self.mapping.dv.bits as int,
            ) % (SCALE as int),
            r.c2.bits == 0,
            0 <= r.c0.bits < SCALE,
            0 <= r.c1.bits < SCALE,
    {
        let (s, t) = self.mapping.map(si);
        RGBSpectrum::from_rgb(s.fract(), t.fract(), Fx { bits: 0 })
    }
}

} // verus!
