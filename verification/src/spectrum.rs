//! A three-channel color spectrum over fixed-point scalars.

use vstd::prelude::*;
use crate::fixed::Fx;

verus! {

/// A color as three sampled spectral values.
#[derive(Clone, Copy, PartialEq, Eq, Structural, Debug)]
pub struct RGBSpectrum {
    /// The red channel.
    pub c0: Fx,
    /// The green channel.
    pub c1: Fx,
    /// The blue channel.
    pub c2: Fx,
}

impl RGBSpectrum {
    /// A spectrum with a constant value across all channels.
    pub fn new(v: Fx) -> (r: RGBSpectrum)
        ensures
            r.c0 == v,
            r.c1 == v,
            r.c2 == v,
    {
        RGBSpectrum { c0: v, c1: v, c2: v }
    }

    /// A spectrum from three channel values.
    pub fn from_rgb(c0: Fx, c1: Fx, c2: Fx) -> (r: RGBSpectrum)
        ensures
            r.c0 == c0,
            r.c1 == c1,
            r.c2 == c2,
    {
        RGBSpectrum { c0, c1, c2 }
    }

    /// The black spectrum.
    pub fn zero() -> (r: RGBSpectrum)
        ensures
            r.c0.bits == 0,
            r.c1.bits == 0,
            r.c2.bits == 0,
    {
        RGBSpectrum { c0: Fx { bits: 0 }, c1: Fx { bits: 0 }, c2: Fx { bits: 0 } }
    }

    /// Whether every channel is zero.
    pub fn is_black(&self) -> (r: bool)
        ensures
            r == (self.c0.bits == 0 && self.c1.bits == 0 && self.c2.bits == 0),
    {
        self.c0.bits == 0 && self.c1.bits == 0 && self.c2.bits == 0
    }
}

} // verus!
