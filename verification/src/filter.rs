//! Reconstruction filters centered at the origin.

use vstd::prelude::*;
use crate::fixed::{Fx, SCALE, fx_mul, fx_sub, fx_div};
use crate::efloat::imax;
use crate::vecmath::{Vector2, Point2};
use crate::transcend::{exp_neg, spec_exp_neg};

verus! {

/// Data shared by filters centered at the origin.
#[derive(Clone, Copy, Debug)]
pub struct FilterData {
    /// Radius of the filter in x and y; beyond it the filter is zero.
    pub radius: Vector2,
    /// Reciprocal of the filter radii.
    pub inv_radius: Vector2,
}

impl FilterData {
    /// Creates filter data from the radii; the reciprocals are cached.
    /// Zero radii are a construction-time precondition.
    pub fn new(radius: Vector2) -> (r: FilterData)
        requires
            radius.x.bits != 0,
            radius.y.bits != 0,
        ensures
            r.radius == radius,
            r.inv_radius.x.bits as int == fx_div(SCALE as int, radius.x.bits as int),
            r.inv_radius.y.bits as int == fx_div(SCALE as int, radius.y.bits as int),
    {
        let one = Fx { bits: SCALE };
        FilterData {
            radius,
            inv_radius: Vector2 { x: one.div(radius.x), y: one.div(radius.y) },
        }
    }
}

/// The filter interface: parameters, and the value at a sample point
/// relative to the filter's center.
pub trait Filter {
    /// Returns the filter parameters.
    fn get_data(&self) -> &FilterData;

    /// Returns the value of the filter at a point, which should be within
    /// the filter's extent.
    fn evaluate(&self, p: &Point2) -> Fx;
}

/// One axis of the Gaussian bump: the decaying exponential of the falloff
/// times the squared distance, shifted down by the cutoff value and
/// clamped at zero.  A negative product, possible only for a negative
/// falloff rate, clamps to zero before the exponential.
pub open spec fn spec_gaussian(alpha: int, d: int, expv: int) -> int {
    imax(
        fx_sub(spec_exp_neg(imax(fx_mul(alpha, fx_mul(d, d)), 0)), expv),
        0,
    )
}

/// A radially symmetric Gaussian bump centered at the pixel.
#[derive(Clone, Copy, Debug)]
pub struct GaussianFilter {
    /// Filter data.
    pub data: FilterData,
    /// Falloff rate of the bump.
    pub alpha: Fx,
    /// The bump value at the x radius, where the filter reaches zero.
    pub exp_x: Fx,
    /// The bump value at the y radius, where the filter reaches zero.
    pub exp_y: Fx,
}

impl GaussianFilter {
    /// Creates a Gaussian filter with the given radii and falloff rate.
    pub fn new(radius: Vector2, alpha: Fx) -> (r: GaussianFilter)
        requires
            radius.x.bits != 0,
            radius.y.bits != 0,
        ensures
            r.data.radius == radius,
            r.alpha == alpha,
            r.exp_x.bits as int == spec_exp_neg(
                imax(fx_mul(alpha.bits as int, fx_mul(radius.x.bits as int,
                    radius.x.bits as int)), 0),
            ),
            r.exp_y.bits as int == spec_exp_neg(
                imax(fx_mul(alpha.bits as int, fx_mul(radius.y.bits as int,
                    radius.y.bits as int)), 0),
            ),
            0 <= r.exp_x.bits <= SCALE,
            0 <= r.exp_y.bits <= SCALE,
    {
        GaussianFilter {
            data: FilterData::new(radius),
            alpha,
            exp_x: gaussian_exp(alpha, radius.x),
            exp_y: gaussian_exp(alpha, radius.y),
        }
    }

    /// One axis of the Gaussian: the bump at distance `d` minus the cutoff
    /// value `expv`, clamped at zero.
    pub fn gaussian(&self, d: Fx, expv: Fx) -> (r: Fx)
        ensures
            r.bits as int == spec_gaussian(self.alpha.bits as int, d.bits as int,
                expv.bits as int),
            r.bits >= 0,
    {
        gaussian_exp(self.alpha, d).sub(expv).max(Fx { bits: 0 })
    }

    /// The filter value at a sample point: the product of the two axes.
    pub fn filter_value(&self, p: &Point2) -> (r: Fx)
        ensures
            r.bits as int == fx_mul(
                spec_gaussian(self.alpha.bits as int, p.x.bits as int, self.exp_x.bits as int),
                spec_gaussian(self.alpha.bits as int, p.y.bits as int, self.exp_y.bits as int),
            ),
    {
        self.gaussian(p.x, self.exp_x).mul(self.gaussian(p.y, self.exp_y))
    }
}

/// The decaying exponential of the falloff rate times a squared distance,
/// with the product clamped at zero first.
fn gaussian_exp(alpha: Fx, d: Fx) -> (r: Fx)
    ensures
        r.bits as int == spec_exp_neg(
            imax(fx_mul(alpha.bits as int, fx_mul(d.bits as int, d.bits as int)), 0),
        ),
        0 <= r.bits <= SCALE,
{
    let x = alpha.mul(d.mul(d));
    let xc = if x.bits < 0 {
        Fx { bits: 0 }
    } else {
        x
    };
    exp_neg(xc)
}

impl Filter for GaussianFilter {
    /// Returns the filter parameters.
    fn get_data(&self) -> &FilterData {
        &self.data
    }

    /// Returns the value of the filter at a point.
    fn evaluate(&self, p: &Point2) -> Fx {
        self.filter_value(p)
    }
}

} // verus!
