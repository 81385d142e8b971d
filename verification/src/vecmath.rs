//! 3-D vectors, points and normals over fixed-point scalars.
//!
//! Each operation has an exact specification built from the scalar
//! primitives; products round toward negative infinity and sums saturate,
//! exactly as the scalar layer does.

use vstd::prelude::*;
use crate::fixed::{Fx, fx_add, fx_sub, fx_neg, fx_abs, fx_mul, fx_div, fx_sqrt, mul_i64_wide};
use crate::efloat::iclamp;

verus! {

/// A 3-D vector.
#[derive(Clone, Copy, PartialEq, Eq, Structural, Debug)]
pub struct Vector3 {
    /// X-coordinate.
    pub x: Fx,
    /// Y-coordinate.
    pub y: Fx,
    /// Z-coordinate.
    pub z: Fx,
}

/// A 3-D point.
#[derive(Clone, Copy, PartialEq, Eq, Structural, Debug)]
pub struct Point3 {
    /// X-coordinate.
    pub x: Fx,
    /// Y-coordinate.
    pub y: Fx,
    /// Z-coordinate.
    pub z: Fx,
}

/// A 3-D surface normal.  A normal is not a general vector: it transforms
/// by the inverse transpose of a transformation.
#[derive(Clone, Copy, PartialEq, Eq, Structural, Debug)]
pub struct Normal3 {
    /// X-coordinate.
    pub x: Fx,
    /// Y-coordinate.
    pub y: Fx,
    /// Z-coordinate.
    pub z: Fx,
}

/// A 2-D point, used for parametric coordinates.
#[derive(Clone, Copy, PartialEq, Eq, Structural, Debug)]
pub struct Point2 {
    /// X-coordinate.
    pub x: Fx,
    /// Y-coordinate.
    pub y: Fx,
}

/// A 2-D vector, used for filter radii.
#[derive(Clone, Copy, PartialEq, Eq, Structural, Debug)]
pub struct Vector2 {
    /// X-coordinate.
    pub x: Fx,
    /// Y-coordinate.
    pub y: Fx,
}

/// Builds a vector from raw bit values.
pub open spec fn sv3(x: int, y: int, z: int) -> Vector3 {
    Vector3 { x: (Fx { bits: x as i64 }), y: (Fx { bits: y as i64 }), z: (Fx { bits: z as i64 }) }
}

/// Builds a normal from raw bit values.
pub open spec fn sn3(x: int, y: int, z: int) -> Normal3 {
    Normal3 { x: (Fx { bits: x as i64 }), y: (Fx { bits: y as i64 }), z: (Fx { bits: z as i64 }) }
}

/// Builds a point from raw bit values.
pub open spec fn sp3(x: int, y: int, z: int) -> Point3 {
    Point3 { x: (Fx { bits: x as i64 }), y: (Fx { bits: y as i64 }), z: (Fx { bits: z as i64 }) }
}

/// Componentwise sum of two vectors, as a specification value.
pub open spec fn v3_add(a: Vector3, b: Vector3) -> Vector3 {
    sv3(
        fx_add(a.x.bits as int, b.x.bits as int),
        fx_add(a.y.bits as int, b.y.bits as int),
        fx_add(a.z.bits as int, b.z.bits as int),
    )
}

/// The opposite vector, as a specification value.
pub open spec fn v3_neg(a: Vector3) -> Vector3 {
    sv3(fx_neg(a.x.bits as int), fx_neg(a.y.bits as int), fx_neg(a.z.bits as int))
}

/// The dot product of two raw component triples at the doubled scale, each
/// product clamped into a wide safe range: for moderate components this is
/// the exact dot product, and its sign is exact.
pub open spec fn wide_dot3(ax: int, ay: int, az: int, bx: int, by: int, bz: int) -> int {
    iclamp(ax * bx, -0x10_0000_0000_0000_0000_0000_0000_0000,
        0x10_0000_0000_0000_0000_0000_0000_0000)
    + iclamp(ay * by, -0x10_0000_0000_0000_0000_0000_0000_0000,
        0x10_0000_0000_0000_0000_0000_0000_0000)
    + iclamp(az * bz, -0x10_0000_0000_0000_0000_0000_0000_0000,
        0x10_0000_0000_0000_0000_0000_0000_0000)
}

/// The wide dot product is symmetric.
pub proof fn lemma_wide_dot3_symmetric(
    ax: int, ay: int, az: int, bx: int, by: int, bz: int,
)
    ensures
        wide_dot3(ax, ay, az, bx, by, bz) == wide_dot3(bx, by, bz, ax, ay, az),
{
    assert(ax * bx == bx * ax) by (nonlinear_arith);
    assert(ay * by == by * ay) by (nonlinear_arith);
    assert(az * bz == bz * az) by (nonlinear_arith);
}

/// No component of a normal sits at the very bottom of the range, so its
/// negation is exact.
pub open spec fn no_min3(n: Normal3) -> bool {
    n.x.bits > i64::MIN && n.y.bits > i64::MIN && n.z.bits > i64::MIN
}

/// One clamped wide product of two scalars.
fn wide_prod(a: Fx, b: Fx) -> (r: i128)
    ensures
        r as int == iclamp(
            a.bits as int * b.bits as int,
            -0x10_0000_0000_0000_0000_0000_0000_0000,
            0x10_0000_0000_0000_0000_0000_0000_0000,
        ),
{
    let w: i128 = mul_i64_wide(a.bits, b.bits);
    if w > 0x10_0000_0000_0000_0000_0000_0000_0000 {
        0x10_0000_0000_0000_0000_0000_0000_0000
    } else if w < -0x10_0000_0000_0000_0000_0000_0000_0000 {
        -0x10_0000_0000_0000_0000_0000_0000_0000
    } else {
        w
    }
}

/// The fixed-point dot product of raw component triples.
pub open spec fn dot3(ax: int, ay: int, az: int, bx: int, by: int, bz: int) -> int {
    fx_add(fx_add(fx_mul(ax, bx), fx_mul(ay, by)), fx_mul(az, bz))
}

/// The fixed-point squared length of a raw component triple.
pub open spec fn len_sq3(x: int, y: int, z: int) -> int {
    dot3(x, y, z, x, y, z)
}

/// The fixed-point cross product of raw component triples.
pub open spec fn cross3(ax: int, ay: int, az: int, bx: int, by: int, bz: int) -> Vector3 {
    sv3(
        fx_sub(fx_mul(ay, bz), fx_mul(az, by)),
        fx_sub(fx_mul(az, bx), fx_mul(ax, bz)),
        fx_sub(fx_mul(ax, by), fx_mul(ay, bx)),
    )
}

/// Componentwise scaling of a raw component triple.
pub open spec fn scale3(x: int, y: int, z: int, f: int) -> Vector3 {
    sv3(fx_mul(x, f), fx_mul(y, f), fx_mul(z, f))
}

/// The normalized triple: each component divided by the fixed-point length,
/// or the zero triple when the squared length underflows to zero.
pub open spec fn normalize3(x: int, y: int, z: int) -> Vector3 {
    let l = fx_sqrt(len_sq3(x, y, z));
    if l == 0 {
        sv3(0, 0, 0)
    } else {
        sv3(fx_div(x, l), fx_div(y, l), fx_div(z, l))
    }
}

/// Creates a new 3-D vector.
pub fn vector3(x: Fx, y: Fx, z: Fx) -> (r: Vector3)
    ensures
        r == (Vector3 { x, y, z }),
{
    Vector3 { x, y, z }
}

/// Creates a new 3-D point.
pub fn point3(x: Fx, y: Fx, z: Fx) -> (r: Point3)
    ensures
        r == (Point3 { x, y, z }),
{
    Point3 { x, y, z }
}

/// Creates a new 3-D normal.
pub fn normal3(x: Fx, y: Fx, z: Fx) -> (r: Normal3)
    ensures
        r == (Normal3 { x, y, z }),
{
    Normal3 { x, y, z }
}

/// Creates a new 3-D zero normal.
pub fn zero_normal3() -> (r: Normal3)
    ensures
        r == sn3(0, 0, 0),
{
    Normal3 { x: Fx { bits: 0 }, y: Fx { bits: 0 }, z: Fx { bits: 0 } }
}

/// Creates a new 2-D point.
pub fn point2(x: Fx, y: Fx) -> (r: Point2)
    ensures
        r == (Point2 { x, y }),
{
    Point2 { x, y }
}

/// Creates a new 2-D vector.
pub fn vector2(x: Fx, y: Fx) -> (r: Vector2)
    ensures
        r == (Vector2 { x, y }),
{
    Vector2 { x, y }
}

impl Vector3 {
    /// Componentwise sum.
    pub fn add(self, o: Vector3) -> (r: Vector3)
        ensures
            r == sv3(
                fx_add(self.x.bits as int, o.x.bits as int),
                fx_add(self.y.bits as int, o.y.bits as int),
                fx_add(self.z.bits as int, o.z.bits as int),
            ),
    {
        Vector3 { x: self.x.add(o.x), y: self.y.add(o.y), z: self.z.add(o.z) }
    }

    /// Componentwise difference.
    pub fn sub(self, o: Vector3) -> (r: Vector3)
        ensures
            r == sv3(
                fx_sub(self.x.bits as int, o.x.bits as int),
                fx_sub(self.y.bits as int, o.y.bits as int),
                fx_sub(self.z.bits as int, o.z.bits as int),
            ),
    {
        Vector3 { x: self.x.sub(o.x), y: self.y.sub(o.y), z: self.z.sub(o.z) }
    }

    /// The opposite vector.
    pub fn neg(self) -> (r: Vector3)
        ensures
            r == sv3(
                fx_neg(self.x.bits as int),
                fx_neg(self.y.bits as int),
                fx_neg(self.z.bits as int),
            ),
    {
        Vector3 { x: self.x.neg(), y: self.y.neg(), z: self.z.neg() }
    }

    /// The vector scaled by `f`.
    pub fn scale(self, f: Fx) -> (r: Vector3)
        ensures
            r == scale3(self.x.bits as int, self.y.bits as int, self.z.bits as int, f.bits as int),
    {
        Vector3 { x: self.x.mul(f), y: self.y.mul(f), z: self.z.mul(f) }
    }

    /// Componentwise absolute value.
    pub fn abs(self) -> (r: Vector3)
        ensures
            r == sv3(
                fx_abs(self.x.bits as int),
                fx_abs(self.y.bits as int),
                fx_abs(self.z.bits as int),
            ),
    {
        Vector3 { x: self.x.abs(), y: self.y.abs(), z: self.z.abs() }
    }

    /// The dot product with another vector.
    pub fn dot(self, o: Vector3) -> (r: Fx)
        ensures
            r.bits as int == dot3(
                self.x.bits as int, self.y.bits as int, self.z.bits as int,
                o.x.bits as int, o.y.bits as int, o.z.bits as int,
            ),
    {
        self.x.mul(o.x).add(self.y.mul(o.y)).add(self.z.mul(o.z))
    }

    /// The cross product with another vector.
    pub fn cross(self, o: Vector3) -> (r: Vector3)
        ensures
            r == cross3(
                self.x.bits as int, self.y.bits as int, self.z.bits as int,
                o.x.bits as int, o.y.bits as int, o.z.bits as int,
            ),
    {
        Vector3 {
            x: self.y.mul(o.z).sub(self.z.mul(o.y)),
            y: self.z.mul(o.x).sub(self.x.mul(o.z)),
            z: self.x.mul(o.y).sub(self.y.mul(o.x)),
        }
    }

    /// The square of the vector's length.
    pub fn length_squared(self) -> (r: Fx)
        ensures
            r.bits as int == len_sq3(self.x.bits as int, self.y.bits as int, self.z.bits as int),
    {
        self.dot(self)
    }

    /// The vector's length.
    pub fn length(self) -> (r: Fx)
        ensures
            r.bits as int == fx_sqrt(
                len_sq3(self.x.bits as int, self.y.bits as int, self.z.bits as int),
            ),
            r.bits >= 0,
    {
        self.length_squared().sqrt()
    }

    /// The unit vector in the same direction, or the zero vector when the
    /// squared length underflows to zero (a defensive guard: the zero
    /// vector has no direction).
    pub fn normalize_or_zero(self) -> (r: Vector3)
        ensures
            r == normalize3(self.x.bits as int, self.y.bits as int, self.z.bits as int),
    {
        let l = self.length();
        if l.bits == 0 {
            Vector3 { x: Fx { bits: 0 }, y: Fx { bits: 0 }, z: Fx { bits: 0 } }
        } else {
            Vector3 { x: self.x.div(l), y: self.y.div(l), z: self.z.div(l) }
        }
    }

    /// The unit vector in the same direction.
    pub fn normalize(self) -> (r: Vector3)
        requires
            fx_sqrt(len_sq3(self.x.bits as int, self.y.bits as int, self.z.bits as int)) != 0,
        ensures
            r == normalize3(self.x.bits as int, self.y.bits as int, self.z.bits as int),
    {
        self.normalize_or_zero()
    }
}

impl Point3 {
    /// The point displaced by a vector.
    pub fn add_vec(self, o: Vector3) -> (r: Point3)
        ensures
            r == sp3(
                fx_add(self.x.bits as int, o.x.bits as int),
                fx_add(self.y.bits as int, o.y.bits as int),
                fx_add(self.z.bits as int, o.z.bits as int),
            ),
    {
        Point3 { x: self.x.add(o.x), y: self.y.add(o.y), z: self.z.add(o.z) }
    }

    /// The displacement from another point to this one.
    pub fn sub_point(self, o: Point3) -> (r: Vector3)
        ensures
            r == sv3(
                fx_sub(self.x.bits as int, o.x.bits as int),
                fx_sub(self.y.bits as int, o.y.bits as int),
                fx_sub(self.z.bits as int, o.z.bits as int),
            ),
    {
        Vector3 { x: self.x.sub(o.x), y: self.y.sub(o.y), z: self.z.sub(o.z) }
    }

    /// The point's coordinates as a vector from the origin.
    pub fn to_vec(self) -> (r: Vector3)
        ensures
            r == (Vector3 { x: self.x, y: self.y, z: self.z }),
    {
        Vector3 { x: self.x, y: self.y, z: self.z }
    }

    /// The distance to another point.
    pub fn distance(self, o: Point3) -> (r: Fx)
        ensures
            r.bits as int == fx_sqrt(
                len_sq3(
                    fx_sub(self.x.bits as int, o.x.bits as int),
                    fx_sub(self.y.bits as int, o.y.bits as int),
                    fx_sub(self.z.bits as int, o.z.bits as int),
                ),
            ),
            r.bits >= 0,
    {
        self.sub_point(o).length()
    }
}

impl Normal3 {
    /// The normal with the direction of a vector.
    pub fn from_vec(v: Vector3) -> (r: Normal3)
        ensures
            r == (Normal3 { x: v.x, y: v.y, z: v.z }),
    {
        Normal3 { x: v.x, y: v.y, z: v.z }
    }

    /// The normal's direction as a vector.
    pub fn to_vec(self) -> (r: Vector3)
        ensures
            r == (Vector3 { x: self.x, y: self.y, z: self.z }),
    {
        Vector3 { x: self.x, y: self.y, z: self.z }
    }

    /// The opposite normal.
    pub fn neg(self) -> (r: Normal3)
        ensures
            r == sn3(
                fx_neg(self.x.bits as int),
                fx_neg(self.y.bits as int),
                fx_neg(self.z.bits as int),
            ),
    {
        Normal3 { x: self.x.neg(), y: self.y.neg(), z: self.z.neg() }
    }

    /// The dot product with a vector.
    pub fn dot_vec(self, o: Vector3) -> (r: Fx)
        ensures
            r.bits as int == dot3(
                self.x.bits as int, self.y.bits as int, self.z.bits as int,
                o.x.bits as int, o.y.bits as int, o.z.bits as int,
            ),
    {
        self.to_vec().dot(o)
    }

    /// The dot product with another normal.
    pub fn dot(self, o: Normal3) -> (r: Fx)
        ensures
            r.bits as int == dot3(
                self.x.bits as int, self.y.bits as int, self.z.bits as int,
                o.x.bits as int, o.y.bits as int, o.z.bits as int,
            ),
    {
        self.to_vec().dot(o.to_vec())
    }

    /// The square of the normal's length.
    pub fn length_squared(self) -> (r: Fx)
        ensures
            r.bits as int == len_sq3(self.x.bits as int, self.y.bits as int, self.z.bits as int),
    {
        self.to_vec().length_squared()
    }

    /// The normal's length.
    pub fn length(self) -> (r: Fx)
        ensures
            r.bits as int == fx_sqrt(
                len_sq3(self.x.bits as int, self.y.bits as int, self.z.bits as int),
            ),
    {
        self.to_vec().length()
    }

    /// The unit normal in the same direction.
    pub fn normalize(self) -> (r: Normal3)
        requires
            fx_sqrt(len_sq3(self.x.bits as int, self.y.bits as int, self.z.bits as int)) != 0,
        ensures
            ({
                let v = normalize3(self.x.bits as int, self.y.bits as int, self.z.bits as int);
                r == (Normal3 { x: v.x, y: v.y, z: v.z })
            }),
    {
        Normal3::from_vec(self.to_vec().normalize())
    }

    /// The normal flipped, if needed, so that it lies in the same
    /// hemisphere as the reference vector.  The test uses the exact wide
    /// dot product, so whenever the normal's components are clear of the
    /// very bottom of the range (and the flip therefore exact), the
    /// result's dot product with the reference is never negative.
    pub fn face_forward(self, v: Vector3) -> (r: Normal3)
        ensures
            wide_dot3(
                self.x.bits as int, self.y.bits as int, self.z.bits as int,
                v.x.bits as int, v.y.bits as int, v.z.bits as int,
            ) < 0 ==> r == self.neg_spec(),
            wide_dot3(
                self.x.bits as int, self.y.bits as int, self.z.bits as int,
                v.x.bits as int, v.y.bits as int, v.z.bits as int,
            ) >= 0 ==> r == self,
            no_min3(self) ==> wide_dot3(
                r.x.bits as int, r.y.bits as int, r.z.bits as int,
                v.x.bits as int, v.y.bits as int, v.z.bits as int,
            ) >= 0,
    {
        let p1 = wide_prod(self.x, v.x);
        let p2 = wide_prod(self.y, v.y);
        let p3 = wide_prod(self.z, v.z);
        let d: i128 = p1 + p2 + p3;
        if d < 0 {
            let r = self.neg();
            proof {
                if no_min3(self) {
                    assert((-(self.x.bits as int)) * (v.x.bits as int)
                        == -(self.x.bits as int * v.x.bits as int)) by (nonlinear_arith);
                    assert((-(self.y.bits as int)) * (v.y.bits as int)
                        == -(self.y.bits as int * v.y.bits as int)) by (nonlinear_arith);
                    assert((-(self.z.bits as int)) * (v.z.bits as int)
                        == -(self.z.bits as int * v.z.bits as int)) by (nonlinear_arith);
                }
            }
            r
        } else {
            self
        }
    }

    /// The opposite normal, as a specification value.
    pub open spec fn neg_spec(self) -> Normal3 {
        sn3(
            fx_neg(self.x.bits as int),
            fx_neg(self.y.bits as int),
            fx_neg(self.z.bits as int),
        )
    }
}

} // verus!
