//! Affine transforms between object and world space.
//!
//! A `Transform` stores a matrix together with its inverse; shapes are
//! constructed with both, so no inversion is ever computed here.  The
//! handedness flag is derived once from the determinant of the linear part.
//! Applying a transform to a point also yields a conservative positional
//! error bound, and the lemmas at the end of this module prove that bound
//! sound against exact integer arithmetic.

use vstd::prelude::*;
use vstd::arithmetic::div_mod::lemma_fundamental_div_mod;
use crate::fixed::{
    Fx, SCALE, ceil_div, fx_add, fx_sub, fx_abs, fx_mul, fx_mul_up, moderate,
};
use crate::vecmath::{Vector3, Point3, Normal3, sv3, sp3, sn3};
use crate::efloat::lemma_floor_le_ceil;

verus! {

/// A 4 x 4 matrix in row-major order; the last row is expected to be
/// `0 0 0 1` for an affine transform.
#[derive(Clone, Copy, PartialEq, Eq, Structural, Debug)]
pub struct Matrix4 {
    pub m00: Fx, pub m01: Fx, pub m02: Fx, pub m03: Fx,
    pub m10: Fx, pub m11: Fx, pub m12: Fx, pub m13: Fx,
    pub m20: Fx, pub m21: Fx, pub m22: Fx, pub m23: Fx,
    pub m30: Fx, pub m31: Fx, pub m32: Fx, pub m33: Fx,
}

/// One affine row applied to a point: `a x + b y + c z + d`.
pub open spec fn row_apply(a: int, b: int, c: int, d: int, x: int, y: int, z: int) -> int {
    fx_add(fx_add(fx_add(fx_mul(a, x), fx_mul(b, y)), fx_mul(c, z)), d)
}

/// The determinant of the upper-left 3 x 3 part, at the fixed-point scale.
pub open spec fn spec_det3(m: Matrix4) -> int {
    fx_add(
        fx_sub(
            fx_mul(m.m00.bits as int, fx_sub(
                fx_mul(m.m11.bits as int, m.m22.bits as int),
                fx_mul(m.m12.bits as int, m.m21.bits as int),
            )),
            fx_mul(m.m01.bits as int, fx_sub(
                fx_mul(m.m10.bits as int, m.m22.bits as int),
                fx_mul(m.m12.bits as int, m.m20.bits as int),
            )),
        ),
        fx_mul(m.m02.bits as int, fx_sub(
            fx_mul(m.m10.bits as int, m.m21.bits as int),
            fx_mul(m.m11.bits as int, m.m20.bits as int),
        )),
    )
}

/// A point carried through the matrix.
pub open spec fn spec_xform_point(m: Matrix4, p: Point3) -> Point3 {
    sp3(
        row_apply(
            m.m00.bits as int, m.m01.bits as int, m.m02.bits as int, m.m03.bits as int,
            p.x.bits as int, p.y.bits as int, p.z.bits as int,
        ),
        row_apply(
            m.m10.bits as int, m.m11.bits as int, m.m12.bits as int, m.m13.bits as int,
            p.x.bits as int, p.y.bits as int, p.z.bits as int,
        ),
        row_apply(
            m.m20.bits as int, m.m21.bits as int, m.m22.bits as int, m.m23.bits as int,
            p.x.bits as int, p.y.bits as int, p.z.bits as int,
        ),
    )
}

/// A vector carried through the matrix: no translation.
pub open spec fn spec_xform_vector(m: Matrix4, v: Vector3) -> Vector3 {
    sv3(
        row_apply(
            m.m00.bits as int, m.m01.bits as int, m.m02.bits as int, 0,
            v.x.bits as int, v.y.bits as int, v.z.bits as int,
        ),
        row_apply(
            m.m10.bits as int, m.m11.bits as int, m.m12.bits as int, 0,
            v.x.bits as int, v.y.bits as int, v.z.bits as int,
        ),
        row_apply(
            m.m20.bits as int, m.m21.bits as int, m.m22.bits as int, 0,
            v.x.bits as int, v.y.bits as int, v.z.bits as int,
        ),
    )
}

/// A normal carried through the transpose of the matrix (the caller passes
/// the inverse, so this is the inverse transpose).
pub open spec fn spec_xform_normal(minv: Matrix4, n: Normal3) -> Normal3 {
    sn3(
        row_apply(
            minv.m00.bits as int, minv.m10.bits as int, minv.m20.bits as int, 0,
            n.x.bits as int, n.y.bits as int, n.z.bits as int,
        ),
        row_apply(
            minv.m01.bits as int, minv.m11.bits as int, minv.m21.bits as int, 0,
            n.x.bits as int, n.y.bits as int, n.z.bits as int,
        ),
        row_apply(
            minv.m02.bits as int, minv.m12.bits as int, minv.m22.bits as int, 0,
            n.x.bits as int, n.y.bits as int, n.z.bits as int,
        ),
    )
}

/// The conservative error of one transformed component: the row of
/// absolute entries times the incoming error, rounded up, plus three units
/// for the rounding of the row application itself.
pub open spec fn err_row(a: int, b: int, c: int, ex: int, ey: int, ez: int) -> int {
    fx_add(
        fx_add(
            fx_add(fx_mul_up(fx_abs(a), ex), fx_mul_up(fx_abs(b), ey)),
            fx_mul_up(fx_abs(c), ez),
        ),
        3,
    )
}

/// The propagated error bounds of a transformed point.
pub open spec fn spec_xform_err(m: Matrix4, e: Vector3) -> Vector3 {
    sv3(
        err_row(
            m.m00.bits as int, m.m01.bits as int, m.m02.bits as int,
            e.x.bits as int, e.y.bits as int, e.z.bits as int,
        ),
        err_row(
            m.m10.bits as int, m.m11.bits as int, m.m12.bits as int,
            e.x.bits as int, e.y.bits as int, e.z.bits as int,
        ),
        err_row(
            m.m20.bits as int, m.m21.bits as int, m.m22.bits as int,
            e.x.bits as int, e.y.bits as int, e.z.bits as int,
        ),
    )
}

impl Matrix4 {
    /// The identity matrix.
    pub fn identity() -> (r: Matrix4)
        ensures
            r == Matrix4::spec_identity(),
    {
        let o = Fx { bits: SCALE };
        let z = Fx { bits: 0 };
        Matrix4 {
            m00: o, m01: z, m02: z, m03: z,
            m10: z, m11: o, m12: z, m13: z,
            m20: z, m21: z, m22: o, m23: z,
            m30: z, m31: z, m32: z, m33: o,
        }
    }

    /// The identity matrix, as a specification value.
    pub open spec fn spec_identity() -> Matrix4 {
        Matrix4 {
            m00: (Fx { bits: SCALE }), m01: (Fx { bits: 0 }),
            m02: (Fx { bits: 0 }), m03: (Fx { bits: 0 }),
            m10: (Fx { bits: 0 }), m11: (Fx { bits: SCALE }),
            m12: (Fx { bits: 0 }), m13: (Fx { bits: 0 }),
            m20: (Fx { bits: 0 }), m21: (Fx { bits: 0 }),
            m22: (Fx { bits: SCALE }), m23: (Fx { bits: 0 }),
            m30: (Fx { bits: 0 }), m31: (Fx { bits: 0 }),
            m32: (Fx { bits: 0 }), m33: (Fx { bits: SCALE }),
        }
    }

    /// The determinant of the linear part, at the fixed-point scale.
    pub fn det3(self) -> (r: Fx)
        ensures
            r.bits as int == spec_det3(self),
    {
        let c0 = self.m11.mul(self.m22).sub(self.m12.mul(self.m21));
        let c1 = self.m10.mul(self.m22).sub(self.m12.mul(self.m20));
        let c2 = self.m10.mul(self.m21).sub(self.m11.mul(self.m20));
        self.m00.mul(c0).sub(self.m01.mul(c1)).add(self.m02.mul(c2))
    }
}

/// A pair of mutually inverse matrices with the cached handedness flag.
#[derive(Clone, Copy, PartialEq, Eq, Structural, Debug)]
pub struct Transform {
    /// The forward matrix.
    pub m: Matrix4,
    /// The inverse matrix, supplied at construction.
    pub m_inv: Matrix4,
    /// Whether the forward matrix swaps handedness: its linear part has a
    /// negative determinant.
    pub swaps_handedness: bool,
}

/// The handedness flag agrees with the determinant of the forward matrix.
pub open spec fn transform_wf(t: Transform) -> bool {
    t.swaps_handedness == (spec_det3(t.m) < 0)
}

/// Creates a transform from a matrix and its inverse.  The caller supplies
/// the inverse; pairing a matrix with anything but its inverse is a
/// construction-time error of the scene, not checked here.
pub fn transform(m: Matrix4, m_inv: Matrix4) -> (r: Transform)
    ensures
        r.m == m,
        r.m_inv == m_inv,
        transform_wf(r),
{
    let d = m.det3();
    Transform { m, m_inv, swaps_handedness: d.bits < 0 }
}

impl Transform {
    /// The identity transform.
    pub fn identity() -> (r: Transform)
        ensures
            r.m == Matrix4::spec_identity(),
            r.m_inv == Matrix4::spec_identity(),
            transform_wf(r),
    {
        transform(Matrix4::identity(), Matrix4::identity())
    }

    /// The inverse transform: the pair swapped.
    pub fn inverse(self) -> (r: Transform)
        ensures
            r.m == self.m_inv,
            r.m_inv == self.m,
            transform_wf(r),
    {
        transform(self.m_inv, self.m)
    }

    /// Carries a point from this transform's source space to its target
    /// space.
    pub fn transform_point(self, p: Point3) -> (r: Point3)
        ensures
            r == spec_xform_point(self.m, p),
    {
        let x = row_point(self.m.m00, self.m.m01, self.m.m02, self.m.m03, p);
        let y = row_point(self.m.m10, self.m.m11, self.m.m12, self.m.m13, p);
        let z = row_point(self.m.m20, self.m.m21, self.m.m22, self.m.m23, p);
        Point3 { x, y, z }
    }

    /// Carries a vector: the translation column is ignored.
    pub fn transform_vector(self, v: Vector3) -> (r: Vector3)
        ensures
            r == spec_xform_vector(self.m, v),
    {
        let zero = Fx { bits: 0 };
        let p = Point3 { x: v.x, y: v.y, z: v.z };
        let x = row_point(self.m.m00, self.m.m01, self.m.m02, zero, p);
        let y = row_point(self.m.m10, self.m.m11, self.m.m12, zero, p);
        let z = row_point(self.m.m20, self.m.m21, self.m.m22, zero, p);
        Vector3 { x, y, z }
    }

    /// Carries a normal, through the transpose of the stored inverse.
    pub fn transform_normal(self, n: Normal3) -> (r: Normal3)
        ensures
            r == spec_xform_normal(self.m_inv, n),
    {
        let zero = Fx { bits: 0 };
        let p = Point3 { x: n.x, y: n.y, z: n.z };
        let x = row_point(self.m_inv.m00, self.m_inv.m10, self.m_inv.m20, zero, p);
        let y = row_point(self.m_inv.m01, self.m_inv.m11, self.m_inv.m21, zero, p);
        let z = row_point(self.m_inv.m02, self.m_inv.m12, self.m_inv.m22, zero, p);
        Normal3 { x, y, z }
    }

    /// Carries a point together with its positional error bound: the new
    /// bound covers the transformed incoming bound plus the rounding of the
    /// row applications, as `lemma_transform_error_sound` proves.
    pub fn transform_point_with_err(self, p: Point3, pe: Vector3) -> (r: (Point3, Vector3))
        ensures
            r.0 == spec_xform_point(self.m, p),
            r.1 == spec_xform_err(self.m, pe),
    {
        let q = self.transform_point(p);
        let ex = row_err(self.m.m00, self.m.m01, self.m.m02, pe);
        let ey = row_err(self.m.m10, self.m.m11, self.m.m12, pe);
        let ez = row_err(self.m.m20, self.m.m21, self.m.m22, pe);
        (q, Vector3 { x: ex, y: ey, z: ez })
    }
}

/// One affine row applied to a point.
fn row_point(a: Fx, b: Fx, c: Fx, d: Fx, p: Point3) -> (r: Fx)
    ensures
        r.bits as int == row_apply(
            a.bits as int, b.bits as int, c.bits as int, d.bits as int,
            p.x.bits as int, p.y.bits as int, p.z.bits as int,
        ),
{
    a.mul(p.x).add(b.mul(p.y)).add(c.mul(p.z)).add(d)
}

/// The error bound of one transformed component.
fn row_err(a: Fx, b: Fx, c: Fx, e: Vector3) -> (r: Fx)
    ensures
        r.bits as int == err_row(
            a.bits as int, b.bits as int, c.bits as int,
            e.x.bits as int, e.y.bits as int, e.z.bits as int,
        ),
{
    a.abs().mul_up(e.x).add(b.abs().mul_up(e.y)).add(c.abs().mul_up(e.z)).add(Fx { bits: 3 })
}

/// For moderate operands the fixed-point product does not saturate and
/// brackets the exact product within one rounding unit.
pub proof fn lemma_fx_mul_brackets(a: int, b: int)
    requires
        moderate(a),
        moderate(b),
    ensures
        fx_mul(a, b) == (a * b) / (SCALE as int),
        -0x1000_0000_0000_0000 <= fx_mul(a, b) <= 0x1000_0000_0000_0000,
        SCALE as int * fx_mul(a, b) <= a * b < SCALE as int * (fx_mul(a, b) + 1),
        a * b <= SCALE as int * fx_mul_up(a, b),
        fx_mul_up(a, b) <= fx_mul(a, b) + 1,
{
    assert(SCALE == 0x1_0000_0000);
    assert(-0x1000_0000_0000_0000_0000_0000 <= a * b <= 0x1000_0000_0000_0000_0000_0000)
        by (nonlinear_arith)
        requires
            moderate(a),
            moderate(b),
    ;
    let q = (a * b) / (SCALE as int);
    let r = (a * b) % (SCALE as int);
    lemma_fundamental_div_mod(a * b, SCALE as int);
    assert(a * b == SCALE as int * q + r);
    assert(0 <= r < SCALE as int);
    lemma_floor_le_ceil(a * b, SCALE as int);
    let c = ceil_div(a * b, SCALE as int);
    assert(a * b <= SCALE as int * c);
    assert(c <= q + 1) by (nonlinear_arith)
        requires
            SCALE as int * q <= a * b < SCALE as int * (q + 1),
            a * b <= SCALE as int * c,
            SCALE as int * (c - 1) < a * b,
            SCALE as int > 0,
    ;
    assert(q <= c);
    assert(SCALE as int * (c - 1) < a * b) by {
        assert(c - 1 < c);
        assert((a * b + SCALE as int - 1) >= SCALE as int * c - SCALE as int + 1)
            by (nonlinear_arith)
            requires
                a * b <= SCALE as int * c,
                SCALE as int * (c - 1) >= a * b ==> false,
        ;
    }
}

/// The computed row application brackets the exact affine row value:
/// the exact value, at the doubled scale, lies within three rounding units
/// above the computed one.
pub proof fn lemma_row_apply_bracket(a: int, b: int, c: int, d: int, x: int, y: int, z: int)
    requires
        moderate(a), moderate(b), moderate(c), moderate(d),
        moderate(x), moderate(y), moderate(z),
    ensures
        ({
            let cv = row_apply(a, b, c, d, x, y, z);
            let ex = a * x + b * y + c * z + d * (SCALE as int);
            cv * (SCALE as int) <= ex < (cv + 3) * (SCALE as int)
        }),
{
    assert(SCALE == 0x1_0000_0000);
    lemma_fx_mul_brackets(a, x);
    lemma_fx_mul_brackets(b, y);
    lemma_fx_mul_brackets(c, z);
}

/// Soundness of the propagated error bound: if `q` is any point within the
/// incoming bound `pe` of `p`, then the exact transform of `q`, at the
/// doubled scale, stays within the computed error bound of the computed
/// transformed point.  This is the round-trip guarantee: applying the
/// matrix exactly to the bracketed object-space point reproduces the
/// computed point within the reported error.
pub proof fn lemma_transform_error_sound(
    a: int, b: int, c: int, d: int,
    px: int, py: int, pz: int,
    ex: int, ey: int, ez: int,
    qx: int, qy: int, qz: int,
)
    requires
        moderate(a), moderate(b), moderate(c), moderate(d),
        moderate(px), moderate(py), moderate(pz),
        moderate(qx), moderate(qy), moderate(qz),
        0 <= ex, 0 <= ey, 0 <= ez,
        moderate(ex), moderate(ey), moderate(ez),
        px - ex <= qx <= px + ex,
        py - ey <= qy <= py + ey,
        pz - ez <= qz <= pz + ez,
    ensures
        ({
            let cv = row_apply(a, b, c, d, px, py, pz);
            let err = err_row(a, b, c, ex, ey, ez);
            let exq = a * qx + b * qy + c * qz + d * (SCALE as int);
            (cv - err) * (SCALE as int) <= exq <= (cv + err) * (SCALE as int)
        }),
{
    assert(SCALE == 0x1_0000_0000);
    lemma_row_apply_bracket(a, b, c, d, px, py, pz);
    lemma_fx_mul_brackets(fx_abs(a), ex);
    lemma_fx_mul_brackets(fx_abs(b), ey);
    lemma_fx_mul_brackets(fx_abs(c), ez);
    assert(a * qx - a * px <= fx_abs(a) * ex && a * px - a * qx <= fx_abs(a) * ex)
        by (nonlinear_arith)
        requires
            px - ex <= qx <= px + ex,
            0 <= ex,
            fx_abs(a) >= a && fx_abs(a) >= -a,
    ;
    assert(b * qy - b * py <= fx_abs(b) * ey && b * py - b * qy <= fx_abs(b) * ey)
        by (nonlinear_arith)
        requires
            py - ey <= qy <= py + ey,
            0 <= ey,
            fx_abs(b) >= b && fx_abs(b) >= -b,
    ;
    assert(c * qz - c * pz <= fx_abs(c) * ez && c * pz - c * qz <= fx_abs(c) * ez)
        by (nonlinear_arith)
        requires
            pz - ez <= qz <= pz + ez,
            0 <= ez,
            fx_abs(c) >= c && fx_abs(c) >= -c,
    ;
}

/// An upward-rounded product with a zero factor is zero.
pub proof fn lemma_fx_mul_up_zero(a: int)
    ensures
        fx_mul_up(a, 0) == 0,
{
    assert(a * 0 == 0) by (nonlinear_arith);
    vstd::arithmetic::div_mod::lemma_div_of0(SCALE as int);
}

/// With no incoming error, a transformed component's error bound is just
/// the three rounding units of the row application.
pub proof fn lemma_err_row_zero(a: int, b: int, c: int)
    ensures
        err_row(a, b, c, 0, 0, 0) == 3,
{
    lemma_fx_mul_up_zero(fx_abs(a));
    lemma_fx_mul_up_zero(fx_abs(b));
    lemma_fx_mul_up_zero(fx_abs(c));
}

/// Deduplicates structurally equal transforms: at most one stored instance
/// per distinct transform value.
pub struct TransformCache {
    /// The stored transforms, pairwise distinct.
    pub transforms: Vec<Transform>,
}

/// No two stored transforms are equal.
pub open spec fn cache_wf(c: TransformCache) -> bool {
    forall|i: int, j: int|
        0 <= i < j < c.transforms@.len() ==> c.transforms@[i] != c.transforms@[j]
}

impl TransformCache {
    /// An empty cache.
    pub fn new() -> (r: TransformCache)
        ensures
            r.transforms@.len() == 0,
            cache_wf(r),
    {
        TransformCache { transforms: Vec::new() }
    }

    /// Looks a transform up by value.  The returned transform equals the
    /// argument; if an equal transform was already stored, no new instance
    /// is added, so the cache keeps at most one instance per value.
    pub fn lookup(&mut self, t: Transform) -> (r: Transform)
        requires
            cache_wf(*old(self)),
        ensures
            r == t,
            cache_wf(*final(self)),
            final(self).transforms@.contains(t),
            forall|x: Transform|
                old(self).transforms@.contains(x) ==> final(self).transforms@.contains(x),
            final(self).transforms@.len() == if old(self).transforms@.contains(t) {
                old(self).transforms@.len() as int
            } else {
                old(self).transforms@.len() as int + 1
            },
    {
        let n = self.transforms.len();
        let mut i: usize = 0;
        while i < n
            invariant
                *self == *old(self),
                cache_wf(*old(self)),
                n == self.transforms@.len(),
                i <= n,
                forall|k: int| 0 <= k < i ==> self.transforms@[k] != t,
            decreases n - i,
        {
            if self.transforms[i] == t {
                proof {
                    assert(self.transforms@.contains(t)) by {
                        assert(self.transforms@[i as int] == t);
                    }
                    assert(cache_wf(*self));
                }
                return t;
            }
            i = i + 1;
        }
        proof {
            assert(!old(self).transforms@.contains(t)) by {
                assert(forall|k: int|
                    0 <= k < old(self).transforms@.len()
                        ==> old(self).transforms@[k] != t);
            }
        }
        self.transforms.push(t);
        proof {
            assert(self.transforms@[self.transforms@.len() - 1] == t);
            assert(forall|x: Transform|
                old(self).transforms@.contains(x) ==> self.transforms@.contains(x)) by {
                assert(forall|k: int|
                    0 <= k < old(self).transforms@.len()
                        ==> self.transforms@[k] == old(self).transforms@[k]);
            }
        }
        t
    }

    /// Removes every stored transform.
    pub fn clear(&mut self)
        ensures
            final(self).transforms@.len() == 0,
            cache_wf(*final(self)),
    {
        self.transforms.clear();
    }
}

} // verus!
