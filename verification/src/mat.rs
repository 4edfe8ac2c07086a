//! Fixed-point 3x3 and 4x4 matrices. Field `mij` is the entry in row `i`,
//! column `j`. A 4x4 transform stores its rotation part column-wise and its
//! translation in the fourth column.

use vstd::prelude::*;
use crate::fx::{fx_add, fx_add_spec, fx_mul, fx_mul_spec, fx_neg, fx_neg_spec};
use crate::vec::{fxv, Vec3};

verus! {

/// A 3x3 fixed-point matrix (mesh rotations).
#[derive(Clone, Copy, PartialEq, Eq, Structural, Debug)]
pub struct Mat3 {
    pub m11: i64,
    pub m12: i64,
    pub m13: i64,
    pub m21: i64,
    pub m22: i64,
    pub m23: i64,
    pub m31: i64,
    pub m32: i64,
    pub m33: i64,
}

/// A 4x4 fixed-point matrix (view, projection, and their product).
#[derive(Clone, Copy, PartialEq, Eq, Structural, Debug)]
pub struct Mat4 {
    pub m11: i64,
    pub m12: i64,
    pub m13: i64,
    pub m14: i64,
    pub m21: i64,
    pub m22: i64,
    pub m23: i64,
    pub m24: i64,
    pub m31: i64,
    pub m32: i64,
    pub m33: i64,
    pub m34: i64,
    pub m41: i64,
    pub m42: i64,
    pub m43: i64,
    pub m44: i64,
}

/// Fixed-point dot product of three scalar pairs, summed left to right.
pub open spec fn fx_dot3_spec(a1: i64, a2: i64, a3: i64, b1: i64, b2: i64, b3: i64) -> int {
    fx_add_spec(
        fx_add_spec(fx_mul_spec(a1 as int, b1 as int), fx_mul_spec(a2 as int, b2 as int)),
        fx_mul_spec(a3 as int, b3 as int),
    )
}

/// Fixed-point dot product of four scalar pairs, summed left to right.
pub open spec fn fx_dot4_spec(
    a1: i64,
    a2: i64,
    a3: i64,
    a4: i64,
    b1: i64,
    b2: i64,
    b3: i64,
    b4: i64,
) -> int {
    fx_add_spec(fx_dot3_spec(a1, a2, a3, b1, b2, b3), fx_mul_spec(a4 as int, b4 as int))
}

/// Fixed-point dot product of three scalar pairs.
pub fn fx_dot3(a1: i64, a2: i64, a3: i64, b1: i64, b2: i64, b3: i64) -> (r: i64)
    ensures
        r as int == fx_dot3_spec(a1, a2, a3, b1, b2, b3),
{
    fx_add(fx_add(fx_mul(a1, b1), fx_mul(a2, b2)), fx_mul(a3, b3))
}

/// Fixed-point dot product of four scalar pairs.
pub fn fx_dot4(a1: i64, a2: i64, a3: i64, a4: i64, b1: i64, b2: i64, b3: i64, b4: i64) -> (r: i64)
    ensures
        r as int == fx_dot4_spec(a1, a2, a3, a4, b1, b2, b3, b4),
{
    fx_add(fx_dot3(a1, a2, a3, b1, b2, b3), fx_mul(a4, b4))
}

impl Mat3 {
    pub fn new_empty() -> (r: Mat3)
        ensures
            r == mat3_zero_spec(),
    {
        Mat3 { m11: 0, m12: 0, m13: 0, m21: 0, m22: 0, m23: 0, m31: 0, m32: 0, m33: 0 }
    }

    pub fn new(
        m11: i64,
        m12: i64,
        m13: i64,
        m21: i64,
        m22: i64,
        m23: i64,
        m31: i64,
        m32: i64,
        m33: i64,
    ) -> (r: Mat3)
        ensures
            r == (Mat3 { m11, m12, m13, m21, m22, m23, m31, m32, m33 }),
    {
        Mat3 { m11, m12, m13, m21, m22, m23, m31, m32, m33 }
    }

    /// Apply this matrix to a vector: each result component is the
    /// fixed-point dot product of the matching row with the vector.
    pub fn apply(&self, v: &Vec3) -> (r: Vec3)
        ensures
            r == mat3_apply_spec(*self, *v),
    {
        Vec3 {
            x: fx_dot3(self.m11, self.m12, self.m13, v.x, v.y, v.z),
            y: fx_dot3(self.m21, self.m22, self.m23, v.x, v.y, v.z),
            z: fx_dot3(self.m31, self.m32, self.m33, v.x, v.y, v.z),
        }
    }

    /// This matrix times another, row by column.
    pub fn times(&self, o: &Mat3) -> (r: Mat3)
        ensures
            r == mat3_mul_spec(*self, *o),
    {
        Mat3 {
            m11: fx_dot3(self.m11, self.m12, self.m13, o.m11, o.m21, o.m31),
            m12: fx_dot3(self.m11, self.m12, self.m13, o.m12, o.m22, o.m32),
            m13: fx_dot3(self.m11, self.m12, self.m13, o.m13, o.m23, o.m33),
            m21: fx_dot3(self.m21, self.m22, self.m23, o.m11, o.m21, o.m31),
            m22: fx_dot3(self.m21, self.m22, self.m23, o.m12, o.m22, o.m32),
            m23: fx_dot3(self.m21, self.m22, self.m23, o.m13, o.m23, o.m33),
            m31: fx_dot3(self.m31, self.m32, self.m33, o.m11, o.m21, o.m31),
            m32: fx_dot3(self.m31, self.m32, self.m33, o.m12, o.m22, o.m32),
            m33: fx_dot3(self.m31, self.m32, self.m33, o.m13, o.m23, o.m33),
        }
    }
}

pub open spec fn mat3_zero_spec() -> Mat3 {
    Mat3 { m11: 0i64, m12: 0i64, m13: 0i64, m21: 0i64, m22: 0i64, m23: 0i64, m31: 0i64, m32: 0i64, m33: 0i64 }
}

pub open spec fn mat3_apply_spec(m: Mat3, v: Vec3) -> Vec3 {
    Vec3 {
        x: fxv(fx_dot3_spec(m.m11, m.m12, m.m13, v.x, v.y, v.z)),
        y: fxv(fx_dot3_spec(m.m21, m.m22, m.m23, v.x, v.y, v.z)),
        z: fxv(fx_dot3_spec(m.m31, m.m32, m.m33, v.x, v.y, v.z)),
    }
}

pub open spec fn mat3_mul_spec(a: Mat3, b: Mat3) -> Mat3 {
    Mat3 {
        m11: fxv(fx_dot3_spec(a.m11, a.m12, a.m13, b.m11, b.m21, b.m31)),
        m12: fxv(fx_dot3_spec(a.m11, a.m12, a.m13, b.m12, b.m22, b.m32)),
        m13: fxv(fx_dot3_spec(a.m11, a.m12, a.m13, b.m13, b.m23, b.m33)),
        m21: fxv(fx_dot3_spec(a.m21, a.m22, a.m23, b.m11, b.m21, b.m31)),
        m22: fxv(fx_dot3_spec(a.m21, a.m22, a.m23, b.m12, b.m22, b.m32)),
        m23: fxv(fx_dot3_spec(a.m21, a.m22, a.m23, b.m13, b.m23, b.m33)),
        m31: fxv(fx_dot3_spec(a.m31, a.m32, a.m33, b.m11, b.m21, b.m31)),
        m32: fxv(fx_dot3_spec(a.m31, a.m32, a.m33, b.m12, b.m22, b.m32)),
        m33: fxv(fx_dot3_spec(a.m31, a.m32, a.m33, b.m13, b.m23, b.m33)),
    }
}

pub open spec fn mat4_zero_spec() -> Mat4 {
    Mat4 {
        m11: 0i64, m12: 0i64, m13: 0i64, m14: 0i64,
        m21: 0i64, m22: 0i64, m23: 0i64, m24: 0i64,
        m31: 0i64, m32: 0i64, m33: 0i64, m34: 0i64,
        m41: 0i64, m42: 0i64, m43: 0i64, m44: 0i64,
    }
}

pub open spec fn mat4_mul_spec(a: Mat4, b: Mat4) -> Mat4 {
    Mat4 {
        m11: fxv(fx_dot4_spec(a.m11, a.m12, a.m13, a.m14, b.m11, b.m21, b.m31, b.m41)),
        m12: fxv(fx_dot4_spec(a.m11, a.m12, a.m13, a.m14, b.m12, b.m22, b.m32, b.m42)),
        m13: fxv(fx_dot4_spec(a.m11, a.m12, a.m13, a.m14, b.m13, b.m23, b.m33, b.m43)),
        m14: fxv(fx_dot4_spec(a.m11, a.m12, a.m13, a.m14, b.m14, b.m24, b.m34, b.m44)),
        m21: fxv(fx_dot4_spec(a.m21, a.m22, a.m23, a.m24, b.m11, b.m21, b.m31, b.m41)),
        m22: fxv(fx_dot4_spec(a.m21, a.m22, a.m23, a.m24, b.m12, b.m22, b.m32, b.m42)),
        m23: fxv(fx_dot4_spec(a.m21, a.m22, a.m23, a.m24, b.m13, b.m23, b.m33, b.m43)),
        m24: fxv(fx_dot4_spec(a.m21, a.m22, a.m23, a.m24, b.m14, b.m24, b.m34, b.m44)),
        m31: fxv(fx_dot4_spec(a.m31, a.m32, a.m33, a.m34, b.m11, b.m21, b.m31, b.m41)),
        m32: fxv(fx_dot4_spec(a.m31, a.m32, a.m33, a.m34, b.m12, b.m22, b.m32, b.m42)),
        m33: fxv(fx_dot4_spec(a.m31, a.m32, a.m33, a.m34, b.m13, b.m23, b.m33, b.m43)),
        m34: fxv(fx_dot4_spec(a.m31, a.m32, a.m33, a.m34, b.m14, b.m24, b.m34, b.m44)),
        m41: fxv(fx_dot4_spec(a.m41, a.m42, a.m43, a.m44, b.m11, b.m21, b.m31, b.m41)),
        m42: fxv(fx_dot4_spec(a.m41, a.m42, a.m43, a.m44, b.m12, b.m22, b.m32, b.m42)),
        m43: fxv(fx_dot4_spec(a.m41, a.m42, a.m43, a.m44, b.m13, b.m23, b.m33, b.m43)),
        m44: fxv(fx_dot4_spec(a.m41, a.m42, a.m43, a.m44, b.m14, b.m24, b.m34, b.m44)),
    }
}

/// The closed-form inverse of a rigid transform `[R | t]` with bottom row
/// `(0, 0, 0, 1)`: the rotation part is transposed and the new translation is
/// `-(R^T t)`, computed with fixed-point dot products.
pub open spec fn mat4_rigid_inverse_spec(m: Mat4) -> Mat4 {
    Mat4 {
        m11: m.m11, m12: m.m21, m13: m.m31,
        m14: fxv(fx_neg_spec(fx_dot3_spec(m.m11, m.m21, m.m31, m.m14, m.m24, m.m34))),
        m21: m.m12, m22: m.m22, m23: m.m32,
        m24: fxv(fx_neg_spec(fx_dot3_spec(m.m12, m.m22, m.m32, m.m14, m.m24, m.m34))),
        m31: m.m13, m32: m.m23, m33: m.m33,
        m34: fxv(fx_neg_spec(fx_dot3_spec(m.m13, m.m23, m.m33, m.m14, m.m24, m.m34))),
        m41: 0i64, m42: 0i64, m43: 0i64, m44: crate::fx::FX_ONE,
    }
}

impl Mat4 {
    pub fn new_empty() -> (r: Mat4)
        ensures
            r == mat4_zero_spec(),
    {
        Mat4 {
            m11: 0, m12: 0, m13: 0, m14: 0,
            m21: 0, m22: 0, m23: 0, m24: 0,
            m31: 0, m32: 0, m33: 0, m34: 0,
            m41: 0, m42: 0, m43: 0, m44: 0,
        }
    }

    pub fn set_from(&mut self, o: &Mat4)
        ensures
            *final(self) == *o,
    {
        *self = *o;
    }

    /// This matrix times another, row by column.
    pub fn times(&self, o: &Mat4) -> (r: Mat4)
        ensures
            r == mat4_mul_spec(*self, *o),
    {
        Mat4 {
            m11: fx_dot4(self.m11, self.m12, self.m13, self.m14, o.m11, o.m21, o.m31, o.m41),
            m12: fx_dot4(self.m11, self.m12, self.m13, self.m14, o.m12, o.m22, o.m32, o.m42),
            m13: fx_dot4(self.m11, self.m12, self.m13, self.m14, o.m13, o.m23, o.m33, o.m43),
            m14: fx_dot4(self.m11, self.m12, self.m13, self.m14, o.m14, o.m24, o.m34, o.m44),
            m21: fx_dot4(self.m21, self.m22, self.m23, self.m24, o.m11, o.m21, o.m31, o.m41),
            m22: fx_dot4(self.m21, self.m22, self.m23, self.m24, o.m12, o.m22, o.m32, o.m42),
            m23: fx_dot4(self.m21, self.m22, self.m23, self.m24, o.m13, o.m23, o.m33, o.m43),
            m24: fx_dot4(self.m21, self.m22, self.m23, self.m24, o.m14, o.m24, o.m34, o.m44),
            m31: fx_dot4(self.m31, self.m32, self.m33, self.m34, o.m11, o.m21, o.m31, o.m41),
            m32: fx_dot4(self.m31, self.m32, self.m33, self.m34, o.m12, o.m22, o.m32, o.m42),
            m33: fx_dot4(self.m31, self.m32, self.m33, self.m34, o.m13, o.m23, o.m33, o.m43),
            m34: fx_dot4(self.m31, self.m32, self.m33, self.m34, o.m14, o.m24, o.m34, o.m44),
            m41: fx_dot4(self.m41, self.m42, self.m43, self.m44, o.m11, o.m21, o.m31, o.m41),
            m42: fx_dot4(self.m41, self.m42, self.m43, self.m44, o.m12, o.m22, o.m32, o.m42),
            m43: fx_dot4(self.m41, self.m42, self.m43, self.m44, o.m13, o.m23, o.m33, o.m43),
            m44: fx_dot4(self.m41, self.m42, self.m43, self.m44, o.m14, o.m24, o.m34, o.m44),
        }
    }

    /// Invert a rigid transform (rotation columns plus a translation column,
    /// bottom row `(0, 0, 0, 1)`) in closed form.
    pub fn rigid_inverse(&self) -> (r: Mat4)
        ensures
            r == mat4_rigid_inverse_spec(*self),
    {
        Mat4 {
            m11: self.m11,
            m12: self.m21,
            m13: self.m31,
            m14: fx_neg(fx_dot3(self.m11, self.m21, self.m31, self.m14, self.m24, self.m34)),
            m21: self.m12,
            m22: self.m22,
            m23: self.m32,
            m24: fx_neg(fx_dot3(self.m12, self.m22, self.m32, self.m14, self.m24, self.m34)),
            m31: self.m13,
            m32: self.m23,
            m33: self.m33,
            m34: fx_neg(fx_dot3(self.m13, self.m23, self.m33, self.m14, self.m24, self.m34)),
            m41: 0,
            m42: 0,
            m43: 0,
            m44: crate::fx::FX_ONE,
        }
    }
}

/// The view matrix times the inverse view matrix is the identity: stated over
/// exact integers. A camera basis `l`, `u`, `f` that is orthogonal with
/// common square norm `s * s` (the fixed-point unit), an eye position `p`,
/// and a translation `q` with `s * q_i == -(basis_i . p)` form the
/// camera-to-world matrix `C` (basis in the columns, `p` in the fourth
/// column, `s` in the corner) and the view matrix `V` (basis in the rows, `q`
/// in the fourth column, `s` in the corner). Every entry of `V * C` is then
/// exactly `s * s` on the diagonal and `0` off it. The executable camera
/// approximates `V` with rounded fixed-point entries, so its product with `C`
/// matches the identity only to within the rounding (checked in tests).
pub proof fn lemma_rigid_inverse_identity(
    lx: int, ly: int, lz: int,
    ux: int, uy: int, uz: int,
    f1: int, f2: int, f3: int,
    px: int, py: int, pz: int,
    q1: int, q2: int, q3: int,
    s: int,
)
    requires
        lx * lx + ly * ly + lz * lz == s * s,
        ux * ux + uy * uy + uz * uz == s * s,
        f1 * f1 + f2 * f2 + f3 * f3 == s * s,
        lx * ux + ly * uy + lz * uz == 0,
        lx * f1 + ly * f2 + lz * f3 == 0,
        ux * f1 + uy * f2 + uz * f3 == 0,
        s * q1 == -(lx * px + ly * py + lz * pz),
        s * q2 == -(ux * px + uy * py + uz * pz),
        s * q3 == -(f1 * px + f2 * py + f3 * pz),
    ensures
        // row 1 of V times the columns of C
        lx * lx + ly * ly + lz * lz + q1 * 0 == s * s,
        lx * ux + ly * uy + lz * uz + q1 * 0 == 0,
        lx * f1 + ly * f2 + lz * f3 + q1 * 0 == 0,
        lx * px + ly * py + lz * pz + q1 * s == 0,
        // row 2
        ux * lx + uy * ly + uz * lz + q2 * 0 == 0,
        ux * ux + uy * uy + uz * uz + q2 * 0 == s * s,
        ux * f1 + uy * f2 + uz * f3 + q2 * 0 == 0,
        ux * px + uy * py + uz * pz + q2 * s == 0,
        // row 3
        f1 * lx + f2 * ly + f3 * lz + q3 * 0 == 0,
        f1 * ux + f2 * uy + f3 * uz + q3 * 0 == 0,
        f1 * f1 + f2 * f2 + f3 * f3 + q3 * 0 == s * s,
        f1 * px + f2 * py + f3 * pz + q3 * s == 0,
        // row 4: (0, 0, 0, s) times the columns of C
        0 * lx + 0 * ly + 0 * lz + s * 0 == 0,
        0 * ux + 0 * uy + 0 * uz + s * 0 == 0,
        0 * f1 + 0 * f2 + 0 * f3 + s * 0 == 0,
        0 * px + 0 * py + 0 * pz + s * s == s * s,
{
    assert(lx * px + ly * py + lz * pz + q1 * s == 0) by (nonlinear_arith)
        requires
            s * q1 == -(lx * px + ly * py + lz * pz);
    assert(ux * px + uy * py + uz * pz + q2 * s == 0) by (nonlinear_arith)
        requires
            s * q2 == -(ux * px + uy * py + uz * pz);
    assert(f1 * px + f2 * py + f3 * pz + q3 * s == 0) by (nonlinear_arith)
        requires
            s * q3 == -(f1 * px + f2 * py + f3 * pz);
}

} // verus!
