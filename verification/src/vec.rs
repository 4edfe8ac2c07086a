//! Fixed-point 2- and 3-component vectors.

use vstd::prelude::*;
use crate::fx::{
    fx_add, fx_add_spec, fx_div, fx_div_spec, fx_mul, fx_mul_spec, fx_sat, fx_sqrt, fx_sqrt_spec,
    fx_sub, fx_sub_spec,
};

verus! {

/// Narrow a clamped mathematical value back to its `i64` representation.
pub open spec fn fxv(v: int) -> i64 {
    fx_sat(v) as i64
}

/// A 2D vector of fixed-point values (texture coordinates).
#[derive(Clone, Copy, PartialEq, Eq, Structural, Debug)]
pub struct Vec2 {
    pub x: i64,
    pub y: i64,
}

/// A 3D vector of fixed-point values (positions, directions, sample offsets).
#[derive(Clone, Copy, PartialEq, Eq, Structural, Debug)]
pub struct Vec3 {
    pub x: i64,
    pub y: i64,
    pub z: i64,
}

impl Vec2 {
    pub fn new(x: i64, y: i64) -> (r: Vec2)
        ensures
            r == (Vec2 { x, y }),
    {
        Vec2 { x, y }
    }

    pub fn new_empty() -> (r: Vec2)
        ensures
            r == (Vec2 { x: 0i64, y: 0i64 }),
    {
        Vec2 { x: 0, y: 0 }
    }

    pub fn set_from(&mut self, o: &Vec2)
        ensures
            *final(self) == *o,
    {
        self.x = o.x;
        self.y = o.y;
    }
}

/// Componentwise sum, each component saturating.
pub open spec fn v3_add_spec(a: Vec3, b: Vec3) -> Vec3 {
    Vec3 { x: fxv(a.x + b.x), y: fxv(a.y + b.y), z: fxv(a.z + b.z) }
}

/// Componentwise difference, each component saturating.
pub open spec fn v3_sub_spec(a: Vec3, b: Vec3) -> Vec3 {
    Vec3 { x: fxv(a.x - b.x), y: fxv(a.y - b.y), z: fxv(a.z - b.z) }
}

/// Componentwise fixed-point scaling.
pub open spec fn v3_scale_spec(a: Vec3, sx: i64, sy: i64, sz: i64) -> Vec3 {
    Vec3 {
        x: fxv(fx_mul_spec(a.x as int, sx as int)),
        y: fxv(fx_mul_spec(a.y as int, sy as int)),
        z: fxv(fx_mul_spec(a.z as int, sz as int)),
    }
}

/// Componentwise translation.
pub open spec fn v3_translate_spec(a: Vec3, dx: i64, dy: i64, dz: i64) -> Vec3 {
    Vec3 { x: fxv(a.x + dx), y: fxv(a.y + dy), z: fxv(a.z + dz) }
}

/// Fixed-point dot product.
pub open spec fn v3_dot_spec(a: Vec3, b: Vec3) -> int {
    fx_add_spec(
        fx_add_spec(fx_mul_spec(a.x as int, b.x as int), fx_mul_spec(a.y as int, b.y as int)),
        fx_mul_spec(a.z as int, b.z as int),
    )
}

/// Fixed-point cross product.
pub open spec fn v3_cross_spec(a: Vec3, b: Vec3) -> Vec3 {
    Vec3 {
        x: fxv(fx_sub_spec(fx_mul_spec(a.y as int, b.z as int), fx_mul_spec(a.z as int, b.y as int))),
        y: fxv(fx_sub_spec(fx_mul_spec(a.z as int, b.x as int), fx_mul_spec(a.x as int, b.z as int))),
        z: fxv(fx_sub_spec(fx_mul_spec(a.x as int, b.y as int), fx_mul_spec(a.y as int, b.x as int))),
    }
}

/// The fixed-point length: square root of the dot product with itself.
pub open spec fn v3_len_spec(a: Vec3) -> int {
    fx_sqrt_spec(v3_dot_spec(a, a))
}

/// Normalization: each component divided by the length; a vector of length
/// zero is left unchanged (callers treat that as a degenerate input).
pub open spec fn v3_normalize_spec(a: Vec3) -> Vec3 {
    let len = v3_len_spec(a);
    if len == 0 {
        a
    } else {
        Vec3 {
            x: fxv(fx_div_spec(a.x as int, len)),
            y: fxv(fx_div_spec(a.y as int, len)),
            z: fxv(fx_div_spec(a.z as int, len)),
        }
    }
}

impl Vec3 {
    pub fn new(x: i64, y: i64, z: i64) -> (r: Vec3)
        ensures
            r == (Vec3 { x, y, z }),
    {
        Vec3 { x, y, z }
    }

    pub fn new_empty() -> (r: Vec3)
        ensures
            r == (Vec3 { x: 0i64, y: 0i64, z: 0i64 }),
    {
        Vec3 { x: 0, y: 0, z: 0 }
    }

    pub fn set(&mut self, x: i64, y: i64, z: i64)
        ensures
            *final(self) == (Vec3 { x, y, z }),
    {
        self.x = x;
        self.y = y;
        self.z = z;
    }

    pub fn set_from(&mut self, o: &Vec3)
        ensures
            *final(self) == *o,
    {
        self.x = o.x;
        self.y = o.y;
        self.z = o.z;
    }

    /// Saturating componentwise sum.
    pub fn plus(&self, o: &Vec3) -> (r: Vec3)
        ensures
            r == v3_add_spec(*self, *o),
    {
        Vec3 { x: fx_add(self.x, o.x), y: fx_add(self.y, o.y), z: fx_add(self.z, o.z) }
    }

    /// Saturating componentwise difference.
    pub fn minus(&self, o: &Vec3) -> (r: Vec3)
        ensures
            r == v3_sub_spec(*self, *o),
    {
        Vec3 { x: fx_sub(self.x, o.x), y: fx_sub(self.y, o.y), z: fx_sub(self.z, o.z) }
    }

    /// Componentwise fixed-point scaling.
    pub fn scale(&mut self, sx: i64, sy: i64, sz: i64)
        ensures
            *final(self) == v3_scale_spec(*old(self), sx, sy, sz),
    {
        self.x = fx_mul(self.x, sx);
        self.y = fx_mul(self.y, sy);
        self.z = fx_mul(self.z, sz);
    }

    /// Componentwise translation.
    pub fn translate(&mut self, dx: i64, dy: i64, dz: i64)
        ensures
            *final(self) == v3_translate_spec(*old(self), dx, dy, dz),
    {
        self.x = fx_add(self.x, dx);
        self.y = fx_add(self.y, dy);
        self.z = fx_add(self.z, dz);
    }

    /// Fixed-point dot product.
    pub fn dot(&self, o: &Vec3) -> (r: i64)
        ensures
            r as int == v3_dot_spec(*self, *o),
    {
        fx_add(fx_add(fx_mul(self.x, o.x), fx_mul(self.y, o.y)), fx_mul(self.z, o.z))
    }

    /// Fixed-point cross product, written into `out`.
    pub fn cross_to(&self, o: &Vec3, out: &mut Vec3)
        ensures
            *final(out) == v3_cross_spec(*self, *o),
    {
        out.x = fx_sub(fx_mul(self.y, o.z), fx_mul(self.z, o.y));
        out.y = fx_sub(fx_mul(self.z, o.x), fx_mul(self.x, o.z));
        out.z = fx_sub(fx_mul(self.x, o.y), fx_mul(self.y, o.x));
    }

    /// Fixed-point length.
    pub fn len(&self) -> (r: i64)
        ensures
            r as int == v3_len_spec(*self),
    {
        fx_sqrt(self.dot(self))
    }

    /// In-place normalization; a zero-length vector is left unchanged.
    pub fn normalize(&mut self)
        ensures
            *final(self) == v3_normalize_spec(*old(self)),
    {
        let l = self.len();
        if l != 0 {
            self.x = fx_div(self.x, l);
            self.y = fx_div(self.y, l);
            self.z = fx_div(self.z, l);
        }
    }
}

} // verus!
