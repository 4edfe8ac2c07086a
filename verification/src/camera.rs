//! The camera: a look-at view matrix, an orthographic or perspective
//! projection, and their product, the world-to-clip transform.
//!
//! A degenerate setup (eye on the look target, view direction parallel to the
//! world up reference, or a zero-extent frustum) is rejected with a
//! `ConfigError` instead of producing a meaningless matrix.

use vstd::prelude::*;
use crate::fx::{fx_add, fx_add_spec, fx_div, fx_div_spec, fx_mul, fx_mul_spec, fx_neg, fx_neg_spec, fx_sub, fx_sub_spec, FX_ONE, FX_TWO};
use crate::mat::{mat4_rigid_inverse_spec, mat4_mul_spec, mat4_zero_spec, Mat4};
use crate::vec::{fxv, v3_cross_spec, v3_len_spec, v3_normalize_spec, v3_sub_spec, Vec3};

verus! {

/// Why a camera configuration was rejected.
#[derive(Clone, Copy, PartialEq, Eq, Structural, Debug)]
pub enum ConfigError {
    /// The eye sits on the look target, or the view direction is parallel to
    /// the world up reference: no orthonormal basis exists.
    DegenerateBasis,
    /// A frustum extent (width, height or depth) is zero: the projection
    /// would divide by zero.
    DegenerateViewport,
}

/// The fixed world up reference `(0, 1, 0)`, after the normalization the
/// look-at path applies to it (which leaves it unchanged).
pub open spec fn world_up_spec() -> Vec3 {
    v3_normalize_spec(Vec3 { x: 0i64, y: FX_ONE, z: 0i64 })
}

/// The unit view direction: from the look target toward the eye.
pub open spec fn look_forward_spec(from: Vec3, to: Vec3) -> Vec3 {
    v3_normalize_spec(v3_sub_spec(from, to))
}

/// The unit left basis vector: world up crossed with the view direction.
pub open spec fn look_left_spec(from: Vec3, to: Vec3) -> Vec3 {
    v3_normalize_spec(v3_cross_spec(world_up_spec(), look_forward_spec(from, to)))
}

/// The unit up basis vector: the view direction crossed with the left vector.
pub open spec fn look_up_spec(from: Vec3, to: Vec3) -> Vec3 {
    v3_normalize_spec(v3_cross_spec(look_forward_spec(from, to), look_left_spec(from, to)))
}

/// A look-at pair is degenerate when any basis vector would have length zero
/// before its normalization.
pub open spec fn look_at_degenerate_spec(from: Vec3, to: Vec3) -> bool {
    v3_len_spec(v3_sub_spec(from, to)) == 0
        || v3_len_spec(v3_cross_spec(world_up_spec(), look_forward_spec(from, to))) == 0
        || v3_len_spec(v3_cross_spec(look_forward_spec(from, to), look_left_spec(from, to))) == 0
}

/// The camera-to-world matrix: the basis vectors in the columns (the third
/// column negated when `neg_forward` holds, as the perspective path builds
/// it), the eye position in the fourth.
pub open spec fn camera_to_world_spec(from: Vec3, to: Vec3, neg_forward: bool) -> Mat4 {
    let l = look_left_spec(from, to);
    let u = look_up_spec(from, to);
    let f = look_forward_spec(from, to);
    Mat4 {
        m11: l.x,
        m12: u.x,
        m13: if neg_forward { fxv(fx_neg_spec(f.x as int)) } else { f.x },
        m14: from.x,
        m21: l.y,
        m22: u.y,
        m23: if neg_forward { fxv(fx_neg_spec(f.y as int)) } else { f.y },
        m24: from.y,
        m31: l.z,
        m32: u.z,
        m33: if neg_forward { fxv(fx_neg_spec(f.z as int)) } else { f.z },
        m34: from.z,
        m41: 0i64,
        m42: 0i64,
        m43: 0i64,
        m44: FX_ONE,
    }
}

/// The view matrix of a look-at pair: the rigid inverse of the
/// camera-to-world matrix.
pub open spec fn look_at_view_spec(from: Vec3, to: Vec3, neg_forward: bool) -> Mat4 {
    mat4_rigid_inverse_spec(camera_to_world_spec(from, to, neg_forward))
}

/// The symmetric orthographic projection of a frustum.
pub open spec fn ortho_projection_spec(l: i64, r: i64, t: i64, b: i64, n: i64, f: i64) -> Mat4 {
    Mat4 {
        m11: fxv(fx_div_spec(FX_TWO as int, fx_sub_spec(r as int, l as int))),
        m12: 0i64,
        m13: 0i64,
        m14: fxv(fx_neg_spec(fx_div_spec(fx_add_spec(r as int, l as int), fx_sub_spec(r as int, l as int)))),
        m21: 0i64,
        m22: fxv(fx_div_spec(FX_TWO as int, fx_sub_spec(t as int, b as int))),
        m23: 0i64,
        m24: fxv(fx_neg_spec(fx_div_spec(fx_add_spec(t as int, b as int), fx_sub_spec(t as int, b as int)))),
        m31: 0i64,
        m32: 0i64,
        m33: fxv(fx_neg_spec(fx_div_spec(FX_TWO as int, fx_sub_spec(f as int, n as int)))),
        m34: fxv(fx_neg_spec(fx_div_spec(fx_add_spec(f as int, n as int), fx_sub_spec(f as int, n as int)))),
        m41: 0i64,
        m42: 0i64,
        m43: 0i64,
        m44: FX_ONE,
    }
}

/// The alternative orthographic projection over half-extents `r` and `t`.
pub open spec fn ortho2_projection_spec(r: i64, t: i64, n: i64, f: i64) -> Mat4 {
    Mat4 {
        m11: fxv(fx_div_spec(FX_ONE as int, r as int)),
        m12: 0i64,
        m13: 0i64,
        m14: 0i64,
        m21: 0i64,
        m22: fxv(fx_div_spec(FX_ONE as int, t as int)),
        m23: 0i64,
        m24: 0i64,
        m31: 0i64,
        m32: 0i64,
        m33: fxv(fx_neg_spec(fx_div_spec(FX_TWO as int, fx_sub_spec(f as int, n as int)))),
        m34: fxv(fx_neg_spec(fx_div_spec(fx_add_spec(f as int, n as int), fx_sub_spec(f as int, n as int)))),
        m41: 0i64,
        m42: 0i64,
        m43: FX_ONE,
        m44: FX_ONE,
    }
}

/// The right-handed perspective projection over the near and far planes
/// alone, with the field-of-view scale on the diagonal.
pub open spec fn perspective_projection_rh_spec(scale: i64, n: i64, f: i64) -> Mat4 {
    Mat4 {
        m11: scale,
        m12: 0i64,
        m13: 0i64,
        m14: 0i64,
        m21: 0i64,
        m22: scale,
        m23: 0i64,
        m24: 0i64,
        m31: 0i64,
        m32: 0i64,
        m33: fxv(fx_neg_spec(fx_div_spec(f as int, fx_sub_spec(f as int, n as int)))),
        m34: fxv(fx_neg_spec(fx_div_spec(fx_mul_spec(f as int, n as int), fx_sub_spec(f as int, n as int)))),
        m41: 0i64,
        m42: 0i64,
        m43: FX_ONE,
        m44: 0i64,
    }
}

/// The full perspective projection over the six frustum scalars, with the
/// field-of-view scale on the diagonal.
pub open spec fn perspective_projection_spec(
    scale: i64,
    l: i64,
    r: i64,
    t: i64,
    b: i64,
    n: i64,
    f: i64,
) -> Mat4 {
    Mat4 {
        m11: scale,
        m12: 0i64,
        m13: fxv(fx_div_spec(fx_add_spec(r as int, l as int), fx_sub_spec(r as int, l as int))),
        m14: 0i64,
        m21: 0i64,
        m22: scale,
        m23: fxv(fx_div_spec(fx_add_spec(t as int, b as int), fx_sub_spec(t as int, b as int))),
        m24: 0i64,
        m31: 0i64,
        m32: 0i64,
        m33: fxv(fx_neg_spec(fx_div_spec(fx_add_spec(f as int, n as int), fx_sub_spec(f as int, n as int)))),
        m34: fxv(
            fx_neg_spec(
                fx_div_spec(
                    fx_mul_spec(FX_TWO as int, fx_mul_spec(f as int, n as int)),
                    fx_sub_spec(f as int, n as int),
                ),
            ),
        ),
        m41: 0i64,
        m42: 0i64,
        m43: FX_ONE,
        m44: 0i64,
    }
}

/// The camera: view and projection matrices, their product, the orthonormal
/// basis, the eye and target, and the six frustum scalars. The basis vectors
/// and matrices are recomputed by the `look_at` / `to_projection` methods;
/// `transformation` is their product, set by `to_ortho` / `to_perspective`.
#[derive(Clone, Copy, PartialEq, Eq, Structural, Debug)]
pub struct Camera {
    pub view: Mat4,
    pub projection: Mat4,
    pub transformation: Mat4,
    pub forward: Vec3,
    pub left: Vec3,
    pub up: Vec3,
    pub from: Vec3,
    pub to: Vec3,
    pub l: i64,
    pub r: i64,
    pub t: i64,
    pub b: i64,
    pub n: i64,
    pub f: i64,
    /// The field-of-view scale of the perspective projections,
    /// `1 / tan(fov / 2)` in fixed point; one (a 90 degree field of view)
    /// unless configured otherwise.
    pub fov_scale: i64,
}

/// The freshly constructed camera: zero matrices, zero vectors, zero
/// frustum, the default field-of-view scale.
pub open spec fn camera_zero_spec() -> Camera {
    Camera {
        view: mat4_zero_spec(),
        projection: mat4_zero_spec(),
        transformation: mat4_zero_spec(),
        forward: Vec3 { x: 0i64, y: 0i64, z: 0i64 },
        left: Vec3 { x: 0i64, y: 0i64, z: 0i64 },
        up: Vec3 { x: 0i64, y: 0i64, z: 0i64 },
        from: Vec3 { x: 0i64, y: 0i64, z: 0i64 },
        to: Vec3 { x: 0i64, y: 0i64, z: 0i64 },
        l: 0i64,
        r: 0i64,
        t: 0i64,
        b: 0i64,
        n: 0i64,
        f: 0i64,
        fov_scale: FX_ONE,
    }
}

impl Camera {
    pub fn new() -> (c: Camera)
        ensures
            c == camera_zero_spec(),
    {
        Camera {
            view: Mat4::new_empty(),
            projection: Mat4::new_empty(),
            transformation: Mat4::new_empty(),
            forward: Vec3::new_empty(),
            up: Vec3::new_empty(),
            left: Vec3::new_empty(),
            from: Vec3::new_empty(),
            to: Vec3::new_empty(),
            l: 0,
            r: 0,
            t: 0,
            b: 0,
            n: 0,
            f: 0,
            fov_scale: FX_ONE,
        }
    }

    pub fn new_init(from: &Vec3, to: &Vec3, l: i64, r: i64, t: i64, b: i64, n: i64, f: i64) -> (c:
        Camera)
        ensures
            c.view == mat4_zero_spec(),
            c.projection == mat4_zero_spec(),
            c.transformation == mat4_zero_spec(),
            c.forward == (Vec3 { x: 0i64, y: 0i64, z: 0i64 }),
            c.left == (Vec3 { x: 0i64, y: 0i64, z: 0i64 }),
            c.up == (Vec3 { x: 0i64, y: 0i64, z: 0i64 }),
            c.from == *from,
            c.to == *to,
            c.l == l && c.r == r && c.t == t && c.b == b && c.n == n && c.f == f,
            c.fov_scale == FX_ONE,
    {
        Camera {
            view: Mat4::new_empty(),
            projection: Mat4::new_empty(),
            transformation: Mat4::new_empty(),
            forward: Vec3::new_empty(),
            up: Vec3::new_empty(),
            left: Vec3::new_empty(),
            from: from.clone(),
            to: to.clone(),
            l,
            r,
            t,
            b,
            n,
            f,
            fov_scale: FX_ONE,
        }
    }

    /// Store the six frustum scalars; they are validated by the projection
    /// methods that divide by their differences.
    pub fn set_viewport(&mut self, l: i64, r: i64, t: i64, b: i64, n: i64, f: i64)
        ensures
            *final(self) == (Camera { l, r, t, b, n, f, ..*old(self) }),
    {
        self.l = l;
        self.r = r;
        self.t = t;
        self.b = b;
        self.n = n;
        self.f = f;
    }

    /// Choose the field-of-view scale used by the perspective projections.
    pub fn set_fov_scale(&mut self, scale: i64)
        ensures
            *final(self) == (Camera { fov_scale: scale, ..*old(self) }),
    {
        self.fov_scale = scale;
    }

    /// Compute the orthonormal basis and the view matrix for the orthographic
    /// path (the forward vector kept positive in the third basis column).
    /// Fails, leaving the camera unchanged, exactly on degenerate pairs.
    pub fn look_at_ortho(&mut self, from: &Vec3, to: &Vec3) -> (res: Result<(), ConfigError>)
        ensures
            res is Err <==> look_at_degenerate_spec(*from, *to),
            res is Err ==> res == Result::<(), ConfigError>::Err(ConfigError::DegenerateBasis)
                && *final(self) == *old(self),
            res is Ok ==> *final(self) == (Camera {
                forward: look_forward_spec(*from, *to),
                left: look_left_spec(*from, *to),
                up: look_up_spec(*from, *to),
                view: look_at_view_spec(*from, *to, false),
                ..*old(self)
            }),
    {
        match self.look_basis(from, to) {
            Result::Err(e) => Result::Err(e),
            Result::Ok(()) => {
                let m = Mat4 {
                    m11: self.left.x,
                    m12: self.up.x,
                    m13: self.forward.x,
                    m14: from.x,
                    m21: self.left.y,
                    m22: self.up.y,
                    m23: self.forward.y,
                    m24: from.y,
                    m31: self.left.z,
                    m32: self.up.z,
                    m33: self.forward.z,
                    m34: from.z,
                    m41: 0,
                    m42: 0,
                    m43: 0,
                    m44: FX_ONE,
                };
                self.view = m.rigid_inverse();
                Result::Ok(())
            },
        }
    }

    /// Compute the orthonormal basis and the view matrix for the perspective
    /// path (the forward vector negated in the third basis column). Fails,
    /// leaving the camera unchanged, exactly on degenerate pairs.
    pub fn look_at_perspective(&mut self, from: &Vec3, to: &Vec3) -> (res: Result<
        (),
        ConfigError,
    >)
        ensures
            res is Err <==> look_at_degenerate_spec(*from, *to),
            res is Err ==> res == Result::<(), ConfigError>::Err(ConfigError::DegenerateBasis)
                && *final(self) == *old(self),
            res is Ok ==> *final(self) == (Camera {
                forward: look_forward_spec(*from, *to),
                left: look_left_spec(*from, *to),
                up: look_up_spec(*from, *to),
                view: look_at_view_spec(*from, *to, true),
                ..*old(self)
            }),
    {
        match self.look_basis(from, to) {
            Result::Err(e) => Result::Err(e),
            Result::Ok(()) => {
                let m = Mat4 {
                    m11: self.left.x,
                    m12: self.up.x,
                    m13: fx_neg(self.forward.x),
                    m14: from.x,
                    m21: self.left.y,
                    m22: self.up.y,
                    m23: fx_neg(self.forward.y),
                    m24: from.y,
                    m31: self.left.z,
                    m32: self.up.z,
                    m33: fx_neg(self.forward.z),
                    m34: from.z,
                    m41: 0,
                    m42: 0,
                    m43: 0,
                    m44: FX_ONE,
                };
                self.view = m.rigid_inverse();
                Result::Ok(())
            },
        }
    }

    /// The shared basis computation of both look-at paths: normalize the view
    /// direction, cross it with the world up reference, and orthogonalize.
    fn look_basis(&mut self, from: &Vec3, to: &Vec3) -> (res: Result<(), ConfigError>)
        ensures
            res is Err <==> look_at_degenerate_spec(*from, *to),
            res is Err ==> res == Result::<(), ConfigError>::Err(ConfigError::DegenerateBasis)
                && *final(self) == *old(self),
            res is Ok ==> *final(self) == (Camera {
                forward: look_forward_spec(*from, *to),
                left: look_left_spec(*from, *to),
                up: look_up_spec(*from, *to),
                ..*old(self)
            }),
    {
        let mut fwd = from.minus(to);
        if fwd.len() == 0 {
            return Result::Err(ConfigError::DegenerateBasis);
        }
        fwd.normalize();

        let mut tmp = Vec3::new(0, FX_ONE, 0);
        tmp.normalize();

        let mut left = Vec3::new_empty();
        tmp.cross_to(&fwd, &mut left);
        if left.len() == 0 {
            return Result::Err(ConfigError::DegenerateBasis);
        }
        left.normalize();

        let mut up = Vec3::new_empty();
        fwd.cross_to(&left, &mut up);
        if up.len() == 0 {
            return Result::Err(ConfigError::DegenerateBasis);
        }
        up.normalize();

        self.forward = fwd;
        self.left = left;
        self.up = up;
        Result::Ok(())
    }

    /// Build the symmetric orthographic projection from the stored frustum.
    /// Fails, leaving the camera unchanged, exactly when a frustum extent is
    /// zero.
    pub fn to_projection_ortho(&mut self) -> (res: Result<(), ConfigError>)
        ensures
            res is Err <==> old(self).r == old(self).l || old(self).t == old(self).b || old(
                self,
            ).n == old(self).f,
            res is Err ==> res == Result::<(), ConfigError>::Err(ConfigError::DegenerateViewport)
                && *final(self) == *old(self),
            res is Ok ==> *final(self) == (Camera {
                projection: ortho_projection_spec(
                    old(self).l,
                    old(self).r,
                    old(self).t,
                    old(self).b,
                    old(self).n,
                    old(self).f,
                ),
                ..*old(self)
            }),
    {
        if self.r == self.l || self.t == self.b || self.n == self.f {
            return Result::Err(ConfigError::DegenerateViewport);
        }
        let rl = fx_sub(self.r, self.l);
        let tb = fx_sub(self.t, self.b);
        let fn_ = fx_sub(self.f, self.n);
        self.projection = Mat4 {
            m11: fx_div(FX_TWO, rl),
            m12: 0,
            m13: 0,
            m14: fx_neg(fx_div(fx_add(self.r, self.l), rl)),
            m21: 0,
            m22: fx_div(FX_TWO, tb),
            m23: 0,
            m24: fx_neg(fx_div(fx_add(self.t, self.b), tb)),
            m31: 0,
            m32: 0,
            m33: fx_neg(fx_div(FX_TWO, fn_)),
            m34: fx_neg(fx_div(fx_add(self.f, self.n), fn_)),
            m41: 0,
            m42: 0,
            m43: 0,
            m44: FX_ONE,
        };
        Result::Ok(())
    }

    /// Build the half-extent orthographic projection from the stored frustum.
    /// Fails, leaving the camera unchanged, exactly when an extent is zero.
    pub fn to_projection_ortho2(&mut self) -> (res: Result<(), ConfigError>)
        ensures
            res is Err <==> old(self).r == 0 || old(self).t == 0 || old(self).n == old(self).f,
            res is Err ==> res == Result::<(), ConfigError>::Err(ConfigError::DegenerateViewport)
                && *final(self) == *old(self),
            res is Ok ==> *final(self) == (Camera {
                projection: ortho2_projection_spec(old(self).r, old(self).t, old(self).n, old(self).f),
                ..*old(self)
            }),
    {
        if self.r == 0 || self.t == 0 || self.n == self.f {
            return Result::Err(ConfigError::DegenerateViewport);
        }
        let fn_ = fx_sub(self.f, self.n);
        self.projection = Mat4 {
            m11: fx_div(FX_ONE, self.r),
            m12: 0,
            m13: 0,
            m14: 0,
            m21: 0,
            m22: fx_div(FX_ONE, self.t),
            m23: 0,
            m24: 0,
            m31: 0,
            m32: 0,
            m33: fx_neg(fx_div(FX_TWO, fn_)),
            m34: fx_neg(fx_div(fx_add(self.f, self.n), fn_)),
            m41: 0,
            m42: 0,
            m43: FX_ONE,
            m44: FX_ONE,
        };
        Result::Ok(())
    }

    /// Build the right-handed perspective projection over the near and far
    /// planes. Fails, leaving the camera unchanged, exactly when the depth
    /// extent is zero.
    pub fn to_projection_perspective_(&mut self) -> (res: Result<(), ConfigError>)
        ensures
            res is Err <==> old(self).n == old(self).f,
            res is Err ==> res == Result::<(), ConfigError>::Err(ConfigError::DegenerateViewport)
                && *final(self) == *old(self),
            res is Ok ==> *final(self) == (Camera {
                projection: perspective_projection_rh_spec(
                    old(self).fov_scale,
                    old(self).n,
                    old(self).f,
                ),
                ..*old(self)
            }),
    {
        if self.n == self.f {
            return Result::Err(ConfigError::DegenerateViewport);
        }
        let fn_ = fx_sub(self.f, self.n);
        self.projection = Mat4 {
            m11: self.fov_scale,
            m12: 0,
            m13: 0,
            m14: 0,
            m21: 0,
            m22: self.fov_scale,
            m23: 0,
            m24: 0,
            m31: 0,
            m32: 0,
            m33: fx_neg(fx_div(self.f, fn_)),
            m34: fx_neg(fx_div(fx_mul(self.f, self.n), fn_)),
            m41: 0,
            m42: 0,
            m43: FX_ONE,
            m44: 0,
        };
        Result::Ok(())
    }

    /// Build the full perspective projection from the stored frustum. Fails,
    /// leaving the camera unchanged, exactly when a frustum extent is zero.
    pub fn to_projection_perspective(&mut self) -> (res: Result<(), ConfigError>)
        ensures
            res is Err <==> old(self).r == old(self).l || old(self).t == old(self).b || old(
                self,
            ).n == old(self).f,
            res is Err ==> res == Result::<(), ConfigError>::Err(ConfigError::DegenerateViewport)
                && *final(self) == *old(self),
            res is Ok ==> *final(self) == (Camera {
                projection: perspective_projection_spec(
                    old(self).fov_scale,
                    old(self).l,
                    old(self).r,
                    old(self).t,
                    old(self).b,
                    old(self).n,
                    old(self).f,
                ),
                ..*old(self)
            }),
    {
        if self.r == self.l || self.t == self.b || self.n == self.f {
            return Result::Err(ConfigError::DegenerateViewport);
        }
        let rl = fx_sub(self.r, self.l);
        let tb = fx_sub(self.t, self.b);
        let fn_ = fx_sub(self.f, self.n);
        self.projection = Mat4 {
            m11: self.fov_scale,
            m12: 0,
            m13: fx_div(fx_add(self.r, self.l), rl),
            m14: 0,
            m21: 0,
            m22: self.fov_scale,
            m23: fx_div(fx_add(self.t, self.b), tb),
            m24: 0,
            m31: 0,
            m32: 0,
            m33: fx_neg(fx_div(fx_add(self.f, self.n), fn_)),
            m34: fx_neg(fx_div(fx_mul(FX_TWO, fx_mul(self.f, self.n)), fn_)),
            m41: 0,
            m42: 0,
            m43: FX_ONE,
            m44: 0,
        };
        Result::Ok(())
    }

    /// Configure the whole orthographic pipeline: store the frustum, build
    /// the basis and view matrix, build the projection, and compose the
    /// world-to-clip transform. On failure the frustum scalars are stored but
    /// the matrices are left as they were.
    pub fn to_ortho(
        &mut self,
        from: &Vec3,
        to: &Vec3,
        l: i64,
        r: i64,
        t: i64,
        b: i64,
        n: i64,
        f: i64,
    ) -> (res: Result<(), ConfigError>)
        ensures
            final(self).l == l && final(self).r == r && final(self).t == t && final(self).b == b
                && final(self).n == n && final(self).f == f,
            look_at_degenerate_spec(*from, *to) ==> res == Result::<(), ConfigError>::Err(
                ConfigError::DegenerateBasis,
            ) && *final(self) == (Camera { l, r, t, b, n, f, ..*old(self) }),
            !look_at_degenerate_spec(*from, *to) && (r == l || t == b || n == f) ==> res
                == Result::<(), ConfigError>::Err(ConfigError::DegenerateViewport) && *final(self)
                == (Camera {
                l,
                r,
                t,
                b,
                n,
                f,
                forward: look_forward_spec(*from, *to),
                left: look_left_spec(*from, *to),
                up: look_up_spec(*from, *to),
                view: look_at_view_spec(*from, *to, false),
                ..*old(self)
            }),
            !look_at_degenerate_spec(*from, *to) && !(r == l || t == b || n == f) ==> res
                == Result::<(), ConfigError>::Ok(()) && *final(self) == (Camera {
                l,
                r,
                t,
                b,
                n,
                f,
                forward: look_forward_spec(*from, *to),
                left: look_left_spec(*from, *to),
                up: look_up_spec(*from, *to),
                view: look_at_view_spec(*from, *to, false),
                projection: ortho_projection_spec(l, r, t, b, n, f),
                transformation: mat4_mul_spec(
                    ortho_projection_spec(l, r, t, b, n, f),
                    look_at_view_spec(*from, *to, false),
                ),
                ..*old(self)
            }),
    {
        self.set_viewport(l, r, t, b, n, f);
        match self.look_at_ortho(from, to) {
            Result::Err(e) => Result::Err(e),
            Result::Ok(()) => match self.to_projection_ortho() {
                Result::Err(e) => Result::Err(e),
                Result::Ok(()) => {
                    self.transformation = self.projection.times(&self.view);
                    Result::Ok(())
                },
            },
        }
    }

    /// Configure the whole perspective pipeline: store the frustum, build the
    /// basis and view matrix, build the projection, and compose the
    /// world-to-clip transform. On failure the frustum scalars are stored but
    /// the matrices are left as they were.
    pub fn to_perspective(
        &mut self,
        from: &Vec3,
        to: &Vec3,
        l: i64,
        r: i64,
        t: i64,
        b: i64,
        n: i64,
        f: i64,
    ) -> (res: Result<(), ConfigError>)
        ensures
            final(self).l == l && final(self).r == r && final(self).t == t && final(self).b == b
                && final(self).n == n && final(self).f == f,
            look_at_degenerate_spec(*from, *to) ==> res == Result::<(), ConfigError>::Err(
                ConfigError::DegenerateBasis,
            ) && *final(self) == (Camera { l, r, t, b, n, f, ..*old(self) }),
            !look_at_degenerate_spec(*from, *to) && (r == l || t == b || n == f) ==> res
                == Result::<(), ConfigError>::Err(ConfigError::DegenerateViewport) && *final(self)
                == (Camera {
                l,
                r,
                t,
                b,
                n,
                f,
                forward: look_forward_spec(*from, *to),
                left: look_left_spec(*from, *to),
                up: look_up_spec(*from, *to),
                view: look_at_view_spec(*from, *to, true),
                ..*old(self)
            }),
            !look_at_degenerate_spec(*from, *to) && !(r == l || t == b || n == f) ==> res
                == Result::<(), ConfigError>::Ok(()) && *final(self) == (Camera {
                l,
                r,
                t,
                b,
                n,
                f,
                forward: look_forward_spec(*from, *to),
                left: look_left_spec(*from, *to),
                up: look_up_spec(*from, *to),
                view: look_at_view_spec(*from, *to, true),
                projection: perspective_projection_spec(old(self).fov_scale, l, r, t, b, n, f),
                transformation: mat4_mul_spec(
                    perspective_projection_spec(old(self).fov_scale, l, r, t, b, n, f),
                    look_at_view_spec(*from, *to, true),
                ),
                ..*old(self)
            }),
    {
        self.set_viewport(l, r, t, b, n, f);
        match self.look_at_perspective(from, to) {
            Result::Err(e) => Result::Err(e),
            Result::Ok(()) => match self.to_projection_perspective() {
                Result::Err(e) => Result::Err(e),
                Result::Ok(()) => {
                    self.transformation = self.projection.times(&self.view);
                    Result::Ok(())
                },
            },
        }
    }
}

} // verus!
