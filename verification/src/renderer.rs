//! The rendering pipeline: world-to-raster projection, the three primitive
//! rasterizers (point, line, triangle) with a per-sub-sample depth test, and
//! the supersampled frame and depth buffers.
//!
//! Buffers hold one cell per sub-sample, indexed
//! `row * buf_width + column * used_samples + sample` with
//! `buf_width == img_width * used_samples`. A written color is pre-scaled by
//! `1 / used_samples`, so the resolved pixel is the plain sum of its cells.

use vstd::prelude::*;
use crate::camera::Camera;
use crate::color::Color;
use crate::fx::{
    fx_abs, fx_add, fx_add_spec, fx_div, fx_div_spec, fx_mul, fx_mul_spec, fx_neg, fx_neg_spec,
    fx_div_trunc, fx_sat, fx_sub, fx_sub_spec, max2, max2_spec, min2, min2_spec, FX_HALF,
    FX_ONE,
};
use crate::mat::{fx_dot3, fx_dot3_spec, Mat4};
use crate::mesh::Mesh;
use crate::scene::Scene;
use crate::shape::{Shape, Vertex};
use crate::texture::Texture;
use crate::vec::{fxv, v3_len_spec, v3_sub_spec, Vec2, Vec3};

verus! {

/// The depth value buffers are cleared to: the largest fixed-point value, so
/// the first write at a sample always wins the depth test.
pub const Z_MAX: i64 = 0x4000_0000_0000_0000;

/// A vertex after projection: raster-space position, reciprocal raster depth
/// `1 / pos.z`, and the homogeneous weight (already inverted when the divide
/// happened), used for perspective-correct attribute interpolation.
#[derive(Clone, Copy, PartialEq, Eq, Structural, Debug)]
pub struct RVert {
    pub pos: Vec3,
    pub rz: i64,
    pub w: i64,
}

/// The clip-space x of a vertex under a transform (translation included).
pub open spec fn clip_x_spec(ct: Mat4, v: Vec3) -> int {
    fx_add_spec(ct.m14 as int, fx_dot3_spec(ct.m11, ct.m12, ct.m13, v.x, v.y, v.z))
}

pub open spec fn clip_y_spec(ct: Mat4, v: Vec3) -> int {
    fx_add_spec(ct.m24 as int, fx_dot3_spec(ct.m21, ct.m22, ct.m23, v.x, v.y, v.z))
}

pub open spec fn clip_z_spec(ct: Mat4, v: Vec3) -> int {
    fx_add_spec(ct.m34 as int, fx_dot3_spec(ct.m31, ct.m32, ct.m33, v.x, v.y, v.z))
}

pub open spec fn clip_w_spec(ct: Mat4, v: Vec3) -> int {
    fx_add_spec(ct.m44 as int, fx_dot3_spec(ct.m41, ct.m42, ct.m43, v.x, v.y, v.z))
}

/// Project a world-space vertex to raster space. `None` discards the whole
/// primitive: a negative homogeneous weight (behind the camera; no true
/// near-plane clipping is attempted) or a zero raster depth (whose reciprocal
/// does not exist).
pub open spec fn raster_of_spec(ct: Mat4, v: Vec3, img_w_h: i64, img_h_h: i64) -> Option<RVert> {
    let wgt = clip_w_spec(ct, v);
    if wgt < 0 {
        Option::None
    } else {
        let divide = wgt != FX_ONE as int && wgt != 0;
        let winv = if divide {
            fx_div_spec(FX_ONE as int, wgt)
        } else {
            wgt
        };
        let nx = if divide {
            fx_mul_spec(clip_x_spec(ct, v), winv)
        } else {
            clip_x_spec(ct, v)
        };
        let ny = if divide {
            fx_mul_spec(clip_y_spec(ct, v), winv)
        } else {
            clip_y_spec(ct, v)
        };
        let nz = if divide {
            fx_mul_spec(clip_z_spec(ct, v), winv)
        } else {
            clip_z_spec(ct, v)
        };
        let rx = fx_mul_spec(fx_add_spec(nx, FX_ONE as int), img_w_h as int);
        let ry = fx_mul_spec(fx_sub_spec(FX_ONE as int, ny), img_h_h as int);
        let rz = fx_neg_spec(nz);
        if rz == 0 {
            Option::None
        } else {
            Option::Some(
                RVert {
                    pos: Vec3 { x: fxv(rx), y: fxv(ry), z: fxv(rz) },
                    rz: fxv(fx_div_spec(FX_ONE as int, rz)),
                    w: fxv(winv),
                },
            )
        }
    }
}

/// The pixel a nonnegative raster coordinate falls in (negative coordinates
/// clamp to pixel zero).
pub open spec fn px_floor_spec(v: int) -> int {
    if v <= 0 {
        0
    } else {
        v / 0x1_0000_0000
    }
}

/// A color scaled channelwise by a fixed-point factor (the `1 / used_samples`
/// pre-scaling applied at every buffer write).
pub open spec fn scaled_color_spec(c: Color, sf: i64) -> Color {
    Color {
        r: fxv(fx_mul_spec(c.r as int, sf as int)),
        g: fxv(fx_mul_spec(c.g as int, sf as int)),
        b: fxv(fx_mul_spec(c.b as int, sf as int)),
    }
}

/// The sub-sample offset grid: for a supersampling factor `step`, sample
/// `idx` (row-major in the `step * step` grid) sits at
/// `(0.5 + column) / step` by `(0.5 + row) / step` inside the pixel.
pub open spec fn sample_offset_spec(step: int, idx: int) -> Vec3 {
    let sy = idx / step;
    let sx = idx % step;
    let stepstart = fx_div_spec(FX_HALF as int, step * 0x1_0000_0000);
    let stride = fx_add_spec(stepstart, stepstart);
    Vec3 {
        x: fxv(fx_add_spec(stepstart, fx_mul_spec(sx * 0x1_0000_0000, stride))),
        y: fxv(fx_add_spec(stepstart, fx_mul_spec(sy * 0x1_0000_0000, stride))),
        z: 0i64,
    }
}

/// A raster coordinate of the sub-sample: the pixel index plus the
/// sub-sample offset.
pub open spec fn sample_pos_spec(px: int, off: i64) -> int {
    fx_add_spec(px * 0x1_0000_0000, off as int)
}

/// The smaller of two mathematical integers.
pub open spec fn min_int(a: int, b: int) -> int {
    if a < b {
        a
    } else {
        b
    }
}

/// The smallest of three fixed-point values.
pub open spec fn min3_spec(a: i64, b: i64, c: i64) -> i64 {
    if a < b {
        if a < c {
            a
        } else {
            c
        }
    } else {
        if b < c {
            b
        } else {
            c
        }
    }
}

/// The largest of three fixed-point values.
pub open spec fn max3_spec(a: i64, b: i64, c: i64) -> i64 {
    if a > b {
        if a > c {
            a
        } else {
            c
        }
    } else {
        if b > c {
            b
        } else {
            c
        }
    }
}

/// The half-space edge function: twice the signed area of the triangle
/// `(a, b, sample)`, nonnegative exactly when the sample lies on or left of
/// the directed edge from `a` to `b`.
pub open spec fn edge_spec(px: int, py: int, a: Vec3, b: Vec3) -> int {
    fx_sub_spec(
        fx_mul_spec(fx_sub_spec(px, a.x as int), fx_sub_spec(b.y as int, a.y as int)),
        fx_mul_spec(fx_sub_spec(py, a.y as int), fx_sub_spec(b.x as int, a.x as int)),
    )
}

/// Twice the signed area of a raster triangle.
pub open spec fn area2_spec(r1: Vec3, r2: Vec3, r3: Vec3) -> int {
    fx_sub_spec(
        fx_mul_spec(fx_sub_spec(r3.x as int, r1.x as int), fx_sub_spec(r2.y as int, r1.y as int)),
        fx_mul_spec(fx_sub_spec(r3.y as int, r1.y as int), fx_sub_spec(r2.x as int, r1.x as int)),
    )
}

/// A triangle after projection: the three raster vertices, their reciprocal
/// depths and homogeneous weights, and the reciprocal of twice the signed
/// area.
#[derive(Clone, Copy, PartialEq, Eq, Structural, Debug)]
pub struct TriRaster {
    pub r1: Vec3,
    pub r2: Vec3,
    pub r3: Vec3,
    pub rz1: i64,
    pub rz2: i64,
    pub rz3: i64,
    pub w1: i64,
    pub w2: i64,
    pub w3: i64,
    pub inv_area: i64,
}

/// Project the three vertices of a triangle and take the reciprocal area.
/// `None` discards the primitive: a vertex behind the camera or at zero
/// raster depth, or a degenerate (zero-area) raster triangle.
pub open spec fn tri_setup_spec(ct: Mat4, shape: Shape, img_w_h: i64, img_h_h: i64) -> Option<
    TriRaster,
> {
    let o1 = raster_of_spec(ct, shape.vertices@[0].vec, img_w_h, img_h_h);
    let o2 = raster_of_spec(ct, shape.vertices@[1].vec, img_w_h, img_h_h);
    let o3 = raster_of_spec(ct, shape.vertices@[2].vec, img_w_h, img_h_h);
    if o1 is None || o2 is None || o3 is None {
        Option::None
    } else {
        let v1 = o1->0;
        let v2 = o2->0;
        let v3 = o3->0;
        let a2 = area2_spec(v1.pos, v2.pos, v3.pos);
        if a2 == 0 {
            Option::None
        } else {
            Option::Some(
                TriRaster {
                    r1: v1.pos,
                    r2: v2.pos,
                    r3: v3.pos,
                    rz1: v1.rz,
                    rz2: v2.rz,
                    rz3: v3.rz,
                    w1: v1.w,
                    w2: v2.w,
                    w3: v3.w,
                    inv_area: fxv(fx_div_spec(FX_ONE as int, a2)),
                },
            )
        }
    }
}

/// A sample is covered when it lies on the nonnegative side of all three
/// directed edges (consistent winding assumed; no back-face culling).
pub open spec fn tri_cov_spec(t: TriRaster, px: int, py: int) -> bool {
    &&& edge_spec(px, py, t.r2, t.r3) >= 0
    &&& edge_spec(px, py, t.r3, t.r1) >= 0
    &&& edge_spec(px, py, t.r1, t.r2) >= 0
}

/// The first barycentric weight of a sample: its edge function against the
/// opposite edge, scaled by the reciprocal area.
pub open spec fn tri_bc0_spec(t: TriRaster, px: int, py: int) -> int {
    fx_mul_spec(edge_spec(px, py, t.r2, t.r3), t.inv_area as int)
}

pub open spec fn tri_bc1_spec(t: TriRaster, px: int, py: int) -> int {
    fx_mul_spec(edge_spec(px, py, t.r3, t.r1), t.inv_area as int)
}

pub open spec fn tri_bc2_spec(t: TriRaster, px: int, py: int) -> int {
    fx_mul_spec(edge_spec(px, py, t.r1, t.r2), t.inv_area as int)
}

/// The interpolated depth of a sample: the barycentric combination of the
/// three reciprocal vertex depths.
pub open spec fn tri_depth_spec(t: TriRaster, px: int, py: int) -> int {
    fx_add_spec(
        fx_add_spec(
            fx_mul_spec(t.rz1 as int, tri_bc0_spec(t, px, py)),
            fx_mul_spec(t.rz2 as int, tri_bc1_spec(t, px, py)),
        ),
        fx_mul_spec(t.rz3 as int, tri_bc2_spec(t, px, py)),
    )
}

/// A perspective-corrected attribute: the weighted sum of the three vertex
/// attributes, renormalized by `z3`.
pub open spec fn interp3_spec(z0: int, z1: int, z2: int, a: i64, b: i64, c: i64, z3: int) -> int {
    fx_mul_spec(
        fx_add_spec(
            fx_add_spec(fx_mul_spec(z0, a as int), fx_mul_spec(z1, b as int)),
            fx_mul_spec(z2, c as int),
        ),
        z3,
    )
}

/// A texture pixel coordinate: the interpolated coordinate scaled onto the
/// 512-cell grid and clamped to its edge.
pub open spec fn tex_px_spec(v: int) -> int {
    let p = px_floor_spec(fx_mul_spec(v, 512int * 0x1_0000_0000int));
    if p > 511 {
        511
    } else {
        p
    }
}

/// The color of a covered sample: perspective-corrected vertex colors for an
/// untextured shape, a nearest-neighbor lookup in the first texture
/// otherwise.
pub open spec fn tri_color_spec(
    t: TriRaster,
    v1: Vertex,
    v2: Vertex,
    v3: Vertex,
    tex_id: i32,
    textures: Seq<Texture>,
    px: int,
    py: int,
) -> Color {
    let z0 = fx_mul_spec(tri_bc0_spec(t, px, py), t.w1 as int);
    let z1 = fx_mul_spec(tri_bc1_spec(t, px, py), t.w2 as int);
    let z2 = fx_mul_spec(tri_bc2_spec(t, px, py), t.w3 as int);
    let z3 = fx_div_spec(FX_ONE as int, fx_add_spec(fx_add_spec(z0, z1), z2));
    if tex_id == -1 {
        Color {
            r: fxv(interp3_spec(z0, z1, z2, v1.color.r, v2.color.r, v3.color.r, z3)),
            g: fxv(interp3_spec(z0, z1, z2, v1.color.g, v2.color.g, v3.color.g, z3)),
            b: fxv(interp3_spec(z0, z1, z2, v1.color.b, v2.color.b, v3.color.b, z3)),
        }
    } else {
        let tx = interp3_spec(z0, z1, z2, v1.tex_coord.x, v2.tex_coord.x, v3.tex_coord.x, z3);
        let ty = interp3_spec(z0, z1, z2, v1.tex_coord.y, v2.tex_coord.y, v3.tex_coord.y, z3);
        textures[0].buffer@[tex_px_spec(ty) * 512 + tex_px_spec(tx)]
    }
}

/// The renderer: image and buffer dimensions, the camera, the sub-sample
/// offset grid, the per-sub-sample color and depth buffers, the textures, the
/// background color, and the running depth range used by the depth image.
pub struct Renderer {
    pub img_width: usize,
    pub img_height: usize,
    pub img_width_half: i64,
    pub img_height_half: i64,
    pub buf_width: usize,
    pub buf_height: usize,
    pub camera: Camera,
    pub samplestep: usize,
    pub used_samples: usize,
    pub samples: Vec<Vec3>,
    pub sample_factor: i64,
    pub frame_buffer: Vec<Color>,
    pub z_buffer: Vec<i64>,
    pub texture: Vec<Texture>,
    pub bgcolor: Color,
    pub min_z: i64,
    pub max_z: i64,
}

impl Renderer {
    /// The buffer cell of sub-sample `s` of pixel column `w` in row `h`.
    pub open spec fn buf_index_spec(self, h: int, w: int, s: int) -> int {
        h * self.buf_width + w * self.used_samples + s
    }

    /// The total cell count of each buffer.
    pub open spec fn cell_count(self) -> int {
        self.img_width * self.img_height * self.used_samples
    }

    /// Structural soundness: the derived dimensions match, both buffers hold
    /// one cell per sub-sample, the offset grid is the canonical one, and the
    /// whole buffer is small enough for the index arithmetic.
    pub open spec fn wf(self) -> bool {
        &&& self.samplestep >= 1
        &&& self.samplestep <= 0x1000
        &&& self.used_samples == self.samplestep * self.samplestep
        &&& self.buf_width == self.img_width * self.used_samples
        &&& self.img_width * self.used_samples <= 0x1000_0000
        &&& self.buf_height == self.img_height
        &&& self.img_width <= 0x1000_0000
        &&& self.img_height <= 0x1000_0000
        &&& self.cell_count() <= 0x1000_0000
        &&& self.img_width_half == self.img_width * (FX_HALF as int)
        &&& self.img_height_half == self.img_height * (FX_HALF as int)
        &&& self.frame_buffer@.len() == self.cell_count()
        &&& self.z_buffer@.len() == self.cell_count()
        &&& self.samples@.len() == self.used_samples
        &&& (forall|i: int|
            0 <= i < self.used_samples ==> self.samples@[i] == sample_offset_spec(
                self.samplestep as int,
                i,
            ))
        &&& self.sample_factor == fx_div_spec(
            FX_ONE as int,
            self.used_samples * 0x1_0000_0000,
        )
    }

    /// The configuration (everything but the buffers and the depth range) of
    /// two renderer states is the same.
    pub open spec fn same_config(a: Renderer, b: Renderer) -> bool {
        &&& a.img_width == b.img_width
        &&& a.img_height == b.img_height
        &&& a.img_width_half == b.img_width_half
        &&& a.img_height_half == b.img_height_half
        &&& a.buf_width == b.buf_width
        &&& a.buf_height == b.buf_height
        &&& a.camera == b.camera
        &&& a.samplestep == b.samplestep
        &&& a.used_samples == b.used_samples
        &&& a.samples@ == b.samples@
        &&& a.sample_factor == b.sample_factor
        &&& a.texture == b.texture
        &&& a.bgcolor == b.bgcolor
    }

    /// A renderer for a `width` by `height` image with `samplestep * samplestep`
    /// sub-samples per pixel, its buffers cleared to the background color and
    /// the maximum depth.
    pub fn new(img_width: usize, img_height: usize, bgcolor: &Color, samplestep: usize) -> (r:
        Renderer)
        requires
            1 <= samplestep <= 0x1000,
            img_width <= 0x1000_0000,
            img_height <= 0x1000_0000,
            img_width * (samplestep * samplestep) <= 0x1000_0000,
            img_width * img_height * (samplestep * samplestep) <= 0x1000_0000,
        ensures
            r.wf(),
            r.img_width == img_width,
            r.img_height == img_height,
            r.samplestep == samplestep,
            r.bgcolor == *bgcolor,
            r.texture@.len() == 0,
            r.camera == crate::camera::camera_zero_spec(),
            r.min_z == Z_MAX,
            r.max_z == 0,
            forall|i: int|
                0 <= i < r.cell_count() ==> r.frame_buffer@[i] == scaled_color_spec(
                    *bgcolor,
                    r.sample_factor,
                ),
            forall|i: int| 0 <= i < r.cell_count() ==> r.z_buffer@[i] == Z_MAX,
    {
        proof {
            assert(1 <= samplestep * samplestep <= 0x100_0000) by (nonlinear_arith)
                requires
                    1 <= samplestep <= 0x1000;
        }
        let us: usize = samplestep * samplestep;
        let buffersize: usize = compute_cells(img_width, img_height, us);
        let bw: usize = img_width * us;

        let sample_factor: i64 = fx_div(FX_ONE, fx_of_count(us));

        let mut frame_buffer: Vec<Color> = Vec::new();
        let mut z_buffer: Vec<i64> = Vec::new();
        let clear_color = scale_color(bgcolor, sample_factor);
        let mut i: usize = 0;
        while i < buffersize
            invariant
                i <= buffersize,
                frame_buffer@.len() == i,
                z_buffer@.len() == i,
                clear_color == scaled_color_spec(*bgcolor, sample_factor),
                forall|j: int| 0 <= j < i ==> frame_buffer@[j] == clear_color,
                forall|j: int| 0 <= j < i ==> z_buffer@[j] == Z_MAX,
            decreases buffersize - i,
        {
            frame_buffer.push(clear_color);
            z_buffer.push(Z_MAX);
            i = i + 1;
        }

        let samples = build_sample_grid(samplestep, us);

        Renderer {
            camera: Camera::new(),
            min_z: Z_MAX,
            max_z: 0,
            texture: Vec::new(),
            img_width,
            img_height,
            img_width_half: fx_half_of_count(img_width),
            img_height_half: fx_half_of_count(img_height),
            buf_width: bw,
            buf_height: img_height,
            samplestep,
            frame_buffer,
            z_buffer,
            used_samples: us,
            sample_factor,
            samples,
            bgcolor: bgcolor.clone(),
        }
    }

    /// Reset every depth cell to the maximum depth, every color cell to the
    /// pre-scaled background color, and the depth range trackers.
    pub fn clear_frame(&mut self)
        requires
            old(self).wf(),
        ensures
            final(self).wf(),
            Renderer::same_config(*final(self), *old(self)),
            final(self).min_z == Z_MAX,
            final(self).max_z == 0,
            forall|i: int|
                0 <= i < old(self).cell_count() ==> final(self).frame_buffer@[i]
                    == scaled_color_spec(old(self).bgcolor, old(self).sample_factor),
            forall|i: int| 0 <= i < old(self).cell_count() ==> final(self).z_buffer@[i] == Z_MAX,
    {
        let buffersize: usize = self.frame_buffer.len();
        let clear_color = scale_color(&self.bgcolor, self.sample_factor);
        let mut i: usize = 0;
        while i < buffersize
            invariant
                i <= buffersize,
                self.frame_buffer@.len() == buffersize,
                self.z_buffer@.len() == buffersize,
                clear_color == scaled_color_spec(self.bgcolor, self.sample_factor),
                Renderer::same_config(*self, *old(self)),
                self.wf(),
                buffersize == self.cell_count(),
                forall|j: int| 0 <= j < i ==> self.frame_buffer@[j] == clear_color,
                forall|j: int| 0 <= j < i ==> self.z_buffer@[j] == Z_MAX,
            decreases buffersize - i,
        {
            self.frame_buffer.set(i, clear_color);
            self.z_buffer.set(i, Z_MAX);
            i = i + 1;
        }
        self.min_z = Z_MAX;
        self.max_z = 0;
    }
}

/// The fixed-point value of a small count (an image dimension or a sample
/// count).
fn fx_of_count(n: usize) -> (r: i64)
    requires
        n <= 0x1000_0000,
    ensures
        r as int == n * 0x1_0000_0000,
{
    (n as i64) * 0x1_0000_0000
}

/// Half the fixed-point value of a small count.
fn fx_half_of_count(n: usize) -> (r: i64)
    requires
        n <= 0x1000_0000,
    ensures
        r as int == n * (FX_HALF as int),
{
    (n as i64) * FX_HALF
}

/// `w * h * us`, shown to fit because the caller bounds the product.
fn compute_cells(w: usize, h: usize, us: usize) -> (r: usize)
    requires
        us >= 1,
        w * h * us <= 0x1000_0000,
    ensures
        r == w * h * us,
{
    proof {
        assert(w * h <= w * h * us && w * h * us == (w * h) * us) by (nonlinear_arith)
            requires
                us >= 1 && w >= 0 && h >= 0;
    }
    let wh: usize = w * h;
    wh * us
}

/// Scale a color channelwise by a fixed-point factor.
pub fn scale_color(c: &Color, sf: i64) -> (r: Color)
    ensures
        r == scaled_color_spec(*c, sf),
{
    Color { r: fx_mul(c.r, sf), g: fx_mul(c.g, sf), b: fx_mul(c.b, sf) }
}

/// The canonical sub-sample offset grid for a supersampling factor.
fn build_sample_grid(samplestep: usize, us: usize) -> (samples: Vec<Vec3>)
    requires
        1 <= samplestep <= 0x1000_0000,
        us == samplestep * samplestep,
    ensures
        samples@.len() == us,
        forall|i: int|
            0 <= i < us ==> samples@[i] == sample_offset_spec(samplestep as int, i),
{
    let stepstart: i64 = fx_div(FX_HALF, fx_of_count(samplestep));
    let stride: i64 = fx_add(stepstart, stepstart);
    let mut samples: Vec<Vec3> = Vec::new();
    let mut sy: usize = 0;
    proof {
        assert(samplestep * samplestep <= 0x1000_0000 * 0x1000_0000) by (nonlinear_arith)
            requires
                samplestep <= 0x1000_0000;
    }
    while sy < samplestep
        invariant
            sy <= samplestep,
            1 <= samplestep <= 0x1000_0000,
            us == samplestep * samplestep,
            us <= 0x1000_0000 * 0x1000_0000,
            stepstart as int == fx_div_spec(FX_HALF as int, samplestep * 0x1_0000_0000),
            stride as int == fx_add_spec(stepstart as int, stepstart as int),
            samples@.len() == sy * samplestep,
            forall|i: int|
                0 <= i < sy * samplestep ==> samples@[i] == sample_offset_spec(
                    samplestep as int,
                    i,
                ),
        decreases samplestep - sy,
    {
        let mut sx: usize = 0;
        proof {
            assert(sy * samplestep + samplestep <= samplestep * samplestep) by (nonlinear_arith)
                requires
                    sy < samplestep;
            assert(sy * samplestep >= 0) by (nonlinear_arith)
                requires
                    sy >= 0 && samplestep >= 0;
        }
        while sx < samplestep
            invariant
                sx <= samplestep,
                sy < samplestep,
                1 <= samplestep <= 0x1000_0000,
                us == samplestep * samplestep,
                us <= 0x1000_0000 * 0x1000_0000,
                sy * samplestep + samplestep <= us,
                sy * samplestep >= 0,
                stepstart as int == fx_div_spec(FX_HALF as int, samplestep * 0x1_0000_0000),
                stride as int == fx_add_spec(stepstart as int, stepstart as int),
                samples@.len() == sy * samplestep + sx,
                forall|i: int|
                    0 <= i < sy * samplestep + sx ==> samples@[i] == sample_offset_spec(
                        samplestep as int,
                        i,
                    ),
            decreases samplestep - sx,
        {
            let offx = fx_add(stepstart, fx_mul(fx_of_count(sx), stride));
            let offy = fx_add(stepstart, fx_mul(fx_of_count(sy), stride));
            let idx: Ghost<int> = Ghost((sy * samplestep + sx) as int);
            proof {
                vstd::arithmetic::div_mod::lemma_fundamental_div_mod_converse(
                    idx@,
                    samplestep as int,
                    sy as int,
                    sx as int,
                );
                assert(idx@ / (samplestep as int) == sy as int);
                assert(idx@ % (samplestep as int) == sx as int);
                assert(Vec3 { x: offx, y: offy, z: 0i64 } == sample_offset_spec(
                    samplestep as int,
                    idx@,
                ));
            }
            samples.push(Vec3 { x: offx, y: offy, z: 0 });
            sx = sx + 1;
        }
        sy = sy + 1;
        proof {
            assert((sy - 1) * samplestep + samplestep == sy * samplestep) by (nonlinear_arith);
        }
    }
    proof {
        assert(samplestep * samplestep == us);
    }
    samples
}

/// Project a world-space vertex through the camera transform into raster
/// space; `None` means the primitive is discarded.
pub fn world_to_raster(ct: &Mat4, v: &Vec3, img_w_h: i64, img_h_h: i64) -> (res: Option<RVert>)
    ensures
        res == raster_of_spec(*ct, *v, img_w_h, img_h_h),
{
    let wgt = fx_add(ct.m44, fx_dot3(ct.m41, ct.m42, ct.m43, v.x, v.y, v.z));
    if wgt < 0 {
        return Option::None;
    }
    let mut nx = fx_add(ct.m14, fx_dot3(ct.m11, ct.m12, ct.m13, v.x, v.y, v.z));
    let mut ny = fx_add(ct.m24, fx_dot3(ct.m21, ct.m22, ct.m23, v.x, v.y, v.z));
    let mut nz = fx_add(ct.m34, fx_dot3(ct.m31, ct.m32, ct.m33, v.x, v.y, v.z));
    let mut winv = wgt;
    if wgt != FX_ONE && wgt != 0 {
        winv = fx_div(FX_ONE, wgt);
        nx = fx_mul(nx, winv);
        ny = fx_mul(ny, winv);
        nz = fx_mul(nz, winv);
    }
    let rx = fx_mul(fx_add(nx, FX_ONE), img_w_h);
    let ry = fx_mul(fx_sub(FX_ONE, ny), img_h_h);
    let rz = fx_neg(nz);
    if rz == 0 {
        return Option::None;
    }
    Option::Some(RVert { pos: Vec3 { x: rx, y: ry, z: rz }, rz: fx_div(FX_ONE, rz), w: winv })
}

/// The pixel a raster coordinate falls in (clamped to zero on the left).
pub fn px_floor(v: i64) -> (r: usize)
    ensures
        r as int == px_floor_spec(v as int),
        r <= 0x8000_0000,
{
    if v <= 0 {
        0
    } else {
        ((v as u64) / 0x1_0000_0000u64) as usize
    }
}

/// Every cell index of a pixel's sub-sample lies inside the buffers.
pub proof fn lemma_cell_in_range(r: Renderer, h: int, w: int, s: int)
    requires
        r.wf(),
        0 <= h < r.img_height,
        0 <= w < r.img_width,
        0 <= s < r.used_samples,
    ensures
        0 <= r.buf_index_spec(h, w, s) < r.cell_count(),
        h * r.buf_width <= r.cell_count(),
        w * r.used_samples + s < r.buf_width,
{
    let ww = r.img_width as int;
    let hh = r.img_height as int;
    let us = r.used_samples as int;
    let bufw = r.buf_width as int;
    assert(w * us + s < bufw) by (nonlinear_arith)
        requires
            0 <= w && w < ww && 0 <= s && s < us && bufw == ww * us;
    assert(h * bufw + bufw <= hh * bufw) by (nonlinear_arith)
        requires
            0 <= h && h < hh && bufw >= 0;
    assert(hh * bufw == ww * hh * us) by (nonlinear_arith)
        requires
            bufw == ww * us;
    assert(h * bufw >= 0) by (nonlinear_arith)
        requires
            h >= 0 && bufw >= 0;
    assert(w * us >= 0) by (nonlinear_arith)
        requires
            w >= 0 && us >= 0;
}

impl Renderer {
    /// Write `z` at cell `bi` when it wins the strict depth test, widening
    /// the tracked depth range; report whether it won. An exactly equal depth
    /// keeps the stored value, so on ties the first write wins.
    fn depth_test_and_set(&mut self, z: i64, bi: usize) -> (accept: bool)
        requires
            bi < old(self).z_buffer@.len(),
        ensures
            accept == (z < old(self).z_buffer@[bi as int]),
            Renderer::same_config(*final(self), *old(self)),
            final(self).frame_buffer == old(self).frame_buffer,
            accept ==> final(self).z_buffer@ == old(self).z_buffer@.update(bi as int, z) && final(self).min_z == (if z < old(self).min_z {
                z
            } else {
                old(self).min_z
            }) && final(self).max_z == (if z > old(self).max_z {
                z
            } else {
                old(self).max_z
            }),
            !accept ==> final(self).z_buffer == old(self).z_buffer && final(self).min_z == old(self).min_z && final(self).max_z == old(self).max_z,
    {
        if z < self.z_buffer[bi] {
            self.z_buffer.set(bi, z);
            if z < self.min_z {
                self.min_z = z;
            }
            if z > self.max_z {
                self.max_z = z;
            }
            true
        } else {
            false
        }
    }

    /// Store a color at cell `bi`, pre-scaled by `1 / used_samples`.
    fn set_color_to_fb(&mut self, bi: usize, new_color: &Color)
        requires
            bi < old(self).frame_buffer@.len(),
        ensures
            Renderer::same_config(*final(self), *old(self)),
            final(self).z_buffer == old(self).z_buffer,
            final(self).min_z == old(self).min_z,
            final(self).max_z == old(self).max_z,
            final(self).frame_buffer@ == old(self).frame_buffer@.update(
                bi as int,
                scaled_color_spec(*new_color, old(self).sample_factor),
            ),
    {
        let c = scale_color(new_color, self.sample_factor);
        self.frame_buffer.set(bi, c);
    }

    /// Whether a projected point lands inside the image.
    pub open spec fn point_visible_spec(self, rv: RVert) -> bool {
        &&& rv.pos.x >= 0
        &&& rv.pos.y >= 0
        &&& px_floor_spec(rv.pos.x as int) < self.img_width
        &&& px_floor_spec(rv.pos.y as int) < self.img_height
    }

    /// Rasterize a point: project its single vertex; when it lands inside the
    /// image, depth-test its reciprocal depth at every sub-sample of that
    /// pixel and write the vertex color where it wins. A projection discard
    /// or an off-image point leaves the renderer untouched.
    pub fn render_point(&mut self, shape: &Shape)
        requires
            old(self).wf(),
            shape.vertices@.len() == 1,
        ensures
            final(self).wf(),
            Renderer::same_config(*final(self), *old(self)),
            ({
                let rvo = raster_of_spec(
                    old(self).camera.transformation,
                    shape.vertices@[0].vec,
                    old(self).img_width_half,
                    old(self).img_height_half,
                );
                if rvo is Some && old(self).point_visible_spec(rvo->0) {
                    let rv = rvo->0;
                    let py = px_floor_spec(rv.pos.y as int);
                    let px = px_floor_spec(rv.pos.x as int);
                    let base = old(self).buf_index_spec(py, px, 0);
                    &&& (forall|s: int|
                        0 <= s < old(self).used_samples ==> #[trigger] final(self).z_buffer@[base
                            + s] == (if rv.rz < old(self).z_buffer@[base + s] {
                            rv.rz
                        } else {
                            old(self).z_buffer@[base + s]
                        }))
                    &&& (forall|s: int|
                        0 <= s < old(self).used_samples ==> #[trigger] final(self).frame_buffer@[base + s] == (if rv.rz < old(self).z_buffer@[base + s] {
                            scaled_color_spec(shape.vertices@[0].color, old(self).sample_factor)
                        } else {
                            old(self).frame_buffer@[base + s]
                        }))
                    &&& (forall|i: int|
                        0 <= i < old(self).cell_count() && !(base <= i < base + old(self).used_samples) ==> #[trigger] final(self).z_buffer@[i] == old(self).z_buffer@[i])
                    &&& (forall|i: int|
                        0 <= i < old(self).cell_count() && !(base <= i < base + old(self).used_samples) ==> #[trigger] final(self).frame_buffer@[i] == old(self).frame_buffer@[i])
                    &&& final(self).min_z == (if (exists|s: int|
                        0 <= s < old(self).used_samples && rv.rz < #[trigger] old(self).z_buffer@[base + s]) {
                        if rv.rz < old(self).min_z {
                            rv.rz
                        } else {
                            old(self).min_z
                        }
                    } else {
                        old(self).min_z
                    })
                    &&& final(self).max_z == (if (exists|s: int|
                        0 <= s < old(self).used_samples && rv.rz < #[trigger] old(self).z_buffer@[base + s]) {
                        if rv.rz > old(self).max_z {
                            rv.rz
                        } else {
                            old(self).max_z
                        }
                    } else {
                        old(self).max_z
                    })
                } else {
                    *final(self) == *old(self)
                }
            }),
    {
        let rvo = world_to_raster(
            &self.camera.transformation,
            &shape.vertices[0].vec,
            self.img_width_half,
            self.img_height_half,
        );
        let rv = match rvo {
            Option::None => { return ; },
            Option::Some(rv) => rv,
        };
        if !(rv.pos.x >= 0 && rv.pos.y >= 0) {
            return ;
        }
        let px = px_floor(rv.pos.x);
        let py = px_floor(rv.pos.y);
        if !(px < self.img_width && py < self.img_height) {
            return ;
        }
        proof {
            assert(self.used_samples >= 1) by (nonlinear_arith)
                requires
                    self.samplestep >= 1 && self.used_samples == self.samplestep
                        * self.samplestep;
            lemma_cell_in_range(*self, py as int, px as int, 0);
            lemma_cell_in_range(*self, py as int, px as int, self.used_samples - 1);
        }
        let base: usize = py * self.buf_width + px * self.used_samples;
        let ghost gbase = old(self).buf_index_spec(py as int, px as int, 0);
        let color = shape.vertices[0].color;
        let us = self.used_samples;
        let mut sample: usize = 0;
        while sample < us
            invariant
                old(self).wf(),
                self.wf(),
                Renderer::same_config(*self, *old(self)),
                us == old(self).used_samples,
                sample <= us,
                base == gbase,
                0 <= gbase,
                gbase + us <= old(self).cell_count(),
                color == shape.vertices@[0].color,
                forall|j: int|
                    0 <= j < sample ==> #[trigger] self.z_buffer@[gbase + j] == (if rv.rz < old(self).z_buffer@[gbase + j] {
                        rv.rz
                    } else {
                        old(self).z_buffer@[gbase + j]
                    }),
                forall|j: int|
                    0 <= j < sample ==> #[trigger] self.frame_buffer@[gbase + j] == (if rv.rz
                        < old(self).z_buffer@[gbase + j] {
                        scaled_color_spec(shape.vertices@[0].color, old(self).sample_factor)
                    } else {
                        old(self).frame_buffer@[gbase + j]
                    }),
                forall|i: int|
                    0 <= i < old(self).cell_count() && !(gbase <= i < gbase + sample)
                        ==> #[trigger] self.z_buffer@[i] == old(self).z_buffer@[i],
                forall|i: int|
                    0 <= i < old(self).cell_count() && !(gbase <= i < gbase + sample)
                        ==> #[trigger] self.frame_buffer@[i] == old(self).frame_buffer@[i],
                self.min_z == (if (exists|j: int|
                    0 <= j < sample && rv.rz < #[trigger] old(self).z_buffer@[gbase + j]) {
                    if rv.rz < old(self).min_z {
                        rv.rz
                    } else {
                        old(self).min_z
                    }
                } else {
                    old(self).min_z
                }),
                self.max_z == (if (exists|j: int|
                    0 <= j < sample && rv.rz < #[trigger] old(self).z_buffer@[gbase + j]) {
                    if rv.rz > old(self).max_z {
                        rv.rz
                    } else {
                        old(self).max_z
                    }
                } else {
                    old(self).max_z
                }),
            decreases us - sample,
        {
            let bi: usize = base + sample;
            let ghost prior_hit = exists|j: int|
                0 <= j < sample && rv.rz < #[trigger] old(self).z_buffer@[gbase + j];
            proof {
                assert(self.z_buffer@[bi as int] == old(self).z_buffer@[bi as int]);
            }
            if self.depth_test_and_set(rv.rz, bi) {
                self.set_color_to_fb(bi, &color);
                proof {
                    assert(rv.rz < old(self).z_buffer@[gbase + sample]);
                    assert(exists|j: int|
                        0 <= j < sample + 1 && rv.rz < #[trigger] old(self).z_buffer@[gbase + j]);
                }
            } else {
                proof {
                    if prior_hit {
                        let j0 = choose|j: int|
                            0 <= j < sample && rv.rz < #[trigger] old(self).z_buffer@[gbase + j];
                        assert(0 <= j0 < sample + 1 && rv.rz < old(self).z_buffer@[gbase + j0]);
                    }
                    assert(!(rv.rz < old(self).z_buffer@[gbase + sample]));
                    if (exists|j: int|
                        0 <= j < sample + 1 && rv.rz < #[trigger] old(self).z_buffer@[gbase + j]) {
                        let j0 = choose|j: int|
                            0 <= j < sample + 1 && rv.rz < #[trigger] old(self).z_buffer@[gbase + j];
                        assert(j0 < sample);
                    }
                }
            }
            sample = sample + 1;
        }
    }

    /// The raster x of sub-sample `s` in pixel column `w`.
    pub open spec fn sample_x_spec(self, w: int, s: int) -> int {
        sample_pos_spec(w, sample_offset_spec(self.samplestep as int, s).x)
    }

    /// The raster y of sub-sample `s` in pixel row `h`.
    pub open spec fn sample_y_spec(self, h: int, s: int) -> int {
        sample_pos_spec(h, sample_offset_spec(self.samplestep as int, s).y)
    }

    /// Whether pixel `(h, w)` lies in a triangle's candidate box: the pixel
    /// bounding box of the three raster vertices, clamped to the image.
    pub open spec fn tri_in_bbox_spec(self, t: TriRaster, h: int, w: int) -> bool {
        &&& px_floor_spec(min3_spec(t.r1.x, t.r2.x, t.r3.x) as int) <= w
        &&& w < min_int(self.img_width as int, px_floor_spec(max3_spec(t.r1.x, t.r2.x, t.r3.x) as int))
        &&& px_floor_spec(min3_spec(t.r1.y, t.r2.y, t.r3.y) as int) <= h
        &&& h < min_int(
            self.img_height as int,
            px_floor_spec(max3_spec(t.r1.y, t.r2.y, t.r3.y) as int),
        )
    }

    /// Whether the triangle wins cell `(h, w, s)` against this state's depth
    /// buffer: the pixel is a candidate, the sample is covered, and the
    /// interpolated depth strictly beats the stored one.
    pub open spec fn tri_accept_spec(self, t: TriRaster, h: int, w: int, s: int) -> bool {
        &&& self.tri_in_bbox_spec(t, h, w)
        &&& tri_cov_spec(t, self.sample_x_spec(w, s), self.sample_y_spec(h, s))
        &&& tri_depth_spec(t, self.sample_x_spec(w, s), self.sample_y_spec(h, s))
            < self.z_buffer@[self.buf_index_spec(h, w, s)]
    }

    /// The depth cell `(h, w, s)` after rasterizing the triangle over this
    /// state.
    pub open spec fn tri_cell_z_spec(self, t: TriRaster, h: int, w: int, s: int) -> i64 {
        if self.tri_accept_spec(t, h, w, s) {
            fxv(tri_depth_spec(t, self.sample_x_spec(w, s), self.sample_y_spec(h, s)))
        } else {
            self.z_buffer@[self.buf_index_spec(h, w, s)]
        }
    }

    /// The color cell `(h, w, s)` after rasterizing the triangle over this
    /// state.
    pub open spec fn tri_cell_color_spec(
        self,
        t: TriRaster,
        shape: Shape,
        h: int,
        w: int,
        s: int,
    ) -> Color {
        if self.tri_accept_spec(t, h, w, s) {
            scaled_color_spec(
                tri_color_spec(
                    t,
                    shape.vertices@[0],
                    shape.vertices@[1],
                    shape.vertices@[2],
                    shape.tex_id,
                    self.texture@,
                    self.sample_x_spec(w, s),
                    self.sample_y_spec(h, s),
                ),
                self.sample_factor,
            )
        } else {
            self.frame_buffer@[self.buf_index_spec(h, w, s)]
        }
    }
}

/// Distinct cells have distinct buffer indices.
pub proof fn lemma_buf_index_injective(
    r: Renderer,
    h1: int,
    w1: int,
    s1: int,
    h2: int,
    w2: int,
    s2: int,
)
    requires
        r.wf(),
        0 <= h1 < r.img_height,
        0 <= w1 < r.img_width,
        0 <= s1 < r.used_samples,
        0 <= h2 < r.img_height,
        0 <= w2 < r.img_width,
        0 <= s2 < r.used_samples,
        !(h1 == h2 && w1 == w2 && s1 == s2),
    ensures
        r.buf_index_spec(h1, w1, s1) != r.buf_index_spec(h2, w2, s2),
{
    let ww = r.img_width as int;
    let us = r.used_samples as int;
    let bufw = r.buf_width as int;
    assert(0 <= w1 * us + s1 < bufw && 0 <= w2 * us + s2 < bufw) by (nonlinear_arith)
        requires
            0 <= w1 < ww && 0 <= s1 < us && 0 <= w2 < ww && 0 <= s2 < us && bufw == ww * us;
    if h1 != h2 {
        assert(h1 * bufw + (w1 * us + s1) != h2 * bufw + (w2 * us + s2)) by (nonlinear_arith)
            requires
                h1 != h2 && 0 <= w1 * us + s1 < bufw && 0 <= w2 * us + s2 < bufw;
    } else if w1 != w2 {
        assert(w1 * us + s1 != w2 * us + s2) by (nonlinear_arith)
            requires
                w1 != w2 && 0 <= s1 < us && 0 <= s2 < us;
    }
}

/// The smallest of three fixed-point values.
fn min3(a: i64, b: i64, c: i64) -> (r: i64)
    ensures
        r == min3_spec(a, b, c),
{
    if a < b {
        if a < c {
            a
        } else {
            c
        }
    } else {
        if b < c {
            b
        } else {
            c
        }
    }
}

/// The largest of three fixed-point values.
fn max3(a: i64, b: i64, c: i64) -> (r: i64)
    ensures
        r == max3_spec(a, b, c),
{
    if a > b {
        if a > c {
            a
        } else {
            c
        }
    } else {
        if b > c {
            b
        } else {
            c
        }
    }
}

/// The candidate-box upper bound along one axis: the pixel of the largest
/// raster coordinate, clamped to the image extent.
fn px_capped(v: i64, cap: usize) -> (r: usize)
    ensures
        r as int == min_int(cap as int, px_floor_spec(v as int)),
{
    let p = px_floor(v);
    if cap < p {
        cap
    } else {
        p
    }
}

impl Renderer {
    /// The half-space edge function of a sample against a directed edge.
    fn edge_fn(px: i64, py: i64, a: &Vec3, b: &Vec3) -> (e: i64)
        ensures
            e as int == edge_spec(px as int, py as int, *a, *b),
    {
        fx_sub(
            fx_mul(fx_sub(px, a.x), fx_sub(b.y, a.y)),
            fx_mul(fx_sub(py, a.y), fx_sub(b.x, a.x)),
        )
    }

    /// Project the three vertices of a triangle shape; `None` discards it.
    fn tri_setup(&self, shape: &Shape) -> (res: Option<TriRaster>)
        requires
            shape.vertices@.len() == 3,
        ensures
            res == tri_setup_spec(
                self.camera.transformation,
                *shape,
                self.img_width_half,
                self.img_height_half,
            ),
    {
        let o1 = world_to_raster(
            &self.camera.transformation,
            &shape.vertices[0].vec,
            self.img_width_half,
            self.img_height_half,
        );
        let o2 = world_to_raster(
            &self.camera.transformation,
            &shape.vertices[1].vec,
            self.img_width_half,
            self.img_height_half,
        );
        let o3 = world_to_raster(
            &self.camera.transformation,
            &shape.vertices[2].vec,
            self.img_width_half,
            self.img_height_half,
        );
        let v1 = match o1 {
            Option::None => { return Option::None; },
            Option::Some(v) => v,
        };
        let v2 = match o2 {
            Option::None => { return Option::None; },
            Option::Some(v) => v,
        };
        let v3 = match o3 {
            Option::None => { return Option::None; },
            Option::Some(v) => v,
        };
        let a2 = fx_sub(
            fx_mul(fx_sub(v3.pos.x, v1.pos.x), fx_sub(v2.pos.y, v1.pos.y)),
            fx_mul(fx_sub(v3.pos.y, v1.pos.y), fx_sub(v2.pos.x, v1.pos.x)),
        );
        if a2 == 0 {
            return Option::None;
        }
        Option::Some(
            TriRaster {
                r1: v1.pos,
                r2: v2.pos,
                r3: v3.pos,
                rz1: v1.rz,
                rz2: v2.rz,
                rz3: v3.rz,
                w1: v1.w,
                w2: v2.w,
                w3: v3.w,
                inv_area: fx_div(FX_ONE, a2),
            },
        )
    }

    /// The color of a covered sample, from the vertex attributes or the first
    /// texture.
    fn compute_px_color(
        &self,
        t: &TriRaster,
        shape: &Shape,
        bc0: i64,
        bc1: i64,
        bc2: i64,
        px: Ghost<int>,
        py: Ghost<int>,
    ) -> (c: Color)
        requires
            shape.vertices@.len() == 3,
            shape.tex_id != -1 ==> self.texture@.len() >= 1 && self.texture@[0].renderable(),
            bc0 as int == tri_bc0_spec(*t, px@, py@),
            bc1 as int == tri_bc1_spec(*t, px@, py@),
            bc2 as int == tri_bc2_spec(*t, px@, py@),
        ensures
            c == tri_color_spec(
                *t,
                shape.vertices@[0],
                shape.vertices@[1],
                shape.vertices@[2],
                shape.tex_id,
                self.texture@,
                px@,
                py@,
            ),
    {
        let v1 = &shape.vertices[0];
        let v2 = &shape.vertices[1];
        let v3 = &shape.vertices[2];
        let z0 = fx_mul(bc0, t.w1);
        let z1 = fx_mul(bc1, t.w2);
        let z2 = fx_mul(bc2, t.w3);
        let z3 = fx_div(FX_ONE, fx_add(fx_add(z0, z1), z2));
        if shape.tex_id == -1 {
            Color {
                r: fx_mul(
                    fx_add(
                        fx_add(fx_mul(z0, v1.color.r), fx_mul(z1, v2.color.r)),
                        fx_mul(z2, v3.color.r),
                    ),
                    z3,
                ),
                g: fx_mul(
                    fx_add(
                        fx_add(fx_mul(z0, v1.color.g), fx_mul(z1, v2.color.g)),
                        fx_mul(z2, v3.color.g),
                    ),
                    z3,
                ),
                b: fx_mul(
                    fx_add(
                        fx_add(fx_mul(z0, v1.color.b), fx_mul(z1, v2.color.b)),
                        fx_mul(z2, v3.color.b),
                    ),
                    z3,
                ),
            }
        } else {
            let tx = fx_mul(
                fx_add(
                    fx_add(fx_mul(z0, v1.tex_coord.x), fx_mul(z1, v2.tex_coord.x)),
                    fx_mul(z2, v3.tex_coord.x),
                ),
                z3,
            );
            let ty = fx_mul(
                fx_add(
                    fx_add(fx_mul(z0, v1.tex_coord.y), fx_mul(z1, v2.tex_coord.y)),
                    fx_mul(z2, v3.tex_coord.y),
                ),
                z3,
            );
            let texx = tex_px(tx);
            let texy = tex_px(ty);
            let tex = &self.texture[0];
            proof {
                assert(texy * 512 + texx < 512 * 512) by (nonlinear_arith)
                    requires
                        0 <= texx < 512 && 0 <= texy < 512;
            }
            tex.buffer[texy * 512 + texx]
        }
    }
}

/// Lexicographic progress through the cells of one primitive's loop nest:
/// whether cell `(h, w, s)` lies strictly before position `(ch, cw, cs)`.
pub open spec fn lex_done(h: int, w: int, s: int, ch: int, cw: int, cs: int) -> bool {
    h < ch || (h == ch && (w < cw || (w == cw && s < cs)))
}

impl Renderer {
    /// Whether `(h, w, s)` addresses a cell.
    pub open spec fn cell_ok(self, h: int, w: int, s: int) -> bool {
        0 <= h < self.img_height && 0 <= w < self.img_width && 0 <= s < self.used_samples
    }

    /// The triangle's interpolated depth at cell `(h, w, s)`.
    pub open spec fn tri_depth_at_spec(self, t: TriRaster, h: int, w: int, s: int) -> int {
        tri_depth_spec(t, self.sample_x_spec(w, s), self.sample_y_spec(h, s))
    }

    /// One sub-sample of one candidate pixel of a triangle: test coverage
    /// against the three edges, depth-test the interpolated depth, and write
    /// the perspective-corrected color where it wins.
    fn tri_sample(&mut self, t: &TriRaster, shape: &Shape, cur_h: usize, cur_w: usize, sample: usize)
        requires
            old(self).wf(),
            shape.vertices@.len() == 3,
            shape.tex_id != -1 ==> old(self).texture@.len() >= 1 && old(self).texture@[0].renderable(),
            cur_h < old(self).img_height,
            cur_w < old(self).img_width,
            sample < old(self).used_samples,
            old(self).tri_in_bbox_spec(*t, cur_h as int, cur_w as int),
        ensures
            final(self).wf(),
            Renderer::same_config(*final(self), *old(self)),
            ({
                let h = cur_h as int;
                let w = cur_w as int;
                let s = sample as int;
                let bi = old(self).buf_index_spec(h, w, s);
                let acc = old(self).tri_accept_spec(*t, h, w, s);
                let dz = fxv(old(self).tri_depth_at_spec(*t, h, w, s));
                &&& final(self).z_buffer@ == (if acc {
                    old(self).z_buffer@.update(bi, dz)
                } else {
                    old(self).z_buffer@
                })
                &&& final(self).frame_buffer@ == (if acc {
                    old(self).frame_buffer@.update(
                        bi,
                        old(self).tri_cell_color_spec(*t, *shape, h, w, s),
                    )
                } else {
                    old(self).frame_buffer@
                })
                &&& final(self).min_z == (if acc && dz < old(self).min_z {
                    dz
                } else {
                    old(self).min_z
                })
                &&& final(self).max_z == (if acc && dz > old(self).max_z {
                    dz
                } else {
                    old(self).max_z
                })
            }),
    {
        proof {
            lemma_cell_in_range(*old(self), cur_h as int, cur_w as int, sample as int);
        }
        let off = self.samples[sample];
        let px = fx_add(fx_of_count(cur_w), off.x);
        let py = fx_add(fx_of_count(cur_h), off.y);
        proof {
            assert(px as int == old(self).sample_x_spec(cur_w as int, sample as int));
            assert(py as int == old(self).sample_y_spec(cur_h as int, sample as int));
        }
        let e0 = Renderer::edge_fn(px, py, &t.r2, &t.r3);
        if e0 < 0 {
            return ;
        }
        let e1 = Renderer::edge_fn(px, py, &t.r3, &t.r1);
        if e1 < 0 {
            return ;
        }
        let e2 = Renderer::edge_fn(px, py, &t.r1, &t.r2);
        if e2 < 0 {
            return ;
        }
        let bc0 = fx_mul(e0, t.inv_area);
        let bc1 = fx_mul(e1, t.inv_area);
        let bc2 = fx_mul(e2, t.inv_area);
        let z = fx_add(fx_add(fx_mul(t.rz1, bc0), fx_mul(t.rz2, bc1)), fx_mul(t.rz3, bc2));
        proof {
            assert(z as int == old(self).tri_depth_at_spec(
                *t,
                cur_h as int,
                cur_w as int,
                sample as int,
            ));
        }
        let bi: usize = cur_h * self.buf_width + cur_w * self.used_samples + sample;
        if self.depth_test_and_set(z, bi) {
            let c = self.compute_px_color(t, shape, bc0, bc1, bc2, Ghost(px as int), Ghost(py as int));
            self.set_color_to_fb(bi, &c);
        }
    }

    /// Rasterize a triangle: project its vertices, then depth-test every
    /// covered sub-sample inside its candidate box and write the
    /// perspective-corrected color where it wins. A projection discard or a
    /// degenerate (zero-area) raster triangle leaves the renderer untouched.
    #[verifier::rlimit(100)]
    #[verifier::spinoff_prover]
    pub fn render_triangle(&mut self, shape: &Shape)
        requires
            old(self).wf(),
            shape.vertices@.len() == 3,
            shape.tex_id != -1 ==> old(self).texture@.len() >= 1 && old(self).texture@[0].renderable(),
        ensures
            final(self).wf(),
            Renderer::same_config(*final(self), *old(self)),
            ({
                let to = tri_setup_spec(
                    old(self).camera.transformation,
                    *shape,
                    old(self).img_width_half,
                    old(self).img_height_half,
                );
                if to is Some {
                    let t = to->0;
                    &&& (forall|h: int, w: int, s: int|
                        #![trigger old(self).buf_index_spec(h, w, s)]
                        old(self).cell_ok(h, w, s) ==> final(self).z_buffer@[old(self).buf_index_spec(h, w, s)] == old(self).tri_cell_z_spec(t, h, w, s) && final(self).frame_buffer@[old(self).buf_index_spec(h, w, s)] == old(self).tri_cell_color_spec(t, *shape, h, w, s))
                    &&& final(self).min_z <= old(self).min_z
                    &&& final(self).max_z >= old(self).max_z
                    &&& (forall|h: int, w: int, s: int|
                        #![trigger old(self).tri_accept_spec(t, h, w, s)]
                        old(self).cell_ok(h, w, s) && old(self).tri_accept_spec(t, h, w, s)
                            ==> final(self).min_z as int <= old(self).tri_depth_at_spec(t, h, w, s)
                            && final(self).max_z as int >= old(self).tri_depth_at_spec(t, h, w, s))
                    &&& (final(self).min_z == old(self).min_z || exists|h: int, w: int, s: int|
                        #![trigger old(self).tri_accept_spec(t, h, w, s)]
                        old(self).cell_ok(h, w, s) && old(self).tri_accept_spec(t, h, w, s)
                            && final(self).min_z as int == old(self).tri_depth_at_spec(t, h, w, s))
                    &&& (final(self).max_z == old(self).max_z || exists|h: int, w: int, s: int|
                        #![trigger old(self).tri_accept_spec(t, h, w, s)]
                        old(self).cell_ok(h, w, s) && old(self).tri_accept_spec(t, h, w, s)
                            && final(self).max_z as int == old(self).tri_depth_at_spec(t, h, w, s))
                } else {
                    *final(self) == *old(self)
                }
            }),
    {
        let to = self.tri_setup(shape);
        let t = match to {
            Option::None => { return ; },
            Option::Some(t) => t,
        };
        let minx: usize = px_floor(min3(t.r1.x, t.r2.x, t.r3.x));
        let maxx: usize = px_capped(max3(t.r1.x, t.r2.x, t.r3.x), self.img_width);
        let miny: usize = px_floor(min3(t.r1.y, t.r2.y, t.r3.y));
        let maxy: usize = px_capped(max3(t.r1.y, t.r2.y, t.r3.y), self.img_height);
        let us = self.used_samples;
        let mut cur_h: usize = miny;
        while cur_h < maxy
            invariant
                old(self).wf(),
                self.wf(),
                Renderer::same_config(*self, *old(self)),
                us == old(self).used_samples,
                Option::Some(t) == tri_setup_spec(
                    old(self).camera.transformation,
                    *shape,
                    old(self).img_width_half,
                    old(self).img_height_half,
                ),
                shape.vertices@.len() == 3,
                shape.tex_id != -1 ==> old(self).texture@.len() >= 1 && old(self).texture@[0].renderable(),
                minx as int == px_floor_spec(min3_spec(t.r1.x, t.r2.x, t.r3.x) as int),
                maxx as int == min_int(
                    old(self).img_width as int,
                    px_floor_spec(max3_spec(t.r1.x, t.r2.x, t.r3.x) as int),
                ),
                miny as int == px_floor_spec(min3_spec(t.r1.y, t.r2.y, t.r3.y) as int),
                maxy as int == min_int(
                    old(self).img_height as int,
                    px_floor_spec(max3_spec(t.r1.y, t.r2.y, t.r3.y) as int),
                ),
                miny <= cur_h,
                cur_h <= maxy || cur_h == miny,
                forall|h: int, w: int, s: int|
                    #![trigger old(self).buf_index_spec(h, w, s)]
                    old(self).cell_ok(h, w, s) ==> if lex_done(
                        h,
                        w,
                        s,
                        cur_h as int,
                        minx as int,
                        0,
                    ) {
                        self.z_buffer@[old(self).buf_index_spec(h, w, s)] == old(self).tri_cell_z_spec(t, h, w, s) && self.frame_buffer@[old(self).buf_index_spec(h, w, s)] == old(self).tri_cell_color_spec(
                            t,
                            *shape,
                            h,
                            w,
                            s,
                        )
                    } else {
                        self.z_buffer@[old(self).buf_index_spec(h, w, s)] == old(self).z_buffer@[old(self).buf_index_spec(h, w, s)] && self.frame_buffer@[old(self).buf_index_spec(h, w, s)] == old(self).frame_buffer@[old(self).buf_index_spec(h, w, s)]
                    },
                self.min_z <= old(self).min_z,
                self.max_z >= old(self).max_z,
                forall|h: int, w: int, s: int|
                    #![trigger old(self).tri_accept_spec(t, h, w, s)]
                    old(self).cell_ok(h, w, s) && lex_done(h, w, s, cur_h as int, minx as int, 0)
                        && old(self).tri_accept_spec(t, h, w, s) ==> self.min_z as int <= old(self).tri_depth_at_spec(t, h, w, s) && self.max_z as int >= old(self).tri_depth_at_spec(t, h, w, s),
                self.min_z == old(self).min_z || exists|h: int, w: int, s: int|
                    #![trigger old(self).tri_accept_spec(t, h, w, s)]
                    old(self).cell_ok(h, w, s) && lex_done(h, w, s, cur_h as int, minx as int, 0)
                        && old(self).tri_accept_spec(t, h, w, s) && self.min_z as int == old(self).tri_depth_at_spec(t, h, w, s),
                self.max_z == old(self).max_z || exists|h: int, w: int, s: int|
                    #![trigger old(self).tri_accept_spec(t, h, w, s)]
                    old(self).cell_ok(h, w, s) && lex_done(h, w, s, cur_h as int, minx as int, 0)
                        && old(self).tri_accept_spec(t, h, w, s) && self.max_z as int == old(self).tri_depth_at_spec(t, h, w, s),
            decreases maxy - cur_h,
        {
            let mut cur_w: usize = minx;
            while cur_w < maxx
                invariant
                    old(self).wf(),
                    self.wf(),
                    Renderer::same_config(*self, *old(self)),
                    us == old(self).used_samples,
                    Option::Some(t) == tri_setup_spec(
                        old(self).camera.transformation,
                        *shape,
                        old(self).img_width_half,
                        old(self).img_height_half,
                    ),
                    shape.vertices@.len() == 3,
                    shape.tex_id != -1 ==> old(self).texture@.len() >= 1 && old(self).texture@[0].renderable(),
                    minx as int == px_floor_spec(min3_spec(t.r1.x, t.r2.x, t.r3.x) as int),
                    maxx as int == min_int(
                        old(self).img_width as int,
                        px_floor_spec(max3_spec(t.r1.x, t.r2.x, t.r3.x) as int),
                    ),
                    miny as int == px_floor_spec(min3_spec(t.r1.y, t.r2.y, t.r3.y) as int),
                    maxy as int == min_int(
                        old(self).img_height as int,
                        px_floor_spec(max3_spec(t.r1.y, t.r2.y, t.r3.y) as int),
                    ),
                    miny <= cur_h < maxy,
                    minx <= cur_w,
                    cur_w <= maxx || cur_w == minx,
                    forall|h: int, w: int, s: int|
                        #![trigger old(self).buf_index_spec(h, w, s)]
                        old(self).cell_ok(h, w, s) ==> if lex_done(
                            h,
                            w,
                            s,
                            cur_h as int,
                            cur_w as int,
                            0,
                        ) {
                            self.z_buffer@[old(self).buf_index_spec(h, w, s)] == old(self).tri_cell_z_spec(t, h, w, s) && self.frame_buffer@[old(self).buf_index_spec(h, w, s)] == old(self).tri_cell_color_spec(
                                t,
                                *shape,
                                h,
                                w,
                                s,
                            )
                        } else {
                            self.z_buffer@[old(self).buf_index_spec(h, w, s)] == old(self).z_buffer@[old(self).buf_index_spec(h, w, s)]
                                && self.frame_buffer@[old(self).buf_index_spec(h, w, s)] == old(self).frame_buffer@[old(self).buf_index_spec(h, w, s)]
                        },
                    self.min_z <= old(self).min_z,
                    self.max_z >= old(self).max_z,
                    forall|h: int, w: int, s: int|
                        #![trigger old(self).tri_accept_spec(t, h, w, s)]
                        old(self).cell_ok(h, w, s) && lex_done(
                            h,
                            w,
                            s,
                            cur_h as int,
                            cur_w as int,
                            0,
                        ) && old(self).tri_accept_spec(t, h, w, s) ==> self.min_z as int <= old(self).tri_depth_at_spec(t, h, w, s) && self.max_z as int >= old(self).tri_depth_at_spec(t, h, w, s),
                    self.min_z == old(self).min_z || exists|h: int, w: int, s: int|
                        #![trigger old(self).tri_accept_spec(t, h, w, s)]
                        old(self).cell_ok(h, w, s) && lex_done(
                            h,
                            w,
                            s,
                            cur_h as int,
                            cur_w as int,
                            0,
                        ) && old(self).tri_accept_spec(t, h, w, s) && self.min_z as int == old(self).tri_depth_at_spec(t, h, w, s),
                    self.max_z == old(self).max_z || exists|h: int, w: int, s: int|
                        #![trigger old(self).tri_accept_spec(t, h, w, s)]
                        old(self).cell_ok(h, w, s) && lex_done(
                            h,
                            w,
                            s,
                            cur_h as int,
                            cur_w as int,
                            0,
                        ) && old(self).tri_accept_spec(t, h, w, s) && self.max_z as int == old(self).tri_depth_at_spec(t, h, w, s),
                decreases maxx - cur_w,
            {
                let mut sample: usize = 0;
                while sample < us
                    invariant
                        old(self).wf(),
                        self.wf(),
                        Renderer::same_config(*self, *old(self)),
                        us == old(self).used_samples,
                        Option::Some(t) == tri_setup_spec(
                            old(self).camera.transformation,
                            *shape,
                            old(self).img_width_half,
                            old(self).img_height_half,
                        ),
                        shape.vertices@.len() == 3,
                        shape.tex_id != -1 ==> old(self).texture@.len() >= 1 && old(self).texture@[0].renderable(),
                        minx as int == px_floor_spec(min3_spec(t.r1.x, t.r2.x, t.r3.x) as int),
                        maxx as int == min_int(
                            old(self).img_width as int,
                            px_floor_spec(max3_spec(t.r1.x, t.r2.x, t.r3.x) as int),
                        ),
                        miny as int == px_floor_spec(min3_spec(t.r1.y, t.r2.y, t.r3.y) as int),
                        maxy as int == min_int(
                            old(self).img_height as int,
                            px_floor_spec(max3_spec(t.r1.y, t.r2.y, t.r3.y) as int),
                        ),
                        miny <= cur_h < maxy,
                        minx <= cur_w < maxx,
                        sample <= us,
                        forall|h: int, w: int, s: int|
                            #![trigger old(self).buf_index_spec(h, w, s)]
                            old(self).cell_ok(h, w, s) ==> if lex_done(
                                h,
                                w,
                                s,
                                cur_h as int,
                                cur_w as int,
                                sample as int,
                            ) {
                                self.z_buffer@[old(self).buf_index_spec(h, w, s)] == old(self).tri_cell_z_spec(t, h, w, s) && self.frame_buffer@[old(self).buf_index_spec(h, w, s)] == old(self).tri_cell_color_spec(
                                    t,
                                    *shape,
                                    h,
                                    w,
                                    s,
                                )
                            } else {
                                self.z_buffer@[old(self).buf_index_spec(h, w, s)] == old(self).z_buffer@[old(self).buf_index_spec(h, w, s)]
                                    && self.frame_buffer@[old(self).buf_index_spec(h, w, s)]
                                    == old(self).frame_buffer@[old(self).buf_index_spec(h, w, s)]
                            },
                        self.min_z <= old(self).min_z,
                        self.max_z >= old(self).max_z,
                        forall|h: int, w: int, s: int|
                            #![trigger old(self).tri_accept_spec(t, h, w, s)]
                            old(self).cell_ok(h, w, s) && lex_done(
                                h,
                                w,
                                s,
                                cur_h as int,
                                cur_w as int,
                                sample as int,
                            ) && old(self).tri_accept_spec(t, h, w, s) ==> self.min_z as int <= old(self).tri_depth_at_spec(t, h, w, s) && self.max_z as int >= old(self).tri_depth_at_spec(t, h, w, s),
                        self.min_z == old(self).min_z || exists|h: int, w: int, s: int|
                            #![trigger old(self).tri_accept_spec(t, h, w, s)]
                            old(self).cell_ok(h, w, s) && lex_done(
                                h,
                                w,
                                s,
                                cur_h as int,
                                cur_w as int,
                                sample as int,
                            ) && old(self).tri_accept_spec(t, h, w, s) && self.min_z as int == old(self).tri_depth_at_spec(t, h, w, s),
                        self.max_z == old(self).max_z || exists|h: int, w: int, s: int|
                            #![trigger old(self).tri_accept_spec(t, h, w, s)]
                            old(self).cell_ok(h, w, s) && lex_done(
                                h,
                                w,
                                s,
                                cur_h as int,
                                cur_w as int,
                                sample as int,
                            ) && old(self).tri_accept_spec(t, h, w, s) && self.max_z as int == old(self).tri_depth_at_spec(t, h, w, s),
                    decreases us - sample,
                {
                    let ghost gh = cur_h as int;
                    let ghost gw = cur_w as int;
                    let ghost gs = sample as int;
                    let ghost gbi = old(self).buf_index_spec(gh, gw, gs);
                    let ghost prior = *self;
                    proof {
                        lemma_cell_in_range(*old(self), gh, gw, gs);
                        assert(!lex_done(gh, gw, gs, cur_h as int, cur_w as int, sample as int));
                        assert(self.z_buffer@[gbi] == old(self).z_buffer@[gbi]);
                        assert(self.frame_buffer@[gbi] == old(self).frame_buffer@[gbi]);
                        assert(old(self).tri_in_bbox_spec(t, gh, gw));
                        assert(prior.tri_in_bbox_spec(t, gh, gw));
                        assert(prior.buf_index_spec(gh, gw, gs) == gbi);
                        assert(prior.sample_x_spec(gw, gs) == old(self).sample_x_spec(gw, gs));
                        assert(prior.sample_y_spec(gh, gs) == old(self).sample_y_spec(gh, gs));
                        assert(prior.tri_accept_spec(t, gh, gw, gs) == old(self).tri_accept_spec(
                            t,
                            gh,
                            gw,
                            gs,
                        ));
                        assert(prior.tri_depth_at_spec(t, gh, gw, gs) == old(self).tri_depth_at_spec(
                            t,
                            gh,
                            gw,
                            gs,
                        ));
                        assert(prior.tri_cell_color_spec(t, *shape, gh, gw, gs) == old(self).tri_cell_color_spec(
                            t,
                            *shape,
                            gh,
                            gw,
                            gs,
                        ));
                    }
                    self.tri_sample(&t, shape, cur_h, cur_w, sample);
                    proof {
                        let ghost acc = old(self).tri_accept_spec(t, gh, gw, gs);
                        let ghost dz = fxv(old(self).tri_depth_at_spec(t, gh, gw, gs));
                        assert(self.z_buffer@[gbi] == old(self).tri_cell_z_spec(t, gh, gw, gs));
                        assert(self.frame_buffer@[gbi] == old(self).tri_cell_color_spec(
                            t,
                            *shape,
                            gh,
                            gw,
                            gs,
                        ));
                        assert forall|h: int, w: int, s: int|
                            old(self).cell_ok(h, w, s) implies (if lex_done(
                            h,
                            w,
                            s,
                            cur_h as int,
                            cur_w as int,
                            sample + 1,
                        ) {
                            self.z_buffer@[#[trigger] old(self).buf_index_spec(h, w, s)] == old(self).tri_cell_z_spec(t, h, w, s) && self.frame_buffer@[old(self).buf_index_spec(h, w, s)] == old(self).tri_cell_color_spec(
                                t,
                                *shape,
                                h,
                                w,
                                s,
                            )
                        } else {
                            self.z_buffer@[old(self).buf_index_spec(h, w, s)] == old(self).z_buffer@[old(self).buf_index_spec(h, w, s)] && self.frame_buffer@[
                            old(self).buf_index_spec(h, w, s)] == old(self).frame_buffer@[old(self).buf_index_spec(h, w, s)]
                        }) by {
                            lemma_cell_in_range(*old(self), h, w, s);
                            if !(h == gh && w == gw && s == gs) {
                                lemma_buf_index_injective(*old(self), h, w, s, gh, gw, gs);
                                assert(old(self).buf_index_spec(h, w, s) != gbi);
                                assert(self.z_buffer@[old(self).buf_index_spec(h, w, s)]
                                    == prior.z_buffer@[old(self).buf_index_spec(h, w, s)]);
                                assert(self.frame_buffer@[old(self).buf_index_spec(h, w, s)]
                                    == prior.frame_buffer@[old(self).buf_index_spec(h, w, s)]);
                                assert(lex_done(h, w, s, cur_h as int, cur_w as int, sample + 1)
                                    == lex_done(h, w, s, cur_h as int, cur_w as int, sample as int));
                            }
                        }
                        // carry the depth-range witnesses across the step
                        if prior.min_z != old(self).min_z {
                            let (h0, w0, s0) = choose|h: int, w: int, s: int|
                                old(self).cell_ok(h, w, s) && lex_done(
                                    h,
                                    w,
                                    s,
                                    cur_h as int,
                                    cur_w as int,
                                    sample as int,
                                ) && #[trigger] old(self).tri_accept_spec(t, h, w, s)
                                    && prior.min_z as int == old(self).tri_depth_at_spec(t, h, w, s);
                            if self.min_z == prior.min_z {
                                assert(old(self).cell_ok(h0, w0, s0) && lex_done(
                                    h0,
                                    w0,
                                    s0,
                                    cur_h as int,
                                    cur_w as int,
                                    sample + 1,
                                ) && old(self).tri_accept_spec(t, h0, w0, s0)
                                    && self.min_z as int == old(self).tri_depth_at_spec(
                                    t,
                                    h0,
                                    w0,
                                    s0,
                                ));
                            }
                        }
                        if prior.max_z != old(self).max_z {
                            let (h0, w0, s0) = choose|h: int, w: int, s: int|
                                old(self).cell_ok(h, w, s) && lex_done(
                                    h,
                                    w,
                                    s,
                                    cur_h as int,
                                    cur_w as int,
                                    sample as int,
                                ) && #[trigger] old(self).tri_accept_spec(t, h, w, s)
                                    && prior.max_z as int == old(self).tri_depth_at_spec(t, h, w, s);
                            if self.max_z == prior.max_z {
                                assert(old(self).cell_ok(h0, w0, s0) && lex_done(
                                    h0,
                                    w0,
                                    s0,
                                    cur_h as int,
                                    cur_w as int,
                                    sample + 1,
                                ) && old(self).tri_accept_spec(t, h0, w0, s0)
                                    && self.max_z as int == old(self).tri_depth_at_spec(
                                    t,
                                    h0,
                                    w0,
                                    s0,
                                ));
                            }
                        }
                        if acc && self.min_z != prior.min_z {
                            assert(self.min_z as int == old(self).tri_depth_at_spec(t, gh, gw, gs));
                            assert(old(self).cell_ok(gh, gw, gs) && lex_done(
                                gh,
                                gw,
                                gs,
                                cur_h as int,
                                cur_w as int,
                                sample + 1,
                            ) && old(self).tri_accept_spec(t, gh, gw, gs));
                        }
                        if acc && self.max_z != prior.max_z {
                            assert(self.max_z as int == old(self).tri_depth_at_spec(t, gh, gw, gs));
                            assert(old(self).cell_ok(gh, gw, gs) && lex_done(
                                gh,
                                gw,
                                gs,
                                cur_h as int,
                                cur_w as int,
                                sample + 1,
                            ) && old(self).tri_accept_spec(t, gh, gw, gs));
                        }
                    }
                    sample = sample + 1;
                }
                cur_w = cur_w + 1;
                proof {
                    assert forall|h: int, w: int, s: int|
                        old(self).cell_ok(h, w, s) implies (lex_done(
                        h,
                        w,
                        s,
                        cur_h as int,
                        cur_w as int,
                        0,
                    ) == lex_done(h, w, s, cur_h as int, cur_w - 1, us as int)) by {}
                }
            }
            cur_h = cur_h + 1;
            proof {
                assert forall|h: int, w: int, s: int|
                    old(self).cell_ok(h, w, s) && lex_done(h, w, s, cur_h as int, minx as int, 0)
                        && !lex_done(h, w, s, cur_h - 1, maxx as int, 0) implies !old(self).tri_in_bbox_spec(t, h, w) by {}
                assert forall|h: int, w: int, s: int|
                    old(self).cell_ok(h, w, s) && lex_done(h, w, s, cur_h as int, minx as int, 0)
                        && !lex_done(h, w, s, cur_h - 1, maxx as int, 0) implies self.z_buffer@[
                    old(self).buf_index_spec(h, w, s)] == old(self).tri_cell_z_spec(t, h, w, s)
                    && self.frame_buffer@[old(self).buf_index_spec(h, w, s)] == old(self).tri_cell_color_spec(t, *shape, h, w, s) by {
                    assert(!old(self).tri_accept_spec(t, h, w, s));
                }
            }
        }
        proof {
            assert forall|h: int, w: int, s: int|
                old(self).cell_ok(h, w, s) && !lex_done(h, w, s, cur_h as int, minx as int, 0)
                    implies !old(self).tri_in_bbox_spec(t, h, w) by {}
            assert forall|h: int, w: int, s: int|
                old(self).cell_ok(h, w, s) implies #[trigger] final(self).z_buffer@[old(self).buf_index_spec(h, w, s)] == old(self).tri_cell_z_spec(t, h, w, s) && final(self).frame_buffer@[old(self).buf_index_spec(h, w, s)] == old(self).tri_cell_color_spec(
                t,
                *shape,
                h,
                w,
                s,
            ) by {
                if !lex_done(h, w, s, cur_h as int, minx as int, 0) {
                    assert(!old(self).tri_accept_spec(t, h, w, s));
                }
            }
        }
    }
}

/// A line segment after projection: the two raster endpoints, their
/// reciprocal depths, the raster-space segment length, and the proximity
/// limit (half that length).
#[derive(Clone, Copy, PartialEq, Eq, Structural, Debug)]
pub struct LineRaster {
    pub r1: Vec3,
    pub r2: Vec3,
    pub rz1: i64,
    pub rz2: i64,
    pub seg_len: i64,
    pub limit: i64,
}

/// Project the two endpoints of a line shape. `None` discards the primitive:
/// an endpoint behind the camera or at zero raster depth, or coincident
/// raster endpoints (a zero-length segment).
pub open spec fn line_setup_spec(ct: Mat4, shape: Shape, img_w_h: i64, img_h_h: i64) -> Option<
    LineRaster,
> {
    let o1 = raster_of_spec(ct, shape.vertices@[0].vec, img_w_h, img_h_h);
    let o2 = raster_of_spec(ct, shape.vertices@[1].vec, img_w_h, img_h_h);
    if o1 is None || o2 is None {
        Option::None
    } else {
        let v1 = o1->0;
        let v2 = o2->0;
        let len = v3_len_spec(v3_sub_spec(v2.pos, v1.pos));
        if len == 0 {
            Option::None
        } else {
            Option::Some(
                LineRaster {
                    r1: v1.pos,
                    r2: v2.pos,
                    rz1: v1.rz,
                    rz2: v2.rz,
                    seg_len: fxv(len),
                    limit: fxv(fx_mul_spec(len, FX_HALF as int)),
                },
            )
        }
    }
}

/// The signed perpendicular distance from a sample to the infinite line
/// through the segment: the 2D cross product of the segment direction with
/// the offset to the sample, divided by the segment length.
pub open spec fn line_dist_spec(l: LineRaster, px: int, py: int) -> int {
    fx_div_spec(
        fx_sub_spec(
            fx_mul_spec(fx_sub_spec(l.r2.x as int, l.r1.x as int), fx_sub_spec(py, l.r1.y as int)),
            fx_mul_spec(fx_sub_spec(l.r2.y as int, l.r1.y as int), fx_sub_spec(px, l.r1.x as int)),
        ),
        l.seg_len as int,
    )
}

/// A sample is covered when its distance magnitude stays within the limit:
/// a coarse proximity test against the segment's thick line, not an exact
/// one-pixel stroke.
pub open spec fn line_cov_spec(l: LineRaster, px: int, py: int) -> bool {
    fx_neg_spec(l.limit as int) <= line_dist_spec(l, px, py) <= l.limit as int
}

impl Renderer {
    /// Whether pixel `(h, w)` lies in a segment's candidate box: the pixel
    /// bounding box of the two raster endpoints, clamped to the image.
    pub open spec fn line_in_bbox_spec(self, l: LineRaster, h: int, w: int) -> bool {
        &&& px_floor_spec(min2_spec(l.r1.x, l.r2.x) as int) <= w
        &&& w < min_int(self.img_width as int, px_floor_spec(max2_spec(l.r1.x, l.r2.x) as int))
        &&& px_floor_spec(min2_spec(l.r1.y, l.r2.y) as int) <= h
        &&& h < min_int(self.img_height as int, px_floor_spec(max2_spec(l.r1.y, l.r2.y) as int))
    }

    /// Whether the segment wins cell `(h, w, s)` against this state's depth
    /// buffer. The interpolated depth of a line sample is always zero: the
    /// endpoint depth weights are never produced on this path, a preserved
    /// quirk of the pipeline, so a line wins any sample whose stored depth is
    /// positive.
    pub open spec fn line_accept_spec(self, l: LineRaster, h: int, w: int, s: int) -> bool {
        &&& self.line_in_bbox_spec(l, h, w)
        &&& line_cov_spec(l, self.sample_x_spec(w, s), self.sample_y_spec(h, s))
        &&& 0 < self.z_buffer@[self.buf_index_spec(h, w, s)]
    }

    /// The depth cell `(h, w, s)` after rasterizing the segment over this
    /// state.
    pub open spec fn line_cell_z_spec(self, l: LineRaster, h: int, w: int, s: int) -> i64 {
        if self.line_accept_spec(l, h, w, s) {
            0i64
        } else {
            self.z_buffer@[self.buf_index_spec(h, w, s)]
        }
    }

    /// The color cell `(h, w, s)` after rasterizing the segment over this
    /// state: the first endpoint's color, pre-scaled.
    pub open spec fn line_cell_color_spec(
        self,
        l: LineRaster,
        shape: Shape,
        h: int,
        w: int,
        s: int,
    ) -> Color {
        if self.line_accept_spec(l, h, w, s) {
            scaled_color_spec(shape.vertices@[0].color, self.sample_factor)
        } else {
            self.frame_buffer@[self.buf_index_spec(h, w, s)]
        }
    }

    /// Project the two endpoints of a line shape; `None` discards it.
    fn line_setup(&self, shape: &Shape) -> (res: Option<LineRaster>)
        requires
            shape.vertices@.len() == 2,
        ensures
            res == line_setup_spec(
                self.camera.transformation,
                *shape,
                self.img_width_half,
                self.img_height_half,
            ),
    {
        let o1 = world_to_raster(
            &self.camera.transformation,
            &shape.vertices[0].vec,
            self.img_width_half,
            self.img_height_half,
        );
        let o2 = world_to_raster(
            &self.camera.transformation,
            &shape.vertices[1].vec,
            self.img_width_half,
            self.img_height_half,
        );
        let v1 = match o1 {
            Option::None => { return Option::None; },
            Option::Some(v) => v,
        };
        let v2 = match o2 {
            Option::None => { return Option::None; },
            Option::Some(v) => v,
        };
        let d = v2.pos.minus(&v1.pos);
        let len = d.len();
        proof {
            crate::fx::lemma_fx_sqrt_range(crate::vec::v3_dot_spec(d, d));
        }
        if len == 0 {
            return Option::None;
        }
        Option::Some(
            LineRaster {
                r1: v1.pos,
                r2: v2.pos,
                rz1: v1.rz,
                rz2: v2.rz,
                seg_len: len,
                limit: fx_mul(len, FX_HALF),
            },
        )
    }

    /// One sub-sample of one candidate pixel of a segment: test proximity to
    /// the segment's line, depth-test the (always zero) interpolated depth,
    /// and write the first endpoint's color where it wins.
    fn line_sample(
        &mut self,
        l: &LineRaster,
        shape: &Shape,
        cur_h: usize,
        cur_w: usize,
        sample: usize,
    )
        requires
            old(self).wf(),
            shape.vertices@.len() == 2,
            cur_h < old(self).img_height,
            cur_w < old(self).img_width,
            sample < old(self).used_samples,
            old(self).line_in_bbox_spec(*l, cur_h as int, cur_w as int),
        ensures
            final(self).wf(),
            Renderer::same_config(*final(self), *old(self)),
            ({
                let h = cur_h as int;
                let w = cur_w as int;
                let s = sample as int;
                let bi = old(self).buf_index_spec(h, w, s);
                let acc = old(self).line_accept_spec(*l, h, w, s);
                &&& final(self).z_buffer@ == (if acc {
                    old(self).z_buffer@.update(bi, 0i64)
                } else {
                    old(self).z_buffer@
                })
                &&& final(self).frame_buffer@ == (if acc {
                    old(self).frame_buffer@.update(
                        bi,
                        old(self).line_cell_color_spec(*l, *shape, h, w, s),
                    )
                } else {
                    old(self).frame_buffer@
                })
                &&& final(self).min_z == (if acc && 0 < old(self).min_z {
                    0i64
                } else {
                    old(self).min_z
                })
                &&& final(self).max_z == (if acc && 0 > old(self).max_z {
                    0i64
                } else {
                    old(self).max_z
                })
            }),
    {
        proof {
            lemma_cell_in_range(*old(self), cur_h as int, cur_w as int, sample as int);
        }
        let off = self.samples[sample];
        let px = fx_add(fx_of_count(cur_w), off.x);
        let py = fx_add(fx_of_count(cur_h), off.y);
        proof {
            assert(px as int == old(self).sample_x_spec(cur_w as int, sample as int));
            assert(py as int == old(self).sample_y_spec(cur_h as int, sample as int));
        }
        let cross = fx_sub(
            fx_mul(fx_sub(l.r2.x, l.r1.x), fx_sub(py, l.r1.y)),
            fx_mul(fx_sub(l.r2.y, l.r1.y), fx_sub(px, l.r1.x)),
        );
        let dist = fx_div(cross, l.seg_len);
        if dist > l.limit || dist < fx_neg(l.limit) {
            proof {
                assert(!line_cov_spec(*l, px as int, py as int));
            }
            return ;
        }
        let bi: usize = cur_h * self.buf_width + cur_w * self.used_samples + sample;
        // the interpolated depth of a line sample is always zero (the depth
        // weights are never produced on this path), a preserved quirk
        if self.depth_test_and_set(0, bi) {
            let color = shape.vertices[0].color;
            self.set_color_to_fb(bi, &color);
        }
    }

    /// Rasterize a line segment: project its endpoints, then depth-test every
    /// sub-sample near the segment inside its candidate box and write the
    /// first endpoint's color where it wins. A projection discard or a
    /// zero-length raster segment leaves the renderer untouched.
    #[verifier::rlimit(100)]
    #[verifier::spinoff_prover]
    pub fn render_line(&mut self, shape: &Shape)
        requires
            old(self).wf(),
            shape.vertices@.len() == 2,
        ensures
            final(self).wf(),
            Renderer::same_config(*final(self), *old(self)),
            ({
                let lo = line_setup_spec(
                    old(self).camera.transformation,
                    *shape,
                    old(self).img_width_half,
                    old(self).img_height_half,
                );
                if lo is Some {
                    let l = lo->0;
                    &&& (forall|h: int, w: int, s: int|
                        #![trigger old(self).buf_index_spec(h, w, s)]
                        old(self).cell_ok(h, w, s) ==> final(self).z_buffer@[old(self).buf_index_spec(h, w, s)] == old(self).line_cell_z_spec(l, h, w, s)
                            && final(self).frame_buffer@[old(self).buf_index_spec(h, w, s)] == old(self).line_cell_color_spec(l, *shape, h, w, s))
                    &&& final(self).min_z <= old(self).min_z
                    &&& final(self).max_z >= old(self).max_z
                    &&& (forall|h: int, w: int, s: int|
                        #![trigger old(self).line_accept_spec(l, h, w, s)]
                        old(self).cell_ok(h, w, s) && old(self).line_accept_spec(l, h, w, s)
                            ==> final(self).min_z <= 0 && final(self).max_z >= 0)
                    &&& (final(self).min_z == old(self).min_z || exists|h: int, w: int, s: int|
                        #![trigger old(self).line_accept_spec(l, h, w, s)]
                        old(self).cell_ok(h, w, s) && old(self).line_accept_spec(l, h, w, s)
                            && final(self).min_z == 0)
                    &&& (final(self).max_z == old(self).max_z || exists|h: int, w: int, s: int|
                        #![trigger old(self).line_accept_spec(l, h, w, s)]
                        old(self).cell_ok(h, w, s) && old(self).line_accept_spec(l, h, w, s)
                            && final(self).max_z == 0)
                } else {
                    *final(self) == *old(self)
                }
            }),
    {
        let lo = self.line_setup(shape);
        let l = match lo {
            Option::None => { return ; },
            Option::Some(l) => l,
        };
        let minx: usize = px_floor(min2(l.r1.x, l.r2.x));
        let maxx: usize = px_capped(max2(l.r1.x, l.r2.x), self.img_width);
        let miny: usize = px_floor(min2(l.r1.y, l.r2.y));
        let maxy: usize = px_capped(max2(l.r1.y, l.r2.y), self.img_height);
        let us = self.used_samples;
        let mut cur_h: usize = miny;
        while cur_h < maxy
            invariant
                old(self).wf(),
                self.wf(),
                Renderer::same_config(*self, *old(self)),
                us == old(self).used_samples,
                Option::Some(l) == line_setup_spec(
                    old(self).camera.transformation,
                    *shape,
                    old(self).img_width_half,
                    old(self).img_height_half,
                ),
                shape.vertices@.len() == 2,
                minx as int == px_floor_spec(min2_spec(l.r1.x, l.r2.x) as int),
                maxx as int == min_int(
                    old(self).img_width as int,
                    px_floor_spec(max2_spec(l.r1.x, l.r2.x) as int),
                ),
                miny as int == px_floor_spec(min2_spec(l.r1.y, l.r2.y) as int),
                maxy as int == min_int(
                    old(self).img_height as int,
                    px_floor_spec(max2_spec(l.r1.y, l.r2.y) as int),
                ),
                miny <= cur_h,
                cur_h <= maxy || cur_h == miny,
                forall|h: int, w: int, s: int|
                    #![trigger old(self).buf_index_spec(h, w, s)]
                    old(self).cell_ok(h, w, s) ==> if lex_done(
                        h,
                        w,
                        s,
                        cur_h as int,
                        minx as int,
                        0,
                    ) {
                        self.z_buffer@[old(self).buf_index_spec(h, w, s)] == old(self).line_cell_z_spec(l, h, w, s) && self.frame_buffer@[old(self).buf_index_spec(h, w, s)] == old(self).line_cell_color_spec(
                            l,
                            *shape,
                            h,
                            w,
                            s,
                        )
                    } else {
                        self.z_buffer@[old(self).buf_index_spec(h, w, s)] == old(self).z_buffer@[old(self).buf_index_spec(h, w, s)] && self.frame_buffer@[old(self).buf_index_spec(h, w, s)] == old(self).frame_buffer@[old(self).buf_index_spec(h, w, s)]
                    },
                self.min_z <= old(self).min_z,
                self.max_z >= old(self).max_z,
                forall|h: int, w: int, s: int|
                    #![trigger old(self).line_accept_spec(l, h, w, s)]
                    old(self).cell_ok(h, w, s) && lex_done(h, w, s, cur_h as int, minx as int, 0)
                        && old(self).line_accept_spec(l, h, w, s) ==> self.min_z <= 0 && self.max_z
                        >= 0,
                self.min_z == old(self).min_z || exists|h: int, w: int, s: int|
                    #![trigger old(self).line_accept_spec(l, h, w, s)]
                    old(self).cell_ok(h, w, s) && lex_done(h, w, s, cur_h as int, minx as int, 0)
                        && old(self).line_accept_spec(l, h, w, s) && self.min_z == 0,
                self.max_z == old(self).max_z || exists|h: int, w: int, s: int|
                    #![trigger old(self).line_accept_spec(l, h, w, s)]
                    old(self).cell_ok(h, w, s) && lex_done(h, w, s, cur_h as int, minx as int, 0)
                        && old(self).line_accept_spec(l, h, w, s) && self.max_z == 0,
            decreases maxy - cur_h,
        {
            let mut cur_w: usize = minx;
            while cur_w < maxx
                invariant
                    old(self).wf(),
                    self.wf(),
                    Renderer::same_config(*self, *old(self)),
                    us == old(self).used_samples,
                    Option::Some(l) == line_setup_spec(
                        old(self).camera.transformation,
                        *shape,
                        old(self).img_width_half,
                        old(self).img_height_half,
                    ),
                    shape.vertices@.len() == 2,
                    minx as int == px_floor_spec(min2_spec(l.r1.x, l.r2.x) as int),
                    maxx as int == min_int(
                        old(self).img_width as int,
                        px_floor_spec(max2_spec(l.r1.x, l.r2.x) as int),
                    ),
                    miny as int == px_floor_spec(min2_spec(l.r1.y, l.r2.y) as int),
                    maxy as int == min_int(
                        old(self).img_height as int,
                        px_floor_spec(max2_spec(l.r1.y, l.r2.y) as int),
                    ),
                    miny <= cur_h < maxy,
                    minx <= cur_w,
                    cur_w <= maxx || cur_w == minx,
                    forall|h: int, w: int, s: int|
                        #![trigger old(self).buf_index_spec(h, w, s)]
                        old(self).cell_ok(h, w, s) ==> if lex_done(
                            h,
                            w,
                            s,
                            cur_h as int,
                            cur_w as int,
                            0,
                        ) {
                            self.z_buffer@[old(self).buf_index_spec(h, w, s)] == old(self).line_cell_z_spec(l, h, w, s) && self.frame_buffer@[old(self).buf_index_spec(h, w, s)] == old(self).line_cell_color_spec(
                                l,
                                *shape,
                                h,
                                w,
                                s,
                            )
                        } else {
                            self.z_buffer@[old(self).buf_index_spec(h, w, s)] == old(self).z_buffer@[old(self).buf_index_spec(h, w, s)]
                                && self.frame_buffer@[old(self).buf_index_spec(h, w, s)] == old(self).frame_buffer@[old(self).buf_index_spec(h, w, s)]
                        },
                    self.min_z <= old(self).min_z,
                    self.max_z >= old(self).max_z,
                    forall|h: int, w: int, s: int|
                        #![trigger old(self).line_accept_spec(l, h, w, s)]
                        old(self).cell_ok(h, w, s) && lex_done(
                            h,
                            w,
                            s,
                            cur_h as int,
                            cur_w as int,
                            0,
                        ) && old(self).line_accept_spec(l, h, w, s) ==> self.min_z <= 0
                            && self.max_z >= 0,
                    self.min_z == old(self).min_z || exists|h: int, w: int, s: int|
                        #![trigger old(self).line_accept_spec(l, h, w, s)]
                        old(self).cell_ok(h, w, s) && lex_done(
                            h,
                            w,
                            s,
                            cur_h as int,
                            cur_w as int,
                            0,
                        ) && old(self).line_accept_spec(l, h, w, s) && self.min_z == 0,
                    self.max_z == old(self).max_z || exists|h: int, w: int, s: int|
                        #![trigger old(self).line_accept_spec(l, h, w, s)]
                        old(self).cell_ok(h, w, s) && lex_done(
                            h,
                            w,
                            s,
                            cur_h as int,
                            cur_w as int,
                            0,
                        ) && old(self).line_accept_spec(l, h, w, s) && self.max_z == 0,
                decreases maxx - cur_w,
            {
                let mut sample: usize = 0;
                while sample < us
                    invariant
                        old(self).wf(),
                        self.wf(),
                        Renderer::same_config(*self, *old(self)),
                        us == old(self).used_samples,
                        Option::Some(l) == line_setup_spec(
                            old(self).camera.transformation,
                            *shape,
                            old(self).img_width_half,
                            old(self).img_height_half,
                        ),
                        shape.vertices@.len() == 2,
                        minx as int == px_floor_spec(min2_spec(l.r1.x, l.r2.x) as int),
                        maxx as int == min_int(
                            old(self).img_width as int,
                            px_floor_spec(max2_spec(l.r1.x, l.r2.x) as int),
                        ),
                        miny as int == px_floor_spec(min2_spec(l.r1.y, l.r2.y) as int),
                        maxy as int == min_int(
                            old(self).img_height as int,
                            px_floor_spec(max2_spec(l.r1.y, l.r2.y) as int),
                        ),
                        miny <= cur_h < maxy,
                        minx <= cur_w < maxx,
                        sample <= us,
                        forall|h: int, w: int, s: int|
                            #![trigger old(self).buf_index_spec(h, w, s)]
                            old(self).cell_ok(h, w, s) ==> if lex_done(
                                h,
                                w,
                                s,
                                cur_h as int,
                                cur_w as int,
                                sample as int,
                            ) {
                                self.z_buffer@[old(self).buf_index_spec(h, w, s)] == old(self).line_cell_z_spec(l, h, w, s) && self.frame_buffer@[old(self).buf_index_spec(h, w, s)] == old(self).line_cell_color_spec(
                                    l,
                                    *shape,
                                    h,
                                    w,
                                    s,
                                )
                            } else {
                                self.z_buffer@[old(self).buf_index_spec(h, w, s)] == old(self).z_buffer@[old(self).buf_index_spec(h, w, s)]
                                    && self.frame_buffer@[old(self).buf_index_spec(h, w, s)]
                                    == old(self).frame_buffer@[old(self).buf_index_spec(h, w, s)]
                            },
                        self.min_z <= old(self).min_z,
                        self.max_z >= old(self).max_z,
                        forall|h: int, w: int, s: int|
                            #![trigger old(self).line_accept_spec(l, h, w, s)]
                            old(self).cell_ok(h, w, s) && lex_done(
                                h,
                                w,
                                s,
                                cur_h as int,
                                cur_w as int,
                                sample as int,
                            ) && old(self).line_accept_spec(l, h, w, s) ==> self.min_z <= 0
                                && self.max_z >= 0,
                        self.min_z == old(self).min_z || exists|h: int, w: int, s: int|
                            #![trigger old(self).line_accept_spec(l, h, w, s)]
                            old(self).cell_ok(h, w, s) && lex_done(
                                h,
                                w,
                                s,
                                cur_h as int,
                                cur_w as int,
                                sample as int,
                            ) && old(self).line_accept_spec(l, h, w, s) && self.min_z == 0,
                        self.max_z == old(self).max_z || exists|h: int, w: int, s: int|
                            #![trigger old(self).line_accept_spec(l, h, w, s)]
                            old(self).cell_ok(h, w, s) && lex_done(
                                h,
                                w,
                                s,
                                cur_h as int,
                                cur_w as int,
                                sample as int,
                            ) && old(self).line_accept_spec(l, h, w, s) && self.max_z == 0,
                    decreases us - sample,
                {
                    let ghost gh = cur_h as int;
                    let ghost gw = cur_w as int;
                    let ghost gs = sample as int;
                    let ghost gbi = old(self).buf_index_spec(gh, gw, gs);
                    let ghost prior = *self;
                    proof {
                        lemma_cell_in_range(*old(self), gh, gw, gs);
                        assert(!lex_done(gh, gw, gs, cur_h as int, cur_w as int, sample as int));
                        assert(self.z_buffer@[gbi] == old(self).z_buffer@[gbi]);
                        assert(self.frame_buffer@[gbi] == old(self).frame_buffer@[gbi]);
                        assert(old(self).line_in_bbox_spec(l, gh, gw));
                        assert(prior.line_in_bbox_spec(l, gh, gw));
                        assert(prior.buf_index_spec(gh, gw, gs) == gbi);
                        assert(prior.sample_x_spec(gw, gs) == old(self).sample_x_spec(gw, gs));
                        assert(prior.sample_y_spec(gh, gs) == old(self).sample_y_spec(gh, gs));
                        assert(prior.line_accept_spec(l, gh, gw, gs) == old(self).line_accept_spec(
                            l,
                            gh,
                            gw,
                            gs,
                        ));
                        assert(prior.line_cell_color_spec(l, *shape, gh, gw, gs) == old(self).line_cell_color_spec(l, *shape, gh, gw, gs));
                    }
                    self.line_sample(&l, shape, cur_h, cur_w, sample);
                    proof {
                        let ghost acc = old(self).line_accept_spec(l, gh, gw, gs);
                        assert(self.z_buffer@[gbi] == old(self).line_cell_z_spec(l, gh, gw, gs));
                        assert(self.frame_buffer@[gbi] == old(self).line_cell_color_spec(
                            l,
                            *shape,
                            gh,
                            gw,
                            gs,
                        ));
                        assert forall|h: int, w: int, s: int|
                            old(self).cell_ok(h, w, s) implies (if lex_done(
                            h,
                            w,
                            s,
                            cur_h as int,
                            cur_w as int,
                            sample + 1,
                        ) {
                            self.z_buffer@[#[trigger] old(self).buf_index_spec(h, w, s)] == old(self).line_cell_z_spec(l, h, w, s) && self.frame_buffer@[old(self).buf_index_spec(h, w, s)] == old(self).line_cell_color_spec(
                                l,
                                *shape,
                                h,
                                w,
                                s,
                            )
                        } else {
                            self.z_buffer@[old(self).buf_index_spec(h, w, s)] == old(self).z_buffer@[old(self).buf_index_spec(h, w, s)] && self.frame_buffer@[
                            old(self).buf_index_spec(h, w, s)] == old(self).frame_buffer@[old(self).buf_index_spec(h, w, s)]
                        }) by {
                            lemma_cell_in_range(*old(self), h, w, s);
                            if !(h == gh && w == gw && s == gs) {
                                lemma_buf_index_injective(*old(self), h, w, s, gh, gw, gs);
                                assert(old(self).buf_index_spec(h, w, s) != gbi);
                                assert(self.z_buffer@[old(self).buf_index_spec(h, w, s)]
                                    == prior.z_buffer@[old(self).buf_index_spec(h, w, s)]);
                                assert(self.frame_buffer@[old(self).buf_index_spec(h, w, s)]
                                    == prior.frame_buffer@[old(self).buf_index_spec(h, w, s)]);
                                assert(lex_done(h, w, s, cur_h as int, cur_w as int, sample + 1)
                                    == lex_done(
                                    h,
                                    w,
                                    s,
                                    cur_h as int,
                                    cur_w as int,
                                    sample as int,
                                ));
                            }
                        }
                        if prior.min_z != old(self).min_z {
                            let (h0, w0, s0) = choose|h: int, w: int, s: int|
                                old(self).cell_ok(h, w, s) && lex_done(
                                    h,
                                    w,
                                    s,
                                    cur_h as int,
                                    cur_w as int,
                                    sample as int,
                                ) && #[trigger] old(self).line_accept_spec(l, h, w, s)
                                    && prior.min_z == 0;
                            if self.min_z == prior.min_z {
                                assert(old(self).cell_ok(h0, w0, s0) && lex_done(
                                    h0,
                                    w0,
                                    s0,
                                    cur_h as int,
                                    cur_w as int,
                                    sample + 1,
                                ) && old(self).line_accept_spec(l, h0, w0, s0) && self.min_z == 0);
                            }
                        }
                        if prior.max_z != old(self).max_z {
                            let (h0, w0, s0) = choose|h: int, w: int, s: int|
                                old(self).cell_ok(h, w, s) && lex_done(
                                    h,
                                    w,
                                    s,
                                    cur_h as int,
                                    cur_w as int,
                                    sample as int,
                                ) && #[trigger] old(self).line_accept_spec(l, h, w, s)
                                    && prior.max_z == 0;
                            if self.max_z == prior.max_z {
                                assert(old(self).cell_ok(h0, w0, s0) && lex_done(
                                    h0,
                                    w0,
                                    s0,
                                    cur_h as int,
                                    cur_w as int,
                                    sample + 1,
                                ) && old(self).line_accept_spec(l, h0, w0, s0) && self.max_z == 0);
                            }
                        }
                        if acc && self.min_z != prior.min_z {
                            assert(old(self).cell_ok(gh, gw, gs) && lex_done(
                                gh,
                                gw,
                                gs,
                                cur_h as int,
                                cur_w as int,
                                sample + 1,
                            ) && old(self).line_accept_spec(l, gh, gw, gs) && self.min_z == 0);
                        }
                        if acc && self.max_z != prior.max_z {
                            assert(old(self).cell_ok(gh, gw, gs) && lex_done(
                                gh,
                                gw,
                                gs,
                                cur_h as int,
                                cur_w as int,
                                sample + 1,
                            ) && old(self).line_accept_spec(l, gh, gw, gs) && self.max_z == 0);
                        }
                    }
                    sample = sample + 1;
                }
                cur_w = cur_w + 1;
                proof {
                    assert forall|h: int, w: int, s: int|
                        old(self).cell_ok(h, w, s) implies (lex_done(
                        h,
                        w,
                        s,
                        cur_h as int,
                        cur_w as int,
                        0,
                    ) == lex_done(h, w, s, cur_h as int, cur_w - 1, us as int)) by {}
                }
            }
            cur_h = cur_h + 1;
            proof {
                assert forall|h: int, w: int, s: int|
                    old(self).cell_ok(h, w, s) && lex_done(h, w, s, cur_h as int, minx as int, 0)
                        && !lex_done(h, w, s, cur_h - 1, maxx as int, 0) implies self.z_buffer@[
                    old(self).buf_index_spec(h, w, s)] == old(self).line_cell_z_spec(l, h, w, s)
                    && self.frame_buffer@[old(self).buf_index_spec(h, w, s)] == old(self).line_cell_color_spec(l, *shape, h, w, s) by {
                    assert(!old(self).line_in_bbox_spec(l, h, w));
                    assert(!old(self).line_accept_spec(l, h, w, s));
                }
            }
        }
        proof {
            assert forall|h: int, w: int, s: int|
                old(self).cell_ok(h, w, s) implies #[trigger] final(self).z_buffer@[old(self).buf_index_spec(h, w, s)] == old(self).line_cell_z_spec(l, h, w, s) && final(self).frame_buffer@[old(self).buf_index_spec(h, w, s)] == old(self).line_cell_color_spec(
                l,
                *shape,
                h,
                w,
                s,
            ) by {
                if !lex_done(h, w, s, cur_h as int, minx as int, 0) {
                    assert(!old(self).line_in_bbox_spec(l, h, w));
                    assert(!old(self).line_accept_spec(l, h, w, s));
                }
            }
        }
    }
}

impl Renderer {
    /// What rasterizing a point over the state `pre` leaves in the buffers
    /// `zb`, `fb` and the depth range `minz`, `maxz`.
    pub open spec fn point_post_spec(
        pre: Renderer,
        zb: Seq<i64>,
        fb: Seq<Color>,
        minz: i64,
        maxz: i64,
        shape: Shape,
    ) -> bool {
        let rvo = raster_of_spec(
            pre.camera.transformation,
            shape.vertices@[0].vec,
            pre.img_width_half,
            pre.img_height_half,
        );
        &&& zb.len() == pre.z_buffer@.len()
        &&& fb.len() == pre.frame_buffer@.len()
        &&& if rvo is Some && pre.point_visible_spec(rvo->0) {
            let rv = rvo->0;
            let py = px_floor_spec(rv.pos.y as int);
            let px = px_floor_spec(rv.pos.x as int);
            let base = pre.buf_index_spec(py, px, 0);
            &&& (forall|s: int|
                0 <= s < pre.used_samples ==> #[trigger] zb[base + s] == (if rv.rz
                    < pre.z_buffer@[base + s] {
                    rv.rz
                } else {
                    pre.z_buffer@[base + s]
                }))
            &&& (forall|s: int|
                0 <= s < pre.used_samples ==> #[trigger] fb[base + s] == (if rv.rz
                    < pre.z_buffer@[base + s] {
                    scaled_color_spec(shape.vertices@[0].color, pre.sample_factor)
                } else {
                    pre.frame_buffer@[base + s]
                }))
            &&& (forall|i: int|
                0 <= i < pre.cell_count() && !(base <= i < base + pre.used_samples)
                    ==> #[trigger] zb[i] == pre.z_buffer@[i])
            &&& (forall|i: int|
                0 <= i < pre.cell_count() && !(base <= i < base + pre.used_samples)
                    ==> #[trigger] fb[i] == pre.frame_buffer@[i])
            &&& minz == (if (exists|s: int|
                0 <= s < pre.used_samples && rv.rz < #[trigger] pre.z_buffer@[base + s]) {
                if rv.rz < pre.min_z {
                    rv.rz
                } else {
                    pre.min_z
                }
            } else {
                pre.min_z
            })
            &&& maxz == (if (exists|s: int|
                0 <= s < pre.used_samples && rv.rz < #[trigger] pre.z_buffer@[base + s]) {
                if rv.rz > pre.max_z {
                    rv.rz
                } else {
                    pre.max_z
                }
            } else {
                pre.max_z
            })
        } else {
            zb == pre.z_buffer@ && fb == pre.frame_buffer@ && minz == pre.min_z && maxz
                == pre.max_z
        }
    }

    /// What rasterizing a line over the state `pre` leaves behind.
    pub open spec fn line_post_spec(
        pre: Renderer,
        zb: Seq<i64>,
        fb: Seq<Color>,
        minz: i64,
        maxz: i64,
        shape: Shape,
    ) -> bool {
        let lo = line_setup_spec(
            pre.camera.transformation,
            shape,
            pre.img_width_half,
            pre.img_height_half,
        );
        &&& zb.len() == pre.z_buffer@.len()
        &&& fb.len() == pre.frame_buffer@.len()
        &&& if lo is Some {
            let l = lo->0;
            &&& (forall|h: int, w: int, s: int|
                #![trigger pre.buf_index_spec(h, w, s)]
                pre.cell_ok(h, w, s) ==> zb[pre.buf_index_spec(h, w, s)] == pre.line_cell_z_spec(
                    l,
                    h,
                    w,
                    s,
                ) && fb[pre.buf_index_spec(h, w, s)] == pre.line_cell_color_spec(l, shape, h, w, s))
            &&& minz <= pre.min_z
            &&& maxz >= pre.max_z
            &&& (forall|h: int, w: int, s: int|
                #![trigger pre.line_accept_spec(l, h, w, s)]
                pre.cell_ok(h, w, s) && pre.line_accept_spec(l, h, w, s) ==> minz <= 0 && maxz
                    >= 0)
            &&& (minz == pre.min_z || exists|h: int, w: int, s: int|
                #![trigger pre.line_accept_spec(l, h, w, s)]
                pre.cell_ok(h, w, s) && pre.line_accept_spec(l, h, w, s) && minz == 0)
            &&& (maxz == pre.max_z || exists|h: int, w: int, s: int|
                #![trigger pre.line_accept_spec(l, h, w, s)]
                pre.cell_ok(h, w, s) && pre.line_accept_spec(l, h, w, s) && maxz == 0)
        } else {
            zb == pre.z_buffer@ && fb == pre.frame_buffer@ && minz == pre.min_z && maxz
                == pre.max_z
        }
    }

    /// What rasterizing a triangle over the state `pre` leaves behind.
    pub open spec fn triangle_post_spec(
        pre: Renderer,
        zb: Seq<i64>,
        fb: Seq<Color>,
        minz: i64,
        maxz: i64,
        shape: Shape,
    ) -> bool {
        let to = tri_setup_spec(
            pre.camera.transformation,
            shape,
            pre.img_width_half,
            pre.img_height_half,
        );
        &&& zb.len() == pre.z_buffer@.len()
        &&& fb.len() == pre.frame_buffer@.len()
        &&& if to is Some {
            let t = to->0;
            &&& (forall|h: int, w: int, s: int|
                #![trigger pre.buf_index_spec(h, w, s)]
                pre.cell_ok(h, w, s) ==> zb[pre.buf_index_spec(h, w, s)] == pre.tri_cell_z_spec(
                    t,
                    h,
                    w,
                    s,
                ) && fb[pre.buf_index_spec(h, w, s)] == pre.tri_cell_color_spec(t, shape, h, w, s))
            &&& minz <= pre.min_z
            &&& maxz >= pre.max_z
            &&& (forall|h: int, w: int, s: int|
                #![trigger pre.tri_accept_spec(t, h, w, s)]
                pre.cell_ok(h, w, s) && pre.tri_accept_spec(t, h, w, s) ==> minz as int
                    <= pre.tri_depth_at_spec(t, h, w, s) && maxz as int >= pre.tri_depth_at_spec(
                    t,
                    h,
                    w,
                    s,
                ))
            &&& (minz == pre.min_z || exists|h: int, w: int, s: int|
                #![trigger pre.tri_accept_spec(t, h, w, s)]
                pre.cell_ok(h, w, s) && pre.tri_accept_spec(t, h, w, s) && minz as int
                    == pre.tri_depth_at_spec(t, h, w, s))
            &&& (maxz == pre.max_z || exists|h: int, w: int, s: int|
                #![trigger pre.tri_accept_spec(t, h, w, s)]
                pre.cell_ok(h, w, s) && pre.tri_accept_spec(t, h, w, s) && maxz as int
                    == pre.tri_depth_at_spec(t, h, w, s))
        } else {
            zb == pre.z_buffer@ && fb == pre.frame_buffer@ && minz == pre.min_z && maxz
                == pre.max_z
        }
    }

    /// What rasterizing one shape over the state `pre` leaves behind: the
    /// vertex count picks the rasterizer, any other count does nothing.
    pub open spec fn shape_post_spec(
        pre: Renderer,
        zb: Seq<i64>,
        fb: Seq<Color>,
        minz: i64,
        maxz: i64,
        shape: Shape,
    ) -> bool {
        if shape.vertices@.len() == 3 {
            Renderer::triangle_post_spec(pre, zb, fb, minz, maxz, shape)
        } else if shape.vertices@.len() == 2 {
            Renderer::line_post_spec(pre, zb, fb, minz, maxz, shape)
        } else if shape.vertices@.len() == 1 {
            Renderer::point_post_spec(pre, zb, fb, minz, maxz, shape)
        } else {
            zb == pre.z_buffer@ && fb == pre.frame_buffer@ && minz == pre.min_z && maxz
                == pre.max_z
        }
    }

    /// The textures a shape list needs are present: any textured triangle
    /// requires a first texture of the sampled size.
    pub open spec fn shapes_renderable_spec(self, shapes: Seq<Shape>) -> bool {
        forall|i: int|
            0 <= i < shapes.len() && #[trigger] shapes[i].tex_id != -1
                && shapes[i].vertices@.len() == 3 ==> self.texture@.len() >= 1
                && self.texture@[0].renderable()
    }

    /// The buffers and depth range evolve from `pre` by rasterizing `shapes`
    /// in order: each step is one shape's rasterization over some
    /// intermediate state.
    pub open spec fn shapes_chain_spec(
        pre: Renderer,
        zb: Seq<i64>,
        fb: Seq<Color>,
        minz: i64,
        maxz: i64,
        shapes: Seq<Shape>,
    ) -> bool
        decreases shapes.len(),
    {
        if shapes.len() == 0 {
            zb == pre.z_buffer@ && fb == pre.frame_buffer@ && minz == pre.min_z && maxz
                == pre.max_z
        } else {
            exists|mid: Renderer|
                #![trigger Renderer::shape_post_spec(mid, zb, fb, minz, maxz, shapes.last())]
                Renderer::same_config(mid, pre) && mid.wf() && Renderer::shapes_chain_spec(
                    pre,
                    mid.z_buffer@,
                    mid.frame_buffer@,
                    mid.min_z,
                    mid.max_z,
                    shapes.drop_last(),
                ) && Renderer::shape_post_spec(mid, zb, fb, minz, maxz, shapes.last())
        }
    }

    /// Rasterize one shape, dispatched on its vertex count; a shape with no
    /// matching rasterizer (zero or more than three vertices) is ignored.
    pub fn render_shape(&mut self, shape: &Shape)
        requires
            old(self).wf(),
            shape.tex_id != -1 && shape.vertices@.len() == 3 ==> old(self).texture@.len() >= 1
                && old(self).texture@[0].renderable(),
        ensures
            final(self).wf(),
            Renderer::same_config(*final(self), *old(self)),
            Renderer::shape_post_spec(
                *old(self),
                final(self).z_buffer@,
                final(self).frame_buffer@,
                final(self).min_z,
                final(self).max_z,
                *shape,
            ),
    {
        let n = shape.vertices.len();
        if n == 3 {
            self.render_triangle(shape);
        } else if n == 2 {
            self.render_line(shape);
        } else if n == 1 {
            self.render_point(shape);
        }
    }

    /// Rasterize every shape of a mesh, in order.
    pub fn render_mesh(&mut self, mesh: &Mesh)
        requires
            old(self).wf(),
            old(self).shapes_renderable_spec(mesh.shapes@),
        ensures
            final(self).wf(),
            Renderer::same_config(*final(self), *old(self)),
            Renderer::shapes_chain_spec(
                *old(self),
                final(self).z_buffer@,
                final(self).frame_buffer@,
                final(self).min_z,
                final(self).max_z,
                mesh.shapes@,
            ),
            mesh.shapes@.len() == 0 ==> *final(self) == *old(self),
    {
        let n = mesh.shapes.len();
        if n == 0 {
            return ;
        }
        let mut i: usize = 0;
        proof {
            assert(mesh.shapes@.take(0) =~= Seq::<Shape>::empty());
        }
        while i < n
            invariant
                old(self).wf(),
                self.wf(),
                Renderer::same_config(*self, *old(self)),
                n == mesh.shapes@.len(),
                i <= n,
                old(self).shapes_renderable_spec(mesh.shapes@),
                Renderer::shapes_chain_spec(
                    *old(self),
                    self.z_buffer@,
                    self.frame_buffer@,
                    self.min_z,
                    self.max_z,
                    mesh.shapes@.take(i as int),
                ),
            decreases n - i,
        {
            let ghost prior = *self;
            proof {
                assert(mesh.shapes@[i as int].tex_id != -1 && mesh.shapes@[i as int].vertices@.len()
                    == 3 ==> old(self).texture@.len() >= 1 && old(self).texture@[0].renderable());
            }
            self.render_shape(&mesh.shapes[i]);
            proof {
                let shapes_now = mesh.shapes@.take(i + 1);
                assert(shapes_now.drop_last() =~= mesh.shapes@.take(i as int));
                assert(shapes_now.last() == mesh.shapes@[i as int]);
                assert(Renderer::shape_post_spec(
                    prior,
                    self.z_buffer@,
                    self.frame_buffer@,
                    self.min_z,
                    self.max_z,
                    shapes_now.last(),
                ));
            }
            i = i + 1;
        }
        proof {
            assert(mesh.shapes@.take(n as int) =~= mesh.shapes@);
        }
    }

    /// Rasterize every mesh of a scene, in order: the buffers evolve by the
    /// concatenation of all the meshes' shape lists.
    pub fn render_scene(&mut self, scene: &Scene)
        requires
            old(self).wf(),
            forall|m: int|
                0 <= m < scene.meshes@.len() ==> old(self).shapes_renderable_spec(
                    #[trigger] scene.meshes@[m].shapes@,
                ),
        ensures
            final(self).wf(),
            Renderer::same_config(*final(self), *old(self)),
            Renderer::shapes_chain_spec(
                *old(self),
                final(self).z_buffer@,
                final(self).frame_buffer@,
                final(self).min_z,
                final(self).max_z,
                scene_shapes_spec(scene.meshes@),
            ),
            scene.meshes@.len() == 0 ==> *final(self) == *old(self),
    {
        let n = scene.meshes.len();
        if n == 0 {
            return ;
        }
        let mut i: usize = 0;
        proof {
            assert(scene_shapes_spec(scene.meshes@.take(0)) =~= Seq::<Shape>::empty());
        }
        while i < n
            invariant
                old(self).wf(),
                self.wf(),
                Renderer::same_config(*self, *old(self)),
                n == scene.meshes@.len(),
                i <= n,
                forall|m: int|
                    0 <= m < scene.meshes@.len() ==> old(self).shapes_renderable_spec(
                        #[trigger] scene.meshes@[m].shapes@,
                    ),
                Renderer::shapes_chain_spec(
                    *old(self),
                    self.z_buffer@,
                    self.frame_buffer@,
                    self.min_z,
                    self.max_z,
                    scene_shapes_spec(scene.meshes@.take(i as int)),
                ),
            decreases n - i,
        {
            let ghost pre_mesh_shapes = scene_shapes_spec(scene.meshes@.take(i as int));
            self.render_mesh_chained(
                &scene.meshes[i],
                Ghost(*old(self)),
                Ghost(pre_mesh_shapes),
            );
            proof {
                assert(scene.meshes@.take(i + 1).drop_last() =~= scene.meshes@.take(i as int));
                assert(scene_shapes_spec(scene.meshes@.take(i + 1)) =~= scene_shapes_spec(
                    scene.meshes@.take(i as int),
                ) + scene.meshes@[i as int].shapes@);
            }
            i = i + 1;
        }
        proof {
            assert(scene.meshes@.take(n as int) =~= scene.meshes@);
        }
    }

    /// Rasterize a mesh's shapes, extending an existing rasterization chain:
    /// the chain over `done` shapes from `orig` grows into a chain over
    /// `done` plus this mesh's shapes.
    fn render_mesh_chained(&mut self, mesh: &Mesh, orig: Ghost<Renderer>, done: Ghost<Seq<Shape>>)
        requires
            old(self).wf(),
            old(self).shapes_renderable_spec(mesh.shapes@),
            Renderer::same_config(*old(self), orig@),
            Renderer::shapes_chain_spec(
                orig@,
                old(self).z_buffer@,
                old(self).frame_buffer@,
                old(self).min_z,
                old(self).max_z,
                done@,
            ),
        ensures
            final(self).wf(),
            Renderer::same_config(*final(self), *old(self)),
            Renderer::shapes_chain_spec(
                orig@,
                final(self).z_buffer@,
                final(self).frame_buffer@,
                final(self).min_z,
                final(self).max_z,
                done@ + mesh.shapes@,
            ),
    {
        let n = mesh.shapes.len();
        let mut i: usize = 0;
        proof {
            assert(done@ + mesh.shapes@.take(0) =~= done@);
        }
        while i < n
            invariant
                old(self).wf(),
                self.wf(),
                Renderer::same_config(*self, *old(self)),
                Renderer::same_config(*self, orig@),
                n == mesh.shapes@.len(),
                i <= n,
                old(self).shapes_renderable_spec(mesh.shapes@),
                Renderer::same_config(*old(self), orig@),
                Renderer::shapes_chain_spec(
                    orig@,
                    self.z_buffer@,
                    self.frame_buffer@,
                    self.min_z,
                    self.max_z,
                    done@ + mesh.shapes@.take(i as int),
                ),
            decreases n - i,
        {
            let ghost prior = *self;
            proof {
                assert(mesh.shapes@[i as int].tex_id != -1 && mesh.shapes@[i as int].vertices@.len()
                    == 3 ==> self.texture@.len() >= 1 && self.texture@[0].renderable());
            }
            self.render_shape(&mesh.shapes[i]);
            proof {
                let chain_now = done@ + mesh.shapes@.take(i + 1);
                assert(chain_now.drop_last() =~= done@ + mesh.shapes@.take(i as int));
                assert(chain_now.last() == mesh.shapes@[i as int]);
                assert(Renderer::shape_post_spec(
                    prior,
                    self.z_buffer@,
                    self.frame_buffer@,
                    self.min_z,
                    self.max_z,
                    chain_now.last(),
                ));
            }
            i = i + 1;
        }
        proof {
            assert(done@ + mesh.shapes@.take(n as int) =~= done@ + mesh.shapes@);
        }
    }
}

/// The display byte of a resolved channel: clamped into the display range,
/// then truncated to its integer part.
pub open spec fn chan_byte_spec(v: int) -> u8 {
    if v <= 0 {
        0u8
    } else if v >= 255 * 0x1_0000_0000 {
        255u8
    } else {
        (v / 0x1_0000_0000) as u8
    }
}

/// The display byte of a resolved channel.
pub fn chan_byte(v: i64) -> (r: u8)
    ensures
        r == chan_byte_spec(v as int),
{
    if v <= 0 {
        0
    } else if v >= crate::color::FX_255 {
        255
    } else {
        proof {
            assert((v as int) / 0x1_0000_0000 < 255) by (nonlinear_arith)
                requires
                    0 <= (v as int) < 255 * 0x1_0000_0000;
        }
        ((v as u64) / 0x1_0000_0000u64) as u8
    }
}

/// The channelwise sum of the cells `base .. base + n` of a color buffer,
/// accumulated left to right.
pub open spec fn fb_sum_spec(fb: Seq<Color>, base: int, n: int) -> Color
    decreases n,
{
    if n <= 0 {
        Color { r: 0i64, g: 0i64, b: 0i64 }
    } else {
        let prev = fb_sum_spec(fb, base, n - 1);
        let c = fb[base + n - 1];
        Color {
            r: fxv(fx_add_spec(prev.r as int, c.r as int)),
            g: fxv(fx_add_spec(prev.g as int, c.g as int)),
            b: fxv(fx_add_spec(prev.b as int, c.b as int)),
        }
    }
}

/// The sum of the cells `base .. base + n` of a depth buffer, accumulated
/// left to right.
pub open spec fn zb_sum_spec(zb: Seq<i64>, base: int, n: int) -> i64
    decreases n,
{
    if n <= 0 {
        0i64
    } else {
        fxv(fx_add_spec(zb_sum_spec(zb, base, n - 1) as int, zb[base + n - 1] as int))
    }
}

impl Renderer {
    /// The resolved color of pixel `p` (row-major): the plain sum of its
    /// sub-sample cells, which were each pre-scaled at write time, so the sum
    /// is the box-filtered average.
    pub open spec fn resolved_pixel_spec(self, p: int) -> Color {
        let h = p / (self.img_width as int);
        let w = p % (self.img_width as int);
        fb_sum_spec(
            self.frame_buffer@,
            self.buf_index_spec(h, w, 0),
            self.used_samples as int,
        )
    }

    /// The depth-image value of pixel `p`: the average of its depth cells,
    /// remapped linearly from the tracked depth range onto the display range
    /// (an untouched pixel, still at the cleared maximum, maps to zero).
    pub open spec fn resolved_depth_spec(self, p: int) -> int {
        let h = p / (self.img_width as int);
        let w = p % (self.img_width as int);
        let sum = zb_sum_spec(
            self.z_buffer@,
            self.buf_index_spec(h, w, 0),
            self.used_samples as int,
        );
        let avg = fx_mul_spec(sum as int, self.sample_factor as int);
        if avg == Z_MAX as int {
            0
        } else {
            crate::fx::interpolate_lin_spec(
                avg,
                self.max_z as int,
                0,
                self.min_z as int,
                255int * 0x1_0000_0000int,
            )
        }
    }

    /// Resolve the frame buffer into three display bytes per pixel,
    /// row-major, top row first.
    pub fn fb_pixels(&self) -> (r: Vec<u8>)
        requires
            self.wf(),
        ensures
            r@.len() == 3 * self.img_width * self.img_height,
            forall|p: int|
                #![trigger self.resolved_pixel_spec(p)]
                0 <= p < self.img_width * self.img_height ==> r@[3 * p] == chan_byte_spec(
                    self.resolved_pixel_spec(p).r as int,
                ) && r@[3 * p + 1] == chan_byte_spec(self.resolved_pixel_spec(p).g as int) && r@[3
                    * p + 2] == chan_byte_spec(self.resolved_pixel_spec(p).b as int),
    {
        let mut r: Vec<u8> = Vec::new();
        let hh = self.img_height;
        let ww = self.img_width;
        let us = self.used_samples;
        let mut h: usize = 0;
        proof {
            assert(3 * (self.img_width * self.img_height) == 3 * self.img_width
                * self.img_height) by (nonlinear_arith);
        }
        while h < hh
            invariant
                self.wf(),
                hh == self.img_height,
                ww == self.img_width,
                us == self.used_samples,
                h <= hh,
                r@.len() == 3 * (h * ww),
                h * ww <= self.img_width * self.img_height,
                forall|p: int|
                    #![trigger self.resolved_pixel_spec(p)]
                    0 <= p < h * ww ==> r@[3 * p] == chan_byte_spec(
                        self.resolved_pixel_spec(p).r as int,
                    ) && r@[3 * p + 1] == chan_byte_spec(self.resolved_pixel_spec(p).g as int)
                        && r@[3 * p + 2] == chan_byte_spec(self.resolved_pixel_spec(p).b as int),
            decreases hh - h,
        {
            let mut w: usize = 0;
            proof {
                assert(h * ww + ww <= hh * ww && hh * ww == self.img_width * self.img_height)
                    by (nonlinear_arith)
                    requires
                        h < hh && ww == self.img_width && hh == self.img_height && ww >= 0;
            }
            while w < ww
                invariant
                    self.wf(),
                    hh == self.img_height,
                    ww == self.img_width,
                    us == self.used_samples,
                    h < hh,
                    w <= ww,
                    h * ww + ww <= self.img_width * self.img_height,
                    h * ww >= 0,
                    r@.len() == 3 * (h * ww + w),
                    forall|p: int|
                        #![trigger self.resolved_pixel_spec(p)]
                        0 <= p < h * ww + w ==> r@[3 * p] == chan_byte_spec(
                            self.resolved_pixel_spec(p).r as int,
                        ) && r@[3 * p + 1] == chan_byte_spec(self.resolved_pixel_spec(p).g as int)
                            && r@[3 * p + 2] == chan_byte_spec(
                            self.resolved_pixel_spec(p).b as int,
                        ),
                decreases ww - w,
            {
                proof {
                    assert(self.used_samples >= 1) by (nonlinear_arith)
                        requires
                            self.samplestep >= 1 && self.used_samples == self.samplestep
                                * self.samplestep;
                    lemma_cell_in_range(*self, h as int, w as int, 0);
                    lemma_cell_in_range(*self, h as int, w as int, self.used_samples - 1);
                }
                let base: usize = h * self.buf_width + w * us;
                let mut sum = Color { r: 0, g: 0, b: 0 };
                let mut s: usize = 0;
                while s < us
                    invariant
                        self.wf(),
                        us == self.used_samples,
                        s <= us,
                        0 <= base as int,
                        base + us <= self.frame_buffer@.len(),
                        sum == fb_sum_spec(self.frame_buffer@, base as int, s as int),
                    decreases us - s,
                {
                    let c = self.frame_buffer[base + s];
                    sum = Color {
                        r: fx_add(sum.r, c.r),
                        g: fx_add(sum.g, c.g),
                        b: fx_add(sum.b, c.b),
                    };
                    s = s + 1;
                }
                let ghost p0 = (h * ww + w) as int;
                proof {
                    vstd::arithmetic::div_mod::lemma_fundamental_div_mod_converse(
                        p0,
                        ww as int,
                        h as int,
                        w as int,
                    );
                    assert(self.resolved_pixel_spec(p0) == sum);
                    assert(3 * (h * ww + w) + 3 == 3 * (h * ww + w + 1)) by (nonlinear_arith);
                }
                r.push(chan_byte(sum.r));
                r.push(chan_byte(sum.g));
                r.push(chan_byte(sum.b));
                w = w + 1;
            }
            h = h + 1;
            proof {
                assert((h - 1) * ww + ww == h * ww) by (nonlinear_arith);
            }
        }
        proof {
            assert(hh * ww == self.img_width * self.img_height) by (nonlinear_arith)
                requires
                    hh == self.img_height && ww == self.img_width;
            assert(3 * (self.img_width * self.img_height) == 3 * self.img_width
                * self.img_height) by (nonlinear_arith);
        }
        r
    }

    /// Resolve the depth buffer into a greyscale image: three equal display
    /// bytes per pixel, the averaged depth remapped from the tracked range.
    pub fn zb_pixels(&self) -> (r: Vec<u8>)
        requires
            self.wf(),
        ensures
            r@.len() == 3 * self.img_width * self.img_height,
            forall|p: int|
                #![trigger self.resolved_depth_spec(p)]
                0 <= p < self.img_width * self.img_height ==> r@[3 * p] == chan_byte_spec(
                    self.resolved_depth_spec(p),
                ) && r@[3 * p + 1] == chan_byte_spec(self.resolved_depth_spec(p)) && r@[3 * p + 2]
                    == chan_byte_spec(self.resolved_depth_spec(p)),
    {
        let mut r: Vec<u8> = Vec::new();
        let hh = self.img_height;
        let ww = self.img_width;
        let us = self.used_samples;
        let mut h: usize = 0;
        proof {
            assert(3 * (self.img_width * self.img_height) == 3 * self.img_width
                * self.img_height) by (nonlinear_arith);
        }
        while h < hh
            invariant
                self.wf(),
                hh == self.img_height,
                ww == self.img_width,
                us == self.used_samples,
                h <= hh,
                r@.len() == 3 * (h * ww),
                h * ww <= self.img_width * self.img_height,
                forall|p: int|
                    #![trigger self.resolved_depth_spec(p)]
                    0 <= p < h * ww ==> r@[3 * p] == chan_byte_spec(self.resolved_depth_spec(p))
                        && r@[3 * p + 1] == chan_byte_spec(self.resolved_depth_spec(p)) && r@[3 * p
                        + 2] == chan_byte_spec(self.resolved_depth_spec(p)),
            decreases hh - h,
        {
            let mut w: usize = 0;
            proof {
                assert(h * ww + ww <= hh * ww && hh * ww == self.img_width * self.img_height)
                    by (nonlinear_arith)
                    requires
                        h < hh && ww == self.img_width && hh == self.img_height && ww >= 0;
            }
            while w < ww
                invariant
                    self.wf(),
                    hh == self.img_height,
                    ww == self.img_width,
                    us == self.used_samples,
                    h < hh,
                    w <= ww,
                    h * ww + ww <= self.img_width * self.img_height,
                    h * ww >= 0,
                    r@.len() == 3 * (h * ww + w),
                    forall|p: int|
                        #![trigger self.resolved_depth_spec(p)]
                        0 <= p < h * ww + w ==> r@[3 * p] == chan_byte_spec(
                            self.resolved_depth_spec(p),
                        ) && r@[3 * p + 1] == chan_byte_spec(self.resolved_depth_spec(p)) && r@[3
                            * p + 2] == chan_byte_spec(self.resolved_depth_spec(p)),
                decreases ww - w,
            {
                proof {
                    assert(self.used_samples >= 1) by (nonlinear_arith)
                        requires
                            self.samplestep >= 1 && self.used_samples == self.samplestep
                                * self.samplestep;
                    lemma_cell_in_range(*self, h as int, w as int, 0);
                    lemma_cell_in_range(*self, h as int, w as int, self.used_samples - 1);
                }
                let base: usize = h * self.buf_width + w * us;
                let mut sum: i64 = 0;
                let mut s: usize = 0;
                while s < us
                    invariant
                        self.wf(),
                        us == self.used_samples,
                        s <= us,
                        0 <= base as int,
                        base + us <= self.z_buffer@.len(),
                        sum == zb_sum_spec(self.z_buffer@, base as int, s as int),
                    decreases us - s,
                {
                    sum = fx_add(sum, self.z_buffer[base + s]);
                    s = s + 1;
                }
                let avg = fx_mul(sum, self.sample_factor);
                let v: i64 = if avg != Z_MAX {
                    crate::fx::interpolate_lin(avg, self.max_z, 0, self.min_z, crate::color::FX_255)
                } else {
                    0
                };
                let ghost p0 = (h * ww + w) as int;
                proof {
                    vstd::arithmetic::div_mod::lemma_fundamental_div_mod_converse(
                        p0,
                        ww as int,
                        h as int,
                        w as int,
                    );
                    assert(v as int == self.resolved_depth_spec(p0));
                    assert(3 * (h * ww + w) + 3 == 3 * (h * ww + w + 1)) by (nonlinear_arith);
                }
                let b = chan_byte(v);
                r.push(b);
                r.push(b);
                r.push(b);
                w = w + 1;
            }
            h = h + 1;
            proof {
                assert((h - 1) * ww + ww == h * ww) by (nonlinear_arith);
            }
        }
        proof {
            assert(hh * ww == self.img_width * self.img_height) by (nonlinear_arith)
                requires
                    hh == self.img_height && ww == self.img_width;
            assert(3 * (self.img_width * self.img_height) == 3 * self.img_width
                * self.img_height) by (nonlinear_arith);
        }
        r
    }

    /// The full image byte stream of the resolved frame buffer: the header,
    /// then three bytes per pixel.
    pub fn fb_ppm_bytes(&self) -> (r: Vec<u8>)
        requires
            self.wf(),
        ensures
            r@.len() == crate::ppm::ppm_header_spec(
                self.img_width as int,
                self.img_height as int,
            ).len() + 3 * self.img_width * self.img_height,
            r@.subrange(
                0,
                crate::ppm::ppm_header_spec(self.img_width as int, self.img_height as int).len() as int,
            ) == crate::ppm::ppm_header_spec(self.img_width as int, self.img_height as int),
            forall|p: int|
                #![trigger self.resolved_pixel_spec(p)]
                0 <= p < self.img_width * self.img_height ==> {
                    let off = crate::ppm::ppm_header_spec(
                        self.img_width as int,
                        self.img_height as int,
                    ).len() as int;
                    r@[off + 3 * p] == chan_byte_spec(self.resolved_pixel_spec(p).r as int) && r@[
                    off + 3 * p + 1] == chan_byte_spec(self.resolved_pixel_spec(p).g as int) && r@[
                    off + 3 * p + 2] == chan_byte_spec(self.resolved_pixel_spec(p).b as int)
                },
    {
        let pixels = self.fb_pixels();
        let r = crate::ppm::ppm_bytes(self.img_width, self.img_height, &pixels);
        proof {
            let head = crate::ppm::ppm_header_spec(self.img_width as int, self.img_height as int);
            assert(r@.subrange(0, head.len() as int) =~= head);
            assert forall|p: int| 0 <= p < self.img_width * self.img_height implies {
                let off = head.len() as int;
                r@[off + 3 * p] == chan_byte_spec(#[trigger] self.resolved_pixel_spec(p).r as int)
                    && r@[off + 3 * p + 1] == chan_byte_spec(self.resolved_pixel_spec(p).g as int)
                    && r@[off + 3 * p + 2] == chan_byte_spec(self.resolved_pixel_spec(p).b as int)
            } by {
                let off = head.len() as int;
                assert(pixels@.len() == 3 * (self.img_width * self.img_height))
                    by (nonlinear_arith)
                    requires
                        pixels@.len() == 3 * self.img_width * self.img_height;
                assert(0 <= 3 * p && 3 * p + 2 < pixels@.len());
                assert(r@ == head + pixels@);
                assert(r@[off + 3 * p] == pixels@[3 * p]);
                assert(r@[off + 3 * p + 1] == pixels@[3 * p + 1]);
                assert(r@[off + 3 * p + 2] == pixels@[3 * p + 2]);
            }
        }
        r
    }

    /// The full image byte stream of the resolved depth buffer.
    pub fn zb_ppm_bytes(&self) -> (r: Vec<u8>)
        requires
            self.wf(),
        ensures
            r@.len() == crate::ppm::ppm_header_spec(
                self.img_width as int,
                self.img_height as int,
            ).len() + 3 * self.img_width * self.img_height,
            r@.subrange(
                0,
                crate::ppm::ppm_header_spec(self.img_width as int, self.img_height as int).len() as int,
            ) == crate::ppm::ppm_header_spec(self.img_width as int, self.img_height as int),
            forall|p: int|
                #![trigger self.resolved_depth_spec(p)]
                0 <= p < self.img_width * self.img_height ==> {
                    let off = crate::ppm::ppm_header_spec(
                        self.img_width as int,
                        self.img_height as int,
                    ).len() as int;
                    r@[off + 3 * p] == chan_byte_spec(self.resolved_depth_spec(p)) && r@[off + 3
                        * p + 1] == chan_byte_spec(self.resolved_depth_spec(p)) && r@[off + 3 * p
                        + 2] == chan_byte_spec(self.resolved_depth_spec(p))
                },
    {
        let pixels = self.zb_pixels();
        let r = crate::ppm::ppm_bytes(self.img_width, self.img_height, &pixels);
        proof {
            let head = crate::ppm::ppm_header_spec(self.img_width as int, self.img_height as int);
            assert(r@.subrange(0, head.len() as int) =~= head);
            assert forall|p: int| 0 <= p < self.img_width * self.img_height implies {
                let off = head.len() as int;
                r@[off + 3 * p] == chan_byte_spec(#[trigger] self.resolved_depth_spec(p)) && r@[off
                    + 3 * p + 1] == chan_byte_spec(self.resolved_depth_spec(p)) && r@[off + 3 * p
                    + 2] == chan_byte_spec(self.resolved_depth_spec(p))
            } by {
                let off = head.len() as int;
                assert(pixels@.len() == 3 * (self.img_width * self.img_height))
                    by (nonlinear_arith)
                    requires
                        pixels@.len() == 3 * self.img_width * self.img_height;
                assert(0 <= 3 * p && 3 * p + 2 < pixels@.len());
                assert(r@ == head + pixels@);
                assert(r@[off + 3 * p] == pixels@[3 * p]);
                assert(r@[off + 3 * p + 1] == pixels@[3 * p + 1]);
                assert(r@[off + 3 * p + 2] == pixels@[3 * p + 2]);
            }
        }
        r
    }
}

/// The per-sample depth-test protocol: a candidate depth and color replace a
/// cell exactly when the candidate depth is strictly smaller than the stored
/// one; an exactly equal depth keeps the stored pair.
pub open spec fn cell_update_spec(z: i64, c: Color, dz: i64, dc: Color) -> (i64, Color) {
    if dz < z {
        (dz, dc)
    } else {
        (z, c)
    }
}

/// Two primitives of different depths at a sample leave the same cell in
/// either rasterization order: the resolved color at an overlap always shows
/// the nearer primitive, independent of submission order.
pub proof fn lemma_depth_order_independent(
    z: i64,
    c: Color,
    d1: i64,
    c1: Color,
    d2: i64,
    c2: Color,
)
    requires
        d1 != d2,
    ensures
        ({
            let a = cell_update_spec(z, c, d1, c1);
            cell_update_spec(a.0, a.1, d2, c2)
        }) == ({
            let b = cell_update_spec(z, c, d2, c2);
            cell_update_spec(b.0, b.1, d1, c1)
        }),
{
}

/// Two primitives of exactly equal depth at a sample resolve in favor of
/// whichever was rasterized first: the second write of the same depth is
/// rejected by the strict comparison.
pub proof fn lemma_depth_tie_first_wins(z: i64, c: Color, d: i64, c1: Color, c2: Color)
    ensures
        ({
            let a = cell_update_spec(z, c, d, c1);
            cell_update_spec(a.0, a.1, d, c2)
        }) == cell_update_spec(z, c, d, c1),
{
}

/// A rasterized triangle treats every cell by the depth-test protocol: inside
/// its candidate box, a covered sample is a `cell_update_spec` of the old
/// cell with the interpolated depth and the scaled sample color; everything
/// else keeps the old cell.
pub proof fn lemma_tri_cell_follows_protocol(
    r: Renderer,
    t: TriRaster,
    shape: Shape,
    h: int,
    w: int,
    s: int,
)
    requires
        r.wf(),
        r.cell_ok(h, w, s),
        shape.vertices@.len() == 3,
    ensures
        ({
            let bi = r.buf_index_spec(h, w, s);
            let px = r.sample_x_spec(w, s);
            let py = r.sample_y_spec(h, s);
            (r.tri_cell_z_spec(t, h, w, s), r.tri_cell_color_spec(t, shape, h, w, s)) == if r.tri_in_bbox_spec(t, h, w) && tri_cov_spec(t, px, py) {
                cell_update_spec(
                    r.z_buffer@[bi],
                    r.frame_buffer@[bi],
                    fxv(tri_depth_spec(t, px, py)),
                    scaled_color_spec(
                        tri_color_spec(
                            t,
                            shape.vertices@[0],
                            shape.vertices@[1],
                            shape.vertices@[2],
                            shape.tex_id,
                            r.texture@,
                            px,
                            py,
                        ),
                        r.sample_factor,
                    ),
                )
            } else {
                (r.z_buffer@[bi], r.frame_buffer@[bi])
            }
        }),
{
}

/// Two triangles that share an edge traverse it in opposite directions: in
/// exact arithmetic a sample's edge functions against the two traversals sum
/// to zero, so every sample lies on the nonnegative side of the shared edge
/// for at least one of the pair — a viewport split into two triangles leaves
/// no gap along the seam. (Combined with `lemma_depth_tie_first_wins`, a
/// boundary sample where both compute the same depth is won exactly once, by
/// the triangle rasterized first.)
pub proof fn lemma_shared_edge_no_gap(px: int, py: int, ax: int, ay: int, bx: int, by: int)
    ensures
        ((px - ax) * (by - ay) - (py - ay) * (bx - ax)) + ((px - bx) * (ay - by) - (py - by) * (ax
            - bx)) == 0,
        ((px - ax) * (by - ay) - (py - ay) * (bx - ax)) >= 0 || ((px - bx) * (ay - by) - (py - by)
            * (ax - bx)) >= 0,
{
    assert(((px - ax) * (by - ay) - (py - ay) * (bx - ax)) + ((px - bx) * (ay - by) - (py - by) * (
    ax - bx)) == 0) by (nonlinear_arith);
}

/// A cleared frame resolves to the background color exactly, provided no
/// rounding occurred in the pre-scaling: the sub-sample count divides the
/// fixed-point scale (any power-of-two supersampling factor) and the
/// background channels are integer display values. Since rendering an empty
/// scene leaves the cleared buffers untouched, an empty scene's image is
/// `img_height` rows of `img_width` pixels of the background color.
pub proof fn lemma_clear_resolves_background(r: Renderer, p: int)
    requires
        r.wf(),
        forall|i: int|
            0 <= i < r.cell_count() ==> r.frame_buffer@[i] == scaled_color_spec(
                r.bgcolor,
                r.sample_factor,
            ),
        (0x1_0000_0000int) % (r.used_samples as int) == 0,
        r.bgcolor.r % 0x1_0000_0000 == 0,
        r.bgcolor.g % 0x1_0000_0000 == 0,
        r.bgcolor.b % 0x1_0000_0000 == 0,
        0 <= r.bgcolor.r <= 255 * 0x1_0000_0000,
        0 <= r.bgcolor.g <= 255 * 0x1_0000_0000,
        0 <= r.bgcolor.b <= 255 * 0x1_0000_0000,
        0 <= p < r.img_width * r.img_height,
    ensures
        r.resolved_pixel_spec(p) == r.bgcolor,
{
    let us = r.used_samples as int;
    let frac = 0x1_0000_0000int;
    assert(r.used_samples >= 1 && r.used_samples <= 0x1000 * 0x1000) by (nonlinear_arith)
        requires
            1 <= r.samplestep <= 0x1000 && r.used_samples == r.samplestep * r.samplestep;
    // the sample factor is exactly frac / us
    let q = frac / us;
    assert(us * q == frac) by {
        vstd::arithmetic::div_mod::lemma_fundamental_div_mod(frac, us);
    }
    assert(q >= 1) by (nonlinear_arith)
        requires
            us * q == frac && 1 <= us <= 0x1000 * 0x1000 && frac == 0x1_0000_0000;
    assert(r.sample_factor == q) by {
        assert(FX_ONE as int * frac == frac * frac && frac * frac >= 0) by (nonlinear_arith)
            requires
                frac == 0x1_0000_0000 && FX_ONE == 0x1_0000_0000;
        assert(fx_abs(FX_ONE as int * frac) == frac * frac);
        assert(fx_abs(us * frac) == us * frac) by (nonlinear_arith)
            requires
                us >= 1 && frac >= 1;
        assert(frac * frac == (us * frac) * q + 0) by (nonlinear_arith)
            requires
                us * q == frac;
        assert(us * frac > 0) by (nonlinear_arith)
            requires
                us >= 1 && frac >= 1;
        vstd::arithmetic::div_mod::lemma_fundamental_div_mod_converse(frac * frac, us * frac, q, 0);
        assert((frac * frac) / (us * frac) == q);
        assert(fx_sat(q) == q);
    }
    // a pre-scaled integer display channel is exactly the channel over the
    // sample count, and the sample count rebuilds it
    assert forall|c: int| c % frac == 0 && 0 <= c <= 255 * frac implies #[trigger] fx_mul_spec(c, q)
        == c / us && us * (c / us) == c && 0 <= c / us by {
        let k = c / frac;
        vstd::arithmetic::div_mod::lemma_fundamental_div_mod(c, frac);
        assert(c == frac * k);
        assert(0 <= k) by (nonlinear_arith)
            requires
                c >= 0 && c == frac * k && frac >= 1;
        assert(c == us * (q * k) + 0) by (nonlinear_arith)
            requires
                c == frac * k && us * q == frac;
        vstd::arithmetic::div_mod::lemma_fundamental_div_mod_converse(c, us, q * k, 0);
        assert(c / us == q * k);
        assert(c * q == frac * (q * k) + 0) by (nonlinear_arith)
            requires
                c == frac * k && us * q == frac;
        assert(c * q >= 0) by (nonlinear_arith)
            requires
                c >= 0 && q >= 1;
        vstd::arithmetic::div_mod::lemma_fundamental_div_mod_converse(c * q, frac, q * k, 0);
        assert(fx_abs(c * q) == c * q && fx_abs(frac) == frac);
        assert(fx_div_trunc(c * q, frac) == q * k);
        assert(0 <= q * k <= c) by (nonlinear_arith)
            requires
                us * (q * k) == c && us >= 1 && 0 <= k && 1 <= q;
        assert(fx_sat(q * k) == q * k);
        assert(fx_mul_spec(c, q) == c / us);
        assert(us * (c / us) == c);
    }
    let cell = scaled_color_spec(r.bgcolor, r.sample_factor);
    assert(cell.r as int == r.bgcolor.r as int / us);
    assert(cell.g as int == r.bgcolor.g as int / us);
    assert(cell.b as int == r.bgcolor.b as int / us);
    // the sum of the identical cells of one pixel rebuilds the channels
    let h = p / (r.img_width as int);
    let w = p % (r.img_width as int);
    assert(0 <= h < r.img_height && 0 <= w < r.img_width) by (nonlinear_arith)
        requires
            0 <= p < r.img_width * r.img_height && w == p % (r.img_width as int) && h == p / (
            r.img_width as int) && r.img_width >= 0;
    lemma_cell_in_range(r, h, w, 0);
    lemma_cell_in_range(r, h, w, us - 1);
    let base = r.buf_index_spec(h, w, 0);
    lemma_fb_sum_const(r.frame_buffer@, base, us, cell);
    let sum = fb_sum_spec(r.frame_buffer@, base, us);
    assert(sum.r as int == us * (cell.r as int));
    assert(r.resolved_pixel_spec(p) == sum);
    assert(sum.r == r.bgcolor.r && sum.g == r.bgcolor.g && sum.b == r.bgcolor.b);
}

/// Summing `n` equal cells with nonnegative small channels gives `n` times
/// the cell, with no saturation.
proof fn lemma_fb_sum_const(fb: Seq<Color>, base: int, n: int, cell: Color)
    requires
        0 <= n,
        0 <= base,
        base + n <= fb.len(),
        forall|i: int| base <= i < base + n ==> fb[i] == cell,
        0 <= cell.r && n * cell.r <= 0x4000_0000_0000_0000,
        0 <= cell.g && n * cell.g <= 0x4000_0000_0000_0000,
        0 <= cell.b && n * cell.b <= 0x4000_0000_0000_0000,
    ensures
        fb_sum_spec(fb, base, n).r as int == n * cell.r,
        fb_sum_spec(fb, base, n).g as int == n * cell.g,
        fb_sum_spec(fb, base, n).b as int == n * cell.b,
    decreases n,
{
    if n == 0 {
        assert(fb_sum_spec(fb, base, 0).r as int == 0 * cell.r) by (nonlinear_arith);
        assert(fb_sum_spec(fb, base, 0).g as int == 0 * cell.g) by (nonlinear_arith);
        assert(fb_sum_spec(fb, base, 0).b as int == 0 * cell.b) by (nonlinear_arith);
    } else {
        assert((n - 1) * cell.r <= n * cell.r && 0 <= (n - 1) * cell.r && (n - 1) * cell.r
            + cell.r == n * cell.r) by (nonlinear_arith)
            requires
                n >= 1 && 0 <= cell.r;
        assert((n - 1) * cell.g <= n * cell.g && 0 <= (n - 1) * cell.g && (n - 1) * cell.g
            + cell.g == n * cell.g) by (nonlinear_arith)
            requires
                n >= 1 && 0 <= cell.g;
        assert((n - 1) * cell.b <= n * cell.b && 0 <= (n - 1) * cell.b && (n - 1) * cell.b
            + cell.b == n * cell.b) by (nonlinear_arith)
            requires
                n >= 1 && 0 <= cell.b;
        lemma_fb_sum_const(fb, base, n - 1, cell);
    }
}

/// All the shapes of a mesh list, in rendering order.
pub open spec fn scene_shapes_spec(meshes: Seq<Mesh>) -> Seq<Shape>
    decreases meshes.len(),
{
    if meshes.len() == 0 {
        Seq::empty()
    } else {
        scene_shapes_spec(meshes.drop_last()) + meshes.last().shapes@
    }
}

/// A texture pixel coordinate: scaled onto the 512-cell grid, clamped to its
/// edge.
fn tex_px(v: i64) -> (r: usize)
    ensures
        r as int == tex_px_spec(v as int),
        r < 512,
{
    let scaled = fx_mul(v, 512i64 * 0x1_0000_0000i64);
    let p = px_floor(scaled);
    if p > 511 {
        511
    } else {
        p
    }
}

} // verus!
