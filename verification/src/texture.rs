//! Textures: a rectangular grid of colors, read by the renderer with
//! nearest-neighbor lookups on a fixed 512 by 512 grid, and rewritten in
//! place by the texture filters.

use vstd::prelude::*;
use crate::color::{color_invert_spec, Color};
use crate::fx::{fx_add, fx_add_spec, fx_div, fx_div_spec, fx_mul, fx_mul_spec, FX_ONE};
use crate::vec::fxv;

verus! {

/// The texture side length the renderer samples: textures handed to it must
/// be exactly this size in both directions.
pub const TEX_SIZE: usize = 512;

/// A rectangular grid of colors, row-major.
#[derive(Clone, Debug)]
pub struct Texture {
    pub width: usize,
    pub height: usize,
    pub buffer: Vec<Color>,
}

impl Texture {
    /// The buffer holds exactly one color per grid cell.
    pub open spec fn wf(self) -> bool {
        self.buffer@.len() == self.width * self.height
    }

    /// A texture the renderer can sample: well-formed and 512 by 512.
    pub open spec fn renderable(self) -> bool {
        self.wf() && self.width == TEX_SIZE && self.height == TEX_SIZE
    }

    /// An all-black texture of the given size.
    pub fn new(width: usize, height: usize) -> (t: Texture)
        requires
            width * height <= 0x1000_0000,
        ensures
            t.wf(),
            t.width == width,
            t.height == height,
            forall|i: int|
                0 <= i < t.buffer@.len() ==> t.buffer@[i] == (Color { r: 0i64, g: 0i64, b: 0i64 }),
    {
        let total: usize = width * height;
        let mut buffer: Vec<Color> = Vec::new();
        let mut i: usize = 0;
        while i < total
            invariant
                i <= total,
                buffer@.len() == i,
                forall|j: int|
                    0 <= j < i ==> buffer@[j] == (Color { r: 0i64, g: 0i64, b: 0i64 }),
            decreases total - i,
        {
            buffer.push(Color { r: 0, g: 0, b: 0 });
            i = i + 1;
        }
        Texture { width, height, buffer }
    }

    /// Run a filter over this texture in place.
    pub fn filter<F: TextureFilter>(&mut self, filter: &F)
        requires
            old(self).wf(),
        ensures
            final(self).wf(),
            final(self).width == old(self).width,
            final(self).height == old(self).height,
    {
        filter.filter(self);
    }
}

/// A texture filter rewrites the color grid in place; every filter keeps the
/// dimensions and the buffer length.
pub trait TextureFilter {
    fn filter(&self, texture: &mut Texture)
        requires
            old(texture).wf(),
        ensures
            final(texture).wf(),
            final(texture).width == old(texture).width,
            final(texture).height == old(texture).height,
    ;
}

/// Replaces every color by its inverse.
pub struct InvertFilter {}

impl InvertFilter {
    /// Invert every color of the grid in place.
    pub fn invert(&self, texture: &mut Texture)
        ensures
            final(texture).width == old(texture).width,
            final(texture).height == old(texture).height,
            final(texture).buffer@.len() == old(texture).buffer@.len(),
            forall|i: int|
                0 <= i < old(texture).buffer@.len() ==> final(texture).buffer@[i]
                    == color_invert_spec(old(texture).buffer@[i]),
    {
        let n = texture.buffer.len();
        let mut i: usize = 0;
        while i < n
            invariant
                i <= n,
                n == texture.buffer@.len(),
                n == old(texture).buffer@.len(),
                texture.width == old(texture).width,
                texture.height == old(texture).height,
                forall|j: int|
                    0 <= j < i ==> texture.buffer@[j] == color_invert_spec(old(texture).buffer@[j]),
                forall|j: int| i <= j < n ==> texture.buffer@[j] == old(texture).buffer@[j],
            decreases n - i,
        {
            let mut c = texture.buffer[i];
            c.invert();
            texture.buffer.set(i, c);
            i = i + 1;
        }
    }
}

impl TextureFilter for InvertFilter {
    fn filter(&self, texture: &mut Texture) {
        self.invert(texture);
    }
}

/// The lower edge of a pixel's box neighborhood along one axis.
pub open spec fn box_lo_spec(x: int, p: int) -> int {
    if x >= p {
        x - p
    } else {
        0
    }
}

/// The upper edge (inclusive) of a pixel's box neighborhood along one axis.
pub open spec fn box_hi_spec(x: int, p: int, last: int) -> int {
    if x + p <= last {
        x + p
    } else {
        last
    }
}

/// The channelwise sum of the first `k` cells of an `nx`-wide box whose
/// corner sits at `(x1, y1)` in a `w`-wide grid, accumulated in row-major
/// visit order.
pub open spec fn box_fold_spec(buf: Seq<Color>, w: int, x1: int, nx: int, y1: int, k: int) -> Color
    decreases k,
{
    if k <= 0 {
        Color { r: 0i64, g: 0i64, b: 0i64 }
    } else {
        let prev = box_fold_spec(buf, w, x1, nx, y1, k - 1);
        let c = buf[(y1 + (k - 1) / nx) * w + (x1 + (k - 1) % nx)];
        Color {
            r: fxv(fx_add_spec(prev.r as int, c.r as int)),
            g: fxv(fx_add_spec(prev.g as int, c.g as int)),
            b: fxv(fx_add_spec(prev.b as int, c.b as int)),
        }
    }
}

/// One output pixel of the arithmetic box filter: the box sum scaled by
/// `factor / count`, where `count` is the number of in-bounds neighbors.
pub open spec fn abox_pixel_spec(
    buf: Seq<Color>,
    w: int,
    h: int,
    x: int,
    y: int,
    p: int,
    factor: i64,
) -> Color {
    let x1 = box_lo_spec(x, p);
    let nx = box_hi_spec(x, p, w - 1) - x1 + 1;
    let y1 = box_lo_spec(y, p);
    let ny = box_hi_spec(y, p, h - 1) - y1 + 1;
    let m = fx_mul_spec(fx_div_spec(FX_ONE as int, nx * ny * 0x1_0000_0000), factor as int);
    let sum = box_fold_spec(buf, w, x1, nx, y1, nx * ny);
    Color {
        r: fxv(fx_mul_spec(sum.r as int, m)),
        g: fxv(fx_mul_spec(sum.g as int, m)),
        b: fxv(fx_mul_spec(sum.b as int, m)),
    }
}

/// Replaces every color by the arithmetic mean of its box neighborhood,
/// scaled by a fixed factor.
pub struct ArithmeticBoxFilter {
    pub pxrange: usize,
    pub factor: i64,
}

impl ArithmeticBoxFilter {
    pub fn new(pxrange: usize, factor: i64) -> (f: ArithmeticBoxFilter)
        ensures
            f.pxrange == pxrange,
            f.factor == factor,
    {
        ArithmeticBoxFilter { pxrange, factor }
    }

    /// Rewrite every pixel as the scaled mean of its box neighborhood,
    /// clamped to the grid.
    pub fn apply(&self, texture: &mut Texture)
        requires
            old(texture).wf(),
            self.pxrange <= 0x1000,
            old(texture).width <= 0x1000_0000,
            old(texture).height <= 0x1000_0000,
        ensures
            final(texture).wf(),
            final(texture).width == old(texture).width,
            final(texture).height == old(texture).height,
            forall|y: int, x: int|
                #![trigger final(texture).buffer@[y * old(texture).width + x]]
                0 <= y < old(texture).height && 0 <= x < old(texture).width ==> final(texture).buffer@[y * old(texture).width + x] == abox_pixel_spec(
                    old(texture).buffer@,
                    old(texture).width as int,
                    old(texture).height as int,
                    x,
                    y,
                    self.pxrange as int,
                    self.factor,
                ),
    {
        let w = texture.width;
        let h = texture.height;
        let p = self.pxrange;
        let total: usize = texture.buffer.len();
        let mut out: Vec<Color> = Vec::new();
        let mut y: usize = 0;
        while y < h
            invariant
                texture.wf(),
                *texture == *old(texture),
                w == texture.width,
                h == texture.height,
                p == self.pxrange,
                p <= 0x1000,
                w <= 0x1000_0000,
                h <= 0x1000_0000,
                y <= h,
                total == texture.buffer@.len(),
                out@.len() == y * w,
                y * w <= h * w,
                forall|yy: int, xx: int|
                    #![trigger out@[yy * w + xx]]
                    0 <= yy < y && 0 <= xx < w ==> out@[yy * w + xx] == abox_pixel_spec(
                        texture.buffer@,
                        w as int,
                        h as int,
                        xx,
                        yy,
                        p as int,
                        self.factor,
                    ),
            decreases h - y,
        {
            let mut x: usize = 0;
            proof {
                assert(y * w + w <= h * w) by (nonlinear_arith)
                    requires
                        y < h && w >= 0;
            }
            while x < w
                invariant
                    texture.wf(),
                    *texture == *old(texture),
                    w == texture.width,
                    h == texture.height,
                    p == self.pxrange,
                    p <= 0x1000,
                    w <= 0x1000_0000,
                    h <= 0x1000_0000,
                    y < h,
                    x <= w,
                    total == texture.buffer@.len(),
                    y * w + w <= h * w,
                    y * w >= 0,
                    out@.len() == y * w + x,
                    forall|yy: int, xx: int|
                        #![trigger out@[yy * w + xx]]
                        0 <= yy < y && 0 <= xx < w ==> out@[yy * w + xx] == abox_pixel_spec(
                            texture.buffer@,
                            w as int,
                            h as int,
                            xx,
                            yy,
                            p as int,
                            self.factor,
                        ),
                    forall|xx: int|
                        #![trigger out@[y * w + xx]]
                        0 <= xx < x ==> out@[y * w + xx] == abox_pixel_spec(
                            texture.buffer@,
                            w as int,
                            h as int,
                            xx,
                            y as int,
                            p as int,
                            self.factor,
                        ),
                decreases w - x,
            {
                let x1: usize = if x >= p {
                    x - p
                } else {
                    0
                };
                let x2: usize = if x + p <= w - 1 {
                    x + p
                } else {
                    w - 1
                };
                let y1: usize = if y >= p {
                    y - p
                } else {
                    0
                };
                let y2: usize = if y + p <= h - 1 {
                    y + p
                } else {
                    h - 1
                };
                let nx: usize = x2 - x1 + 1;
                let ny: usize = y2 - y1 + 1;
                proof {
                    assert(nx * ny <= 0x2001 * 0x2001) by (nonlinear_arith)
                        requires
                            1 <= nx <= 0x2001 && 1 <= ny <= 0x2001;
                }
                let cnt: usize = nx * ny;
                let m: i64 = fx_mul(fx_div(FX_ONE, (cnt as i64) * 0x1_0000_0000i64), self.factor);
                let mut sum = Color { r: 0, g: 0, b: 0 };
                let mut dy: usize = y1;
                while dy < y2 + 1
                    invariant
                        texture.wf(),
                        w == texture.width,
                        h == texture.height,
                        w <= 0x1000_0000,
                        h <= 0x1000_0000,
                        total == texture.buffer@.len(),
                        y1 <= dy <= y2 + 1,
                        x1 <= x2 < w,
                        y2 < h,
                        nx == x2 - x1 + 1,
                        ny == y2 - y1 + 1,
                        sum == box_fold_spec(
                            texture.buffer@,
                            w as int,
                            x1 as int,
                            nx as int,
                            y1 as int,
                            (dy - y1) * nx,
                        ),
                    decreases y2 + 1 - dy,
                {
                    let mut dx: usize = x1;
                    proof {
                        assert((dy - y1) * nx + nx == (dy + 1 - y1) * nx && (dy - y1) * nx >= 0)
                            by (nonlinear_arith)
                            requires
                                dy >= y1 && nx >= 0;
                    }
                    while dx < x2 + 1
                        invariant
                            texture.wf(),
                            w == texture.width,
                            h == texture.height,
                            w <= 0x1000_0000,
                            h <= 0x1000_0000,
                            total == texture.buffer@.len(),
                            y1 <= dy <= y2,
                            x1 <= dx <= x2 + 1,
                            x1 <= x2 < w,
                            y2 < h,
                            nx == x2 - x1 + 1,
                            ny == y2 - y1 + 1,
                            (dy - y1) * nx >= 0,
                            (dy - y1) * nx + nx == (dy + 1 - y1) * nx,
                            sum == box_fold_spec(
                                texture.buffer@,
                                w as int,
                                x1 as int,
                                nx as int,
                                y1 as int,
                                (dy - y1) * nx + (dx - x1),
                            ),
                        decreases x2 + 1 - dx,
                    {
                        proof {
                            assert(dy * w + dx < h * w && dy * w + dx >= 0 && dy * w <= h * w)
                                by (nonlinear_arith)
                                requires
                                    dy < h && dx < w && w >= 1 && dy >= 0 && dx >= 0;
                            assert(h * w == w * h) by (nonlinear_arith);
                            assert(total == h * w);
                            let k = (dy - y1) * nx + (dx - x1);
                            vstd::arithmetic::div_mod::lemma_fundamental_div_mod_converse(
                                k,
                                nx as int,
                                dy - y1,
                                dx - x1,
                            );
                            assert(k / (nx as int) == dy - y1 && k % (nx as int) == dx - x1);
                        }
                        let c = texture.buffer[dy * w + dx];
                        sum = Color {
                            r: fx_add(sum.r, c.r),
                            g: fx_add(sum.g, c.g),
                            b: fx_add(sum.b, c.b),
                        };
                        dx = dx + 1;
                    }
                    dy = dy + 1;
                }
                proof {
                    assert((y2 + 1 - y1) * nx == nx * ny) by (nonlinear_arith)
                        requires
                            ny == y2 + 1 - y1;
                    assert((cnt as int) * 0x1_0000_0000 == (nx as int) * (ny as int)
                        * 0x1_0000_0000) by (nonlinear_arith)
                        requires
                            cnt == nx * ny;
                }
                out.push(Color { r: fx_mul(sum.r, m), g: fx_mul(sum.g, m), b: fx_mul(sum.b, m) });
                proof {
                    assert forall|yy: int, xx: int|
                        #![trigger out@[yy * w + xx]]
                        0 <= yy < y && 0 <= xx < w implies out@[yy * w + xx] == abox_pixel_spec(
                        texture.buffer@,
                        w as int,
                        h as int,
                        xx,
                        yy,
                        p as int,
                        self.factor,
                    ) by {
                        assert(0 <= yy * w + xx && yy * w + xx < (y as int) * (w as int))
                            by (nonlinear_arith)
                            requires
                                0 <= yy && yy < y as int && 0 <= xx && xx < w as int;
                    }
                    assert(out@[(y * w + x) as int] == abox_pixel_spec(
                        texture.buffer@,
                        w as int,
                        h as int,
                        x as int,
                        y as int,
                        p as int,
                        self.factor,
                    ));
                }
                x = x + 1;
            }
            y = y + 1;
            proof {
                assert((y - 1) * w + w == y * w) by (nonlinear_arith);
                assert forall|yy: int, xx: int|
                    #![trigger out@[yy * w + xx]]
                    0 <= yy < y && 0 <= xx < w implies out@[yy * w + xx] == abox_pixel_spec(
                    texture.buffer@,
                    w as int,
                    h as int,
                    xx,
                    yy,
                    p as int,
                    self.factor,
                ) by {
                    assert(0 <= yy * w + xx && yy * w + xx < (y as int) * (w as int))
                        by (nonlinear_arith)
                        requires
                            0 <= yy && yy < y as int && 0 <= xx && xx < w as int;
                    if yy == y - 1 {
                        assert(out@[(y - 1) * (w as int) + xx] == abox_pixel_spec(
                            texture.buffer@,
                            w as int,
                            h as int,
                            xx,
                            y - 1,
                            p as int,
                            self.factor,
                        ));
                    }
                }
            }
        }
        proof {
            assert(h * w == w * h) by (nonlinear_arith);
        }
        texture.buffer = out;
    }
}

impl TextureFilter for ArithmeticBoxFilter {
    fn filter(&self, texture: &mut Texture) {
        if self.pxrange <= 0x1000 && texture.width <= 0x1000_0000 && texture.height
            <= 0x1000_0000 {
            self.apply(texture);
        }
    }
}

} // verus!
