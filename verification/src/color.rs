//! RGB colors with fixed-point channels. A display channel spans `0` to
//! `255`, stored scaled by `FX_FRAC`; intermediate channels (interpolation,
//! accumulation) may leave that range and are clamped only where a stage of
//! the pipeline clamps.

use vstd::prelude::*;
use crate::fx::{
    fx_add, fx_add_spec, fx_div, fx_div_spec, fx_mul, fx_mul_spec, fx_sub, fx_sub_spec,
};
use crate::vec::fxv;

verus! {

/// The fixed-point representation of the display maximum `255`.
pub const FX_255: i64 = 255 * 0x1_0000_0000;

/// The fixed-point representation of the display midpoint `128`.
pub const FX_128: i64 = 128 * 0x1_0000_0000;

/// The constant `259` of the standard contrast correction formula.
pub const FX_259: i64 = 259 * 0x1_0000_0000;

/// The fixed-point representation of `192` (the silver palette entry).
pub const FX_192: i64 = 192 * 0x1_0000_0000;

/// An RGB color with fixed-point channels.
#[derive(Clone, Copy, PartialEq, Eq, Structural, Debug)]
pub struct Color {
    pub r: i64,
    pub g: i64,
    pub b: i64,
}

/// A display channel clamped into `[0, 255]`.
pub open spec fn chan_clamp_spec(v: int) -> int {
    if v > FX_255 as int {
        FX_255 as int
    } else if v < 0 {
        0
    } else {
        v
    }
}

/// A color with every channel clamped into the display range.
pub open spec fn color_clamp_spec(c: Color) -> Color {
    Color {
        r: fxv(chan_clamp_spec(c.r as int)),
        g: fxv(chan_clamp_spec(c.g as int)),
        b: fxv(chan_clamp_spec(c.b as int)),
    }
}

/// Every channel replaced by its distance from the display maximum.
pub open spec fn color_invert_spec(c: Color) -> Color {
    Color {
        r: fxv(fx_sub_spec(FX_255 as int, c.r as int)),
        g: fxv(fx_sub_spec(FX_255 as int, c.g as int)),
        b: fxv(fx_sub_spec(FX_255 as int, c.b as int)),
    }
}

/// The brightness shift: every channel moved by `amount`, then clamped.
pub open spec fn color_brightness_spec(c: Color, amount: i64) -> Color {
    color_clamp_spec(
        Color {
            r: fxv(fx_add_spec(c.r as int, amount as int)),
            g: fxv(fx_add_spec(c.g as int, amount as int)),
            b: fxv(fx_add_spec(c.b as int, amount as int)),
        },
    )
}

/// The contrast input clamped into `[-255, 255]`.
pub open spec fn contrast_arg_spec(contrast: i64) -> int {
    if contrast as int > FX_255 as int {
        FX_255 as int
    } else if (contrast as int) < -(FX_255 as int) {
        -(FX_255 as int)
    } else {
        contrast as int
    }
}

/// The standard contrast correction factor
/// `(259 * (c + 255)) / (255 * (259 - c))` over the clamped contrast input.
pub open spec fn contrast_factor_spec(contrast: i64) -> int {
    let c = contrast_arg_spec(contrast);
    fx_div_spec(
        fx_mul_spec(FX_259 as int, fx_add_spec(c, FX_255 as int)),
        fx_mul_spec(FX_255 as int, fx_sub_spec(FX_259 as int, c)),
    )
}

/// One channel pushed away from the midpoint by the contrast factor.
pub open spec fn contrast_chan_spec(v: i64, factor: int) -> int {
    fx_add_spec(fx_mul_spec(factor, fx_sub_spec(v as int, FX_128 as int)), FX_128 as int)
}

/// The contrast adjustment: every channel scaled about the midpoint by the
/// contrast factor, then clamped.
pub open spec fn color_contrast_spec(c: Color, contrast: i64) -> Color {
    let factor = contrast_factor_spec(contrast);
    color_clamp_spec(
        Color {
            r: fxv(contrast_chan_spec(c.r, factor)),
            g: fxv(contrast_chan_spec(c.g, factor)),
            b: fxv(contrast_chan_spec(c.b, factor)),
        },
    )
}

/// Clamp one channel into the display range.
fn truncate_channel(channel: &mut i64)
    ensures
        *final(channel) as int == chan_clamp_spec(*old(channel) as int),
{
    if *channel > FX_255 {
        *channel = FX_255;
    } else if *channel < 0 {
        *channel = 0;
    }
}

impl Color {
    pub fn new(r: i64, g: i64, b: i64) -> (c: Color)
        ensures
            c == (Color { r, g, b }),
    {
        Color { r, g, b }
    }

    pub fn copy_to(&self, col: &mut Color)
        ensures
            *final(col) == *self,
    {
        col.r = self.r;
        col.g = self.g;
        col.b = self.b;
    }

    pub fn set_from_color(&mut self, col: &Color)
        ensures
            *final(self) == *col,
    {
        self.r = col.r;
        self.g = col.g;
        self.b = col.b;
    }

    pub fn set_from_rgb(&mut self, r: i64, g: i64, b: i64)
        ensures
            *final(self) == (Color { r, g, b }),
    {
        self.r = r;
        self.g = g;
        self.b = b;
    }

    pub fn set_all(&mut self, value: i64)
        ensures
            *final(self) == (Color { r: value, g: value, b: value }),
    {
        self.r = value;
        self.g = value;
        self.b = value;
    }

    pub fn reset(&mut self)
        ensures
            *final(self) == (Color { r: 0i64, g: 0i64, b: 0i64 }),
    {
        self.r = 0;
        self.g = 0;
        self.b = 0;
    }

    pub fn invert(&mut self)
        ensures
            *final(self) == color_invert_spec(*old(self)),
    {
        self.r = fx_sub(FX_255, self.r);
        self.g = fx_sub(FX_255, self.g);
        self.b = fx_sub(FX_255, self.b);
    }

    fn truncate(&mut self)
        ensures
            *final(self) == color_clamp_spec(*old(self)),
    {
        truncate_channel(&mut self.r);
        truncate_channel(&mut self.g);
        truncate_channel(&mut self.b);
    }

    /// Shift every channel by `brightness` and clamp into the display range.
    pub fn set_brightness(&mut self, brightness: i64)
        ensures
            *final(self) == color_brightness_spec(*old(self), brightness),
    {
        self.r = fx_add(self.r, brightness);
        self.g = fx_add(self.g, brightness);
        self.b = fx_add(self.b, brightness);
        self.truncate();
    }

    /// The brightness shift of this color, written into `target`.
    pub fn set_brightness_to(&self, brightness: i64, target: &mut Color)
        ensures
            *final(target) == color_brightness_spec(*self, brightness),
    {
        target.set_from_color(self);
        target.set_brightness(brightness);
    }

    /// The contrast correction factor for a contrast shift in
    /// `[-255, 255]` (fixed point); the input is clamped into that range.
    fn contrast_factor(contrast: &i64) -> (r: i64)
        ensures
            r as int == contrast_factor_spec(*contrast),
    {
        let mut usedcontrast: i64 = *contrast;
        if usedcontrast > FX_255 {
            usedcontrast = FX_255;
        } else if usedcontrast < -FX_255 {
            usedcontrast = -FX_255;
        }
        fx_div(
            fx_mul(FX_259, fx_add(usedcontrast, FX_255)),
            fx_mul(FX_255, fx_sub(FX_259, usedcontrast)),
        )
    }

    /// Scale every channel about the display midpoint by the contrast factor
    /// and clamp into the display range.
    pub fn set_contrast(&mut self, contrast: i64)
        ensures
            *final(self) == color_contrast_spec(*old(self), contrast),
    {
        let contrast_factor = Color::contrast_factor(&contrast);
        self.r = fx_add(fx_mul(contrast_factor, fx_sub(self.r, FX_128)), FX_128);
        self.g = fx_add(fx_mul(contrast_factor, fx_sub(self.g, FX_128)), FX_128);
        self.b = fx_add(fx_mul(contrast_factor, fx_sub(self.b, FX_128)), FX_128);
        self.truncate();
    }

    /// The contrast adjustment of this color, written into `target`.
    pub fn set_contrast_to(&self, contrast: i64, target: &mut Color)
        ensures
            *final(target) == color_contrast_spec(*self, contrast),
    {
        target.set_from_color(self);
        target.set_contrast(contrast);
    }
}

/// The named palette entries of the library, each an exact display color.
pub fn black() -> (c: Color)
    ensures
        c == (Color { r: 0i64, g: 0i64, b: 0i64 }),
{
    Color { r: 0, g: 0, b: 0 }
}

pub fn white() -> (c: Color)
    ensures
        c == (Color { r: FX_255, g: FX_255, b: FX_255 }),
{
    Color { r: FX_255, g: FX_255, b: FX_255 }
}

pub fn grey() -> (c: Color)
    ensures
        c == (Color { r: FX_128, g: FX_128, b: FX_128 }),
{
    Color { r: FX_128, g: FX_128, b: FX_128 }
}

pub fn silver() -> (c: Color)
    ensures
        c == (Color { r: FX_192, g: FX_192, b: FX_192 }),
{
    Color { r: FX_192, g: FX_192, b: FX_192 }
}

pub fn red() -> (c: Color)
    ensures
        c == (Color { r: FX_255, g: 0i64, b: 0i64 }),
{
    Color { r: FX_255, g: 0, b: 0 }
}

pub fn maroon() -> (c: Color)
    ensures
        c == (Color { r: FX_128, g: 0i64, b: 0i64 }),
{
    Color { r: FX_128, g: 0, b: 0 }
}

pub fn olive() -> (c: Color)
    ensures
        c == (Color { r: FX_128, g: FX_128, b: 0i64 }),
{
    Color { r: FX_128, g: FX_128, b: 0 }
}

pub fn magenta() -> (c: Color)
    ensures
        c == (Color { r: FX_255, g: 0i64, b: FX_255 }),
{
    Color { r: FX_255, g: 0, b: FX_255 }
}

pub fn purple() -> (c: Color)
    ensures
        c == (Color { r: FX_128, g: 0i64, b: FX_128 }),
{
    Color { r: FX_128, g: 0, b: FX_128 }
}

pub fn lime() -> (c: Color)
    ensures
        c == (Color { r: 0i64, g: FX_255, b: 0i64 }),
{
    Color { r: 0, g: FX_255, b: 0 }
}

pub fn green() -> (c: Color)
    ensures
        c == (Color { r: 0i64, g: FX_128, b: 0i64 }),
{
    Color { r: 0, g: FX_128, b: 0 }
}

pub fn blue() -> (c: Color)
    ensures
        c == (Color { r: 0i64, g: 0i64, b: FX_255 }),
{
    Color { r: 0, g: 0, b: FX_255 }
}

pub fn navy() -> (c: Color)
    ensures
        c == (Color { r: 0i64, g: 0i64, b: FX_128 }),
{
    Color { r: 0, g: 0, b: FX_128 }
}

pub fn cyan() -> (c: Color)
    ensures
        c == (Color { r: 0i64, g: FX_255, b: FX_255 }),
{
    Color { r: 0, g: FX_255, b: FX_255 }
}

pub fn teal() -> (c: Color)
    ensures
        c == (Color { r: 0i64, g: FX_128, b: FX_128 }),
{
    Color { r: 0, g: FX_128, b: FX_128 }
}

pub fn yellow() -> (c: Color)
    ensures
        c == (Color { r: FX_255, g: FX_255, b: 0i64 }),
{
    Color { r: FX_255, g: FX_255, b: 0 }
}

} // verus!
