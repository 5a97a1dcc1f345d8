//! RGBA colors over fixed-point channels, and their byte conversion.
//!
//! Channels are not clamped to `[0, 1]`: overbright values are meaningful
//! (light intensity) and only the final byte conversion saturates.

use vstd::prelude::*;
use crate::fixed::{fx_mul_s, sat_add_s, fx_mul, sat_add};

verus! {

/// A color or a light intensity; channels are raw fixed-point values.
#[derive(Clone, Copy, PartialEq, Eq, Debug)]
pub struct Color {
    pub r: i64,
    pub g: i64,
    pub b: i64,
    pub a: i64,
}

impl Color {
    pub fn new(r: i64, g: i64, b: i64, a: i64) -> (c: Color)
        ensures
            c == (Color { r, g, b, a }),
    {
        Color { r, g, b, a }
    }
}

/// Scales the color channels by a raw factor; alpha is kept.
pub open spec fn multiply_colour_s(color: Color, m: int) -> Color {
    Color {
        r: fx_mul_s(color.r as int, m) as i64,
        g: fx_mul_s(color.g as int, m) as i64,
        b: fx_mul_s(color.b as int, m) as i64,
        a: color.a,
    }
}

/// Componentwise product of two colors, alpha included.
pub open spec fn multiply_colours_s(c1: Color, c2: Color) -> Color {
    Color {
        r: fx_mul_s(c1.r as int, c2.r as int) as i64,
        g: fx_mul_s(c1.g as int, c2.g as int) as i64,
        b: fx_mul_s(c1.b as int, c2.b as int) as i64,
        a: fx_mul_s(c1.a as int, c2.a as int) as i64,
    }
}

/// Componentwise sum of two colors, alpha included.
pub open spec fn add_colours_s(c1: Color, c2: Color) -> Color {
    Color {
        r: sat_add_s(c1.r as int, c2.r as int) as i64,
        g: sat_add_s(c1.g as int, c2.g as int) as i64,
        b: sat_add_s(c1.b as int, c2.b as int) as i64,
        a: sat_add_s(c1.a as int, c2.a as int) as i64,
    }
}

pub fn multiply_colour(color: &Color, m: i64) -> (c: Color)
    ensures
        c == multiply_colour_s(*color, m as int),
{
    Color { r: fx_mul(color.r, m), g: fx_mul(color.g, m), b: fx_mul(color.b, m), a: color.a }
}

pub fn multiply_colours(color1: &Color, color2: &Color) -> (c: Color)
    ensures
        c == multiply_colours_s(*color1, *color2),
{
    Color {
        r: fx_mul(color1.r, color2.r),
        g: fx_mul(color1.g, color2.g),
        b: fx_mul(color1.b, color2.b),
        a: fx_mul(color1.a, color2.a),
    }
}

pub fn add_colours(color1: &Color, color2: &Color) -> (c: Color)
    ensures
        c == add_colours_s(*color1, *color2),
{
    Color {
        r: sat_add(color1.r, color2.r),
        g: sat_add(color1.g, color2.g),
        b: sat_add(color1.b, color2.b),
        a: sat_add(color1.a, color2.a),
    }
}

/// Linear map of a channel from `[0, 1]` onto `[0, 255]`, truncated,
/// saturated at both conversion boundaries.
pub open spec fn channel_byte_s(c: int) -> int {
    if c <= 0 {
        0
    } else if (c * 255) / 65536 > 255 {
        255
    } else {
        (c * 255) / 65536
    }
}

pub fn channel_byte(c: i64) -> (r: u8)
    ensures
        r as int == channel_byte_s(c as int),
{
    if c <= 0 {
        0
    } else {
        let q: u128 = ((c as u128) * 255) / 65536;
        if q > 255 {
            255
        } else {
            q as u8
        }
    }
}

impl Color {
    /// The four bytes of this color, in `(r, g, b, a)` order.
    pub fn to_rgba(&self) -> (t: (u8, u8, u8, u8))
        ensures
            t.0 as int == channel_byte_s(self.r as int),
            t.1 as int == channel_byte_s(self.g as int),
            t.2 as int == channel_byte_s(self.b as int),
            t.3 as int == channel_byte_s(self.a as int),
    {
        (channel_byte(self.r), channel_byte(self.g), channel_byte(self.b), channel_byte(self.a))
    }
}

} // verus!
