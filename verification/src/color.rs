//! Colors with fixed-point channels.
//!
//! Channels conventionally range over `[0, 255]` but are not clamped by the
//! arithmetic; clamping happens only when a color is packed into a 24-bit
//! pixel by [`Color::to_hex`].

use vstd::prelude::*;
use crate::fx::{fx_add, fx_mul, fx_clamp, fx_of_int, tdiv, add_fx, mul_fx, clamp_fx};

verus! {

/// The fixed-point representation of channel value 255.
pub const CHANNEL_MAX: i64 = 16711680;

/// A color as three fixed-point channels.
#[derive(Clone, Copy, Debug, PartialEq, Eq, Structural)]
pub struct Color {
    pub r: i64,
    pub g: i64,
    pub b: i64,
}

/// A color built from three byte channel values.
pub open spec fn c_from_bytes(r: u8, g: u8, b: u8) -> Color {
    Color { r: fx_of_int(r as int), g: fx_of_int(g as int), b: fx_of_int(b as int) }
}

/// Channel-wise color sum.
pub open spec fn c_add(a: Color, b: Color) -> Color {
    Color { r: fx_add(a.r, b.r), g: fx_add(a.g, b.g), b: fx_add(a.b, b.b) }
}

/// The color scaled channel-wise by a fixed-point factor.
pub open spec fn c_scale(a: Color, k: i64) -> Color {
    Color { r: fx_mul(a.r, k), g: fx_mul(a.g, k), b: fx_mul(a.b, k) }
}

/// A channel clamped into `[0, 255]` and truncated to a whole byte value.
pub open spec fn channel_byte(c: i64) -> int {
    tdiv(fx_clamp(c, 0, CHANNEL_MAX) as int, 65536)
}

/// The color packed as `0x00RRGGBB`, each channel clamped to `[0, 255]`.
pub open spec fn c_to_hex(a: Color) -> u32 {
    (channel_byte(a.r) * 0x10000 + channel_byte(a.g) * 0x100 + channel_byte(a.b)) as u32
}

/// A channel clamped into `[0, 255]` and truncated to a whole byte value.
fn byte_of_channel(c: i64) -> (r: u32)
    ensures
        r as int == channel_byte(c),
        r <= 255,
{
    let cl: i64 = clamp_fx(c, 0, CHANNEL_MAX);
    ((cl as u64) / 65536) as u32
}

impl Color {
    /// Build a color from byte channel values.
    pub fn new(r: u8, g: u8, b: u8) -> (c: Color)
        ensures
            c == c_from_bytes(r, g, b),
    {
        Color { r: (r as i64) * 65536, g: (g as i64) * 65536, b: (b as i64) * 65536 }
    }

    /// Channel-wise color sum.
    pub fn add(self, o: Color) -> (c: Color)
        ensures
            c == c_add(self, o),
    {
        Color { r: add_fx(self.r, o.r), g: add_fx(self.g, o.g), b: add_fx(self.b, o.b) }
    }

    /// The color scaled channel-wise by a fixed-point factor.
    pub fn scale(self, k: i64) -> (c: Color)
        ensures
            c == c_scale(self, k),
    {
        Color { r: mul_fx(self.r, k), g: mul_fx(self.g, k), b: mul_fx(self.b, k) }
    }

    /// Pack the color as `0x00RRGGBB`, clamping each channel to `[0, 255]`.
    pub fn to_hex(&self) -> (h: u32)
        ensures
            h == c_to_hex(*self),
    {
        let cr: u32 = byte_of_channel(self.r);
        let cg: u32 = byte_of_channel(self.g);
        let cb: u32 = byte_of_channel(self.b);
        cr * 0x10000 + cg * 0x100 + cb
    }
}

} // verus!
