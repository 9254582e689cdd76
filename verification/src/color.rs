use vstd::prelude::*;

verus! {

/// An 8-bit-per-channel RGB colour.
#[derive(Clone, Copy, Debug, PartialEq, Eq, Structural)]
pub struct Color {
    pub r: u8,
    pub g: u8,
    pub b: u8,
}

/// The channel halfway between `a` and `b`, rounded half up
/// (what `a + (b - a) * 0.5` gives when rounded to the nearest integer).
pub open spec fn channel_midpoint(a: u8, b: u8) -> int {
    (a + b + 1) / 2
}

/// `0xRRGGBB`: the colour packed into the low 24 bits of a word.
pub open spec fn packed_rgb(r: u8, g: u8, b: u8) -> int {
    r * 65536 + g * 256 + b
}

fn midpoint_channel(a: u8, b: u8) -> (m: u8)
    ensures
        m == channel_midpoint(a, b),
{
    let s: u16 = a as u16 + b as u16 + 1;
    (s / 2) as u8
}

impl Color {
    pub fn new(r: u8, g: u8, b: u8) -> (c: Color)
        ensures
            c.r == r,
            c.g == g,
            c.b == b,
    {
        Color { r, g, b }
    }

    /// Packs the colour as `0xRRGGBB`, the format of a framebuffer pixel.
    pub fn to_hex(&self) -> (hex: u32)
        ensures
            hex == packed_rgb(self.r, self.g, self.b),
            hex < 0x100_0000,
    {
        let r = self.r as u32;
        let g = self.g as u32;
        let b = self.b as u32;
        let hex = (r << 16) | (g << 8) | b;
        assert(hex == r * 65536 + g * 256 + b && hex < 0x100_0000) by (bit_vector)
            requires
                r < 256,
                g < 256,
                b < 256,
                hex == (r << 16) | (g << 8) | b,
        ;
        hex
    }
}

/// Mixes two colour layers half and half, channel by channel.
pub fn blend_layers(base_color: Color, overlay_color: Color) -> (c: Color)
    ensures
        c.r == channel_midpoint(base_color.r, overlay_color.r),
        c.g == channel_midpoint(base_color.g, overlay_color.g),
        c.b == channel_midpoint(base_color.b, overlay_color.b),
{
    Color {
        r: midpoint_channel(base_color.r, overlay_color.r),
        g: midpoint_channel(base_color.g, overlay_color.g),
        b: midpoint_channel(base_color.b, overlay_color.b),
    }
}

/// Blending is symmetric, leaves a colour blended with itself unchanged, and
/// puts every channel between the two layers' channels; it lands exactly
/// halfway, and when halfway falls between two integers it takes the upper one.
pub proof fn lemma_blend_properties(x: u8, y: u8)
    ensures
        2 * channel_midpoint(x, y) == x + y + (x + y) % 2,
        channel_midpoint(x, y) == channel_midpoint(y, x),
        channel_midpoint(x, x) == x,
        x <= y ==> x <= channel_midpoint(x, y) <= y,
        y <= x ==> y <= channel_midpoint(x, y) <= x,
{
}

/// The packed form determines the colour: each channel reads back from its byte.
pub proof fn lemma_packed_rgb_channels(r: u8, g: u8, b: u8)
    ensures
        packed_rgb(r, g, b) / 65536 == r,
        (packed_rgb(r, g, b) / 256) % 256 == g,
        packed_rgb(r, g, b) % 256 == b,
{
    assert(packed_rgb(r, g, b) / 65536 == r) by (nonlinear_arith)
        requires
            packed_rgb(r, g, b) == r * 65536 + g * 256 + b,
            r < 256,
            g < 256,
            b < 256,
    ;
    assert((packed_rgb(r, g, b) / 256) % 256 == g) by (nonlinear_arith)
        requires
            packed_rgb(r, g, b) == r * 65536 + g * 256 + b,
            r < 256,
            g < 256,
            b < 256,
    ;
    assert(packed_rgb(r, g, b) % 256 == b) by (nonlinear_arith)
        requires
            packed_rgb(r, g, b) == r * 65536 + g * 256 + b,
            r < 256,
            g < 256,
            b < 256,
    ;
}

} // verus!
