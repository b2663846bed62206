//! RGB colours of three 8-bit channels. No operation wraps: every result
//! is held inside `0..=255` by saturation or by construction.

use vstd::prelude::*;
use vstd::std_specs::ops::AddSpec;

verus! {

/// A colour of three 8-bit channels.
#[derive(Debug, Clone, Copy, PartialEq, Eq, Structural)]
pub struct Color {
    pub r: u8,
    pub g: u8,
    pub b: u8,
}

/// The sum of two channels, held at 255.
pub open spec fn saturating_sum(a: u8, b: u8) -> u8 {
    if a + b > 255 {
        255u8
    } else {
        (a + b) as u8
    }
}

/// The product of two channels read as fractions of 255.
pub open spec fn channel_product(a: u8, b: u8) -> u8 {
    ((a * b) / 255) as u8
}

/// The 24-bit number `0xRRGGBB` of a colour.
pub open spec fn packed(c: Color) -> int {
    c.r * 65536 + c.g * 256 + c.b
}

/// The colour that the low 24 bits of `hex` stand for.
pub open spec fn unpacked(hex: int) -> Color {
    Color {
        r: ((hex / 65536) % 256) as u8,
        g: ((hex / 256) % 256) as u8,
        b: (hex % 256) as u8,
    }
}

fn add_channel(a: u8, b: u8) -> (s: u8)
    ensures
        s == saturating_sum(a, b),
{
    let wide: u16 = a as u16 + b as u16;
    if wide > 255 {
        255
    } else {
        wide as u8
    }
}

fn mul_channel(a: u8, b: u8) -> (p: u8)
    ensures
        p == channel_product(a, b),
{
    assert(a * b <= 255 * 255) by (nonlinear_arith)
        requires
            a <= 255,
            b <= 255,
    ;
    let wide: u32 = a as u32 * b as u32;
    (wide / 255) as u8
}

impl Color {
    pub fn new(r: u8, g: u8, b: u8) -> (c: Color)
        ensures
            c == (Color { r, g, b }),
    {
        Color { r, g, b }
    }

    pub open spec fn spec_black() -> Color {
        Color { r: 0, g: 0, b: 0 }
    }

    #[verifier::when_used_as_spec(spec_black)]
    pub fn black() -> (c: Color)
        ensures
            c == Color::spec_black(),
    {
        Color { r: 0, g: 0, b: 0 }
    }

    /// Packs the colour as `0xRRGGBB`.
    pub fn to_hex(&self) -> (hex: u32)
        ensures
            hex == packed(*self),
            hex <= 0xFF_FFFF,
    {
        let r: u32 = self.r as u32;
        let g: u32 = self.g as u32;
        let b: u32 = self.b as u32;
        assert(((r << 16) | (g << 8) | b) == r * 65536 + g * 256 + b) by (bit_vector)
            requires
                r <= 255,
                g <= 255,
                b <= 255,
        ;
        (r << 16) | (g << 8) | b
    }

    /// Reads a colour from the low 24 bits of `hex`; higher bits are ignored.
    pub fn from_hex(hex: u32) -> (c: Color)
        ensures
            c == unpacked(hex as int),
    {
        assert((hex >> 16) & 0xFF == (hex / 65536) % 256) by (bit_vector);
        assert((hex >> 8) & 0xFF == (hex / 256) % 256) by (bit_vector);
        assert(hex & 0xFF == hex % 256) by (bit_vector);
        Color {
            r: ((hex >> 16) & 0xFF) as u8,
            g: ((hex >> 8) & 0xFF) as u8,
            b: (hex & 0xFF) as u8,
        }
    }

    /// Channel-wise product of two colours read as fractions of 255.
    pub fn blend(self, other: Color) -> (c: Color)
        ensures
            c.r == channel_product(self.r, other.r),
            c.g == channel_product(self.g, other.g),
            c.b == channel_product(self.b, other.b),
    {
        Color {
            r: mul_channel(self.r, other.r),
            g: mul_channel(self.g, other.g),
            b: mul_channel(self.b, other.b),
        }
    }
}

impl vstd::std_specs::ops::AddSpecImpl for Color {
    open spec fn obeys_add_spec() -> bool {
        true
    }

    open spec fn add_req(self, other: Color) -> bool {
        true
    }

    open spec fn add_spec(self, other: Color) -> Color {
        Color {
            r: saturating_sum(self.r, other.r),
            g: saturating_sum(self.g, other.g),
            b: saturating_sum(self.b, other.b),
        }
    }
}

/// `a + b` adds channel by channel and stops at 255.
impl std::ops::Add for Color {
    type Output = Color;

    fn add(self, other: Color) -> (sum: Color) {
        Color {
            r: add_channel(self.r, other.r),
            g: add_channel(self.g, other.g),
            b: add_channel(self.b, other.b),
        }
    }
}

/// Addition saturates: each channel of a sum is the exact sum of the two
/// channels where that is at most 255, and 255 where it is more. So a sum
/// never wraps and is never darker than either operand.
pub proof fn add_saturates(a: Color, b: Color)
    ensures
        a.add_spec(b).r == (if a.r + b.r <= 255 { a.r + b.r } else { 255 }),
        a.add_spec(b).g == (if a.g + b.g <= 255 { a.g + b.g } else { 255 }),
        a.add_spec(b).b == (if a.b + b.b <= 255 { a.b + b.b } else { 255 }),
        a.add_spec(b).r >= a.r && a.add_spec(b).r >= b.r,
        a.add_spec(b).g >= a.g && a.add_spec(b).g >= b.g,
        a.add_spec(b).b >= a.b && a.add_spec(b).b >= b.b,
{
}

/// Packing a colour and unpacking the number gives the colour back.
pub proof fn unpack_inverts_pack(c: Color)
    ensures
        0 <= packed(c) <= 0xFF_FFFF,
        unpacked(packed(c)) == c,
{
}

/// Unpacking a number and packing the colour gives the low 24 bits back.
pub proof fn pack_inverts_unpack(hex: int)
    requires
        0 <= hex,
    ensures
        packed(unpacked(hex)) == hex % 0x100_0000,
{
}

} // verus!
