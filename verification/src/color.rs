//! 24-bit RGB colours: channel clamping, packing into `0xRRGGBB` words and
//! saturating addition.

use vstd::prelude::*;

verus! {

/// A colour with one byte per channel.
#[derive(Clone, Copy, Debug, PartialEq, Eq, Structural)]
pub struct Color {
    pub r: u8,
    pub g: u8,
    pub b: u8,
}

/// The channel value nearest to `v`: `v` itself inside `0..=255`, the nearer
/// end of that range outside it.
pub open spec fn clamp_channel(v: int) -> u8 {
    if v < 0 {
        0u8
    } else if v > 255 {
        255u8
    } else {
        v as u8
    }
}

/// The sum of two channel values, held at 255.
pub open spec fn add_channel(a: u8, b: u8) -> u8 {
    if a + b > 255 {
        255u8
    } else {
        (a + b) as u8
    }
}

fn clamp_to_channel(v: i32) -> (c: u8)
    ensures
        c == clamp_channel(v as int),
{
    if v < 0 {
        0
    } else if v > 255 {
        255
    } else {
        v as u8
    }
}

fn add_saturating(a: u8, b: u8) -> (c: u8)
    ensures
        c == add_channel(a, b),
{
    if a > 255 - b {
        255
    } else {
        a + b
    }
}

impl Color {
    /// The word `0xRRGGBB` that packs this colour.
    pub open spec fn spec_to_hex(self) -> u32 {
        (self.r as int * 0x1_0000 + self.g as int * 0x100 + self.b as int) as u32
    }

    /// The colour packed in the low 24 bits of `hex`.
    pub open spec fn spec_from_hex(hex: u32) -> Color {
        Color {
            r: ((hex as int / 0x1_0000) % 0x100) as u8,
            g: ((hex as int / 0x100) % 0x100) as u8,
            b: (hex as int % 0x100) as u8,
        }
    }

    /// The channel-wise sum of two colours, each channel held at 255.
    pub open spec fn spec_saturating_add(self, other: Color) -> Color {
        Color {
            r: add_channel(self.r, other.r),
            g: add_channel(self.g, other.g),
            b: add_channel(self.b, other.b),
        }
    }

    /// Builds a colour from three integers, clamping each into `0..=255`.
    pub fn new(r: i32, g: i32, b: i32) -> (c: Color)
        ensures
            c.r == clamp_channel(r as int),
            c.g == clamp_channel(g as int),
            c.b == clamp_channel(b as int),
    {
        Color { r: clamp_to_channel(r), g: clamp_to_channel(g), b: clamp_to_channel(b) }
    }

    /// Unpacks `0xRRGGBB`; the top byte of `hex` is ignored.
    pub fn from_hex(hex: u32) -> (c: Color)
        ensures
            c == Color::spec_from_hex(hex),
    {
        let r: u32 = (hex >> 16) & 0xFF;
        let g: u32 = (hex >> 8) & 0xFF;
        let b: u32 = hex & 0xFF;
        assert(r == (hex / 0x1_0000) % 0x100 && r < 0x100) by (bit_vector)
            requires
                r == (hex >> 16) & 0xFF,
        ;
        assert(g == (hex / 0x100) % 0x100 && g < 0x100) by (bit_vector)
            requires
                g == (hex >> 8) & 0xFF,
        ;
        assert(b == hex % 0x100 && b < 0x100) by (bit_vector)
            requires
                b == hex & 0xFF,
        ;
        Color { r: r as u8, g: g as u8, b: b as u8 }
    }

    /// Packs the colour as `0xRRGGBB`.
    pub fn to_hex(&self) -> (hex: u32)
        ensures
            hex == self.spec_to_hex(),
    {
        let r: u32 = self.r as u32;
        let g: u32 = self.g as u32;
        let b: u32 = self.b as u32;
        let hex: u32 = (r << 16) | (g << 8) | b;
        assert(hex == r * 0x1_0000 + g * 0x100 + b) by (bit_vector)
            requires
                hex == (r << 16) | (g << 8) | b,
                r < 0x100,
                g < 0x100,
                b < 0x100,
        ;
        hex
    }
}

/// `a + b` adds two colours channel by channel; a sum above 255 stays at 255.
impl core::ops::Add for Color {
    type Output = Color;

    fn add(self, other: Color) -> (c: Color) {
        Color {
            r: add_saturating(self.r, other.r),
            g: add_saturating(self.g, other.g),
            b: add_saturating(self.b, other.b),
        }
    }
}

impl vstd::std_specs::ops::AddSpecImpl for Color {
    open spec fn obeys_add_spec() -> bool {
        true
    }

    open spec fn add_req(self, other: Color) -> bool {
        true
    }

    open spec fn add_spec(self, other: Color) -> Color {
        self.spec_saturating_add(other)
    }
}

/// A packed word converts to the colour in its low 24 bits.
impl core::convert::From<u32> for Color {
    fn from(hex: u32) -> (c: Color) {
        Color::from_hex(hex)
    }
}

impl vstd::std_specs::convert::FromSpecImpl<u32> for Color {
    open spec fn obeys_from_spec() -> bool {
        true
    }

    open spec fn from_spec(hex: u32) -> Color {
        Color::spec_from_hex(hex)
    }
}

/// Unpacking a packed colour gives the colour back.
pub proof fn lemma_hex_round_trip(c: Color)
    ensures
        Color::spec_from_hex(c.spec_to_hex()) == c,
{
}

/// Packing an unpacked word gives its low 24 bits back, so a word below
/// `0x100_0000` is unchanged.
pub proof fn lemma_hex_low_bits(hex: u32)
    ensures
        Color::spec_from_hex(hex).spec_to_hex() == hex as int % 0x100_0000,
{
}

/// Addition of colours is commutative, and black is its neutral element.
pub proof fn lemma_add_commutes(a: Color, b: Color)
    ensures
        a.spec_saturating_add(b) == b.spec_saturating_add(a),
        a.spec_saturating_add(Color { r: 0, g: 0, b: 0 }) == a,
{
}

} // verus!
