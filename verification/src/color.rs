//! Colors unpacked from `0xRRGGBB` hex values.

use vstd::prelude::*;

verus! {

/// A color as three 8-bit channels unpacked from a 24-bit `0xRRGGBB` value.
///
/// Each channel is an integer in `0..=255`; renderers divide by 255 to obtain
/// the normalized channel values a 2D backend expects.
#[derive(Clone, Copy, Debug, PartialEq, Eq, Structural)]
pub struct Color {
    pub r: u8,
    pub g: u8,
    pub b: u8,
}

impl Color {
    /// The color a `0xRRGGBB` integer denotes: red from bits 16-23, green
    /// from bits 8-15, blue from bits 0-7.
    pub open spec fn spec_from_hex(hex: u32) -> Color {
        Color {
            r: ((hex >> 16) & 0xff) as u8,
            g: ((hex >> 8) & 0xff) as u8,
            b: (hex & 0xff) as u8,
        }
    }

    /// Unpack a color from a `0xRRGGBB` integer. Bits above bit 23 are
    /// ignored; there is no error path.
    pub fn new_from_hex(hex: u32) -> (c: Color)
        ensures
            c == Color::spec_from_hex(hex),
    {
        Color { r: ((hex >> 16) & 0xff) as u8, g: ((hex >> 8) & 0xff) as u8, b: (hex & 0xff) as u8 }
    }

    /// The `(red, green, blue)` channels, each in `0..=255`.
    pub fn rgb(&self) -> (rgb: (u8, u8, u8))
        ensures
            rgb == (self.r, self.g, self.b),
    {
        (self.r, self.g, self.b)
    }
}

/// Only the low 24 bits of a hex value determine the color.
pub proof fn lemma_high_bits_ignored(hex: u32)
    ensures
        Color::spec_from_hex(hex) == Color::spec_from_hex(hex & 0xffffff),
{
    assert((hex >> 16) & 0xff == ((hex & 0xffffff) >> 16) & 0xff) by (bit_vector);
    assert((hex >> 8) & 0xff == ((hex & 0xffffff) >> 8) & 0xff) by (bit_vector);
    assert(hex & 0xff == (hex & 0xffffff) & 0xff) by (bit_vector);
}

} // verus!
