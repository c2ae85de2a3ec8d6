//! The 2C02's colour table: the RGB value of each of its 64 colours.

use vstd::prelude::*;

verus! {

/// RGB colour, produced by mapping a 6-bit NES palette index through the
/// hardware colour table.
#[derive(Debug, Clone, Copy, PartialEq, Eq, Structural, Default)]
pub struct Rgb {
    pub r: u8,
    pub g: u8,
    pub b: u8,
}

/// The colour the hardware shows for palette index `index` (0-63).
pub open spec fn nes_color(index: u8) -> Rgb {
    if index == 0x00 {
        Rgb { r: 0x54, g: 0x54, b: 0x54 }
    } else if index == 0x01 {
        Rgb { r: 0x00, g: 0x1E, b: 0x74 }
    } else if index == 0x02 {
        Rgb { r: 0x08, g: 0x10, b: 0x90 }
    } else if index == 0x03 {
        Rgb { r: 0x30, g: 0x00, b: 0x88 }
    } else if index == 0x04 {
        Rgb { r: 0x44, g: 0x00, b: 0x64 }
    } else if index == 0x05 {
        Rgb { r: 0x5C, g: 0x00, b: 0x30 }
    } else if index == 0x06 {
        Rgb { r: 0x54, g: 0x04, b: 0x00 }
    } else if index == 0x07 {
        Rgb { r: 0x3C, g: 0x18, b: 0x00 }
    } else if index == 0x08 {
        Rgb { r: 0x20, g: 0x2A, b: 0x00 }
    } else if index == 0x09 {
        Rgb { r: 0x08, g: 0x3A, b: 0x00 }
    } else if index == 0x0A {
        Rgb { r: 0x00, g: 0x40, b: 0x00 }
    } else if index == 0x0B {
        Rgb { r: 0x00, g: 0x3C, b: 0x00 }
    } else if index == 0x0C {
        Rgb { r: 0x00, g: 0x32, b: 0x3C }
    } else if index == 0x0D {
        Rgb { r: 0x00, g: 0x00, b: 0x00 }
    } else if index == 0x0E {
        Rgb { r: 0x00, g: 0x00, b: 0x00 }
    } else if index == 0x0F {
        Rgb { r: 0x00, g: 0x00, b: 0x00 }
    } else if index == 0x10 {
        Rgb { r: 0x98, g: 0x96, b: 0x98 }
    } else if index == 0x11 {
        Rgb { r: 0x08, g: 0x4C, b: 0xC4 }
    } else if index == 0x12 {
        Rgb { r: 0x30, g: 0x32, b: 0xEC }
    } else if index == 0x13 {
        Rgb { r: 0x5C, g: 0x1E, b: 0xE4 }
    } else if index == 0x14 {
        Rgb { r: 0x88, g: 0x14, b: 0xB0 }
    } else if index == 0x15 {
        Rgb { r: 0xA0, g: 0x14, b: 0x64 }
    } else if index == 0x16 {
        Rgb { r: 0x98, g: 0x22, b: 0x20 }
    } else if index == 0x17 {
        Rgb { r: 0x78, g: 0x3C, b: 0x00 }
    } else if index == 0x18 {
        Rgb { r: 0x54, g: 0x5A, b: 0x00 }
    } else if index == 0x19 {
        Rgb { r: 0x28, g: 0x72, b: 0x00 }
    } else if index == 0x1A {
        Rgb { r: 0x08, g: 0x7C, b: 0x00 }
    } else if index == 0x1B {
        Rgb { r: 0x00, g: 0x76, b: 0x28 }
    } else if index == 0x1C {
        Rgb { r: 0x00, g: 0x66, b: 0x78 }
    } else if index == 0x1D {
        Rgb { r: 0x00, g: 0x00, b: 0x00 }
    } else if index == 0x1E {
        Rgb { r: 0x00, g: 0x00, b: 0x00 }
    } else if index == 0x1F {
        Rgb { r: 0x00, g: 0x00, b: 0x00 }
    } else if index == 0x20 {
        Rgb { r: 0xEC, g: 0xEE, b: 0xEC }
    } else if index == 0x21 {
        Rgb { r: 0x4C, g: 0x9A, b: 0xEC }
    } else if index == 0x22 {
        Rgb { r: 0x78, g: 0x7C, b: 0xEC }
    } else if index == 0x23 {
        Rgb { r: 0xB0, g: 0x62, b: 0xEC }
    } else if index == 0x24 {
        Rgb { r: 0xE4, g: 0x54, b: 0xEC }
    } else if index == 0x25 {
        Rgb { r: 0xEC, g: 0x58, b: 0xB4 }
    } else if index == 0x26 {
        Rgb { r: 0xEC, g: 0x6A, b: 0x64 }
    } else if index == 0x27 {
        Rgb { r: 0xD4, g: 0x88, b: 0x20 }
    } else if index == 0x28 {
        Rgb { r: 0xA0, g: 0xAA, b: 0x00 }
    } else if index == 0x29 {
        Rgb { r: 0x74, g: 0xC4, b: 0x00 }
    } else if index == 0x2A {
        Rgb { r: 0x4C, g: 0xD0, b: 0x20 }
    } else if index == 0x2B {
        Rgb { r: 0x38, g: 0xCC, b: 0x6C }
    } else if index == 0x2C {
        Rgb { r: 0x38, g: 0xB4, b: 0xCC }
    } else if index == 0x2D {
        Rgb { r: 0x3C, g: 0x3C, b: 0x3C }
    } else if index == 0x2E {
        Rgb { r: 0x00, g: 0x00, b: 0x00 }
    } else if index == 0x2F {
        Rgb { r: 0x00, g: 0x00, b: 0x00 }
    } else if index == 0x30 {
        Rgb { r: 0xEC, g: 0xEE, b: 0xEC }
    } else if index == 0x31 {
        Rgb { r: 0xA8, g: 0xCC, b: 0xEC }
    } else if index == 0x32 {
        Rgb { r: 0xBC, g: 0xBC, b: 0xEC }
    } else if index == 0x33 {
        Rgb { r: 0xD4, g: 0xB2, b: 0xEC }
    } else if index == 0x34 {
        Rgb { r: 0xEC, g: 0xAE, b: 0xEC }
    } else if index == 0x35 {
        Rgb { r: 0xEC, g: 0xAE, b: 0xD4 }
    } else if index == 0x36 {
        Rgb { r: 0xEC, g: 0xB4, b: 0xB0 }
    } else if index == 0x37 {
        Rgb { r: 0xE4, g: 0xC4, b: 0x90 }
    } else if index == 0x38 {
        Rgb { r: 0xCC, g: 0xD2, b: 0x78 }
    } else if index == 0x39 {
        Rgb { r: 0xB4, g: 0xDE, b: 0x78 }
    } else if index == 0x3A {
        Rgb { r: 0xA8, g: 0xE2, b: 0x90 }
    } else if index == 0x3B {
        Rgb { r: 0x98, g: 0xE2, b: 0xB4 }
    } else if index == 0x3C {
        Rgb { r: 0xA0, g: 0xD6, b: 0xE4 }
    } else if index == 0x3D {
        Rgb { r: 0xA0, g: 0xA2, b: 0xA0 }
    } else if index == 0x3E {
        Rgb { r: 0x00, g: 0x00, b: 0x00 }
    } else {
        Rgb { r: 0x00, g: 0x00, b: 0x00 }
    }
}

/// Looks up palette index `index` (its low six bits) in the colour table.
pub fn palette_color(index: u8) -> (c: Rgb)
    ensures
        c == nes_color(index & 0x3F),
{
    let i = index & 0x3F;
    proof {
        crate::bits::lemma_byte_bits(index);
    }
    match i {
        0x00 => Rgb { r: 0x54, g: 0x54, b: 0x54 },
        0x01 => Rgb { r: 0x00, g: 0x1E, b: 0x74 },
        0x02 => Rgb { r: 0x08, g: 0x10, b: 0x90 },
        0x03 => Rgb { r: 0x30, g: 0x00, b: 0x88 },
        0x04 => Rgb { r: 0x44, g: 0x00, b: 0x64 },
        0x05 => Rgb { r: 0x5C, g: 0x00, b: 0x30 },
        0x06 => Rgb { r: 0x54, g: 0x04, b: 0x00 },
        0x07 => Rgb { r: 0x3C, g: 0x18, b: 0x00 },
        0x08 => Rgb { r: 0x20, g: 0x2A, b: 0x00 },
        0x09 => Rgb { r: 0x08, g: 0x3A, b: 0x00 },
        0x0A => Rgb { r: 0x00, g: 0x40, b: 0x00 },
        0x0B => Rgb { r: 0x00, g: 0x3C, b: 0x00 },
        0x0C => Rgb { r: 0x00, g: 0x32, b: 0x3C },
        0x0D => Rgb { r: 0x00, g: 0x00, b: 0x00 },
        0x0E => Rgb { r: 0x00, g: 0x00, b: 0x00 },
        0x0F => Rgb { r: 0x00, g: 0x00, b: 0x00 },
        0x10 => Rgb { r: 0x98, g: 0x96, b: 0x98 },
        0x11 => Rgb { r: 0x08, g: 0x4C, b: 0xC4 },
        0x12 => Rgb { r: 0x30, g: 0x32, b: 0xEC },
        0x13 => Rgb { r: 0x5C, g: 0x1E, b: 0xE4 },
        0x14 => Rgb { r: 0x88, g: 0x14, b: 0xB0 },
        0x15 => Rgb { r: 0xA0, g: 0x14, b: 0x64 },
        0x16 => Rgb { r: 0x98, g: 0x22, b: 0x20 },
        0x17 => Rgb { r: 0x78, g: 0x3C, b: 0x00 },
        0x18 => Rgb { r: 0x54, g: 0x5A, b: 0x00 },
        0x19 => Rgb { r: 0x28, g: 0x72, b: 0x00 },
        0x1A => Rgb { r: 0x08, g: 0x7C, b: 0x00 },
        0x1B => Rgb { r: 0x00, g: 0x76, b: 0x28 },
        0x1C => Rgb { r: 0x00, g: 0x66, b: 0x78 },
        0x1D => Rgb { r: 0x00, g: 0x00, b: 0x00 },
        0x1E => Rgb { r: 0x00, g: 0x00, b: 0x00 },
        0x1F => Rgb { r: 0x00, g: 0x00, b: 0x00 },
        0x20 => Rgb { r: 0xEC, g: 0xEE, b: 0xEC },
        0x21 => Rgb { r: 0x4C, g: 0x9A, b: 0xEC },
        0x22 => Rgb { r: 0x78, g: 0x7C, b: 0xEC },
        0x23 => Rgb { r: 0xB0, g: 0x62, b: 0xEC },
        0x24 => Rgb { r: 0xE4, g: 0x54, b: 0xEC },
        0x25 => Rgb { r: 0xEC, g: 0x58, b: 0xB4 },
        0x26 => Rgb { r: 0xEC, g: 0x6A, b: 0x64 },
        0x27 => Rgb { r: 0xD4, g: 0x88, b: 0x20 },
        0x28 => Rgb { r: 0xA0, g: 0xAA, b: 0x00 },
        0x29 => Rgb { r: 0x74, g: 0xC4, b: 0x00 },
        0x2A => Rgb { r: 0x4C, g: 0xD0, b: 0x20 },
        0x2B => Rgb { r: 0x38, g: 0xCC, b: 0x6C },
        0x2C => Rgb { r: 0x38, g: 0xB4, b: 0xCC },
        0x2D => Rgb { r: 0x3C, g: 0x3C, b: 0x3C },
        0x2E => Rgb { r: 0x00, g: 0x00, b: 0x00 },
        0x2F => Rgb { r: 0x00, g: 0x00, b: 0x00 },
        0x30 => Rgb { r: 0xEC, g: 0xEE, b: 0xEC },
        0x31 => Rgb { r: 0xA8, g: 0xCC, b: 0xEC },
        0x32 => Rgb { r: 0xBC, g: 0xBC, b: 0xEC },
        0x33 => Rgb { r: 0xD4, g: 0xB2, b: 0xEC },
        0x34 => Rgb { r: 0xEC, g: 0xAE, b: 0xEC },
        0x35 => Rgb { r: 0xEC, g: 0xAE, b: 0xD4 },
        0x36 => Rgb { r: 0xEC, g: 0xB4, b: 0xB0 },
        0x37 => Rgb { r: 0xE4, g: 0xC4, b: 0x90 },
        0x38 => Rgb { r: 0xCC, g: 0xD2, b: 0x78 },
        0x39 => Rgb { r: 0xB4, g: 0xDE, b: 0x78 },
        0x3A => Rgb { r: 0xA8, g: 0xE2, b: 0x90 },
        0x3B => Rgb { r: 0x98, g: 0xE2, b: 0xB4 },
        0x3C => Rgb { r: 0xA0, g: 0xD6, b: 0xE4 },
        0x3D => Rgb { r: 0xA0, g: 0xA2, b: 0xA0 },
        0x3E => Rgb { r: 0x00, g: 0x00, b: 0x00 },
        _ => Rgb { r: 0x00, g: 0x00, b: 0x00 },
    }
}

} // verus!
