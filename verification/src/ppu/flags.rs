//! Bit masks for the PPU's CPU-visible registers. These sit at $2000 through
//! $2007 in the CPU's address space and, because their addresses are only
//! partly decoded, repeat every 8 bytes up to $3FFF.

use vstd::prelude::*;

use crate::bits::{flag_is_set, with_flag};

verus! {

// Register offsets ($2000-$2007).
pub const REG_PPUCTRL: u16 = 0x0000;
pub const REG_PPUMASK: u16 = 0x0001;
pub const REG_PPUSTATUS: u16 = 0x0002;
pub const REG_OAMADDR: u16 = 0x0003;
pub const REG_OAMDATA: u16 = 0x0004;
pub const REG_PPUSCROLL: u16 = 0x0005;
pub const REG_PPUADDR: u16 = 0x0006;
pub const REG_PPUDATA: u16 = 0x0007;

// PPUCTRL ($2000 write).
/// Base nametable select, bit 0.
pub const CTRL_NAMETABLE_LO: u8 = 0b0000_0001;
/// Base nametable select, bit 1.
pub const CTRL_NAMETABLE_HI: u8 = 0b0000_0010;
/// VRAM address increment per CPU access of PPUDATA (0: 1, 1: 32).
pub const CTRL_VRAM_INCREMENT: u8 = 0b0000_0100;
/// Sprite pattern table for 8x8 sprites (0: $0000, 1: $1000).
pub const CTRL_SPRITE_PATTERN_TABLE: u8 = 0b0000_1000;
/// Background pattern table (0: $0000, 1: $1000).
pub const CTRL_BACKGROUND_PATTERN_TABLE: u8 = 0b0001_0000;
/// Sprite size (0: 8x8 pixels, 1: 8x16 pixels).
pub const CTRL_SPRITE_SIZE: u8 = 0b0010_0000;
/// PPU master/slave select.
pub const CTRL_MASTER_SLAVE: u8 = 0b0100_0000;
/// Generate an NMI at the start of vertical blank.
pub const CTRL_NMI_ENABLE: u8 = 0b1000_0000;

// PPUMASK ($2001 write).
/// Greyscale.
pub const MASK_GRAYSCALE: u8 = 0b0000_0001;
/// Show the background in the leftmost 8 pixels.
pub const MASK_SHOW_BACKGROUND_LEFT: u8 = 0b0000_0010;
/// Show sprites in the leftmost 8 pixels.
pub const MASK_SHOW_SPRITES_LEFT: u8 = 0b0000_0100;
/// Enable background rendering.
pub const MASK_SHOW_BACKGROUND: u8 = 0b0000_1000;
/// Enable sprite rendering.
pub const MASK_SHOW_SPRITES: u8 = 0b0001_0000;
/// Emphasize red.
pub const MASK_EMPHASIZE_RED: u8 = 0b0010_0000;
/// Emphasize green.
pub const MASK_EMPHASIZE_GREEN: u8 = 0b0100_0000;
/// Emphasize blue.
pub const MASK_EMPHASIZE_BLUE: u8 = 0b1000_0000;

// PPUSTATUS ($2002 read).
/// Sprite overflow.
pub const STATUS_SPRITE_OVERFLOW: u8 = 0b0010_0000;
/// Sprite 0 hit.
pub const STATUS_SPRITE_ZERO_HIT: u8 = 0b0100_0000;
/// Vertical blank, cleared on read.
pub const STATUS_VBLANK: u8 = 0b1000_0000;

/// The base nametable number (0-3) in PPUCTRL.
pub open spec fn nametable_select(ctrl: u8) -> u8 {
    ctrl & 0x03
}

/// How far the VRAM address moves after a PPUDATA access.
pub open spec fn vram_step(ctrl: u8) -> u16 {
    if ctrl & CTRL_VRAM_INCREMENT != 0 {
        32
    } else {
        1
    }
}

/// The background pattern table's base address.
pub open spec fn background_table(ctrl: u8) -> u16 {
    if ctrl & CTRL_BACKGROUND_PATTERN_TABLE != 0 {
        0x1000
    } else {
        0x0000
    }
}

/// The 8x8 sprite pattern table's base address.
pub open spec fn sprite_table(ctrl: u8) -> u16 {
    if ctrl & CTRL_SPRITE_PATTERN_TABLE != 0 {
        0x1000
    } else {
        0x0000
    }
}

/// Sprite height in pixels.
pub open spec fn sprite_rows(ctrl: u8) -> u8 {
    if ctrl & CTRL_SPRITE_SIZE != 0 {
        16
    } else {
        8
    }
}

/// Whether either layer is being drawn.
pub open spec fn renders(mask: u8) -> bool {
    mask & (MASK_SHOW_BACKGROUND | MASK_SHOW_SPRITES) != 0
}

/// Returns whether any bit of `flag` is set in `register`.
pub fn contains(register: u8, flag: u8) -> (r: bool)
    ensures
        r == flag_is_set(register, flag),
{
    register & flag != 0
}

/// Sets (`value == true`) or clears (`value == false`) the bits of `flag`.
pub fn set(register: &mut u8, flag: u8, value: bool)
    ensures
        *final(register) == with_flag(*old(register), flag, value),
{
    if value {
        *register = *register | flag;
    } else {
        *register = *register & !flag;
    }
}

/// The base nametable number selected by PPUCTRL.
pub fn base_nametable(ctrl: u8) -> (r: u8)
    ensures
        r == nametable_select(ctrl),
        r < 4,
{
    proof {
        crate::bits::lemma_byte_bits(ctrl);
    }
    // Both nametable-select bits.
    ctrl & 0x03
}

/// The VRAM address increment: 32 (one row down) or 1 (one column across).
pub fn vram_increment(ctrl: u8) -> (r: u16)
    ensures
        r == vram_step(ctrl),
{
    if contains(ctrl, CTRL_VRAM_INCREMENT) {
        32
    } else {
        1
    }
}

/// The background pattern table address, $0000 or $1000.
pub fn background_pattern_table(ctrl: u8) -> (r: u16)
    ensures
        r == background_table(ctrl),
{
    if contains(ctrl, CTRL_BACKGROUND_PATTERN_TABLE) {
        0x1000
    } else {
        0x0000
    }
}

/// The 8x8 sprite pattern table address, $0000 or $1000.
pub fn sprite_pattern_table(ctrl: u8) -> (r: u16)
    ensures
        r == sprite_table(ctrl),
{
    if contains(ctrl, CTRL_SPRITE_PATTERN_TABLE) {
        0x1000
    } else {
        0x0000
    }
}

/// Sprite height: 8 or 16 pixels.
pub fn sprite_height(ctrl: u8) -> (r: u8)
    ensures
        r == sprite_rows(ctrl),
{
    if contains(ctrl, CTRL_SPRITE_SIZE) {
        16
    } else {
        8
    }
}

/// Whether background or sprite rendering is on.
pub fn rendering_enabled(mask: u8) -> (r: bool)
    ensures
        r == renders(mask),
{
    mask & (MASK_SHOW_BACKGROUND | MASK_SHOW_SPRITES) != 0
}

/// PPUCTRL's bits: bit 2 makes VRAM accesses step by 32 (a nametable row)
/// instead of 1, bit 3 puts 8x8 sprite patterns at $1000, bit 4 puts
/// background patterns at $1000, and bit 5 makes sprites 16 pixels tall.
/// PPUMASK bits 3 and 4 turn on the background and the sprites.
pub proof fn lemma_control_bits(ctrl: u8, mask: u8)
    ensures
        vram_step(ctrl) == if (ctrl / 4) % 2 == 1 {
            32u16
        } else {
            1u16
        },
        sprite_table(ctrl) == if (ctrl / 8) % 2 == 1 {
            0x1000u16
        } else {
            0u16
        },
        background_table(ctrl) == if (ctrl / 16) % 2 == 1 {
            0x1000u16
        } else {
            0u16
        },
        sprite_rows(ctrl) == if (ctrl / 32) % 2 == 1 {
            16u8
        } else {
            8u8
        },
        renders(mask) == ((mask / 8) % 2 == 1 || (mask / 16) % 2 == 1),
{
    assert({
        &&& (ctrl & 0x04 != 0) == ((ctrl / 4) % 2 == 1)
        &&& (ctrl & 0x08 != 0) == ((ctrl / 8) % 2 == 1)
        &&& (ctrl & 0x10 != 0) == ((ctrl / 16) % 2 == 1)
        &&& (ctrl & 0x20 != 0) == ((ctrl / 32) % 2 == 1)
        &&& (mask & (0x08u8 | 0x10u8) != 0) == ((mask / 8) % 2 == 1 || (mask / 16) % 2 == 1)
    }) by (bit_vector);
}

} // verus!
