//! Background fetching, scrolling and pixel composition.

use vstd::prelude::*;

use crate::bits::with_flag;
use crate::bus::add16;
use crate::ppu::flags::{
    background_pattern_table, background_table, contains, MASK_SHOW_BACKGROUND,
    MASK_SHOW_BACKGROUND_LEFT, STATUS_SPRITE_ZERO_HIT,
};
use crate::ppu::palette::{nes_color, palette_color};
use crate::ppu::sprites::SpritePixel;
use crate::ppu::{Ppu, PpuView, SCREEN_HEIGHT, SCREEN_WIDTH};

verus! {

/// The bit of a background shift register that fine X scroll `fine_x` selects
/// (bit 15 for fine X 0, moving right as fine X grows), as 0 or 1.
pub open spec fn shift_bit(shift: u16, fine_x: u8) -> u8 {
    if fine_x < 16 && shift & (0x8000u16 >> fine_x) != 0 {
        1
    } else {
        0
    }
}

/// The palette RAM address of colour `pixel` of palette `palette`, starting
/// at `base` ($3F00 for the background, $3F10 for sprites).
pub open spec fn palette_address(base: u16, palette: u8, pixel: u8) -> u16 {
    (base + palette * 4 + pixel) as u16
}

impl PpuView {
    /// The nametable byte of the tile the VRAM address points at.
    pub open spec fn fetch_nametable_byte(self) -> PpuView {
        let (byte, bus) = self.bus.read(0x2000 | (self.v & 0x0FFF));
        PpuView { next_tile_id: byte, bus, ..self }
    }

    /// The attribute-table address for the current tile: the 32x32-pixel block
    /// of the nametable that coarse X and coarse Y fall in.
    pub open spec fn attribute_address(v: u16) -> u16 {
        0x23C0 | (v & 0x0C00) | ((v >> 4u16) & 0x38) | ((v >> 2u16) & 0x07)
    }

    /// The 2-bit palette number of the current tile, taken from its quadrant of
    /// the attribute byte.
    pub open spec fn fetch_attribute_byte(self) -> PpuView {
        let (byte, bus) = self.bus.read(Self::attribute_address(self.v));
        let shift = ((self.v >> 4u16) & 0x04) | (self.v & 0x02);
        PpuView { next_tile_attr: (byte >> shift) & 0x03, bus, ..self }
    }

    /// The address of the current tile's row in the background pattern table
    /// (`plane` 0: low bits, 8: high bits).
    pub open spec fn pattern_address(self, plane: u16) -> u16 {
        (background_table(self.ctrl) + self.next_tile_id * 16 + ((self.v >> 12u16) & 0x07)
            + plane) as u16
    }

    pub open spec fn fetch_pattern_lo(self) -> PpuView {
        let (byte, bus) = self.bus.read(self.pattern_address(0));
        PpuView { next_tile_lo: byte, bus, ..self }
    }

    pub open spec fn fetch_pattern_hi(self) -> PpuView {
        let (byte, bus) = self.bus.read(self.pattern_address(8));
        PpuView { next_tile_hi: byte, bus, ..self }
    }

    /// The fetched tile enters the low halves of the shift registers; its
    /// palette bits are spread to $00 or $FF.
    pub open spec fn reload_shift_registers(self) -> PpuView {
        PpuView {
            bg_pattern_shift_lo: (self.bg_pattern_shift_lo & 0xFF00) | (self.next_tile_lo as u16),
            bg_pattern_shift_hi: (self.bg_pattern_shift_hi & 0xFF00) | (self.next_tile_hi as u16),
            bg_attr_shift_lo: (self.bg_attr_shift_lo & 0xFF00) | if self.next_tile_attr & 0b01 != 0 {
                0xFFu16
            } else {
                0x00u16
            },
            bg_attr_shift_hi: (self.bg_attr_shift_hi & 0xFF00) | if self.next_tile_attr & 0b10 != 0 {
                0xFFu16
            } else {
                0x00u16
            },
            ..self
        }
    }

    /// All four background shift registers move one bit left.
    pub open spec fn shift_register(self) -> PpuView {
        PpuView {
            bg_pattern_shift_lo: self.bg_pattern_shift_lo << 1u16,
            bg_pattern_shift_hi: self.bg_pattern_shift_hi << 1u16,
            bg_attr_shift_lo: self.bg_attr_shift_lo << 1u16,
            bg_attr_shift_hi: self.bg_attr_shift_hi << 1u16,
            ..self
        }
    }

    /// Coarse X moves one tile right; past column 31 it returns to 0 and the
    /// horizontal nametable bit flips.
    pub open spec fn increment_coarse_x(self) -> PpuView {
        PpuView {
            v: if self.v & 0x001F == 31 {
                (self.v & !0x001Fu16) ^ 0x0400
            } else {
                add16(self.v, 1)
            },
            ..self
        }
    }

    /// Fine Y moves one row down; past row 7 it returns to 0 and coarse Y moves
    /// down a tile, wrapping after row 29 (flipping the vertical nametable bit)
    /// or after row 31 (without flipping it).
    pub open spec fn increment_y(self) -> PpuView {
        PpuView {
            v: if self.v & 0x7000 != 0x7000 {
                (self.v + 0x1000) as u16
            } else {
                let v = self.v & !0x7000u16;
                let coarse_y = (v & 0x03E0) >> 5u16;
                let (v, coarse_y) = if coarse_y == 29 {
                    (v ^ 0x0800, 0u16)
                } else if coarse_y == 31 {
                    (v, 0u16)
                } else {
                    (v, (coarse_y + 1) as u16)
                };
                (v & !0x03E0u16) | (coarse_y << 5u16)
            },
            ..self
        }
    }

    /// Coarse X and the horizontal nametable bit come back from `t`.
    pub open spec fn copy_horizontal_bits(self) -> PpuView {
        PpuView { v: (self.v & !0x041Fu16) | (self.t & 0x041F), ..self }
    }

    /// Fine Y, coarse Y and the vertical nametable bit come back from `t`.
    pub open spec fn copy_vertical_bits(self) -> PpuView {
        PpuView { v: (self.v & !0x7BE0u16) | (self.t & 0x7BE0), ..self }
    }

    /// One step of the 8-dot background fetch sequence, chosen by the dot.
    pub open spec fn fetch_background_tile(self) -> PpuView {
        let step = self.cycle % 8;
        if step == 1 {
            self.fetch_nametable_byte()
        } else if step == 3 {
            self.fetch_attribute_byte()
        } else if step == 5 {
            self.fetch_pattern_lo()
        } else if step == 7 {
            self.fetch_pattern_hi()
        } else if step == 0 {
            self.reload_shift_registers().increment_coarse_x()
        } else {
            self
        }
    }

    /// The background's 2-bit colour index at the current dot.
    pub open spec fn background_pixel(self) -> u8 {
        (shift_bit(self.bg_pattern_shift_hi, self.x) * 2 + shift_bit(
            self.bg_pattern_shift_lo,
            self.x,
        )) as u8
    }

    /// The background's palette number at the current dot.
    pub open spec fn background_palette(self) -> u8 {
        (shift_bit(self.bg_attr_shift_hi, self.x) * 2 + shift_bit(self.bg_attr_shift_lo, self.x))
            as u8
    }

    /// Whether the background covers column `x`: it is on, not transparent there,
    /// and not masked out of the leftmost 8 columns.
    pub open spec fn background_opaque(self, x: int) -> bool {
        &&& self.mask & MASK_SHOW_BACKGROUND != 0
        &&& self.background_pixel() != 0
        &&& (x >= 8 || self.mask & MASK_SHOW_BACKGROUND_LEFT != 0)
    }

    /// The palette RAM address of the colour shown at column `x`, and the
    /// status register after sprite-zero hit detection: an opaque sprite pixel
    /// wins over a transparent background, the background wins over a sprite
    /// marked "behind", and an opaque sprite 0 over an opaque background (but
    /// not in column 255) sets the sprite-zero hit flag.
    pub open spec fn pixel_source(self, x: int) -> (u16, u8) {
        let bg_address = palette_address(0x3F00, self.background_palette(), self.background_pixel());
        match self.sprite_pixel(x) {
            Some(s) => {
                let sprite_address = palette_address(0x3F10, s.palette, s.pixel);
                if !self.background_opaque(x) {
                    (sprite_address, self.status)
                } else {
                    (
                        if s.hidden {
                            bg_address
                        } else {
                            sprite_address
                        },
                        if s.is_sprite_zero && x != 255 {
                            with_flag(self.status, STATUS_SPRITE_ZERO_HIT, true)
                        } else {
                            self.status
                        },
                    )
                }
            },
            None => (
                if self.background_opaque(x) {
                    bg_address
                } else {
                    0x3F00
                },
                self.status,
            ),
        }
    }

    /// Draws the pixel at the current position (column `cycle - 1`, row
    /// `scanline`): its colour is looked up in palette RAM and stored in the
    /// picture when the position is on screen.
    pub open spec fn render_pixel(self) -> PpuView {
        let x = self.cycle - 1;
        let y = self.scanline as int;
        let (address, status) = self.pixel_source(x);
        let (byte, bus) = self.bus.read(address);
        let index = y * 256 + x;
        PpuView {
            status,
            bus,
            frame_buffer: if x < 256 && y < 240 && index < self.frame_buffer.len() {
                self.frame_buffer.update(index, nes_color(byte & 0x3F))
            } else {
                self.frame_buffer
            },
            ..self
        }
    }
}

impl Ppu {
    /// Fetches the next tile number from the current nametable.
    ///
    /// The low 12 bits of `v` hold the scroll position; together with $2000
    /// they address the nametable entry of the tile being drawn.
    pub fn fetch_nametable_byte(&mut self)
        ensures
            final(self)@ == old(self)@.fetch_nametable_byte(),
    {
        let address = 0x2000 | (self.v & 0x0FFF);
        self.next_tile_id = self.bus.read(address);
    }

    /// Fetches the attribute byte of the current tile and keeps the 2-bit
    /// palette number of its quadrant.
    ///
    /// Attribute tables start at $23C0 in each nametable and give each 32x32
    /// pixel block four 2-bit palette selectors.
    pub fn fetch_attribute_byte(&mut self)
        ensures
            final(self)@ == old(self)@.fetch_attribute_byte(),
    {
        let address = 0x23C0 | (self.v & 0x0C00) | ((self.v >> 4) & 0x38) | ((self.v >> 2) & 0x07);
        let byte = self.bus.read(address);
        proof {
            crate::bits::lemma_word_bits(self.v);
        }
        let shift = ((self.v >> 4) & 0x04) | (self.v & 0x02);
        self.next_tile_attr = (byte >> shift) & 0x03;
    }

    /// Fetches the low pattern byte (first bitplane) of the current tile row.
    pub fn fetch_pattern_lo(&mut self)
        ensures
            final(self)@ == old(self)@.fetch_pattern_lo(),
    {
        let fine_y = (self.v >> 12) & 0x07;
        proof {
            crate::bits::lemma_word_bits(self.v);
        }
        let address = background_pattern_table(self.ctrl) + (self.next_tile_id as u16 * 16) + fine_y;
        self.next_tile_lo = self.bus.read(address);
    }

    /// Fetches the high pattern byte (second bitplane, 8 bytes later).
    pub fn fetch_pattern_hi(&mut self)
        ensures
            final(self)@ == old(self)@.fetch_pattern_hi(),
    {
        let fine_y = (self.v >> 12) & 0x07;
        proof {
            crate::bits::lemma_word_bits(self.v);
        }
        let address = background_pattern_table(self.ctrl) + (self.next_tile_id as u16 * 16) + fine_y
            + 8;
        self.next_tile_hi = self.bus.read(address);
    }

    /// Loads the tile fetched during the last 8-dot sequence into the low
    /// halves of the background shift registers.
    ///
    /// The current tile sits in the upper halves while the next one is loaded
    /// below it; the attribute bits are spread to $00 or $FF so that they shift
    /// along with the pattern bits.
    pub fn reload_shift_registers(&mut self)
        ensures
            final(self)@ == old(self)@.reload_shift_registers(),
    {
        self.bg_pattern_shift_lo = (self.bg_pattern_shift_lo & 0xFF00) | self.next_tile_lo as u16;
        self.bg_pattern_shift_hi = (self.bg_pattern_shift_hi & 0xFF00) | self.next_tile_hi as u16;
        let attr_lo_fill: u16 = if self.next_tile_attr & 0b01 != 0 {
            0xFF
        } else {
            0x00
        };
        let attr_hi_fill: u16 = if self.next_tile_attr & 0b10 != 0 {
            0xFF
        } else {
            0x00
        };
        self.bg_attr_shift_lo = (self.bg_attr_shift_lo & 0xFF00) | attr_lo_fill;
        self.bg_attr_shift_hi = (self.bg_attr_shift_hi & 0xFF00) | attr_hi_fill;
    }

    /// Advances the background by one pixel: the shift registers move left and
    /// the next pixel appears at the top bit (fine X only changes which bit
    /// is sampled).
    pub fn shift_register(&mut self)
        ensures
            final(self)@ == old(self)@.shift_register(),
            final(self).cycle == old(self).cycle,
            final(self).scanline == old(self).scanline,
    {
        self.bg_pattern_shift_lo = self.bg_pattern_shift_lo << 1;
        self.bg_pattern_shift_hi = self.bg_pattern_shift_hi << 1;
        self.bg_attr_shift_lo = self.bg_attr_shift_lo << 1;
        self.bg_attr_shift_hi = self.bg_attr_shift_hi << 1;
    }

    /// Increments the coarse X part of the VRAM address: after column 31 it
    /// goes back to column 0 and switches to the horizontally adjacent nametable.
    pub fn increment_coarse_x(&mut self)
        ensures
            final(self)@ == old(self)@.increment_coarse_x(),
    {
        if self.v & 0x001F == 31 {
            self.v = self.v & !0x001F;
            self.v = self.v ^ 0x0400;
        } else {
            self.v = self.v.wrapping_add(1);
        }
    }

    /// Increments the vertical scroll of the VRAM address.
    ///
    /// Fine Y (bits 12-14) picks the row within a tile; after row 7 it goes back
    /// to 0 and coarse Y (bits 5-9) moves down a tile. After tile row 29 coarse
    /// Y wraps to 0 and the vertical nametable bit flips; rows 30 and 31 are not
    /// displayed and wrap without changing nametables.
    pub fn increment_y(&mut self)
        ensures
            final(self)@ == old(self)@.increment_y(),
            final(self).cycle == old(self).cycle,
            final(self).scanline == old(self).scanline,
    {
        if self.v & 0x7000 != 0x7000 {
            proof {
                crate::bits::lemma_word_bits(self.v);
            }
            self.v = self.v + 0x1000;
        } else {
            self.v = self.v & !0x7000;
            let mut coarse_y = (self.v & 0x03E0) >> 5;
            proof {
                crate::bits::lemma_word_bits(self.v);
            }
            if coarse_y == 29 {
                coarse_y = 0;
                self.v = self.v ^ 0x0800;
            } else if coarse_y == 31 {
                coarse_y = 0;
            } else {
                coarse_y = coarse_y + 1;
            }
            self.v = (self.v & !0x03E0) | (coarse_y << 5);
        }
    }

    /// Copies the horizontal scroll bits (coarse X and the horizontal nametable
    /// bit) from `t` into `v`, as happens at dot 257 of each rendered line.
    pub fn copy_horizontal_bits(&mut self)
        ensures
            final(self)@ == old(self)@.copy_horizontal_bits(),
            final(self).cycle == old(self).cycle,
            final(self).scanline == old(self).scanline,
    {
        self.v = (self.v & !0x041F) | (self.t & 0x041F);
    }

    /// Copies the vertical scroll bits (fine Y, coarse Y and the vertical
    /// nametable bit) from `t` into `v`, as happens during dots 280-304 of the
    /// pre-render line.
    pub fn copy_vertical_bits(&mut self)
        ensures
            final(self)@ == old(self)@.copy_vertical_bits(),
            final(self).cycle == old(self).cycle,
            final(self).scanline == old(self).scanline,
    {
        self.v = (self.v & !0x7BE0) | (self.t & 0x7BE0);
    }

    /// Runs one step of the background fetch sequence that repeats every 8 dots
    /// while rendering.
    pub fn fetch_background_tile(&mut self)
        ensures
            final(self)@ == old(self)@.fetch_background_tile(),
            final(self).cycle == old(self).cycle,
            final(self).scanline == old(self).scanline,
    {
        let step = self.cycle % 8;
        if step == 1 {
            self.fetch_nametable_byte();
        } else if step == 3 {
            self.fetch_attribute_byte();
        } else if step == 5 {
            self.fetch_pattern_lo();
        } else if step == 7 {
            self.fetch_pattern_hi();
        } else if step == 0 {
            self.reload_shift_registers();
            self.increment_coarse_x();
        }
    }

    /// The background's colour index and palette number at the current dot.
    fn background_sample(&self) -> (r: (u8, u8))
        ensures
            r == (self@.background_pixel(), self@.background_palette()),
            r.0 < 4,
            r.1 < 4,
    {
        let bit_mux: u16 = if self.x < 16 {
            0x8000u16 >> self.x
        } else {
            0
        };
        proof {
            let (s_lo, s_hi, a_lo, a_hi) = (
                self.bg_pattern_shift_lo,
                self.bg_pattern_shift_hi,
                self.bg_attr_shift_lo,
                self.bg_attr_shift_hi,
            );
            assert(s_lo & 0u16 == 0 && s_hi & 0u16 == 0 && a_lo & 0u16 == 0 && a_hi & 0u16 == 0)
                by (bit_vector);
        }
        let pattern_lo: u8 = if self.bg_pattern_shift_lo & bit_mux != 0 {
            1
        } else {
            0
        };
        let pattern_hi: u8 = if self.bg_pattern_shift_hi & bit_mux != 0 {
            1
        } else {
            0
        };
        let attr_lo: u8 = if self.bg_attr_shift_lo & bit_mux != 0 {
            1
        } else {
            0
        };
        let attr_hi: u8 = if self.bg_attr_shift_hi & bit_mux != 0 {
            1
        } else {
            0
        };
        (pattern_hi * 2 + pattern_lo, attr_hi * 2 + attr_lo)
    }

    /// The palette RAM address of the colour shown at column `x`, and the
    /// status register after sprite-zero hit detection.
    fn pixel_source(&self, x: usize) -> (r: (u16, u8))
        ensures
            r == self@.pixel_source(x as int),
    {
        let (bg_pixel, bg_palette) = self.background_sample();
        let bg_opaque = contains(self.mask, MASK_SHOW_BACKGROUND) && bg_pixel != 0 && (x >= 8
            || contains(self.mask, MASK_SHOW_BACKGROUND_LEFT));
        let bg_address = 0x3F00 + bg_palette as u16 * 4 + bg_pixel as u16;
        let mut status = self.status;
        match self.sprite_pixel(x) {
            Some(s) => {
                proof {
                    self@.lemma_sprite_pixel_small(x as int);
                }
                let sprite_address = 0x3F10 + s.palette as u16 * 4 + s.pixel as u16;
                if !bg_opaque {
                    (sprite_address, status)
                } else {
                    if s.is_sprite_zero && x != 255 {
                        crate::ppu::flags::set(&mut status, STATUS_SPRITE_ZERO_HIT, true);
                    }
                    if s.hidden {
                        (bg_address, status)
                    } else {
                        (sprite_address, status)
                    }
                }
            },
            None => {
                if bg_opaque {
                    (bg_address, status)
                } else {
                    (0x3F00, status)
                }
            },
        }
    }

    /// Renders the pixel (background and sprite) at the current screen position.
    pub fn render_pixel(&mut self)
        requires
            old(self).cycle >= 1,
        ensures
            final(self)@ == old(self)@.render_pixel(),
            final(self).cycle == old(self).cycle,
            final(self).scanline == old(self).scanline,
    {
        let x = (self.cycle - 1) as usize;
        let y = self.scanline as usize;
        let (address, status) = self.pixel_source(x);
        self.status = status;
        let byte = self.bus.read(address);
        let color_index = byte & 0x3F;
        if x < SCREEN_WIDTH && y < SCREEN_HEIGHT {
            let index = y * SCREEN_WIDTH + x;
            if index < self.frame_buffer.len() {
                proof {
                    crate::bits::lemma_byte_bits(byte);
                    crate::bits::lemma_byte_bits(color_index);
                }
                self.frame_buffer.set(index, palette_color(color_index));
            }
        }
    }
}


impl PpuView {
    /// Coarse X steps through the 32 tile columns of a nametable: below column
    /// 31 it moves one column right; after column 31 it returns to column 0 and
    /// the horizontal nametable bit flips. No other bit of `v` changes.
    pub proof fn lemma_increment_coarse_x(self)
        ensures
            self.v & 0x1F < 31 ==> self.increment_coarse_x().v & 0x1F == (self.v & 0x1F) + 1
                && self.increment_coarse_x().v & !0x001Fu16 == self.v & !0x001Fu16,
            self.v & 0x1F == 31 ==> self.increment_coarse_x().v & 0x1F == 0
                && self.increment_coarse_x().v & 0x0400 != self.v & 0x0400
                && self.increment_coarse_x().v & !0x041Fu16 == self.v & !0x041Fu16,
    {
        let v = self.v;
        let r = self.increment_coarse_x().v;
        assert(r == if v & 0x001F == 31 {
            (v & !0x001Fu16) ^ 0x0400
        } else {
            add16(v, 1)
        });
        assert({
            &&& v & 0x1F < 31 ==> v < 0xFFFF
            &&& v & 0x1F < 31 ==> ((v + 1) as u16) & 0x1F == (v & 0x1F) + 1 && ((v + 1) as u16)
                & !0x001Fu16 == v & !0x001Fu16
            &&& v & 0x1F == 31 ==> ((v & !0x001Fu16) ^ 0x0400) & 0x1F == 0 && ((v & !0x001Fu16)
                ^ 0x0400) & 0x0400 != v & 0x0400 && ((v & !0x001Fu16) ^ 0x0400) & !0x041Fu16 == v
                & !0x041Fu16
        }) by (bit_vector);
        assert(v & 0x1F < 31 ==> add16(v, 1) == (v + 1) as u16);
    }

    /// Fine Y (bits 12-14) steps through the 8 rows of a tile; after row 7 it
    /// returns to 0 and coarse Y (bits 5-9) moves down a tile row. After row 29
    /// coarse Y wraps to 0 and the vertical nametable bit flips; rows 30 and 31
    /// (attribute memory, never displayed) wrap to 0 without flipping it. Coarse
    /// X, the horizontal nametable bit and bit 15 never change, nor does
    /// anything of the PPU but `v`.
    pub proof fn lemma_increment_y(self)
        ensures
            self.increment_y() == (PpuView { v: self.increment_y().v, ..self }),
            ({
                let v = self.v;
                let r = self.increment_y().v;
                let fine = (v >> 12u16) & 0x07;
                let coarse = (v >> 5u16) & 0x1F;
                &&& r & 0x041F == v & 0x041F
                &&& r & 0x8000 == v & 0x8000
                &&& fine < 7 ==> (r >> 12u16) & 0x07 == fine + 1 && r & 0x0FFF == v & 0x0FFF
                &&& fine == 7 ==> (r >> 12u16) & 0x07 == 0
                &&& fine == 7 && coarse == 29 ==> (r >> 5u16) & 0x1F == 0 && r & 0x0800 != v
                    & 0x0800
                &&& fine == 7 && coarse == 31 ==> (r >> 5u16) & 0x1F == 0 && r & 0x0800 == v
                    & 0x0800
                &&& fine == 7 && coarse != 29 && coarse != 31 ==> (r >> 5u16) & 0x1F == coarse + 1
                    && r & 0x0800 == v & 0x0800
            }),
    {
        let v = self.v;
        let r = self.increment_y().v;
        crate::bits::lemma_word_bits(v);
        assert(r == if v & 0x7000 != 0x7000 {
            (v + 0x1000) as u16
        } else if ((v & !0x7000u16) & 0x03E0) >> 5u16 == 29 {
            ((v & !0x7000u16) ^ 0x0800) & !0x03E0u16
        } else if ((v & !0x7000u16) & 0x03E0) >> 5u16 == 31 {
            (v & !0x7000u16) & !0x03E0u16
        } else {
            ((v & !0x7000u16) & !0x03E0u16) | (((((v & !0x7000u16) & 0x03E0) >> 5u16) + 1) as u16)
                << 5u16
        }) by {
            let w = v & !0x7000u16;
            assert(w & !0x03E0u16 | (0u16 << 5u16) == w & !0x03E0u16) by (bit_vector);
            assert((w ^ 0x0800) & !0x03E0u16 | (0u16 << 5u16) == (w ^ 0x0800) & !0x03E0u16)
                by (bit_vector);
            assert((w ^ 0x0800) & 0x03E0 == w & 0x03E0) by (bit_vector);
        }
        assert({
            let fine = (v >> 12u16) & 0x07;
            let coarse = (v >> 5u16) & 0x1F;
            let r = if v & 0x7000 != 0x7000 {
                (v + 0x1000) as u16
            } else if ((v & !0x7000u16) & 0x03E0) >> 5u16 == 29 {
                ((v & !0x7000u16) ^ 0x0800) & !0x03E0u16
            } else if ((v & !0x7000u16) & 0x03E0) >> 5u16 == 31 {
                (v & !0x7000u16) & !0x03E0u16
            } else {
                ((v & !0x7000u16) & !0x03E0u16) | (((((v & !0x7000u16) & 0x03E0) >> 5u16) + 1)
                    as u16) << 5u16
            };
            &&& r & 0x041F == v & 0x041F
            &&& r & 0x8000 == v & 0x8000
            &&& fine < 7 ==> (r >> 12u16) & 0x07 == fine + 1 && r & 0x0FFF == v & 0x0FFF
            &&& fine == 7 ==> (r >> 12u16) & 0x07 == 0
            &&& fine == 7 && coarse == 29 ==> (r >> 5u16) & 0x1F == 0 && r & 0x0800 != v & 0x0800
            &&& fine == 7 && coarse == 31 ==> (r >> 5u16) & 0x1F == 0 && r & 0x0800 == v & 0x0800
            &&& fine == 7 && coarse != 29 && coarse != 31 ==> (r >> 5u16) & 0x1F == coarse + 1 && r
                & 0x0800 == v & 0x0800
        }) by (bit_vector);
    }

    /// Background pattern bytes: the fetched tile's row is at 16 bytes per
    /// tile in the table PPUCTRL bit 4 selects ($0000 or $1000), at the row
    /// fine Y (bits 12-14 of `v`) gives; the high plane is 8 bytes on.
    pub proof fn lemma_background_pattern_address(self, plane: u16)
        requires
            plane == 0 || plane == 8,
        ensures
            self.pattern_address(plane) == (if (self.ctrl / 16) % 2 == 1 {
                0x1000int
            } else {
                0
            }) + 16 * self.next_tile_id + (self.v / 0x1000) % 8 + plane,
    {
        crate::ppu::flags::lemma_control_bits(self.ctrl, self.mask);
        crate::bits::lemma_word_bits(self.v);
    }

    /// Tile fetches: the nametable byte is read at $2000 plus the low 12 bits
    /// of `v`; the attribute byte is read at the attribute address, and the
    /// tile's palette is the 2-bit field of it that the tile's quadrant
    /// selects (bits 0-1 top left, 2-3 top right, 4-5 bottom left, 6-7 bottom
    /// right, by bit 1 of coarse X and of coarse Y).
    pub proof fn lemma_tile_fetches(self)
        ensures
            self.fetch_nametable_byte() == (PpuView {
                next_tile_id: self.bus.read((0x2000 + self.v % 0x1000) as u16).0,
                bus: self.bus.read((0x2000 + self.v % 0x1000) as u16).1,
                ..self
            }),
            ({
                let byte = self.bus.read(Self::attribute_address(self.v)).0;
                let quadrant = 2 * (((self.v / 32) % 32) / 2 % 2) + (self.v % 32) / 2 % 2;
                let f = self.fetch_attribute_byte();
                &&& f == (PpuView {
                    next_tile_attr: f.next_tile_attr,
                    bus: self.bus.read(Self::attribute_address(self.v)).1,
                    ..self
                })
                &&& f.next_tile_attr == if quadrant == 0 {
                    byte % 4
                } else if quadrant == 1 {
                    (byte / 4) % 4
                } else if quadrant == 2 {
                    (byte / 16) % 4
                } else {
                    byte / 64
                }
            }),
    {
        let v = self.v;
        let byte = self.bus.read(Self::attribute_address(v)).0;
        assert({
            &&& 0x2000u16 | (v & 0x0FFF) == 0x2000 + v % 0x1000
            &&& ((v >> 4u16) & 0x04) | (v & 0x02) == 4 * (((v / 32) % 32) / 2 % 2) + 2 * ((v % 32) / 2
                % 2)
            &&& (byte >> 0u16) & 0x03 == byte % 4
            &&& (byte >> 2u16) & 0x03 == (byte / 4) % 4
            &&& (byte >> 4u16) & 0x03 == (byte / 16) % 4
            &&& (byte >> 6u16) & 0x03 == byte / 64
        }) by (bit_vector);
    }

    /// Reloading puts the fetched tile into the low bytes of the background
    /// shift registers (its pattern bytes, and each palette bit spread to $00
    /// or $FF) and leaves their high bytes, and the rest of the PPU, alone.
    pub proof fn lemma_reload_shift_registers(self)
        ensures
            ({
                let r = self.reload_shift_registers();
                &&& r == (PpuView {
                    bg_pattern_shift_lo: r.bg_pattern_shift_lo,
                    bg_pattern_shift_hi: r.bg_pattern_shift_hi,
                    bg_attr_shift_lo: r.bg_attr_shift_lo,
                    bg_attr_shift_hi: r.bg_attr_shift_hi,
                    ..self
                })
                &&& r.bg_pattern_shift_lo == (self.bg_pattern_shift_lo & 0xFF00) + self.next_tile_lo
                &&& r.bg_pattern_shift_hi == (self.bg_pattern_shift_hi & 0xFF00) + self.next_tile_hi
                &&& r.bg_attr_shift_lo == (self.bg_attr_shift_lo & 0xFF00) + if self.next_tile_attr
                    & 0b01 != 0 {
                    0xFFu16
                } else {
                    0u16
                }
                &&& r.bg_attr_shift_hi == (self.bg_attr_shift_hi & 0xFF00) + if self.next_tile_attr
                    & 0b10 != 0 {
                    0xFFu16
                } else {
                    0u16
                }
            }),
    {
        assert(forall|w: u16, b: u8| #[trigger] ((w & 0xFF00) | (b as u16)) == (w & 0xFF00) + b)
            by (bit_vector);
        assert(forall|w: u16, b: u16|
            b <= 0xFF ==> #[trigger] ((w & 0xFF00) | b) == (w & 0xFF00) + b) by (bit_vector);
    }

    /// The scroll copies move exactly their fields from `t` into `v`: the
    /// horizontal copy coarse X and the horizontal nametable bit, the vertical
    /// copy fine Y, coarse Y and the vertical nametable bit.
    pub proof fn lemma_scroll_copies(self)
        ensures
            self.copy_horizontal_bits().v & 0x041F == self.t & 0x041F,
            self.copy_horizontal_bits().v & 0x7BE0 == self.v & 0x7BE0,
            self.copy_vertical_bits().v & 0x7BE0 == self.t & 0x7BE0,
            self.copy_vertical_bits().v & 0x041F == self.v & 0x041F,
    {
        let (v, t) = (self.v, self.t);
        assert({
            &&& ((v & !0x041Fu16) | (t & 0x041F)) & 0x041F == t & 0x041F
            &&& ((v & !0x041Fu16) | (t & 0x041F)) & 0x7BE0 == v & 0x7BE0
            &&& ((v & !0x7BE0u16) | (t & 0x7BE0)) & 0x7BE0 == t & 0x7BE0
            &&& ((v & !0x7BE0u16) | (t & 0x7BE0)) & 0x041F == v & 0x041F
        }) by (bit_vector);
    }

    /// None of the background steps touches the dot, line and frame counters or
    /// PPUMASK.
    pub proof fn lemma_background_steps_keep_timing(self)
        ensures
            self.render_pixel().same_timing(self),
            self.shift_register().same_timing(self),
            self.fetch_background_tile().same_timing(self),
            self.increment_y().same_timing(self),
            self.copy_horizontal_bits().same_timing(self),
            self.copy_vertical_bits().same_timing(self),
    {
    }
}


impl PpuView {
    /// Pixel priority: where the background is transparent an opaque sprite
    /// pixel shows; over an opaque background a sprite marked "behind" is
    /// hidden; sprite-zero hit is raised exactly when sprite 0 is opaque over
    /// an opaque background, except in column 255.
    pub proof fn lemma_pixel_priority(self, x: int)
        ensures
            self.sprite_pixel(x) is Some && !self.background_opaque(x) ==> self.pixel_source(x).0
                == palette_address(
                0x3F10,
                self.sprite_pixel(x)->0.palette,
                self.sprite_pixel(x)->0.pixel,
            ),
            self.sprite_pixel(x) is Some && self.background_opaque(x) && self.sprite_pixel(x)->0.hidden
                ==> self.pixel_source(x).0 == palette_address(
                0x3F00,
                self.background_palette(),
                self.background_pixel(),
            ),
            self.sprite_pixel(x) is None && !self.background_opaque(x) ==> self.pixel_source(x).0
                == 0x3F00,
            self.pixel_source(x).1 != self.status ==> self.sprite_pixel(x) is Some
                && self.sprite_pixel(x)->0.is_sprite_zero && self.background_opaque(x) && x != 255,
    {
    }
}


impl PpuView {
    /// Attribute lookup: the byte for the current tile sits at $23C0 of the
    /// current nametable, row coarse Y / 4 and column coarse X / 4 of the 8x8
    /// attribute grid, and the tile's 2-bit palette is the quadrant that bit 1
    /// of coarse X (right half) and bit 1 of coarse Y (bottom half) select.
    pub proof fn lemma_attribute_quadrant(self)
        ensures
            ({
                let v = self.v;
                let coarse_x = v & 0x1F;
                let coarse_y = (v >> 5u16) & 0x1F;
                &&& Self::attribute_address(v) == 0x23C0 + (v & 0x0C00) + (coarse_y / 4) * 8 + coarse_x
                    / 4
                &&& ((v >> 4u16) & 0x04) | (v & 0x02) == (if coarse_y & 0x02 != 0 {
                    4u16
                } else {
                    0u16
                }) + (if coarse_x & 0x02 != 0 {
                    2u16
                } else {
                    0u16
                })
            }),
    {
        let v = self.v;
        assert({
            let coarse_x = v & 0x1F;
            let coarse_y = (v >> 5u16) & 0x1F;
            &&& 0x23C0 | (v & 0x0C00) | ((v >> 4u16) & 0x38) | ((v >> 2u16) & 0x07) == 0x23C0 + (v
                & 0x0C00) + (coarse_y / 4) * 8 + coarse_x / 4
            &&& ((v >> 4u16) & 0x04) | (v & 0x02) == (if coarse_y & 0x02 != 0 {
                4u16
            } else {
                0u16
            }) + (if coarse_x & 0x02 != 0 {
                2u16
            } else {
                0u16
            })
        }) by (bit_vector);
    }
}

} // verus!
