//! Sprite evaluation, pattern fetching and the per-pixel sprite pipeline.

use vstd::prelude::*;

use crate::bits::with_flag;
use crate::bus::{add16, sub16};
use crate::ppu::flags::{
    sprite_height, sprite_pattern_table, sprite_rows, sprite_table, MASK_SHOW_SPRITES,
    MASK_SHOW_SPRITES_LEFT, STATUS_SPRITE_OVERFLOW,
};
use crate::ppu::{filled, Ppu, PpuView};

verus! {

/// Maximum number of sprites that can be displayed on a single scanline.
pub const MAX_SPRITES_PER_SCANLINE: usize = 8;

/// Highest-priority, non-transparent sprite pixel for the current screen position.
#[derive(Clone, Copy, Debug, PartialEq, Eq, Structural)]
pub struct SpritePixel {
    /// 2-bit colour index from the sprite's palette (never 0: transparent
    /// pixels are skipped).
    pub pixel: u8,
    /// Which of the four sprite palettes (0-3) this pixel comes from.
    pub palette: u8,
    /// True if the sprite is drawn behind an opaque background pixel.
    pub hidden: bool,
    /// Whether this pixel belongs to sprite 0 (for sprite-zero hit).
    pub is_sprite_zero: bool,
}

/// `b` with its bit order reversed (bit 0 becomes bit 7 and so on), which
/// flips a row of sprite pixels horizontally.
pub open spec fn reverse_byte(b: u8) -> u8 {
    ((b & 0x01) << 7u8) | ((b & 0x02) << 5u8) | ((b & 0x04) << 3u8) | ((b & 0x08) << 1u8) | ((b
        & 0x10) >> 1u8) | ((b & 0x20) >> 3u8) | ((b & 0x40) >> 5u8) | ((b & 0x80) >> 7u8)
}

/// Reverses the bit order of a byte.
pub fn reverse_bits(b: u8) -> (r: u8)
    ensures
        r == reverse_byte(b),
{
    ((b & 0x01) << 7) | ((b & 0x02) << 5) | ((b & 0x04) << 3) | ((b & 0x08) << 1) | ((b & 0x10)
        >> 1) | ((b & 0x20) >> 3) | ((b & 0x40) >> 5) | ((b & 0x80) >> 7)
}

/// Reversing twice gives the byte back, and the outermost bits trade places.
pub proof fn lemma_reverse_bits(b: u8)
    by (bit_vector)
    ensures
        reverse_byte(reverse_byte(b)) == b,
        (reverse_byte(b) & 0x80 != 0) == (b & 0x01 != 0),
        (reverse_byte(b) & 0x01 != 0) == (b & 0x80 != 0),
        (reverse_byte(b) & 0x10 != 0) == (b & 0x08 != 0),
{
}

/// The row of a sprite at `sprite_y` that lands on scanline `target` (a sprite
/// is drawn one line below its Y coordinate); rows above the sprite wrap to
/// large values.
pub open spec fn sprite_row(target: u16, sprite_y: u8) -> u16 {
    sub16(target, (sprite_y + 1) as u16)
}

impl PpuView {
    /// The scanline the sprite logic works for: the next one (the pre-render
    /// line prepares scanline 0).
    pub open spec fn target_scanline(self) -> u16 {
        if self.scanline == 261 {
            0
        } else {
            add16(self.scanline, 1)
        }
    }

    /// Scans primary OAM from sprite `index` on, copying each sprite that
    /// covers scanline `target` into secondary OAM; a ninth such sprite sets
    /// the overflow flag and ends the scan.
    pub open spec fn evaluate_sprites(self, target: u16, height: u16, index: int) -> PpuView
        decreases 64 - index,
    {
        if index < 0 || index >= 64 {
            self
        } else {
            let base = index * 4;
            if sprite_row(target, self.oam[base]) >= height {
                self.evaluate_sprites(target, height, index + 1)
            } else if self.secondary_oam_count < 8 {
                let dest = self.secondary_oam_count * 4;
                PpuView {
                    secondary_oam: self.secondary_oam.update(dest, self.oam[base]).update(
                        dest + 1,
                        self.oam[base + 1],
                    ).update(dest + 2, self.oam[base + 2]).update(dest + 3, self.oam[base + 3]),
                    sprite_zero_in_range: self.sprite_zero_in_range || index == 0,
                    secondary_oam_count: (self.secondary_oam_count + 1) as u8,
                    ..self
                }.evaluate_sprites(target, height, index + 1)
            } else {
                PpuView { status: with_flag(self.status, STATUS_SPRITE_OVERFLOW, true), ..self }
            }
        }
    }

    /// Sprite evaluation for the next scanline: secondary OAM is erased and
    /// refilled with up to eight sprites that cover it.
    pub open spec fn check_sprites(self) -> PpuView {
        PpuView {
            secondary_oam: filled(32, 0xFFu8),
            secondary_oam_count: 0,
            sprite_zero_in_range: false,
            ..self
        }.evaluate_sprites(self.target_scanline(), sprite_rows(self.ctrl) as u16, 0)
    }

    /// The pattern-table address of row `row` of tile `tile_index`: 8x16
    /// sprites take their table from bit 0 of the tile number and use two
    /// consecutive tiles.
    pub open spec fn sprite_pattern_address(self, height: u16, tile_index: u8, row: u16) -> u16 {
        if height == 16 {
            let table: u16 = if tile_index & 0x01 != 0 {
                0x1000
            } else {
                0x0000
            };
            let tile = (tile_index & 0xFE) as u16;
            if row >= 8 {
                add16(add16(table, ((tile + 1) * 16) as u16), (row - 8) as u16)
            } else {
                add16(add16(table, (tile * 16) as u16), row)
            }
        } else {
            add16(add16(sprite_table(self.ctrl), (tile_index * 16) as u16), row)
        }
    }

    /// Loads sprite slots `slot` to 7 from secondary OAM: used slots get their
    /// pattern row (flipped as the attributes say), attributes and X position;
    /// free slots are cleared and parked.
    pub open spec fn load_sprite_slots(self, target: u16, height: u16, slot: int) -> PpuView
        decreases 8 - slot,
    {
        if slot < 0 || slot >= 8 {
            self
        } else if slot >= self.secondary_oam_count {
            PpuView {
                sprite_pattern_lo: self.sprite_pattern_lo.update(slot, 0),
                sprite_pattern_hi: self.sprite_pattern_hi.update(slot, 0),
                sprite_attr: self.sprite_attr.update(slot, 0),
                sprite_x_counter: self.sprite_x_counter.update(slot, 0xFF),
                ..self
            }.load_sprite_slots(target, height, slot + 1)
        } else {
            let base = slot * 4;
            let tile_index = self.secondary_oam[base + 1];
            let attr = self.secondary_oam[base + 2];
            let row0 = sprite_row(target, self.secondary_oam[base]);
            let row = if attr & 0x80 != 0 {
                sub16(sub16(height, 1), row0)
            } else {
                row0
            };
            let address = self.sprite_pattern_address(height, tile_index, row);
            let (lo, bus1) = self.bus.read(address);
            let (hi, bus2) = bus1.read(add16(address, 8));
            let flip = attr & 0x40 != 0;
            PpuView {
                bus: bus2,
                sprite_pattern_lo: self.sprite_pattern_lo.update(
                    slot,
                    if flip {
                        reverse_byte(lo)
                    } else {
                        lo
                    },
                ),
                sprite_pattern_hi: self.sprite_pattern_hi.update(
                    slot,
                    if flip {
                        reverse_byte(hi)
                    } else {
                        hi
                    },
                ),
                sprite_attr: self.sprite_attr.update(slot, attr),
                sprite_x_counter: self.sprite_x_counter.update(slot, self.secondary_oam[base + 3]),
                ..self
            }.load_sprite_slots(target, height, slot + 1)
        }
    }

    /// Pattern fetching for the sprites selected for the next scanline.
    pub open spec fn fetch_sprites(self) -> PpuView {
        self.load_sprite_slots(self.target_scanline(), sprite_rows(self.ctrl) as u16, 0)
    }

    /// One pixel of the sprite pipeline: each active slot counts its X position
    /// down, and once it reaches 0 shifts its pattern out one pixel at a time.
    pub open spec fn tick_sprites(self) -> PpuView {
        let n = self.secondary_oam_count;
        let xc = self.sprite_x_counter;
        PpuView {
            sprite_x_counter: Seq::new(
                xc.len(),
                |s: int|
                    if s < n && xc[s] > 0 {
                        (xc[s] - 1) as u8
                    } else {
                        xc[s]
                    },
            ),
            sprite_pattern_lo: Seq::new(
                self.sprite_pattern_lo.len(),
                |s: int|
                    if s < n && s < xc.len() && xc[s] == 0 {
                        self.sprite_pattern_lo[s] << 1u8
                    } else {
                        self.sprite_pattern_lo[s]
                    },
            ),
            sprite_pattern_hi: Seq::new(
                self.sprite_pattern_hi.len(),
                |s: int|
                    if s < n && s < xc.len() && xc[s] == 0 {
                        self.sprite_pattern_hi[s] << 1u8
                    } else {
                        self.sprite_pattern_hi[s]
                    },
            ),
            ..self
        }
    }

    /// The 2-bit colour index slot `slot` is showing now (its pattern's top bits).
    pub open spec fn slot_pixel(self, slot: int) -> u8 {
        (((self.sprite_pattern_hi[slot] >> 7u8) & 1) * 2 + ((self.sprite_pattern_lo[slot] >> 7u8)
            & 1)) as u8
    }

    /// The first slot from `slot` on whose sprite has started and shows a
    /// non-transparent pixel, as a sprite pixel.
    pub open spec fn first_sprite_pixel(self, slot: int) -> Option<SpritePixel>
        decreases 8 - slot,
    {
        if slot < 0 || slot >= 8 || slot >= self.secondary_oam_count {
            None
        } else if self.sprite_x_counter[slot] != 0 || self.slot_pixel(slot) == 0 {
            self.first_sprite_pixel(slot + 1)
        } else {
            Some(
                SpritePixel {
                    pixel: self.slot_pixel(slot),
                    palette: self.sprite_attr[slot] & 0x03,
                    hidden: self.sprite_attr[slot] & 0x20 != 0,
                    is_sprite_zero: slot == 0 && self.sprite_zero_in_range,
                },
            )
        }
    }

    /// The sprite pixel shown at screen column `x`, if sprites are on (and on in
    /// the leftmost 8 columns, for those).
    pub open spec fn sprite_pixel(self, x: int) -> Option<SpritePixel> {
        if self.mask & MASK_SHOW_SPRITES == 0 {
            None
        } else if x < 8 && self.mask & MASK_SHOW_SPRITES_LEFT == 0 {
            None
        } else {
            self.first_sprite_pixel(0)
        }
    }
}

impl Ppu {
    /// Evaluates sprites for the next scanline.
    ///
    /// Primary OAM is scanned in order and up to eight sprites that cover the
    /// scanline are copied into secondary OAM. A ninth sets the sprite overflow
    /// flag.
    pub fn check_sprites(&mut self)
        ensures
            final(self)@ == old(self)@.check_sprites(),
            final(self).cycle == old(self).cycle,
            final(self).scanline == old(self).scanline,
    {
        let ghost goal = old(self)@.check_sprites();
        let target: u16 = if self.scanline == 261 {
            0
        } else {
            self.scanline.wrapping_add(1)
        };
        let height = sprite_height(self.ctrl) as u16;
        self.secondary_oam = [0xFFu8; 32];
        self.secondary_oam_count = 0;
        self.sprite_zero_in_range = false;
        assert(self@.secondary_oam =~= filled(32, 0xFFu8));
        let mut sprite_index: usize = 0;
        while sprite_index < 64
            invariant
                sprite_index <= 64,
                self.secondary_oam_count <= 8,
                self@.evaluate_sprites(target, height, sprite_index as int) == goal,
                self.cycle == old(self).cycle,
                self.scanline == old(self).scanline,
            decreases 64 - sprite_index,
        {
            let base = sprite_index * 4;
            let sprite_y = self.oam[base] as u16;
            let row = target.wrapping_sub(sprite_y + 1);
            if row >= height {
                sprite_index = sprite_index + 1;
            } else if self.secondary_oam_count < MAX_SPRITES_PER_SCANLINE as u8 {
                let dest = self.secondary_oam_count as usize * 4;
                self.secondary_oam[dest] = self.oam[base];
                self.secondary_oam[dest + 1] = self.oam[base + 1];
                self.secondary_oam[dest + 2] = self.oam[base + 2];
                self.secondary_oam[dest + 3] = self.oam[base + 3];
                if sprite_index == 0 {
                    self.sprite_zero_in_range = true;
                }
                self.secondary_oam_count = self.secondary_oam_count + 1;
                sprite_index = sprite_index + 1;
            } else {
                // Only eight sprites fit on a scanline: the rest are dropped
                // and the overflow flag is set.
                crate::ppu::flags::set(&mut self.status, STATUS_SPRITE_OVERFLOW, true);
                sprite_index = 64;
            }
        }
    }

    /// Fetches pattern data for the sprites selected during evaluation, applying
    /// 8x16 addressing and horizontal or vertical flipping.
    pub fn fetch_sprites(&mut self)
        ensures
            final(self)@ == old(self)@.fetch_sprites(),
            final(self).cycle == old(self).cycle,
            final(self).scanline == old(self).scanline,
    {
        let ghost goal = old(self)@.fetch_sprites();
        let target: u16 = if self.scanline == 261 {
            0
        } else {
            self.scanline.wrapping_add(1)
        };
        let height = sprite_height(self.ctrl) as u16;
        let mut slot: usize = 0;
        while slot < MAX_SPRITES_PER_SCANLINE
            invariant
                slot <= 8,
                self@.load_sprite_slots(target, height, slot as int) == goal,
                self.cycle == old(self).cycle,
                self.scanline == old(self).scanline,
                height == 8 || height == 16,
            decreases 8 - slot,
        {
            if slot >= self.secondary_oam_count as usize {
                // Free slot for this scanline.
                self.sprite_pattern_lo[slot] = 0;
                self.sprite_pattern_hi[slot] = 0;
                self.sprite_attr[slot] = 0;
                self.sprite_x_counter[slot] = 0xFF;
            } else {
                let base = slot * 4;
                let sprite_y = self.secondary_oam[base] as u16;
                let tile_index = self.secondary_oam[base + 1];
                let attr = self.secondary_oam[base + 2];
                let sprite_x = self.secondary_oam[base + 3];
                let flip_horizontal = attr & 0x40 != 0;
                let flip_vertical = attr & 0x80 != 0;
                let mut row = target.wrapping_sub(sprite_y + 1);
                if flip_vertical {
                    row = (height - 1).wrapping_sub(row);
                }
                let address = if height == 16 {
                    let table: u16 = if tile_index & 0x01 != 0 {
                        0x1000
                    } else {
                        0x0000
                    };
                    let mut tile = (tile_index & 0xFE) as u16;
                    let mut row = row;
                    if row >= 8 {
                        tile = tile + 1;
                        row = row - 8;
                    }
                    table.wrapping_add(tile * 16).wrapping_add(row)
                } else {
                    sprite_pattern_table(self.ctrl).wrapping_add(tile_index as u16 * 16).wrapping_add(
                        row,
                    )
                };
                let mut lo = self.bus.read(address);
                let mut hi = self.bus.read(address.wrapping_add(8));
                if flip_horizontal {
                    lo = reverse_bits(lo);
                    hi = reverse_bits(hi);
                }
                self.sprite_pattern_lo[slot] = lo;
                self.sprite_pattern_hi[slot] = hi;
                self.sprite_attr[slot] = attr;
                self.sprite_x_counter[slot] = sprite_x;
            }
            slot = slot + 1;
        }
    }

    /// Advances the sprite pipeline by one pixel.
    pub fn tick_sprites(&mut self)
        ensures
            final(self)@ == old(self)@.tick_sprites(),
            final(self).cycle == old(self).cycle,
            final(self).scanline == old(self).scanline,
    {
        let ghost start = old(self)@;
        let count = self.secondary_oam_count as usize;
        let mut slot: usize = 0;
        while slot < count && slot < MAX_SPRITES_PER_SCANLINE
            invariant
                slot <= 8,
                count == start.secondary_oam_count,
                start.sprite_x_counter.len() == 8,
                start.sprite_pattern_lo.len() == 8,
                start.sprite_pattern_hi.len() == 8,
                self@ == (PpuView {
                    sprite_x_counter: self@.sprite_x_counter,
                    sprite_pattern_lo: self@.sprite_pattern_lo,
                    sprite_pattern_hi: self@.sprite_pattern_hi,
                    ..start
                }),
                forall|s: int|
                    0 <= s < 8 ==> #[trigger] self@.sprite_x_counter[s] == if s < slot {
                        start.tick_sprites().sprite_x_counter[s]
                    } else {
                        start.sprite_x_counter[s]
                    },
                forall|s: int|
                    0 <= s < 8 ==> #[trigger] self@.sprite_pattern_lo[s] == if s < slot {
                        start.tick_sprites().sprite_pattern_lo[s]
                    } else {
                        start.sprite_pattern_lo[s]
                    },
                forall|s: int|
                    0 <= s < 8 ==> #[trigger] self@.sprite_pattern_hi[s] == if s < slot {
                        start.tick_sprites().sprite_pattern_hi[s]
                    } else {
                        start.sprite_pattern_hi[s]
                    },
            decreases 8 - slot,
        {
            if self.sprite_x_counter[slot] > 0 {
                self.sprite_x_counter[slot] = self.sprite_x_counter[slot] - 1;
            } else {
                self.sprite_pattern_lo[slot] = self.sprite_pattern_lo[slot] << 1;
                self.sprite_pattern_hi[slot] = self.sprite_pattern_hi[slot] << 1;
            }
            slot = slot + 1;
        }
        assert(self@.sprite_x_counter =~= start.tick_sprites().sprite_x_counter);
        assert(self@.sprite_pattern_lo =~= start.tick_sprites().sprite_pattern_lo);
        assert(self@.sprite_pattern_hi =~= start.tick_sprites().sprite_pattern_hi);
    }

    /// Returns the highest-priority visible sprite pixel at screen column `x`.
    pub fn sprite_pixel(&self, x: usize) -> (r: Option<SpritePixel>)
        ensures
            r == self@.sprite_pixel(x as int),
    {
        if self.mask & MASK_SHOW_SPRITES == 0 {
            return None;
        }
        if x < 8 && self.mask & MASK_SHOW_SPRITES_LEFT == 0 {
            return None;
        }
        let count = self.secondary_oam_count as usize;
        let mut slot: usize = 0;
        while slot < count && slot < MAX_SPRITES_PER_SCANLINE
            invariant
                slot <= 8,
                count == self.secondary_oam_count,
                self@.first_sprite_pixel(slot as int) == self@.sprite_pixel(x as int),
            decreases 8 - slot,
        {
            if self.sprite_x_counter[slot] == 0 {
                proof {
                    crate::bits::lemma_byte_bits(self.sprite_pattern_lo[slot as int]);
                    crate::bits::lemma_byte_bits(self.sprite_pattern_hi[slot as int]);
                }
                let lo = (self.sprite_pattern_lo[slot] >> 7) & 1;
                let hi = (self.sprite_pattern_hi[slot] >> 7) & 1;
                let pixel = hi * 2 + lo;
                if pixel != 0 {
                    let attr = self.sprite_attr[slot];
                    assert(pixel == self@.slot_pixel(slot as int));
                    assert(self@.first_sprite_pixel(slot as int) == Some(
                        SpritePixel {
                            pixel,
                            palette: attr & 0x03,
                            hidden: attr & 0x20 != 0,
                            is_sprite_zero: slot == 0 && self.sprite_zero_in_range,
                        },
                    ));
                    return Some(
                        SpritePixel {
                            pixel,
                            palette: attr & 0x03,
                            hidden: attr & 0x20 != 0,
                            is_sprite_zero: slot == 0 && self.sprite_zero_in_range,
                        },
                    );
                }
            }
            slot = slot + 1;
        }
        None
    }
}

impl PpuView {
    /// A sprite pixel's colour index and palette number are 2-bit values.
    pub proof fn lemma_sprite_pixel_small(self, x: int)
        requires
            self.sprite_pixel(x) is Some,
            self.sprite_attr.len() == 8,
        ensures
            self.sprite_pixel(x)->0.pixel < 4,
            self.sprite_pixel(x)->0.palette < 4,
        decreases 0nat,
    {
        self.lemma_first_sprite_pixel_small(0);
    }

    proof fn lemma_first_sprite_pixel_small(self, slot: int)
        requires
            self.first_sprite_pixel(slot) is Some,
            self.sprite_attr.len() == 8,
        ensures
            self.first_sprite_pixel(slot)->0.pixel < 4,
            self.first_sprite_pixel(slot)->0.palette < 4,
        decreases 8 - slot,
    {
        if 0 <= slot < 8 && slot < self.secondary_oam_count {
            if self.sprite_x_counter[slot] != 0 || self.slot_pixel(slot) == 0 {
                self.lemma_first_sprite_pixel_small(slot + 1);
            } else {
                let lo = self.sprite_pattern_lo[slot];
                let hi = self.sprite_pattern_hi[slot];
                crate::bits::lemma_byte_bits(lo);
                crate::bits::lemma_byte_bits(hi);
                crate::bits::lemma_byte_bits(self.sprite_attr[slot]);
            }
        }
    }
}


impl PpuView {
    proof fn lemma_evaluate_keeps_timing(self, target: u16, height: u16, index: int)
        ensures
            self.evaluate_sprites(target, height, index).same_timing(self),
        decreases 64 - index,
    {
        if 0 <= index < 64 {
            let base = index * 4;
            if sprite_row(target, self.oam[base]) >= height {
                self.lemma_evaluate_keeps_timing(target, height, index + 1);
            } else if self.secondary_oam_count < 8 {
                let dest = self.secondary_oam_count * 4;
                PpuView {
                    secondary_oam: self.secondary_oam.update(dest, self.oam[base]).update(
                        dest + 1,
                        self.oam[base + 1],
                    ).update(dest + 2, self.oam[base + 2]).update(dest + 3, self.oam[base + 3]),
                    sprite_zero_in_range: self.sprite_zero_in_range || index == 0,
                    secondary_oam_count: (self.secondary_oam_count + 1) as u8,
                    ..self
                }.lemma_evaluate_keeps_timing(target, height, index + 1);
            }
        }
    }

    proof fn lemma_load_keeps_timing(self, target: u16, height: u16, slot: int)
        ensures
            self.load_sprite_slots(target, height, slot).same_timing(self),
        decreases 8 - slot,
    {
        if 0 <= slot < 8 {
            if slot >= self.secondary_oam_count {
                PpuView {
                    sprite_pattern_lo: self.sprite_pattern_lo.update(slot, 0),
                    sprite_pattern_hi: self.sprite_pattern_hi.update(slot, 0),
                    sprite_attr: self.sprite_attr.update(slot, 0),
                    sprite_x_counter: self.sprite_x_counter.update(slot, 0xFF),
                    ..self
                }.lemma_load_keeps_timing(target, height, slot + 1);
            } else {
                let base = slot * 4;
                let tile_index = self.secondary_oam[base + 1];
                let attr = self.secondary_oam[base + 2];
                let row0 = sprite_row(target, self.secondary_oam[base]);
                let row = if attr & 0x80 != 0 {
                    sub16(sub16(height, 1), row0)
                } else {
                    row0
                };
                let address = self.sprite_pattern_address(height, tile_index, row);
                let (lo, bus1) = self.bus.read(address);
                let (hi, bus2) = bus1.read(add16(address, 8));
                let flip = attr & 0x40 != 0;
                PpuView {
                    bus: bus2,
                    sprite_pattern_lo: self.sprite_pattern_lo.update(
                        slot,
                        if flip {
                            reverse_byte(lo)
                        } else {
                            lo
                        },
                    ),
                    sprite_pattern_hi: self.sprite_pattern_hi.update(
                        slot,
                        if flip {
                            reverse_byte(hi)
                        } else {
                            hi
                        },
                    ),
                    sprite_attr: self.sprite_attr.update(slot, attr),
                    sprite_x_counter: self.sprite_x_counter.update(
                        slot,
                        self.secondary_oam[base + 3],
                    ),
                    ..self
                }.lemma_load_keeps_timing(target, height, slot + 1);
            }
        }
    }

    /// None of the sprite steps touches the dot, line and frame counters or
    /// PPUMASK.
    pub proof fn lemma_sprite_steps_keep_timing(self)
        ensures
            self.tick_sprites().same_timing(self),
            self.check_sprites().same_timing(self),
            self.fetch_sprites().same_timing(self),
    {
        PpuView {
            secondary_oam: filled(32, 0xFFu8),
            secondary_oam_count: 0,
            sprite_zero_in_range: false,
            ..self
        }.lemma_evaluate_keeps_timing(self.target_scanline(), sprite_rows(self.ctrl) as u16, 0);
        self.lemma_load_keeps_timing(self.target_scanline(), sprite_rows(self.ctrl) as u16, 0);
    }

    /// Sprite evaluation never puts more than eight sprites in secondary OAM.
    pub proof fn lemma_check_sprites_bounded(self)
        ensures
            self.check_sprites().secondary_oam_count <= 8,
    {
        PpuView {
            secondary_oam: filled(32, 0xFFu8),
            secondary_oam_count: 0,
            sprite_zero_in_range: false,
            ..self
        }.lemma_evaluate_bounded(self.target_scanline(), sprite_rows(self.ctrl) as u16, 0);
    }

    proof fn lemma_evaluate_bounded(self, target: u16, height: u16, index: int)
        requires
            self.secondary_oam_count <= 8,
        ensures
            self.evaluate_sprites(target, height, index).secondary_oam_count <= 8,
        decreases 64 - index,
    {
        if 0 <= index < 64 {
            let base = index * 4;
            if sprite_row(target, self.oam[base]) >= height {
                self.lemma_evaluate_bounded(target, height, index + 1);
            } else if self.secondary_oam_count < 8 {
                let dest = self.secondary_oam_count * 4;
                PpuView {
                    secondary_oam: self.secondary_oam.update(dest, self.oam[base]).update(
                        dest + 1,
                        self.oam[base + 1],
                    ).update(dest + 2, self.oam[base + 2]).update(dest + 3, self.oam[base + 3]),
                    sprite_zero_in_range: self.sprite_zero_in_range || index == 0,
                    secondary_oam_count: (self.secondary_oam_count + 1) as u8,
                    ..self
                }.lemma_evaluate_bounded(target, height, index + 1);
            }
        }
    }
}

impl PpuView {
    /// What sprite pattern fetching loads into slot `slot` for scanline
    /// `target` and sprite height `height`, as (pattern low, pattern high,
    /// attributes, X counter). A slot past the sprites in secondary OAM is
    /// cleared and parked at X $FF; a used slot gets its sprite's pattern row
    /// (row counted from the bottom when flipped vertically, bits reversed when
    /// flipped horizontally), its attributes and its X position.
    pub open spec fn fetched_slot(self, target: u16, height: u16, slot: int) -> (u8, u8, u8, u8) {
        if slot >= self.secondary_oam_count {
            (0, 0, 0, 0xFF)
        } else {
            let base = slot * 4;
            let tile_index = self.secondary_oam[base + 1];
            let attr = self.secondary_oam[base + 2];
            let row0 = sprite_row(target, self.secondary_oam[base]);
            let row = if attr & 0x80 != 0 {
                sub16(sub16(height, 1), row0)
            } else {
                row0
            };
            let address = self.sprite_pattern_address(height, tile_index, row);
            let lo = self.bus.read(address).0;
            let hi = self.bus.read(add16(address, 8)).0;
            let flip = attr & 0x40 != 0;
            (
                if flip {
                    reverse_byte(lo)
                } else {
                    lo
                },
                if flip {
                    reverse_byte(hi)
                } else {
                    hi
                },
                attr,
                self.secondary_oam[base + 3],
            )
        }
    }

    /// Sprite pattern fetching fills every one of the eight slots as
    /// [`PpuView::fetched_slot`] says, for the next scanline and the sprite
    /// height PPUCTRL selects, and changes nothing else (the PPU bus included:
    /// its reads are quiet).
    pub proof fn lemma_fetch_sprites(self)
        requires
            self.sprite_pattern_lo.len() == 8,
            self.sprite_pattern_hi.len() == 8,
            self.sprite_attr.len() == 8,
            self.sprite_x_counter.len() == 8,
        ensures
            ({
                let f = self.fetch_sprites();
                let target = self.target_scanline();
                let height = sprite_rows(self.ctrl) as u16;
                &&& f == (PpuView {
                    sprite_pattern_lo: f.sprite_pattern_lo,
                    sprite_pattern_hi: f.sprite_pattern_hi,
                    sprite_attr: f.sprite_attr,
                    sprite_x_counter: f.sprite_x_counter,
                    ..self
                })
                &&& f.sprite_pattern_lo.len() == 8
                &&& f.sprite_pattern_hi.len() == 8
                &&& f.sprite_attr.len() == 8
                &&& f.sprite_x_counter.len() == 8
                &&& forall|slot: int|
                    0 <= slot < 8 ==> (f.sprite_pattern_lo[slot], f.sprite_pattern_hi[slot],
                        f.sprite_attr[slot], f.sprite_x_counter[slot]) == #[trigger] self.fetched_slot(
                        target,
                        height,
                        slot,
                    )
            }),
    {
        self.lemma_load_sprite_slots(self.target_scanline(), sprite_rows(self.ctrl) as u16, 0);
    }

    proof fn lemma_load_sprite_slots(self, target: u16, height: u16, k: int)
        requires
            0 <= k <= 8,
            self.sprite_pattern_lo.len() == 8,
            self.sprite_pattern_hi.len() == 8,
            self.sprite_attr.len() == 8,
            self.sprite_x_counter.len() == 8,
        ensures
            ({
                let f = self.load_sprite_slots(target, height, k);
                &&& f == (PpuView {
                    sprite_pattern_lo: f.sprite_pattern_lo,
                    sprite_pattern_hi: f.sprite_pattern_hi,
                    sprite_attr: f.sprite_attr,
                    sprite_x_counter: f.sprite_x_counter,
                    ..self
                })
                &&& f.sprite_pattern_lo.len() == 8
                &&& f.sprite_pattern_hi.len() == 8
                &&& f.sprite_attr.len() == 8
                &&& f.sprite_x_counter.len() == 8
                &&& forall|slot: int|
                    0 <= slot < k ==> f.sprite_pattern_lo[slot] == self.sprite_pattern_lo[slot]
                        && f.sprite_pattern_hi[slot] == self.sprite_pattern_hi[slot]
                        && f.sprite_attr[slot] == self.sprite_attr[slot]
                        && f.sprite_x_counter[slot] == self.sprite_x_counter[slot]
                &&& forall|slot: int|
                    k <= slot < 8 ==> (f.sprite_pattern_lo[slot], f.sprite_pattern_hi[slot],
                        f.sprite_attr[slot], f.sprite_x_counter[slot]) == #[trigger] self.fetched_slot(
                        target,
                        height,
                        slot,
                    )
            }),
        decreases 8 - k,
    {
        if k < 8 {
            self.lemma_load_step(target, height, k);
            let next = self.slot_loaded(target, height, k);
            next.lemma_load_sprite_slots(target, height, k + 1);
            let f = self.load_sprite_slots(target, height, k);
            assert(f == next.load_sprite_slots(target, height, k + 1));
            assert forall|slot: int| 0 <= slot < k implies f.sprite_pattern_lo[slot]
                == self.sprite_pattern_lo[slot] && f.sprite_pattern_hi[slot]
                == self.sprite_pattern_hi[slot] && f.sprite_attr[slot] == self.sprite_attr[slot]
                && f.sprite_x_counter[slot] == self.sprite_x_counter[slot] by {
                assert(next.sprite_pattern_lo[slot] == self.sprite_pattern_lo[slot]);
                assert(next.sprite_pattern_hi[slot] == self.sprite_pattern_hi[slot]);
                assert(next.sprite_attr[slot] == self.sprite_attr[slot]);
                assert(next.sprite_x_counter[slot] == self.sprite_x_counter[slot]);
            }
            assert forall|slot: int| k <= slot < 8 implies (f.sprite_pattern_lo[slot],
                f.sprite_pattern_hi[slot], f.sprite_attr[slot], f.sprite_x_counter[slot])
                == #[trigger] self.fetched_slot(target, height, slot) by {
                if slot > k {
                    assert(next.fetched_slot(target, height, slot) == self.fetched_slot(
                        target,
                        height,
                        slot,
                    ));
                    assert(next.fetched_slot(target, height, slot) == (f.sprite_pattern_lo[slot],
                        f.sprite_pattern_hi[slot], f.sprite_attr[slot], f.sprite_x_counter[slot]));
                }
            }
        }
    }

    /// The PPU with slot `k` loaded as [`PpuView::fetched_slot`] says.
    spec fn slot_loaded(self, target: u16, height: u16, k: int) -> PpuView {
        let (lo, hi, attr, x) = self.fetched_slot(target, height, k);
        PpuView {
            sprite_pattern_lo: self.sprite_pattern_lo.update(k, lo),
            sprite_pattern_hi: self.sprite_pattern_hi.update(k, hi),
            sprite_attr: self.sprite_attr.update(k, attr),
            sprite_x_counter: self.sprite_x_counter.update(k, x),
            ..self
        }
    }

    proof fn lemma_load_step(self, target: u16, height: u16, k: int)
        requires
            0 <= k < 8,
        ensures
            self.load_sprite_slots(target, height, k) == self.slot_loaded(
                target,
                height,
                k,
            ).load_sprite_slots(target, height, k + 1),
    {
        if k < self.secondary_oam_count {
            let base = k * 4;
            let row0 = sprite_row(target, self.secondary_oam[base]);
            let row = if self.secondary_oam[base + 2] & 0x80 != 0 {
                sub16(sub16(height, 1), row0)
            } else {
                row0
            };
            let address = self.sprite_pattern_address(height, self.secondary_oam[base + 1], row);
            crate::ppu::ppu_bus::lemma_reads_are_quiet(self.bus, address);
            crate::ppu::ppu_bus::lemma_reads_are_quiet(self.bus, add16(address, 8));
        }
    }
}

impl PpuView {
    /// Whether slot `slot` shows a pixel now: it holds a sprite, the sprite
    /// has started (its X counter is 0), and its current pixel is opaque.
    pub open spec fn slot_shows(self, slot: int) -> bool {
        &&& slot < self.secondary_oam_count
        &&& self.sprite_x_counter[slot] == 0
        &&& self.slot_pixel(slot) != 0
    }

    /// The sprite pixel slot `slot` shows.
    pub open spec fn slot_sprite_pixel(self, slot: int) -> SpritePixel {
        SpritePixel {
            pixel: self.slot_pixel(slot),
            palette: self.sprite_attr[slot] & 0x03,
            hidden: self.sprite_attr[slot] & 0x20 != 0,
            is_sprite_zero: slot == 0 && self.sprite_zero_in_range,
        }
    }

    /// Sprite priority: with sprites shown at column `x`, the sprite pixel is
    /// that of the lowest slot that shows one, and there is none when no slot
    /// does; with sprites hidden there (PPUMASK, or the leftmost 8 columns)
    /// there is none.
    pub proof fn lemma_sprite_pixel(self, x: int)
        ensures
            self.mask & MASK_SHOW_SPRITES == 0 || (x < 8 && self.mask & MASK_SHOW_SPRITES_LEFT == 0)
                ==> self.sprite_pixel(x) is None,
            !(self.mask & MASK_SHOW_SPRITES == 0 || (x < 8 && self.mask & MASK_SHOW_SPRITES_LEFT
                == 0)) ==> {
                &&& (self.sprite_pixel(x) is None <==> forall|i: int|
                    0 <= i < 8 ==> !#[trigger] self.slot_shows(i))
                &&& forall|i: int|
                    0 <= i < 8 && #[trigger] self.slot_shows(i) && (forall|j: int|
                        0 <= j < i ==> !self.slot_shows(j)) ==> self.sprite_pixel(x) == Some(
                        self.slot_sprite_pixel(i),
                    )
            },
    {
        self.lemma_first_sprite_pixel(0);
    }

    proof fn lemma_first_sprite_pixel(self, slot: int)
        requires
            0 <= slot,
        ensures
            self.first_sprite_pixel(slot) is None <==> forall|i: int|
                slot <= i < 8 ==> !#[trigger] self.slot_shows(i),
            forall|i: int|
                slot <= i < 8 && #[trigger] self.slot_shows(i) && (forall|j: int|
                    slot <= j < i ==> !self.slot_shows(j)) ==> self.first_sprite_pixel(slot)
                    == Some(self.slot_sprite_pixel(i)),
        decreases 8 - slot,
    {
        if slot >= 8 || slot >= self.secondary_oam_count {
        } else if !self.slot_shows(slot) {
            self.lemma_first_sprite_pixel(slot + 1);
            assert forall|i: int|
                slot <= i < 8 && #[trigger] self.slot_shows(i) && (forall|j: int|
                    slot <= j < i ==> !self.slot_shows(j)) implies self.first_sprite_pixel(slot)
                == Some(self.slot_sprite_pixel(i)) by {
                assert(i != slot);
                assert forall|j: int| slot + 1 <= j < i implies !self.slot_shows(j) by {}
            }
        } else {
            assert forall|i: int|
                slot <= i < 8 && #[trigger] self.slot_shows(i) && (forall|j: int|
                    slot <= j < i ==> !self.slot_shows(j)) implies self.first_sprite_pixel(slot)
                == Some(self.slot_sprite_pixel(i)) by {
                if i != slot {
                    assert(!self.slot_shows(slot));
                }
            }
        }
    }
}

impl PpuView {
    /// Whether sprite `i` of primary OAM covers scanline `target` at sprite
    /// height `height`.
    pub open spec fn sprite_in_range(self, target: u16, height: u16, i: int) -> bool {
        sprite_row(target, self.oam[i * 4]) < height
    }

    /// How many of the first `n` sprites of primary OAM cover scanline
    /// `target`.
    pub open spec fn sprites_in_range_before(self, target: u16, height: u16, n: int) -> nat
        decreases n,
    {
        if n <= 0 {
            0
        } else {
            self.sprites_in_range_before(target, height, n - 1) + if self.sprite_in_range(
                target,
                height,
                n - 1,
            ) {
                1nat
            } else {
                0nat
            }
        }
    }

    /// Sprite evaluation: secondary OAM receives, in OAM order, the first
    /// eight sprites that cover the next scanline (each sprite's four bytes at
    /// four times its rank among them), the rest of secondary OAM reads $FF,
    /// the count is the number of covering sprites capped at eight, sprite 0
    /// is marked when it covers the line, and the overflow flag is set exactly
    /// when more than eight do. Nothing else changes.
    pub proof fn lemma_check_sprites(self)
        requires
            self.oam.len() == 256,
        ensures
            ({
                let r = self.check_sprites();
                let target = self.target_scanline();
                let height = sprite_rows(self.ctrl) as u16;
                let k = self.sprites_in_range_before(target, height, 64);
                &&& r == (PpuView {
                    secondary_oam: r.secondary_oam,
                    secondary_oam_count: r.secondary_oam_count,
                    sprite_zero_in_range: r.sprite_zero_in_range,
                    status: r.status,
                    ..self
                })
                &&& r.secondary_oam.len() == 32
                &&& r.secondary_oam_count == if k > 8 {
                    8
                } else {
                    k
                }
                &&& forall|i: int, b: int|
                    0 <= i < 64 && 0 <= b < 4 && #[trigger] self.sprite_in_range(target, height, i)
                        && self.sprites_in_range_before(target, height, i) < 8 ==> r.secondary_oam[4
                        * self.sprites_in_range_before(target, height, i) + b] == #[trigger] self.oam[4
                        * i + b]
                &&& forall|p: int| 4 * r.secondary_oam_count <= p < 32 ==> r.secondary_oam[p] == 0xFF
                &&& r.sprite_zero_in_range == self.sprite_in_range(target, height, 0)
                &&& r.status == if k > 8 {
                    with_flag(self.status, STATUS_SPRITE_OVERFLOW, true)
                } else {
                    self.status
                }
            }),
    {
        let target = self.target_scanline();
        let height = sprite_rows(self.ctrl) as u16;
        let start = PpuView {
            secondary_oam: filled(32, 0xFFu8),
            secondary_oam_count: 0,
            sprite_zero_in_range: false,
            ..self
        };
        assert forall|i: int| 0 <= i < 64 implies #[trigger] start.sprite_in_range(target, height, i)
            == self.sprite_in_range(target, height, i) by {}
        start.lemma_in_range_same(self, target, height, 64);
        start.lemma_evaluate(target, height, 0);
        let r = start.evaluate_sprites(target, height, 0);
        assert forall|i: int, b: int|
            0 <= i < 64 && 0 <= b < 4 && #[trigger] self.sprite_in_range(target, height, i)
                && self.sprites_in_range_before(target, height, i) < 8 implies r.secondary_oam[4
                * self.sprites_in_range_before(target, height, i) + b] == #[trigger] self.oam[4 * i
                + b] by {
            start.lemma_in_range_same(self, target, height, i);
            assert(start.sprite_in_range(target, height, i));
        }
    }

    /// The count depends only on primary OAM.
    proof fn lemma_in_range_same(self, other: PpuView, target: u16, height: u16, n: int)
        requires
            self.oam == other.oam,
        ensures
            self.sprites_in_range_before(target, height, n) == other.sprites_in_range_before(
                target,
                height,
                n,
            ),
        decreases n,
    {
        if n > 0 {
            self.lemma_in_range_same(other, target, height, n - 1);
        }
    }

    /// The count never decreases.
    proof fn lemma_in_range_monotone(self, target: u16, height: u16, a: int, b: int)
        requires
            a <= b,
        ensures
            self.sprites_in_range_before(target, height, a) <= self.sprites_in_range_before(
                target,
                height,
                b,
            ),
        decreases b - a,
    {
        if a < b {
            self.lemma_in_range_monotone(target, height, a, b - 1);
        }
    }

    /// What is true of secondary OAM when evaluation reaches sprite `index`
    /// without having overflowed.
    spec fn evaluation_state(self, target: u16, height: u16, index: int) -> bool {
        &&& 0 <= index <= 64
        &&& self.oam.len() == 256
        &&& self.secondary_oam.len() == 32
        &&& self.secondary_oam_count == self.sprites_in_range_before(target, height, index)
        &&& self.secondary_oam_count <= 8
        &&& forall|i: int, b: int|
            0 <= i < index && 0 <= b < 4 && #[trigger] self.sprite_in_range(target, height, i)
                ==> self.secondary_oam[4 * self.sprites_in_range_before(target, height, i) + b]
                == #[trigger] self.oam[4 * i + b]
        &&& forall|p: int| 4 * self.secondary_oam_count <= p < 32 ==> self.secondary_oam[p] == 0xFF
        &&& self.sprite_zero_in_range == (index > 0 && self.sprite_in_range(target, height, 0))
    }

    proof fn lemma_evaluate(self, target: u16, height: u16, index: int)
        requires
            self.evaluation_state(target, height, index),
        ensures
            ({
                let r = self.evaluate_sprites(target, height, index);
                let k = self.sprites_in_range_before(target, height, 64);
                &&& r == (PpuView {
                    secondary_oam: r.secondary_oam,
                    secondary_oam_count: r.secondary_oam_count,
                    sprite_zero_in_range: r.sprite_zero_in_range,
                    status: r.status,
                    ..self
                })
                &&& r.secondary_oam.len() == 32
                &&& r.secondary_oam_count == if k > 8 {
                    8
                } else {
                    k
                }
                &&& forall|i: int, b: int|
                    0 <= i < 64 && 0 <= b < 4 && #[trigger] self.sprite_in_range(target, height, i)
                        && self.sprites_in_range_before(target, height, i) < 8 ==> r.secondary_oam[4
                        * self.sprites_in_range_before(target, height, i) + b] == #[trigger] self.oam[4
                        * i + b]
                &&& forall|p: int| 4 * r.secondary_oam_count <= p < 32 ==> r.secondary_oam[p] == 0xFF
                &&& r.sprite_zero_in_range == self.sprite_in_range(target, height, 0)
                &&& r.status == if k > 8 {
                    with_flag(self.status, STATUS_SPRITE_OVERFLOW, true)
                } else {
                    self.status
                }
            }),
        decreases 64 - index,
    {
        let k = self.sprites_in_range_before(target, height, 64);
        if index >= 64 {
            assert forall|i: int, b: int|
                0 <= i < 64 && 0 <= b < 4 && #[trigger] self.sprite_in_range(target, height, i)
                    && self.sprites_in_range_before(target, height, i) < 8 implies self.secondary_oam[4
                    * self.sprites_in_range_before(target, height, i) + b] == #[trigger] self.oam[4 * i
                    + b] by {}
        } else {
            let base = index * 4;
            let c = self.secondary_oam_count;
            let inr = self.sprite_in_range(target, height, index);
            assert(self.sprites_in_range_before(target, height, index + 1) == c + if inr {
                1nat
            } else {
                0nat
            });
            if !inr {
                let next = self;
                assert(next.evaluation_state(target, height, index + 1)) by {
                    assert forall|i: int, b: int|
                        0 <= i < index + 1 && 0 <= b < 4 && #[trigger] self.sprite_in_range(
                            target,
                            height,
                            i,
                        ) implies self.secondary_oam[4 * self.sprites_in_range_before(
                        target,
                        height,
                        i,
                    ) + b] == #[trigger] self.oam[4 * i + b] by {
                        if i == index {
                        }
                    }
                }
                next.lemma_evaluate(target, height, index + 1);
            } else if c < 8 {
                let dest = c * 4;
                let next = PpuView {
                    secondary_oam: self.secondary_oam.update(dest, self.oam[base]).update(
                        dest + 1,
                        self.oam[base + 1],
                    ).update(dest + 2, self.oam[base + 2]).update(dest + 3, self.oam[base + 3]),
                    sprite_zero_in_range: self.sprite_zero_in_range || index == 0,
                    secondary_oam_count: (c + 1) as u8,
                    ..self
                };
                next.lemma_in_range_same(self, target, height, 64);
                assert forall|j: int| 0 <= j <= 64 implies #[trigger] next.sprites_in_range_before(
                    target,
                    height,
                    j,
                ) == self.sprites_in_range_before(target, height, j) by {
                    next.lemma_in_range_same(self, target, height, j);
                }
                assert(next.evaluation_state(target, height, index + 1)) by {
                    assert forall|i: int, b: int|
                        0 <= i < index + 1 && 0 <= b < 4 && #[trigger] next.sprite_in_range(
                            target,
                            height,
                            i,
                        ) implies next.secondary_oam[4 * next.sprites_in_range_before(
                        target,
                        height,
                        i,
                    ) + b] == #[trigger] next.oam[4 * i + b] by {
                        if i < index {
                            self.lemma_in_range_monotone(target, height, i + 1, index);
                        }
                    }
                    if index == 0 {
                        assert(self.sprites_in_range_before(target, height, 0) == 0);
                    }
                }
                next.lemma_evaluate(target, height, index + 1);
                let r = next.evaluate_sprites(target, height, index + 1);
                assert forall|i: int, b: int|
                    0 <= i < 64 && 0 <= b < 4 && #[trigger] self.sprite_in_range(target, height, i)
                        && self.sprites_in_range_before(target, height, i) < 8 implies r.secondary_oam[4
                        * self.sprites_in_range_before(target, height, i) + b] == #[trigger] self.oam[4
                        * i + b] by {
                    assert(next.sprite_in_range(target, height, i));
                    assert(next.sprites_in_range_before(target, height, i)
                        == self.sprites_in_range_before(target, height, i));
                    assert(next.oam[4 * i + b] == self.oam[4 * i + b]);
                }
            } else {
                self.lemma_in_range_monotone(target, height, index + 1, 64);
                assert forall|i: int, b: int|
                    0 <= i < 64 && 0 <= b < 4 && #[trigger] self.sprite_in_range(target, height, i)
                        && self.sprites_in_range_before(target, height, i) < 8 implies self.secondary_oam[4
                        * self.sprites_in_range_before(target, height, i) + b] == #[trigger] self.oam[4
                        * i + b] by {
                    if i > index {
                        self.lemma_in_range_monotone(target, height, index + 1, i);
                    }
                }
                if index == 0 {
                    assert(self.sprites_in_range_before(target, height, 0) == 0);
                }
            }
        }
    }
}

impl PpuView {
    /// Where a sprite row's pattern bytes are: an 8x8 sprite's row `row`
    /// (0-7) of tile `tile` is at 16 bytes per tile in the table PPUCTRL bit 3
    /// selects ($0000 or $1000); an 8x16 sprite ignores that bit, takes its
    /// table from bit 0 of the tile number and uses the even tile for rows 0-7
    /// and the next tile for rows 8-15.
    pub proof fn lemma_sprite_pattern_address(self, tile: u8, row: u16)
        ensures
            row < 8 ==> self.sprite_pattern_address(8, tile, row) == (if self.ctrl & 0x08 != 0 {
                0x1000int
            } else {
                0
            }) + 16 * tile + row,
            row < 16 ==> self.sprite_pattern_address(16, tile, row) == 0x1000 * (tile % 2) + 16 * (
            tile - tile % 2) + row + (if row >= 8 {
                8int
            } else {
                0
            }),
    {
        assert(tile & 0xFE == tile - tile % 2 && (tile & 0x01 != 0) == (tile % 2 == 1))
            by (bit_vector);
    }
}

impl PpuView {
    /// A sprite covers a scanline when the line is one of the `height` lines
    /// starting one below the sprite's Y coordinate (OAM byte 0).
    pub proof fn lemma_sprite_in_range(self, target: u16, height: u16, i: int)
        requires
            height <= 0x100,
        ensures
            self.sprite_in_range(target, height, i) <==> self.oam[i * 4] + 1 <= target
                < self.oam[i * 4] + 1 + height,
    {
    }
}

} // verus!
