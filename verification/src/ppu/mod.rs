//! The Ricoh 2C02 picture processing unit.

pub mod background;
pub mod flags;
pub mod palette;
pub mod ppu_bus;
pub mod sprites;

use vstd::prelude::*;

use crate::bits::{flag_is_set, with_flag};
use crate::bus::add16;
use crate::ppu::flags::{
    contains, rendering_enabled, renders, vram_increment, vram_step, CTRL_NMI_ENABLE,
    REG_OAMDATA, REG_OAMADDR, REG_PPUADDR, REG_PPUCTRL, REG_PPUDATA, REG_PPUMASK, REG_PPUSCROLL,
    REG_PPUSTATUS, STATUS_SPRITE_OVERFLOW, STATUS_SPRITE_ZERO_HIT, STATUS_VBLANK,
};
use crate::ppu::palette::Rgb;
use crate::ppu::ppu_bus::{PpuBus, PpuBusView};

verus! {

pub const SCREEN_WIDTH: usize = 256;

pub const SCREEN_HEIGHT: usize = 240;

/// Number of pixels in a frame.
pub const FRAMEBUFFER_SIZE: usize = 61440;

/// Models the Ricoh 2C02.
pub struct Ppu {
    /// PPUCTRL ($2000).
    pub ctrl: u8,
    /// PPUMASK ($2001).
    pub mask: u8,
    /// PPUSTATUS ($2002).
    pub status: u8,
    /// OAMADDR ($2003).
    pub oam_address: u8,
    /// Object attribute memory: 64 sprites of 4 bytes.
    pub oam: [u8; 256],
    /// Current VRAM address (15 bits).
    pub v: u16,
    /// Temporary VRAM address (15 bits).
    pub t: u16,
    /// Fine X scroll (3 bits).
    pub x: u8,
    /// Shared write toggle for $2005 and $2006 (false: first write).
    pub w: bool,
    /// PPUDATA read buffer.
    pub read_buffer: u8,
    /// Set when vertical blank starts with NMIs enabled.
    pub nmi_requested: bool,
    /// Current scanline (0-239 visible, 240 post-render, 241-260 vertical
    /// blank, 261 pre-render).
    pub scanline: u16,
    /// Current dot within the scanline (0-340).
    pub cycle: u16,
    /// Number of frames rendered.
    pub frame: u64,
    pub bg_pattern_shift_lo: u16,
    pub bg_pattern_shift_hi: u16,
    pub bg_attr_shift_lo: u16,
    pub bg_attr_shift_hi: u16,
    pub next_tile_id: u8,
    pub next_tile_attr: u8,
    pub next_tile_lo: u8,
    pub next_tile_hi: u8,
    /// Up to eight sprites selected for the next scanline.
    pub secondary_oam: [u8; 32],
    pub secondary_oam_count: u8,
    pub sprite_zero_in_range: bool,
    pub sprite_pattern_lo: [u8; 8],
    pub sprite_pattern_hi: [u8; 8],
    pub sprite_attr: [u8; 8],
    pub sprite_x_counter: [u8; 8],
    /// The picture, row by row.
    pub frame_buffer: Vec<Rgb>,
    /// The PPU's own address space.
    pub bus: PpuBus,
}

/// The abstract state of the PPU.
pub struct PpuView {
    pub ctrl: u8,
    pub mask: u8,
    pub status: u8,
    pub oam_address: u8,
    pub oam: Seq<u8>,
    pub v: u16,
    pub t: u16,
    pub x: u8,
    pub w: bool,
    pub read_buffer: u8,
    pub nmi_requested: bool,
    pub scanline: u16,
    pub cycle: u16,
    pub frame: u64,
    pub bg_pattern_shift_lo: u16,
    pub bg_pattern_shift_hi: u16,
    pub bg_attr_shift_lo: u16,
    pub bg_attr_shift_hi: u16,
    pub next_tile_id: u8,
    pub next_tile_attr: u8,
    pub next_tile_lo: u8,
    pub next_tile_hi: u8,
    pub secondary_oam: Seq<u8>,
    pub secondary_oam_count: u8,
    pub sprite_zero_in_range: bool,
    pub sprite_pattern_lo: Seq<u8>,
    pub sprite_pattern_hi: Seq<u8>,
    pub sprite_attr: Seq<u8>,
    pub sprite_x_counter: Seq<u8>,
    pub frame_buffer: Seq<Rgb>,
    pub bus: PpuBusView,
}

impl View for Ppu {
    type V = PpuView;

    open spec fn view(&self) -> PpuView {
        PpuView {
            ctrl: self.ctrl,
            mask: self.mask,
            status: self.status,
            oam_address: self.oam_address,
            oam: self.oam@,
            v: self.v,
            t: self.t,
            x: self.x,
            w: self.w,
            read_buffer: self.read_buffer,
            nmi_requested: self.nmi_requested,
            scanline: self.scanline,
            cycle: self.cycle,
            frame: self.frame,
            bg_pattern_shift_lo: self.bg_pattern_shift_lo,
            bg_pattern_shift_hi: self.bg_pattern_shift_hi,
            bg_attr_shift_lo: self.bg_attr_shift_lo,
            bg_attr_shift_hi: self.bg_attr_shift_hi,
            next_tile_id: self.next_tile_id,
            next_tile_attr: self.next_tile_attr,
            next_tile_lo: self.next_tile_lo,
            next_tile_hi: self.next_tile_hi,
            secondary_oam: self.secondary_oam@,
            secondary_oam_count: self.secondary_oam_count,
            sprite_zero_in_range: self.sprite_zero_in_range,
            sprite_pattern_lo: self.sprite_pattern_lo@,
            sprite_pattern_hi: self.sprite_pattern_hi@,
            sprite_attr: self.sprite_attr@,
            sprite_x_counter: self.sprite_x_counter@,
            frame_buffer: self.frame_buffer@,
            bus: self.bus@,
        }
    }
}

/// `value` repeated `n` times.
pub open spec fn filled<T>(n: nat, value: T) -> Seq<T> {
    Seq::new(n, |i: int| value)
}

impl PpuView {
    /// The power-on PPU with the given address space: every register clear,
    /// the secondary OAM erased ($FF), sprite counters parked ($FF) and a black
    /// picture.
    pub open spec fn initial(bus: PpuBusView) -> PpuView {
        PpuView {
            ctrl: 0,
            mask: 0,
            status: 0,
            oam_address: 0,
            oam: filled(256, 0u8),
            v: 0,
            t: 0,
            x: 0,
            w: false,
            read_buffer: 0,
            nmi_requested: false,
            scanline: 0,
            cycle: 0,
            frame: 0,
            bg_pattern_shift_lo: 0,
            bg_pattern_shift_hi: 0,
            bg_attr_shift_lo: 0,
            bg_attr_shift_hi: 0,
            next_tile_id: 0,
            next_tile_attr: 0,
            next_tile_lo: 0,
            next_tile_hi: 0,
            secondary_oam: filled(32, 0xFFu8),
            secondary_oam_count: 0,
            sprite_zero_in_range: false,
            sprite_pattern_lo: filled(8, 0u8),
            sprite_pattern_hi: filled(8, 0u8),
            sprite_attr: filled(8, 0u8),
            sprite_x_counter: filled(8, 0xFFu8),
            frame_buffer: filled(FRAMEBUFFER_SIZE as nat, Rgb { r: 0, g: 0, b: 0 }),
            bus,
        }
    }

    /// Whether `other` has the same dot, line and frame counters, PPUCTRL,
    /// PPUMASK and NMI request.
    pub open spec fn same_timing(self, other: PpuView) -> bool {
        &&& self.cycle == other.cycle
        &&& self.scanline == other.scanline
        &&& self.frame == other.frame
        &&& self.ctrl == other.ctrl
        &&& self.mask == other.mask
        &&& self.nmi_requested == other.nmi_requested
    }

    /// The PPU after it advances the VRAM address past a PPUDATA access.
    pub open spec fn stepped_vram(self) -> PpuView {
        PpuView { v: add16(self.v, vram_step(self.ctrl)), ..self }
    }

    /// What a CPU read of register `address` (mirrored every 8 bytes) returns,
    /// and the PPU after it.
    pub open spec fn cpu_read(self, address: u16) -> (u8, PpuView) {
        let reg = address % 8;
        if reg == REG_PPUSTATUS {
            (self.status, PpuView { status: with_flag(self.status, STATUS_VBLANK, false), w: false, ..self })
        } else if reg == REG_OAMDATA {
            (self.oam[self.oam_address as int], self)
        } else if reg == REG_PPUDATA {
            let (value, bus) = self.bus.read(self.v);
            if self.v >= 0x3F00 {
                (value, PpuView { bus, ..self }.stepped_vram())
            } else {
                (self.read_buffer, PpuView { bus, read_buffer: value, ..self }.stepped_vram())
            }
        } else {
            (0, self)
        }
    }

    /// What a side-effect-free look at register `address` gives.
    pub open spec fn cpu_peek(self, address: u16) -> u8 {
        let reg = address % 8;
        if reg == REG_PPUSTATUS {
            self.status
        } else if reg == REG_OAMDATA {
            self.oam[self.oam_address as int]
        } else {
            0
        }
    }

    /// The PPU after the CPU writes `data` to register `address`.
    pub open spec fn cpu_write(self, address: u16, data: u8) -> PpuView {
        let reg = address % 8;
        let d = data as u16;
        if reg == REG_PPUCTRL {
            PpuView { ctrl: data, t: (self.t & !0x0C00u16) | ((d & 0x03) << 10u16), ..self }
        } else if reg == REG_PPUMASK {
            PpuView { mask: data, ..self }
        } else if reg == REG_OAMADDR {
            PpuView { oam_address: data, ..self }
        } else if reg == REG_OAMDATA {
            PpuView {
                oam: self.oam.update(self.oam_address as int, data),
                oam_address: crate::bus::add8(self.oam_address, 1),
                ..self
            }
        } else if reg == REG_PPUSCROLL {
            if !self.w {
                PpuView { x: data & 0x07, t: (self.t & !0x001Fu16) | (d >> 3u16), w: true, ..self }
            } else {
                PpuView {
                    t: (self.t & !0x73E0u16) | ((d & 0x07) << 12u16) | ((d & 0xF8) << 2u16),
                    w: false,
                    ..self
                }
            }
        } else if reg == REG_PPUADDR {
            if !self.w {
                PpuView { t: (self.t & 0x00FF) | ((d & 0x3F) << 8u16), w: true, ..self }
            } else {
                let t = (self.t & 0xFF00) | d;
                PpuView { t, v: t, w: false, ..self }
            }
        } else if reg == REG_PPUDATA {
            PpuView { bus: self.bus.write(self.v, data), ..self }.stepped_vram()
        } else {
            self
        }
    }

    /// The rendering work of one dot on a rendered line (visible lines and the
    /// pre-render line, with rendering on): drawing and shifting during dots
    /// 1-256, background fetches during 1-256 and 321-336, the scroll updates
    /// at 256/257 and 280-304, and sprite evaluation and fetching.
    pub open spec fn render_step(self) -> PpuView {
        let cycle = self.cycle;
        let scanline = self.scanline;
        if !(renders(self.mask) && (scanline < 240 || scanline == 261)) {
            self
        } else {
            let s1 = if (1 <= cycle <= 256) || (321 <= cycle <= 336) {
                let s0 = if scanline < 240 && 1 <= cycle <= 256 {
                    self.render_pixel().tick_sprites()
                } else {
                    self
                };
                s0.shift_register().fetch_background_tile()
            } else {
                self
            };
            let s2 = if cycle == 256 {
                s1.increment_y().check_sprites()
            } else {
                s1
            };
            let s3 = if cycle == 257 {
                s2.copy_horizontal_bits()
            } else {
                s2
            };
            let s4 = if 257 <= cycle <= 320 {
                PpuView { oam_address: 0, ..s3 }
            } else {
                s3
            };
            let s5 = if cycle == 320 {
                s4.fetch_sprites()
            } else {
                s4
            };
            if scanline == 261 && 280 <= cycle <= 304 {
                s5.copy_vertical_bits()
            } else {
                s5
            }
        }
    }

    /// Vertical blank starts at dot 1 of line 241 (raising an NMI request when
    /// PPUCTRL enables it) and ends at dot 1 of line 261, which also clears the
    /// sprite flags.
    pub open spec fn vblank_step(self) -> PpuView {
        let s1 = if self.scanline == 241 && self.cycle == 1 {
            PpuView {
                status: with_flag(self.status, STATUS_VBLANK, true),
                nmi_requested: self.nmi_requested || self.ctrl & CTRL_NMI_ENABLE != 0,
                ..self
            }
        } else {
            self
        };
        if self.scanline == 261 && self.cycle == 1 {
            PpuView {
                status: with_flag(
                    with_flag(with_flag(s1.status, STATUS_VBLANK, false), STATUS_SPRITE_ZERO_HIT, false),
                    STATUS_SPRITE_OVERFLOW,
                    false,
                ),
                ..s1
            }
        } else {
            s1
        }
    }

    /// Whether this dot ends its line: dot 340, or dot 339 of the pre-render
    /// line of an odd frame while rendering (that frame is one dot shorter).
    pub open spec fn ends_line(self) -> bool {
        self.cycle >= 340 || (self.scanline == 261 && self.cycle == 339 && renders(self.mask)
            && self.frame % 2 == 1)
    }

    /// Moves to the next dot: lines have 341 dots, frames 262 lines.
    pub open spec fn advance_dot(self) -> PpuView {
        if self.ends_line() {
            if self.scanline >= 261 {
                PpuView {
                    cycle: 0,
                    scanline: 0,
                    frame: if self.frame == u64::MAX {
                        0
                    } else {
                        (self.frame + 1) as u64
                    },
                    ..self
                }
            } else {
                PpuView { cycle: 0, scanline: (self.scanline + 1) as u16, ..self }
            }
        } else {
            PpuView { cycle: (self.cycle + 1) as u16, ..self }
        }
    }

    /// One PPU clock.
    pub open spec fn clock(self) -> PpuView {
        self.render_step().vblank_step().advance_dot()
    }
}

impl Default for Ppu {
    /// A power-on PPU with an empty address space.
    fn default() -> (ppu: Ppu)
        ensures
            ppu@ == PpuView::initial(PpuBus::new_view()),
    {
        Ppu::new()
    }
}

impl Ppu {
    /// A power-on PPU with an empty address space.
    pub fn new() -> (ppu: Ppu)
        ensures
            ppu@ == PpuView::initial(PpuBus::new_view()),
    {
        let ppu = Ppu {
            ctrl: 0,
            mask: 0,
            status: 0,
            oam_address: 0,
            oam: [0u8; 256],
            v: 0,
            t: 0,
            x: 0,
            w: false,
            read_buffer: 0,
            nmi_requested: false,
            scanline: 0,
            cycle: 0,
            frame: 0,
            bg_pattern_shift_lo: 0,
            bg_pattern_shift_hi: 0,
            bg_attr_shift_lo: 0,
            bg_attr_shift_hi: 0,
            next_tile_id: 0,
            next_tile_attr: 0,
            next_tile_lo: 0,
            next_tile_hi: 0,
            secondary_oam: [0xFFu8; 32],
            secondary_oam_count: 0,
            sprite_zero_in_range: false,
            sprite_pattern_lo: [0u8; 8],
            sprite_pattern_hi: [0u8; 8],
            sprite_attr: [0u8; 8],
            sprite_x_counter: [0xFFu8; 8],
            frame_buffer: vec![Rgb { r: 0, g: 0, b: 0 }; FRAMEBUFFER_SIZE],
            bus: PpuBus::new(),
        };
        assert(ppu@.oam =~= filled(256, 0u8));
        assert(ppu@.secondary_oam =~= filled(32, 0xFFu8));
        assert(ppu@.sprite_pattern_lo =~= filled(8, 0u8));
        assert(ppu@.sprite_pattern_hi =~= filled(8, 0u8));
        assert(ppu@.sprite_attr =~= filled(8, 0u8));
        assert(ppu@.sprite_x_counter =~= filled(8, 0xFFu8));
        assert(ppu@.frame_buffer =~= filled(FRAMEBUFFER_SIZE as nat, Rgb { r: 0, g: 0, b: 0 }));
        ppu
    }

    /// This PPU with `bus` as its address space.
    pub fn with_bus(self, bus: PpuBus) -> (ppu: Ppu)
        ensures
            ppu@ == (PpuView { bus: bus@, ..self@ }),
    {
        Ppu { bus, ..self }
    }

    /// The rendering work of one dot.
    fn render_step(&mut self)
        ensures
            final(self)@ == old(self)@.render_step(),
    {
        if rendering_enabled(self.mask) && (self.scanline < 240 || self.scanline == 261) {
            if (1 <= self.cycle && self.cycle <= 256) || (321 <= self.cycle && self.cycle <= 336) {
                if self.scanline < 240 && 1 <= self.cycle && self.cycle <= 256 {
                    self.render_pixel();
                    self.tick_sprites();
                }
                self.shift_register();
                self.fetch_background_tile();
            }
            if self.cycle == 256 {
                self.increment_y();
                self.check_sprites();
            }
            if self.cycle == 257 {
                self.copy_horizontal_bits();
            }
            if 257 <= self.cycle && self.cycle <= 320 {
                self.oam_address = 0;
            }
            if self.cycle == 320 {
                self.fetch_sprites();
            }
            if self.scanline == 261 && 280 <= self.cycle && self.cycle <= 304 {
                self.copy_vertical_bits();
            }
        }
    }

    /// The vertical-blank flag and NMI request of one dot.
    fn vblank_step(&mut self)
        ensures
            final(self)@ == old(self)@.vblank_step(),
    {
        if self.scanline == 241 && self.cycle == 1 {
            crate::ppu::flags::set(&mut self.status, STATUS_VBLANK, true);
            if contains(self.ctrl, CTRL_NMI_ENABLE) {
                self.nmi_requested = true;
            }
        }
        if self.scanline == 261 && self.cycle == 1 {
            crate::ppu::flags::set(&mut self.status, STATUS_VBLANK, false);
            crate::ppu::flags::set(&mut self.status, STATUS_SPRITE_ZERO_HIT, false);
            crate::ppu::flags::set(&mut self.status, STATUS_SPRITE_OVERFLOW, false);
        }
    }

    /// Moves the dot and line counters on by one dot.
    fn advance_dot(&mut self)
        ensures
            final(self)@ == old(self)@.advance_dot(),
    {
        let short_line = self.scanline == 261 && self.cycle == 339 && rendering_enabled(self.mask)
            && self.frame % 2 == 1;
        if self.cycle >= 340 || short_line {
            self.cycle = 0;
            if self.scanline >= 261 {
                self.scanline = 0;
                self.frame = self.frame.wrapping_add(1);
            } else {
                self.scanline = self.scanline + 1;
            }
        } else {
            self.cycle = self.cycle + 1;
        }
    }

    /// Advances the PPU by one dot.
    pub fn clock(&mut self)
        ensures
            final(self)@ == old(self)@.clock(),
    {
        self.render_step();
        self.vblank_step();
        self.advance_dot();
    }

    /// Returns and clears a pending NMI request.
    pub fn take_nmi(&mut self) -> (requested: bool)
        ensures
            requested == old(self).nmi_requested,
            final(self)@ == (PpuView { nmi_requested: false, ..old(self)@ }),
    {
        let requested = self.nmi_requested;
        self.nmi_requested = false;
        requested
    }

    /// Handles a CPU read of a PPU register ($2000-$3FFF, mirrored every 8 bytes).
    pub fn cpu_read(&mut self, address: u16) -> (r: u8)
        ensures
            (r, final(self)@) == old(self)@.cpu_read(address),
    {
        let reg = address & 0x0007;
        proof {
            crate::bits::lemma_word_bits(address);
        }
        if reg == REG_PPUSTATUS {
            let value = self.status;
            crate::ppu::flags::set(&mut self.status, STATUS_VBLANK, false);
            self.w = false;
            value
        } else if reg == REG_OAMDATA {
            self.oam[self.oam_address as usize]
        } else if reg == REG_PPUDATA {
            let result = if self.v >= 0x3F00 {
                self.bus.read(self.v)
            } else {
                let buffered = self.read_buffer;
                self.read_buffer = self.bus.read(self.v);
                buffered
            };
            self.v = self.v.wrapping_add(vram_increment(self.ctrl));
            result
        } else {
            0
        }
    }

    /// The value a CPU read of a PPU register returns, computed without the
    /// read's side effects.
    pub fn read_value(&self, address: u16) -> (r: u8)
        ensures
            r == self@.cpu_read(address).0,
    {
        let reg = address & 0x0007;
        proof {
            crate::bits::lemma_word_bits(address);
        }
        if reg == REG_PPUSTATUS {
            self.status
        } else if reg == REG_OAMDATA {
            self.oam[self.oam_address as usize]
        } else if reg == REG_PPUDATA {
            if self.v >= 0x3F00 {
                self.bus.peek(self.v)
            } else {
                self.read_buffer
            }
        } else {
            0
        }
    }

    /// Looks at a PPU register without disturbing it: PPUSTATUS and OAMDATA
    /// show their contents, the others read as 0.
    pub fn cpu_peek(&self, address: u16) -> (r: u8)
        ensures
            r == self@.cpu_peek(address),
    {
        let reg = address & 0x0007;
        proof {
            crate::bits::lemma_word_bits(address);
        }
        if reg == REG_PPUSTATUS {
            self.status
        } else if reg == REG_OAMDATA {
            self.oam[self.oam_address as usize]
        } else {
            0
        }
    }

    /// Handles a CPU write of a PPU register ($2000-$3FFF, mirrored every 8 bytes).
    pub fn cpu_write(&mut self, address: u16, data: u8)
        ensures
            final(self)@ == old(self)@.cpu_write(address, data),
    {
        let reg = address & 0x0007;
        proof {
            crate::bits::lemma_word_bits(address);
        }
        let d = data as u16;
        if reg == REG_PPUCTRL {
            self.ctrl = data;
            self.t = (self.t & !0x0C00) | ((d & 0x03) << 10);
        } else if reg == REG_PPUMASK {
            self.mask = data;
        } else if reg == REG_OAMADDR {
            self.oam_address = data;
        } else if reg == REG_OAMDATA {
            self.oam[self.oam_address as usize] = data;
            self.oam_address = self.oam_address.wrapping_add(1);
        } else if reg == REG_PPUSCROLL {
            if !self.w {
                self.x = data & 0x07;
                self.t = (self.t & !0x001F) | (d >> 3);
            } else {
                self.t = (self.t & !0x73E0) | ((d & 0x07) << 12) | ((d & 0xF8) << 2);
            }
            self.w = !self.w;
        } else if reg == REG_PPUADDR {
            if !self.w {
                self.t = (self.t & 0x00FF) | ((d & 0x3F) << 8);
            } else {
                self.t = (self.t & 0xFF00) | d;
                self.v = self.t;
            }
            self.w = !self.w;
        } else if reg == REG_PPUDATA {
            self.bus.write(self.v, data);
            self.v = self.v.wrapping_add(vram_increment(self.ctrl));
        }
    }

    pub fn scanline(&self) -> (r: u16)
        ensures
            r == self.scanline,
    {
        self.scanline
    }

    pub fn cycle(&self) -> (r: u16)
        ensures
            r == self.cycle,
    {
        self.cycle
    }

    pub fn frame(&self) -> (r: u64)
        ensures
            r == self.frame,
    {
        self.frame
    }

    /// The picture drawn so far, row by row.
    pub fn framebuffer(&self) -> (r: &Vec<Rgb>)
        ensures
            r@ == self.frame_buffer@,
    {
        &self.frame_buffer
    }
}

impl PpuBus {
    /// The state of a freshly made PPU bus.
    pub open spec fn new_view() -> PpuBusView {
        PpuBusView {
            nametables: filled(0x0800, 0u8),
            palette: filled(32, 0u8),
            cartridge: crate::cartridge::BoardView::empty(),
        }
    }
}


impl PpuView {
    /// The rendering work of a dot leaves the counters, PPUCTRL, PPUMASK and
    /// the NMI request alone.
    pub proof fn lemma_render_step_keeps_timing(self)
        ensures
            self.render_step().same_timing(self),
    {
        let cycle = self.cycle;
        let scanline = self.scanline;
        if renders(self.mask) && (scanline < 240 || scanline == 261) {
            let s0 = if scanline < 240 && 1 <= cycle <= 256 {
                self.lemma_background_steps_keep_timing();
                self.render_pixel().lemma_sprite_steps_keep_timing();
                self.render_pixel().tick_sprites()
            } else {
                self
            };
            s0.lemma_background_steps_keep_timing();
            s0.shift_register().lemma_background_steps_keep_timing();
            let s1 = if (1 <= cycle <= 256) || (321 <= cycle <= 336) {
                s0.shift_register().fetch_background_tile()
            } else {
                self
            };
            s1.lemma_background_steps_keep_timing();
            s1.increment_y().lemma_sprite_steps_keep_timing();
            let s2 = if cycle == 256 {
                s1.increment_y().check_sprites()
            } else {
                s1
            };
            s2.lemma_background_steps_keep_timing();
            let s3 = if cycle == 257 {
                s2.copy_horizontal_bits()
            } else {
                s2
            };
            let s4 = if 257 <= cycle <= 320 {
                PpuView { oam_address: 0, ..s3 }
            } else {
                s3
            };
            s4.lemma_sprite_steps_keep_timing();
            let s5 = if cycle == 320 {
                s4.fetch_sprites()
            } else {
                s4
            };
            s5.lemma_background_steps_keep_timing();
        }
    }

    /// Frame timing: a line has 341 dots (0-340) and a frame 262 lines (0-261),
    /// except that on odd frames with rendering on the pre-render line ends one
    /// dot early; the frame counter moves on when line 261 ends. From any valid
    /// position the clock stays within those bounds.
    pub proof fn lemma_clock_timing(self)
        requires
            self.cycle <= 340,
            self.scanline <= 261,
        ensures
            ({
                let q = self.clock();
                &&& q.cycle <= 340
                &&& q.scanline <= 261
                &&& !self.ends_line() ==> q.cycle == self.cycle + 1 && q.scanline == self.scanline
                    && q.frame == self.frame
                &&& self.ends_line() && self.scanline < 261 ==> q.cycle == 0 && q.scanline
                    == self.scanline + 1 && q.frame == self.frame
                &&& self.ends_line() && self.scanline == 261 ==> q.cycle == 0 && q.scanline == 0
                    && q.frame == if self.frame == u64::MAX {
                    0
                } else {
                    (self.frame + 1) as u64
                }
            }),
            self.ends_line() <==> (self.cycle == 340 || (self.scanline == 261 && self.cycle == 339
                && renders(self.mask) && self.frame % 2 == 1)),
    {
        self.lemma_render_step_keeps_timing();
    }

    /// Vertical blank begins at dot 1 of line 241: the flag is raised, and an NMI
    /// is requested when PPUCTRL enables it.
    pub proof fn lemma_vblank_start(self)
        requires
            self.scanline == 241,
            self.cycle == 1,
        ensures
            self.clock().status & STATUS_VBLANK != 0,
            self.clock().nmi_requested == (self.nmi_requested || self.ctrl & CTRL_NMI_ENABLE != 0),
    {
        crate::bits::lemma_flag_bits(self.status, STATUS_VBLANK);
    }

    /// The NMI request is raised only at dot 1 of line 241, and only when
    /// PPUCTRL enables it; every other dot, rendering or not, leaves it as it
    /// was.
    pub proof fn lemma_clock_nmi(self)
        ensures
            self.clock().nmi_requested == if self.scanline == 241 && self.cycle == 1 {
                self.nmi_requested || self.ctrl & CTRL_NMI_ENABLE != 0
            } else {
                self.nmi_requested
            },
    {
        self.lemma_render_step_keeps_timing();
    }

    /// Vertical blank ends at dot 1 of the pre-render line, which clears the
    /// vertical blank, sprite-zero hit and sprite overflow flags.
    pub proof fn lemma_vblank_end(self)
        requires
            self.scanline == 261,
            self.cycle == 1,
        ensures
            self.clock().status & STATUS_VBLANK == 0,
            self.clock().status & STATUS_SPRITE_ZERO_HIT == 0,
            self.clock().status & STATUS_SPRITE_OVERFLOW == 0,
    {
        self.lemma_render_step_keeps_timing();
        let s = self.render_step().status;
        assert({
            let c = ((s & !0x80u8) & !0x40u8) & !0x20u8;
            c & 0x80 == 0 && c & 0x40 == 0 && c & 0x20 == 0
        }) by (bit_vector);
    }

    /// Reading PPUSTATUS clears the vertical blank flag: a second read right
    /// after reports it clear, and the next register write is a first write.
    pub proof fn lemma_status_read_clears_vblank(self)
        ensures
            self.cpu_read(0x2002).1.cpu_read(0x2002).0 & STATUS_VBLANK == 0,
            !self.cpu_read(0x2002).1.w,
            self.cpu_read(0x2002).0 == self.status,
    {
        crate::bits::lemma_flag_bits(self.status, STATUS_VBLANK);
    }

    /// Scrolling: with the write latch clear, writing X and then Y to
    /// PPUSCROLL puts X's low 3 bits in fine X, X's high 5 bits in coarse X
    /// (`t` bits 0-4), Y's high 5 bits in coarse Y (bits 5-9) and Y's low 3
    /// bits in fine Y (bits 12-14); the nametable bits (10-11) and bit 15 of
    /// `t` are kept, the latch is clear again, and nothing else changes.
    pub proof fn lemma_scroll_pair(self, x: u8, y: u8)
        requires
            !self.w,
        ensures
            ({
                let q = self.cpu_write(0x2005, x).cpu_write(0x2005, y);
                &&& q == (PpuView { t: q.t, x: q.x, ..self })
                &&& q.x == x % 8
                &&& q.t % 32 == x / 8
                &&& (q.t / 32) % 32 == y / 8
                &&& (q.t / 0x1000) % 8 == y % 8
                &&& (q.t / 0x400) % 4 == (self.t / 0x400) % 4
                &&& q.t / 0x8000 == self.t / 0x8000
            }),
    {
        let t = self.t;
        let (xd, yd) = (x as u16, y as u16);
        assert(x & 0x07 == x % 8) by (bit_vector);
        assert(xd < 256 && yd < 256 ==> {
            let t1 = (t & !0x001Fu16) | (xd >> 3u16);
            let t2 = (t1 & !0x73E0u16) | ((yd & 0x07) << 12u16) | ((yd & 0xF8) << 2u16);
            &&& t2 % 32 == xd / 8
            &&& (t2 / 32) % 32 == yd / 8
            &&& (t2 / 0x1000) % 8 == yd % 8
            &&& (t2 / 0x400) % 4 == (t / 0x400) % 4
            &&& t2 / 0x8000 == t / 0x8000
        }) by (bit_vector);
    }

    /// A PPUDATA write stores the byte at the VRAM address on the PPU bus and
    /// then moves the address on by 1, or by 32 when PPUCTRL bit 2 is set,
    /// wrapping at 64 KiB; nothing else changes.
    pub proof fn lemma_data_write(self, data: u8)
        ensures
            self.cpu_write(0x2007, data) == (PpuView {
                bus: self.bus.write(self.v, data),
                v: ((self.v + if (self.ctrl / 4) % 2 == 1 {
                    32int
                } else {
                    1
                }) % 0x10000) as u16,
                ..self
            }),
    {
        crate::ppu::flags::lemma_control_bits(self.ctrl, self.mask);
    }

    /// A PPUCTRL write stores the byte and copies its low two bits (the base
    /// nametable) into bits 10-11 of `t`, keeping the rest of `t`.
    pub proof fn lemma_ctrl_write(self, data: u8)
        ensures
            ({
                let q = self.cpu_write(0x2000, data);
                &&& q == (PpuView { ctrl: data, t: q.t, ..self })
                &&& (q.t / 0x400) % 4 == data % 4
                &&& q.t % 0x400 == self.t % 0x400
                &&& q.t / 0x1000 == self.t / 0x1000
            }),
    {
        let t = self.t;
        let d = data as u16;
        assert(d < 256 ==> {
            let t1 = (t & !0x0C00u16) | ((d & 0x03) << 10u16);
            &&& (t1 / 0x400) % 4 == d % 4
            &&& t1 % 0x400 == t % 0x400
            &&& t1 / 0x1000 == t / 0x1000
        }) by (bit_vector);
    }

    /// Two PPUADDR writes, high byte (6 bits) first, point the VRAM address at
    /// the 14-bit address they form.
    pub proof fn lemma_ppuaddr_pair(self, hi: u8, lo: u8)
        requires
            !self.w,
        ensures
            self.cpu_write(0x2006, hi).cpu_write(0x2006, lo).v == ((hi as u16 & 0x3F) << 8u16) | (
            lo as u16),
            !self.cpu_write(0x2006, hi).cpu_write(0x2006, lo).w,
    {
        let t = self.t;
        let (h, l) = (hi as u16, lo as u16);
        assert(h < 256 && l < 256 ==> (((t & 0x00FF) | ((h & 0x3F) << 8u16)) & 0xFF00) | l == ((h
            & 0x3F) << 8u16) | l) by (bit_vector);
    }

    /// PPUDATA reads below the palette go through a one-byte buffer: a read
    /// returns what the previous read fetched, and keeps the byte at the VRAM
    /// address for the next one.
    pub proof fn lemma_buffered_read(self)
        requires
            self.v < 0x3F00,
        ensures
            self.cpu_read(0x2007).0 == self.read_buffer,
            self.cpu_read(0x2007).1.read_buffer == self.bus.read(self.v).0,
            self.cpu_read(0x2007).1.v == add16(self.v, vram_step(self.ctrl)),
    {
    }

    /// Palette reads through PPUDATA are not buffered: the palette byte comes
    /// back at once.
    pub proof fn lemma_palette_read_unbuffered(self)
        requires
            0x3F00 <= self.v <= 0x3FFF,
        ensures
            self.cpu_read(0x2007).0 == self.bus.palette[crate::ppu::ppu_bus::palette_offset(self.v)],
    {
    }

    /// An OAMDATA write stores at OAMADDR and moves OAMADDR to the next byte.
    pub proof fn lemma_oam_data_write(self, data: u8)
        requires
            self.oam.len() == 256,
        ensures
            self.cpu_write(0x2004, data) == (PpuView {
                oam: self.oam.update(self.oam_address as int, data),
                oam_address: crate::bus::add8(self.oam_address, 1),
                ..self
            }),
            self.cpu_write(0x2004, data).oam == self.oam.update(self.oam_address as int, data),
            self.cpu_write(0x2004, data).oam[self.oam_address as int] == data,
            self.cpu_write(0x2004, data).oam_address == crate::bus::add8(self.oam_address, 1),
    {
    }
}

} // verus!
