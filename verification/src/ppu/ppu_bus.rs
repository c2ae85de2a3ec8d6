//! The PPU's own 14-bit address space: pattern tables on the cartridge,
//! 2 KiB of nametable RAM folded into four logical nametables by the
//! cartridge's mirroring, and 32 bytes of palette RAM.

use vstd::prelude::*;

pub use crate::cartridge::Mirroring;
use crate::cartridge::{BoardView, Cartridge};

verus! {

/// Represents the PPU's address space.
pub struct PpuBus {
    /// Nametable RAM.
    pub nametables: [u8; 0x0800],
    /// Palette RAM.
    pub palette: [u8; 32],
    /// The cartridge, which supplies the pattern tables and the mirroring.
    pub cartridge: Cartridge,
}

/// The abstract state of the PPU's address space.
pub struct PpuBusView {
    pub nametables: Seq<u8>,
    pub palette: Seq<u8>,
    pub cartridge: BoardView,
}

impl View for PpuBus {
    type V = PpuBusView;

    open spec fn view(&self) -> PpuBusView {
        PpuBusView {
            nametables: self.nametables@,
            palette: self.palette@,
            cartridge: self.cartridge@,
        }
    }
}

/// The nametable RAM byte that address `address` ($2000-$3EFF) selects: the
/// four logical 1 KiB nametables (repeated up to $3EFF) fold onto the two
/// physical ones as the mirroring mode says.
pub open spec fn nametable_offset(mirroring: Mirroring, address: u16) -> int {
    let a = (address - 0x2000) % 0x1000;
    let table = a / 0x0400;
    let offset = a % 0x0400;
    let physical = match mirroring {
        Mirroring::Horizontal => table / 2,
        Mirroring::Vertical => table % 2,
        Mirroring::SingleScreenLower => 0,
        Mirroring::SingleScreenUpper => 1,
    };
    physical * 0x0400 + offset
}

/// The palette RAM byte that address `address` ($3F00-$3FFF) selects: the 32
/// bytes repeat, and entries $10/$14/$18/$1C are the same bytes as
/// $00/$04/$08/$0C.
pub open spec fn palette_offset(address: u16) -> int {
    let i = (address - 0x3F00) % 32;
    if i % 4 == 0 && i >= 16 {
        i - 16
    } else {
        i
    }
}

impl PpuBusView {
    /// The byte a PPU read of `address` returns and the bus after it (a read of
    /// the pattern tables may change the cartridge).
    pub open spec fn read(self, address: u16) -> (u8, PpuBusView) {
        let a = address % 0x4000;
        if a <= 0x1FFF {
            let (r, cartridge) = self.cartridge.ppu_read(address);
            (
                match r {
                    Some(v) => v,
                    None => 0,
                },
                PpuBusView { cartridge, ..self },
            )
        } else if a <= 0x3EFF {
            (self.nametables[nametable_offset(self.cartridge.mirroring(), a)], self)
        } else {
            (self.palette[palette_offset(a)], self)
        }
    }

    /// The bus after a PPU write of `data` to `address`.
    pub open spec fn write(self, address: u16, data: u8) -> PpuBusView {
        let a = address % 0x4000;
        if a <= 0x1FFF {
            PpuBusView { cartridge: self.cartridge.ppu_write(address, data), ..self }
        } else if a <= 0x3EFF {
            PpuBusView {
                nametables: self.nametables.update(
                    nametable_offset(self.cartridge.mirroring(), a),
                    data,
                ),
                ..self
            }
        } else {
            PpuBusView { palette: self.palette.update(palette_offset(a), data), ..self }
        }
    }
}

impl Default for PpuBus {
    /// Empty nametable and palette RAM, with an empty cartridge.
    fn default() -> (bus: PpuBus)
        ensures
            bus@ == PpuBus::new_view(),
    {
        PpuBus::new()
    }
}

impl PpuBus {
    /// Empty nametable and palette RAM, with an empty cartridge.
    pub fn new() -> (bus: PpuBus)
        ensures
            bus@.nametables == Seq::new(0x0800, |i: int| 0u8),
            bus@.palette == Seq::new(32, |i: int| 0u8),
            bus@.cartridge == BoardView::empty(),
    {
        let bus = PpuBus { nametables: [0u8; 0x0800], palette: [0u8; 32], cartridge: Cartridge::new() };
        assert(bus@.nametables =~= Seq::new(0x0800, |i: int| 0u8));
        assert(bus@.palette =~= Seq::new(32, |i: int| 0u8));
        bus
    }

    /// This bus with `cartridge` plugged in.
    pub fn with_cartridge(self, cartridge: Cartridge) -> (bus: PpuBus)
        ensures
            bus@ == (PpuBusView { cartridge: cartridge@, ..self@ }),
    {
        PpuBus { cartridge, ..self }
    }

    /// Reads one byte of the PPU address space.
    pub fn read(&mut self, address: u16) -> (r: u8)
        ensures
            (r, final(self)@) == old(self)@.read(address),
    {
        proof {
            crate::bits::lemma_word_bits(address);
        }
        let a = address & 0x3FFF;
        if a <= 0x1FFF {
            match self.cartridge.ppu_read(address) {
                Some(v) => v,
                None => 0,
            }
        } else if a <= 0x3EFF {
            let index = Self::nametable_index(self.cartridge.mirroring(), a);
            self.nametables[index]
        } else {
            self.palette[Self::palette_index(a)]
        }
    }

    /// The byte a read of `address` returns, for addresses whose reads have no
    /// side effects (anything but the pattern tables).
    pub fn peek(&self, address: u16) -> (r: u8)
        requires
            address > 0x1FFF,
        ensures
            r == self@.read(address).0,
            self@.read(address).1 == self@,
    {
        proof {
            crate::bits::lemma_word_bits(address);
            self@.cartridge.lemma_ppu_read_above_patterns(address);
        }
        let a = address & 0x3FFF;
        if a <= 0x1FFF {
            0
        } else if a <= 0x3EFF {
            let index = Self::nametable_index(self.cartridge.mirroring(), a);
            self.nametables[index]
        } else {
            self.palette[Self::palette_index(a)]
        }
    }

    /// Writes one byte of the PPU address space.
    pub fn write(&mut self, address: u16, data: u8)
        ensures
            final(self)@ == old(self)@.write(address, data),
    {
        proof {
            crate::bits::lemma_word_bits(address);
        }
        let a = address & 0x3FFF;
        if a <= 0x1FFF {
            self.cartridge.ppu_write(address, data);
        } else if a <= 0x3EFF {
            let index = Self::nametable_index(self.cartridge.mirroring(), a);
            self.nametables[index] = data;
        } else {
            let index = Self::palette_index(a);
            self.palette[index] = data;
        }
    }

    /// Maps a $2000-$3EFF address to an index into the 2 KiB of nametable RAM,
    /// applying the mirroring mode.
    fn nametable_index(mirroring: Mirroring, address: u16) -> (index: usize)
        requires
            0x2000 <= address <= 0x3EFF,
        ensures
            index == nametable_offset(mirroring, address),
            index < 0x0800,
    {
        let a = (address - 0x2000) % 0x1000;
        let table = a / 0x0400;
        let offset = (a % 0x0400) as usize;
        let physical = match mirroring {
            Mirroring::Horizontal => table / 2,
            Mirroring::Vertical => table % 2,
            Mirroring::SingleScreenLower => 0,
            Mirroring::SingleScreenUpper => 1,
        };
        physical as usize * 0x0400 + offset
    }

    /// Maps a $3F00-$3FFF address to an index into the 32 bytes of palette RAM.
    fn palette_index(address: u16) -> (index: usize)
        requires
            0x3F00 <= address,
        ensures
            index == palette_offset(address),
            index < 32,
    {
        let mut index = (address - 0x3F00) % 32;
        if index % 4 == 0 && index >= 16 {
            index = index - 16;
        }
        index as usize
    }
}

/// Nametable mirroring: with horizontal mirroring the two upper logical
/// nametables ($2000, $2400) share RAM, as do the two lower ones ($2800,
/// $2C00); with vertical mirroring the left two ($2000, $2800) share, as do
/// the right two; a single-screen mode puts all four on the same 1 KiB.
pub proof fn lemma_nametable_mirroring(offset: u16)
    requires
        offset < 0x0400,
    ensures
        nametable_offset(Mirroring::Horizontal, (0x2000 + offset) as u16) == nametable_offset(
            Mirroring::Horizontal,
            (0x2400 + offset) as u16,
        ),
        nametable_offset(Mirroring::Horizontal, (0x2800 + offset) as u16) == nametable_offset(
            Mirroring::Horizontal,
            (0x2C00 + offset) as u16,
        ),
        nametable_offset(Mirroring::Horizontal, (0x2000 + offset) as u16) != nametable_offset(
            Mirroring::Horizontal,
            (0x2800 + offset) as u16,
        ),
        nametable_offset(Mirroring::Vertical, (0x2000 + offset) as u16) == nametable_offset(
            Mirroring::Vertical,
            (0x2800 + offset) as u16,
        ),
        nametable_offset(Mirroring::Vertical, (0x2400 + offset) as u16) == nametable_offset(
            Mirroring::Vertical,
            (0x2C00 + offset) as u16,
        ),
        nametable_offset(Mirroring::Vertical, (0x2000 + offset) as u16) != nametable_offset(
            Mirroring::Vertical,
            (0x2400 + offset) as u16,
        ),
{
}

/// In a single-screen mode all four logical nametables are the same 1 KiB
/// of RAM: the lower or the upper half.
pub proof fn lemma_single_screen(table: u16, offset: u16)
    requires
        table < 4,
        offset < 0x0400,
    ensures
        nametable_offset(Mirroring::SingleScreenLower, (0x2000 + 0x0400 * table + offset) as u16)
            == offset,
        nametable_offset(Mirroring::SingleScreenUpper, (0x2000 + 0x0400 * table + offset) as u16)
            == 0x0400 + offset,
{
    assert((0x0400 * table + offset) % 0x0400 == offset as int) by (nonlinear_arith)
        requires
            offset < 0x0400,
            table < 4,
    ;
}

/// The nametables repeat from $3000: an address and the one 4 KiB above it
/// select the same byte.
pub proof fn lemma_nametable_repeat(mirroring: Mirroring, address: u16)
    requires
        0x2000 <= address <= 0x2EFF,
    ensures
        nametable_offset(mirroring, address) == nametable_offset(mirroring, (address + 0x1000) as u16),
{
}

/// The palette repeats every 32 bytes, and the backdrop entries of the sprite
/// palettes ($3F10/$3F14/$3F18/$3F1C) are the background ones.
pub proof fn lemma_palette_mirroring(address: u16, k: int)
    requires
        0x3F00 <= address <= 0x3F1F,
        0 <= k < 8,
    ensures
        palette_offset(address) == palette_offset((address + 32 * k) as u16),
        palette_offset(0x3F10) == 0,
        palette_offset(0x3F14) == 4,
        palette_offset(0x3F18) == 8,
        palette_offset(0x3F1C) == 12,
        address % 4 != 0 ==> palette_offset(address) == address - 0x3F00,
{
}


/// PPU reads change nothing: none of the boards answers a pattern-table read
/// by changing state, and nametable and palette reads are plain reads.
pub proof fn lemma_reads_are_quiet(bus: PpuBusView, address: u16)
    ensures
        bus.read(address).1 == bus,
{
}

/// Nametable and palette RAM keep what is written: reading an address right
/// after writing it gives the byte back.
pub proof fn lemma_read_after_write(bus: PpuBusView, address: u16, data: u8)
    requires
        address % 0x4000 >= 0x2000,
        bus.nametables.len() == 0x0800,
        bus.palette.len() == 32,
    ensures
        bus.write(address, data).read(address).0 == data,
        bus.write(address, data).read(address).1 == bus.write(address, data),
{
    let a = address % 0x4000;
    if a <= 0x3EFF {
        let offset = nametable_offset(bus.cartridge.mirroring(), a);
        assert(0 <= offset < 0x0800) by {
            let r = (a - 0x2000) % 0x1000;
            assert(r / 0x0400 < 4);
        }
    }
}

} // verus!
