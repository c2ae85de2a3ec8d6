//! Mapper 002 (UxROM).
//!
//! UxROM provides simple PRG-ROM bank switching. A single 16 KiB PRG bank is
//! mapped at $8000-$BFFF, while the last 16 KiB PRG bank remains permanently
//! mapped at $C000-$FFFF. CHR uses a fixed 8 KiB ROM (or RAM on some boards)
//! with no bank switching.

use vstd::prelude::*;

use crate::cartridge::mapper::{at_least_one, byte_at, get_byte, put_byte, store_at, Mapper, Mirroring};

verus! {

/// Size of a switchable PRG-ROM bank.
pub const PRG_BANK_SIZE: usize = 0x4000;

pub struct Mapper002 {
    /// PRG-ROM image.
    prg_rom: Vec<u8>,
    /// CHR-ROM image. Writable when CHR-RAM is used.
    chr_rom: Vec<u8>,
    /// Mirroring mode from the cartridge header.
    mirroring: Mirroring,
    /// Currently selected PRG bank mapped at $8000-$BFFF.
    prg_bank: u8,
}

/// The abstract state of a UxROM board.
pub struct Mapper002View {
    pub prg: Seq<u8>,
    pub chr: Seq<u8>,
    pub mirroring: Mirroring,
    pub prg_bank: u8,
}

impl View for Mapper002 {
    type V = Mapper002View;

    closed spec fn view(&self) -> Mapper002View {
        Mapper002View {
            prg: self.prg_rom@,
            chr: self.chr_rom@,
            mirroring: self.mirroring,
            prg_bank: self.prg_bank,
        }
    }
}

impl Mapper002View {
    /// The offset into PRG-ROM for a $8000-$FFFF address: the selected bank
    /// below $C000, the last bank from $C000 on.
    pub open spec fn prg_offset(self, address: u16) -> int {
        let bank_count = at_least_one((self.prg.len() / 0x4000) as int);
        let bank: int = if address < 0xC000 {
            self.prg_bank as int
        } else {
            bank_count - 1
        };
        (bank % bank_count) * 0x4000 + address % 0x4000
    }

    pub open spec fn cpu_read(self, address: u16) -> Option<u8> {
        if address >= 0x8000 {
            byte_at(self.prg, self.prg_offset(address))
        } else {
            None
        }
    }

    /// Any write to $8000-$FFFF selects the switchable bank.
    pub open spec fn cpu_write(self, address: u16, data: u8) -> Mapper002View {
        if address >= 0x8000 {
            Mapper002View { prg_bank: data, ..self }
        } else {
            self
        }
    }

    pub open spec fn ppu_read(self, address: u16) -> Option<u8> {
        if address <= 0x1FFF && self.chr.len() > 0 {
            byte_at(self.chr, address as int)
        } else {
            None
        }
    }

    /// PPU writes store into CHR at the address itself (a write past the end
    /// of a short image stores nothing).
    pub open spec fn ppu_write(self, address: u16, data: u8) -> Mapper002View {
        if address <= 0x1FFF && self.chr.len() > 0 {
            Mapper002View { chr: store_at(self.chr, address as int, data), ..self }
        } else {
            self
        }
    }
}

impl Mapper002 {
    /// A board with bank 0 selected.
    pub fn new(prg_rom: Vec<u8>, chr_rom: Vec<u8>, mirroring: Mirroring) -> (m: Self)
        ensures
            m@ == (Mapper002View { prg: prg_rom@, chr: chr_rom@, mirroring, prg_bank: 0 }),
    {
        Self { prg_rom, chr_rom, mirroring, prg_bank: 0 }
    }

    /// Converts a CPU PRG-ROM address into an offset within the cartridge image.
    fn prg_offset(&self, address: u16) -> (offset: usize)
        ensures
            offset == self@.prg_offset(address),
    {
        proof {
            crate::bits::lemma_word_bits(address);
        }
        let len = self.prg_rom.len();
        let bank_count = if len / PRG_BANK_SIZE < 1 {
            1
        } else {
            len / PRG_BANK_SIZE
        };
        let offset = (address & 0x3FFF) as usize;
        let bank = if address < 0xC000 {
            self.prg_bank as usize
        } else {
            bank_count - 1
        };
        assert((bank % bank_count) * 0x4000 + offset < bank_count * 0x4000) by (nonlinear_arith)
            requires
                offset < 0x4000,
                bank_count >= 1,
        ;
        assert(bank_count * 0x4000 <= if len < 0x4000 { 0x4000 } else { len }) by (nonlinear_arith)
            requires
                bank_count == if len / 0x4000 < 1 { 1 } else { len / 0x4000 },
        ;
        (bank % bank_count) * PRG_BANK_SIZE + offset
    }
}

impl Mapper for Mapper002 {
    open spec fn cpu_read_spec(state: Mapper002View, address: u16) -> Option<u8> {
        state.cpu_read(address)
    }

    open spec fn cpu_write_spec(state: Mapper002View, address: u16, data: u8) -> Mapper002View {
        state.cpu_write(address, data)
    }

    open spec fn ppu_read_spec(state: Mapper002View, address: u16) -> (Option<u8>, Mapper002View) {
        (state.ppu_read(address), state)
    }

    open spec fn ppu_write_spec(state: Mapper002View, address: u16, data: u8) -> Mapper002View {
        state.ppu_write(address, data)
    }

    open spec fn mirroring_spec(state: Mapper002View) -> Mirroring {
        state.mirroring
    }

    open spec fn irq_pending_spec(state: Mapper002View) -> bool {
        false
    }

    open spec fn irq_clear_spec(state: Mapper002View) -> Mapper002View {
        state
    }

    fn cpu_read(&self, address: u16) -> (r: Option<u8>) {
        if address >= 0x8000 {
            let idx = self.prg_offset(address);
            get_byte(&self.prg_rom, idx)
        } else {
            None
        }
    }

    fn cpu_write(&mut self, address: u16, data: u8) {
        if address >= 0x8000 {
            self.prg_bank = data;
        }
    }

    fn ppu_read(&mut self, address: u16) -> (r: Option<u8>) {
        if address <= 0x1FFF && self.chr_rom.len() > 0 {
            get_byte(&self.chr_rom, address as usize)
        } else {
            None
        }
    }

    fn ppu_write(&mut self, address: u16, data: u8) {
        if address <= 0x1FFF && self.chr_rom.len() > 0 {
            put_byte(&mut self.chr_rom, address as usize, data);
        }
    }

    fn mirroring(&self) -> (m: Mirroring) {
        self.mirroring
    }

    fn irq_pending(&self) -> (r: bool) {
        false
    }

    fn irq_clear(&mut self) {
    }
}


/// UxROM banking: a write anywhere in $8000-$FFFF selects the 16 KiB bank
/// seen at $8000-$BFFF, while $C000-$FFFF always shows the last bank.
pub proof fn lemma_uxrom_banking(m: Mapper002View, write_address: u16, bank: u8, offset: u16)
    requires
        write_address >= 0x8000,
        m.prg.len() >= 0x4000,
        m.prg.len() % 0x4000 == 0,
        offset < 0x4000,
    ensures
        m.cpu_write(write_address, bank).cpu_read((0x8000 + offset) as u16) == Some(
            m.prg[(bank as int % (m.prg.len() / 0x4000) as int) * 0x4000 + offset],
        ),
        m.cpu_write(write_address, bank).cpu_read((0xC000 + offset) as u16) == Some(
            m.prg[m.prg.len() - 0x4000 + offset],
        ),
{
    let n = m.prg.len() / 0x4000;
    assert((bank as int % n as int) * 0x4000 + offset < m.prg.len()) by (nonlinear_arith)
        requires
            n >= 1,
            offset < 0x4000,
            m.prg.len() == n * 0x4000,
    ;
    assert((n - 1) * 0x4000 == m.prg.len() - 0x4000) by (nonlinear_arith)
        requires
            m.prg.len() == n * 0x4000,
    ;
    assert(((n - 1) as int) % (n as int) == n - 1) by {
        vstd::arithmetic::div_mod::lemma_small_mod((n - 1) as nat, n as nat);
    }
    assert(((0xC000 + offset) as u16) % 0x4000 == offset);
    assert(((0x8000 + offset) as u16) % 0x4000 == offset);
}

} // verus!
