//! Mapper 003 (CNROM).
//!
//! CNROM provides simple CHR-ROM bank switching while PRG-ROM is fixed (as on
//! NROM). Writes to $8000-$FFFF select an 8 KiB CHR-ROM bank.

use vstd::prelude::*;

use crate::cartridge::mapper::{at_least_one, byte_at, get_byte, put_byte, store_at, Mapper, Mirroring};

verus! {

/// Size of an 8 KiB CHR-ROM bank.
pub const CHR_BANK_SIZE: usize = 0x2000;

pub struct Mapper003 {
    /// PRG-ROM image.
    prg_rom: Vec<u8>,
    /// CHR-ROM image. Writable when CHR-RAM is used.
    chr_rom: Vec<u8>,
    /// Mirroring mode from the cartridge header.
    mirroring: Mirroring,
    /// Currently selected CHR bank mapped at $0000-$1FFF.
    chr_bank: u8,
}

/// The abstract state of a CNROM board.
pub struct Mapper003View {
    pub prg: Seq<u8>,
    pub chr: Seq<u8>,
    pub mirroring: Mirroring,
    pub chr_bank: u8,
}

impl View for Mapper003 {
    type V = Mapper003View;

    closed spec fn view(&self) -> Mapper003View {
        Mapper003View {
            prg: self.prg_rom@,
            chr: self.chr_rom@,
            mirroring: self.mirroring,
            chr_bank: self.chr_bank,
        }
    }
}

impl Mapper003View {
    /// The offset into CHR for a $0000-$1FFF address: the selected 8 KiB bank.
    pub open spec fn chr_offset(self, address: u16) -> int {
        let bank_count = at_least_one((self.chr.len() / 0x2000) as int);
        (self.chr_bank as int % bank_count) * 0x2000 + address % 0x2000
    }

    pub open spec fn cpu_read(self, address: u16) -> Option<u8> {
        if address >= 0x8000 && self.prg.len() > 0 {
            Some(self.prg[(address - 0x8000) % (self.prg.len() as int)])
        } else {
            None
        }
    }

    /// Any write to $8000-$FFFF selects the CHR bank.
    pub open spec fn cpu_write(self, address: u16, data: u8) -> Mapper003View {
        if address >= 0x8000 {
            Mapper003View { chr_bank: data, ..self }
        } else {
            self
        }
    }

    pub open spec fn ppu_read(self, address: u16) -> Option<u8> {
        if address <= 0x1FFF && self.chr.len() > 0 {
            byte_at(self.chr, self.chr_offset(address))
        } else {
            None
        }
    }

    pub open spec fn ppu_write(self, address: u16, data: u8) -> Mapper003View {
        if address <= 0x1FFF && self.chr.len() > 0 {
            Mapper003View { chr: store_at(self.chr, self.chr_offset(address), data), ..self }
        } else {
            self
        }
    }
}

impl Mapper003 {
    /// A board with CHR bank 0 selected.
    pub fn new(prg_rom: Vec<u8>, chr_rom: Vec<u8>, mirroring: Mirroring) -> (m: Self)
        ensures
            m@ == (Mapper003View { prg: prg_rom@, chr: chr_rom@, mirroring, chr_bank: 0 }),
    {
        Self { prg_rom, chr_rom, mirroring, chr_bank: 0 }
    }

    /// Converts a PPU pattern-table address into an offset within the CHR image.
    fn chr_offset(&self, address: u16) -> (offset: usize)
        ensures
            offset == self@.chr_offset(address),
    {
        proof {
            crate::bits::lemma_word_bits(address);
        }
        let len = self.chr_rom.len();
        let bank_count = if len / CHR_BANK_SIZE < 1 {
            1
        } else {
            len / CHR_BANK_SIZE
        };
        let offset = (address & 0x1FFF) as usize;
        let bank = (self.chr_bank as usize) % bank_count;
        assert(bank * 0x2000 + offset < bank_count * 0x2000) by (nonlinear_arith)
            requires
                offset < 0x2000,
                bank < bank_count,
        ;
        assert(bank_count * 0x2000 <= if len < 0x2000 { 0x2000 } else { len }) by (nonlinear_arith)
            requires
                bank_count == if len / 0x2000 < 1 { 1 } else { len / 0x2000 },
        ;
        bank * CHR_BANK_SIZE + offset
    }
}

impl Mapper for Mapper003 {
    open spec fn cpu_read_spec(state: Mapper003View, address: u16) -> Option<u8> {
        state.cpu_read(address)
    }

    open spec fn cpu_write_spec(state: Mapper003View, address: u16, data: u8) -> Mapper003View {
        state.cpu_write(address, data)
    }

    open spec fn ppu_read_spec(state: Mapper003View, address: u16) -> (Option<u8>, Mapper003View) {
        (state.ppu_read(address), state)
    }

    open spec fn ppu_write_spec(state: Mapper003View, address: u16, data: u8) -> Mapper003View {
        state.ppu_write(address, data)
    }

    open spec fn mirroring_spec(state: Mapper003View) -> Mirroring {
        state.mirroring
    }

    open spec fn irq_pending_spec(state: Mapper003View) -> bool {
        false
    }

    open spec fn irq_clear_spec(state: Mapper003View) -> Mapper003View {
        state
    }

    fn cpu_read(&self, address: u16) -> (r: Option<u8>) {
        if address >= 0x8000 && self.prg_rom.len() > 0 {
            let idx = (address - 0x8000) as usize % self.prg_rom.len();
            Some(self.prg_rom[idx])
        } else {
            None
        }
    }

    fn cpu_write(&mut self, address: u16, data: u8) {
        if address >= 0x8000 {
            self.chr_bank = data;
        }
    }

    fn ppu_read(&mut self, address: u16) -> (r: Option<u8>) {
        if address <= 0x1FFF && self.chr_rom.len() > 0 {
            let idx = self.chr_offset(address);
            get_byte(&self.chr_rom, idx)
        } else {
            None
        }
    }

    fn ppu_write(&mut self, address: u16, data: u8) {
        if address <= 0x1FFF && self.chr_rom.len() > 0 {
            let idx = self.chr_offset(address);
            put_byte(&mut self.chr_rom, idx, data);
        }
    }

    fn mirroring(&self) -> (m: Mirroring) {
        self.mirroring
    }

    fn irq_pending(&self) -> (r: bool) {
        false
    }

    fn irq_clear(&mut self) {
    }
}

/// CNROM banking: a write anywhere in $8000-$FFFF selects the 8 KiB CHR bank
/// the PPU sees (modulo the number of banks), and PRG-ROM is fixed, a 16 KiB
/// image repeating at $C000.
pub proof fn lemma_cnrom_banking(m: Mapper003View, write_address: u16, bank: u8, address: u16)
    requires
        write_address >= 0x8000,
        address <= 0x1FFF,
        m.chr.len() >= 0x2000,
        m.chr.len() % 0x2000 == 0,
    ensures
        m.cpu_write(write_address, bank).ppu_read(address) == Some(
            m.chr[(bank as int % (m.chr.len() / 0x2000) as int) * 0x2000 + address],
        ),
        m.prg.len() == 0x4000 && address < 0x4000 ==> m.cpu_read((0x8000 + address) as u16)
            == m.cpu_read((0xC000 + address) as u16),
{
    let n = m.chr.len() / 0x2000;
    assert((bank as int % n as int) * 0x2000 + address < m.chr.len()) by (nonlinear_arith)
        requires
            n >= 1,
            address < 0x2000,
            m.chr.len() == n * 0x2000,
    ;
}

} // verus!
