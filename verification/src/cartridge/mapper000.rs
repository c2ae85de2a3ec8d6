//! Mapper 000 (NROM): the simplest cartridge wiring, with no bank switching.

use vstd::prelude::*;

use crate::cartridge::mapper::{byte_at, get_byte, Mapper, Mirroring};

verus! {

/// Also known as NROM, the simplest cartridge wiring, typically used by early
/// and small NES games. It has no bank-switching hardware at all.
pub struct Mapper000 {
    prg_rom: Vec<u8>,
    chr_rom: Vec<u8>,
    mirroring: Mirroring,
}

/// The abstract state of an NROM board.
pub struct Mapper000View {
    pub prg: Seq<u8>,
    pub chr: Seq<u8>,
    pub mirroring: Mirroring,
}

impl View for Mapper000 {
    type V = Mapper000View;

    closed spec fn view(&self) -> Mapper000View {
        Mapper000View { prg: self.prg_rom@, chr: self.chr_rom@, mirroring: self.mirroring }
    }
}

impl Mapper000View {
    /// PRG-ROM answers the whole $8000-$FFFF window, repeating when it is
    /// smaller than 32 KiB.
    pub open spec fn cpu_read(self, address: u16) -> Option<u8> {
        if address >= 0x8000 && self.prg.len() > 0 {
            Some(self.prg[(address - 0x8000) % (self.prg.len() as int)])
        } else {
            None
        }
    }

    /// CHR-ROM answers $0000-$1FFF where it has bytes.
    pub open spec fn ppu_read(self, address: u16) -> Option<u8> {
        if address <= 0x1FFF {
            byte_at(self.chr, address as int)
        } else {
            None
        }
    }
}

impl Mapper000 {
    pub fn new(prg_rom: Vec<u8>, chr_rom: Vec<u8>, mirroring: Mirroring) -> (m: Self)
        ensures
            m@ == (Mapper000View { prg: prg_rom@, chr: chr_rom@, mirroring }),
    {
        Self { prg_rom, chr_rom, mirroring }
    }
}

impl Mapper for Mapper000 {
    open spec fn cpu_read_spec(state: Mapper000View, address: u16) -> Option<u8> {
        state.cpu_read(address)
    }

    open spec fn cpu_write_spec(state: Mapper000View, address: u16, data: u8) -> Mapper000View {
        state
    }

    open spec fn ppu_read_spec(state: Mapper000View, address: u16) -> (Option<u8>, Mapper000View) {
        (state.ppu_read(address), state)
    }

    open spec fn ppu_write_spec(state: Mapper000View, address: u16, data: u8) -> Mapper000View {
        state
    }

    open spec fn mirroring_spec(state: Mapper000View) -> Mirroring {
        state.mirroring
    }

    open spec fn irq_pending_spec(state: Mapper000View) -> bool {
        false
    }

    open spec fn irq_clear_spec(state: Mapper000View) -> Mapper000View {
        state
    }

    fn cpu_read(&self, address: u16) -> (r: Option<u8>) {
        if address >= 0x8000 && self.prg_rom.len() > 0 {
            let idx = (address - 0x8000) as usize % self.prg_rom.len();
            Some(self.prg_rom[idx])
        } else {
            None
        }
    }

    fn cpu_write(&mut self, address: u16, data: u8) {
    }

    fn ppu_read(&mut self, address: u16) -> (r: Option<u8>) {
        if address <= 0x1FFF {
            get_byte(&self.chr_rom, address as usize)
        } else {
            None
        }
    }

    fn ppu_write(&mut self, address: u16, data: u8) {
    }

    fn mirroring(&self) -> (m: Mirroring) {
        self.mirroring
    }

    fn irq_pending(&self) -> (r: bool) {
        false
    }

    fn irq_clear(&mut self) {
    }
}


/// A 16 KiB NROM image appears twice: $C000-$FFFF repeats $8000-$BFFF.
pub proof fn lemma_nrom_16k_mirrored(m: Mapper000View, address: u16)
    requires
        m.prg.len() == 0x4000,
        0x8000 <= address <= 0xBFFF,
    ensures
        m.cpu_read(address) == Some(m.prg[address - 0x8000]),
        m.cpu_read((address + 0x4000) as u16) == m.cpu_read(address),
{
}

} // verus!
