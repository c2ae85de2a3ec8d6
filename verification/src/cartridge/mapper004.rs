//! Mapper 004 (Nintendo MMC3).
//!
//! The MMC3 switches 8 KiB PRG banks and 1-2 KiB CHR banks through eight bank
//! registers, controls mirroring and PRG-RAM itself, and counts scanlines by
//! watching PPU address line A12 to raise an IRQ.

use vstd::prelude::*;

use crate::cartridge::mapper::{at_least_one, byte_at, get_byte, put_byte, store_at, Mapper, Mirroring};

verus! {

/// Size of a switchable 8 KiB PRG-ROM bank.
pub const PRG_BANK_SIZE: usize = 0x2000;

/// Size of a switchable 1 KiB CHR-ROM bank.
pub const CHR_BANK_SIZE: usize = 0x0400;

/// Internal PRG-RAM size.
pub const PRG_RAM_SIZE: usize = 0x2000;

pub struct Mapper004 {
    /// PRG-ROM image.
    prg_rom: Vec<u8>,
    /// CHR-ROM image. Writable when CHR-RAM is used.
    chr_rom: Vec<u8>,
    /// Cartridge PRG-RAM.
    prg_ram: Vec<u8>,
    /// Register (0-7) targeted by the next write to an odd $8001-$9FFF address.
    bank_select: u8,
    /// The eight bank registers R0-R7.
    bank_regs: [u8; 8],
    /// PRG-ROM bank mode: false = $8000 swappable / $C000 fixed, true = swapped.
    prg_mode_fix_first: bool,
    /// CHR-ROM A12 inversion, swaps the two CHR halves.
    chr_inversion: bool,
    /// Mirroring, controlled by the mapper itself (via $A000).
    mirroring: Mirroring,
    /// PRG-RAM enable, from $A001 bit 7.
    prg_ram_enabled: bool,
    /// PRG-RAM write protect, from $A001 bit 6.
    prg_ram_write_protect: bool,
    /// Reload value for the IRQ counter.
    irq_latch: u8,
    /// Current IRQ scanline counter.
    irq_counter: u8,
    /// Forces a reload on the next A12 clock.
    irq_reload: bool,
    /// Whether the counter reaching zero asserts the IRQ line.
    irq_enabled: bool,
    /// Latched IRQ line.
    irq_pending: bool,
    /// Last-observed state of PPU address bit 12.
    last_a12: bool,
}

/// The abstract state of an MMC3 board.
pub struct Mapper004View {
    pub prg: Seq<u8>,
    pub chr: Seq<u8>,
    pub ram: Seq<u8>,
    pub bank_select: u8,
    pub bank_regs: [u8; 8],
    pub prg_mode_fix_first: bool,
    pub chr_inversion: bool,
    pub mirroring: Mirroring,
    pub prg_ram_enabled: bool,
    pub prg_ram_write_protect: bool,
    pub irq_latch: u8,
    pub irq_counter: u8,
    pub irq_reload: bool,
    pub irq_enabled: bool,
    pub irq_pending: bool,
    pub last_a12: bool,
}

impl View for Mapper004 {
    type V = Mapper004View;

    closed spec fn view(&self) -> Mapper004View {
        Mapper004View {
            prg: self.prg_rom@,
            chr: self.chr_rom@,
            ram: self.prg_ram@,
            bank_select: self.bank_select,
            bank_regs: self.bank_regs,
            prg_mode_fix_first: self.prg_mode_fix_first,
            chr_inversion: self.chr_inversion,
            mirroring: self.mirroring,
            prg_ram_enabled: self.prg_ram_enabled,
            prg_ram_write_protect: self.prg_ram_write_protect,
            irq_latch: self.irq_latch,
            irq_counter: self.irq_counter,
            irq_reload: self.irq_reload,
            irq_enabled: self.irq_enabled,
            irq_pending: self.irq_pending,
            last_a12: self.last_a12,
        }
    }
}

impl Mapper004View {
    /// The power-on board: all bank registers zero, PRG-RAM zeroed, enabled and
    /// writable, and the IRQ counter idle.
    pub open spec fn initial(prg: Seq<u8>, chr: Seq<u8>, mirroring: Mirroring) -> Mapper004View {
        Mapper004View {
            prg,
            chr,
            ram: Seq::new(PRG_RAM_SIZE as nat, |i: int| 0u8),
            bank_select: 0,
            bank_regs: [0u8, 0, 0, 0, 0, 0, 0, 0],
            prg_mode_fix_first: false,
            chr_inversion: false,
            mirroring,
            prg_ram_enabled: true,
            prg_ram_write_protect: false,
            irq_latch: 0,
            irq_counter: 0,
            irq_reload: false,
            irq_enabled: false,
            irq_pending: false,
            last_a12: false,
        }
    }

    pub open spec fn prg_bank_count(self) -> int {
        at_least_one((self.prg.len() / 0x2000) as int)
    }

    pub open spec fn chr_bank_count(self) -> int {
        at_least_one((self.chr.len() / 0x0400) as int)
    }

    /// The 8 KiB PRG bank mapped into quadrant 0-3 of $8000-$FFFF: R6 and the
    /// second-to-last bank trade places in quadrants 0 and 2 according to the
    /// PRG mode, R7 is always in quadrant 1 and the last bank in quadrant 3.
    pub open spec fn prg_bank_for_quadrant(self, quadrant: int) -> int {
        let second_last = if self.prg_bank_count() >= 2 {
            self.prg_bank_count() - 2
        } else {
            0
        };
        let r6 = (self.bank_regs[6] & 0x3F) as int;
        let bank: int = if quadrant == 0 {
            if self.prg_mode_fix_first {
                second_last
            } else {
                r6
            }
        } else if quadrant == 1 {
            (self.bank_regs[7] & 0x3F) as int
        } else if quadrant == 2 {
            if self.prg_mode_fix_first {
                r6
            } else {
                second_last
            }
        } else {
            self.prg_bank_count() - 1
        };
        bank % self.prg_bank_count()
    }

    pub open spec fn prg_offset(self, address: u16) -> int {
        self.prg_bank_for_quadrant((address - 0x8000) / 0x2000) * 0x2000 + (address - 0x8000)
            % 0x2000
    }

    /// The 1 KiB CHR bank mapped into slot 0-7 of $0000-$1FFF: R0 and R1 map
    /// 2 KiB pairs, R2-R5 single banks, and inversion swaps the two halves.
    pub open spec fn chr_bank_for_slot(self, slot: int) -> int {
        let s = if self.chr_inversion {
            if slot >= 4 {
                slot - 4
            } else {
                slot + 4
            }
        } else {
            slot
        };
        let bank: int = if s == 0 {
            (self.bank_regs[0] & 0xFE) as int
        } else if s == 1 {
            (self.bank_regs[0] | 0x01) as int
        } else if s == 2 {
            (self.bank_regs[1] & 0xFE) as int
        } else if s == 3 {
            (self.bank_regs[1] | 0x01) as int
        } else {
            self.bank_regs[s - 2] as int
        };
        bank % self.chr_bank_count()
    }

    pub open spec fn chr_offset(self, address: u16) -> int {
        self.chr_bank_for_slot((address / 0x0400) as int) * 0x0400 + address % 0x0400
    }

    /// One scanline clock of the IRQ counter: reload when zero or asked to,
    /// otherwise count down; reaching zero with IRQs enabled raises the IRQ.
    pub open spec fn clock_irq_counter(self) -> Mapper004View {
        let counted = if self.irq_counter == 0 || self.irq_reload {
            Mapper004View { irq_counter: self.irq_latch, irq_reload: false, ..self }
        } else {
            Mapper004View { irq_counter: (self.irq_counter - 1) as u8, ..self }
        };
        if counted.irq_counter == 0 && counted.irq_enabled {
            Mapper004View { irq_pending: true, ..counted }
        } else {
            counted
        }
    }

    /// A rising edge on A12 clocks the IRQ counter.
    pub open spec fn watch_a12(self, address: u16) -> Mapper004View {
        let a12 = (address / 0x1000) % 2 == 1;
        let clocked = if a12 && !self.last_a12 {
            self.clock_irq_counter()
        } else {
            self
        };
        Mapper004View { last_a12: a12, ..clocked }
    }

    pub open spec fn cpu_read(self, address: u16) -> Option<u8> {
        if 0x6000 <= address <= 0x7FFF && self.prg_ram_enabled {
            byte_at(self.ram, address - 0x6000)
        } else if address >= 0x8000 && self.prg.len() > 0 {
            Some(self.prg[self.prg_offset(address) % (self.prg.len() as int)])
        } else {
            None
        }
    }

    /// CPU writes: PRG-RAM at $6000-$7FFF (when enabled and not protected);
    /// then, on even/odd addresses of each 8 KiB window from $8000, bank select
    /// and bank data, mirroring and RAM protection, IRQ latch and reload, IRQ
    /// disable (acknowledging it) and enable.
    pub open spec fn cpu_write(self, address: u16, data: u8) -> Mapper004View {
        let even = address % 2 == 0;
        if 0x6000 <= address <= 0x7FFF {
            if self.prg_ram_enabled && !self.prg_ram_write_protect {
                Mapper004View { ram: store_at(self.ram, address - 0x6000, data), ..self }
            } else {
                self
            }
        } else if 0x8000 <= address <= 0x9FFF {
            if even {
                Mapper004View {
                    bank_select: data & 0x07,
                    prg_mode_fix_first: data & 0x40 != 0,
                    chr_inversion: data & 0x80 != 0,
                    ..self
                }
            } else {
                Mapper004View {
                    bank_regs: vstd::array::spec_array_update(
                        self.bank_regs,
                        self.bank_select as int,
                        data,
                    ),
                    ..self
                }
            }
        } else if 0xA000 <= address <= 0xBFFF {
            if even {
                Mapper004View {
                    mirroring: if data & 0x01 != 0 {
                        Mirroring::Horizontal
                    } else {
                        Mirroring::Vertical
                    },
                    ..self
                }
            } else {
                Mapper004View {
                    prg_ram_write_protect: data & 0x40 != 0,
                    prg_ram_enabled: data & 0x80 != 0,
                    ..self
                }
            }
        } else if 0xC000 <= address <= 0xDFFF {
            if even {
                Mapper004View { irq_latch: data, ..self }
            } else {
                Mapper004View { irq_reload: true, ..self }
            }
        } else if address >= 0xE000 {
            if even {
                Mapper004View { irq_enabled: false, irq_pending: false, ..self }
            } else {
                Mapper004View { irq_enabled: true, ..self }
            }
        } else {
            self
        }
    }

    /// PPU reads of pattern memory clock the A12 watcher, then read CHR.
    pub open spec fn ppu_read(self, address: u16) -> (Option<u8>, Mapper004View) {
        let watched = if address <= 0x1FFF {
            self.watch_a12(address)
        } else {
            self
        };
        let value = if address <= 0x1FFF && self.chr.len() > 0 {
            Some(self.chr[self.chr_offset(address) % (self.chr.len() as int)])
        } else {
            None
        };
        (value, watched)
    }

    pub open spec fn ppu_write(self, address: u16, data: u8) -> Mapper004View {
        let watched = if address <= 0x1FFF {
            self.watch_a12(address)
        } else {
            self
        };
        if address <= 0x1FFF && self.chr.len() > 0 {
            Mapper004View {
                chr: self.chr.update(self.chr_offset(address) % (self.chr.len() as int), data),
                ..watched
            }
        } else {
            watched
        }
    }
}

impl Mapper004 {
    /// The bank-select register always names one of the eight bank registers.
    #[verifier::type_invariant]
    spec fn bank_select_in_range(self) -> bool {
        self@.bank_select_valid()
    }

    /// The bank register that the next bank-data write ($8001) fills; every
    /// board's bank select names one of the eight.
    pub fn bank_select(&self) -> (r: u8)
        ensures
            r == self@.bank_select,
            self@.bank_select_valid(),
    {
        proof {
            use_type_invariant(self);
        }
        self.bank_select
    }

    /// A board with all bank registers zero, PRG-RAM enabled and writable, and
    /// the IRQ counter idle.
    pub fn new(prg_rom: Vec<u8>, chr_rom: Vec<u8>, mirroring: Mirroring) -> (m: Self)
        ensures
            m@ == Mapper004View::initial(prg_rom@, chr_rom@, mirroring),
            m@.bank_select_valid(),
    {
        let m = Self {
            prg_rom,
            chr_rom,
            prg_ram: vec![0; PRG_RAM_SIZE],
            bank_select: 0,
            bank_regs: [0; 8],
            prg_mode_fix_first: false,
            chr_inversion: false,
            mirroring,
            prg_ram_enabled: true,
            prg_ram_write_protect: false,
            irq_latch: 0,
            irq_counter: 0,
            irq_reload: false,
            irq_enabled: false,
            irq_pending: false,
            last_a12: false,
        };
        assert(m@.ram =~= Mapper004View::initial(m@.prg, m@.chr, mirroring).ram);
        assert(m@.bank_regs =~= Mapper004View::initial(m@.prg, m@.chr, mirroring).bank_regs);
        m
    }

    fn prg_bank_count(&self) -> (count: usize)
        ensures
            count == self@.prg_bank_count(),
    {
        if self.prg_rom.len() / PRG_BANK_SIZE < 1 {
            1
        } else {
            self.prg_rom.len() / PRG_BANK_SIZE
        }
    }

    fn chr_bank_count(&self) -> (count: usize)
        ensures
            count == self@.chr_bank_count(),
    {
        if self.chr_rom.len() / CHR_BANK_SIZE < 1 {
            1
        } else {
            self.chr_rom.len() / CHR_BANK_SIZE
        }
    }

    /// Resolves which 8 KiB PRG bank is mapped into a $8000-$FFFF quadrant (0-3).
    fn prg_bank_for_quadrant(&self, quadrant: usize) -> (bank: usize)
        requires
            quadrant < 4,
        ensures
            bank == self@.prg_bank_for_quadrant(quadrant as int),
            bank < self@.prg_bank_count(),
    {
        let bank_count = self.prg_bank_count();
        let second_last = bank_count.saturating_sub(2);
        let last = bank_count.saturating_sub(1);
        let r6 = (self.bank_regs[6] & 0x3F) as usize;
        let bank = if quadrant == 0 {
            if self.prg_mode_fix_first {
                second_last
            } else {
                r6
            }
        } else if quadrant == 1 {
            (self.bank_regs[7] & 0x3F) as usize
        } else if quadrant == 2 {
            if self.prg_mode_fix_first {
                r6
            } else {
                second_last
            }
        } else {
            last
        };
        bank % bank_count
    }

    fn prg_offset(&self, address: u16) -> (offset: usize)
        requires
            address >= 0x8000,
        ensures
            offset == self@.prg_offset(address),
    {
        let quadrant = ((address - 0x8000) as usize) / PRG_BANK_SIZE;
        let window_offset = (address as usize - 0x8000) % PRG_BANK_SIZE;
        let bank = self.prg_bank_for_quadrant(quadrant);
        assert(bank * 0x2000 + window_offset < self@.prg_bank_count() * 0x2000) by (nonlinear_arith)
            requires
                window_offset < 0x2000,
                bank < self@.prg_bank_count(),
        ;
        assert(self@.prg_bank_count() * 0x2000 <= if self@.prg.len() < 0x2000 {
            0x2000
        } else {
            self@.prg.len() as int
        }) by (nonlinear_arith)
            requires
                self@.prg_bank_count() == if self@.prg.len() / 0x2000 < 1 {
                    1
                } else {
                    self@.prg.len() / 0x2000
                },
        ;
        assert(self@.prg.len() == self.prg_rom.len());
        assert(bank * 0x2000 + window_offset <= usize::MAX);
        bank * PRG_BANK_SIZE + window_offset
    }

    /// Resolves which 1 KiB CHR bank is mapped into a $0000-$1FFF slot (0-7).
    fn chr_bank_for_slot(&self, slot: usize) -> (bank: usize)
        requires
            slot < 8,
        ensures
            bank == self@.chr_bank_for_slot(slot as int),
            bank < self@.chr_bank_count(),
    {
        proof {
            assert(slot < 8 ==> (slot ^ 0b100) == if slot >= 4 { slot - 4 } else { slot + 4 })
                by (bit_vector);
        }
        let slot = if self.chr_inversion {
            slot ^ 0b100
        } else {
            slot
        };
        let bank: usize = if slot == 0 {
            (self.bank_regs[0] & 0xFE) as usize
        } else if slot == 1 {
            (self.bank_regs[0] | 0x01) as usize
        } else if slot == 2 {
            (self.bank_regs[1] & 0xFE) as usize
        } else if slot == 3 {
            (self.bank_regs[1] | 0x01) as usize
        } else {
            self.bank_regs[slot - 2] as usize
        };
        bank % self.chr_bank_count()
    }

    fn chr_offset(&self, address: u16) -> (offset: usize)
        requires
            address <= 0x1FFF,
        ensures
            offset == self@.chr_offset(address),
    {
        let slot = (address as usize) / CHR_BANK_SIZE;
        let window_offset = (address as usize) % CHR_BANK_SIZE;
        let bank = self.chr_bank_for_slot(slot);
        assert(bank * 0x0400 + window_offset < self@.chr_bank_count() * 0x0400) by (nonlinear_arith)
            requires
                window_offset < 0x0400,
                bank < self@.chr_bank_count(),
        ;
        assert(self@.chr_bank_count() * 0x0400 <= if self@.chr.len() < 0x0400 {
            0x0400
        } else {
            self@.chr.len() as int
        }) by (nonlinear_arith)
            requires
                self@.chr_bank_count() == if self@.chr.len() / 0x0400 < 1 {
                    1
                } else {
                    self@.chr.len() / 0x0400
                },
        ;
        assert(self@.chr.len() == self.chr_rom.len());
        assert(bank * 0x0400 + window_offset <= usize::MAX);
        bank * CHR_BANK_SIZE + window_offset
    }

    /// Watches PPU address bit 12 for the rising edge that clocks the scanline
    /// counter (roughly once per scanline while rendering, since the background
    /// and sprite pattern fetches toggle A12).
    fn watch_a12(&mut self, address: u16)
        ensures
            final(self)@ == old(self)@.watch_a12(address),
    {
        proof {
            use_type_invariant(&*self);
            crate::bits::lemma_word_bits(address);
        }
        let a12 = address & 0x1000 != 0;
        if a12 && !self.last_a12 {
            self.clock_irq_counter();
        }
        self.last_a12 = a12;
    }

    fn clock_irq_counter(&mut self)
        ensures
            final(self)@ == old(self)@.clock_irq_counter(),
    {
        proof {
            use_type_invariant(&*self);
        }
        if self.irq_counter == 0 || self.irq_reload {
            self.irq_counter = self.irq_latch;
            self.irq_reload = false;
        } else {
            self.irq_counter = self.irq_counter - 1;
        }
        if self.irq_counter == 0 && self.irq_enabled {
            self.irq_pending = true;
        }
    }
}

impl Mapper for Mapper004 {
    open spec fn cpu_read_spec(state: Mapper004View, address: u16) -> Option<u8> {
        state.cpu_read(address)
    }

    open spec fn cpu_write_spec(state: Mapper004View, address: u16, data: u8) -> Mapper004View {
        state.cpu_write(address, data)
    }

    open spec fn ppu_read_spec(state: Mapper004View, address: u16) -> (Option<u8>, Mapper004View) {
        state.ppu_read(address)
    }

    open spec fn ppu_write_spec(state: Mapper004View, address: u16, data: u8) -> Mapper004View {
        state.ppu_write(address, data)
    }

    open spec fn mirroring_spec(state: Mapper004View) -> Mirroring {
        state.mirroring
    }

    open spec fn irq_pending_spec(state: Mapper004View) -> bool {
        state.irq_pending
    }

    open spec fn irq_clear_spec(state: Mapper004View) -> Mapper004View {
        Mapper004View { irq_pending: false, ..state }
    }

    fn cpu_read(&self, address: u16) -> (r: Option<u8>) {
        if 0x6000 <= address && address <= 0x7FFF && self.prg_ram_enabled {
            get_byte(&self.prg_ram, (address - 0x6000) as usize)
        } else if address >= 0x8000 && self.prg_rom.len() > 0 {
            let idx = self.prg_offset(address) % self.prg_rom.len();
            Some(self.prg_rom[idx])
        } else {
            None
        }
    }

    #[verifier::rlimit(30)]
    fn cpu_write(&mut self, address: u16, data: u8)
        ensures
            final(self)@.bank_select_valid(),
    {
        proof {
            use_type_invariant(&*self);
            crate::bits::lemma_byte_bits(data);
        }
        let even = address % 2 == 0;
        if 0x6000 <= address && address <= 0x7FFF {
            if self.prg_ram_enabled && !self.prg_ram_write_protect {
                put_byte(&mut self.prg_ram, (address - 0x6000) as usize, data);
            }
        } else if 0x8000 <= address && address <= 0x9FFF {
            if even {
                // Bank select ($8000-$9FFE, even).
                self.bank_select = data & 0x07;
                self.prg_mode_fix_first = data & 0x40 != 0;
                self.chr_inversion = data & 0x80 != 0;
            } else {
                // Bank data ($8001-$9FFF, odd).
                self.bank_regs[self.bank_select as usize] = data;
            }
        } else if 0xA000 <= address && address <= 0xBFFF {
            if even {
                // Mirroring ($A000-$BFFE, even).
                self.mirroring = if data & 0x01 != 0 {
                    Mirroring::Horizontal
                } else {
                    Mirroring::Vertical
                };
            } else {
                // PRG-RAM protect ($A001-$BFFF, odd).
                self.prg_ram_write_protect = data & 0x40 != 0;
                self.prg_ram_enabled = data & 0x80 != 0;
            }
        } else if 0xC000 <= address && address <= 0xDFFF {
            if even {
                // IRQ latch ($C000-$DFFE, even).
                self.irq_latch = data;
            } else {
                // IRQ reload ($C001-$DFFF, odd).
                self.irq_reload = true;
            }
        } else if address >= 0xE000 {
            if even {
                // IRQ disable + acknowledge ($E000-$FFFE, even).
                self.irq_enabled = false;
                self.irq_pending = false;
            } else {
                // IRQ enable ($E001-$FFFF, odd).
                self.irq_enabled = true;
            }
        }
    }

    fn ppu_read(&mut self, address: u16) -> (r: Option<u8>)
        ensures
            final(self)@.bank_select_valid(),
    {
        proof {
            use_type_invariant(&*self);
        }
        let value = if address <= 0x1FFF && self.chr_rom.len() > 0 {
            let idx = self.chr_offset(address) % self.chr_rom.len();
            Some(self.chr_rom[idx])
        } else {
            None
        };
        if address <= 0x1FFF {
            self.watch_a12(address);
        }
        value
    }

    fn ppu_write(&mut self, address: u16, data: u8)
        ensures
            final(self)@.bank_select_valid(),
    {
        proof {
            use_type_invariant(&*self);
        }
        if address <= 0x1FFF && self.chr_rom.len() > 0 {
            let idx = self.chr_offset(address) % self.chr_rom.len();
            self.chr_rom[idx] = data;
        }
        if address <= 0x1FFF {
            self.watch_a12(address);
        }
    }

    fn mirroring(&self) -> (m: Mirroring) {
        self.mirroring
    }

    fn irq_pending(&self) -> (r: bool) {
        self.irq_pending
    }

    fn irq_clear(&mut self)
        ensures
            final(self)@.bank_select_valid(),
    {
        proof {
            use_type_invariant(&*self);
        }
        self.irq_pending = false;
    }
}


impl Mapper004View {
    /// The bank-select register names one of the eight bank registers.
    pub open spec fn bank_select_valid(self) -> bool {
        self.bank_select < 8
    }

    /// The board after `n` clocks of the scanline counter.
    pub open spec fn irq_clocks(self, n: nat) -> Mapper004View
        decreases n,
    {
        if n == 0 {
            self
        } else {
            self.irq_clocks((n - 1) as nat).clock_irq_counter()
        }
    }
}

/// The MMC3 scanline counter: after a reload request with latch value `N`
/// (at least 1) and IRQs enabled, the first clock loads `N`, each later clock
/// counts down, and the IRQ is raised on clock `N + 1`, when the counter
/// reaches 0, and not before.
pub proof fn lemma_mmc3_irq_after_latch_plus_one(m: Mapper004View, k: nat)
    requires
        m.irq_reload,
        m.irq_latch >= 1,
        m.irq_enabled,
        !m.irq_pending,
        1 <= k <= m.irq_latch + 1,
    ensures
        m.irq_clocks(k).irq_counter == m.irq_latch + 1 - k,
        m.irq_clocks(k).irq_pending == (k == m.irq_latch + 1),
        !m.irq_clocks(k).irq_reload,
        m.irq_clocks(k).irq_enabled,
        m.irq_clocks(k).irq_latch == m.irq_latch,
    decreases k,
{
    if k > 1 {
        lemma_mmc3_irq_after_latch_plus_one(m, (k - 1) as nat);
    } else {
        assert(m.irq_clocks(0) == m);
    }
}


/// MMC3 banking: $E000-$FFFF always shows the last 8 KiB PRG bank, and CHR
/// inversion swaps the two 4 KiB halves of the pattern space.
pub proof fn lemma_mmc3_fixed_bank_and_inversion(m: Mapper004View, address: u16)
    requires
        address <= 0x1FFF,
    ensures
        m.prg_bank_for_quadrant(3) == m.prg_bank_count() - 1,
        (Mapper004View { chr_inversion: true, ..m }).chr_offset(address) == (Mapper004View {
            chr_inversion: false,
            ..m
        }).chr_offset(address ^ 0x1000),
{
    assert(address <= 0x1FFF ==> (address ^ 0x1000) / 0x0400 == if address / 0x0400 >= 4 {
        address / 0x0400 - 4
    } else {
        address / 0x0400 + 4
    } && (address ^ 0x1000) % 0x0400 == address % 0x0400) by (bit_vector);
    assert(m.prg_bank_count() >= 1);
    assert((m.prg_bank_count() - 1) % m.prg_bank_count() == m.prg_bank_count() - 1) by {
        vstd::arithmetic::div_mod::lemma_small_mod(
            (m.prg_bank_count() - 1) as nat,
            m.prg_bank_count() as nat,
        );
    }
}

/// The 1 KiB CHR bank slot `slot` (0-7) shows without CHR inversion: R0 and
/// R1 each map a 2 KiB pair (their even bank, then the bank after it) into
/// slots 0-1 and 2-3, and R2-R5 one bank each into slots 4-7; bank numbers
/// wrap at the number of banks.
pub open spec fn mmc3_chr_bank(m: Mapper004View, slot: int) -> int {
    let r0 = m.bank_regs[0] as int;
    let r1 = m.bank_regs[1] as int;
    let n = m.chr_bank_count();
    if slot == 0 {
        (r0 - r0 % 2) % n
    } else if slot == 1 {
        (r0 - r0 % 2 + 1) % n
    } else if slot == 2 {
        (r1 - r1 % 2) % n
    } else if slot == 3 {
        (r1 - r1 % 2 + 1) % n
    } else {
        (m.bank_regs[slot - 2] as int) % n
    }
}

/// MMC3 CHR banking: without inversion each slot shows
/// [`mmc3_chr_bank`]; with inversion the two 4 KiB halves trade places, so
/// slot `k` shows what slot `k` xor 4 would show without it.
pub proof fn lemma_mmc3_chr_banks(m: Mapper004View, slot: int)
    requires
        0 <= slot < 8,
    ensures
        !m.chr_inversion ==> m.chr_bank_for_slot(slot) == mmc3_chr_bank(m, slot),
        m.chr_inversion ==> m.chr_bank_for_slot(slot) == mmc3_chr_bank(
            m,
            if slot < 4 {
                slot + 4
            } else {
                slot - 4
            },
        ),
{
    let r0 = m.bank_regs[0];
    let r1 = m.bank_regs[1];
    assert(r0 & 0xFE == r0 - r0 % 2 && r0 | 0x01 == r0 - r0 % 2 + 1) by (bit_vector);
    assert(r1 & 0xFE == r1 - r1 % 2 && r1 | 0x01 == r1 - r1 % 2 + 1) by (bit_vector);
}

/// MMC3 PRG banking: $A000-$BFFF shows R7 (low 6 bits) and $E000-$FFFF the
/// last bank; $8000-$9FFF and $C000-$DFFF show R6 (low 6 bits) and the
/// second-to-last bank, in that order unless the PRG mode bit swaps them.
/// Bank numbers wrap at the number of 8 KiB banks.
pub proof fn lemma_mmc3_prg_banks(m: Mapper004View)
    ensures
        ({
            let n = m.prg_bank_count();
            let r6 = (m.bank_regs[6] as int % 64) % n;
            let second_last = if n >= 2 {
                n - 2
            } else {
                0
            };
            &&& m.prg_bank_for_quadrant(0) == if m.prg_mode_fix_first {
                second_last
            } else {
                r6
            }
            &&& m.prg_bank_for_quadrant(1) == (m.bank_regs[7] as int % 64) % n
            &&& m.prg_bank_for_quadrant(2) == if m.prg_mode_fix_first {
                r6
            } else {
                second_last
            }
            &&& m.prg_bank_for_quadrant(3) == n - 1
        }),
{
    let r6 = m.bank_regs[6];
    let r7 = m.bank_regs[7];
    assert(r6 & 0x3F == r6 % 64 && r7 & 0x3F == r7 % 64) by (bit_vector);
    let n = m.prg_bank_count();
    assert(n >= 1);
    assert((n - 1) % n == n - 1) by {
        vstd::arithmetic::div_mod::lemma_small_mod((n - 1) as nat, n as nat);
    }
    if n >= 2 {
        assert((n - 2) % n == n - 2) by {
            vstd::arithmetic::div_mod::lemma_small_mod((n - 2) as nat, n as nat);
        }
    }
}

/// The MMC3 registers: each 8 KiB window from $8000 holds an even and an odd
/// register (address bit 0 tells them apart). $8000: bank select (bits 0-2),
/// PRG mode (bit 6) and CHR inversion (bit 7); $8001: the selected bank
/// register; $A000: mirroring (bit 0: horizontal, else vertical); $A001: RAM
/// enable (bit 7) and write protect (bit 6); $C000: IRQ latch; $C001: IRQ
/// reload; $E000: IRQs off and any pending IRQ acknowledged; $E001: IRQs on.
/// A register write changes nothing else. (Every board's bank select is
/// valid: see [`Mapper004::bank_select`].)
pub proof fn lemma_mmc3_registers(m: Mapper004View, address: u16, data: u8)
    requires
        address >= 0x8000,
        m.bank_select_valid(),
    ensures
        ({
            let r = m.cpu_write(address, data);
            let even = address % 2 == 0;
            let window = (address - 0x8000) / 0x2000;
            &&& window == 0 && even ==> r == (Mapper004View {
                bank_select: data % 8,
                prg_mode_fix_first: (data / 64) % 2 == 1,
                chr_inversion: data >= 0x80,
                ..m
            })
            &&& window == 0 && !even ==> r == (Mapper004View {
                bank_regs: r.bank_regs,
                ..m
            }) && r.bank_regs@ == m.bank_regs@.update(m.bank_select as int, data)
            &&& window == 1 && even ==> r == (Mapper004View {
                mirroring: if data % 2 == 1 {
                    Mirroring::Horizontal
                } else {
                    Mirroring::Vertical
                },
                ..m
            })
            &&& window == 1 && !even ==> r == (Mapper004View {
                prg_ram_enabled: data >= 0x80,
                prg_ram_write_protect: (data / 64) % 2 == 1,
                ..m
            })
            &&& window == 2 && even ==> r == (Mapper004View { irq_latch: data, ..m })
            &&& window == 2 && !even ==> r == (Mapper004View { irq_reload: true, ..m })
            &&& window == 3 && even ==> r == (Mapper004View {
                irq_enabled: false,
                irq_pending: false,
                ..m
            })
            &&& window == 3 && !even ==> r == (Mapper004View { irq_enabled: true, ..m })
        }),
{
    crate::bits::lemma_byte_bits(data);
}

} // verus!
