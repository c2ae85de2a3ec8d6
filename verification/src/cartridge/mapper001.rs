//! Mapper 001 (Nintendo MMC1).
//!
//! MMC1 provides serially-programmed bank switching for PRG-ROM and CHR-ROM,
//! selectable nametable mirroring, and PRG-RAM.

use vstd::prelude::*;

use crate::cartridge::mapper::{at_least_one, byte_at, get_byte, put_byte, store_at, Mapper, Mirroring};

verus! {

/// Size of a switchable PRG-ROM bank.
pub const PRG_BANK_SIZE: usize = 0x4000;

/// Size of a switchable CHR-ROM bank.
pub const CHR_BANK_SIZE: usize = 0x1000;

/// Internal PRG-RAM size.
pub const PRG_RAM_SIZE: usize = 0x2000;

/// PRG-ROM banking modes selected by the control register.
#[derive(Clone, Copy, PartialEq, Eq, Structural)]
pub enum PrgBankMode {
    /// Switch a single 32 KiB PRG window.
    Switch32Kb,
    /// Fix the first 16 KiB bank at $8000 and switch the upper bank.
    FixFirst,
    /// Fix the last 16 KiB bank at $C000 and switch the lower bank.
    FixLast,
}

/// CHR-ROM banking modes selected by the control register.
#[derive(Clone, Copy, PartialEq, Eq, Structural)]
pub enum ChrBankMode {
    /// Switch one 8 KiB CHR bank.
    Switch8Kb,
    /// Independently switch two 4 KiB CHR banks.
    Switch4Kb,
}

pub struct Mapper001 {
    /// PRG-ROM image.
    prg_rom: Vec<u8>,
    /// CHR-ROM image. Writable when CHR-RAM is used.
    chr_rom: Vec<u8>,
    /// Cartridge PRG-RAM.
    prg_ram: Vec<u8>,
    /// Serial shift register used to program the MMC1 registers.
    shift_register: u8,
    /// Number of bits currently loaded in the shift register.
    shift_count: u8,
    /// MMC1 control register.
    control: u8,
    /// CHR bank register 0.
    chr_bank_0: u8,
    /// CHR bank register 1.
    chr_bank_1: u8,
    /// PRG bank register.
    prg_bank: u8,
}

/// The abstract state of an MMC1 board.
pub struct Mapper001View {
    pub prg: Seq<u8>,
    pub chr: Seq<u8>,
    pub ram: Seq<u8>,
    pub shift_register: u8,
    pub shift_count: u8,
    pub control: u8,
    pub chr_bank_0: u8,
    pub chr_bank_1: u8,
    pub prg_bank: u8,
}

impl View for Mapper001 {
    type V = Mapper001View;

    closed spec fn view(&self) -> Mapper001View {
        Mapper001View {
            prg: self.prg_rom@,
            chr: self.chr_rom@,
            ram: self.prg_ram@,
            shift_register: self.shift_register,
            shift_count: self.shift_count,
            control: self.control,
            chr_bank_0: self.chr_bank_0,
            chr_bank_1: self.chr_bank_1,
            prg_bank: self.prg_bank,
        }
    }
}

impl Mapper001View {
    /// The power-on board: PRG-RAM zeroed, the serial port idle and PRG mode 3
    /// (last bank fixed) selected.
    pub open spec fn initial(prg: Seq<u8>, chr: Seq<u8>) -> Mapper001View {
        Mapper001View {
            prg,
            chr,
            ram: Seq::new(PRG_RAM_SIZE as nat, |i: int| 0u8),
            shift_register: 0,
            shift_count: 0,
            control: 0b0_11_00,
            chr_bank_0: 0,
            chr_bank_1: 0,
            prg_bank: 0,
        }
    }

    /// The PRG banking mode in control bits 2-3.
    pub open spec fn prg_bank_mode(self) -> PrgBankMode {
        let mode = (self.control >> 2) & 0b11;
        if mode <= 1 {
            PrgBankMode::Switch32Kb
        } else if mode == 2 {
            PrgBankMode::FixFirst
        } else {
            PrgBankMode::FixLast
        }
    }

    /// The CHR banking mode in control bit 4.
    pub open spec fn chr_bank_mode(self) -> ChrBankMode {
        if self.control & 0b1_00_00 != 0 {
            ChrBankMode::Switch4Kb
        } else {
            ChrBankMode::Switch8Kb
        }
    }

    /// The offset into PRG-ROM that a $8000-$FFFF address selects.
    pub open spec fn prg_offset(self, address: u16) -> int {
        let bank_count = at_least_one((self.prg.len() / 0x4000) as int);
        let bank: int = match self.prg_bank_mode() {
            PrgBankMode::Switch32Kb => (self.prg_bank & 0b1110) + if address >= 0xC000 {
                1int
            } else {
                0
            },
            PrgBankMode::FixFirst => if address < 0xC000 {
                0
            } else {
                (self.prg_bank & 0x0F) as int
            },
            PrgBankMode::FixLast => if address < 0xC000 {
                (self.prg_bank & 0x0F) as int
            } else {
                bank_count - 1
            },
        };
        (bank % bank_count) * 0x4000 + address % 0x4000
    }

    /// The offset into CHR that a $0000-$1FFF address selects.
    pub open spec fn chr_offset(self, address: u16) -> int {
        let bank_count = at_least_one((self.chr.len() / 0x1000) as int);
        let bank: int = match self.chr_bank_mode() {
            ChrBankMode::Switch8Kb => (self.chr_bank_0 & 0b1_1110) + if address >= 0x1000 {
                1int
            } else {
                0
            },
            ChrBankMode::Switch4Kb => if address < 0x1000 {
                self.chr_bank_0 as int
            } else {
                self.chr_bank_1 as int
            },
        };
        (bank % bank_count) * 0x1000 + address % 0x1000
    }

    pub open spec fn cpu_read(self, address: u16) -> Option<u8> {
        if 0x6000 <= address <= 0x7FFF {
            byte_at(self.ram, address - 0x6000)
        } else if address >= 0x8000 {
            byte_at(self.prg, self.prg_offset(address) % at_least_one(self.prg.len() as int))
        } else {
            None
        }
    }

    /// CPU writes: $6000-$7FFF store into PRG-RAM; $8000-$FFFF feed the serial
    /// port. A byte with bit 7 set resets the port (and selects PRG mode 3);
    /// otherwise bit 0 is shifted in, and the fifth bit loads the register that
    /// address bits 13-14 select.
    pub open spec fn cpu_write(self, address: u16, data: u8) -> Mapper001View {
        if 0x6000 <= address <= 0x7FFF {
            Mapper001View { ram: store_at(self.ram, address - 0x6000, data), ..self }
        } else if address < 0x8000 {
            self
        } else if data & 0x80 != 0 {
            Mapper001View {
                shift_register: 0,
                shift_count: 0,
                control: self.control | 0b0_11_00,
                ..self
            }
        } else {
            let value = (self.shift_register >> 1) | ((data & 1) << 4);
            if self.shift_count + 1 == 5 {
                let target = (address >> 13) & 0b11;
                let loaded = if target == 0 {
                    Mapper001View { control: value, ..self }
                } else if target == 1 {
                    Mapper001View { chr_bank_0: value, ..self }
                } else if target == 2 {
                    Mapper001View { chr_bank_1: value, ..self }
                } else {
                    Mapper001View { prg_bank: value, ..self }
                };
                Mapper001View { shift_register: 0, shift_count: 0, ..loaded }
            } else {
                Mapper001View {
                    shift_register: value,
                    shift_count: (self.shift_count + 1) as u8,
                    ..self
                }
            }
        }
    }

    pub open spec fn ppu_read(self, address: u16) -> Option<u8> {
        if address <= 0x1FFF && self.chr.len() > 0 {
            Some(self.chr[self.chr_offset(address) % (self.chr.len() as int)])
        } else {
            None
        }
    }

    pub open spec fn ppu_write(self, address: u16, data: u8) -> Mapper001View {
        if address <= 0x1FFF && self.chr.len() > 0 {
            Mapper001View {
                chr: self.chr.update(self.chr_offset(address) % (self.chr.len() as int), data),
                ..self
            }
        } else {
            self
        }
    }

    /// Control bits 0-1 select the mirroring.
    pub open spec fn mirroring(self) -> Mirroring {
        let mode = self.control & 0b11;
        if mode == 0 {
            Mirroring::SingleScreenLower
        } else if mode == 1 {
            Mirroring::SingleScreenUpper
        } else if mode == 2 {
            Mirroring::Vertical
        } else {
            Mirroring::Horizontal
        }
    }
}

impl Mapper001 {
    /// The serial port never holds a complete five-bit value, and an idle port
    /// holds no bits.
    #[verifier::type_invariant]
    spec fn shift_count_in_range(self) -> bool {
        self@.serial_port_valid()
    }

    /// The serial port's shift register and the number of bits shifted in.
    /// Every board's port is valid: fewer than five bits, none when idle.
    pub fn serial_port(&self) -> (r: (u8, u8))
        ensures
            r == (self@.shift_register, self@.shift_count),
            self@.serial_port_valid(),
    {
        proof {
            use_type_invariant(self);
        }
        (self.shift_register, self.shift_count)
    }

    /// A board with empty PRG-RAM, the serial port idle and PRG mode 3 (last
    /// bank fixed) selected. The mirroring argument is ignored: MMC1 selects
    /// mirroring through its control register.
    pub fn new(prg_rom: Vec<u8>, chr_rom: Vec<u8>, mirroring: Mirroring) -> (m: Self)
        ensures
            m@ == Mapper001View::initial(prg_rom@, chr_rom@),
            m@.serial_port_valid(),
    {
        let m = Self {
            prg_rom,
            chr_rom,
            prg_ram: vec![0; PRG_RAM_SIZE],
            shift_register: 0,
            shift_count: 0,
            control: 0b0_11_00,
            chr_bank_0: 0,
            chr_bank_1: 0,
            prg_bank: 0,
        };
        assert(m@.ram =~= Mapper001View::initial(m@.prg, m@.chr).ram);
        m
    }

    /// Decodes the PRG banking mode from the control register.
    fn prg_bank_mode(&self) -> (mode: PrgBankMode)
        ensures
            mode == self@.prg_bank_mode(),
    {
        let mode = (self.control >> 2) & 0b11;
        if mode <= 1 {
            PrgBankMode::Switch32Kb
        } else if mode == 2 {
            PrgBankMode::FixFirst
        } else {
            PrgBankMode::FixLast
        }
    }

    /// Decodes the CHR banking mode from the control register.
    fn chr_bank_mode(&self) -> (mode: ChrBankMode)
        ensures
            mode == self@.chr_bank_mode(),
    {
        if self.control & 0b1_00_00 != 0 {
            ChrBankMode::Switch4Kb
        } else {
            ChrBankMode::Switch8Kb
        }
    }

    /// Converts a CPU PRG-ROM address into an offset within the cartridge
    /// image, applying the current banking mode.
    fn prg_offset(&self, address: u16) -> (offset: usize)
        ensures
            offset == self@.prg_offset(address),
    {
        proof {
            crate::bits::lemma_word_bits(address);
        }
        let len = self.prg_rom.len();
        let bank_count = if len / PRG_BANK_SIZE < 1 {
            1
        } else {
            len / PRG_BANK_SIZE
        };
        let window_offset = (address & 0x3FFF) as usize;
        let bank: usize = match self.prg_bank_mode() {
            PrgBankMode::Switch32Kb => {
                let base = (self.prg_bank & 0b1110) as usize;
                base + if address >= 0xC000 {
                    1
                } else {
                    0
                }
            },
            PrgBankMode::FixFirst => {
                if address < 0xC000 {
                    0
                } else {
                    (self.prg_bank & 0x0F) as usize
                }
            },
            PrgBankMode::FixLast => {
                if address < 0xC000 {
                    (self.prg_bank & 0x0F) as usize
                } else {
                    bank_count - 1
                }
            },
        };
        assert((bank % bank_count) * 0x4000 + window_offset < bank_count * 0x4000) by (nonlinear_arith)
            requires
                window_offset < 0x4000,
                bank_count >= 1,
        ;
        assert(bank_count * 0x4000 <= if len < 0x4000 { 0x4000 } else { len }) by (nonlinear_arith)
            requires
                bank_count == if len / 0x4000 < 1 { 1 } else { len / 0x4000 },
        ;
        (bank % bank_count) * PRG_BANK_SIZE + window_offset
    }

    /// Converts a PPU pattern-table address into an offset within the CHR
    /// image, applying the current banking mode.
    fn chr_offset(&self, address: u16) -> (offset: usize)
        ensures
            offset == self@.chr_offset(address),
    {
        proof {
            crate::bits::lemma_word_bits(address);
        }
        let len = self.chr_rom.len();
        let bank_count = if len / CHR_BANK_SIZE < 1 {
            1
        } else {
            len / CHR_BANK_SIZE
        };
        let window_offset = (address & 0x0FFF) as usize;
        let bank: usize = match self.chr_bank_mode() {
            ChrBankMode::Switch8Kb => {
                let base = (self.chr_bank_0 & 0b1_1110) as usize;
                base + if address >= 0x1000 {
                    1
                } else {
                    0
                }
            },
            ChrBankMode::Switch4Kb => {
                if address < 0x1000 {
                    self.chr_bank_0 as usize
                } else {
                    self.chr_bank_1 as usize
                }
            },
        };
        assert((bank % bank_count) * 0x1000 + window_offset < bank_count * 0x1000) by (nonlinear_arith)
            requires
                window_offset < 0x1000,
                bank_count >= 1,
        ;
        assert(bank_count * 0x1000 <= if len < 0x1000 { 0x1000 } else { len }) by (nonlinear_arith)
            requires
                bank_count == if len / 0x1000 < 1 { 1 } else { len / 0x1000 },
        ;
        (bank % bank_count) * CHR_BANK_SIZE + window_offset
    }
}

impl Mapper for Mapper001 {
    open spec fn cpu_read_spec(state: Mapper001View, address: u16) -> Option<u8> {
        state.cpu_read(address)
    }

    open spec fn cpu_write_spec(state: Mapper001View, address: u16, data: u8) -> Mapper001View {
        state.cpu_write(address, data)
    }

    open spec fn ppu_read_spec(state: Mapper001View, address: u16) -> (Option<u8>, Mapper001View) {
        (state.ppu_read(address), state)
    }

    open spec fn ppu_write_spec(state: Mapper001View, address: u16, data: u8) -> Mapper001View {
        state.ppu_write(address, data)
    }

    open spec fn mirroring_spec(state: Mapper001View) -> Mirroring {
        state.mirroring()
    }

    open spec fn irq_pending_spec(state: Mapper001View) -> bool {
        false
    }

    open spec fn irq_clear_spec(state: Mapper001View) -> Mapper001View {
        state
    }

    fn cpu_read(&self, address: u16) -> (r: Option<u8>)
        ensures
            self@.serial_port_valid(),
    {
        proof {
            use_type_invariant(self);
        }
        if 0x6000 <= address && address <= 0x7FFF {
            get_byte(&self.prg_ram, (address - 0x6000) as usize)
        } else if address >= 0x8000 {
            let len = self.prg_rom.len();
            let modulus = if len < 1 {
                1
            } else {
                len
            };
            let idx = self.prg_offset(address) % modulus;
            get_byte(&self.prg_rom, idx)
        } else {
            None
        }
    }

    fn cpu_write(&mut self, address: u16, data: u8)
        ensures
            final(self)@.serial_port_valid(),
    {
        proof {
            use_type_invariant(&*self);
        }
        if 0x6000 <= address && address <= 0x7FFF {
            put_byte(&mut self.prg_ram, (address - 0x6000) as usize, data);
            return;
        }
        if address < 0x8000 {
            return;
        }
        // Bit 7 immediately resets the serial loader.
        if data & 0x80 != 0 {
            self.shift_register = 0;
            self.shift_count = 0;
            self.control = self.control | 0b0_11_00;
            return;
        }
        let value = (self.shift_register >> 1) | ((data & 1) << 4);
        let count = self.shift_count + 1;
        if count == 5 {
            let target = (address >> 13) & 0b11;
            if target == 0 {
                self.control = value;
            } else if target == 1 {
                self.chr_bank_0 = value;
            } else if target == 2 {
                self.chr_bank_1 = value;
            } else {
                self.prg_bank = value;
            }
            self.shift_register = 0;
            self.shift_count = 0;
        } else {
            self.shift_count = count;
            self.shift_register = value;
        }
    }

    fn ppu_read(&mut self, address: u16) -> (r: Option<u8>)
        ensures
            final(self)@.serial_port_valid(),
    {
        proof {
            use_type_invariant(&*self);
        }
        if address <= 0x1FFF && self.chr_rom.len() > 0 {
            let idx = self.chr_offset(address) % self.chr_rom.len();
            Some(self.chr_rom[idx])
        } else {
            None
        }
    }

    fn ppu_write(&mut self, address: u16, data: u8)
        ensures
            final(self)@.serial_port_valid(),
    {
        proof {
            use_type_invariant(&*self);
        }
        if address <= 0x1FFF && self.chr_rom.len() > 0 {
            let idx = self.chr_offset(address) % self.chr_rom.len();
            self.chr_rom[idx] = data;
        }
    }

    fn mirroring(&self) -> (m: Mirroring)
        ensures
            self@.serial_port_valid(),
    {
        proof {
            use_type_invariant(self);
        }
        let mode = self.control & 0b11;
        if mode == 0 {
            Mirroring::SingleScreenLower
        } else if mode == 1 {
            Mirroring::SingleScreenUpper
        } else if mode == 2 {
            Mirroring::Vertical
        } else {
            Mirroring::Horizontal
        }
    }

    fn irq_pending(&self) -> (r: bool)
        ensures
            self@.serial_port_valid(),
    {
        proof {
            use_type_invariant(self);
        }
        false
    }

    fn irq_clear(&mut self)
        ensures
            final(self)@.serial_port_valid(),
    {
        proof {
            use_type_invariant(&*self);
        }
    }
}


/// The value the serial port assembles from five writes: bit 0 of each,
/// first write in bit 0.
pub open spec fn serial_value(d0: u8, d1: u8, d2: u8, d3: u8, d4: u8) -> u8 {
    ((d0 & 1) | ((d1 & 1) << 1u8) | ((d2 & 1) << 2u8) | ((d3 & 1) << 3u8) | ((d4 & 1) << 4u8))
        as u8
}

impl Mapper001View {
    /// The serial port holds fewer than five bits, and none when idle.
    pub open spec fn serial_port_valid(self) -> bool {
        &&& self.shift_count < 5
        &&& self.shift_count == 0 ==> self.shift_register == 0
    }

    /// The register that a complete serial write to `address` loads.
    pub open spec fn serial_target(self, address: u16) -> u8 {
        let target = (address >> 13u16) & 0b11;
        if target == 0 {
            self.control
        } else if target == 1 {
            self.chr_bank_0
        } else if target == 2 {
            self.chr_bank_1
        } else {
            self.prg_bank
        }
    }
}

/// MMC1 serial loading: starting from an idle port (every board's port is
/// valid, see [`Mapper001::serial_port`], so an idle port holds no bits),
/// five writes anywhere in $8000-$FFFF with bit 7 clear shift in one bit
/// each (least significant first). Only the fifth write commits: its
/// address picks the register ($8000-$9FFF control, $A000-$BFFF CHR bank 0,
/// $C000-$DFFF CHR bank 1, $E000-$FFFF PRG bank) that receives the five bits,
/// the other registers and the memories keep their values, and the port is
/// idle again.
pub proof fn lemma_mmc1_serial_load(
    m: Mapper001View,
    a0: u16,
    a1: u16,
    a2: u16,
    a3: u16,
    a4: u16,
    d0: u8,
    d1: u8,
    d2: u8,
    d3: u8,
    d4: u8,
)
    requires
        m.serial_port_valid(),
        m.shift_count == 0,
        a0 >= 0x8000,
        a1 >= 0x8000,
        a2 >= 0x8000,
        a3 >= 0x8000,
        a4 >= 0x8000,
        d0 & 0x80 == 0,
        d1 & 0x80 == 0,
        d2 & 0x80 == 0,
        d3 & 0x80 == 0,
        d4 & 0x80 == 0,
    ensures
        ({
            let r = m.cpu_write(a0, d0).cpu_write(a1, d1).cpu_write(a2, d2).cpu_write(a3, d3).cpu_write(
                a4,
                d4,
            );
            let target = (a4 >> 13u16) & 0b11;
            let v = serial_value(d0, d1, d2, d3, d4);
            &&& r.control == if target == 0 {
                v
            } else {
                m.control
            }
            &&& r.chr_bank_0 == if target == 1 {
                v
            } else {
                m.chr_bank_0
            }
            &&& r.chr_bank_1 == if target == 2 {
                v
            } else {
                m.chr_bank_1
            }
            &&& r.prg_bank == if target == 3 {
                v
            } else {
                m.prg_bank
            }
            &&& r.serial_target(a4) == v
            &&& r.shift_count == 0
            &&& r.shift_register == 0
            &&& r.prg == m.prg && r.chr == m.chr && r.ram == m.ram
        }),
{
    assert({
        let s1 = (0u8 >> 1u8) | ((d0 & 1) << 4u8);
        let s2 = (s1 >> 1u8) | ((d1 & 1) << 4u8);
        let s3 = (s2 >> 1u8) | ((d2 & 1) << 4u8);
        let s4 = (s3 >> 1u8) | ((d3 & 1) << 4u8);
        let s5 = (s4 >> 1u8) | ((d4 & 1) << 4u8);
        s5 == ((d0 & 1) | ((d1 & 1) << 1u8) | ((d2 & 1) << 2u8) | ((d3 & 1) << 3u8) | ((d4 & 1)
            << 4u8)) as u8
    }) by (bit_vector);
    crate::bits::lemma_word_bits(a4);
}

/// A write with bit 7 set resets the serial port at any point (discarding the
/// bits shifted in so far), sets control bits 2-3 and so selects PRG mode 3
/// (last bank fixed at $C000).
pub proof fn lemma_mmc1_reset_write(m: Mapper001View, address: u16, data: u8)
    requires
        address >= 0x8000,
        data & 0x80 != 0,
    ensures
        m.cpu_write(address, data).shift_count == 0,
        m.cpu_write(address, data).shift_register == 0,
        m.cpu_write(address, data).control == m.control | 0x0C,
        m.cpu_write(address, data).prg_bank_mode() == PrgBankMode::FixLast,
{
    let c = m.control;
    assert(((c | 0b0_11_00) >> 2u8) & 0b11 == 3) by (bit_vector);
}

/// MMC1 CHR banking, for a pattern address (below $2000) and `n` 4 KiB CHR
/// banks: with control bit 4 set, $0000-$0FFF shows CHR bank 0's register
/// and $1000-$1FFF CHR bank 1's; with it clear, both halves show the 8 KiB
/// bank CHR bank 0 selects (its bits 1-4, bit 0 ignored), low half first.
/// Bank numbers wrap at `n`.
pub proof fn lemma_mmc1_chr_banks(m: Mapper001View, address: u16)
    requires
        address <= 0x1FFF,
    ensures
        ({
            let n = if m.chr.len() / 0x1000 >= 1 {
                (m.chr.len() / 0x1000) as int
            } else {
                1
            };
            let high = address >= 0x1000;
            let b0 = m.chr_bank_0 as int;
            let bank = if (m.control / 16) % 2 == 1 {
                if high {
                    m.chr_bank_1 as int
                } else {
                    b0
                }
            } else {
                b0 % 32 - b0 % 2 + if high {
                    1int
                } else {
                    0
                }
            };
            m.chr_offset(address) == (bank % n) * 0x1000 + address % 0x1000
        }),
{
    let c = m.control;
    let b = m.chr_bank_0;
    assert((c & 0x10 != 0) == ((c / 16) % 2 == 1) && b & 0x1E == b % 32 - b % 2) by (bit_vector);
}

/// MMC1 PRG banking, for an address in $8000-$FFFF and `n` 16 KiB PRG banks:
/// control bits 2-3 below 2 map the 32 KiB bank the PRG register's bits 1-3
/// select (low half at $8000); 2 fixes the first bank at $8000 and switches
/// $C000; 3 switches $8000 and fixes the last bank at $C000. The switched
/// bank is the register's low 4 bits, and bank numbers wrap at `n`.
pub proof fn lemma_mmc1_prg_banks(m: Mapper001View, address: u16)
    requires
        address >= 0x8000,
    ensures
        ({
            let n = if m.prg.len() / 0x4000 >= 1 {
                (m.prg.len() / 0x4000) as int
            } else {
                1
            };
            let high = address >= 0xC000;
            let mode = (m.control / 4) % 4;
            let p = m.prg_bank as int;
            let bank = if mode < 2 {
                p % 16 - p % 2 + if high {
                    1int
                } else {
                    0
                }
            } else if mode == 2 {
                if high {
                    p % 16
                } else {
                    0
                }
            } else if high {
                n - 1
            } else {
                p % 16
            };
            m.prg_offset(address) == (bank % n) * 0x4000 + address % 0x4000
        }),
{
    let c = m.control;
    let p = m.prg_bank;
    assert((c >> 2) & 0b11 == (c / 4) % 4 && p & 0b1110 == p % 16 - p % 2 && p & 0x0F == p % 16)
        by (bit_vector);
}

/// MMC1 mirroring comes from control bits 0-1: one-screen lower, one-screen
/// upper, vertical, horizontal.
pub proof fn lemma_mmc1_mirroring(m: Mapper001View)
    ensures
        m.control % 4 == 0 ==> m.mirroring() == Mirroring::SingleScreenLower,
        m.control % 4 == 1 ==> m.mirroring() == Mirroring::SingleScreenUpper,
        m.control % 4 == 2 ==> m.mirroring() == Mirroring::Vertical,
        m.control % 4 == 3 ==> m.mirroring() == Mirroring::Horizontal,
{
    let c = m.control;
    assert(c & 0b11 == c % 4) by (bit_vector);
}

} // verus!
