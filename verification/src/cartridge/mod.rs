//! Cartridges: the iNES file format and the mapper boards.

pub mod mapper;
pub mod mapper000;
pub mod mapper001;
pub mod mapper002;
pub mod mapper003;
pub mod mapper004;

use vstd::prelude::*;
use vstd::string::StringExecFns;

pub use crate::cartridge::mapper::{Mapper, Mirroring};
use crate::cartridge::mapper000::{Mapper000, Mapper000View};
use crate::cartridge::mapper001::{Mapper001, Mapper001View};
use crate::cartridge::mapper002::{Mapper002, Mapper002View};
use crate::cartridge::mapper003::{Mapper003, Mapper003View};

verus! {

/// Every valid iNES file starts with this 4-byte signature ("NES" and EOF).
pub const INES_MAGIC: [u8; 4] = [0x4E, 0x45, 0x53, 0x1A];

/// Size of the iNES header.
pub const HEADER_SIZE: usize = 16;

/// Some old ROMs include this legacy 512-byte block after the header.
pub const TRAINER_SIZE: usize = 512;

/// The header gives PRG-ROM size in 16 KiB units.
pub const PRG_UNIT_SIZE: usize = 0x4000;

/// The header gives CHR-ROM size in 8 KiB units.
pub const CHR_UNIT_SIZE: usize = 0x2000;

/// The board a cartridge is built on.
pub enum Board {
    Nrom(Mapper000),
    Mmc1(Mapper001),
    Uxrom(Mapper002),
    Cnrom(Mapper003),
}

/// The abstract state of a cartridge: which board, and that board's state.
pub enum BoardView {
    Nrom(Mapper000View),
    Mmc1(Mapper001View),
    Uxrom(Mapper002View),
    Cnrom(Mapper003View),
}

/// A loaded NES cartridge.
pub struct Cartridge {
    board: Board,
}

impl View for Cartridge {
    type V = BoardView;

    closed spec fn view(&self) -> BoardView {
        match self.board {
            Board::Nrom(m) => BoardView::Nrom(m@),
            Board::Mmc1(m) => BoardView::Mmc1(m@),
            Board::Uxrom(m) => BoardView::Uxrom(m@),
            Board::Cnrom(m) => BoardView::Cnrom(m@),
        }
    }
}

impl BoardView {
    /// The cartridge with nothing on it: an NROM board with empty images.
    pub open spec fn empty() -> BoardView {
        BoardView::Nrom(
            Mapper000View { prg: Seq::empty(), chr: Seq::empty(), mirroring: Mirroring::Horizontal },
        )
    }

    /// What a CPU read of `address` returns (`None`: nothing answers).
    pub open spec fn cpu_read(self, address: u16) -> Option<u8> {
        match self {
            BoardView::Nrom(m) => Mapper000::cpu_read_spec(m, address),
            BoardView::Mmc1(m) => Mapper001::cpu_read_spec(m, address),
            BoardView::Uxrom(m) => Mapper002::cpu_read_spec(m, address),
            BoardView::Cnrom(m) => Mapper003::cpu_read_spec(m, address),
        }
    }

    /// The cartridge after a CPU write.
    pub open spec fn cpu_write(self, address: u16, data: u8) -> BoardView {
        match self {
            BoardView::Nrom(m) => BoardView::Nrom(Mapper000::cpu_write_spec(m, address, data)),
            BoardView::Mmc1(m) => BoardView::Mmc1(Mapper001::cpu_write_spec(m, address, data)),
            BoardView::Uxrom(m) => BoardView::Uxrom(Mapper002::cpu_write_spec(m, address, data)),
            BoardView::Cnrom(m) => BoardView::Cnrom(Mapper003::cpu_write_spec(m, address, data)),
        }
    }

    /// What a PPU read of `address` returns, and the cartridge after it.
    pub open spec fn ppu_read(self, address: u16) -> (Option<u8>, BoardView) {
        match self {
            BoardView::Nrom(m) => {
                let (r, m2) = Mapper000::ppu_read_spec(m, address);
                (r, BoardView::Nrom(m2))
            },
            BoardView::Mmc1(m) => {
                let (r, m2) = Mapper001::ppu_read_spec(m, address);
                (r, BoardView::Mmc1(m2))
            },
            BoardView::Uxrom(m) => {
                let (r, m2) = Mapper002::ppu_read_spec(m, address);
                (r, BoardView::Uxrom(m2))
            },
            BoardView::Cnrom(m) => {
                let (r, m2) = Mapper003::ppu_read_spec(m, address);
                (r, BoardView::Cnrom(m2))
            },
        }
    }

    /// The cartridge after a PPU write.
    pub open spec fn ppu_write(self, address: u16, data: u8) -> BoardView {
        match self {
            BoardView::Nrom(m) => BoardView::Nrom(Mapper000::ppu_write_spec(m, address, data)),
            BoardView::Mmc1(m) => BoardView::Mmc1(Mapper001::ppu_write_spec(m, address, data)),
            BoardView::Uxrom(m) => BoardView::Uxrom(Mapper002::ppu_write_spec(m, address, data)),
            BoardView::Cnrom(m) => BoardView::Cnrom(Mapper003::ppu_write_spec(m, address, data)),
        }
    }

    /// The nametable mirroring the board selects.
    pub open spec fn mirroring(self) -> Mirroring {
        match self {
            BoardView::Nrom(m) => Mapper000::mirroring_spec(m),
            BoardView::Mmc1(m) => Mapper001::mirroring_spec(m),
            BoardView::Uxrom(m) => Mapper002::mirroring_spec(m),
            BoardView::Cnrom(m) => Mapper003::mirroring_spec(m),
        }
    }

    /// Whether the board asserts its IRQ line.
    pub open spec fn irq_pending(self) -> bool {
        match self {
            BoardView::Nrom(m) => Mapper000::irq_pending_spec(m),
            BoardView::Mmc1(m) => Mapper001::irq_pending_spec(m),
            BoardView::Uxrom(m) => Mapper002::irq_pending_spec(m),
            BoardView::Cnrom(m) => Mapper003::irq_pending_spec(m),
        }
    }

    /// The cartridge after its IRQ is acknowledged.
    pub open spec fn irq_clear(self) -> BoardView {
        match self {
            BoardView::Nrom(m) => BoardView::Nrom(Mapper000::irq_clear_spec(m)),
            BoardView::Mmc1(m) => BoardView::Mmc1(Mapper001::irq_clear_spec(m)),
            BoardView::Uxrom(m) => BoardView::Uxrom(Mapper002::irq_clear_spec(m)),
            BoardView::Cnrom(m) => BoardView::Cnrom(Mapper003::irq_clear_spec(m)),
        }
    }

    /// Reading the cartridge outside its pattern tables yields nothing and
    /// changes nothing.
    pub proof fn lemma_ppu_read_above_patterns(self, address: u16)
        requires
            address > 0x1FFF,
        ensures
            self.ppu_read(address) == (None::<u8>, self),
    {
    }

    /// The freshly built board for iNES mapper number `id` (0 to 3).
    pub open spec fn for_mapper(id: u8, prg: Seq<u8>, chr: Seq<u8>, mirroring: Mirroring) -> BoardView {
        if id == 0 {
            BoardView::Nrom(Mapper000View { prg, chr, mirroring })
        } else if id == 1 {
            BoardView::Mmc1(Mapper001View::initial(prg, chr))
        } else if id == 2 {
            BoardView::Uxrom(Mapper002View { prg, chr, mirroring, prg_bank: 0 })
        } else {
            BoardView::Cnrom(Mapper003View { prg, chr, mirroring, chr_bank: 0 })
        }
    }
}

/// Whether `data` starts with a complete iNES header.
pub open spec fn ines_header_valid(data: Seq<u8>) -> bool {
    &&& data.len() >= HEADER_SIZE
    &&& data[0] == 0x4E
    &&& data[1] == 0x45
    &&& data[2] == 0x53
    &&& data[3] == 0x1A
}

/// Whether the header announces a 512-byte trainer (flags 6, bit 2).
pub open spec fn ines_has_trainer(data: Seq<u8>) -> bool {
    data[6] & 0b0000_0100 != 0
}

/// The iNES mapper number: high nibble from flags 7, low nibble from flags 6.
pub open spec fn ines_mapper_id(data: Seq<u8>) -> u8 {
    (data[7] & 0xF0) | (data[6] >> 4)
}

/// The nametable mirroring the header asks for (flags 6, bit 0).
pub open spec fn ines_mirroring(data: Seq<u8>) -> Mirroring {
    if data[6] & 0x01 != 0 {
        Mirroring::Vertical
    } else {
        Mirroring::Horizontal
    }
}

/// Where the PRG-ROM image starts: after the header and the trainer, if any.
pub open spec fn ines_prg_start(data: Seq<u8>) -> int {
    if ines_has_trainer(data) {
        HEADER_SIZE + TRAINER_SIZE
    } else {
        HEADER_SIZE as int
    }
}

/// The PRG-ROM size in bytes.
pub open spec fn ines_prg_size(data: Seq<u8>) -> int {
    data[4] * PRG_UNIT_SIZE
}

/// The CHR-ROM size in bytes.
pub open spec fn ines_chr_size(data: Seq<u8>) -> int {
    data[5] * CHR_UNIT_SIZE
}

/// The PRG-ROM image the file holds.
pub open spec fn ines_prg(data: Seq<u8>) -> Seq<u8> {
    data.subrange(ines_prg_start(data), ines_prg_start(data) + ines_prg_size(data))
}

/// The CHR-ROM image the file holds.
pub open spec fn ines_chr(data: Seq<u8>) -> Seq<u8> {
    let start = ines_prg_start(data) + ines_prg_size(data);
    data.subrange(start, start + ines_chr_size(data))
}

/// Whether the file is long enough for the images its header announces.
pub open spec fn ines_complete(data: Seq<u8>) -> bool {
    data.len() >= ines_prg_start(data) + ines_prg_size(data) + ines_chr_size(data)
}

/// Whether `data` can be handed to [`Cartridge::try_from_ines`]: it is no
/// iNES file at all (which loading reports as an error), or it holds every
/// image its header announces (a shorter file cannot be loaded).
pub fn ines_file_complete(data: &[u8]) -> (r: bool)
    ensures
        r == (ines_header_valid(data@) ==> ines_complete(data@)),
{
    if data.len() < HEADER_SIZE || data[0] != INES_MAGIC[0] || data[1] != INES_MAGIC[1]
        || data[2] != INES_MAGIC[2] || data[3] != INES_MAGIC[3] {
        return true;
    }
    let trainer: usize = if data[6] & 0b0000_0100 != 0 {
        TRAINER_SIZE
    } else {
        0
    };
    let needed: usize = HEADER_SIZE + trainer + data[4] as usize * PRG_UNIT_SIZE + data[5] as usize
        * CHR_UNIT_SIZE;
    data.len() >= needed
}

/// The character of decimal digit `d`.
pub open spec fn digit_char(d: int) -> char {
    (48 + d) as char
}

/// `n` written in decimal, without leading zeros.
pub open spec fn decimal_text(n: u8) -> Seq<char> {
    if n >= 100 {
        seq![digit_char((n / 100) as int), digit_char(((n / 10) % 10) as int), digit_char((n % 10) as int)]
    } else if n >= 10 {
        seq![digit_char((n / 10) as int), digit_char((n % 10) as int)]
    } else {
        seq![digit_char(n as int)]
    }
}

/// The error text for a mapper number that has no board here.
pub open spec fn unsupported_mapper_text(id: u8) -> Seq<char> {
    "mapper "@ + decimal_text(id) + " not supported yet"@
}

/// The text of one decimal digit.
fn digit_str(d: u8) -> (s: &'static str)
    requires
        d < 10,
    ensures
        s@ == seq![digit_char(d as int)],
{
    proof {
        reveal_strlit("0");
        reveal_strlit("1");
        reveal_strlit("2");
        reveal_strlit("3");
        reveal_strlit("4");
        reveal_strlit("5");
        reveal_strlit("6");
        reveal_strlit("7");
        reveal_strlit("8");
        reveal_strlit("9");
    }
    match d {
        0 => "0",
        1 => "1",
        2 => "2",
        3 => "3",
        4 => "4",
        5 => "5",
        6 => "6",
        7 => "7",
        8 => "8",
        _ => "9",
    }
}

/// "mapper N not supported yet", with N in decimal.
fn unsupported_mapper_message(id: u8) -> (s: String)
    ensures
        s@ == unsupported_mapper_text(id),
{
    let mut s = String::from_str("mapper ");
    if id >= 100 {
        s.append(digit_str(id / 100));
    }
    if id >= 10 {
        s.append(digit_str((id / 10) % 10));
    }
    s.append(digit_str(id % 10));
    s.append(" not supported yet");
    assert(s@ =~= unsupported_mapper_text(id));
    s
}

/// Copies `len` bytes of `data` from `start` into a new vector.
fn copy_bytes(data: &[u8], start: usize, len: usize) -> (v: Vec<u8>)
    requires
        start + len <= data@.len(),
    ensures
        v@ == data@.subrange(start as int, start + len),
{
    let mut v: Vec<u8> = Vec::new();
    let mut i: usize = 0;
    let n = data.len();
    while i < len
        invariant
            i <= len,
            n == data@.len(),
            start + len <= n,
            v@ == data@.subrange(start as int, start + i),
        decreases len - i,
    {
        v.push(data[start + i]);
        i = i + 1;
        assert(v@ =~= data@.subrange(start as int, start + i));
    }
    v
}

impl Default for Cartridge {
    /// An empty cartridge: an NROM board with no PRG or CHR data.
    fn default() -> (c: Cartridge)
        ensures
            c@ == BoardView::empty(),
    {
        Cartridge::new()
    }
}

impl Cartridge {
    /// An empty cartridge: an NROM board with no PRG or CHR data.
    pub fn new() -> (c: Cartridge)
        ensures
            c@ == BoardView::empty(),
    {
        Cartridge {
            board: Board::Nrom(Mapper000::new(Vec::new(), Vec::new(), Mirroring::Horizontal)),
        }
    }

    /// Parses a raw iNES file into a cartridge.
    ///
    /// Fails with "invalid iNES file" when the data does not start with a
    /// complete header, and with "mapper N not supported yet" when the header
    /// names a board other than mappers 0 to 3 (the MMC3 board of mapper 4 is
    /// not wired in yet).
    pub fn try_from_ines(data: &[u8]) -> (r: Result<Cartridge, String>)
        requires
            ines_header_valid(data@) ==> ines_complete(data@),
        ensures
            !ines_header_valid(data@) ==> (r matches Err(e) && e@ == "invalid iNES file"@),
            ines_header_valid(data@) && ines_mapper_id(data@) > 3 ==> (r matches Err(e) && e@
                == unsupported_mapper_text(ines_mapper_id(data@))),
            ines_header_valid(data@) && ines_mapper_id(data@) <= 3 ==> (r matches Ok(c) && c@
                == BoardView::for_mapper(
                ines_mapper_id(data@),
                ines_prg(data@),
                ines_chr(data@),
                ines_mirroring(data@),
            )),
    {
        if data.len() < HEADER_SIZE || data[0] != INES_MAGIC[0] || data[1] != INES_MAGIC[1]
            || data[2] != INES_MAGIC[2] || data[3] != INES_MAGIC[3] {
            return Err(String::from_str("invalid iNES file"));
        }
        let prg_banks = data[4] as usize;
        let chr_banks = data[5] as usize;
        let flags6 = data[6];
        let flags7 = data[7];
        let has_trainer_data = flags6 & 0b0000_0100 != 0;
        let mapper_id = (flags7 & 0xF0) | (flags6 >> 4);
        let mirroring = if flags6 & 0x01 != 0 {
            Mirroring::Vertical
        } else {
            Mirroring::Horizontal
        };

        let mut offset = HEADER_SIZE;
        if has_trainer_data {
            offset = offset + TRAINER_SIZE;
        }

        let prg_size = prg_banks * PRG_UNIT_SIZE;
        let prg_rom = copy_bytes(data, offset, prg_size);
        offset = offset + prg_size;

        let chr_size = chr_banks * CHR_UNIT_SIZE;
        let chr_rom = copy_bytes(data, offset, chr_size);

        let board = if mapper_id == 0 {
            Board::Nrom(Mapper000::new(prg_rom, chr_rom, mirroring))
        } else if mapper_id == 1 {
            Board::Mmc1(Mapper001::new(prg_rom, chr_rom, mirroring))
        } else if mapper_id == 2 {
            Board::Uxrom(Mapper002::new(prg_rom, chr_rom, mirroring))
        } else if mapper_id == 3 {
            Board::Cnrom(Mapper003::new(prg_rom, chr_rom, mirroring))
        } else {
            return Err(unsupported_mapper_message(mapper_id));
        };
        Ok(Cartridge { board })
    }

    /// Reads a byte of the cartridge's CPU space ($4020-$FFFF).
    pub fn cpu_read(&self, address: u16) -> (r: Option<u8>)
        ensures
            r == self@.cpu_read(address),
    {
        match &self.board {
            Board::Nrom(m) => m.cpu_read(address),
            Board::Mmc1(m) => m.cpu_read(address),
            Board::Uxrom(m) => m.cpu_read(address),
            Board::Cnrom(m) => m.cpu_read(address),
        }
    }

    /// Writes into the cartridge's CPU space.
    pub fn cpu_write(&mut self, address: u16, data: u8)
        ensures
            final(self)@ == old(self)@.cpu_write(address, data),
    {
        match &mut self.board {
            Board::Nrom(m) => m.cpu_write(address, data),
            Board::Mmc1(m) => m.cpu_write(address, data),
            Board::Uxrom(m) => m.cpu_write(address, data),
            Board::Cnrom(m) => m.cpu_write(address, data),
        }
    }

    /// Reads a byte of the cartridge's PPU space ($0000-$1FFF). Some boards
    /// watch these reads, so the cartridge may change.
    pub fn ppu_read(&mut self, address: u16) -> (r: Option<u8>)
        ensures
            (r, final(self)@) == old(self)@.ppu_read(address),
    {
        match &mut self.board {
            Board::Nrom(m) => m.ppu_read(address),
            Board::Mmc1(m) => m.ppu_read(address),
            Board::Uxrom(m) => m.ppu_read(address),
            Board::Cnrom(m) => m.ppu_read(address),
        }
    }

    /// Writes into the cartridge's PPU space.
    pub fn ppu_write(&mut self, address: u16, data: u8)
        ensures
            final(self)@ == old(self)@.ppu_write(address, data),
    {
        match &mut self.board {
            Board::Nrom(m) => m.ppu_write(address, data),
            Board::Mmc1(m) => m.ppu_write(address, data),
            Board::Uxrom(m) => m.ppu_write(address, data),
            Board::Cnrom(m) => m.ppu_write(address, data),
        }
    }

    /// The nametable mirroring the board currently selects.
    pub fn mirroring(&self) -> (m: Mirroring)
        ensures
            m == self@.mirroring(),
    {
        match &self.board {
            Board::Nrom(m) => m.mirroring(),
            Board::Mmc1(m) => m.mirroring(),
            Board::Uxrom(m) => m.mirroring(),
            Board::Cnrom(m) => m.mirroring(),
        }
    }

    /// Whether the board asserts its IRQ line.
    pub fn irq_pending(&self) -> (r: bool)
        ensures
            r == self@.irq_pending(),
    {
        match &self.board {
            Board::Nrom(m) => m.irq_pending(),
            Board::Mmc1(m) => m.irq_pending(),
            Board::Uxrom(m) => m.irq_pending(),
            Board::Cnrom(m) => m.irq_pending(),
        }
    }

    /// Acknowledges the board's IRQ.
    pub fn irq_clear(&mut self)
        ensures
            final(self)@ == old(self)@.irq_clear(),
    {
        match &mut self.board {
            Board::Nrom(m) => m.irq_clear(),
            Board::Mmc1(m) => m.irq_clear(),
            Board::Uxrom(m) => m.irq_clear(),
            Board::Cnrom(m) => m.irq_clear(),
        }
    }
}

} // verus!
