//! The CPU's view of the console: work RAM, the PPU's registers, the
//! controller ports and OAM DMA, and the cartridge.

use vstd::prelude::*;

use crate::bus::{add16, CpuMemory, MemoryModel};
use crate::cartridge::{BoardView, Cartridge};
use crate::ppu::ppu_bus::PpuBus;
use crate::ppu::{Ppu, PpuView};

verus! {

/// Size of the console's work RAM.
pub const WORK_RAM_SIZE: usize = 0x0800;

/// The OAM DMA register.
pub const OAM_DMA: u16 = 0x4014;

/// Controller port 1 (writes: strobe for both ports).
pub const JOYPAD1: u16 = 0x4016;

/// Controller port 2.
pub const JOYPAD2: u16 = 0x4017;

pub struct CpuBus {
    /// 2 KiB of work RAM, mirrored up to $1FFF.
    pub ram: [u8; 0x0800],
    /// The PPU; its address space holds the cartridge.
    pub ppu: Ppu,
    /// The buttons held on each controller (bit 0: A ... bit 7: Right).
    pub controllers: [u8; 2],
    /// The controllers' shift registers, read out one bit at a time.
    pub controller_shift: [u8; 2],
    /// While set, the shift registers keep reloading from the buttons.
    pub controller_strobe: bool,
    /// Set by an OAM DMA transfer.
    pub dma_pending: bool,
}

/// The abstract state of the CPU bus.
pub struct CpuBusView {
    pub ram: [u8; 0x0800],
    pub ppu: PpuView,
    pub controllers: Seq<u8>,
    pub controller_shift: Seq<u8>,
    pub controller_strobe: bool,
    pub dma_pending: bool,
}

impl View for CpuBus {
    type V = CpuBusView;

    open spec fn view(&self) -> CpuBusView {
        CpuBusView {
            ram: self.ram,
            ppu: self.ppu@,
            controllers: self.controllers@,
            controller_shift: self.controller_shift@,
            controller_strobe: self.controller_strobe,
            dma_pending: self.dma_pending,
        }
    }
}

/// The value a read of a controller port shows: the port's next button bit,
/// with bit 6 high (open bus).
pub open spec fn port_value(shift: u8) -> u8 {
    0x40 | (shift & 1)
}

/// A controller's shift register after one bit is read out: the rest move
/// down and 1s fill in from the top.
pub open spec fn shifted_out(shift: u8) -> u8 {
    (shift >> 1u8) | 0x80
}

impl CpuBusView {
    /// The cartridge, which sits in the PPU's address space.
    pub open spec fn cartridge(self) -> BoardView {
        self.ppu.bus.cartridge
    }

    /// This bus with its cartridge replaced.
    pub open spec fn with_cartridge(self, cartridge: BoardView) -> CpuBusView {
        CpuBusView {
            ppu: PpuView { bus: crate::ppu::ppu_bus::PpuBusView { cartridge, ..self.ppu.bus }, ..self.ppu },
            ..self
        }
    }

    /// Reading controller port `port` (0 or 1): the value shown and the bus after it.
    pub open spec fn read_port(self, port: int) -> (u8, CpuBusView) {
        let shift = self.controller_shift[port];
        (
            port_value(shift),
            if self.controller_strobe {
                self
            } else {
                CpuBusView {
                    controller_shift: self.controller_shift.update(port, shifted_out(shift)),
                    ..self
                }
            },
        )
    }

    /// The value a CPU read of `address` returns and the bus after it:
    /// $0000-$1FFF work RAM (mirrored every 2 KiB), $2000-$3FFF the PPU
    /// registers, $4016/$4017 the controller ports, the rest of $4000-$401F
    /// reads as 0, and $4020-$FFFF belongs to the cartridge (0 where it does
    /// not answer).
    pub open spec fn read(self, address: u16) -> (u8, CpuBusView) {
        if address <= 0x1FFF {
            (self.ram[(address % 0x0800) as int], self)
        } else if address <= 0x3FFF {
            let (value, ppu) = self.ppu.cpu_read(address);
            (value, CpuBusView { ppu, ..self })
        } else if address == JOYPAD1 {
            self.read_port(0)
        } else if address == JOYPAD2 {
            self.read_port(1)
        } else if address <= 0x401F {
            (0, self)
        } else {
            (
                match self.cartridge().cpu_read(address) {
                    Some(v) => v,
                    None => 0,
                },
                self,
            )
        }
    }

    /// The value a side-effect-free look at `address` gives.
    pub open spec fn peek(self, address: u16) -> u8 {
        if address <= 0x1FFF {
            self.ram[(address % 0x0800) as int]
        } else if address <= 0x3FFF {
            self.ppu.cpu_peek(address)
        } else if address <= 0x401F {
            0
        } else {
            match self.cartridge().cpu_read(address) {
                Some(v) => v,
                None => 0,
            }
        }
    }

    /// The reads of an OAM DMA transfer from byte `i` of page `page` on: the
    /// bus after them and `buffer` extended with the bytes read.
    pub open spec fn dma_read(self, page: u16, i: int, buffer: Seq<u8>) -> (CpuBusView, Seq<u8>)
        decreases 256 - i,
    {
        if i < 0 || i >= 256 {
            (self, buffer)
        } else {
            let (byte, bus) = self.read(add16(page, i as u16));
            bus.dma_read(page, i + 1, buffer.push(byte))
        }
    }

    /// The bus after a CPU write of `data` to `address`. Writing $4014 copies
    /// the 256 bytes of page `data` into OAM through OAMDATA; writing $4016
    /// sets the controller strobe, and while it is set the shift registers
    /// reload from the buttons.
    pub open spec fn write(self, address: u16, data: u8) -> CpuBusView {
        if address <= 0x1FFF {
            CpuBusView { ram: vstd::array::spec_array_update(self.ram, (address % 0x0800) as int, data), ..self }
        } else if address <= 0x3FFF {
            CpuBusView { ppu: self.ppu.cpu_write(address, data), ..self }
        } else if address == OAM_DMA {
            let (bus, buffer) = self.dma_read((data as u16 * 256) as u16, 0, Seq::empty());
            CpuBusView { ppu: oam_dma_writes(bus.ppu, buffer, 0), dma_pending: true, ..bus }
        } else if address == JOYPAD1 {
            let strobe = data & 1 == 1;
            CpuBusView {
                controller_strobe: strobe,
                controller_shift: if strobe {
                    self.controllers
                } else {
                    self.controller_shift
                },
                ..self
            }
        } else if address <= 0x401F {
            self
        } else {
            self.with_cartridge(self.cartridge().cpu_write(address, data))
        }
    }
}

/// The PPU after bytes `i..` of `buffer` are written to OAMDATA in turn.
pub open spec fn oam_dma_writes(ppu: PpuView, buffer: Seq<u8>, i: int) -> PpuView
    decreases buffer.len() - i,
{
    if i < 0 || i >= buffer.len() {
        ppu
    } else {
        oam_dma_writes(ppu.cpu_write(0x2004, buffer[i]), buffer, i + 1)
    }
}

impl MemoryModel for CpuBusView {
    open spec fn read_spec(&self, address: u16) -> (u8, CpuBusView) {
        self.read(address)
    }

    open spec fn write_spec(&self, address: u16, data: u8) -> CpuBusView {
        self.write(address, data)
    }

    open spec fn peek_spec(&self, address: u16) -> u8 {
        self.peek(address)
    }

    proof fn lemma_stack_page_is_ram(&self, address: u16, other: u16, data: u8) {
    }

    proof fn lemma_vector_reads_are_quiet(&self, address: u16) {
    }
}

impl Default for CpuBus {
    /// Work RAM cleared, a power-on PPU with an empty cartridge, no buttons held.
    fn default() -> (bus: CpuBus)
        ensures
            forall|i: int| 0 <= i < 0x0800 ==> bus@.ram[i] == 0,
            bus@.ppu == PpuView::initial(PpuBus::new_view()),
            bus@.controllers == seq![0u8, 0u8],
            bus@.controller_shift == seq![0u8, 0u8],
            !bus@.controller_strobe,
            !bus@.dma_pending,
    {
        CpuBus::new()
    }
}

impl CpuBus {
    /// Work RAM cleared, a power-on PPU with an empty cartridge, no buttons held.
    pub fn new() -> (bus: CpuBus)
        ensures
            forall|i: int| 0 <= i < 0x0800 ==> bus@.ram[i] == 0,
            bus@.ppu == PpuView::initial(PpuBus::new_view()),
            bus@.controllers == seq![0u8, 0u8],
            bus@.controller_shift == seq![0u8, 0u8],
            !bus@.controller_strobe,
            !bus@.dma_pending,
    {
        let bus = CpuBus {
            ram: [0u8; 0x0800],
            ppu: Ppu::new(),
            controllers: [0u8; 2],
            controller_shift: [0u8; 2],
            controller_strobe: false,
            dma_pending: false,
        };
        assert(bus@.controllers =~= seq![0u8, 0u8]);
        assert(bus@.controller_shift =~= seq![0u8, 0u8]);
        bus
    }

    /// This bus with `cartridge` inserted.
    pub fn with_cartridge(self, cartridge: Cartridge) -> (bus: CpuBus)
        ensures
            bus@ == self@.with_cartridge(cartridge@),
    {
        let mut bus = self;
        bus.ppu.bus.cartridge = cartridge;
        bus
    }

    /// This bus with `ppu` (and the cartridge in its address space) attached.
    pub fn with_ppu(self, ppu: Ppu) -> (bus: CpuBus)
        ensures
            bus@ == (CpuBusView { ppu: ppu@, ..self@ }),
    {
        CpuBus { ppu, ..self }
    }

    /// Sets the buttons held on controller `controller` (0 or 1).
    pub fn set_controller_state(&mut self, controller: usize, state: u8)
        requires
            controller < 2,
        ensures
            final(self)@ == (CpuBusView {
                controllers: old(self)@.controllers.update(controller as int, state),
                ..old(self)@
            }),
    {
        self.controllers[controller] = state;
    }

    /// Reads controller port `port`.
    fn read_port(&mut self, port: usize) -> (r: u8)
        requires
            port < 2,
        ensures
            (r, final(self)@) == old(self)@.read_port(port as int),
    {
        let bit = self.controller_shift[port] & 1;
        if !self.controller_strobe {
            self.controller_shift[port] = (self.controller_shift[port] >> 1) | 0x80;
        }
        0x40 | bit
    }

    /// Reads one byte from the CPU's address space.
    pub fn read(&mut self, address: u16) -> (r: u8)
        ensures
            (r, final(self)@) == old(self)@.read(address),
    {
        proof {
            crate::bits::lemma_word_bits(address);
        }
        if address <= 0x1FFF {
            self.ram[(address & 0x07FF) as usize]
        } else if address <= 0x3FFF {
            self.ppu.cpu_read(address)
        } else if address == JOYPAD1 {
            self.read_port(0)
        } else if address == JOYPAD2 {
            self.read_port(1)
        } else if address <= 0x401F {
            0
        } else {
            match self.ppu.bus.cartridge.cpu_read(address) {
                Some(v) => v,
                None => 0,
            }
        }
    }

    /// The value a read of `address` returns, computed without its side effects.
    pub fn read_value(&self, address: u16) -> (r: u8)
        ensures
            r == self@.read(address).0,
    {
        proof {
            crate::bits::lemma_word_bits(address);
        }
        if address <= 0x1FFF {
            self.ram[(address & 0x07FF) as usize]
        } else if address <= 0x3FFF {
            self.ppu.read_value(address)
        } else if address == JOYPAD1 {
            0x40 | (self.controller_shift[0] & 1)
        } else if address == JOYPAD2 {
            0x40 | (self.controller_shift[1] & 1)
        } else if address <= 0x401F {
            0
        } else {
            match self.ppu.bus.cartridge.cpu_read(address) {
                Some(v) => v,
                None => 0,
            }
        }
    }

    /// Looks at one byte without disturbing anything: PPU registers show their
    /// contents where they have any, and the controller ports read as 0.
    pub fn peek(&self, address: u16) -> (r: u8)
        ensures
            r == self@.peek(address),
    {
        proof {
            crate::bits::lemma_word_bits(address);
        }
        if address <= 0x1FFF {
            self.ram[(address & 0x07FF) as usize]
        } else if address <= 0x3FFF {
            self.ppu.cpu_peek(address)
        } else if address <= 0x401F {
            0
        } else {
            match self.ppu.bus.cartridge.cpu_read(address) {
                Some(v) => v,
                None => 0,
            }
        }
    }

    /// Copies the 256 bytes of page `data` into OAM (OAM DMA).
    fn oam_dma(&mut self, data: u8)
        ensures
            final(self)@ == old(self)@.write(OAM_DMA, data),
    {
        let ghost start = old(self)@;
        let page: u16 = (data as u16) << 8;
        proof {
            let d = data as u16;
            assert((d << 8u16) == d * 256) by (bit_vector)
                requires
                    d < 256,
            ;
        }
        let mut buffer: Vec<u8> = Vec::new();
        let mut i: u16 = 0;
        while i < 256
            invariant
                i <= 256,
                page == data as u16 * 256,
                buffer@.len() == i,
                start.dma_read(page, 0, Seq::empty()) == self@.dma_read(page, i as int, buffer@),
            decreases 256 - i,
        {
            let byte = self.read(page + i);
            buffer.push(byte);
            i = i + 1;
        }
        let ghost read_bus = self@;
        let mut j: usize = 0;
        while j < buffer.len()
            invariant
                j <= buffer@.len(),
                buffer@.len() == 256,
                oam_dma_writes(read_bus.ppu, buffer@, 0) == oam_dma_writes(self@.ppu, buffer@, j as int),
                self@ == (CpuBusView { ppu: self@.ppu, ..read_bus }),
            decreases buffer@.len() - j,
        {
            self.ppu.cpu_write(0x2004, buffer[j]);
            j = j + 1;
        }
        self.dma_pending = true;
    }

    /// Writes one byte into the CPU's address space.
    pub fn write(&mut self, address: u16, data: u8)
        ensures
            final(self)@ == old(self)@.write(address, data),
    {
        proof {
            crate::bits::lemma_word_bits(address);
            crate::bits::lemma_byte_bits(data);
        }
        if address <= 0x1FFF {
            self.ram[(address & 0x07FF) as usize] = data;
        } else if address <= 0x3FFF {
            self.ppu.cpu_write(address, data);
        } else if address == OAM_DMA {
            self.oam_dma(data);
        } else if address == JOYPAD1 {
            self.controller_strobe = data & 1 == 1;
            if self.controller_strobe {
                self.controller_shift[0] = self.controllers[0];
                self.controller_shift[1] = self.controllers[1];
                assert(self.controller_shift@ =~= self.controllers@);
            }
        } else if address <= 0x401F {
        } else {
            self.ppu.bus.cartridge.cpu_write(address, data);
        }
    }

    /// Advances the PPU by one dot.
    pub fn tick_ppu(&mut self)
        ensures
            final(self)@ == (CpuBusView { ppu: old(self)@.ppu.clock(), ..old(self)@ }),
    {
        self.ppu.clock();
    }

    /// Returns and clears the PPU's pending NMI request.
    pub fn take_nmi(&mut self) -> (requested: bool)
        ensures
            requested == old(self)@.ppu.nmi_requested,
            final(self)@ == (CpuBusView {
                ppu: PpuView { nmi_requested: false, ..old(self)@.ppu },
                ..old(self)@
            }),
    {
        self.ppu.take_nmi()
    }
}

impl CpuMemory for CpuBus {
    type Model = CpuBusView;

    open spec fn model(&self) -> CpuBusView {
        self@
    }

    fn peek(&self, address: u16) -> (r: u8) {
        CpuBus::peek(self, address)
    }

    fn read_value(&self, address: u16) -> (r: u8) {
        CpuBus::read_value(self, address)
    }

    fn read(&mut self, address: u16) -> (r: u8) {
        CpuBus::read(self, address)
    }

    fn write(&mut self, address: u16, data: u8) {
        CpuBus::write(self, address, data)
    }
}

/// Work RAM repeats every 2 KiB up to $1FFF: addresses that agree in their
/// low eleven bits read the same byte, and a write through one is seen
/// through the other.
pub proof fn lemma_work_ram_mirroring(bus: CpuBusView, address: u16, mirror: u16, data: u8)
    requires
        address <= 0x1FFF,
        mirror <= 0x1FFF,
        address % 0x0800 == mirror % 0x0800,
    ensures
        bus.read(address).0 == bus.read(mirror).0,
        bus.write(address, data).read(mirror).0 == data,
{
}


/// The reads of an OAM DMA from a page of work RAM change nothing and collect
/// the page's bytes in order.
proof fn lemma_dma_reads_ram(bus: CpuBusView, page: u16, i: int, buffer: Seq<u8>)
    requires
        page % 256 == 0,
        page < 0x2000,
        0 <= i <= 256,
    ensures
        bus.dma_read(page, i, buffer) == (
            bus,
            buffer + Seq::new((256 - i) as nat, |j: int| bus.ram[(page + i + j) % 0x0800]),
        ),
    decreases 256 - i,
{
    if i < 256 {
        assert(add16(page, i as u16) == page + i);
        let byte = bus.ram[((page + i) % 0x0800)];
        lemma_dma_reads_ram(bus, page, i + 1, buffer.push(byte));
        assert(buffer.push(byte) + Seq::new((256 - (i + 1)) as nat, |j: int| bus.ram[(page + (i + 1) + j) % 0x0800])
            =~= buffer + Seq::new((256 - i) as nat, |j: int| bus.ram[(page + i + j) % 0x0800]));
    } else {
        assert(buffer + Seq::new(0, |j: int| bus.ram[(page + i + j) % 0x0800]) =~= buffer);
    }
}

/// How far OAM byte `k` lies after OAMADDR `start`, going round the 256 bytes.
pub open spec fn oam_distance(start: int, k: int) -> int {
    (k - start + 256) % 256
}

/// OAMDATA writes of bytes `i..` of `buffer`, the first of them with OAMADDR
/// at `start + i`: byte `j` of the buffer lands `j` bytes after `start`, and
/// OAMADDR comes round to `start`.
proof fn lemma_dma_writes_fill_oam(ppu: PpuView, buffer: Seq<u8>, i: int, start: int)
    requires
        0 <= i <= 256,
        0 <= start < 256,
        buffer.len() == 256,
        ppu.oam.len() == 256,
        ppu.oam_address as int == (start + i) % 256,
    ensures
        oam_dma_writes(ppu, buffer, i).oam.len() == 256,
        forall|k: int|
            0 <= k < 256 ==> #[trigger] oam_dma_writes(ppu, buffer, i).oam[k] == if oam_distance(
                start,
                k,
            ) >= i {
                buffer[oam_distance(start, k)]
            } else {
                ppu.oam[k]
            },
        oam_dma_writes(ppu, buffer, i).oam_address == start,
        oam_dma_writes(ppu, buffer, i) == (PpuView {
            oam: oam_dma_writes(ppu, buffer, i).oam,
            oam_address: start as u8,
            ..ppu
        }),
    decreases 256 - i,
{
    if i < 256 {
        let a = ppu.oam_address as int;
        let next = ppu.cpu_write(0x2004, buffer[i]);
        ppu.lemma_oam_data_write(buffer[i]);
        assert(next.oam_address as int == (start + i + 1) % 256);
        lemma_dma_writes_fill_oam(next, buffer, i + 1, start);
        let last = oam_dma_writes(next, buffer, i + 1);
        assert(oam_dma_writes(ppu, buffer, i) == last);
        assert forall|k: int| 0 <= k < 256 implies #[trigger] last.oam[k] == if oam_distance(
            start,
            k,
        ) >= i {
            buffer[oam_distance(start, k)]
        } else {
            ppu.oam[k]
        } by {
            lemma_oam_distance_step(start, k, i);
        }
    }
}

/// The OAM byte that OAMADDR `(start + i) % 256` points at is the one whose
/// distance from `start` is `i`.
proof fn lemma_oam_distance_step(start: int, k: int, i: int)
    requires
        0 <= start < 256,
        0 <= k < 256,
        0 <= i < 256,
    ensures
        0 <= oam_distance(start, k) < 256,
        (k == (start + i) % 256) <==> (oam_distance(start, k) == i),
{
}

/// OAM DMA from work RAM: writing page number `page` (below $20, so the page
/// is in work RAM) to $4014 copies the page's 256 bytes into OAM in order,
/// starting at OAMADDR and going round the end of OAM; OAMADDR ends where it
/// started, the transfer is flagged, and nothing else changes (work RAM
/// included).
pub proof fn lemma_oam_dma_copies_page(bus: CpuBusView, page: u8)
    requires
        page < 0x20,
        bus.ppu.oam.len() == 256,
    ensures
        forall|k: int|
            0 <= k < 256 ==> #[trigger] bus.write(OAM_DMA, page).ppu.oam[k] == bus.ram[(page * 256
                + oam_distance(bus.ppu.oam_address as int, k)) % 0x0800],
        bus.write(OAM_DMA, page).ppu.oam_address == bus.ppu.oam_address,
        bus.write(OAM_DMA, page).dma_pending,
        bus.write(OAM_DMA, page) == (CpuBusView {
            ppu: PpuView { oam: bus.write(OAM_DMA, page).ppu.oam, ..bus.ppu },
            dma_pending: true,
            ..bus
        }),
{
    let p = (page as u16 * 256) as u16;
    lemma_dma_reads_ram(bus, p, 0, Seq::empty());
    let buffer = Seq::new(256, |j: int| bus.ram[(p + j) % 0x0800]);
    assert(Seq::<u8>::empty() + Seq::new((256 - 0) as nat, |j: int| bus.ram[(p + 0 + j) % 0x0800])
        =~= buffer);
    lemma_dma_writes_fill_oam(bus.ppu, buffer, 0, bus.ppu.oam_address as int);
}

/// A controller's shift register after `n` bits have been read out.
pub open spec fn shifted_out_times(shift: u8, n: nat) -> u8
    decreases n,
{
    if n == 0 {
        shift
    } else {
        shifted_out(shifted_out_times(shift, (n - 1) as nat))
    }
}

/// Reading a controller: once the strobe has loaded the buttons, the first
/// eight reads show the buttons one at a time (A, B, Select, Start, Up,
/// Down, Left, Right) and every later read shows 1.
pub proof fn lemma_controller_report(buttons: u8, n: nat)
    ensures
        n < 8 ==> port_value(shifted_out_times(buttons, n)) == 0x40 | ((buttons >> n as u8) & 1),
        n >= 8 ==> port_value(shifted_out_times(buttons, n)) == 0x41,
    decreases n,
{
    reveal_with_fuel(shifted_out_times, 9);
    let b = buttons;
    assert({
        let s1 = (b >> 1u8) | 0x80;
        let s2 = (s1 >> 1u8) | 0x80;
        let s3 = (s2 >> 1u8) | 0x80;
        let s4 = (s3 >> 1u8) | 0x80;
        let s5 = (s4 >> 1u8) | 0x80;
        let s6 = (s5 >> 1u8) | 0x80;
        let s7 = (s6 >> 1u8) | 0x80;
        let s8 = (s7 >> 1u8) | 0x80;
        &&& 0x40 | (b & 1) == 0x40 | ((b >> 0u8) & 1)
        &&& 0x40 | (s1 & 1) == 0x40 | ((b >> 1u8) & 1)
        &&& 0x40 | (s2 & 1) == 0x40 | ((b >> 2u8) & 1)
        &&& 0x40 | (s3 & 1) == 0x40 | ((b >> 3u8) & 1)
        &&& 0x40 | (s4 & 1) == 0x40 | ((b >> 4u8) & 1)
        &&& 0x40 | (s5 & 1) == 0x40 | ((b >> 5u8) & 1)
        &&& 0x40 | (s6 & 1) == 0x40 | ((b >> 6u8) & 1)
        &&& 0x40 | (s7 & 1) == 0x40 | ((b >> 7u8) & 1)
        &&& s8 == 0xFF
        &&& (0xFFu8 >> 1u8) | 0x80 == 0xFF
        &&& 0x40u8 | (0xFFu8 & 1) == 0x41
    }) by (bit_vector);
    if n > 8 {
        lemma_controller_report(buttons, (n - 1) as nat);
        lemma_shift_register_saturates(buttons, (n - 1) as nat);
    }
}

/// After eight reads the shift register holds only 1s, and stays that way.
proof fn lemma_shift_register_saturates(buttons: u8, n: nat)
    requires
        n >= 8,
    ensures
        shifted_out_times(buttons, n) == 0xFF,
    decreases n,
{
    reveal_with_fuel(shifted_out_times, 9);
    let b = buttons;
    assert({
        let s1 = (b >> 1u8) | 0x80;
        let s2 = (s1 >> 1u8) | 0x80;
        let s3 = (s2 >> 1u8) | 0x80;
        let s4 = (s3 >> 1u8) | 0x80;
        let s5 = (s4 >> 1u8) | 0x80;
        let s6 = (s5 >> 1u8) | 0x80;
        let s7 = (s6 >> 1u8) | 0x80;
        let s8 = (s7 >> 1u8) | 0x80;
        &&& s8 == 0xFF
        &&& (0xFFu8 >> 1u8) | 0x80 == 0xFF
    }) by (bit_vector);
    if n > 8 {
        lemma_shift_register_saturates(buttons, (n - 1) as nat);
    }
}


/// Writing 1 and then 0 to $4016 latches the buttons of both controllers into
/// the shift registers, and from then on each read of a port reports the next
/// button; while the strobe is held high, reads keep reporting button A and
/// shift nothing.
pub proof fn lemma_strobe_loads_buttons(bus: CpuBusView)
    requires
        bus.controllers.len() == 2,
        bus.controller_shift.len() == 2,
    ensures
        bus.write(JOYPAD1, 1).write(JOYPAD1, 0).controller_shift == bus.controllers,
        !bus.write(JOYPAD1, 1).write(JOYPAD1, 0).controller_strobe,
        bus.write(JOYPAD1, 1).read(JOYPAD1).0 == port_value(bus.controllers[0]),
        bus.write(JOYPAD1, 1).read(JOYPAD1).1 == bus.write(JOYPAD1, 1),
        ({
            let latched = bus.write(JOYPAD1, 1).write(JOYPAD1, 0);
            &&& latched.read(JOYPAD1).0 == port_value(bus.controllers[0])
            &&& latched.read(JOYPAD1).1.controller_shift[0] == shifted_out(bus.controllers[0])
            &&& latched.read(JOYPAD2).0 == port_value(bus.controllers[1])
        }),
{
    crate::bits::lemma_byte_bits(1);
    crate::bits::lemma_byte_bits(0);
}


impl CpuBusView {
    /// The bus after `n` reads of `address`.
    pub open spec fn reads(self, address: u16, n: nat) -> CpuBusView
        decreases n,
    {
        if n == 0 {
            self
        } else {
            self.reads(address, (n - 1) as nat).read(address).1
        }
    }
}

/// The address of controller port `port` (0 or 1).
pub open spec fn port_address(port: int) -> u16 {
    if port == 0 {
        JOYPAD1
    } else {
        JOYPAD2
    }
}

/// With the strobe low, each read of a controller port shows the next bit of
/// that port's shift register and shifts it; the other port's register and
/// the rest of the bus are untouched.
pub proof fn lemma_port_reads(bus: CpuBusView, port: int, n: nat)
    requires
        port == 0 || port == 1,
        bus.controller_shift.len() == 2,
        !bus.controller_strobe,
    ensures
        ({
            let after = bus.reads(port_address(port), n);
            &&& after.controller_shift.len() == 2
            &&& after.controller_shift[port] == shifted_out_times(bus.controller_shift[port], n)
            &&& after.controller_shift[1 - port] == bus.controller_shift[1 - port]
            &&& after == (CpuBusView { controller_shift: after.controller_shift, ..bus })
            &&& after.read(port_address(port)).0 == port_value(
                shifted_out_times(bus.controller_shift[port], n),
            )
        }),
    decreases n,
{
    if n > 0 {
        lemma_port_reads(bus, port, (n - 1) as nat);
    }
}

/// Reading a controller: after 1 and then 0 are written to $4016, the next
/// eight reads of a port ($4016 for controller 1, $4017 for controller 2)
/// report that controller's buttons one at a time (A, B, Select, Start, Up,
/// Down, Left, Right) and every later read shows 1; reading one port leaves
/// the other's report where it was.
pub proof fn lemma_controller_report_sequence(bus: CpuBusView, port: int, n: nat)
    requires
        port == 0 || port == 1,
        bus.controllers.len() == 2,
        bus.controller_shift.len() == 2,
    ensures
        ({
            let latched = bus.write(JOYPAD1, 1).write(JOYPAD1, 0);
            let after = latched.reads(port_address(port), n);
            &&& n < 8 ==> after.read(port_address(port)).0 == 0x40 | ((bus.controllers[port]
                >> n as u8) & 1)
            &&& n >= 8 ==> after.read(port_address(port)).0 == 0x41
            &&& after.controller_shift[1 - port] == bus.controllers[1 - port]
            &&& !after.controller_strobe
        }),
{
    lemma_strobe_loads_buttons(bus);
    let latched = bus.write(JOYPAD1, 1).write(JOYPAD1, 0);
    lemma_port_reads(latched, port, n);
    lemma_controller_report(bus.controllers[port], n);
}

/// The two controllers report independently: after 1 and then 0 are written
/// to $4016, `n` reads of one port followed by `m` reads of the other leave
/// the second port reporting its controller's buttons from the start, just as
/// if the first port had not been read.
pub proof fn lemma_controller_ports_independent(bus: CpuBusView, port: int, n: nat, m: nat)
    requires
        port == 0 || port == 1,
        bus.controllers.len() == 2,
        bus.controller_shift.len() == 2,
    ensures
        ({
            let latched = bus.write(JOYPAD1, 1).write(JOYPAD1, 0);
            let other = port_address(1 - port);
            let after = latched.reads(port_address(port), n).reads(other, m);
            &&& m < 8 ==> after.read(other).0 == 0x40 | ((bus.controllers[1 - port] >> m as u8) & 1)
            &&& m >= 8 ==> after.read(other).0 == 0x41
        }),
{
    lemma_strobe_loads_buttons(bus);
    let latched = bus.write(JOYPAD1, 1).write(JOYPAD1, 0);
    let mid = latched.reads(port_address(port), n);
    lemma_port_reads(latched, port, n);
    assert(port_address(1 - (1 - port)) == port_address(port));
    lemma_port_reads(mid, 1 - port, m);
    lemma_controller_report(bus.controllers[1 - port], m);
}

/// The CPU memory map: the eight PPU registers repeat every 8 bytes through
/// $2000-$3FFF (reads and writes alike); $4018-$401F answer 0 and ignore
/// writes, changing nothing; from $4020 on, reads give the cartridge's byte
/// (0 where it does not answer) and change nothing.
pub proof fn lemma_memory_map(bus: CpuBusView, address: u16, data: u8)
    ensures
        0x2000 <= address <= 0x3FFF ==> bus.read(address) == bus.read((0x2000 + address % 8) as u16)
            && bus.write(address, data) == bus.write((0x2000 + address % 8) as u16, data),
        0x4018 <= address <= 0x401F ==> bus.read(address) == (0u8, bus) && bus.write(address, data)
            == bus,
        address >= 0x4020 ==> bus.read(address) == (
            match bus.cartridge().cpu_read(address) {
                Some(v) => v,
                None => 0u8,
            },
            bus,
        ),
{
}

} // verus!
