//! The 6502 addressing modes and how each one finds its operand.

use vstd::prelude::*;

use crate::bus::{MemoryModel, add16, add8, CpuMemory};
use crate::cpu::{make_word, word, Cpu};

verus! {

/// The 6502's addressing modes: each describes a way of computing the
/// effective address (or lack thereof) that an instruction operates on.
#[derive(Clone, Copy, Debug, PartialEq, Eq, Structural)]
pub enum AddressingMode {
    /// Operand is the accumulator itself.
    Accumulator,
    /// There is no additional data required for this instruction.
    Implied,
    /// The operand is the byte right after the opcode.
    Immediate,
    /// A one-byte address into the first page ($0000-$00FF).
    ZeroPage,
    /// `ZeroPage` plus X, wrapping within the zero page.
    ZeroPageX,
    /// `ZeroPage` plus Y, wrapping within the zero page.
    ZeroPageY,
    /// A signed 8-bit offset from the address after the branch instruction.
    Relative,
    /// A full 16-bit address.
    Absolute,
    /// `Absolute` plus X; crossing a page costs an extra cycle.
    AbsoluteX,
    /// `Absolute` plus Y; crossing a page costs an extra cycle.
    AbsoluteY,
    /// A 16-bit pointer to the real address. When the pointer's low byte is $FF
    /// the high byte of the target is read from the start of the same page (a
    /// hardware bug).
    Indirect,
    /// A zero-page pointer offset by X (before the lookup).
    IndirectX,
    /// A zero-page pointer whose target is offset by Y (after the lookup);
    /// crossing a page costs an extra cycle.
    IndirectY,
}

/// Result of solving an addressing mode.
#[derive(Clone, Copy, Debug, PartialEq, Eq, Structural)]
pub enum Operand {
    /// Operand lives at a bus address.
    Address { address: u16, page_crossed: bool },
    /// Operand is the accumulator register itself.
    Accumulator,
}

/// Whether two addresses lie on different 256-byte pages.
pub open spec fn pages_differ(a: u16, b: u16) -> bool {
    a / 0x100 != b / 0x100
}

/// The 16-bit two's-complement extension of a signed byte offset.
pub open spec fn sign_extend(offset: u8) -> u16 {
    if offset < 0x80 {
        offset as u16
    } else {
        (offset + 0xFF00) as u16
    }
}

/// The address a branch at `base` (the byte after the instruction) reaches
/// with signed `offset`.
pub open spec fn relative_target(base: u16, offset: u8) -> u16 {
    add16(base, sign_extend(offset))
}

/// An operand at `address` that did not cross a page.
pub open spec fn at(address: u16) -> Operand {
    Operand::Address { address: address, page_crossed: false }
}

/// An address operand that does not cross a page (a convenience for driving
/// instructions directly).
pub fn operand_at(address: u16) -> (operand: Operand)
    ensures
        operand == at(address),
{
    Operand::Address { address, page_crossed: false }
}

impl Operand {
    /// The address and page-crossing flag of an address operand. Only valid for
    /// instructions whose opcodes never use accumulator addressing.
    pub fn expect_address(&self) -> (r: (u16, bool))
        requires
            *self is Address,
        ensures
            r == (self->address, self->page_crossed),
    {
        match self {
            Operand::Address { address, page_crossed } => (*address, *page_crossed),
            Operand::Accumulator => (0, false),
        }
    }
}

/// Whether `address` is on a different page than `base`.
pub fn page_crossed(base: u16, address: u16) -> (r: bool)
    ensures
        r == pages_differ(base, address),
{
    assert(((address & 0xFF00) != (base & 0xFF00)) == (address / 0x100 != base / 0x100))
        by (bit_vector);
    (address & 0xFF00) != (base & 0xFF00)
}

impl Cpu {
    /// The CPU, bus and operand after resolving `mode`: operand bytes are read
    /// at the PC, which moves past them.
    pub open spec fn spec_resolve<M: MemoryModel>(self, mode: AddressingMode, bus: M) -> (
        Cpu,
        M,
        Operand,
    ) {
        let pc1 = add16(self.pc, 1);
        let pc2 = add16(self.pc, 2);
        match mode {
            AddressingMode::Accumulator => (self, bus, Operand::Accumulator),
            AddressingMode::Implied => (self, bus, at(0)),
            AddressingMode::Immediate => (Cpu { pc: pc1, ..self }, bus, at(self.pc)),
            AddressingMode::ZeroPage => {
                let (b, bus1) = bus.read_spec(self.pc);
                (Cpu { pc: pc1, ..self }, bus1, at(b as u16))
            },
            AddressingMode::ZeroPageX => {
                let (b, bus1) = bus.read_spec(self.pc);
                (Cpu { pc: pc1, ..self }, bus1, at(add8(b, self.x) as u16))
            },
            AddressingMode::ZeroPageY => {
                let (b, bus1) = bus.read_spec(self.pc);
                (Cpu { pc: pc1, ..self }, bus1, at(add8(b, self.y) as u16))
            },
            AddressingMode::Relative => {
                let (offset, bus1) = bus.read_spec(self.pc);
                let target = relative_target(pc1, offset);
                (
                    Cpu { pc: pc1, ..self },
                    bus1,
                    Operand::Address { address: target, page_crossed: pages_differ(pc1, target) },
                )
            },
            AddressingMode::Absolute => {
                let (lo, bus1) = bus.read_spec(self.pc);
                let (hi, bus2) = bus1.read_spec(pc1);
                (Cpu { pc: pc2, ..self }, bus2, at(word(lo, hi)))
            },
            AddressingMode::AbsoluteX => {
                let (lo, bus1) = bus.read_spec(self.pc);
                let (hi, bus2) = bus1.read_spec(pc1);
                let base = word(lo, hi);
                let target = add16(base, self.x as u16);
                (
                    Cpu { pc: pc2, ..self },
                    bus2,
                    Operand::Address { address: target, page_crossed: pages_differ(base, target) },
                )
            },
            AddressingMode::AbsoluteY => {
                let (lo, bus1) = bus.read_spec(self.pc);
                let (hi, bus2) = bus1.read_spec(pc1);
                let base = word(lo, hi);
                let target = add16(base, self.y as u16);
                (
                    Cpu { pc: pc2, ..self },
                    bus2,
                    Operand::Address { address: target, page_crossed: pages_differ(base, target) },
                )
            },
            AddressingMode::Indirect => {
                let (plo, bus1) = bus.read_spec(self.pc);
                let (phi, bus2) = bus1.read_spec(pc1);
                let pointer = word(plo, phi);
                let (lo, bus3) = bus2.read_spec(pointer);
                let hi_address = if pointer % 0x100 == 0xFF {
                    (pointer - 0xFF) as u16
                } else {
                    add16(pointer, 1)
                };
                let (hi, bus4) = bus3.read_spec(hi_address);
                (Cpu { pc: pc2, ..self }, bus4, at(word(lo, hi)))
            },
            AddressingMode::IndirectX => {
                let (zp, bus1) = bus.read_spec(self.pc);
                let pointer = add8(zp, self.x);
                let (lo, bus2) = bus1.read_spec(pointer as u16);
                let (hi, bus3) = bus2.read_spec(add8(pointer, 1) as u16);
                (Cpu { pc: pc1, ..self }, bus3, at(word(lo, hi)))
            },
            AddressingMode::IndirectY => {
                let (zp, bus1) = bus.read_spec(self.pc);
                let (lo, bus2) = bus1.read_spec(zp as u16);
                let (hi, bus3) = bus2.read_spec(add8(zp, 1) as u16);
                let base = word(lo, hi);
                let target = add16(base, self.y as u16);
                (
                    Cpu { pc: pc1, ..self },
                    bus3,
                    Operand::Address { address: target, page_crossed: pages_differ(base, target) },
                )
            },
        }
    }

    /// Resolves `mode` into an operand, consuming the operand bytes after the opcode.
    pub fn resolve_address<B: CpuMemory>(&mut self, mode: AddressingMode, bus: &mut B) -> (operand:
        Operand)
        ensures
            (*final(self), final(bus).model(), operand) == old(self).spec_resolve(mode, old(bus).model()),
    {
        match mode {
            AddressingMode::Accumulator => self.addr_accumulator(),
            AddressingMode::Implied => self.addr_implied(),
            AddressingMode::Immediate => self.addr_immediate(),
            AddressingMode::ZeroPage => self.addr_zero_page(bus),
            AddressingMode::ZeroPageX => self.addr_zero_page_x(bus),
            AddressingMode::ZeroPageY => self.addr_zero_page_y(bus),
            AddressingMode::Relative => self.addr_relative(bus),
            AddressingMode::Absolute => self.addr_absolute(bus),
            AddressingMode::AbsoluteX => self.addr_absolute_x(bus),
            AddressingMode::AbsoluteY => self.addr_absolute_y(bus),
            AddressingMode::Indirect => self.addr_indirect(bus),
            AddressingMode::IndirectX => self.addr_indirect_x(bus),
            AddressingMode::IndirectY => self.addr_indirect_y(bus),
        }
    }

    pub fn addr_accumulator(&mut self) -> (operand: Operand)
        ensures
            *final(self) == *old(self),
            operand == Operand::Accumulator,
    {
        Operand::Accumulator
    }

    /// Implied instructions get a placeholder address and consume no bytes.
    pub fn addr_implied(&mut self) -> (operand: Operand)
        ensures
            *final(self) == *old(self),
            operand == at(0),
    {
        Operand::Address { address: 0, page_crossed: false }
    }

    /// The operand is the byte at the PC itself.
    pub fn addr_immediate(&mut self) -> (operand: Operand)
        ensures
            *final(self) == (Cpu { pc: add16(old(self).pc, 1), ..*old(self) }),
            operand == at(old(self).pc),
    {
        let address = self.pc;
        self.pc = self.pc.wrapping_add(1);
        Operand::Address { address, page_crossed: false }
    }

    pub fn addr_zero_page<B: CpuMemory>(&mut self, bus: &mut B) -> (operand: Operand)
        ensures
            (*final(self), final(bus).model(), operand) == old(self).spec_resolve(
                AddressingMode::ZeroPage,
                old(bus).model(),
            ),
    {
        let address = bus.read(self.pc) as u16;
        self.pc = self.pc.wrapping_add(1);
        Operand::Address { address, page_crossed: false }
    }

    pub fn addr_zero_page_x<B: CpuMemory>(&mut self, bus: &mut B) -> (operand: Operand)
        ensures
            (*final(self), final(bus).model(), operand) == old(self).spec_resolve(
                AddressingMode::ZeroPageX,
                old(bus).model(),
            ),
    {
        let base = bus.read(self.pc);
        self.pc = self.pc.wrapping_add(1);
        let address = base.wrapping_add(self.x) as u16;
        Operand::Address { address, page_crossed: false }
    }

    pub fn addr_zero_page_y<B: CpuMemory>(&mut self, bus: &mut B) -> (operand: Operand)
        ensures
            (*final(self), final(bus).model(), operand) == old(self).spec_resolve(
                AddressingMode::ZeroPageY,
                old(bus).model(),
            ),
    {
        let base = bus.read(self.pc);
        self.pc = self.pc.wrapping_add(1);
        let address = base.wrapping_add(self.y) as u16;
        Operand::Address { address, page_crossed: false }
    }

    pub fn addr_relative<B: CpuMemory>(&mut self, bus: &mut B) -> (operand: Operand)
        ensures
            (*final(self), final(bus).model(), operand) == old(self).spec_resolve(
                AddressingMode::Relative,
                old(bus).model(),
            ),
    {
        let offset = bus.read(self.pc);
        self.pc = self.pc.wrapping_add(1);
        // `pc` now points past the branch instruction completely.
        let base = self.pc;
        let extended: u16 = if offset < 0x80 {
            offset as u16
        } else {
            offset as u16 + 0xFF00
        };
        let address = base.wrapping_add(extended);
        Operand::Address { address, page_crossed: page_crossed(base, address) }
    }

    pub fn addr_absolute<B: CpuMemory>(&mut self, bus: &mut B) -> (operand: Operand)
        ensures
            (*final(self), final(bus).model(), operand) == old(self).spec_resolve(
                AddressingMode::Absolute,
                old(bus).model(),
            ),
    {
        let lo = bus.read(self.pc);
        let hi = bus.read(self.pc.wrapping_add(1));
        let address = make_word(lo, hi);
        self.pc = self.pc.wrapping_add(2);
        Operand::Address { address, page_crossed: false }
    }

    pub fn addr_absolute_x<B: CpuMemory>(&mut self, bus: &mut B) -> (operand: Operand)
        ensures
            (*final(self), final(bus).model(), operand) == old(self).spec_resolve(
                AddressingMode::AbsoluteX,
                old(bus).model(),
            ),
    {
        let lo = bus.read(self.pc);
        let hi = bus.read(self.pc.wrapping_add(1));
        let base = make_word(lo, hi);
        self.pc = self.pc.wrapping_add(2);
        let address = base.wrapping_add(self.x as u16);
        Operand::Address { address, page_crossed: page_crossed(base, address) }
    }

    pub fn addr_absolute_y<B: CpuMemory>(&mut self, bus: &mut B) -> (operand: Operand)
        ensures
            (*final(self), final(bus).model(), operand) == old(self).spec_resolve(
                AddressingMode::AbsoluteY,
                old(bus).model(),
            ),
    {
        let lo = bus.read(self.pc);
        let hi = bus.read(self.pc.wrapping_add(1));
        let base = make_word(lo, hi);
        self.pc = self.pc.wrapping_add(2);
        let address = base.wrapping_add(self.y as u16);
        Operand::Address { address, page_crossed: page_crossed(base, address) }
    }

    pub fn addr_indirect<B: CpuMemory>(&mut self, bus: &mut B) -> (operand: Operand)
        ensures
            (*final(self), final(bus).model(), operand) == old(self).spec_resolve(
                AddressingMode::Indirect,
                old(bus).model(),
            ),
    {
        let plo = bus.read(self.pc);
        let phi = bus.read(self.pc.wrapping_add(1));
        let pointer = make_word(plo, phi);
        self.pc = self.pc.wrapping_add(2);
        let lo = bus.read(pointer);
        // Hardware bug: when the pointer's low byte is $FF the high byte of the
        // target is read from the start of the same page, not from the next page.
        assert((pointer & 0x00FF == 0x00FF) == (pointer % 0x100 == 0xFF)) by (bit_vector);
        assert(pointer & 0x00FF == 0x00FF ==> pointer & 0xFF00 == (pointer - 0xFF) as u16) by (bit_vector);
        let hi_address = if pointer & 0x00FF == 0x00FF {
            pointer & 0xFF00
        } else {
            pointer.wrapping_add(1)
        };
        let hi = bus.read(hi_address);
        let address = make_word(lo, hi);
        Operand::Address { address, page_crossed: false }
    }

    pub fn addr_indirect_x<B: CpuMemory>(&mut self, bus: &mut B) -> (operand: Operand)
        ensures
            (*final(self), final(bus).model(), operand) == old(self).spec_resolve(
                AddressingMode::IndirectX,
                old(bus).model(),
            ),
    {
        let zp_base = bus.read(self.pc);
        self.pc = self.pc.wrapping_add(1);
        let pointer = zp_base.wrapping_add(self.x) as u16;
        let lo = bus.read(pointer);
        let hi_address = zp_base.wrapping_add(self.x).wrapping_add(1) as u16;
        let hi = bus.read(hi_address);
        let address = make_word(lo, hi);
        Operand::Address { address, page_crossed: false }
    }

    pub fn addr_indirect_y<B: CpuMemory>(&mut self, bus: &mut B) -> (operand: Operand)
        ensures
            (*final(self), final(bus).model(), operand) == old(self).spec_resolve(
                AddressingMode::IndirectY,
                old(bus).model(),
            ),
    {
        let zp_base = bus.read(self.pc);
        self.pc = self.pc.wrapping_add(1);
        let lo = bus.read(zp_base as u16);
        let hi = bus.read(zp_base.wrapping_add(1) as u16);
        let base = make_word(lo, hi);
        let address = base.wrapping_add(self.y as u16);
        Operand::Address { address, page_crossed: page_crossed(base, address) }
    }
}

/// The address a little-endian byte pair at `lo` and `hi` forms.
pub open spec fn little_endian(lo: u8, hi: u8) -> int {
    lo + 256 * hi
}

/// Whether resolving `mode` leaves the bus as it was, moves the PC past
/// `operand_bytes` operand bytes (wrapping at 64 KiB) and yields `operand`.
pub open spec fn resolves_to<M: MemoryModel>(
    cpu: Cpu,
    mode: AddressingMode,
    bus: M,
    operand_bytes: int,
    operand: Operand,
) -> bool {
    let (after, bus2, result) = cpu.spec_resolve(mode, bus);
    &&& bus2 == bus
    &&& after == (Cpu { pc: ((cpu.pc + operand_bytes) % 0x10000) as u16, ..cpu })
    &&& result == operand
}

/// An indexed address: `base` plus `index` within 64 KiB, noting whether it
/// left `base`'s page.
pub open spec fn indexed(base: int, index: u8) -> Operand {
    let address = (base + index) % 0x10000;
    Operand::Address { address: address as u16, page_crossed: base / 256 != address / 256 }
}

/// Addressing without indirection, on memory whose reads change nothing
/// (`b1`, `b2` the bytes after the opcode, at the PC): #imm is the byte at
/// the PC; zp, zp,X and zp,Y add nothing, X or Y to `b1` within page zero;
/// abs, abs,X and abs,Y add nothing, X or Y to the little-endian `b1 b2`
/// within 64 KiB, noting a page change.
pub proof fn lemma_direct_addressing<M: MemoryModel>(cpu: Cpu, bus: M)
    requires
        forall|a: u16| #[trigger] bus.read_spec(a) == (bus.peek_spec(a), bus),
    ensures
        ({
            let b1 = bus.peek_spec(cpu.pc);
            let b2 = bus.peek_spec(((cpu.pc + 1) % 0x10000) as u16);
            let abs = little_endian(b1, b2);
            &&& resolves_to(cpu, AddressingMode::Accumulator, bus, 0, Operand::Accumulator)
            &&& resolves_to(cpu, AddressingMode::Immediate, bus, 1, at(cpu.pc))
            &&& resolves_to(cpu, AddressingMode::ZeroPage, bus, 1, at(b1 as u16))
            &&& resolves_to(
                cpu,
                AddressingMode::ZeroPageX,
                bus,
                1,
                at(((b1 + cpu.x) % 256) as u16),
            )
            &&& resolves_to(
                cpu,
                AddressingMode::ZeroPageY,
                bus,
                1,
                at(((b1 + cpu.y) % 256) as u16),
            )
            &&& resolves_to(cpu, AddressingMode::Absolute, bus, 2, at(abs as u16))
            &&& resolves_to(cpu, AddressingMode::AbsoluteX, bus, 2, indexed(abs, cpu.x))
            &&& resolves_to(cpu, AddressingMode::AbsoluteY, bus, 2, indexed(abs, cpu.y))
        }),
{
    lemma_resolve_zero_page(cpu, bus);
    lemma_resolve_absolute(cpu, bus, AddressingMode::Absolute);
    lemma_resolve_absolute(cpu, bus, AddressingMode::AbsoluteX);
    lemma_resolve_absolute(cpu, bus, AddressingMode::AbsoluteY);
}

proof fn lemma_resolve_zero_page<M: MemoryModel>(cpu: Cpu, bus: M)
    requires
        forall|a: u16| #[trigger] bus.read_spec(a) == (bus.peek_spec(a), bus),
    ensures
        ({
            let b1 = bus.peek_spec(cpu.pc);
            &&& resolves_to(cpu, AddressingMode::Accumulator, bus, 0, Operand::Accumulator)
            &&& resolves_to(cpu, AddressingMode::Immediate, bus, 1, at(cpu.pc))
            &&& resolves_to(cpu, AddressingMode::ZeroPage, bus, 1, at(b1 as u16))
            &&& resolves_to(
                cpu,
                AddressingMode::ZeroPageX,
                bus,
                1,
                at(((b1 + cpu.x) % 256) as u16),
            )
            &&& resolves_to(
                cpu,
                AddressingMode::ZeroPageY,
                bus,
                1,
                at(((b1 + cpu.y) % 256) as u16),
            )
        }),
{
    assert(add16(cpu.pc, 1) == ((cpu.pc + 1) % 0x10000) as u16);
    assert(cpu == (Cpu { pc: ((cpu.pc + 0) % 0x10000) as u16, ..cpu }));
}

proof fn lemma_resolve_absolute<M: MemoryModel>(cpu: Cpu, bus: M, mode: AddressingMode)
    requires
        forall|a: u16| #[trigger] bus.read_spec(a) == (bus.peek_spec(a), bus),
        mode is Absolute || mode is AbsoluteX || mode is AbsoluteY,
    ensures
        ({
            let b1 = bus.peek_spec(cpu.pc);
            let b2 = bus.peek_spec(((cpu.pc + 1) % 0x10000) as u16);
            let abs = little_endian(b1, b2);
            &&& mode is Absolute ==> resolves_to(cpu, mode, bus, 2, at(abs as u16))
            &&& mode is AbsoluteX ==> resolves_to(cpu, mode, bus, 2, indexed(abs, cpu.x))
            &&& mode is AbsoluteY ==> resolves_to(cpu, mode, bus, 2, indexed(abs, cpu.y))
        }),
{
    let b1 = bus.peek_spec(cpu.pc);
    let b2 = bus.peek_spec(((cpu.pc + 1) % 0x10000) as u16);
    assert(add16(cpu.pc, 1) == ((cpu.pc + 1) % 0x10000) as u16);
    assert(add16(cpu.pc, 2) == ((cpu.pc + 2) % 0x10000) as u16);
    assert(word(b1, b2) as int == little_endian(b1, b2));
    let base = word(b1, b2);
    assert(add16(base, cpu.x as u16) as int == (little_endian(b1, b2) + cpu.x) % 0x10000);
    assert(add16(base, cpu.y as u16) as int == (little_endian(b1, b2) + cpu.y) % 0x10000);
}

/// Addressing through pointers, on memory whose reads change nothing (`b1`,
/// `b2` the bytes after the opcode): (zp,X) reads the little-endian address
/// at `b1 + X` in page zero (its second byte wrapping within page zero);
/// (zp),Y reads the address at `b1` the same way and adds Y within 64 KiB,
/// noting a page change; JMP (ind) reads the address at `b1 b2`, taking its
/// high byte from the same page as its low byte.
pub proof fn lemma_indirect_addressing<M: MemoryModel>(cpu: Cpu, bus: M)
    requires
        forall|a: u16| #[trigger] bus.read_spec(a) == (bus.peek_spec(a), bus),
    ensures
        ({
            let mem = |a: int| bus.peek_spec(a as u16);
            let b1 = mem(cpu.pc as int);
            let b2 = mem((cpu.pc + 1) % 0x10000);
            let pointer = little_endian(b1, b2);
            let zx = (b1 + cpu.x) % 256;
            &&& resolves_to(
                cpu,
                AddressingMode::IndirectX,
                bus,
                1,
                at(little_endian(mem(zx), mem((zx + 1) % 256)) as u16),
            )
            &&& resolves_to(
                cpu,
                AddressingMode::IndirectY,
                bus,
                1,
                indexed(little_endian(mem(b1 as int), mem((b1 + 1) % 256)), cpu.y),
            )
            &&& resolves_to(
                cpu,
                AddressingMode::Indirect,
                bus,
                2,
                at(
                    little_endian(
                        mem(pointer),
                        mem(pointer - pointer % 256 + (pointer + 1) % 256),
                    ) as u16,
                ),
            )
        }),
{
    lemma_resolve_indirect_x(cpu, bus);
    lemma_resolve_indirect_y(cpu, bus);
    lemma_resolve_indirect(cpu, bus);
}

proof fn lemma_resolve_indirect_x<M: MemoryModel>(cpu: Cpu, bus: M)
    requires
        forall|a: u16| #[trigger] bus.read_spec(a) == (bus.peek_spec(a), bus),
    ensures
        ({
            let mem = |a: int| bus.peek_spec(a as u16);
            let zx = (mem(cpu.pc as int) + cpu.x) % 256;
            resolves_to(
                cpu,
                AddressingMode::IndirectX,
                bus,
                1,
                at(little_endian(mem(zx), mem((zx + 1) % 256)) as u16),
            )
        }),
{
    let b1 = bus.peek_spec(cpu.pc);
    assert(add16(cpu.pc, 1) == ((cpu.pc + 1) % 0x10000) as u16);
    let zp = add8(b1, cpu.x);
    assert(zp as int == (b1 + cpu.x) % 256);
    assert(add8(zp, 1) as int == (zp + 1) % 256);
    let lo = bus.peek_spec(zp as u16);
    let hi = bus.peek_spec(add8(zp, 1) as u16);
    assert(word(lo, hi) as int == little_endian(lo, hi));
}

proof fn lemma_resolve_indirect_y<M: MemoryModel>(cpu: Cpu, bus: M)
    requires
        forall|a: u16| #[trigger] bus.read_spec(a) == (bus.peek_spec(a), bus),
    ensures
        ({
            let mem = |a: int| bus.peek_spec(a as u16);
            let b1 = mem(cpu.pc as int);
            resolves_to(
                cpu,
                AddressingMode::IndirectY,
                bus,
                1,
                indexed(little_endian(mem(b1 as int), mem((b1 + 1) % 256)), cpu.y),
            )
        }),
{
    let b1 = bus.peek_spec(cpu.pc);
    assert(add16(cpu.pc, 1) == ((cpu.pc + 1) % 0x10000) as u16);
    assert(add8(b1, 1) as int == (b1 + 1) % 256);
    let lo = bus.peek_spec(b1 as u16);
    let hi = bus.peek_spec(add8(b1, 1) as u16);
    assert(word(lo, hi) as int == little_endian(lo, hi));
    let base = word(lo, hi);
    assert(add16(base, cpu.y as u16) as int == (little_endian(lo, hi) + cpu.y) % 0x10000);
}

proof fn lemma_resolve_indirect<M: MemoryModel>(cpu: Cpu, bus: M)
    requires
        forall|a: u16| #[trigger] bus.read_spec(a) == (bus.peek_spec(a), bus),
    ensures
        ({
            let mem = |a: int| bus.peek_spec(a as u16);
            let pointer = little_endian(mem(cpu.pc as int), mem((cpu.pc + 1) % 0x10000));
            resolves_to(
                cpu,
                AddressingMode::Indirect,
                bus,
                2,
                at(
                    little_endian(
                        mem(pointer),
                        mem(pointer - pointer % 256 + (pointer + 1) % 256),
                    ) as u16,
                ),
            )
        }),
{
    let b1 = bus.peek_spec(cpu.pc);
    let b2 = bus.peek_spec(((cpu.pc + 1) % 0x10000) as u16);
    assert(add16(cpu.pc, 1) == ((cpu.pc + 1) % 0x10000) as u16);
    assert(add16(cpu.pc, 2) == ((cpu.pc + 2) % 0x10000) as u16);
    let pointer = word(b1, b2);
    assert(pointer as int == little_endian(b1, b2));
    let pi = pointer as int;
    let hi_address = if pointer % 0x100 == 0xFF {
        (pointer - 0xFF) as u16
    } else {
        add16(pointer, 1)
    };
    assert(hi_address == (pi - pi % 256 + (pi + 1) % 256) as u16);
    let lo = bus.peek_spec(pointer);
    let hi = bus.peek_spec(hi_address);
    assert(word(lo, hi) as int == little_endian(lo, hi));
}

/// A branch, on memory whose reads change nothing: the target is the address
/// after the two-byte instruction plus the signed offset byte, within 64 KiB,
/// noting whether it is on another page than that address.
pub proof fn lemma_relative_addressing<M: MemoryModel>(cpu: Cpu, bus: M)
    requires
        forall|a: u16| #[trigger] bus.read_spec(a) == (bus.peek_spec(a), bus),
    ensures
        ({
            let offset = bus.peek_spec(cpu.pc) as int;
            let next = (cpu.pc + 1) % 0x10000;
            let target = (next + if offset < 128 {
                offset
            } else {
                offset - 256
            } + 0x10000) % 0x10000;
            resolves_to(
                cpu,
                AddressingMode::Relative,
                bus,
                1,
                Operand::Address { address: target as u16, page_crossed: next / 256 != target / 256 },
            )
        }),
{
    let b1 = bus.peek_spec(cpu.pc);
    let pc1 = add16(cpu.pc, 1);
    assert(pc1 == ((cpu.pc + 1) % 0x10000) as u16);
    let t = relative_target(pc1, b1);
    let offset = b1 as int;
    let target = (pc1 + if offset < 128 {
        offset
    } else {
        offset - 256
    } + 0x10000) % 0x10000;
    assert(t as int == target);
    assert(pages_differ(pc1, t) == (pc1 / 256 != target / 256));
}

} // verus!
