//! Bitwise AND, OR, exclusive OR and the BIT test.

use vstd::prelude::*;

use crate::bus::{CpuMemory, MemoryModel};
use crate::cpu::addressing::Operand;
use crate::cpu::flags::{status_with, ZERO, OVERFLOW, NEGATIVE};
use crate::cpu::Cpu;

verus! {

impl Cpu {
    pub open spec fn spec_and<M: MemoryModel>(self, operand: Operand, bus: M) -> (Cpu, M, u8) {
        let (value, bus2, extra) = self.spec_fetch(operand, bus);
        let a = self.a & value;
        (Cpu { a: a, ..self }.with_zn(a), bus2, extra)
    }

    pub open spec fn spec_eor<M: MemoryModel>(self, operand: Operand, bus: M) -> (Cpu, M, u8) {
        let (value, bus2, extra) = self.spec_fetch(operand, bus);
        let a = self.a ^ value;
        (Cpu { a: a, ..self }.with_zn(a), bus2, extra)
    }

    pub open spec fn spec_ora<M: MemoryModel>(self, operand: Operand, bus: M) -> (Cpu, M, u8) {
        let (value, bus2, extra) = self.spec_fetch(operand, bus);
        let a = self.a | value;
        (Cpu { a: a, ..self }.with_zn(a), bus2, extra)
    }

    /// BIT: Z from A & memory, N and V copied from bits 7 and 6 of memory.
    pub open spec fn spec_bit<M: MemoryModel>(self, operand: Operand, bus: M) -> (Cpu, M, u8) {
        let (value, bus2) = bus.read_spec(operand->address);
        let status = status_with(
            status_with(status_with(self.status, ZERO, self.a & value == 0), NEGATIVE, value >= 0x80),
            OVERFLOW,
            value & 0x40 != 0,
        );
        (Cpu { status: status, ..self }, bus2, 0)
    }

    /// Bitwise AND
    /// A = A & memory
    ///
    /// ANDs a memory value and the accumulator, bit by bit.
    pub fn and<B: CpuMemory>(&mut self, operand: Operand, bus: &mut B) -> (extra: u8)
        requires
            operand is Address,
        ensures
            (*final(self), final(bus).model(), extra) == old(self).spec_and(operand, old(bus).model()),
    {
        let (address, page_crossed) = operand.expect_address();
        let value = bus.read(address);
        self.a = self.a & value;
        self.update_zn(self.a);
        if page_crossed {
            1
        } else {
            0
        }
    }

    /// Bitwise Exclusive OR
    /// A = A ^ memory
    ///
    /// EOR exclusive-ORs a memory value and the accumulator, bit by bit. EOR
    /// with $FF inverts every bit of the accumulator.
    pub fn eor<B: CpuMemory>(&mut self, operand: Operand, bus: &mut B) -> (extra: u8)
        requires
            operand is Address,
        ensures
            (*final(self), final(bus).model(), extra) == old(self).spec_eor(operand, old(bus).model()),
    {
        let (address, page_crossed) = operand.expect_address();
        let value = bus.read(address);
        self.a = self.a ^ value;
        self.update_zn(self.a);
        if page_crossed {
            1
        } else {
            0
        }
    }

    /// Bit Test
    /// A & memory
    ///
    /// BIT modifies flags, but does not change memory or registers. The zero
    /// flag is set depending on the result of the accumulator AND memory value.
    /// Bits 7 and 6 of the memory value are loaded directly into the negative
    /// and overflow flags.
    pub fn bit<B: CpuMemory>(&mut self, operand: Operand, bus: &mut B) -> (extra: u8)
        requires
            operand is Address,
        ensures
            (*final(self), final(bus).model(), extra) == old(self).spec_bit(operand, old(bus).model()),
    {
        let (address, _) = operand.expect_address();
        let value = bus.read(address);
        proof {
            crate::bits::lemma_byte_bits(value);
        }
        crate::cpu::flags::set(&mut self.status, ZERO, (self.a & value) == 0x00);
        crate::cpu::flags::set(&mut self.status, NEGATIVE, value & 0x80 != 0);
        crate::cpu::flags::set(&mut self.status, OVERFLOW, value & 0x40 != 0);
        0
    }

    /// Bitwise OR
    /// A = A | memory
    ///
    /// ORA inclusive-ORs a memory value and the accumulator, bit by bit.
    pub fn ora<B: CpuMemory>(&mut self, operand: Operand, bus: &mut B) -> (extra: u8)
        requires
            operand is Address,
        ensures
            (*final(self), final(bus).model(), extra) == old(self).spec_ora(operand, old(bus).model()),
    {
        let (address, page_crossed) = operand.expect_address();
        let value = bus.read(address);
        self.a = self.a | value;
        self.update_zn(self.a);
        if page_crossed {
            1
        } else {
            0
        }
    }
}

} // verus!
