//! Loads and stores.

use vstd::prelude::*;

use crate::bus::{CpuMemory, MemoryModel};
use crate::cpu::addressing::Operand;
use crate::cpu::Cpu;

verus! {

impl Cpu {
    pub open spec fn spec_lda<M: MemoryModel>(self, operand: Operand, bus: M) -> (Cpu, M, u8) {
        let (value, bus2, extra) = self.spec_fetch(operand, bus);
        (Cpu { a: value, ..self }.with_zn(value), bus2, extra)
    }

    pub open spec fn spec_ldx<M: MemoryModel>(self, operand: Operand, bus: M) -> (Cpu, M, u8) {
        let (value, bus2, extra) = self.spec_fetch(operand, bus);
        (Cpu { x: value, ..self }.with_zn(value), bus2, extra)
    }

    pub open spec fn spec_ldy<M: MemoryModel>(self, operand: Operand, bus: M) -> (Cpu, M, u8) {
        let (value, bus2, extra) = self.spec_fetch(operand, bus);
        (Cpu { y: value, ..self }.with_zn(value), bus2, extra)
    }

    pub open spec fn spec_sta<M: MemoryModel>(self, operand: Operand, bus: M) -> (Cpu, M, u8) {
        (self, bus.write_spec(operand->address, self.a), 0)
    }

    pub open spec fn spec_stx<M: MemoryModel>(self, operand: Operand, bus: M) -> (Cpu, M, u8) {
        (self, bus.write_spec(operand->address, self.x), 0)
    }

    pub open spec fn spec_sty<M: MemoryModel>(self, operand: Operand, bus: M) -> (Cpu, M, u8) {
        (self, bus.write_spec(operand->address, self.y), 0)
    }

    /// Load A
    /// A = memory
    ///
    /// LDA loads a memory value into the accumulator.
    pub fn lda<B: CpuMemory>(&mut self, operand: Operand, bus: &mut B) -> (extra: u8)
        requires
            operand is Address,
        ensures
            (*final(self), final(bus).model(), extra) == old(self).spec_lda(operand, old(bus).model()),
    {
        let (address, page_crossed) = operand.expect_address();
        self.a = bus.read(address);
        self.update_zn(self.a);
        if page_crossed {
            1
        } else {
            0
        }
    }

    /// Store A
    /// memory = A
    ///
    /// STA stores the accumulator value into memory.
    pub fn sta<B: CpuMemory>(&mut self, operand: Operand, bus: &mut B) -> (extra: u8)
        requires
            operand is Address,
        ensures
            (*final(self), final(bus).model(), extra) == old(self).spec_sta(operand, old(bus).model()),
    {
        let (address, _) = operand.expect_address();
        bus.write(address, self.a);
        0
    }

    /// Load X
    /// X = memory
    ///
    /// LDX loads a memory value into the X register.
    pub fn ldx<B: CpuMemory>(&mut self, operand: Operand, bus: &mut B) -> (extra: u8)
        requires
            operand is Address,
        ensures
            (*final(self), final(bus).model(), extra) == old(self).spec_ldx(operand, old(bus).model()),
    {
        let (address, page_crossed) = operand.expect_address();
        self.x = bus.read(address);
        self.update_zn(self.x);
        if page_crossed {
            1
        } else {
            0
        }
    }

    /// Store X
    /// memory = X
    ///
    /// STX stores the X register value into memory.
    pub fn stx<B: CpuMemory>(&mut self, operand: Operand, bus: &mut B) -> (extra: u8)
        requires
            operand is Address,
        ensures
            (*final(self), final(bus).model(), extra) == old(self).spec_stx(operand, old(bus).model()),
    {
        let (address, _) = operand.expect_address();
        bus.write(address, self.x);
        0
    }

    /// Load Y
    /// Y = memory
    ///
    /// LDY loads a memory value into the Y register.
    pub fn ldy<B: CpuMemory>(&mut self, operand: Operand, bus: &mut B) -> (extra: u8)
        requires
            operand is Address,
        ensures
            (*final(self), final(bus).model(), extra) == old(self).spec_ldy(operand, old(bus).model()),
    {
        let (address, page_crossed) = operand.expect_address();
        self.y = bus.read(address);
        self.update_zn(self.y);
        if page_crossed {
            1
        } else {
            0
        }
    }

    /// Store Y
    /// memory = Y
    ///
    /// STY stores the Y register value into memory.
    pub fn sty<B: CpuMemory>(&mut self, operand: Operand, bus: &mut B) -> (extra: u8)
        requires
            operand is Address,
        ensures
            (*final(self), final(bus).model(), extra) == old(self).spec_sty(operand, old(bus).model()),
    {
        let (address, _) = operand.expect_address();
        bus.write(address, self.y);
        0
    }
}

} // verus!
