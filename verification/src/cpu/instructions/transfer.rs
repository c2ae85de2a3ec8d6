//! Register-to-register transfers.

use vstd::prelude::*;

use crate::bus::{CpuMemory, MemoryModel};
use crate::cpu::addressing::Operand;
use crate::cpu::Cpu;

verus! {

impl Cpu {
    pub open spec fn spec_tax<M: MemoryModel>(self, operand: Operand, bus: M) -> (Cpu, M, u8) {
        (Cpu { x: self.a, ..self }.with_zn(self.a), bus, 0)
    }

    pub open spec fn spec_txa<M: MemoryModel>(self, operand: Operand, bus: M) -> (Cpu, M, u8) {
        (Cpu { a: self.x, ..self }.with_zn(self.x), bus, 0)
    }

    pub open spec fn spec_tay<M: MemoryModel>(self, operand: Operand, bus: M) -> (Cpu, M, u8) {
        (Cpu { y: self.a, ..self }.with_zn(self.a), bus, 0)
    }

    pub open spec fn spec_tya<M: MemoryModel>(self, operand: Operand, bus: M) -> (Cpu, M, u8) {
        (Cpu { a: self.y, ..self }.with_zn(self.y), bus, 0)
    }

    /// Transfer A to X
    /// X = A
    pub fn tax<B: CpuMemory>(&mut self, operand: Operand, bus: &mut B) -> (extra: u8)
        ensures
            (*final(self), final(bus).model(), extra) == old(self).spec_tax(operand, old(bus).model()),
    {
        self.x = self.a;
        self.update_zn(self.x);
        0
    }

    /// Transfer X to A
    /// A = X
    pub fn txa<B: CpuMemory>(&mut self, operand: Operand, bus: &mut B) -> (extra: u8)
        ensures
            (*final(self), final(bus).model(), extra) == old(self).spec_txa(operand, old(bus).model()),
    {
        self.a = self.x;
        self.update_zn(self.a);
        0
    }

    /// Transfer A to Y
    /// Y = A
    pub fn tay<B: CpuMemory>(&mut self, operand: Operand, bus: &mut B) -> (extra: u8)
        ensures
            (*final(self), final(bus).model(), extra) == old(self).spec_tay(operand, old(bus).model()),
    {
        self.y = self.a;
        self.update_zn(self.y);
        0
    }

    /// Transfer Y to A
    /// A = Y
    pub fn tya<B: CpuMemory>(&mut self, operand: Operand, bus: &mut B) -> (extra: u8)
        ensures
            (*final(self), final(bus).model(), extra) == old(self).spec_tya(operand, old(bus).model()),
    {
        self.a = self.y;
        self.update_zn(self.a);
        0
    }
}

} // verus!
