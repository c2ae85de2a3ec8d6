//! Instructions that set or clear a single status flag.

use vstd::prelude::*;

use crate::bus::{CpuMemory, MemoryModel};
use crate::cpu::addressing::Operand;
use crate::cpu::flags::{status_with, CARRY, INTERRUPT_DISABLE, DECIMAL, OVERFLOW};
use crate::cpu::Cpu;

verus! {

impl Cpu {
    /// The CPU with `flag` forced to `value`, and nothing else changed.
    pub open spec fn spec_flag<M: MemoryModel>(self, flag: u8, value: bool, bus: M) -> (Cpu, M, u8) {
        (Cpu { status: status_with(self.status, flag, value), ..self }, bus, 0)
    }

    pub open spec fn spec_clc<M: MemoryModel>(self, operand: Operand, bus: M) -> (Cpu, M, u8) {
        self.spec_flag(CARRY, false, bus)
    }

    pub open spec fn spec_sec<M: MemoryModel>(self, operand: Operand, bus: M) -> (Cpu, M, u8) {
        self.spec_flag(CARRY, true, bus)
    }

    pub open spec fn spec_cli<M: MemoryModel>(self, operand: Operand, bus: M) -> (Cpu, M, u8) {
        self.spec_flag(INTERRUPT_DISABLE, false, bus)
    }

    pub open spec fn spec_sei<M: MemoryModel>(self, operand: Operand, bus: M) -> (Cpu, M, u8) {
        self.spec_flag(INTERRUPT_DISABLE, true, bus)
    }

    pub open spec fn spec_cld<M: MemoryModel>(self, operand: Operand, bus: M) -> (Cpu, M, u8) {
        self.spec_flag(DECIMAL, false, bus)
    }

    pub open spec fn spec_sed<M: MemoryModel>(self, operand: Operand, bus: M) -> (Cpu, M, u8) {
        self.spec_flag(DECIMAL, true, bus)
    }

    pub open spec fn spec_clv<M: MemoryModel>(self, operand: Operand, bus: M) -> (Cpu, M, u8) {
        self.spec_flag(OVERFLOW, false, bus)
    }

    /// Clear Carry
    /// C = 0
    pub fn clc<B: CpuMemory>(&mut self, operand: Operand, bus: &mut B) -> (extra: u8)
        ensures
            (*final(self), final(bus).model(), extra) == old(self).spec_clc(operand, old(bus).model()),
    {
        crate::cpu::flags::set(&mut self.status, CARRY, false);
        0
    }

    /// Set Carry
    /// C = 1
    pub fn sec<B: CpuMemory>(&mut self, operand: Operand, bus: &mut B) -> (extra: u8)
        ensures
            (*final(self), final(bus).model(), extra) == old(self).spec_sec(operand, old(bus).model()),
    {
        crate::cpu::flags::set(&mut self.status, CARRY, true);
        0
    }

    /// Clear Interrupt Disable
    /// I = 0
    ///
    /// Enables the CPU to handle hardware IRQs. NMI is never masked.
    pub fn cli<B: CpuMemory>(&mut self, operand: Operand, bus: &mut B) -> (extra: u8)
        ensures
            (*final(self), final(bus).model(), extra) == old(self).spec_cli(operand, old(bus).model()),
    {
        crate::cpu::flags::set(&mut self.status, INTERRUPT_DISABLE, false);
        0
    }

    /// Set Interrupt Disable
    /// I = 1
    ///
    /// Prevents the CPU from handling hardware IRQs.
    pub fn sei<B: CpuMemory>(&mut self, operand: Operand, bus: &mut B) -> (extra: u8)
        ensures
            (*final(self), final(bus).model(), extra) == old(self).spec_sei(operand, old(bus).model()),
    {
        crate::cpu::flags::set(&mut self.status, INTERRUPT_DISABLE, true);
        0
    }

    /// Clear Decimal
    /// D = 0
    ///
    /// Decimal mode is disabled on the 2A03, but the flag itself still works.
    pub fn cld<B: CpuMemory>(&mut self, operand: Operand, bus: &mut B) -> (extra: u8)
        ensures
            (*final(self), final(bus).model(), extra) == old(self).spec_cld(operand, old(bus).model()),
    {
        crate::cpu::flags::set(&mut self.status, DECIMAL, false);
        0
    }

    /// Set Decimal
    /// D = 1
    pub fn sed<B: CpuMemory>(&mut self, operand: Operand, bus: &mut B) -> (extra: u8)
        ensures
            (*final(self), final(bus).model(), extra) == old(self).spec_sed(operand, old(bus).model()),
    {
        crate::cpu::flags::set(&mut self.status, DECIMAL, true);
        0
    }

    /// Clear Overflow
    /// V = 0
    pub fn clv<B: CpuMemory>(&mut self, operand: Operand, bus: &mut B) -> (extra: u8)
        ensures
            (*final(self), final(bus).model(), extra) == old(self).spec_clv(operand, old(bus).model()),
    {
        crate::cpu::flags::set(&mut self.status, OVERFLOW, false);
        0
    }
}

} // verus!
