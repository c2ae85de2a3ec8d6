//! The eight conditional branches.

use vstd::prelude::*;

use crate::bus::{CpuMemory, MemoryModel};
use crate::cpu::addressing::Operand;
use crate::cpu::flags::{contains, is_set, CARRY, ZERO, OVERFLOW, NEGATIVE};
use crate::cpu::Cpu;

verus! {

impl Cpu {
    /// A branch taken when `flag` has the value `when`.
    pub open spec fn spec_branch_on<M: MemoryModel>(
        self,
        flag: u8,
        when: bool,
        operand: Operand,
        bus: M,
    ) -> (Cpu, M, u8) {
        let (cpu, extra) = self.spec_branch(is_set(self.status, flag) == when, operand);
        (cpu, bus, extra)
    }

    pub open spec fn spec_bcc<M: MemoryModel>(self, operand: Operand, bus: M) -> (Cpu, M, u8) {
        self.spec_branch_on(CARRY, false, operand, bus)
    }

    pub open spec fn spec_bcs<M: MemoryModel>(self, operand: Operand, bus: M) -> (Cpu, M, u8) {
        self.spec_branch_on(CARRY, true, operand, bus)
    }

    pub open spec fn spec_beq<M: MemoryModel>(self, operand: Operand, bus: M) -> (Cpu, M, u8) {
        self.spec_branch_on(ZERO, true, operand, bus)
    }

    pub open spec fn spec_bne<M: MemoryModel>(self, operand: Operand, bus: M) -> (Cpu, M, u8) {
        self.spec_branch_on(ZERO, false, operand, bus)
    }

    pub open spec fn spec_bpl<M: MemoryModel>(self, operand: Operand, bus: M) -> (Cpu, M, u8) {
        self.spec_branch_on(NEGATIVE, false, operand, bus)
    }

    pub open spec fn spec_bmi<M: MemoryModel>(self, operand: Operand, bus: M) -> (Cpu, M, u8) {
        self.spec_branch_on(NEGATIVE, true, operand, bus)
    }

    pub open spec fn spec_bvc<M: MemoryModel>(self, operand: Operand, bus: M) -> (Cpu, M, u8) {
        self.spec_branch_on(OVERFLOW, false, operand, bus)
    }

    pub open spec fn spec_bvs<M: MemoryModel>(self, operand: Operand, bus: M) -> (Cpu, M, u8) {
        self.spec_branch_on(OVERFLOW, true, operand, bus)
    }

    /// Branch if Carry Clear
    /// PC = PC + 2 + memory (signed)
    ///
    /// If the carry flag is clear, BCC branches to the operand's address. It can
    /// be used after a compare to branch if the register is less than memory.
    pub fn bcc<B: CpuMemory>(&mut self, operand: Operand, bus: &mut B) -> (extra: u8)
        requires
            !is_set(old(self).status, CARRY) ==> operand is Address,
        ensures
            (*final(self), final(bus).model(), extra) == old(self).spec_bcc(operand, old(bus).model()),
    {
        self.branch_if(!contains(self.status, CARRY), operand)
    }

    /// Branch if Carry Set
    /// PC = PC + 2 + memory (signed)
    ///
    /// If the carry flag is set, BCS branches to the operand's address. It can
    /// be used after a compare to branch if the register is greater than or
    /// equal to memory.
    pub fn bcs<B: CpuMemory>(&mut self, operand: Operand, bus: &mut B) -> (extra: u8)
        requires
            is_set(old(self).status, CARRY) ==> operand is Address,
        ensures
            (*final(self), final(bus).model(), extra) == old(self).spec_bcs(operand, old(bus).model()),
    {
        self.branch_if(contains(self.status, CARRY), operand)
    }

    /// Branch if Equal
    /// PC = PC + 2 + memory (signed)
    ///
    /// If the zero flag is set, BEQ branches to the operand's address.
    pub fn beq<B: CpuMemory>(&mut self, operand: Operand, bus: &mut B) -> (extra: u8)
        requires
            is_set(old(self).status, ZERO) ==> operand is Address,
        ensures
            (*final(self), final(bus).model(), extra) == old(self).spec_beq(operand, old(bus).model()),
    {
        self.branch_if(contains(self.status, ZERO), operand)
    }

    /// Branch if Not Equal
    /// PC = PC + 2 + memory (signed)
    ///
    /// If the zero flag is clear, BNE branches to the operand's address.
    pub fn bne<B: CpuMemory>(&mut self, operand: Operand, bus: &mut B) -> (extra: u8)
        requires
            !is_set(old(self).status, ZERO) ==> operand is Address,
        ensures
            (*final(self), final(bus).model(), extra) == old(self).spec_bne(operand, old(bus).model()),
    {
        self.branch_if(!contains(self.status, ZERO), operand)
    }

    /// Branch if Plus
    /// PC = PC + 2 + memory (signed)
    ///
    /// If the negative flag is clear, BPL branches to the operand's address.
    pub fn bpl<B: CpuMemory>(&mut self, operand: Operand, bus: &mut B) -> (extra: u8)
        requires
            !is_set(old(self).status, NEGATIVE) ==> operand is Address,
        ensures
            (*final(self), final(bus).model(), extra) == old(self).spec_bpl(operand, old(bus).model()),
    {
        self.branch_if(!contains(self.status, NEGATIVE), operand)
    }

    /// Branch if Minus
    /// PC = PC + 2 + memory (signed)
    ///
    /// If the negative flag is set, BMI branches to the operand's address.
    pub fn bmi<B: CpuMemory>(&mut self, operand: Operand, bus: &mut B) -> (extra: u8)
        requires
            is_set(old(self).status, NEGATIVE) ==> operand is Address,
        ensures
            (*final(self), final(bus).model(), extra) == old(self).spec_bmi(operand, old(bus).model()),
    {
        self.branch_if(contains(self.status, NEGATIVE), operand)
    }

    /// Branch if Overflow Clear
    /// PC = PC + 2 + memory (signed)
    ///
    /// If the overflow flag is clear, BVC branches to the operand's address.
    pub fn bvc<B: CpuMemory>(&mut self, operand: Operand, bus: &mut B) -> (extra: u8)
        requires
            !is_set(old(self).status, OVERFLOW) ==> operand is Address,
        ensures
            (*final(self), final(bus).model(), extra) == old(self).spec_bvc(operand, old(bus).model()),
    {
        self.branch_if(!contains(self.status, OVERFLOW), operand)
    }

    /// Branch if Overflow Set
    /// PC = PC + 2 + memory (signed)
    ///
    /// If the overflow flag is set, BVS branches to the operand's address.
    pub fn bvs<B: CpuMemory>(&mut self, operand: Operand, bus: &mut B) -> (extra: u8)
        requires
            is_set(old(self).status, OVERFLOW) ==> operand is Address,
        ensures
            (*final(self), final(bus).model(), extra) == old(self).spec_bvs(operand, old(bus).model()),
    {
        self.branch_if(contains(self.status, OVERFLOW), operand)
    }
}

} // verus!
