//! Comparisons of a register against memory.

use vstd::prelude::*;

use crate::bus::{MemoryModel, sub8, CpuMemory};
use crate::cpu::addressing::Operand;
use crate::cpu::flags::{is_set, status_with, CARRY, NEGATIVE, ZERO};
use crate::cpu::Cpu;

verus! {

impl Cpu {
    /// Comparing `register` with memory: C is set when no borrow occurs
    /// (register >= memory), Z and N come from register - memory.
    pub open spec fn spec_compare<M: MemoryModel>(self, register: u8, operand: Operand, bus: M) -> (
        Cpu,
        M,
        u8,
    ) {
        let (value, bus2, extra) = self.spec_fetch(operand, bus);
        let status = status_with(self.status, CARRY, register >= value);
        (Cpu { status: status, ..self }.with_zn(sub8(register, value)), bus2, extra)
    }

    pub open spec fn spec_cmp<M: MemoryModel>(self, operand: Operand, bus: M) -> (Cpu, M, u8) {
        self.spec_compare(self.a, operand, bus)
    }

    pub open spec fn spec_cpx<M: MemoryModel>(self, operand: Operand, bus: M) -> (Cpu, M, u8) {
        self.spec_compare(self.x, operand, bus)
    }

    pub open spec fn spec_cpy<M: MemoryModel>(self, operand: Operand, bus: M) -> (Cpu, M, u8) {
        self.spec_compare(self.y, operand, bus)
    }

    /// Shared body of CMP, CPX and CPY.
    fn compare<B: CpuMemory>(&mut self, register: u8, operand: Operand, bus: &mut B) -> (extra: u8)
        requires
            operand is Address,
        ensures
            (*final(self), final(bus).model(), extra) == old(self).spec_compare(
                register,
                operand,
                old(bus).model(),
            ),
    {
        let (address, page_crossed) = operand.expect_address();
        let value = bus.read(address);
        crate::cpu::flags::set(&mut self.status, CARRY, register >= value);
        self.update_zn(register.wrapping_sub(value));
        if page_crossed {
            1
        } else {
            0
        }
    }

    /// Compare A
    /// A - memory
    ///
    /// CMP compares A to a memory value, setting carry if there is no borrow,
    /// zero if the values are equal, and negative from bit 7 of the difference.
    /// Comparison does not affect overflow.
    pub fn cmp<B: CpuMemory>(&mut self, operand: Operand, bus: &mut B) -> (extra: u8)
        requires
            operand is Address,
        ensures
            (*final(self), final(bus).model(), extra) == old(self).spec_cmp(operand, old(bus).model()),
    {
        let register = self.a;
        self.compare(register, operand, bus)
    }

    /// Compare X
    /// X - memory
    pub fn cpx<B: CpuMemory>(&mut self, operand: Operand, bus: &mut B) -> (extra: u8)
        requires
            operand is Address,
        ensures
            (*final(self), final(bus).model(), extra) == old(self).spec_cpx(operand, old(bus).model()),
    {
        let register = self.x;
        self.compare(register, operand, bus)
    }

    /// Compare Y
    /// Y - memory
    pub fn cpy<B: CpuMemory>(&mut self, operand: Operand, bus: &mut B) -> (extra: u8)
        requires
            operand is Address,
        ensures
            (*final(self), final(bus).model(), extra) == old(self).spec_cpy(operand, old(bus).model()),
    {
        let register = self.y;
        self.compare(register, operand, bus)
    }
}


/// What a comparison reports: Z exactly when the register equals the memory
/// value, C exactly when the register is not below it, and N the top bit of
/// their 8-bit difference; no other flag changes.
pub proof fn lemma_compare_flags<M: MemoryModel>(cpu: Cpu, register: u8, operand: Operand, bus: M)
    ensures
        ({
            let (c, _, _) = cpu.spec_compare(register, operand, bus);
            let value = bus.read_spec(operand->address).0;
            &&& is_set(c.status, ZERO) == (register == value)
            &&& is_set(c.status, CARRY) == (register >= value)
            &&& is_set(c.status, NEGATIVE) == (sub8(register, value) >= 0x80)
            &&& c.status & 0b0011_1100 == cpu.status & 0b0011_1100
            &&& c.a == cpu.a && c.x == cpu.x && c.y == cpu.y && c.sp == cpu.sp && c.pc == cpu.pc
        }),
{
    let value = bus.read_spec(operand->address).0;
    let s = cpu.status;
    let (c, z, n) = (register >= value, sub8(register, value) == 0, sub8(register, value) >= 0x80);
    assert(sub8(register, value) == 0 <==> register == value);
    assert({
        let s1 = if c { s | 0x01u8 } else { s & !0x01u8 };
        let s2 = if z { s1 | 0x02u8 } else { s1 & !0x02u8 };
        let s3 = if n { s2 | 0x80u8 } else { s2 & !0x80u8 };
        &&& (s3 & 0x02 != 0) == z
        &&& (s3 & 0x01 != 0) == c
        &&& (s3 & 0x80 != 0) == n
        &&& s3 & 0b0011_1100 == s & 0b0011_1100
    }) by (bit_vector);
}

} // verus!
