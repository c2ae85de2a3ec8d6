//! Shifts and rotates, on the accumulator or on memory.

use vstd::prelude::*;

use crate::bus::{CpuMemory, MemoryModel};
use crate::cpu::addressing::Operand;
use crate::cpu::flags::{contains, is_set, status_with, CARRY};
use crate::cpu::Cpu;

verus! {

/// `v` shifted left by one bit (bit 7 falls off).
pub open spec fn shl1(v: u8) -> u8 {
    if v >= 0x80 {
        (2 * v - 0x100) as u8
    } else {
        (2 * v) as u8
    }
}

impl Cpu {
    /// The value a shift or rotate works on, and the bus after reading it.
    pub open spec fn spec_rmw_source<M: MemoryModel>(self, operand: Operand, bus: M) -> (u8, M) {
        match operand {
            Operand::Accumulator => (self.a, bus),
            Operand::Address { address, .. } => bus.read_spec(address),
        }
    }

    /// Storing the result of a shift or rotate back where the value came from.
    pub open spec fn spec_rmw_store<M: MemoryModel>(self, operand: Operand, bus: M, result: u8) -> (
        Cpu,
        M,
        u8,
    ) {
        match operand {
            Operand::Accumulator => (Cpu { a: result, ..self }, bus, 0),
            Operand::Address { address, .. } => (self, bus.write_spec(address, result), 0),
        }
    }

    /// A shift or rotate that turns `value` into `result` with `carry` as the
    /// new carry flag.
    pub open spec fn spec_shift_result<M: MemoryModel>(
        self,
        operand: Operand,
        bus: M,
        carry: bool,
        result: u8,
    ) -> (Cpu, M, u8) {
        Cpu { status: status_with(self.status, CARRY, carry), ..self }.with_zn(
            result,
        ).spec_rmw_store(operand, bus, result)
    }

    /// ASL: bit 7 goes to carry, 0 comes in at bit 0.
    pub open spec fn spec_asl<M: MemoryModel>(self, operand: Operand, bus: M) -> (Cpu, M, u8) {
        let (value, bus2) = self.spec_rmw_source(operand, bus);
        self.spec_shift_result(operand, bus2, value >= 0x80, shl1(value))
    }

    /// LSR: bit 0 goes to carry, 0 comes in at bit 7.
    pub open spec fn spec_lsr<M: MemoryModel>(self, operand: Operand, bus: M) -> (Cpu, M, u8) {
        let (value, bus2) = self.spec_rmw_source(operand, bus);
        self.spec_shift_result(operand, bus2, value % 2 == 1, value / 2)
    }

    /// ROL: bit 7 goes to carry, the old carry comes in at bit 0.
    pub open spec fn spec_rol<M: MemoryModel>(self, operand: Operand, bus: M) -> (Cpu, M, u8) {
        let (value, bus2) = self.spec_rmw_source(operand, bus);
        let carry_in: u8 = if is_set(self.status, CARRY) {
            1
        } else {
            0
        };
        self.spec_shift_result(operand, bus2, value >= 0x80, (shl1(value) + carry_in) as u8)
    }

    /// ROR: bit 0 goes to carry, the old carry comes in at bit 7.
    pub open spec fn spec_ror<M: MemoryModel>(self, operand: Operand, bus: M) -> (Cpu, M, u8) {
        let (value, bus2) = self.spec_rmw_source(operand, bus);
        let carry_in: u8 = if is_set(self.status, CARRY) {
            0x80
        } else {
            0
        };
        self.spec_shift_result(operand, bus2, value % 2 == 1, (value / 2 + carry_in) as u8)
    }

    /// Reads the value a shift or rotate works on.
    fn rmw_source<B: CpuMemory>(&mut self, operand: Operand, bus: &mut B) -> (value: u8)
        ensures
            *final(self) == *old(self),
            (value, final(bus).model()) == old(self).spec_rmw_source(operand, old(bus).model()),
    {
        match operand {
            Operand::Accumulator => self.a,
            Operand::Address { address, .. } => bus.read(address),
        }
    }

    /// Sets carry, Z and N, and stores the result where the value came from.
    fn rmw_finish<B: CpuMemory>(&mut self, operand: Operand, bus: &mut B, carry: bool, result: u8)
        ensures
            (*final(self), final(bus).model(), 0u8) == old(self).spec_shift_result(
                operand,
                old(bus).model(),
                carry,
                result,
            ),
    {
        crate::cpu::flags::set(&mut self.status, CARRY, carry);
        self.update_zn(result);
        match operand {
            Operand::Accumulator => self.a = result,
            Operand::Address { address, .. } => bus.write(address, result),
        }
    }

    /// Arithmetic Shift Left
    /// value = value << 1
    ///
    /// ASL shifts all the bits of a memory value or the accumulator one position
    /// to the left. Bit 7 is shifted into the carry flag, and 0 is shifted into
    /// bit 0. This is equivalent to multiplying an unsigned value by 2, with
    /// carry indicating overflow.
    pub fn asl<B: CpuMemory>(&mut self, operand: Operand, bus: &mut B) -> (extra: u8)
        ensures
            (*final(self), final(bus).model(), extra) == old(self).spec_asl(operand, old(bus).model()),
    {
        let value = self.rmw_source(operand, bus);
        let result: u8 = if value >= 0x80 {
            ((value as u16) * 2 - 0x100) as u8
        } else {
            value * 2
        };
        self.rmw_finish(operand, bus, value >= 0x80, result);
        0
    }

    /// Logical Shift Right
    /// value = value >> 1
    ///
    /// LSR shifts all the bits of a memory value or the accumulator one position
    /// to the right. Bit 0 is shifted into the carry flag, and 0 is shifted into
    /// bit 7, so the negative flag always ends up clear.
    pub fn lsr<B: CpuMemory>(&mut self, operand: Operand, bus: &mut B) -> (extra: u8)
        ensures
            (*final(self), final(bus).model(), extra) == old(self).spec_lsr(operand, old(bus).model()),
    {
        let value = self.rmw_source(operand, bus);
        proof {
            crate::bits::lemma_byte_bits(value);
        }
        let carry = value & 0x01 != 0;
        self.rmw_finish(operand, bus, carry, value >> 1);
        0
    }

    /// Rotate Left
    /// value = value << 1 through C
    ///
    /// ROL shifts a memory value or the accumulator left, moving bit 7 into the
    /// carry flag and the old carry into bit 0.
    pub fn rol<B: CpuMemory>(&mut self, operand: Operand, bus: &mut B) -> (extra: u8)
        ensures
            (*final(self), final(bus).model(), extra) == old(self).spec_rol(operand, old(bus).model()),
    {
        let value = self.rmw_source(operand, bus);
        let carry_in: u8 = if contains(self.status, CARRY) {
            1
        } else {
            0
        };
        let shifted: u8 = if value >= 0x80 {
            ((value as u16) * 2 - 0x100) as u8
        } else {
            value * 2
        };
        self.rmw_finish(operand, bus, value >= 0x80, shifted + carry_in);
        0
    }

    /// Rotate Right
    /// value = value >> 1 through C
    ///
    /// ROR shifts a memory value or the accumulator right, moving bit 0 into the
    /// carry flag and the old carry into bit 7.
    pub fn ror<B: CpuMemory>(&mut self, operand: Operand, bus: &mut B) -> (extra: u8)
        ensures
            (*final(self), final(bus).model(), extra) == old(self).spec_ror(operand, old(bus).model()),
    {
        let value = self.rmw_source(operand, bus);
        let carry_in: u8 = if contains(self.status, CARRY) {
            0x80
        } else {
            0
        };
        self.rmw_finish(operand, bus, value % 2 == 1, value / 2 + carry_in);
        0
    }
}

} // verus!
