//! Addition, subtraction, increments and decrements.

use vstd::prelude::*;

use crate::bus::{MemoryModel, add8, sub8, CpuMemory};
use crate::cpu::addressing::Operand;
use crate::cpu::flags::{lemma_other_flags_unchanged, NEGATIVE, contains, is_set, status_with, CARRY, ZERO, OVERFLOW};
use crate::cpu::Cpu;

verus! {

/// Signed overflow of `a + m (+ carry) = result`: both operands have the same
/// sign and the result's sign differs from it.
pub open spec fn signed_overflow(a: u8, m: u8, result: u8) -> bool {
    (a < 0x80) == (m < 0x80) && (result < 0x80) != (a < 0x80)
}

/// The value of a byte read as a two's-complement signed number.
pub open spec fn signed(x: u8) -> int {
    if x < 0x80 {
        x as int
    } else {
        x - 0x100
    }
}

/// The overflow test used by ADC and SBC on the bytes themselves.
proof fn lemma_overflow_bits(a: u8, m: u8, result: u8)
    by (bit_vector)
    ensures
        ((!(a ^ m) & (a ^ result) & 0x80) != 0) == ((a < 0x80) == (m < 0x80) && (result < 0x80)
            != (a < 0x80)),
{
}

impl Cpu {
    /// A = A + m + C, setting C to the carry out of bit 7, V to signed
    /// overflow, and Z and N from the result.
    pub open spec fn add_with_carry(self, m: u8) -> Cpu {
        let carry_in: int = if is_set(self.status, CARRY) {
            1
        } else {
            0
        };
        let sum = self.a + m + carry_in;
        let result = (sum % 0x100) as u8;
        let status = status_with(
            status_with(self.status, CARRY, sum > 0xFF),
            OVERFLOW,
            signed_overflow(self.a, m, result),
        );
        Cpu { a: result, status: status, ..self }.with_zn(result)
    }

    pub open spec fn spec_adc<M: MemoryModel>(self, operand: Operand, bus: M) -> (Cpu, M, u8) {
        let (value, bus2, extra) = self.spec_fetch(operand, bus);
        (self.add_with_carry(value), bus2, extra)
    }

    /// SBC adds the complement of the memory value.
    pub open spec fn spec_sbc<M: MemoryModel>(self, operand: Operand, bus: M) -> (Cpu, M, u8) {
        let (value, bus2, extra) = self.spec_fetch(operand, bus);
        (self.add_with_carry((0xFF - value) as u8), bus2, extra)
    }

    pub open spec fn spec_inc<M: MemoryModel>(self, operand: Operand, bus: M) -> (Cpu, M, u8) {
        let (value, bus2) = bus.read_spec(operand->address);
        let result = add8(value, 1);
        (self.with_zn(result), bus2.write_spec(operand->address, result), 0)
    }

    pub open spec fn spec_dec<M: MemoryModel>(self, operand: Operand, bus: M) -> (Cpu, M, u8) {
        let (value, bus2) = bus.read_spec(operand->address);
        let result = sub8(value, 1);
        (self.with_zn(result), bus2.write_spec(operand->address, result), 0)
    }

    pub open spec fn spec_inx<M: MemoryModel>(self, operand: Operand, bus: M) -> (Cpu, M, u8) {
        let x = add8(self.x, 1);
        (Cpu { x: x, ..self }.with_zn(x), bus, 0)
    }

    pub open spec fn spec_dex<M: MemoryModel>(self, operand: Operand, bus: M) -> (Cpu, M, u8) {
        let x = sub8(self.x, 1);
        (Cpu { x: x, ..self }.with_zn(x), bus, 0)
    }

    pub open spec fn spec_iny<M: MemoryModel>(self, operand: Operand, bus: M) -> (Cpu, M, u8) {
        let y = add8(self.y, 1);
        (Cpu { y: y, ..self }.with_zn(y), bus, 0)
    }

    pub open spec fn spec_dey<M: MemoryModel>(self, operand: Operand, bus: M) -> (Cpu, M, u8) {
        let y = sub8(self.y, 1);
        (Cpu { y: y, ..self }.with_zn(y), bus, 0)
    }

    /// A = A + m + C on the accumulator (shared body of ADC and SBC).
    fn add_to_accumulator(&mut self, value: u8)
        ensures
            *final(self) == old(self).add_with_carry(value),
    {
        let carry_in: u16 = if contains(self.status, CARRY) {
            1
        } else {
            0
        };
        let sum: u16 = self.a as u16 + value as u16 + carry_in;
        let result = (sum % 0x100) as u8;
        crate::cpu::flags::set(&mut self.status, CARRY, sum > 0xFF);
        // Overflow happens when the two operands have the same sign, but the
        // result's sign differs from theirs.
        proof {
            lemma_overflow_bits(self.a, value, result);
        }
        let overflow = (!(self.a ^ value) & (self.a ^ result) & 0x80) != 0;
        crate::cpu::flags::set(&mut self.status, OVERFLOW, overflow);
        self.a = result;
        self.update_zn(result);
    }

    /// Add with Carry
    /// A = A + memory + C
    ///
    /// Adds the carry flag and a memory value to the accumulator. The carry flag
    /// is then set to the carry value coming out of bit 7, allowing values larger
    /// than 1 byte to be added together by carrying the 1 into the next byte's
    /// addition. The overflow flag indicates whether signed overflow or
    /// underflow occurred.
    pub fn adc<B: CpuMemory>(&mut self, operand: Operand, bus: &mut B) -> (extra: u8)
        requires
            operand is Address,
        ensures
            (*final(self), final(bus).model(), extra) == old(self).spec_adc(operand, old(bus).model()),
    {
        let (address, page_crossed) = operand.expect_address();
        let value = bus.read(address);
        self.add_to_accumulator(value);
        if page_crossed {
            1
        } else {
            0
        }
    }

    /// Subtract with Carry
    /// A = A - memory - ~C, that is A = A + ~memory + C
    ///
    /// SBC subtracts a memory value and the NOT of the carry flag from the
    /// accumulator by adding the bitwise NOT of the memory value as ADC does.
    /// Carry is cleared when the subtraction borrows and set otherwise.
    pub fn sbc<B: CpuMemory>(&mut self, operand: Operand, bus: &mut B) -> (extra: u8)
        requires
            operand is Address,
        ensures
            (*final(self), final(bus).model(), extra) == old(self).spec_sbc(operand, old(bus).model()),
    {
        let (address, page_crossed) = operand.expect_address();
        let value = bus.read(address);
        proof {
            crate::bits::lemma_byte_bits(value);
        }
        let inverted_value = value ^ 0xFF;
        self.add_to_accumulator(inverted_value);
        if page_crossed {
            1
        } else {
            0
        }
    }

    /// Increment Memory
    /// memory = memory + 1
    ///
    /// INC adds 1 to a memory location. It does not affect carry nor overflow.
    pub fn inc<B: CpuMemory>(&mut self, operand: Operand, bus: &mut B) -> (extra: u8)
        requires
            operand is Address,
        ensures
            (*final(self), final(bus).model(), extra) == old(self).spec_inc(operand, old(bus).model()),
    {
        let (address, _) = operand.expect_address();
        let value = bus.read(address);
        let result = value.wrapping_add(1);
        bus.write(address, result);
        self.update_zn(result);
        0
    }

    /// Decrement Memory
    /// memory = memory - 1
    ///
    /// DEC subtracts 1 from a memory location. It does not affect carry nor overflow.
    pub fn dec<B: CpuMemory>(&mut self, operand: Operand, bus: &mut B) -> (extra: u8)
        requires
            operand is Address,
        ensures
            (*final(self), final(bus).model(), extra) == old(self).spec_dec(operand, old(bus).model()),
    {
        let (address, _) = operand.expect_address();
        let value = bus.read(address);
        let result = value.wrapping_sub(1);
        bus.write(address, result);
        self.update_zn(result);
        0
    }

    /// Increment X
    /// X = X + 1
    pub fn inx<B: CpuMemory>(&mut self, operand: Operand, bus: &mut B) -> (extra: u8)
        ensures
            (*final(self), final(bus).model(), extra) == old(self).spec_inx(operand, old(bus).model()),
    {
        self.x = self.x.wrapping_add(1);
        self.update_zn(self.x);
        0
    }

    /// Decrement X
    /// X = X - 1
    pub fn dex<B: CpuMemory>(&mut self, operand: Operand, bus: &mut B) -> (extra: u8)
        ensures
            (*final(self), final(bus).model(), extra) == old(self).spec_dex(operand, old(bus).model()),
    {
        self.x = self.x.wrapping_sub(1);
        self.update_zn(self.x);
        0
    }

    /// Increment Y
    /// Y = Y + 1
    pub fn iny<B: CpuMemory>(&mut self, operand: Operand, bus: &mut B) -> (extra: u8)
        ensures
            (*final(self), final(bus).model(), extra) == old(self).spec_iny(operand, old(bus).model()),
    {
        self.y = self.y.wrapping_add(1);
        self.update_zn(self.y);
        0
    }

    /// Decrement Y
    /// Y = Y - 1
    pub fn dey<B: CpuMemory>(&mut self, operand: Operand, bus: &mut B) -> (extra: u8)
        ensures
            (*final(self), final(bus).model(), extra) == old(self).spec_dey(operand, old(bus).model()),
    {
        self.y = self.y.wrapping_sub(1);
        self.update_zn(self.y);
        0
    }
}

/// ADC is binary addition: the new accumulator and the carry together hold
/// A + m + C exactly, and V is set exactly when the signed sum leaves the
/// range -128..=127.
pub proof fn lemma_adc_is_binary_addition(cpu: Cpu, m: u8)
    ensures
        ({
            let after = cpu.add_with_carry(m);
            let carry_in: int = if is_set(cpu.status, CARRY) {
                1
            } else {
                0
            };
            let carry_out: int = if is_set(after.status, CARRY) {
                1
            } else {
                0
            };
            &&& after.a + 0x100 * carry_out == cpu.a + m + carry_in
            &&& is_set(after.status, OVERFLOW) == !(-128 <= signed(cpu.a) + signed(m) + carry_in
                <= 127)
        }),
{
    let after = cpu.add_with_carry(m);
    let carry_in: int = if is_set(cpu.status, CARRY) {
        1
    } else {
        0
    };
    let sum = cpu.a + m + carry_in;
    let result = (sum % 0x100) as u8;
    let s1 = status_with(cpu.status, CARRY, sum > 0xFF);
    let s2 = status_with(s1, OVERFLOW, signed_overflow(cpu.a, m, result));
    crate::bits::lemma_flag_bits(cpu.status, CARRY);
    crate::bits::lemma_flag_bits(s1, OVERFLOW);
    crate::bits::lemma_flag_bits(s2, ZERO);
    lemma_status_flags_independent(s1, s2, result);
}

/// Setting the overflow, zero and negative flags leaves the carry flag alone.
proof fn lemma_status_flags_independent(s1: u8, s2: u8, result: u8)
    ensures
        is_set(status_with(s1, OVERFLOW, true), CARRY) == is_set(s1, CARRY),
        is_set(status_with(s1, OVERFLOW, false), CARRY) == is_set(s1, CARRY),
        is_set(Cpu::zn(s2, result), CARRY) == is_set(s2, CARRY),
        is_set(Cpu::zn(s2, result), OVERFLOW) == is_set(s2, OVERFLOW),
{
    assert(OVERFLOW & CARRY == 0 && ZERO & CARRY == 0 && NEGATIVE & CARRY == 0 && ZERO & OVERFLOW
        == 0 && NEGATIVE & OVERFLOW == 0) by (bit_vector);
    lemma_other_flags_unchanged(s1, OVERFLOW, CARRY, true);
    lemma_other_flags_unchanged(s1, OVERFLOW, CARRY, false);
    let z = status_with(s2, ZERO, result == 0);
    lemma_other_flags_unchanged(s2, ZERO, CARRY, result == 0);
    lemma_other_flags_unchanged(z, NEGATIVE, CARRY, result >= 0x80);
    lemma_other_flags_unchanged(s2, ZERO, OVERFLOW, result == 0);
    lemma_other_flags_unchanged(z, NEGATIVE, OVERFLOW, result >= 0x80);
}

/// SBC is ADC of the complemented operand, so A - m - (1 - C) lands in the
/// accumulator modulo 256 and carry is set exactly when no borrow occurred.
pub proof fn lemma_sbc_is_adc_of_complement(cpu: Cpu, m: u8)
    ensures
        ({
            let after = cpu.add_with_carry((0xFF - m) as u8);
            let borrow: int = if is_set(cpu.status, CARRY) {
                0
            } else {
                1
            };
            &&& after.a == (cpu.a - m - borrow) % 0x100
            &&& is_set(after.status, CARRY) == (cpu.a - m - borrow >= 0)
        }),
{
    lemma_adc_is_binary_addition(cpu, (0xFF - m) as u8);
}


/// DEX undoes INX and DEY undoes INY (the registers wrap at 0xFF/0x00); the
/// flags then describe the restored register.
pub proof fn lemma_decrement_undoes_increment<M: MemoryModel>(cpu: Cpu, operand: Operand, bus: M)
    ensures
        ({
            let (c1, b1, _) = cpu.spec_inx(operand, bus);
            let (c2, _, _) = c1.spec_dex(operand, b1);
            c2 == Cpu { status: c2.status, ..cpu } && c2 == cpu.with_zn(cpu.x)
        }),
        ({
            let (c1, b1, _) = cpu.spec_iny(operand, bus);
            let (c2, _, _) = c1.spec_dey(operand, b1);
            c2 == Cpu { status: c2.status, ..cpu } && c2 == cpu.with_zn(cpu.y)
        }),
{
    assert(sub8(add8(cpu.x, 1), 1) == cpu.x);
    assert(sub8(add8(cpu.y, 1), 1) == cpu.y);
    crate::cpu::lemma_zn_depends_on_result(cpu.status, add8(cpu.x, 1), cpu.x);
    crate::cpu::lemma_zn_depends_on_result(cpu.status, add8(cpu.y, 1), cpu.y);
}

} // verus!
