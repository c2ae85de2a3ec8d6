//! What the official instructions do, stated on their own terms: register
//! and memory results as arithmetic on the values involved, and each status
//! flag by its bit (C bit 0, Z bit 1, I bit 2, D bit 3, V bit 6, N bit 7).
//! These hold on any memory whose reads change nothing, the operand being the
//! byte at the effective address.

use vstd::prelude::*;

use crate::bus::MemoryModel;
use crate::cpu::addressing::{at, Operand};
use crate::cpu::flags::{interrupt_pushed_byte, pulled_status, pushed_byte, status_with};
use crate::cpu::instructions::arithmetic::{lemma_adc_is_binary_addition, signed, signed_overflow};
use crate::cpu::instructions::Instruction;
use crate::cpu::Cpu;

verus! {

/// The carry flag (bit 0).
pub open spec fn carry(status: u8) -> bool {
    status & 0x01 != 0
}

/// The zero flag (bit 1).
pub open spec fn zero(status: u8) -> bool {
    status & 0x02 != 0
}

/// The interrupt-disable flag (bit 2).
pub open spec fn interrupt_disable(status: u8) -> bool {
    status & 0x04 != 0
}

/// The decimal flag (bit 3).
pub open spec fn decimal(status: u8) -> bool {
    status & 0x08 != 0
}

/// The overflow flag (bit 6).
pub open spec fn overflow(status: u8) -> bool {
    status & 0x40 != 0
}

/// The negative flag (bit 7).
pub open spec fn negative(status: u8) -> bool {
    status & 0x80 != 0
}

/// `after` reports `result` in Z and N and keeps C, I, D and V of `before`.
pub open spec fn reports(before: u8, after: u8, result: u8) -> bool {
    &&& zero(after) == (result == 0)
    &&& negative(after) == (result >= 0x80)
    &&& carry(after) == carry(before)
    &&& interrupt_disable(after) == interrupt_disable(before)
    &&& decimal(after) == decimal(before)
    &&& overflow(after) == overflow(before)
}

/// Memory whose reads return the byte there and change nothing.
pub open spec fn quiet<M: MemoryModel>(bus: M) -> bool {
    forall|a: u16| #[trigger] bus.read_spec(a) == (bus.peek_spec(a), bus)
}

/// `instruction` run with its operand at `address`.
pub open spec fn run<M: MemoryModel>(
    cpu: Cpu,
    instruction: Instruction,
    address: u16,
    bus: M,
) -> (Cpu, M, u8) {
    cpu.spec_instruction(instruction, at(address), bus)
}

/// Forcing one flag's bits sets that flag as asked and keeps every flag
/// whose bits do not overlap it.
proof fn lemma_flag_update(status: u8, flag: u8, value: bool, other: u8)
    by (bit_vector)
    requires
        flag != 0,
        flag & other == 0,
    ensures
        (status_with(status, flag, value) & flag != 0) == value,
        (status_with(status, flag, value) & other != 0) == (status & other != 0),
{
}

/// The six flags occupy distinct bits.
proof fn lemma_flags_distinct()
    ensures
        forall|f: u8, g: u8|
            (f == 0x01 || f == 0x02 || f == 0x04 || f == 0x08 || f == 0x40 || f == 0x80) && (g
                == 0x01 || g == 0x02 || g == 0x04 || g == 0x08 || g == 0x40 || g == 0x80) && f != g
                ==> #[trigger] (f & g) == 0,
{
    assert(forall|f: u8, g: u8|
        (f == 0x01 || f == 0x02 || f == 0x04 || f == 0x08 || f == 0x40 || f == 0x80) && (g == 0x01
            || g == 0x02 || g == 0x04 || g == 0x08 || g == 0x40 || g == 0x80) && f != g
            ==> #[trigger] (f & g) == 0) by (bit_vector);
}

/// Z and N after an instruction that produced `result`.
proof fn lemma_zn(status: u8, result: u8)
    ensures
        reports(status, Cpu::zn(status, result), result),
{
    lemma_flags_distinct();
    let s1 = status_with(status, 0x02, result == 0);
    lemma_flag_update(status, 0x02, result == 0, 0x01);
    lemma_flag_update(status, 0x02, result == 0, 0x04);
    lemma_flag_update(status, 0x02, result == 0, 0x08);
    lemma_flag_update(status, 0x02, result == 0, 0x40);
    lemma_flag_update(status, 0x02, result == 0, 0x80);
    lemma_flag_update(s1, 0x80, result >= 0x80, 0x01);
    lemma_flag_update(s1, 0x80, result >= 0x80, 0x02);
    lemma_flag_update(s1, 0x80, result >= 0x80, 0x04);
    lemma_flag_update(s1, 0x80, result >= 0x80, 0x08);
    lemma_flag_update(s1, 0x80, result >= 0x80, 0x40);
}

/// Loads and stores: LDA, LDX and LDY copy the operand into their register
/// and report it in Z and N; STA, STX and STY write their register to the
/// operand's address. Nothing else changes.
pub proof fn lemma_loads_and_stores<M: MemoryModel>(cpu: Cpu, address: u16, bus: M)
    requires
        quiet(bus),
    ensures
        ({
            let m = bus.peek_spec(address);
            let (lda, lda_bus, _) = run(cpu, Instruction::LDA, address, bus);
            let (ldx, ldx_bus, _) = run(cpu, Instruction::LDX, address, bus);
            let (ldy, ldy_bus, _) = run(cpu, Instruction::LDY, address, bus);
            &&& lda == (Cpu { a: m, status: lda.status, ..cpu }) && lda_bus == bus
            &&& reports(cpu.status, lda.status, m)
            &&& ldx == (Cpu { x: m, status: ldx.status, ..cpu }) && ldx_bus == bus
            &&& reports(cpu.status, ldx.status, m)
            &&& ldy == (Cpu { y: m, status: ldy.status, ..cpu }) && ldy_bus == bus
            &&& reports(cpu.status, ldy.status, m)
            &&& run(cpu, Instruction::STA, address, bus) == (cpu, bus.write_spec(address, cpu.a), 0u8)
            &&& run(cpu, Instruction::STX, address, bus) == (cpu, bus.write_spec(address, cpu.x), 0u8)
            &&& run(cpu, Instruction::STY, address, bus) == (cpu, bus.write_spec(address, cpu.y), 0u8)
        }),
{
    lemma_zn(cpu.status, bus.peek_spec(address));
}

/// Forcing one of the six flags to `value` sets it and keeps the other five.
proof fn lemma_set_flag(status: u8, flag: u8, value: bool)
    requires
        flag == 0x01 || flag == 0x02 || flag == 0x04 || flag == 0x08 || flag == 0x40 || flag == 0x80,
    ensures
        ({
            let s = status_with(status, flag, value);
            &&& carry(s) == if flag == 0x01 {
                value
            } else {
                carry(status)
            }
            &&& zero(s) == if flag == 0x02 {
                value
            } else {
                zero(status)
            }
            &&& interrupt_disable(s) == if flag == 0x04 {
                value
            } else {
                interrupt_disable(status)
            }
            &&& decimal(s) == if flag == 0x08 {
                value
            } else {
                decimal(status)
            }
            &&& overflow(s) == if flag == 0x40 {
                value
            } else {
                overflow(status)
            }
            &&& negative(s) == if flag == 0x80 {
                value
            } else {
                negative(status)
            }
        }),
{
    lemma_flags_distinct();
    lemma_flag_update(status, flag, value, if flag == 0x01 { 0x02 } else { 0x01 });
    if flag != 0x01 {
        lemma_flag_update(status, flag, value, 0x01);
    }
    if flag != 0x02 {
        lemma_flag_update(status, flag, value, 0x02);
    }
    if flag != 0x04 {
        lemma_flag_update(status, flag, value, 0x04);
    }
    if flag != 0x08 {
        lemma_flag_update(status, flag, value, 0x08);
    }
    if flag != 0x40 {
        lemma_flag_update(status, flag, value, 0x40);
    }
    if flag != 0x80 {
        lemma_flag_update(status, flag, value, 0x80);
    }
}

/// AND, ORA and EOR combine A with the operand bit by bit and report the
/// result; BIT sets Z when A and the operand share no set bit and copies the
/// operand's bits 7 and 6 into N and V, changing nothing else.
pub proof fn lemma_logic<M: MemoryModel>(cpu: Cpu, address: u16, bus: M)
    requires
        quiet(bus),
    ensures
        ({
            let m = bus.peek_spec(address);
            let (and, and_bus, _) = run(cpu, Instruction::AND, address, bus);
            let (ora, ora_bus, _) = run(cpu, Instruction::ORA, address, bus);
            let (eor, eor_bus, _) = run(cpu, Instruction::EOR, address, bus);
            let (bit, bit_bus, _) = run(cpu, Instruction::BIT, address, bus);
            &&& and == (Cpu { a: cpu.a & m, status: and.status, ..cpu }) && and_bus == bus
            &&& reports(cpu.status, and.status, cpu.a & m)
            &&& ora == (Cpu { a: cpu.a | m, status: ora.status, ..cpu }) && ora_bus == bus
            &&& reports(cpu.status, ora.status, cpu.a | m)
            &&& eor == (Cpu { a: cpu.a ^ m, status: eor.status, ..cpu }) && eor_bus == bus
            &&& reports(cpu.status, eor.status, cpu.a ^ m)
            &&& bit == (Cpu { status: bit.status, ..cpu }) && bit_bus == bus
            &&& zero(bit.status) == (cpu.a & m == 0)
            &&& negative(bit.status) == (m >= 0x80)
            &&& overflow(bit.status) == (m % 0x80 >= 0x40)
            &&& carry(bit.status) == carry(cpu.status)
            &&& interrupt_disable(bit.status) == interrupt_disable(cpu.status)
            &&& decimal(bit.status) == decimal(cpu.status)
        }),
{
    let m = bus.peek_spec(address);
    lemma_zn(cpu.status, cpu.a & m);
    lemma_zn(cpu.status, cpu.a | m);
    lemma_zn(cpu.status, cpu.a ^ m);
    let s1 = status_with(cpu.status, 0x02, cpu.a & m == 0);
    let s2 = status_with(s1, 0x80, m >= 0x80);
    lemma_set_flag(cpu.status, 0x02, cpu.a & m == 0);
    lemma_set_flag(s1, 0x80, m >= 0x80);
    lemma_set_flag(s2, 0x40, m & 0x40 != 0);
    crate::bits::lemma_byte_bits(m);
}

/// ADC adds the operand and the carry to A: the result wraps at 256, C is
/// the carry out, V tells that the signed sum left -128..127. SBC subtracts
/// the operand and the borrow (the inverted carry): C is set when no borrow
/// was needed, V tells that the signed difference left -128..127. Both
/// report the result in Z and N and keep I and D.
pub proof fn lemma_add_and_subtract<M: MemoryModel>(cpu: Cpu, address: u16, bus: M)
    requires
        quiet(bus),
    ensures
        ({
            let m = bus.peek_spec(address);
            let cin: int = if carry(cpu.status) {
                1
            } else {
                0
            };
            let (adc, adc_bus, _) = run(cpu, Instruction::ADC, address, bus);
            let (sbc, sbc_bus, _) = run(cpu, Instruction::SBC, address, bus);
            let sum = cpu.a + m + cin;
            let difference = cpu.a - m - (1 - cin);
            &&& adc == (Cpu { a: adc.a, status: adc.status, ..cpu }) && adc_bus == bus
            &&& adc.a == sum % 256
            &&& carry(adc.status) == (sum > 255)
            &&& overflow(adc.status) == !(-128 <= signed(cpu.a) + signed(m) + cin <= 127)
            &&& zero(adc.status) == (adc.a == 0) && negative(adc.status) == (adc.a >= 0x80)
            &&& interrupt_disable(adc.status) == interrupt_disable(cpu.status)
            &&& decimal(adc.status) == decimal(cpu.status)
            &&& sbc == (Cpu { a: sbc.a, status: sbc.status, ..cpu }) && sbc_bus == bus
            &&& sbc.a == (difference + 256) % 256
            &&& carry(sbc.status) == (difference >= 0)
            &&& overflow(sbc.status) == !(-128 <= signed(cpu.a) - signed(m) - (1 - cin) <= 127)
            &&& zero(sbc.status) == (sbc.a == 0) && negative(sbc.status) == (sbc.a >= 0x80)
            &&& interrupt_disable(sbc.status) == interrupt_disable(cpu.status)
            &&& decimal(sbc.status) == decimal(cpu.status)
        }),
{
    let m = bus.peek_spec(address);
    lemma_add_with_carry(cpu, m);
    let n = (0xFF - m) as u8;
    lemma_add_with_carry(cpu, n);
    assert(signed(n) == -signed(m) - 1);
}

/// The flags and result of A + `m` + C.
proof fn lemma_add_with_carry(cpu: Cpu, m: u8)
    ensures
        ({
            let after = cpu.add_with_carry(m);
            let cin: int = if carry(cpu.status) {
                1
            } else {
                0
            };
            let sum = cpu.a + m + cin;
            &&& after == (Cpu { a: after.a, status: after.status, ..cpu })
            &&& after.a == sum % 256
            &&& carry(after.status) == (sum > 255)
            &&& overflow(after.status) == !(-128 <= signed(cpu.a) + signed(m) + cin <= 127)
            &&& zero(after.status) == (after.a == 0) && negative(after.status) == (after.a >= 0x80)
            &&& interrupt_disable(after.status) == interrupt_disable(cpu.status)
            &&& decimal(after.status) == decimal(cpu.status)
        }),
{
    lemma_adc_is_binary_addition(cpu, m);
    let cin: int = if carry(cpu.status) {
        1
    } else {
        0
    };
    let sum = cpu.a + m + cin;
    let result = (sum % 0x100) as u8;
    let s1 = status_with(cpu.status, 0x01, sum > 0xFF);
    let s2 = status_with(s1, 0x40, signed_overflow(cpu.a, m, result));
    lemma_set_flag(cpu.status, 0x01, sum > 0xFF);
    lemma_set_flag(s1, 0x40, signed_overflow(cpu.a, m, result));
    lemma_zn(s2, result);
}

/// INC and DEC add or subtract one at the operand's address, wrapping at
/// 256, and report the new byte; INX, INY, DEX and DEY do the same to X or
/// Y. Nothing else changes.
pub proof fn lemma_increments<M: MemoryModel>(cpu: Cpu, address: u16, bus: M)
    requires
        quiet(bus),
    ensures
        ({
            let m = bus.peek_spec(address);
            let up = ((m + 1) % 256) as u8;
            let down = ((m + 255) % 256) as u8;
            let (inc, inc_bus, _) = run(cpu, Instruction::INC, address, bus);
            let (dec, dec_bus, _) = run(cpu, Instruction::DEC, address, bus);
            let (inx, inx_bus, _) = run(cpu, Instruction::INX, address, bus);
            let (iny, iny_bus, _) = run(cpu, Instruction::INY, address, bus);
            let (dex, dex_bus, _) = run(cpu, Instruction::DEX, address, bus);
            let (dey, dey_bus, _) = run(cpu, Instruction::DEY, address, bus);
            &&& inc == (Cpu { status: inc.status, ..cpu }) && inc_bus == bus.write_spec(address, up)
            &&& reports(cpu.status, inc.status, up)
            &&& dec == (Cpu { status: dec.status, ..cpu }) && dec_bus == bus.write_spec(
                address,
                down,
            )
            &&& reports(cpu.status, dec.status, down)
            &&& inx == (Cpu { x: inx.x, status: inx.status, ..cpu }) && inx_bus == bus
            &&& inx.x == (cpu.x + 1) % 256 && reports(cpu.status, inx.status, inx.x)
            &&& iny == (Cpu { y: iny.y, status: iny.status, ..cpu }) && iny_bus == bus
            &&& iny.y == (cpu.y + 1) % 256 && reports(cpu.status, iny.status, iny.y)
            &&& dex == (Cpu { x: dex.x, status: dex.status, ..cpu }) && dex_bus == bus
            &&& dex.x == (cpu.x + 255) % 256 && reports(cpu.status, dex.status, dex.x)
            &&& dey == (Cpu { y: dey.y, status: dey.status, ..cpu }) && dey_bus == bus
            &&& dey.y == (cpu.y + 255) % 256 && reports(cpu.status, dey.status, dey.y)
        }),
{
    let m = bus.peek_spec(address);
    lemma_zn(cpu.status, ((m + 1) % 256) as u8);
    lemma_zn(cpu.status, ((m + 255) % 256) as u8);
    lemma_zn(cpu.status, ((cpu.x + 1) % 256) as u8);
    lemma_zn(cpu.status, ((cpu.y + 1) % 256) as u8);
    lemma_zn(cpu.status, ((cpu.x + 255) % 256) as u8);
    lemma_zn(cpu.status, ((cpu.y + 255) % 256) as u8);
}

/// The transfers copy one register into another and report the copied value,
/// except TXS, which sets SP from X and leaves the flags alone.
pub proof fn lemma_transfers<M: MemoryModel>(cpu: Cpu, address: u16, bus: M)
    ensures
        ({
            let (tax, tax_bus, _) = run(cpu, Instruction::TAX, address, bus);
            let (tay, tay_bus, _) = run(cpu, Instruction::TAY, address, bus);
            let (txa, txa_bus, _) = run(cpu, Instruction::TXA, address, bus);
            let (tya, tya_bus, _) = run(cpu, Instruction::TYA, address, bus);
            let (tsx, tsx_bus, _) = run(cpu, Instruction::TSX, address, bus);
            &&& tax == (Cpu { x: cpu.a, status: tax.status, ..cpu }) && tax_bus == bus
            &&& reports(cpu.status, tax.status, cpu.a)
            &&& tay == (Cpu { y: cpu.a, status: tay.status, ..cpu }) && tay_bus == bus
            &&& reports(cpu.status, tay.status, cpu.a)
            &&& txa == (Cpu { a: cpu.x, status: txa.status, ..cpu }) && txa_bus == bus
            &&& reports(cpu.status, txa.status, cpu.x)
            &&& tya == (Cpu { a: cpu.y, status: tya.status, ..cpu }) && tya_bus == bus
            &&& reports(cpu.status, tya.status, cpu.y)
            &&& tsx == (Cpu { x: cpu.sp, status: tsx.status, ..cpu }) && tsx_bus == bus
            &&& reports(cpu.status, tsx.status, cpu.sp)
            &&& run(cpu, Instruction::TXS, address, bus) == (Cpu { sp: cpu.x, ..cpu }, bus, 0u8)
            &&& run(cpu, Instruction::NOP, address, bus) == (cpu, bus, 0u8)
        }),
{
    lemma_zn(cpu.status, cpu.a);
    lemma_zn(cpu.status, cpu.x);
    lemma_zn(cpu.status, cpu.y);
    lemma_zn(cpu.status, cpu.sp);
}

/// The flag instructions: CLC, SEC, CLI, SEI, CLD, SED and CLV clear or set
/// their one flag and change nothing else.
pub proof fn lemma_flag_instructions<M: MemoryModel>(cpu: Cpu, address: u16, bus: M)
    ensures
        ({
            let (clc, _, _) = run(cpu, Instruction::CLC, address, bus);
            let (sec, _, _) = run(cpu, Instruction::SEC, address, bus);
            let (cli, _, _) = run(cpu, Instruction::CLI, address, bus);
            let (sei, _, _) = run(cpu, Instruction::SEI, address, bus);
            let (cld, _, _) = run(cpu, Instruction::CLD, address, bus);
            let (sed, _, _) = run(cpu, Instruction::SED, address, bus);
            let (clv, _, _) = run(cpu, Instruction::CLV, address, bus);
            let s = cpu.status;
            &&& clc == (Cpu { status: clc.status, ..cpu }) && !carry(clc.status)
            &&& zero(clc.status) == zero(s) && interrupt_disable(clc.status) == interrupt_disable(s)
                && decimal(clc.status) == decimal(s) && overflow(clc.status) == overflow(s)
                && negative(clc.status) == negative(s)
            &&& sec == (Cpu { status: sec.status, ..cpu }) && carry(sec.status)
            &&& zero(sec.status) == zero(s) && interrupt_disable(sec.status) == interrupt_disable(s)
                && decimal(sec.status) == decimal(s) && overflow(sec.status) == overflow(s)
                && negative(sec.status) == negative(s)
            &&& cli == (Cpu { status: cli.status, ..cpu }) && !interrupt_disable(cli.status)
            &&& carry(cli.status) == carry(s) && zero(cli.status) == zero(s) && decimal(cli.status)
                == decimal(s) && overflow(cli.status) == overflow(s) && negative(cli.status)
                == negative(s)
            &&& sei == (Cpu { status: sei.status, ..cpu }) && interrupt_disable(sei.status)
            &&& carry(sei.status) == carry(s) && zero(sei.status) == zero(s) && decimal(sei.status)
                == decimal(s) && overflow(sei.status) == overflow(s) && negative(sei.status)
                == negative(s)
            &&& cld == (Cpu { status: cld.status, ..cpu }) && !decimal(cld.status)
            &&& carry(cld.status) == carry(s) && zero(cld.status) == zero(s) && interrupt_disable(
                cld.status,
            ) == interrupt_disable(s) && overflow(cld.status) == overflow(s) && negative(
                cld.status,
            ) == negative(s)
            &&& sed == (Cpu { status: sed.status, ..cpu }) && decimal(sed.status)
            &&& carry(sed.status) == carry(s) && zero(sed.status) == zero(s) && interrupt_disable(
                sed.status,
            ) == interrupt_disable(s) && overflow(sed.status) == overflow(s) && negative(
                sed.status,
            ) == negative(s)
            &&& clv == (Cpu { status: clv.status, ..cpu }) && !overflow(clv.status)
            &&& carry(clv.status) == carry(s) && zero(clv.status) == zero(s) && interrupt_disable(
                clv.status,
            ) == interrupt_disable(s) && decimal(clv.status) == decimal(s) && negative(clv.status)
                == negative(s)
        }),
{
    let s = cpu.status;
    lemma_set_flag(s, 0x01, false);
    lemma_set_flag(s, 0x01, true);
    lemma_set_flag(s, 0x04, false);
    lemma_set_flag(s, 0x04, true);
    lemma_set_flag(s, 0x08, false);
    lemma_set_flag(s, 0x08, true);
    lemma_set_flag(s, 0x40, false);
}

/// A branch to `target`: BPL, BMI, BVC, BVS, BCC, BCS, BNE and BEQ go to the
/// target exactly when N, V, C or Z (in that order of pairs) is clear or set
/// respectively, and otherwise change nothing; JMP always goes there.
pub proof fn lemma_branches<M: MemoryModel>(cpu: Cpu, target: u16, crossed: bool, bus: M)
    ensures
        ({
            let operand = Operand::Address { address: target, page_crossed: crossed };
            let s = cpu.status;
            let go = |taken: bool|
                if taken {
                    Cpu { pc: target, ..cpu }
                } else {
                    cpu
                };
            &&& cpu.spec_instruction(Instruction::BPL, operand, bus).0 == go(!negative(s))
            &&& cpu.spec_instruction(Instruction::BMI, operand, bus).0 == go(negative(s))
            &&& cpu.spec_instruction(Instruction::BVC, operand, bus).0 == go(!overflow(s))
            &&& cpu.spec_instruction(Instruction::BVS, operand, bus).0 == go(overflow(s))
            &&& cpu.spec_instruction(Instruction::BCC, operand, bus).0 == go(!carry(s))
            &&& cpu.spec_instruction(Instruction::BCS, operand, bus).0 == go(carry(s))
            &&& cpu.spec_instruction(Instruction::BNE, operand, bus).0 == go(!zero(s))
            &&& cpu.spec_instruction(Instruction::BEQ, operand, bus).0 == go(zero(s))
            &&& cpu.spec_instruction(Instruction::BNE, operand, bus).2 == if zero(s) {
                0u8
            } else if cpu.pc / 256 != target / 256 {
                2u8
            } else {
                1u8
            }
            &&& cpu.spec_instruction(Instruction::BCS, operand, bus).2 == if !carry(s) {
                0u8
            } else if cpu.pc / 256 != target / 256 {
                2u8
            } else {
                1u8
            }
            &&& cpu.spec_instruction(Instruction::JMP, operand, bus) == (
                Cpu { pc: target, ..cpu },
                bus,
                0u8,
            )
        }),
{
}

/// The shifts and rotates on A: ASL doubles A, the bit pushed out going to
/// C; LSR halves A, the bit pushed out going to C; ROL and ROR do the same but
/// shift the old C in at the other end. The result is reported in Z and N; I,
/// D and V are kept.
pub proof fn lemma_shifts_on_accumulator<M: MemoryModel>(cpu: Cpu, bus: M)
    ensures
        ({
            let cin: int = if carry(cpu.status) {
                1
            } else {
                0
            };
            let a = cpu.a as int;
            let out = |c: Cpu|
                if carry(c.status) {
                    1int
                } else {
                    0
                };
            let (asl, asl_bus, _) = cpu.spec_instruction(Instruction::ASL, Operand::Accumulator, bus);
            let (lsr, lsr_bus, _) = cpu.spec_instruction(Instruction::LSR, Operand::Accumulator, bus);
            let (rol, rol_bus, _) = cpu.spec_instruction(Instruction::ROL, Operand::Accumulator, bus);
            let (ror, ror_bus, _) = cpu.spec_instruction(Instruction::ROR, Operand::Accumulator, bus);
            let keeps = |c: Cpu|
                c == (Cpu { a: c.a, status: c.status, ..cpu }) && zero(c.status) == (c.a == 0)
                    && negative(c.status) == (c.a >= 0x80) && interrupt_disable(c.status)
                    == interrupt_disable(cpu.status) && decimal(c.status) == decimal(cpu.status)
                    && overflow(c.status) == overflow(cpu.status);
            &&& keeps(asl) && asl_bus == bus && asl.a + 256 * out(asl) == 2 * a
            &&& keeps(lsr) && lsr_bus == bus && 2 * lsr.a + out(lsr) == a
            &&& keeps(rol) && rol_bus == bus && rol.a + 256 * out(rol) == 2 * a + cin
            &&& keeps(ror) && ror_bus == bus && 2 * ror.a + out(ror) == a + 256 * cin
        }),
{
    lemma_shift_flags(cpu, cpu.a >= 0x80, crate::cpu::instructions::shift::shl1(cpu.a));
    lemma_shift_flags(cpu, cpu.a % 2 == 1, cpu.a / 2);
    let c1: u8 = if carry(cpu.status) {
        1
    } else {
        0
    };
    let c7: u8 = if carry(cpu.status) {
        0x80
    } else {
        0
    };
    lemma_shift_flags(
        cpu,
        cpu.a >= 0x80,
        (crate::cpu::instructions::shift::shl1(cpu.a) + c1) as u8,
    );
    lemma_shift_flags(cpu, cpu.a % 2 == 1, (cpu.a / 2 + c7) as u8);
}

/// The same shifts and rotates on memory: the byte at the operand's address
/// is replaced by twice itself (ASL, ROL) or half itself (LSR, ROR), with the
/// old carry shifted in by the rotates; the bit pushed out goes to C, the new
/// byte is reported in Z and N, and the registers are kept.
pub proof fn lemma_shifts_on_memory<M: MemoryModel>(cpu: Cpu, address: u16, bus: M)
    requires
        quiet(bus),
    ensures
        ({
            let cin: int = if carry(cpu.status) {
                1
            } else {
                0
            };
            let m = bus.peek_spec(address) as int;
            let (asl, asl_bus, _) = run(cpu, Instruction::ASL, address, bus);
            let (lsr, lsr_bus, _) = run(cpu, Instruction::LSR, address, bus);
            let (rol, rol_bus, _) = run(cpu, Instruction::ROL, address, bus);
            let (ror, ror_bus, _) = run(cpu, Instruction::ROR, address, bus);
            let keeps = |c: Cpu, r: int, out: bool|
                c == (Cpu { status: c.status, ..cpu }) && carry(c.status) == out && zero(c.status)
                    == (r == 0) && negative(c.status) == (r >= 0x80) && interrupt_disable(c.status)
                    == interrupt_disable(cpu.status) && decimal(c.status) == decimal(cpu.status)
                    && overflow(c.status) == overflow(cpu.status);
            &&& asl_bus == bus.write_spec(address, ((2 * m) % 256) as u8)
            &&& keeps(asl, (2 * m) % 256, m >= 128)
            &&& lsr_bus == bus.write_spec(address, (m / 2) as u8)
            &&& keeps(lsr, m / 2, m % 2 == 1)
            &&& rol_bus == bus.write_spec(address, ((2 * m + cin) % 256) as u8)
            &&& keeps(rol, (2 * m + cin) % 256, m >= 128)
            &&& ror_bus == bus.write_spec(address, (m / 2 + 128 * cin) as u8)
            &&& keeps(ror, m / 2 + 128 * cin, m % 2 == 1)
        }),
{
    let m = bus.peek_spec(address);
    let shl = crate::cpu::instructions::shift::shl1(m);
    lemma_shift_flags(cpu, m >= 0x80, shl);
    lemma_shift_flags(cpu, m % 2 == 1, m / 2);
    let c1: u8 = if carry(cpu.status) {
        1
    } else {
        0
    };
    let c7: u8 = if carry(cpu.status) {
        0x80
    } else {
        0
    };
    lemma_shift_flags(cpu, m >= 0x80, (shl + c1) as u8);
    lemma_shift_flags(cpu, m % 2 == 1, (m / 2 + c7) as u8);
}

/// The status after a shift or rotate that pushed out `carry_out` and
/// produced `result`.
proof fn lemma_shift_flags(cpu: Cpu, carry_out: bool, result: u8)
    ensures
        ({
            let s = Cpu::zn(status_with(cpu.status, 0x01, carry_out), result);
            &&& carry(s) == carry_out
            &&& reports(status_with(cpu.status, 0x01, carry_out), s, result)
            &&& interrupt_disable(s) == interrupt_disable(cpu.status)
            &&& decimal(s) == decimal(cpu.status)
            &&& overflow(s) == overflow(cpu.status)
        }),
{
    lemma_set_flag(cpu.status, 0x01, carry_out);
    lemma_zn(status_with(cpu.status, 0x01, carry_out), result);
}

/// Page crossings: the instructions that only read their operand (loads,
/// logic, ADC, SBC and the compares) pay one extra cycle when indexing
/// crossed a page; stores and read-modify-write instructions pay nothing
/// extra (their base cost already covers it).
pub proof fn lemma_page_crossing_cost<M: MemoryModel>(cpu: Cpu, address: u16, crossed: bool, bus: M)
    ensures
        ({
            let operand = Operand::Address { address, page_crossed: crossed };
            let extra: u8 = if crossed {
                1
            } else {
                0
            };
            &&& cpu.spec_instruction(Instruction::LDA, operand, bus).2 == extra
            &&& cpu.spec_instruction(Instruction::LDX, operand, bus).2 == extra
            &&& cpu.spec_instruction(Instruction::LDY, operand, bus).2 == extra
            &&& cpu.spec_instruction(Instruction::AND, operand, bus).2 == extra
            &&& cpu.spec_instruction(Instruction::ORA, operand, bus).2 == extra
            &&& cpu.spec_instruction(Instruction::EOR, operand, bus).2 == extra
            &&& cpu.spec_instruction(Instruction::ADC, operand, bus).2 == extra
            &&& cpu.spec_instruction(Instruction::SBC, operand, bus).2 == extra
            &&& cpu.spec_instruction(Instruction::CMP, operand, bus).2 == extra
            &&& cpu.spec_instruction(Instruction::STA, operand, bus).2 == 0
            &&& cpu.spec_instruction(Instruction::INC, operand, bus).2 == 0
            &&& cpu.spec_instruction(Instruction::DEC, operand, bus).2 == 0
            &&& cpu.spec_instruction(Instruction::ASL, operand, bus).2 == 0
            &&& cpu.spec_instruction(Instruction::ROR, operand, bus).2 == 0
        }),
{
}

/// The plain RAM bus is such memory: the laws above apply to it.
pub proof fn lemma_ram_bus_is_quiet(bus: crate::bus::Bus)
    ensures
        quiet(bus),
        always_quiet::<crate::bus::Bus>(),
{
}

/// The status byte an interrupt pushes: the flags as they are, bit 5 set,
/// and bit 4 (B) set for BRK and clear for a hardware interrupt.
pub open spec fn stacked_status(status: u8, brk: bool) -> int {
    let b: int = if brk {
        1
    } else {
        0
    };
    status - ((status / 16) % 2) * 16 + b * 16 - ((status / 32) % 2) * 32 + 32
}

/// The stack slot `k` bytes below SP.
pub open spec fn slot_below(sp: u8, k: int) -> u16 {
    (0x100 + (sp - k + 256) % 256) as u16
}

/// Memory of type `M` never changes when read.
pub open spec fn always_quiet<M: MemoryModel>() -> bool {
    forall|b: M, a: u16| #[trigger] b.read_spec(a) == (b.peek_spec(a), b)
}

/// The pushed status bytes in the form the laws state them.
proof fn lemma_stacked_status(status: u8)
    ensures
        pushed_byte(status) as int == stacked_status(status, true),
        interrupt_pushed_byte(status) as int == stacked_status(status, false),
        pulled_status(status) as int == stacked_status(status, false),
{
    assert({
        &&& ((status | 0x10u8) | 0x20u8) as int == status - ((status / 16) % 2) * 16 + 16 - ((status
            / 32) % 2) * 32 + 32
        &&& ((status & !0x10u8) | 0x20u8) as int == status - ((status / 16) % 2) * 16 - ((status
            / 32) % 2) * 32 + 32
    }) by (bit_vector);
}

/// Interrupts: an NMI pushes the PC (high byte first) and the status with B
/// clear, sets I, takes the PC from the vector at $FFFA and costs 7 cycles;
/// BRK does the same with the address after its padding byte, B set, and the
/// vector at $FFFE. SP ends three lower and nothing else changes.
pub proof fn lemma_interrupts<M: MemoryModel>(cpu: Cpu, address: u16, bus: M)
    requires
        always_quiet::<M>(),
    ensures
        ({
            let sp = cpu.sp;
            let pushed = |pc: int, status: int|
                bus.write_spec(slot_below(sp, 0), (pc / 256) as u8).write_spec(
                    slot_below(sp, 1),
                    (pc % 256) as u8,
                ).write_spec(slot_below(sp, 2), status as u8);
            let vector = |b: M, v: u16|
                (b.peek_spec(v) + 256 * b.peek_spec((v + 1) as u16)) as u16;
            let (nmi, nmi_bus) = cpu.spec_nmi(bus);
            let nmi_stack = pushed(cpu.pc as int, stacked_status(cpu.status, false));
            let (brk, brk_bus, _) = run(cpu, Instruction::BRK, address, bus);
            let after = (cpu.pc + 1) % 0x10000;
            let brk_stack = pushed(after, stacked_status(cpu.status, true));
            let flags_kept = |c: Cpu|
                interrupt_disable(c.status) && carry(c.status) == carry(cpu.status) && zero(
                    c.status,
                ) == zero(cpu.status) && decimal(c.status) == decimal(cpu.status) && overflow(
                    c.status,
                ) == overflow(cpu.status) && negative(c.status) == negative(cpu.status);
            &&& nmi_bus == nmi_stack
            &&& nmi == (Cpu {
                pc: vector(nmi_stack, 0xFFFA),
                sp: ((sp + 253) % 256) as u8,
                status: nmi.status,
                cycles: 7,
                ..cpu
            })
            &&& flags_kept(nmi)
            &&& brk_bus == brk_stack
            &&& brk == (Cpu {
                pc: vector(brk_stack, 0xFFFE),
                sp: ((sp + 253) % 256) as u8,
                status: brk.status,
                ..cpu
            })
            &&& flags_kept(brk)
        }),
{
    lemma_stacked_status(cpu.status);
    lemma_set_flag(cpu.status, 0x04, true);
}

/// JSR pushes the address of its own last byte (PC - 1, high byte first) and
/// jumps to the target; SP ends two lower and nothing else changes.
pub proof fn lemma_jsr<M: MemoryModel>(cpu: Cpu, target: u16, bus: M)
    ensures
        ({
            let back = (cpu.pc + 0xFFFF) % 0x10000;
            cpu.spec_instruction(Instruction::JSR, at(target), bus) == (
                Cpu { pc: target, sp: ((cpu.sp + 254) % 256) as u8, ..cpu },
                bus.write_spec(slot_below(cpu.sp, 0), (back / 256) as u8).write_spec(
                    slot_below(cpu.sp, 1),
                    (back % 256) as u8,
                ),
                0u8,
            )
        }),
{
}

/// The stack instructions: PHA and PHP store A, or the status with B and
/// bit 5 set, at the stack slot and move SP down; PLA and PLP move SP up and
/// load A (reporting it) or the status (B clear, bit 5 set) from the new
/// slot. Nothing else changes.
pub proof fn lemma_stack_instructions<M: MemoryModel>(cpu: Cpu, address: u16, bus: M)
    requires
        quiet(bus),
    ensures
        ({
            let sp = cpu.sp;
            let up = ((sp + 1) % 256) as u8;
            let top = bus.peek_spec(slot_below(sp, -1));
            let (pla, pla_bus, _) = run(cpu, Instruction::PLA, address, bus);
            &&& run(cpu, Instruction::PHA, address, bus) == (
                Cpu { sp: ((sp + 255) % 256) as u8, ..cpu },
                bus.write_spec(slot_below(sp, 0), cpu.a),
                0u8,
            )
            &&& run(cpu, Instruction::PHP, address, bus) == (
                Cpu { sp: ((sp + 255) % 256) as u8, ..cpu },
                bus.write_spec(slot_below(sp, 0), stacked_status(cpu.status, true) as u8),
                0u8,
            )
            &&& pla == (Cpu { a: top, sp: up, status: pla.status, ..cpu }) && pla_bus == bus
            &&& reports(cpu.status, pla.status, top)
            &&& run(cpu, Instruction::PLP, address, bus) == (
                Cpu { sp: up, status: stacked_status(top, false) as u8, ..cpu },
                bus,
                0u8,
            )
        }),
{
    lemma_stacked_status(cpu.status);
    lemma_stacked_status(bus.peek_spec(slot_below(cpu.sp, -1)));
    lemma_zn(cpu.status, bus.peek_spec(slot_below(cpu.sp, -1)));
}

} // verus!
