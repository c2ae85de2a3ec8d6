//! Decoding instructions for display: the bytes of the instruction at an
//! address and what its operand refers to, looked up without side effects.

use vstd::prelude::*;

use crate::bus::{add16, add8, CpuMemory, MemoryModel};
use crate::cpu::addressing::{relative_target, AddressingMode};
use crate::cpu::instructions::Instruction;
use crate::cpu::opcodes::{decode_opcode, opcode_spec};
use crate::cpu::{make_word, word};

verus! {

/// What an instruction's operand refers to, with the values it points at.
#[allow(inconsistent_fields)]
#[derive(Clone, Copy, Debug, PartialEq, Eq, Structural)]
pub enum OperandInfo {
    /// No operand.
    Implied,
    /// The accumulator.
    Accumulator,
    /// A literal byte.
    Immediate { value: u8 },
    /// A zero-page address and the byte there.
    ZeroPage { address: u8, value: u8 },
    /// A zero-page base, the address after adding X, and the byte there.
    ZeroPageX { base: u8, effective: u8, value: u8 },
    /// A zero-page base, the address after adding Y, and the byte there.
    ZeroPageY { base: u8, effective: u8, value: u8 },
    /// The target of a branch.
    Relative { target: u16 },
    /// An absolute address and, except for jumps, the byte there.
    Absolute { address: u16, value: Option<u8> },
    /// An absolute base, the address after adding X, and the byte there.
    AbsoluteX { base: u16, effective: u16, value: u8 },
    /// An absolute base, the address after adding Y, and the byte there.
    AbsoluteY { base: u16, effective: u16, value: u8 },
    /// A pointer and the address it holds (with the page-wrap quirk).
    Indirect { pointer: u16, target: u16 },
    /// A zero-page base, the pointer after adding X, the address it holds and
    /// the byte there.
    IndirectX { base: u8, pointer: u8, effective: u16, value: u8 },
    /// A zero-page pointer, the address it holds, that address plus Y and the
    /// byte there.
    IndirectY { pointer: u8, base: u16, effective: u16, value: u8 },
}

/// An instruction decoded for display.
pub struct DecodedInstruction {
    /// Where the instruction starts.
    pub address: u16,
    /// The opcode and its operand bytes.
    pub bytes: Vec<u8>,
    pub instruction: Instruction,
    pub mode: AddressingMode,
    pub operand: OperandInfo,
    /// The address of the following instruction.
    pub next: u16,
}

/// The abstract form of a decoded instruction.
pub struct DecodedView {
    pub address: u16,
    pub bytes: Seq<u8>,
    pub instruction: Instruction,
    pub mode: AddressingMode,
    pub operand: OperandInfo,
    pub next: u16,
}

impl View for DecodedInstruction {
    type V = DecodedView;

    open spec fn view(&self) -> DecodedView {
        DecodedView {
            address: self.address,
            bytes: self.bytes@,
            instruction: self.instruction,
            mode: self.mode,
            operand: self.operand,
            next: self.next,
        }
    }
}

/// The address the second byte of an indirect jump's target is read from:
/// the pointer's next byte, staying on the same page.
pub open spec fn indirect_hi(pointer: u16) -> u16 {
    if pointer % 0x100 == 0xFF {
        (pointer - 0xFF) as u16
    } else {
        add16(pointer, 1)
    }
}

/// The instruction at `address` as it reads on `bus`, with index registers
/// `x` and `y`.
pub open spec fn decode<M: MemoryModel>(bus: M, address: u16, x: u8, y: u8) -> DecodedView {
    let opcode = bus.peek_spec(address);
    let info = opcode_spec(opcode);
    let a1 = add16(address, 1);
    let a2 = add16(address, 2);
    let b1 = bus.peek_spec(a1);
    let b2 = bus.peek_spec(a2);
    let (bytes, operand, next) = match info.mode {
        AddressingMode::Implied => (seq![opcode], OperandInfo::Implied, a1),
        AddressingMode::Accumulator => (seq![opcode], OperandInfo::Accumulator, a1),
        AddressingMode::Immediate => (seq![opcode, b1], OperandInfo::Immediate { value: b1 }, a2),
        AddressingMode::ZeroPage => (
            seq![opcode, b1],
            OperandInfo::ZeroPage { address: b1, value: bus.peek_spec(b1 as u16) },
            a2,
        ),
        AddressingMode::ZeroPageX => (
            seq![opcode, b1],
            OperandInfo::ZeroPageX {
                base: b1,
                effective: add8(b1, x),
                value: bus.peek_spec(add8(b1, x) as u16),
            },
            a2,
        ),
        AddressingMode::ZeroPageY => (
            seq![opcode, b1],
            OperandInfo::ZeroPageY {
                base: b1,
                effective: add8(b1, y),
                value: bus.peek_spec(add8(b1, y) as u16),
            },
            a2,
        ),
        AddressingMode::Relative => (
            seq![opcode, b1],
            OperandInfo::Relative { target: relative_target(a2, b1) },
            a2,
        ),
        AddressingMode::Absolute => {
            let target = word(b1, b2);
            (
                seq![opcode, b1, b2],
                OperandInfo::Absolute {
                    address: target,
                    value: if info.instruction == Instruction::JMP || info.instruction
                        == Instruction::JSR {
                        None
                    } else {
                        Some(bus.peek_spec(target))
                    },
                },
                add16(address, 3),
            )
        },
        AddressingMode::AbsoluteX => {
            let base = word(b1, b2);
            (
                seq![opcode, b1, b2],
                OperandInfo::AbsoluteX {
                    base,
                    effective: add16(base, x as u16),
                    value: bus.peek_spec(add16(base, x as u16)),
                },
                add16(address, 3),
            )
        },
        AddressingMode::AbsoluteY => {
            let base = word(b1, b2);
            (
                seq![opcode, b1, b2],
                OperandInfo::AbsoluteY {
                    base,
                    effective: add16(base, y as u16),
                    value: bus.peek_spec(add16(base, y as u16)),
                },
                add16(address, 3),
            )
        },
        AddressingMode::Indirect => {
            let pointer = word(b1, b2);
            (
                seq![opcode, b1, b2],
                OperandInfo::Indirect {
                    pointer,
                    target: word(bus.peek_spec(pointer), bus.peek_spec(indirect_hi(pointer))),
                },
                add16(address, 3),
            )
        },
        AddressingMode::IndirectX => {
            let pointer = add8(b1, x);
            let effective = word(bus.peek_spec(pointer as u16), bus.peek_spec(add8(pointer, 1) as u16));
            (
                seq![opcode, b1],
                OperandInfo::IndirectX { base: b1, pointer, effective, value: bus.peek_spec(effective) },
                a2,
            )
        },
        AddressingMode::IndirectY => {
            let base = word(bus.peek_spec(b1 as u16), bus.peek_spec(add8(b1, 1) as u16));
            let effective = add16(base, y as u16);
            (
                seq![opcode, b1],
                OperandInfo::IndirectY { pointer: b1, base, effective, value: bus.peek_spec(effective) },
                a2,
            )
        },
    };
    DecodedView { address, bytes, instruction: info.instruction, mode: info.mode, operand, next }
}

/// Decodes the instruction at `address`, looking at the bus without
/// disturbing it.
pub fn disassemble<B: CpuMemory>(bus: &B, address: u16, x: u8, y: u8) -> (d: DecodedInstruction)
    ensures
        d@ == decode(bus.model(), address, x, y),
{
    let opcode = bus.peek(address);
    let info = decode_opcode(opcode);
    let a1 = address.wrapping_add(1);
    let a2 = address.wrapping_add(2);
    let a3 = address.wrapping_add(3);
    let mut bytes: Vec<u8> = Vec::new();
    bytes.push(opcode);
    let (operand, next) = match info.mode {
        AddressingMode::Implied => (OperandInfo::Implied, a1),
        AddressingMode::Accumulator => (OperandInfo::Accumulator, a1),
        AddressingMode::Immediate => {
            let value = bus.peek(a1);
            bytes.push(value);
            (OperandInfo::Immediate { value }, a2)
        },
        AddressingMode::ZeroPage => {
            let zp = bus.peek(a1);
            bytes.push(zp);
            (OperandInfo::ZeroPage { address: zp, value: bus.peek(zp as u16) }, a2)
        },
        AddressingMode::ZeroPageX => {
            let base = bus.peek(a1);
            bytes.push(base);
            let effective = base.wrapping_add(x);
            (OperandInfo::ZeroPageX { base, effective, value: bus.peek(effective as u16) }, a2)
        },
        AddressingMode::ZeroPageY => {
            let base = bus.peek(a1);
            bytes.push(base);
            let effective = base.wrapping_add(y);
            (OperandInfo::ZeroPageY { base, effective, value: bus.peek(effective as u16) }, a2)
        },
        AddressingMode::Relative => {
            let offset = bus.peek(a1);
            bytes.push(offset);
            let extended: u16 = if offset < 0x80 {
                offset as u16
            } else {
                offset as u16 + 0xFF00
            };
            (OperandInfo::Relative { target: a2.wrapping_add(extended) }, a2)
        },
        AddressingMode::Absolute => {
            let lo = bus.peek(a1);
            let hi = bus.peek(a2);
            bytes.push(lo);
            bytes.push(hi);
            let target = make_word(lo, hi);
            let is_jump = match info.instruction {
                Instruction::JMP => true,
                Instruction::JSR => true,
                _ => false,
            };
            let value = if is_jump {
                None
            } else {
                Some(bus.peek(target))
            };
            (OperandInfo::Absolute { address: target, value }, a3)
        },
        AddressingMode::AbsoluteX => {
            let lo = bus.peek(a1);
            let hi = bus.peek(a2);
            bytes.push(lo);
            bytes.push(hi);
            let base = make_word(lo, hi);
            let effective = base.wrapping_add(x as u16);
            (OperandInfo::AbsoluteX { base, effective, value: bus.peek(effective) }, a3)
        },
        AddressingMode::AbsoluteY => {
            let lo = bus.peek(a1);
            let hi = bus.peek(a2);
            bytes.push(lo);
            bytes.push(hi);
            let base = make_word(lo, hi);
            let effective = base.wrapping_add(y as u16);
            (OperandInfo::AbsoluteY { base, effective, value: bus.peek(effective) }, a3)
        },
        AddressingMode::Indirect => {
            let lo = bus.peek(a1);
            let hi = bus.peek(a2);
            bytes.push(lo);
            bytes.push(hi);
            let pointer = make_word(lo, hi);
            let hi_address = if pointer % 0x100 == 0xFF {
                pointer - 0xFF
            } else {
                pointer.wrapping_add(1)
            };
            let target = make_word(bus.peek(pointer), bus.peek(hi_address));
            (OperandInfo::Indirect { pointer, target }, a3)
        },
        AddressingMode::IndirectX => {
            let base = bus.peek(a1);
            bytes.push(base);
            let pointer = base.wrapping_add(x);
            let effective = make_word(bus.peek(pointer as u16), bus.peek(pointer.wrapping_add(1) as u16));
            (OperandInfo::IndirectX { base, pointer, effective, value: bus.peek(effective) }, a2)
        },
        AddressingMode::IndirectY => {
            let pointer = bus.peek(a1);
            bytes.push(pointer);
            let base = make_word(bus.peek(pointer as u16), bus.peek(pointer.wrapping_add(1) as u16));
            let effective = base.wrapping_add(y as u16);
            (OperandInfo::IndirectY { pointer, base, effective, value: bus.peek(effective) }, a2)
        },
    };
    let d = DecodedInstruction {
        address,
        bytes,
        instruction: info.instruction,
        mode: info.mode,
        operand,
        next,
    };
    assert(d@.bytes =~= decode(bus.model(), address, x, y).bytes);
    d
}


/// The next instruction starts right after the bytes decoded: one byte for
/// implied and accumulator operands, two for one-byte operands, three for
/// absolute and indirect ones.
pub proof fn lemma_decode_length<M: MemoryModel>(bus: M, address: u16, x: u8, y: u8)
    ensures
        ({
            let d = decode(bus, address, x, y);
            &&& 1 <= d.bytes.len() <= 3
            &&& d.next == add16(address, d.bytes.len() as u16)
            &&& d.bytes[0] == bus.peek_spec(address)
        }),
{
}

/// The disassembler and the CPU agree on instruction length: where reading
/// the opcode shows what a look shows, the CPU's program counter after it
/// fetches the opcode and its operand bytes is the decoded next address.
pub proof fn lemma_decode_matches_fetch<M: MemoryModel>(cpu: crate::cpu::Cpu, bus: M)
    requires
        bus.peek_spec(cpu.pc) == bus.read_spec(cpu.pc).0,
    ensures
        ({
            let (opcode, bus1) = bus.read_spec(cpu.pc);
            let fetched = crate::cpu::Cpu { pc: add16(cpu.pc, 1), ..cpu };
            fetched.spec_resolve(opcode_spec(opcode).mode, bus1).0.pc == decode(
                bus,
                cpu.pc,
                cpu.x,
                cpu.y,
            ).next
        }),
{
}

} // verus!
