//! The opcode table: which instruction, addressing mode and base cycle cost
//! each opcode byte stands for.

use vstd::prelude::*;

use crate::cpu::addressing::AddressingMode;
use crate::cpu::instructions::Instruction;

verus! {

/// What an opcode byte decodes to.
#[derive(Copy, Clone, Debug)]
pub struct Opcode {
    pub instruction: Instruction,
    pub mode: AddressingMode,
    /// Base cycle cost, before page-crossing and branch penalties.
    pub cycles: u8,
}

/// The entry for opcodes that are not part of the official instruction set.
pub open spec fn unassigned_opcode() -> Opcode {
    Opcode { instruction: Instruction::HLT, mode: AddressingMode::Implied, cycles: 2 }
}

impl Default for Opcode {
    fn default() -> (opcode: Opcode)
        ensures
            opcode == unassigned_opcode(),
    {
        Opcode { instruction: Instruction::HLT, mode: AddressingMode::Implied, cycles: 2 }
    }
}

/// The official 6502 opcode map (151 opcodes); every other byte is unassigned.
pub open spec fn opcode_spec(opcode: u8) -> Opcode {
    match opcode {
        0x00 => Opcode { instruction: Instruction::BRK, mode: AddressingMode::Implied, cycles: 7 },
        0x01 => Opcode { instruction: Instruction::ORA, mode: AddressingMode::IndirectX, cycles: 6 },
        0x05 => Opcode { instruction: Instruction::ORA, mode: AddressingMode::ZeroPage, cycles: 3 },
        0x06 => Opcode { instruction: Instruction::ASL, mode: AddressingMode::ZeroPage, cycles: 5 },
        0x08 => Opcode { instruction: Instruction::PHP, mode: AddressingMode::Implied, cycles: 3 },
        0x09 => Opcode { instruction: Instruction::ORA, mode: AddressingMode::Immediate, cycles: 2 },
        0x0A => Opcode { instruction: Instruction::ASL, mode: AddressingMode::Accumulator, cycles: 2 },
        0x0D => Opcode { instruction: Instruction::ORA, mode: AddressingMode::Absolute, cycles: 4 },
        0x0E => Opcode { instruction: Instruction::ASL, mode: AddressingMode::Absolute, cycles: 6 },
        0x10 => Opcode { instruction: Instruction::BPL, mode: AddressingMode::Relative, cycles: 2 },
        0x11 => Opcode { instruction: Instruction::ORA, mode: AddressingMode::IndirectY, cycles: 5 },
        0x15 => Opcode { instruction: Instruction::ORA, mode: AddressingMode::ZeroPageX, cycles: 4 },
        0x16 => Opcode { instruction: Instruction::ASL, mode: AddressingMode::ZeroPageX, cycles: 6 },
        0x18 => Opcode { instruction: Instruction::CLC, mode: AddressingMode::Implied, cycles: 2 },
        0x19 => Opcode { instruction: Instruction::ORA, mode: AddressingMode::AbsoluteY, cycles: 4 },
        0x1D => Opcode { instruction: Instruction::ORA, mode: AddressingMode::AbsoluteX, cycles: 4 },
        0x1E => Opcode { instruction: Instruction::ASL, mode: AddressingMode::AbsoluteX, cycles: 7 },
        0x20 => Opcode { instruction: Instruction::JSR, mode: AddressingMode::Absolute, cycles: 6 },
        0x21 => Opcode { instruction: Instruction::AND, mode: AddressingMode::IndirectX, cycles: 6 },
        0x24 => Opcode { instruction: Instruction::BIT, mode: AddressingMode::ZeroPage, cycles: 3 },
        0x25 => Opcode { instruction: Instruction::AND, mode: AddressingMode::ZeroPage, cycles: 3 },
        0x26 => Opcode { instruction: Instruction::ROL, mode: AddressingMode::ZeroPage, cycles: 5 },
        0x28 => Opcode { instruction: Instruction::PLP, mode: AddressingMode::Implied, cycles: 4 },
        0x29 => Opcode { instruction: Instruction::AND, mode: AddressingMode::Immediate, cycles: 2 },
        0x2A => Opcode { instruction: Instruction::ROL, mode: AddressingMode::Accumulator, cycles: 2 },
        0x2C => Opcode { instruction: Instruction::BIT, mode: AddressingMode::Absolute, cycles: 4 },
        0x2D => Opcode { instruction: Instruction::AND, mode: AddressingMode::Absolute, cycles: 4 },
        0x2E => Opcode { instruction: Instruction::ROL, mode: AddressingMode::Absolute, cycles: 6 },
        0x30 => Opcode { instruction: Instruction::BMI, mode: AddressingMode::Relative, cycles: 2 },
        0x31 => Opcode { instruction: Instruction::AND, mode: AddressingMode::IndirectY, cycles: 5 },
        0x35 => Opcode { instruction: Instruction::AND, mode: AddressingMode::ZeroPageX, cycles: 4 },
        0x36 => Opcode { instruction: Instruction::ROL, mode: AddressingMode::ZeroPageX, cycles: 6 },
        0x38 => Opcode { instruction: Instruction::SEC, mode: AddressingMode::Implied, cycles: 2 },
        0x39 => Opcode { instruction: Instruction::AND, mode: AddressingMode::AbsoluteY, cycles: 4 },
        0x3D => Opcode { instruction: Instruction::AND, mode: AddressingMode::AbsoluteX, cycles: 4 },
        0x3E => Opcode { instruction: Instruction::ROL, mode: AddressingMode::AbsoluteX, cycles: 7 },
        0x40 => Opcode { instruction: Instruction::RTI, mode: AddressingMode::Implied, cycles: 6 },
        0x41 => Opcode { instruction: Instruction::EOR, mode: AddressingMode::IndirectX, cycles: 6 },
        0x45 => Opcode { instruction: Instruction::EOR, mode: AddressingMode::ZeroPage, cycles: 3 },
        0x46 => Opcode { instruction: Instruction::LSR, mode: AddressingMode::ZeroPage, cycles: 5 },
        0x48 => Opcode { instruction: Instruction::PHA, mode: AddressingMode::Implied, cycles: 3 },
        0x49 => Opcode { instruction: Instruction::EOR, mode: AddressingMode::Immediate, cycles: 2 },
        0x4A => Opcode { instruction: Instruction::LSR, mode: AddressingMode::Accumulator, cycles: 2 },
        0x4C => Opcode { instruction: Instruction::JMP, mode: AddressingMode::Absolute, cycles: 3 },
        0x4D => Opcode { instruction: Instruction::EOR, mode: AddressingMode::Absolute, cycles: 4 },
        0x4E => Opcode { instruction: Instruction::LSR, mode: AddressingMode::Absolute, cycles: 6 },
        0x50 => Opcode { instruction: Instruction::BVC, mode: AddressingMode::Relative, cycles: 2 },
        0x51 => Opcode { instruction: Instruction::EOR, mode: AddressingMode::IndirectY, cycles: 5 },
        0x55 => Opcode { instruction: Instruction::EOR, mode: AddressingMode::ZeroPageX, cycles: 4 },
        0x56 => Opcode { instruction: Instruction::LSR, mode: AddressingMode::ZeroPageX, cycles: 6 },
        0x58 => Opcode { instruction: Instruction::CLI, mode: AddressingMode::Implied, cycles: 2 },
        0x59 => Opcode { instruction: Instruction::EOR, mode: AddressingMode::AbsoluteY, cycles: 4 },
        0x5D => Opcode { instruction: Instruction::EOR, mode: AddressingMode::AbsoluteX, cycles: 4 },
        0x5E => Opcode { instruction: Instruction::LSR, mode: AddressingMode::AbsoluteX, cycles: 7 },
        0x60 => Opcode { instruction: Instruction::RTS, mode: AddressingMode::Implied, cycles: 6 },
        0x61 => Opcode { instruction: Instruction::ADC, mode: AddressingMode::IndirectX, cycles: 6 },
        0x65 => Opcode { instruction: Instruction::ADC, mode: AddressingMode::ZeroPage, cycles: 3 },
        0x66 => Opcode { instruction: Instruction::ROR, mode: AddressingMode::ZeroPage, cycles: 5 },
        0x68 => Opcode { instruction: Instruction::PLA, mode: AddressingMode::Implied, cycles: 4 },
        0x69 => Opcode { instruction: Instruction::ADC, mode: AddressingMode::Immediate, cycles: 2 },
        0x6A => Opcode { instruction: Instruction::ROR, mode: AddressingMode::Accumulator, cycles: 2 },
        0x6C => Opcode { instruction: Instruction::JMP, mode: AddressingMode::Indirect, cycles: 5 },
        0x6D => Opcode { instruction: Instruction::ADC, mode: AddressingMode::Absolute, cycles: 4 },
        0x6E => Opcode { instruction: Instruction::ROR, mode: AddressingMode::Absolute, cycles: 6 },
        0x70 => Opcode { instruction: Instruction::BVS, mode: AddressingMode::Relative, cycles: 2 },
        0x71 => Opcode { instruction: Instruction::ADC, mode: AddressingMode::IndirectY, cycles: 5 },
        0x75 => Opcode { instruction: Instruction::ADC, mode: AddressingMode::ZeroPageX, cycles: 4 },
        0x76 => Opcode { instruction: Instruction::ROR, mode: AddressingMode::ZeroPageX, cycles: 6 },
        0x78 => Opcode { instruction: Instruction::SEI, mode: AddressingMode::Implied, cycles: 2 },
        0x79 => Opcode { instruction: Instruction::ADC, mode: AddressingMode::AbsoluteY, cycles: 4 },
        0x7D => Opcode { instruction: Instruction::ADC, mode: AddressingMode::AbsoluteX, cycles: 4 },
        0x7E => Opcode { instruction: Instruction::ROR, mode: AddressingMode::AbsoluteX, cycles: 7 },
        0x81 => Opcode { instruction: Instruction::STA, mode: AddressingMode::IndirectX, cycles: 6 },
        0x84 => Opcode { instruction: Instruction::STY, mode: AddressingMode::ZeroPage, cycles: 3 },
        0x85 => Opcode { instruction: Instruction::STA, mode: AddressingMode::ZeroPage, cycles: 3 },
        0x86 => Opcode { instruction: Instruction::STX, mode: AddressingMode::ZeroPage, cycles: 3 },
        0x88 => Opcode { instruction: Instruction::DEY, mode: AddressingMode::Implied, cycles: 2 },
        0x8A => Opcode { instruction: Instruction::TXA, mode: AddressingMode::Implied, cycles: 2 },
        0x8C => Opcode { instruction: Instruction::STY, mode: AddressingMode::Absolute, cycles: 4 },
        0x8D => Opcode { instruction: Instruction::STA, mode: AddressingMode::Absolute, cycles: 4 },
        0x8E => Opcode { instruction: Instruction::STX, mode: AddressingMode::Absolute, cycles: 4 },
        0x90 => Opcode { instruction: Instruction::BCC, mode: AddressingMode::Relative, cycles: 2 },
        0x91 => Opcode { instruction: Instruction::STA, mode: AddressingMode::IndirectY, cycles: 6 },
        0x94 => Opcode { instruction: Instruction::STY, mode: AddressingMode::ZeroPageX, cycles: 4 },
        0x95 => Opcode { instruction: Instruction::STA, mode: AddressingMode::ZeroPageX, cycles: 4 },
        0x96 => Opcode { instruction: Instruction::STX, mode: AddressingMode::ZeroPageY, cycles: 4 },
        0x98 => Opcode { instruction: Instruction::TYA, mode: AddressingMode::Implied, cycles: 2 },
        0x99 => Opcode { instruction: Instruction::STA, mode: AddressingMode::AbsoluteY, cycles: 5 },
        0x9A => Opcode { instruction: Instruction::TXS, mode: AddressingMode::Implied, cycles: 2 },
        0x9D => Opcode { instruction: Instruction::STA, mode: AddressingMode::AbsoluteX, cycles: 5 },
        0xA0 => Opcode { instruction: Instruction::LDY, mode: AddressingMode::Immediate, cycles: 2 },
        0xA1 => Opcode { instruction: Instruction::LDA, mode: AddressingMode::IndirectX, cycles: 6 },
        0xA2 => Opcode { instruction: Instruction::LDX, mode: AddressingMode::Immediate, cycles: 2 },
        0xA4 => Opcode { instruction: Instruction::LDY, mode: AddressingMode::ZeroPage, cycles: 3 },
        0xA5 => Opcode { instruction: Instruction::LDA, mode: AddressingMode::ZeroPage, cycles: 3 },
        0xA6 => Opcode { instruction: Instruction::LDX, mode: AddressingMode::ZeroPage, cycles: 3 },
        0xA8 => Opcode { instruction: Instruction::TAY, mode: AddressingMode::Implied, cycles: 2 },
        0xA9 => Opcode { instruction: Instruction::LDA, mode: AddressingMode::Immediate, cycles: 2 },
        0xAA => Opcode { instruction: Instruction::TAX, mode: AddressingMode::Implied, cycles: 2 },
        0xAC => Opcode { instruction: Instruction::LDY, mode: AddressingMode::Absolute, cycles: 4 },
        0xAD => Opcode { instruction: Instruction::LDA, mode: AddressingMode::Absolute, cycles: 4 },
        0xAE => Opcode { instruction: Instruction::LDX, mode: AddressingMode::Absolute, cycles: 4 },
        0xB0 => Opcode { instruction: Instruction::BCS, mode: AddressingMode::Relative, cycles: 2 },
        0xB1 => Opcode { instruction: Instruction::LDA, mode: AddressingMode::IndirectY, cycles: 5 },
        0xB4 => Opcode { instruction: Instruction::LDY, mode: AddressingMode::ZeroPageX, cycles: 4 },
        0xB5 => Opcode { instruction: Instruction::LDA, mode: AddressingMode::ZeroPageX, cycles: 4 },
        0xB6 => Opcode { instruction: Instruction::LDX, mode: AddressingMode::ZeroPageY, cycles: 4 },
        0xB8 => Opcode { instruction: Instruction::CLV, mode: AddressingMode::Implied, cycles: 2 },
        0xB9 => Opcode { instruction: Instruction::LDA, mode: AddressingMode::AbsoluteY, cycles: 4 },
        0xBA => Opcode { instruction: Instruction::TSX, mode: AddressingMode::Implied, cycles: 2 },
        0xBC => Opcode { instruction: Instruction::LDY, mode: AddressingMode::AbsoluteX, cycles: 4 },
        0xBD => Opcode { instruction: Instruction::LDA, mode: AddressingMode::AbsoluteX, cycles: 4 },
        0xBE => Opcode { instruction: Instruction::LDX, mode: AddressingMode::AbsoluteY, cycles: 4 },
        0xC0 => Opcode { instruction: Instruction::CPY, mode: AddressingMode::Immediate, cycles: 2 },
        0xC1 => Opcode { instruction: Instruction::CMP, mode: AddressingMode::IndirectX, cycles: 6 },
        0xC4 => Opcode { instruction: Instruction::CPY, mode: AddressingMode::ZeroPage, cycles: 3 },
        0xC5 => Opcode { instruction: Instruction::CMP, mode: AddressingMode::ZeroPage, cycles: 3 },
        0xC6 => Opcode { instruction: Instruction::DEC, mode: AddressingMode::ZeroPage, cycles: 5 },
        0xC8 => Opcode { instruction: Instruction::INY, mode: AddressingMode::Implied, cycles: 2 },
        0xC9 => Opcode { instruction: Instruction::CMP, mode: AddressingMode::Immediate, cycles: 2 },
        0xCA => Opcode { instruction: Instruction::DEX, mode: AddressingMode::Implied, cycles: 2 },
        0xCC => Opcode { instruction: Instruction::CPY, mode: AddressingMode::Absolute, cycles: 4 },
        0xCD => Opcode { instruction: Instruction::CMP, mode: AddressingMode::Absolute, cycles: 4 },
        0xCE => Opcode { instruction: Instruction::DEC, mode: AddressingMode::Absolute, cycles: 6 },
        0xD0 => Opcode { instruction: Instruction::BNE, mode: AddressingMode::Relative, cycles: 2 },
        0xD1 => Opcode { instruction: Instruction::CMP, mode: AddressingMode::IndirectY, cycles: 5 },
        0xD5 => Opcode { instruction: Instruction::CMP, mode: AddressingMode::ZeroPageX, cycles: 4 },
        0xD6 => Opcode { instruction: Instruction::DEC, mode: AddressingMode::ZeroPageX, cycles: 6 },
        0xD8 => Opcode { instruction: Instruction::CLD, mode: AddressingMode::Implied, cycles: 2 },
        0xD9 => Opcode { instruction: Instruction::CMP, mode: AddressingMode::AbsoluteY, cycles: 4 },
        0xDD => Opcode { instruction: Instruction::CMP, mode: AddressingMode::AbsoluteX, cycles: 4 },
        0xDE => Opcode { instruction: Instruction::DEC, mode: AddressingMode::AbsoluteX, cycles: 7 },
        0xE0 => Opcode { instruction: Instruction::CPX, mode: AddressingMode::Immediate, cycles: 2 },
        0xE1 => Opcode { instruction: Instruction::SBC, mode: AddressingMode::IndirectX, cycles: 6 },
        0xE4 => Opcode { instruction: Instruction::CPX, mode: AddressingMode::ZeroPage, cycles: 3 },
        0xE5 => Opcode { instruction: Instruction::SBC, mode: AddressingMode::ZeroPage, cycles: 3 },
        0xE6 => Opcode { instruction: Instruction::INC, mode: AddressingMode::ZeroPage, cycles: 5 },
        0xE8 => Opcode { instruction: Instruction::INX, mode: AddressingMode::Implied, cycles: 2 },
        0xE9 => Opcode { instruction: Instruction::SBC, mode: AddressingMode::Immediate, cycles: 2 },
        0xEA => Opcode { instruction: Instruction::NOP, mode: AddressingMode::Implied, cycles: 2 },
        0xEC => Opcode { instruction: Instruction::CPX, mode: AddressingMode::Absolute, cycles: 4 },
        0xED => Opcode { instruction: Instruction::SBC, mode: AddressingMode::Absolute, cycles: 4 },
        0xEE => Opcode { instruction: Instruction::INC, mode: AddressingMode::Absolute, cycles: 6 },
        0xF0 => Opcode { instruction: Instruction::BEQ, mode: AddressingMode::Relative, cycles: 2 },
        0xF1 => Opcode { instruction: Instruction::SBC, mode: AddressingMode::IndirectY, cycles: 5 },
        0xF5 => Opcode { instruction: Instruction::SBC, mode: AddressingMode::ZeroPageX, cycles: 4 },
        0xF6 => Opcode { instruction: Instruction::INC, mode: AddressingMode::ZeroPageX, cycles: 6 },
        0xF8 => Opcode { instruction: Instruction::SED, mode: AddressingMode::Implied, cycles: 2 },
        0xF9 => Opcode { instruction: Instruction::SBC, mode: AddressingMode::AbsoluteY, cycles: 4 },
        0xFD => Opcode { instruction: Instruction::SBC, mode: AddressingMode::AbsoluteX, cycles: 4 },
        0xFE => Opcode { instruction: Instruction::INC, mode: AddressingMode::AbsoluteX, cycles: 7 },
        _ => unassigned_opcode(),
    }
}

/// Decodes one opcode byte.
pub fn decode_opcode(opcode: u8) -> (entry: Opcode)
    ensures
        entry == opcode_spec(opcode),
{
    match opcode {
        0x00 => Opcode { instruction: Instruction::BRK, mode: AddressingMode::Implied, cycles: 7 },
        0x01 => Opcode { instruction: Instruction::ORA, mode: AddressingMode::IndirectX, cycles: 6 },
        0x05 => Opcode { instruction: Instruction::ORA, mode: AddressingMode::ZeroPage, cycles: 3 },
        0x06 => Opcode { instruction: Instruction::ASL, mode: AddressingMode::ZeroPage, cycles: 5 },
        0x08 => Opcode { instruction: Instruction::PHP, mode: AddressingMode::Implied, cycles: 3 },
        0x09 => Opcode { instruction: Instruction::ORA, mode: AddressingMode::Immediate, cycles: 2 },
        0x0A => Opcode { instruction: Instruction::ASL, mode: AddressingMode::Accumulator, cycles: 2 },
        0x0D => Opcode { instruction: Instruction::ORA, mode: AddressingMode::Absolute, cycles: 4 },
        0x0E => Opcode { instruction: Instruction::ASL, mode: AddressingMode::Absolute, cycles: 6 },
        0x10 => Opcode { instruction: Instruction::BPL, mode: AddressingMode::Relative, cycles: 2 },
        0x11 => Opcode { instruction: Instruction::ORA, mode: AddressingMode::IndirectY, cycles: 5 },
        0x15 => Opcode { instruction: Instruction::ORA, mode: AddressingMode::ZeroPageX, cycles: 4 },
        0x16 => Opcode { instruction: Instruction::ASL, mode: AddressingMode::ZeroPageX, cycles: 6 },
        0x18 => Opcode { instruction: Instruction::CLC, mode: AddressingMode::Implied, cycles: 2 },
        0x19 => Opcode { instruction: Instruction::ORA, mode: AddressingMode::AbsoluteY, cycles: 4 },
        0x1D => Opcode { instruction: Instruction::ORA, mode: AddressingMode::AbsoluteX, cycles: 4 },
        0x1E => Opcode { instruction: Instruction::ASL, mode: AddressingMode::AbsoluteX, cycles: 7 },
        0x20 => Opcode { instruction: Instruction::JSR, mode: AddressingMode::Absolute, cycles: 6 },
        0x21 => Opcode { instruction: Instruction::AND, mode: AddressingMode::IndirectX, cycles: 6 },
        0x24 => Opcode { instruction: Instruction::BIT, mode: AddressingMode::ZeroPage, cycles: 3 },
        0x25 => Opcode { instruction: Instruction::AND, mode: AddressingMode::ZeroPage, cycles: 3 },
        0x26 => Opcode { instruction: Instruction::ROL, mode: AddressingMode::ZeroPage, cycles: 5 },
        0x28 => Opcode { instruction: Instruction::PLP, mode: AddressingMode::Implied, cycles: 4 },
        0x29 => Opcode { instruction: Instruction::AND, mode: AddressingMode::Immediate, cycles: 2 },
        0x2A => Opcode { instruction: Instruction::ROL, mode: AddressingMode::Accumulator, cycles: 2 },
        0x2C => Opcode { instruction: Instruction::BIT, mode: AddressingMode::Absolute, cycles: 4 },
        0x2D => Opcode { instruction: Instruction::AND, mode: AddressingMode::Absolute, cycles: 4 },
        0x2E => Opcode { instruction: Instruction::ROL, mode: AddressingMode::Absolute, cycles: 6 },
        0x30 => Opcode { instruction: Instruction::BMI, mode: AddressingMode::Relative, cycles: 2 },
        0x31 => Opcode { instruction: Instruction::AND, mode: AddressingMode::IndirectY, cycles: 5 },
        0x35 => Opcode { instruction: Instruction::AND, mode: AddressingMode::ZeroPageX, cycles: 4 },
        0x36 => Opcode { instruction: Instruction::ROL, mode: AddressingMode::ZeroPageX, cycles: 6 },
        0x38 => Opcode { instruction: Instruction::SEC, mode: AddressingMode::Implied, cycles: 2 },
        0x39 => Opcode { instruction: Instruction::AND, mode: AddressingMode::AbsoluteY, cycles: 4 },
        0x3D => Opcode { instruction: Instruction::AND, mode: AddressingMode::AbsoluteX, cycles: 4 },
        0x3E => Opcode { instruction: Instruction::ROL, mode: AddressingMode::AbsoluteX, cycles: 7 },
        0x40 => Opcode { instruction: Instruction::RTI, mode: AddressingMode::Implied, cycles: 6 },
        0x41 => Opcode { instruction: Instruction::EOR, mode: AddressingMode::IndirectX, cycles: 6 },
        0x45 => Opcode { instruction: Instruction::EOR, mode: AddressingMode::ZeroPage, cycles: 3 },
        0x46 => Opcode { instruction: Instruction::LSR, mode: AddressingMode::ZeroPage, cycles: 5 },
        0x48 => Opcode { instruction: Instruction::PHA, mode: AddressingMode::Implied, cycles: 3 },
        0x49 => Opcode { instruction: Instruction::EOR, mode: AddressingMode::Immediate, cycles: 2 },
        0x4A => Opcode { instruction: Instruction::LSR, mode: AddressingMode::Accumulator, cycles: 2 },
        0x4C => Opcode { instruction: Instruction::JMP, mode: AddressingMode::Absolute, cycles: 3 },
        0x4D => Opcode { instruction: Instruction::EOR, mode: AddressingMode::Absolute, cycles: 4 },
        0x4E => Opcode { instruction: Instruction::LSR, mode: AddressingMode::Absolute, cycles: 6 },
        0x50 => Opcode { instruction: Instruction::BVC, mode: AddressingMode::Relative, cycles: 2 },
        0x51 => Opcode { instruction: Instruction::EOR, mode: AddressingMode::IndirectY, cycles: 5 },
        0x55 => Opcode { instruction: Instruction::EOR, mode: AddressingMode::ZeroPageX, cycles: 4 },
        0x56 => Opcode { instruction: Instruction::LSR, mode: AddressingMode::ZeroPageX, cycles: 6 },
        0x58 => Opcode { instruction: Instruction::CLI, mode: AddressingMode::Implied, cycles: 2 },
        0x59 => Opcode { instruction: Instruction::EOR, mode: AddressingMode::AbsoluteY, cycles: 4 },
        0x5D => Opcode { instruction: Instruction::EOR, mode: AddressingMode::AbsoluteX, cycles: 4 },
        0x5E => Opcode { instruction: Instruction::LSR, mode: AddressingMode::AbsoluteX, cycles: 7 },
        0x60 => Opcode { instruction: Instruction::RTS, mode: AddressingMode::Implied, cycles: 6 },
        0x61 => Opcode { instruction: Instruction::ADC, mode: AddressingMode::IndirectX, cycles: 6 },
        0x65 => Opcode { instruction: Instruction::ADC, mode: AddressingMode::ZeroPage, cycles: 3 },
        0x66 => Opcode { instruction: Instruction::ROR, mode: AddressingMode::ZeroPage, cycles: 5 },
        0x68 => Opcode { instruction: Instruction::PLA, mode: AddressingMode::Implied, cycles: 4 },
        0x69 => Opcode { instruction: Instruction::ADC, mode: AddressingMode::Immediate, cycles: 2 },
        0x6A => Opcode { instruction: Instruction::ROR, mode: AddressingMode::Accumulator, cycles: 2 },
        0x6C => Opcode { instruction: Instruction::JMP, mode: AddressingMode::Indirect, cycles: 5 },
        0x6D => Opcode { instruction: Instruction::ADC, mode: AddressingMode::Absolute, cycles: 4 },
        0x6E => Opcode { instruction: Instruction::ROR, mode: AddressingMode::Absolute, cycles: 6 },
        0x70 => Opcode { instruction: Instruction::BVS, mode: AddressingMode::Relative, cycles: 2 },
        0x71 => Opcode { instruction: Instruction::ADC, mode: AddressingMode::IndirectY, cycles: 5 },
        0x75 => Opcode { instruction: Instruction::ADC, mode: AddressingMode::ZeroPageX, cycles: 4 },
        0x76 => Opcode { instruction: Instruction::ROR, mode: AddressingMode::ZeroPageX, cycles: 6 },
        0x78 => Opcode { instruction: Instruction::SEI, mode: AddressingMode::Implied, cycles: 2 },
        0x79 => Opcode { instruction: Instruction::ADC, mode: AddressingMode::AbsoluteY, cycles: 4 },
        0x7D => Opcode { instruction: Instruction::ADC, mode: AddressingMode::AbsoluteX, cycles: 4 },
        0x7E => Opcode { instruction: Instruction::ROR, mode: AddressingMode::AbsoluteX, cycles: 7 },
        0x81 => Opcode { instruction: Instruction::STA, mode: AddressingMode::IndirectX, cycles: 6 },
        0x84 => Opcode { instruction: Instruction::STY, mode: AddressingMode::ZeroPage, cycles: 3 },
        0x85 => Opcode { instruction: Instruction::STA, mode: AddressingMode::ZeroPage, cycles: 3 },
        0x86 => Opcode { instruction: Instruction::STX, mode: AddressingMode::ZeroPage, cycles: 3 },
        0x88 => Opcode { instruction: Instruction::DEY, mode: AddressingMode::Implied, cycles: 2 },
        0x8A => Opcode { instruction: Instruction::TXA, mode: AddressingMode::Implied, cycles: 2 },
        0x8C => Opcode { instruction: Instruction::STY, mode: AddressingMode::Absolute, cycles: 4 },
        0x8D => Opcode { instruction: Instruction::STA, mode: AddressingMode::Absolute, cycles: 4 },
        0x8E => Opcode { instruction: Instruction::STX, mode: AddressingMode::Absolute, cycles: 4 },
        0x90 => Opcode { instruction: Instruction::BCC, mode: AddressingMode::Relative, cycles: 2 },
        0x91 => Opcode { instruction: Instruction::STA, mode: AddressingMode::IndirectY, cycles: 6 },
        0x94 => Opcode { instruction: Instruction::STY, mode: AddressingMode::ZeroPageX, cycles: 4 },
        0x95 => Opcode { instruction: Instruction::STA, mode: AddressingMode::ZeroPageX, cycles: 4 },
        0x96 => Opcode { instruction: Instruction::STX, mode: AddressingMode::ZeroPageY, cycles: 4 },
        0x98 => Opcode { instruction: Instruction::TYA, mode: AddressingMode::Implied, cycles: 2 },
        0x99 => Opcode { instruction: Instruction::STA, mode: AddressingMode::AbsoluteY, cycles: 5 },
        0x9A => Opcode { instruction: Instruction::TXS, mode: AddressingMode::Implied, cycles: 2 },
        0x9D => Opcode { instruction: Instruction::STA, mode: AddressingMode::AbsoluteX, cycles: 5 },
        0xA0 => Opcode { instruction: Instruction::LDY, mode: AddressingMode::Immediate, cycles: 2 },
        0xA1 => Opcode { instruction: Instruction::LDA, mode: AddressingMode::IndirectX, cycles: 6 },
        0xA2 => Opcode { instruction: Instruction::LDX, mode: AddressingMode::Immediate, cycles: 2 },
        0xA4 => Opcode { instruction: Instruction::LDY, mode: AddressingMode::ZeroPage, cycles: 3 },
        0xA5 => Opcode { instruction: Instruction::LDA, mode: AddressingMode::ZeroPage, cycles: 3 },
        0xA6 => Opcode { instruction: Instruction::LDX, mode: AddressingMode::ZeroPage, cycles: 3 },
        0xA8 => Opcode { instruction: Instruction::TAY, mode: AddressingMode::Implied, cycles: 2 },
        0xA9 => Opcode { instruction: Instruction::LDA, mode: AddressingMode::Immediate, cycles: 2 },
        0xAA => Opcode { instruction: Instruction::TAX, mode: AddressingMode::Implied, cycles: 2 },
        0xAC => Opcode { instruction: Instruction::LDY, mode: AddressingMode::Absolute, cycles: 4 },
        0xAD => Opcode { instruction: Instruction::LDA, mode: AddressingMode::Absolute, cycles: 4 },
        0xAE => Opcode { instruction: Instruction::LDX, mode: AddressingMode::Absolute, cycles: 4 },
        0xB0 => Opcode { instruction: Instruction::BCS, mode: AddressingMode::Relative, cycles: 2 },
        0xB1 => Opcode { instruction: Instruction::LDA, mode: AddressingMode::IndirectY, cycles: 5 },
        0xB4 => Opcode { instruction: Instruction::LDY, mode: AddressingMode::ZeroPageX, cycles: 4 },
        0xB5 => Opcode { instruction: Instruction::LDA, mode: AddressingMode::ZeroPageX, cycles: 4 },
        0xB6 => Opcode { instruction: Instruction::LDX, mode: AddressingMode::ZeroPageY, cycles: 4 },
        0xB8 => Opcode { instruction: Instruction::CLV, mode: AddressingMode::Implied, cycles: 2 },
        0xB9 => Opcode { instruction: Instruction::LDA, mode: AddressingMode::AbsoluteY, cycles: 4 },
        0xBA => Opcode { instruction: Instruction::TSX, mode: AddressingMode::Implied, cycles: 2 },
        0xBC => Opcode { instruction: Instruction::LDY, mode: AddressingMode::AbsoluteX, cycles: 4 },
        0xBD => Opcode { instruction: Instruction::LDA, mode: AddressingMode::AbsoluteX, cycles: 4 },
        0xBE => Opcode { instruction: Instruction::LDX, mode: AddressingMode::AbsoluteY, cycles: 4 },
        0xC0 => Opcode { instruction: Instruction::CPY, mode: AddressingMode::Immediate, cycles: 2 },
        0xC1 => Opcode { instruction: Instruction::CMP, mode: AddressingMode::IndirectX, cycles: 6 },
        0xC4 => Opcode { instruction: Instruction::CPY, mode: AddressingMode::ZeroPage, cycles: 3 },
        0xC5 => Opcode { instruction: Instruction::CMP, mode: AddressingMode::ZeroPage, cycles: 3 },
        0xC6 => Opcode { instruction: Instruction::DEC, mode: AddressingMode::ZeroPage, cycles: 5 },
        0xC8 => Opcode { instruction: Instruction::INY, mode: AddressingMode::Implied, cycles: 2 },
        0xC9 => Opcode { instruction: Instruction::CMP, mode: AddressingMode::Immediate, cycles: 2 },
        0xCA => Opcode { instruction: Instruction::DEX, mode: AddressingMode::Implied, cycles: 2 },
        0xCC => Opcode { instruction: Instruction::CPY, mode: AddressingMode::Absolute, cycles: 4 },
        0xCD => Opcode { instruction: Instruction::CMP, mode: AddressingMode::Absolute, cycles: 4 },
        0xCE => Opcode { instruction: Instruction::DEC, mode: AddressingMode::Absolute, cycles: 6 },
        0xD0 => Opcode { instruction: Instruction::BNE, mode: AddressingMode::Relative, cycles: 2 },
        0xD1 => Opcode { instruction: Instruction::CMP, mode: AddressingMode::IndirectY, cycles: 5 },
        0xD5 => Opcode { instruction: Instruction::CMP, mode: AddressingMode::ZeroPageX, cycles: 4 },
        0xD6 => Opcode { instruction: Instruction::DEC, mode: AddressingMode::ZeroPageX, cycles: 6 },
        0xD8 => Opcode { instruction: Instruction::CLD, mode: AddressingMode::Implied, cycles: 2 },
        0xD9 => Opcode { instruction: Instruction::CMP, mode: AddressingMode::AbsoluteY, cycles: 4 },
        0xDD => Opcode { instruction: Instruction::CMP, mode: AddressingMode::AbsoluteX, cycles: 4 },
        0xDE => Opcode { instruction: Instruction::DEC, mode: AddressingMode::AbsoluteX, cycles: 7 },
        0xE0 => Opcode { instruction: Instruction::CPX, mode: AddressingMode::Immediate, cycles: 2 },
        0xE1 => Opcode { instruction: Instruction::SBC, mode: AddressingMode::IndirectX, cycles: 6 },
        0xE4 => Opcode { instruction: Instruction::CPX, mode: AddressingMode::ZeroPage, cycles: 3 },
        0xE5 => Opcode { instruction: Instruction::SBC, mode: AddressingMode::ZeroPage, cycles: 3 },
        0xE6 => Opcode { instruction: Instruction::INC, mode: AddressingMode::ZeroPage, cycles: 5 },
        0xE8 => Opcode { instruction: Instruction::INX, mode: AddressingMode::Implied, cycles: 2 },
        0xE9 => Opcode { instruction: Instruction::SBC, mode: AddressingMode::Immediate, cycles: 2 },
        0xEA => Opcode { instruction: Instruction::NOP, mode: AddressingMode::Implied, cycles: 2 },
        0xEC => Opcode { instruction: Instruction::CPX, mode: AddressingMode::Absolute, cycles: 4 },
        0xED => Opcode { instruction: Instruction::SBC, mode: AddressingMode::Absolute, cycles: 4 },
        0xEE => Opcode { instruction: Instruction::INC, mode: AddressingMode::Absolute, cycles: 6 },
        0xF0 => Opcode { instruction: Instruction::BEQ, mode: AddressingMode::Relative, cycles: 2 },
        0xF1 => Opcode { instruction: Instruction::SBC, mode: AddressingMode::IndirectY, cycles: 5 },
        0xF5 => Opcode { instruction: Instruction::SBC, mode: AddressingMode::ZeroPageX, cycles: 4 },
        0xF6 => Opcode { instruction: Instruction::INC, mode: AddressingMode::ZeroPageX, cycles: 6 },
        0xF8 => Opcode { instruction: Instruction::SED, mode: AddressingMode::Implied, cycles: 2 },
        0xF9 => Opcode { instruction: Instruction::SBC, mode: AddressingMode::AbsoluteY, cycles: 4 },
        0xFD => Opcode { instruction: Instruction::SBC, mode: AddressingMode::AbsoluteX, cycles: 4 },
        0xFE => Opcode { instruction: Instruction::INC, mode: AddressingMode::AbsoluteX, cycles: 7 },
        _ => Opcode::default(),
    }
}

/// The full table, indexed by opcode byte.
pub fn opcode_table() -> (table: Vec<Opcode>)
    ensures
        table@.len() == 256,
        forall|i: int| 0 <= i < 256 ==> table@[i] == opcode_spec(i as u8),
{
    let mut table: Vec<Opcode> = Vec::new();
    let mut op: usize = 0;
    while op < 256
        invariant
            op <= 256,
            table@.len() == op,
            forall|i: int| 0 <= i < op ==> table@[i] == opcode_spec(i as u8),
        decreases 256 - op,
    {
        table.push(decode_opcode(op as u8));
        op = op + 1;
    }
    table
}

/// Every assigned opcode is an official instruction, only the shifts and
/// rotates use accumulator addressing, base costs stay within 2..=7 cycles,
/// and the unassigned ones decode to HLT.
pub proof fn lemma_opcode_table_shape(opcode: u8)
    ensures
        opcode_spec(opcode).instruction.is_official() || opcode_spec(opcode).instruction is HLT,
        opcode_spec(opcode).mode is Accumulator ==> opcode_spec(
            opcode,
        ).instruction.accepts_accumulator(),
        2 <= opcode_spec(opcode).cycles <= 7,
{
}

/// An opcode entry from its instruction, addressing mode and base cycles.
pub open spec fn entry(instruction: Instruction, mode: AddressingMode, cycles: u8) -> Opcode {
    Opcode { instruction, mode, cycles }
}

/// The ALU column of the 6502 map (opcode bits 1-0 = 01): bits 7-5 pick the
/// operation.
pub open spec fn alu_operation(aaa: int) -> Instruction {
    if aaa == 0 {
        Instruction::ORA
    } else if aaa == 1 {
        Instruction::AND
    } else if aaa == 2 {
        Instruction::EOR
    } else if aaa == 3 {
        Instruction::ADC
    } else if aaa == 4 {
        Instruction::STA
    } else if aaa == 5 {
        Instruction::LDA
    } else if aaa == 6 {
        Instruction::CMP
    } else {
        Instruction::SBC
    }
}

/// The ALU column: bits 4-2 pick the addressing mode.
pub open spec fn alu_mode(bbb: int) -> AddressingMode {
    if bbb == 0 {
        AddressingMode::IndirectX
    } else if bbb == 1 {
        AddressingMode::ZeroPage
    } else if bbb == 2 {
        AddressingMode::Immediate
    } else if bbb == 3 {
        AddressingMode::Absolute
    } else if bbb == 4 {
        AddressingMode::IndirectY
    } else if bbb == 5 {
        AddressingMode::ZeroPageX
    } else if bbb == 6 {
        AddressingMode::AbsoluteY
    } else {
        AddressingMode::AbsoluteX
    }
}

/// The base cost of an ALU-column instruction: set by the addressing mode,
/// with stores paying the indexed modes' extra cycle up front.
pub open spec fn alu_cycles(store: bool, bbb: int) -> u8 {
    if bbb == 0 {
        6
    } else if bbb == 1 {
        3
    } else if bbb == 2 {
        2
    } else if bbb == 3 {
        4
    } else if bbb == 4 {
        if store {
            6
        } else {
            5
        }
    } else if bbb == 5 {
        4
    } else if store {
        5
    } else {
        4
    }
}

/// The 6502 opcode map, ALU column (bits 1-0 = 01): bits 7-5 choose ORA,
/// AND, EOR, ADC, STA, LDA, CMP or SBC and bits 4-2 choose (zp,X), zp, #imm,
/// abs, (zp),Y, zp,X, abs,Y or abs,X. Every such byte is an instruction
/// except STA #imm ($89).
pub proof fn lemma_opcode_map_alu_column(opcode: u8)
    requires
        opcode % 4 == 1,
    ensures
        opcode == 0x89 ==> opcode_spec(opcode) == unassigned_opcode(),
        opcode != 0x89 ==> opcode_spec(opcode) == entry(
            alu_operation((opcode / 32) as int),
            alu_mode(((opcode / 4) % 8) as int),
            alu_cycles(opcode / 32 == 4, ((opcode / 4) % 8) as int),
        ),
{
}

/// The read-modify-write column (bits 1-0 = 10): bits 7-5 pick the
/// operation.
pub open spec fn rmw_operation(aaa: int) -> Instruction {
    if aaa == 0 {
        Instruction::ASL
    } else if aaa == 1 {
        Instruction::ROL
    } else if aaa == 2 {
        Instruction::LSR
    } else if aaa == 3 {
        Instruction::ROR
    } else if aaa == 4 {
        Instruction::STX
    } else if aaa == 5 {
        Instruction::LDX
    } else if aaa == 6 {
        Instruction::DEC
    } else {
        Instruction::INC
    }
}

/// The 6502 opcode map, read-modify-write column (bits 1-0 = 10): bits 7-5
/// choose ASL, ROL, LSR, ROR, STX, LDX, DEC or INC. On zp and abs all eight
/// exist; shifts, rotates, DEC and INC also take zp,X and abs,X, where STX and
/// LDX index by Y instead (LDX abs,Y; no STX abs,Y); the shifts and rotates
/// act on A in column 2, where the others are TXA, TAX, DEX and NOP; LDX
/// alone has #imm, and TXS and TSX sit in column 6.
pub proof fn lemma_opcode_map_rmw_column(opcode: u8)
    requires
        opcode % 4 == 2,
    ensures
        ({
            let aaa = (opcode / 32) as int;
            let bbb = ((opcode / 4) % 8) as int;
            let op = rmw_operation(aaa);
            let moves = aaa == 4 || aaa == 5;
            opcode_spec(opcode) == if bbb == 1 {
                entry(
                    op,
                    AddressingMode::ZeroPage,
                    if moves {
                        3
                    } else {
                        5
                    },
                )
            } else if bbb == 3 {
                entry(
                    op,
                    AddressingMode::Absolute,
                    if moves {
                        4
                    } else {
                        6
                    },
                )
            } else if bbb == 5 {
                if moves {
                    entry(op, AddressingMode::ZeroPageY, 4)
                } else {
                    entry(op, AddressingMode::ZeroPageX, 6)
                }
            } else if bbb == 7 {
                if aaa == 4 {
                    unassigned_opcode()
                } else if aaa == 5 {
                    entry(op, AddressingMode::AbsoluteY, 4)
                } else {
                    entry(op, AddressingMode::AbsoluteX, 7)
                }
            } else if bbb == 2 {
                if aaa < 4 {
                    entry(op, AddressingMode::Accumulator, 2)
                } else if aaa == 4 {
                    entry(Instruction::TXA, AddressingMode::Implied, 2)
                } else if aaa == 5 {
                    entry(Instruction::TAX, AddressingMode::Implied, 2)
                } else if aaa == 6 {
                    entry(Instruction::DEX, AddressingMode::Implied, 2)
                } else {
                    entry(Instruction::NOP, AddressingMode::Implied, 2)
                }
            } else if bbb == 0 && aaa == 5 {
                entry(Instruction::LDX, AddressingMode::Immediate, 2)
            } else if bbb == 6 && aaa == 4 {
                entry(Instruction::TXS, AddressingMode::Implied, 2)
            } else if bbb == 6 && aaa == 5 {
                entry(Instruction::TSX, AddressingMode::Implied, 2)
            } else {
                unassigned_opcode()
            }
        }),
{
}

/// Column 4 of the control group: the branches, by bits 7-5.
pub open spec fn branch_instruction(aaa: int) -> Instruction {
    if aaa == 0 {
        Instruction::BPL
    } else if aaa == 1 {
        Instruction::BMI
    } else if aaa == 2 {
        Instruction::BVC
    } else if aaa == 3 {
        Instruction::BVS
    } else if aaa == 4 {
        Instruction::BCC
    } else if aaa == 5 {
        Instruction::BCS
    } else if aaa == 6 {
        Instruction::BNE
    } else {
        Instruction::BEQ
    }
}

/// Column 6 of the control group: the flag instructions and TYA, by bits 7-5.
pub open spec fn flag_instruction(aaa: int) -> Instruction {
    if aaa == 0 {
        Instruction::CLC
    } else if aaa == 1 {
        Instruction::SEC
    } else if aaa == 2 {
        Instruction::CLI
    } else if aaa == 3 {
        Instruction::SEI
    } else if aaa == 4 {
        Instruction::TYA
    } else if aaa == 5 {
        Instruction::CLV
    } else if aaa == 6 {
        Instruction::CLD
    } else {
        Instruction::SED
    }
}

/// Column 2 of the control group: stack and Y/X register instructions.
pub open spec fn stack_column(aaa: int) -> Opcode {
    if aaa == 0 {
        entry(Instruction::PHP, AddressingMode::Implied, 3)
    } else if aaa == 1 {
        entry(Instruction::PLP, AddressingMode::Implied, 4)
    } else if aaa == 2 {
        entry(Instruction::PHA, AddressingMode::Implied, 3)
    } else if aaa == 3 {
        entry(Instruction::PLA, AddressingMode::Implied, 4)
    } else if aaa == 4 {
        entry(Instruction::DEY, AddressingMode::Implied, 2)
    } else if aaa == 5 {
        entry(Instruction::TAY, AddressingMode::Implied, 2)
    } else if aaa == 6 {
        entry(Instruction::INY, AddressingMode::Implied, 2)
    } else {
        entry(Instruction::INX, AddressingMode::Implied, 2)
    }
}

/// The operation of the Y/X load, store and compare rows (bits 7-5 = 4..7)
/// and BIT (bits 7-5 = 1) in columns 0, 1 and 3.
pub open spec fn index_operation(aaa: int) -> Instruction {
    if aaa == 1 {
        Instruction::BIT
    } else if aaa == 4 {
        Instruction::STY
    } else if aaa == 5 {
        Instruction::LDY
    } else if aaa == 6 {
        Instruction::CPY
    } else {
        Instruction::CPX
    }
}

/// The 6502 opcode map, control group (bits 1-0 = 00): column 4 holds the
/// eight branches and column 6 the flag instructions and TYA, column 2 the
/// stack and Y/X increments; BRK, JSR, RTI and RTS open the first rows of
/// column 0, where LDY, CPY and CPX take #imm; BIT, STY, LDY, CPY and CPX
/// take zp (column 1) and abs (column 3), where rows 2 and 3 are JMP abs and
/// JMP (ind); STY and LDY take zp,X, and LDY abs,X.
pub proof fn lemma_opcode_map_control_column(opcode: u8)
    requires
        opcode % 4 == 0,
    ensures
        ({
            let aaa = (opcode / 32) as int;
            let bbb = ((opcode / 4) % 8) as int;
            let indexed = aaa == 1 || aaa >= 4;
            opcode_spec(opcode) == if bbb == 4 {
                entry(branch_instruction(aaa), AddressingMode::Relative, 2)
            } else if bbb == 6 {
                entry(flag_instruction(aaa), AddressingMode::Implied, 2)
            } else if bbb == 2 {
                stack_column(aaa)
            } else if bbb == 0 {
                if aaa == 0 {
                    entry(Instruction::BRK, AddressingMode::Implied, 7)
                } else if aaa == 1 {
                    entry(Instruction::JSR, AddressingMode::Absolute, 6)
                } else if aaa == 2 {
                    entry(Instruction::RTI, AddressingMode::Implied, 6)
                } else if aaa == 3 {
                    entry(Instruction::RTS, AddressingMode::Implied, 6)
                } else if aaa >= 5 {
                    entry(index_operation(aaa), AddressingMode::Immediate, 2)
                } else {
                    unassigned_opcode()
                }
            } else if bbb == 1 && indexed {
                entry(index_operation(aaa), AddressingMode::ZeroPage, 3)
            } else if bbb == 3 && aaa == 2 {
                entry(Instruction::JMP, AddressingMode::Absolute, 3)
            } else if bbb == 3 && aaa == 3 {
                entry(Instruction::JMP, AddressingMode::Indirect, 5)
            } else if bbb == 3 && indexed {
                entry(index_operation(aaa), AddressingMode::Absolute, 4)
            } else if bbb == 5 && (aaa == 4 || aaa == 5) {
                entry(index_operation(aaa), AddressingMode::ZeroPageX, 4)
            } else if bbb == 7 && aaa == 5 {
                entry(Instruction::LDY, AddressingMode::AbsoluteX, 4)
            } else {
                unassigned_opcode()
            }
        }),
{
}

/// The 6502 opcode map has no official instruction with bits 1-0 = 11.
pub proof fn lemma_opcode_map_column_three(opcode: u8)
    requires
        opcode % 4 == 3,
    ensures
        opcode_spec(opcode) == unassigned_opcode(),
{
}

} // verus!
