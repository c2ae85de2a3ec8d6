//! The 6502 instruction set.
//!
//! Every instruction is a method on [`Cpu`] that receives the operand found by
//! the addressing mode and the bus, and returns the number of extra cycles the
//! instruction took beyond the base cost in the opcode table.

pub mod access;
pub mod arithmetic;
pub mod bitwise;
pub mod branch;
pub mod compare;
pub mod flags;
pub mod jump;
pub mod other;
pub mod shift;
pub mod stack;
pub mod transfer;
pub mod semantics;

use vstd::prelude::*;

use crate::bus::{CpuMemory, MemoryModel};
use crate::cpu::addressing::Operand;
use crate::cpu::Cpu;

verus! {

#[allow(clippy::upper_case_acronyms)]
#[derive(Default, Copy, Clone, Debug, PartialEq, Eq, Structural)]
pub enum Instruction {
    ADC,
    AND,
    ASL,
    BCC,
    BCS,
    BEQ,
    BIT,
    BMI,
    BNE,
    BPL,
    BRK,
    BVC,
    BVS,
    CLC,
    CLD,
    CLI,
    CLV,
    CMP,
    CPX,
    CPY,
    DEC,
    DEX,
    DEY,
    EOR,
    INC,
    INX,
    INY,
    JMP,
    JSR,
    LDA,
    LDX,
    LDY,
    LSR,
    NOP,
    ORA,
    PHA,
    PHP,
    PLA,
    PLP,
    ROL,
    ROR,
    RTI,
    RTS,
    SBC,
    SEC,
    SED,
    SEI,
    STA,
    STX,
    STY,
    TAX,
    TAY,
    TSX,
    TXA,
    TXS,
    TYA,
    // Unofficial opcodes
    ISB,
    DCP,
    AXS,
    LAS,
    LAX,
    AHX,
    SAX,
    XAA,
    SXA,
    RRA,
    TAS,
    SYA,
    ARR,
    SRE,
    ALR,
    RLA,
    ANC,
    SHAZ,
    ATX,
    SHAA,
    SLO,
    #[default]
    HLT,
}

impl Instruction {
    /// Whether the CPU can execute this instruction (the official instruction set).
    pub open spec fn is_official(self) -> bool {
        !(self is ISB || self is DCP || self is AXS || self is LAS || self is LAX || self is AHX
            || self is SAX || self is XAA || self is SXA || self is RRA || self is TAS || self is SYA
            || self is ARR || self is SRE || self is ALR || self is RLA || self is ANC
            || self is SHAZ || self is ATX || self is SHAA || self is SLO || self is HLT)
    }

    /// Whether the instruction can operate on the accumulator instead of memory.
    pub open spec fn accepts_accumulator(self) -> bool {
        self is ASL || self is LSR || self is ROL || self is ROR
    }

    /// Whether the instruction ignores its operand altogether.
    pub open spec fn ignores_operand(self) -> bool {
        self is BRK || self is CLC || self is CLD || self is CLI || self is CLV || self is DEX
            || self is DEY || self is INX || self is INY || self is NOP || self is PHA
            || self is PHP || self is PLA || self is PLP || self is RTI || self is RTS
            || self is SEC || self is SED || self is SEI || self is TAX || self is TAY
            || self is TSX || self is TXA || self is TXS || self is TYA
    }
}

/// Whether the CPU can execute `instruction` (the official instruction set).
pub fn is_official(instruction: Instruction) -> (r: bool)
    ensures
        r == instruction.is_official(),
{
    !matches!(
        instruction,
        Instruction::ISB | Instruction::DCP | Instruction::AXS | Instruction::LAS | Instruction::LAX
            | Instruction::AHX | Instruction::SAX | Instruction::XAA | Instruction::SXA
            | Instruction::RRA | Instruction::TAS | Instruction::SYA | Instruction::ARR
            | Instruction::SRE | Instruction::ALR | Instruction::RLA | Instruction::ANC
            | Instruction::SHAZ | Instruction::ATX | Instruction::SHAA | Instruction::SLO
            | Instruction::HLT
    )
}

/// The extra cycle a read pays for crossing a page.
pub open spec fn crossing_cost(operand: Operand) -> u8 {
    if operand->page_crossed {
        1
    } else {
        0
    }
}

impl Cpu {
    /// The effect of `instruction` on the CPU and the bus, and the extra cycles it costs.
    pub open spec fn spec_instruction<M: MemoryModel>(
        self,
        instruction: Instruction,
        operand: Operand,
        bus: M,
    ) -> (Cpu, M, u8) {
        match instruction {
            Instruction::ADC => self.spec_adc(operand, bus),
            Instruction::AND => self.spec_and(operand, bus),
            Instruction::ASL => self.spec_asl(operand, bus),
            Instruction::BCC => self.spec_bcc(operand, bus),
            Instruction::BCS => self.spec_bcs(operand, bus),
            Instruction::BEQ => self.spec_beq(operand, bus),
            Instruction::BIT => self.spec_bit(operand, bus),
            Instruction::BMI => self.spec_bmi(operand, bus),
            Instruction::BNE => self.spec_bne(operand, bus),
            Instruction::BPL => self.spec_bpl(operand, bus),
            Instruction::BRK => self.spec_brk(operand, bus),
            Instruction::BVC => self.spec_bvc(operand, bus),
            Instruction::BVS => self.spec_bvs(operand, bus),
            Instruction::CLC => self.spec_clc(operand, bus),
            Instruction::CLD => self.spec_cld(operand, bus),
            Instruction::CLI => self.spec_cli(operand, bus),
            Instruction::CLV => self.spec_clv(operand, bus),
            Instruction::CMP => self.spec_cmp(operand, bus),
            Instruction::CPX => self.spec_cpx(operand, bus),
            Instruction::CPY => self.spec_cpy(operand, bus),
            Instruction::DEC => self.spec_dec(operand, bus),
            Instruction::DEX => self.spec_dex(operand, bus),
            Instruction::DEY => self.spec_dey(operand, bus),
            Instruction::EOR => self.spec_eor(operand, bus),
            Instruction::INC => self.spec_inc(operand, bus),
            Instruction::INX => self.spec_inx(operand, bus),
            Instruction::INY => self.spec_iny(operand, bus),
            Instruction::JMP => self.spec_jmp(operand, bus),
            Instruction::JSR => self.spec_jsr(operand, bus),
            Instruction::LDA => self.spec_lda(operand, bus),
            Instruction::LDX => self.spec_ldx(operand, bus),
            Instruction::LDY => self.spec_ldy(operand, bus),
            Instruction::LSR => self.spec_lsr(operand, bus),
            Instruction::NOP => self.spec_nop(operand, bus),
            Instruction::ORA => self.spec_ora(operand, bus),
            Instruction::PHA => self.spec_pha(operand, bus),
            Instruction::PHP => self.spec_php(operand, bus),
            Instruction::PLA => self.spec_pla(operand, bus),
            Instruction::PLP => self.spec_plp(operand, bus),
            Instruction::ROL => self.spec_rol(operand, bus),
            Instruction::ROR => self.spec_ror(operand, bus),
            Instruction::RTI => self.spec_rti(operand, bus),
            Instruction::RTS => self.spec_rts(operand, bus),
            Instruction::SBC => self.spec_sbc(operand, bus),
            Instruction::SEC => self.spec_sec(operand, bus),
            Instruction::SED => self.spec_sed(operand, bus),
            Instruction::SEI => self.spec_sei(operand, bus),
            Instruction::STA => self.spec_sta(operand, bus),
            Instruction::STX => self.spec_stx(operand, bus),
            Instruction::STY => self.spec_sty(operand, bus),
            Instruction::TAX => self.spec_tax(operand, bus),
            Instruction::TAY => self.spec_tay(operand, bus),
            Instruction::TSX => self.spec_tsx(operand, bus),
            Instruction::TXA => self.spec_txa(operand, bus),
            Instruction::TXS => self.spec_txs(operand, bus),
            Instruction::TYA => self.spec_tya(operand, bus),
            _ => (self, bus, 0),
        }
    }

    /// The value an instruction reads from its address operand, the bus after
    /// the read, and the extra cycle for a page crossing.
    pub open spec fn spec_fetch<M: MemoryModel>(self, operand: Operand, bus: M) -> (u8, M, u8) {
        let (value, bus2) = bus.read_spec(operand->address);
        (value, bus2, crossing_cost(operand))
    }
}

} // verus!
