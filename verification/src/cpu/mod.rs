//! The MOS 6502 core of the Ricoh 2A03.

pub mod addressing;
pub mod flags;
pub mod instructions;
pub mod opcodes;

use vstd::prelude::*;

use crate::bus::{MemoryModel, add16, add8, sub8, CpuMemory};
use crate::cpu::addressing::Operand;
use crate::cpu::flags::{status_with, ZERO, NEGATIVE, RESET_STATUS};
use crate::cpu::instructions::{is_official, Instruction};
use crate::cpu::opcodes::{decode_opcode, opcode_spec};

verus! {

/// Models the MOS 6502.
pub struct Cpu {
    /// Accumulator register.
    pub a: u8,
    /// X register.
    pub x: u8,
    /// Y register.
    pub y: u8,
    /// Program counter.
    pub pc: u16,
    /// Stack pointer (offset into page $01 of the bus).
    pub sp: u8,
    /// Status register.
    pub status: u8,
    /// Number of clock cycles remaining for the instruction being executed.
    pub cycles: u8,
    /// Number of clock cycles since power-on.
    pub total_cycles: u64,
}

/// The 16-bit value made of a low and a high byte.
pub open spec fn word(lo: u8, hi: u8) -> u16 {
    (hi * 0x100 + lo) as u16
}

/// The address of stack slot `sp` (page $01).
pub open spec fn stack_address(sp: u8) -> u16 {
    (0x0100 + sp) as u16
}

/// Combines a low and a high byte into a 16-bit value.
pub fn make_word(lo: u8, hi: u8) -> (w: u16)
    ensures
        w == word(lo, hi),
{
    (hi as u16) * 0x100 + (lo as u16)
}

/// The power-on CPU state.
pub open spec fn power_on_cpu() -> Cpu {
    Cpu {
        a: 0,
        x: 0,
        y: 0,
        pc: 0,
        sp: 0xFD,
        status: RESET_STATUS,
        cycles: 0,
        total_cycles: 0,
    }
}

impl Default for Cpu {
    fn default() -> (cpu: Cpu)
        ensures
            cpu == power_on_cpu(),
    {
        Cpu {
            a: 0,
            x: 0,
            y: 0,
            pc: 0,
            sp: 0xFD,
            status: RESET_STATUS,
            cycles: 0,
            total_cycles: 0,
        }
    }
}

impl Cpu {
    /// `status` after an instruction produced `result`: Z is set when the result
    /// is zero and N copies its bit 7.
    pub open spec fn zn(status: u8, result: u8) -> u8 {
        status_with(status_with(status, ZERO, result == 0), NEGATIVE, result >= 0x80)
    }

    /// This CPU with Z and N set from `result`.
    pub open spec fn with_zn(self, result: u8) -> Cpu {
        Cpu { status: Self::zn(self.status, result), ..self }
    }

    /// Pushing `value`: it is written at the current stack slot, then SP moves down.
    pub open spec fn spec_push<M: MemoryModel>(self, bus: M, value: u8) -> (Cpu, M) {
        (Cpu { sp: sub8(self.sp, 1), ..self }, bus.write_spec(stack_address(self.sp), value))
    }

    /// Pulling a byte: SP moves up, then the byte at the new slot is read.
    pub open spec fn spec_pull<M: MemoryModel>(self, bus: M) -> (Cpu, M, u8) {
        let sp = add8(self.sp, 1);
        let (value, bus2) = bus.read_spec(stack_address(sp));
        (Cpu { sp: sp, ..self }, bus2, value)
    }

    /// A conditional branch: when `condition` holds the PC moves to the operand's
    /// address, costing one extra cycle, or two when the target is on another page.
    pub open spec fn spec_branch(self, condition: bool, operand: Operand) -> (Cpu, u8) {
        if !condition {
            (self, 0)
        } else {
            let target = operand->address;
            (Cpu { pc: target, ..self }, if self.pc / 0x100 != target / 0x100 {
                2
            } else {
                1
            })
        }
    }

    /// Decoding `opcode`, resolving its operand and executing it: the CPU, the
    /// bus, and the number of cycles the instruction takes in total.
    pub open spec fn spec_execute<M: MemoryModel>(self, opcode: u8, bus: M) -> (Cpu, M, u8) {
        let info = opcode_spec(opcode);
        let (cpu1, bus1, operand) = self.spec_resolve(info.mode, bus);
        let (cpu2, bus2, extra) = cpu1.spec_instruction(info.instruction, operand, bus1);
        (cpu2, bus2, (info.cycles + extra) as u8)
    }

    /// One CPU clock: at an instruction boundary (no cycles left) the next opcode
    /// is fetched and executed and its cost becomes the cycle count; then one
    /// cycle is spent.
    pub open spec fn spec_clock<M: MemoryModel>(self, bus: M) -> (Cpu, M) {
        let (cpu1, bus1) = if self.cycles == 0 {
            let (opcode, bus_fetched) = bus.read_spec(self.pc);
            let (cpu2, bus2, cycles) = Cpu { pc: add16(self.pc, 1), ..self }.spec_execute(
                opcode,
                bus_fetched,
            );
            (Cpu { cycles: cycles, ..cpu2 }, bus2)
        } else {
            (self, bus)
        };
        (
            Cpu {
                cycles: sub8(cpu1.cycles, 1),
                total_cycles: if cpu1.total_cycles == u64::MAX {
                    0
                } else {
                    (cpu1.total_cycles + 1) as u64
                },
                ..cpu1
            },
            bus1,
        )
    }

    /// Whether the next clock is defined: either an instruction is still in
    /// progress, or the byte at the PC is an official opcode.
    pub open spec fn can_clock<M: MemoryModel>(self, bus: M) -> bool {
        self.cycles != 0 || opcode_spec(bus.read_spec(self.pc).0).instruction.is_official()
    }

    pub fn new() -> (cpu: Cpu)
        ensures
            cpu == power_on_cpu(),
    {
        Self::default()
    }

    /// Forces the CPU into the state it would have after a reset. The program
    /// counter is loaded from the reset vector at $FFFC/$FFFD, which lets a
    /// cartridge tell the CPU where to start executing.
    pub fn reset<B: CpuMemory>(&mut self, bus: &B)
        ensures
            *final(self) == (Cpu {
                pc: word(bus.model().peek_spec(0xFFFC), bus.model().peek_spec(0xFFFD)),
                sp: 0xFD,
                status: RESET_STATUS,
                cycles: 7,
                ..*old(self)
            }),
    {
        let lo = bus.peek(0xFFFC);
        let hi = bus.peek(0xFFFD);
        self.pc = make_word(lo, hi);
        self.sp = 0xFD;
        self.status = RESET_STATUS;
        self.cycles = 7;
    }

    /// Pushes a byte onto the stack and then decrements the stack pointer.
    pub fn push_byte<B: CpuMemory>(&mut self, bus: &mut B, value: u8)
        ensures
            (*final(self), final(bus).model()) == old(self).spec_push(old(bus).model(), value),
    {
        bus.write(0x0100 + self.sp as u16, value);
        self.sp = self.sp.wrapping_sub(1);
    }

    /// Pulls a byte off the stack: the stack pointer is incremented first, then
    /// the byte is read.
    pub fn pull_byte<B: CpuMemory>(&mut self, bus: &mut B) -> (r: u8)
        ensures
            (*final(self), final(bus).model(), r) == old(self).spec_pull(old(bus).model()),
    {
        self.sp = self.sp.wrapping_add(1);
        bus.read(0x0100 + self.sp as u16)
    }

    /// Shared body of the eight conditional branches. When `condition` is false
    /// nothing happens; otherwise the PC jumps to the operand's address and the
    /// result is 1 extra cycle, or 2 when the jump crosses a page.
    pub fn branch_if(&mut self, condition: bool, operand: Operand) -> (extra: u8)
        requires
            condition ==> operand is Address,
        ensures
            (*final(self), extra) == old(self).spec_branch(condition, operand),
    {
        if !condition {
            return 0;
        }
        let (address, _) = operand.expect_address();
        let old_pc = self.pc;
        self.pc = address;
        if crate::cpu::addressing::page_crossed(old_pc, address) {
            2
        } else {
            1
        }
    }

    /// Executes one instruction: decodes `opcode`, resolves its operand (the PC
    /// already points past the opcode) and runs it. Returns the total number of
    /// cycles the instruction takes, page-crossing and branch penalties included.
    pub fn execute<B: CpuMemory>(&mut self, opcode: u8, bus: &mut B) -> (cycles: u8)
        requires
            opcode_spec(opcode).instruction.is_official(),
        ensures
            (*final(self), final(bus).model(), cycles) == old(self).spec_execute(opcode, old(bus).model()),
    {
        let info = decode_opcode(opcode);
        proof {
            crate::cpu::opcodes::lemma_opcode_table_shape(opcode);
        }
        let operand = self.resolve_address(info.mode, bus);
        let extra = match info.instruction {
            Instruction::ADC => self.adc(operand, bus),
            Instruction::AND => self.and(operand, bus),
            Instruction::ASL => self.asl(operand, bus),
            Instruction::BCC => self.bcc(operand, bus),
            Instruction::BCS => self.bcs(operand, bus),
            Instruction::BEQ => self.beq(operand, bus),
            Instruction::BIT => self.bit(operand, bus),
            Instruction::BMI => self.bmi(operand, bus),
            Instruction::BNE => self.bne(operand, bus),
            Instruction::BPL => self.bpl(operand, bus),
            Instruction::BRK => self.brk(operand, bus),
            Instruction::BVC => self.bvc(operand, bus),
            Instruction::BVS => self.bvs(operand, bus),
            Instruction::CLC => self.clc(operand, bus),
            Instruction::CLD => self.cld(operand, bus),
            Instruction::CLI => self.cli(operand, bus),
            Instruction::CLV => self.clv(operand, bus),
            Instruction::CMP => self.cmp(operand, bus),
            Instruction::CPX => self.cpx(operand, bus),
            Instruction::CPY => self.cpy(operand, bus),
            Instruction::DEC => self.dec(operand, bus),
            Instruction::DEX => self.dex(operand, bus),
            Instruction::DEY => self.dey(operand, bus),
            Instruction::EOR => self.eor(operand, bus),
            Instruction::INC => self.inc(operand, bus),
            Instruction::INX => self.inx(operand, bus),
            Instruction::INY => self.iny(operand, bus),
            Instruction::JMP => self.jmp(operand, bus),
            Instruction::JSR => self.jsr(operand, bus),
            Instruction::LDA => self.lda(operand, bus),
            Instruction::LDX => self.ldx(operand, bus),
            Instruction::LDY => self.ldy(operand, bus),
            Instruction::LSR => self.lsr(operand, bus),
            Instruction::NOP => self.nop(operand, bus),
            Instruction::ORA => self.ora(operand, bus),
            Instruction::PHA => self.pha(operand, bus),
            Instruction::PHP => self.php(operand, bus),
            Instruction::PLA => self.pla(operand, bus),
            Instruction::PLP => self.plp(operand, bus),
            Instruction::ROL => self.rol(operand, bus),
            Instruction::ROR => self.ror(operand, bus),
            Instruction::RTI => self.rti(operand, bus),
            Instruction::RTS => self.rts(operand, bus),
            Instruction::SBC => self.sbc(operand, bus),
            Instruction::SEC => self.sec(operand, bus),
            Instruction::SED => self.sed(operand, bus),
            Instruction::SEI => self.sei(operand, bus),
            Instruction::STA => self.sta(operand, bus),
            Instruction::STX => self.stx(operand, bus),
            Instruction::STY => self.sty(operand, bus),
            Instruction::TAX => self.tax(operand, bus),
            Instruction::TAY => self.tay(operand, bus),
            Instruction::TXA => self.txa(operand, bus),
            Instruction::TYA => self.tya(operand, bus),
            Instruction::TSX => self.tsx(operand, bus),
            Instruction::TXS => self.txs(operand, bus),
            _ => 0,
        };
        info.cycles + extra
    }

    /// Advances the CPU by one clock cycle. At an instruction boundary the next
    /// opcode is fetched and executed, and its cycle cost is then counted down
    /// one cycle per clock.
    pub fn clock<B: CpuMemory>(&mut self, bus: &mut B)
        requires
            old(self).can_clock(old(bus).model()),
        ensures
            (*final(self), final(bus).model()) == old(self).spec_clock(old(bus).model()),
    {
        if self.cycles == 0 {
            let opcode = bus.read(self.pc);
            self.pc = self.pc.wrapping_add(1);
            self.cycles = self.execute(opcode, bus);
        }
        self.cycles = self.cycles.wrapping_sub(1);
        self.total_cycles = self.total_cycles.wrapping_add(1);
    }

    /// Whether [`Cpu::clock`] can run: an instruction is in progress, or the byte
    /// at the PC is an official opcode.
    pub fn can_clock_on<B: CpuMemory>(&self, bus: &B) -> (r: bool)
        ensures
            r == self.can_clock(bus.model()),
    {
        if self.cycles != 0 {
            return true;
        }
        let opcode = bus.read_value(self.pc);
        is_official(decode_opcode(opcode).instruction)
    }

    /// Sets Z and N from `result`.
    pub fn update_zn(&mut self, result: u8)
        ensures
            *final(self) == old(self).with_zn(result),
    {
        proof {
            crate::bits::lemma_byte_bits(result);
        }
        crate::cpu::flags::set(&mut self.status, ZERO, result == 0);
        crate::cpu::flags::set(&mut self.status, NEGATIVE, result & 0x80 != 0);
    }

    pub fn pc(&self) -> (r: u16)
        ensures
            r == self.pc,
    {
        self.pc
    }

    pub fn set_pc(&mut self, pc: u16)
        ensures
            *final(self) == (Cpu { pc: pc, ..*old(self) }),
    {
        self.pc = pc;
    }

    pub fn sp(&self) -> (r: u8)
        ensures
            r == self.sp,
    {
        self.sp
    }

    pub fn a(&self) -> (r: u8)
        ensures
            r == self.a,
    {
        self.a
    }

    pub fn x(&self) -> (r: u8)
        ensures
            r == self.x,
    {
        self.x
    }

    pub fn y(&self) -> (r: u8)
        ensures
            r == self.y,
    {
        self.y
    }

    pub fn status(&self) -> (r: u8)
        ensures
            r == self.status,
    {
        self.status
    }

    pub fn cycles(&self) -> (r: u8)
        ensures
            r == self.cycles,
    {
        self.cycles
    }

    pub fn total_cycles(&self) -> (r: u64)
        ensures
            r == self.total_cycles,
    {
        self.total_cycles
    }
}


/// Z and N are recomputed from scratch: setting them from one result and then
/// from another is the same as setting them from the second alone.
pub proof fn lemma_zn_depends_on_result(status: u8, first: u8, second: u8)
    ensures
        Cpu::zn(Cpu::zn(status, first), second) == Cpu::zn(status, second),
{
    let (z1, n1, z2, n2) = (first == 0, first >= 0x80, second == 0, second >= 0x80);
    assert({
        let s1 = if z1 { status | 0x02u8 } else { status & !0x02u8 };
        let s2 = if n1 { s1 | 0x80u8 } else { s1 & !0x80u8 };
        let t1 = if z2 { s2 | 0x02u8 } else { s2 & !0x02u8 };
        let t2 = if n2 { t1 | 0x80u8 } else { t1 & !0x80u8 };
        let u1 = if z2 { status | 0x02u8 } else { status & !0x02u8 };
        let u2 = if n2 { u1 | 0x80u8 } else { u1 & !0x80u8 };
        t2 == u2
    }) by (bit_vector);
}

/// Between instructions the clock only counts: while an instruction's cycles
/// remain, a clock spends one of them and touches nothing else.
pub proof fn lemma_clock_counts_down<M: MemoryModel>(cpu: Cpu, bus: M)
    requires
        cpu.cycles > 0,
        cpu.total_cycles < u64::MAX,
    ensures
        cpu.spec_clock(bus) == (
            Cpu { cycles: (cpu.cycles - 1) as u8, total_cycles: (cpu.total_cycles + 1) as u64, ..cpu },
            bus,
        ),
{
}

} // verus!
