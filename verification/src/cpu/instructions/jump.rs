//! Jumps, subroutine calls, interrupts and the returns from them.

use vstd::prelude::*;

use crate::bus::{MemoryModel, add16, hi_byte, lo_byte, sub16, CpuMemory};
use crate::cpu::addressing::Operand;
use crate::cpu::flags::{status_with, pushed_byte, pulled_status, interrupt_pushed_byte, to_pushed_byte, to_interrupt_pushed_byte, INTERRUPT_DISABLE, BREAK, UNUSED};
use crate::bus::{add8, sub8};
use crate::cpu::{make_word, stack_address, word, Cpu};

verus! {

/// The address of the NMI vector.
pub const NMI_VECTOR: u16 = 0xFFFA;

/// The address of the IRQ/BRK vector.
pub const IRQ_VECTOR: u16 = 0xFFFE;

impl Cpu {
    /// Pushes a return address, high byte first.
    pub open spec fn spec_push_address<M: MemoryModel>(self, bus: M, address: u16) -> (Cpu, M) {
        let (cpu1, bus1) = self.spec_push(bus, hi_byte(address));
        cpu1.spec_push(bus1, lo_byte(address))
    }

    /// Reads a little-endian vector at `vector` and `vector + 1`.
    pub open spec fn spec_read_vector<M: MemoryModel>(bus: M, vector: u16) -> (u16, M) {
        let (lo, bus1) = bus.read_spec(vector);
        let (hi, bus2) = bus1.read_spec(add16(vector, 1));
        (word(lo, hi), bus2)
    }

    /// Entering an interrupt handler: push PC and `pushed_status`, set I, and
    /// load the PC from `vector`.
    pub open spec fn spec_interrupt<M: MemoryModel>(
        self,
        bus: M,
        pushed_status: u8,
        vector: u16,
    ) -> (Cpu, M) {
        let (cpu1, bus1) = self.spec_push_address(bus, self.pc);
        let (cpu2, bus2) = cpu1.spec_push(bus1, pushed_status);
        let (target, bus3) = Self::spec_read_vector(bus2, vector);
        (
            Cpu { status: status_with(cpu2.status, INTERRUPT_DISABLE, true), pc: target, ..cpu2 },
            bus3,
        )
    }

    pub open spec fn spec_jmp<M: MemoryModel>(self, operand: Operand, bus: M) -> (Cpu, M, u8) {
        (Cpu { pc: operand->address, ..self }, bus, 0)
    }

    /// JSR pushes the address of its own last byte (PC - 1), then jumps.
    pub open spec fn spec_jsr<M: MemoryModel>(self, operand: Operand, bus: M) -> (Cpu, M, u8) {
        let (cpu1, bus1) = self.spec_push_address(bus, sub16(self.pc, 1));
        (Cpu { pc: operand->address, ..cpu1 }, bus1, 0)
    }

    /// RTS pulls the return address, low byte first, and adds one.
    pub open spec fn spec_rts<M: MemoryModel>(self, operand: Operand, bus: M) -> (Cpu, M, u8) {
        let (cpu1, bus1, lo) = self.spec_pull(bus);
        let (cpu2, bus2, hi) = cpu1.spec_pull(bus1);
        (Cpu { pc: add16(word(lo, hi), 1), ..cpu2 }, bus2, 0)
    }

    /// BRK skips its padding byte, then enters the IRQ handler with B set in the
    /// pushed status.
    pub open spec fn spec_brk<M: MemoryModel>(self, operand: Operand, bus: M) -> (Cpu, M, u8) {
        let (cpu1, bus1) = Cpu { pc: add16(self.pc, 1), ..self }.spec_interrupt(
            bus,
            pushed_byte(self.status),
            IRQ_VECTOR,
        );
        (cpu1, bus1, 0)
    }

    /// RTI pulls the status (B dropped, unused bit set), then the PC, low byte first.
    pub open spec fn spec_rti<M: MemoryModel>(self, operand: Operand, bus: M) -> (Cpu, M, u8) {
        let (cpu1, bus1, pulled) = self.spec_pull(bus);
        let (cpu2, bus2, lo) = Cpu { status: pulled_status(pulled), ..cpu1 }.spec_pull(bus1);
        let (cpu3, bus3, hi) = cpu2.spec_pull(bus2);
        (Cpu { pc: word(lo, hi), ..cpu3 }, bus3, 0)
    }

    /// The NMI sequence: push PC and the status with B clear, set I, jump
    /// through $FFFA, and spend seven cycles doing it.
    pub open spec fn spec_nmi<M: MemoryModel>(self, bus: M) -> (Cpu, M) {
        let (cpu1, bus1) = self.spec_interrupt(bus, interrupt_pushed_byte(self.status), NMI_VECTOR);
        (Cpu { cycles: 7, ..cpu1 }, bus1)
    }

    /// Pushes `address` onto the stack, high byte first.
    fn push_address<B: CpuMemory>(&mut self, bus: &mut B, address: u16)
        ensures
            (*final(self), final(bus).model()) == old(self).spec_push_address(old(bus).model(), address),
    {
        proof {
            crate::bits::lemma_word_bits(address);
        }
        self.push_byte(bus, (address >> 8) as u8);
        self.push_byte(bus, (address & 0x00FF) as u8);
    }

    /// Reads a little-endian 16-bit vector.
    fn read_vector<B: CpuMemory>(bus: &mut B, vector: u16) -> (target: u16)
        ensures
            (target, final(bus).model()) == Self::spec_read_vector(old(bus).model(), vector),
    {
        let lo = bus.read(vector);
        let hi = bus.read(vector.wrapping_add(1));
        make_word(lo, hi)
    }

    /// Shared body of BRK and NMI.
    fn interrupt<B: CpuMemory>(&mut self, bus: &mut B, pushed_status: u8, vector: u16)
        ensures
            (*final(self), final(bus).model()) == old(self).spec_interrupt(
                old(bus).model(),
                pushed_status,
                vector,
            ),
    {
        let pc = self.pc;
        self.push_address(bus, pc);
        self.push_byte(bus, pushed_status);
        crate::cpu::flags::set(&mut self.status, INTERRUPT_DISABLE, true);
        self.pc = Self::read_vector(bus, vector);
    }

    /// Jump
    /// PC = memory
    ///
    /// JMP sets the program counter to a new value. The indirect form reads its
    /// target through a pointer and carries the page-wrap bug described on
    /// [`crate::cpu::addressing::AddressingMode::Indirect`].
    pub fn jmp<B: CpuMemory>(&mut self, operand: Operand, bus: &mut B) -> (extra: u8)
        requires
            operand is Address,
        ensures
            (*final(self), final(bus).model(), extra) == old(self).spec_jmp(operand, old(bus).model()),
    {
        let (address, _) = operand.expect_address();
        self.pc = address;
        0
    }

    /// Jump to Subroutine
    /// `push` PC + 2 high byte to stack
    /// `push` PC + 2 low byte to stack
    /// PC = memory
    ///
    /// The return address on the stack points at the last byte of the JSR
    /// instruction, because RTS increments it before the next fetch.
    pub fn jsr<B: CpuMemory>(&mut self, operand: Operand, bus: &mut B) -> (extra: u8)
        requires
            operand is Address,
        ensures
            (*final(self), final(bus).model(), extra) == old(self).spec_jsr(operand, old(bus).model()),
    {
        let return_address = self.pc.wrapping_sub(1);
        self.push_address(bus, return_address);
        let (address, _) = operand.expect_address();
        self.pc = address;
        0
    }

    /// Return from Subroutine
    /// `pull` PC low byte from stack
    /// `pull` PC high byte from stack
    /// PC = PC + 1
    pub fn rts<B: CpuMemory>(&mut self, operand: Operand, bus: &mut B) -> (extra: u8)
        ensures
            (*final(self), final(bus).model(), extra) == old(self).spec_rts(operand, old(bus).model()),
    {
        let lo = self.pull_byte(bus);
        let hi = self.pull_byte(bus);
        self.pc = make_word(lo, hi).wrapping_add(1);
        0
    }

    /// Break (Software IRQ)
    /// `push` PC + 2 high byte to stack
    /// `push` PC + 2 low byte to stack
    /// `push` NV11DIZC flags to stack
    /// PC = ($FFFE)
    ///
    /// BRK pushes the program counter (skipping the byte after the opcode) and
    /// the flags with B set, sets the interrupt disable flag, and jumps to the
    /// IRQ handler. It does so even when interrupts are disabled.
    pub fn brk<B: CpuMemory>(&mut self, operand: Operand, bus: &mut B) -> (extra: u8)
        ensures
            (*final(self), final(bus).model(), extra) == old(self).spec_brk(operand, old(bus).model()),
    {
        let pushed_status = to_pushed_byte(self.status);
        self.pc = self.pc.wrapping_add(1);
        self.interrupt(bus, pushed_status, IRQ_VECTOR);
        0
    }

    /// Return from Interrupt
    /// `pull` NVxxDIZC flags from stack
    /// `pull` PC low byte from stack
    /// `pull` PC high byte from stack
    ///
    /// The status is pulled as PLP does, then the program counter as RTS does
    /// but without the increment.
    pub fn rti<B: CpuMemory>(&mut self, operand: Operand, bus: &mut B) -> (extra: u8)
        ensures
            (*final(self), final(bus).model(), extra) == old(self).spec_rti(operand, old(bus).model()),
    {
        let pulled = self.pull_byte(bus);
        self.status = (pulled & !BREAK) | UNUSED;
        let lo = self.pull_byte(bus);
        let hi = self.pull_byte(bus);
        self.pc = make_word(lo, hi);
        0
    }

    /// Non-maskable interrupt: pushes the program counter and the status with
    /// B clear, sets the interrupt disable flag, loads the PC from $FFFA/$FFFB
    /// and charges the seven cycles the sequence takes.
    pub fn nmi<B: CpuMemory>(&mut self, bus: &mut B)
        ensures
            (*final(self), final(bus).model()) == old(self).spec_nmi(old(bus).model()),
    {
        let pushed_status = to_interrupt_pushed_byte(self.status);
        self.interrupt(bus, pushed_status, NMI_VECTOR);
        self.cycles = 7;
    }
}


/// Two bytes pushed come back off the stack in reverse order, and the stack
/// pointer returns to where it was.
pub proof fn lemma_two_pulls_after_two_pushes<M: MemoryModel>(cpu: Cpu, bus: M, first: u8, second: u8)
    ensures
        ({
            let (c1, b1) = cpu.spec_push(bus, first);
            let (c2, b2) = c1.spec_push(b1, second);
            let (c3, b3, v1) = c2.spec_pull(b2);
            let (c4, b4, v2) = c3.spec_pull(b3);
            &&& v1 == second
            &&& v2 == first
            &&& c4 == cpu
            &&& b4 == b2
        }),
{
    let s0 = stack_address(cpu.sp);
    let s1 = stack_address(sub8(cpu.sp, 1));
    let b1 = bus.write_spec(s0, first);
    let b2 = b1.write_spec(s1, second);
    assert(s0 != s1);
    bus.lemma_stack_page_is_ram(s0, s1, first);
    b1.lemma_stack_page_is_ram(s1, s0, second);
    b2.lemma_stack_page_is_ram(s1, s0, second);
    b2.lemma_stack_page_is_ram(s0, s1, second);
    assert(add8(sub8(sub8(cpu.sp, 1), 1), 1) == sub8(cpu.sp, 1));
    assert(add8(sub8(cpu.sp, 1), 1) == cpu.sp);
}

/// Three bytes pushed come back off the stack in reverse order, and the stack
/// pointer returns to where it was.
pub proof fn lemma_three_pulls_after_three_pushes<M: MemoryModel>(
    cpu: Cpu,
    bus: M,
    first: u8,
    second: u8,
    third: u8,
)
    ensures
        ({
            let (c1, b1) = cpu.spec_push(bus, first);
            let (c2, b2) = c1.spec_push(b1, second);
            let (c3, b3) = c2.spec_push(b2, third);
            let (c4, b4, v1) = c3.spec_pull(b3);
            let (c5, b5, v2) = c4.spec_pull(b4);
            let (c6, b6, v3) = c5.spec_pull(b5);
            &&& v1 == third
            &&& v2 == second
            &&& v3 == first
            &&& c6 == cpu
            &&& b6 == b3
        }),
{
    let s0 = stack_address(cpu.sp);
    let s1 = stack_address(sub8(cpu.sp, 1));
    let s2 = stack_address(sub8(sub8(cpu.sp, 1), 1));
    let b1 = bus.write_spec(s0, first);
    let b2 = b1.write_spec(s1, second);
    let b3 = b2.write_spec(s2, third);
    assert(s0 != s1 && s1 != s2 && s0 != s2);
    bus.lemma_stack_page_is_ram(s0, s1, first);
    b1.lemma_stack_page_is_ram(s1, s0, second);
    b2.lemma_stack_page_is_ram(s2, s0, third);
    b2.lemma_stack_page_is_ram(s2, s1, third);
    b3.lemma_stack_page_is_ram(s0, s1, third);
    b3.lemma_stack_page_is_ram(s1, s0, third);
    b3.lemma_stack_page_is_ram(s2, s0, third);
    assert(add8(sub8(sub8(sub8(cpu.sp, 1), 1), 1), 1) == sub8(sub8(cpu.sp, 1), 1));
    assert(add8(sub8(sub8(cpu.sp, 1), 1), 1) == sub8(cpu.sp, 1));
    assert(add8(sub8(cpu.sp, 1), 1) == cpu.sp);
}

/// A 16-bit value split into its bytes and put back together is unchanged.
pub proof fn lemma_word_of_bytes(w: u16)
    ensures
        word(lo_byte(w), hi_byte(w)) == w,
{
}

/// RTS undoes JSR: the subroutine returns to the instruction after the call,
/// with the stack pointer and every register as they were.
pub proof fn lemma_rts_undoes_jsr<M: MemoryModel>(cpu: Cpu, bus: M, operand: Operand)
    requires
        operand is Address,
    ensures
        ({
            let (c1, b1, _) = cpu.spec_jsr(operand, bus);
            let (c2, b2, _) = c1.spec_rts(operand, b1);
            c2 == cpu
        }),
{
    let ret = sub16(cpu.pc, 1);
    lemma_two_pulls_after_two_pushes(cpu, bus, hi_byte(ret), lo_byte(ret));
    lemma_word_of_bytes(ret);
}

/// The vector read by an interrupt leaves the bus as it was.
proof fn lemma_vector_read_is_quiet<M: MemoryModel>(bus: M, vector: u16)
    requires
        vector >= 0xFFFA,
        vector < 0xFFFF,
    ensures
        Cpu::spec_read_vector(bus, vector).1 == bus,
{
    bus.lemma_vector_reads_are_quiet(vector);
    bus.read_spec(vector).1.lemma_vector_reads_are_quiet(add16(vector, 1));
}

/// RTI undoes BRK: the handler returns two bytes past the BRK opcode (BRK
/// skips a padding byte) with the status and the stack pointer restored, for
/// every status the CPU itself produces (B clear, the unused bit set).
pub proof fn lemma_rti_undoes_brk<M: MemoryModel>(cpu: Cpu, bus: M, operand: Operand)
    requires
        cpu.status & BREAK == 0,
        cpu.status & UNUSED != 0,
    ensures
        ({
            let (c1, b1, _) = cpu.spec_brk(operand, bus);
            let (c2, b2, _) = c1.spec_rti(operand, b1);
            c2 == Cpu { pc: add16(cpu.pc, 1), ..cpu }
        }),
{
    let c0 = Cpu { pc: add16(cpu.pc, 1), ..cpu };
    let ret = c0.pc;
    lemma_three_pulls_after_three_pushes(c0, bus, hi_byte(ret), lo_byte(ret), pushed_byte(cpu.status));
    lemma_word_of_bytes(ret);
    crate::cpu::flags::lemma_pull_undoes_push(cpu.status);
    let (c1, b1) = c0.spec_push_address(bus, ret);
    let (c2, b2) = c1.spec_push(b1, pushed_byte(cpu.status));
    lemma_vector_read_is_quiet(b2, IRQ_VECTOR);
}

/// RTI undoes an NMI: the interrupted code resumes at the same PC with the
/// status and the stack pointer restored (for every status the CPU itself
/// produces); only the cycle count, which the NMI sets, differs.
pub proof fn lemma_rti_undoes_nmi<M: MemoryModel>(cpu: Cpu, bus: M, operand: Operand)
    requires
        cpu.status & BREAK == 0,
        cpu.status & UNUSED != 0,
    ensures
        ({
            let (c1, b1) = cpu.spec_nmi(bus);
            let (c2, b2, _) = c1.spec_rti(operand, b1);
            c2 == Cpu { cycles: 7, ..cpu }
        }),
{
    let ret = cpu.pc;
    lemma_three_pulls_after_three_pushes(
        cpu,
        bus,
        hi_byte(ret),
        lo_byte(ret),
        interrupt_pushed_byte(cpu.status),
    );
    lemma_word_of_bytes(ret);
    crate::cpu::flags::lemma_pull_undoes_push(cpu.status);
    let (c1, b1) = cpu.spec_push_address(bus, ret);
    let (c2, b2) = c1.spec_push(b1, interrupt_pushed_byte(cpu.status));
    lemma_vector_read_is_quiet(b2, NMI_VECTOR);
}

} // verus!
