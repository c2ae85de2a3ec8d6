//! Stack pushes and pulls and the stack-pointer transfers.

use vstd::prelude::*;

use crate::bus::{CpuMemory, MemoryModel};
use crate::cpu::addressing::Operand;
use crate::cpu::flags::{pushed_byte, pulled_status, to_pushed_byte, BREAK, UNUSED};
use crate::bus::{add8, sub8};
use crate::cpu::{stack_address, Cpu};

verus! {

impl Cpu {
    pub open spec fn spec_pha<M: MemoryModel>(self, operand: Operand, bus: M) -> (Cpu, M, u8) {
        let (cpu, bus2) = self.spec_push(bus, self.a);
        (cpu, bus2, 0)
    }

    pub open spec fn spec_pla<M: MemoryModel>(self, operand: Operand, bus: M) -> (Cpu, M, u8) {
        let (cpu, bus2, value) = self.spec_pull(bus);
        (Cpu { a: value, ..cpu }.with_zn(value), bus2, 0)
    }

    pub open spec fn spec_php<M: MemoryModel>(self, operand: Operand, bus: M) -> (Cpu, M, u8) {
        let (cpu, bus2) = self.spec_push(bus, pushed_byte(self.status));
        (cpu, bus2, 0)
    }

    pub open spec fn spec_plp<M: MemoryModel>(self, operand: Operand, bus: M) -> (Cpu, M, u8) {
        let (cpu, bus2, value) = self.spec_pull(bus);
        (Cpu { status: pulled_status(value), ..cpu }, bus2, 0)
    }

    pub open spec fn spec_txs<M: MemoryModel>(self, operand: Operand, bus: M) -> (Cpu, M, u8) {
        (Cpu { sp: self.x, ..self }, bus, 0)
    }

    pub open spec fn spec_tsx<M: MemoryModel>(self, operand: Operand, bus: M) -> (Cpu, M, u8) {
        (Cpu { x: self.sp, ..self }.with_zn(self.sp), bus, 0)
    }

    /// Push A
    /// ($0100 + SP) = A
    /// SP = SP - 1
    pub fn pha<B: CpuMemory>(&mut self, operand: Operand, bus: &mut B) -> (extra: u8)
        ensures
            (*final(self), final(bus).model(), extra) == old(self).spec_pha(operand, old(bus).model()),
    {
        let a = self.a;
        self.push_byte(bus, a);
        0
    }

    /// Pull A
    /// SP = SP + 1
    /// A = ($0100 + SP)
    pub fn pla<B: CpuMemory>(&mut self, operand: Operand, bus: &mut B) -> (extra: u8)
        ensures
            (*final(self), final(bus).model(), extra) == old(self).spec_pla(operand, old(bus).model()),
    {
        self.a = self.pull_byte(bus);
        self.update_zn(self.a);
        0
    }

    /// Push Processor Status
    /// ($0100 + SP) = NV11DIZC
    /// SP = SP - 1
    ///
    /// The B flag and the unused bit are both pushed as 1.
    pub fn php<B: CpuMemory>(&mut self, operand: Operand, bus: &mut B) -> (extra: u8)
        ensures
            (*final(self), final(bus).model(), extra) == old(self).spec_php(operand, old(bus).model()),
    {
        let pushed_status = to_pushed_byte(self.status);
        self.push_byte(bus, pushed_status);
        0
    }

    /// Pull Processor Status
    /// SP = SP + 1
    /// NVxxDIZC = ($0100 + SP)
    ///
    /// The B flag of the pulled byte is ignored and the unused bit stays set.
    pub fn plp<B: CpuMemory>(&mut self, operand: Operand, bus: &mut B) -> (extra: u8)
        ensures
            (*final(self), final(bus).model(), extra) == old(self).spec_plp(operand, old(bus).model()),
    {
        let pulled = self.pull_byte(bus);
        self.status = (pulled & !BREAK) | UNUSED;
        0
    }

    /// Transfer X to Stack Pointer
    /// SP = X
    pub fn txs<B: CpuMemory>(&mut self, operand: Operand, bus: &mut B) -> (extra: u8)
        ensures
            (*final(self), final(bus).model(), extra) == old(self).spec_txs(operand, old(bus).model()),
    {
        self.sp = self.x;
        0
    }

    /// Transfer Stack Pointer to X
    /// X = SP
    pub fn tsx<B: CpuMemory>(&mut self, operand: Operand, bus: &mut B) -> (extra: u8)
        ensures
            (*final(self), final(bus).model(), extra) == old(self).spec_tsx(operand, old(bus).model()),
    {
        self.x = self.sp;
        self.update_zn(self.x);
        0
    }
}


/// Pulling right after a push gives back the pushed byte and restores the
/// stack pointer; the rest of the CPU is untouched by the pair.
pub proof fn lemma_pull_after_push<M: MemoryModel>(cpu: Cpu, bus: M, value: u8)
    ensures
        ({
            let (c1, b1) = cpu.spec_push(bus, value);
            let (c2, b2, pulled) = c1.spec_pull(b1);
            &&& pulled == value
            &&& c2 == cpu
            &&& b2 == b1
        }),
{
    let a = stack_address(cpu.sp);
    bus.lemma_stack_page_is_ram(a, a, value);
    bus.write_spec(a, value).lemma_stack_page_is_ram(a, a, value);
    assert(add8(sub8(cpu.sp, 1), 1) == cpu.sp);
}

/// PLA undoes PHA: the accumulator and the stack pointer come back, and only
/// Z and N are recomputed from the restored accumulator.
pub proof fn lemma_pla_undoes_pha<M: MemoryModel>(cpu: Cpu, bus: M, operand: Operand)
    ensures
        ({
            let (c1, b1, _) = cpu.spec_pha(operand, bus);
            let (c2, b2, _) = c1.spec_pla(operand, b1);
            c2 == cpu.with_zn(cpu.a)
        }),
{
    lemma_pull_after_push(cpu, bus, cpu.a);
}

/// PLP undoes PHP for every status the CPU itself produces (B clear, the
/// unused bit set): the whole CPU state comes back.
pub proof fn lemma_plp_undoes_php<M: MemoryModel>(cpu: Cpu, bus: M, operand: Operand)
    requires
        cpu.status & BREAK == 0,
        cpu.status & UNUSED != 0,
    ensures
        ({
            let (c1, b1, _) = cpu.spec_php(operand, bus);
            let (c2, b2, _) = c1.spec_plp(operand, b1);
            c2 == cpu
        }),
{
    lemma_pull_after_push(cpu, bus, pushed_byte(cpu.status));
    crate::cpu::flags::lemma_pull_undoes_push(cpu.status);
}

} // verus!
