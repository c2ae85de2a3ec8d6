//! NOP.

use vstd::prelude::*;

use crate::bus::{CpuMemory, MemoryModel};
use crate::cpu::addressing::Operand;
use crate::cpu::Cpu;

verus! {

impl Cpu {
    pub open spec fn spec_nop<M: MemoryModel>(self, operand: Operand, bus: M) -> (Cpu, M, u8) {
        (self, bus, 0)
    }

    /// No Operation
    ///
    /// NOP has no effect; it merely wastes space and CPU cycles.
    pub fn nop<B: CpuMemory>(&mut self, operand: Operand, bus: &mut B) -> (extra: u8)
        ensures
            (*final(self), final(bus).model(), extra) == old(self).spec_nop(operand, old(bus).model()),
    {
        0
    }
}

} // verus!
