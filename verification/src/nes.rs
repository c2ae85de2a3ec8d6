//! The whole console: the CPU driving the CPU bus, with the PPU running three
//! dots per CPU cycle and interrupting the CPU at vertical blank.

use vstd::prelude::*;

use crate::bus::MemoryModel;
use crate::cartridge::{
    ines_chr, ines_complete, ines_header_valid, ines_mapper_id, ines_mirroring, ines_prg,
    unsupported_mapper_text, BoardView, Cartridge,
};
use crate::cpu::{power_on_cpu, word, Cpu};
use crate::cpu::flags::RESET_STATUS;
use crate::cpu_bus::{CpuBus, CpuBusView};
use crate::ppu::ppu_bus::PpuBus;
use crate::ppu::{Ppu, PpuView};

verus! {

/// NES main system.
pub struct Nes {
    cpu: Cpu,
    bus: CpuBus,
    /// An NMI raised by the PPU that the CPU has not taken yet.
    nmi_pending: bool,
}

/// The abstract state of the console.
pub struct NesView {
    pub cpu: Cpu,
    pub bus: CpuBusView,
    pub nmi_pending: bool,
}

impl View for Nes {
    type V = NesView;

    closed spec fn view(&self) -> NesView {
        NesView { cpu: self.cpu, bus: self.bus@, nmi_pending: self.nmi_pending }
    }
}

/// Whether `bus` is the bus of a console with `cartridge` just inserted:
/// cleared work RAM, no buttons, and a power-on PPU whose address space holds
/// the cartridge with cleared nametable and palette RAM.
pub open spec fn is_fresh_bus(bus: CpuBusView, cartridge: BoardView) -> bool {
    &&& forall|i: int| 0 <= i < 0x0800 ==> bus.ram[i] == 0
    &&& bus.ppu == PpuView::initial(crate::ppu::ppu_bus::PpuBusView { cartridge, ..PpuBus::new_view() })
    &&& bus.controllers == seq![0u8, 0u8]
    &&& bus.controller_shift == seq![0u8, 0u8]
    &&& !bus.controller_strobe
    &&& !bus.dma_pending
}

impl NesView {
    /// Whether an NMI is taken on this clock: one is pending and the CPU is
    /// between instructions.
    pub open spec fn takes_nmi(self) -> bool {
        self.nmi_pending && self.cpu.cycles == 0
    }

    /// Whether the next clock is defined: an NMI is taken, or the CPU can
    /// clock (an instruction is under way or the next opcode is official).
    pub open spec fn can_clock(self) -> bool {
        self.takes_nmi() || self.cpu.can_clock(self.bus)
    }

    /// The CPU's part of one clock: the NMI sequence starts (and its first cycle
    /// is spent), or the CPU clocks as usual.
    pub open spec fn cpu_step(self) -> NesView {
        if self.takes_nmi() {
            let (cpu1, bus1) = self.cpu.spec_nmi(self.bus);
            let (cpu2, bus2) = cpu1.spec_clock(bus1);
            NesView { cpu: cpu2, bus: bus2, nmi_pending: false }
        } else {
            let (cpu1, bus1) = self.cpu.spec_clock(self.bus);
            NesView { cpu: cpu1, bus: bus1, ..self }
        }
    }

    /// The PPU's part of one clock: three dots, then any NMI it raised becomes
    /// pending for the CPU.
    pub open spec fn ppu_step(self) -> NesView {
        let ppu = self.bus.ppu.clock().clock().clock();
        NesView {
            bus: CpuBusView { ppu: PpuView { nmi_requested: false, ..ppu }, ..self.bus },
            nmi_pending: self.nmi_pending || ppu.nmi_requested,
            ..self
        }
    }

    /// One console clock (one CPU cycle).
    pub open spec fn clock(self) -> NesView {
        self.cpu_step().ppu_step()
    }

    /// One console clock, kept folded inside the run specs below so that
    /// reasoning about a run does not unfold the whole CPU.
    #[verifier::opaque]
    pub open spec fn next(self) -> NesView {
        self.clock()
    }

    /// Clocking until the PPU's frame counter leaves `start`, for at most
    /// `budget` clocks: the console then, and whether the frame ended. It
    /// stops early, unfinished, where the next clock is undefined (an
    /// unofficial opcode).
    pub open spec fn run_frame(self, start: u64, budget: nat) -> (NesView, bool)
        decreases budget,
    {
        if self.bus.ppu.frame != start {
            (self, true)
        } else if budget == 0 || !self.can_clock() {
            (self, false)
        } else {
            self.next().run_frame(start, (budget - 1) as nat)
        }
    }

    /// Clocking until the program counter leaves `start`, for at most
    /// `budget` clocks: the console then, and whether it moved. It stops
    /// early, unmoved, where the next clock is undefined.
    pub open spec fn run_to_next_instruction(self, start: u16, budget: nat) -> (NesView, bool)
        decreases budget,
    {
        if self.cpu.pc != start {
            (self, true)
        } else if budget == 0 || !self.can_clock() {
            (self, false)
        } else {
            self.next().run_to_next_instruction(start, (budget - 1) as nat)
        }
    }
}

impl Default for Nes {
    /// A console with no cartridge, the CPU in its power-on state.
    fn default() -> (nes: Nes)
        ensures
            nes@.cpu == power_on_cpu(),
            is_fresh_bus(nes@.bus, BoardView::empty()),
            !nes@.nmi_pending,
    {
        Nes::new()
    }
}

impl Nes {
    /// A console with no cartridge, the CPU in its power-on state.
    pub fn new() -> (nes: Nes)
        ensures
            nes@.cpu == power_on_cpu(),
            is_fresh_bus(nes@.bus, BoardView::empty()),
            !nes@.nmi_pending,
    {
        let nes = Nes { cpu: Cpu::new(), bus: CpuBus::new(), nmi_pending: false };
        assert(nes@.bus.ppu.bus =~= (crate::ppu::ppu_bus::PpuBusView {
            cartridge: BoardView::empty(),
            ..PpuBus::new_view()
        }));
        nes
    }

    /// Inserts a cartridge parsed from a raw iNES file, with a fresh bus and
    /// PPU around it. On an error the console is left as it was.
    pub fn load(&mut self, data: &[u8]) -> (r: Result<(), String>)
        requires
            ines_header_valid(data@) ==> ines_complete(data@),
        ensures
            !ines_header_valid(data@) ==> (r matches Err(e) && e@ == "invalid iNES file"@
                && final(self)@ == old(self)@),
            ines_header_valid(data@) && ines_mapper_id(data@) > 3 ==> (r matches Err(e) && e@
                == unsupported_mapper_text(ines_mapper_id(data@)) && final(self)@ == old(self)@),
            ines_header_valid(data@) && ines_mapper_id(data@) <= 3 ==> (r is Ok && final(self)@.cpu
                == old(self)@.cpu && !final(self)@.nmi_pending && is_fresh_bus(
                final(self)@.bus,
                BoardView::for_mapper(
                    ines_mapper_id(data@),
                    ines_prg(data@),
                    ines_chr(data@),
                    ines_mirroring(data@),
                ),
            )),
    {
        match Cartridge::try_from_ines(data) {
            Ok(cartridge) => {
                let ppu_bus = PpuBus::new().with_cartridge(cartridge);
                let ppu = Ppu::new().with_bus(ppu_bus);
                self.bus = CpuBus::new().with_ppu(ppu);
                self.nmi_pending = false;
                assert(self@.bus.ppu.bus =~= (crate::ppu::ppu_bus::PpuBusView {
                    cartridge: cartridge@,
                    ..PpuBus::new_view()
                }));
                Ok(())
            },
            Err(e) => Err(e),
        }
    }

    /// Simulates pressing the reset button: the CPU restarts from the reset
    /// vector and a pending NMI is dropped.
    pub fn reset(&mut self)
        ensures
            final(self)@ == (NesView {
                cpu: Cpu {
                    pc: word(old(self)@.bus.peek_spec(0xFFFC), old(self)@.bus.peek_spec(0xFFFD)),
                    sp: 0xFD,
                    status: RESET_STATUS,
                    cycles: 7,
                    ..old(self)@.cpu
                },
                nmi_pending: false,
                ..old(self)@
            }),
    {
        self.cpu.reset(&self.bus);
        self.nmi_pending = false;
    }

    /// Whether [`Nes::clock`] can run: an NMI is due, an instruction is in
    /// progress, or the next opcode is an official one.
    pub fn can_clock(&self) -> (r: bool)
        ensures
            r == self@.can_clock(),
    {
        (self.nmi_pending && self.cpu.cycles() == 0) || self.cpu.can_clock_on(&self.bus)
    }

    /// Advances the system by one CPU cycle: the CPU clocks (taking a pending
    /// NMI between instructions) and the PPU runs three dots.
    pub fn clock(&mut self)
        requires
            old(self)@.can_clock(),
        ensures
            final(self)@ == old(self)@.clock(),
    {
        if self.nmi_pending && self.cpu.cycles == 0 {
            self.cpu.nmi(&mut self.bus);
            self.nmi_pending = false;
        }
        self.cpu.clock(&mut self.bus);
        self.bus.tick_ppu();
        self.bus.tick_ppu();
        self.bus.tick_ppu();
        if self.bus.take_nmi() {
            self.nmi_pending = true;
        }
    }

    /// One clock, described as [`NesView::next`].
    fn step(&mut self)
        requires
            old(self)@.can_clock(),
        ensures
            final(self)@ == old(self)@.next(),
    {
        self.clock();
        proof {
            reveal(NesView::next);
        }
    }

    /// Clocks the console until the PPU finishes the current frame, at most
    /// `max_clocks` times; returns whether the frame ended. It stops early at
    /// an unofficial opcode, which it cannot execute.
    pub fn run_frame(&mut self, max_clocks: u32) -> (done: bool)
        ensures
            (final(self)@, done) == old(self)@.run_frame(old(self)@.bus.ppu.frame, max_clocks as nat),
    {
        let start = self.bus.ppu.frame();
        let ghost goal = self@.run_frame(start, max_clocks as nat);
        let mut left = max_clocks;
        while self.bus.ppu.frame() == start
            invariant
                self@.run_frame(start, left as nat) == goal,
                goal == old(self)@.run_frame(old(self)@.bus.ppu.frame, max_clocks as nat),
            decreases left,
        {
            if left == 0 || !self.can_clock() {
                return false;
            }
            self.step();
            left = left - 1;
        }
        true
    }

    /// Clocks the console until the program counter moves, at most
    /// `max_clocks` times; returns whether it moved. It stops early at an
    /// unofficial opcode, which it cannot execute.
    pub fn run_to_next_instruction(&mut self, max_clocks: u32) -> (moved: bool)
        ensures
            (final(self)@, moved) == old(self)@.run_to_next_instruction(
                old(self)@.cpu.pc,
                max_clocks as nat,
            ),
    {
        let start = self.cpu.pc();
        let ghost goal = self@.run_to_next_instruction(start, max_clocks as nat);
        let mut left = max_clocks;
        while self.cpu.pc() == start
            invariant
                self@.run_to_next_instruction(start, left as nat) == goal,
                goal == old(self)@.run_to_next_instruction(old(self)@.cpu.pc, max_clocks as nat),
            decreases left,
        {
            if left == 0 || !self.can_clock() {
                return false;
            }
            self.step();
            left = left - 1;
        }
        true
    }

    /// Sets the buttons held on controller `controller` (0 or 1).
    pub fn set_controller_state(&mut self, controller: usize, state: u8)
        requires
            controller < 2,
        ensures
            final(self)@ == (NesView {
                bus: CpuBusView {
                    controllers: old(self)@.bus.controllers.update(controller as int, state),
                    ..old(self)@.bus
                },
                ..old(self)@
            }),
    {
        self.bus.set_controller_state(controller, state);
    }

    pub fn cpu(&self) -> (r: &Cpu)
        ensures
            *r == self@.cpu,
    {
        &self.cpu
    }

    pub fn cpu_mut(&mut self) -> (r: &mut Cpu)
        ensures
            *r == old(self)@.cpu,
            final(self)@ == (NesView { cpu: *final(r), ..old(self)@ }),
    {
        &mut self.cpu
    }

    pub fn bus(&self) -> (r: &CpuBus)
        ensures
            r@ == self@.bus,
    {
        &self.bus
    }

    pub fn bus_mut(&mut self) -> (r: &mut CpuBus)
        ensures
            r@ == old(self)@.bus,
            final(self)@ == (NesView { bus: final(r)@, ..old(self)@ }),
    {
        &mut self.bus
    }
}

/// A run for a frame reports it finished exactly when the frame counter has
/// moved on from where it started.
pub proof fn lemma_run_frame_outcome(nes: NesView, start: u64, budget: nat)
    ensures
        ({
            let (after, done) = nes.run_frame(start, budget);
            done <==> after.bus.ppu.frame != start
        }),
    decreases budget,
{
    if nes.bus.ppu.frame == start && budget > 0 && nes.can_clock() {
        lemma_run_frame_outcome(nes.next(), start, (budget - 1) as nat);
    }
}

} // verus!
