//! The debugger's key handling: which key does what to the debugger's state,
//! and what it asks of the console.

use vstd::prelude::*;

verus! {

/// Which panels the debugger shows.
#[derive(Clone, Copy, Debug, PartialEq, Eq, Structural)]
pub enum ViewMode {
    /// Picture, memory, CPU registers and disassembly.
    Cpu,
    /// Picture, PPU registers and sprite memory.
    Ppu,
}

/// The keys the debugger reacts to.
#[derive(Clone, Copy, Debug, PartialEq, Eq, Structural)]
pub enum Key {
    /// `q` or Esc.
    Quit,
    /// Space: one clock.
    StepCycle,
    /// `n`: run until the program counter moves.
    StepInstruction,
    /// Enter: run or pause.
    ToggleRun,
    /// `r`: press the reset button.
    Reset,
    /// `v`: switch panels.
    ToggleView,
    /// Up arrow: scroll the memory view up a row.
    ScrollUp,
    /// Down arrow: scroll the memory view down a row.
    ScrollDown,
    /// Anything else.
    Other,
}

/// What the debugger asks of the console after a key.
#[derive(Clone, Copy, Debug, PartialEq, Eq, Structural)]
pub enum Command {
    /// Leave the debugger.
    Quit,
    /// Clock the console once.
    Clock,
    /// Clock the console until the program counter changes.
    RunToNextInstruction,
    /// Reset the console.
    Reset,
    /// Nothing to do.
    Nothing,
}

/// The debugger's own state.
#[derive(Clone, Copy, Debug, PartialEq, Eq, Structural)]
pub struct DebugState {
    /// First address shown in the memory view.
    pub mem_base: u16,
    /// Whether the console runs freely (at frame rate).
    pub running: bool,
    pub view_mode: ViewMode,
}

/// `a - b`, or 0 when `b` is larger.
pub open spec fn sat_sub(a: u16, b: u16) -> u16 {
    if a >= b {
        (a - b) as u16
    } else {
        0
    }
}

/// `a + b`, or 0xFFFF when the sum does not fit.
pub open spec fn sat_add(a: u16, b: u16) -> u16 {
    if a + b <= 0xFFFF {
        (a + b) as u16
    } else {
        0xFFFF
    }
}

impl DebugState {
    /// The state after `key` and what the console has to do: stepping pauses
    /// the run, Enter toggles it, `v` swaps the panels and the arrows scroll
    /// the memory view by 16 bytes (stopping at the ends of memory).
    pub open spec fn after_key(self, key: Key) -> (DebugState, Command) {
        match key {
            Key::Quit => (self, Command::Quit),
            Key::StepCycle => (DebugState { running: false, ..self }, Command::Clock),
            Key::StepInstruction => (
                DebugState { running: false, ..self },
                Command::RunToNextInstruction,
            ),
            Key::ToggleRun => (DebugState { running: !self.running, ..self }, Command::Nothing),
            Key::Reset => (self, Command::Reset),
            Key::ToggleView => (
                DebugState {
                    view_mode: match self.view_mode {
                        ViewMode::Cpu => ViewMode::Ppu,
                        ViewMode::Ppu => ViewMode::Cpu,
                    },
                    ..self
                },
                Command::Nothing,
            ),
            Key::ScrollUp => (DebugState { mem_base: sat_sub(self.mem_base, 16), ..self }, Command::Nothing),
            Key::ScrollDown => (
                DebugState { mem_base: sat_add(self.mem_base, 16), ..self },
                Command::Nothing,
            ),
            Key::Other => (self, Command::Nothing),
        }
    }

    /// Memory view at $0000, paused, showing the CPU panels.
    pub fn new() -> (s: DebugState)
        ensures
            s == (DebugState { mem_base: 0, running: false, view_mode: ViewMode::Cpu }),
    {
        DebugState { mem_base: 0, running: false, view_mode: ViewMode::Cpu }
    }

    /// Handles a key press: updates the state and says what the console has to
    /// do.
    pub fn handle_key(&mut self, key: Key) -> (command: Command)
        ensures
            (*final(self), command) == old(self).after_key(key),
    {
        match key {
            Key::Quit => Command::Quit,
            Key::StepCycle => {
                self.running = false;
                Command::Clock
            },
            Key::StepInstruction => {
                self.running = false;
                Command::RunToNextInstruction
            },
            Key::ToggleRun => {
                self.running = !self.running;
                Command::Nothing
            },
            Key::Reset => Command::Reset,
            Key::ToggleView => {
                self.view_mode = match self.view_mode {
                    ViewMode::Cpu => ViewMode::Ppu,
                    ViewMode::Ppu => ViewMode::Cpu,
                };
                Command::Nothing
            },
            Key::ScrollUp => {
                self.mem_base = self.mem_base.saturating_sub(16);
                Command::Nothing
            },
            Key::ScrollDown => {
                self.mem_base = self.mem_base.saturating_add(16);
                Command::Nothing
            },
            Key::Other => Command::Nothing,
        }
    }
}

/// Pressing `v` twice shows the same panels again, and Enter twice leaves the
/// run state as it was.
pub proof fn lemma_toggles_are_involutions(state: DebugState)
    ensures
        state.after_key(Key::ToggleView).0.after_key(Key::ToggleView).0 == state,
        state.after_key(Key::ToggleRun).0.after_key(Key::ToggleRun).0 == state,
{
}

} // verus!
