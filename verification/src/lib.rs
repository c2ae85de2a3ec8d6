//! Zebes: a verified model of the NES hardware (MOS 6502 CPU, 2C02 PPU,
//! cartridge mappers and the buses that tie them together).

pub mod bits;
pub mod bus;
pub mod cartridge;
pub mod controller;
pub mod cpu;
pub mod cpu_bus;
pub mod debugger;
pub mod disassembler;
pub mod nes;
pub mod ppu;
pub mod tracer;
