# Zebes

A Nintendo Entertainment System emulator whose core is written in Verus and
proved against its specification.

## Layout

- `src/` — the verified library (crate `zebes`):
  - `cpu/` — the MOS 6502 core of the 2A03: addressing modes, the 151
    official opcodes, cycle counting with page-crossing and branch penalties,
    reset and NMI. Each instruction is specified by a spec function over an
    abstract memory model (`bus::MemoryModel`).
  - `bus.rs` — the memory interface the CPU uses, and a bus with nothing but
    2 KiB of work RAM.
  - `cpu_bus.rs` — the console's CPU address space: work RAM, PPU registers,
    controller ports, OAM DMA and the cartridge.
  - `ppu/` — the 2C02: registers, loopy scrolling, background and sprite
    pipelines, nametable/palette memory and frame timing.
  - `cartridge/` — the iNES format and mappers 0-3 (NROM, MMC1, UxROM,
    CNROM), which cartridges are built on; the MMC3 board (mapper 4) exists
    but is not yet accepted in iNES files.
  - `nes.rs` — the whole console, three PPU dots per CPU cycle, and runs
    of it up to the end of a frame or to the next instruction.
  - `disassembler.rs`, `debugger.rs` — instruction decoding and the
    debugger's key handling.
  - `tracer.rs` — the text of a trace line in the layout of the nestest
    log: hexadecimal and decimal numbers, padded columns and assembly.
- `app/` — the programs around the library: a macroquad window, a ratatui
  debugger and a trace comparer for the nestest ROM.
- `tests/` — unit tests of the library.

## Usage

```bash
zebes <rom.nes>            # play
zebes --debug <rom.nes>    # terminal debugger
zebes --nestest <rom> <log>
```

Controls: Z = A, X = B, Space = Select, Enter = Start, arrows = D-pad,
F = FPS counter, R = reset.
