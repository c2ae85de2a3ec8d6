//! The interface every cartridge board implements.

use vstd::prelude::*;

verus! {

/// Nametable mirroring configuration.
#[derive(Clone, Copy, PartialEq, Eq, Structural, Debug)]
pub enum Mirroring {
    Horizontal,
    Vertical,
    SingleScreenLower,
    SingleScreenUpper,
}

/// The byte at `index` of `bytes`, if there is one.
pub open spec fn byte_at(bytes: Seq<u8>, index: int) -> Option<u8> {
    if 0 <= index < bytes.len() {
        Some(bytes[index])
    } else {
        None
    }
}

/// `bytes` with the byte at `index` replaced, if there is one.
pub open spec fn store_at(bytes: Seq<u8>, index: int, data: u8) -> Seq<u8> {
    if 0 <= index < bytes.len() {
        bytes.update(index, data)
    } else {
        bytes
    }
}

/// `n`, or 1 when `n` is zero (a bank count that is never zero).
pub open spec fn at_least_one(n: int) -> int {
    if n < 1 {
        1
    } else {
        n
    }
}

/// Returns the byte at `index`, if there is one.
pub fn get_byte(bytes: &Vec<u8>, index: usize) -> (r: Option<u8>)
    ensures
        r == byte_at(bytes@, index as int),
{
    if index < bytes.len() {
        Some(bytes[index])
    } else {
        None
    }
}

/// Replaces the byte at `index`, if there is one.
pub fn put_byte(bytes: &mut Vec<u8>, index: usize, data: u8)
    ensures
        final(bytes)@ == store_at(old(bytes)@, index as int, data),
    no_unwind
{
    if index < bytes.len() {
        bytes[index] = data;
    }
}

/// A "Mapper" implements the memory-mapping logic specific to a cartridge board.
///
/// `Self::V` is the abstract board state: its memories as sequences and its
/// registers as plain values.
pub trait Mapper: View + Sized {
    /// What a CPU read of `address` returns (`None`: the board does not answer).
    spec fn cpu_read_spec(state: Self::V, address: u16) -> Option<u8>;

    /// The board state after the CPU writes `data` to `address`.
    spec fn cpu_write_spec(state: Self::V, address: u16, data: u8) -> Self::V;

    /// What a PPU read of `address` returns and the board state after it.
    spec fn ppu_read_spec(state: Self::V, address: u16) -> (Option<u8>, Self::V);

    /// The board state after the PPU writes `data` to `address`.
    spec fn ppu_write_spec(state: Self::V, address: u16, data: u8) -> Self::V;

    /// The nametable mirroring the board selects.
    spec fn mirroring_spec(state: Self::V) -> Mirroring;

    /// Whether the board asserts its IRQ line.
    spec fn irq_pending_spec(state: Self::V) -> bool;

    /// The board state after its IRQ is acknowledged.
    spec fn irq_clear_spec(state: Self::V) -> Self::V;

    /// Converts a CPU-visible address into a PRG-ROM/PRG-RAM byte.
    fn cpu_read(&self, address: u16) -> (r: Option<u8>)
        ensures
            r == Self::cpu_read_spec(self@, address),
    ;

    /// Handles a CPU write into the board's space. Usually the data is not
    /// stored but tells the board what to do next.
    fn cpu_write(&mut self, address: u16, data: u8)
        ensures
            final(self)@ == Self::cpu_write_spec(old(self)@, address, data),
    ;

    /// Same as `cpu_read` but for the PPU's separate address space.
    fn ppu_read(&mut self, address: u16) -> (r: Option<u8>)
        ensures
            (r, final(self)@) == Self::ppu_read_spec(old(self)@, address),
    ;

    /// Handles a PPU write into the board's space.
    fn ppu_write(&mut self, address: u16, data: u8)
        ensures
            final(self)@ == Self::ppu_write_spec(old(self)@, address, data),
    ;

    /// Returns the mirroring configuration.
    fn mirroring(&self) -> (m: Mirroring)
        ensures
            m == Self::mirroring_spec(self@),
    ;

    /// Returns whether the board has an IRQ request.
    fn irq_pending(&self) -> (r: bool)
        ensures
            r == Self::irq_pending_spec(self@),
    ;

    /// Acknowledges a pending IRQ.
    fn irq_clear(&mut self)
        ensures
            final(self)@ == Self::irq_clear_spec(old(self)@),
    ;
}

} // verus!
