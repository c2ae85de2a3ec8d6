//! The CPU-side memory interface and the plain 2 KiB work-RAM bus.

use vstd::prelude::*;

verus! {

/// Size of the internal work RAM array.
pub const RAM_SIZE: usize = 0x0800;

/// `a + b` on 16-bit addresses, wrapping around at 0x10000.
pub open spec fn add16(a: u16, b: u16) -> u16 {
    if a + b > 0xFFFF {
        (a + b - 0x1_0000) as u16
    } else {
        (a + b) as u16
    }
}

/// `a - b` on 16-bit addresses, wrapping around at 0x10000.
pub open spec fn sub16(a: u16, b: u16) -> u16 {
    if a < b {
        (a - b + 0x1_0000) as u16
    } else {
        (a - b) as u16
    }
}

/// The high byte of a 16-bit value.
pub open spec fn hi_byte(w: u16) -> u8 {
    (w / 0x100) as u8
}

/// The low byte of a 16-bit value.
pub open spec fn lo_byte(w: u16) -> u8 {
    (w % 0x100) as u8
}

/// `a + b` on bytes, wrapping around at 0x100.
pub open spec fn add8(a: u8, b: u8) -> u8 {
    if a + b > 0xFF {
        (a + b - 0x100) as u8
    } else {
        (a + b) as u8
    }
}

/// `a - b` on bytes, wrapping around at 0x100.
pub open spec fn sub8(a: u8, b: u8) -> u8 {
    if a < b {
        (a - b + 0x100) as u8
    } else {
        (a - b) as u8
    }
}

/// The abstract state of something on the CPU's address bus, and what reads
/// and writes do to it.
///
/// A read may change the device (reading a PPU register clears flags, reading
/// a controller port shifts it), so reads are described by both the value
/// returned and the state left behind.
pub trait MemoryModel: Sized {
    /// The value a read of `address` returns and the device state after it.
    spec fn read_spec(&self, address: u16) -> (u8, Self);

    /// The device state after `data` is written to `address`.
    spec fn write_spec(&self, address: u16, data: u8) -> Self;

    /// The value a side-effect-free look at `address` gives.
    spec fn peek_spec(&self, address: u16) -> u8;

    /// The stack page ($0100-$01FF) behaves as plain memory: a read there
    /// changes nothing and returns the last byte written there, and a write
    /// there leaves every other stack byte as it was.
    proof fn lemma_stack_page_is_ram(&self, address: u16, other: u16, data: u8)
        requires
            0x0100 <= address < 0x0200,
            0x0100 <= other < 0x0200,
        ensures
            self.read_spec(address).1 == *self,
            self.write_spec(address, data).read_spec(address).0 == data,
            address != other ==> self.write_spec(address, data).read_spec(other).0
                == self.read_spec(other).0,
    ;

    /// Reading the interrupt vectors ($FFFA-$FFFF) changes nothing.
    proof fn lemma_vector_reads_are_quiet(&self, address: u16)
        requires
            address >= 0xFFFA,
        ensures
            self.read_spec(address).1 == *self,
    ;
}

/// Something the CPU can read from and write to through its address bus.
pub trait CpuMemory {
    /// The abstract state of the device.
    type Model: MemoryModel;

    spec fn model(&self) -> Self::Model;

    /// Looks at one byte without disturbing the device.
    fn peek(&self, address: u16) -> (r: u8)
        ensures
            r == self.model().peek_spec(address),
    ;

    /// The value a read of `address` would return, computed without the read's
    /// side effects.
    fn read_value(&self, address: u16) -> (r: u8)
        ensures
            r == self.model().read_spec(address).0,
    ;

    /// Reads one byte.
    fn read(&mut self, address: u16) -> (r: u8)
        ensures
            (r, final(self).model()) == old(self).model().read_spec(address),
    ;

    /// Writes one byte.
    fn write(&mut self, address: u16, data: u8)
        ensures
            final(self).model() == old(self).model().write_spec(address, data),
    ;
}

/// A bus with nothing on it but the console's 2 KiB of work RAM, mirrored
/// four times over $0000-$1FFF and repeated across the whole address space.
pub struct Bus {
    pub ram: [u8; RAM_SIZE],
}

impl Default for Bus {
    /// A bus whose RAM holds zeros.
    fn default() -> (bus: Bus)
        ensures
            forall|i: int| 0 <= i < RAM_SIZE ==> bus.ram[i] == 0,
    {
        Bus::new()
    }
}

impl Bus {
    /// The RAM cell that `address` selects.
    pub open spec fn cell(address: u16) -> int {
        (address % 0x0800) as int
    }

    /// The byte a read of `address` returns.
    pub open spec fn byte_at(self, address: u16) -> u8 {
        self.ram[Self::cell(address)]
    }

    /// The bus after `data` is stored at `address`.
    pub open spec fn stored(self, address: u16, data: u8) -> Bus {
        Bus { ram: vstd::array::spec_array_update(self.ram, Self::cell(address), data) }
    }

    /// The bus after `data` is stored byte by byte from `start` upwards,
    /// wrapping around at the end of the address space.
    pub open spec fn loaded(self, data: Seq<u8>, start: u16) -> Bus
        decreases data.len(),
    {
        if data.len() == 0 {
            self
        } else {
            self.stored(start, data[0]).loaded(data.drop_first(), add16(start, 1))
        }
    }

    /// A bus whose RAM holds zeros.
    pub fn new() -> (bus: Bus)
        ensures
            forall|i: int| 0 <= i < RAM_SIZE ==> bus.ram[i] == 0,
    {
        Bus { ram: [0u8; RAM_SIZE] }
    }

    /// Reads the RAM byte that `address` selects.
    pub fn read(&mut self, address: u16) -> (r: u8)
        ensures
            r == old(self).byte_at(address),
            *final(self) == *old(self),
    {
        self.peek(address)
    }

    /// Reads the RAM byte that `address` selects, without side effects.
    pub fn peek(&self, address: u16) -> (r: u8)
        ensures
            r == self.byte_at(address),
    {
        proof {
            lemma_ram_mask(address);
        }
        self.ram[(address & 0x07FF) as usize]
    }

    /// Stores `data` in the RAM byte that `address` selects.
    pub fn write(&mut self, address: u16, data: u8)
        ensures
            *final(self) == old(self).stored(address, data),
    {
        proof {
            lemma_ram_mask(address);
        }
        self.ram[(address & 0x07FF) as usize] = data;
    }

    /// Stores `data` byte by byte from `start` upwards (for loading test programs).
    pub fn load_bytes(&mut self, data: &[u8], start: u16)
        ensures
            *final(self) == old(self).loaded(data@, start),
    {
        let ghost initial = *self;
        let mut i: usize = 0;
        let mut address: u16 = start;
        assert(data@.skip(0) =~= data@);
        while i < data.len()
            invariant
                0 <= i <= data@.len(),
                initial.loaded(data@, start) == self.loaded(data@.skip(i as int), address),
            decreases data@.len() - i,
        {
            assert(data@.skip(i as int).drop_first() =~= data@.skip(i + 1));
            self.write(address, data[i]);
            address = address.wrapping_add(1);
            i = i + 1;
        }
        assert(data@.skip(i as int) =~= Seq::<u8>::empty());
    }
}

/// The RAM mask keeps the low eleven bits of an address.
pub proof fn lemma_ram_mask(address: u16)
    ensures
        (address & 0x07FF) as int == address % 0x0800,
        (address & 0x07FF) < 0x0800,
{
    assert((address & 0x07FF) == address % 0x0800 && (address & 0x07FF) < 0x0800) by (bit_vector);
}

impl MemoryModel for Bus {
    open spec fn read_spec(&self, address: u16) -> (u8, Bus) {
        (self.byte_at(address), *self)
    }

    open spec fn write_spec(&self, address: u16, data: u8) -> Bus {
        self.stored(address, data)
    }

    open spec fn peek_spec(&self, address: u16) -> u8 {
        self.byte_at(address)
    }

    proof fn lemma_stack_page_is_ram(&self, address: u16, other: u16, data: u8) {
    }

    proof fn lemma_vector_reads_are_quiet(&self, address: u16) {
    }
}

impl CpuMemory for Bus {
    type Model = Bus;

    open spec fn model(&self) -> Bus {
        *self
    }

    fn peek(&self, address: u16) -> (r: u8) {
        Bus::peek(self, address)
    }

    fn read_value(&self, address: u16) -> (r: u8) {
        Bus::peek(self, address)
    }

    fn read(&mut self, address: u16) -> (r: u8) {
        Bus::read(self, address)
    }

    fn write(&mut self, address: u16, data: u8) {
        Bus::write(self, address, data)
    }
}

/// Work RAM repeats every 2 KiB: two addresses that agree in their low eleven
/// bits read the same byte, and a write through one is seen through the other.
pub proof fn lemma_ram_mirroring(bus: Bus, address: u16, mirror: u16, data: u8)
    requires
        address % 0x0800 == mirror % 0x0800,
    ensures
        bus.byte_at(address) == bus.byte_at(mirror),
        bus.stored(address, data).byte_at(mirror) == data,
{
}

} // verus!
