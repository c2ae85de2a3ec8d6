//! Single-bit flag helpers shared by the CPU and PPU registers.

use vstd::prelude::*;

verus! {

/// Whether any bit of `flag` is set in `register`.
pub open spec fn flag_is_set(register: u8, flag: u8) -> bool {
    register & flag != 0
}

/// `register` with the bits of `flag` forced to `value`.
pub open spec fn with_flag(register: u8, flag: u8, value: bool) -> u8 {
    if value {
        register | flag
    } else {
        register & !flag
    }
}

/// Returns whether any bit of `flag` is set in `register`.
pub fn contains(register: u8, flag: u8) -> (r: bool)
    ensures
        r == flag_is_set(register, flag),
{
    register & flag != 0
}

/// Sets (`value == true`) or clears (`value == false`) the bits of `flag` in `register`.
pub fn set(register: &mut u8, flag: u8, value: bool)
    ensures
        *final(register) == with_flag(*old(register), flag, value),
{
    if value {
        *register = *register | flag;
    } else {
        *register = *register & !flag;
    }
}

/// Bit-level facts about setting and clearing flags in a byte.
pub proof fn lemma_flag_bits(register: u8, flag: u8)
    by (bit_vector)
    ensures
        flag != 0 ==> (register | flag) & flag != 0,
        (register | flag) & !flag == register & !flag,
        (register & !flag) & flag == 0,
        (register & !flag) & !flag == register & !flag,
        (register | flag) | flag == register | flag,
        register & flag == flag ==> register | flag == register,
        register & flag == 0 ==> register & !flag == register,
{
}

/// Setting a flag makes it visible to `contains`, clearing it hides it, and
/// the bits outside the flag keep their value.
pub proof fn lemma_set_then_contains(register: u8, flag: u8, value: bool)
    requires
        flag != 0,
    ensures
        flag_is_set(with_flag(register, flag, value), flag) == value,
        with_flag(register, flag, value) & !flag == register & !flag,
{
    lemma_flag_bits(register, flag);
}

/// Setting a flag twice is the same as setting it once, and setting a flag to
/// the value it already holds changes nothing.
pub proof fn lemma_set_idempotent(register: u8, flag: u8, value: bool)
    ensures
        with_flag(with_flag(register, flag, value), flag, value) == with_flag(register, flag, value),
        (value && register & flag == flag) ==> with_flag(register, flag, value) == register,
        (!value && register & flag == 0) ==> with_flag(register, flag, value) == register,
{
    lemma_flag_bits(register, flag);
}

/// Bit-level facts about single bytes used throughout the CPU and PPU.
pub proof fn lemma_byte_bits(x: u8)
    by (bit_vector)
    ensures
        (x & 0x80 != 0) == (x >= 0x80),
        (x & 0x40 != 0) == (x % 0x80 >= 0x40),
        (x & 0x01 != 0) == (x % 2 == 1),
        (x & 0x01) == x % 2,
        x >> 1 == x / 2,
        x >> 7 == x / 0x80,
        (x >> 7) & 1 == x / 0x80,
        x ^ 0xFF == (0xFF - x) as u8,
        x & 0x03 == x % 4,
        x & 0x07 == x % 8,
        x & 0x3F == x % 0x40,
{
}

/// Bit-level facts about 16-bit words used throughout the CPU and PPU.
pub proof fn lemma_word_bits(w: u16)
    by (bit_vector)
    ensures
        w >> 8 == w / 0x100,
        w & 0x00FF == w % 0x100,
        ((w >> 8) as u8) as u16 == w / 0x100,
        ((w & 0x00FF) as u8) as u16 == w % 0x100,
        w & 0x3FFF == w % 0x4000,
        w & 0x1FFF == w % 0x2000,
        w & 0x0FFF == w % 0x1000,
        w & 0x07FF == w % 0x0800,
        w & 0x0007 == w % 8,
        ((w >> 4) & 0x04) | (w & 0x02) <= 6,
        (w >> 12) & 0x07 <= 7,
        (w >> 12) & 0x07 == (w / 0x1000) % 8,
        (w & 0x03E0) >> 5 <= 31,
        w & 0x7000 != 0x7000 ==> w + 0x1000 <= 0xFFFF,
        (w & 0x1000 != 0) == ((w / 0x1000) % 2 == 1),
        (w >> 13) & 0x03 == (w / 0x2000) % 4,
{
}

} // verus!
