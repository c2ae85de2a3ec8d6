//! Processor status register bit masks for the 6502/2A03 CPU.
//! Layout (bit 7 -> bit 0): N V - B D I Z C

use vstd::prelude::*;

verus! {

/// Indicates that an arithmetic operation produced a carry or borrow.
/// It also stores the bit shifted out by shift and rotate instructions.
pub const CARRY: u8 = 0b0000_0001;

/// Indicates that the result of the last operation was zero.
pub const ZERO: u8 = 0b0000_0010;

/// Controls whether IRQ interrupts are accepted.
/// The NMI (Non-Maskable Interrupt) ignores this flag.
pub const INTERRUPT_DISABLE: u8 = 0b0000_0100;

/// Decimal mode flag. Ignored by the NES 2A03.
/// ADC and SBC always perform binary arithmetic.
pub const DECIMAL: u8 = 0b0000_1000;

/// Only used in the copy of the status register when pushed onto
/// the stack by certain operations.
pub const BREAK: u8 = 0b0001_0000;

/// Reserved bit. Always set in status values pushed onto the stack.
pub const UNUSED: u8 = 0b0010_0000;

/// Indicates signed arithmetic overflow.
pub const OVERFLOW: u8 = 0b0100_0000;

/// Copies bit 7 of the result.
pub const NEGATIVE: u8 = 0b1000_0000;

/// Reset status value.
pub const RESET_STATUS: u8 = 0b0010_0100;

/// Whether any bit of `flag` is set in `status`.
pub open spec fn is_set(status: u8, flag: u8) -> bool {
    status & flag != 0
}

/// `status` with the bits of `flag` forced to `value`.
pub open spec fn status_with(status: u8, flag: u8, value: bool) -> u8 {
    if value {
        status | flag
    } else {
        status & !flag
    }
}

/// The status byte that PHP and BRK push: B and the unused bit forced high.
pub open spec fn pushed_byte(status: u8) -> u8 {
    status | BREAK | UNUSED
}

/// The status byte that a hardware IRQ/NMI pushes: B forced low, unused forced high.
pub open spec fn interrupt_pushed_byte(status: u8) -> u8 {
    (status & !BREAK) | UNUSED
}

/// The status that PLP and RTI load from a pulled byte: B forced low, unused forced high.
pub open spec fn pulled_status(pulled: u8) -> u8 {
    (pulled & !BREAK) | UNUSED
}

/// Returns whether any bit of `flag` is set in `status`.
pub fn contains(status: u8, flag: u8) -> (r: bool)
    ensures
        r == is_set(status, flag),
{
    status & flag != 0
}

/// Sets (`value == true`) or clears (`value == false`) the bits of `flag` in `status`.
pub fn set(status: &mut u8, flag: u8, value: bool)
    ensures
        *final(status) == status_with(*old(status), flag, value),
{
    if value {
        *status = *status | flag;
    } else {
        *status = *status & !flag;
    }
}

/// Status byte as it should be pushed to the stack for PHP/BRK:
/// B forced high, unused forced high.
pub fn to_pushed_byte(status: u8) -> (r: u8)
    ensures
        r == pushed_byte(status),
{
    status | BREAK | UNUSED
}

/// Status byte as it should be pushed to the stack for a hardware
/// IRQ/NMI: B forced low, unused forced high.
pub fn to_interrupt_pushed_byte(status: u8) -> (r: u8)
    ensures
        r == interrupt_pushed_byte(status),
{
    (status & !BREAK) | UNUSED
}

/// Setting or clearing `flag` leaves every flag that does not share a bit
/// with it unchanged.
pub proof fn lemma_other_flags_unchanged(status: u8, flag: u8, other: u8, value: bool)
    requires
        flag & other == 0,
    ensures
        is_set(status_with(status, flag, value), other) == is_set(status, other),
{
    assert(flag & other == 0 ==> ((status | flag) & other != 0) == (status & other != 0) && ((
    status & !flag) & other != 0) == (status & other != 0)) by (bit_vector);
}

/// The two pushed forms of a status byte agree on every bit but B, which is
/// set in the PHP/BRK form and clear in the interrupt form; both keep every
/// flag other than B and the unused bit.
pub proof fn lemma_pushed_forms(status: u8)
    ensures
        pushed_byte(status) & !BREAK == interrupt_pushed_byte(status) & !BREAK,
        is_set(pushed_byte(status), BREAK),
        !is_set(interrupt_pushed_byte(status), BREAK),
        is_set(pushed_byte(status), UNUSED),
        is_set(interrupt_pushed_byte(status), UNUSED),
        pushed_byte(status) & 0b1100_1111 == status & 0b1100_1111,
        interrupt_pushed_byte(status) & 0b1100_1111 == status & 0b1100_1111,
{
    assert({
        &&& (status | 0x10u8 | 0x20u8) & !0x10u8 == ((status & !0x10u8) | 0x20u8) & !0x10u8
        &&& (status | 0x10u8 | 0x20u8) & 0x10u8 != 0
        &&& ((status & !0x10u8) | 0x20u8) & 0x10u8 == 0
        &&& (status | 0x10u8 | 0x20u8) & 0x20u8 != 0
        &&& ((status & !0x10u8) | 0x20u8) & 0x20u8 != 0
        &&& (status | 0x10u8 | 0x20u8) & 0xCFu8 == status & 0xCFu8
        &&& ((status & !0x10u8) | 0x20u8) & 0xCFu8 == status & 0xCFu8
    }) by (bit_vector);
}

/// Pulling a byte that PHP/BRK pushed gives back the original status, as long
/// as that status had B clear and the unused bit set (every status the CPU
/// itself produces has that shape).
pub proof fn lemma_pull_undoes_push(status: u8)
    requires
        !is_set(status, BREAK),
        is_set(status, UNUSED),
    ensures
        pulled_status(pushed_byte(status)) == status,
        pulled_status(interrupt_pushed_byte(status)) == status,
{
    assert(status & 0x10u8 == 0 && status & 0x20u8 != 0 ==> {
        &&& ((status | 0x10u8 | 0x20u8) & !0x10u8) | 0x20u8 == status
        &&& ((((status & !0x10u8) | 0x20u8)) & !0x10u8) | 0x20u8 == status
    }) by (bit_vector);
}

} // verus!
