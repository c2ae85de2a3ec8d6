//! Standard NES controller button bits, in the order they are shifted out on read.

use vstd::prelude::*;

verus! {

pub const BUTTON_A: u8 = 0b0000_0001;
pub const BUTTON_B: u8 = 0b0000_0010;
pub const BUTTON_SELECT: u8 = 0b0000_0100;
pub const BUTTON_START: u8 = 0b0000_1000;
pub const BUTTON_UP: u8 = 0b0001_0000;
pub const BUTTON_DOWN: u8 = 0b0010_0000;
pub const BUTTON_LEFT: u8 = 0b0100_0000;
pub const BUTTON_RIGHT: u8 = 0b1000_0000;

} // verus!
