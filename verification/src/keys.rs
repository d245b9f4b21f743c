//! Key codes of the Linux input layer (`input-event-codes.h`) that the driver
//! reads from the tablet or writes to its virtual keyboard.

use vstd::prelude::*;

verus! {

pub const KEY_1: u16 = 2;
pub const KEY_4: u16 = 5;
pub const KEY_5: u16 = 6;
pub const KEY_TAB: u16 = 15;
pub const KEY_E: u16 = 18;
pub const KEY_R: u16 = 19;
pub const KEY_Y: u16 = 21;
pub const KEY_LEFTBRACE: u16 = 26;
pub const KEY_RIGHTBRACE: u16 = 27;
pub const KEY_LEFTCTRL: u16 = 29;
pub const KEY_LEFTSHIFT: u16 = 42;
pub const KEY_Z: u16 = 44;
pub const KEY_B: u16 = 48;
pub const KEY_M: u16 = 50;
pub const KEY_LEFTALT: u16 = 56;
pub const KEY_SPACE: u16 = 57;
pub const KEY_KPMINUS: u16 = 74;
pub const KEY_KPPLUS: u16 = 78;
pub const KEY_DELETE: u16 = 111;
pub const KEY_F13: u16 = 183;

} // verus!
