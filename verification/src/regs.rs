//! Register addresses of the touch controller.

use vstd::prelude::*;

verus! {

/// Device status; the upper nibble is non-zero while the device is busy.
pub const STATUS: u8 = 0x01;

/// Maximum number of simultaneous contacts the device supports.
pub const CONTACT_COUNT_MAX: u8 = 0x3F;

/// Miscellaneous information; bit 7 is the smart wake-up flag.
pub const MISC_INFO: u8 = 0xF0;

/// High bits of the X and Y resolution, packed into one byte.
pub const XY_RESOLUTION_H: u8 = 0x04;

/// Low byte of the X resolution.
pub const X_RESOLUTION_L: u8 = 0x05;

/// Low byte of the Y resolution.
pub const Y_RESOLUTION_L: u8 = 0x06;

/// First byte of the frame scan counter pair.
pub const SENSING_COUNTER_L: u8 = 0x07;

/// Second byte of the frame scan counter pair.
pub const SENSING_COUNTER_H: u8 = 0x08;

/// Gesture code, proximity flag and water flag.
pub const ADVANCED_TOUCH_INFO: u8 = 0x10;

/// Register at which the record of contact slot 0 starts.
pub const POINT_BASE: u8 = 0x12;

/// Number of registers each contact record occupies.
pub const POINT_STRIDE: u8 = 4;

/// Number of contact slots the device reports.
pub const POINT_SLOTS: u8 = 10;

/// First register of the record of contact slot `nth`.
pub open spec fn point_register(nth: u8) -> int {
    POINT_BASE as int + POINT_STRIDE as int * nth as int
}

} // verus!
