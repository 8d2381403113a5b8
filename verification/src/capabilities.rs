//! Static limits of the device.

use vstd::prelude::*;
use crate::point::{packed_x, packed_y, unpack_x, unpack_y};

verus! {

/// Static device limits.
#[derive(Copy, Clone, Eq, PartialEq, Ord, PartialOrd, Hash, Debug, Structural)]
pub struct Capabilities {
    /// Maximum number of simultaneous contacts.
    pub max_touches: u8,
    /// Horizontal resolution.
    pub max_x: u16,
    /// Vertical resolution.
    pub max_y: u16,
    /// Whether the device can wake the host on a gesture.
    pub smart_wake_up: bool,
}

/// The smart wake-up flag: bit 7 of the miscellaneous information byte.
pub open spec fn smart_wake_up_of(misc_info: u8) -> bool {
    misc_info >= 128
}

/// The capabilities that the three register groups describe. The
/// resolution group is packed as the coordinates of a contact record are.
pub open spec fn capabilities_of(max_contacts: u8, misc_info: u8, resolution: Seq<u8>) -> Capabilities
    recommends
        resolution.len() == 3,
{
    Capabilities {
        max_touches: max_contacts,
        max_x: packed_x(resolution[0], resolution[1]) as u16,
        max_y: packed_y(resolution[0], resolution[2]) as u16,
        smart_wake_up: smart_wake_up_of(misc_info),
    }
}

impl Capabilities {
    /// Decodes the capabilities from the contact-count byte, the
    /// miscellaneous information byte and the three resolution bytes.
    pub fn from_registers(max_contacts: u8, misc_info: u8, resolution: &[u8; 3]) -> (c: Capabilities)
        ensures
            c == capabilities_of(max_contacts, misc_info, resolution@),
            c.max_x <= 0x7FF,
            c.max_y <= 0xFFF,
    {
        assert((misc_info & 0b1000_0000 != 0) <==> misc_info >= 128) by (bit_vector);
        Capabilities {
            max_touches: max_contacts,
            max_x: unpack_x(resolution[0], resolution[1]),
            max_y: unpack_y(resolution[0], resolution[2]),
            smart_wake_up: misc_info & 0b1000_0000 != 0,
        }
    }
}

} // verus!
