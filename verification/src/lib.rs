//! Driver for a capacitive touch controller on a two-wire serial bus.
//!
//! The driver reads fixed registers of the device and decodes their
//! bit-packed contents into typed values: touch points, device
//! capabilities, gesture information and the frame scan counter.
//! Every decoder is a total function with an exact contract over an
//! arithmetic model of the register layout, and every driver operation
//! states which bus reads it issues, in which order, and how its result
//! follows from what the device answered.

pub mod bus;
pub mod capabilities;
pub mod driver;
pub mod gesture;
pub mod point;
pub mod regs;

pub use bus::{BusRead, RegisterBus};
pub use capabilities::Capabilities;
pub use driver::{TouchIC, DEFAULT_ADDR};
pub use gesture::{GestureInfo, GestureType};
pub use point::Point;
