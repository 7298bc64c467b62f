//! Minimal driver for the DS3231 real-time-clock peripheral on a two-wire
//! serial bus: reads and writes the wall-clock registers and the temperature
//! register pair, translating between the device's packed binary-coded-decimal
//! layout and plain binary integers.

pub mod bus;
pub mod codec;
pub mod device;
pub mod time;

pub use bus::Bus;
pub use bus::BusHistory;
pub use bus::BusOp;
pub use codec::bcd_decode;
pub use codec::bcd_encode;
pub use device::DS3231;
pub use time::DS3231Time;
