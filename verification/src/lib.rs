//! TCA9534 I2C I/O expander driver.
//!
//! A platform-independent driver for the TCA9534, an 8-bit I2C I/O
//! expander. The driver talks to the bus through the [`SyncTransport`]
//! contract; any bus implementation that honours that contract can carry
//! it. Every pin operation is verified against an abstract model of the
//! device's four registers: what each transaction writes, what each read
//! returns, and that a single-pin update never disturbs the other pins.

pub mod addresses;
pub mod bits;
pub mod config;
pub mod device;
mod error;
mod errors;
pub mod ffi;
mod registers;
mod sim;
mod tca9534_sync;
mod transport;

pub use bits::{
    apply_pin_config, apply_pin_level, apply_pin_polarity, apply_pin_toggle, pin_level_of,
};
pub use error::{Tca9534CoreError, Tca9534Error};
pub use errors::{TCA9534CoreError, TCA9534Error};
pub use registers::{Pin, PinConfig, PinLevel, PinPolarity, PortValue, Register};
pub use sim::SimTransport;
pub use tca9534_sync::Tca9534 as Tca9534Sync;
pub use transport::SyncTransport;
