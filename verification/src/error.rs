//! Driver error taxonomy.
//!
//! Two levels: [`Tca9534CoreError`] covers faults the driver detects in
//! software before touching the bus, and [`Tca9534Error`] composes those
//! with whatever error type the transport reports, so a caller can tell a
//! logic error from a bus fault.

use vstd::prelude::*;

verus! {

/// Core TCA9534 errors that don't depend on transport.
#[derive(Debug, Clone, Copy, PartialEq, Eq)]
pub enum Tca9534CoreError {
    /// Invalid pin number (must be 0-7).
    InvalidPin,
}

/// TCA9534 driver error type.
#[derive(Debug)]
pub enum Tca9534Error<I2cE = ()> {
    /// Core TCA9534 error.
    Core(Tca9534CoreError),
    /// I2C communication error.
    I2c(I2cE),
}

impl<I2cE> From<Tca9534CoreError> for Tca9534Error<I2cE> {
    /// Upcast a core error into the composed type, losing nothing.
    fn from(err: Tca9534CoreError) -> (r: Self) {
        Tca9534Error::Core(err)
    }
}

impl<I2cE> vstd::std_specs::convert::FromSpecImpl<Tca9534CoreError> for Tca9534Error<I2cE> {
    open spec fn obeys_from_spec() -> bool {
        true
    }

    open spec fn from_spec(err: Tca9534CoreError) -> Self {
        Tca9534Error::Core(err)
    }
}

} // verus!
