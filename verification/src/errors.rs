//! Earlier spelling of the error taxonomy, kept so existing callers that
//! use the all-capitals names keep compiling; new code should prefer the
//! types in [`crate::error`].

use vstd::prelude::*;

verus! {

/// Core TCA9534 errors that don't depend on transport.
#[derive(Debug, Clone, Copy, PartialEq, Eq)]
pub enum TCA9534CoreError {
    /// Invalid pin number (must be 0-7).
    InvalidPin,
}

/// TCA9534 driver error type.
#[derive(Debug)]
pub enum TCA9534Error<I2cE = ()> {
    /// Core TCA9534 error.
    Core(TCA9534CoreError),
    /// I2C communication error.
    I2c(I2cE),
}

impl<I2cE> From<TCA9534CoreError> for TCA9534Error<I2cE> {
    /// Upcast a core error into the composed type, losing nothing.
    fn from(err: TCA9534CoreError) -> (r: Self) {
        TCA9534Error::Core(err)
    }
}

impl<I2cE> vstd::std_specs::convert::FromSpecImpl<TCA9534CoreError> for TCA9534Error<I2cE> {
    open spec fn obeys_from_spec() -> bool {
        true
    }

    open spec fn from_spec(err: TCA9534CoreError) -> Self {
        TCA9534Error::Core(err)
    }
}

} // verus!
