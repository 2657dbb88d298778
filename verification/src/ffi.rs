//! The flat call surface for foreign callers, minus the raw pointers.
//!
//! A C boundary hands in raw callback and handle pointers, which cannot
//! be verified. The boundary is therefore split in two: this module holds
//! everything that decides and computes — the status codes and their
//! stable integer values, the enum conversions, the null-pointer and pin
//! and register validation, and one function per exposed operation over
//! the initialized driver — while the thin outer layer that dereferences
//! the handle, wraps the callbacks into a transport and stores results
//! through out-pointers stays outside the verified library and hands
//! plain values in.
//!
//! `init` alone constructs the driver and runs the reset sequence; it
//! hands the driver back, the caller's handle keeps it, and every other
//! operation works on that initialized driver, so device state persists
//! from call to call exactly as the driver-level contracts state.

use crate::addresses;
use crate::bits::{level_at, with_config, with_level, with_polarity, with_toggled};
use crate::device::{keeps_regs, reads_reg, same_devices, writes_reg};
use crate::error::Tca9534CoreError;
use crate::registers::{PinConfig, PinLevel, PinPolarity, Register};
use crate::tca9534_sync::Tca9534;
use crate::transport::SyncTransport;
use vstd::prelude::*;

verus! {

/// C-compatible error codes; [`CError::code`] gives the stable integer
/// value of each.
#[derive(Debug, Clone, Copy, PartialEq, Eq)]
pub enum CError {
    /// The operation completed.
    Success,
    /// A pin above 7, or an unmapped register address.
    InvalidPin,
    /// A bus write failed.
    I2cWrite,
    /// A bus read failed.
    I2cRead,
    /// A required pointer was null or a required callback missing.
    NullPtr,
    /// The reset sequence run at initialization failed, or the handle
    /// holds no initialized driver.
    InitFailed,
}

impl CError {
    /// The stable integer status code of this error.
    pub open spec fn code_spec(self) -> i32 {
        match self {
            CError::Success => 0i32,
            CError::InvalidPin => -1i32,
            CError::I2cWrite => -2i32,
            CError::I2cRead => -3i32,
            CError::NullPtr => -4i32,
            CError::InitFailed => -5i32,
        }
    }

    /// The stable integer status code handed across the boundary.
    #[verifier::when_used_as_spec(code_spec)]
    pub fn code(self) -> (r: i32)
        ensures
            r == self.code_spec(),
    {
        match self {
            CError::Success => 0i32,
            CError::InvalidPin => -1i32,
            CError::I2cWrite => -2i32,
            CError::I2cRead => -3i32,
            CError::NullPtr => -4i32,
            CError::InitFailed => -5i32,
        }
    }
}

/// C-compatible pin configuration.
#[derive(Debug, Clone, Copy, PartialEq, Eq)]
pub enum CPinConfig {
    /// Pin configured as input.
    Input,
    /// Pin configured as output.
    Output,
}

/// C-compatible pin level.
#[derive(Debug, Clone, Copy, PartialEq, Eq)]
pub enum CPinLevel {
    /// Logic low.
    Low,
    /// Logic high.
    High,
}

/// C-compatible pin polarity.
#[derive(Debug, Clone, Copy, PartialEq, Eq)]
pub enum CPinPolarity {
    /// Normal polarity.
    Normal,
    /// Inverted polarity.
    Inverted,
}

/// Convert TCA9534 core errors to C error codes.
pub fn core_error_to_c_error(error: Tca9534CoreError) -> (r: CError)
    ensures
        r == (match error { Tca9534CoreError::InvalidPin => CError::InvalidPin }),
{
    match error {
        Tca9534CoreError::InvalidPin => CError::InvalidPin,
    }
}

impl From<Tca9534CoreError> for CError {
    /// Collapse a core error to its status code.
    fn from(error: Tca9534CoreError) -> (r: Self) {
        core_error_to_c_error(error)
    }
}

impl vstd::std_specs::convert::FromSpecImpl<Tca9534CoreError> for CError {
    open spec fn obeys_from_spec() -> bool {
        true
    }

    open spec fn from_spec(error: Tca9534CoreError) -> Self {
        match error {
            Tca9534CoreError::InvalidPin => CError::InvalidPin,
        }
    }
}

/// Convert C pin configuration to the driver's pin configuration.
pub fn c_pin_config_to_rust(config: CPinConfig) -> (r: PinConfig)
    ensures
        r == (match config {
            CPinConfig::Input => PinConfig::Input,
            CPinConfig::Output => PinConfig::Output,
        }),
{
    match config {
        CPinConfig::Input => PinConfig::Input,
        CPinConfig::Output => PinConfig::Output,
    }
}

/// Convert C pin level to the driver's pin level.
pub fn c_pin_level_to_rust(level: CPinLevel) -> (r: PinLevel)
    ensures
        r == (match level {
            CPinLevel::Low => PinLevel::Low,
            CPinLevel::High => PinLevel::High,
        }),
{
    match level {
        CPinLevel::Low => PinLevel::Low,
        CPinLevel::High => PinLevel::High,
    }
}

/// Convert the driver's pin level to the C pin level.
pub fn rust_pin_level_to_c(level: PinLevel) -> (r: CPinLevel)
    ensures
        r == (match level {
            PinLevel::Low => CPinLevel::Low,
            PinLevel::High => CPinLevel::High,
        }),
{
    match level {
        PinLevel::Low => CPinLevel::Low,
        PinLevel::High => CPinLevel::High,
    }
}

/// Convert C pin polarity to the driver's pin polarity.
pub fn c_pin_polarity_to_rust(polarity: CPinPolarity) -> (r: PinPolarity)
    ensures
        r == (match polarity {
            CPinPolarity::Normal => PinPolarity::Normal,
            CPinPolarity::Inverted => PinPolarity::Inverted,
        }),
{
    match polarity {
        CPinPolarity::Normal => PinPolarity::Normal,
        CPinPolarity::Inverted => PinPolarity::Inverted,
    }
}

/// The boundary's pointer check: a missing handle or out-pointer is
/// reported as `NullPtr` before anything touches the bus.
pub fn null_status(handle_null: bool, out_null: bool) -> (r: Option<CError>)
    ensures
        r == (if handle_null || out_null {
            Some(CError::NullPtr)
        } else {
            None::<CError>
        }),
{
    if handle_null || out_null {
        Some(CError::NullPtr)
    } else {
        None
    }
}

/// The boundary's callback check: all three bus callbacks must be
/// present, else the transport is unusable and the call is `NullPtr`.
pub fn ops_status(has_write: bool, has_read: bool, has_write_read: bool) -> (r: Option<CError>)
    ensures
        r == (if has_write && has_read && has_write_read {
            None::<CError>
        } else {
            Some(CError::NullPtr)
        }),
{
    if has_write && has_read && has_write_read {
        None
    } else {
        Some(CError::NullPtr)
    }
}

/// Decode a numeric register address; anything above 0x03 is unmapped
/// and must be rejected, never silently defaulted.
pub fn register_from_addr(reg_addr: u8) -> (r: Option<Register>)
    ensures
        reg_addr == 0x00 ==> r == Some(Register::InputPort),
        reg_addr == 0x01 ==> r == Some(Register::OutputPort),
        reg_addr == 0x02 ==> r == Some(Register::Polarity),
        reg_addr == 0x03 ==> r == Some(Register::Config),
        reg_addr > 0x03 ==> r is None,
{
    match reg_addr {
        0x00 => Some(Register::InputPort),
        0x01 => Some(Register::OutputPort),
        0x02 => Some(Register::Polarity),
        0x03 => Some(Register::Config),
        _ => None,
    }
}


/// Initialize a TCA9534 at `address`: construct the driver, run the
/// reset sequence, and hand the driver back so the remaining operations
/// work on the initialized device.
pub fn init<T: SyncTransport>(transport: T, address: u8) -> (r: (CError, Option<Tca9534<T>>))
    ensures
        r.0 == CError::Success || r.0 == CError::InitFailed,
        r.0 == CError::Success <==> r.1 is Some,
        r.1 matches Some(d) ==> ({
            &&& d.dev_addr() == address
            &&& d.bus().dom() == transport.devices().dom()
            &&& transport.devices().dom().contains(address)
            &&& d.device().config == 0xFF
            &&& d.device().output == 0x00
            &&& d.device().polarity == 0x00
        }),
        r.1 matches Some(d) ==> forall|a: u8|
            transport.devices().dom().contains(a) && a != address ==> keeps_regs(
                transport.devices()[a],
                #[trigger] d.bus()[a],
            ),
{
    match Tca9534::new(transport, address) {
        Ok(driver) => (CError::Success, Some(driver)),
        Err(_) => (CError::InitFailed, None),
    }
}

/// Initialize a TCA9534 at the default address.
pub fn init_default<T: SyncTransport>(transport: T) -> (r: (CError, Option<Tca9534<T>>))
    ensures
        r.0 == CError::Success || r.0 == CError::InitFailed,
        r.0 == CError::Success <==> r.1 is Some,
        r.1 matches Some(d) ==> ({
            &&& d.dev_addr() == addresses::ADDR_000
            &&& d.bus().dom() == transport.devices().dom()
            &&& transport.devices().dom().contains(addresses::ADDR_000)
            &&& d.device().config == 0xFF
            &&& d.device().output == 0x00
            &&& d.device().polarity == 0x00
        }),
{
    init(transport, addresses::ADDR_000)
}

/// Read a register value by its numeric address. An unmapped address is
/// rejected before any bus traffic.
pub fn read_register<T: SyncTransport>(driver: &mut Tca9534<T>, reg_addr: u8) -> (r: (CError, u8))
    ensures
        old(driver).keeps_frame(*final(driver)),
        same_devices(old(driver).bus(), final(driver).bus()),
        r.0 == CError::Success || r.0 == CError::InvalidPin || r.0 == CError::I2cRead,
        r.0 == CError::InvalidPin <==> reg_addr > 0x03,
        r.0 == CError::InvalidPin ==> *final(driver) == *old(driver),
        r.0 == CError::Success ==> old(driver).on_bus() && reads_reg(
            old(driver).device(),
            final(driver).device(),
            reg_addr,
            r.1,
        ),
{
    let register = match register_from_addr(reg_addr) {
        Some(reg) => reg,
        None => return (CError::InvalidPin, 0),
    };
    match driver.read_register(register) {
        Ok(value) => (CError::Success, value),
        Err(_) => (CError::I2cRead, 0),
    }
}

/// Write a register value by its numeric address. An unmapped address is
/// rejected before any bus traffic.
pub fn write_register<T: SyncTransport>(driver: &mut Tca9534<T>, reg_addr: u8, value: u8) -> (r:
    CError)
    ensures
        old(driver).keeps_frame(*final(driver)),
        r == CError::Success || r == CError::InvalidPin || r == CError::I2cWrite,
        r == CError::InvalidPin <==> reg_addr > 0x03,
        r == CError::InvalidPin ==> *final(driver) == *old(driver),
        r == CError::Success ==> old(driver).on_bus() && writes_reg(
            old(driver).device(),
            final(driver).device(),
            reg_addr,
            value,
        ),
        r == CError::I2cWrite ==> same_devices(old(driver).bus(), final(driver).bus()),
{
    let register = match register_from_addr(reg_addr) {
        Some(reg) => reg,
        None => return CError::InvalidPin,
    };
    match driver.write_register(register, value) {
        Ok(()) => CError::Success,
        Err(_) => CError::I2cWrite,
    }
}

/// Read the input port (all 8 pins at once).
pub fn read_input_port<T: SyncTransport>(driver: &mut Tca9534<T>) -> (r: (CError, u8))
    ensures
        old(driver).keeps_frame(*final(driver)),
        same_devices(old(driver).bus(), final(driver).bus()),
        r.0 == CError::Success || r.0 == CError::I2cRead,
        r.0 == CError::Success ==> old(driver).on_bus() && r.1 == final(driver).device().input,
{
    match driver.read_input_port() {
        Ok(value) => (CError::Success, value),
        Err(_) => (CError::I2cRead, 0),
    }
}

/// Write the output port (all 8 pins at once).
pub fn write_output_port<T: SyncTransport>(driver: &mut Tca9534<T>, port_value: u8) -> (r: CError)
    ensures
        old(driver).keeps_frame(*final(driver)),
        r == CError::Success || r == CError::I2cWrite,
        r == CError::Success ==> ({
            &&& old(driver).on_bus()
            &&& final(driver).device().output == port_value
            &&& final(driver).device().polarity == old(driver).device().polarity
            &&& final(driver).device().config == old(driver).device().config
        }),
        r == CError::I2cWrite ==> same_devices(old(driver).bus(), final(driver).bus()),
{
    match driver.write_output_port(port_value) {
        Ok(()) => CError::Success,
        Err(_) => CError::I2cWrite,
    }
}

/// Read the output port register.
pub fn read_output_port<T: SyncTransport>(driver: &mut Tca9534<T>) -> (r: (CError, u8))
    ensures
        old(driver).keeps_frame(*final(driver)),
        same_devices(old(driver).bus(), final(driver).bus()),
        r.0 == CError::Success || r.0 == CError::I2cRead,
        r.0 == CError::Success ==> old(driver).on_bus() && r.1 == old(driver).device().output,
{
    match driver.read_output_port() {
        Ok(value) => (CError::Success, value),
        Err(_) => (CError::I2cRead, 0),
    }
}

/// Read a single pin's input level.
pub fn read_pin_input<T: SyncTransport>(driver: &mut Tca9534<T>, pin: u8) -> (r: (
    CError,
    CPinLevel,
))
    ensures
        old(driver).keeps_frame(*final(driver)),
        same_devices(old(driver).bus(), final(driver).bus()),
        r.0 == CError::Success || r.0 == CError::InvalidPin || r.0 == CError::I2cRead,
        r.0 == CError::InvalidPin <==> pin > 7,
        r.0 == CError::InvalidPin ==> *final(driver) == *old(driver),
        r.0 == CError::Success ==> old(driver).on_bus() && r.1 == (match level_at(
            final(driver).device().input,
            pin,
        ) {
            PinLevel::Low => CPinLevel::Low,
            PinLevel::High => CPinLevel::High,
        }),
{
    if pin > 7 {
        return (CError::InvalidPin, CPinLevel::Low);
    }
    match driver.read_pin_input(pin) {
        Ok(level) => (CError::Success, rust_pin_level_to_c(level)),
        Err(_) => (CError::I2cRead, CPinLevel::Low),
    }
}

/// Set a single output pin, preserving every other output bit.
pub fn set_pin_output<T: SyncTransport>(driver: &mut Tca9534<T>, pin: u8, level: CPinLevel) -> (r:
    CError)
    ensures
        old(driver).keeps_frame(*final(driver)),
        r == CError::Success || r == CError::InvalidPin || r == CError::I2cWrite,
        r == CError::InvalidPin <==> pin > 7,
        r == CError::InvalidPin ==> *final(driver) == *old(driver),
        r == CError::Success ==> ({
            &&& old(driver).on_bus()
            &&& final(driver).device().output == with_level(
                old(driver).device().output,
                pin,
                (match level {
                    CPinLevel::Low => PinLevel::Low,
                    CPinLevel::High => PinLevel::High,
                }),
            )
            &&& final(driver).device().polarity == old(driver).device().polarity
            &&& final(driver).device().config == old(driver).device().config
        }),
        r == CError::I2cWrite ==> same_devices(old(driver).bus(), final(driver).bus()),
{
    if pin > 7 {
        return CError::InvalidPin;
    }
    let rust_level = c_pin_level_to_rust(level);
    match driver.set_pin_output(pin, rust_level) {
        Ok(()) => CError::Success,
        Err(_) => CError::I2cWrite,
    }
}

/// Toggle a single output pin, preserving every other output bit.
pub fn toggle_pin_output<T: SyncTransport>(driver: &mut Tca9534<T>, pin: u8) -> (r: CError)
    ensures
        old(driver).keeps_frame(*final(driver)),
        r == CError::Success || r == CError::InvalidPin || r == CError::I2cWrite,
        r == CError::InvalidPin <==> pin > 7,
        r == CError::InvalidPin ==> *final(driver) == *old(driver),
        r == CError::Success ==> ({
            &&& old(driver).on_bus()
            &&& final(driver).device().output == with_toggled(old(driver).device().output, pin)
            &&& final(driver).device().polarity == old(driver).device().polarity
            &&& final(driver).device().config == old(driver).device().config
        }),
        r == CError::I2cWrite ==> same_devices(old(driver).bus(), final(driver).bus()),
{
    if pin > 7 {
        return CError::InvalidPin;
    }
    match driver.toggle_pin_output(pin) {
        Ok(()) => CError::Success,
        Err(_) => CError::I2cWrite,
    }
}

/// Configure a single pin's direction, preserving every other
/// configuration bit.
pub fn set_pin_config<T: SyncTransport>(driver: &mut Tca9534<T>, pin: u8, config: CPinConfig) -> (r:
    CError)
    ensures
        old(driver).keeps_frame(*final(driver)),
        r == CError::Success || r == CError::InvalidPin || r == CError::I2cWrite,
        r == CError::InvalidPin <==> pin > 7,
        r == CError::InvalidPin ==> *final(driver) == *old(driver),
        r == CError::Success ==> ({
            &&& old(driver).on_bus()
            &&& final(driver).device().config == with_config(
                old(driver).device().config,
                pin,
                (match config {
                    CPinConfig::Input => PinConfig::Input,
                    CPinConfig::Output => PinConfig::Output,
                }),
            )
            &&& final(driver).device().output == old(driver).device().output
            &&& final(driver).device().polarity == old(driver).device().polarity
        }),
        r == CError::I2cWrite ==> same_devices(old(driver).bus(), final(driver).bus()),
{
    if pin > 7 {
        return CError::InvalidPin;
    }
    let rust_config = c_pin_config_to_rust(config);
    match driver.set_pin_config(pin, rust_config) {
        Ok(()) => CError::Success,
        Err(_) => CError::I2cWrite,
    }
}

/// Configure the direction of all pins at once.
pub fn set_port_config<T: SyncTransport>(driver: &mut Tca9534<T>, config: u8) -> (r: CError)
    ensures
        old(driver).keeps_frame(*final(driver)),
        r == CError::Success || r == CError::I2cWrite,
        r == CError::Success ==> ({
            &&& old(driver).on_bus()
            &&& final(driver).device().config == config
            &&& final(driver).device().output == old(driver).device().output
            &&& final(driver).device().polarity == old(driver).device().polarity
        }),
        r == CError::I2cWrite ==> same_devices(old(driver).bus(), final(driver).bus()),
{
    match driver.set_port_config(config) {
        Ok(()) => CError::Success,
        Err(_) => CError::I2cWrite,
    }
}

/// Read the configuration register.
pub fn read_port_config<T: SyncTransport>(driver: &mut Tca9534<T>) -> (r: (CError, u8))
    ensures
        old(driver).keeps_frame(*final(driver)),
        same_devices(old(driver).bus(), final(driver).bus()),
        r.0 == CError::Success || r.0 == CError::I2cRead,
        r.0 == CError::Success ==> old(driver).on_bus() && r.1 == old(driver).device().config,
{
    match driver.read_port_config() {
        Ok(value) => (CError::Success, value),
        Err(_) => (CError::I2cRead, 0),
    }
}

/// Configure a single pin's polarity, preserving every other polarity
/// bit.
pub fn set_pin_polarity<T: SyncTransport>(
    driver: &mut Tca9534<T>,
    pin: u8,
    polarity: CPinPolarity,
) -> (r: CError)
    ensures
        old(driver).keeps_frame(*final(driver)),
        r == CError::Success || r == CError::InvalidPin || r == CError::I2cWrite,
        r == CError::InvalidPin <==> pin > 7,
        r == CError::InvalidPin ==> *final(driver) == *old(driver),
        r == CError::Success ==> ({
            &&& old(driver).on_bus()
            &&& final(driver).device().polarity == with_polarity(
                old(driver).device().polarity,
                pin,
                (match polarity {
                    CPinPolarity::Normal => PinPolarity::Normal,
                    CPinPolarity::Inverted => PinPolarity::Inverted,
                }),
            )
            &&& final(driver).device().output == old(driver).device().output
            &&& final(driver).device().config == old(driver).device().config
        }),
        r == CError::I2cWrite ==> same_devices(old(driver).bus(), final(driver).bus()),
{
    if pin > 7 {
        return CError::InvalidPin;
    }
    let rust_polarity = c_pin_polarity_to_rust(polarity);
    match driver.set_pin_polarity(pin, rust_polarity) {
        Ok(()) => CError::Success,
        Err(_) => CError::I2cWrite,
    }
}

/// Configure the polarity of all pins at once.
pub fn set_port_polarity<T: SyncTransport>(driver: &mut Tca9534<T>, polarity: u8) -> (r: CError)
    ensures
        old(driver).keeps_frame(*final(driver)),
        r == CError::Success || r == CError::I2cWrite,
        r == CError::Success ==> ({
            &&& old(driver).on_bus()
            &&& final(driver).device().polarity == polarity
            &&& final(driver).device().output == old(driver).device().output
            &&& final(driver).device().config == old(driver).device().config
        }),
        r == CError::I2cWrite ==> same_devices(old(driver).bus(), final(driver).bus()),
{
    match driver.set_port_polarity(polarity) {
        Ok(()) => CError::Success,
        Err(_) => CError::I2cWrite,
    }
}

/// Read the polarity register.
pub fn read_port_polarity<T: SyncTransport>(driver: &mut Tca9534<T>) -> (r: (CError, u8))
    ensures
        old(driver).keeps_frame(*final(driver)),
        same_devices(old(driver).bus(), final(driver).bus()),
        r.0 == CError::Success || r.0 == CError::I2cRead,
        r.0 == CError::Success ==> old(driver).on_bus() && r.1 == old(driver).device().polarity,
{
    match driver.read_port_polarity() {
        Ok(value) => (CError::Success, value),
        Err(_) => (CError::I2cRead, 0),
    }
}

} // verus!
