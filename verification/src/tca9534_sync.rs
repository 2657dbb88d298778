//! Synchronous TCA9534 driver engine.
//!
//! The driver owns its transport exclusively and holds the device address
//! it talks to. Register operations go straight to the bus; pin
//! operations are read-modify-write over a whole register, so their
//! contracts state both what the addressed bit becomes and that every
//! sibling bit is preserved. A pin index above 7 is rejected in software,
//! before any bus transaction.

use crate::addresses;
use crate::bits::{
    apply_pin_config, apply_pin_level, apply_pin_polarity, apply_pin_toggle, level_at,
    pin_level_of, with_config, with_level, with_polarity, with_toggled,
};
use crate::device::{keeps_regs, reads_reg, same_devices, writes_reg, DeviceModel};
use crate::error::{Tca9534CoreError, Tca9534Error};
use crate::registers::{PinConfig, PinLevel, PinPolarity, Register};
use crate::transport::SyncTransport;
use vstd::prelude::*;

verus! {

/// TCA9534 synchronous driver structure.
#[derive(Debug)]
pub struct Tca9534<T> {
    transport: T,
    address: u8,
}

impl<T: SyncTransport> Tca9534<T> {
    /// The ghost bus the driver's transport is attached to.
    pub closed spec fn bus(&self) -> Map<u8, DeviceModel> {
        self.transport.devices()
    }

    /// The device address the driver currently talks to.
    pub closed spec fn dev_addr(&self) -> u8 {
        self.address
    }

    /// The register state of the addressed device.
    pub open spec fn device(&self) -> DeviceModel {
        self.bus()[self.dev_addr()]
    }

    /// Whether a device answers at the driver's current address.
    pub open spec fn on_bus(&self) -> bool {
        self.bus().dom().contains(self.dev_addr())
    }

    /// Everything a driver call must leave alone: the stored address, the
    /// set of devices on the bus, and the writable registers of every
    /// device other than the addressed one.
    pub open spec fn keeps_frame(self, post: Self) -> bool {
        &&& post.dev_addr() == self.dev_addr()
        &&& post.bus().dom() == self.bus().dom()
        &&& forall|a: u8|
            self.bus().dom().contains(a) && a != self.dev_addr() ==> keeps_regs(
                self.bus()[a],
                #[trigger] post.bus()[a],
            )
    }

    /// Create a new TCA9534 driver instance: store the transport and
    /// address, then run the reset sequence, which leaves the device with
    /// every pin an input, every output bit low and every polarity normal.
    pub fn new(transport: T, address: u8) -> (r: Result<Self, Tca9534Error<T::Error>>)
        ensures
            r matches Ok(d) ==> ({
                &&& d.dev_addr() == address
                &&& d.bus().dom() == transport.devices().dom()
                &&& transport.devices().dom().contains(address)
                &&& d.device().config == 0xFF
                &&& d.device().output == 0x00
                &&& d.device().polarity == 0x00
            }),
            r matches Ok(d) ==> forall|a: u8|
                transport.devices().dom().contains(a) && a != address ==> keeps_regs(
                    transport.devices()[a],
                    #[trigger] d.bus()[a],
                ),
            r matches Err(e) ==> e matches Tca9534Error::I2c(_),
    {
        let mut ans = Self { transport, address };
        match ans.init() {
            Ok(()) => Ok(ans),
            Err(e) => Err(e),
        }
    }

    /// Create a new TCA9534 driver instance with the default address
    /// (A2, A1, A0 all strapped low).
    pub fn with_default_address(transport: T) -> (r: Result<Self, Tca9534Error<T::Error>>)
        ensures
            r matches Ok(d) ==> ({
                &&& d.dev_addr() == addresses::ADDR_000
                &&& d.bus().dom() == transport.devices().dom()
                &&& transport.devices().dom().contains(addresses::ADDR_000)
                &&& d.device().config == 0xFF
                &&& d.device().output == 0x00
                &&& d.device().polarity == 0x00
            }),
            r matches Ok(d) ==> forall|a: u8|
                transport.devices().dom().contains(a) && a != addresses::ADDR_000 ==> keeps_regs(
                    transport.devices()[a],
                    #[trigger] d.bus()[a],
                ),
            r matches Err(e) ==> e matches Tca9534Error::I2c(_),
    {
        Self::new(transport, addresses::ADDR_000)
    }

    /// Set the I2C address (useful for addressing multiple devices in
    /// turn through one driver). Touches no register and never fails.
    pub fn set_address(&mut self, address: u8)
        ensures
            final(self).dev_addr() == address,
            final(self).bus() == old(self).bus(),
    {
        self.address = address;
    }

    /// Get the current I2C address.
    pub fn address(&self) -> (r: u8)
        ensures
            r == self.dev_addr(),
    {
        self.address
    }

    /// Initialize the device with its reset settings: all pins inputs,
    /// all outputs low, all polarities normal.
    fn init(&mut self) -> (r: Result<(), Tca9534Error<T::Error>>)
        ensures
            old(self).keeps_frame(*final(self)),
            r matches Ok(()) ==> ({
                &&& old(self).on_bus()
                &&& final(self).device().config == 0xFF
                &&& final(self).device().output == 0x00
                &&& final(self).device().polarity == 0x00
            }),
            r matches Err(e) ==> e matches Tca9534Error::I2c(_),
    {
        match self.write_register(Register::Config, 0xFF) {
            Ok(()) => (),
            Err(e) => return Err(e),
        }
        let ghost mid1 = *self;
        match self.write_register(Register::OutputPort, 0x00) {
            Ok(()) => (),
            Err(e) => return Err(e),
        }
        let ghost mid2 = *self;
        match self.write_register(Register::Polarity, 0x00) {
            Ok(()) => (),
            Err(e) => return Err(e),
        }
        proof {
            assert forall|a: u8|
                old(self).bus().dom().contains(a) && a != old(self).dev_addr() implies keeps_regs(
                old(self).bus()[a],
                #[trigger] final(self).bus()[a],
            ) by {
                assert(keeps_regs(old(self).bus()[a], mid1.bus()[a]));
                assert(keeps_regs(mid1.bus()[a], mid2.bus()[a]));
                assert(keeps_regs(mid2.bus()[a], final(self).bus()[a]));
            }
        }
        Ok(())
    }

    /// Read a register: one atomic write-then-read transaction that
    /// selects the register and fetches its byte.
    pub fn read_register(&mut self, reg: Register) -> (r: Result<u8, Tca9534Error<T::Error>>)
        ensures
            old(self).keeps_frame(*final(self)),
            same_devices(old(self).bus(), final(self).bus()),
            r matches Ok(v) ==> old(self).on_bus() && reads_reg(
                old(self).device(),
                final(self).device(),
                reg.addr(),
                v,
            ),
            r matches Err(e) ==> e matches Tca9534Error::I2c(_),
    {
        let cmd: [u8; 1] = [reg.addr()];
        match self.transport.write_read(self.address, cmd.as_slice(), 1) {
            Ok(buffer) => Ok(buffer[0]),
            Err(e) => Err(Tca9534Error::I2c(e)),
        }
    }

    /// Write a register: one atomic two-byte transaction, register
    /// address then value.
    pub fn write_register(&mut self, reg: Register, value: u8) -> (r: Result<
        (),
        Tca9534Error<T::Error>,
    >)
        ensures
            old(self).keeps_frame(*final(self)),
            r matches Ok(()) ==> old(self).on_bus() && writes_reg(
                old(self).device(),
                final(self).device(),
                reg.addr(),
                value,
            ),
            r matches Err(e) ==> (e matches Tca9534Error::I2c(_)) && same_devices(
                old(self).bus(),
                final(self).bus(),
            ),
    {
        let payload: [u8; 2] = [reg.addr(), value];
        match self.transport.write(self.address, payload.as_slice()) {
            Ok(()) => Ok(()),
            Err(e) => Err(Tca9534Error::I2c(e)),
        }
    }

    /// Read all input pins at once: the current input port byte.
    pub fn read_input_port(&mut self) -> (r: Result<u8, Tca9534Error<T::Error>>)
        ensures
            old(self).keeps_frame(*final(self)),
            same_devices(old(self).bus(), final(self).bus()),
            r matches Ok(v) ==> old(self).on_bus() && v == final(self).device().input,
            r matches Err(e) ==> e matches Tca9534Error::I2c(_),
    {
        self.read_register(Register::InputPort)
    }

    /// Read a specific input pin. Fails with `InvalidPin`, before any bus
    /// transaction, for a pin above 7.
    pub fn read_pin_input(&mut self, pin: u8) -> (r: Result<PinLevel, Tca9534Error<T::Error>>)
        ensures
            old(self).keeps_frame(*final(self)),
            same_devices(old(self).bus(), final(self).bus()),
            pin > 7 ==> (r matches Err(e) && e matches Tca9534Error::Core(
                Tca9534CoreError::InvalidPin,
            )) && *final(self) == *old(self),
            r matches Ok(level) ==> ({
                &&& pin <= 7
                &&& old(self).on_bus()
                &&& level == level_at(final(self).device().input, pin)
            }),
            r matches Err(e) ==> (pin <= 7 ==> e matches Tca9534Error::I2c(_)),
    {
        if pin > 7 {
            return Err(Tca9534Error::Core(Tca9534CoreError::InvalidPin));
        }
        let port_value = match self.read_input_port() {
            Ok(v) => v,
            Err(e) => return Err(e),
        };
        Ok(pin_level_of(port_value, pin))
    }

    /// Write all output pins at once: the whole output port byte.
    pub fn write_output_port(&mut self, value: u8) -> (r: Result<(), Tca9534Error<T::Error>>)
        ensures
            old(self).keeps_frame(*final(self)),
            r matches Ok(()) ==> ({
                &&& old(self).on_bus()
                &&& final(self).device().output == value
                &&& final(self).device().polarity == old(self).device().polarity
                &&& final(self).device().config == old(self).device().config
            }),
            r matches Err(e) ==> (e matches Tca9534Error::I2c(_)) && same_devices(
                old(self).bus(),
                final(self).bus(),
            ),
    {
        self.write_register(Register::OutputPort, value)
    }

    /// Read the current output port register value.
    pub fn read_output_port(&mut self) -> (r: Result<u8, Tca9534Error<T::Error>>)
        ensures
            old(self).keeps_frame(*final(self)),
            same_devices(old(self).bus(), final(self).bus()),
            r matches Ok(v) ==> old(self).on_bus() && v == old(self).device().output,
            r matches Err(e) ==> e matches Tca9534Error::I2c(_),
    {
        self.read_register(Register::OutputPort)
    }

    /// Set a specific output pin to `level`, preserving every other bit
    /// of the output port. Fails with `InvalidPin`, before any bus
    /// transaction, for a pin above 7.
    pub fn set_pin_output(&mut self, pin: u8, level: PinLevel) -> (r: Result<
        (),
        Tca9534Error<T::Error>,
    >)
        ensures
            old(self).keeps_frame(*final(self)),
            pin > 7 ==> (r matches Err(e) && e matches Tca9534Error::Core(
                Tca9534CoreError::InvalidPin,
            )) && *final(self) == *old(self),
            r matches Ok(()) ==> ({
                &&& pin <= 7
                &&& old(self).on_bus()
                &&& final(self).device().output == with_level(old(self).device().output, pin, level)
                &&& final(self).device().polarity == old(self).device().polarity
                &&& final(self).device().config == old(self).device().config
            }),
            r matches Err(_) ==> same_devices(old(self).bus(), final(self).bus()),
            r matches Err(e) ==> (pin <= 7 ==> e matches Tca9534Error::I2c(_)),
    {
        if pin > 7 {
            return Err(Tca9534Error::Core(Tca9534CoreError::InvalidPin));
        }
        let current_value = match self.read_output_port() {
            Ok(v) => v,
            Err(e) => return Err(e),
        };
        let new_value = apply_pin_level(current_value, pin, level);
        self.write_output_port(new_value)
    }

    /// Toggle a specific output pin, preserving every other bit of the
    /// output port. Fails with `InvalidPin`, before any bus transaction,
    /// for a pin above 7.
    pub fn toggle_pin_output(&mut self, pin: u8) -> (r: Result<(), Tca9534Error<T::Error>>)
        ensures
            old(self).keeps_frame(*final(self)),
            pin > 7 ==> (r matches Err(e) && e matches Tca9534Error::Core(
                Tca9534CoreError::InvalidPin,
            )) && *final(self) == *old(self),
            r matches Ok(()) ==> ({
                &&& pin <= 7
                &&& old(self).on_bus()
                &&& final(self).device().output == with_toggled(old(self).device().output, pin)
                &&& final(self).device().polarity == old(self).device().polarity
                &&& final(self).device().config == old(self).device().config
            }),
            r matches Err(_) ==> same_devices(old(self).bus(), final(self).bus()),
            r matches Err(e) ==> (pin <= 7 ==> e matches Tca9534Error::I2c(_)),
    {
        if pin > 7 {
            return Err(Tca9534Error::Core(Tca9534CoreError::InvalidPin));
        }
        let current_value = match self.read_output_port() {
            Ok(v) => v,
            Err(e) => return Err(e),
        };
        let new_value = apply_pin_toggle(current_value, pin);
        self.write_output_port(new_value)
    }

    /// Configure the direction of a specific pin, preserving every other
    /// bit of the configuration register. Fails with `InvalidPin`, before
    /// any bus transaction, for a pin above 7.
    pub fn set_pin_config(&mut self, pin: u8, config: PinConfig) -> (r: Result<
        (),
        Tca9534Error<T::Error>,
    >)
        ensures
            old(self).keeps_frame(*final(self)),
            pin > 7 ==> (r matches Err(e) && e matches Tca9534Error::Core(
                Tca9534CoreError::InvalidPin,
            )) && *final(self) == *old(self),
            r matches Ok(()) ==> ({
                &&& pin <= 7
                &&& old(self).on_bus()
                &&& final(self).device().config == with_config(old(self).device().config, pin, config)
                &&& final(self).device().output == old(self).device().output
                &&& final(self).device().polarity == old(self).device().polarity
            }),
            r matches Err(_) ==> same_devices(old(self).bus(), final(self).bus()),
            r matches Err(e) ==> (pin <= 7 ==> e matches Tca9534Error::I2c(_)),
    {
        if pin > 7 {
            return Err(Tca9534Error::Core(Tca9534CoreError::InvalidPin));
        }
        let current_config = match self.read_register(Register::Config) {
            Ok(v) => v,
            Err(e) => return Err(e),
        };
        let new_config = apply_pin_config(current_config, pin, config);
        self.write_register(Register::Config, new_config)
    }

    /// Configure the direction of all pins at once: the whole
    /// configuration register.
    pub fn set_port_config(&mut self, config: u8) -> (r: Result<(), Tca9534Error<T::Error>>)
        ensures
            old(self).keeps_frame(*final(self)),
            r matches Ok(()) ==> ({
                &&& old(self).on_bus()
                &&& final(self).device().config == config
                &&& final(self).device().output == old(self).device().output
                &&& final(self).device().polarity == old(self).device().polarity
            }),
            r matches Err(e) ==> (e matches Tca9534Error::I2c(_)) && same_devices(
                old(self).bus(),
                final(self).bus(),
            ),
    {
        self.write_register(Register::Config, config)
    }

    /// Read the configuration register.
    pub fn read_port_config(&mut self) -> (r: Result<u8, Tca9534Error<T::Error>>)
        ensures
            old(self).keeps_frame(*final(self)),
            same_devices(old(self).bus(), final(self).bus()),
            r matches Ok(v) ==> old(self).on_bus() && v == old(self).device().config,
            r matches Err(e) ==> e matches Tca9534Error::I2c(_),
    {
        self.read_register(Register::Config)
    }

    /// Set the polarity of a specific pin, preserving every other bit of
    /// the polarity register. Fails with `InvalidPin`, before any bus
    /// transaction, for a pin above 7.
    pub fn set_pin_polarity(&mut self, pin: u8, polarity: PinPolarity) -> (r: Result<
        (),
        Tca9534Error<T::Error>,
    >)
        ensures
            old(self).keeps_frame(*final(self)),
            pin > 7 ==> (r matches Err(e) && e matches Tca9534Error::Core(
                Tca9534CoreError::InvalidPin,
            )) && *final(self) == *old(self),
            r matches Ok(()) ==> ({
                &&& pin <= 7
                &&& old(self).on_bus()
                &&& final(self).device().polarity == with_polarity(
                    old(self).device().polarity,
                    pin,
                    polarity,
                )
                &&& final(self).device().output == old(self).device().output
                &&& final(self).device().config == old(self).device().config
            }),
            r matches Err(_) ==> same_devices(old(self).bus(), final(self).bus()),
            r matches Err(e) ==> (pin <= 7 ==> e matches Tca9534Error::I2c(_)),
    {
        if pin > 7 {
            return Err(Tca9534Error::Core(Tca9534CoreError::InvalidPin));
        }
        let current_polarity = match self.read_register(Register::Polarity) {
            Ok(v) => v,
            Err(e) => return Err(e),
        };
        let new_polarity = apply_pin_polarity(current_polarity, pin, polarity);
        self.write_register(Register::Polarity, new_polarity)
    }

    /// Set the polarity of all pins at once: the whole polarity register.
    pub fn set_port_polarity(&mut self, polarity: u8) -> (r: Result<(), Tca9534Error<T::Error>>)
        ensures
            old(self).keeps_frame(*final(self)),
            r matches Ok(()) ==> ({
                &&& old(self).on_bus()
                &&& final(self).device().polarity == polarity
                &&& final(self).device().output == old(self).device().output
                &&& final(self).device().config == old(self).device().config
            }),
            r matches Err(e) ==> (e matches Tca9534Error::I2c(_)) && same_devices(
                old(self).bus(),
                final(self).bus(),
            ),
    {
        self.write_register(Register::Polarity, polarity)
    }

    /// Read the polarity register.
    pub fn read_port_polarity(&mut self) -> (r: Result<u8, Tca9534Error<T::Error>>)
        ensures
            old(self).keeps_frame(*final(self)),
            same_devices(old(self).bus(), final(self).bus()),
            r matches Ok(v) ==> old(self).on_bus() && v == old(self).device().polarity,
            r matches Err(e) ==> e matches Tca9534Error::I2c(_),
    {
        self.read_register(Register::Polarity)
    }
}

} // verus!
