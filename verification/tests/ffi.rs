//! Tests for the flat foreign-call layer: status codes, validation
//! decisions, conversions, and the per-operation cores over an
//! initialized driver.

use tca9534::ffi;
use tca9534::ffi::{CError, CPinConfig, CPinLevel, CPinPolarity};
use tca9534::{
    PinConfig, PinLevel, PinPolarity, SimTransport, SyncTransport, Tca9534CoreError, Tca9534Sync,
};

/// Lets a fixed number of transactions through, then fails every one.
struct BudgetTransport {
    inner: SimTransport,
    ok_budget: usize,
}

impl BudgetTransport {
    fn new(ok_budget: usize) -> BudgetTransport {
        BudgetTransport {
            inner: SimTransport::new(0x20),
            ok_budget,
        }
    }
}

impl SyncTransport for BudgetTransport {
    type Error = ();

    fn write(&mut self, addr: u8, bytes: &[u8]) -> Result<(), ()> {
        if self.ok_budget == 0 {
            return Err(());
        }
        self.ok_budget -= 1;
        self.inner.write(addr, bytes)
    }

    fn read(&mut self, addr: u8, len: usize) -> Result<Vec<u8>, ()> {
        if self.ok_budget == 0 {
            return Err(());
        }
        self.ok_budget -= 1;
        self.inner.read(addr, len)
    }

    fn write_read(&mut self, addr: u8, wr_bytes: &[u8], rd_len: usize) -> Result<Vec<u8>, ()> {
        if self.ok_budget == 0 {
            return Err(());
        }
        self.ok_budget -= 1;
        self.inner.write_read(addr, wr_bytes, rd_len)
    }
}

fn sim() -> SimTransport {
    SimTransport::new(0x20)
}

/// An initialized boundary driver over a fresh simulated bus.
fn boundary_driver() -> Tca9534Sync<SimTransport> {
    let (status, driver) = ffi::init(sim(), 0x20);
    assert_eq!(status, CError::Success);
    driver.unwrap()
}

#[test]
fn status_codes_are_stable() {
    assert_eq!(CError::Success.code(), 0);
    assert_eq!(CError::InvalidPin.code(), -1);
    assert_eq!(CError::I2cWrite.code(), -2);
    assert_eq!(CError::I2cRead.code(), -3);
    assert_eq!(CError::NullPtr.code(), -4);
    assert_eq!(CError::InitFailed.code(), -5);
}

#[test]
fn null_handle_is_rejected_before_bus_access() {
    assert_eq!(ffi::null_status(true, false), Some(CError::NullPtr));
    assert_eq!(ffi::null_status(false, true), Some(CError::NullPtr));
    assert_eq!(ffi::null_status(true, true), Some(CError::NullPtr));
    assert_eq!(ffi::null_status(false, false), None);
}

#[test]
fn missing_callbacks_are_rejected() {
    assert_eq!(ffi::ops_status(true, true, true), None);
    assert_eq!(ffi::ops_status(false, true, true), Some(CError::NullPtr));
    assert_eq!(ffi::ops_status(true, false, true), Some(CError::NullPtr));
    assert_eq!(ffi::ops_status(true, true, false), Some(CError::NullPtr));
    assert_eq!(ffi::ops_status(false, false, false), Some(CError::NullPtr));
}

#[test]
fn enum_conversions_round() {
    assert_eq!(ffi::c_pin_config_to_rust(CPinConfig::Input), PinConfig::Input);
    assert_eq!(ffi::c_pin_config_to_rust(CPinConfig::Output), PinConfig::Output);
    assert_eq!(ffi::c_pin_level_to_rust(CPinLevel::Low), PinLevel::Low);
    assert_eq!(ffi::c_pin_level_to_rust(CPinLevel::High), PinLevel::High);
    assert_eq!(ffi::rust_pin_level_to_c(PinLevel::Low), CPinLevel::Low);
    assert_eq!(ffi::rust_pin_level_to_c(PinLevel::High), CPinLevel::High);
    assert_eq!(ffi::c_pin_polarity_to_rust(CPinPolarity::Normal), PinPolarity::Normal);
    assert_eq!(ffi::c_pin_polarity_to_rust(CPinPolarity::Inverted), PinPolarity::Inverted);
}

#[test]
fn core_errors_collapse_to_status_codes() {
    assert_eq!(ffi::core_error_to_c_error(Tca9534CoreError::InvalidPin), CError::InvalidPin);
    assert_eq!(CError::from(Tca9534CoreError::InvalidPin), CError::InvalidPin);
}

#[test]
fn register_decoding() {
    assert_eq!(ffi::register_from_addr(0x00).unwrap().addr(), 0x00);
    assert_eq!(ffi::register_from_addr(0x01).unwrap().addr(), 0x01);
    assert_eq!(ffi::register_from_addr(0x02).unwrap().addr(), 0x02);
    assert_eq!(ffi::register_from_addr(0x03).unwrap().addr(), 0x03);
    for bad in [0x04u8, 0x10, 0xFF] {
        assert!(ffi::register_from_addr(bad).is_none());
    }
}

#[test]
fn init_reports_reset_outcome_and_hands_the_driver_back() {
    let (status, driver) = ffi::init(sim(), 0x20);
    assert_eq!(status, CError::Success);
    assert_eq!(driver.unwrap().address(), 0x20);

    let (status, driver) = ffi::init_default(sim());
    assert_eq!(status, CError::Success);
    assert_eq!(driver.unwrap().address(), 0x20);

    let (status, driver) = ffi::init(SimTransport::new(0x21), 0x20);
    assert_eq!(status, CError::InitFailed);
    assert!(driver.is_none());

    for budget in [0, 2] {
        let (status, driver) = ffi::init(BudgetTransport::new(budget), 0x20);
        assert_eq!(status, CError::InitFailed);
        assert!(driver.is_none());
    }
}

#[test]
fn read_register_returns_the_device_byte() {
    let mut driver = boundary_driver();
    assert_eq!(ffi::read_register(&mut driver, 0x00), (CError::Success, 0x00));
    assert_eq!(ffi::read_register(&mut driver, 0x01), (CError::Success, 0x00));
    assert_eq!(ffi::read_register(&mut driver, 0x02), (CError::Success, 0x00));
    assert_eq!(ffi::read_register(&mut driver, 0x03), (CError::Success, 0xFF));
    assert_eq!(ffi::write_register(&mut driver, 0x01, 0x42), CError::Success);
    assert_eq!(ffi::read_register(&mut driver, 0x01), (CError::Success, 0x42));
    assert_eq!(ffi::read_register(&mut driver, 0x09).0, CError::InvalidPin);
    assert_eq!(ffi::read_register(&mut driver, 0x01), (CError::Success, 0x42));

    let (status, driver) = ffi::init(BudgetTransport::new(3), 0x20);
    assert_eq!(status, CError::Success);
    let mut driver = driver.unwrap();
    assert_eq!(ffi::read_register(&mut driver, 0x01).0, CError::I2cRead);
}

#[test]
fn write_register_validates_address_and_stores_the_byte() {
    let mut driver = boundary_driver();
    assert_eq!(ffi::write_register(&mut driver, 0x04, 0xAA), CError::InvalidPin);
    assert_eq!(ffi::write_register(&mut driver, 0x02, 0xAA), CError::Success);
    assert_eq!(ffi::read_register(&mut driver, 0x02), (CError::Success, 0xAA));

    let (status, driver) = ffi::init(BudgetTransport::new(3), 0x20);
    assert_eq!(status, CError::Success);
    let mut driver = driver.unwrap();
    assert_eq!(ffi::write_register(&mut driver, 0x01, 0xAA), CError::I2cWrite);
}

#[test]
fn port_operations_over_the_boundary() {
    let mut driver = boundary_driver();
    assert_eq!(ffi::read_input_port(&mut driver), (CError::Success, 0x00));
    assert_eq!(ffi::read_output_port(&mut driver), (CError::Success, 0x00));
    assert_eq!(ffi::write_output_port(&mut driver, 0x55), CError::Success);
    assert_eq!(ffi::read_output_port(&mut driver), (CError::Success, 0x55));
    assert_eq!(ffi::read_port_config(&mut driver), (CError::Success, 0xFF));
    assert_eq!(ffi::set_port_config(&mut driver, 0x0F), CError::Success);
    assert_eq!(ffi::read_port_config(&mut driver), (CError::Success, 0x0F));
    assert_eq!(ffi::read_port_polarity(&mut driver), (CError::Success, 0x00));
    assert_eq!(ffi::set_port_polarity(&mut driver, 0x81), CError::Success);
    assert_eq!(ffi::read_port_polarity(&mut driver), (CError::Success, 0x81));

    let (status, driver) = ffi::init(BudgetTransport::new(3), 0x20);
    assert_eq!(status, CError::Success);
    let mut driver = driver.unwrap();
    assert_eq!(ffi::read_output_port(&mut driver).0, CError::I2cRead);
    assert_eq!(ffi::write_output_port(&mut driver, 0x01), CError::I2cWrite);
}

#[test]
fn pin_operations_validate_pin_first() {
    let mut driver = boundary_driver();
    for pin in [8u8, 42, 255] {
        assert_eq!(ffi::read_pin_input(&mut driver, pin).0, CError::InvalidPin);
        assert_eq!(ffi::set_pin_output(&mut driver, pin, CPinLevel::High), CError::InvalidPin);
        assert_eq!(ffi::toggle_pin_output(&mut driver, pin), CError::InvalidPin);
        assert_eq!(ffi::set_pin_config(&mut driver, pin, CPinConfig::Output), CError::InvalidPin);
        assert_eq!(
            ffi::set_pin_polarity(&mut driver, pin, CPinPolarity::Inverted),
            CError::InvalidPin
        );
    }
    assert_eq!(ffi::set_pin_output(&mut driver, 0, CPinLevel::High), CError::Success);
    assert_eq!(ffi::toggle_pin_output(&mut driver, 7), CError::Success);
    assert_eq!(ffi::set_pin_config(&mut driver, 3, CPinConfig::Output), CError::Success);
    assert_eq!(ffi::set_pin_polarity(&mut driver, 3, CPinPolarity::Inverted), CError::Success);
}

#[test]
fn boundary_pin_writes_preserve_sibling_bits() {
    let mut driver = boundary_driver();
    assert_eq!(ffi::write_output_port(&mut driver, 0x5A), CError::Success);
    assert_eq!(ffi::set_pin_output(&mut driver, 0, CPinLevel::High), CError::Success);
    assert_eq!(ffi::read_output_port(&mut driver), (CError::Success, 0x5B));
    assert_eq!(ffi::toggle_pin_output(&mut driver, 7), CError::Success);
    assert_eq!(ffi::read_output_port(&mut driver), (CError::Success, 0xDB));
    assert_eq!(ffi::set_pin_config(&mut driver, 2, CPinConfig::Output), CError::Success);
    assert_eq!(ffi::read_port_config(&mut driver), (CError::Success, 0xFB));
}

#[test]
fn read_pin_input_reflects_external_pins() {
    let mut transport = sim();
    transport.set_pins(0b0000_0010);
    let (status, driver) = ffi::init(transport, 0x20);
    assert_eq!(status, CError::Success);
    let mut driver = driver.unwrap();
    assert_eq!(ffi::read_pin_input(&mut driver, 1), (CError::Success, CPinLevel::High));
    assert_eq!(ffi::read_pin_input(&mut driver, 0), (CError::Success, CPinLevel::Low));
}
