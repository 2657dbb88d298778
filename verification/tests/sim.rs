//! Tests of the simulated bus itself, through the raw transport
//! operations.

use tca9534::{SimTransport, SyncTransport};

#[test]
fn raw_read_follows_register_pointer() {
    let mut bus = SimTransport::new(0x20);
    bus.write(0x20, &[0x03, 0x0F]).unwrap();
    assert_eq!(bus.read(0x20, 2).unwrap(), vec![0x0F, 0x0F]);
    bus.write(0x20, &[0x01]).unwrap();
    assert_eq!(bus.read(0x20, 1).unwrap(), vec![0x00]);
}

#[test]
fn wrong_address_is_not_acknowledged() {
    let mut bus = SimTransport::new(0x20);
    assert!(bus.write(0x21, &[0x01, 0xFF]).is_err());
    assert!(bus.read(0x21, 1).is_err());
    assert!(bus.write_read(0x21, &[0x00], 1).is_err());
    assert_eq!(bus.write_read(0x20, &[0x01], 1).unwrap(), vec![0x00]);
}

#[test]
fn input_port_write_is_ignored() {
    let mut bus = SimTransport::new(0x20);
    bus.write(0x20, &[0x00, 0xAA]).unwrap();
    assert_eq!(bus.write_read(0x20, &[0x00], 1).unwrap(), vec![0x00]);
}

#[test]
fn malformed_payload_is_rejected() {
    let mut bus = SimTransport::new(0x20);
    assert!(bus.write(0x20, &[]).is_err());
    assert!(bus.write(0x20, &[0x01, 0x02, 0x03]).is_err());
    assert!(bus.write_read(0x20, &[0x01, 0x02], 1).is_err());
}

#[test]
fn input_port_mixes_outputs_pins_and_polarity() {
    let mut bus = SimTransport::new(0x20);
    bus.set_pins(0xF0);
    bus.write(0x20, &[0x03, 0xF0]).unwrap();
    bus.write(0x20, &[0x01, 0x05]).unwrap();
    assert_eq!(bus.write_read(0x20, &[0x00], 1).unwrap(), vec![0xF5]);
    bus.write(0x20, &[0x02, 0xFF]).unwrap();
    assert_eq!(bus.write_read(0x20, &[0x00], 1).unwrap(), vec![0x0A]);
}
