//! Tests of the small value types: mode table, identity, address,
//! register map.

use bmp180::{Address, Id, Mode, Register};

#[test]
fn delay_table() {
    assert_eq!(Mode::UltraLowPower.delay_ms(), 5);
    assert_eq!(Mode::Standard.delay_ms(), 8);
    assert_eq!(Mode::HighResolution.delay_ms(), 14);
    assert_eq!(Mode::UltraHighResolution.delay_ms(), 26);
}

#[test]
fn oversampling_ordinals() {
    assert_eq!(Mode::UltraLowPower.oversampling(), 0);
    assert_eq!(Mode::Standard.oversampling(), 1);
    assert_eq!(Mode::HighResolution.oversampling(), 2);
    assert_eq!(Mode::UltraHighResolution.oversampling(), 3);
}

#[test]
fn id_validity() {
    assert!(Id::is_valid(0x55));
    assert_eq!(Id::Valid.value(), 0x55);
    let mut others = 0usize;
    for byte in 0..=255u8 {
        if byte != 0x55 {
            assert!(!Id::is_valid(byte));
            others += 1;
        }
    }
    assert_eq!(others, 255);
}

#[test]
fn address_values() {
    assert_eq!(Address::Default.value(), 0x77);
    assert_eq!(Address::Other(0x76).value(), 0x76);
    assert_eq!(Address::from_value(0x77), Address::Default);
    assert_eq!(Address::from_value(0x13), Address::Other(0x13));
}

#[test]
fn register_map() {
    assert_eq!(Register::ChipId.value(), 0xD0);
    assert_eq!(Register::CalibrationAc1.value(), 0xAA);
    assert_eq!(Register::Control.value(), 0xF4);
    assert_eq!(Register::TempPressureData.value(), 0xF6);
    assert_eq!(Register::ReadTempCmd.value(), 0x2E);
    assert_eq!(Register::ReadPressureCmd.value(), 0x34);
}
