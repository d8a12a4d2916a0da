use sparkfun_otos::registers::Register;
use sparkfun_otos::{Error, SignalProcessConfig, SparkFunOTOS, Version, Versions, DEFAULT_ADDR, PRODUCT_ID};

#[test]
fn constants() {
    assert_eq!(PRODUCT_ID, 0x5F);
    assert_eq!(DEFAULT_ADDR, 0x17);
    assert_eq!(Register::VERSIONS, Register::HW_VERSION);
    assert_eq!(Register::POS, 0x20);
    assert_eq!(Register::VEL, 0x26);
    assert_eq!(Register::ACCEL, 0x2C);
    assert_eq!(Register::POS_SD, 0x32);
    assert_eq!(Register::VEL_SD, 0x38);
    assert_eq!(Register::ACCEL_SD, 0x3E);
    assert_eq!(Register::ACCEL_HEADING_H_SD, 0x43);
    assert_eq!(Register::SCALARS, Register::SCALAR_LINEAR);
}

#[test]
fn version_fields() {
    let v = Version::from_bits(0x21);
    assert_eq!(v.major(), 2);
    assert_eq!(v.minor(), 1);
    assert_eq!(v.into_bits(), 0x21);
    assert_eq!(Version::new().into_bits(), 0);
    assert_eq!(Version::default().into_bits(), 0);
}

#[test]
fn version_setters_keep_other_field() {
    let v = Version::from_bits(0x21).with_minor(0xf);
    assert_eq!(v.into_bits(), 0x2f);
    let v = v.with_major(0x7);
    assert_eq!(v.into_bits(), 0x7f);
    assert_eq!(v.minor(), 0xf);
    let mut w = Version::new();
    w.set_major(3);
    w.set_minor(4);
    assert_eq!(w.into_bits(), 0x34);
}

#[test]
fn version_checked_setters_refuse_wide_values() {
    let v = Version::from_bits(0x21);
    assert!(v.with_minor_checked(16).is_err());
    assert!(v.with_major_checked(200).is_err());
    assert_eq!(v.with_minor_checked(5).unwrap().into_bits(), 0x25);
    let mut w = v;
    assert_eq!(w.set_major_checked(16), Err(()));
    assert_eq!(w.into_bits(), 0x21);
    assert_eq!(w.set_major_checked(9), Ok(()));
    assert_eq!(w.into_bits(), 0x91);
}

#[test]
fn config_default_and_flags() {
    let c = SignalProcessConfig::default();
    assert_eq!(c.into_bits(), 0x0F);
    assert!(c.en_lut() && c.en_acc() && c.en_rot() && c.en_var());
    let n = SignalProcessConfig::new();
    assert_eq!(n.into_bits(), 0);
    assert!(!n.en_lut() && !n.en_acc() && !n.en_rot() && !n.en_var());
}

#[test]
fn config_flag_setters() {
    let c = SignalProcessConfig::from_bits(0xF0).with_en_acc(true);
    assert_eq!(c.into_bits(), 0xF2);
    assert!(c.en_acc());
    assert!(!c.en_lut());
    let c = c.with_en_var(true).with_en_acc(false);
    assert_eq!(c.into_bits(), 0xF8);
    let mut d = SignalProcessConfig::default();
    d.set_en_rot(false);
    assert_eq!(d.into_bits(), 0x0B);
    d.set_en_lut(false);
    assert_eq!(d.into_bits(), 0x0A);
    assert_eq!(d.set_en_lut_checked(true), Ok(()));
    assert_eq!(d.into_bits(), 0x0B);
    assert_eq!(d.with_en_rot_checked(true).unwrap().into_bits(), 0x0F);
}

#[test]
fn versions_equality() {
    let a = Versions { hw: Version::from_bits(0x10), fw: Version::from_bits(0x23) };
    let b = Versions { hw: Version::from_bits(0x10), fw: Version::from_bits(0x23) };
    assert_eq!(a, b);
}

#[test]
fn error_descriptions() {
    assert_eq!(Error::I2cError.description(), "I2C communication error");
    assert_eq!(Error::PinError.description(), "Interrurpt waiting error");
    assert_eq!(Error::Timeout.description(), "");
    assert_eq!(Error::IncorrectProductID.description(), "");
    assert_eq!(Error::CalibrationError.description(), "");
    assert_eq!(Error::ScalarOutOfBounds.description(), "");
}

#[test]
fn driver_holds_its_parts() {
    let mut otos = SparkFunOTOS::new(7u32, "pin");
    *otos.i2c() += 1;
    assert_eq!(*otos.irq_pin(), "pin");
    assert_eq!(otos.release(), (8, "pin"));
}

#[test]
fn bitfield_conversions() {
    let v: Version = Version::from(0x34u8);
    assert_eq!(v.major(), 3);
    assert_eq!(u8::from(v), 0x34);
    let c = SignalProcessConfig::from(0x05u8);
    assert!(c.en_lut() && !c.en_acc() && c.en_rot() && !c.en_var());
    assert_eq!(u8::from(c), 0x05);
}
