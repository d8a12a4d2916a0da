//! The driver handle and the bit layouts of the sensor's small registers.
use vstd::prelude::*;

verus! {

/// Main driver struct: the I2C bus and the data-ready pin of one sensor.
pub struct SparkFunOTOS<I2C, IrqPin> {
    i2c: I2C,
    /// IO9 Input async pin(should not be pulled)
    irq_pin: IrqPin,
}

impl<I2C, IrqPin> SparkFunOTOS<I2C, IrqPin> {
    /// The bus that the driver was made with.
    pub closed spec fn bus(&self) -> I2C {
        self.i2c
    }

    /// The data-ready pin that the driver was made with.
    pub closed spec fn pin(&self) -> IrqPin {
        self.irq_pin
    }

    /// params: i2c bus, IO9 Input async pin(should not be pulled)
    pub fn new(i2c: I2C, irq_pin: IrqPin) -> (otos: Self)
        ensures
            otos.bus() == i2c,
            otos.pin() == irq_pin,
    {
        Self { i2c, irq_pin }
    }

    /// The I2C bus, for performing the exchanges of the driver.
    pub fn i2c(&mut self) -> (bus: &mut I2C)
        ensures
            *bus == old(self).bus(),
            final(self).bus() == *final(bus),
            final(self).pin() == old(self).pin(),
    {
        &mut self.i2c
    }

    /// The data-ready pin, for waiting on new data.
    pub fn irq_pin(&mut self) -> (pin: &mut IrqPin)
        ensures
            *pin == old(self).pin(),
            final(self).pin() == *final(pin),
            final(self).bus() == old(self).bus(),
    {
        &mut self.irq_pin
    }

    /// Gives back the bus and the pin.
    pub fn release(self) -> (parts: (I2C, IrqPin))
        ensures
            parts.0 == self.bus(),
            parts.1 == self.pin(),
    {
        (self.i2c, self.irq_pin)
    }
}

/// The minor version: the low four bits of a version register.
pub open spec fn minor_of(bits: u8) -> u8 {
    bits & 0x0F
}

/// The major version: the high four bits of a version register.
pub open spec fn major_of(bits: u8) -> u8 {
    bits >> 4
}

/// bitfield struct of Hardware/Firmware version.
/// Has minor, major 4bit fields.
#[derive(Clone, Copy, Debug, PartialEq, Eq, Structural)]
pub struct Version(u8);

impl View for Version {
    type V = u8;

    /// The register byte.
    closed spec fn view(&self) -> u8 {
        self.0
    }
}

impl Version {
    /// Creates a new default initialized bitfield.
    pub fn new() -> (v: Version)
        ensures
            v@ == 0,
    {
        Version(0)
    }

    /// Convert from bits.
    pub fn from_bits(bits: u8) -> (v: Version)
        ensures
            v@ == bits,
    {
        Version(bits)
    }

    /// Convert into bits.
    pub fn into_bits(self) -> (bits: u8)
        ensures
            bits == self@,
    {
        self.0
    }

    /// Bits: 0..4
    pub fn minor(&self) -> (m: u8)
        ensures
            m == minor_of(self@),
    {
        self.0 & 0x0F
    }

    /// Bits: 4..8
    pub fn major(&self) -> (m: u8)
        ensures
            m == major_of(self@),
    {
        self.0 >> 4
    }

    /// Bits: 0..4. Fails on a value that does not fit in four bits, and then
    /// leaves the bitfield as it was.
    pub fn set_minor_checked(&mut self, value: u8) -> (r: Result<(), ()>)
        ensures
            r is Ok <==> value <= 15,
            r is Ok ==> final(self)@ == (old(self)@ & 0xF0) | value,
            r is Err ==> *final(self) == *old(self),
    {
        if value > 0x0F {
            return Err(());
        }
        self.0 = (self.0 & 0xF0) | (value & 0x0F);
        assert((value & 0x0F) == value) by (bit_vector)
            requires
                value <= 15,
        ;
        Ok(())
    }

    /// Bits: 4..8. Fails on a value that does not fit in four bits, and then
    /// leaves the bitfield as it was.
    pub fn set_major_checked(&mut self, value: u8) -> (r: Result<(), ()>)
        ensures
            r is Ok <==> value <= 15,
            r is Ok ==> final(self)@ == (old(self)@ & 0x0F) | (value << 4),
            r is Err ==> *final(self) == *old(self),
    {
        if value > 0x0F {
            return Err(());
        }
        self.0 = (self.0 & 0x0F) | ((value & 0x0F) << 4);
        assert(((value & 0x0F) << 4) == (value << 4)) by (bit_vector)
            requires
                value <= 15,
        ;
        Ok(())
    }

    /// Bits: 0..4
    pub fn set_minor(&mut self, value: u8)
        requires
            value <= 15,
        ensures
            final(self)@ == (old(self)@ & 0xF0) | value,
    {
        self.0 = (self.0 & 0xF0) | value;
    }

    /// Bits: 4..8
    pub fn set_major(&mut self, value: u8)
        requires
            value <= 15,
        ensures
            final(self)@ == (old(self)@ & 0x0F) | (value << 4),
    {
        self.0 = (self.0 & 0x0F) | (value << 4);
    }

    /// Bits: 0..4
    pub fn with_minor_checked(self, value: u8) -> (r: Result<Version, ()>)
        ensures
            r is Ok <==> value <= 15,
            r is Ok ==> r->Ok_0@ == (self@ & 0xF0) | value,
    {
        let mut v = self;
        match v.set_minor_checked(value) {
            Ok(_) => Ok(v),
            Err(_) => Err(()),
        }
    }

    /// Bits: 4..8
    pub fn with_major_checked(self, value: u8) -> (r: Result<Version, ()>)
        ensures
            r is Ok <==> value <= 15,
            r is Ok ==> r->Ok_0@ == (self@ & 0x0F) | (value << 4),
    {
        let mut v = self;
        match v.set_major_checked(value) {
            Ok(_) => Ok(v),
            Err(_) => Err(()),
        }
    }

    /// Bits: 0..4
    pub fn with_minor(self, value: u8) -> (v: Version)
        requires
            value <= 15,
        ensures
            v@ == (self@ & 0xF0) | value,
    {
        let mut v = self;
        v.set_minor(value);
        v
    }

    /// Bits: 4..8
    pub fn with_major(self, value: u8) -> (v: Version)
        requires
            value <= 15,
        ensures
            v@ == (self@ & 0x0F) | (value << 4),
    {
        let mut v = self;
        v.set_major(value);
        v
    }
}

/// A version byte is its minor version in the low four bits and its major
/// version in the high four: every byte splits so, and both fields read back
/// what was put into them without disturbing the other.
pub proof fn lemma_version_fields(bits: u8, value: u8)
    requires
        value <= 15,
    ensures
        minor_of(bits) <= 15,
        major_of(bits) <= 15,
        bits == minor_of(bits) + 16 * major_of(bits),
        minor_of((bits & 0xF0) | value) == value,
        major_of((bits & 0xF0) | value) == major_of(bits),
        major_of((bits & 0x0F) | (value << 4)) == value,
        minor_of((bits & 0x0F) | (value << 4)) == minor_of(bits),
{
    assert(bits & 0x0F <= 15) by (bit_vector);
    assert(bits >> 4 <= 15) by (bit_vector);
    assert(bits == (bits & 0x0F) + 16 * (bits >> 4)) by (bit_vector);
    assert(((bits & 0xF0) | value) & 0x0F == value) by (bit_vector)
        requires
            value <= 15,
    ;
    assert(((bits & 0xF0) | value) >> 4 == bits >> 4) by (bit_vector)
        requires
            value <= 15,
    ;
    assert(((bits & 0x0F) | (value << 4)) >> 4 == value) by (bit_vector)
        requires
            value <= 15,
    ;
    assert(((bits & 0x0F) | (value << 4)) & 0x0F == bits & 0x0F) by (bit_vector)
        requires
            value <= 15,
    ;
}

/// Hardware, Firmware versions struct.
#[derive(Clone, Copy, Debug, PartialEq, Eq, Structural)]
pub struct Versions {
    pub hw: Version,
    pub fw: Version,
}

/// Bit `i` of a signal process config register byte is set.
pub open spec fn flag_of(bits: u8, i: u8) -> bool {
    (bits >> i) & 1 == 1
}

/// The register byte with bit `i` set to `on` and every other bit kept.
pub open spec fn with_flag(bits: u8, i: u8, on: bool) -> u8 {
    if on {
        bits | (1u8 << i)
    } else {
        bits & !(1u8 << i)
    }
}

/// Bit of the lookup table calibration flag.
pub const EN_LUT_BIT: u8 = 0;

/// Bit of the accelerometer flag.
pub const EN_ACC_BIT: u8 = 1;

/// Bit of the rotation flag.
pub const EN_ROT_BIT: u8 = 2;

/// Bit of the variance flag.
pub const EN_VAR_BIT: u8 = 3;

/// Signal process config register bit fields
#[derive(Clone, Copy, Debug, PartialEq, Eq, Structural)]
pub struct SignalProcessConfig(u8);

impl View for SignalProcessConfig {
    type V = u8;

    /// The register byte.
    closed spec fn view(&self) -> u8 {
        self.0
    }
}

/// Reads one bit of a register byte.
fn read_flag(bits: u8, i: u8) -> (on: bool)
    requires
        i < 8,
    ensures
        on == flag_of(bits, i),
{
    (bits >> i) & 1 == 1
}

/// Sets one bit of a register byte to `on`, keeping the others.
fn write_flag(bits: u8, i: u8, on: bool) -> (r: u8)
    requires
        i < 8,
    ensures
        r == with_flag(bits, i, on),
{
    if on {
        bits | (1u8 << i)
    } else {
        bits & !(1u8 << i)
    }
}

impl SignalProcessConfig {
    /// Creates a new default initialized bitfield: every flag off.
    pub fn new() -> (c: SignalProcessConfig)
        ensures
            c@ == 0,
    {
        SignalProcessConfig(0)
    }

    /// Convert from bits.
    pub fn from_bits(bits: u8) -> (c: SignalProcessConfig)
        ensures
            c@ == bits,
    {
        SignalProcessConfig(bits)
    }

    /// Convert into bits.
    pub fn into_bits(self) -> (bits: u8)
        ensures
            bits == self@,
    {
        self.0
    }

    /// Whether to use the internal lookup table calibration for the
    /// optical sensor. Bits: 0..1
    pub fn en_lut(&self) -> (on: bool)
        ensures
            on == flag_of(self@, EN_LUT_BIT),
    {
        read_flag(self.0, EN_LUT_BIT)
    }

    /// Whether to feed the accelerometer data to the Kalman filters. Bits: 1..2
    pub fn en_acc(&self) -> (on: bool)
        ensures
            on == flag_of(self@, EN_ACC_BIT),
    {
        read_flag(self.0, EN_ACC_BIT)
    }

    /// Whether to rotate the IMU and optical sensor data by the
    /// heading angle. Bits: 2..3
    pub fn en_rot(&self) -> (on: bool)
        ensures
            on == flag_of(self@, EN_ROT_BIT),
    {
        read_flag(self.0, EN_ROT_BIT)
    }

    /// Whether to use the correct sensor variance in the Kalman
    /// filters, or use 0 varaince to effectively disable the filters. Bits: 3..4
    pub fn en_var(&self) -> (on: bool)
        ensures
            on == flag_of(self@, EN_VAR_BIT),
    {
        read_flag(self.0, EN_VAR_BIT)
    }

    /// Bits: 0..1
    pub fn set_en_lut(&mut self, value: bool)
        ensures
            final(self)@ == with_flag(old(self)@, EN_LUT_BIT, value),
    {
        self.0 = write_flag(self.0, EN_LUT_BIT, value);
    }

    /// Bits: 1..2
    pub fn set_en_acc(&mut self, value: bool)
        ensures
            final(self)@ == with_flag(old(self)@, EN_ACC_BIT, value),
    {
        self.0 = write_flag(self.0, EN_ACC_BIT, value);
    }

    /// Bits: 2..3
    pub fn set_en_rot(&mut self, value: bool)
        ensures
            final(self)@ == with_flag(old(self)@, EN_ROT_BIT, value),
    {
        self.0 = write_flag(self.0, EN_ROT_BIT, value);
    }

    /// Bits: 3..4
    pub fn set_en_var(&mut self, value: bool)
        ensures
            final(self)@ == with_flag(old(self)@, EN_VAR_BIT, value),
    {
        self.0 = write_flag(self.0, EN_VAR_BIT, value);
    }

    /// Bits: 0..1. A flag always fits, so this never fails.
    pub fn set_en_lut_checked(&mut self, value: bool) -> (r: Result<(), ()>)
        ensures
            r is Ok,
            final(self)@ == with_flag(old(self)@, EN_LUT_BIT, value),
    {
        self.set_en_lut(value);
        Ok(())
    }

    /// Bits: 1..2. A flag always fits, so this never fails.
    pub fn set_en_acc_checked(&mut self, value: bool) -> (r: Result<(), ()>)
        ensures
            r is Ok,
            final(self)@ == with_flag(old(self)@, EN_ACC_BIT, value),
    {
        self.set_en_acc(value);
        Ok(())
    }

    /// Bits: 2..3. A flag always fits, so this never fails.
    pub fn set_en_rot_checked(&mut self, value: bool) -> (r: Result<(), ()>)
        ensures
            r is Ok,
            final(self)@ == with_flag(old(self)@, EN_ROT_BIT, value),
    {
        self.set_en_rot(value);
        Ok(())
    }

    /// Bits: 3..4. A flag always fits, so this never fails.
    pub fn set_en_var_checked(&mut self, value: bool) -> (r: Result<(), ()>)
        ensures
            r is Ok,
            final(self)@ == with_flag(old(self)@, EN_VAR_BIT, value),
    {
        self.set_en_var(value);
        Ok(())
    }

    /// Bits: 0..1
    pub fn with_en_lut(self, value: bool) -> (c: SignalProcessConfig)
        ensures
            c@ == with_flag(self@, EN_LUT_BIT, value),
    {
        let mut c = self;
        c.set_en_lut(value);
        c
    }

    /// Bits: 1..2
    pub fn with_en_acc(self, value: bool) -> (c: SignalProcessConfig)
        ensures
            c@ == with_flag(self@, EN_ACC_BIT, value),
    {
        let mut c = self;
        c.set_en_acc(value);
        c
    }

    /// Bits: 2..3
    pub fn with_en_rot(self, value: bool) -> (c: SignalProcessConfig)
        ensures
            c@ == with_flag(self@, EN_ROT_BIT, value),
    {
        let mut c = self;
        c.set_en_rot(value);
        c
    }

    /// Bits: 3..4
    pub fn with_en_var(self, value: bool) -> (c: SignalProcessConfig)
        ensures
            c@ == with_flag(self@, EN_VAR_BIT, value),
    {
        let mut c = self;
        c.set_en_var(value);
        c
    }

    /// Bits: 0..1. A flag always fits, so this never fails.
    pub fn with_en_lut_checked(self, value: bool) -> (r: Result<SignalProcessConfig, ()>)
        ensures
            r is Ok,
            r->Ok_0@ == with_flag(self@, EN_LUT_BIT, value),
    {
        Ok(self.with_en_lut(value))
    }

    /// Bits: 1..2. A flag always fits, so this never fails.
    pub fn with_en_acc_checked(self, value: bool) -> (r: Result<SignalProcessConfig, ()>)
        ensures
            r is Ok,
            r->Ok_0@ == with_flag(self@, EN_ACC_BIT, value),
    {
        Ok(self.with_en_acc(value))
    }

    /// Bits: 2..3. A flag always fits, so this never fails.
    pub fn with_en_rot_checked(self, value: bool) -> (r: Result<SignalProcessConfig, ()>)
        ensures
            r is Ok,
            r->Ok_0@ == with_flag(self@, EN_ROT_BIT, value),
    {
        Ok(self.with_en_rot(value))
    }

    /// Bits: 3..4. A flag always fits, so this never fails.
    pub fn with_en_var_checked(self, value: bool) -> (r: Result<SignalProcessConfig, ()>)
        ensures
            r is Ok,
            r->Ok_0@ == with_flag(self@, EN_VAR_BIT, value),
    {
        Ok(self.with_en_var(value))
    }
}

impl Default for SignalProcessConfig {
    /// Every filter stage enabled: lookup table, accelerometer, rotation and
    /// variance.
    fn default() -> (c: SignalProcessConfig)
        ensures
            c@ == 0x0F,
    {
        SignalProcessConfig(0x0F)
    }
}

impl Default for Version {
    /// Version 0.0.
    fn default() -> (v: Version)
        ensures
            v@ == 0,
    {
        Version(0)
    }
}

impl From<u8> for Version {
    /// Convert from bits.
    fn from(v: u8) -> (r: Version)
        ensures
            r@ == v,
    {
        Version(v)
    }
}

impl vstd::std_specs::convert::FromSpecImpl<u8> for Version {
    open spec fn obeys_from_spec() -> bool {
        true
    }

    closed spec fn from_spec(v: u8) -> Version {
        Version(v)
    }
}

impl From<Version> for u8 {
    /// Convert into bits.
    fn from(v: Version) -> (r: u8)
        ensures
            r == v@,
    {
        v.0
    }
}

impl vstd::std_specs::convert::FromSpecImpl<Version> for u8 {
    open spec fn obeys_from_spec() -> bool {
        true
    }

    closed spec fn from_spec(v: Version) -> u8 {
        v.0
    }
}

impl From<u8> for SignalProcessConfig {
    /// Convert from bits.
    fn from(v: u8) -> (r: SignalProcessConfig)
        ensures
            r@ == v,
    {
        SignalProcessConfig(v)
    }
}

impl vstd::std_specs::convert::FromSpecImpl<u8> for SignalProcessConfig {
    open spec fn obeys_from_spec() -> bool {
        true
    }

    closed spec fn from_spec(v: u8) -> SignalProcessConfig {
        SignalProcessConfig(v)
    }
}

impl From<SignalProcessConfig> for u8 {
    /// Convert into bits.
    fn from(v: SignalProcessConfig) -> (r: u8)
        ensures
            r == v@,
    {
        v.0
    }
}

impl vstd::std_specs::convert::FromSpecImpl<SignalProcessConfig> for u8 {
    open spec fn obeys_from_spec() -> bool {
        true
    }

    closed spec fn from_spec(v: SignalProcessConfig) -> u8 {
        v.0
    }
}

/// Setting one flag of the signal process config reads back as set and
/// leaves every other bit of the register as it was.
pub proof fn lemma_flag_independence(bits: u8, i: u8, j: u8, on: bool)
    requires
        i < 8,
        j < 8,
    ensures
        flag_of(with_flag(bits, i, on), i) == on,
        i != j ==> flag_of(with_flag(bits, i, on), j) == flag_of(bits, j),
{
    if on {
        assert(((bits | (1u8 << i)) >> i) & 1 == 1) by (bit_vector)
            requires
                i < 8,
        ;
        assert(i != j ==> ((bits | (1u8 << i)) >> j) & 1 == (bits >> j) & 1) by (bit_vector)
            requires
                i < 8,
                j < 8,
        ;
    } else {
        assert(((bits & !(1u8 << i)) >> i) & 1 == 0) by (bit_vector)
            requires
                i < 8,
        ;
        assert(i != j ==> ((bits & !(1u8 << i)) >> j) & 1 == (bits >> j) & 1) by (bit_vector)
            requires
                i < 8,
                j < 8,
        ;
    }
}

/// The default config has all four filter flags on and the padding bits
/// clear.
pub proof fn lemma_default_config_flags()
    ensures
        flag_of(0x0F, EN_LUT_BIT),
        flag_of(0x0F, EN_ACC_BIT),
        flag_of(0x0F, EN_ROT_BIT),
        flag_of(0x0F, EN_VAR_BIT),
        (0x0Fu8 >> 4) == 0,
{
    assert((0x0Fu8 >> 0u8) & 1 == 1 && (0x0Fu8 >> 1u8) & 1 == 1 && (0x0Fu8 >> 2u8) & 1 == 1
        && (0x0Fu8 >> 3u8) & 1 == 1 && (0x0Fu8 >> 4u8) == 0) by (bit_vector);
}

} // verus!
