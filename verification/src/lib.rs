//! Platform-agnostic driver for the Sensirion SHTCx temperature / humidity
//! sensor series: SHTC1, SHTC3 and SHTW2.
//!
//! The driver speaks the sensors' shared two-wire protocol: it encodes
//! commands into their fixed 2-byte opcodes, validates the CRC-8 checksum
//! that the sensor appends after every two data bytes of a response, and
//! converts the raw 16-bit sensor codes into fixed-point physical units
//! (milli-degrees celsius and milli-percent relative humidity).
//!
//! The bus transport and the delay provider are supplied by the caller
//! through the [`I2cBus`] and [`Delay`] traits; every operation is a single
//! blocking request/response exchange.

use core::marker::PhantomData;
use vstd::prelude::*;

pub mod crc;
mod types;

pub use crc::crc8;
pub use crc::crc8_of;
pub use types::Humidity;
pub use types::Measurement;
pub use types::RawMeasurement;
pub use types::Temperature;
pub use types::convert_humidity;
pub use types::convert_temperature;
pub use types::lemma_convert_humidity_monotonic;
pub use types::lemma_convert_temperature_monotonic;
pub use types::spec_convert_humidity;
pub use types::spec_convert_temperature;

verus! {

/// Whether temperature or humidity is returned first when doing a measurement.
#[derive(Debug, Copy, Clone, PartialEq, Eq)]
pub enum MeasurementOrder {
    /// The first two data bytes hold the temperature code.
    TemperatureFirst,
    /// The first two data bytes hold the humidity code.
    HumidityFirst,
}

/// Measurement power mode: normal mode or low power mode.
///
/// Low power measurements are faster and use less energy, at the cost of
/// reduced repeatability of the sensor signals.
#[derive(Debug, Copy, Clone, PartialEq, Eq)]
pub enum PowerMode {
    /// Normal measurement.
    NormalMode,
    /// Low power measurement: less energy consumption, but repeatability and
    /// accuracy of measurements are negatively impacted.
    LowPower,
}

/// All possible errors in this crate.
#[derive(Debug, PartialEq, Clone)]
pub enum Error<E> {
    /// Bus error, carrying the transport's own error value.
    I2c(E),
    /// CRC checksum validation failed.
    Crc,
}

/// Commands sent to the sensor.
#[derive(Debug, Copy, Clone)]
pub enum Command {
    /// Go into sleep mode.
    Sleep,
    /// Wake up from sleep mode.
    WakeUp,
    /// Measurement command.
    Measure {
        /// Use the low power measurement variant.
        low_power: bool,
        /// Which quantity the sensor returns first.
        order: MeasurementOrder,
        /// Request the clock-stretching opcode variant. This only selects
        /// the opcode; the driver itself never stretches the clock.
        clock_stretching: bool,
    },
    /// Software reset.
    SoftwareReset,
    /// Read ID register.
    ReadIdRegister,
}

impl Command {
    /// The fixed 2-byte opcode of this command, from the sensor's command
    /// table.
    pub open spec fn spec_as_bytes(self) -> Seq<u8> {
        match self {
            Command::Sleep => seq![0xB0u8, 0x98u8],
            Command::WakeUp => seq![0x35u8, 0x17u8],
            Command::Measure { low_power: false, order: MeasurementOrder::TemperatureFirst, clock_stretching: false } => seq![0x78u8, 0x66u8],
            Command::Measure { low_power: false, order: MeasurementOrder::HumidityFirst, clock_stretching: false } => seq![0x58u8, 0xE0u8],
            Command::Measure { low_power: true, order: MeasurementOrder::TemperatureFirst, clock_stretching: false } => seq![0x60u8, 0x9Cu8],
            Command::Measure { low_power: true, order: MeasurementOrder::HumidityFirst, clock_stretching: false } => seq![0x40u8, 0x1Au8],
            Command::Measure { low_power: false, order: MeasurementOrder::TemperatureFirst, clock_stretching: true } => seq![0x7Cu8, 0xA2u8],
            Command::Measure { low_power: false, order: MeasurementOrder::HumidityFirst, clock_stretching: true } => seq![0x5Cu8, 0x24u8],
            Command::Measure { low_power: true, order: MeasurementOrder::TemperatureFirst, clock_stretching: true } => seq![0x64u8, 0x58u8],
            Command::Measure { low_power: true, order: MeasurementOrder::HumidityFirst, clock_stretching: true } => seq![0x44u8, 0xDEu8],
            Command::ReadIdRegister => seq![0xEFu8, 0xC8u8],
            Command::SoftwareReset => seq![0x80u8, 0x5Du8],
        }
    }

    /// Encode this command as its 2-byte opcode.
    pub fn as_bytes(self) -> (r: [u8; 2])
        ensures
            r@ == self.spec_as_bytes(),
    {
        let r: [u8; 2] = match self {
            Command::Sleep => [0xB0, 0x98],
            Command::WakeUp => [0x35, 0x17],
            Command::Measure { low_power: false, order: MeasurementOrder::TemperatureFirst, clock_stretching: false } => [0x78, 0x66],
            Command::Measure { low_power: false, order: MeasurementOrder::HumidityFirst, clock_stretching: false } => [0x58, 0xE0],
            Command::Measure { low_power: true, order: MeasurementOrder::TemperatureFirst, clock_stretching: false } => [0x60, 0x9C],
            Command::Measure { low_power: true, order: MeasurementOrder::HumidityFirst, clock_stretching: false } => [0x40, 0x1A],
            Command::Measure { low_power: false, order: MeasurementOrder::TemperatureFirst, clock_stretching: true } => [0x7C, 0xA2],
            Command::Measure { low_power: false, order: MeasurementOrder::HumidityFirst, clock_stretching: true } => [0x5C, 0x24],
            Command::Measure { low_power: true, order: MeasurementOrder::TemperatureFirst, clock_stretching: true } => [0x64, 0x58],
            Command::Measure { low_power: true, order: MeasurementOrder::HumidityFirst, clock_stretching: true } => [0x44, 0xDE],
            Command::ReadIdRegister => [0xEF, 0xC8],
            Command::SoftwareReset => [0x80, 0x5D],
        };
        proof {
            assert(r@ =~= self.spec_as_bytes());
        }
        r
    }
}

/// The 16-bit big-endian value of two response bytes.
pub open spec fn spec_be_u16(msb: u8, lsb: u8) -> u16 {
    (msb * 256 + lsb) as u16
}

/// Combine two response bytes into their big-endian 16-bit value.
fn be_u16(msb: u8, lsb: u8) -> (r: u16)
    ensures
        r == spec_be_u16(msb, lsb),
{
    (msb as u16) * 256 + (lsb as u16)
}

/// The 7-bit device identifier held in a raw ID register value: bits 0-5
/// and bit 11 of the register.
pub open spec fn spec_device_id(ident: u16) -> u8 {
    (ident & 0x3F) as u8 | ((ident & 0x0800) >> 5) as u8
}

/// The `i`-th complete 3-byte group of `s` carries a correct checksum: the
/// CRC-8 of its first two bytes equals its third byte.
pub open spec fn crc_group_valid(s: Seq<u8>, i: int) -> bool {
    crc::crc8_of(seq![s[3 * i], s[3 * i + 1]]) == s[3 * i + 2]
}

/// Every complete 3-byte group of `s` carries a correct checksum. A trailing
/// group shorter than 3 bytes is not checked and never fails validation.
pub open spec fn valid_crc_groups(s: Seq<u8>) -> bool {
    forall|i: int| 0 <= i < s.len() / 3 ==> #[trigger] crc_group_valid(s, i)
}

/// A blocking two-wire bus transport, supplied by the platform layer.
///
/// The driver issues at most one write and one read per operation; it never
/// retries. Implementations report failures (such as a negative
/// acknowledgment) through their own error type, which the driver passes
/// through unmodified.
pub trait I2cBus {
    /// The transport's own error value for a failed transfer.
    type Error;

    /// Write `bytes` to the device at `address`.
    fn write(&mut self, address: u8, bytes: &[u8]) -> (r: Result<(), Self::Error>);

    /// Read exactly `buf.len()` bytes from the device at `address` into
    /// `buf`, replacing its contents.
    fn read(&mut self, address: u8, buf: &mut Vec<u8>) -> (r: Result<(), Self::Error>)
        ensures
            final(buf)@.len() == old(buf)@.len(),
    ;
}

/// A blocking delay provider, supplied by the platform layer; it must not
/// return early.
pub trait Delay {
    /// Block the calling context for at least `us` microseconds.
    fn delay_us(&mut self, us: u16);

    /// Block the calling context for at least `ms` milliseconds.
    fn delay_ms(&mut self, ms: u16);
}

/// Type parameter: first generation SHT sensor (SHTC1, SHTW2).
pub struct Sht1Gen;

/// Type parameter: second generation SHT sensor (SHTC3).
pub struct Sht2Gen;

/// Type parameter: generic driver that should work with all SHTCx sensors.
pub struct ShtGeneric;

/// Marker trait implemented for all supported sensor classes.
pub trait ShtSensor {}

impl ShtSensor for Sht1Gen {}

impl ShtSensor for Sht2Gen {}

impl ShtSensor for ShtGeneric {}

/// Per-family measurement timing table.
pub trait MeasurementDuration {
    /// The max measurement duration (depending on the mode) in microseconds.
    spec fn spec_max_measurement_duration(mode: PowerMode) -> u16;

    /// Return the max measurement duration (depending on the mode) in
    /// microseconds.
    fn max_measurement_duration(mode: PowerMode) -> (r: u16)
        ensures
            r == Self::spec_max_measurement_duration(mode),
    ;
}

impl MeasurementDuration for Sht1Gen {
    /// Max measurement duration: 14.4 ms in normal mode, 0.94 ms in low
    /// power mode.
    open spec fn spec_max_measurement_duration(mode: PowerMode) -> u16 {
        match mode {
            PowerMode::NormalMode => 14400,
            PowerMode::LowPower => 940,
        }
    }

    fn max_measurement_duration(mode: PowerMode) -> (r: u16) {
        match mode {
            PowerMode::NormalMode => 14400,
            PowerMode::LowPower => 940,
        }
    }
}

impl MeasurementDuration for Sht2Gen {
    /// Max measurement duration: 12.1 ms in normal mode, 0.8 ms in low
    /// power mode.
    open spec fn spec_max_measurement_duration(mode: PowerMode) -> u16 {
        match mode {
            PowerMode::NormalMode => 12100,
            PowerMode::LowPower => 800,
        }
    }

    fn max_measurement_duration(mode: PowerMode) -> (r: u16) {
        match mode {
            PowerMode::NormalMode => 12100,
            PowerMode::LowPower => 800,
        }
    }
}

impl MeasurementDuration for ShtGeneric {
    /// Because this duration should work for all sensor models, it is the
    /// pointwise maximum over all of them: 14.4 ms in normal mode, 0.94 ms
    /// in low power mode.
    open spec fn spec_max_measurement_duration(mode: PowerMode) -> u16 {
        match mode {
            PowerMode::NormalMode => 14400,
            PowerMode::LowPower => 940,
        }
    }

    fn max_measurement_duration(mode: PowerMode) -> (r: u16) {
        match mode {
            PowerMode::NormalMode => 14400,
            PowerMode::LowPower => 940,
        }
    }
}

/// Driver for the SHTCx sensor.
///
/// To create an instance of this, use a factory function like [`shtc1`] or
/// [`shtc3`] depending on your sensor.
#[derive(Debug)]
pub struct ShtCx<S: ShtSensor, I2C, D> {
    /// The chosen target sensor.
    sensor: PhantomData<S>,
    /// The concrete bus transport implementation.
    i2c: I2C,
    /// The concrete delay implementation.
    delay: D,
    /// The I²C device address.
    address: u8,
}

impl<S: ShtSensor, I2C, D> ShtCx<S, I2C, D> {
    /// The bus address the driver talks to.
    pub closed spec fn spec_address(self) -> u8 {
        self.address
    }

    /// The owned bus transport.
    pub closed spec fn spec_bus(self) -> I2C {
        self.i2c
    }

    /// The owned delay provider.
    pub closed spec fn spec_delay(self) -> D {
        self.delay
    }

    /// Return the I²C device address.
    pub fn address(&self) -> (r: u8)
        ensures
            r == self.spec_address(),
    {
        self.address
    }
}

/// Create a new instance of the driver for the SHTC1.
pub fn shtc1<I2C, D>(i2c: I2C, delay: D) -> (r: ShtCx<Sht1Gen, I2C, D>)
    ensures
        r.spec_address() == 0x70,
        r.spec_bus() == i2c,
        r.spec_delay() == delay,
{
    ShtCx { sensor: PhantomData, i2c, address: 0x70, delay }
}

/// Create a new instance of the driver for the SHTC3.
pub fn shtc3<I2C, D>(i2c: I2C, delay: D) -> (r: ShtCx<Sht2Gen, I2C, D>)
    ensures
        r.spec_address() == 0x70,
        r.spec_bus() == i2c,
        r.spec_delay() == delay,
{
    ShtCx { sensor: PhantomData, i2c, address: 0x70, delay }
}

/// Create a new instance of the driver for the SHTW2.
///
/// Since the SHTW2 is also available in an alternative address version, the
/// I²C address must be explicitly specified. For the standard SHTW2, it's
/// 0x70. Internally, the SHTW2 is identical to the SHTC1, just with
/// different packaging.
pub fn shtw2<I2C, D>(i2c: I2C, address: u8, delay: D) -> (r: ShtCx<Sht1Gen, I2C, D>)
    ensures
        r.spec_address() == address,
        r.spec_bus() == i2c,
        r.spec_delay() == delay,
{
    ShtCx { sensor: PhantomData, i2c, address, delay }
}

/// Create a new generic instance of the driver, usable with any supported
/// sensor model at the cost of maximal timing tolerances.
pub fn generic<I2C, D>(i2c: I2C, address: u8, delay: D) -> (r: ShtCx<ShtGeneric, I2C, D>)
    ensures
        r.spec_address() == address,
        r.spec_bus() == i2c,
        r.spec_delay() == delay,
{
    ShtCx { sensor: PhantomData, i2c, address, delay }
}

impl<S, I2C, D, E> ShtCx<S, I2C, D> where
    S: ShtSensor + MeasurementDuration,
    I2C: I2cBus<Error = E>,
    D: Delay,
 {
    /// Destroy driver instance, return the bus transport.
    pub fn destroy(self) -> (r: I2C)
        ensures
            r == self.spec_bus(),
    {
        self.i2c
    }

    /// Write a command to the sensor as its 2-byte opcode.
    pub fn send_command(&mut self, command: Command) -> (r: Result<(), Error<E>>)
        ensures
            final(self).spec_address() == old(self).spec_address(),
            r matches Err(e) ==> e matches Error::I2c(_),
    {
        let bytes = command.as_bytes();
        match self.i2c.write(self.address, bytes.as_slice()) {
            Ok(()) => Ok(()),
            Err(e) => Err(Error::I2c(e)),
        }
    }

    /// Iterate over the provided buffer and validate the CRC8 checksum.
    ///
    /// If a checksum is wrong, return `Error::Crc`.
    ///
    /// Note: This method will consider every third byte a checksum byte. If
    /// the buffer size is not a multiple of 3, then not all data will be
    /// validated.
    pub fn validate_crc(&self, buf: &[u8]) -> (r: Result<(), Error<E>>)
        ensures
            (r matches Ok(_)) <==> valid_crc_groups(buf@),
            r matches Err(e) ==> e == Error::<E>::Crc,
            buf@.len() < 3 ==> r matches Ok(_),
    {
        let len: usize = buf.len();
        let n: usize = len / 3;
        let mut i: usize = 0;
        while i < n
            invariant
                len == buf@.len(),
                n == len / 3,
                i <= n,
                forall|j: int| 0 <= j < i ==> #[trigger] crc_group_valid(buf@, j),
            decreases n - i,
        {
            proof {
                assert(3 * ((len as int) / 3) <= len as int) by (nonlinear_arith);
            }
            let b0 = buf[3 * i];
            let b1 = buf[3 * i + 1];
            let b2 = buf[3 * i + 2];
            let c = crc::crc8_pair(b0, b1);
            if c != b2 {
                proof {
                    assert(!crc_group_valid(buf@, i as int));
                }
                return Err(Error::Crc);
            }
            proof {
                assert(crc_group_valid(buf@, i as int));
            }
            i = i + 1;
        }
        Ok(())
    }

    /// Read data into the provided buffer and validate the CRC8 checksum.
    ///
    /// If a checksum is wrong, return `Error::Crc`; the buffer still holds
    /// whatever bytes were received.
    pub fn read_with_crc(&mut self, buf: &mut Vec<u8>) -> (r: Result<(), Error<E>>)
        ensures
            final(self).spec_address() == old(self).spec_address(),
            final(buf)@.len() == old(buf)@.len(),
            r matches Ok(_) ==> valid_crc_groups(final(buf)@),
            r matches Err(e) ==> e == Error::<E>::Crc || e matches Error::I2c(_),
            r == Err::<(), Error<E>>(Error::Crc) ==> !valid_crc_groups(final(buf)@),
    {
        match self.i2c.read(self.address, buf) {
            Ok(()) => {}
            Err(e) => {
                return Err(Error::I2c(e));
            }
        }
        self.validate_crc(buf.as_slice())
    }

    /// Return the raw ID register.
    ///
    /// Every successful result is the big-endian value of the two data bytes
    /// of a checksum-valid 3-byte response.
    pub fn raw_id_register(&mut self) -> (r: Result<u16, Error<E>>)
        ensures
            final(self).spec_address() == old(self).spec_address(),
            r matches Ok(v) ==> exists|b: Seq<u8>|
                b.len() == 3 && #[trigger] valid_crc_groups(b) && v == spec_be_u16(b[0], b[1]),
            r matches Err(e) ==> e == Error::<E>::Crc || e matches Error::I2c(_),
    {
        match self.send_command(Command::ReadIdRegister) {
            Ok(()) => {}
            Err(e) => {
                return Err(e);
            }
        }
        let mut buf: Vec<u8> = Vec::new();
        buf.push(0);
        buf.push(0);
        buf.push(0);
        match self.read_with_crc(&mut buf) {
            Ok(()) => {}
            Err(e) => {
                return Err(e);
            }
        }
        let v = be_u16(buf[0], buf[1]);
        proof {
            let b = buf@;
            assert(b.len() == 3 && valid_crc_groups(b) && v == spec_be_u16(b[0], b[1]));
        }
        Ok(v)
    }

    /// Return the 7-bit device identifier.
    ///
    /// Should be 0x47 (71) for the SHTC3 and 0x07 (7) for the SHTC1.
    pub fn device_identifier(&mut self) -> (r: Result<u8, Error<E>>)
        ensures
            final(self).spec_address() == old(self).spec_address(),
            r matches Ok(id) ==> exists|b: Seq<u8>|
                b.len() == 3 && #[trigger] valid_crc_groups(b)
                    && id == spec_device_id(spec_be_u16(b[0], b[1])),
            r matches Err(e) ==> e == Error::<E>::Crc || e matches Error::I2c(_),
    {
        let ident = match self.raw_id_register() {
            Ok(v) => v,
            Err(e) => {
                return Err(e);
            }
        };
        let lsb: u8 = (ident & 0b0011_1111) as u8;
        let msb: u8 = ((ident & 0b00001000_00000000) >> 5) as u8;
        let id = lsb | msb;
        proof {
            let b = choose|b: Seq<u8>|
                b.len() == 3 && #[trigger] valid_crc_groups(b) && ident == spec_be_u16(b[0], b[1]);
            assert(b.len() == 3 && valid_crc_groups(b)
                && id == spec_device_id(spec_be_u16(b[0], b[1])));
        }
        Ok(id)
    }

    /// Do a measurement with the specified measurement order and write the
    /// result into the provided buffer.
    ///
    /// If you just need one of the two measurements, provide a 3-byte buffer
    /// instead of a 6-byte buffer.
    pub fn measure_partial(
        &mut self,
        mode: PowerMode,
        order: MeasurementOrder,
        buf: &mut Vec<u8>,
    ) -> (r: Result<(), Error<E>>)
        ensures
            final(self).spec_address() == old(self).spec_address(),
            final(buf)@.len() == old(buf)@.len(),
            r matches Ok(_) ==> valid_crc_groups(final(buf)@),
            r matches Err(e) ==> e == Error::<E>::Crc || e matches Error::I2c(_),
    {
        let low_power = match mode {
            PowerMode::LowPower => true,
            PowerMode::NormalMode => false,
        };
        match self.send_command(Command::Measure { low_power, order, clock_stretching: false }) {
            Ok(()) => {}
            Err(e) => {
                return Err(e);
            }
        }
        self.delay.delay_us(S::max_measurement_duration(mode));
        self.read_with_crc(buf)
    }

    /// Run a temperature/humidity measurement and return the combined result.
    ///
    /// This is a blocking function call. Every successful result decodes a
    /// checksum-valid 6-byte response: temperature from the first group's
    /// data bytes, humidity from the second group's.
    pub fn measure(&mut self, mode: PowerMode) -> (r: Result<Measurement, Error<E>>)
        ensures
            final(self).spec_address() == old(self).spec_address(),
            r matches Ok(m) ==> exists|b: Seq<u8>|
                b.len() == 6 && #[trigger] valid_crc_groups(b)
                    && m.temperature.spec_millidegrees()
                        == spec_convert_temperature(spec_be_u16(b[0], b[1]))
                    && m.humidity.spec_millipercent()
                        == spec_convert_humidity(spec_be_u16(b[3], b[4])),
            r matches Err(e) ==> e == Error::<E>::Crc || e matches Error::I2c(_),
    {
        let mut buf: Vec<u8> = Vec::new();
        buf.push(0);
        buf.push(0);
        buf.push(0);
        buf.push(0);
        buf.push(0);
        buf.push(0);
        match self.measure_partial(mode, MeasurementOrder::TemperatureFirst, &mut buf) {
            Ok(()) => {}
            Err(e) => {
                return Err(e);
            }
        }
        let temperature = Temperature::from_raw(be_u16(buf[0], buf[1]));
        let humidity = Humidity::from_raw(be_u16(buf[3], buf[4]));
        let m = Measurement { temperature, humidity };
        proof {
            let b = buf@;
            assert(b.len() == 6 && valid_crc_groups(b)
                && m.temperature.spec_millidegrees()
                    == spec_convert_temperature(spec_be_u16(b[0], b[1]))
                && m.humidity.spec_millipercent()
                    == spec_convert_humidity(spec_be_u16(b[3], b[4])));
        }
        Ok(m)
    }

    /// Run a temperature measurement and return the result.
    ///
    /// This is a blocking function call. Internally, it will request a
    /// measurement in "temperature first" mode and only read the first half
    /// of the measurement response.
    pub fn measure_temperature(&mut self, mode: PowerMode) -> (r: Result<Temperature, Error<E>>)
        ensures
            final(self).spec_address() == old(self).spec_address(),
            r matches Ok(t) ==> exists|b: Seq<u8>|
                b.len() == 3 && #[trigger] valid_crc_groups(b)
                    && t.spec_millidegrees() == spec_convert_temperature(spec_be_u16(b[0], b[1])),
            r matches Err(e) ==> e == Error::<E>::Crc || e matches Error::I2c(_),
    {
        let mut buf: Vec<u8> = Vec::new();
        buf.push(0);
        buf.push(0);
        buf.push(0);
        match self.measure_partial(mode, MeasurementOrder::TemperatureFirst, &mut buf) {
            Ok(()) => {}
            Err(e) => {
                return Err(e);
            }
        }
        let t = Temperature::from_raw(be_u16(buf[0], buf[1]));
        proof {
            let b = buf@;
            assert(b.len() == 3 && valid_crc_groups(b)
                && t.spec_millidegrees() == spec_convert_temperature(spec_be_u16(b[0], b[1])));
        }
        Ok(t)
    }

    /// Run a humidity measurement and return the result.
    ///
    /// This is a blocking function call. Internally, it will request a
    /// measurement in "humidity first" mode and only read the first half of
    /// the measurement response.
    pub fn measure_humidity(&mut self, mode: PowerMode) -> (r: Result<Humidity, Error<E>>)
        ensures
            final(self).spec_address() == old(self).spec_address(),
            r matches Ok(h) ==> exists|b: Seq<u8>|
                b.len() == 3 && #[trigger] valid_crc_groups(b)
                    && h.spec_millipercent() == spec_convert_humidity(spec_be_u16(b[0], b[1])),
            r matches Err(e) ==> e == Error::<E>::Crc || e matches Error::I2c(_),
    {
        let mut buf: Vec<u8> = Vec::new();
        buf.push(0);
        buf.push(0);
        buf.push(0);
        match self.measure_partial(mode, MeasurementOrder::HumidityFirst, &mut buf) {
            Ok(()) => {}
            Err(e) => {
                return Err(e);
            }
        }
        let h = Humidity::from_raw(be_u16(buf[0], buf[1]));
        proof {
            let b = buf@;
            assert(b.len() == 3 && valid_crc_groups(b)
                && h.spec_millipercent() == spec_convert_humidity(spec_be_u16(b[0], b[1])));
        }
        Ok(h)
    }

    /// Trigger a soft reset.
    ///
    /// The soft reset mechanism forces the system into a well-defined state
    /// without removing the power supply. After sending the opcode, the
    /// driver blocks for the sensor's documented 240 µs reload-calibration
    /// window.
    pub fn reset(&mut self) -> (r: Result<(), Error<E>>)
        ensures
            final(self).spec_address() == old(self).spec_address(),
            r matches Err(e) ==> e matches Error::I2c(_),
    {
        match self.send_command(Command::SoftwareReset) {
            Ok(()) => {}
            Err(e) => {
                return Err(e);
            }
        }
        self.delay.delay_us(240);
        Ok(())
    }
}

/// Low power functionality (sleep and wakeup).
///
/// This functionality is only present on some of the sensors (e.g. the
/// SHTC3, but not the SHTC1).
pub trait LowPower<E> {
    /// Set sensor to sleep mode.
    ///
    /// When in sleep mode, the sensor requires a dedicated
    /// [`wakeup`](LowPower::wakeup) command to enable further communication;
    /// the sensor itself rejects anything else with a bus error.
    fn sleep(&mut self) -> (r: Result<(), Error<E>>)
        ensures
            r matches Err(e) ==> e matches Error::I2c(_),
    ;

    /// Wake up sensor from [sleep mode](LowPower::sleep), then wait out the
    /// sensor's documented 240 µs settle interval.
    fn wakeup(&mut self) -> (r: Result<(), Error<E>>)
        ensures
            r matches Err(e) ==> e matches Error::I2c(_),
    ;
}

impl<I2C, D, E> LowPower<E> for ShtCx<Sht2Gen, I2C, D> where
    I2C: I2cBus<Error = E>,
    D: Delay,
 {
    fn sleep(&mut self) -> (r: Result<(), Error<E>>) {
        self.send_command(Command::Sleep)
    }

    fn wakeup(&mut self) -> (r: Result<(), Error<E>>) {
        match self.send_command(Command::WakeUp) {
            Ok(()) => {}
            Err(e) => {
                return Err(e);
            }
        }
        self.delay.delay_us(240);
        Ok(())
    }
}

impl<I2C, D, E> LowPower<E> for ShtCx<ShtGeneric, I2C, D> where
    I2C: I2cBus<Error = E>,
    D: Delay,
 {
    fn sleep(&mut self) -> (r: Result<(), Error<E>>) {
        self.send_command(Command::Sleep)
    }

    fn wakeup(&mut self) -> (r: Result<(), Error<E>>) {
        match self.send_command(Command::WakeUp) {
            Ok(()) => {}
            Err(e) => {
                return Err(e);
            }
        }
        self.delay.delay_us(240);
        Ok(())
    }
}

} // verus!
