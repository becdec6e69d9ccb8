//! Measurement value types and the fixed-point conversion of raw sensor
//! codes into physical units.

use vstd::prelude::*;
use vstd::arithmetic::div_mod::lemma_div_is_ordered;
use vstd::arithmetic::div_mod::lemma_div_pos_is_pos;

verus! {

/// Temperature in milli-degrees celsius derived from a raw 16-bit code.
///
/// The datasheet formula is `-45 + 175 * (raw / 2^16)` degrees; scaled by
/// 1000 and rewritten in integer fixed-point form this is
/// `(raw * 21875) / 8192 - 45000` milli-degrees.
pub open spec fn spec_convert_temperature(raw: u16) -> int {
    (raw * 21875) / 8192 - 45000
}

/// Relative humidity in milli-percent derived from a raw 16-bit code.
///
/// The datasheet formula is `100 * (raw / 2^16)` percent; scaled by 1000 and
/// rewritten in integer fixed-point form this is `(raw * 12500) / 8192`
/// milli-percent.
pub open spec fn spec_convert_humidity(raw: u16) -> int {
    (raw * 12500) / 8192
}

/// A right shift by 13 bits divides by 8192.
proof fn lemma_u32_shr13_is_div8192(x: u32)
    ensures
        x >> 13 == x / 8192,
{
    assert(x >> 13 == x / 8192) by (bit_vector);
}

/// Convert a raw temperature code to milli-degrees celsius.
///
/// Bit-exact integer form of the datasheet formula `-45 + 175 * (raw / 2^16)`.
pub fn convert_temperature(temp_raw: u16) -> (r: i32)
    ensures
        r == spec_convert_temperature(temp_raw),
{
    let wide: u32 = (temp_raw as u32) * 21875;
    proof {
        lemma_u32_shr13_is_div8192(wide);
        lemma_div_is_ordered(wide as int, 1433828125, 8192);
        lemma_div_pos_is_pos(wide as int, 8192);
    }
    let shifted: u32 = wide >> 13;
    (shifted as i32) - 45000
}

/// Convert a raw humidity code to milli-percent relative humidity.
///
/// Bit-exact integer form of the datasheet formula `100 * (raw / 2^16)`.
pub fn convert_humidity(humi_raw: u16) -> (r: i32)
    ensures
        r == spec_convert_humidity(humi_raw),
{
    let wide: u32 = (humi_raw as u32) * 12500;
    proof {
        lemma_u32_shr13_is_div8192(wide);
        lemma_div_is_ordered(wide as int, 819187500, 8192);
        lemma_div_pos_is_pos(wide as int, 8192);
    }
    let shifted: u32 = wide >> 13;
    shifted as i32
}

/// The temperature conversion is non-decreasing in the raw code, and the
/// lowest code maps to exactly -45000 milli-degrees celsius.
pub proof fn lemma_convert_temperature_monotonic(a: u16, b: u16)
    requires
        a <= b,
    ensures
        spec_convert_temperature(a) <= spec_convert_temperature(b),
        spec_convert_temperature(0) == -45000,
{
    lemma_div_is_ordered(a * 21875, b * 21875, 8192);
}

/// The humidity conversion is non-decreasing in the raw code, never
/// negative, and the lowest code maps to exactly 0 milli-percent.
pub proof fn lemma_convert_humidity_monotonic(a: u16, b: u16)
    requires
        a <= b,
    ensures
        spec_convert_humidity(a) <= spec_convert_humidity(b),
        spec_convert_humidity(a) >= 0,
        spec_convert_humidity(0) == 0,
{
    lemma_div_is_ordered(a * 12500, b * 12500, 8192);
    lemma_div_pos_is_pos(a * 12500, 8192);
}

/// A temperature measurement.
#[derive(Debug, Copy, Clone, PartialEq, Eq)]
pub struct Temperature(i32);

/// A humidity measurement.
#[derive(Debug, Copy, Clone, PartialEq, Eq)]
pub struct Humidity(i32);

/// A combined temperature / humidity measurement.
#[derive(Debug, Copy, Clone, PartialEq, Eq)]
pub struct Measurement {
    /// The measured temperature.
    pub temperature: Temperature,
    /// The measured humidity.
    pub humidity: Humidity,
}

/// A combined raw temperature / humidity measurement.
///
/// The raw values are of type u16. They require a conversion formula for
/// conversion to a temperature / humidity value.
#[derive(Debug, Copy, Clone, PartialEq, Eq)]
pub struct RawMeasurement {
    /// The measured temperature (raw value).
    pub temperature: u16,
    /// The measured humidity (raw value).
    pub humidity: u16,
}

impl Temperature {
    /// The value in milli-degrees celsius.
    pub closed spec fn spec_millidegrees(self) -> i32 {
        self.0
    }

    /// Create a new `Temperature` from a raw measurement result.
    pub fn from_raw(raw: u16) -> (r: Self)
        ensures
            r.spec_millidegrees() == spec_convert_temperature(raw),
    {
        Temperature(convert_temperature(raw))
    }

    /// Return temperature in milli-degrees celsius.
    pub fn as_millidegrees_celsius(&self) -> (r: i32)
        ensures
            r == self.spec_millidegrees(),
    {
        self.0
    }
}

impl Humidity {
    /// The value in milli-percent relative humidity.
    pub closed spec fn spec_millipercent(self) -> i32 {
        self.0
    }

    /// Create a new `Humidity` from a raw measurement result.
    pub fn from_raw(raw: u16) -> (r: Self)
        ensures
            r.spec_millipercent() == spec_convert_humidity(raw),
    {
        Humidity(convert_humidity(raw))
    }

    /// Return relative humidity in 1/1000 %RH.
    pub fn as_millipercent(&self) -> (r: i32)
        ensures
            r == self.spec_millipercent(),
    {
        self.0
    }
}

impl From<RawMeasurement> for Measurement {
    /// Convert both raw codes of a combined measurement at once.
    fn from(other: RawMeasurement) -> (r: Self) {
        let r = Measurement {
            temperature: Temperature::from_raw(other.temperature),
            humidity: Humidity::from_raw(other.humidity),
        };
        proof {
            lemma_convert_temperature_monotonic(0, other.temperature);
            lemma_convert_temperature_monotonic(other.temperature, 0xFFFF);
            lemma_convert_humidity_monotonic(0, other.humidity);
            lemma_convert_humidity_monotonic(other.humidity, 0xFFFF);
        }
        r
    }
}

impl vstd::std_specs::convert::FromSpecImpl<RawMeasurement> for Measurement {
    open spec fn obeys_from_spec() -> bool {
        true
    }

    closed spec fn from_spec(other: RawMeasurement) -> Self {
        Measurement {
            temperature: Temperature(spec_convert_temperature(other.temperature) as i32),
            humidity: Humidity(spec_convert_humidity(other.humidity) as i32),
        }
    }
}

} // verus!
