//! What the air sensor measures, in the units that are sent.

use crate::battery;
use crate::telemetry::EnvReading;
use vstd::prelude::*;

verus! {

/// What the air sensor has measured, as it sends it.
#[derive(Clone, Copy, Debug, PartialEq, Eq, Structural)]
pub struct AirSample {
    pub temperature: u16,
    pub humidity: u16,
}

/// A raw value of the air sensor as a share of its range, in units of 1/65536, rounded down.
pub open spec fn share_of_range(raw: u16) -> int {
    raw * 65_536 / 65_535
}

/// A fixed-point number with 16 fractional bits in thousandths, rounded down twice: to 14
/// fractional bits, and once multiplied to an integer.
pub open spec fn in_thousandths(bits: int) -> int {
    1000 * (bits / 4) / 16_384
}

/// The temperature in thousandths of a degree Celsius: the range is 175 degrees from -45 up.
pub open spec fn temperature_milli(raw: u16) -> int {
    in_thousandths(175 * share_of_range(raw) - 45 * 65_536)
}

/// The relative humidity in thousandths of a percent: the range is 125 percent from -6 up.
pub open spec fn humidity_milli(raw: u16) -> int {
    in_thousandths(125 * share_of_range(raw) - 6 * 65_536)
}

/// Calls `sht4x::Measurement::from`, `sht4x::Measurement::temperature_milli_celsius` and
/// `sht4x::Measurement::humidity_milli_percent`. They convert in fixed-point arithmetic that
/// rounds down at each step, as [`temperature_milli`] and [`humidity_milli`] say; no raw value
/// overflows it.
#[verifier::external_body]
fn sht_milli(air: AirSample) -> (milli: (i32, i32))
    ensures
        milli.0 == temperature_milli(air.temperature),
        milli.1 == humidity_milli(air.humidity),
{
    let raw = sht4x::SensorData { temperature: air.temperature, humidity: air.humidity };
    let measurement = sht4x::Measurement::from(raw);
    (measurement.temperature_milli_celsius(), measurement.humidity_milli_percent())
}

impl AirSample {
    /// The temperature in hundredths of a degree, the last digit cut off.
    pub open spec fn temperature_cdeg(self) -> int {
        battery::div_toward_zero(temperature_milli(self.temperature), 10)
    }

    /// The humidity in hundredths of a percent, the last digit cut off. It is below zero at the
    /// very bottom of the range, where the sensor itself is not accurate.
    pub open spec fn humidity_cpct(self) -> int {
        battery::div_toward_zero(humidity_milli(self.humidity), 10)
    }

    /// The reading that goes out. A humidity below zero wraps around.
    pub open spec fn reading(self, battery_soc_pct: u8) -> EnvReading {
        EnvReading {
            temperature_cdeg: self.temperature_cdeg() as i16,
            humidity_cpct: if self.humidity_cpct() >= 0 {
                self.humidity_cpct() as u16
            } else {
                (self.humidity_cpct() + 65_536) as u16
            },
            battery_soc_pct,
        }
    }
}

/// A tenth of `value`, rounded toward zero.
fn tenth(value: i32) -> (tenth: i32)
    requires
        -1_000_000 <= value <= 1_000_000,
    ensures
        tenth == battery::div_toward_zero(value as int, 10),
{
    if value >= 0 {
        value / 10
    } else {
        -((-value) / 10)
    }
}

/// The temperature of the air in hundredths of a degree.
pub fn ambient_temp_cdeg(air: AirSample) -> (cdeg: i16)
    ensures
        cdeg == air.temperature_cdeg(),
{
    tenth(sht_milli(air).0) as i16
}

/// The reading that goes out for what the air sensor has measured.
pub fn environment_reading(air: AirSample, battery_soc_pct: u8) -> (reading: EnvReading)
    ensures
        reading == air.reading(battery_soc_pct),
        reading.temperature_cdeg == air.temperature_cdeg(),
{
    let humidity_cpct: i32 = tenth(sht_milli(air).1);
    EnvReading {
        temperature_cdeg: ambient_temp_cdeg(air),
        humidity_cpct: if humidity_cpct >= 0 {
            humidity_cpct as u16
        } else {
            (humidity_cpct + 65_536) as u16
        },
        battery_soc_pct,
    }
}

/// The air sensor stays in the range of what is sent: from -45 to 130 degrees, and from -6 to
/// 119 percent; more of the raw value never reads as less.
pub proof fn air_readings_are_bounded_and_monotone(low: u16, high: u16)
    requires
        low <= high,
    ensures
        -45_000 <= temperature_milli(low) <= temperature_milli(high) <= 130_000,
        -6_000 <= humidity_milli(low) <= humidity_milli(high) <= 119_000,
{
    assert(0 <= share_of_range(low) <= share_of_range(high) <= 65_536);
}

/// The sensor's range is divided evenly: the raw value times 175 degrees over 65535, less 45
/// degrees, gives the temperature, and that times 125 percent, less 6 percent, the humidity. What
/// is sent is never above that, and less than four, or three, thousandths below it.
pub proof fn air_readings_follow_the_range(raw: u16)
    ensures
        65_535 * temperature_milli(raw) <= 175_000 * raw - 45_000 * 65_535 < 65_535 * (
        temperature_milli(raw) + 4),
        65_535 * humidity_milli(raw) <= 125_000 * raw - 6_000 * 65_535 < 65_535 * (humidity_milli(
            raw,
        ) + 3),
{
    let share = share_of_range(raw);
    assert(65_535 * share <= 65_536 * raw < 65_535 * share + 65_535);
    let warm = 175 * share - 45 * 65_536;
    assert(4 * (warm / 4) <= warm <= 4 * (warm / 4) + 3);
    let wet = 125 * share - 6 * 65_536;
    assert(4 * (wet / 4) <= wet <= 4 * (wet / 4) + 3);
}

/// A reading is what was measured with the last digit cut off, so that it is never further from
/// zero; the charge is passed on. A humidity below zero goes out in two's complement.
pub proof fn readings_cut_the_last_digit(air: AirSample, battery_soc_pct: u8)
    ensures
        ({
            let reading = air.reading(battery_soc_pct);
            let warm = temperature_milli(air.temperature);
            let wet = humidity_milli(air.humidity);
            let cdeg = reading.temperature_cdeg as int;
            let cpct = reading.humidity_cpct as int;
            &&& reading.battery_soc_pct == battery_soc_pct
            &&& warm >= 0 ==> 10 * cdeg <= warm < 10 * cdeg + 10
            &&& warm < 0 ==> 10 * cdeg - 10 < warm <= 10 * cdeg
            &&& wet >= 0 ==> 10 * cpct <= wet < 10 * cpct + 10
            &&& wet <= -10 ==> 10 * (cpct - 65_536) - 10 < wet <= 10 * (cpct - 65_536)
            &&& -10 < wet < 0 ==> cpct == 0
            &&& cdeg == air.temperature_cdeg()
        }),
{
    air_readings_are_bounded_and_monotone(air.temperature, air.temperature);
    air_readings_are_bounded_and_monotone(air.humidity, air.humidity);
}

} // verus!
