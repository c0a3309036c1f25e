//! Decoded physical readings at milli precision.
//!
//! The sensor's 20-bit fractions map linearly onto physical units:
//! humidity is `raw / 2^20 * 100` percent and temperature is
//! `raw / (2^20 / 200) - 50` degrees Celsius. Values are carried in
//! thousandths of a unit, with divisions floored at that precision.

use vstd::arithmetic::div_mod::{lemma_div_is_ordered, lemma_div_pos_is_pos};
use vstd::prelude::*;

use crate::frame::{spec_raw_humidity, spec_raw_temperature, raw_humidity, raw_temperature};

verus! {

/// Full scale of a 20-bit ADC fraction.
pub const ADC_RANGE: u32 = 0x100000;

/// Humidity in thousandths of a percent relative humidity:
/// `raw / 2^20 * 100`, floored at milli precision.
pub open spec fn spec_humidity_milli(raw: int) -> int {
    raw * 100000 / 1048576
}

/// Temperature in thousandths of a degree Celsius:
/// `raw / (2^20 / 200) - 50`, floored at milli precision.
pub open spec fn spec_celsius_milli(raw: int) -> int {
    raw * 200000 / 1048576 - 50000
}

/// Fahrenheit in thousandths of a degree: `c * 9 / 5 + 32` at milli
/// precision, floored.
pub open spec fn spec_fahrenheit_milli(celsius_milli: int) -> int {
    celsius_milli * 9 / 5 + 32000
}

/// Convert a 20-bit humidity fraction to thousandths of a percent.
pub fn humidity_milli(raw: u32) -> (r: u32)
    requires
        raw < ADC_RANGE,
    ensures
        r == spec_humidity_milli(raw as int),
        r < 100000,
{
    let wide: u64 = (raw as u64) * 100000;
    proof {
        lemma_div_pos_is_pos(wide as int, 1048576);
        lemma_div_is_ordered(wide as int, 104857500000, 1048576);
    }
    (wide / 1048576) as u32
}

/// Convert a 20-bit temperature fraction to thousandths of a degree Celsius.
pub fn celsius_milli(raw: u32) -> (r: i32)
    requires
        raw < ADC_RANGE,
    ensures
        r == spec_celsius_milli(raw as int),
        -50000 <= r < 150000,
{
    let wide: u64 = (raw as u64) * 200000;
    proof {
        lemma_div_pos_is_pos(wide as int, 1048576);
        lemma_div_is_ordered(wide as int, 209715000000, 1048576);
    }
    let scaled: u64 = wide / 1048576;
    (scaled as i32) - 50000
}

/// One decoded acquisition: temperature in thousandths of a degree Celsius,
/// humidity in thousandths of a percent relative humidity. Immutable once
/// constructed.
#[derive(Clone, Copy, Debug, PartialEq, Eq, Structural)]
pub struct Reading {
    temperature: i32,
    humidity: u32,
}

/// Ghost image of a `Reading`: the two stored milli-unit values.
pub ghost struct ReadingView {
    pub temperature_milli: int,
    pub humidity_milli: int,
}

impl View for Reading {
    type V = ReadingView;

    closed spec fn view(&self) -> ReadingView {
        ReadingView {
            temperature_milli: self.temperature as int,
            humidity_milli: self.humidity as int,
        }
    }
}

/// The `Reading` that a pair of 20-bit fractions decodes to.
pub closed spec fn spec_reading(raw_temperature: int, raw_humidity: int) -> Reading {
    Reading {
        temperature: spec_celsius_milli(raw_temperature) as i32,
        humidity: spec_humidity_milli(raw_humidity) as u32,
    }
}

/// What `spec_reading` stores: the two linear transfer functions, landing
/// inside the ranges any 20-bit fraction can produce.
pub proof fn lemma_spec_reading(raw_temperature: int, raw_humidity: int)
    requires
        0 <= raw_temperature < ADC_RANGE,
        0 <= raw_humidity < ADC_RANGE,
    ensures
        spec_reading(raw_temperature, raw_humidity)@.temperature_milli == spec_celsius_milli(
            raw_temperature,
        ),
        spec_reading(raw_temperature, raw_humidity)@.humidity_milli == spec_humidity_milli(
            raw_humidity,
        ),
        spec_reading(raw_temperature, raw_humidity).wf(),
{
    lemma_div_pos_is_pos(raw_temperature * 200000, 1048576);
    lemma_div_is_ordered(raw_temperature * 200000, 209715000000, 1048576);
    lemma_div_pos_is_pos(raw_humidity * 100000, 1048576);
    lemma_div_is_ordered(raw_humidity * 100000, 104857500000, 1048576);
}

impl Reading {
    /// Ranges that decoding any 20-bit fraction can produce.
    pub open spec fn wf(&self) -> bool {
        &&& -50000 <= self@.temperature_milli <= 150000
        &&& 0 <= self@.humidity_milli <= 100000
    }

    /// Build a reading from already-converted milli-unit values.
    pub fn new(temperature: i32, humidity: u32) -> (r: Reading)
        requires
            -50000 <= temperature <= 150000,
            humidity <= 100000,
        ensures
            r@.temperature_milli == temperature,
            r@.humidity_milli == humidity,
            r.wf(),
    {
        Reading { temperature, humidity }
    }

    /// Temperature in thousandths of a degree Celsius.
    pub fn celsius(&self) -> (r: i32)
        ensures
            r == self@.temperature_milli,
    {
        self.temperature
    }

    /// Humidity in thousandths of a percent relative humidity.
    pub fn humidity(&self) -> (r: u32)
        ensures
            r == self@.humidity_milli,
    {
        self.humidity
    }

    /// Temperature in thousandths of a degree Fahrenheit, derived on demand
    /// as `c * 9 / 5 + 32`.
    pub fn fahrenheit(&self) -> (r: i32)
        requires
            self.wf(),
        ensures
            r == spec_fahrenheit_milli(self@.temperature_milli),
    {
        let shifted: u32 = (self.temperature + 50000) as u32;
        let scaled: u32 = shifted * 9 / 5;
        proof {
            lemma_div_pos_is_pos(shifted * 9, 5);
            lemma_div_is_ordered(shifted * 9, 1800000, 5);
            vstd::arithmetic::div_mod::lemma_hoist_over_denominator(
                self.temperature * 9,
                90000,
                5,
            );
        }
        (scaled as i32) - 58000
    }
}

/// Decode a whole measurement frame into a reading.
pub fn decode_frame(frame: &[u8; 6]) -> (r: Reading)
    ensures
        r == spec_decoded(frame@),
        r.wf(),
{
    let rt = raw_temperature(frame);
    let rh = raw_humidity(frame);
    let temperature = celsius_milli(rt);
    let humidity = humidity_milli(rh);
    proof {
        lemma_spec_reading(rt as int, rh as int);
    }
    Reading { temperature, humidity }
}

/// The reading a frame decodes to.
pub open spec fn spec_decoded(f: Seq<u8>) -> Reading {
    spec_reading(spec_raw_temperature(f), spec_raw_humidity(f))
}

} // verus!
