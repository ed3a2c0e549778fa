//! The second probe firmware's decoding: a reading of typed temperature and
//! humidity values, ready to be encoded for the wire.
use vstd::prelude::*;

use crate::dht11::bits::{frame_byte, frame_byte_at};
use crate::text::{append_decimal, decimal};

verus! {

/// A value made of an integer part and a decimal part.
#[derive(Debug, Clone, Copy, PartialEq, Eq, Structural)]
pub struct WholeAndDecimal {
    pub integer: u8,
    pub decimal: u8,
}

/// A temperature in degrees Celsius.
#[derive(Debug, Clone, Copy, PartialEq, Eq, Structural)]
pub struct Temperature(pub WholeAndDecimal);

/// A relative humidity in percent.
#[derive(Debug, Clone, Copy, PartialEq, Eq, Structural)]
pub struct Humidity(pub WholeAndDecimal);

/// A temperature and humidity reading.
#[derive(Debug, Clone, Copy, PartialEq, Eq, Structural)]
pub struct TypedReading {
    pub temperature: Temperature,
    pub humidity: Humidity,
}

/// A reading decoded from the sensor.
#[derive(Debug, Clone, Copy, PartialEq, Eq, Structural)]
pub struct Dht11Reading(pub TypedReading);

/// The checksum a transmission's four data bytes call for: their sum,
/// wrapping at 256 (the firmware is built in release mode, where `u8`
/// addition wraps).
pub open spec fn expected_checksum(d: Seq<u64>) -> u8 {
    ((frame_byte(d, 0) + frame_byte(d, 1) + frame_byte(d, 2) + frame_byte(d, 3)) % 256) as u8
}

/// The reading that forty high-pulse durations encode, if the checksum byte
/// equals the wrapping sum of the four data bytes.
pub open spec fn spec_from_durations(d: Seq<u64>) -> Option<Dht11Reading> {
    if expected_checksum(d) != frame_byte(d, 4) {
        None
    } else {
        Some(
            Dht11Reading(
                TypedReading {
                    temperature: Temperature(
                        WholeAndDecimal { integer: frame_byte(d, 2), decimal: frame_byte(d, 3) },
                    ),
                    humidity: Humidity(
                        WholeAndDecimal { integer: frame_byte(d, 0), decimal: frame_byte(d, 1) },
                    ),
                },
            ),
        )
    }
}

impl Dht11Reading {
    /// Decode forty high-pulse durations; `None` on a checksum mismatch.
    pub fn from_durations(durations: [u64; 40]) -> (r: Option<Self>)
        ensures
            r == spec_from_durations(durations@),
    {
        let integral_humidity = frame_byte_at(&durations, 0);
        let decimal_humidity = frame_byte_at(&durations, 1);
        let integral_temp = frame_byte_at(&durations, 2);
        let decimal_temp = frame_byte_at(&durations, 3);
        let checksum = frame_byte_at(&durations, 4);

        let sum: u8 = integral_humidity.wrapping_add(decimal_humidity).wrapping_add(integral_temp)
            .wrapping_add(decimal_temp);
        if sum != checksum {
            None
        } else {
            Some(
                Self(
                    TypedReading {
                        temperature: Temperature(
                            WholeAndDecimal { integer: integral_temp, decimal: decimal_temp },
                        ),
                        humidity: Humidity(
                            WholeAndDecimal { integer: integral_humidity, decimal: decimal_humidity },
                        ),
                    },
                ),
            )
        }
    }
}

/// Text of a reading: `{t}.{t}degC, {h}.{h}%RH`.
pub open spec fn reading_text(r: Dht11Reading) -> Seq<char> {
    decimal(r.0.temperature.0.integer as nat) + "."@ + decimal(r.0.temperature.0.decimal as nat) + "degC, "@ + decimal(r.0.humidity.0.integer as nat) + "."@
        + decimal(r.0.humidity.0.decimal as nat) + "%RH"@
}

impl Dht11Reading {
    /// The reading as text, e.g. `21.5degC, 40.3%RH`.
    pub fn to_string(&self) -> (s: String)
        ensures
            s@ == reading_text(*self),
    {
        let mut s = String::new();
        append_decimal(&mut s, self.0.temperature.0.integer as u64);
        s.append(".");
        append_decimal(&mut s, self.0.temperature.0.decimal as u64);
        s.append("degC, ");
        append_decimal(&mut s, self.0.humidity.0.integer as u64);
        s.append(".");
        append_decimal(&mut s, self.0.humidity.0.decimal as u64);
        s.append("%RH");
        assert(s@ =~= reading_text(*self));
        s
    }
}

} // verus!
