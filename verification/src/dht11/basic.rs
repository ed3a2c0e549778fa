//! The first probe firmware's decoding: a plain four-byte reading, with the
//! checksum compared against the unwrapped byte sum.
use vstd::prelude::*;

use crate::dht11::bits::{frame_byte, frame_byte_at};
use crate::dht11::reader::spec_parse_durations;
use crate::dht11::typed;
use crate::text::{append_decimal, decimal};

verus! {

/// A DHT11 reading as the sensor sends it.
#[derive(Debug, Clone, Copy, PartialEq, Eq, Structural)]
pub struct Reading {
    pub integral_humidity: u8,
    pub decimal_humidity: u8,
    pub integral_temp: u8,
    pub decimal_temp: u8,
}

/// The checksum a transmission's four data bytes call for: their sum,
/// wrapping at 256 (the firmware is built in release mode, where `u8`
/// addition wraps).
pub open spec fn expected_checksum(d: Seq<u64>) -> u8 {
    ((frame_byte(d, 0) + frame_byte(d, 1) + frame_byte(d, 2) + frame_byte(d, 3)) % 256) as u8
}

/// The reading that forty high-pulse durations encode, if the checksum byte
/// equals the wrapping sum of the four data bytes.
pub open spec fn spec_from_durations(d: Seq<u64>) -> Option<Reading> {
    if expected_checksum(d) != frame_byte(d, 4) {
        None
    } else {
        Some(
            Reading {
                integral_humidity: frame_byte(d, 0),
                decimal_humidity: frame_byte(d, 1),
                integral_temp: frame_byte(d, 2),
                decimal_temp: frame_byte(d, 3),
            },
        )
    }
}

impl Reading {
    /// Decode forty high-pulse durations; `None` on a checksum mismatch.
    pub fn from_durations(durations: [u64; 40]) -> (r: Option<Self>)
        ensures
            r == spec_from_durations(durations@),
    {
        let integral_humidity = frame_byte_at(&durations, 0);
        let decimal_humidity = frame_byte_at(&durations, 1);
        let integral_temp = frame_byte_at(&durations, 2);
        let decimal_temp = frame_byte_at(&durations, 3);
        let checksum = frame_byte_at(&durations, 4);

        let sum: u8 = integral_humidity.wrapping_add(decimal_humidity).wrapping_add(integral_temp)
            .wrapping_add(decimal_temp);
        if sum != checksum {
            None
        } else {
            Some(Self { integral_humidity, decimal_humidity, integral_temp, decimal_temp })
        }
    }
}

/// Text of a reading: `{t}.{t}degC, {h}.{h}%RH`.
pub open spec fn reading_text(r: Reading) -> Seq<char> {
    decimal(r.integral_temp as nat) + "."@ + decimal(r.decimal_temp as nat) + "degC, "@ + decimal(r.integral_humidity as nat) + "."@
        + decimal(r.decimal_humidity as nat) + "%RH"@
}

impl Reading {
    /// The reading as text, e.g. `21.5degC, 40.3%RH`.
    pub fn to_string(&self) -> (s: String)
        ensures
            s@ == reading_text(*self),
    {
        let mut s = String::new();
        append_decimal(&mut s, self.integral_temp as u64);
        s.append(".");
        append_decimal(&mut s, self.decimal_temp as u64);
        s.append("degC, ");
        append_decimal(&mut s, self.integral_humidity as u64);
        s.append(".");
        append_decimal(&mut s, self.decimal_humidity as u64);
        s.append("%RH");
        assert(s@ =~= reading_text(*self));
        s
    }
}

/// The three decoders of a transmission agree: the server-side parser
/// accepts it exactly when both firmware decoders do, which is exactly when
/// the checksum byte (byte 4) is the sum of the four data bytes modulo 256;
/// all three then read the humidity from bytes 0 and 1 and the temperature
/// from bytes 2 and 3, and a refused transmission is reported with that
/// sum as the expected checksum and byte 4 as the actual one.
pub proof fn law_decoders_agree(d: Seq<u64>)
    ensures
        ({
            let sum = ((frame_byte(d, 0) + frame_byte(d, 1) + frame_byte(d, 2) + frame_byte(d, 3)) % 256) as u8;
            let ok = sum == frame_byte(d, 4);
            &&& (spec_parse_durations(d) is Ok <==> ok)
            &&& (spec_from_durations(d) is Some <==> ok)
            &&& (typed::spec_from_durations(d) is Some <==> ok)
            &&& spec_parse_durations(d) matches Err(c) ==> c.expected == sum && c.actual == frame_byte(d, 4)
            &&& spec_parse_durations(d) matches Ok(r) ==> {
                &&& r.humidity.whole == frame_byte(d, 0)
                &&& r.humidity.tenths == frame_byte(d, 1)
                &&& r.temperature.whole == frame_byte(d, 2)
                &&& r.temperature.tenths == frame_byte(d, 3)
            }
            &&& spec_from_durations(d) matches Some(b) ==> {
                &&& b.integral_humidity == frame_byte(d, 0)
                &&& b.decimal_humidity == frame_byte(d, 1)
                &&& b.integral_temp == frame_byte(d, 2)
                &&& b.decimal_temp == frame_byte(d, 3)
            }
            &&& typed::spec_from_durations(d) matches Some(t) ==> {
                &&& t.0.humidity.0.integer == frame_byte(d, 0)
                &&& t.0.humidity.0.decimal == frame_byte(d, 1)
                &&& t.0.temperature.0.integer == frame_byte(d, 2)
                &&& t.0.temperature.0.decimal == frame_byte(d, 3)
            }
        }),
{
}

} // verus!
