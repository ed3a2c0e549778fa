use vstd::prelude::*;

use crate::text::{
    all_digits, append_decimal, append_zero_padded, decimal, digits_value, law_zero_padded_decimal,
    zero_pad,
};

verus! {

/// A number made up of a whole number plus some amount of tenths.
#[derive(Debug, Clone, Copy, PartialEq, Eq, Structural)]
pub struct Number {
    pub whole: u8,
    pub tenths: u8,
}

/// A temperature and humidity reading.
#[derive(Debug, Clone, Copy, PartialEq, Eq, Structural)]
pub struct Reading {
    pub temperature: Number,
    pub humidity: Number,
}

/// A value stamped with the sender's clock, in microseconds since boot.
#[derive(Debug, Clone, PartialEq, Eq)]
pub struct WithTimestamp<Inner> {
    pub micros: u64,
    pub inner: Inner,
}

/// Checksum mismatch in a sensor transmission.
#[derive(Debug, Clone, Copy, PartialEq, Eq, Structural)]
pub struct ChecksumError {
    pub expected: u8,
    pub actual: u8,
}

/// Why a sensor reading failed.
#[derive(Debug, Clone, Copy, PartialEq, Eq, Structural)]
pub enum ReadError {
    StartLowTimeout,
    StartRisingTimeout,
    StartFallingTimeout,
    DataRisingTimeout { bit: usize },
    DataFallingTimeout { bit: usize },
    Checksum(ChecksumError),
}

impl From<ChecksumError> for ReadError {
    /// A failed checksum is a read error.
    fn from(e: ChecksumError) -> (r: ReadError) {
        ReadError::Checksum(e)
    }
}

impl vstd::std_specs::convert::FromSpecImpl<ChecksumError> for ReadError {
    open spec fn obeys_from_spec() -> bool {
        true
    }

    open spec fn from_spec(e: ChecksumError) -> ReadError {
        ReadError::Checksum(e)
    }
}

/// The message a probe sends to the server: a reading or the reason it
/// failed, stamped with the probe's clock.
pub type WireMessage = WithTimestamp<Result<Reading, ReadError>>;

/// Helper type for rendering a [`WireMessage`] as text.
#[derive(Debug)]
pub struct WireMessageDisplay<'a>(pub &'a WithTimestamp<Result<Reading, ReadError>>);

/// Text of a reading: `{t}.{t}°C, {h}.{h}%RH`.
pub open spec fn reading_text(r: Reading) -> Seq<char> {
    decimal(r.temperature.whole as nat) + "."@ + decimal(r.temperature.tenths as nat) + "°C, "@
        + decimal(r.humidity.whole as nat) + "."@ + decimal(r.humidity.tenths as nat) + "%RH"@
}

/// Text of a checksum error.
pub open spec fn checksum_error_text(e: ChecksumError) -> Seq<char> {
    "Checksum error, expected "@ + decimal(e.expected as nat) + ", got "@ + decimal(e.actual as nat)
}

/// Text of a read error.
pub open spec fn read_error_text(e: ReadError) -> Seq<char> {
    match e {
        ReadError::StartLowTimeout => "Timeout at low start signal"@,
        ReadError::StartRisingTimeout => "Timeout at rising edge of start signal"@,
        ReadError::StartFallingTimeout => "Timeout at falling edge of start signal"@,
        ReadError::DataRisingTimeout { bit } => "Timeout at rising edge of data signal for bit "@
            + decimal(bit as nat),
        ReadError::DataFallingTimeout { bit } => "Timeout at falling edge of data signal for bit "@
            + decimal(bit as nat),
        ReadError::Checksum(c) => checksum_error_text(c),
    }
}

/// The timestamp at the head of a message's text: the microseconds padded
/// with zeros to twelve digits, then `μs: `.
pub open spec fn timestamp_text(micros: u64) -> Seq<char> {
    zero_pad(decimal(micros as nat), 12) + "μs: "@
}

/// Text of a wire message.
pub open spec fn wire_message_text(m: WireMessage) -> Seq<char> {
    timestamp_text(m.micros) + match m.inner {
        Ok(r) => reading_text(r),
        Err(e) => read_error_text(e),
    }
}

impl Reading {
    /// The reading as text, e.g. `21.5°C, 40.0%RH`.
    pub fn to_string(&self) -> (s: String)
        ensures
            s@ == reading_text(*self),
    {
        let mut s = String::new();
        append_decimal(&mut s, self.temperature.whole as u64);
        s.append(".");
        append_decimal(&mut s, self.temperature.tenths as u64);
        s.append("°C, ");
        append_decimal(&mut s, self.humidity.whole as u64);
        s.append(".");
        append_decimal(&mut s, self.humidity.tenths as u64);
        s.append("%RH");
        assert(s@ =~= reading_text(*self));
        s
    }
}

impl ChecksumError {
    /// The error as text.
    pub fn to_string(&self) -> (s: String)
        ensures
            s@ == checksum_error_text(*self),
    {
        let mut s = String::new();
        s.append("Checksum error, expected ");
        append_decimal(&mut s, self.expected as u64);
        s.append(", got ");
        append_decimal(&mut s, self.actual as u64);
        assert(s@ =~= checksum_error_text(*self));
        s
    }
}

impl ReadError {
    /// The error as text.
    pub fn to_string(&self) -> (s: String)
        ensures
            s@ == read_error_text(*self),
    {
        match self {
            ReadError::StartLowTimeout => String::from_str("Timeout at low start signal"),
            ReadError::StartRisingTimeout => String::from_str("Timeout at rising edge of start signal"),
            ReadError::StartFallingTimeout => String::from_str(
                "Timeout at falling edge of start signal",
            ),
            ReadError::DataRisingTimeout { bit } => {
                let mut s = String::from_str("Timeout at rising edge of data signal for bit ");
                append_decimal(&mut s, *bit as u64);
                s
            },
            ReadError::DataFallingTimeout { bit } => {
                let mut s = String::from_str("Timeout at falling edge of data signal for bit ");
                append_decimal(&mut s, *bit as u64);
                s
            },
            ReadError::Checksum(c) => c.to_string(),
        }
    }
}

/// Appends the timestamp head of a message's text.
fn append_timestamp(out: &mut String, micros: u64)
    ensures
        final(out)@ == old(out)@ + timestamp_text(micros),
{
    let ghost start = out@;
    append_zero_padded(out, micros, 12);
    out.append("μs: ");
    assert(out@ =~= start + timestamp_text(micros));
}

impl WithTimestamp<Reading> {
    /// The stamped reading as text: the timestamp head, then the reading.
    pub fn to_string(&self) -> (s: String)
        ensures
            s@ == timestamp_text(self.micros) + reading_text(self.inner),
    {
        let mut s = String::new();
        append_timestamp(&mut s, self.micros);
        let r = self.inner.to_string();
        s.append(r.as_str());
        s
    }
}

impl<'a> WireMessageDisplay<'a> {
    /// The message as text: the timestamp head, then the reading or the
    /// error.
    pub fn to_string(&self) -> (s: String)
        ensures
            s@ == wire_message_text(*self.0),
    {
        let mut s = String::new();
        append_timestamp(&mut s, self.0.micros);
        let body = match &self.0.inner {
            Ok(reading) => reading.to_string(),
            Err(e) => e.to_string(),
        };
        s.append(body.as_str());
        s
    }
}

/// A message's text begins with the sender's clock, for a reading and for
/// an error alike: a run of at least twelve decimal digits (zero-padded,
/// never cut) that reads back as the clock in microseconds, then `μs: `.
pub proof fn law_message_head(m: WireMessage)
    ensures
        exists|k: int|
            #![trigger wire_message_text(m).subrange(0, k)]
            {
                let t = wire_message_text(m);
                &&& 12 <= k
                &&& k + 4 <= t.len()
                &&& all_digits(t.subrange(0, k))
                &&& digits_value(t.subrange(0, k)) == m.micros
                &&& t.subrange(k, k + 4) == "μs: "@
            },
{
    reveal_strlit("μs: ");
    let pad = zero_pad(decimal(m.micros as nat), 12);
    law_zero_padded_decimal(m.micros as nat, 12);
    let t = wire_message_text(m);
    let k = pad.len() as int;
    let rest = match m.inner {
        Ok(r) => reading_text(r),
        Err(e) => read_error_text(e),
    };
    assert(t == pad + "μs: "@ + rest);
    assert(t.subrange(0, k) =~= pad);
    assert(t.subrange(k, k + 4) =~= "μs: "@);
}

} // verus!
