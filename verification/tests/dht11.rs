use homestat::dht11::capture::{CaptureStep, PulseCapture};
use homestat::dht11::basic;
use homestat::dht11::bits::{bits_to_u8, duration_to_bit};
use homestat::dht11::reader::{Dht11Reader, PinEvent, PinWait, ReadStep};
use homestat::dht11::typed::{Dht11Reading, Humidity, Temperature, TypedReading, WholeAndDecimal};
use homestat::wire::{ChecksumError, Number, ReadError, Reading};

/// High-pulse durations that encode the given five bytes (70 us for a one,
/// 27 us for a zero).
fn durations_for(bytes: [u8; 5]) -> [u64; 40] {
    let mut d = [0u64; 40];
    for (k, b) in bytes.iter().enumerate() {
        for i in 0..8 {
            let bit = (b >> (7 - i)) & 1 == 1;
            d[8 * k + i] = if bit { 70 } else { 27 };
        }
    }
    d
}

#[test]
fn duration_threshold() {
    assert!(!duration_to_bit(0));
    assert!(!duration_to_bit(27));
    assert!(!duration_to_bit(45));
    assert!(duration_to_bit(46));
    assert!(duration_to_bit(70));
}

#[test]
fn bits_msb_first() {
    assert_eq!(bits_to_u8(&[false; 8]), 0);
    assert_eq!(bits_to_u8(&[true; 8]), 255);
    assert_eq!(bits_to_u8(&[true, false, false, false, false, false, false, false]), 0x80);
    assert_eq!(bits_to_u8(&[false, false, false, false, false, false, false, true]), 1);
    assert_eq!(bits_to_u8(&[false, false, true, false, true, false, true, false]), 0x2a);
}

#[test]
fn parse_valid_reading() {
    // humidity 40.3, temperature 21.5, checksum 40 + 3 + 21 + 5 = 69
    let r = Dht11Reader::parse_durations(durations_for([40, 3, 21, 5, 69]));
    assert_eq!(
        r,
        Ok(Reading {
            temperature: Number { whole: 21, tenths: 5 },
            humidity: Number { whole: 40, tenths: 3 },
        })
    );
}

#[test]
fn parse_checksum_wraps() {
    // 200 + 100 + 0 + 10 = 310, which wraps to 54
    let r = Dht11Reader::parse_durations(durations_for([200, 100, 0, 10, 54]));
    assert!(r.is_ok());
}

#[test]
fn parse_checksum_error() {
    let r = Dht11Reader::parse_durations(durations_for([40, 3, 21, 5, 70]));
    assert_eq!(r, Err(ChecksumError { expected: 69, actual: 70 }));
    let r = Dht11Reader::parse_durations(durations_for([200, 100, 0, 10, 55]));
    assert_eq!(r, Err(ChecksumError { expected: 54, actual: 55 }));
}

#[test]
fn basic_reading() {
    let r = basic::Reading::from_durations(durations_for([40, 3, 21, 5, 69]));
    assert_eq!(
        r,
        Some(basic::Reading {
            integral_humidity: 40,
            decimal_humidity: 3,
            integral_temp: 21,
            decimal_temp: 5,
        })
    );
    assert_eq!(basic::Reading::from_durations(durations_for([40, 3, 21, 5, 68])), None);
}

#[test]
fn typed_reading() {
    let r = Dht11Reading::from_durations(durations_for([40, 3, 21, 5, 69]));
    assert_eq!(
        r,
        Some(Dht11Reading(TypedReading {
            temperature: Temperature(WholeAndDecimal { integer: 21, decimal: 5 }),
            humidity: Humidity(WholeAndDecimal { integer: 40, decimal: 3 }),
        }))
    );
    assert_eq!(Dht11Reading::from_durations(durations_for([0, 0, 0, 0, 1])), None);
}

/// Runs a read through the given number of successful start edges and data
/// bits, with the data pulses taken from `durations`.
fn run_read(durations: [u64; 40]) -> ReadStep {
    let (mut session, mut step) = Dht11Reader::begin();
    assert_eq!(step, ReadStep::Wait { until: PinWait::Low, timeout_micros: 45 });
    step = session.on_event(PinEvent::Reached { micros: 100 });
    assert_eq!(step, ReadStep::Wait { until: PinWait::RisingEdge, timeout_micros: 85 });
    step = session.on_event(PinEvent::Reached { micros: 180 });
    assert_eq!(step, ReadStep::Wait { until: PinWait::FallingEdge, timeout_micros: 85 });
    step = session.on_event(PinEvent::Reached { micros: 260 });
    let mut now = 260u64;
    for d in durations.iter() {
        assert_eq!(step, ReadStep::Wait { until: PinWait::RisingEdge, timeout_micros: 55 });
        now += 50;
        step = session.on_event(PinEvent::Reached { micros: now });
        assert_eq!(step, ReadStep::Wait { until: PinWait::Low, timeout_micros: 75 });
        now += d;
        step = session.on_event(PinEvent::Reached { micros: now });
    }
    assert!(session.is_finished());
    step
}

#[test]
fn read_protocol_full_response() {
    let step = run_read(durations_for([40, 3, 21, 5, 69]));
    assert_eq!(
        step,
        ReadStep::Done(Ok(Reading {
            temperature: Number { whole: 21, tenths: 5 },
            humidity: Number { whole: 40, tenths: 3 },
        }))
    );
    let step = run_read(durations_for([40, 3, 21, 5, 1]));
    assert_eq!(
        step,
        ReadStep::Done(Err(ReadError::Checksum(ChecksumError { expected: 69, actual: 1 })))
    );
}

#[test]
fn read_protocol_timeouts() {
    let (mut s, _) = Dht11Reader::begin();
    assert_eq!(s.on_event(PinEvent::TimedOut), ReadStep::Done(Err(ReadError::StartLowTimeout)));
    assert!(s.is_finished());

    let (mut s, _) = Dht11Reader::begin();
    s.on_event(PinEvent::Reached { micros: 1 });
    assert_eq!(s.on_event(PinEvent::TimedOut), ReadStep::Done(Err(ReadError::StartRisingTimeout)));

    let (mut s, _) = Dht11Reader::begin();
    s.on_event(PinEvent::Reached { micros: 1 });
    s.on_event(PinEvent::Reached { micros: 2 });
    assert_eq!(s.on_event(PinEvent::TimedOut), ReadStep::Done(Err(ReadError::StartFallingTimeout)));

    let (mut s, _) = Dht11Reader::begin();
    for t in 1..=3 {
        s.on_event(PinEvent::Reached { micros: t });
    }
    // bit 0 and bit 1 arrive, bit 2's rise times out
    for t in [10u64, 40, 60, 130] {
        s.on_event(PinEvent::Reached { micros: t });
    }
    assert_eq!(
        s.on_event(PinEvent::TimedOut),
        ReadStep::Done(Err(ReadError::DataRisingTimeout { bit: 2 }))
    );

    let (mut s, _) = Dht11Reader::begin();
    for t in 1..=4 {
        s.on_event(PinEvent::Reached { micros: t });
    }
    assert_eq!(
        s.on_event(PinEvent::TimedOut),
        ReadStep::Done(Err(ReadError::DataFallingTimeout { bit: 0 }))
    );
}

#[test]
fn capture_records_pulse_lengths() {
    let durations = durations_for([40, 3, 21, 5, 69]);
    let (mut c, mut step) = PulseCapture::begin();
    assert_eq!(step, CaptureStep::Wait(PinWait::FallingEdge));
    step = c.on_edge(1000);
    let mut now = 1000u64;
    for d in durations.iter() {
        assert_eq!(step, CaptureStep::Wait(PinWait::RisingEdge));
        now += 50;
        step = c.on_edge(now);
        assert_eq!(step, CaptureStep::Wait(PinWait::FallingEdge));
        now += d;
        step = c.on_edge(now);
    }
    assert_eq!(step, CaptureStep::Captured(durations));
    assert_eq!(basic::Reading::from_durations(durations).unwrap().to_string(), "21.5degC, 40.3%RH");
    assert_eq!(Dht11Reading::from_durations(durations).unwrap().to_string(), "21.5degC, 40.3%RH");
}

#[test]
fn parse_distinguishes_humidity_and_temperature_tenths() {
    // humidity 45.6, temperature 12.3, checksum 45 + 6 + 12 + 3 = 66
    let d = durations_for([45, 6, 12, 3, 66]);
    assert_eq!(
        Dht11Reader::parse_durations(d),
        Ok(Reading {
            temperature: Number { whole: 12, tenths: 3 },
            humidity: Number { whole: 45, tenths: 6 },
        })
    );
    assert_eq!(Dht11Reading::from_durations(d).unwrap().to_string(), "12.3degC, 45.6%RH");
    assert_eq!(basic::Reading::from_durations(d).unwrap().to_string(), "12.3degC, 45.6%RH");
}

#[test]
fn older_decoders_wrap_the_checksum() {
    // 200 + 100 + 0 + 10 = 310, which wraps to 54
    let d = durations_for([200, 100, 0, 10, 54]);
    assert!(basic::Reading::from_durations(d).is_some());
    assert!(Dht11Reading::from_durations(d).is_some());
    let d = durations_for([200, 100, 0, 10, 55]);
    assert_eq!(basic::Reading::from_durations(d), None);
    assert_eq!(Dht11Reading::from_durations(d), None);
}
