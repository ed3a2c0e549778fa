use homestat::timelog::{LogLevel, TimeLog, log_line};
use homestat::wire::{ChecksumError, Number, ReadError, Reading, WireMessageDisplay, WithTimestamp};

fn reading() -> Reading {
    Reading {
        temperature: Number { whole: 21, tenths: 5 },
        humidity: Number { whole: 40, tenths: 3 },
    }
}

#[test]
fn reading_text() {
    assert_eq!(reading().to_string(), "21.5°C, 40.3%RH");
    let r = Reading {
        temperature: Number { whole: 255, tenths: 0 },
        humidity: Number { whole: 0, tenths: 255 },
    };
    assert_eq!(r.to_string(), "255.0°C, 0.255%RH");
}

#[test]
fn error_texts() {
    assert_eq!(ReadError::StartLowTimeout.to_string(), "Timeout at low start signal");
    assert_eq!(ReadError::StartRisingTimeout.to_string(), "Timeout at rising edge of start signal");
    assert_eq!(
        ReadError::StartFallingTimeout.to_string(),
        "Timeout at falling edge of start signal"
    );
    assert_eq!(
        ReadError::DataRisingTimeout { bit: 17 }.to_string(),
        "Timeout at rising edge of data signal for bit 17"
    );
    assert_eq!(
        ReadError::DataFallingTimeout { bit: 0 }.to_string(),
        "Timeout at falling edge of data signal for bit 0"
    );
    let c = ChecksumError { expected: 123, actual: 45 };
    assert_eq!(c.to_string(), "Checksum error, expected 123, got 45");
    assert_eq!(ReadError::Checksum(c).to_string(), "Checksum error, expected 123, got 45");
}

#[test]
fn wire_message_texts() {
    let ok = WithTimestamp { micros: 1234567, inner: Ok(reading()) };
    assert_eq!(WireMessageDisplay(&ok).to_string(), "000001234567μs: 21.5°C, 40.3%RH");
    let err = WithTimestamp { micros: 2345678, inner: Err(ReadError::StartLowTimeout) };
    assert_eq!(
        WireMessageDisplay(&err).to_string(),
        "000002345678μs: Timeout at low start signal"
    );
    // a timestamp wider than twelve digits is not cut
    let wide = WithTimestamp { micros: u64::MAX, inner: Err(ReadError::StartLowTimeout) };
    assert_eq!(
        WireMessageDisplay(&wide).to_string(),
        "18446744073709551615μs: Timeout at low start signal"
    );
    let stamped = WithTimestamp { micros: 0, inner: reading() };
    assert_eq!(stamped.to_string(), "000000000000μs: 21.5°C, 40.3%RH");
}

#[test]
fn time_log_texts() {
    assert_eq!(TimeLog(0).to_string(), "000d 00:00:00.000000");
    assert_eq!(TimeLog(3_661_000_042).to_string(), "000d 01:61:3661.000042");
    // 2 days, 1 hour, 1 minute, 1 second and 1 microsecond
    let m = ((2 * 24 * 60 + 60 + 1) * 60 + 1) * 1_000_000 + 1;
    assert_eq!(TimeLog(m).to_string(), "002d 49:2941:176461.000001");
}

#[test]
fn checksum_error_converts() {
    let c = ChecksumError { expected: 1, actual: 2 };
    let e: ReadError = c.into();
    assert_eq!(e, ReadError::Checksum(c));
}

#[test]
fn usb_log_lines() {
    assert_eq!(
        log_line(TimeLog(3_661_000_042), LogLevel::Info, "link is up"),
        "[000d 01:61:3661.000042] [INFO] link is up\r\n"
    );
    assert_eq!(
        log_line(TimeLog(0), LogLevel::Warn, "checksum failure"),
        "[000d 00:00:00.000000] [WARN] checksum failure\r\n"
    );
    assert_eq!(log_line(TimeLog(1), LogLevel::Error, ""), "[000d 00:00:00.000001] [ERROR] \r\n");
}
