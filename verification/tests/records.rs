use homestat::db::{DbError, FetchRecord, HomestatRecord, InsertParams, Pager, fetch_window};
use homestat::tasks::{database_backup_paths, get_download_url, strip_cargo_dir};
use homestat::wire::{ChecksumError, Number, ReadError, Reading, WithTimestamp};

fn row() -> FetchRecord {
    FetchRecord {
        recv_timestamp: 123456,
        source: 1,
        micros: 1234567,
        celcius_whole: Some(12),
        celcius_tenth: Some(3),
        humidity_whole: Some(45),
        humidity_tenth: Some(6),
        error: None,
    }
}

fn reading() -> Reading {
    Reading {
        temperature: Number { whole: 12, tenths: 3 },
        humidity: Number { whole: 45, tenths: 6 },
    }
}

#[test]
fn row_with_reading() {
    let r = HomestatRecord::try_from(row()).unwrap();
    assert_eq!(r.source_id, 1);
    assert_eq!(r.recv_timestamp, 123456);
    assert_eq!(r.recv_nanos, 0);
    assert_eq!(r.wire_message, WithTimestamp { micros: 1234567, inner: Ok(reading()) });
}

#[test]
fn row_with_error() {
    let e = ReadError::Checksum(ChecksumError { expected: 123, actual: 45 });
    let mut fr = row();
    fr.celcius_whole = None;
    fr.error = Some(Ok(e));
    let r = HomestatRecord::try_from(fr).unwrap();
    assert_eq!(r.wire_message.inner, Err(e));

    let mut fr = row();
    fr.error = Some(Err(String::from("expected value")));
    assert_eq!(
        HomestatRecord::try_from(fr).unwrap_err(),
        DbError::Serde(String::from("expected value"))
    );
}

#[test]
fn row_errors_in_order() {
    let mut fr = row();
    fr.source = 256;
    fr.recv_timestamp = i64::MAX;
    assert_eq!(HomestatRecord::try_from(fr).unwrap_err(), DbError::IntConvert);

    let mut fr = row();
    fr.recv_timestamp = i64::MAX;
    fr.micros = -1;
    assert_eq!(HomestatRecord::try_from(fr).unwrap_err(), DbError::DateTimeConvert(i64::MAX));

    let mut fr = row();
    fr.micros = -1;
    assert_eq!(HomestatRecord::try_from(fr).unwrap_err(), DbError::IntConvert);

    let mut fr = row();
    fr.celcius_tenth = None;
    fr.humidity_whole = Some(300);
    assert_eq!(HomestatRecord::try_from(fr).unwrap_err(), DbError::DbInvalid);

    let mut fr = row();
    fr.humidity_whole = Some(300);
    assert_eq!(HomestatRecord::try_from(fr).unwrap_err(), DbError::IntConvert);
}

#[test]
fn record_text() {
    let r = HomestatRecord::try_from(row()).unwrap();
    assert_eq!(
        r.to_string().unwrap(),
        "Pico 1 at 1970-01-02T10:17:36+00:00: 000001234567μs: 12.3°C, 45.6%RH"
    );
    let far = HomestatRecord { recv_timestamp: i64::MAX, ..r };
    assert_eq!(far.to_string(), None);
}

#[test]
fn insert_params_values() {
    let r = HomestatRecord::try_from(row()).unwrap();
    assert_eq!(
        r.insert_params(),
        Ok(InsertParams {
            timestamp: 123456,
            source_id: 1,
            micros: 1234567,
            payload: Ok(reading()),
        })
    );
    let big = HomestatRecord {
        wire_message: WithTimestamp { micros: u64::MAX, inner: Ok(reading()) },
        ..r
    };
    assert_eq!(
        big.insert_params(),
        Err(DbError::Db(String::from("Encode(TryFromIntError(()))")))
    );
}

#[test]
fn fetch_windows() {
    assert_eq!(fetch_window(None, None), Ok((100, 0)));
    assert_eq!(fetch_window(Some(5), Some(10)), Ok((5, 10)));
    assert_eq!(fetch_window(Some(u64::MAX), None), Err(DbError::IntConvert));
    assert_eq!(fetch_window(None, Some(1 << 63)), Err(DbError::IntConvert));
}

#[test]
fn pager_stops_after_short_page() {
    let mut p = Pager::new(Some(10));
    assert!(p.on_page(10));
    assert!(p.on_page(10));
    assert!(!p.on_page(3));
    assert_eq!(p.offset, 23);
    assert_eq!(p.total, 23);

    let mut p = Pager::new(None);
    assert!(p.on_page(100));
    assert!(!p.on_page(99));
    assert_eq!(p.total, 199);
}

#[test]
fn download_urls() {
    assert_eq!(
        get_download_url("firmware/COMPONENT_43439/43439a0.bin"),
        "https://raw.githubusercontent.com/Infineon/wifi-host-driver/refs/tags/latest-v3.X/WiFi_Host_Driver/resources/firmware/COMPONENT_43439/43439a0.bin"
    );
}

#[test]
fn backup_paths() {
    assert_eq!(
        database_backup_paths("sqlite:/tmp/homestat.db"),
        Some((String::from("/tmp/homestat.db"), String::from("/tmp/homestat.db.bak")))
    );
    assert_eq!(
        database_backup_paths("sqlite:a:b"),
        Some((String::from("a"), String::from("a.bak")))
    );
    assert_eq!(database_backup_paths("sqlite:"), Some((String::new(), String::from(".bak"))));
    assert_eq!(database_backup_paths("no-colon"), None);
}

#[test]
fn workspace_relative_paths() {
    assert_eq!(strip_cargo_dir("/work/repo", "/work/repo/misc/firmware"), "misc/firmware");
    assert_eq!(strip_cargo_dir("/work/repo", "/work/repository/x"), "/work/repository/x");
    assert_eq!(strip_cargo_dir("/work/repo", "relative/x"), "relative/x");
}

#[test]
fn receive_time_range() {
    for (secs, ok) in [
        (8_210_266_876_799i64, true),
        (8_210_266_876_800, false),
        (-8_334_601_228_800, true),
        (-8_334_601_228_801, false),
        (0, true),
        (i64::MIN, false),
    ] {
        let mut fr = row();
        fr.recv_timestamp = secs;
        let r = HomestatRecord::try_from(fr);
        if ok {
            assert!(r.is_ok(), "{secs}");
        } else {
            assert_eq!(r.unwrap_err(), DbError::DateTimeConvert(secs));
        }
    }
}

#[test]
fn basic_test() {
    let record = HomestatRecord {
        source_id: 1,
        recv_timestamp: 1_700_000_000,
        recv_nanos: 0,
        wire_message: WithTimestamp {
            micros: 1234567,
            inner: Ok(Reading {
                temperature: Number { whole: 12, tenths: 3 },
                humidity: Number { whole: 45, tenths: 6 },
            }),
        },
    };
    let params = record.insert_params().unwrap();
    assert_eq!(params.micros, 1234567);
    assert_eq!(params.timestamp, 1_700_000_000);

    let record = HomestatRecord {
        source_id: 1,
        recv_timestamp: 123456789 / 1000,
        recv_nanos: 789_000_000,
        wire_message: WithTimestamp {
            micros: 2345678,
            inner: Err(ReadError::Checksum(ChecksumError { expected: 123, actual: 45 })),
        },
    };
    let params = record.insert_params().unwrap();
    assert_eq!(params.payload, Err(ReadError::Checksum(ChecksumError { expected: 123, actual: 45 })));
    assert_eq!(params.timestamp, 123456);
}

#[test]
fn record_text_keeps_sub_second_time() {
    let record = HomestatRecord {
        source_id: 1,
        recv_timestamp: 123456,
        recv_nanos: 789_000_000,
        wire_message: WithTimestamp {
            micros: 2345678,
            inner: Err(ReadError::Checksum(ChecksumError { expected: 123, actual: 45 })),
        },
    };
    assert_eq!(
        record.to_string().unwrap(),
        "Pico 1 at 1970-01-02T10:17:36.789+00:00: 000002345678μs: Checksum error, expected 123, got 45"
    );
    let leap = HomestatRecord { recv_timestamp: 59, recv_nanos: 1_500_000_000, ..record.clone() };
    assert!(leap.to_string().is_some());
    let bad = HomestatRecord { recv_timestamp: 58, recv_nanos: 1_500_000_000, ..record };
    assert_eq!(bad.to_string(), None);
}

#[test]
fn insert_then_fetch_round_trip() {
    let record = HomestatRecord {
        source_id: 3,
        recv_timestamp: 1_700_000_000,
        recv_nanos: 123_000_000,
        wire_message: WithTimestamp { micros: 42, inner: Ok(reading()) },
    };
    let p = record.insert_params().unwrap();
    let stored = match p.payload {
        Ok(r) => FetchRecord {
            recv_timestamp: p.timestamp,
            source: p.source_id as i64,
            micros: p.micros,
            celcius_whole: Some(r.temperature.whole as i64),
            celcius_tenth: Some(r.temperature.tenths as i64),
            humidity_whole: Some(r.humidity.whole as i64),
            humidity_tenth: Some(r.humidity.tenths as i64),
            error: None,
        },
        Err(_) => unreachable!(),
    };
    let back = HomestatRecord::try_from(stored).unwrap();
    assert_eq!(back.source_id, 3);
    assert_eq!(back.recv_timestamp, 1_700_000_000);
    assert_eq!(back.recv_nanos, 0);
    assert_eq!(back.wire_message, record.wire_message);

    let e = ReadError::DataRisingTimeout { bit: 7 };
    let failed = HomestatRecord {
        wire_message: WithTimestamp { micros: 9, inner: Err(e) },
        ..record
    };
    let p = failed.insert_params().unwrap();
    let stored = FetchRecord {
        recv_timestamp: p.timestamp,
        source: p.source_id as i64,
        micros: p.micros,
        celcius_whole: None,
        celcius_tenth: None,
        humidity_whole: None,
        humidity_tenth: None,
        error: Some(Ok(e)),
    };
    let back = HomestatRecord::try_from(stored).unwrap();
    assert_eq!(back.wire_message, failed.wire_message);
}
