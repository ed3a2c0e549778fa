use blake2::digest::{Update, VariableOutput};
use homestat::entropy::fill_buffer;
use homestat::net::{IpConfigStep, IpConfigWait, NetAction, NetEvent, NetLoop, NetLoopError, NetPhase};
use homestat::server::{DecodeOutcome, PeerAction, on_message};
use homestat::wire::{Number, ReadError, Reading, WithTimestamp};

#[test]
fn fill_buffer_hashes_clock_then_oscillator() {
    let rosc: Vec<u8> = (0..512u32).map(|i| (i * 7 % 251) as u8).collect();
    let ticks = 0x0102_0304_0506_0708u64;
    let mut buffer = [0u8; 32];
    fill_buffer(&mut buffer, ticks, &rosc);

    // the same bytes, fed the way the probe feeds them
    let mut hasher = blake2::Blake2bVar::new(32).unwrap();
    hasher.update(&ticks.to_le_bytes());
    for b in rosc.iter() {
        hasher.update(&[*b]);
    }
    let mut expected = [0u8; 32];
    hasher.finalize_variable(&mut expected).unwrap();

    assert_eq!(buffer, expected);
    assert_ne!(buffer, [0u8; 32]);
}

#[test]
fn fill_buffer_depends_on_clock() {
    let rosc = vec![0u8; 512];
    let mut a = [0u8; 16];
    let mut b = [0u8; 16];
    fill_buffer(&mut a, 1, &rosc);
    fill_buffer(&mut b, 2, &rosc);
    assert_ne!(a, b);
}

#[test]
fn ip_config_gives_up_after_five_looks() {
    let mut w = IpConfigWait::new();
    for _ in 0..5 {
        assert!(!w.exhausted());
        assert_eq!(w.look(false), IpConfigStep::Retry);
    }
    // the attempt count is checked before a sixth look
    assert!(w.exhausted());
    assert_eq!(w.attempts, 5);
}

#[test]
fn ip_config_found() {
    let mut w = IpConfigWait::new();
    assert_eq!(w.look(false), IpConfigStep::Retry);
    assert_eq!(w.look(true), IpConfigStep::Configured);
    assert_eq!(w.attempts, 1);
}

#[test]
fn net_loop_error_texts() {
    assert_eq!(
        NetLoopError::WifiConnectFail { status: 15 }.to_string(),
        "Wifi connect failure status 15"
    );
    assert_eq!(
        NetLoopError::IpConfigMaxAttempts.to_string(),
        "Unable to get IP config after max attempts"
    );
    assert_eq!(
        NetLoopError::BufferWrite(String::from("x")).to_string(),
        "Unable to write serialized message to buffer"
    );
}

#[test]
fn server_message_actions() {
    let reading = Reading {
        temperature: Number { whole: 20, tenths: 1 },
        humidity: Number { whole: 50, tenths: 2 },
    };
    match on_message(DecodeOutcome::Decoded(WithTimestamp { micros: 5, inner: Ok(reading) }), 99, 250) {
        PeerAction::Store { record, failed_reading } => {
            assert_eq!(record.source_id, 1);
            assert_eq!(record.recv_timestamp, 99);
            assert_eq!(record.recv_nanos, 250);
            assert_eq!(record.wire_message, WithTimestamp { micros: 5, inner: Ok(reading) });
            assert!(!failed_reading);
        }
        other => panic!("unexpected action {:?}", other),
    }
    match on_message(
        DecodeOutcome::Decoded(WithTimestamp { micros: 5, inner: Err(ReadError::StartLowTimeout) }),
        99,
        0,
    ) {
        PeerAction::Store { failed_reading, .. } => assert!(failed_reading),
        other => panic!("unexpected action {:?}", other),
    }
    assert!(matches!(on_message(DecodeOutcome::UnexpectedEnd, 0, 0), PeerAction::ReadMore));
    match on_message(DecodeOutcome::Invalid(String::from("bad varint")), 0, 0) {
        PeerAction::Fail(e) => assert_eq!(e, "bad varint"),
        other => panic!("unexpected action {:?}", other),
    }
}

#[test]
fn net_loop_bring_up_and_send_cycle() {
    let (mut n, a) = NetLoop::start();
    assert_eq!(a, NetAction::LeaveWifi { timeout_secs: 1 });
    assert_eq!(n.step(NetEvent::Done), NetAction::JoinWifi { timeout_secs: 5 });
    assert_eq!(n.step(NetEvent::Done), NetAction::WaitLinkUp { timeout_secs: 5 });
    assert_eq!(n.step(NetEvent::Done), NetAction::WaitConfigUp { timeout_secs: 10 });
    assert_eq!(n.step(NetEvent::Done), NetAction::CheckIpConfig);
    assert_eq!(n.step(NetEvent::IpConfig { present: false }), NetAction::SleepMillis { millis: 500 });
    assert_eq!(n.step(NetEvent::Done), NetAction::CheckIpConfig);
    assert_eq!(n.step(NetEvent::IpConfig { present: true }), NetAction::ConnectTcp { timeout_secs: 1 });
    assert_eq!(n.step(NetEvent::Done), NetAction::TakeReading { timeout_secs: 2 });
    assert_eq!(n.step(NetEvent::Taken { present: false }), NetAction::SleepMillis { millis: 2000 });
    assert_eq!(n.step(NetEvent::Done), NetAction::TakeReading { timeout_secs: 2 });
    assert_eq!(n.step(NetEvent::Taken { present: true }), NetAction::SendReading { timeout_secs: 2 });
    assert_eq!(n.step(NetEvent::Done), NetAction::SleepMillis { millis: 2000 });
    assert_eq!(n.phase, NetPhase::Pausing);
}

#[test]
fn net_loop_failures() {
    let (mut n, _) = NetLoop::start();
    assert_eq!(n.step(NetEvent::TimedOut), NetAction::Fail(NetLoopError::WifiLeaveTimeout));
    // after a failure the next run starts over
    assert_eq!(n.step(NetEvent::Done), NetAction::LeaveWifi { timeout_secs: 1 });
    n.step(NetEvent::Done);
    assert_eq!(
        n.step(NetEvent::JoinRefused { status: 7 }),
        NetAction::Fail(NetLoopError::WifiConnectFail { status: 7 })
    );

    let (mut n, _) = NetLoop::start();
    for _ in 0..4 {
        n.step(NetEvent::Done);
    }
    for _ in 0..4 {
        assert_eq!(n.step(NetEvent::IpConfig { present: false }), NetAction::SleepMillis { millis: 500 });
        assert_eq!(n.step(NetEvent::Done), NetAction::CheckIpConfig);
    }
    // the fifth look finds nothing: after its pause the loop gives up
    // without looking a sixth time
    assert_eq!(n.step(NetEvent::IpConfig { present: false }), NetAction::SleepMillis { millis: 500 });
    assert_eq!(n.step(NetEvent::Done), NetAction::Fail(NetLoopError::IpConfigMaxAttempts));

    let (mut n, _) = NetLoop::start();
    for _ in 0..4 {
        n.step(NetEvent::Done);
    }
    n.step(NetEvent::IpConfig { present: true });
    n.step(NetEvent::Done);
    n.step(NetEvent::Taken { present: true });
    assert_eq!(
        n.step(NetEvent::EncodeFailed(String::from("SerializeBufferFull"))),
        NetAction::Fail(NetLoopError::BufferWrite(String::from("SerializeBufferFull")))
    );
}

#[test]
fn net_loop_writes_each_reading_taken_once() {
    let (mut n, _) = NetLoop::start();
    for _ in 0..4 {
        n.step(NetEvent::Done);
    }
    n.step(NetEvent::IpConfig { present: true });
    assert_eq!(n.step(NetEvent::Done), NetAction::TakeReading { timeout_secs: 2 });
    let start = n;
    let mut sends: usize = 0;
    for present in [true, false, true, true, false] {
        let mut actions = vec![n.step(NetEvent::Taken { present })];
        if present {
            actions.push(n.step(NetEvent::Done));
        }
        actions.push(n.step(NetEvent::Done));
        sends += actions
            .iter()
            .filter(|a| matches!(a, NetAction::SendReading { .. }))
            .count();
        assert_eq!(actions.last(), Some(&NetAction::TakeReading { timeout_secs: 2 }));
        assert!(!actions.iter().any(|a| matches!(a, NetAction::Fail(_))));
        assert_eq!(n, start);
    }
    assert_eq!(sends, 3);
}
