use vstd::prelude::*;

use crate::dht11::bits::{frame_byte, frame_byte_at};
use crate::wire::{ChecksumError, Number, ReadError, Reading};

verus! {

/// The reading (or checksum failure) that a transmission of forty high-pulse
/// durations encodes.
pub open spec fn spec_parse_durations(d: Seq<u64>) -> Result<Reading, ChecksumError> {
    let humidity_whole = frame_byte(d, 0);
    let humidity_tenths = frame_byte(d, 1);
    let temp_whole = frame_byte(d, 2);
    let temp_tenths = frame_byte(d, 3);
    let checksum = frame_byte(d, 4);
    let expected = ((humidity_whole + humidity_tenths + temp_whole + temp_tenths) % 256) as u8;
    if expected != checksum {
        Err(ChecksumError { expected, actual: checksum })
    } else {
        Ok(Reading {
            temperature: Number { whole: temp_whole, tenths: temp_tenths },
            humidity: Number { whole: humidity_whole, tenths: humidity_tenths },
        })
    }
}

/// Reader of the DHT11 single-wire protocol.
pub struct Dht11Reader;

impl Dht11Reader {
    /// Decode forty high-pulse durations into a reading, checking the
    /// wrapping byte-sum checksum.
    pub fn parse_durations(durations: [u64; 40]) -> (r: Result<Reading, ChecksumError>)
        ensures
            r == spec_parse_durations(durations@),
    {
        let humidity_whole = frame_byte_at(&durations, 0);
        let humidity_tenths = frame_byte_at(&durations, 1);
        let temp_whole = frame_byte_at(&durations, 2);
        let temp_tenths = frame_byte_at(&durations, 3);
        let checksum = frame_byte_at(&durations, 4);

        // the checksum is the byte sum, wrapping on overflow
        let sum: u16 = humidity_whole as u16 + humidity_tenths as u16 + temp_whole as u16
            + temp_tenths as u16;
        let expected_checksum: u8 = (sum % 256) as u8;

        if expected_checksum != checksum {
            Err(ChecksumError { expected: expected_checksum, actual: checksum })
        } else {
            Ok(
                Reading {
                    temperature: Number { whole: temp_whole, tenths: temp_tenths },
                    humidity: Number { whole: humidity_whole, tenths: humidity_tenths },
                },
            )
        }
    }
}

/// How long the sensor may take to pull the line low after the start signal.
pub const START_LOW_TIMEOUT_MICROS: u64 = 45;
/// How long each half of the sensor's response signal may take.
pub const START_EDGE_TIMEOUT_MICROS: u64 = 85;
/// How long the low gap before each data bit may take.
pub const DATA_RISING_TIMEOUT_MICROS: u64 = 55;
/// How long the high pulse of each data bit may take.
pub const DATA_LOW_TIMEOUT_MICROS: u64 = 75;

/// What the reader waits for on the data pin.
#[derive(Debug, Clone, Copy, PartialEq, Eq, Structural)]
pub enum PinWait {
    Low,
    RisingEdge,
    FallingEdge,
}

/// What happened while waiting on the data pin.
#[derive(Debug, Clone, Copy, PartialEq, Eq, Structural)]
pub enum PinEvent {
    /// The awaited level or edge was seen at this clock time (microseconds).
    Reached { micros: u64 },
    /// The wait timed out.
    TimedOut,
}

/// Where a read is in the sensor's response.
#[derive(Debug, Clone, Copy, PartialEq, Eq, Structural)]
pub enum ReadPhase {
    StartLow,
    StartRising,
    StartFalling,
    DataRising,
    DataFalling,
    Finished,
}

/// What the driver of a read does next.
#[derive(Debug, Clone, Copy, PartialEq, Eq)]
pub enum ReadStep {
    /// Wait on the pin for `until`, for at most `timeout_micros`.
    Wait { until: PinWait, timeout_micros: u64 },
    /// The read is over, with this outcome.
    Done(Result<Reading, ReadError>),
}

/// The state of one read of the sensor's response.
pub struct ReadSession {
    phase: ReadPhase,
    bit: usize,
    high_time: u64,
    durations: [u64; 40],
}

/// The mathematical state of a read.
pub struct ReadSessionView {
    pub phase: ReadPhase,
    pub bit: nat,
    pub high_time: u64,
    pub durations: Seq<u64>,
}

impl View for ReadSession {
    type V = ReadSessionView;

    closed spec fn view(&self) -> ReadSessionView {
        ReadSessionView {
            phase: self.phase,
            bit: self.bit as nat,
            high_time: self.high_time,
            durations: self.durations@,
        }
    }
}

/// A read's state is consistent.
pub open spec fn session_wf(s: ReadSessionView) -> bool {
    &&& s.durations.len() == 40
    &&& s.bit < 40
}

/// The state in which a read starts, right after the start signal.
pub open spec fn initial_session() -> ReadSessionView {
    ReadSessionView {
        phase: ReadPhase::StartLow,
        bit: 0,
        high_time: 0,
        durations: Seq::new(40, |i: int| 0u64),
    }
}

/// The first wait of a read.
pub open spec fn initial_wait() -> ReadStep {
    ReadStep::Wait { until: PinWait::Low, timeout_micros: START_LOW_TIMEOUT_MICROS }
}

/// The session can take `e`: it is not finished, and a falling data edge is
/// not earlier than the rising edge before it.
pub open spec fn accepts(s: ReadSessionView, e: PinEvent) -> bool {
    &&& s.phase != ReadPhase::Finished
    &&& (s.phase == ReadPhase::DataFalling && e is Reached) ==> s.high_time <= e->micros
}

/// The outcome of a full transmission, with a checksum failure reported as a
/// read error.
pub open spec fn spec_outcome(d: Seq<u64>) -> Result<Reading, ReadError> {
    match spec_parse_durations(d) {
        Ok(r) => Ok(r),
        Err(e) => Err(ReadError::Checksum(e)),
    }
}

/// One step of the read protocol: the next state and what to do next.
pub open spec fn spec_step(s: ReadSessionView, e: PinEvent) -> (ReadSessionView, ReadStep) {
    let finished = ReadSessionView { phase: ReadPhase::Finished, ..s };
    match s.phase {
        ReadPhase::StartLow => match e {
            PinEvent::Reached { .. } => (
                ReadSessionView { phase: ReadPhase::StartRising, ..s },
                ReadStep::Wait { until: PinWait::RisingEdge, timeout_micros: START_EDGE_TIMEOUT_MICROS },
            ),
            PinEvent::TimedOut => (finished, ReadStep::Done(Err(ReadError::StartLowTimeout))),
        },
        ReadPhase::StartRising => match e {
            PinEvent::Reached { .. } => (
                ReadSessionView { phase: ReadPhase::StartFalling, ..s },
                ReadStep::Wait { until: PinWait::FallingEdge, timeout_micros: START_EDGE_TIMEOUT_MICROS },
            ),
            PinEvent::TimedOut => (finished, ReadStep::Done(Err(ReadError::StartRisingTimeout))),
        },
        ReadPhase::StartFalling => match e {
            PinEvent::Reached { .. } => (
                ReadSessionView { phase: ReadPhase::DataRising, bit: 0, ..s },
                ReadStep::Wait { until: PinWait::RisingEdge, timeout_micros: DATA_RISING_TIMEOUT_MICROS },
            ),
            PinEvent::TimedOut => (finished, ReadStep::Done(Err(ReadError::StartFallingTimeout))),
        },
        ReadPhase::DataRising => match e {
            PinEvent::Reached { micros } => (
                ReadSessionView { phase: ReadPhase::DataFalling, high_time: micros, ..s },
                ReadStep::Wait { until: PinWait::Low, timeout_micros: DATA_LOW_TIMEOUT_MICROS },
            ),
            PinEvent::TimedOut => (
                finished,
                ReadStep::Done(Err(ReadError::DataRisingTimeout { bit: s.bit as usize })),
            ),
        },
        ReadPhase::DataFalling => match e {
            PinEvent::Reached { micros } => {
                let durations = s.durations.update(s.bit as int, (micros - s.high_time) as u64);
                if s.bit + 1 < 40 {
                    (
                        ReadSessionView {
                            phase: ReadPhase::DataRising,
                            bit: s.bit + 1,
                            durations,
                            ..s
                        },
                        ReadStep::Wait { until: PinWait::RisingEdge, timeout_micros: DATA_RISING_TIMEOUT_MICROS },
                    )
                } else {
                    (
                        ReadSessionView { phase: ReadPhase::Finished, durations, ..s },
                        ReadStep::Done(spec_outcome(durations)),
                    )
                }
            },
            PinEvent::TimedOut => (
                finished,
                ReadStep::Done(Err(ReadError::DataFallingTimeout { bit: s.bit as usize })),
            ),
        },
        ReadPhase::Finished => (s, ReadStep::Done(Err(ReadError::StartLowTimeout))),
    }
}

impl Dht11Reader {
    /// Begin reading the sensor's response, right after the start signal
    /// was sent: the new session and its first wait.
    pub fn begin() -> (r: (ReadSession, ReadStep))
        ensures
            r.0@ == initial_session(),
            r.1 == initial_wait(),
    {
        let session = ReadSession {
            phase: ReadPhase::StartLow,
            bit: 0,
            high_time: 0,
            durations: [0u64; 40],
        };
        assert(session@.durations =~= initial_session().durations);
        (session, ReadStep::Wait { until: PinWait::Low, timeout_micros: START_LOW_TIMEOUT_MICROS })
    }
}

impl ReadSession {
    /// The session is consistent.
    pub open spec fn wf(&self) -> bool {
        session_wf(self@)
    }

    /// Whether the read is over.
    pub fn is_finished(&self) -> (b: bool)
        ensures
            b == (self@.phase == ReadPhase::Finished),
    {
        matches!(self.phase, ReadPhase::Finished)
    }

    /// Advance the read by what happened on the pin.
    pub fn on_event(&mut self, event: PinEvent) -> (step: ReadStep)
        requires
            old(self).wf(),
            accepts(old(self)@, event),
        ensures
            final(self).wf(),
            (final(self)@, step) == spec_step(old(self)@, event),
    {
        match self.phase {
            ReadPhase::StartLow => match event {
                PinEvent::Reached { .. } => {
                    self.phase = ReadPhase::StartRising;
                    ReadStep::Wait { until: PinWait::RisingEdge, timeout_micros: START_EDGE_TIMEOUT_MICROS }
                },
                PinEvent::TimedOut => {
                    self.phase = ReadPhase::Finished;
                    ReadStep::Done(Err(ReadError::StartLowTimeout))
                },
            },
            ReadPhase::StartRising => match event {
                PinEvent::Reached { .. } => {
                    self.phase = ReadPhase::StartFalling;
                    ReadStep::Wait { until: PinWait::FallingEdge, timeout_micros: START_EDGE_TIMEOUT_MICROS }
                },
                PinEvent::TimedOut => {
                    self.phase = ReadPhase::Finished;
                    ReadStep::Done(Err(ReadError::StartRisingTimeout))
                },
            },
            ReadPhase::StartFalling => match event {
                PinEvent::Reached { .. } => {
                    self.phase = ReadPhase::DataRising;
                    self.bit = 0;
                    ReadStep::Wait { until: PinWait::RisingEdge, timeout_micros: DATA_RISING_TIMEOUT_MICROS }
                },
                PinEvent::TimedOut => {
                    self.phase = ReadPhase::Finished;
                    ReadStep::Done(Err(ReadError::StartFallingTimeout))
                },
            },
            ReadPhase::DataRising => match event {
                PinEvent::Reached { micros } => {
                    self.phase = ReadPhase::DataFalling;
                    self.high_time = micros;
                    ReadStep::Wait { until: PinWait::Low, timeout_micros: DATA_LOW_TIMEOUT_MICROS }
                },
                PinEvent::TimedOut => {
                    self.phase = ReadPhase::Finished;
                    ReadStep::Done(Err(ReadError::DataRisingTimeout { bit: self.bit }))
                },
            },
            ReadPhase::DataFalling => match event {
                PinEvent::Reached { micros } => {
                    let bit = self.bit;
                    self.durations[bit] = micros - self.high_time;
                    if bit + 1 < 40 {
                        self.phase = ReadPhase::DataRising;
                        self.bit = bit + 1;
                        ReadStep::Wait { until: PinWait::RisingEdge, timeout_micros: DATA_RISING_TIMEOUT_MICROS }
                    } else {
                        self.phase = ReadPhase::Finished;
                        match Dht11Reader::parse_durations(self.durations) {
                            Ok(r) => ReadStep::Done(Ok(r)),
                            Err(e) => ReadStep::Done(Err(ReadError::from(e))),
                        }
                    }
                },
                PinEvent::TimedOut => {
                    self.phase = ReadPhase::Finished;
                    ReadStep::Done(Err(ReadError::DataFallingTimeout { bit: self.bit }))
                },
            },
            ReadPhase::Finished => ReadStep::Done(Err(ReadError::StartLowTimeout)),
        }
    }
}

/// The outcome of feeding `events` to a read in state `s`, one after the
/// other: `None` while the read still waits when the events run out.
pub open spec fn run(s: ReadSessionView, events: Seq<PinEvent>) -> Option<Result<Reading, ReadError>>
    decreases events.len(),
{
    if events.len() == 0 || s.phase == ReadPhase::Finished {
        None
    } else {
        let (next, step) = spec_step(s, events[0]);
        match step {
            ReadStep::Done(r) => Some(r),
            ReadStep::Wait { .. } => run(next, events.drop_first()),
        }
    }
}

/// The edges of the data bits from bit `b` on: for each bit, its rising edge
/// at `highs[b]` and its fall at `lows[b]`.
pub open spec fn pulse_events(highs: Seq<u64>, lows: Seq<u64>, b: nat) -> Seq<PinEvent>
    decreases 40 - b,
{
    if b >= 40 {
        Seq::empty()
    } else {
        seq![PinEvent::Reached { micros: highs[b as int] }, PinEvent::Reached { micros: lows[b as int] }]
            + pulse_events(highs, lows, b + 1)
    }
}

/// The high-pulse durations of forty data bits.
pub open spec fn pulse_durations(highs: Seq<u64>, lows: Seq<u64>) -> Seq<u64> {
    Seq::new(40, |i: int| (lows[i] - highs[i]) as u64)
}

proof fn lemma_run_pulses(s: ReadSessionView, highs: Seq<u64>, lows: Seq<u64>)
    requires
        highs.len() == 40,
        lows.len() == 40,
        forall|i: int| 0 <= i < 40 ==> highs[i] <= lows[i],
        s.phase == ReadPhase::DataRising,
        s.bit < 40,
        s.durations.len() == 40,
        forall|i: int| 0 <= i < s.bit ==> s.durations[i] == pulse_durations(highs, lows)[i],
    ensures
        run(s, pulse_events(highs, lows, s.bit)) == Some(spec_outcome(pulse_durations(highs, lows))),
    decreases 40 - s.bit,
{
    let b = s.bit;
    let rest = pulse_events(highs, lows, b + 1);
    let events = pulse_events(highs, lows, b);
    let e0 = PinEvent::Reached { micros: highs[b as int] };
    let e1 = PinEvent::Reached { micros: lows[b as int] };
    assert(events =~= seq![e0, e1] + rest);
    assert(events[0] == e0);
    let (s1, step1) = spec_step(s, e0);
    assert(events.drop_first() =~= seq![e1] + rest);
    assert(events.drop_first()[0] == e1);
    assert(events.drop_first().drop_first() =~= rest);
    let (s2, step2) = spec_step(s1, e1);
    assert(run(s, events) == run(s1, events.drop_first()));
    let dur = pulse_durations(highs, lows);
    if b + 1 < 40 {
        assert(run(s1, events.drop_first()) == run(s2, rest));
        lemma_run_pulses(s2, highs, lows);
    } else {
        assert(s2.durations =~= dur);
        assert(run(s1, events.drop_first()) == Some(spec_outcome(dur)));
    }
}

/// A complete, well-timed response of the sensor (its three start edges,
/// then a rise and a later fall for each of the forty data bits) ends the
/// read with the reading that the forty pulse lengths encode, or with the
/// checksum error that they produce.
pub proof fn law_full_response_decodes(t0: u64, t1: u64, t2: u64, highs: Seq<u64>, lows: Seq<u64>)
    requires
        highs.len() == 40,
        lows.len() == 40,
        forall|i: int| 0 <= i < 40 ==> highs[i] <= lows[i],
    ensures
        run(
            initial_session(),
            seq![
                (PinEvent::Reached { micros: t0 }),
                (PinEvent::Reached { micros: t1 }),
                (PinEvent::Reached { micros: t2 }),
            ] + pulse_events(highs, lows, 0),
        ) == Some(spec_outcome(pulse_durations(highs, lows))),
{
    let data = pulse_events(highs, lows, 0);
    let events = seq![
        PinEvent::Reached { micros: t0 },
        PinEvent::Reached { micros: t1 },
        PinEvent::Reached { micros: t2 },
    ] + data;
    let s0 = initial_session();
    let (s1, _) = spec_step(s0, PinEvent::Reached { micros: t0 });
    let (s2, _) = spec_step(s1, PinEvent::Reached { micros: t1 });
    let (s3, _) = spec_step(s2, PinEvent::Reached { micros: t2 });
    assert(events[0] == PinEvent::Reached { micros: t0 });
    assert(events.drop_first()[0] == PinEvent::Reached { micros: t1 });
    assert(events.drop_first().drop_first()[0] == PinEvent::Reached { micros: t2 });
    assert(events.drop_first().drop_first().drop_first() =~= data);
    assert(run(s0, events) == run(s1, events.drop_first()));
    assert(run(s1, events.drop_first()) == run(s2, events.drop_first().drop_first()));
    assert(run(s2, events.drop_first().drop_first()) == run(s3, data));
    lemma_run_pulses(s3, highs, lows);
}

/// A timeout ends the read at once, with the error that names the wait
/// that timed out (and, for a data bit, the bit's index).
pub proof fn law_timeout_ends_read(s: ReadSessionView)
    requires
        session_wf(s),
        s.phase != ReadPhase::Finished,
    ensures
        spec_step(s, PinEvent::TimedOut).0.phase == ReadPhase::Finished,
        spec_step(s, PinEvent::TimedOut).1 == ReadStep::Done(Err(match s.phase {
            ReadPhase::StartLow => ReadError::StartLowTimeout,
            ReadPhase::StartRising => ReadError::StartRisingTimeout,
            ReadPhase::StartFalling => ReadError::StartFallingTimeout,
            ReadPhase::DataRising => (ReadError::DataRisingTimeout { bit: s.bit as usize }),
            _ => (ReadError::DataFallingTimeout { bit: s.bit as usize }),
        })),
{
}

} // verus!
