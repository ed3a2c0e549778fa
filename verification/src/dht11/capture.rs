//! The pulse capture of the first two probe firmwares: after the start
//! signal, wait (without timeouts) for the sensor's response and record how
//! long each of the forty data pulses stays high.
use vstd::prelude::*;

use crate::dht11::bits::frame_byte;
use crate::dht11::reader::{PinWait, pulse_durations};
use crate::dht11::typed::{WholeAndDecimal, expected_checksum, spec_from_durations};

verus! {

/// What the capture asks for next.
#[derive(Debug, Clone, Copy, PartialEq, Eq)]
pub enum CaptureStep {
    /// Wait for this edge, and report the clock time (microseconds) it came.
    Wait(PinWait),
    /// All forty high-pulse durations.
    Captured([u64; 40]),
}

/// The state of a capture.
#[derive(Debug, Clone, Copy)]
pub struct PulseCapture {
    /// Whether the sensor's response has started.
    started: bool,
    /// Index of the bit being captured.
    bit: usize,
    /// Whether the current bit's pulse is high (its rise was seen).
    high: bool,
    /// Clock time of the current bit's rise.
    high_time: u64,
    durations: [u64; 40],
}

/// The mathematical state of a capture.
pub struct PulseCaptureView {
    pub started: bool,
    pub bit: nat,
    pub high: bool,
    pub high_time: u64,
    pub durations: Seq<u64>,
    pub done: bool,
}

impl View for PulseCapture {
    type V = PulseCaptureView;

    closed spec fn view(&self) -> PulseCaptureView {
        PulseCaptureView {
            started: self.started,
            bit: self.bit as nat,
            high: self.high,
            high_time: self.high_time,
            durations: self.durations@,
            done: self.bit >= 40,
        }
    }
}

/// The step a capture takes when the awaited edge comes at `micros`.
pub open spec fn spec_capture_step(s: PulseCaptureView, micros: u64) -> (PulseCaptureView, Seq<u64>, bool) {
    if !s.started {
        (PulseCaptureView { started: true, ..s }, s.durations, false)
    } else if !s.high {
        (PulseCaptureView { high: true, high_time: micros, ..s }, s.durations, false)
    } else {
        let d = s.durations.update(s.bit as int, (micros - s.high_time) as u64);
        (
            PulseCaptureView { high: false, bit: s.bit + 1, durations: d, done: s.bit + 1 >= 40, ..s },
            d,
            s.bit + 1 >= 40,
        )
    }
}

impl PulseCapture {
    /// The capture's consistency.
    pub open spec fn wf(&self) -> bool {
        &&& self@.durations.len() == 40
        &&& self@.bit <= 40
        &&& !self@.done ==> self@.bit < 40
        &&& !self@.started ==> !self@.high
    }

    /// Start a capture right after the start signal: wait for the sensor
    /// to pull the line low.
    pub fn begin() -> (r: (PulseCapture, CaptureStep))
        ensures
            r.0.wf(),
            !r.0@.started,
            !r.0@.done,
            r.0@.bit == 0,
            !r.0@.high,
            r.1 == CaptureStep::Wait(PinWait::FallingEdge),
    {
        (
            PulseCapture { started: false, bit: 0, high: false, high_time: 0, durations: [0u64; 40] },
            CaptureStep::Wait(PinWait::FallingEdge),
        )
    }

    /// The awaited edge came at `micros`: record it and ask for the next.
    pub fn on_edge(&mut self, micros: u64) -> (step: CaptureStep)
        requires
            old(self).wf(),
            !old(self)@.done,
            old(self)@.high ==> old(self)@.high_time <= micros,
        ensures
            final(self).wf(),
            ({
                let (next, d, finished) = spec_capture_step(old(self)@, micros);
                &&& final(self)@ == next
                &&& finished ==> (step matches CaptureStep::Captured(a) && a@ == d)
                &&& !finished ==> step == CaptureStep::Wait(
                    if !next.high { PinWait::RisingEdge } else { PinWait::FallingEdge },
                )
            }),
    {
        if !self.started {
            self.started = true;
            return CaptureStep::Wait(PinWait::RisingEdge);
        }
        if !self.high {
            self.high = true;
            self.high_time = micros;
            return CaptureStep::Wait(PinWait::FallingEdge);
        }
        let bit = self.bit;
        self.durations[bit] = micros - self.high_time;
        self.high = false;
        self.bit = bit + 1;
        if self.bit >= 40 {
            CaptureStep::Captured(self.durations)
        } else {
            CaptureStep::Wait(PinWait::RisingEdge)
        }
    }
}

/// The state in which a capture starts.
pub open spec fn initial_capture() -> PulseCaptureView {
    PulseCaptureView {
        started: false,
        bit: 0,
        high: false,
        high_time: 0,
        durations: Seq::new(40, |i: int| 0u64),
        done: false,
    }
}

/// The durations a capture in state `s` ends with when the awaited edges
/// come at `times`; `None` while it still waits when the times run out.
pub open spec fn capture_run(s: PulseCaptureView, times: Seq<u64>) -> Option<Seq<u64>>
    decreases times.len(),
{
    if times.len() == 0 || s.done {
        None
    } else {
        let (next, d, finished) = spec_capture_step(s, times[0]);
        if finished {
            Some(d)
        } else {
            capture_run(next, times.drop_first())
        }
    }
}

/// The edge times of the data bits from bit `b` on: each bit's rise at
/// `highs[b]`, then its fall at `lows[b]`.
pub open spec fn edge_times(highs: Seq<u64>, lows: Seq<u64>, b: nat) -> Seq<u64>
    decreases 40 - b,
{
    if b >= 40 {
        Seq::empty()
    } else {
        seq![highs[b as int], lows[b as int]] + edge_times(highs, lows, b + 1)
    }
}

proof fn lemma_capture_bits(s: PulseCaptureView, highs: Seq<u64>, lows: Seq<u64>)
    requires
        highs.len() == 40,
        lows.len() == 40,
        s.started,
        !s.high,
        !s.done,
        s.bit < 40,
        s.durations.len() == 40,
        forall|i: int| 0 <= i < s.bit ==> s.durations[i] == pulse_durations(highs, lows)[i],
    ensures
        capture_run(s, edge_times(highs, lows, s.bit)) == Some(pulse_durations(highs, lows)),
    decreases 40 - s.bit,
{
    let b = s.bit;
    let times = edge_times(highs, lows, b);
    let rest = edge_times(highs, lows, b + 1);
    assert(times =~= seq![highs[b as int], lows[b as int]] + rest);
    assert(times[0] == highs[b as int]);
    let (s1, _, f1) = spec_capture_step(s, highs[b as int]);
    assert(!f1);
    assert(times.drop_first() =~= seq![lows[b as int]] + rest);
    assert(times.drop_first()[0] == lows[b as int]);
    assert(times.drop_first().drop_first() =~= rest);
    let (s2, d2, f2) = spec_capture_step(s1, lows[b as int]);
    assert(capture_run(s, times) == capture_run(s1, times.drop_first()));
    if b + 1 < 40 {
        assert(capture_run(s1, times.drop_first()) == capture_run(s2, rest));
        lemma_capture_bits(s2, highs, lows);
    } else {
        assert(d2 =~= pulse_durations(highs, lows));
    }
}

/// A response whose start edge comes at `t0`, then each bit's rise and fall
/// at `highs[i]` and `lows[i]`, is captured as the forty differences
/// `lows[i] - highs[i]`.
pub proof fn law_capture_records_pulses(t0: u64, highs: Seq<u64>, lows: Seq<u64>)
    requires
        highs.len() == 40,
        lows.len() == 40,
    ensures
        capture_run(initial_capture(), seq![t0] + edge_times(highs, lows, 0)) == Some(
            pulse_durations(highs, lows),
        ),
{
    let times = seq![t0] + edge_times(highs, lows, 0);
    let (s1, _, _) = spec_capture_step(initial_capture(), t0);
    assert(times[0] == t0);
    assert(times.drop_first() =~= edge_times(highs, lows, 0));
    lemma_capture_bits(s1, highs, lows);
}

/// One cycle of the typed firmware's sensor task: a response captured edge
/// by edge yields its forty pulse lengths, and these decode to a reading
/// exactly when the checksum byte is the wrapping sum of the four data
/// bytes; the reading's humidity is bytes 0 and 1, its temperature bytes 2
/// and 3.
pub proof fn law_sensor_cycle(t0: u64, highs: Seq<u64>, lows: Seq<u64>)
    requires
        highs.len() == 40,
        lows.len() == 40,
    ensures
        ({
            let d = pulse_durations(highs, lows);
            &&& capture_run(initial_capture(), seq![t0] + edge_times(highs, lows, 0)) == Some(d)
            &&& (spec_from_durations(d) is Some <==> expected_checksum(d) == frame_byte(d, 4))
            &&& spec_from_durations(d) matches Some(r) ==> {
                &&& r.0.humidity.0 == (WholeAndDecimal { integer: frame_byte(d, 0), decimal: frame_byte(d, 1) })
                &&& r.0.temperature.0 == (WholeAndDecimal { integer: frame_byte(d, 2), decimal: frame_byte(d, 3) })
            }
        }),
{
    law_capture_records_pulses(t0, highs, lows);
}

} // verus!
