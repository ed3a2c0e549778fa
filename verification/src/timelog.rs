//! Log timestamps: the time since boot as days, hours, minutes, seconds and
//! microseconds.
use vstd::prelude::*;

use crate::text::{
    all_digits, append_zero_padded, decimal, digits_value, law_decimal_below_million,
    law_zero_padded_decimal, zero_pad,
};

verus! {

/// `a / b` rounded toward zero, as Rust's `/` on signed integers.
pub open spec fn trunc_div(a: int, b: int) -> int {
    if a >= 0 {
        a / b
    } else {
        -((-a) / b)
    }
}

/// Whole seconds of a span of `m` microseconds, as chrono counts them.
pub open spec fn delta_seconds(m: int) -> int {
    trunc_div(m, 1_000_000)
}

/// `TimeDelta::microseconds(m).num_seconds()`.
///
/// Trusted: chrono 0.4.45 stores the span as floored seconds and a
/// non-negative nanosecond part, and `num_seconds` rounds toward zero.
#[verifier::external_body]
fn delta_num_seconds(m: i64) -> (r: i64)
    ensures
        r == delta_seconds(m as int),
{
    chrono::TimeDelta::microseconds(m).num_seconds()
}

/// `TimeDelta::microseconds(m).num_minutes()`.
///
/// Trusted: chrono 0.4.45 divides the whole seconds by 60 with Rust's `/`.
#[verifier::external_body]
fn delta_num_minutes(m: i64) -> (r: i64)
    ensures
        r == trunc_div(delta_seconds(m as int), 60),
{
    chrono::TimeDelta::microseconds(m).num_minutes()
}

/// `TimeDelta::microseconds(m).num_hours()`.
///
/// Trusted: chrono 0.4.45 divides the whole seconds by 3600 with Rust's `/`.
#[verifier::external_body]
fn delta_num_hours(m: i64) -> (r: i64)
    ensures
        r == trunc_div(delta_seconds(m as int), 3600),
{
    chrono::TimeDelta::microseconds(m).num_hours()
}

/// `TimeDelta::microseconds(m).num_days()`.
///
/// Trusted: chrono 0.4.45 divides the whole seconds by 86400 with Rust's `/`.
#[verifier::external_body]
fn delta_num_days(m: i64) -> (r: i64)
    ensures
        r == trunc_div(delta_seconds(m as int), 86400),
{
    chrono::TimeDelta::microseconds(m).num_days()
}

/// `TimeDelta::microseconds(m).num_microseconds()`.
///
/// Trusted: chrono 0.4.45 gives back the microseconds the span was made of
/// (whole seconds times a million plus the signed sub-second part, which
/// cannot overflow for a span built from an `i64` of microseconds).
#[verifier::external_body]
fn delta_num_microseconds(m: i64) -> (r: Option<i64>)
    ensures
        r == Some(m),
{
    chrono::TimeDelta::microseconds(m).num_microseconds()
}

/// Formatted timestamp based on clock ticks (microseconds since boot).
#[derive(Debug, Clone, Copy, PartialEq, Eq, Structural)]
pub struct TimeLog(pub u64);

/// Text of a timestamp of `m` microseconds: total days (three digits), then
/// total hours, total minutes and total seconds (two digits each), then the
/// microseconds within the second (six digits).
pub open spec fn time_log_text(m: nat) -> Seq<char> {
    zero_pad(decimal(m / 86_400_000_000), 3) + "d "@ + zero_pad(decimal(m / 3_600_000_000), 2) + ":"@
        + zero_pad(decimal(m / 60_000_000), 2) + ":"@ + zero_pad(decimal(m / 1_000_000), 2) + "."@
        + zero_pad(decimal(m % 1_000_000), 6)
}

impl TimeLog {
    /// The timestamp as text, e.g. `000d 01:61:3661.000042`.
    pub fn to_string(&self) -> (s: String)
        requires
            self.0 <= i64::MAX,
        ensures
            s@ == time_log_text(self.0 as nat),
    {
        let m = self.0 as i64;
        let days_total = delta_num_days(m);
        let hours = delta_num_hours(m);
        let mins = delta_num_minutes(m);
        let seconds = delta_num_seconds(m);
        let total_micros = match delta_num_microseconds(m) {
            Some(v) => v,
            None => -1,
        };
        assert(seconds == m / 1_000_000);
        assert(days_total == m / 86_400_000_000) by {
            vstd::arithmetic::div_mod::lemma_div_denominator(m as int, 1_000_000, 86400);
        }
        assert(hours == m / 3_600_000_000) by {
            vstd::arithmetic::div_mod::lemma_div_denominator(m as int, 1_000_000, 3600);
        }
        assert(mins == m / 60_000_000) by {
            vstd::arithmetic::div_mod::lemma_div_denominator(m as int, 1_000_000, 60);
        }
        let micros = total_micros - seconds * 1_000_000;
        assert(micros == m % 1_000_000);
        let mut s = String::new();
        append_zero_padded(&mut s, days_total as u64, 3);
        s.append("d ");
        append_zero_padded(&mut s, hours as u64, 2);
        s.append(":");
        append_zero_padded(&mut s, mins as u64, 2);
        s.append(":");
        append_zero_padded(&mut s, seconds as u64, 2);
        s.append(".");
        append_zero_padded(&mut s, micros as u64, 6);
        assert(s@ =~= time_log_text(self.0 as nat));
        s
    }
}

/// The text of a timestamp of `m` microseconds is made of its total days
/// `d`, total hours `h` and total minutes `mi` (each the whole count that
/// fits in `m`), then the whole seconds `s` and, in exactly six digits, the
/// microseconds `f` within that second: `s` seconds and `f` microseconds
/// make up `m`.
pub proof fn law_time_log_fields(m: nat, d: nat, h: nat, mi: nat, s: nat, f: nat)
    requires
        d * 86_400_000_000 <= m < (d + 1) * 86_400_000_000,
        h * 3_600_000_000 <= m < (h + 1) * 3_600_000_000,
        mi * 60_000_000 <= m < (mi + 1) * 60_000_000,
        s * 1_000_000 + f == m,
        f < 1_000_000,
    ensures
        time_log_text(m) == zero_pad(decimal(d), 3) + "d "@ + zero_pad(decimal(h), 2) + ":"@
            + zero_pad(decimal(mi), 2) + ":"@ + zero_pad(decimal(s), 2) + "."@ + zero_pad(decimal(f), 6),
        ({
            let t = time_log_text(m);
            let field = t.subrange(t.len() - 6, t.len() as int);
            &&& t.len() >= 7
            &&& t[t.len() - 7] == '.'
            &&& all_digits(field)
            &&& digits_value(field) == f
        }),
{
    assert(m / 86_400_000_000 == d) by (nonlinear_arith)
        requires
            d * 86_400_000_000 <= m < (d + 1) * 86_400_000_000,
    ;
    assert(m / 3_600_000_000 == h) by (nonlinear_arith)
        requires
            h * 3_600_000_000 <= m < (h + 1) * 3_600_000_000,
    ;
    assert(m / 60_000_000 == mi) by (nonlinear_arith)
        requires
            mi * 60_000_000 <= m < (mi + 1) * 60_000_000,
    ;
    assert(m / 1_000_000 == s && m % 1_000_000 == f) by (nonlinear_arith)
        requires
            s * 1_000_000 + f == m,
            f < 1_000_000,
    ;
    law_decimal_below_million(f);
    law_zero_padded_decimal(f, 6);
    reveal_strlit(".");
    let fp = zero_pad(decimal(f), 6);
    assert(fp.len() == 6);
    let head = zero_pad(decimal(d), 3) + "d "@ + zero_pad(decimal(h), 2) + ":"@
        + zero_pad(decimal(mi), 2) + ":"@ + zero_pad(decimal(s), 2);
    let t = time_log_text(m);
    assert(t == head + "."@ + fp);
    assert(t.subrange(t.len() - 6, t.len() as int) =~= fp);
    assert(t[t.len() - 7] == (head + "."@)[head.len() as int]);
}

/// The level of a log record.
#[derive(Debug, Clone, Copy, PartialEq, Eq, Structural)]
pub enum LogLevel {
    Error,
    Warn,
    Info,
    Debug,
    Trace,
}

/// The name of a level, upper case, as the `log` crate writes it.
pub open spec fn level_text(l: LogLevel) -> Seq<char> {
    match l {
        LogLevel::Error => "ERROR"@,
        LogLevel::Warn => "WARN"@,
        LogLevel::Info => "INFO"@,
        LogLevel::Debug => "DEBUG"@,
        LogLevel::Trace => "TRACE"@,
    }
}

/// A line of the probe's USB log: `[{time}] [{level}] {message}` and a
/// carriage return and line feed.
pub open spec fn log_line_text(m: nat, level: LogLevel, message: Seq<char>) -> Seq<char> {
    "["@ + time_log_text(m) + "] ["@ + level_text(level) + "] "@ + message + "\r\n"@
}

/// The log line of a record of `level` with text `message`, logged at
/// `time`.
pub fn log_line(time: TimeLog, level: LogLevel, message: &str) -> (s: String)
    requires
        time.0 <= i64::MAX,
    ensures
        s@ == log_line_text(time.0 as nat, level, message@),
{
    let mut s = String::from_str("[");
    let t = time.to_string();
    s.append(t.as_str());
    s.append("] [");
    match level {
        LogLevel::Error => s.append("ERROR"),
        LogLevel::Warn => s.append("WARN"),
        LogLevel::Info => s.append("INFO"),
        LogLevel::Debug => s.append("DEBUG"),
        LogLevel::Trace => s.append("TRACE"),
    }
    s.append("] ");
    s.append(message);
    s.append("\r\n");
    assert(s@ =~= log_line_text(time.0 as nat, level, message@));
    s
}

} // verus!
