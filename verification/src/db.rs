//! Records of the station's database: what a stored row turns into, what an
//! insert stores, and how the rows are paged through.
use vstd::prelude::*;

use crate::text::decimal;
use crate::wire::{
    Number, ReadError, Reading, WireMessage, WireMessageDisplay, WithTimestamp, wire_message_text,
};

verus! {

/// Rows fetched per page when no limit is given.
pub const DEFAULT_FETCH_LIMIT: u64 = 100;

/// Why a database operation failed.
#[derive(Debug, Clone, PartialEq, Eq)]
pub enum DbError {
    /// The database reported an error (its description).
    Db(String),
    /// A stored integer did not fit the type it stands for.
    IntConvert,
    /// A stored receive time is outside the range of dates.
    DateTimeConvert(i64),
    /// A stored read error did not decode (the decoder's description).
    Serde(String),
    /// A row holds neither a complete reading nor an error.
    DbInvalid,
}

/// A single data point from a Pico.
#[derive(Debug, Clone)]
pub struct HomestatRecord {
    /// ID of the Pico that sent this record.
    pub source_id: u8,
    /// When the record was received: whole seconds since the Unix epoch
    /// (UTC)...
    pub recv_timestamp: i64,
    /// ...and the nanoseconds past that second.
    pub recv_nanos: u32,
    /// Wire message.
    pub wire_message: WireMessage,
}

/// A row as the fetch query returns it. The stored error, if there is one,
/// has already been given to the JSON decoder: `Ok` with the decoded error,
/// or `Err` with the decoder's description.
#[derive(Debug, Clone)]
pub struct FetchRecord {
    pub recv_timestamp: i64,
    pub source: i64,
    pub micros: i64,
    pub celcius_whole: Option<i64>,
    pub celcius_tenth: Option<i64>,
    pub humidity_whole: Option<i64>,
    pub humidity_tenth: Option<i64>,
    pub error: Option<Result<ReadError, String>>,
}

/// Whether chrono represents the date `secs` seconds after the Unix epoch:
/// from January 1 of year -262143 to December 31 of year 262142 (proleptic
/// Gregorian calendar, UTC).
pub open spec fn chrono_secs_in_range(secs: int) -> bool {
    -8_334_601_228_800 <= secs <= 8_210_266_876_799
}

/// The RFC 3339 text of the time `secs` seconds and `nanos` nanoseconds
/// after the Unix epoch (UTC).
pub uninterp spec fn rfc3339_text(secs: int, nanos: int) -> Seq<char>;

/// Whether chrono represents the time `secs` seconds and `nanos`
/// nanoseconds after the Unix epoch: the day is in range, and the
/// nanoseconds are below a second, or below two seconds in the last second
/// of a minute (a leap second).
pub open spec fn chrono_time_valid(secs: int, nanos: int) -> bool {
    &&& chrono_secs_in_range(secs)
    &&& (nanos < 1_000_000_000 || (nanos < 2_000_000_000 && (secs % 86400) % 60 == 59))
}

/// Whether `chrono::DateTime::<Utc>::from_timestamp_secs(secs)` gives a date.
///
/// Trusted: chrono 0.4.45 returns `None` exactly for seconds whose day lies
/// outside the years `MIN_YEAR` (-262143) to `MAX_YEAR` (262142).
#[verifier::external_body]
fn datetime_in_range(secs: i64) -> (ok: bool)
    ensures
        ok == chrono_secs_in_range(secs as int),
{
    chrono::DateTime::from_timestamp_secs(secs).is_some()
}

/// The RFC 3339 text (`DateTime::to_rfc3339`) of the time built by
/// `chrono::DateTime::<Utc>::from_timestamp(secs, nanos)`, or `None` where
/// that gives no time.
///
/// Trusted: chrono 0.4.45 refuses a day outside its year range and
/// nanoseconds that are not below a second (below two in the last second of
/// a minute); the text is named, not stated, and depends on `secs` and
/// `nanos` alone.
#[verifier::external_body]
fn datetime_rfc3339(secs: i64, nanos: u32) -> (s: Option<String>)
    ensures
        s is Some <==> chrono_time_valid(secs as int, nanos as int),
        s matches Some(t) ==> t@ == rfc3339_text(secs as int, nanos as int),
{
    match chrono::DateTime::from_timestamp(secs, nanos) {
        Some(d) => Some(d.to_rfc3339()),
        None => None,
    }
}

/// An `i64` as a byte, as `u8::try_from` converts it.
pub open spec fn to_u8(v: i64) -> Result<u8, DbError> {
    if 0 <= v <= 255 {
        Ok(v as u8)
    } else {
        Err(DbError::IntConvert)
    }
}

/// A stored field of a reading: present, and a byte.
pub open spec fn stored_byte(v: Option<i64>) -> Result<u8, DbError> {
    match v {
        None => Err(DbError::DbInvalid),
        Some(x) => to_u8(x),
    }
}

/// The reading a row stores, checked field by field in column order.
pub open spec fn spec_stored_reading(r: FetchRecord) -> Result<Reading, DbError> {
    match stored_byte(r.celcius_whole) {
        Err(e) => Err(e),
        Ok(tw) => match stored_byte(r.celcius_tenth) {
            Err(e) => Err(e),
            Ok(tt) => match stored_byte(r.humidity_whole) {
                Err(e) => Err(e),
                Ok(hw) => match stored_byte(r.humidity_tenth) {
                    Err(e) => Err(e),
                    Ok(ht) => Ok(
                        Reading {
                            temperature: Number { whole: tw, tenths: tt },
                            humidity: Number { whole: hw, tenths: ht },
                        },
                    ),
                },
            },
        },
    }
}

/// The record a fetched row stands for: the source, the receive time and
/// the sender's clock are checked first, then the stored reading, or the
/// stored error when there is one.
pub open spec fn spec_record_from_row(r: FetchRecord) -> Result<HomestatRecord, DbError> {
    if !(0 <= r.source <= 255) {
        Err(DbError::IntConvert)
    } else if !chrono_secs_in_range(r.recv_timestamp as int) {
        Err(DbError::DateTimeConvert(r.recv_timestamp))
    } else if r.micros < 0 {
        Err(DbError::IntConvert)
    } else {
        let inner = match r.error {
            None => match spec_stored_reading(r) {
                Ok(reading) => Ok(Ok(reading)),
                Err(e) => Err(e),
            },
            Some(Ok(e)) => Ok(Err(e)),
            Some(Err(msg)) => Err(DbError::Serde(msg)),
        };
        match inner {
            Err(e) => Err(e),
            Ok(inner) => Ok(
                HomestatRecord {
                    source_id: r.source as u8,
                    recv_timestamp: r.recv_timestamp,
                    recv_nanos: 0,
                    wire_message: WithTimestamp { micros: r.micros as u64, inner },
                },
            ),
        }
    }
}

fn i64_to_u8(v: i64) -> (r: Result<u8, DbError>)
    ensures
        r == to_u8(v),
{
    if 0 <= v && v <= 255 {
        Ok(v as u8)
    } else {
        Err(DbError::IntConvert)
    }
}

fn stored_byte_of(v: Option<i64>) -> (r: Result<u8, DbError>)
    ensures
        r == stored_byte(v),
{
    match v {
        None => Err(DbError::DbInvalid),
        Some(x) => i64_to_u8(x),
    }
}

fn stored_reading(r: &FetchRecord) -> (res: Result<Reading, DbError>)
    ensures
        res == spec_stored_reading(*r),
{
    let tw = match stored_byte_of(r.celcius_whole) {
        Ok(v) => v,
        Err(e) => return Err(e),
    };
    let tt = match stored_byte_of(r.celcius_tenth) {
        Ok(v) => v,
        Err(e) => return Err(e),
    };
    let hw = match stored_byte_of(r.humidity_whole) {
        Ok(v) => v,
        Err(e) => return Err(e),
    };
    let ht = match stored_byte_of(r.humidity_tenth) {
        Ok(v) => v,
        Err(e) => return Err(e),
    };
    Ok(
        Reading {
            temperature: Number { whole: tw, tenths: tt },
            humidity: Number { whole: hw, tenths: ht },
        },
    )
}

impl HomestatRecord {
    /// The record a fetched row stands for.
    pub fn try_from(r: FetchRecord) -> (res: Result<Self, DbError>)
        ensures
            res == spec_record_from_row(r),
    {
        if !(0 <= r.source && r.source <= 255) {
            return Err(DbError::IntConvert);
        }
        let source_id = r.source as u8;
        if !datetime_in_range(r.recv_timestamp) {
            return Err(DbError::DateTimeConvert(r.recv_timestamp));
        }
        if r.micros < 0 {
            return Err(DbError::IntConvert);
        }
        let micros = r.micros as u64;
        let inner = match r.error {
            None => match stored_reading(&r) {
                Ok(reading) => Ok(reading),
                Err(e) => return Err(e),
            },
            Some(Ok(e)) => Err(e),
            Some(Err(msg)) => return Err(DbError::Serde(msg)),
        };
        Ok(
            HomestatRecord {
                source_id,
                recv_timestamp: r.recv_timestamp,
                recv_nanos: 0,
                wire_message: WithTimestamp { micros, inner },
            },
        )
    }
}

/// Text of a record: `Pico {source} at {RFC 3339 time}: {message}`.
pub open spec fn record_text(r: HomestatRecord) -> Seq<char> {
    "Pico "@ + decimal(r.source_id as nat) + " at "@ + rfc3339_text(r.recv_timestamp as int, r.recv_nanos as int) + ": "@
        + wire_message_text(r.wire_message)
}

/// What an insert stores for a record: the receive time in seconds, the
/// source, the sender's clock as a signed integer, and the reading or the
/// error to store.
#[derive(Debug, Clone, Copy, PartialEq, Eq)]
pub struct InsertParams {
    pub timestamp: i64,
    pub source_id: u8,
    pub micros: i64,
    pub payload: Result<Reading, ReadError>,
}

/// Description (as the database layer prints it) of the encode error raised
/// when the sender's clock does not fit the database's signed integers.
pub open spec fn micros_encode_error_text() -> Seq<char> {
    "Encode(TryFromIntError(()))"@
}

/// What inserting `r` stores, when its sender's clock fits a signed 64-bit
/// integer.
pub open spec fn spec_insert_params(r: HomestatRecord) -> InsertParams {
    InsertParams {
        timestamp: r.recv_timestamp,
        source_id: r.source_id,
        micros: r.wire_message.micros as i64,
        payload: r.wire_message.inner,
    }
}

/// The row the fetch query gives back for what an insert stored: a reading
/// fills the four reading columns, an error is stored (and decoded again)
/// in place of them.
pub open spec fn stored_row(p: InsertParams) -> FetchRecord {
    match p.payload {
        Ok(reading) => FetchRecord {
            recv_timestamp: p.timestamp,
            source: p.source_id as i64,
            micros: p.micros,
            celcius_whole: Some(reading.temperature.whole as i64),
            celcius_tenth: Some(reading.temperature.tenths as i64),
            humidity_whole: Some(reading.humidity.whole as i64),
            humidity_tenth: Some(reading.humidity.tenths as i64),
            error: None,
        },
        Err(e) => FetchRecord {
            recv_timestamp: p.timestamp,
            source: p.source_id as i64,
            micros: p.micros,
            celcius_whole: None,
            celcius_tenth: None,
            humidity_whole: None,
            humidity_tenth: None,
            error: Some(Ok(e)),
        },
    }
}

/// A stored record is fetched back as it was inserted, its receive time cut
/// to whole seconds: whenever the insert succeeds (the sender's clock fits a
/// signed 64-bit integer) and chrono represents the receive second.
pub proof fn law_insert_then_fetch(r: HomestatRecord)
    requires
        r.wire_message.micros <= i64::MAX,
        chrono_secs_in_range(r.recv_timestamp as int),
    ensures
        spec_record_from_row(stored_row(spec_insert_params(r))) == Ok::<HomestatRecord, DbError>(
            HomestatRecord {
                source_id: r.source_id,
                recv_timestamp: r.recv_timestamp,
                recv_nanos: 0,
                wire_message: r.wire_message,
            },
        ),
{
    let row = stored_row(spec_insert_params(r));
    assert(row.micros as u64 == r.wire_message.micros);
    match r.wire_message.inner {
        Ok(reading) => {
            assert(spec_stored_reading(row) == Ok::<Reading, DbError>(reading));
        },
        Err(e) => {},
    }
}

impl HomestatRecord {
    /// The record as text; `None` when chrono does not represent its
    /// receive time.
    pub fn to_string(&self) -> (s: Option<String>)
        ensures
            s is Some <==> chrono_time_valid(self.recv_timestamp as int, self.recv_nanos as int),
            s matches Some(t) ==> t@ == record_text(*self),
    {
        let date = match datetime_rfc3339(self.recv_timestamp, self.recv_nanos) {
            None => return None,
            Some(d) => d,
        };
        let mut s = String::from_str("Pico ");
        crate::text::append_decimal(&mut s, self.source_id as u64);
        s.append(" at ");
        s.append(date.as_str());
        s.append(": ");
        let msg = WireMessageDisplay(&self.wire_message).to_string();
        s.append(msg.as_str());
        assert(s@ =~= record_text(*self));
        Some(s)
    }

    /// What inserting this record stores; an error when the sender's clock
    /// does not fit a signed 64-bit integer.
    pub fn insert_params(&self) -> (r: Result<InsertParams, DbError>)
        ensures
            self.wire_message.micros <= i64::MAX ==> r == Ok::<InsertParams, DbError>(
                spec_insert_params(*self),
            ),
            self.wire_message.micros > i64::MAX ==> (r matches Err(DbError::Db(m)) && m@
                == micros_encode_error_text()),
    {
        if self.wire_message.micros > 0x7fff_ffff_ffff_ffff {
            return Err(DbError::Db(String::from_str("Encode(TryFromIntError(()))")));
        }
        Ok(
            InsertParams {
                timestamp: self.recv_timestamp,
                source_id: self.source_id,
                micros: self.wire_message.micros as i64,
                payload: self.wire_message.inner,
            },
        )
    }
}

/// The limit and offset a fetch passes to its query.
pub open spec fn spec_fetch_window(limit: Option<u64>, offset: Option<u64>) -> Result<(i64, i64), DbError> {
    let l = match limit {
        Some(l) => l,
        None => DEFAULT_FETCH_LIMIT,
    };
    let o = match offset {
        Some(o) => o,
        None => 0,
    };
    if l > i64::MAX || o > i64::MAX {
        Err(DbError::IntConvert)
    } else {
        Ok((l as i64, o as i64))
    }
}

/// A fetch asks for exactly the rows its pager expects: whenever the limit
/// and offset fit a signed 64-bit integer, the query's limit is the page
/// size the pager compares against (the given limit, or 100 when none is
/// given) and its offset is the given one (or 0); otherwise the fetch
/// fails with an integer conversion error.
pub proof fn law_fetch_window(limit: Option<u64>, offset: Option<u64>)
    ensures
        ({
            let o: u64 = match offset {
                Some(o) => o,
                None => 0,
            };
            let l: u64 = match limit {
                Some(l) => l,
                None => 100,
            };
            &&& l == page_size(limit)
            &&& (l <= i64::MAX && o <= i64::MAX) ==> spec_fetch_window(limit, offset) == Ok::<(i64, i64), DbError>((l as i64, o as i64))
            &&& !(l <= i64::MAX && o <= i64::MAX) ==> spec_fetch_window(limit, offset) == Err::<(i64, i64), DbError>(DbError::IntConvert)
            &&& spec_fetch_window(limit, offset) matches Ok((ql, qo)) ==> ql == page_size(limit) && qo == o
        }),
{
}

/// The limit (default 100) and offset (default 0) of a fetch, as the signed
/// integers the query takes.
pub fn fetch_window(limit: Option<u64>, offset: Option<u64>) -> (r: Result<(i64, i64), DbError>)
    ensures
        r == spec_fetch_window(limit, offset),
{
    let l = match limit {
        Some(l) => l,
        None => DEFAULT_FETCH_LIMIT,
    };
    let o = match offset {
        Some(o) => o,
        None => 0,
    };
    if l > 0x7fff_ffff_ffff_ffff || o > 0x7fff_ffff_ffff_ffff {
        Err(DbError::IntConvert)
    } else {
        Ok((l as i64, o as i64))
    }
}

/// Pages through all records: each page starts where the last ended, and
/// the paging stops after a page shorter than the limit.
#[derive(Debug, Clone, Copy, PartialEq, Eq, Structural)]
pub struct Pager {
    pub limit: Option<u64>,
    pub offset: u64,
    pub total: usize,
}

/// The page size a pager asks for.
pub open spec fn page_size(limit: Option<u64>) -> u64 {
    match limit {
        Some(l) => l,
        None => DEFAULT_FETCH_LIMIT,
    }
}

/// The pager after a page of `n` rows.
pub open spec fn after_page(p: Pager, n: usize) -> Pager {
    Pager { limit: p.limit, offset: (p.offset + n) as u64, total: (p.total + n) as usize }
}

/// Whether a page of `n` rows asks for another page.
pub open spec fn asks_more(p: Pager, n: usize) -> bool {
    n >= page_size(p.limit) as usize
}

/// The pager after pages of the sizes `pages`, and after each page whether
/// it asked for another.
pub open spec fn pager_run(p: Pager, pages: Seq<usize>) -> (Pager, Seq<bool>)
    decreases pages.len(),
{
    if pages.len() == 0 {
        (p, Seq::empty())
    } else {
        let (last, mores) = pager_run(after_page(p, pages[0]), pages.drop_first());
        (last, seq![asks_more(p, pages[0])] + mores)
    }
}

/// The number of rows in pages of the sizes `pages`.
pub open spec fn rows_in(pages: Seq<usize>) -> nat
    decreases pages.len(),
{
    if pages.len() == 0 {
        0
    } else {
        pages[0] as nat + rows_in(pages.drop_first())
    }
}

proof fn lemma_pager_run(p: Pager, pages: Seq<usize>)
    requires
        p.offset + rows_in(pages) <= u64::MAX,
        p.total + rows_in(pages) <= usize::MAX,
    ensures
        pager_run(p, pages).0 == (Pager {
            limit: p.limit,
            offset: (p.offset + rows_in(pages)) as u64,
            total: (p.total + rows_in(pages)) as usize,
        }),
        pager_run(p, pages).1.len() == pages.len(),
        forall|i: int|
            0 <= i < pages.len() ==> #[trigger] pager_run(p, pages).1[i] == asks_more(p, pages[i]),
    decreases pages.len(),
{
    if pages.len() > 0 {
        let next = after_page(p, pages[0]);
        let rest = pages.drop_first();
        lemma_pager_run(next, rest);
        let mores = pager_run(p, pages).1;
        let rest_mores = pager_run(next, rest).1;
        assert(mores =~= seq![asks_more(p, pages[0])] + rest_mores);
        assert forall|i: int| 0 <= i < pages.len() implies #[trigger] mores[i] == asks_more(p, pages[i]) by {
            if i > 0 {
                assert(mores[i] == rest_mores[i - 1]);
                assert(rest[i - 1] == pages[i]);
            }
        }
    }
}

/// Paging through all records fetches each page once: when every page but
/// the last is full and the last is short, the pager asks for another page
/// after each full page and stops after the short one, and it has then
/// moved past, and counted, every row.
pub proof fn law_pager_fetches_all(limit: Option<u64>, pages: Seq<usize>)
    requires
        pages.len() >= 1,
        forall|i: int| 0 <= i < pages.len() - 1 ==> #[trigger] pages[i] == page_size(limit) as usize,
        pages[pages.len() - 1] < page_size(limit) as usize,
        rows_in(pages) <= u64::MAX,
        rows_in(pages) <= usize::MAX,
    ensures
        ({
            let (last, mores) = pager_run(Pager { limit, offset: 0, total: 0 }, pages);
            &&& mores == Seq::new(pages.len(), |i: int| i < pages.len() - 1)
            &&& last.offset == rows_in(pages)
            &&& last.total == rows_in(pages)
        }),
{
    let p = Pager { limit, offset: 0, total: 0 };
    lemma_pager_run(p, pages);
    let mores = pager_run(p, pages).1;
    assert(mores =~= Seq::new(pages.len(), |i: int| i < pages.len() - 1));
}

impl Pager {
    /// A pager at the first record.
    pub fn new(limit: Option<u64>) -> (p: Pager)
        ensures
            p == (Pager { limit, offset: 0, total: 0 }),
    {
        Pager { limit, offset: 0, total: 0 }
    }

    /// Account for a fetched page of `num_records` rows; whether to fetch
    /// another page.
    pub fn on_page(&mut self, num_records: usize) -> (more: bool)
        requires
            old(self).offset + num_records <= u64::MAX,
            old(self).total + num_records <= usize::MAX,
        ensures
            *final(self) == after_page(*old(self), num_records),
            final(self).offset == old(self).offset + num_records,
            final(self).total == old(self).total + num_records,
            more == asks_more(*old(self), num_records),
    {
        self.total = self.total + num_records;
        self.offset = self.offset + num_records as u64;
        let size = match self.limit {
            Some(l) => l,
            None => DEFAULT_FETCH_LIMIT,
        };
        num_records >= size as usize
    }
}

} // verus!
