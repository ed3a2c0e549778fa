//! What the server does with each message a probe sends.
use vstd::prelude::*;

use crate::db::HomestatRecord;
use crate::wire::WireMessage;

verus! {

/// The source id given to every probe (probes do not send one yet).
pub const SOURCE_ID: u8 = 1;

/// What decoding the bytes read from a probe gave.
#[derive(Debug, Clone)]
pub enum DecodeOutcome {
    /// A whole message.
    Decoded(WireMessage),
    /// The bytes end before a message does.
    UnexpectedEnd,
    /// The bytes are not a message (the decoder's description).
    Invalid(String),
}

/// What the server does next with a probe's connection.
#[derive(Debug, Clone)]
pub enum PeerAction {
    /// Log the message (as an error when it carries a failed reading) and
    /// store this record.
    Store { record: HomestatRecord, failed_reading: bool },
    /// Read more bytes.
    ReadMore,
    /// Close the connection with this decoding error.
    Fail(String),
}

/// The action for a decoded message received `recv_timestamp` seconds and
/// `recv_nanos` nanoseconds after the Unix epoch.
pub open spec fn spec_on_message(outcome: DecodeOutcome, recv_timestamp: i64, recv_nanos: u32) -> PeerAction {
    match outcome {
        DecodeOutcome::Decoded(m) => PeerAction::Store {
            record: HomestatRecord { source_id: SOURCE_ID, recv_timestamp, recv_nanos, wire_message: m },
            failed_reading: m.inner is Err,
        },
        DecodeOutcome::UnexpectedEnd => PeerAction::ReadMore,
        DecodeOutcome::Invalid(e) => PeerAction::Fail(e),
    }
}

/// Decide what to do with a message received at the given time.
pub fn on_message(outcome: DecodeOutcome, recv_timestamp: i64, recv_nanos: u32) -> (a: PeerAction)
    ensures
        a == spec_on_message(outcome, recv_timestamp, recv_nanos),
{
    match outcome {
        DecodeOutcome::Decoded(m) => {
            let failed_reading = m.inner.is_err();
            PeerAction::Store {
                record: HomestatRecord { source_id: SOURCE_ID, recv_timestamp, recv_nanos, wire_message: m },
                failed_reading,
            }
        },
        DecodeOutcome::UnexpectedEnd => PeerAction::ReadMore,
        DecodeOutcome::Invalid(e) => PeerAction::Fail(e),
    }
}

/// Every decoded message is stored, whatever its reading holds: the record
/// carries the probe's source id, the receive time given and the message
/// unchanged, and it is flagged as a failed reading exactly when the
/// message carries an error. Only a short buffer asks for more bytes, and
/// only undecodable bytes fail the connection, with the decoder's words.
pub proof fn law_every_decoded_message_stored(m: WireMessage, t: i64, n: u32, e: String)
    ensures
        spec_on_message(DecodeOutcome::Decoded(m), t, n) matches PeerAction::Store { record, failed_reading }
            && record.source_id == SOURCE_ID && record.recv_timestamp == t && record.recv_nanos == n
            && record.wire_message == m && failed_reading == (m.inner is Err),
        spec_on_message(DecodeOutcome::UnexpectedEnd, t, n) is ReadMore,
        spec_on_message(DecodeOutcome::Invalid(e), t, n) == PeerAction::Fail(e),
{
}

} // verus!
