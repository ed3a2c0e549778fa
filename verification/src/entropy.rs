//! Seeding the probe's random numbers: sources of entropy mixed by a
//! BLAKE2b hash into the requested number of bytes.
use vstd::prelude::*;
use vstd::bytes::spec_u64_to_le_bytes;

use blake2::digest::{Update, VariableOutput};

verus! {

/// Bytes read from the ring oscillator (2^12 bits).
pub const ROSC_ENTROPY_BYTES: usize = 512;

/// Largest number of bytes a BLAKE2b hash can fill.
pub const MAX_FILL: usize = 64;

/// The BLAKE2b digest of `data` with an output of `out_len` bytes.
pub uninterp spec fn blake2b_digest(out_len: nat, data: Seq<u8>) -> Seq<u8>;

/// Fills `out` with the variable-length BLAKE2b digest of `data`.
///
/// Trusted: with blake2 0.10.6, `Blake2bVar::new(n)` accepts any `n` up to
/// 64, `update` absorbs the bytes, and `finalize_variable` fills a buffer of
/// exactly `n` bytes; the digest is named, not stated, and depends on the
/// output length and the bytes alone.
#[verifier::external_body]
fn blake2b_fill(out: &mut [u8], data: &[u8])
    requires
        old(out)@.len() <= MAX_FILL,
    ensures
        final(out)@ == blake2b_digest(old(out)@.len(), data@),
{
    let mut hasher = blake2::Blake2bVar::new(out.len()).expect("output size checked");
    hasher.update(data);
    hasher.finalize_variable(out).expect("buffer size matches");
}

/// The bytes that [`fill_buffer`] writes: the digest of the clock's ticks
/// (little-endian) followed by the oscillator's bytes.
pub open spec fn entropy_fill(len: nat, clock_ticks: u64, rosc_bytes: Seq<u8>) -> Seq<u8> {
    blake2b_digest(len, spec_u64_to_le_bytes(clock_ticks) + rosc_bytes)
}

/// Fill a buffer with bytes mixed from the system clock's ticks and bytes
/// read from the ring oscillator.
pub fn fill_buffer(buffer: &mut [u8], clock_ticks: u64, rosc_bytes: &[u8])
    requires
        old(buffer)@.len() <= MAX_FILL,
        rosc_bytes@.len() == ROSC_ENTROPY_BYTES,
    ensures
        final(buffer)@ == entropy_fill(old(buffer)@.len(), clock_ticks, rosc_bytes@),
{
    let mut data = vstd::bytes::u64_to_le_bytes(clock_ticks);
    let ghost ticks = data@;
    let mut i: usize = 0;
    while i < rosc_bytes.len()
        invariant
            i <= rosc_bytes@.len(),
            data@ == ticks + rosc_bytes@.subrange(0, i as int),
        decreases rosc_bytes@.len() - i,
    {
        data.push(rosc_bytes[i]);
        i = i + 1;
        assert(data@ =~= ticks + rosc_bytes@.subrange(0, i as int));
    }
    assert(rosc_bytes@.subrange(0, i as int) =~= rosc_bytes@);
    blake2b_fill(buffer, data.as_slice());
}

} // verus!
