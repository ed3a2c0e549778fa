use vstd::prelude::*;

verus! {

/// Number of data bits in one DHT11 transmission (five bytes).
pub const NUM_BITS: usize = 40;

/// A high pulse longer than this many microseconds encodes a `1` bit.
pub const ONE_BIT_THRESHOLD_MICROS: u64 = 45;

/// The bit that a high pulse of `duration` microseconds encodes.
pub open spec fn spec_duration_to_bit(duration: u64) -> bool {
    duration > ONE_BIT_THRESHOLD_MICROS
}

/// Numeric value of a bit.
pub open spec fn bit_value(b: bool) -> nat {
    if b { 1 } else { 0 }
}

/// Value of a sequence of bits, most significant bit first.
pub open spec fn bits_value(bits: Seq<bool>) -> nat
    decreases bits.len(),
{
    if bits.len() == 0 {
        0
    } else {
        2 * bits_value(bits.drop_last()) + bit_value(bits.last())
    }
}

/// The eight bits of a byte, most significant bit first.
pub open spec fn u8_bits(b: u8) -> Seq<bool> {
    seq![
        (b / 128) % 2 == 1,
        (b / 64) % 2 == 1,
        (b / 32) % 2 == 1,
        (b / 16) % 2 == 1,
        (b / 8) % 2 == 1,
        (b / 4) % 2 == 1,
        (b / 2) % 2 == 1,
        b % 2 == 1,
    ]
}

/// Convert a microsecond high duration to a bit.
pub fn duration_to_bit(duration: u64) -> (bit: bool)
    ensures
        bit == spec_duration_to_bit(duration),
{
    duration > ONE_BIT_THRESHOLD_MICROS
}

proof fn lemma_bits_value_bound(bits: Seq<bool>)
    ensures
        bits_value(bits) < vstd::arithmetic::power2::pow2(bits.len()),
    decreases bits.len(),
{
    if bits.len() > 0 {
        lemma_bits_value_bound(bits.drop_last());
        vstd::arithmetic::power2::lemma_pow2_unfold(bits.len());
    } else {
        vstd::arithmetic::power2::lemma2_to64();
    }
}

/// Convert bits to a u8.
///
/// "The sensor sends higher data bit first."
pub fn bits_to_u8(bits: &[bool; 8]) -> (byte: u8)
    ensures
        byte as nat == bits_value(bits@),
{
    let mut acc: u8 = 0;
    let mut i: usize = 0;
    while i < 8
        invariant
            0 <= i <= 8,
            bits@.len() == 8,
            acc as nat == bits_value(bits@.subrange(0, i as int)),
        decreases 8 - i,
    {
        proof {
            lemma_bits_value_bound(bits@.subrange(0, i as int));
            vstd::arithmetic::power2::lemma2_to64();
            if i < 7 {
                vstd::arithmetic::power2::lemma_pow2_strictly_increases(i as nat, 7);
            }
            assert(bits@.subrange(0, i + 1).drop_last() =~= bits@.subrange(0, i as int));
        }
        let b: u8 = if bits[i] { 1 } else { 0 };
        acc = acc * 2 + b;
        i = i + 1;
    }
    proof {
        assert(bits@.subrange(0, 8) =~= bits@);
    }
    acc
}

/// The bits encoded by a sequence of high-pulse durations.
pub open spec fn frame_bits(durations: Seq<u64>) -> Seq<bool> {
    durations.map_values(|d: u64| spec_duration_to_bit(d))
}

/// The `k`-th byte (zero-based) encoded by a sequence of high-pulse durations.
pub open spec fn frame_byte(durations: Seq<u64>, k: int) -> u8 {
    bits_value(frame_bits(durations).subrange(8 * k, 8 * k + 8)) as u8
}

/// The eight bits of byte `k` of a transmission, most significant first.
pub fn frame_chunk(durations: &[u64; 40], k: usize) -> (chunk: [bool; 8])
    requires
        k < 5,
    ensures
        chunk@ == frame_bits(durations@).subrange(8 * k, 8 * k + 8),
{
    let base: usize = 8 * k;
    let chunk = [
        duration_to_bit(durations[base]),
        duration_to_bit(durations[base + 1]),
        duration_to_bit(durations[base + 2]),
        duration_to_bit(durations[base + 3]),
        duration_to_bit(durations[base + 4]),
        duration_to_bit(durations[base + 5]),
        duration_to_bit(durations[base + 6]),
        duration_to_bit(durations[base + 7]),
    ];
    assert(chunk@ =~= frame_bits(durations@).subrange(8 * k, 8 * k + 8));
    chunk
}

/// Decodes byte `k` (zero-based) of a transmission.
pub fn frame_byte_at(durations: &[u64; 40], k: usize) -> (byte: u8)
    requires
        k < 5,
    ensures
        byte == frame_byte(durations@, k as int),
{
    let chunk = frame_chunk(durations, k);
    let byte = bits_to_u8(&chunk);
    byte
}

proof fn lemma_bits_value_step(s: Seq<bool>, k: int)
    requires
        0 <= k < s.len(),
    ensures
        bits_value(s.subrange(0, k + 1)) == 2 * bits_value(s.subrange(0, k)) + bit_value(s[k]),
{
    assert(s.subrange(0, k + 1).drop_last() =~= s.subrange(0, k));
}

proof fn lemma_bits_value_8(s: Seq<bool>)
    requires
        s.len() == 8,
    ensures
        bits_value(s) == 128 * bit_value(s[0]) + 64 * bit_value(s[1]) + 32 * bit_value(s[2])
            + 16 * bit_value(s[3]) + 8 * bit_value(s[4]) + 4 * bit_value(s[5]) + 2 * bit_value(
            s[6],
        ) + bit_value(s[7]),
{
    assert(bits_value(s.subrange(0, 0)) == 0);
    lemma_bits_value_step(s, 0);
    lemma_bits_value_step(s, 1);
    lemma_bits_value_step(s, 2);
    lemma_bits_value_step(s, 3);
    lemma_bits_value_step(s, 4);
    lemma_bits_value_step(s, 5);
    lemma_bits_value_step(s, 6);
    lemma_bits_value_step(s, 7);
    assert(s.subrange(0, 8) =~= s);
}

proof fn lemma_byte_bits(b: u8)
    ensures
        b == 128 * ((b / 128) % 2) + 64 * ((b / 64) % 2) + 32 * ((b / 32) % 2) + 16 * ((b / 16)
            % 2) + 8 * ((b / 8) % 2) + 4 * ((b / 4) % 2) + 2 * ((b / 2) % 2) + b % 2,
{
    assert(b == 128 * ((b / 128) % 2) + 64 * ((b / 64) % 2) + 32 * ((b / 32) % 2) + 16 * ((b / 16)
        % 2) + 8 * ((b / 8) % 2) + 4 * ((b / 4) % 2) + 2 * ((b / 2) % 2) + b % 2) by (bit_vector);
}

proof fn lemma_bits_byte(x0: bool, x1: bool, x2: bool, x3: bool, x4: bool, x5: bool, x6: bool, x7: bool, v: u8)
    by (bit_vector)
    requires
        v == 128 * (if x0 { 1u8 } else { 0u8 }) + 64 * (if x1 { 1u8 } else { 0u8 }) + 32 * (if x2 { 1u8 } else { 0u8 })
            + 16 * (if x3 { 1u8 } else { 0u8 }) + 8 * (if x4 { 1u8 } else { 0u8 }) + 4 * (if x5 { 1u8 } else { 0u8 })
            + 2 * (if x6 { 1u8 } else { 0u8 }) + (if x7 { 1u8 } else { 0u8 }),
    ensures
        ((v / 128) % 2 == 1) == x0,
        ((v / 64) % 2 == 1) == x1,
        ((v / 32) % 2 == 1) == x2,
        ((v / 16) % 2 == 1) == x3,
        ((v / 8) % 2 == 1) == x4,
        ((v / 4) % 2 == 1) == x5,
        ((v / 2) % 2 == 1) == x6,
        (v % 2 == 1) == x7,
{
}

proof fn lemma_byte_roundtrip(b: u8)
    ensures
        bits_value(u8_bits(b)) == b,
{
    let u = u8_bits(b);
    lemma_bits_value_8(u);
    lemma_byte_bits(b);
    assert(bit_value(u[0]) == (b / 128) % 2);
    assert(bit_value(u[1]) == (b / 64) % 2);
    assert(bit_value(u[2]) == (b / 32) % 2);
    assert(bit_value(u[3]) == (b / 16) % 2);
    assert(bit_value(u[4]) == (b / 8) % 2);
    assert(bit_value(u[5]) == (b / 4) % 2);
    assert(bit_value(u[6]) == (b / 2) % 2);
    assert(bit_value(u[7]) == b % 2);
}

proof fn lemma_bits_roundtrip(bits: Seq<bool>)
    requires
        bits.len() == 8,
    ensures
        bits_value(bits) <= 255,
        u8_bits(bits_value(bits) as u8) == bits,
{
    lemma_bits_value_8(bits);
    let v = bits_value(bits);
    assert(v <= 255);
    let x0 = bits[0];
    let x1 = bits[1];
    let x2 = bits[2];
    let x3 = bits[3];
    let x4 = bits[4];
    let x5 = bits[5];
    let x6 = bits[6];
    let x7 = bits[7];
    assert((v as u8) == 128 * (if x0 { 1u8 } else { 0u8 }) + 64 * (if x1 { 1u8 } else { 0u8 }) + 32 * (if x2 { 1u8 } else { 0u8 })
            + 16 * (if x3 { 1u8 } else { 0u8 }) + 8 * (if x4 { 1u8 } else { 0u8 }) + 4 * (if x5 { 1u8 } else { 0u8 })
            + 2 * (if x6 { 1u8 } else { 0u8 }) + (if x7 { 1u8 } else { 0u8 }));
    lemma_bits_byte(x0, x1, x2, x3, x4, x5, x6, x7, v as u8);
    assert(u8_bits(v as u8) =~= bits);
}

/// The sensor sends the higher bit of each byte first: the bits of a byte,
/// most significant first, decode back to that byte, and eight bits decode
/// to the byte whose bits they are.
pub proof fn law_bits_msb_first(b: u8, bits: Seq<bool>)
    requires
        bits.len() == 8,
    ensures
        bits_value(u8_bits(b)) == b,
        bits_value(bits) <= 255,
        u8_bits(bits_value(bits) as u8) == bits,
{
    lemma_byte_roundtrip(b);
    lemma_bits_roundtrip(bits);
}

} // verus!
