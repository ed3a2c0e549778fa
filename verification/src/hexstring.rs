//! The `0x`-prefixed lowercase hexadecimal strings in which flash addresses
//! and lengths are stored in the flash metadata file.
use vstd::prelude::*;
use vstd::string::StringSliceAdditionalSpecFns;
use vstd::utf8::is_char_boundary;

use crate::text::{append_hex, hex};

verus! {

/// Why a hexadecimal string did not decode, as the `hex` crate reports it.
#[derive(Debug, Clone, Copy, PartialEq, Eq, Structural)]
pub enum HexDecodeError {
    InvalidHexCharacter { c: char, index: usize },
    OddLength,
    InvalidStringLength,
}

/// Why a stored address or length string was refused.
#[derive(Debug, Clone, Copy, PartialEq, Eq, Structural)]
pub enum HexStringError {
    /// The string did not have between 3 and 10 bytes.
    BadLength,
    /// The digits were not hexadecimal.
    Hex(HexDecodeError),
}

/// The value of a hexadecimal digit byte (either case).
pub open spec fn hex_nibble(c: u8) -> Option<u8> {
    if 48 <= c <= 57 {
        Some((c - 48) as u8)
    } else if 65 <= c <= 70 {
        Some((c - 55) as u8)
    } else if 97 <= c <= 102 {
        Some((c - 87) as u8)
    } else {
        None
    }
}

/// The first index at or after `from` whose byte is not a hexadecimal digit.
pub open spec fn first_non_hex(s: Seq<u8>, from: nat) -> Option<nat>
    decreases s.len() - from,
{
    if from >= s.len() {
        None
    } else if hex_nibble(s[from as int]) is None {
        Some(from)
    } else {
        first_non_hex(s, from + 1)
    }
}

/// The nibble of a byte known to be a hexadecimal digit.
pub open spec fn nibble(c: u8) -> nat {
    match hex_nibble(c) {
        Some(v) => v as nat,
        None => 0,
    }
}

/// What `hex::decode` gives for `s`: an error for an odd length, else an
/// error at the first non-digit byte, else one byte per pair of digits,
/// high nibble first.
pub open spec fn spec_hex_decode(s: Seq<u8>) -> Result<Seq<u8>, HexDecodeError> {
    if s.len() % 2 != 0 {
        Err(HexDecodeError::OddLength)
    } else {
        match first_non_hex(s, 0) {
            Some(i) => Err(HexDecodeError::InvalidHexCharacter { c: s[i as int] as char, index: i as usize }),
            None => Ok(Seq::new(s.len() / 2, |i: int| (nibble(s[2 * i]) * 16 + nibble(s[2 * i + 1])) as u8)),
        }
    }
}

/// Decodes pairs of hexadecimal digits into bytes with `hex::decode`.
///
/// Trusted: the contract restates `hex::decode` (hex 0.4.3, `FromHex for
/// Vec<u8>`): an odd length is refused first, then the pairs are decoded in
/// order, each digit of either case, and the first non-digit byte is
/// reported with its index. The error is carried over variant by variant.
#[verifier::external_body]
fn hex_decode(data: &[u8]) -> (r: Result<Vec<u8>, HexDecodeError>)
    ensures
        match r {
            Ok(v) => spec_hex_decode(data@) == Ok::<Seq<u8>, HexDecodeError>(v@),
            Err(e) => spec_hex_decode(data@) == Err::<Seq<u8>, HexDecodeError>(e),
        },
{
    match hex::decode(data) {
        Ok(v) => Ok(v),
        Err(hex::FromHexError::InvalidHexCharacter { c, index }) => Err(
            HexDecodeError::InvalidHexCharacter { c, index },
        ),
        Err(hex::FromHexError::OddLength) => Err(HexDecodeError::OddLength),
        Err(hex::FromHexError::InvalidStringLength) => Err(HexDecodeError::InvalidStringLength),
    }
}

/// Value of bytes read as a big-endian number.
pub open spec fn be_value(bytes: Seq<u8>) -> nat
    decreases bytes.len(),
{
    if bytes.len() == 0 {
        0
    } else {
        be_value(bytes.drop_last()) * 256 + bytes.last() as nat
    }
}

/// The digits of a stored string: its bytes after the first two, with a `0`
/// put in front when there is an odd number of them.
pub open spec fn stored_digits(bytes: Seq<u8>) -> Seq<u8> {
    let digits = bytes.skip(2);
    if digits.len() % 2 != 0 {
        seq![48u8] + digits
    } else {
        digits
    }
}

/// The value that a stored string with UTF-8 bytes `bytes` holds. The first
/// two bytes are skipped whatever they are.
pub open spec fn spec_deserialize(bytes: Seq<u8>) -> Result<u32, HexStringError> {
    if bytes.len() < 3 || bytes.len() > 10 {
        Err(HexStringError::BadLength)
    } else {
        match spec_hex_decode(stored_digits(bytes)) {
            Err(e) => Err(HexStringError::Hex(e)),
            Ok(decoded) => Ok(be_value(decoded) as u32),
        }
    }
}

/// The text in which `val` is stored: `0x` and its lowercase hexadecimal
/// digits.
pub fn serialize(val: &u32) -> (s: String)
    ensures
        s@ == seq!['0', 'x'] + hex(*val as nat),
{
    let mut s = String::new();
    crate::text::push_char(&mut s, '0');
    crate::text::push_char(&mut s, 'x');
    append_hex(&mut s, *val as u64);
    assert(s@ =~= seq!['0', 'x'] + hex(*val as nat));
    s
}

proof fn lemma_be_value_bound(bytes: Seq<u8>)
    ensures
        be_value(bytes) < vstd::arithmetic::power2::pow2(8 * bytes.len()),
    decreases bytes.len(),
{
    if bytes.len() > 0 {
        lemma_be_value_bound(bytes.drop_last());
        let n = bytes.len();
        vstd::arithmetic::power2::lemma_pow2_adds(8 * (n - 1) as nat, 8);
        vstd::arithmetic::power2::lemma2_to64();
        let p = vstd::arithmetic::power2::pow2(8 * (n - 1) as nat);
        assert(be_value(bytes.drop_last()) * 256 + bytes.last() < p * 256) by (nonlinear_arith)
            requires
                be_value(bytes.drop_last()) < p,
                bytes.last() < 256,
        ;
    } else {
        vstd::arithmetic::power2::lemma2_to64();
    }
}

/// Reads back a value stored by [`serialize`]: the string must have between
/// three and ten bytes, the bytes after the first two must be hexadecimal
/// digits, and they are read as a big-endian number.
pub fn deserialize(s: &str) -> (r: Result<u32, HexStringError>)
    requires
        3 <= s.spec_bytes().len() <= 10 ==> is_char_boundary(s.spec_bytes(), 2),
    ensures
        r == spec_deserialize(s.spec_bytes()),
{
    let bytes = s.as_bytes();
    let len = bytes.len();
    if len < 3 || len > 10 {
        return Err(HexStringError::BadLength);
    }
    let mut digits: Vec<u8> = Vec::new();
    if (len - 2) % 2 != 0 {
        digits.push(48u8);
    }
    let ghost prefix = digits@;
    let mut i: usize = 2;
    while i < len
        invariant
            2 <= i <= len,
            len == bytes@.len(),
            digits@ == prefix + bytes@.subrange(2, i as int),
        decreases len - i,
    {
        digits.push(bytes[i]);
        i = i + 1;
        assert(digits@ =~= prefix + bytes@.subrange(2, i as int));
    }
    assert(digits@ =~= stored_digits(bytes@));
    match hex_decode(digits.as_slice()) {
        Err(e) => Err(HexStringError::Hex(e)),
        Ok(decoded) => {
            let n = decoded.len();
            assert(n == digits@.len() / 2);
            assert(n <= 4);
            let mut value: u32 = 0;
            let mut j: usize = 0;
            while j < n
                invariant
                    j <= n,
                    n == decoded@.len(),
                    n <= 4,
                    value == be_value(decoded@.subrange(0, j as int)),
                decreases n - j,
            {
                proof {
                    lemma_be_value_bound(decoded@.subrange(0, j as int));
                    vstd::arithmetic::power2::lemma2_to64();
                    if j < 3 {
                        vstd::arithmetic::power2::lemma_pow2_strictly_increases(8 * j as nat, 24);
                    }
                    assert(decoded@.subrange(0, j + 1).drop_last() =~= decoded@.subrange(0, j as int));
                }
                value = value * 256 + decoded[j] as u32;
                j = j + 1;
            }
            assert(decoded@.subrange(0, n as int) =~= decoded@);
            Ok(value)
        },
    }
}

/// Value of a sequence of hexadecimal digit bytes, most significant first.
pub open spec fn hex_value(s: Seq<u8>) -> nat
    decreases s.len(),
{
    if s.len() == 0 {
        0
    } else {
        hex_value(s.drop_last()) * 16 + nibble(s.last())
    }
}

/// `16` to the power `k`.
pub open spec fn pow16(k: nat) -> nat
    decreases k,
{
    if k == 0 {
        1
    } else {
        16 * pow16((k - 1) as nat)
    }
}

/// The ASCII bytes of a sequence of characters.
pub open spec fn ascii_bytes(chars: Seq<char>) -> Seq<u8> {
    chars.map_values(|c: char| c as u8)
}

proof fn lemma_hex_digits(v: nat)
    ensures
        ({
            let d = ascii_bytes(hex(v));
            &&& hex_value(d) == v
            &&& first_non_hex(d, 0) is None
            &&& vstd::utf8::is_ascii_chars(hex(v))
            &&& hex(v).len() >= 1
        }),
    decreases v,
{
    let d = ascii_bytes(hex(v));
    if v < 16 {
        assert(hex(v) == seq![crate::text::digit_char(v)]);
        assert(d.drop_last().len() == 0);
        assert(hex_value(d.drop_last()) == 0);
        assert(first_non_hex(d, 1) is None);
    } else {
        lemma_hex_digits(v / 16);
        let p = ascii_bytes(hex(v / 16));
        assert(hex(v) == hex(v / 16).push(crate::text::digit_char(v % 16)));
        assert(d.drop_last() =~= p);
        lemma_first_non_hex_push(p, d);
    }
}

proof fn lemma_first_non_hex_push(p: Seq<u8>, d: Seq<u8>)
    requires
        d.len() == p.len() + 1,
        d.drop_last() == p,
        first_non_hex(p, 0) is None,
        hex_nibble(d.last()) is Some,
    ensures
        first_non_hex(d, 0) is None,
{
    lemma_first_non_hex_push_from(p, d, 0);
}

proof fn lemma_first_non_hex_push_from(p: Seq<u8>, d: Seq<u8>, from: nat)
    requires
        d.len() == p.len() + 1,
        d.drop_last() == p,
        first_non_hex(p, from) is None,
        hex_nibble(d.last()) is Some,
    ensures
        first_non_hex(d, from) is None,
    decreases d.len() - from,
{
    if from < d.len() {
        if from < p.len() {
            assert(d[from as int] == p[from as int]);
            lemma_first_non_hex_push_from(p, d, from + 1);
        } else {
            assert(first_non_hex(d, from + 1) is None);
        }
    }
}

proof fn lemma_hex_len(v: nat, k: nat)
    requires
        v < pow16(k),
        k >= 1,
    ensures
        hex(v).len() <= k,
    decreases v,
{
    if v >= 16 {
        assert(k >= 2) by {
            if k < 2 {
                assert(pow16(1) == 16 * pow16(0));
            }
        }
        assert(pow16(k) == 16 * pow16((k - 1) as nat));
        assert(v / 16 < pow16((k - 1) as nat));
        lemma_hex_len(v / 16, (k - 1) as nat);
        assert(hex(v) == hex(v / 16).push(crate::text::digit_char(v % 16)));
    } else {
        assert(hex(v) == seq![crate::text::digit_char(v)]);
    }
}

proof fn lemma_hex_value_leading_zero(s: Seq<u8>)
    ensures
        hex_value(seq![48u8] + s) == hex_value(s),
    decreases s.len(),
{
    let z = seq![48u8] + s;
    assert(nibble(48u8) == 0);
    if s.len() == 0 {
        assert(z.drop_last().len() == 0);
        assert(hex_value(z.drop_last()) == 0);
        assert(z.last() == 48u8);
    } else {
        assert(z.drop_last() =~= seq![48u8] + s.drop_last());
        assert(z.last() == s.last());
        lemma_hex_value_leading_zero(s.drop_last());
    }
}

proof fn lemma_first_non_hex_leading_zero(s: Seq<u8>, from: nat)
    requires
        first_non_hex(s, from) is None,
    ensures
        first_non_hex(seq![48u8] + s, from + 1) is None,
    decreases s.len() - from,
{
    if from < s.len() {
        assert((seq![48u8] + s)[from + 1int] == s[from as int]);
        lemma_first_non_hex_leading_zero(s, from + 1);
    }
}

/// The bytes that `hex::decode` gives for an even run of hexadecimal digits.
pub open spec fn decoded_pairs(s: Seq<u8>) -> Seq<u8> {
    Seq::new(s.len() / 2, |i: int| (nibble(s[2 * i]) * 16 + nibble(s[2 * i + 1])) as u8)
}

proof fn lemma_decoded_pairs_value(s: Seq<u8>)
    requires
        s.len() % 2 == 0,
        forall|i: int| 0 <= i < s.len() ==> nibble(#[trigger] s[i]) < 16,
    ensures
        be_value(decoded_pairs(s)) == hex_value(s),
    decreases s.len(),
{
    if s.len() > 0 {
        let n = s.len();
        let p = s.subrange(0, n - 2);
        assert(forall|i: int| 0 <= i < p.len() ==> nibble(#[trigger] p[i]) < 16) by {
            assert forall|i: int| 0 <= i < p.len() implies nibble(#[trigger] p[i]) < 16 by {
                assert(p[i] == s[i]);
            }
        }
        lemma_decoded_pairs_value(p);
        let d = decoded_pairs(s);
        assert(d.drop_last() =~= decoded_pairs(p));
        assert(s.drop_last().drop_last() =~= p);
        let hi = nibble(s[n - 2]);
        let lo = nibble(s[n - 1]);
        assert(hi < 16 && lo < 16);
        assert(d.last() == (hi * 16 + lo) as u8);
        assert(hex_value(s) == hex_value(s.drop_last()) * 16 + lo);
        assert(hex_value(s.drop_last()) == hex_value(p) * 16 + hi);
    }
}

proof fn lemma_all_nibbles(s: Seq<u8>, from: nat)
    requires
        first_non_hex(s, from) is None,
    ensures
        forall|i: int| from <= i < s.len() ==> hex_nibble(#[trigger] s[i]) is Some,
    decreases s.len() - from,
{
    if from < s.len() {
        lemma_all_nibbles(s, from + 1);
    }
}

/// A stored address or length reads back as the number that was stored:
/// the text that [`serialize`] gives for `v`, taken as UTF-8 bytes, is what
/// [`deserialize`] turns back into `v`.
pub proof fn law_hexstring_roundtrip(v: u32)
    ensures
        vstd::utf8::is_ascii_chars(seq!['0', 'x'] + hex(v as nat)),
        is_char_boundary(vstd::utf8::encode_utf8(seq!['0', 'x'] + hex(v as nat)), 2),
        spec_deserialize(vstd::utf8::encode_utf8(seq!['0', 'x'] + hex(v as nat))) == Ok::<u32, HexStringError>(v),
{
    let h = hex(v as nat);
    let chars = seq!['0', 'x'] + h;
    lemma_hex_digits(v as nat);
    assert(pow16(8) == 0x1_0000_0000) by {
        reveal_with_fuel(pow16, 9);
    }
    lemma_hex_len(v as nat, 8);
    assert(vstd::utf8::is_ascii_chars(chars)) by {
        assert forall|i| 0 <= i < chars.len() implies '\0' <= #[trigger] chars[i] <= '\u{7f}' by {
            if i >= 2 {
                assert(chars[i] == h[i - 2]);
            }
        }
    }
    vstd::utf8::is_ascii_chars_encode_utf8(chars);
    let bytes = vstd::utf8::encode_utf8(chars);
    assert(bytes.len() == chars.len());
    vstd::utf8::encode_utf8_valid_utf8(chars);
    assert(bytes[2] == chars[2] as u8);
    assert(h[0] == chars[2]);
    vstd::utf8::is_char_boundary_iff_not_is_continuation_byte(bytes, 2);
    let d = ascii_bytes(h);
    assert(bytes.skip(2) =~= d) by {
        assert forall|i: int| 0 <= i < d.len() implies bytes.skip(2)[i] == d[i] by {
            assert(chars[i + 2] == h[i]);
        }
    }
    let e = stored_digits(bytes);
    lemma_all_nibbles(d, 0);
    if d.len() % 2 != 0 {
        assert(e == seq![48u8] + d);
        lemma_hex_value_leading_zero(d);
        lemma_first_non_hex_leading_zero(d, 0);
        assert(hex_nibble(e[0]) is Some);
        assert(first_non_hex(e, 0) == first_non_hex(e, 1));
    } else {
        assert(e == d);
    }
    assert(first_non_hex(e, 0) is None);
    lemma_all_nibbles(e, 0);
    assert(forall|i: int| 0 <= i < e.len() ==> nibble(#[trigger] e[i]) < 16);
    lemma_decoded_pairs_value(e);
    assert(spec_hex_decode(e) == Ok::<Seq<u8>, HexDecodeError>(decoded_pairs(e)));
}

} // verus!
