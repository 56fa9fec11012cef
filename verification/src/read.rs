//! The pure frame decoder: checksum validation and field extraction.
//!
//! A frame is exactly [`PAYLOAD_LEN`] bytes. Bytes 0 and 1 carry the magic
//! marker, bytes 2..30 carry big-endian 16-bit fields, and bytes 30 and 31
//! carry a big-endian 16-bit checksum that must equal the sum of bytes 0..30.

use vstd::prelude::*;

use crate::Reading;
use crate::SensorError;

verus! {

/// First byte of the magic marker that opens every frame
pub const MAGIC_BYTE_0: u8 = 0x42;

/// Second byte of the magic marker that opens every frame
pub const MAGIC_BYTE_1: u8 = 0x4d;

/// Length in bytes of one frame
pub const PAYLOAD_LEN: usize = 32;

/// The big-endian 16-bit word stored at bytes `i` and `i + 1` of `s`
pub open spec fn word_at(s: Seq<u8>, i: int) -> int
    recommends
        0 <= i,
        i + 1 < s.len(),
{
    s[i] * 256 + s[i + 1]
}

/// Sum of the first `n` bytes of `s`, as an unbounded integer
pub open spec fn sum_prefix(s: Seq<u8>, n: int) -> int
    decreases n,
{
    if n <= 0 {
        0
    } else {
        sum_prefix(s, n - 1) + s[n - 1]
    }
}

/// The checksum a frame must carry: the sum of its first 30 bytes
///
/// Thirty bytes of at most 255 each sum to at most 7650, so the sum never
/// wraps the 16-bit trailer field.
pub open spec fn checksum(s: Seq<u8>) -> int {
    sum_prefix(s, PAYLOAD_LEN - 2)
}

/// Does the trailer at bytes 30 and 31 match the checksum of bytes 0..30?
pub open spec fn checksum_ok(s: Seq<u8>) -> bool
    recommends
        s.len() == PAYLOAD_LEN,
{
    word_at(s, PAYLOAD_LEN - 2) == checksum(s)
}

/// Does `s` open with the two magic marker bytes?
pub open spec fn has_magic(s: Seq<u8>) -> bool {
    &&& s.len() >= 2
    &&& s[0] == MAGIC_BYTE_0
    &&& s[1] == MAGIC_BYTE_1
}

/// A full frame as both synchronizers accept it: correct length, the magic
/// marker up front, and a trailer matching the checksum
pub open spec fn valid_frame(s: Seq<u8>) -> bool {
    &&& s.len() == PAYLOAD_LEN
    &&& has_magic(s)
    &&& checksum_ok(s)
}

/// The reading a valid frame `s` denotes: each field is the big-endian
/// word at its fixed offset.
pub open spec fn decoded(s: Seq<u8>) -> Reading
    recommends
        s.len() == PAYLOAD_LEN,
{
    Reading {
        pm1: word_at(s, 4) as u16,
        pm2_5: word_at(s, 6) as u16,
        pm10: word_at(s, 8) as u16,
        env_pm1: word_at(s, 10) as u16,
        env_pm2_5: word_at(s, 12) as u16,
        env_pm10: word_at(s, 14) as u16,
        particles_0_3: word_at(s, 16) as u16,
        particles_0_5: word_at(s, 18) as u16,
        particles_1: word_at(s, 20) as u16,
        particles_2_5: word_at(s, 22) as u16,
        particles_5: word_at(s, 24) as u16,
        particles_10: word_at(s, 26) as u16,
    }
}

/// Sums of byte prefixes are bounded by 255 per byte.
proof fn lemma_sum_prefix_bound(s: Seq<u8>, n: int)
    requires
        0 <= n <= s.len(),
    ensures
        0 <= sum_prefix(s, n) <= 255 * n,
    decreases n,
{
    if n > 0 {
        lemma_sum_prefix_bound(s, n - 1);
    }
}

/// `x` with bit `b` flipped
pub open spec fn flip_bit(x: u8, b: u8) -> u8
    recommends
        b < 8,
{
    x ^ (1u8 << b)
}

/// Prefix sums only read the bytes below the cut: sequences that agree
/// there have the same sum.
proof fn lemma_sum_prefix_congruence(s: Seq<u8>, t: Seq<u8>, n: int)
    requires
        0 <= n <= s.len(),
        n <= t.len(),
        forall|j: int| 0 <= j < n ==> s[j] == t[j],
    ensures
        sum_prefix(s, n) == sum_prefix(t, n),
    decreases n,
{
    if n > 0 {
        lemma_sum_prefix_congruence(s, t, n - 1);
    }
}

/// Updating one byte below the cut moves the prefix sum by exactly the
/// change in that byte.
proof fn lemma_sum_prefix_update(s: Seq<u8>, n: int, i: int, v: u8)
    requires
        0 <= i < n <= s.len(),
    ensures
        sum_prefix(s.update(i, v), n) == sum_prefix(s, n) - s[i] + v,
    decreases n,
{
    let t = s.update(i, v);
    if i == n - 1 {
        lemma_sum_prefix_congruence(s, t, n - 1);
    } else {
        lemma_sum_prefix_update(s, n - 1, i, v);
    }
}

/// A single flipped bit anywhere in the summed bytes 0..30 never escapes
/// the checksum: the sum moves by exactly the flipped power of two, which is
/// never zero, while the trailer at bytes 30 and 31 stays as it was. A frame
/// that was valid therefore stops being valid, and by `parse_data`'s
/// contract decoding it fails with `ChecksumMismatch`.
pub proof fn lemma_bit_flip_is_detected(s: Seq<u8>, i: int, b: u8)
    requires
        s.len() == PAYLOAD_LEN,
        checksum_ok(s),
        0 <= i < PAYLOAD_LEN - 2,
        b < 8,
    ensures
        !checksum_ok(s.update(i, flip_bit(s[i], b))),
{
    let x = s[i];
    let v = flip_bit(x, b);
    assert((x ^ (1u8 << b)) != x) by (bit_vector)
        requires
            b < 8,
    ;
    let t = s.update(i, v);
    lemma_sum_prefix_update(s, PAYLOAD_LEN - 2, i, v);
    assert(t[PAYLOAD_LEN - 2] == s[PAYLOAD_LEN - 2]);
    assert(t[PAYLOAD_LEN - 1] == s[PAYLOAD_LEN - 1]);
}

/// The pure decode step is deterministic: `parse_data`'s contract pins its
/// result down as a function of the bytes alone, so any two results it
/// allows for one and the same buffer are bit-identical — decoding the same
/// valid buffer repeatedly always yields the same reading.
pub proof fn lemma_decode_deterministic<E>(
    s: Seq<u8>,
    r1: Result<Reading, SensorError<E>>,
    r2: Result<Reading, SensorError<E>>,
)
    requires
        r1 is Ok <==> checksum_ok(s),
        r1 matches Ok(reading) ==> reading == decoded(s),
        r1 matches Err(e) ==> e is ChecksumMismatch,
        r2 is Ok <==> checksum_ok(s),
        r2 matches Ok(reading) ==> reading == decoded(s),
        r2 matches Err(e) ==> e is ChecksumMismatch,
    ensures
        r1 == r2,
{
}

/// Combines a big-endian byte pair into one 16-bit value
pub fn as_u16(hi: u8, lo: u8) -> (v: u16)
    ensures
        v == hi * 256 + lo,
{
    (hi as u16) * 256 + (lo as u16)
}

/// Validates the checksum of a full frame and extracts every field.
///
/// This is a pure, total function of the 32 input bytes: it performs no I/O,
/// succeeds exactly when the trailer matches the sum of bytes 0..30, and
/// fails with `ChecksumMismatch` otherwise. The magic marker is not examined
/// here; both synchronizers establish it before calling.
pub fn parse_data<E>(buf: &[u8; PAYLOAD_LEN]) -> (r: Result<Reading, SensorError<E>>)
    ensures
        r is Ok <==> checksum_ok(buf@),
        r matches Ok(reading) ==> reading == decoded(buf@),
        r matches Err(e) ==> e is ChecksumMismatch,
{
    let mut sum: u16 = 0;
    let mut i: usize = 0;
    while i < PAYLOAD_LEN - 2
        invariant
            i <= PAYLOAD_LEN - 2,
            sum == sum_prefix(buf@, i as int),
            sum <= 255 * i,
        decreases PAYLOAD_LEN - 2 - i,
    {
        proof {
            lemma_sum_prefix_bound(buf@, i as int);
        }
        sum = sum + (buf[i] as u16);
        i = i + 1;
    }
    let expected_sum = as_u16(buf[PAYLOAD_LEN - 2], buf[PAYLOAD_LEN - 1]);
    if expected_sum == sum {
        Ok(Reading {
            pm1: as_u16(buf[4], buf[5]),
            pm2_5: as_u16(buf[6], buf[7]),
            pm10: as_u16(buf[8], buf[9]),
            env_pm1: as_u16(buf[10], buf[11]),
            env_pm2_5: as_u16(buf[12], buf[13]),
            env_pm10: as_u16(buf[14], buf[15]),
            particles_0_3: as_u16(buf[16], buf[17]),
            particles_0_5: as_u16(buf[18], buf[19]),
            particles_1: as_u16(buf[20], buf[21]),
            particles_2_5: as_u16(buf[22], buf[23]),
            particles_5: as_u16(buf[24], buf[25]),
            particles_10: as_u16(buf[26], buf[27]),
        })
    } else {
        Err(SensorError::ChecksumMismatch)
    }
}

} // verus!
