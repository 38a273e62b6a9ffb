//! A 128-bit unsigned count carried as a fixed 16-byte little-endian
//! encoding, so that byte counts that may exceed 64-bit range cross the
//! boundary with a layout independent of the host byte order.

use vstd::prelude::*;

verus! {

/// An unsigned 128-bit value held as 16 raw little-endian bytes.
/// Every bit pattern is a valid value, and the encoding is a pure
/// bijection with the unsigned integer it represents.
#[derive(Copy, Clone)]
pub struct Uint128 {
    pub little_endian_bytes: [u8; 16],
}

/// The unsigned value that a 16-byte little-endian encoding stands for:
/// byte `k` contributes its value shifted up by `8 * k` bits.
pub open spec fn u128_of_le(s: Seq<u8>) -> u128
    recommends
        s.len() == 16,
{
    (s[0] as u128) | ((s[1] as u128) << 8) | ((s[2] as u128) << 16) | ((s[3] as u128) << 24) | (
    (s[4] as u128) << 32) | ((s[5] as u128) << 40) | ((s[6] as u128) << 48) | ((s[7] as u128)
        << 56) | ((s[8] as u128) << 64) | ((s[9] as u128) << 72) | ((s[10] as u128) << 80) | ((
    s[11] as u128) << 88) | ((s[12] as u128) << 96) | ((s[13] as u128) << 104) | ((s[14] as u128)
        << 112) | ((s[15] as u128) << 120)
}

/// The 16-byte little-endian encoding of an unsigned 128-bit value:
/// byte `k` is the value shifted down by `8 * k` bits, masked to 8 bits.
pub open spec fn le_of_u128(x: u128) -> Seq<u8> {
    seq![
        (x & 0xff) as u8,
        ((x >> 8) & 0xff) as u8,
        ((x >> 16) & 0xff) as u8,
        ((x >> 24) & 0xff) as u8,
        ((x >> 32) & 0xff) as u8,
        ((x >> 40) & 0xff) as u8,
        ((x >> 48) & 0xff) as u8,
        ((x >> 56) & 0xff) as u8,
        ((x >> 64) & 0xff) as u8,
        ((x >> 72) & 0xff) as u8,
        ((x >> 80) & 0xff) as u8,
        ((x >> 88) & 0xff) as u8,
        ((x >> 96) & 0xff) as u8,
        ((x >> 104) & 0xff) as u8,
        ((x >> 112) & 0xff) as u8,
        ((x >> 120) & 0xff) as u8,
    ]
}

impl Uint128 {
    /// The mathematical value this encoding stands for.
    pub open spec fn value(self) -> u128 {
        u128_of_le(self.little_endian_bytes@)
    }

    /// Wraps raw bytes. No validation is needed: every bit pattern is a
    /// valid value.
    pub fn from_le_bytes(little_endian_bytes: [u8; 16]) -> (r: Uint128)
        ensures
            r.little_endian_bytes@ == little_endian_bytes@,
            r.value() == u128_of_le(little_endian_bytes@),
    {
        Uint128 { little_endian_bytes }
    }

    /// Decodes the bytes to the native wide integer, interpreting them in
    /// little-endian order regardless of the host architecture.
    pub fn to_u128(&self) -> (v: u128)
        ensures
            v == self.value(),
    {
        let b = &self.little_endian_bytes;
        (b[0] as u128) | ((b[1] as u128) << 8) | ((b[2] as u128) << 16) | ((b[3] as u128) << 24)
            | ((b[4] as u128) << 32) | ((b[5] as u128) << 40) | ((b[6] as u128) << 48) | ((
        b[7] as u128) << 56) | ((b[8] as u128) << 64) | ((b[9] as u128) << 72) | ((b[10] as u128)
            << 80) | ((b[11] as u128) << 88) | ((b[12] as u128) << 96) | ((b[13] as u128) << 104)
            | ((b[14] as u128) << 112) | ((b[15] as u128) << 120)
    }

    /// Encodes a native wide integer as its 16 little-endian bytes; the
    /// inverse of `to_u128`.
    pub fn from_u128(x: u128) -> (r: Uint128)
        ensures
            r.little_endian_bytes@ == le_of_u128(x),
            r.value() == x,
    {
        proof {
            assert((x & 0xff) < 256 && ((x >> 8) & 0xff) < 256 && ((x >> 16) & 0xff) < 256 && ((x
                >> 24) & 0xff) < 256 && ((x >> 32) & 0xff) < 256 && ((x >> 40) & 0xff) < 256 && ((x
                >> 48) & 0xff) < 256 && ((x >> 56) & 0xff) < 256 && ((x >> 64) & 0xff) < 256 && ((x
                >> 72) & 0xff) < 256 && ((x >> 80) & 0xff) < 256 && ((x >> 88) & 0xff) < 256 && ((x
                >> 96) & 0xff) < 256 && ((x >> 104) & 0xff) < 256 && ((x >> 112) & 0xff) < 256 && ((
            x >> 120) & 0xff) < 256) by (bit_vector);
        }
        let r = Uint128 {
            little_endian_bytes: [
                (x & 0xff) as u8,
                ((x >> 8) & 0xff) as u8,
                ((x >> 16) & 0xff) as u8,
                ((x >> 24) & 0xff) as u8,
                ((x >> 32) & 0xff) as u8,
                ((x >> 40) & 0xff) as u8,
                ((x >> 48) & 0xff) as u8,
                ((x >> 56) & 0xff) as u8,
                ((x >> 64) & 0xff) as u8,
                ((x >> 72) & 0xff) as u8,
                ((x >> 80) & 0xff) as u8,
                ((x >> 88) & 0xff) as u8,
                ((x >> 96) & 0xff) as u8,
                ((x >> 104) & 0xff) as u8,
                ((x >> 112) & 0xff) as u8,
                ((x >> 120) & 0xff) as u8,
            ],
        };
        proof {
            assert(r.little_endian_bytes@ =~= le_of_u128(x));
            lemma_decode_of_encode(x);
        }
        r
    }
}

/// Encoding a value and decoding the bytes gives the value back: the
/// 16-byte little-endian encoding loses nothing of a 128-bit value.
pub proof fn lemma_decode_of_encode(x: u128)
    ensures
        u128_of_le(le_of_u128(x)) == x,
{
    assert(x == (x & 0xff) | (((x >> 8) & 0xff) << 8) | (((x >> 16) & 0xff) << 16) | (((x >> 24)
        & 0xff) << 24) | (((x >> 32) & 0xff) << 32) | (((x >> 40) & 0xff) << 40) | (((x >> 48)
        & 0xff) << 48) | (((x >> 56) & 0xff) << 56) | (((x >> 64) & 0xff) << 64) | (((x >> 72)
        & 0xff) << 72) | (((x >> 80) & 0xff) << 80) | (((x >> 88) & 0xff) << 88) | (((x >> 96)
        & 0xff) << 96) | (((x >> 104) & 0xff) << 104) | (((x >> 112) & 0xff) << 112) | (((x >> 120)
        & 0xff) << 120)) by (bit_vector);
    assert((x & 0xff) < 256 && ((x >> 8) & 0xff) < 256 && ((x >> 16) & 0xff) < 256 && ((x >> 24)
        & 0xff) < 256 && ((x >> 32) & 0xff) < 256 && ((x >> 40) & 0xff) < 256 && ((x >> 48) & 0xff)
        < 256 && ((x >> 56) & 0xff) < 256 && ((x >> 64) & 0xff) < 256 && ((x >> 72) & 0xff) < 256
        && ((x >> 80) & 0xff) < 256 && ((x >> 88) & 0xff) < 256 && ((x >> 96) & 0xff) < 256 && ((x
        >> 104) & 0xff) < 256 && ((x >> 112) & 0xff) < 256 && ((x >> 120) & 0xff) < 256)
        by (bit_vector);
}

/// Round trip: for every 16-byte pattern, decoding to a value and
/// re-encoding yields the identical bytes.
pub proof fn lemma_encode_of_decode(s: Seq<u8>)
    requires
        s.len() == 16,
    ensures
        le_of_u128(u128_of_le(s)) == s,
{
    let x = u128_of_le(s);
    let b0 = s[0] as u128;
    let b1 = s[1] as u128;
    let b2 = s[2] as u128;
    let b3 = s[3] as u128;
    let b4 = s[4] as u128;
    let b5 = s[5] as u128;
    let b6 = s[6] as u128;
    let b7 = s[7] as u128;
    let b8 = s[8] as u128;
    let b9 = s[9] as u128;
    let b10 = s[10] as u128;
    let b11 = s[11] as u128;
    let b12 = s[12] as u128;
    let b13 = s[13] as u128;
    let b14 = s[14] as u128;
    let b15 = s[15] as u128;
    assert((x == b0 | (b1 << 8) | (b2 << 16) | (b3 << 24) | (b4 << 32) | (b5 << 40) | (b6 << 48) | (
    b7 << 56) | (b8 << 64) | (b9 << 72) | (b10 << 80) | (b11 << 88) | (b12 << 96) | (b13 << 104) | (
    b14 << 112) | (b15 << 120) && b0 < 256 && b1 < 256 && b2 < 256 && b3 < 256 && b4 < 256 && b5
        < 256 && b6 < 256 && b7 < 256 && b8 < 256 && b9 < 256 && b10 < 256 && b11 < 256 && b12
        < 256 && b13 < 256 && b14 < 256 && b15 < 256) ==> (b0 == (x & 0xff) && b1 == ((x >> 8)
        & 0xff) && b2 == ((x >> 16) & 0xff) && b3 == ((x >> 24) & 0xff) && b4 == ((x >> 32) & 0xff)
        && b5 == ((x >> 40) & 0xff) && b6 == ((x >> 48) & 0xff) && b7 == ((x >> 56) & 0xff) && b8
        == ((x >> 64) & 0xff) && b9 == ((x >> 72) & 0xff) && b10 == ((x >> 80) & 0xff) && b11 == ((x
        >> 88) & 0xff) && b12 == ((x >> 96) & 0xff) && b13 == ((x >> 104) & 0xff) && b14 == ((x
        >> 112) & 0xff) && b15 == ((x >> 120) & 0xff))) by (bit_vector);
    assert(le_of_u128(u128_of_le(s)) =~= s);
}

} // verus!
