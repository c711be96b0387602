//! Binary codec: the byte-exact wire format for values crossing the
//! guest/host boundary.
//!
//! Every multi-byte integer travels in fixed-width little-endian form,
//! so that the two sides of the boundary, and the storage-key deriver,
//! agree on the bytes without any negotiation. Bytes that cannot be
//! decoded into the expected value are a protocol-level fault, reported
//! as [`CodecError`] and never silently truncated or padded.

use vstd::prelude::*;

verus! {

/// A decode failure: the bytes cannot represent the expected value.
///
/// This is a fatal condition for the retrieval protocol: it means the
/// two sides of the boundary disagree on the wire format.
#[derive(Clone, Copy, Debug, PartialEq, Eq, Structural)]
pub enum CodecError {
    /// The input does not have the exact width the value requires.
    WrongLength,
}

/// The little-endian image of a 64-bit integer: byte `i` carries bits
/// `8*i .. 8*i + 8`, least significant byte first.
pub open spec fn u64_le_bytes(v: u64) -> Seq<u8> {
    seq![
        (v & 0xff) as u8,
        ((v >> 8) & 0xff) as u8,
        ((v >> 16) & 0xff) as u8,
        ((v >> 24) & 0xff) as u8,
        ((v >> 32) & 0xff) as u8,
        ((v >> 40) & 0xff) as u8,
        ((v >> 48) & 0xff) as u8,
        ((v >> 56) & 0xff) as u8,
    ]
}

/// The 64-bit integer read back from eight little-endian bytes.
pub open spec fn u64_from_le(s: Seq<u8>) -> u64
    recommends
        s.len() == 8,
{
    (s[0] as u64)
        | (s[1] as u64) << 8
        | (s[2] as u64) << 16
        | (s[3] as u64) << 24
        | (s[4] as u64) << 32
        | (s[5] as u64) << 40
        | (s[6] as u64) << 48
        | (s[7] as u64) << 56
}

/// Encoding a 64-bit identifier always yields its eight little-endian
/// bytes.
pub fn encode_u64(v: u64) -> (r: Vec<u8>)
    ensures
        r@ == u64_le_bytes(v),
        r@.len() == 8,
{
    proof {
        assert(v & 0xff < 256 && (v >> 8) & 0xff < 256 && (v >> 16) & 0xff < 256
            && (v >> 24) & 0xff < 256 && (v >> 32) & 0xff < 256 && (v >> 40) & 0xff < 256
            && (v >> 48) & 0xff < 256 && (v >> 56) & 0xff < 256) by (bit_vector);
    }
    let mut r: Vec<u8> = Vec::new();
    r.push((v & 0xff) as u8);
    r.push(((v >> 8) & 0xff) as u8);
    r.push(((v >> 16) & 0xff) as u8);
    r.push(((v >> 24) & 0xff) as u8);
    r.push(((v >> 32) & 0xff) as u8);
    r.push(((v >> 40) & 0xff) as u8);
    r.push(((v >> 48) & 0xff) as u8);
    r.push(((v >> 56) & 0xff) as u8);
    proof {
        assert(r@ =~= u64_le_bytes(v));
    }
    r
}

/// Decoding succeeds exactly on inputs of width eight, and then returns
/// the integer whose little-endian image the input is.
pub fn decode_u64(bytes: &[u8]) -> (r: Result<u64, CodecError>)
    ensures
        bytes@.len() == 8 ==> r == Ok::<u64, CodecError>(u64_from_le(bytes@)),
        bytes@.len() != 8 ==> r == Err::<u64, CodecError>(CodecError::WrongLength),
{
    if bytes.len() != 8 {
        return Err(CodecError::WrongLength);
    }
    let v: u64 = (bytes[0] as u64)
        | (bytes[1] as u64) << 8
        | (bytes[2] as u64) << 16
        | (bytes[3] as u64) << 24
        | (bytes[4] as u64) << 32
        | (bytes[5] as u64) << 40
        | (bytes[6] as u64) << 48
        | (bytes[7] as u64) << 56;
    Ok(v)
}

/// Round trip: decoding the encoding of any 64-bit identifier yields
/// the identifier unchanged.
pub proof fn lemma_u64_round_trip(v: u64)
    ensures
        u64_from_le(u64_le_bytes(v)) == v,
{
    assert(((v & 0xff) as u8 as u64)
        | (((v >> 8) & 0xff) as u8 as u64) << 8
        | (((v >> 16) & 0xff) as u8 as u64) << 16
        | (((v >> 24) & 0xff) as u8 as u64) << 24
        | (((v >> 32) & 0xff) as u8 as u64) << 32
        | (((v >> 40) & 0xff) as u8 as u64) << 40
        | (((v >> 48) & 0xff) as u8 as u64) << 48
        | (((v >> 56) & 0xff) as u8 as u64) << 56 == v) by (bit_vector);
}

/// The little-endian image is injective: distinct identifiers have
/// distinct images.
pub proof fn lemma_u64_le_bytes_injective(a: u64, b: u64)
    requires
        a != b,
    ensures
        u64_le_bytes(a) != u64_le_bytes(b),
{
    if u64_le_bytes(a) == u64_le_bytes(b) {
        lemma_u64_round_trip(a);
        lemma_u64_round_trip(b);
    }
}

} // verus!
