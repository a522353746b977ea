//! The tagged envelope: the canonical wire format for heterogeneous keys.
//!
//! A key travels as one algorithm tag byte, an 8-byte little-endian length,
//! and the algorithm-specific payload.

use vstd::prelude::*;

use crate::errors::DecodingError;
use crate::util::push_slice;
use vstd::slice::slice_subrange;
use vstd::slice::slice_to_vec;

verus! {

/// The 8-byte little-endian encoding of a 64-bit length.
pub open spec fn le64_bytes(n: u64) -> Seq<u8> {
    seq![
        (n & 0xFF) as u8,
        ((n >> 8) & 0xFF) as u8,
        ((n >> 16) & 0xFF) as u8,
        ((n >> 24) & 0xFF) as u8,
        ((n >> 32) & 0xFF) as u8,
        ((n >> 40) & 0xFF) as u8,
        ((n >> 48) & 0xFF) as u8,
        ((n >> 56) & 0xFF) as u8,
    ]
}

/// The 64-bit value of 8 little-endian bytes.
pub open spec fn le64_value(b: Seq<u8>) -> u64
    recommends
        b.len() == 8,
{
    ((b[0] as u64) | ((b[1] as u64) << 8) | ((b[2] as u64) << 16) | ((b[3] as u64) << 24) | ((
    b[4] as u64) << 32) | ((b[5] as u64) << 40) | ((b[6] as u64) << 48) | ((b[7] as u64) << 56))
}

/// Reading back an encoded length yields the length.
pub proof fn lemma_le64_roundtrip(n: u64)
    ensures
        le64_value(le64_bytes(n)) == n,
{
    assert(((n & 0xFF) as u8 as u64) | ((((n >> 8) & 0xFF) as u8 as u64) << 8) | ((((n >> 16)
        & 0xFF) as u8 as u64) << 16) | ((((n >> 24) & 0xFF) as u8 as u64) << 24) | ((((n >> 32)
        & 0xFF) as u8 as u64) << 32) | ((((n >> 40) & 0xFF) as u8 as u64) << 40) | ((((n >> 48)
        & 0xFF) as u8 as u64) << 48) | ((((n >> 56) & 0xFF) as u8 as u64) << 56) == n)
        by (bit_vector);
}

/// One enveloped key: the algorithm tag, the payload length, the payload.
pub open spec fn envelope(tag: u8, payload: Seq<u8>) -> Seq<u8> {
    seq![tag] + le64_bytes(payload.len() as u64) + payload
}

/// Parses an envelope: at least nine bytes, and the length field must match
/// the number of bytes that follow it exactly.
pub open spec fn envelope_parse(b: Seq<u8>) -> Option<(u8, Seq<u8>)> {
    if b.len() < 9 {
        None
    } else if le64_value(b.subrange(1, 9)) == (b.len() - 9) as u64 {
        Some((b[0], b.skip(9)))
    } else {
        None
    }
}

/// Reading back an encoded envelope yields its tag and payload: the
/// envelope round-trip law.
pub proof fn lemma_envelope_round_trip(tag: u8, payload: Seq<u8>)
    requires
        payload.len() < 0x8000000000000000,
    ensures
        envelope_parse(envelope(tag, payload)) == Some((tag, payload)),
{
    let b = envelope(tag, payload);
    assert(b.subrange(1, 9) =~= le64_bytes(payload.len() as u64));
    lemma_le64_roundtrip(payload.len() as u64);
    assert(b.skip(9) =~= payload);
}

/// Eight little-endian bytes are exactly the encoding of their own value:
/// the length field is canonical.
pub proof fn lemma_le64_canonical(b: Seq<u8>)
    requires
        b.len() == 8,
    ensures
        b == le64_bytes(le64_value(b)),
{
    let x0 = b[0] as u64;
    let x1 = b[1] as u64;
    let x2 = b[2] as u64;
    let x3 = b[3] as u64;
    let x4 = b[4] as u64;
    let x5 = b[5] as u64;
    let x6 = b[6] as u64;
    let x7 = b[7] as u64;
    assert({
        let n = x0 | (x1 << 8) | (x2 << 16) | (x3 << 24) | (x4 << 32) | (x5 << 40) | (x6 << 48) | (
        x7 << 56);
        &&& n & 0xFF == x0
        &&& (n >> 8) & 0xFF == x1
        &&& (n >> 16) & 0xFF == x2
        &&& (n >> 24) & 0xFF == x3
        &&& (n >> 32) & 0xFF == x4
        &&& (n >> 40) & 0xFF == x5
        &&& (n >> 48) & 0xFF == x6
        &&& (n >> 56) & 0xFF == x7
    })
        by (bit_vector)
        requires
            x0 < 256,
            x1 < 256,
            x2 < 256,
            x3 < 256,
            x4 < 256,
            x5 < 256,
            x6 < 256,
            x7 < 256,
    ;
    assert(b =~= le64_bytes(le64_value(b)));
}

/// The other direction of the envelope round-trip law: a buffer that
/// parses as an envelope is exactly the envelope of its own tag and
/// payload, so the encoding is canonical.
pub proof fn lemma_envelope_canonical(b: Seq<u8>)
    requires
        envelope_parse(b) is Some,
    ensures
        b == envelope(envelope_parse(b).unwrap().0, envelope_parse(b).unwrap().1),
{
    lemma_le64_canonical(b.subrange(1, 9));
    assert(b =~= seq![b[0]] + b.subrange(1, 9) + b.skip(9));
}

/// Encode one enveloped key.
pub fn encode_envelope(tag: u8, payload: &[u8]) -> (r: Vec<u8>)
    ensures
        r@ == envelope(tag, payload@),
{
    let mut out: Vec<u8> = Vec::new();
    out.push(tag);
    let n: u64 = payload.len() as u64;
    proof {
        assert(n & 0xFF < 256 && (n >> 8) & 0xFF < 256 && (n >> 16) & 0xFF < 256 && (n >> 24)
            & 0xFF < 256 && (n >> 32) & 0xFF < 256 && (n >> 40) & 0xFF < 256 && (n >> 48) & 0xFF
            < 256 && (n >> 56) & 0xFF < 256) by (bit_vector);
    }
    out.push((n & 0xFF) as u8);
    out.push(((n >> 8) & 0xFF) as u8);
    out.push(((n >> 16) & 0xFF) as u8);
    out.push(((n >> 24) & 0xFF) as u8);
    out.push(((n >> 32) & 0xFF) as u8);
    out.push(((n >> 40) & 0xFF) as u8);
    out.push(((n >> 48) & 0xFF) as u8);
    out.push(((n >> 56) & 0xFF) as u8);
    push_slice(&mut out, payload);
    proof {
        assert(out@ =~= envelope(tag, payload@));
    }
    out
}

/// Decode one enveloped key into its tag and payload.
pub fn decode_envelope(b: &[u8]) -> (r: Result<(u8, Vec<u8>), DecodingError>)
    ensures
        r is Ok <==> envelope_parse(b@) is Some,
        r matches Ok(p) ==> {
            let s = envelope_parse(b@).unwrap();
            p.0 == s.0 && p.1@ == s.1
        },
        b@.len() < 9 ==> r == Err::<(u8, Vec<u8>), DecodingError>(DecodingError::Truncated),
        b@.len() >= 9 && envelope_parse(b@) is None ==> r == Err::<(u8, Vec<u8>), DecodingError>(
            DecodingError::BadLength,
        ),
{
    if b.len() < 9 {
        return Err(DecodingError::Truncated);
    }
    let n: u64 = (b[1] as u64) | ((b[2] as u64) << 8) | ((b[3] as u64) << 16) | ((b[4] as u64)
        << 24) | ((b[5] as u64) << 32) | ((b[6] as u64) << 40) | ((b[7] as u64) << 48) | ((
    b[8] as u64) << 56);
    proof {
        assert(b@.subrange(1, 9)[0] == b@[1]);
        assert(n == le64_value(b@.subrange(1, 9)));
    }
    if n != (b.len() - 9) as u64 {
        return Err(DecodingError::BadLength);
    }
    let payload = slice_to_vec(slice_subrange(b, 9, b.len()));
    proof {
        assert(b@.subrange(9, b@.len() as int) =~= b@.skip(9));
    }
    Ok((b[0], payload))
}

} // verus!
