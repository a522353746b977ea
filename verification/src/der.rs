//! A small verified DER (ASN.1 Distinguished Encoding Rules) reader and
//! writer.
//!
//! It covers exactly what the key structures of this crate need: definite
//! lengths below 65536, encoded minimally as DER requires, and single
//! tag-length-value items read off the front of a buffer.

use vstd::prelude::*;

use crate::errors::DecodingError;
use crate::util::push_slice;

verus! {

/// The DER encoding of a definite length below 65536: the short form for
/// lengths below 128, else the minimal long form with one or two value bytes.
pub open spec fn der_len_bytes(n: nat) -> Seq<u8>
    recommends
        n < 0x10000,
{
    if n < 0x80 {
        seq![n as u8]
    } else if n < 0x100 {
        seq![0x81u8, n as u8]
    } else {
        seq![0x82u8, (n / 0x100) as u8, (n % 0x100) as u8]
    }
}

/// One DER tag-length-value item.
pub open spec fn der_tlv(tag: u8, content: Seq<u8>) -> Seq<u8> {
    seq![tag] + der_len_bytes(content.len()) + content
}

/// Reads the length field at the start of `b`: the length and the number of
/// bytes the field occupies.  Non-minimal encodings and length fields of
/// three or more value bytes are rejected.
pub open spec fn der_read_len(b: Seq<u8>) -> Option<(nat, nat)> {
    if b.len() < 1 {
        None
    } else if b[0] < 0x80 {
        Some(((b[0] as nat), 1 as nat))
    } else if b[0] == 0x81 {
        if b.len() >= 2 && b[1] >= 0x80 {
            Some(((b[1] as nat), 2 as nat))
        } else {
            None
        }
    } else if b[0] == 0x82 {
        if b.len() >= 3 && b[1] != 0 {
            Some((((b[1] as nat) * 0x100 + (b[2] as nat)), 3 as nat))
        } else {
            None
        }
    } else {
        None
    }
}

/// Reads one TLV item at the start of `b`: the tag, the content, and the
/// total number of bytes the item occupies within `b`.
pub open spec fn der_read_tlv(b: Seq<u8>) -> Option<(u8, Seq<u8>, nat)> {
    if b.len() < 1 {
        None
    } else {
        match der_read_len(b.skip(1)) {
            Some(p) => {
                if b.len() >= 1 + p.1 + p.0 {
                    Some(
                        (
                            b[0],
                            b.subrange((1 + p.1) as int, (1 + p.1 + p.0) as int),
                            (1 + p.1 + p.0) as nat,
                        ),
                    )
                } else {
                    None
                }
            },
            None => None,
        }
    }
}

/// Reading back an encoded length field yields the encoded length, whatever
/// follows it in the buffer.
pub proof fn lemma_der_len_roundtrip(n: nat, rest: Seq<u8>)
    requires
        n < 0x10000,
    ensures
        der_read_len(der_len_bytes(n) + rest) == Some((n, der_len_bytes(n).len() as nat)),
{
    let b = der_len_bytes(n) + rest;
    if n < 0x80 {
        assert(b[0] == n as u8);
    } else if n < 0x100 {
        assert(b[0] == 0x81u8);
        assert(b[1] == n as u8);
        assert(b[1] >= 0x80);
    } else {
        assert(b[0] == 0x82u8);
        assert(b[1] == (n / 0x100) as u8);
        assert(b[2] == (n % 0x100) as u8);
        assert(n / 0x100 >= 1);
        assert(b[1] != 0);
        assert((b[1] as nat) * 0x100 + (b[2] as nat) == n);
    }
}

/// Reading back an encoded TLV item yields its tag and content, whatever
/// follows it in the buffer.
pub proof fn lemma_der_tlv_roundtrip(tag: u8, content: Seq<u8>, rest: Seq<u8>)
    requires
        content.len() < 0x10000,
    ensures
        der_read_tlv(der_tlv(tag, content) + rest) == Some(
            (tag, content, der_tlv(tag, content).len() as nat),
        ),
{
    let enc = der_tlv(tag, content);
    let b = enc + rest;
    let lb = der_len_bytes(content.len());
    assert(b.skip(1) =~= lb + (content + rest));
    lemma_der_len_roundtrip(content.len(), content + rest);
    let p = der_read_len(b.skip(1)).unwrap();
    assert(p.0 == content.len());
    assert(p.1 == lb.len());
    assert(b.len() == 1 + lb.len() + content.len() + rest.len());
    assert(b[0] == tag);
    assert(b.subrange((1 + p.1) as int, (1 + p.1 + p.0) as int) =~= content);
}

/// A length field that parses is exactly the DER encoding of the length it
/// yields: DER length encodings are canonical.
pub proof fn lemma_der_len_canonical(b: Seq<u8>)
    requires
        der_read_len(b) is Some,
    ensures
        ({
            let p = der_read_len(b).unwrap();
            b.take(p.1 as int) == der_len_bytes(p.0)
        }),
{
    let p = der_read_len(b).unwrap();
    if b[0] < 0x80 {
        assert(b.take(p.1 as int) =~= der_len_bytes(p.0));
    } else if b[0] == 0x81 {
        assert(b.take(p.1 as int) =~= der_len_bytes(p.0));
    } else {
        let hi = b[1] as nat;
        let lo = b[2] as nat;
        assert((hi * 0x100 + lo) / 0x100 == hi && (hi * 0x100 + lo) % 0x100 == lo)
            by (nonlinear_arith)
            requires
                hi <= 255,
                lo <= 255,
        ;
        assert(b.take(p.1 as int) =~= der_len_bytes(p.0));
    }
}

/// A TLV item that parses and spans the whole buffer is exactly the DER
/// encoding of its tag and content: TLV encodings are canonical.
pub proof fn lemma_der_tlv_canonical(b: Seq<u8>)
    requires
        der_read_tlv(b) is Some,
        der_read_tlv(b).unwrap().2 == b.len(),
    ensures
        b == der_tlv(der_read_tlv(b).unwrap().0, der_read_tlv(b).unwrap().1),
{
    let t = der_read_tlv(b).unwrap();
    let p = der_read_len(b.skip(1)).unwrap();
    lemma_der_len_canonical(b.skip(1));
    assert(b.skip(1).take(p.1 as int) =~= b.subrange(1, (1 + p.1) as int));
    assert(b =~= seq![b[0]] + b.subrange(1, (1 + p.1) as int) + b.subrange(
        (1 + p.1) as int,
        (1 + p.1 + p.0) as int,
    ));
}

/// Reads one TLV item at the start of `b`.  On success returns the tag, the
/// offset of the content within `b`, and the content's length in bytes.
pub fn read_tlv(b: &[u8]) -> (r: Result<(u8, usize, usize), DecodingError>)
    ensures
        r is Ok <==> der_read_tlv(b@) is Some,
        r matches Ok(t) ==> {
            let s = der_read_tlv(b@).unwrap();
            &&& t.0 == s.0
            &&& t.1 + t.2 <= b@.len()
            &&& b@.subrange(t.1 as int, t.1 + t.2) == s.1
            &&& t.1 + t.2 == s.2
        },
{
    if b.len() < 2 {
        return Err(DecodingError::Truncated);
    }
    let tag = b[0];
    let l0 = b[1];
    if l0 < 0x80 {
        let len = l0 as usize;
        if b.len() - 2 < len {
            return Err(DecodingError::Truncated);
        }
        Ok((tag, 2, len))
    } else if l0 == 0x81 {
        if b.len() < 3 {
            return Err(DecodingError::Truncated);
        }
        let l1 = b[2];
        if l1 < 0x80 {
            return Err(DecodingError::BadLength);
        }
        let len = l1 as usize;
        if b.len() - 3 < len {
            return Err(DecodingError::Truncated);
        }
        Ok((tag, 3, len))
    } else if l0 == 0x82 {
        if b.len() < 4 {
            return Err(DecodingError::Truncated);
        }
        let hi = b[2];
        let lo = b[3];
        if hi == 0 {
            return Err(DecodingError::BadLength);
        }
        let len = (hi as usize) * 0x100 + (lo as usize);
        if b.len() - 4 < len {
            return Err(DecodingError::Truncated);
        }
        Ok((tag, 4, len))
    } else {
        Err(DecodingError::BadLength)
    }
}

/// Appends the TLV item with tag `tag` and content `content` to `out`.
pub fn write_tlv(out: &mut Vec<u8>, tag: u8, content: &[u8])
    requires
        content@.len() < 0x10000,
    ensures
        final(out)@ == old(out)@ + der_tlv(tag, content@),
{
    out.push(tag);
    let n = content.len();
    if n < 0x80 {
        out.push(n as u8);
    } else if n < 0x100 {
        out.push(0x81);
        out.push(n as u8);
    } else {
        out.push(0x82);
        out.push((n / 0x100) as u8);
        out.push((n % 0x100) as u8);
    }
    push_slice(out, content);
    proof {
        assert(out@ =~= old(out)@ + der_tlv(tag, content@));
    }
}

} // verus!
