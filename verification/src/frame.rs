//! Length-prefixed packet framing.
//!
//! One frame on the wire is a `u32` length in little-endian order followed by
//! exactly that many bytes of payload. Frames are atomic: a peer either sees
//! the entire payload or a transmission error. The embedding program performs
//! the stream reads and writes; this module computes the bytes of a frame and
//! parses the bytes read back, deciding every error exactly.

use vstd::prelude::*;
use vstd::arithmetic::div_mod::{
    lemma_fundamental_div_mod, lemma_div_denominator, lemma_small_mod, lemma_multiply_divide_lt,
};
use crate::error::{FramedError, TransmissionError};

verus! {

/// The four bytes of `n` in little-endian order.
pub open spec fn u32_le_bytes(n: u32) -> Seq<u8> {
    seq![
        (n % 256) as u8,
        ((n / 256) % 256) as u8,
        ((n / 65536) % 256) as u8,
        ((n / 16777216) % 256) as u8,
    ]
}

/// The value of four little-endian bytes.
pub open spec fn le_to_u32(b: Seq<u8>) -> int
    recommends
        b.len() == 4,
{
    b[0] + 256 * b[1] + 65536 * b[2] + 16777216 * b[3]
}

/// Reading back the four little-endian bytes of `n` yields `n`.
pub proof fn lemma_u32_le_round(n: u32)
    ensures
        le_to_u32(u32_le_bytes(n)) == n,
{
    let x = n as int;
    broadcast use lemma_fundamental_div_mod;

    lemma_div_denominator(x, 256, 256);
    lemma_div_denominator(x, 65536, 256);
    lemma_multiply_divide_lt(x, 16777216, 256);
    lemma_small_mod((x / 16777216) as nat, 256);
    assert(x == 256 * (x / 256) + x % 256);
    assert(x / 256 == 256 * (x / 256 / 256) + (x / 256) % 256);
    assert(x / 65536 == 256 * (x / 65536 / 256) + (x / 65536) % 256);
}

/// The bytes of one whole frame carrying `payload`.
pub open spec fn spec_frame(payload: Seq<u8>) -> Seq<u8>
    recommends
        payload.len() < u32::MAX,
{
    u32_le_bytes(payload.len() as u32) + payload
}

/// What parsing a byte prefix of a stream yields: the payload and the number
/// of bytes consumed, or nothing when the bytes do not hold a whole frame.
pub open spec fn spec_parse_frame(b: Seq<u8>) -> Option<(Seq<u8>, int)> {
    if b.len() < 4 {
        None
    } else {
        let l = le_to_u32(b.take(4));
        if b.len() - 4 < l {
            None
        } else {
            Some((b.subrange(4, 4 + l), 4 + l))
        }
    }
}

/// A whole frame parses back to exactly the payload it was written with.
pub proof fn lemma_frame_round_trip(payload: Seq<u8>)
    requires
        payload.len() < u32::MAX,
    ensures
        spec_parse_frame(spec_frame(payload)) == Some((payload, 4 + payload.len() as int)),
{
    let f = spec_frame(payload);
    lemma_u32_le_round(payload.len() as u32);
    assert(f.take(4) =~= u32_le_bytes(payload.len() as u32));
    assert(f.subrange(4, 4 + payload.len() as int) =~= payload);
}

/// The little-endian bytes of a `u32` length value.
pub fn encode_u32_le(n: u32) -> (r: Vec<u8>)
    ensures
        r@ == u32_le_bytes(n),
{
    let mut out: Vec<u8> = Vec::new();
    out.push((n % 256) as u8);
    out.push(((n / 256) % 256) as u8);
    out.push(((n / 65536) % 256) as u8);
    out.push(((n / 16777216) % 256) as u8);
    proof {
        assert(out@ =~= u32_le_bytes(n));
    }
    out
}

/// The `u32` held by four little-endian bytes starting at `off`.
pub fn read_u32_le(b: &Vec<u8>, off: usize) -> (r: u32)
    requires
        off + 4 <= b@.len(),
    ensures
        r == le_to_u32(b@.subrange(off as int, off as int + 4)),
{
    let n = b.len();
    let b0 = b[off] as u32;
    let b1 = b[off + 1] as u32;
    let b2 = b[off + 2] as u32;
    let b3 = b[off + 3] as u32;
    proof {
        assert(b@.subrange(off as int, off as int + 4)[0] == b@[off as int]);
        assert(b@.subrange(off as int, off as int + 4)[1] == b@[off as int + 1]);
        assert(b@.subrange(off as int, off as int + 4)[2] == b@[off as int + 2]);
        assert(b@.subrange(off as int, off as int + 4)[3] == b@[off as int + 3]);
    }
    b0 + b1 * 256 + b2 * 65536 + b3 * 16777216
}

/// A copy of the bytes of `b` from `start` to `end`.
pub fn copy_range(b: &Vec<u8>, start: usize, end: usize) -> (r: Vec<u8>)
    requires
        start <= end <= b@.len(),
    ensures
        r@ == b@.subrange(start as int, end as int),
{
    let mut out: Vec<u8> = Vec::new();
    let mut i: usize = start;
    while i < end
        invariant
            start <= i <= end <= b@.len(),
            out@ == b@.subrange(start as int, i as int),
        decreases end - i,
    {
        out.push(b[i]);
        proof {
            assert(out@ =~= b@.subrange(start as int, i as int + 1));
        }
        i = i + 1;
    }
    out
}

/// Appends all of `src` to `dst`.
pub fn append_bytes(dst: &mut Vec<u8>, src: &Vec<u8>)
    ensures
        final(dst)@ == old(dst)@ + src@,
{
    let mut i: usize = 0;
    while i < src.len()
        invariant
            i <= src@.len(),
            dst@ == old(dst)@ + src@.take(i as int),
        decreases src@.len() - i,
    {
        dst.push(src[i]);
        proof {
            assert(old(dst)@ + src@.take(i as int) + seq![src@[i as int]] =~= old(dst)@ + src@.take(
                i as int + 1,
            ));
        }
        i = i + 1;
    }
    proof {
        assert(src@.take(src@.len() as int) =~= src@);
    }
}

/// Builds the frame for `payload`: the little-endian length prefix followed
/// by the payload itself. A payload whose length reaches `u32::MAX` is
/// refused with `ExceedsSizeLimit` before anything touches the network.
pub fn encode_frame(payload: &Vec<u8>) -> (r: Result<Vec<u8>, FramedError>)
    ensures
        payload@.len() < u32::MAX ==> (r matches Ok(f) && f@ == spec_frame(payload@)),
        payload@.len() >= u32::MAX ==> (r matches Err(e) && e matches FramedError::ExceedsSizeLimit {
            packet_size,
            size_limit,
            ..
        } && packet_size == payload@.len() && size_limit == u32::MAX as usize),
{
    if payload.len() >= u32::MAX as usize {
        return Err(FramedError::ExceedsSizeLimit {
            packet_size: payload.len(),
            size_limit: u32::MAX as usize,
            reason: String::new(),
        });
    }
    let mut out = encode_u32_le(payload.len() as u32);
    append_bytes(&mut out, payload);
    Ok(out)
}

/// Parses a whole frame from the front of `buf`.
///
/// `buf` holds what has been read from the stream so far; when the stream
/// ended before a whole frame arrived, the error records exactly how many
/// bytes were expected and how many were received, for the prefix and for
/// the payload respectively.
pub fn parse_frame(buf: &Vec<u8>) -> (r: Result<(Vec<u8>, usize), TransmissionError>)
    ensures
        match r {
            Ok((payload, consumed)) => {
                &&& spec_parse_frame(buf@) == Some((payload@, consumed as int))
            },
            Err(e) => {
                &&& spec_parse_frame(buf@) is None
                &&& e matches TransmissionError::TransmissionEndedEarly {
                    expected_size,
                    received_size,
                    ..
                }
                &&& buf@.len() < 4 ==> expected_size == 4 && received_size == buf@.len()
                &&& buf@.len() >= 4 ==> expected_size == le_to_u32(buf@.take(4)) && received_size
                    == buf@.len() - 4
            },
        },
{
    if buf.len() < 4 {
        return Err(TransmissionError::TransmissionEndedEarly {
            expected_size: 4,
            received_size: buf.len(),
            reason: String::new(),
        });
    }
    let len = read_u32_le(buf, 0);
    proof {
        assert(buf@.subrange(0, 4) =~= buf@.take(4));
    }
    if buf.len() - 4 < len as usize {
        return Err(TransmissionError::TransmissionEndedEarly {
            expected_size: len as usize,
            received_size: buf.len() - 4,
            reason: String::new(),
        });
    }
    let payload = copy_range(buf, 4, 4 + len as usize);
    Ok((payload, 4 + len as usize))
}

} // verus!
