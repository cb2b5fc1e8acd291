//! The single-byte codecs: the unsigned byte is the wire byte itself, the
//! signed byte is its two's-complement reading.

use crate::error::ProtocolError;
use std::collections::VecDeque;
use vstd::prelude::*;

verus! {

/// The signed value whose 8-bit two's-complement representation is `b`.
pub open spec fn byte_as_i8(b: u8) -> i8 {
    if b < 128 {
        b as i8
    } else {
        (b - 256) as i8
    }
}

/// The 8-bit two's-complement representation of `v`.
pub open spec fn i8_bits(v: i8) -> u8 {
    if v >= 0 {
        v as u8
    } else {
        (v + 256) as u8
    }
}

/// The outcome of reading one unsigned byte, with the bytes consumed.
pub open spec fn ubyte_scan(s: Seq<u8>) -> (Result<u8, ProtocolError>, int) {
    if s.len() == 0 {
        (Err(ProtocolError::Truncated), 0)
    } else {
        (Ok(s[0]), 1)
    }
}

/// The outcome of reading one signed byte, with the bytes consumed.
pub open spec fn sbyte_scan(s: Seq<u8>) -> (Result<i8, ProtocolError>, int) {
    if s.len() == 0 {
        (Err(ProtocolError::Truncated), 0)
    } else {
        (Ok(byte_as_i8(s[0])), 1)
    }
}

impl crate::coding::Decodeable<u8, ProtocolError> for VecDeque<u8> {
    open spec fn decoded(pre: Seq<u8>, r: Result<u8, ProtocolError>, post: Seq<u8>) -> bool {
        post == pre.skip(ubyte_scan(pre).1) && r == ubyte_scan(pre).0
    }

    fn decode(&mut self) -> (r: Result<u8, ProtocolError>) {
        decode_unsigned(self)
    }
}

impl crate::coding::Decodeable<i8, ProtocolError> for VecDeque<u8> {
    open spec fn decoded(pre: Seq<u8>, r: Result<i8, ProtocolError>, post: Seq<u8>) -> bool {
        post == pre.skip(sbyte_scan(pre).1) && r == sbyte_scan(pre).0
    }

    fn decode(&mut self) -> (r: Result<i8, ProtocolError>) {
        decode_signed(self)
    }
}

impl crate::coding::Encodeable for u8 {
    open spec fn encodable(&self) -> bool {
        true
    }

    open spec fn encoding(&self) -> Seq<u8> {
        seq![*self]
    }

    fn encode(&self) -> (r: VecDeque<u8>) {
        encode_unsigned(*self)
    }
}

impl crate::coding::Encodeable for i8 {
    open spec fn encodable(&self) -> bool {
        true
    }

    open spec fn encoding(&self) -> Seq<u8> {
        seq![i8_bits(*self)]
    }

    fn encode(&self) -> (r: VecDeque<u8>) {
        encode_signed(*self)
    }
}

/// Decodes one unsigned byte from the front of the queue.
pub fn decode_unsigned(q: &mut VecDeque<u8>) -> (r: Result<u8, ProtocolError>)
    ensures
        final(q)@ == old(q)@.skip(ubyte_scan(old(q)@).1),
        r == ubyte_scan(old(q)@).0,
{
    let r = match q.pop_front() {
        None => Err(ProtocolError::Truncated),
        Some(b) => Ok(b),
    };
    assert(q@ =~= old(q)@.skip(ubyte_scan(old(q)@).1));
    r
}

/// Decodes one signed byte from the front of the queue.
pub fn decode_signed(q: &mut VecDeque<u8>) -> (r: Result<i8, ProtocolError>)
    ensures
        final(q)@ == old(q)@.skip(sbyte_scan(old(q)@).1),
        r == sbyte_scan(old(q)@).0,
{
    let r = match q.pop_front() {
        None => Err(ProtocolError::Truncated),
        Some(b) => Ok(
            if b < 128 {
                b as i8
            } else {
                ((b as i16) - 256) as i8
            },
        ),
    };
    assert(q@ =~= old(q)@.skip(sbyte_scan(old(q)@).1));
    r
}

/// Encodes an unsigned byte: the byte itself.
pub fn encode_unsigned(v: u8) -> (r: VecDeque<u8>)
    ensures
        r@ == seq![v],
{
    let mut out: VecDeque<u8> = VecDeque::new();
    out.push_back(v);
    assert(out@ =~= seq![v]);
    out
}

/// Encodes a signed byte as its two's-complement wire byte.
pub fn encode_signed(v: i8) -> (r: VecDeque<u8>)
    ensures
        r@ == seq![i8_bits(v)],
{
    let byte: u8 = if v >= 0 {
        v as u8
    } else {
        ((v as i16) + 256) as u8
    };
    let mut out: VecDeque<u8> = VecDeque::new();
    out.push_back(byte);
    assert(out@ =~= seq![i8_bits(v)]);
    out
}

} // verus!
