//! The signed 64-bit codec: eight bytes, big-endian, two's-complement.

use crate::coding::{be_bytes, be_val, decode_be, encode_be, lemma_be_val_bound, lemma_pow256_8};
use crate::error::ProtocolError;
use std::collections::VecDeque;
use vstd::prelude::*;

verus! {

/// The 64-bit two's-complement representation of `v`, as a natural number.
pub open spec fn i64_bits(v: i64) -> nat {
    if v >= 0 {
        v as nat
    } else {
        (v + 0x1_0000_0000_0000_0000) as nat
    }
}

/// The signed value whose 64-bit two's-complement representation is `n`.
pub open spec fn bits_to_i64(n: nat) -> i64
    recommends
        n < 0x1_0000_0000_0000_0000,
{
    if n < 0x8000_0000_0000_0000 {
        n as i64
    } else {
        (n - 0x1_0000_0000_0000_0000) as i64
    }
}

/// The eight-byte wire form of a long.
pub open spec fn long_bytes(v: i64) -> Seq<u8> {
    be_bytes(i64_bits(v), 8)
}

/// The outcome of reading one long, with the bytes consumed.
pub open spec fn long_scan(s: Seq<u8>) -> (Result<i64, ProtocolError>, int) {
    if s.len() < 8 {
        (Err(ProtocolError::Truncated), 0)
    } else {
        (Ok(bits_to_i64(be_val(s.take(8)))), 8)
    }
}

impl crate::coding::Decodeable<i64, ProtocolError> for VecDeque<u8> {
    open spec fn decoded(pre: Seq<u8>, r: Result<i64, ProtocolError>, post: Seq<u8>) -> bool {
        post == pre.skip(long_scan(pre).1) && r == long_scan(pre).0
    }

    fn decode(&mut self) -> (r: Result<i64, ProtocolError>) {
        decode(self)
    }
}

impl crate::coding::Encodeable for i64 {
    open spec fn encodable(&self) -> bool {
        true
    }

    open spec fn encoding(&self) -> Seq<u8> {
        long_bytes(*self)
    }

    fn encode(&self) -> (r: VecDeque<u8>) {
        encode(*self)
    }
}

/// Decodes one big-endian long from the front of the queue.
pub fn decode(q: &mut VecDeque<u8>) -> (r: Result<i64, ProtocolError>)
    ensures
        final(q)@ == old(q)@.skip(long_scan(old(q)@).1),
        r == long_scan(old(q)@).0,
{
    match decode_be(q, 8) {
        Err(e) => {
            assert(q@ =~= old(q)@.skip(0));
            Err(e)
        },
        Ok(bits) => {
            proof {
                lemma_be_val_bound(old(q)@.take(8));
                lemma_pow256_8();
            }
            let value: i64 = if bits < 0x8000_0000_0000_0000 {
                bits as i64
            } else {
                ((bits as i128) - 0x1_0000_0000_0000_0000) as i64
            };
            Ok(value)
        },
    }
}

/// Encodes a long as its eight-byte big-endian two's-complement form.
pub fn encode(v: i64) -> (r: VecDeque<u8>)
    ensures
        r@ == long_bytes(v),
{
    let bits: u64 = if v >= 0 {
        v as u64
    } else {
        ((v as i128) + 0x1_0000_0000_0000_0000) as u64
    };
    let mut out: VecDeque<u8> = VecDeque::new();
    encode_be(bits, 8, &mut out);
    assert(out@ =~= long_bytes(v));
    out
}

/// The long codec is lossless: decoding the encoding of any `i64` yields
/// the value back and consumes all eight bytes.
pub proof fn lemma_long_round_trip(v: i64)
    ensures
        long_bytes(v).len() == 8,
        long_scan(long_bytes(v)) == (Ok::<i64, ProtocolError>(v), 8int),
{
    crate::coding::lemma_be_bytes_len(i64_bits(v), 8);
    lemma_pow256_8();
    crate::coding::lemma_be_round_trip(i64_bits(v), 8);
    assert(long_bytes(v).take(8) =~= long_bytes(v));
}

} // verus!
