//! The signed 32-bit codec: four bytes, big-endian, two's-complement.

use crate::coding::varint::i32_bits;
use crate::coding::{be_bytes, encode_be};
use std::collections::VecDeque;
use vstd::prelude::*;

verus! {

/// The four-byte wire form of an int.
pub open spec fn int_bytes(v: i32) -> Seq<u8> {
    be_bytes(i32_bits(v), 4)
}

impl crate::coding::Encodeable for i32 {
    open spec fn encodable(&self) -> bool {
        true
    }

    open spec fn encoding(&self) -> Seq<u8> {
        int_bytes(*self)
    }

    fn encode(&self) -> (r: VecDeque<u8>) {
        encode(*self)
    }
}

/// Encodes an int as its four-byte big-endian two's-complement form.
pub fn encode(v: i32) -> (r: VecDeque<u8>)
    ensures
        r@ == int_bytes(v),
{
    let bits: u32 = if v >= 0 {
        v as u32
    } else {
        ((v as i64) + 0x1_0000_0000) as u32
    };
    let mut out: VecDeque<u8> = VecDeque::new();
    encode_be(bits as u64, 4, &mut out);
    assert(out@ =~= int_bytes(v));
    out
}

} // verus!
