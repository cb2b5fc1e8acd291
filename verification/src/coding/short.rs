//! The unsigned 16-bit codec: two bytes, big-endian.

use crate::coding::{be_val, decode_be};
use crate::error::ProtocolError;
use std::collections::VecDeque;
use vstd::prelude::*;

verus! {

/// The outcome of reading one unsigned short, with the bytes consumed.
pub open spec fn ushort_scan(s: Seq<u8>) -> (Result<u16, ProtocolError>, int) {
    if s.len() < 2 {
        (Err(ProtocolError::Truncated), 0)
    } else {
        (Ok((s[0] * 256 + s[1]) as u16), 2)
    }
}

impl crate::coding::Decodeable<u16, ProtocolError> for VecDeque<u8> {
    open spec fn decoded(pre: Seq<u8>, r: Result<u16, ProtocolError>, post: Seq<u8>) -> bool {
        post == pre.skip(ushort_scan(pre).1) && r == ushort_scan(pre).0
    }

    fn decode(&mut self) -> (r: Result<u16, ProtocolError>) {
        decode_unsigned(self)
    }
}

/// Decodes one big-endian unsigned short from the front of the queue.
pub fn decode_unsigned(q: &mut VecDeque<u8>) -> (r: Result<u16, ProtocolError>)
    ensures
        final(q)@ == old(q)@.skip(ushort_scan(old(q)@).1),
        r == ushort_scan(old(q)@).0,
{
    proof {
        if old(q)@.len() >= 2 {
            let t = old(q)@.take(2);
            assert(t.drop_last() =~= seq![old(q)@[0]]);
            assert(seq![old(q)@[0]].drop_last() =~= Seq::<u8>::empty());
            assert(be_val(Seq::<u8>::empty()) == 0);
            assert(be_val(seq![old(q)@[0]]) == old(q)@[0]);
            assert(t.last() == old(q)@[1]);
            assert(be_val(t) == old(q)@[0] * 256 + old(q)@[1]);
        }
    }
    match decode_be(q, 2) {
        Err(e) => {
            assert(q@ =~= old(q)@.skip(0));
            Err(e)
        },
        Ok(v) => {
            proof {
                crate::coding::lemma_be_val_bound(old(q)@.take(2));
                crate::coding::lemma_pow256_8();
            }
            Ok(v as u16)
        },
    }
}

} // verus!
