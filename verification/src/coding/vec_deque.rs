//! Raw byte queues as wire values: they encode to themselves, and
//! "decoding" one takes a copy of everything that remains.

use crate::coding::{Decodeable, Encodeable};
use crate::error::ProtocolError;
use std::collections::VecDeque;
use vstd::prelude::*;

verus! {

impl Encodeable for VecDeque<u8> {
    open spec fn encodable(&self) -> bool {
        true
    }

    open spec fn encoding(&self) -> Seq<u8> {
        self@
    }

    fn encode(&self) -> (r: VecDeque<u8>) {
        copy_bytes(self)
    }
}

impl Decodeable<VecDeque<u8>, ProtocolError> for VecDeque<u8> {
    open spec fn decoded(pre: Seq<u8>, r: Result<VecDeque<u8>, ProtocolError>, post: Seq<u8>) -> bool {
        post == pre && (r matches Ok(d) && d@ == pre)
    }

    fn decode(&mut self) -> (r: Result<VecDeque<u8>, ProtocolError>) {
        Ok(copy_bytes(self))
    }
}

/// A copy of a byte queue.
pub fn copy_bytes(q: &VecDeque<u8>) -> (r: VecDeque<u8>)
    ensures
        r@ == q@,
{
    let mut out: VecDeque<u8> = VecDeque::new();
    let n = q.len();
    let mut i: usize = 0;
    while i < n
        invariant
            i <= n,
            n == q@.len(),
            out@ == q@.take(i as int),
        decreases n - i,
    {
        out.push_back(q[i]);
        proof {
            assert(q@.take(i as int + 1) =~= q@.take(i as int).push(q@[i as int]));
        }
        i = i + 1;
    }
    proof {
        assert(q@.take(n as int) =~= q@);
    }
    out
}

} // verus!
