//! The boolean codec: one byte, exactly `0x00` or `0x01`; any other byte
//! is invalid data.

use crate::error::ProtocolError;
use std::collections::VecDeque;
use vstd::prelude::*;

verus! {

/// The outcome of reading one boolean from the front of `s`, with the
/// number of bytes consumed.
pub open spec fn bool_scan(s: Seq<u8>) -> (Result<bool, ProtocolError>, int) {
    if s.len() == 0 {
        (Err(ProtocolError::Truncated), 0)
    } else if s[0] == 0x01 {
        (Ok(true), 1)
    } else if s[0] == 0x00 {
        (Ok(false), 1)
    } else {
        (Err(ProtocolError::InvalidData), 1)
    }
}

/// The wire form of a boolean.
pub open spec fn bool_bytes(v: bool) -> Seq<u8> {
    if v {
        seq![0x01u8]
    } else {
        seq![0x00u8]
    }
}

impl crate::coding::Decodeable<bool, ProtocolError> for VecDeque<u8> {
    open spec fn decoded(pre: Seq<u8>, r: Result<bool, ProtocolError>, post: Seq<u8>) -> bool {
        post == pre.skip(bool_scan(pre).1) && r == bool_scan(pre).0
    }

    fn decode(&mut self) -> (r: Result<bool, ProtocolError>) {
        decode(self)
    }
}

impl crate::coding::Encodeable for bool {
    open spec fn encodable(&self) -> bool {
        true
    }

    open spec fn encoding(&self) -> Seq<u8> {
        bool_bytes(*self)
    }

    fn encode(&self) -> (r: VecDeque<u8>) {
        encode(*self)
    }
}

/// Decodes one boolean from the front of the queue.
pub fn decode(q: &mut VecDeque<u8>) -> (r: Result<bool, ProtocolError>)
    ensures
        final(q)@ == old(q)@.skip(bool_scan(old(q)@).1),
        r == bool_scan(old(q)@).0,
{
    let r = match q.pop_front() {
        None => Err(ProtocolError::Truncated),
        Some(0x01) => Ok(true),
        Some(0x00) => Ok(false),
        Some(_) => Err(ProtocolError::InvalidData),
    };
    assert(q@ =~= old(q)@.skip(bool_scan(old(q)@).1));
    r
}

/// Encodes a boolean as its single wire byte.
pub fn encode(v: bool) -> (r: VecDeque<u8>)
    ensures
        r@ == bool_bytes(v),
{
    let mut out: VecDeque<u8> = VecDeque::new();
    out.push_back(if v { 0x01 } else { 0x00 });
    assert(out@ =~= bool_bytes(v));
    out
}

} // verus!
