//! The main-hand codec: a varint that must be 0 (left) or 1 (right).

use crate::client_settings::MainHand;
use crate::coding::varint::{varint_parse, Varint};
use crate::error::ProtocolError;
use std::collections::VecDeque;
use vstd::prelude::*;

verus! {

/// The outcome of reading one main hand, with the bytes consumed.
pub open spec fn main_hand_scan(s: Seq<u8>) -> (Result<MainHand, ProtocolError>, int) {
    let pre = varint_parse(s);
    (
        match pre.0 {
            Err(e) => Err(e),
            Ok(v) => {
                if v == 0 {
                    Ok(MainHand::Left)
                } else if v == 1 {
                    Ok(MainHand::Right)
                } else {
                    Err(ProtocolError::InvalidData)
                }
            },
        },
        pre.1,
    )
}

impl crate::coding::Decodeable<MainHand, ProtocolError> for VecDeque<u8> {
    open spec fn decoded(pre: Seq<u8>, r: Result<MainHand, ProtocolError>, post: Seq<u8>) -> bool {
        post == pre.skip(main_hand_scan(pre).1) && r == main_hand_scan(pre).0
    }

    fn decode(&mut self) -> (r: Result<MainHand, ProtocolError>) {
        decode(self)
    }
}

/// Decodes one main hand from the front of the queue.
pub fn decode(q: &mut VecDeque<u8>) -> (r: Result<MainHand, ProtocolError>)
    ensures
        final(q)@ == old(q)@.skip(main_hand_scan(old(q)@).1),
        r == main_hand_scan(old(q)@).0,
{
    match Varint::decode(q) {
        Err(e) => Err(e),
        Ok(Varint(0)) => Ok(MainHand::Left),
        Ok(Varint(1)) => Ok(MainHand::Right),
        Ok(_) => Err(ProtocolError::InvalidData),
    }
}

} // verus!
