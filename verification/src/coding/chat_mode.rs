//! The chat-mode codec: a varint that must be 0, 1 or 2.

use crate::client_settings::ChatMode;
use crate::coding::varint::{varint_parse, Varint};
use crate::error::ProtocolError;
use std::collections::VecDeque;
use vstd::prelude::*;

verus! {

/// The outcome of reading one chat mode, with the bytes consumed.
pub open spec fn chat_mode_scan(s: Seq<u8>) -> (Result<ChatMode, ProtocolError>, int) {
    let pre = varint_parse(s);
    (
        match pre.0 {
            Err(e) => Err(e),
            Ok(v) => {
                if v == 0 {
                    Ok(ChatMode::Enabled)
                } else if v == 1 {
                    Ok(ChatMode::CommandsOnly)
                } else if v == 2 {
                    Ok(ChatMode::Hidden)
                } else {
                    Err(ProtocolError::InvalidData)
                }
            },
        },
        pre.1,
    )
}

impl crate::coding::Decodeable<ChatMode, ProtocolError> for VecDeque<u8> {
    open spec fn decoded(pre: Seq<u8>, r: Result<ChatMode, ProtocolError>, post: Seq<u8>) -> bool {
        post == pre.skip(chat_mode_scan(pre).1) && r == chat_mode_scan(pre).0
    }

    fn decode(&mut self) -> (r: Result<ChatMode, ProtocolError>) {
        decode(self)
    }
}

/// Decodes one chat mode from the front of the queue.
pub fn decode(q: &mut VecDeque<u8>) -> (r: Result<ChatMode, ProtocolError>)
    ensures
        final(q)@ == old(q)@.skip(chat_mode_scan(old(q)@).1),
        r == chat_mode_scan(old(q)@).0,
{
    match Varint::decode(q) {
        Err(e) => Err(e),
        Ok(Varint(0)) => Ok(ChatMode::Enabled),
        Ok(Varint(1)) => Ok(ChatMode::CommandsOnly),
        Ok(Varint(2)) => Ok(ChatMode::Hidden),
        Ok(_) => Err(ProtocolError::InvalidData),
    }
}

} // verus!
