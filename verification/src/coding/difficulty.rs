//! The difficulty codec: one byte, 0 through 3.

use crate::difficulty::Difficulty;
use std::collections::VecDeque;
use vstd::prelude::*;

verus! {

/// The single wire byte of a difficulty.
pub open spec fn difficulty_byte(d: Difficulty) -> u8 {
    match d {
        Difficulty::Peaceful => 0x00,
        Difficulty::Easy => 0x01,
        Difficulty::Normal => 0x02,
        Difficulty::Hard => 0x03,
    }
}

impl crate::coding::Encodeable for Difficulty {
    open spec fn encodable(&self) -> bool {
        true
    }

    open spec fn encoding(&self) -> Seq<u8> {
        seq![difficulty_byte(*self)]
    }

    fn encode(&self) -> (r: VecDeque<u8>) {
        encode(self)
    }
}

/// Encodes a difficulty as its single wire byte.
pub fn encode(d: &Difficulty) -> (r: VecDeque<u8>)
    ensures
        r@ == seq![difficulty_byte(*d)],
{
    let byte: u8 = match d {
        Difficulty::Peaceful => 0x00,
        Difficulty::Easy => 0x01,
        Difficulty::Normal => 0x02,
        Difficulty::Hard => 0x03,
    };
    let mut out: VecDeque<u8> = VecDeque::new();
    out.push_back(byte);
    assert(out@ =~= seq![difficulty_byte(*d)]);
    out
}

} // verus!
