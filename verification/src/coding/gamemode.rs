//! The gamemode codec: one byte.

use std::collections::VecDeque;
use vstd::prelude::*;

verus! {

/// The play mode announced to a joining client.
#[derive(PartialEq, Eq, Structural, Clone, Copy, Debug)]
pub enum Gamemode {
    Survival,
    Creative,
    Adventure,
    Hardcore,
}

/// The single wire byte of a gamemode.
pub open spec fn gamemode_byte(g: Gamemode) -> u8 {
    match g {
        Gamemode::Survival => 0x00,
        Gamemode::Creative => 0x01,
        Gamemode::Adventure => 0x02,
        Gamemode::Hardcore => 0x08,
    }
}

impl crate::coding::Encodeable for Gamemode {
    open spec fn encodable(&self) -> bool {
        true
    }

    open spec fn encoding(&self) -> Seq<u8> {
        seq![gamemode_byte(*self)]
    }

    fn encode(&self) -> (r: VecDeque<u8>) {
        encode(self)
    }
}

/// Encodes a gamemode as its single wire byte.
pub fn encode(g: &Gamemode) -> (r: VecDeque<u8>)
    ensures
        r@ == seq![gamemode_byte(*g)],
{
    let byte: u8 = match g {
        Gamemode::Survival => 0x00,
        Gamemode::Creative => 0x01,
        Gamemode::Adventure => 0x02,
        Gamemode::Hardcore => 0x08,
    };
    let mut out: VecDeque<u8> = VecDeque::new();
    out.push_back(byte);
    assert(out@ =~= seq![gamemode_byte(*g)]);
    out
}

} // verus!
