//! The level-type codec: the level type's name as a length-prefixed
//! string.

use crate::coding::string::{encode_str, string_bytes};
use std::collections::VecDeque;
use vstd::prelude::*;

verus! {

/// The shape of the world the client should expect.
#[derive(PartialEq, Eq, Structural, Clone, Copy, Debug)]
pub enum LevelType {
    Default,
    Flat,
    LargeBiomes,
    Amplified,
    Default1_1,
}

impl LevelType {
    /// The protocol name of this level type.
    pub fn name(&self) -> (r: &'static str)
        ensures
            r@ == level_type_name(*self),
    {
        match self {
            LevelType::Default => "default",
            LevelType::Flat => "flat",
            LevelType::LargeBiomes => "largeBiomes",
            LevelType::Amplified => "amplified",
            LevelType::Default1_1 => "default_1_1",
        }
    }
}

/// The protocol name of a level type, as characters.
pub open spec fn level_type_name(lt: LevelType) -> Seq<char> {
    match lt {
        LevelType::Default => "default"@,
        LevelType::Flat => "flat"@,
        LevelType::LargeBiomes => "largeBiomes"@,
        LevelType::Amplified => "amplified"@,
        LevelType::Default1_1 => "default_1_1"@,
    }
}

/// The wire form of a level type: its name as a length-prefixed string.
pub open spec fn level_type_bytes(lt: LevelType) -> Seq<u8> {
    string_bytes(level_type_name(lt))
}

impl crate::coding::Encodeable for LevelType {
    open spec fn encodable(&self) -> bool {
        true
    }

    open spec fn encoding(&self) -> Seq<u8> {
        level_type_bytes(*self)
    }

    fn encode(&self) -> (r: VecDeque<u8>) {
        encode(self)
    }
}

/// Encodes a level type as its length-prefixed name.
pub fn encode(lt: &LevelType) -> (r: VecDeque<u8>)
    ensures
        r@ == level_type_bytes(*lt),
{
    let name = lt.name();
    proof {
        reveal_strlit("default");
        reveal_strlit("flat");
        reveal_strlit("largeBiomes");
        reveal_strlit("amplified");
        reveal_strlit("default_1_1");
    }
    encode_str(name)
}

} // verus!
