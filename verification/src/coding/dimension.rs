//! The dimension codec: a four-byte big-endian int, -1 through 1.

use crate::coding::integer::int_bytes;
use crate::dimension::Dimension;
use std::collections::VecDeque;
use vstd::prelude::*;

verus! {

/// The numeric value of a dimension on the wire.
pub open spec fn dimension_value(d: Dimension) -> i32 {
    match d {
        Dimension::Nether => -1i32,
        Dimension::Overworld => 0,
        Dimension::End => 1,
    }
}

impl crate::coding::Encodeable for Dimension {
    open spec fn encodable(&self) -> bool {
        true
    }

    open spec fn encoding(&self) -> Seq<u8> {
        int_bytes(dimension_value(*self))
    }

    fn encode(&self) -> (r: VecDeque<u8>) {
        encode(self)
    }
}

/// Encodes a dimension as a big-endian int.
pub fn encode(d: &Dimension) -> (r: VecDeque<u8>)
    ensures
        r@ == int_bytes(dimension_value(*d)),
{
    let value: i32 = match d {
        Dimension::Nether => -1i32,
        Dimension::Overworld => 0,
        Dimension::End => 1,
    };
    crate::coding::integer::encode(value)
}

} // verus!
