//! A block position in the world: three signed integers packed into one
//! 64-bit word on the wire (`x`: 26 bits, `y`: 12 bits, `z`: 26 bits).

use vstd::prelude::*;

verus! {

/// A 3D coordinate.  On the wire the three fields are masked to their bit
/// widths and packed into a single long.
#[derive(PartialEq, Eq, Structural, Clone, Copy, Debug)]
pub struct Location {
    pub x: i32,
    pub y: i16,
    pub z: i32,
}

impl Default for Location {
    /// The world origin.
    fn default() -> (r: Location)
        ensures
            r == (Location { x: 0, y: 0, z: 0 }),
    {
        Location { x: 0, y: 0, z: 0 }
    }
}

} // verus!
