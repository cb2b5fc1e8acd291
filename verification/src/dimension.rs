//! The dimension a player spawns into.

use vstd::prelude::*;

verus! {

/// The dimension announced to a joining client.
#[derive(PartialEq, Eq, Structural, Clone, Copy, Debug)]
pub enum Dimension {
    Nether,
    Overworld,
    End,
}

} // verus!
