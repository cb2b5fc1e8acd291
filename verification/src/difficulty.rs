//! The world's difficulty setting.

use vstd::prelude::*;

verus! {

/// The difficulty announced to a joining client.
#[derive(PartialEq, Eq, Structural, Clone, Copy, Debug)]
pub enum Difficulty {
    Peaceful,
    Easy,
    Normal,
    Hard,
}

impl Default for Difficulty {
    fn default() -> (r: Difficulty)
        ensures
            r == Difficulty::Peaceful,
    {
        Difficulty::Peaceful
    }
}

} // verus!
