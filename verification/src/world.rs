//! The world a player joins: the handful of properties that are actually
//! serialized into the join-game packet.

use crate::coding::gamemode::Gamemode;
use crate::coding::level_type::LevelType;
use crate::difficulty::Difficulty;
use crate::dimension::Dimension;
use vstd::prelude::*;

verus! {

/// The serialized world properties.
#[derive(PartialEq, Eq, Structural, Clone, Copy, Debug)]
pub struct World {
    pub gamemode: Gamemode,
    pub dimension: Dimension,
    pub difficulty: Difficulty,
    pub level_type: LevelType,
}

impl Default for World {
    /// A peaceful creative flat overworld.
    fn default() -> (r: World)
        ensures
            r == (World {
                gamemode: Gamemode::Creative,
                dimension: Dimension::Overworld,
                difficulty: Difficulty::Peaceful,
                level_type: LevelType::Flat,
            }),
    {
        World {
            gamemode: Gamemode::Creative,
            dimension: Dimension::Overworld,
            difficulty: Difficulty::Peaceful,
            level_type: LevelType::Flat,
        }
    }
}

} // verus!
