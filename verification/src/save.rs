//! What a saved game holds: the hero's overworld position, which
//! challengers have been beaten, and the audio settings.  Writing it to
//! the cartridge's battery-backed SRAM is the hardware side's job.
use vstd::prelude::*;

use crate::world_map::{HERO_START_X, HERO_START_Y};

verus! {

/// The save slot the game uses.
pub const SLOT: usize = 0;

/// Music volume of a new game.
pub const DEFAULT_MUSIC_VOLUME: u8 = 7;
/// Sound-effect volume of a new game.
pub const DEFAULT_SFX_VOLUME: u8 = 8;

/// A saved game.
#[derive(Clone, Copy, Debug)]
pub struct SaveData {
    /// Hero position in overworld pixels.
    pub hero_x: i32,
    pub hero_y: i32,
    /// Which of the five challengers have been beaten.
    pub beaten: [bool; 5],
    pub music_volume: u8,
    pub sfx_volume: u8,
}

impl Default for SaveData {
    /// A new game: the hero at the start of the road, nobody beaten,
    /// comfortable volumes.
    fn default() -> (d: Self)
        ensures
            d.hero_x == HERO_START_X,
            d.hero_y == HERO_START_Y,
            forall|i: int| 0 <= i < 5 ==> !#[trigger] d.beaten@[i],
            d.music_volume == DEFAULT_MUSIC_VOLUME,
            d.sfx_volume == DEFAULT_SFX_VOLUME,
    {
        SaveData {
            hero_x: HERO_START_X,
            hero_y: HERO_START_Y,
            beaten: [false; 5],
            music_volume: DEFAULT_MUSIC_VOLUME,
            sfx_volume: DEFAULT_SFX_VOLUME,
        }
    }
}

} // verus!
