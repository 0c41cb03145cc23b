//! The scene flow of a play session:
//!
//!   title ──new game / continue──▶ overworld ──challenged──▶ platformer
//!     ▲                                │  ▲                      │
//!     └────────── quit / ending ◀─────┘  └──── won / lost ◀─────┘
//!
//! Each scene runs until it reports how it ended; these functions decide
//! what comes next.
use vstd::prelude::*;

use crate::audio::{capped, Audio};
use crate::overworld::{world_of, EntryEvent, WorldResult, WorldState};
use crate::platformer::LevelResult;
use crate::save::SaveData;
use crate::title::TitleResult;
use crate::world_map::{HERO_START_X, HERO_START_Y, NPC_COUNT};

verus! {

/// The scene to run next.
#[derive(Clone, Copy, PartialEq, Eq, Structural, Debug)]
pub enum Scene {
    Title,
    /// The overworld, entered after `entry` (nothing on a fresh start).
    World { entry: Option<EntryEvent> },
    /// The platformer level of challenger `level`.
    Challenge { level: usize },
    /// The congratulations screen.
    Ending,
}

/// The overworld a title choice starts: a new game at the start of the
/// road with nobody beaten, or the saved game with its volumes restored.
pub fn after_title(result: TitleResult, audio: &mut Audio) -> (state: WorldState)
    ensures
        final(audio).music_playing == old(audio).music_playing,
        match result {
            TitleResult::NewGame => {
                &&& state.hero_pos.x == HERO_START_X
                &&& state.hero_pos.y == HERO_START_Y
                &&& forall|i: int| 0 <= i < 5 ==> !#[trigger] state.beaten@[i]
                &&& final(audio).music_volume == old(audio).music_volume
                &&& final(audio).sfx_volume == old(audio).sfx_volume
                &&& final(audio).pending@ == old(audio).pending@
            },
            TitleResult::Continue(data) => {
                &&& state == world_of(data)
                &&& final(audio).music_volume == capped(data.music_volume)
                &&& final(audio).sfx_volume == capped(data.sfx_volume)
                &&& final(audio).pending@ == if old(audio).music_playing {
                    old(audio).pending@.push(
                        crate::audio::MixerCommand::SetMusicGain { gain: crate::audio::spec_gain(capped(data.music_volume)) },
                    )
                } else {
                    old(audio).pending@
                }
            },
        },
{
    match result {
        TitleResult::NewGame => WorldState::from_save(&SaveData::default()),
        TitleResult::Continue(data) => {
            audio.set_music_volume(data.music_volume);
            audio.set_sfx_volume(data.sfx_volume);
            WorldState::from_save(&data)
        },
    }
}

/// Where the overworld leads: into challenger `n`'s level, to the ending
/// once the road is finished, or back to the title.
pub fn after_world(result: WorldResult) -> (next: Scene)
    ensures
        next == match result {
            WorldResult::Challenge(n) => Scene::Challenge { level: n },
            WorldResult::Finished => Scene::Ending,
            WorldResult::QuitToTitle => Scene::Title,
        },
{
    match result {
        WorldResult::Challenge(level) => Scene::Challenge { level },
        WorldResult::Finished => Scene::Ending,
        WorldResult::QuitToTitle => Scene::Title,
    }
}

/// Back to the overworld after challenger `level`'s platformer: a win
/// marks the challenger beaten (and nobody else changes); a loss changes
/// nothing here (the overworld sends the hero back to the start).
pub fn after_challenge(level: usize, result: LevelResult, state: &mut WorldState) -> (next: Scene)
    requires
        level < NPC_COUNT,
    ensures
        final(state).hero_pos == old(state).hero_pos,
        match result {
            LevelResult::Won => {
                &&& next == Scene::World { entry: Some(EntryEvent::WonLevel(level)) }
                &&& final(state).beaten@ == old(state).beaten@.update(level as int, true)
            },
            LevelResult::Lost => {
                &&& next == Scene::World { entry: Some(EntryEvent::LostLevel) }
                &&& final(state).beaten == old(state).beaten
            },
        },
{
    match result {
        LevelResult::Won => {
            state.beaten[level] = true;
            Scene::World { entry: Some(EntryEvent::WonLevel(level)) }
        },
        LevelResult::Lost => Scene::World { entry: Some(EntryEvent::LostLevel) },
    }
}

} // verus!
