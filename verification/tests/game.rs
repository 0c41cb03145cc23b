use cyber_jum::audio::{Audio, MixerCommand, Music};
use cyber_jum::fixed::Vec2;
use cyber_jum::game::{after_challenge, after_title, after_world, Scene};
use cyber_jum::overworld::{EntryEvent, WorldResult};
use cyber_jum::platformer::LevelResult;
use cyber_jum::save::SaveData;
use cyber_jum::title::TitleResult;
use cyber_jum::world_map::{HERO_START_X, HERO_START_Y};

#[test]
fn a_new_game_keeps_the_current_volumes() {
    let mut audio = Audio::new(4, 6);
    let state = after_title(TitleResult::NewGame, &mut audio);
    assert_eq!(state.hero_pos, Vec2 { x: HERO_START_X, y: HERO_START_Y });
    assert_eq!(state.beaten, [false; 5]);
    assert_eq!((audio.music_volume(), audio.sfx_volume()), (4, 6));
    assert!(audio.frame().is_empty());
}

#[test]
fn continuing_restores_the_spot_and_the_volumes() {
    let mut audio = Audio::new(7, 8);
    audio.play_music(Music::Title);
    audio.frame();
    let data = SaveData { hero_x: 60, hero_y: 300, beaten: [true, false, true, false, false], music_volume: 3, sfx_volume: 12 };
    let state = after_title(TitleResult::Continue(data), &mut audio);
    assert_eq!(state.hero_pos, Vec2 { x: 60, y: 300 });
    assert_eq!(state.beaten, [true, false, true, false, false]);
    // Volumes are capped at the maximum; the playing title music follows.
    assert_eq!((audio.music_volume(), audio.sfx_volume()), (3, 10));
    assert_eq!(audio.frame(), vec![MixerCommand::SetMusicGain { gain: 76 }]);
}

#[test]
fn the_overworld_leads_to_challenges_the_ending_or_the_title() {
    assert_eq!(after_world(WorldResult::Challenge(3)), Scene::Challenge { level: 3 });
    assert_eq!(after_world(WorldResult::Finished), Scene::Ending);
    assert_eq!(after_world(WorldResult::QuitToTitle), Scene::Title);
}

#[test]
fn a_won_challenge_is_remembered() {
    let mut audio = Audio::new(7, 8);
    let mut state = after_title(TitleResult::NewGame, &mut audio);
    state.beaten[0] = true;
    let next = after_challenge(2, LevelResult::Won, &mut state);
    assert_eq!(next, Scene::World { entry: Some(EntryEvent::WonLevel(2)) });
    assert_eq!(state.beaten, [true, false, true, false, false]);
    let next = after_challenge(4, LevelResult::Lost, &mut state);
    assert_eq!(next, Scene::World { entry: Some(EntryEvent::LostLevel) });
    assert_eq!(state.beaten, [true, false, true, false, false]);
}

#[test]
fn saving_then_continuing_gives_back_the_game() {
    let mut audio = Audio::new(3, 9);
    let mut state = after_title(TitleResult::NewGame, &mut audio);
    state.hero_pos = Vec2 { x: 90, y: 450 };
    state.beaten[3] = true;
    let saved = state.to_save(&audio);
    let mut later = Audio::new(7, 8);
    let back = after_title(TitleResult::Continue(saved), &mut later);
    assert_eq!(back.hero_pos, state.hero_pos);
    assert_eq!(back.beaten, state.beaten);
    assert_eq!((later.music_volume(), later.sfx_volume()), (3, 9));
}
