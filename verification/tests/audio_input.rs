use cyber_jum::audio::{gain, Audio, MixerCommand, Music, Sfx, MAX_VOLUME};
use cyber_jum::input::{Button, ButtonController};

#[test]
fn gain_is_volume_over_ten_in_fixed_point() {
    assert_eq!(gain(0), 0);
    assert_eq!(gain(10), 256);
    assert_eq!(gain(7), 179);
    assert_eq!(gain(5), 128);
}

#[test]
fn gain_counts_huge_volumes_as_the_maximum() {
    assert_eq!(gain(11), 256);
    assert_eq!(gain(128), 256);
    assert_eq!(gain(255), 256);
}

#[test]
fn new_audio_caps_its_volumes() {
    let audio = Audio::new(200, 11);
    assert_eq!(audio.music_volume(), MAX_VOLUME);
    assert_eq!(audio.sfx_volume(), MAX_VOLUME);
    let audio = Audio::new(10, 0);
    assert_eq!((audio.music_volume(), audio.sfx_volume()), (10, 0));
}

#[test]
fn new_audio_is_silent() {
    let mut audio = Audio::new(7, 8);
    assert!(!audio.music_playing);
    assert_eq!(audio.music_volume(), 7);
    assert_eq!(audio.sfx_volume(), 8);
    assert!(audio.frame().is_empty());
}

#[test]
fn play_music_replaces_the_running_track() {
    let mut audio = Audio::new(10, 8);
    audio.play_music(Music::Title);
    assert_eq!(audio.frame(), vec![MixerCommand::PlayMusic { track: Music::Title, gain: 256 }]);
    audio.play_music(Music::Overworld);
    assert_eq!(
        audio.frame(),
        vec![MixerCommand::StopMusic, MixerCommand::PlayMusic { track: Music::Overworld, gain: 256 }]
    );
    assert!(audio.music_playing);
}

#[test]
fn stop_music_only_stops_when_playing() {
    let mut audio = Audio::new(5, 5);
    audio.stop_music();
    assert!(audio.frame().is_empty());
    audio.play_music(Music::Platform);
    audio.frame();
    audio.stop_music();
    assert_eq!(audio.frame(), vec![MixerCommand::StopMusic]);
    assert!(!audio.music_playing);
}

#[test]
fn muted_effects_are_not_played() {
    let mut audio = Audio::new(5, 0);
    audio.sfx(Sfx::Jump);
    assert!(audio.frame().is_empty());
    audio.set_sfx_volume(5);
    audio.sfx(Sfx::Jump);
    assert_eq!(audio.frame(), vec![MixerCommand::PlaySfx { effect: Sfx::Jump, gain: 128 }]);
}

#[test]
fn volumes_are_capped_and_applied_live() {
    let mut audio = Audio::new(5, 5);
    audio.set_music_volume(20);
    assert_eq!(audio.music_volume(), MAX_VOLUME);
    assert!(audio.frame().is_empty(), "nothing to adjust while no music plays");
    audio.play_music(Music::Title);
    audio.frame();
    audio.set_music_volume(5);
    assert_eq!(audio.frame(), vec![MixerCommand::SetMusicGain { gain: 128 }]);
    audio.set_sfx_volume(11);
    assert_eq!(audio.sfx_volume(), MAX_VOLUME);
    assert!(audio.frame().is_empty());
}

#[test]
fn buttons_track_presses_and_releases() {
    let mut c = ButtonController::new(0);
    assert!(!c.is_pressed(Button::A));
    c.update_with_state(Button::A.mask() | Button::Left.mask());
    assert!(c.is_pressed(Button::A));
    assert!(c.is_just_pressed(Button::A));
    assert!(!c.is_just_released(Button::A));
    assert_eq!(c.x_tri(), -1);
    c.update_with_state(Button::Left.mask());
    assert!(!c.is_pressed(Button::A));
    assert!(!c.is_just_pressed(Button::Left));
    assert!(c.is_just_released(Button::A));
}

#[test]
fn opposite_directions_cancel() {
    let c = ButtonController::new(
        Button::Left.mask() | Button::Right.mask() | Button::Down.mask(),
    );
    assert_eq!(c.x_tri(), 0);
    assert_eq!(c.y_tri(), 1);
    let c = ButtonController::new(Button::Up.mask() | Button::Right.mask());
    assert_eq!(c.x_tri(), 1);
    assert_eq!(c.y_tri(), -1);
}

#[test]
fn button_masks_follow_the_key_register() {
    assert_eq!(Button::A.mask(), 1);
    assert_eq!(Button::Start.mask(), 8);
    assert_eq!(Button::Down.mask(), 128);
    assert_eq!(Button::L.mask(), 512);
}
