use cyber_jum::audio::{Audio, MixerCommand, Music};
use cyber_jum::input::{Button, ButtonController};
use cyber_jum::save::{SaveData, DEFAULT_MUSIC_VOLUME, DEFAULT_SFX_VOLUME, SLOT};
use cyber_jum::title::{
    begin_ending, ending_done, title_items, title_menu, TitleMode, TitleResult, TitleScreen, ENDING_TEXT,
};
use cyber_jum::world_map::{HERO_START_X, HERO_START_Y};

fn press(buttons: u16) -> ButtonController {
    let mut c = ButtonController::new(0);
    c.update_with_state(buttons);
    c
}

fn a_save() -> SaveData {
    SaveData { hero_x: 50, hero_y: 400, beaten: [true, true, false, false, false], music_volume: 2, sfx_volume: 3 }
}

#[test]
fn a_new_game_starts_on_the_road() {
    let d = SaveData::default();
    assert_eq!((d.hero_x, d.hero_y), (HERO_START_X, HERO_START_Y));
    assert_eq!(d.beaten, [false; 5]);
    assert_eq!((d.music_volume, d.sfx_volume), (DEFAULT_MUSIC_VOLUME, DEFAULT_SFX_VOLUME));
    assert_eq!((DEFAULT_MUSIC_VOLUME, DEFAULT_SFX_VOLUME), (7, 8));
    assert_eq!(SLOT, 0);
}

#[test]
fn continue_only_shows_with_a_save() {
    assert_eq!(title_items(false), vec!["NEW GAME".to_string(), "SETTINGS".to_string()]);
    assert_eq!(
        title_items(true),
        vec!["NEW GAME".to_string(), "CONTINUE".to_string(), "SETTINGS".to_string()]
    );
    assert_eq!(title_menu(true).render_text(), "> NEW GAME\n  CONTINUE\n  SETTINGS");
}

#[test]
fn the_title_plays_its_music() {
    let mut audio = Audio::new(10, 5);
    let t = TitleScreen::new(None, &mut audio);
    assert!(t.saved_game.is_none());
    assert_eq!(audio.frame(), vec![MixerCommand::PlayMusic { track: Music::Title, gain: 256 }]);
}

#[test]
fn new_game_is_the_first_entry() {
    let mut audio = Audio::new(5, 5);
    let mut t = TitleScreen::new(Some(a_save()), &mut audio);
    assert!(matches!(t.step(&press(Button::A.mask()), &mut audio), Some(TitleResult::NewGame)));
}

#[test]
fn continue_gives_back_the_save() {
    let mut audio = Audio::new(5, 5);
    let mut t = TitleScreen::new(Some(a_save()), &mut audio);
    assert!(t.step(&press(Button::Down.mask()), &mut audio).is_none());
    match t.step(&press(Button::A.mask()), &mut audio) {
        Some(TitleResult::Continue(d)) => {
            assert_eq!((d.hero_x, d.hero_y), (50, 400));
            assert_eq!(d.beaten, [true, true, false, false, false]);
            assert_eq!((d.music_volume, d.sfx_volume), (2, 3));
        }
        _ => panic!("expected to continue"),
    }
}

#[test]
fn settings_and_back_to_a_fresh_menu() {
    let mut audio = Audio::new(5, 5);
    let mut t = TitleScreen::new(None, &mut audio);
    // Without a save the second entry is SETTINGS.
    t.step(&press(Button::Down.mask()), &mut audio);
    assert!(t.step(&press(Button::A.mask()), &mut audio).is_none());
    assert!(matches!(t.mode, TitleMode::Settings(_)));
    t.step(&press(Button::Left.mask()), &mut audio);
    assert_eq!(audio.music_volume(), 4);
    assert!(t.step(&press(Button::B.mask()), &mut audio).is_none());
    match &t.mode {
        TitleMode::Menu(m) => {
            assert_eq!(m.cursor, 0);
            assert_eq!(m.render_text(), "> NEW GAME\n  SETTINGS");
        }
        _ => panic!("expected the menu"),
    }
}

#[test]
fn b_on_the_title_menu_does_nothing() {
    let mut audio = Audio::new(5, 5);
    let mut t = TitleScreen::new(None, &mut audio);
    assert!(t.step(&press(Button::B.mask()), &mut audio).is_none());
    assert!(matches!(t.mode, TitleMode::Menu(_)));
}

#[test]
fn the_ending_congratulates() {
    assert!(ENDING_TEXT.starts_with("CONGRATULATIONS!"));
    assert!(ENDING_TEXT.contains("THE END"));
}

#[test]
fn the_ending_plays_the_title_tune_and_the_jingle() {
    let mut audio = Audio::new(10, 5);
    let banner = begin_ending(&mut audio);
    assert_eq!(banner.message, ENDING_TEXT);
    assert_eq!((banner.top_row, banner.bottom_row), (4, 15));
    assert_eq!(
        audio.frame(),
        vec![
            MixerCommand::PlayMusic { track: Music::Title, gain: 256 },
            MixerCommand::PlaySfx { effect: cyber_jum::audio::Sfx::WinLevel, gain: 128 },
        ]
    );
}

#[test]
fn only_a_leaves_the_ending() {
    assert!(ending_done(&press(Button::A.mask())));
    assert!(!ending_done(&press(Button::B.mask() | Button::Start.mask())));
    // Holding A from before does not count as a new press.
    assert!(!ending_done(&ButtonController::new(Button::A.mask())));
}
