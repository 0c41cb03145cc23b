use cyber_jum::audio::{Audio, MixerCommand, Sfx};
use cyber_jum::input::{Button, ButtonController};
use cyber_jum::text::{
    panel_tile, volume_label, Banner, Dialogue, Menu, MenuAction, SettingsMenu, PANEL_BOTTOM,
    PANEL_FILL, PANEL_TOP,
};

fn idle() -> ButtonController {
    ButtonController::new(0)
}

fn press(buttons: u16) -> ButtonController {
    let mut c = ButtonController::new(0);
    c.update_with_state(buttons);
    c
}

fn items(names: &[&str]) -> Vec<String> {
    names.iter().map(|s| s.to_string()).collect()
}

static PAGES: [&str; 2] = ["Hello there!", "Ready?"];

#[test]
fn panel_rows_have_borders_and_fill() {
    assert_eq!(panel_tile(14, 14, 19), PANEL_TOP);
    assert_eq!(panel_tile(19, 14, 19), PANEL_BOTTOM);
    assert_eq!(panel_tile(16, 14, 19), PANEL_FILL);
}

#[test]
fn volume_labels_show_ten_steps() {
    assert_eq!(volume_label("MUSIC", 7), "MUSIC |||||||---");
    assert_eq!(volume_label("SOUND", 0), "SOUND ----------");
    assert_eq!(volume_label("SOUND", 10), "SOUND ||||||||||");
}

#[test]
fn banner_keeps_its_message() {
    let b = Banner::new("GAME SAVED!", 8, 11);
    assert_eq!(b.message, "GAME SAVED!");
    assert_eq!(b.top_row, 8);
    assert_eq!(b.bottom_row, 11);
}

#[test]
fn menu_text_marks_the_cursor() {
    let mut audio = Audio::new(5, 5);
    let mut m = Menu::new("PAUSED", items(&["RESUME", "SAVE GAME", "SETTINGS", "QUIT TO TITLE"]), 5);
    assert_eq!(m.bottom_row, 12);
    assert_eq!(m.render_text(), "PAUSED\n> RESUME\n  SAVE GAME\n  SETTINGS\n  QUIT TO TITLE");
    assert_eq!(m.update(&press(Button::Down.mask()), &mut audio), MenuAction::Nothing);
    assert_eq!(m.cursor, 1);
    assert_eq!(m.render_text(), "PAUSED\n  RESUME\n> SAVE GAME\n  SETTINGS\n  QUIT TO TITLE");
    assert_eq!(audio.frame(), vec![MixerCommand::PlaySfx { effect: Sfx::MenuMove, gain: 128 }]);
}

#[test]
fn untitled_menu_has_no_title_line() {
    let m = Menu::new("", items(&["NEW GAME", "SETTINGS"]), 14);
    assert_eq!(m.bottom_row, 14 + 2 + 2);
    assert_eq!(m.render_text(), "> NEW GAME\n  SETTINGS");
}

#[test]
fn cursor_stops_at_the_ends() {
    let mut audio = Audio::new(5, 5);
    let mut m = Menu::new("", items(&["A", "B"]), 0);
    assert_eq!(m.update(&press(Button::Up.mask()), &mut audio), MenuAction::Nothing);
    assert_eq!(m.cursor, 0);
    assert!(audio.frame().is_empty());
    m.update(&press(Button::Down.mask()), &mut audio);
    m.update(&press(Button::Down.mask()), &mut audio);
    assert_eq!(m.cursor, 1);
    assert_eq!(audio.frame().len(), 1);
}

#[test]
fn menu_keys_select_adjust_and_back() {
    let mut audio = Audio::new(5, 5);
    let mut m = Menu::new("", items(&["A", "B", "C"]), 0);
    assert_eq!(m.update(&press(Button::A.mask()), &mut audio), MenuAction::Selected(0));
    assert_eq!(audio.frame(), vec![MixerCommand::PlaySfx { effect: Sfx::MenuSelect, gain: 128 }]);
    assert_eq!(m.update(&press(Button::Left.mask()), &mut audio), MenuAction::Adjusted(0, -1));
    assert_eq!(m.update(&press(Button::Right.mask()), &mut audio), MenuAction::Adjusted(0, 1));
    assert_eq!(m.update(&press(Button::B.mask()), &mut audio), MenuAction::Back);
    // The cursor moves first, then the action applies to the new item.
    assert_eq!(
        m.update(&press(Button::Down.mask() | Button::A.mask()), &mut audio),
        MenuAction::Selected(1)
    );
    // Left beats A when both are pressed.
    assert_eq!(
        m.update(&press(Button::Left.mask() | Button::A.mask()), &mut audio),
        MenuAction::Adjusted(1, -1)
    );
    assert_eq!(m.update(&idle(), &mut audio), MenuAction::Nothing);
}

#[test]
fn set_items_replaces_the_labels() {
    let mut m = Menu::new("T", items(&["A"]), 0);
    m.set_items(items(&["B"]));
    assert_eq!(m.render_text(), "T\n> B");
}

#[test]
fn dialogue_types_a_group_every_second_frame() {
    let mut audio = Audio::new(5, 5);
    let mut d = Dialogue::new(&PAGES);
    assert_eq!(d.current_page(), "Hello there!");
    assert_eq!(d.shown, 0);
    let mut frames = 0;
    while !d.page_done {
        assert!(!d.update(&idle(), &mut audio, 3));
        frames += 1;
    }
    // Three groups on frames 2, 4, 6; the page is complete on frame 8.
    assert_eq!(frames, 8);
    assert_eq!(d.shown, 3);
    assert!(audio.frame().is_empty(), "the blip frame (8) had nothing left to type");
    // A turns the page with a click.
    assert!(!d.update(&press(Button::A.mask()), &mut audio, 3));
    assert_eq!(d.current_page(), "Ready?");
    assert_eq!(d.shown, 0);
    assert!(!d.page_done);
    assert_eq!(audio.frame(), vec![MixerCommand::PlaySfx { effect: Sfx::MenuMove, gain: 128 }]);
}

#[test]
fn dialogue_blips_every_eighth_frame_while_typing() {
    let mut audio = Audio::new(5, 5);
    let mut d = Dialogue::new(&PAGES);
    for _ in 0..8 {
        d.update(&idle(), &mut audio, 10);
    }
    assert_eq!(d.shown, 4);
    assert_eq!(audio.frame(), vec![MixerCommand::PlaySfx { effect: Sfx::TalkBlip, gain: 128 }]);
}

#[test]
fn impatient_reader_skips_to_the_end() {
    let mut audio = Audio::new(5, 5);
    let mut d = Dialogue::new(&PAGES);
    // A shows the whole page, a second A turns it, the third shows the
    // last page and the fourth finishes the dialogue.
    assert!(!d.update(&press(Button::A.mask()), &mut audio, 12));
    assert!(d.page_done);
    assert_eq!(d.shown, 12);
    assert!(!d.update(&press(Button::A.mask()), &mut audio, 12));
    assert_eq!(d.next_page, 2);
    assert!(!d.update(&press(Button::A.mask()), &mut audio, 6));
    assert!(d.page_done);
    assert!(d.update(&press(Button::A.mask()), &mut audio, 6));
}

#[test]
fn settings_adjust_volumes_live() {
    let mut audio = Audio::new(7, 8);
    let mut s = SettingsMenu::new(&audio);
    assert_eq!(s.menu.render_text(), "SETTINGS\n> MUSIC |||||||---\n  SOUND ||||||||--\n  BACK");
    assert!(!s.update(&press(Button::Right.mask()), &mut audio));
    assert_eq!(audio.music_volume(), 8);
    assert_eq!(s.menu.items[0], "MUSIC ||||||||--");
    // No music is playing, so nothing to re-gain.
    assert!(audio.frame().is_empty());
    // Down to SOUND, then left: a blip at the new volume.
    assert!(!s.update(&press(Button::Down.mask()), &mut audio));
    audio.frame();
    assert!(!s.update(&press(Button::Left.mask()), &mut audio));
    assert_eq!(audio.sfx_volume(), 7);
    assert_eq!(s.menu.items[1], "SOUND |||||||---");
    assert_eq!(audio.frame(), vec![MixerCommand::PlaySfx { effect: Sfx::TalkBlip, gain: 179 }]);
}

#[test]
fn settings_volumes_stay_in_range() {
    let mut audio = Audio::new(10, 0);
    let mut s = SettingsMenu::new(&audio);
    s.update(&press(Button::Right.mask()), &mut audio);
    assert_eq!(audio.music_volume(), 10);
    s.update(&press(Button::Down.mask()), &mut audio);
    s.update(&press(Button::Left.mask()), &mut audio);
    assert_eq!(audio.sfx_volume(), 0);
    // A muted blip is not played.
    assert!(audio.frame().iter().all(|c| !matches!(c, MixerCommand::PlaySfx { effect: Sfx::TalkBlip, .. })));
}

#[test]
fn settings_exit_on_back_or_b() {
    let mut audio = Audio::new(5, 5);
    let mut s = SettingsMenu::new(&audio);
    assert!(s.update(&press(Button::B.mask()), &mut audio));
    let mut s = SettingsMenu::new(&audio);
    s.update(&press(Button::Down.mask()), &mut audio);
    s.update(&press(Button::Down.mask()), &mut audio);
    assert_eq!(s.menu.cursor, 2);
    assert!(s.update(&press(Button::A.mask()), &mut audio));
}
