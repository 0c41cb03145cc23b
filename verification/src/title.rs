//! The title screen (new game / continue / settings) and the ending text.
use vstd::prelude::*;
use vstd::string::StringExecFns;

use crate::audio::{Audio, Music, Sfx};
use crate::input::{Button, ButtonController};
use crate::save::SaveData;
use crate::text::{Banner, settings_audio, settings_exit, settings_menu_after, Menu, MenuAction, SettingsMenu};

verus! {

/// How the title screen ended.
#[derive(Clone, Copy, Debug)]
pub enum TitleResult {
    NewGame,
    Continue(SaveData),
}

/// Tile row of the title menu's top border.
pub const TITLE_MENU_TOP_ROW: i32 = 14;

/// The ending screen's text.
pub const ENDING_TEXT: &'static str = "CONGRATULATIONS!\n\nYou beat all five CYBER JUMP challengers\nand the road north is open.\n\nTHE END\n\n(press A)";

/// The ending screen: its banner, with the title music and the winning
/// jingle started.  The screen stays until A is pressed.
pub fn begin_ending(audio: &mut Audio) -> (b: Banner)
    ensures
        b.message@ == ENDING_TEXT@,
        b.top_row == 4,
        b.bottom_row == 15,
        final(audio).music_playing,
        final(audio).music_volume == old(audio).music_volume,
        final(audio).sfx_volume == old(audio).sfx_volume,
        final(audio).pending@ == Audio::after_sfx(old(audio).after_play(Music::Title), old(audio).sfx_volume, Sfx::WinLevel),
{
    let banner = Banner::new(ENDING_TEXT, 4, 15);
    audio.play_music(Music::Title);
    audio.sfx(Sfx::WinLevel);
    banner
}

/// Does this frame leave the ending screen?  Only A does.
pub fn ending_done(input: &ButtonController) -> (done: bool)
    ensures
        done == input.just_pressed(Button::A),
{
    input.is_just_pressed(Button::A)
}

/// The title menu's entries: CONTINUE only when there is a saved game.
pub open spec fn title_entries(has_save: bool) -> Seq<Seq<char>> {
    if has_save {
        seq!["NEW GAME"@, "CONTINUE"@, "SETTINGS"@]
    } else {
        seq!["NEW GAME"@, "SETTINGS"@]
    }
}

/// The title menu's entries.
pub fn title_items(has_save: bool) -> (items: Vec<String>)
    ensures
        items@.map_values(|s: String| s@) == title_entries(has_save),
        items@.len() == if has_save { 3int } else { 2int },
{
    let mut items: Vec<String> = Vec::new();
    items.push(String::from_str("NEW GAME"));
    if has_save {
        items.push(String::from_str("CONTINUE"));
    }
    items.push(String::from_str("SETTINGS"));
    assert(items@.map_values(|s: String| s@) =~= title_entries(has_save));
    items
}

/// The title menu, without a title line, cursor on NEW GAME.
pub fn title_menu(has_save: bool) -> (m: Menu)
    ensures
        m.title == "",
        m.item_texts() == title_entries(has_save),
        m.items@.len() == if has_save { 3int } else { 2int },
        m.cursor == 0,
        m.top_row == TITLE_MENU_TOP_ROW,
        m.bottom_row == TITLE_MENU_TOP_ROW + m.items@.len() + 2,
{
    proof {
        reveal_strlit("");
    }
    Menu::new("", title_items(has_save), TITLE_MENU_TOP_ROW)
}

/// What the title screen shows.
pub enum TitleMode {
    Menu(Menu),
    Settings(SettingsMenu),
}

/// The title screen while it runs.
pub struct TitleScreen {
    /// The game in the save file, if any.
    pub saved_game: Option<SaveData>,
    pub mode: TitleMode,
}

impl TitleScreen {
    /// The title screen, with its menu up and the title music playing.
    pub fn new(saved_game: Option<SaveData>, audio: &mut Audio) -> (t: TitleScreen)
        ensures
            t.saved_game == saved_game,
            t.mode matches TitleMode::Menu(m) && m.item_texts() == title_entries(saved_game is Some)
                && m.cursor == 0 && m.title == "" && m.top_row == TITLE_MENU_TOP_ROW && m.bottom_row
                == TITLE_MENU_TOP_ROW + m.items@.len() + 2,
            final(audio).music_playing,
            final(audio).music_volume == old(audio).music_volume,
            final(audio).sfx_volume == old(audio).sfx_volume,
            final(audio).pending@ == old(audio).after_play(Music::Title),
    {
        let menu = title_menu(saved_game.is_some());
        audio.play_music(Music::Title);
        TitleScreen { saved_game, mode: TitleMode::Menu(menu) }
    }

    /// One frame of the title screen.  On the menu: NEW GAME starts a new
    /// game, CONTINUE (when shown) continues the saved one, any other entry
    /// opens the settings.  In the settings: leaving returns to a fresh menu.
    pub fn step(&mut self, input: &ButtonController, audio: &mut Audio) -> (r: Option<TitleResult>)
        ensures
            final(self).saved_game == old(self).saved_game,
            old(self).mode matches TitleMode::Menu(menu) ==> ({
                let action = menu.action_after(*input);
                &&& final(audio).music_playing == old(audio).music_playing
                &&& final(audio).music_volume == old(audio).music_volume
                &&& final(audio).sfx_volume == old(audio).sfx_volume
                &&& final(audio).pending@ == Audio::after_sfxs(
                    old(audio).pending@,
                    old(audio).sfx_volume,
                    menu.sounds_after(*input),
                )
                &&& match action {
                    MenuAction::Selected(0) => r matches Some(TitleResult::NewGame),
                    MenuAction::Selected(n) => if n == 1 && old(self).saved_game is Some {
                        r matches Some(TitleResult::Continue(d)) && old(self).saved_game == Some(d)
                    } else {
                        &&& r is None
                        &&& final(self).mode matches TitleMode::Settings(s) && s.menu.title == "SETTINGS"
                            && s.menu.top_row == crate::text::SETTINGS_TOP_ROW && s.menu.bottom_row
                            == crate::text::SETTINGS_TOP_ROW + 6 && s.menu.cursor == 0 && s.menu.item_texts() == crate::text::settings_labels(
                            old(audio).music_volume,
                            old(audio).sfx_volume,
                        )
                    },
                    _ => {
                        &&& r is None
                        &&& final(self).mode matches TitleMode::Menu(m) && m.cursor == menu.cursor_after(*input)
                            && m.items@ == menu.items@ && m.title == menu.title && m.top_row == menu.top_row
                            && m.bottom_row == menu.bottom_row
                    },
                }
            }),
            old(self).mode matches TitleMode::Settings(s) ==> ({
                &&& r is None
                &&& settings_audio(s.menu, *input, *old(audio), *final(audio))
                &&& if settings_exit(s.menu, *input) {
                    final(self).mode matches TitleMode::Menu(m) && m.item_texts() == title_entries(
                        old(self).saved_game is Some,
                    ) && m.cursor == 0 && m.title == "" && m.top_row == TITLE_MENU_TOP_ROW
                        && m.bottom_row == TITLE_MENU_TOP_ROW + m.items@.len() + 2
                } else {
                    final(self).mode matches TitleMode::Settings(s2) && settings_menu_after(
                        s.menu,
                        *input,
                        *old(audio),
                        s2.menu,
                    )
                }
            }),
    {
        let mut mode = TitleMode::Menu(title_menu(false));
        std::mem::swap(&mut mode, &mut self.mode);
        match mode {
            TitleMode::Menu(mut menu) => {
                let action = menu.update(input, audio);
                match action {
                    MenuAction::Selected(0) => {
                        return Some(TitleResult::NewGame);
                    },
                    MenuAction::Selected(n) => {
                        if n == 1 {
                            if let Some(data) = self.saved_game {
                                return Some(TitleResult::Continue(data));
                            }
                        }
                        self.mode = TitleMode::Settings(SettingsMenu::new(audio));
                    },
                    _ => {
                        self.mode = TitleMode::Menu(menu);
                    },
                }
            },
            TitleMode::Settings(mut menu) => {
                if menu.update(input, audio) {
                    self.mode = TitleMode::Menu(title_menu(self.saved_game.is_some()));
                } else {
                    self.mode = TitleMode::Settings(menu);
                }
            },
        }
        None
    }
}

} // verus!
