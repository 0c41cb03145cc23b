//! Text UI building blocks: dialogue boxes, banners and cursor menus.
//!
//! All text is drawn by the font renderer onto its own transparent
//! background layer, floating above a "panel" layer of dark box tiles.
//! Components are immediate-mode-ish: call `update` once per frame, then
//! draw what they hold.  This module keeps what the components decide:
//! which page and how much of it a dialogue shows, a menu's text and
//! cursor, and what each key press does.
use vstd::prelude::*;
use vstd::string::StringExecFns;

use crate::audio::{Audio, Sfx, MAX_VOLUME};
use crate::fixed::clamp_int;
use crate::input::{Button, ButtonController};

verus! {

/// Screen width in 8x8 tiles.
pub const SCREEN_TILES_X: i32 = 30;

/// Panel tile indices.
pub const PANEL_FILL: usize = 0;
pub const PANEL_TOP: usize = 1;
pub const PANEL_BOTTOM: usize = 2;

/// The panel tile for tile row `y` of a panel spanning rows
/// `top..=bottom`: a top border, a bottom border, fill in between.
pub fn panel_tile(y: i32, top: i32, bottom: i32) -> (t: usize)
    ensures
        t == if y == top {
            PANEL_TOP
        } else if y == bottom {
            PANEL_BOTTOM
        } else {
            PANEL_FILL
        },
{
    if y == top {
        PANEL_TOP
    } else if y == bottom {
        PANEL_BOTTOM
    } else {
        PANEL_FILL
    }
}

// ---------------------------------------------------------------------------
// Dialogue: a bottom-of-screen box that types text out page by page.
// ---------------------------------------------------------------------------

/// Tile rows used by the dialogue box (the bottom 6 of the screen's 20).
pub const DIALOGUE_TOP_ROW: i32 = 14;
pub const DIALOGUE_BOTTOM_ROW: i32 = 19;

/// A dialogue being read.  The font renderer cuts each page into glyph
/// groups, and the typewriter shows them one at a time.
pub struct Dialogue {
    pub pages: &'static [&'static str],
    /// One past the page on screen.
    pub next_page: usize,
    /// Glyph groups of the page on screen that are shown so far.
    pub shown: usize,
    /// The whole page is on screen.
    pub page_done: bool,
    pub tick: u32,
}

impl Dialogue {
    pub open spec fn wf(self) -> bool {
        &&& self.pages@.len() > 0
        &&& 1 <= self.next_page <= self.pages@.len()
    }

    /// The page on screen.
    pub open spec fn page(self) -> int {
        self.next_page - 1
    }

    /// A dialogue showing the first (still empty) page.
    pub fn new(pages: &'static [&'static str]) -> (d: Dialogue)
        requires
            pages@.len() > 0,
        ensures
            d.wf(),
            d.pages == pages,
            d.next_page == 1,
            d.shown == 0,
            !d.page_done,
            d.tick == 0,
    {
        let mut dialogue = Dialogue { pages, next_page: 0, shown: 0, page_done: false, tick: 0 };
        dialogue.start_next_page();
        dialogue
    }

    /// Clear the box and start typing the next page.
    pub fn start_next_page(&mut self)
        requires
            old(self).next_page < old(self).pages@.len(),
        ensures
            final(self).next_page == old(self).next_page + 1,
            final(self).shown == 0,
            !final(self).page_done,
            final(self).pages == old(self).pages,
            final(self).tick == old(self).tick,
    {
        let page_count = self.pages.len();
        assert(self.next_page < page_count);
        self.shown = 0;
        self.next_page = self.next_page + 1;
        self.page_done = false;
    }

    /// The page on screen.
    pub fn current_page(&self) -> (r: &'static str)
        requires
            self.wf(),
        ensures
            r == self.pages@[self.page()],
    {
        self.pages[self.next_page - 1]
    }

    /// Does this frame finish the dialogue?  A pressed on the complete
    /// last page.
    pub open spec fn finishes(self, input: ButtonController) -> bool {
        self.page_done && input.just_pressed(Button::A) && self.next_page >= self.pages@.len()
    }

    /// The dialogue after a frame on a page of `page_groups` glyph groups
    /// (see `update`).
    pub open spec fn updated(self, input: ButtonController, page_groups: usize) -> Dialogue {
        let t = (self.tick + 1) as u32;
        let a = input.just_pressed(Button::A);
        if !self.page_done {
            if a {
                Dialogue { shown: page_groups, page_done: true, tick: t, ..self }
            } else if t % 2 == 0 && self.shown < page_groups {
                Dialogue { shown: (self.shown + 1) as usize, tick: t, ..self }
            } else if t % 2 == 0 {
                Dialogue { page_done: true, tick: t, ..self }
            } else {
                Dialogue { tick: t, ..self }
            }
        } else if a && self.next_page < self.pages@.len() {
            Dialogue { next_page: (self.next_page + 1) as usize, shown: 0, page_done: false, tick: t, ..self }
        } else {
            Dialogue { tick: t, ..self }
        }
    }

    /// The sounds of that frame: a blip every eighth frame while typing, a
    /// click when turning the page.
    pub open spec fn sounds(self, input: ButtonController, page_groups: usize) -> Seq<Sfx> {
        let t = self.tick + 1;
        let a = input.just_pressed(Button::A);
        if !self.page_done {
            if !a && t % 2 == 0 && self.shown < page_groups && t % 8 == 0 {
                seq![Sfx::TalkBlip]
            } else {
                Seq::empty()
            }
        } else if a && self.next_page < self.pages@.len() {
            seq![Sfx::MenuMove]
        } else {
            Seq::empty()
        }
    }

    /// Advance the typewriter on a page of `page_groups` glyph groups: one
    /// group every second frame (with a blip every eighth frame); A reveals
    /// the rest of the page at once; once the page is complete A turns to
    /// the next one.  Returns `true` once the player has read (and confirmed
    /// with A) every page.
    pub fn update(&mut self, input: &ButtonController, audio: &mut Audio, page_groups: usize) -> (finished: bool)
        requires
            old(self).wf(),
            old(self).tick < u32::MAX,
        ensures
            final(self).wf(),
            *final(self) == old(self).updated(*input, page_groups),
            finished == old(self).finishes(*input),
            final(audio).music_playing == old(audio).music_playing,
            final(audio).music_volume == old(audio).music_volume,
            final(audio).sfx_volume == old(audio).sfx_volume,
            final(audio).pending@ == Audio::after_sfxs(
                old(audio).pending@,
                old(audio).sfx_volume,
                old(self).sounds(*input, page_groups),
            ),
    {
        proof {
            crate::platformer::lemma_after_sfxs_one(audio.pending@, audio.sfx_volume, Sfx::TalkBlip);
            crate::platformer::lemma_after_sfxs_one(audio.pending@, audio.sfx_volume, Sfx::MenuMove);
            assert(Audio::after_sfxs(audio.pending@, audio.sfx_volume, Seq::<Sfx>::empty()) == audio.pending@);
        }
        self.tick = self.tick + 1;
        if !self.page_done {
            if input.is_just_pressed(Button::A) {
                // Impatient player: reveal the rest of the page at once.
                self.shown = page_groups;
                self.page_done = true;
            } else if self.tick % 2 == 0 {
                if self.shown < page_groups {
                    self.shown = self.shown + 1;
                    if self.tick % 8 == 0 {
                        audio.sfx(Sfx::TalkBlip);
                    }
                } else {
                    self.page_done = true;
                }
            }
        } else if input.is_just_pressed(Button::A) {
            if self.next_page < self.pages.len() {
                audio.sfx(Sfx::MenuMove);
                self.start_next_page();
            } else {
                return true;
            }
        }
        false
    }
}

// ---------------------------------------------------------------------------
// Banner: a panel with fully rendered (non-animated) centred text, used for
// level intros, "GAME SAVED!" toasts and the ending screen.
// ---------------------------------------------------------------------------

/// A centred message on a panel spanning tile rows `top_row..=bottom_row`.
pub struct Banner {
    pub message: String,
    pub top_row: i32,
    pub bottom_row: i32,
}

impl Banner {
    pub fn new(message: &str, top_row: i32, bottom_row: i32) -> (b: Banner)
        ensures
            b.message@ == message@,
            b.top_row == top_row,
            b.bottom_row == bottom_row,
    {
        Banner { message: String::from_str(message), top_row, bottom_row }
    }
}

// ---------------------------------------------------------------------------
// Menu: a vertical list with a ">" cursor.
// ---------------------------------------------------------------------------

/// What a key press did to a menu.
#[derive(Clone, Copy, PartialEq, Eq, Structural, Debug)]
pub enum MenuAction {
    /// No key that the menu reacts to.
    Nothing,
    /// A pressed on item `i`.
    Selected(usize),
    /// Left/right pressed on item `i` (for value sliders): -1 or +1.
    Adjusted(usize, i32),
    /// B pressed.
    Back,
}

/// The text of a menu listing its first `n` items under `title`: one line
/// per item, the cursor's item marked with "> ", the others indented.
pub open spec fn menu_text(title: Seq<char>, items: Seq<Seq<char>>, cursor: int, n: int) -> Seq<char>
    decreases n,
{
    if n <= 0 {
        title
    } else {
        let before = menu_text(title, items, cursor, n - 1);
        before + (if before.len() > 0 { "\n"@ } else { Seq::empty() }) + (if n - 1 == cursor {
            "> "@
        } else {
            "  "@
        }) + items[n - 1]
    }
}

/// A vertical list of items with a cursor.
pub struct Menu {
    pub title: &'static str,
    pub items: Vec<String>,
    pub cursor: usize,
    pub top_row: i32,
    /// Last tile row of the menu's panel.
    pub bottom_row: i32,
}

impl Menu {
    /// The items as character sequences.
    pub open spec fn item_texts(self) -> Seq<Seq<char>> {
        self.items@.map_values(|s: String| s@)
    }

    /// The menu's current text.
    pub open spec fn text(self) -> Seq<char> {
        menu_text(self.title@, self.item_texts(), self.cursor as int, self.items@.len() as int)
    }

    /// A menu with its cursor on the first item.  Its panel has one row per
    /// text line (the items, plus the title when there is one) and a border
    /// row on each side.
    pub fn new(title: &'static str, items: Vec<String>, top_row: i32) -> (m: Menu)
        requires
            items@.len() < i32::MAX,
            top_row + items@.len() + 3 <= i32::MAX,
        ensures
            m.title == title,
            m.items@ == items@,
            m.cursor == 0,
            m.top_row == top_row,
            m.bottom_row == top_row + items@.len() + (if title@.len() == 0 { 0int } else { 1int }) + 2,
    {
        let lines = items.len() as i32 + if title.is_empty() { 0 } else { 1 };
        let bottom_row = top_row + lines + 2;
        Menu { title, items, cursor: 0, top_row, bottom_row }
    }

    /// Replace the menu's labels (used when a value like volume changes).
    pub fn set_items(&mut self, items: Vec<String>)
        ensures
            final(self).items@ == items@,
            final(self).title == old(self).title,
            final(self).cursor == old(self).cursor,
            final(self).top_row == old(self).top_row,
            final(self).bottom_row == old(self).bottom_row,
    {
        self.items = items;
    }

    /// The text to draw: the title, then one line per item.
    pub fn render_text(&self) -> (content: String)
        ensures
            content@ == self.text(),
    {
        let mut content = String::from_str(self.title);
        let n = self.items.len();
        let mut i: usize = 0;
        proof {
            reveal_strlit("\n");
        }
        while i < n
            invariant
                i <= n,
                n == self.items@.len(),
                content@ == menu_text(self.title@, self.item_texts(), self.cursor as int, i as int),
            decreases n - i,
        {
            if !content.as_str().is_empty() {
                content.append("\n");
            }
            content.append(if i == self.cursor { "> " } else { "  " });
            content.append(self.items[i].as_str());
            assert(self.item_texts()[i as int] == self.items@[i as int]@);
            i += 1;
        }
        content
    }

    /// Does this frame's input move the cursor up?
    pub open spec fn moves_up(self, input: ButtonController) -> bool {
        input.just_pressed(Button::Up) && self.cursor > 0
    }

    /// Does this frame's input move the cursor down (after any move up)?
    pub open spec fn moves_down(self, input: ButtonController) -> bool {
        let c1 = if self.moves_up(input) { self.cursor - 1 } else { self.cursor as int };
        input.just_pressed(Button::Down) && c1 + 1 < self.items@.len()
    }

    /// The cursor after this frame's input.
    pub open spec fn cursor_after(self, input: ButtonController) -> int {
        let c1 = if self.moves_up(input) { self.cursor - 1 } else { self.cursor as int };
        if self.moves_down(input) {
            c1 + 1
        } else {
            c1
        }
    }

    /// What this frame's input does, once the cursor has moved.
    pub open spec fn action_after(self, input: ButtonController) -> MenuAction {
        let c = self.cursor_after(input) as usize;
        if input.just_pressed(Button::Left) {
            MenuAction::Adjusted(c, -1i32)
        } else if input.just_pressed(Button::Right) {
            MenuAction::Adjusted(c, 1i32)
        } else if input.just_pressed(Button::A) {
            MenuAction::Selected(c)
        } else if input.just_pressed(Button::B) {
            MenuAction::Back
        } else {
            MenuAction::Nothing
        }
    }

    /// The clicks of this frame: one per cursor move, and one for a
    /// selection.
    pub open spec fn sounds_after(self, input: ButtonController) -> Seq<Sfx> {
        (if self.moves_up(input) { seq![Sfx::MenuMove] } else { Seq::empty() }) + (if self.moves_down(
            input,
        ) {
            seq![Sfx::MenuMove]
        } else {
            Seq::empty()
        }) + (if self.action_after(input) is Selected {
            seq![Sfx::MenuSelect]
        } else {
            Seq::empty()
        })
    }

    /// Law: the cursor never leaves the list; it moves by at most one item
    /// per key.
    pub proof fn law_cursor_stays_on_an_item(self, input: ButtonController)
        requires
            self.cursor < self.items@.len(),
        ensures
            0 <= self.cursor_after(input) < self.items@.len(),
            self.cursor - 1 <= self.cursor_after(input) <= self.cursor + 1,
    {
    }

    /// Handle this frame's keys: up/down move the cursor (with a click),
    /// then left/right adjust the item under it, A selects it (with a
    /// click), B backs out; only the first of these four counts.
    pub fn update(&mut self, input: &ButtonController, audio: &mut Audio) -> (action: MenuAction)
        ensures
            action == old(self).action_after(*input),
            final(self).cursor == old(self).cursor_after(*input),
            final(self).items@ == old(self).items@,
            final(self).title == old(self).title,
            final(self).top_row == old(self).top_row,
            final(self).bottom_row == old(self).bottom_row,
            final(audio).music_playing == old(audio).music_playing,
            final(audio).music_volume == old(audio).music_volume,
            final(audio).sfx_volume == old(audio).sfx_volume,
            final(audio).pending@ == Audio::after_sfxs(
                old(audio).pending@,
                old(audio).sfx_volume,
                old(self).sounds_after(*input),
            ),
    {
        let ghost m0 = *self;
        let ghost p0 = audio.pending@;
        let ghost vol = audio.sfx_volume;
        proof {
            lemma_sounds(p0, vol, m0.sounds_after(*input), m0.moves_up(*input), m0.moves_down(*input), m0.action_after(*input) is Selected);
        }
        if input.is_just_pressed(Button::Up) && self.cursor > 0 {
            self.cursor = self.cursor - 1;
            audio.sfx(Sfx::MenuMove);
        }
        if input.is_just_pressed(Button::Down) && self.cursor < self.items.len() && self.cursor + 1
            < self.items.len() {
            self.cursor = self.cursor + 1;
            audio.sfx(Sfx::MenuMove);
        }
        if input.is_just_pressed(Button::Left) {
            return MenuAction::Adjusted(self.cursor, -1);
        }
        if input.is_just_pressed(Button::Right) {
            return MenuAction::Adjusted(self.cursor, 1);
        }
        if input.is_just_pressed(Button::A) {
            audio.sfx(Sfx::MenuSelect);
            return MenuAction::Selected(self.cursor);
        }
        if input.is_just_pressed(Button::B) {
            return MenuAction::Back;
        }
        MenuAction::Nothing
    }
}

/// The clicks of a menu frame, requested one at a time.
proof fn lemma_sounds(p: Seq<crate::audio::MixerCommand>, vol: u8, sounds: Seq<Sfx>, up: bool, down: bool, select: bool)
    requires
        sounds == (if up { seq![Sfx::MenuMove] } else { Seq::empty() }) + (if down {
            seq![Sfx::MenuMove]
        } else {
            Seq::empty()
        }) + (if select { seq![Sfx::MenuSelect] } else { Seq::empty() }),
    ensures
        ({
            let p1 = if up { Audio::after_sfx(p, vol, Sfx::MenuMove) } else { p };
            let p2 = if down { Audio::after_sfx(p1, vol, Sfx::MenuMove) } else { p1 };
            let p3 = if select { Audio::after_sfx(p2, vol, Sfx::MenuSelect) } else { p2 };
            Audio::after_sfxs(p, vol, sounds) == p3
        }),
{
    let a: Seq<Sfx> = if up { seq![Sfx::MenuMove] } else { Seq::empty() };
    let b: Seq<Sfx> = if down { seq![Sfx::MenuMove] } else { Seq::empty() };
    let c: Seq<Sfx> = if select { seq![Sfx::MenuSelect] } else { Seq::empty() };
    crate::platformer::lemma_after_sfxs_concat(p, vol, a, b);
    crate::platformer::lemma_after_sfxs_concat(p, vol, a + b, c);
    assert(Audio::after_sfxs(p, vol, Seq::<Sfx>::empty()) == p);
    crate::platformer::lemma_after_sfxs_one(p, vol, Sfx::MenuMove);
    let p1 = if up { Audio::after_sfx(p, vol, Sfx::MenuMove) } else { p };
    assert(Audio::after_sfxs(p1, vol, Seq::<Sfx>::empty()) == p1);
    crate::platformer::lemma_after_sfxs_one(p1, vol, Sfx::MenuMove);
    let p2 = if down { Audio::after_sfx(p1, vol, Sfx::MenuMove) } else { p1 };
    assert(Audio::after_sfxs(p2, vol, Seq::<Sfx>::empty()) == p2);
    crate::platformer::lemma_after_sfxs_one(p2, vol, Sfx::MenuSelect);
}

// ---------------------------------------------------------------------------
// Settings: the music/sfx volume editor, reachable from both the title
// screen and the in-game pause menu.
// ---------------------------------------------------------------------------

/// A volume slider's label: the name, a space, then one `|` per volume
/// step and a `-` for each step above it, `MAX_VOLUME` marks in all.
pub open spec fn volume_label_text(name: Seq<char>, volume: u8) -> Seq<char> {
    name + " "@ + Seq::new(MAX_VOLUME as nat, |i: int| if i < volume { '|' } else { '-' })
}

/// The label of a volume slider, such as `MUSIC |||||||---`.
pub fn volume_label(name: &str, volume: u8) -> (label: String)
    ensures
        label@ == volume_label_text(name@, volume),
{
    proof {
        reveal_strlit(" ");
        reveal_strlit("|");
        reveal_strlit("-");
    }
    let mut label = String::from_str(name);
    label.append(" ");
    let ghost start = label@;
    let mut i: u8 = 0;
    while i < MAX_VOLUME
        invariant
            i <= MAX_VOLUME,
            start == name@ + " "@,
            label@ == start + Seq::new(i as nat, |j: int| if j < volume { '|' } else { '-' }),
        decreases MAX_VOLUME - i,
    {
        proof {
            reveal_strlit("|");
            reveal_strlit("-");
        }
        label.append(if i < volume { "|" } else { "-" });
        assert(label@ =~= start + Seq::new((i + 1) as nat, |j: int| if j < volume { '|' } else { '-' }));
        i += 1;
    }
    label
}

/// The volume editor: music and sound sliders and a way back.
pub struct SettingsMenu {
    pub menu: Menu,
}

/// Row of the settings panel's top border.
pub const SETTINGS_TOP_ROW: i32 = 6;

/// The settings menu's three labels for the current volumes.
pub open spec fn settings_labels(music: u8, sfx: u8) -> Seq<Seq<char>> {
    seq![volume_label_text("MUSIC"@, music), volume_label_text("SOUND"@, sfx), "BACK"@]
}

/// The volume a slider moves to: one step, within `0..=MAX_VOLUME`.
pub open spec fn stepped_volume(volume: u8, delta: i32) -> u8 {
    clamp_int(volume + delta, 0, MAX_VOLUME as int) as u8
}

/// Does this frame's input leave the settings screen?  A on BACK, or B.
pub open spec fn settings_exit(menu: Menu, input: ButtonController) -> bool {
    let action = menu.action_after(input);
    action == MenuAction::Selected(2) || action == MenuAction::Back
}

/// What a frame of the settings screen does to the audio, from `a0` to
/// `a1`: the menu's clicks, then the music volume follows a slide of the
/// first slider (the running track's gain with it), or the sound volume a
/// slide of the second (with a blip at the new volume).
pub open spec fn settings_audio(menu: Menu, input: ButtonController, a0: Audio, a1: Audio) -> bool {
    let p = Audio::after_sfxs(a0.pending@, a0.sfx_volume, menu.sounds_after(input));
    &&& a1.music_playing == a0.music_playing
    &&& match menu.action_after(input) {
        MenuAction::Adjusted(0, delta) => {
            let v = stepped_volume(a0.music_volume, delta);
            &&& a1.music_volume == v
            &&& a1.sfx_volume == a0.sfx_volume
            &&& a1.pending@ == if a0.music_playing {
                p.push(crate::audio::MixerCommand::SetMusicGain { gain: crate::audio::spec_gain(v) })
            } else {
                p
            }
        },
        MenuAction::Adjusted(1, delta) => {
            let v = stepped_volume(a0.sfx_volume, delta);
            &&& a1.music_volume == a0.music_volume
            &&& a1.sfx_volume == v
            &&& a1.pending@ == Audio::after_sfx(p, v, Sfx::TalkBlip)
        },
        _ => {
            &&& a1.music_volume == a0.music_volume
            &&& a1.sfx_volume == a0.sfx_volume
            &&& a1.pending@ == p
        },
    }
}

/// Law: sliding the music volume while music plays is heard at once: the
/// frame ends by setting the running track's gain to the new volume's, just
/// as `Audio::set_music_volume` does; with no music playing nothing is sent
/// for it.
pub proof fn law_music_volume_applies_live(menu: Menu, input: ButtonController, a0: Audio, a1: Audio)
    requires
        settings_audio(menu, input, a0, a1),
        (menu.action_after(input) is Adjusted),
        menu.action_after(input)->Adjusted_0 == 0,
    ensures
        a1.music_volume <= MAX_VOLUME,
        a0.music_playing ==> a1.pending@.len() > 0 && a1.pending@.last()
            == (crate::audio::MixerCommand::SetMusicGain { gain: crate::audio::spec_gain(a1.music_volume) }),
        !a0.music_playing ==> (forall|i: int|
            a0.pending@.len() <= i < a1.pending@.len() ==> !((#[trigger] a1.pending@[i]) is SetMusicGain)),
{
    crate::audio::lemma_after_sfxs_extends(a0.pending@, a0.sfx_volume, menu.sounds_after(input));
}

/// The settings menu `m1` after a frame from `menu` with audio `a0`: the
/// cursor moved, and the slider labels show the new volumes.
pub open spec fn settings_menu_after(menu: Menu, input: ButtonController, a0: Audio, m1: Menu) -> bool {
    &&& m1.cursor == menu.cursor_after(input)
    &&& m1.title == menu.title
    &&& m1.top_row == menu.top_row
    &&& m1.bottom_row == menu.bottom_row
    &&& match menu.action_after(input) {
        MenuAction::Adjusted(0, delta) => m1.item_texts() == settings_labels(
            stepped_volume(a0.music_volume, delta),
            a0.sfx_volume,
        ),
        MenuAction::Adjusted(1, delta) => m1.item_texts() == settings_labels(
            a0.music_volume,
            stepped_volume(a0.sfx_volume, delta),
        ),
        _ => m1.items@ == menu.items@,
    }
}

impl SettingsMenu {
    /// The settings menu, showing the current volumes.
    pub fn new(audio: &Audio) -> (s: SettingsMenu)
        ensures
            s.menu.title == "SETTINGS",
            s.menu.item_texts() == settings_labels(audio.music_volume, audio.sfx_volume),
            s.menu.items@.len() == 3,
            s.menu.cursor == 0,
            s.menu.top_row == SETTINGS_TOP_ROW,
            s.menu.bottom_row == SETTINGS_TOP_ROW + 6,
    {
        proof {
            reveal_strlit("SETTINGS");
        }
        let labels = Self::labels(audio);
        let s = SettingsMenu { menu: Menu::new("SETTINGS", labels, SETTINGS_TOP_ROW) };
        assert(s.menu.item_texts() =~= settings_labels(audio.music_volume, audio.sfx_volume));
        s
    }

    /// The three labels for the current volumes.
    pub fn labels(audio: &Audio) -> (labels: Vec<String>)
        ensures
            labels@.len() == 3,
            labels@.map_values(|s: String| s@) == settings_labels(audio.music_volume, audio.sfx_volume),
    {
        let mut labels: Vec<String> = Vec::new();
        labels.push(volume_label("MUSIC", audio.music_volume()));
        labels.push(volume_label("SOUND", audio.sfx_volume()));
        labels.push(String::from_str("BACK"));
        assert(labels@.map_values(|s: String| s@) =~= settings_labels(audio.music_volume, audio.sfx_volume));
        labels
    }

    /// Handle this frame's keys.  Left/right on a slider change that volume
    /// by one step within `0..=MAX_VOLUME`, applied at once (a blip plays so
    /// a new sound volume can be judged); A on BACK, or B, leaves.  Returns
    /// `true` when the player exits the settings screen.
    pub fn update(&mut self, input: &ButtonController, audio: &mut Audio) -> (exit: bool)
        ensures
            old(self).menu.items@.len() == 3 ==> final(self).menu.items@.len() == 3,
            exit == settings_exit(old(self).menu, *input),
            settings_audio(old(self).menu, *input, *old(audio), *final(audio)),
            settings_menu_after(old(self).menu, *input, *old(audio), final(self).menu),
    {
        let action = self.menu.update(input, audio);
        match action {
            MenuAction::Adjusted(0, delta) => {
                let volume = crate::fixed::clamp_i32(audio.music_volume() as i32 + delta, 0, 10) as u8;
                audio.set_music_volume(volume);
                self.menu.set_items(Self::labels(audio));
            },
            MenuAction::Adjusted(1, delta) => {
                let volume = crate::fixed::clamp_i32(audio.sfx_volume() as i32 + delta, 0, 10) as u8;
                audio.set_sfx_volume(volume);
                self.menu.set_items(Self::labels(audio));
                // Play a blip so the new effect volume can be judged instantly.
                audio.sfx(Sfx::TalkBlip);
            },
            MenuAction::Selected(2) | MenuAction::Back => {
                return true;
            },
            _ => {},
        }
        false
    }
}

} // verus!
