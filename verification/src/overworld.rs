//! The top-down overworld: walk up the forest road, get challenged by the
//! five gatekeepers, pause to save or change settings.
//!
//! `Overworld::step` is one frame of the scene: it reads the buttons, moves
//! the hero and the challengers, runs the current mode, and tells the
//! caller what to do next (keep going, store a save, or leave the scene).
use vstd::prelude::*;
use vstd::string::StringExecFns;

use crate::audio::{Audio, Music, Sfx};
use crate::fixed::{clamp_int, floor_div, sign, signum_i32, Sprite, Vec2};
use crate::input::{Button, ButtonController};
use crate::levels::{level, LEVEL_COUNT};
use crate::platformer::SCREEN_HEIGHT;
use crate::save::SaveData;
use crate::text::{Banner, Dialogue, Menu, MenuAction, SettingsMenu};
use crate::world_map::{
    walkable, walkable_at, GOAL_ROW, HEIGHT_PX, HERO_START_X, HERO_START_Y, NPC_CELLS, NPC_COUNT,
};

verus! {

/// How the overworld scene ended.
#[derive(Clone, Copy, PartialEq, Eq, Structural, Debug)]
pub enum WorldResult {
    /// The hero accepted challenger `n`'s cyber jump.
    Challenge(usize),
    /// All five challengers beaten and the hero walked off the top.
    Finished,
    QuitToTitle,
}

/// What just happened before re-entering the overworld.
#[derive(Clone, Copy, PartialEq, Eq, Structural, Debug)]
pub enum EntryEvent {
    WonLevel(usize),
    LostLevel,
}

/// The largest pixel coordinate (either sign) a hero position may have.
/// The map is 240x1024 pixels, so only a damaged save can come near it; the
/// bound is the machine's: the scene subtracts one position from another
/// (a challenger walking to the hero) in `i32`, so both must stay within
/// half the `i32` range, with room for the few pixels of offsets added on.
pub const POS_LIMIT: i32 = 0x3FFF_F000;

/// How far beside the hero a challenger stops to talk.
pub const TALK_OFFSET: i32 = 18;

/// Frames of the "!" over a challenger who spotted the hero.
pub const ALERT_FRAMES: u32 = 45;

/// Frames of the "GAME SAVED!" toast.
pub const TOAST_FRAMES: u32 = 80;

/// A challenger notices the hero within this many pixels of their row.
pub const SPOT_DISTANCE: i32 = 24;

/// The persistent bits of the overworld, shared with the save system.
#[derive(Clone, Copy, Debug)]
pub struct WorldState {
    pub hero_pos: Vec2,
    pub beaten: [bool; 5],
}

/// The pixel centre of challenger `npc`'s roadside post.
pub open spec fn post(npc: int) -> Vec2 {
    Vec2 { x: (NPC_CELLS@[npc].0 * 16 + 8) as i32, y: (NPC_CELLS@[npc].1 * 16 + 8) as i32 }
}

/// A point whose coordinates stay far from the `i32` limits.
pub open spec fn bounded(p: Vec2, limit: int) -> bool {
    -limit <= p.x <= limit && -limit <= p.y <= limit
}

/// The overworld state a save restores.
pub open spec fn world_of(data: SaveData) -> WorldState {
    WorldState { hero_pos: Vec2 { x: data.hero_x, y: data.hero_y }, beaten: data.beaten }
}

/// The save of an overworld state with the given volumes.
pub open spec fn save_of(state: WorldState, music_volume: u8, sfx_volume: u8) -> SaveData {
    SaveData {
        hero_x: state.hero_pos.x,
        hero_y: state.hero_pos.y,
        beaten: state.beaten,
        music_volume,
        sfx_volume,
    }
}

/// Law: saving and loading give back the same game: restoring a save
/// yields the state that was saved, and saving a restored game (with the
/// save's volumes) yields the same save.
pub proof fn law_save_round_trip(state: WorldState, data: SaveData, music_volume: u8, sfx_volume: u8)
    ensures
        world_of(save_of(state, music_volume, sfx_volume)) == state,
        save_of(world_of(data), data.music_volume, data.sfx_volume) == data,
{
}

/// Law: a saved game brings back the volume settings it was saved with
/// (any setting the settings screen can produce, `0..=MAX_VOLUME`).
pub proof fn law_saved_volumes_come_back(state: WorldState, music_volume: u8, sfx_volume: u8)
    requires
        music_volume <= crate::audio::MAX_VOLUME,
        sfx_volume <= crate::audio::MAX_VOLUME,
    ensures
        crate::audio::capped(save_of(state, music_volume, sfx_volume).music_volume) == music_volume,
        crate::audio::capped(save_of(state, music_volume, sfx_volume).sfx_volume) == sfx_volume,
{
}

impl WorldState {
    /// The hero is within `POS_LIMIT` pixels of the origin both ways.
    pub open spec fn wf(self) -> bool {
        bounded(self.hero_pos, POS_LIMIT as int)
    }

    /// The overworld part of a saved game.
    pub fn from_save(data: &SaveData) -> (s: WorldState)
        ensures
            s == world_of(*data),
    {
        WorldState { hero_pos: Vec2 { x: data.hero_x, y: data.hero_y }, beaten: data.beaten }
    }

    /// The game as it would be saved now, with the current audio settings.
    pub fn to_save(&self, audio: &Audio) -> (d: SaveData)
        ensures
            d == save_of(*self, audio.music_volume, audio.sfx_volume),
    {
        SaveData {
            hero_x: self.hero_pos.x,
            hero_y: self.hero_pos.y,
            beaten: self.beaten,
            music_volume: audio.music_volume(),
            sfx_volume: audio.sfx_volume(),
        }
    }
}

/// Which way the hero looks.
#[derive(Clone, Copy, PartialEq, Eq, Structural, Debug)]
pub enum Facing {
    Down,
    Up,
    Side { left: bool },
}

// ---------------------------------------------------------------------------
// Walking
// ---------------------------------------------------------------------------

/// The cell (in cells) of a pixel position.
pub open spec fn cell_of(p: Vec2) -> (int, int) {
    (floor_div(p.x as int, 16), floor_div(p.y as int, 16))
}

/// Is a cell free of challengers?
pub open spec fn no_npc_in(cell: (int, int), npcs: Seq<Vec2>) -> bool {
    forall|i: int| 0 <= i < npcs.len() ==> cell_of(#[trigger] npcs[i]) != cell
}

/// Can the foot point at offset (dx, dy) from `centre` stand where it is?
pub open spec fn foot_ok(centre: Vec2, dx: int, dy: int, npcs: Seq<Vec2>) -> bool {
    let cell = (floor_div(centre.x + dx, 16), floor_div(centre.y + dy, 16));
    walkable_at(cell.0, cell.1) && no_npc_in(cell, npcs)
}

/// Collision for the hero's feet (the lower half of the sprite): its four
/// corners must be on walkable cells with no challenger standing there.
pub open spec fn stand_ok(centre: Vec2, npcs: Seq<Vec2>) -> bool {
    &&& foot_ok(centre, -5, 0, npcs)
    &&& foot_ok(centre, 5, 0, npcs)
    &&& foot_ok(centre, -5, 7, npcs)
    &&& foot_ok(centre, 5, 7, npcs)
}

/// A standing spot is inside the map.
pub proof fn lemma_stand_ok_inside(centre: Vec2, npcs: Seq<Vec2>)
    requires
        stand_ok(centre, npcs),
    ensures
        5 <= centre.x < 235,
        0 <= centre.y < 1017,
{
}

/// Collision for the hero's feet, against both the map and the challengers
/// standing around.
pub fn can_stand(centre: Vec2, npc_pos: &[Vec2; 5]) -> (ok: bool)
    requires
        bounded(centre, POS_LIMIT as int + 1),
    ensures
        ok == stand_ok(centre, npc_pos@),
{
    let feet: [(i32, i32); 4] = [(-5, 0), (5, 0), (-5, 7), (5, 7)];
    let mut f: usize = 0;
    while f < 4
        invariant
            f <= 4,
            bounded(centre, POS_LIMIT as int + 1),
            feet@ == seq![(-5i32, 0i32), (5i32, 0i32), (-5i32, 7i32), (5i32, 7i32)],
            forall|j: int| 0 <= j < f ==> foot_ok(centre, feet@[j].0 as int, feet@[j].1 as int, npc_pos@),
        decreases 4 - f,
    {
        let (dx, dy) = feet[f];
        let cx = crate::fixed::div_floor(centre.x + dx, 16);
        let cy = crate::fixed::div_floor(centre.y + dy, 16);
        if !walkable(cx, cy) {
            assert(!foot_ok(centre, feet@[f as int].0 as int, feet@[f as int].1 as int, npc_pos@));
            return false;
        }
        let mut i: usize = 0;
        while i < 5
            invariant
                i <= 5,
                f < 4,
                feet@ == seq![(-5i32, 0i32), (5i32, 0i32), (-5i32, 7i32), (5i32, 7i32)],
                dx == feet@[f as int].0,
                dy == feet@[f as int].1,
                cx == floor_div(centre.x + dx, 16),
                cy == floor_div(centre.y + dy, 16),
                forall|k: int| 0 <= k < i ==> cell_of(#[trigger] npc_pos@[k]) != (cx as int, cy as int),
            decreases 5 - i,
        {
            let npc = npc_pos[i];
            if crate::fixed::div_floor(npc.x, 16) == cx && crate::fixed::div_floor(npc.y, 16) == cy {
                assert(cell_of(npc_pos@[i as int]) == (cx as int, cy as int));
                assert(!no_npc_in((cx as int, cy as int), npc_pos@));
                assert(!foot_ok(centre, feet@[f as int].0 as int, feet@[f as int].1 as int, npc_pos@));
                return false;
            }
            i += 1;
        }
        assert(no_npc_in((cx as int, cy as int), npc_pos@));
        f += 1;
    }
    true
}

/// One frame's walking step of one pixel: first along x (if the hero can
/// stand there), then along y, so that walls slide instead of stick.
pub open spec fn walk_once(p: Vec2, dx: int, dy: int, npcs: Seq<Vec2>) -> Vec2 {
    let px = Vec2 { x: (p.x + dx) as i32, ..p };
    let p1 = if stand_ok(px, npcs) { px } else { p };
    let py = Vec2 { y: (p1.y + dy) as i32, ..p1 };
    if stand_ok(py, npcs) { py } else { p1 }
}

/// Where the hero looks after pressing direction (dx, dy).
pub open spec fn facing_for(dx: int, dy: int) -> Facing {
    if dy == 1 {
        Facing::Down
    } else if dy == -1 {
        Facing::Up
    } else {
        Facing::Side { left: dx < 0 }
    }
}

/// Law: walls slide instead of stick.  A walking step first tries the
/// sideways move, then the vertical one from wherever that left the hero:
/// a blocked direction is dropped and the other one still happens.
pub proof fn law_walls_slide(p: Vec2, dx: int, dy: int, npcs: Seq<Vec2>)
    ensures
        ({
            let side = Vec2 { x: (p.x + dx) as i32, y: p.y };
            let up_down = Vec2 { x: p.x, y: (p.y + dy) as i32 };
            let diagonal = Vec2 { x: (p.x + dx) as i32, y: (p.y + dy) as i32 };
            &&& stand_ok(side, npcs) && stand_ok(diagonal, npcs) ==> walk_once(p, dx, dy, npcs) == diagonal
            &&& stand_ok(side, npcs) && !stand_ok(diagonal, npcs) ==> walk_once(p, dx, dy, npcs) == side
            &&& !stand_ok(side, npcs) && stand_ok(up_down, npcs) ==> walk_once(p, dx, dy, npcs) == up_down
            &&& !stand_ok(side, npcs) && !stand_ok(up_down, npcs) ==> walk_once(p, dx, dy, npcs) == p
        }),
{
}

/// A walking step keeps the hero bounded: it either stays put or moves
/// onto a spot inside the map.
pub proof fn lemma_walk_once_bounded(p: Vec2, dx: int, dy: int, npcs: Seq<Vec2>)
    requires
        bounded(p, POS_LIMIT as int),
        -1 <= dx <= 1,
        -1 <= dy <= 1,
    ensures
        bounded(walk_once(p, dx, dy, npcs), POS_LIMIT as int),
{
    let px = Vec2 { x: (p.x + dx) as i32, ..p };
    if stand_ok(px, npcs) {
        lemma_stand_ok_inside(px, npcs);
    }
    let p1 = if stand_ok(px, npcs) { px } else { p };
    let py = Vec2 { y: (p1.y + dy) as i32, ..p1 };
    if stand_ok(py, npcs) {
        lemma_stand_ok_inside(py, npcs);
    }
}

/// Law: trees, bushes and challengers block the way; a walking hero either
/// stays where it is or ends on a spot where it can stand.
pub proof fn law_walking_only_onto_free_ground(p: Vec2, input: ButtonController, npcs: Seq<Vec2>)
    ensures
        walked(p, input, npcs) == p || stand_ok(walked(p, input, npcs), npcs),
{
    let dx = input.spec_x_tri();
    let dy = input.spec_y_tri();
    let once = walk_once(p, dx, dy, npcs);
    lemma_walk_once_free(p, dx, dy, npcs);
    lemma_walk_once_free(once, dx, dy, npcs);
}

/// A walking step either stays put or ends where the hero can stand.
pub proof fn lemma_walk_once_free(p: Vec2, dx: int, dy: int, npcs: Seq<Vec2>)
    ensures
        walk_once(p, dx, dy, npcs) == p || stand_ok(walk_once(p, dx, dy, npcs), npcs),
{
}

/// Move the hero from d-pad input (one pixel a frame, two while B is
/// held); returns whether a direction was pressed.
pub fn move_hero(state: &mut WorldState, npc_pos: &[Vec2; 5], input: &ButtonController, facing: &mut Facing) -> (moved: bool)
    requires
        old(state).wf(),
    ensures
        final(state).wf(),
        final(state).beaten == old(state).beaten,
        ({
            let dx = input.spec_x_tri();
            let dy = input.spec_y_tri();
            let once = walk_once(old(state).hero_pos, dx, dy, npc_pos@);
            if dx == 0 && dy == 0 {
                &&& !moved
                &&& final(state).hero_pos == old(state).hero_pos
                &&& *final(facing) == *old(facing)
            } else {
                &&& moved
                &&& *final(facing) == facing_for(dx, dy)
                &&& final(state).hero_pos == if input.pressed(Button::B) {
                    walk_once(once, dx, dy, npc_pos@)
                } else {
                    once
                }
            }
        }),
{
    let dx = input.x_tri();
    let dy = input.y_tri();
    if dx == 0 && dy == 0 {
        return false;
    }
    *facing = if dy == 1 {
        Facing::Down
    } else if dy == -1 {
        Facing::Up
    } else {
        Facing::Side { left: dx < 0 }
    };
    let speed: u32 = if input.is_pressed(Button::B) { 2 } else { 1 };
    let ghost start = state.hero_pos;
    let mut i: u32 = 0;
    while i < speed
        invariant
            i <= speed,
            speed == 1 || speed == 2,
            -1 <= dx <= 1,
            -1 <= dy <= 1,
            dx == input.spec_x_tri(),
            dy == input.spec_y_tri(),
            state.wf(),
            state.beaten == old(state).beaten,
            i == 0 ==> state.hero_pos == start,
            i == 1 ==> state.hero_pos == walk_once(start, dx as int, dy as int, npc_pos@),
            i == 2 ==> state.hero_pos == walk_once(walk_once(start, dx as int, dy as int, npc_pos@), dx as int, dy as int, npc_pos@),
        decreases speed - i,
    {
        let ghost p = state.hero_pos;
        proof {
            lemma_walk_once_bounded(p, dx as int, dy as int, npc_pos@);
        }
        // Per-axis movement so walls slide instead of stick.
        let step_x = Vec2 { x: state.hero_pos.x + dx, y: state.hero_pos.y };
        if can_stand(step_x, npc_pos) {
            state.hero_pos = step_x;
        }
        let step_y = Vec2 { x: state.hero_pos.x, y: state.hero_pos.y + dy };
        if can_stand(step_y, npc_pos) {
            state.hero_pos = step_y;
        }
        assert(state.hero_pos == walk_once(p, dx as int, dy as int, npc_pos@));
        i += 1;
    }
    true
}

/// Does unbeaten challenger `npc` notice the hero?  They do when the hero
/// walks within `SPOT_DISTANCE` pixels of their row.
pub open spec fn spots(state: WorldState, npc: int) -> bool {
    let d = state.hero_pos.y - (NPC_CELLS@[npc].1 * 16 + 8);
    !state.beaten@[npc] && -SPOT_DISTANCE <= d <= SPOT_DISTANCE
}

/// The first challenger from `n` on who notices the hero, or 5 if none.
pub open spec fn first_spotter_from(state: WorldState, n: int) -> int
    decreases 5 - n,
{
    if n >= 5 {
        5
    } else if spots(state, n) {
        n
    } else {
        first_spotter_from(state, n + 1)
    }
}

/// `first_spotter_from(state, n)` is the first spotter at or after `n`.
pub proof fn lemma_first_spotter(state: WorldState, n: int)
    requires
        0 <= n <= 5,
    ensures
        n <= first_spotter_from(state, n) <= 5,
        first_spotter_from(state, n) < 5 ==> spots(state, first_spotter_from(state, n)),
        forall|j: int| n <= j < first_spotter_from(state, n) ==> !spots(state, j),
    decreases 5 - n,
{
    if n < 5 {
        lemma_first_spotter(state, n + 1);
    }
}

/// The first unbeaten challenger who notices the hero, if any.
pub fn spotted_by(state: &WorldState) -> (r: Option<usize>)
    requires
        state.wf(),
    ensures
        r == if first_spotter_from(*state, 0) < 5 {
            Some(first_spotter_from(*state, 0) as usize)
        } else {
            None::<usize>
        },
        r is None <==> forall|j: int| 0 <= j < 5 ==> !spots(*state, j),
        r matches Some(n) ==> n < 5 && spots(*state, n as int) && forall|j: int| 0 <= j < n ==> !spots(*state, j),
{
    proof {
        lemma_first_spotter(*state, 0);
    }
    let mut npc: usize = 0;
    while npc < 5
        invariant
            npc <= 5,
            state.wf(),
            forall|j: int| 0 <= j < npc ==> !spots(*state, j),
            0 <= first_spotter_from(*state, 0) <= 5,
            first_spotter_from(*state, 0) < 5 ==> spots(*state, first_spotter_from(*state, 0)),
            forall|j: int| 0 <= j < first_spotter_from(*state, 0) ==> !spots(*state, j),
        decreases 5 - npc,
    {
        let d = state.hero_pos.y - (NPC_CELLS[npc].1 * 16 + 8);
        if !state.beaten[npc] && -SPOT_DISTANCE <= d && d <= SPOT_DISTANCE {
            assert(spots(*state, npc as int));
            return Some(npc);
        }
        npc += 1;
    }
    None
}

/// One pixel towards `target`: along x first, along y only once x lines up.
pub open spec fn toward(pos: Vec2, target: Vec2) -> Vec2 {
    let dx = target.x - pos.x;
    let dy = target.y - pos.y;
    Vec2 {
        x: (pos.x + sign(dx)) as i32,
        y: (if dx == 0 { pos.y + sign(dy) } else { pos.y as int }) as i32,
    }
}

/// One pixel towards `target` (see `toward`).
pub fn step_toward(pos: Vec2, target: Vec2) -> (r: Vec2)
    requires
        bounded(pos, POS_LIMIT as int + 64),
        bounded(target, POS_LIMIT as int + 64),
    ensures
        r == toward(pos, target),
        bounded(r, POS_LIMIT as int + 64),
{
    let dx = target.x - pos.x;
    let dy = target.y - pos.y;
    let x = pos.x + signum_i32(dx);
    let y = if dx == 0 { pos.y + signum_i32(dy) } else { pos.y };
    Vec2 { x, y }
}

// ---------------------------------------------------------------------------
// Drawing
// ---------------------------------------------------------------------------

/// The hero's sprite at `screen` (its centre): frames 0-2 face down, 3-5
/// up, 6-8 right (mirrored for left); the first of each three is standing,
/// the other two alternate every 8 frames while walking.
pub fn hero_sprite(screen: Vec2, facing: Facing, walking: bool, tick: u32) -> (s: Sprite)
    requires
        bounded(screen, POS_LIMIT as int + 0x1000),
    ensures
        s.frame == (match facing {
            Facing::Down => 0usize,
            Facing::Up => 3usize,
            Facing::Side { .. } => 6usize,
        }) + (if walking { 1 + (tick / 8) % 2 } else { 0 }),
        s.hflip == (facing == Facing::Side { left: true }),
        s.x == screen.x - 8,
        s.y == screen.y - 8,
{
    let base: usize = match facing {
        Facing::Down => 0,
        Facing::Up => 3,
        Facing::Side { .. } => 6,
    };
    let step: usize = if walking { 1 + ((tick / 8) % 2) as usize } else { 0 };
    let hflip = match facing {
        Facing::Side { left } => left,
        _ => false,
    };
    Sprite { frame: base + step, x: screen.x - 8, y: screen.y - 8, hflip }
}

/// Challenger `npc`'s sprite at `screen` (its centre), if on screen
/// (within 16 pixels vertically).
pub fn npc_sprite(npc: usize, screen: Vec2) -> (s: Option<Sprite>)
    requires
        bounded(screen, POS_LIMIT as int + 0x1000),
    ensures
        s == if -16 <= screen.y < SCREEN_HEIGHT + 16 {
            Some(Sprite { frame: npc, x: (screen.x - 8) as i32, y: (screen.y - 8) as i32, hflip: false })
        } else {
            None
        },
{
    if -16 <= screen.y && screen.y < SCREEN_HEIGHT + 16 {
        Some(Sprite { frame: npc, x: screen.x - 8, y: screen.y - 8, hflip: false })
    } else {
        None
    }
}

/// The "!" over a challenger's head at `screen` (their centre).
pub fn alert_sprite(screen: Vec2) -> (s: Sprite)
    requires
        bounded(screen, POS_LIMIT as int + 0x1000),
    ensures
        s == (Sprite { frame: 2, x: (screen.x - 4) as i32, y: (screen.y - 22) as i32, hflip: false }),
{
    Sprite { frame: 2, x: screen.x - 4, y: screen.y - 22, hflip: false }
}

// ---------------------------------------------------------------------------
// The scene
// ---------------------------------------------------------------------------

/// What happens once a conversation ends.
#[derive(Clone, Copy, PartialEq, Eq, Structural, Debug)]
pub enum AfterTalk {
    StartChallenge(usize),
    Nothing,
}

/// What the overworld is currently doing.  Exactly one of these runs per
/// frame; the world only animates and accepts movement in `Walk`.
#[allow(inconsistent_fields)]
pub enum Mode {
    Walk,
    /// A challenger spotted the hero: "!" over their head.
    Alert { npc: usize, timer: u32 },
    /// The challenger walks over to the hero.
    Approach { npc: usize },
    Talk { dialogue: Dialogue, then: AfterTalk },
    Toast { banner: Banner, timer: u32 },
    Paused { menu: Menu },
    Settings { menu: SettingsMenu },
}

/// The pause menu's entries.
pub const PAUSE_ITEMS: [&'static str; 4] = ["RESUME", "SAVE GAME", "SETTINGS", "QUIT TO TITLE"];

/// Tile row of the pause menu's top border.
pub const PAUSE_TOP_ROW: i32 = 5;

/// Said when the hero loses a challenge.
pub const LOST_PAGES: [&'static str; 2] = [
    "You're out of lives! Everything goes dark...",
    "...and you wake up back at the start of the road. Try again!",
];

/// What the caller should do after a frame of the overworld.
#[derive(Clone, Copy, Debug)]
pub enum WorldStep {
    /// Keep running the scene.
    Continue,
    /// Write this save to the cartridge, then keep running the scene.
    Save(SaveData),
    /// Leave the scene.
    Exit(WorldResult),
}

/// The pause menu, cursor on its first entry.
pub fn pause_menu() -> (m: Menu)
    ensures
        m.title == "PAUSED",
        m.item_texts() == PAUSE_ITEMS@.map_values(|s: &'static str| s@),
        m.items@.len() == 4,
        m.cursor == 0,
        m.top_row == PAUSE_TOP_ROW,
        m.bottom_row == PAUSE_TOP_ROW + 7,
{
    let mut items: Vec<String> = Vec::new();
    let mut i: usize = 0;
    while i < 4
        invariant
            i <= 4,
            items@.len() == i,
            forall|j: int| 0 <= j < i ==> (#[trigger] items@[j])@ == PAUSE_ITEMS@[j]@,
        decreases 4 - i,
    {
        items.push(String::from_str(PAUSE_ITEMS[i]));
        i += 1;
    }
    assert(items@.map_values(|s: String| s@) =~= PAUSE_ITEMS@.map_values(|s: &'static str| s@));
    proof {
        reveal_strlit("PAUSED");
    }
    Menu::new("PAUSED", items, PAUSE_TOP_ROW)
}

/// The overworld while it runs.
pub struct Overworld {
    /// Challenger positions (sprite centres).  They normally stand at their
    /// posts; during an encounter (or a post-win chat) they step out.
    pub npc_pos: [Vec2; 5],
    pub facing: Facing,
    /// Did the hero walk this frame?
    pub walking: bool,
    pub tick: u32,
    pub mode: Mode,
    /// Vertical scroll of the camera in pixels.
    pub camera_y: i32,
}

/// The camera's vertical scroll for a hero at height `y`: follow the hero,
/// clamped to the map.
pub open spec fn camera_for(y: int) -> int {
    clamp_int(y - SCREEN_HEIGHT / 2, 0, HEIGHT_PX - SCREEN_HEIGHT)
}

/// Challengers after a frame of walking: beaten ones wander back towards
/// their posts, the others stay.
pub open spec fn wander(npcs: Seq<Vec2>, beaten: Seq<bool>) -> Seq<Vec2> {
    Seq::new(5, |i: int| if beaten[i] { toward(npcs[i], post(i)) } else { npcs[i] })
}

/// Where the hero walks this frame (see `move_hero`).
pub open spec fn walked(p: Vec2, input: ButtonController, npcs: Seq<Vec2>) -> Vec2 {
    let dx = input.spec_x_tri();
    let dy = input.spec_y_tri();
    let once = walk_once(p, dx, dy, npcs);
    if dx == 0 && dy == 0 {
        p
    } else if input.pressed(Button::B) {
        walk_once(once, dx, dy, npcs)
    } else {
        once
    }
}

/// The frame counter after one more frame (`u32::wrapping_add(1)`).
pub open spec fn tick_after(t: u32) -> u32 {
    if t == u32::MAX {
        0
    } else {
        (t + 1) as u32
    }
}

/// Where a challenger walks to talk: just beside the hero, on the side the
/// challenger comes from.
pub open spec fn talk_spot(npc: Vec2, hero: Vec2) -> Vec2 {
    let side = if npc.x >= hero.x { 1int } else { -1int };
    Vec2 { x: (hero.x + side * TALK_OFFSET) as i32, y: hero.y }
}

impl Overworld {
    /// All positions bounded, timers running, indices in range, every
    /// dialogue well formed, and the pause and settings menus showing their
    /// entries.
    pub open spec fn wf(self) -> bool {
        &&& forall|i: int| 0 <= i < 5 ==> bounded(#[trigger] self.npc_pos@[i], POS_LIMIT + TALK_OFFSET)
        &&& match self.mode {
            Mode::Walk => true,
            Mode::Alert { npc, timer } => npc < NPC_COUNT && timer >= 1,
            Mode::Approach { npc } => npc < NPC_COUNT,
            Mode::Talk { dialogue, then } => dialogue.wf() && (then matches AfterTalk::StartChallenge(n) ==> n < NPC_COUNT),
            Mode::Toast { timer, .. } => timer >= 1,
            Mode::Paused { menu } => menu.items@.len() == 4,
            Mode::Settings { menu } => menu.menu.items@.len() == 3,
        }
    }

    /// Enter the overworld.  After a won challenge the beaten challenger
    /// comes over to congratulate the hero; after a lost one the hero wakes
    /// up at the start of the road and is told so; otherwise the hero just
    /// walks.  The overworld music starts.
    pub fn enter(state: &mut WorldState, entry: Option<EntryEvent>, audio: &mut Audio) -> (w: Overworld)
        requires
            old(state).wf(),
            entry matches Some(EntryEvent::WonLevel(n)) ==> n < NPC_COUNT,
        ensures
            w.wf(),
            final(state).wf(),
            final(state).beaten == old(state).beaten,
            w.facing == Facing::Up,
            w.busy_with_unbeaten(*final(state)),
            !w.walking,
            w.tick == 0,
            w.camera_y == camera_for(final(state).hero_pos.y as int),
            match entry {
                Some(EntryEvent::WonLevel(n)) => {
                    &&& final(state).hero_pos == old(state).hero_pos
                    &&& w.npc_pos@ == Seq::new(5, |i: int| if i == n {
                        Vec2 { x: (old(state).hero_pos.x + TALK_OFFSET) as i32, y: old(state).hero_pos.y }
                    } else {
                        post(i)
                    })
                    &&& w.mode matches Mode::Talk { dialogue, then } && then == AfterTalk::Nothing
                        && dialogue.pages == crate::levels::level_outro(n) && dialogue.next_page == 1
                        && dialogue.shown == 0 && !dialogue.page_done && dialogue.tick == 0
                },
                Some(EntryEvent::LostLevel) => {
                    &&& final(state).hero_pos == (Vec2 { x: HERO_START_X, y: HERO_START_Y })
                    &&& w.npc_pos@ == Seq::new(5, |i: int| post(i))
                    &&& w.mode matches Mode::Talk { dialogue, then } && then == AfterTalk::Nothing
                        && dialogue.pages@ == LOST_PAGES@ && dialogue.next_page == 1 && dialogue.shown
                        == 0 && !dialogue.page_done && dialogue.tick == 0
                },
                None => {
                    &&& final(state).hero_pos == old(state).hero_pos
                    &&& w.npc_pos@ == Seq::new(5, |i: int| post(i))
                    &&& w.mode is Walk
                },
            },
            final(audio).music_playing,
            final(audio).music_volume == old(audio).music_volume,
            final(audio).sfx_volume == old(audio).sfx_volume,
            final(audio).pending@ == old(audio).after_play(Music::Overworld),
    {
        let mut npc_pos: [Vec2; 5] = [Vec2 { x: 0, y: 0 }; 5];
        let mut i: usize = 0;
        while i < 5
            invariant
                i <= 5,
                forall|j: int| 0 <= j < i ==> #[trigger] npc_pos@[j] == post(j),
            decreases 5 - i,
        {
            let (cx, cy) = NPC_CELLS[i];
            npc_pos[i] = Vec2 { x: cx * 16 + 8, y: cy * 16 + 8 };
            i += 1;
        }
        let mode = match entry {
            Some(EntryEvent::WonLevel(npc)) => {
                // The beaten challenger comes over to congratulate the hero.
                npc_pos[npc] = Vec2 { x: state.hero_pos.x + TALK_OFFSET, y: state.hero_pos.y };
                Mode::Talk { dialogue: Dialogue::new(level(npc).outro), then: AfterTalk::Nothing }
            },
            Some(EntryEvent::LostLevel) => {
                state.hero_pos = Vec2 { x: HERO_START_X, y: HERO_START_Y };
                Mode::Talk { dialogue: Dialogue::new(&LOST_PAGES), then: AfterTalk::Nothing }
            },
            None => Mode::Walk,
        };
        audio.play_music(Music::Overworld);
        let camera_y = crate::fixed::clamp_i32(state.hero_pos.y - SCREEN_HEIGHT / 2, 0, HEIGHT_PX - SCREEN_HEIGHT);
        let w = Overworld { npc_pos, facing: Facing::Up, walking: false, tick: 0, mode, camera_y };
        assert(w.npc_pos@ =~= match entry {
            Some(EntryEvent::WonLevel(n)) => Seq::new(5, |i: int| if i == n {
                Vec2 { x: (old(state).hero_pos.x + TALK_OFFSET) as i32, y: old(state).hero_pos.y }
            } else {
                post(i)
            }),
            _ => Seq::new(5, |i: int| post(i)),
        });
        w
    }
}

/// Stepping towards a target stays within any bound that holds for both
/// ends.
pub proof fn lemma_toward_bounded(pos: Vec2, target: Vec2, limit: int)
    requires
        bounded(pos, limit),
        bounded(target, limit),
    ensures
        bounded(toward(pos, target), limit),
{
}

/// Have all challengers been beaten?
pub open spec fn all_beaten(beaten: Seq<bool>) -> bool {
    forall|i: int| 0 <= i < 5 ==> beaten[i]
}

/// Have all challengers been beaten?
pub fn everyone_beaten(state: &WorldState) -> (b: bool)
    ensures
        b == all_beaten(state.beaten@),
{
    let mut i: usize = 0;
    while i < 5
        invariant
            i <= 5,
            forall|j: int| 0 <= j < i ==> state.beaten@[j],
        decreases 5 - i,
    {
        if !state.beaten[i] {
            return false;
        }
        i += 1;
    }
    true
}

impl Overworld {
    /// The challenger the scene is busy with (one who spotted the hero,
    /// walks over, or is about to challenge) has not been beaten yet.
    pub open spec fn busy_with_unbeaten(self, state: WorldState) -> bool {
        match self.mode {
            Mode::Alert { npc, .. } => !state.beaten@[npc as int],
            Mode::Approach { npc } => !state.beaten@[npc as int],
            Mode::Talk { then, .. } => then matches AfterTalk::StartChallenge(n) ==> !state.beaten@[n as int],
            _ => true,
        }
    }

    /// The dialogue on screen (if any) can count one more frame.
    pub open spec fn dialogue_ready(self) -> bool {
        self.mode matches Mode::Talk { dialogue, .. } ==> dialogue.tick < u32::MAX
    }

    /// One frame of the overworld.  `page_groups` is how many glyph groups
    /// the font renderer cut the dialogue page on screen into (ignored when
    /// no dialogue is on screen).
    pub fn step(&mut self, state: &mut WorldState, input: &ButtonController, audio: &mut Audio, page_groups: usize) -> (r: WorldStep)
        requires
            old(self).wf(),
            old(state).wf(),
            old(self).dialogue_ready(),
        ensures
            final(state).wf(),
            !(r is Exit) ==> final(self).wf(),
            !(r is Exit) ==> final(self).camera_y == camera_for(final(state).hero_pos.y as int),
            final(self).tick == tick_after(old(self).tick),
            final(state).beaten == old(state).beaten,
            !(r is Exit) && old(self).busy_with_unbeaten(*old(state)) ==> final(self).busy_with_unbeaten(*final(state)),
            !(old(self).mode is Walk) ==> !final(self).walking && final(self).facing == old(self).facing
                && final(state).hero_pos == old(state).hero_pos,
            !(old(self).mode is Walk) && !(old(self).mode is Approach) ==> final(self).npc_pos == old(self).npc_pos,
            !(old(self).mode is Settings) ==> final(audio).music_volume == old(audio).music_volume
                && final(audio).sfx_volume == old(audio).sfx_volume && final(audio).music_playing
                == old(audio).music_playing,
            // Walking.
            old(self).mode is Walk ==> ({
                let dx = input.spec_x_tri();
                let dy = input.spec_y_tri();
                let moved = !(dx == 0 && dy == 0);
                let p = walked(old(state).hero_pos, *input, old(self).npc_pos@);
                let st = WorldState { hero_pos: p, beaten: old(state).beaten };
                &&& final(state).hero_pos == p
                &&& final(self).walking == moved
                &&& final(self).facing == if moved { facing_for(dx, dy) } else { old(self).facing }
                &&& final(self).npc_pos@ == wander(old(self).npc_pos@, old(state).beaten@)
                &&& if input.just_pressed(Button::Start) {
                    &&& r is Continue
                    &&& final(self).mode matches Mode::Paused { menu } && menu.title == "PAUSED"
                        && menu.item_texts() == PAUSE_ITEMS@.map_values(|s: &'static str| s@)
                        && menu.cursor == 0 && menu.top_row == PAUSE_TOP_ROW && menu.bottom_row == PAUSE_TOP_ROW + 7
                    &&& final(audio).pending@ == Audio::after_sfx(old(audio).pending@, old(audio).sfx_volume, Sfx::MenuSelect)
                } else if first_spotter_from(st, 0) < 5 {
                    &&& r is Continue
                    &&& final(self).mode == Mode::Alert { npc: first_spotter_from(st, 0) as usize, timer: ALERT_FRAMES }
                    &&& final(audio).pending@ == Audio::after_sfx(old(audio).pending@, old(audio).sfx_volume, Sfx::TalkBlip)
                } else if all_beaten(old(state).beaten@) && crate::fixed::trunc_div(p.y as int, 16) <= GOAL_ROW {
                    &&& r matches WorldStep::Exit(WorldResult::Finished)
                    &&& final(audio).pending@ == old(audio).pending@
                } else {
                    &&& r is Continue
                    &&& final(self).mode is Walk
                    &&& final(audio).pending@ == old(audio).pending@
                }
            }),
            // The "!" moment.
            old(self).mode matches Mode::Alert { npc, timer } ==> {
                &&& r is Continue
                &&& final(self).mode == if timer == 1 {
                    Mode::Approach { npc }
                } else {
                    Mode::Alert { npc, timer: (timer - 1) as u32 }
                }
                &&& final(audio).pending@ == old(audio).pending@
            },
            // The challenger walks over.
            old(self).mode matches Mode::Approach { npc } ==> ({
                let from = old(self).npc_pos@[npc as int];
                let target = talk_spot(from, old(state).hero_pos);
                &&& r is Continue
                &&& final(self).npc_pos@ == old(self).npc_pos@.update(npc as int, toward(from, target))
                &&& final(audio).pending@ == old(audio).pending@
                &&& if from == target {
                    final(self).mode matches Mode::Talk { dialogue, then } && then == AfterTalk::StartChallenge(npc)
                        && dialogue.pages == crate::levels::level_intro(npc) && dialogue.next_page == 1
                        && dialogue.shown == 0 && !dialogue.page_done && dialogue.tick == 0
                } else {
                    final(self).mode == Mode::Approach { npc }
                }
            }),
            // Talking.
            old(self).mode matches Mode::Talk { dialogue, then } ==> {
                &&& final(audio).pending@ == Audio::after_sfxs(
                    old(audio).pending@,
                    old(audio).sfx_volume,
                    dialogue.sounds(*input, page_groups),
                )
                &&& if dialogue.finishes(*input) {
                    match then {
                        AfterTalk::StartChallenge(n) => r matches WorldStep::Exit(WorldResult::Challenge(m)) && m == n,
                        AfterTalk::Nothing => r is Continue && final(self).mode is Walk,
                    }
                } else {
                    r is Continue && final(self).mode == Mode::Talk { dialogue: dialogue.updated(*input, page_groups), then }
                }
            },
            // The "GAME SAVED!" toast.
            old(self).mode matches Mode::Toast { banner, timer } ==> {
                &&& r is Continue
                &&& final(self).mode == if timer == 1 {
                    Mode::Walk
                } else {
                    Mode::Toast { banner, timer: (timer - 1) as u32 }
                }
                &&& final(audio).pending@ == old(audio).pending@
            },
            // The pause menu.
            old(self).mode matches Mode::Paused { menu } ==> ({
                let action = menu.action_after(*input);
                let p = Audio::after_sfxs(old(audio).pending@, old(audio).sfx_volume, menu.sounds_after(*input));
                match action {
                    MenuAction::Selected(0) | MenuAction::Back => {
                        r is Continue && final(self).mode is Walk && final(audio).pending@ == p
                    },
                    MenuAction::Selected(1) => {
                        &&& r matches WorldStep::Save(d) && d.hero_x == old(state).hero_pos.x && d.hero_y
                            == old(state).hero_pos.y && d.beaten == old(state).beaten && d.music_volume
                            == old(audio).music_volume && d.sfx_volume == old(audio).sfx_volume
                        &&& final(self).mode matches Mode::Toast { banner, timer } && banner.message@ == "GAME SAVED!"@
                            && banner.top_row == 8 && banner.bottom_row == 11 && timer == TOAST_FRAMES
                        &&& final(audio).pending@ == Audio::after_sfx(p, old(audio).sfx_volume, Sfx::SaveChime)
                    },
                    MenuAction::Selected(2) => {
                        &&& r is Continue
                        &&& final(self).mode matches Mode::Settings { menu } && menu.menu.title == "SETTINGS"
                            && menu.menu.item_texts() == crate::text::settings_labels(
                            old(audio).music_volume,
                            old(audio).sfx_volume,
                        ) && menu.menu.cursor == 0 && menu.menu.top_row == crate::text::SETTINGS_TOP_ROW
                            && menu.menu.bottom_row == crate::text::SETTINGS_TOP_ROW + 6
                        &&& final(audio).pending@ == p
                    },
                    MenuAction::Selected(3) => {
                        r matches WorldStep::Exit(WorldResult::QuitToTitle) && final(audio).pending@ == p
                    },
                    _ => {
                        &&& r is Continue
                        &&& final(self).mode matches Mode::Paused { menu: m } && m.cursor == menu.cursor_after(*input)
                            && m.items@ == menu.items@ && m.title == menu.title && m.top_row == menu.top_row
                            && m.bottom_row == menu.bottom_row
                        &&& final(audio).pending@ == p
                    },
                }
            }),
            // The settings screen.
            old(self).mode matches Mode::Settings { menu } ==> ({
                &&& r is Continue
                &&& crate::text::settings_audio(menu.menu, *input, *old(audio), *final(audio))
                &&& if crate::text::settings_exit(menu.menu, *input) {
                    final(self).mode is Walk
                } else {
                    final(self).mode matches Mode::Settings { menu: m } && crate::text::settings_menu_after(
                        menu.menu,
                        *input,
                        *old(audio),
                        m.menu,
                    )
                }
            }),
    {
        self.tick = self.tick.wrapping_add(1);
        self.walking = false;
        let mut result = WorldStep::Continue;
        let mut mode = Mode::Walk;
        std::mem::swap(&mut mode, &mut self.mode);
        match mode {
            Mode::Walk => {
                let r = self.walk_frame(state, input, audio);
                proof {
                    lemma_first_spotter(*state, 0);
                }
                if let WorldStep::Exit(_) = r {
                    return r;
                }
            },
            Mode::Alert { npc, timer } => {
                let timer = timer - 1;
                if timer == 0 {
                    self.mode = Mode::Approach { npc };
                } else {
                    self.mode = Mode::Alert { npc, timer };
                }
            },
            Mode::Approach { npc } => {
                self.approach_frame(npc, state);
            },
            Mode::Talk { mut dialogue, then } => {
                if dialogue.update(input, audio, page_groups) {
                    match then {
                        AfterTalk::StartChallenge(npc) => {
                            return WorldStep::Exit(WorldResult::Challenge(npc));
                        },
                        AfterTalk::Nothing => {
                            self.mode = Mode::Walk;
                        },
                    }
                } else {
                    self.mode = Mode::Talk { dialogue, then };
                }
            },
            Mode::Toast { banner, timer } => {
                let timer = timer - 1;
                if timer == 0 {
                    self.mode = Mode::Walk;
                } else {
                    self.mode = Mode::Toast { banner, timer };
                }
            },
            Mode::Paused { mut menu } => {
                let action = menu.update(input, audio);
                match action {
                    MenuAction::Selected(0) | MenuAction::Back => {
                        self.mode = Mode::Walk;
                    },
                    MenuAction::Selected(1) => {
                        let data = state.to_save(audio);
                        audio.sfx(Sfx::SaveChime);
                        self.mode = Mode::Toast { banner: Banner::new("GAME SAVED!", 8, 11), timer: TOAST_FRAMES };
                        result = WorldStep::Save(data);
                    },
                    MenuAction::Selected(2) => {
                        self.mode = Mode::Settings { menu: SettingsMenu::new(audio) };
                    },
                    MenuAction::Selected(3) => {
                        return WorldStep::Exit(WorldResult::QuitToTitle);
                    },
                    _ => {
                        self.mode = Mode::Paused { menu };
                    },
                }
            },
            Mode::Settings { mut menu } => {
                if menu.update(input, audio) {
                    self.mode = Mode::Walk;
                } else {
                    self.mode = Mode::Settings { menu };
                }
            },
        }
        // Camera: vertical follow, clamped to the map.
        self.camera_y = crate::fixed::clamp_i32(state.hero_pos.y - SCREEN_HEIGHT / 2, 0, HEIGHT_PX - SCREEN_HEIGHT);
        result
    }

    /// The challenger showing the "!" this frame, if any.
    pub fn alerted(&self) -> (n: Option<usize>)
        ensures
            n == match self.mode {
                Mode::Alert { npc, .. } => Some(npc),
                _ => None::<usize>,
            },
    {
        match self.mode {
            Mode::Alert { npc, .. } => Some(npc),
            _ => None,
        }
    }
}

impl Overworld {
    /// The walking part of a frame (see `step`).
    fn walk_frame(&mut self, state: &mut WorldState, input: &ButtonController, audio: &mut Audio) -> (r: WorldStep)
        requires
            old(state).wf(),
            old(self).mode is Walk,
            forall|i: int| 0 <= i < 5 ==> bounded(#[trigger] old(self).npc_pos@[i], POS_LIMIT + TALK_OFFSET),
        ensures
            final(state).wf(),
            final(state).beaten == old(state).beaten,
            final(self).tick == old(self).tick,
            forall|i: int| 0 <= i < 5 ==> bounded(#[trigger] final(self).npc_pos@[i], POS_LIMIT + TALK_OFFSET),
            final(self).mode is Walk || final(self).mode is Alert || final(self).mode is Paused,
            final(self).mode matches Mode::Alert { npc, timer } ==> npc < NPC_COUNT && timer >= 1,
            final(self).mode matches Mode::Paused { menu } ==> menu.items@.len() == 4,
            final(audio).music_volume == old(audio).music_volume,
            final(audio).sfx_volume == old(audio).sfx_volume,
            final(audio).music_playing == old(audio).music_playing,
            ({
                let dx = input.spec_x_tri();
                let dy = input.spec_y_tri();
                let moved = !(dx == 0 && dy == 0);
                let p = walked(old(state).hero_pos, *input, old(self).npc_pos@);
                let st = WorldState { hero_pos: p, beaten: old(state).beaten };
                &&& final(state).hero_pos == p
                &&& final(self).walking == moved
                &&& final(self).facing == if moved { facing_for(dx, dy) } else { old(self).facing }
                &&& final(self).npc_pos@ == wander(old(self).npc_pos@, old(state).beaten@)
                &&& if input.just_pressed(Button::Start) {
                    &&& r is Continue
                    &&& final(self).mode matches Mode::Paused { menu } && menu.title == "PAUSED"
                        && menu.item_texts() == PAUSE_ITEMS@.map_values(|s: &'static str| s@)
                        && menu.cursor == 0 && menu.top_row == PAUSE_TOP_ROW && menu.bottom_row == PAUSE_TOP_ROW + 7
                    &&& final(audio).pending@ == Audio::after_sfx(old(audio).pending@, old(audio).sfx_volume, Sfx::MenuSelect)
                } else if first_spotter_from(st, 0) < 5 {
                    &&& r is Continue
                    &&& final(self).mode == Mode::Alert { npc: first_spotter_from(st, 0) as usize, timer: ALERT_FRAMES }
                    &&& final(audio).pending@ == Audio::after_sfx(old(audio).pending@, old(audio).sfx_volume, Sfx::TalkBlip)
                } else if all_beaten(old(state).beaten@) && crate::fixed::trunc_div(p.y as int, 16) <= GOAL_ROW {
                    &&& r matches WorldStep::Exit(WorldResult::Finished)
                    &&& final(audio).pending@ == old(audio).pending@
                } else {
                    &&& r is Continue
                    &&& final(self).mode is Walk
                    &&& final(audio).pending@ == old(audio).pending@
                }
            }),
    {
        let ghost npcs0 = self.npc_pos@;
        let mut facing = self.facing;
        self.walking = move_hero(state, &self.npc_pos, input, &mut facing);
        self.facing = facing;
        let ghost tick1 = self.tick;
        let ghost walking1 = self.walking;
        let ghost facing1 = self.facing;
        let ghost camera0 = self.camera_y;
        // Beaten challengers wander back to their roadside posts.
        let mut npc: usize = 0;
        while npc < 5
            invariant
                npc <= 5,
                self.tick == tick1,
                self.walking == walking1,
                self.facing == facing1,
                self.mode is Walk,
                npcs0.len() == 5,
                forall|i: int| 0 <= i < 5 ==> bounded(#[trigger] npcs0[i], POS_LIMIT + TALK_OFFSET),
                forall|i: int| 0 <= i < npc ==> self.npc_pos@[i] == #[trigger] wander(npcs0, state.beaten@)[i],
                forall|i: int| npc <= i < 5 ==> self.npc_pos@[i] == #[trigger] npcs0[i],
            decreases 5 - npc,
        {
            if state.beaten[npc] {
                let (cx, cy) = NPC_CELLS[npc];
                let home = Vec2 { x: cx * 16 + 8, y: cy * 16 + 8 };
                assert(home == post(npc as int));
                assert(bounded(npcs0[npc as int], POS_LIMIT + TALK_OFFSET));
                self.npc_pos[npc] = step_toward(self.npc_pos[npc], home);
            }
            npc += 1;
        }
        assert(self.npc_pos@ =~= wander(npcs0, state.beaten@));
        proof {
            assert forall|i: int| 0 <= i < 5 implies bounded(#[trigger] self.npc_pos@[i], POS_LIMIT + TALK_OFFSET) by {
                assert(self.npc_pos@[i] == wander(npcs0, state.beaten@)[i]);
                if state.beaten@[i] {
                    lemma_toward_bounded(npcs0[i], post(i), POS_LIMIT + TALK_OFFSET);
                }
            }
        }
        if input.is_just_pressed(Button::Start) {
            audio.sfx(Sfx::MenuSelect);
            self.mode = Mode::Paused { menu: pause_menu() };
        } else {
            match spotted_by(state) {
                Some(npc) => {
                    audio.sfx(Sfx::TalkBlip);
                    self.mode = Mode::Alert { npc, timer: ALERT_FRAMES };
                },
                None => {
                    if everyone_beaten(state) && state.hero_pos.y / 16 <= GOAL_ROW {
                        return WorldStep::Exit(WorldResult::Finished);
                    }
                },
            }
        }
        WorldStep::Continue
    }

    /// The approaching part of a frame (see `step`).
    fn approach_frame(&mut self, npc: usize, state: &WorldState)
        requires
            npc < NPC_COUNT,
            state.wf(),
            old(self).mode is Walk,
            forall|i: int| 0 <= i < 5 ==> bounded(#[trigger] old(self).npc_pos@[i], POS_LIMIT + TALK_OFFSET),
        ensures
            final(self).tick == old(self).tick,
            final(self).walking == old(self).walking,
            final(self).facing == old(self).facing,
            final(self).camera_y == old(self).camera_y,
            forall|i: int| 0 <= i < 5 ==> bounded(#[trigger] final(self).npc_pos@[i], POS_LIMIT + TALK_OFFSET),
            ({
                let from = old(self).npc_pos@[npc as int];
                let target = talk_spot(from, state.hero_pos);
                &&& final(self).npc_pos@ == old(self).npc_pos@.update(npc as int, toward(from, target))
                &&& if from == target {
                    final(self).mode matches Mode::Talk { dialogue, then } && then == AfterTalk::StartChallenge(npc)
                        && dialogue.wf() && dialogue.pages == crate::levels::level_intro(npc) && dialogue.next_page == 1
                        && dialogue.shown == 0 && !dialogue.page_done && dialogue.tick == 0
                } else {
                    final(self).mode == Mode::Approach { npc }
                }
            }),
    {
        // Walk to just beside the hero, x first, then y.
        let from = self.npc_pos[npc];
        let side: i32 = if from.x >= state.hero_pos.x { 1 } else { -1 };
        let target = Vec2 { x: state.hero_pos.x + side * TALK_OFFSET, y: state.hero_pos.y };
        proof {
            lemma_toward_bounded(from, target, POS_LIMIT + TALK_OFFSET);
        }
        self.npc_pos[npc] = step_toward(from, target);
        if target.x == from.x && target.y == from.y {
            self.mode = Mode::Talk { dialogue: Dialogue::new(level(npc).intro), then: AfterTalk::StartChallenge(npc) };
        } else {
            self.mode = Mode::Approach { npc };
        }
    }
}

} // verus!
