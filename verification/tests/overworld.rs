use cyber_jum::audio::{Audio, MixerCommand, Music, Sfx};
use cyber_jum::fixed::{Sprite, Vec2};
use cyber_jum::input::{Button, ButtonController};
use cyber_jum::overworld::{
    alert_sprite, can_stand, everyone_beaten, hero_sprite, npc_sprite, pause_menu, spotted_by,
    step_toward, AfterTalk, EntryEvent, Facing, Mode, Overworld, WorldResult, WorldState,
    WorldStep, ALERT_FRAMES, LOST_PAGES, TOAST_FRAMES,
};
use cyber_jum::save::SaveData;
use cyber_jum::world_map::{HERO_START_X, HERO_START_Y};

fn idle() -> ButtonController {
    ButtonController::new(0)
}

fn held(buttons: u16) -> ButtonController {
    ButtonController::new(buttons)
}

fn press(buttons: u16) -> ButtonController {
    let mut c = ButtonController::new(0);
    c.update_with_state(buttons);
    c
}

fn posts() -> [Vec2; 5] {
    [
        Vec2 { x: 168, y: 840 },
        Vec2 { x: 72, y: 680 },
        Vec2 { x: 168, y: 520 },
        Vec2 { x: 72, y: 360 },
        Vec2 { x: 168, y: 200 },
    ]
}

fn new_game() -> WorldState {
    WorldState::from_save(&SaveData::default())
}

fn step(w: &mut Overworld, s: &mut WorldState, input: &ButtonController, audio: &mut Audio) -> WorldStep {
    w.step(s, input, audio, 5)
}

#[test]
fn entering_starts_the_music_and_the_walk() {
    let mut audio = Audio::new(7, 8);
    let mut state = new_game();
    let w = Overworld::enter(&mut state, None, &mut audio);
    assert!(matches!(w.mode, Mode::Walk));
    assert_eq!(w.npc_pos, posts());
    assert_eq!(w.facing, Facing::Up);
    assert_eq!(w.tick, 0);
    assert_eq!(state.hero_pos, Vec2 { x: HERO_START_X, y: HERO_START_Y });
    // 968 - 80 clamped to the last screenful (1024 - 160).
    assert_eq!(w.camera_y, 864);
    assert_eq!(audio.frame(), vec![MixerCommand::PlayMusic { track: Music::Overworld, gain: 179 }]);
}

#[test]
fn losing_wakes_the_hero_at_the_start() {
    let mut audio = Audio::new(7, 8);
    let mut state = new_game();
    state.hero_pos = Vec2 { x: 120, y: 500 };
    let w = Overworld::enter(&mut state, Some(EntryEvent::LostLevel), &mut audio);
    assert_eq!(state.hero_pos, Vec2 { x: HERO_START_X, y: HERO_START_Y });
    match &w.mode {
        Mode::Talk { dialogue, then } => {
            assert_eq!(*then, AfterTalk::Nothing);
            assert_eq!(dialogue.current_page(), LOST_PAGES[0]);
        }
        _ => panic!("expected a dialogue"),
    }
}

#[test]
fn the_beaten_challenger_comes_to_congratulate() {
    let mut audio = Audio::new(7, 8);
    let mut state = new_game();
    state.hero_pos = Vec2 { x: 120, y: 540 };
    state.beaten[2] = true;
    let w = Overworld::enter(&mut state, Some(EntryEvent::WonLevel(2)), &mut audio);
    assert_eq!(state.hero_pos, Vec2 { x: 120, y: 540 });
    assert_eq!(w.npc_pos[2], Vec2 { x: 138, y: 540 });
    assert_eq!(w.npc_pos[0], posts()[0]);
    assert!(matches!(w.mode, Mode::Talk { then: AfterTalk::Nothing, .. }));
}

#[test]
fn trees_block_the_way_left() {
    let mut audio = Audio::new(7, 8);
    let mut state = new_game();
    let mut w = Overworld::enter(&mut state, None, &mut audio);
    for _ in 0..100 {
        assert!(matches!(step(&mut w, &mut state, &held(Button::Left.mask()), &mut audio), WorldStep::Continue));
    }
    // The left foot (x - 5) stops at the edge of the tree column.
    assert_eq!(state.hero_pos, Vec2 { x: 37, y: HERO_START_Y });
    assert_eq!(w.facing, Facing::Side { left: true });
    assert!(w.walking);
}

#[test]
fn b_runs_two_pixels_a_frame() {
    let mut audio = Audio::new(7, 8);
    let mut state = new_game();
    let mut w = Overworld::enter(&mut state, None, &mut audio);
    step(&mut w, &mut state, &held(Button::Up.mask() | Button::B.mask()), &mut audio);
    assert_eq!(state.hero_pos, Vec2 { x: HERO_START_X, y: HERO_START_Y - 2 });
    step(&mut w, &mut state, &held(Button::Down.mask()), &mut audio);
    assert_eq!(state.hero_pos, Vec2 { x: HERO_START_X, y: HERO_START_Y - 1 });
    assert_eq!(w.facing, Facing::Down);
    step(&mut w, &mut state, &idle(), &mut audio);
    assert!(!w.walking);
    assert_eq!(w.facing, Facing::Down);
}

#[test]
fn a_challenger_spots_approaches_and_challenges() {
    let mut audio = Audio::new(7, 8);
    let mut state = new_game();
    let mut w = Overworld::enter(&mut state, None, &mut audio);
    audio.frame();
    let mut frames = 0;
    while matches!(w.mode, Mode::Walk) {
        step(&mut w, &mut state, &held(Button::Up.mask()), &mut audio);
        frames += 1;
        assert!(frames < 200);
    }
    // The kid's row is y = 840; they notice the hero 24 pixels below it.
    assert_eq!(state.hero_pos.y, 864);
    assert_eq!(w.alerted(), Some(0));
    assert!(matches!(w.mode, Mode::Alert { npc: 0, timer: ALERT_FRAMES }));
    assert_eq!(audio.frame(), vec![MixerCommand::PlaySfx { effect: Sfx::TalkBlip, gain: 204 }]);
    for _ in 0..ALERT_FRAMES {
        assert_eq!(w.alerted(), Some(0));
        step(&mut w, &mut state, &held(Button::Up.mask()), &mut audio);
    }
    assert!(matches!(w.mode, Mode::Approach { npc: 0 }));
    // The hero cannot move meanwhile.
    assert_eq!(state.hero_pos.y, 864);
    let mut frames = 0;
    while matches!(w.mode, Mode::Approach { .. }) {
        step(&mut w, &mut state, &idle(), &mut audio);
        frames += 1;
        assert!(frames < 200);
    }
    // x first (168 -> 130), then y (840 -> 864), then one frame to notice.
    assert_eq!(frames, 38 + 24 + 1);
    assert_eq!(w.npc_pos[0], Vec2 { x: 130, y: 864 });
    assert!(matches!(w.mode, Mode::Talk { then: AfterTalk::StartChallenge(0), .. }));
    let mut result = WorldStep::Continue;
    for i in 0..100 {
        let input = if i % 2 == 0 { press(Button::A.mask()) } else { idle() };
        result = step(&mut w, &mut state, &input, &mut audio);
        if !matches!(result, WorldStep::Continue) {
            break;
        }
    }
    assert!(matches!(result, WorldStep::Exit(WorldResult::Challenge(0))));
}

#[test]
fn saving_from_the_pause_menu() {
    let mut audio = Audio::new(7, 8);
    let mut state = new_game();
    state.beaten[1] = true;
    let mut w = Overworld::enter(&mut state, None, &mut audio);
    audio.frame();
    step(&mut w, &mut state, &press(Button::Start.mask()), &mut audio);
    match &w.mode {
        Mode::Paused { menu } => assert_eq!(menu.cursor, 0),
        _ => panic!("expected the pause menu"),
    }
    assert_eq!(audio.frame(), vec![MixerCommand::PlaySfx { effect: Sfx::MenuSelect, gain: 204 }]);
    step(&mut w, &mut state, &press(Button::Down.mask()), &mut audio);
    let r = step(&mut w, &mut state, &press(Button::A.mask()), &mut audio);
    match r {
        WorldStep::Save(d) => {
            assert_eq!(d.hero_x, HERO_START_X);
            assert_eq!(d.hero_y, HERO_START_Y);
            assert_eq!(d.beaten, [false, true, false, false, false]);
            assert_eq!(d.music_volume, 7);
            assert_eq!(d.sfx_volume, 8);
        }
        _ => panic!("expected a save"),
    }
    match &w.mode {
        Mode::Toast { banner, timer } => {
            assert_eq!(banner.message, "GAME SAVED!");
            assert_eq!(*timer, TOAST_FRAMES);
        }
        _ => panic!("expected the toast"),
    }
    let sounds = audio.frame();
    assert_eq!(sounds.last(), Some(&MixerCommand::PlaySfx { effect: Sfx::SaveChime, gain: 204 }));
    for _ in 0..TOAST_FRAMES {
        assert!(matches!(w.mode, Mode::Toast { .. }));
        step(&mut w, &mut state, &held(Button::Up.mask()), &mut audio);
    }
    assert!(matches!(w.mode, Mode::Walk));
    assert_eq!(state.hero_pos.y, HERO_START_Y);
}

#[test]
fn pause_menu_resume_settings_and_quit() {
    let mut audio = Audio::new(7, 8);
    let mut state = new_game();
    let mut w = Overworld::enter(&mut state, None, &mut audio);
    step(&mut w, &mut state, &press(Button::Start.mask()), &mut audio);
    step(&mut w, &mut state, &press(Button::B.mask()), &mut audio);
    assert!(matches!(w.mode, Mode::Walk));

    step(&mut w, &mut state, &press(Button::Start.mask()), &mut audio);
    step(&mut w, &mut state, &press(Button::Down.mask()), &mut audio);
    step(&mut w, &mut state, &press(Button::Down.mask()), &mut audio);
    step(&mut w, &mut state, &press(Button::A.mask()), &mut audio);
    assert!(matches!(w.mode, Mode::Settings { .. }));
    step(&mut w, &mut state, &press(Button::Right.mask()), &mut audio);
    assert_eq!(audio.music_volume(), 8);
    step(&mut w, &mut state, &press(Button::B.mask()), &mut audio);
    assert!(matches!(w.mode, Mode::Walk));

    step(&mut w, &mut state, &press(Button::Start.mask()), &mut audio);
    for _ in 0..3 {
        step(&mut w, &mut state, &press(Button::Down.mask()), &mut audio);
    }
    let r = step(&mut w, &mut state, &press(Button::A.mask()), &mut audio);
    assert!(matches!(r, WorldStep::Exit(WorldResult::QuitToTitle)));
}

#[test]
fn walking_off_the_top_after_beating_everyone_ends_the_game() {
    let mut audio = Audio::new(7, 8);
    let mut state = new_game();
    state.beaten = [true; 5];
    state.hero_pos = Vec2 { x: 120, y: 64 };
    let mut w = Overworld::enter(&mut state, None, &mut audio);
    let r = step(&mut w, &mut state, &held(Button::Up.mask()), &mut audio);
    assert_eq!(state.hero_pos.y, 63);
    assert!(matches!(r, WorldStep::Exit(WorldResult::Finished)));
}

#[test]
fn the_top_is_only_the_end_once_everyone_is_beaten() {
    let mut audio = Audio::new(7, 8);
    let mut state = new_game();
    state.beaten = [true, true, true, true, false];
    state.hero_pos = Vec2 { x: 120, y: 64 };
    let mut w = Overworld::enter(&mut state, None, &mut audio);
    let r = step(&mut w, &mut state, &held(Button::Up.mask()), &mut audio);
    assert!(matches!(r, WorldStep::Continue));
    assert!(!everyone_beaten(&state));
    state.beaten[4] = true;
    assert!(everyone_beaten(&state));
}

#[test]
fn beaten_challengers_wander_home() {
    let mut audio = Audio::new(7, 8);
    let mut state = new_game();
    state.beaten[2] = true;
    state.hero_pos = Vec2 { x: 120, y: 540 };
    let mut w = Overworld::enter(&mut state, Some(EntryEvent::WonLevel(2)), &mut audio);
    for i in 0..100 {
        let input = if i % 2 == 0 { press(Button::A.mask()) } else { idle() };
        step(&mut w, &mut state, &input, &mut audio);
        if matches!(w.mode, Mode::Walk) {
            break;
        }
    }
    assert!(matches!(w.mode, Mode::Walk));
    let before = w.npc_pos[2];
    step(&mut w, &mut state, &idle(), &mut audio);
    assert_eq!(w.npc_pos[2], step_toward(before, posts()[2]));
    assert_eq!(w.npc_pos[0], posts()[0]);
}

#[test]
fn spotting_skips_beaten_challengers() {
    let mut state = new_game();
    state.hero_pos = Vec2 { x: 120, y: 850 };
    assert_eq!(spotted_by(&state), Some(0));
    state.beaten[0] = true;
    assert_eq!(spotted_by(&state), None);
    state.hero_pos = Vec2 { x: 120, y: 700 };
    assert_eq!(spotted_by(&state), Some(1));
    state.hero_pos = Vec2 { x: 120, y: 705 };
    assert_eq!(spotted_by(&state), None);
}

#[test]
fn standing_needs_free_ground() {
    let npcs = posts();
    assert!(can_stand(Vec2 { x: HERO_START_X, y: HERO_START_Y }, &npcs));
    assert!(!can_stand(Vec2 { x: 36, y: HERO_START_Y }, &npcs));
    // A challenger's cell blocks too.
    assert!(!can_stand(Vec2 { x: 168, y: 836 }, &npcs));
    assert!(can_stand(Vec2 { x: 168, y: 800 }, &npcs));
}

#[test]
fn stepping_goes_along_x_first() {
    let from = Vec2 { x: 10, y: 10 };
    assert_eq!(step_toward(from, Vec2 { x: 5, y: 20 }), Vec2 { x: 9, y: 10 });
    assert_eq!(step_toward(from, Vec2 { x: 10, y: 20 }), Vec2 { x: 10, y: 11 });
    assert_eq!(step_toward(from, from), from);
}

#[test]
fn sprites_follow_facing_and_walk_cycle() {
    let at = Vec2 { x: 100, y: 50 };
    assert_eq!(hero_sprite(at, Facing::Down, false, 0), Sprite { frame: 0, x: 92, y: 42, hflip: false });
    assert_eq!(hero_sprite(at, Facing::Up, true, 0).frame, 4);
    assert_eq!(hero_sprite(at, Facing::Up, true, 8).frame, 5);
    let left = hero_sprite(at, Facing::Side { left: true }, true, 16);
    assert_eq!(left.frame, 7);
    assert!(left.hflip);
    assert_eq!(npc_sprite(3, at), Some(Sprite { frame: 3, x: 92, y: 42, hflip: false }));
    assert_eq!(npc_sprite(3, Vec2 { x: 100, y: 200 }), None);
    assert_eq!(alert_sprite(at), Sprite { frame: 2, x: 96, y: 28, hflip: false });
}

#[test]
fn pause_menu_lists_its_entries() {
    let m = pause_menu();
    assert_eq!(m.render_text(), "PAUSED\n> RESUME\n  SAVE GAME\n  SETTINGS\n  QUIT TO TITLE");
    assert_eq!(m.bottom_row, 12);
}

#[test]
fn a_save_round_trips() {
    let mut audio = Audio::new(3, 9);
    let mut state = new_game();
    state.hero_pos = Vec2 { x: 40, y: 300 };
    state.beaten = [true, false, true, false, false];
    let d = state.to_save(&audio);
    let back = WorldState::from_save(&d);
    assert_eq!(back.hero_pos, state.hero_pos);
    assert_eq!(back.beaten, state.beaten);
    assert_eq!((d.music_volume, d.sfx_volume), (3, 9));
    audio.frame();
}
