use cyber_jum::audio::{Audio, MixerCommand, Music, Sfx};
use cyber_jum::fixed::{Fix, FixVec, Vec2};
use cyber_jum::input::{Button, ButtonController};
use cyber_jum::levels::{level, LEVEL_COUNT};
use cyber_jum::platformer::{
    backdrop_tile, find_markers, flag_sprite, heart_sprite, spawn_bugs, terrain_tile, validate,
    Bug, BugState, Hero, LevelError, LevelMap, LevelResult, Phase, Platformer, JUMP_SPEED, LIVES,
    STOMP_BOUNCE, STOMP_BOUNCE_HELD,
};

fn idle() -> ButtonController {
    ButtonController::new(0)
}

fn press(buttons: u16) -> ButtonController {
    let mut c = ButtonController::new(0);
    c.update_with_state(buttons);
    c
}

fn playing(level_index: usize, audio: &mut Audio) -> Platformer {
    let mut p = Platformer::start(level_index, audio).expect("level is valid");
    // A skips the intro banner.
    assert_eq!(p.step(&press(Button::A.mask()), audio), None);
    assert_eq!(p.phase, Phase::Play);
    audio.frame();
    p
}

static TINY: [&str; 10] = [
    "................",
    "................",
    "................",
    "................",
    "................",
    "................",
    "....===.........",
    ".P........E...F.",
    "######..########",
    "######..########",
];

#[test]
fn the_level_sides_are_walls_above_is_sky() {
    let map = LevelMap::new(&TINY);
    assert_eq!(map.width, 16);
    assert_eq!(map.cell(-1, 8), b'#');
    assert_eq!(map.cell(16, 0), b'#');
    assert_eq!(map.cell(3, -5), b'.');
    assert_eq!(map.cell(3, 12), b'.');
    assert_eq!(map.cell(1, 7), b'P');
    assert!(map.is_solid(0, 8));
    assert!(!map.is_solid(4, 6));
    assert!(map.is_standable(4, 6));
    assert!(!map.is_standable(6, 8));
}

#[test]
fn validate_accepts_a_good_level() {
    let map = LevelMap::new(&TINY);
    assert_eq!(validate(&map), Ok(()));
}

#[test]
fn validate_rejects_a_short_level() {
    static SHORT: [&str; 9] = ["..", "..", "..", "..", "..", "..", "..", "..", "##"];
    assert_eq!(validate(&LevelMap::new(&SHORT)), Err(LevelError::WrongHeight));
}

#[test]
fn validate_rejects_ragged_rows() {
    static RAGGED: [&str; 10] = ["...", "...", "...", "...", "...", "..", "...", "...", "###", "###"];
    assert_eq!(validate(&LevelMap::new(&RAGGED)), Err(LevelError::RaggedRow));
}

#[test]
fn validate_rejects_a_pit_wider_than_three() {
    static WIDE: [&str; 10] = [
        "............",
        "............",
        "............",
        "............",
        "............",
        "............",
        "............",
        ".P.......F..",
        "###....#####",
        "###....#####",
    ];
    assert_eq!(validate(&LevelMap::new(&WIDE)), Err(LevelError::PitTooWide { x: 3 }));
    static THREE: [&str; 10] = [
        "............",
        "............",
        "............",
        "............",
        "............",
        "............",
        "............",
        ".P.......F..",
        "###...######",
        "###...######",
    ];
    assert_eq!(validate(&LevelMap::new(&THREE)), Ok(()));
}

#[test]
fn a_platform_over_a_pit_bridges_it() {
    static BRIDGED: [&str; 10] = [
        "............",
        "............",
        "............",
        "............",
        "............",
        "............",
        ".....=......",
        ".P.......F..",
        "###....#####",
        "###....#####",
    ];
    assert_eq!(validate(&LevelMap::new(&BRIDGED)), Ok(()));
}

#[test]
fn validate_rejects_a_climb_higher_than_two() {
    static STEP: [&str; 10] = [
        "............",
        "............",
        "............",
        "............",
        ".....F......",
        ".....###....",
        ".....###....",
        ".P...###....",
        "############",
        "############",
    ];
    assert_eq!(validate(&LevelMap::new(&STEP)), Err(LevelError::ClimbTooHigh { x: 4 }));
    // Stepping down the same height is fine.
    static DOWN: [&str; 10] = [
        "............",
        "............",
        "............",
        "............",
        ".P..........",
        "####........",
        "####........",
        "####.....F..",
        "############",
        "############",
    ];
    assert_eq!(validate(&LevelMap::new(&DOWN)), Ok(()));
}

#[test]
fn a_floating_entity_is_reported_before_a_wide_pit() {
    static BOTH: [&str; 10] = [
        "............",
        "............",
        "............",
        "............",
        "............",
        "..E.........",
        "............",
        ".P.......F..",
        "###....#####",
        "###....#####",
    ];
    assert_eq!(validate(&LevelMap::new(&BOTH)), Err(LevelError::Floating { x: 2, y: 5 }));
}

#[test]
fn validate_names_the_first_floating_entity() {
    static FLOATING: [&str; 10] = [
        "....", "....", "....", "....", ".E..", "....", "....", ".P.F", "##..", "####",
    ];
    assert_eq!(validate(&LevelMap::new(&FLOATING)), Err(LevelError::Floating { x: 1, y: 4 }));
}

#[test]
fn markers_and_bugs_are_found_in_reading_order() {
    let map = LevelMap::new(&TINY);
    let (start, flag) = find_markers(&map);
    let start = start.unwrap();
    assert_eq!((start.x.raw, start.y.raw), (24 * 256, 120 * 256));
    assert_eq!(flag, Some(Vec2 { x: 14, y: 7 }));
    let bugs = spawn_bugs(&map);
    assert_eq!(bugs.len(), 1);
    assert_eq!((bugs[0].pos.x.raw, bugs[0].pos.y.raw), (168 * 256, 121 * 256));
    assert_eq!(bugs[0].direction, -1);
    assert_eq!(bugs[0].state, BugState::Walking);
}

#[test]
fn a_level_without_markers_has_none() {
    static EMPTY: [&str; 10] = [
        "..", "..", "..", "..", "..", "..", "..", "..", "##", "##",
    ];
    let map = LevelMap::new(&EMPTY);
    assert_eq!(validate(&map), Ok(()));
    let (start, flag) = find_markers(&map);
    assert!(start.is_none());
    assert!(flag.is_none());
}

#[test]
fn every_level_starts() {
    for i in 0..LEVEL_COUNT {
        let mut audio = Audio::new(10, 10);
        let p = Platformer::start(i, &mut audio).expect("every level follows the rules");
        assert_eq!(p.lives, LIVES);
        assert_eq!(p.phase, Phase::Intro(150));
        assert_eq!(p.map.width, 60);
        assert_eq!(audio.frame(), vec![MixerCommand::PlayMusic { track: Music::Platform, gain: 256 }]);
    }
}

#[test]
fn intro_banner_names_the_challenger() {
    let mut audio = Audio::new(10, 10);
    let p = Platformer::start(0, &mut audio).unwrap();
    assert_eq!(p.intro_text(), "Kid's CYBER JUMP\nChallenge 1 of 5");
    let p = Platformer::start(4, &mut audio).unwrap();
    assert_eq!(p.intro_text(), "Robot's CYBER JUMP\nChallenge 5 of 5");
}

#[test]
fn the_intro_counts_down() {
    let mut audio = Audio::new(10, 10);
    let mut p = Platformer::start(0, &mut audio).unwrap();
    for _ in 0..149 {
        assert_eq!(p.step(&idle(), &mut audio), None);
    }
    assert_eq!(p.phase, Phase::Intro(1));
    p.step(&idle(), &mut audio);
    assert_eq!(p.phase, Phase::Play);
}

#[test]
fn the_hero_lands_on_the_ground() {
    let mut audio = Audio::new(10, 10);
    let mut p = playing(0, &mut audio);
    for _ in 0..20 {
        p.step(&idle(), &mut audio);
    }
    assert!(p.hero.on_ground);
    // Feet on the top of row 8: centre 7 pixels above y = 128.
    assert_eq!(p.hero.pos.y.raw, 121 * 256);
    assert_eq!(p.hero.velocity.y.raw, 0);
}

#[test]
fn jumping_launches_the_hero_and_plays_a_sound() {
    let mut audio = Audio::new(10, 10);
    let mut p = playing(0, &mut audio);
    for _ in 0..20 {
        p.step(&idle(), &mut audio);
    }
    audio.frame();
    let y = p.hero.pos.y.raw;
    p.step(&press(Button::A.mask()), &mut audio);
    // Jump speed, then one frame of gravity.
    assert_eq!(p.hero.velocity.y.raw, -JUMP_SPEED + 64);
    assert_eq!(p.hero.pos.y.raw, y - JUMP_SPEED + 64);
    assert_eq!(audio.frame(), vec![MixerCommand::PlaySfx { effect: Sfx::Jump, gain: 256 }]);
}

#[test]
fn releasing_a_cuts_the_jump_short() {
    let mut audio = Audio::new(10, 10);
    let mut p = playing(0, &mut audio);
    for _ in 0..20 {
        p.step(&idle(), &mut audio);
    }
    let mut held = ButtonController::new(0);
    held.update_with_state(Button::A.mask());
    p.step(&held, &mut audio);
    let v = p.hero.velocity.y.raw; // -1113
    held.update_with_state(0);
    p.step(&held, &mut audio);
    assert_eq!(p.hero.velocity.y.raw, v / 2 + 64);
}

#[test]
fn a_buffered_press_jumps_on_landing() {
    let mut audio = Audio::new(10, 10);
    let mut p = playing(0, &mut audio);
    // Still falling from the start position: press A in the air.
    p.step(&press(Button::A.mask()), &mut audio);
    let mut jumped = false;
    let mut c = ButtonController::new(Button::A.mask());
    for _ in 0..7 {
        c.update_with_state(Button::A.mask());
        p.step(&c, &mut audio);
        if p.hero.velocity.y.raw < 0 {
            jumped = true;
        }
    }
    assert!(jumped);
}

#[test]
fn jumping_up_through_a_platform_lands_on_it() {
    // Column 5 of TINY has a thin platform on row 6 above solid ground.
    let map = LevelMap::new(&TINY);
    let mut audio = Audio::new(10, 10);
    let mut hero = Hero::new(FixVec { x: Fix::from_raw(88 * 256), y: Fix::from_raw(121 * 256) });
    hero.update(&idle(), &mut audio, &map);
    assert!(hero.on_ground);
    let mut held = ButtonController::new(0);
    held.update_with_state(Button::A.mask());
    hero.update(&held, &mut audio, &map);
    assert!(hero.velocity.y.raw < 0);
    held.update_with_state(Button::A.mask());
    let mut highest = hero.pos.y.raw;
    for _ in 0..60 {
        hero.update(&held, &mut audio, &map);
        highest = highest.min(hero.pos.y.raw);
        if hero.on_ground {
            break;
        }
    }
    // The head went through the platform (top at y = 96) ...
    assert!(highest / 256 - 7 < 96);
    // ... and the feet came to rest on its top.
    assert!(hero.on_ground);
    assert_eq!(hero.pos.y.raw, (96 - 7) * 256);
}

#[test]
fn coyote_time_allows_a_late_jump() {
    let map = LevelMap::new(&TINY);
    let mut hero = Hero::new(FixVec { x: Fix::from_raw(24 * 256), y: Fix::from_raw(121 * 256) });
    hero.frames_since_grounded = 3;
    let mut audio = Audio::new(10, 10);
    hero.update(&press(Button::A.mask()), &mut audio, &map);
    assert!(hero.velocity.y.raw < 0);
    let mut late = Hero::new(FixVec { x: Fix::from_raw(24 * 256), y: Fix::from_raw(100 * 256) });
    late.frames_since_grounded = 6;
    late.update(&press(Button::A.mask()), &mut audio, &map);
    assert!(late.velocity.y.raw > 0);
}

#[test]
fn running_accelerates_to_the_speed_limit_and_friction_slows() {
    let map = LevelMap::new(&TINY);
    let mut hero = Hero::new(FixVec { x: Fix::from_raw(60 * 256), y: Fix::from_raw(121 * 256) });
    let mut audio = Audio::new(10, 10);
    let right = ButtonController::new(Button::Right.mask());
    hero.update(&right, &mut audio, &map);
    assert_eq!(hero.velocity.x.raw, 51);
    for _ in 0..20 {
        hero.update(&right, &mut audio, &map);
    }
    assert_eq!(hero.velocity.x.raw, 384);
    assert!(!hero.facing_left);
    hero.update(&idle(), &mut audio, &map);
    assert_eq!(hero.velocity.x.raw, 288);
}

#[test]
fn walls_stop_the_hero() {
    let map = LevelMap::new(&TINY);
    let mut hero = Hero::new(FixVec { x: Fix::from_raw(8 * 256), y: Fix::from_raw(121 * 256) });
    let mut audio = Audio::new(10, 10);
    let left = ButtonController::new(Button::Left.mask());
    for _ in 0..40 {
        hero.update(&left, &mut audio, &map);
    }
    assert!(hero.pos.x.raw >= 5 * 256);
    assert!(hero.facing_left);
}

#[test]
fn falling_into_a_pit_costs_a_life() {
    let mut audio = Audio::new(10, 10);
    let mut p = playing(0, &mut audio);
    p.hero.pos = FixVec { x: Fix::from_raw(184 * 256), y: Fix::from_raw(172 * 256) };
    p.hero.velocity.y = Fix::from_raw(1664);
    p.step(&idle(), &mut audio);
    assert_eq!(p.phase, Phase::Dying(70));
    assert_eq!(audio.frame(), vec![MixerCommand::PlaySfx { effect: Sfx::Hurt, gain: 256 }]);
    for _ in 0..29 {
        p.step(&idle(), &mut audio);
    }
    assert!(audio.frame().is_empty());
    p.step(&idle(), &mut audio);
    assert_eq!(audio.frame(), vec![MixerCommand::PlaySfx { effect: Sfx::LoseLife, gain: 256 }]);
    for _ in 0..40 {
        assert_eq!(p.step(&idle(), &mut audio), None);
    }
    assert_eq!(p.phase, Phase::Play);
    assert_eq!(p.lives, LIVES - 1);
    assert_eq!(p.hero.pos, p.start);
}

#[test]
fn losing_the_last_life_loses_the_challenge() {
    let mut audio = Audio::new(10, 10);
    let mut p = playing(0, &mut audio);
    p.lives = 1;
    p.phase = Phase::Dying(1);
    assert_eq!(p.step(&idle(), &mut audio), Some(LevelResult::Lost));
}

#[test]
fn reaching_the_flag_wins() {
    let mut audio = Audio::new(10, 10);
    let mut p = playing(0, &mut audio);
    p.hero.pos = FixVec { x: Fix::from_raw((55 * 16 + 8) * 256), y: Fix::from_raw(121 * 256) };
    p.step(&idle(), &mut audio);
    assert_eq!(p.phase, Phase::Won(130));
    assert_eq!(
        audio.frame(),
        vec![MixerCommand::StopMusic, MixerCommand::PlaySfx { effect: Sfx::WinLevel, gain: 256 }]
    );
    for _ in 0..129 {
        assert_eq!(p.step(&idle(), &mut audio), None);
    }
    assert_eq!(p.step(&idle(), &mut audio), Some(LevelResult::Won));
}

#[test]
fn stomping_squashes_the_bug_and_bounces() {
    let mut audio = Audio::new(10, 10);
    let mut p = playing(0, &mut audio);
    p.hero.pos = FixVec { x: Fix::from_raw(472 * 256), y: Fix::from_raw(108 * 256) };
    p.hero.velocity = FixVec { x: Fix::from_raw(0), y: Fix::from_raw(512) };
    p.step(&idle(), &mut audio);
    assert_eq!(p.phase, Phase::Play);
    assert_eq!(p.bugs[0].state, BugState::Squashed(40));
    assert_eq!(p.hero.velocity.y.raw, -STOMP_BOUNCE);
    assert_eq!(audio.frame(), vec![MixerCommand::PlaySfx { effect: Sfx::Stomp, gain: 256 }]);
}

#[test]
fn holding_a_while_stomping_bounces_higher() {
    let mut audio = Audio::new(10, 10);
    let mut p = playing(0, &mut audio);
    p.hero.pos = FixVec { x: Fix::from_raw(472 * 256), y: Fix::from_raw(108 * 256) };
    p.hero.velocity = FixVec { x: Fix::from_raw(0), y: Fix::from_raw(512) };
    p.hero.frames_since_grounded = 100;
    p.step(&ButtonController::new(Button::A.mask()), &mut audio);
    assert_eq!(p.hero.velocity.y.raw, -STOMP_BOUNCE_HELD);
}

#[test]
fn touching_a_bug_from_the_side_is_deadly() {
    let mut audio = Audio::new(10, 10);
    let mut p = playing(0, &mut audio);
    p.hero.pos = FixVec { x: Fix::from_raw(462 * 256), y: Fix::from_raw(121 * 256) };
    p.step(&idle(), &mut audio);
    assert_eq!(p.phase, Phase::Dying(70));
    assert_eq!(p.bugs[0].state, BugState::Walking);
}

#[test]
fn squashed_bugs_vanish_with_a_sound() {
    let map = LevelMap::new(&TINY);
    let mut bugs = spawn_bugs(&map);
    bugs[0].state = BugState::Squashed(2);
    let mut audio = Audio::new(10, 10);
    cyber_jum::platformer::update_bugs(&mut bugs, &map, &mut audio);
    assert_eq!(bugs[0].state, BugState::Squashed(1));
    assert!(audio.frame().is_empty());
    cyber_jum::platformer::update_bugs(&mut bugs, &map, &mut audio);
    assert_eq!(bugs[0].state, BugState::Squashed(0));
    assert_eq!(audio.frame(), vec![MixerCommand::PlaySfx { effect: Sfx::EnemyDeath, gain: 256 }]);
    assert!(bugs[0].sprite(0, 0).is_none());
}

#[test]
fn bugs_turn_at_ledges() {
    let map = LevelMap::new(&TINY);
    let mut bugs = spawn_bugs(&map);
    let mut audio = Audio::new(10, 10);
    // The bug at x = 168 walks left, towards the pit at columns 6 and 7,
    // turns there, and turns again at the right wall.
    let mut turned = 0;
    for _ in 0..600 {
        let before = bugs[0].direction;
        cyber_jum::platformer::update_bugs(&mut bugs, &map, &mut audio);
        if bugs[0].direction != before {
            turned += 1;
        }
        let x = bugs[0].pos.x.floor();
        assert!(x >= 128 && x <= 16 * 16 - 8);
    }
    assert!(turned >= 2);
}

#[test]
fn terrain_tiles_show_block_tops_and_platform_caps() {
    let map = LevelMap::new(&TINY);
    assert_eq!(terrain_tile(&map, Vec2 { x: 0, y: 16 }), Some(0)); // top of row 8
    assert_eq!(terrain_tile(&map, Vec2 { x: 0, y: 17 }), Some(1));
    assert_eq!(terrain_tile(&map, Vec2 { x: 0, y: 18 }), Some(1)); // below a block
    assert_eq!(terrain_tile(&map, Vec2 { x: 8, y: 12 }), Some(2)); // platform left cap
    assert_eq!(terrain_tile(&map, Vec2 { x: 10, y: 12 }), Some(3));
    assert_eq!(terrain_tile(&map, Vec2 { x: 13, y: 12 }), Some(4)); // right cap
    assert_eq!(terrain_tile(&map, Vec2 { x: 8, y: 13 }), None); // platforms are thin
    assert_eq!(terrain_tile(&map, Vec2 { x: 4, y: 4 }), None);
}

#[test]
fn the_backdrop_has_stars_clouds_horizon_and_hills() {
    assert_eq!(backdrop_tile(3, 3), 8);
    assert_eq!(backdrop_tile(4, 3), 9);
    assert_eq!(backdrop_tile(26, 6), 8);
    assert_eq!(backdrop_tile(27, 6), 9);
    assert_eq!(backdrop_tile(0, 0), 6); // 0 % 11 == 0: a star
    assert_eq!(backdrop_tile(1, 0), 5);
    assert_eq!(backdrop_tile(5, 12), 10);
    assert_eq!(backdrop_tile(5, 20), 7);
}

#[test]
fn hearts_show_the_lives_left() {
    assert_eq!(heart_sprite(0, 2).frame, 0);
    assert_eq!(heart_sprite(1, 2).frame, 0);
    assert_eq!(heart_sprite(2, 2).frame, 1);
    assert_eq!((heart_sprite(2, 2).x, heart_sprite(2, 2).y), (26, 4));
}

#[test]
fn sprites_follow_the_camera() {
    let hero = Hero::new(FixVec { x: Fix::from_raw(200 * 256), y: Fix::from_raw(100 * 256) });
    let s = hero.sprite(50, 0, false);
    assert_eq!((s.frame, s.x, s.y, s.hflip), (3, 142, 92, false));
    assert_eq!(hero.sprite(50, 0, true).frame, 4);
    let bug = Bug {
        pos: FixVec { x: Fix::from_raw(400 * 256), y: Fix::from_raw(121 * 256) },
        direction: 1,
        state: BugState::Walking,
    };
    let s = bug.sprite(200, 10).unwrap();
    assert_eq!((s.frame, s.x, s.y, s.hflip), (1, 192, 112, true));
    assert!(bug.sprite(400, 0).is_some());
    // 392 pixels in is past the 32 pixel margin right of the screen.
    assert!(bug.sprite(0, 0).is_none());
    let far = Bug { pos: FixVec { x: Fix::from_raw(900 * 256), y: Fix::from_raw(121 * 256) }, ..bug };
    assert!(far.sprite(0, 0).is_none());
    assert_eq!(flag_sprite(Vec2 { x: 10, y: 7 }, 0, 20).unwrap().frame, 1);
    assert_eq!(flag_sprite(Vec2 { x: 10, y: 7 }, 0, 20).unwrap().y, 96);
    assert!(flag_sprite(Vec2 { x: 56, y: 7 }, 0, 0).is_none());
}

#[test]
fn the_camera_keeps_the_hero_centred_within_the_level() {
    let mut audio = Audio::new(10, 10);
    let mut p = playing(0, &mut audio);
    assert_eq!(p.camera_x, 0);
    p.hero.pos.x = Fix::from_raw(500 * 256);
    p.step(&idle(), &mut audio);
    assert_eq!(p.camera_x, 500 - 120);
    p.hero.pos.x = Fix::from_raw(950 * 256);
    p.step(&idle(), &mut audio);
    assert_eq!(p.camera_x, 60 * 16 - 240);
}

#[test]
fn every_level_is_ten_rows_of_sixty() {
    for i in 0..LEVEL_COUNT {
        let l = level(i);
        assert_eq!(l.map.len(), 10);
        for row in l.map {
            assert_eq!(row.len(), 60);
        }
        assert!(!l.intro.is_empty());
        assert!(!l.outro.is_empty());
        assert_eq!(validate(&LevelMap::new(l.map)), Ok(()));
    }
    assert_eq!(level(1).challenger, "Old Man");
}
