//! The five Cyber Jump challenge levels and their challengers' dialogue.
//!
//! Levels are ASCII art, one character per 16x16 cell, 10 rows tall
//! (exactly one screen) and 60 columns wide (4 screens, scrolling right).
//!
//! Legend:  # solid block          = thin platform (jump up through it)
//!          P hero start           F goal flag (stands on the ground below)
//!          E glitch bug           . empty sky
//!
//! Design rules (checked by `platformer::validate`): every P/E/F has
//! ground directly below, pits (columns with no block or platform at all)
//! are at most 3 cells wide, and climbs (the top solid block of the next
//! column to the right being higher) are at most 2 cells high, matching the
//! hero's jump (~2.6 cells high, ~3.4 cells far at full speed).
use vstd::prelude::*;
use vstd::string::StringSliceAdditionalSpecFns;

verus! {

/// How many challenges there are.
pub const LEVEL_COUNT: usize = 5;

/// Width of every level in cells.
pub const LEVEL_WIDTH: usize = 60;

/// One challenge: its map and its challenger's lines.
#[derive(Clone, Copy)]
pub struct Level {
    /// The challenger guarding this level.
    pub challenger: &'static str,
    pub map: &'static [&'static str],
    /// Said when the challenger stops the hero on the road.
    pub intro: &'static [&'static str],
    /// Said after the hero beats the level.
    pub outro: &'static [&'static str],
}
pub const KID_MAP: [&'static str; 10] = [
    "............................................................",
    "............................................................",
    "............................................................",
    "............................................................",
    "............................................................",
    "............................................................",
    "..........===.........===...................................",
    ".P...........................E.................E.......F....",
    "##########...########...#############...####################",
    "##########...########...#############...####################",
];
pub const KID_INTRO: [&'static str; 3] = [
    "Kid: Hey! You! You can't go any further until you beat my CYBER JUMP!",
    "Kid: Jump across the gaps and stomp the glitch bugs. Touch one from the side and you're toast!",
    "Kid: Reach my checkered flag to win. You get three tries. Ready? GO!",
];
pub const KID_OUTRO: [&'static str; 2] = [
    "Kid: Whoa, you actually did it!",
    "Kid: Fine, you can pass. But the others up the road are WAY tougher than me!",
];
pub const OLD_MAN_MAP: [&'static str; 10] = [
    "............................................................",
    "............................................................",
    "............................................................",
    "..................................E.........................",
    ".................................===........................",
    "................===.........................................",
    "..........................................===...............",
    ".P..........E........E........##...............E.........F..",
    "#######...######...######...##############...########..#####",
    "#######...######...######...##############...########..#####",
];
pub const OLD_MAN_INTRO: [&'static str; 2] = [
    "Old Man: In my day, we cyber jumped uphill! Both ways!",
    "Old Man: You can't go any further until you play MY cyber jump, whippersnapper!",
];
pub const OLD_MAN_OUTRO: [&'static str; 2] = [
    "Old Man: Hmph. Not bad... for a youngster.",
    "Old Man: Go on then. And tell that woman up the road her bugs walk funny!",
];
pub const WOMAN_MAP: [&'static str; 10] = [
    "............................................................",
    "............................................................",
    "............................................................",
    "............................................................",
    "............................E...............................",
    ".....................===...===....E.........................",
    "................===..............===...E...===..............",
    ".P.........===........................===......===....E..F..",
    "#########..........................................#########",
    "#########..........................................#########",
];
pub const WOMAN_INTRO: [&'static str; 3] = [
    "Woman: Stop right there, traveler!",
    "Woman: My cyber jump has no floor. Only sky. Only platforms. Only GLORY.",
    "Woman: You can't go any further until you cross it!",
];
pub const WOMAN_OUTRO: [&'static str; 2] = [
    "Woman: Graceful! Like a glitch bug in springtime.",
    "Woman: The path is yours. Watch out for the ranger... he's a bit intense.",
];
pub const RANGER_MAP: [&'static str; 10] = [
    "............................................................",
    "............................................................",
    "............................................................",
    ".......................E....................................",
    ".......................==...................................",
    "............................................................",
    ".....................#......................................",
    ".P.........E.......E.#....##.E......E........E..........F...",
    "######...######...#############...######...######...########",
    "######...######...#############...######...######...########",
];
pub const RANGER_INTRO: [&'static str; 3] = [
    "Ranger: Halt. This road is under my protection.",
    "Ranger: Glitch bugs everywhere. Walls. Pits. My cyber jump is a TRAINING COURSE.",
    "Ranger: You can't go any further until you survive it.",
];
pub const RANGER_OUTRO: [&'static str; 2] = [
    "Ranger: ...Impressive footwork, recruit.",
    "Ranger: One challenger remains. The robot. Nobody has EVER beaten its cyber jump.",
];
pub const ROBOT_MAP: [&'static str; 10] = [
    "............................................................",
    "............................................................",
    "............................................................",
    "...................................E........................",
    "..................................===.......................",
    "............................................................",
    ".................................#..........................",
    ".P........E......E......E......E.#....##.E......E........F..",
    "#####...#####...####...####...##############...####...######",
    "#####...#####...####...####...##############...####...######",
];
pub const ROBOT_INTRO: [&'static str; 3] = [
    "Robot: HALT. INTRUDER DETECTED.",
    "Robot: YOU CANNOT GO ANY FURTHER UNTIL YOU COMPLETE... CYBER JUMP PROTOCOL FINAL.",
    "Robot: DIFFICULTY: MAXIMUM. SURVIVAL PROBABILITY: 3.2 PERCENT.",
];
pub const ROBOT_OUTRO: [&'static str; 3] = [
    "Robot: ERROR. ERROR. PROBABILITY MODULE MALFUNCTION.",
    "Robot: ...RECALCULATING. YOU ARE THE CYBER JUMP CHAMPION.",
    "Robot: THE ROAD NORTH IS OPEN. GOODBYE, CHAMPION.",
];
/// The name of the challenger of challenge `index`.
pub open spec fn challenger_name(index: usize) -> &'static str {
    if index == 0 {
        "Kid"
    } else if index == 1 {
        "Old Man"
    } else if index == 2 {
        "Woman"
    } else if index == 3 {
        "Ranger"
    } else {
        "Robot"
    }
}

/// What challenger `index` says after being beaten.
pub open spec fn level_outro(index: usize) -> &'static [&'static str] {
    if index == 0 {
        &KID_OUTRO
    } else if index == 1 {
        &OLD_MAN_OUTRO
    } else if index == 2 {
        &WOMAN_OUTRO
    } else if index == 3 {
        &RANGER_OUTRO
    } else {
        &ROBOT_OUTRO
    }
}

/// What challenger `index` says when stopping the hero.
pub open spec fn level_intro(index: usize) -> &'static [&'static str] {
    if index == 0 {
        &KID_INTRO
    } else if index == 1 {
        &OLD_MAN_INTRO
    } else if index == 2 {
        &WOMAN_INTRO
    } else if index == 3 {
        &RANGER_INTRO
    } else {
        &ROBOT_INTRO
    }
}

/// The map of challenge `index`.
pub open spec fn level_rows(index: usize) -> &'static [&'static str] {
    if index == 0 {
        &KID_MAP
    } else if index == 1 {
        &OLD_MAN_MAP
    } else if index == 2 {
        &WOMAN_MAP
    } else if index == 3 {
        &RANGER_MAP
    } else {
        &ROBOT_MAP
    }
}

/// The challenge guarded by challenger `index` (0 is the first one up the
/// road).
pub fn level(index: usize) -> (l: Level)
    requires
        index < LEVEL_COUNT,
    ensures
        index == 0 ==> l.challenger@ == "Kid"@ && l.map@ == KID_MAP@ && l.intro@ == KID_INTRO@
            && l.outro@ == KID_OUTRO@,
        index == 1 ==> l.challenger@ == "Old Man"@ && l.map@ == OLD_MAN_MAP@ && l.intro@ == OLD_MAN_INTRO@
            && l.outro@ == OLD_MAN_OUTRO@,
        index == 2 ==> l.challenger@ == "Woman"@ && l.map@ == WOMAN_MAP@ && l.intro@ == WOMAN_INTRO@
            && l.outro@ == WOMAN_OUTRO@,
        index == 3 ==> l.challenger@ == "Ranger"@ && l.map@ == RANGER_MAP@ && l.intro@ == RANGER_INTRO@
            && l.outro@ == RANGER_OUTRO@,
        index == 4 ==> l.challenger@ == "Robot"@ && l.map@ == ROBOT_MAP@ && l.intro@ == ROBOT_INTRO@
            && l.outro@ == ROBOT_OUTRO@,
        l.map == level_rows(index),
        l.challenger == challenger_name(index),
        l.intro == level_intro(index),
        l.outro == level_outro(index),
        l.map@.len() == 10,
        l.map@[0].spec_bytes().len() == LEVEL_WIDTH,
        l.intro@.len() > 0,
        l.outro@.len() > 0,
{
    proof {
        reveal_strlit("............................................................");
        vstd::string::is_ascii_spec_bytes("............................................................");
    }
    let l = if index == 0 {
        Level { challenger: "Kid", map: &KID_MAP, intro: &KID_INTRO, outro: &KID_OUTRO }
    } else if index == 1 {
        Level { challenger: "Old Man", map: &OLD_MAN_MAP, intro: &OLD_MAN_INTRO, outro: &OLD_MAN_OUTRO }
    } else if index == 2 {
        Level { challenger: "Woman", map: &WOMAN_MAP, intro: &WOMAN_INTRO, outro: &WOMAN_OUTRO }
    } else if index == 3 {
        Level { challenger: "Ranger", map: &RANGER_MAP, intro: &RANGER_INTRO, outro: &RANGER_OUTRO }
    } else {
        Level { challenger: "Robot", map: &ROBOT_MAP, intro: &ROBOT_INTRO, outro: &ROBOT_OUTRO }
    };
    assert(l.map@[0] == "............................................................");
    l
}

} // verus!
