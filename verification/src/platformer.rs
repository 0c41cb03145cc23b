//! The side-on "Cyber Jump" challenge: run right, stomp glitch bugs, reach
//! the checkered flag.  Touching a bug from the side or falling off the
//! bottom costs a life; three lost lives lose the challenge.
//!
//! Quality-of-life touches (all standard platformer tricks):
//! * coyote time: you can still jump a few frames after leaving a ledge
//! * jump buffering: pressing A just before landing still jumps
//! * variable jump height: release A early for a shorter hop
//! * holding A while stomping a bug gives a higher bounce
//!
//! Positions and velocities are fixed-point pixels (see `fixed`); every
//! physics constant below is given as its raw 24.8 value.
use vstd::prelude::*;
use vstd::string::StringSliceAdditionalSpecFns;

use crate::audio::{Audio, Sfx};
use crate::input::{Button, ButtonController};
use crate::fixed::{
    abs_i32, clamp_int, div_floor, floor_div, rem_floor, sign, signum_i32, trunc_div, Fix, FixVec, Sprite, Vec2,
};
use vstd::string::StringExecFns;

verus! {

/// Side of a level cell in pixels.
pub const CELL: i32 = 16;
/// Height of every level in cells (one screen).
pub const ROWS: i32 = 10;
/// Lives per challenge.
pub const LIVES: u32 = 3;
/// The widest level this engine accepts, in cells (the shipped levels are
/// 60 wide).  This is the machine's limit: a position in the level is a
/// fixed-point number of pixels (cells times 16, times 256 raw), and
/// positions of the widest level, plus a frame's speed, still fit in `i32`.
pub const MAX_LEVEL_WIDTH: i32 = 0x7_FFFF;
/// Screen size in pixels.
pub const SCREEN_WIDTH: i32 = 240;
pub const SCREEN_HEIGHT: i32 = 160;

// Level cells (ASCII).
/// `#`: a solid block.
pub const SOLID: u8 = 35;
/// `=`: a thin platform, landed on from above and jumped through from below.
pub const PLATFORM: u8 = 61;
/// `.`: empty sky.
pub const EMPTY: u8 = 46;
/// `P`: where the hero starts.
pub const HERO_MARKER: u8 = 80;
/// `E`: a glitch bug.
pub const BUG_MARKER: u8 = 69;
/// `F`: the goal flag.
pub const FLAG_MARKER: u8 = 70;

// Physics, all in pixels per frame (squared), as raw 24.8 values.
/// 0.25 px/frame^2.
pub const GRAVITY: i32 = 64;
/// 4.6 px/frame.
pub const JUMP_SPEED: i32 = 1177;
/// 6.5 px/frame.
pub const MAX_FALL: i32 = 1664;
/// 0.2 px/frame^2.
pub const RUN_ACCEL: i32 = 51;
/// 1.5 px/frame.
pub const MAX_RUN: i32 = 384;
/// 3.2 px/frame.
pub const STOMP_BOUNCE: i32 = 819;
/// 4.8 px/frame.
pub const STOMP_BOUNCE_HELD: i32 = 1228;
/// Below -0.1 px/frame the hero faces left.
pub const FACE_LEFT_BELOW: i32 = -26;
/// Above 0.1 px/frame the hero faces right.
pub const FACE_RIGHT_ABOVE: i32 = 25;
/// A hero falling faster than 0.5 px/frame stomps instead of bumping.
pub const STOMP_MIN_FALL: i32 = 128;
/// Above 0.2 px/frame the hero shows the running animation.
pub const RUN_ANIMATION_SPEED: i32 = 51;
pub const COYOTE_FRAMES: u32 = 6;
pub const JUMP_BUFFER_FRAMES: u32 = 8;
/// `frames_since_grounded` after a jump: far outside the coyote window.
pub const AIRBORNE: u32 = 100;

// Hero collision box (half-extents around the sprite centre).
pub const HERO_HW: i32 = 5;
pub const HERO_HH: i32 = 7;
// Glitch bug collision box.
pub const BUG_HW: i32 = 6;
pub const BUG_HH: i32 = 5;

// Tile indices in the platform tile sheet.
pub const T_BLOCK_TOP: usize = 0;
pub const T_BLOCK_FILL: usize = 1;
pub const T_PLATFORM_L: usize = 2;
pub const T_PLATFORM_M: usize = 3;
pub const T_PLATFORM_R: usize = 4;
pub const T_SKY: usize = 5;
pub const T_SKY_STARS: usize = 6;
pub const T_GRID_HILL: usize = 7;
pub const T_CLOUD_L: usize = 8;
pub const T_CLOUD_R: usize = 9;
pub const T_HORIZON: usize = 10;

// ---------------------------------------------------------------------------
// The level grid
// ---------------------------------------------------------------------------

/// One level's cell grid: `ROWS` strings of ASCII cells.
#[derive(Clone, Copy)]
pub struct LevelMap {
    pub rows: &'static [&'static str],
    pub width: i32,
}

impl LevelMap {
    /// The rows are exactly `ROWS` strings of `width` bytes each.
    pub open spec fn wf(self) -> bool {
        &&& self.rows@.len() == ROWS
        &&& 0 < self.width <= MAX_LEVEL_WIDTH
        &&& forall|y: int| 0 <= y < ROWS ==> #[trigger] self.rows@[y].spec_bytes().len() == self.width
    }

    /// The cell at (x, y): the level's sides are solid walls, above and
    /// below it is open sky.
    pub open spec fn cell_at(self, x: int, y: int) -> u8 {
        if !(0 <= x < self.width) {
            SOLID
        } else if !(0 <= y < ROWS) {
            EMPTY
        } else {
            self.rows@[y].spec_bytes()[x]
        }
    }

    pub open spec fn solid_at(self, x: int, y: int) -> bool {
        self.cell_at(x, y) == SOLID
    }

    pub open spec fn standable_at(self, x: int, y: int) -> bool {
        self.cell_at(x, y) == SOLID || self.cell_at(x, y) == PLATFORM
    }

    /// The grid of `rows`, as wide as its first row.
    pub fn new(rows: &'static [&'static str]) -> (m: LevelMap)
        requires
            rows@.len() > 0,
            rows@[0].spec_bytes().len() <= MAX_LEVEL_WIDTH,
        ensures
            m.rows == rows,
            m.width == rows@[0].spec_bytes().len(),
    {
        let width = rows[0].as_bytes().len();
        LevelMap { rows, width: width as i32 }
    }

    /// The cell at (x, y); see `cell_at`.
    pub fn cell(&self, x: i32, y: i32) -> (c: u8)
        requires
            self.wf(),
        ensures
            c == self.cell_at(x as int, y as int),
    {
        if !(0 <= x && x < self.width) {
            return SOLID;
        }
        if !(0 <= y && y < ROWS) {
            return EMPTY;
        }
        let row = self.rows[y as usize];
        assert(row.spec_bytes().len() == self.width);
        row.as_bytes()[x as usize]
    }

    pub fn is_solid(&self, x: i32, y: i32) -> (b: bool)
        requires
            self.wf(),
        ensures
            b == self.solid_at(x as int, y as int),
    {
        self.cell(x, y) == SOLID
    }

    /// Solid or thin platform: what bugs and falling heroes can stand on.
    pub fn is_standable(&self, x: i32, y: i32) -> (b: bool)
        requires
            self.wf(),
        ensures
            b == self.standable_at(x as int, y as int),
    {
        let c = self.cell(x, y);
        c == SOLID || c == PLATFORM
    }
}

// ---------------------------------------------------------------------------
// Scanning the grid in reading order (row by row, left to right)
// ---------------------------------------------------------------------------

/// The cells (x, y) with `x < n` of row `y` that satisfy `pred`, left to right.
pub open spec fn scan_row(pred: spec_fn(int, int) -> bool, y: int, n: int) -> Seq<(int, int)>
    decreases n,
{
    if n <= 0 {
        Seq::empty()
    } else if pred(n - 1, y) {
        scan_row(pred, y, n - 1).push((n - 1, y))
    } else {
        scan_row(pred, y, n - 1)
    }
}

/// The cells of the first `rows` rows (each `width` wide) that satisfy
/// `pred`, in reading order.
pub open spec fn scan(pred: spec_fn(int, int) -> bool, width: int, rows: int) -> Seq<(int, int)>
    decreases rows,
{
    if rows <= 0 {
        Seq::empty()
    } else {
        scan(pred, width, rows - 1) + scan_row(pred, rows - 1, width)
    }
}

/// Cells holding `marker`.
pub open spec fn marked(map: LevelMap, marker: u8) -> spec_fn(int, int) -> bool {
    |x: int, y: int| map.cell_at(x, y) == marker
}

/// An entity (hero, bug or flag) with nothing to stand on below it.
pub open spec fn floating(map: LevelMap) -> spec_fn(int, int) -> bool {
    |x: int, y: int|
        (map.cell_at(x, y) == HERO_MARKER || map.cell_at(x, y) == BUG_MARKER || map.cell_at(x, y)
            == FLAG_MARKER) && !map.standable_at(x, y + 1)
}

/// The widest pit (in cells) the hero can jump across.
pub const MAX_PIT: i32 = 3;

/// The highest step (in cells) the hero can jump up.
pub const MAX_CLIMB: i32 = 2;

/// Column x has no block or platform in any row.
pub open spec fn gap_column(map: LevelMap, x: int) -> bool {
    forall|y: int| 0 <= y < ROWS ==> !#[trigger] map.standable_at(x, y)
}

/// Columns x..=x+3 of the level are all gaps: a pit too wide to jump.
pub open spec fn wide_pit_at(map: LevelMap, x: int) -> bool {
    &&& 0 <= x
    &&& x + MAX_PIT < map.width
    &&& gap_column(map, x)
    &&& gap_column(map, x + 1)
    &&& gap_column(map, x + 2)
    &&& gap_column(map, x + 3)
}

/// The first row at or below row `y` of column `x` holding a solid block,
/// or `ROWS` if there is none.
pub open spec fn surface_from(map: LevelMap, x: int, y: int) -> int
    decreases ROWS - y,
{
    if y >= ROWS {
        ROWS as int
    } else if map.solid_at(x, y) {
        y
    } else {
        surface_from(map, x, y + 1)
    }
}

/// The row of the top solid block of column `x` (`ROWS` if none): the
/// ground's surface there.
pub open spec fn surface(map: LevelMap, x: int) -> int {
    surface_from(map, x, 0)
}

/// Walking right from column x to x+1 means climbing a step of solid
/// ground higher than the hero can jump.
pub open spec fn high_climb_at(map: LevelMap, x: int) -> bool {
    &&& 0 <= x
    &&& x + 1 < map.width
    &&& surface(map, x) < ROWS
    &&& surface(map, x + 1) < ROWS
    &&& surface(map, x + 1) + MAX_CLIMB < surface(map, x)
}

/// No pit of the level is too wide to jump.
pub open spec fn pits_ok(map: LevelMap) -> bool {
    forall|x: int| !#[trigger] wide_pit_at(map, x)
}

/// No step of the level is too high to climb.
pub open spec fn climbs_ok(map: LevelMap) -> bool {
    forall|x: int| !#[trigger] high_climb_at(map, x)
}

/// Why a level cannot be played.
#[derive(Clone, Copy, PartialEq, Eq, Structural, Debug)]
pub enum LevelError {
    /// The level is not `ROWS` rows tall.
    WrongHeight,
    /// Some row is not as wide as the first.
    RaggedRow,
    /// An entity at (x, y) has no ground below it.
    Floating { x: i32, y: i32 },
    /// Columns x..=x+3 have nothing to stand on: a pit wider than
    /// `MAX_PIT` cells.
    PitTooWide { x: i32 },
    /// The ground of column x+1 is more than `MAX_CLIMB` cells higher than
    /// that of column x.
    ClimbTooHigh { x: i32 },
    /// No `P` marker.
    NoHero,
    /// No `F` marker.
    NoFlag,
}

/// Checks the level-design rules: `ROWS` rows, all as wide as the first,
/// every `P`, `E` and `F` standing on a block or platform, no pit wider
/// than `MAX_PIT` cells and no step up higher than `MAX_CLIMB` cells.  The
/// rules are checked in that order; the error names the first violation
/// (in reading order, or the leftmost column).
pub fn validate(map: &LevelMap) -> (r: Result<(), LevelError>)
    requires
        0 < map.width <= MAX_LEVEL_WIDTH,
    ensures
        r == Err::<(), LevelError>(LevelError::WrongHeight) <==> map.rows@.len() != ROWS,
        r == Err::<(), LevelError>(LevelError::RaggedRow) <==> (map.rows@.len() == ROWS && !map.wf()),
        r is Ok <==> level_ok(*map),
        r matches Err(LevelError::Floating { x, y }) ==> map.wf() && scan(
            floating(*map),
            map.width as int,
            ROWS as int,
        ).len() > 0 && scan(floating(*map), map.width as int, ROWS as int)[0] == (x as int, y as int),
        r matches Err(LevelError::PitTooWide { x }) ==> map.wf() && floating_cells(*map).len() == 0
            && wide_pit_at(*map, x as int) && forall|x2: int| x2 < x ==> !#[trigger] wide_pit_at(*map, x2),
        r matches Err(LevelError::ClimbTooHigh { x }) ==> map.wf() && floating_cells(*map).len() == 0
            && pits_ok(*map) && high_climb_at(*map, x as int) && forall|x2: int|
            x2 < x ==> !#[trigger] high_climb_at(*map, x2),
        !(r matches Err(LevelError::NoHero)) && !(r matches Err(LevelError::NoFlag)),
{
    if map.rows.len() != 10 {
        return Err(LevelError::WrongHeight);
    }
    let w: usize = map.width as usize;
    let mut i: usize = 0;
    while i < 10
        invariant
            i <= 10,
            w == map.width,
            map.rows@.len() == 10,
            forall|j: int| 0 <= j < i ==> #[trigger] map.rows@[j].spec_bytes().len() == map.width,
        decreases 10 - i,
    {
        if map.rows[i].as_bytes().len() != w {
            return Err(LevelError::RaggedRow);
        }
        i += 1;
    }
    assert(map.wf());
    let ghost pred = floating(*map);
    let mut y: i32 = 0;
    while y < ROWS
        invariant
            0 <= y <= ROWS,
            map.wf(),
            pred == floating(*map),
            scan(pred, map.width as int, y as int).len() == 0,
        decreases ROWS - y,
    {
        let mut x: i32 = 0;
        while x < map.width
            invariant
                0 <= x <= map.width,
                0 <= y < ROWS,
                map.wf(),
                pred == floating(*map),
                scan(pred, map.width as int, y as int).len() == 0,
                scan_row(pred, y as int, x as int).len() == 0,
            decreases map.width - x,
        {
            let c = map.cell(x, y);
            if c == HERO_MARKER || c == BUG_MARKER || c == FLAG_MARKER {
                if !map.is_standable(x, y + 1) {
                    assert(scan_row(pred, y as int, x + 1) == seq![(x as int, y as int)]);
                    proof {
                        lemma_scan_row_prefix(pred, y as int, x + 1, map.width as int);
                        assert(scan(pred, map.width as int, y + 1) == scan(pred, map.width as int, y as int) + scan_row(pred, y as int, map.width as int));
                        lemma_scan_prefix(pred, map.width as int, y + 1, ROWS as int);
                    }
                    return Err(LevelError::Floating { x, y });
                }
            }
            x += 1;
        }
        assert(scan(pred, map.width as int, y + 1) == scan(pred, map.width as int, y as int) + scan_row(pred, y as int, map.width as int));
        y += 1;
    }
    match first_wide_pit(map) {
        Some(x) => {
            return Err(LevelError::PitTooWide { x });
        },
        None => {},
    }
    match first_high_climb(map) {
        Some(x) => {
            return Err(LevelError::ClimbTooHigh { x });
        },
        None => {},
    }
    Ok(())
}

/// Is column x a gap (nothing to stand on in any row)?
fn is_gap_column(map: &LevelMap, x: i32) -> (b: bool)
    requires
        map.wf(),
    ensures
        b == gap_column(*map, x as int),
{
    let mut y: i32 = 0;
    while y < ROWS
        invariant
            0 <= y <= ROWS,
            map.wf(),
            forall|y2: int| 0 <= y2 < y ==> !#[trigger] map.standable_at(x as int, y2),
        decreases ROWS - y,
    {
        if map.is_standable(x, y) {
            return false;
        }
        y += 1;
    }
    true
}

/// The leftmost column starting a pit too wide to jump, if any.
fn first_wide_pit(map: &LevelMap) -> (r: Option<i32>)
    requires
        map.wf(),
    ensures
        r is None <==> pits_ok(*map),
        r matches Some(x) ==> wide_pit_at(*map, x as int) && forall|x2: int| x2 < x ==> !#[trigger] wide_pit_at(*map, x2),
{
    // `run` counts the gap columns just left of `x` (up to 3).
    let mut run: i32 = 0;
    let mut x: i32 = 0;
    while x < map.width
        invariant
            0 <= x <= map.width,
            map.wf(),
            0 <= run <= MAX_PIT,
            run <= x,
            forall|j: int| x - run <= j < x ==> #[trigger] gap_column(*map, j),
            run < MAX_PIT && x - run - 1 >= 0 ==> !gap_column(*map, x - run - 1),
            forall|x2: int| x2 + MAX_PIT < x ==> !#[trigger] wide_pit_at(*map, x2),
        decreases map.width - x,
    {
        if is_gap_column(map, x) {
            if run == MAX_PIT {
                assert(wide_pit_at(*map, x - 3));
                return Some(x - 3);
            }
            run = run + 1;
        } else {
            run = 0;
        }
        proof {
            assert forall|x2: int| x2 + MAX_PIT < x + 1 implies !#[trigger] wide_pit_at(*map, x2) by {
                if x2 + MAX_PIT == x && wide_pit_at(*map, x2) {
                    assert(gap_column(*map, x2));
                    assert(gap_column(*map, x2 + 1));
                    assert(gap_column(*map, x2 + 2));
                }
            }
        }
        x += 1;
    }
    assert forall|x2: int| !#[trigger] wide_pit_at(*map, x2) by {
        if wide_pit_at(*map, x2) {
            assert(x2 + MAX_PIT < x);
        }
    }
    None
}

/// The top solid block of column x (`ROWS` if none).
fn surface_of(map: &LevelMap, x: i32) -> (s: i32)
    requires
        map.wf(),
    ensures
        s == surface(*map, x as int),
{
    let mut y: i32 = 0;
    while y < ROWS
        invariant
            0 <= y <= ROWS,
            map.wf(),
            surface(*map, x as int) == surface_from(*map, x as int, y as int),
        decreases ROWS - y,
    {
        if map.is_solid(x, y) {
            return y;
        }
        y += 1;
    }
    ROWS
}

/// The leftmost column from which the next step up is too high, if any.
fn first_high_climb(map: &LevelMap) -> (r: Option<i32>)
    requires
        map.wf(),
    ensures
        r is None <==> climbs_ok(*map),
        r matches Some(x) ==> high_climb_at(*map, x as int) && forall|x2: int| x2 < x ==> !#[trigger] high_climb_at(*map, x2),
{
    let mut x: i32 = 0;
    while x + 1 < map.width
        invariant
            0 <= x,
            x < map.width,
            map.wf(),
            forall|x2: int| x2 < x ==> !#[trigger] high_climb_at(*map, x2),
        decreases map.width - x,
    {
        let here = surface_of(map, x);
        let next = surface_of(map, x + 1);
        if here < ROWS && next < ROWS && next + MAX_CLIMB < here {
            assert(high_climb_at(*map, x as int));
            return Some(x);
        }
        x += 1;
    }
    assert forall|x2: int| !#[trigger] high_climb_at(*map, x2) by {
        if high_climb_at(*map, x2) {
            assert(x2 < x);
        }
    }
    None
}

/// Scanning fewer cells of a row gives a prefix of the longer scan.
pub proof fn lemma_scan_row_prefix(pred: spec_fn(int, int) -> bool, y: int, n: int, m: int)
    requires
        0 <= n <= m,
    ensures
        scan_row(pred, y, n).len() <= scan_row(pred, y, m).len(),
        forall|i: int|
            0 <= i < scan_row(pred, y, n).len() ==> #[trigger] scan_row(pred, y, m)[i] == scan_row(
                pred,
                y,
                n,
            )[i],
    decreases m - n,
{
    if n < m {
        lemma_scan_row_prefix(pred, y, n, m - 1);
    }
}

/// Scanning fewer rows gives a prefix of the longer scan.
pub proof fn lemma_scan_prefix(pred: spec_fn(int, int) -> bool, width: int, n: int, m: int)
    requires
        0 <= n <= m,
    ensures
        scan(pred, width, n).len() <= scan(pred, width, m).len(),
        forall|i: int|
            0 <= i < scan(pred, width, n).len() ==> #[trigger] scan(pred, width, m)[i] == scan(
                pred,
                width,
                n,
            )[i],
    decreases m - n,
{
    if n < m {
        lemma_scan_prefix(pred, width, n, m - 1);
    }
}

// ---------------------------------------------------------------------------
// Entities placed by the level's markers
// ---------------------------------------------------------------------------

/// A glitch bug's life.
#[derive(Clone, Copy, PartialEq, Eq, Structural, Debug)]
pub enum BugState {
    Walking,
    /// Frames left to show the squashed sprite before vanishing.
    Squashed(u32),
}

/// A glitch bug: patrols left and right, turning at walls and ledges.
#[derive(Clone, Copy, PartialEq, Eq, Structural, Debug)]
pub struct Bug {
    pub pos: FixVec,
    /// -1 walking left, 1 walking right.
    pub direction: i32,
    pub state: BugState,
}

/// The pixel position of the centre of cell `c` (`dy` pixels down from
/// its top edge), as a fixed-point vector.
pub open spec fn cell_point(c: (int, int), dy: int) -> FixVec {
    FixVec {
        x: Fix { raw: ((c.0 * CELL + 8) * 256) as i32 },
        y: Fix { raw: ((c.1 * CELL + dy) * 256) as i32 },
    }
}

/// The bug spawned by an `E` in cell `c`: walking left, its collision
/// centre low in the cell (bugs are squat).
pub open spec fn spawned_bug(c: (int, int)) -> Bug {
    Bug { pos: cell_point(c, 9), direction: -1i32, state: BugState::Walking }
}

/// One bug for every `E`, in reading order.
pub fn spawn_bugs(map: &LevelMap) -> (bugs: Vec<Bug>)
    requires
        map.wf(),
    ensures
        bugs@ == scan(marked(*map, BUG_MARKER), map.width as int, ROWS as int).map_values(
            |c: (int, int)| spawned_bug(c),
        ),
{
    let ghost pred = marked(*map, BUG_MARKER);
    let mut bugs: Vec<Bug> = Vec::new();
    let mut y: i32 = 0;
    while y < ROWS
        invariant
            0 <= y <= ROWS,
            map.wf(),
            pred == marked(*map, BUG_MARKER),
            bugs@ == scan(pred, map.width as int, y as int).map_values(|c: (int, int)| spawned_bug(c)),
        decreases ROWS - y,
    {
        let mut x: i32 = 0;
        while x < map.width
            invariant
                0 <= x <= map.width,
                0 <= y < ROWS,
                map.wf(),
                pred == marked(*map, BUG_MARKER),
                bugs@ == (scan(pred, map.width as int, y as int) + scan_row(pred, y as int, x as int)).map_values(
                    |c: (int, int)| spawned_bug(c),
                ),
            decreases map.width - x,
        {
            let ghost before = scan(pred, map.width as int, y as int) + scan_row(pred, y as int, x as int);
            if map.cell(x, y) == BUG_MARKER {
                let pos = FixVec::from_pixels(x * CELL + 8, y * CELL + 9);
                bugs.push(Bug { pos, direction: -1, state: BugState::Walking });
                assert(scan(pred, map.width as int, y as int) + scan_row(pred, y as int, x + 1) =~= before.push((x as int, y as int)));
            } else {
                assert(scan(pred, map.width as int, y as int) + scan_row(pred, y as int, x + 1) =~= before);
            }
            assert(bugs@ =~= (scan(pred, map.width as int, y as int) + scan_row(pred, y as int, x + 1)).map_values(
                |c: (int, int)| spawned_bug(c),
            ));
            x += 1;
        }
        assert(scan(pred, map.width as int, y + 1) =~= scan(pred, map.width as int, y as int) + scan_row(pred, y as int, map.width as int));
        y += 1;
    }
    bugs
}

/// The hero's start (the centre of the last `P`) and the flag's cell (the
/// last `F`), in reading order; `None` where the marker is missing.
pub fn find_markers(map: &LevelMap) -> (r: (Option<FixVec>, Option<Vec2>))
    requires
        map.wf(),
    ensures
        ({
            let heroes = scan(marked(*map, HERO_MARKER), map.width as int, ROWS as int);
            &&& heroes.len() == 0 ==> r.0 is None
            &&& heroes.len() > 0 ==> r.0 == Some(cell_point(heroes.last(), 8))
        }),
        ({
            let flags = scan(marked(*map, FLAG_MARKER), map.width as int, ROWS as int);
            &&& flags.len() == 0 ==> r.1 is None
            &&& flags.len() > 0 ==> r.1 == Some(Vec2 { x: flags.last().0 as i32, y: flags.last().1 as i32 })
        }),
{
    let ghost hp = marked(*map, HERO_MARKER);
    let ghost fp = marked(*map, FLAG_MARKER);
    let mut start: Option<FixVec> = None;
    let mut flag: Option<Vec2> = None;
    let mut y: i32 = 0;
    while y < ROWS
        invariant
            0 <= y <= ROWS,
            map.wf(),
            hp == marked(*map, HERO_MARKER),
            fp == marked(*map, FLAG_MARKER),
            ({
                let s = scan(hp, map.width as int, y as int);
                &&& s.len() == 0 ==> start is None
                &&& s.len() > 0 ==> start == Some(cell_point(s.last(), 8))
            }),
            ({
                let s = scan(fp, map.width as int, y as int);
                &&& s.len() == 0 ==> flag is None
                &&& s.len() > 0 ==> flag == Some(Vec2 { x: s.last().0 as i32, y: s.last().1 as i32 })
            }),
        decreases ROWS - y,
    {
        let mut x: i32 = 0;
        while x < map.width
            invariant
                0 <= x <= map.width,
                0 <= y < ROWS,
                map.wf(),
                hp == marked(*map, HERO_MARKER),
                fp == marked(*map, FLAG_MARKER),
                ({
                    let s = scan(hp, map.width as int, y as int) + scan_row(hp, y as int, x as int);
                    &&& s.len() == 0 ==> start is None
                    &&& s.len() > 0 ==> start == Some(cell_point(s.last(), 8))
                }),
                ({
                    let s = scan(fp, map.width as int, y as int) + scan_row(fp, y as int, x as int);
                    &&& s.len() == 0 ==> flag is None
                    &&& s.len() > 0 ==> flag == Some(Vec2 { x: s.last().0 as i32, y: s.last().1 as i32 })
                }),
            decreases map.width - x,
        {
            let c = map.cell(x, y);
            if c == HERO_MARKER {
                start = Some(FixVec::from_pixels(x * CELL + 8, y * CELL + 8));
            } else if c == FLAG_MARKER {
                flag = Some(Vec2 { x, y });
            }
            assert(scan(hp, map.width as int, y as int) + scan_row(hp, y as int, x + 1) =~= if c == HERO_MARKER {
                (scan(hp, map.width as int, y as int) + scan_row(hp, y as int, x as int)).push((x as int, y as int))
            } else {
                scan(hp, map.width as int, y as int) + scan_row(hp, y as int, x as int)
            });
            assert(scan(fp, map.width as int, y as int) + scan_row(fp, y as int, x + 1) =~= if c == FLAG_MARKER {
                (scan(fp, map.width as int, y as int) + scan_row(fp, y as int, x as int)).push((x as int, y as int))
            } else {
                scan(fp, map.width as int, y as int) + scan_row(fp, y as int, x as int)
            });
            x += 1;
        }
        assert(scan(hp, map.width as int, y + 1) =~= scan(hp, map.width as int, y as int) + scan_row(hp, y as int, map.width as int));
        assert(scan(fp, map.width as int, y + 1) =~= scan(fp, map.width as int, y as int) + scan_row(fp, y as int, map.width as int));
        y += 1;
    }
    (start, flag)
}

// ---------------------------------------------------------------------------
// Backgrounds
// ---------------------------------------------------------------------------

/// The terrain tile at 8x8-tile position (tx, ty), or `None` for a blank
/// (see-through) tile.  Each level cell is a 2x2 quad of tiles: block
/// tops where nothing solid is above, fills elsewhere; platforms only in
/// the quad's top half, with end caps where the platform stops.
pub open spec fn terrain_tile_at(map: LevelMap, tx: int, ty: int) -> Option<usize> {
    let cx = floor_div(tx, 2);
    let cy = floor_div(ty, 2);
    let qx = tx % 2;
    let qy = ty % 2;
    let c = map.cell_at(cx, cy);
    if c == SOLID {
        if qy == 0 && map.cell_at(cx, cy - 1) != SOLID {
            Some(T_BLOCK_TOP)
        } else {
            Some(T_BLOCK_FILL)
        }
    } else if c == PLATFORM && qy == 0 {
        let left = map.cell_at(cx - 1, cy) == PLATFORM;
        let right = map.cell_at(cx + 1, cy) == PLATFORM;
        if !left && qx == 0 {
            Some(T_PLATFORM_L)
        } else if !right && qx == 1 {
            Some(T_PLATFORM_R)
        } else {
            Some(T_PLATFORM_M)
        }
    } else {
        None
    }
}

/// Pick the 8x8 tile for one position of the scrolling terrain layer.
pub fn terrain_tile(map: &LevelMap, pos: Vec2) -> (t: Option<usize>)
    requires
        map.wf(),
    ensures
        t == terrain_tile_at(*map, pos.x as int, pos.y as int),
{
    let cx = div_floor(pos.x, 2);
    let cy = div_floor(pos.y, 2);
    let qx = rem_floor(pos.x, 2);
    let qy = rem_floor(pos.y, 2);
    let c = map.cell(cx, cy);
    if c == SOLID {
        if qy == 0 && map.cell(cx, cy - 1) != SOLID {
            Some(T_BLOCK_TOP)
        } else {
            Some(T_BLOCK_FILL)
        }
    } else if c == PLATFORM && qy == 0 {
        let left = map.cell(cx - 1, cy) == PLATFORM;
        let right = map.cell(cx + 1, cy) == PLATFORM;
        if !left && qx == 0 {
            Some(T_PLATFORM_L)
        } else if !right && qx == 1 {
            Some(T_PLATFORM_R)
        } else {
            Some(T_PLATFORM_M)
        }
    } else {
        None
    }
}

/// The backdrop's size in tiles (one 32x32 background, both ways).
pub const BACKDROP_TILES: i32 = 32;

/// Is (x, y) the left half of one of the four clouds?
pub open spec fn cloud_left_at(x: int, y: int) -> bool {
    (x == 3 && y == 3) || (x == 11 && y == 5) || (x == 19 && y == 2) || (x == 26 && y == 6)
}

/// The fixed synthwave backdrop: a sparse, deterministic star field above
/// the horizon, grid hills below it, and four two-tile clouds in the sky.
pub open spec fn backdrop_tile_at(x: int, y: int) -> usize {
    if cloud_left_at(x, y) {
        T_CLOUD_L
    } else if cloud_left_at(x - 1, y) {
        T_CLOUD_R
    } else if y <= 11 {
        if (x * 13 + y * 7) % 11 == 0 {
            T_SKY_STARS
        } else {
            T_SKY
        }
    } else if y == 12 {
        T_HORIZON
    } else {
        T_GRID_HILL
    }
}

/// The backdrop tile at tile position (x, y).
pub fn backdrop_tile(x: i32, y: i32) -> (t: usize)
    requires
        0 <= x < BACKDROP_TILES,
        0 <= y < BACKDROP_TILES,
    ensures
        t == backdrop_tile_at(x as int, y as int),
{
    let clouds: [(i32, i32); 4] = [(3, 3), (11, 5), (19, 2), (26, 6)];
    let mut i: usize = 0;
    while i < 4
        invariant
            i <= 4,
            clouds@ == seq![(3i32, 3i32), (11i32, 5i32), (19i32, 2i32), (26i32, 6i32)],
            forall|j: int| 0 <= j < i ==> !(clouds@[j].0 == x && clouds@[j].1 == y) && !(clouds@[j].0 + 1 == x && clouds@[j].1 == y),
        decreases 4 - i,
    {
        let (cx, cy) = clouds[i];
        if cx == x && cy == y {
            return T_CLOUD_L;
        }
        if cx + 1 == x && cy == y {
            return T_CLOUD_R;
        }
        i += 1;
    }
    if y <= 11 {
        if (x * 13 + y * 7) % 11 == 0 {
            T_SKY_STARS
        } else {
            T_SKY
        }
    } else if y == 12 {
        T_HORIZON
    } else {
        T_GRID_HILL
    }
}

// ---------------------------------------------------------------------------
// Hero
// ---------------------------------------------------------------------------

/// The hero of a challenge.
#[derive(Clone, Copy, PartialEq, Eq, Structural, Debug)]
pub struct Hero {
    pub pos: FixVec,
    pub velocity: FixVec,
    pub facing_left: bool,
    pub on_ground: bool,
    /// Frames since the hero last stood on something (saturating).
    pub frames_since_grounded: u32,
    /// Frames left in which a recent A press still triggers a jump.
    pub jump_buffer: u32,
}

/// The hero as plain numbers (positions and velocities in raw 24.8).
pub struct HeroModel {
    pub x: int,
    pub y: int,
    pub vx: int,
    pub vy: int,
    pub facing_left: bool,
    pub on_ground: bool,
    pub fsg: int,
    pub jb: int,
}

impl View for Hero {
    type V = HeroModel;

    open spec fn view(&self) -> HeroModel {
        HeroModel {
            x: self.pos.x.raw as int,
            y: self.pos.y.raw as int,
            vx: self.velocity.x.raw as int,
            vy: self.velocity.y.raw as int,
            facing_left: self.facing_left,
            on_ground: self.on_ground,
            fsg: self.frames_since_grounded as int,
            jb: self.jump_buffer as int,
        }
    }
}

/// Horizontal speed after one frame of running: accelerate towards the held
/// direction up to `MAX_RUN`, or lose a quarter to friction when no
/// direction is held.
pub open spec fn run_velocity(vx: int, xtri: int) -> int {
    let v = vx + RUN_ACCEL * xtri;
    if xtri == 0 {
        trunc_div(v * 3, 4)
    } else {
        clamp_int(v, -MAX_RUN as int, MAX_RUN as int)
    }
}

/// Which way the hero faces at horizontal speed `vx`.
pub open spec fn facing_after(facing_left: bool, vx: int) -> bool {
    if vx < FACE_LEFT_BELOW {
        true
    } else if vx > FACE_RIGHT_ABOVE {
        false
    } else {
        facing_left
    }
}

/// The jump buffer after this frame's input: refilled by an A press,
/// otherwise counting down to zero.
pub open spec fn buffered(jb: int, a_just_pressed: bool) -> int {
    if a_just_pressed {
        JUMP_BUFFER_FRAMES as int
    } else if jb > 0 {
        jb - 1
    } else {
        0
    }
}

/// The foot/head columns of a hero whose centre is at raw x.
pub open spec fn left_column(x: int) -> int {
    floor_div(floor_div(x, 256) - HERO_HW + 1, CELL as int)
}

pub open spec fn right_column(x: int) -> int {
    floor_div(floor_div(x, 256) + HERO_HW - 1, CELL as int)
}

/// Horizontal movement: the hero moves by its speed unless its leading
/// edge would enter a solid cell at its head, middle or feet; then it
/// stops dead.
pub open spec fn move_horizontal(h: HeroModel, map: LevelMap) -> HeroModel {
    let new_x = h.x + h.vx;
    let edge = floor_div(new_x, 256) + sign(h.vx) * HERO_HW;
    let cx = floor_div(edge, CELL as int);
    let fy = floor_div(h.y, 256);
    let blocked = map.solid_at(cx, floor_div(fy - HERO_HH + 2, CELL as int)) || map.solid_at(
        cx,
        floor_div(fy, CELL as int),
    ) || map.solid_at(cx, floor_div(fy + HERO_HH - 1, CELL as int));
    if blocked {
        HeroModel { vx: 0, ..h }
    } else {
        HeroModel { x: new_x, ..h }
    }
}

/// Vertical movement.  Falling, the hero lands on solid blocks, and on
/// thin platforms only when its feet cross the platform's top edge from
/// above; rising, it bumps its head on solid blocks only.
pub open spec fn move_vertical(h: HeroModel, map: LevelMap) -> HeroModel {
    let old_feet = floor_div(h.y, 256) + HERO_HH;
    let new_y = h.y + h.vy;
    let c1 = left_column(h.x);
    let c2 = right_column(h.x);
    if h.vy >= 0 {
        let new_feet = floor_div(new_y, 256) + HERO_HH;
        let feet_row = floor_div(new_feet, CELL as int);
        let on_solid = map.solid_at(c1, feet_row) || map.solid_at(c2, feet_row);
        let top = feet_row * CELL;
        let on_platform = (map.cell_at(c1, feet_row) == PLATFORM || map.cell_at(c2, feet_row)
            == PLATFORM) && old_feet <= top && new_feet >= top;
        if on_solid || on_platform {
            HeroModel { y: (feet_row * CELL - HERO_HH) * 256, vy: 0, on_ground: true, ..h }
        } else {
            HeroModel { y: new_y, on_ground: false, ..h }
        }
    } else {
        let head_row = floor_div(floor_div(new_y, 256) - HERO_HH, CELL as int);
        if map.solid_at(c1, head_row) || map.solid_at(c2, head_row) {
            HeroModel { y: ((head_row + 1) * CELL + HERO_HH) * 256, vy: 0, on_ground: false, ..h }
        } else {
            HeroModel { y: new_y, on_ground: false, ..h }
        }
    }
}

/// Axis-by-axis movement against the cell grid.
pub open spec fn move_and_collide_model(h: HeroModel, map: LevelMap) -> HeroModel {
    move_vertical(move_horizontal(h, map), map)
}

/// Does the hero jump this frame?  A buffered A press while standing, or
/// within the coyote window after leaving the ground.
pub open spec fn jumps(h: HeroModel, input: ButtonController) -> bool {
    buffered(h.jb, input.just_pressed(Button::A)) > 0 && h.fsg < COYOTE_FRAMES
}

/// The hero after one frame of play: run, jump, cut the jump short,
/// gravity, movement, and the coyote-time counter.
pub open spec fn update_model(h: HeroModel, input: ButtonController, map: LevelMap) -> HeroModel {
    let vx = run_velocity(h.vx, input.spec_x_tri());
    let facing = facing_after(h.facing_left, vx);
    let jb = buffered(h.jb, input.just_pressed(Button::A));
    let jump = jumps(h, input);
    let vy1 = if jump { -JUMP_SPEED as int } else { h.vy };
    let jb1 = if jump { 0 } else { jb };
    let fsg1 = if jump { AIRBORNE as int } else { h.fsg };
    let vy2 = if input.just_released(Button::A) && vy1 < 0 { trunc_div(vy1, 2) } else { vy1 };
    let vy3 = clamp_int(vy2 + GRAVITY, -JUMP_SPEED as int, MAX_FALL as int);
    let moved = move_and_collide_model(
        HeroModel { vx, vy: vy3, facing_left: facing, jb: jb1, fsg: fsg1, ..h },
        map,
    );
    HeroModel {
        fsg: if moved.on_ground {
            0
        } else if fsg1 < u32::MAX {
            fsg1 + 1
        } else {
            fsg1
        },
        ..moved
    }
}

/// Lowest raw height (in pixels times 256) a hero can ever reach: 100 px
/// above the top of the level.
pub const CEILING_RAW: i32 = -25600;

/// Raw height below which a playing hero has fallen out of the level is
/// `(SCREEN_HEIGHT + CELL) * 256`; a hero stays above this bound.
pub const FALL_LIMIT_RAW: i32 = 47104;

/// How high (times 128, in raw units) a hero moving up at speed `v` can
/// still rise: `v^2 + 128 |v|`, zero when not moving up.
pub open spec fn rise_bound(v: int) -> int {
    if v < 0 {
        v * v - 128 * v
    } else {
        0
    }
}

/// What every hero satisfies inside a well-formed level (see `Hero::inv`).
pub open spec fn hero_bounds(h: HeroModel, map: LevelMap) -> bool {
    &&& 5 * 256 <= h.x < (map.width * CELL - 5) * 256
    &&& -MAX_RUN <= h.vx <= MAX_RUN
    &&& -STOMP_BOUNCE_HELD <= h.vy <= MAX_FALL
    &&& h.y < FALL_LIMIT_RAW
    &&& 128 * h.y - rise_bound(h.vy) >= 128 * CEILING_RAW
    &&& h.fsg < AIRBORNE ==> h.y >= (-7 - 7 * h.fsg) * 256
    &&& 0 <= h.fsg <= u32::MAX
    &&& 0 <= h.jb <= JUMP_BUFFER_FRAMES
}

impl Hero {
    /// What every hero satisfies inside a well-formed level: it stays
    /// between the side walls, its speeds stay within the physics limits,
    /// its height stays within bounds (counting how much higher its upward
    /// speed can still carry it), and just after leaving the ground it is
    /// at most 7 pixels per airborne frame above the row it left.
    pub open spec fn inv(self, map: LevelMap) -> bool {
        hero_bounds(self@, map)
    }

    /// A hero standing still at `start`, not yet grounded.
    pub fn new(start: FixVec) -> (h: Hero)
        ensures
            h.pos == start,
            h.velocity.x.raw == 0,
            h.velocity.y.raw == 0,
            !h.facing_left,
            !h.on_ground,
            h.frames_since_grounded == AIRBORNE,
            h.jump_buffer == 0,
    {
        Hero {
            pos: start,
            velocity: FixVec { x: Fix::from_raw(0), y: Fix::from_raw(0) },
            facing_left: false,
            on_ground: false,
            frames_since_grounded: AIRBORNE,
            jump_buffer: 0,
        }
    }
}

impl Hero {
    /// Axis-by-axis movement against the cell grid.
    pub fn move_and_collide(&mut self, map: &LevelMap)
        requires
            map.wf(),
            5 * 256 <= old(self)@.x < (map.width * CELL - 5) * 256,
            -MAX_RUN <= old(self)@.vx <= MAX_RUN,
            -JUMP_SPEED <= old(self)@.vy <= MAX_FALL,
            -0x100_0000 <= old(self)@.y <= 0x100_0000,
        ensures
            final(self)@ == move_and_collide_model(old(self)@, *map),
    {
        // Horizontal.
        let new_x = self.pos.x.plus(self.velocity.x);
        let edge_x = new_x.floor() + signum_i32(self.velocity.x.to_raw()) * HERO_HW;
        let cx = div_floor(edge_x, CELL);
        let fy = self.pos.y.floor();
        let collided_x = map.is_solid(cx, div_floor(fy - HERO_HH + 2, CELL)) || map.is_solid(
            cx,
            div_floor(fy, CELL),
        ) || map.is_solid(cx, div_floor(fy + HERO_HH - 1, CELL));
        if collided_x {
            self.velocity.x = Fix::from_raw(0);
        } else {
            self.pos.x = new_x;
        }
        let ghost h1 = self@;
        assert(h1 == move_horizontal(old(self)@, *map));

        // Vertical.
        let old_feet = self.pos.y.floor() + HERO_HH;
        let new_y = self.pos.y.plus(self.velocity.y);
        self.on_ground = false;
        let px = self.pos.x.floor();
        let c1 = div_floor(px - HERO_HW + 1, CELL);
        let c2 = div_floor(px + HERO_HW - 1, CELL);
        if self.velocity.y.to_raw() >= 0 {
            // Falling: land on solid blocks, and on thin platforms only when
            // crossing their top edge from above (one-way platforms).
            let new_feet = new_y.floor() + HERO_HH;
            let feet_row = div_floor(new_feet, CELL);
            let on_solid = map.is_solid(c1, feet_row) || map.is_solid(c2, feet_row);
            let platform_top = feet_row * CELL;
            let on_platform = (map.cell(c1, feet_row) == PLATFORM || map.cell(c2, feet_row)
                == PLATFORM) && old_feet <= platform_top && new_feet >= platform_top;
            if (on_solid || on_platform) && new_feet >= feet_row * CELL {
                self.pos.y = Fix::new(feet_row * CELL - HERO_HH);
                self.velocity.y = Fix::from_raw(0);
                self.on_ground = true;
            } else {
                self.pos.y = new_y;
            }
        } else {
            // Rising: bump the head on solid blocks only.
            let new_head = new_y.floor() - HERO_HH;
            let head_row = div_floor(new_head, CELL);
            if map.is_solid(c1, head_row) || map.is_solid(c2, head_row) {
                self.pos.y = Fix::new((head_row + 1) * CELL + HERO_HH);
                self.velocity.y = Fix::from_raw(0);
            } else {
                self.pos.y = new_y;
            }
        }
    }
}

impl Hero {
    /// One frame of play: run, jump (with coyote time and a buffered
    /// press), cut the jump short when A is released, fall, and move.
    pub fn update(&mut self, input: &ButtonController, audio: &mut Audio, map: &LevelMap)
        requires
            map.wf(),
            old(self).inv(*map),
            old(self)@.y < (SCREEN_HEIGHT + CELL + 1) * 256,
        ensures
            final(self)@ == update_model(old(self)@, *input, *map),
            final(self).inv(*map),
            final(audio).music_playing == old(audio).music_playing,
            final(audio).music_volume == old(audio).music_volume,
            final(audio).sfx_volume == old(audio).sfx_volume,
            final(audio).pending@ == if jumps(old(self)@, *input) {
                Audio::after_sfx(old(audio).pending@, old(audio).sfx_volume, Sfx::Jump)
            } else {
                old(audio).pending@
            },
    {
        let ghost h0 = self@;
        // Run left/right with a little momentum.
        let xtri = input.x_tri();
        self.velocity.x = self.velocity.x.plus(Fix::from_raw(RUN_ACCEL).times_int(xtri));
        self.velocity.x = if xtri == 0 {
            self.velocity.x.times_int(3).div_int(4)  // friction when no direction is held
        } else {
            self.velocity.x.clamp(Fix::from_raw(-MAX_RUN), Fix::from_raw(MAX_RUN))
        };
        if self.velocity.x.to_raw() < FACE_LEFT_BELOW {
            self.facing_left = true;
        } else if self.velocity.x.to_raw() > FACE_RIGHT_ABOVE {
            self.facing_left = false;
        }

        // Jumping, with coyote time and a buffered jump press.
        self.jump_buffer = if input.is_just_pressed(Button::A) {
            JUMP_BUFFER_FRAMES
        } else {
            self.jump_buffer.saturating_sub(1)
        };
        if self.jump_buffer > 0 && self.frames_since_grounded < COYOTE_FRAMES {
            self.velocity.y = Fix::from_raw(-JUMP_SPEED);
            self.jump_buffer = 0;
            self.frames_since_grounded = AIRBORNE;
            audio.sfx(Sfx::Jump);
        }
        // Variable jump height: releasing A early cuts the rise short.
        if input.is_just_released(Button::A) && self.velocity.y.to_raw() < 0 {
            self.velocity.y = self.velocity.y.div_int(2);
        }

        self.velocity.y = self.velocity.y.plus(Fix::from_raw(GRAVITY)).clamp(
            Fix::from_raw(-JUMP_SPEED),
            Fix::from_raw(MAX_FALL),
        );
        proof {
            lemma_rise_nonneg(h0.vy);
        }
        self.move_and_collide(map);

        self.frames_since_grounded = if self.on_ground {
            0
        } else {
            self.frames_since_grounded.saturating_add(1)
        };
        proof {
            law_hero_stays_in_level(h0, *input, *map);
        }
    }
}

/// Raising the rise bound: an upward speed that shrinks by at least one
/// frame of gravity pays for the distance it then climbs.
pub proof fn lemma_rise_step(v: int, w: int)
    requires
        v < 0,
        w < 0,
        w >= v + GRAVITY,
    ensures
        rise_bound(v) >= rise_bound(w) - 128 * w,
{
    assert(v * v - 128 * v >= w * w - 256 * w) by (nonlinear_arith)
        requires
            v < 0,
            w < 0,
            w >= v + 64,
    ;
}

/// The rise bound is never negative.
pub proof fn lemma_rise_nonneg(v: int)
    ensures
        rise_bound(v) >= 0,
{
    if v < 0 {
        assert(v * v - 128 * v >= 0) by (nonlinear_arith)
            requires
                v < 0,
        ;
    }
}

/// The rise bound only grows with the upward speed.
pub proof fn lemma_rise_monotone(v: int, w: int)
    requires
        v <= w,
    ensures
        rise_bound(v) >= rise_bound(w),
{
    if w < 0 {
        assert(v * v - 128 * v >= w * w - 128 * w) by (nonlinear_arith)
            requires
                v <= w,
                w < 0,
        ;
    } else {
        lemma_rise_nonneg(v);
    }
}

/// Horizontal movement keeps the hero between the side walls: the walls
/// are solid at every height, so the leading edge never enters them.
pub proof fn lemma_horizontal_stays_inside(h: HeroModel, map: LevelMap)
    requires
        map.wf(),
        5 * 256 <= h.x < (map.width * CELL - 5) * 256,
        -MAX_RUN <= h.vx <= MAX_RUN,
    ensures
        5 * 256 <= move_horizontal(h, map).x < (map.width * CELL - 5) * 256,
        move_horizontal(h, map).y == h.y,
        move_horizontal(h, map).vy == h.vy,
        move_horizontal(h, map).vx == h.vx || move_horizontal(h, map).vx == 0,
        move_horizontal(h, map).fsg == h.fsg,
{
}

/// Vertical movement either moves the hero by its speed, or lands it on
/// top of a cell of the level, or stops it under a cell of the level.
pub proof fn lemma_vertical_outcomes(h: HeroModel, map: LevelMap)
    requires
        map.wf(),
        5 * 256 <= h.x < (map.width * CELL - 5) * 256,
    ensures
        ({
            let r = move_vertical(h, map);
            &&& r.x == h.x && r.vx == h.vx && r.fsg == h.fsg
            &&& (r.y == h.y + h.vy && r.vy == h.vy && !r.on_ground)
                || (r.vy == 0 && r.on_ground && -HERO_HH * 256 <= r.y <= (9 * CELL - HERO_HH) * 256)
                || (r.vy == 0 && !r.on_ground && (CELL + HERO_HH) * 256 <= r.y <= (10 * CELL + HERO_HH) * 256)
        }),
{
    let c1 = left_column(h.x);
    let c2 = right_column(h.x);
    assert(0 <= c1 < map.width);
    assert(0 <= c2 < map.width);
}

/// Law: a frame of play never takes the hero through the level's side
/// walls (they are solid at every height), past the physics speed limits,
/// more than 100 pixels above the level, or (while it is still playing)
/// below the fall-out line; the hero invariant holds again afterwards.
pub proof fn law_hero_stays_in_level(h0: HeroModel, input: ButtonController, map: LevelMap)
    requires
        map.wf(),
        hero_bounds(h0, map),
        h0.y < (SCREEN_HEIGHT + CELL + 1) * 256,
    ensures
        hero_bounds(update_model(h0, input, map), map),
{
    let jump = jumps(h0, input);
    let vx = run_velocity(h0.vx, input.spec_x_tri());
    let vy1 = if jump { -JUMP_SPEED as int } else { h0.vy };
    if jump {
        assert(h0.y >= (-7 - 7 * 5) * 256);
        assert(rise_bound(-1177) == 1535985);
    }
    assert(128 * h0.y - rise_bound(vy1) >= 128 * CEILING_RAW);
    let vy2 = if input.just_released(Button::A) && vy1 < 0 { trunc_div(vy1, 2) } else { vy1 };
    let vy3 = clamp_int(vy2 + GRAVITY, -JUMP_SPEED as int, MAX_FALL as int);
    lemma_rise_monotone(vy1, vy2);
    lemma_rise_nonneg(vy1);
    let h1 = HeroModel {
        vx,
        vy: vy3,
        facing_left: facing_after(h0.facing_left, vx),
        jb: if jump { 0 } else { buffered(h0.jb, input.just_pressed(Button::A)) },
        fsg: if jump { AIRBORNE as int } else { h0.fsg },
        ..h0
    };
    lemma_horizontal_stays_inside(h1, map);
    let hm = move_horizontal(h1, map);
    lemma_vertical_outcomes(hm, map);
    if vy3 < 0 {
        lemma_rise_step(vy2, vy3);
    }
}

/// Law: thin platforms never stop a rising hero; only solid blocks bump
/// its head.
pub proof fn law_rising_passes_platforms(h: HeroModel, map: LevelMap)
    requires
        h.vy < 0,
    ensures
        ({
            let head_row = floor_div(floor_div(h.y + h.vy, 256) - HERO_HH, CELL as int);
            !map.solid_at(left_column(h.x), head_row) && !map.solid_at(right_column(h.x), head_row)
                ==> move_vertical(h, map).y == h.y + h.vy && move_vertical(h, map).vy == h.vy
        }),
{
}

/// Law: thin platforms never block the hero sideways or on the way up.
/// For two grids with the same solid blocks (one may have platforms where
/// the other has sky), moving sideways comes out the same, and so does a
/// whole move while rising.
pub proof fn law_platforms_only_stop_falls(h: HeroModel, map: LevelMap, other: LevelMap)
    requires
        forall|x: int, y: int| #[trigger] map.solid_at(x, y) == other.solid_at(x, y),
    ensures
        move_horizontal(h, map) == move_horizontal(h, other),
        h.vy < 0 ==> move_vertical(h, map) == move_vertical(h, other),
        h.vy < 0 ==> move_and_collide_model(h, map) == move_and_collide_model(h, other),
{
    let hm = move_horizontal(h, map);
    assert(hm.vy == h.vy);
}

/// Law: a frame of play keeps the hero's running speed within `MAX_RUN`
/// and its vertical speed between `-JUMP_SPEED` and `MAX_FALL`, and the
/// coyote-time counter is zero exactly when the hero stands on something.
pub proof fn law_update_keeps_speeds(h: HeroModel, input: ButtonController, map: LevelMap)
    requires
        -MAX_RUN <= h.vx <= MAX_RUN,
        0 <= h.fsg <= u32::MAX,
    ensures
        -MAX_RUN <= update_model(h, input, map).vx <= MAX_RUN,
        -JUMP_SPEED <= update_model(h, input, map).vy <= MAX_FALL,
        update_model(h, input, map).fsg == 0 <==> update_model(h, input, map).on_ground,
{
    let xtri = input.spec_x_tri();
    let v = h.vx + RUN_ACCEL * xtri;
    if xtri == 0 {
        assert(-MAX_RUN * 3 <= v * 3 <= MAX_RUN * 3);
    }
}

/// Law (no double jump): a jump takes the hero out of the coyote window, so
/// until it lands again no later frame can jump, whatever is pressed.
pub proof fn law_no_double_jump(h: HeroModel, first: ButtonController, next: ButtonController, map: LevelMap)
    requires
        0 <= h.fsg <= u32::MAX,
    ensures
        ({
            let h1 = update_model(h, first, map);
            jumps(h, first) && !h1.on_ground ==> h1.fsg >= COYOTE_FRAMES && !jumps(h1, next)
        }),
{
}

/// Law (coyote time): a hero that stood on the ground less than
/// `COYOTE_FRAMES` frames ago still jumps when A is pressed: the press is
/// used up and the hero starts rising at full jump speed (less one frame of
/// gravity), unless a ceiling stops it at once.
pub proof fn law_coyote_time(h: HeroModel, input: ButtonController, map: LevelMap)
    requires
        h.fsg < COYOTE_FRAMES,
        input.just_pressed(Button::A),
    ensures
        jumps(h, input),
        update_model(h, input, map).jb == 0,
        !update_model(h, input, map).on_ground,
        update_model(h, input, map).vy == -JUMP_SPEED + GRAVITY || update_model(h, input, map).vy == 0,
{
}

/// Law (jump buffering): an A press pressed in the air, too late for a
/// jump, is remembered for `JUMP_BUFFER_FRAMES` frames; while more than one
/// of them is left, the hero jumps on the first frame it can (standing, or
/// within the coyote window), whatever is pressed then.
pub proof fn law_jump_buffering(h: HeroModel, press: ButtonController, later: HeroModel, input: ButtonController, map: LevelMap)
    requires
        press.just_pressed(Button::A),
        h.fsg >= COYOTE_FRAMES,
        later.jb >= 2,
        later.fsg < COYOTE_FRAMES,
    ensures
        update_model(h, press, map).jb == JUMP_BUFFER_FRAMES,
        jumps(later, input),
{
}

/// Law (variable jump height): releasing A while rising halves the upward
/// speed before gravity acts; holding it keeps the speed.  Either way a
/// ceiling or a landing can stop the hero instead.
pub proof fn law_variable_jump_height(h: HeroModel, input: ButtonController, map: LevelMap)
    requires
        -STOMP_BOUNCE_HELD <= h.vy < 0,
        !jumps(h, input),
    ensures
        ({
            let vy = update_model(h, input, map).vy;
            if input.just_released(Button::A) {
                vy == trunc_div(h.vy, 2) + GRAVITY || vy == 0
            } else {
                vy == h.vy + GRAVITY || vy == 0
            }
        }),
{
}

/// Law (stomp bounce): holding A while stomping a bug bounces the hero
/// higher than letting go.
pub proof fn law_held_stomp_bounces_higher(held: ButtonController, loose: ButtonController)
    requires
        held.pressed(Button::A),
        !loose.pressed(Button::A),
    ensures
        stomp_speed(held) < stomp_speed(loose) < 0,
{
}

// ---------------------------------------------------------------------------
// Hero meets bugs
// ---------------------------------------------------------------------------

/// Is the hero overlapping this (walking) bug?
pub open spec fn touching(h: HeroModel, b: Bug) -> bool {
    let dx = floor_div(h.x, 256) - floor_div(b.pos.x.raw as int, 256);
    let dy = floor_div(h.y, 256) - floor_div(b.pos.y.raw as int, 256);
    &&& b.state == BugState::Walking
    &&& -(HERO_HW + BUG_HW) < dx < HERO_HW + BUG_HW
    &&& -(HERO_HH + BUG_HH) < dy < HERO_HH + BUG_HH
}

/// Is the hero coming down onto the bug's head (rather than from the side)?
pub open spec fn falling_onto(h: HeroModel, b: Bug) -> bool {
    &&& h.vy > STOMP_MIN_FALL
    &&& (floor_div(h.y, 256) + HERO_HH) - (floor_div(b.pos.y.raw as int, 256) - BUG_HH) < 8
}

/// The index of the first bug the hero touches, or `bugs.len()` if none.
pub open spec fn first_touch(h: HeroModel, bugs: Seq<Bug>) -> int
    decreases bugs.len(),
{
    if bugs.len() == 0 {
        0
    } else {
        let k = first_touch(h, bugs.drop_last());
        if k < bugs.len() - 1 {
            k
        } else if touching(h, bugs.last()) {
            bugs.len() - 1
        } else {
            bugs.len() as int
        }
    }
}

/// The speed a stomp bounces the hero up with: higher while A is held.
pub open spec fn stomp_speed(input: ButtonController) -> int {
    if input.pressed(Button::A) {
        -STOMP_BOUNCE_HELD as int
    } else {
        -STOMP_BOUNCE as int
    }
}

/// A bug squashed by a stomp: shown flat for 40 frames, then gone.
pub open spec fn squashed(b: Bug) -> Bug {
    Bug { state: BugState::Squashed(40), ..b }
}

/// `first_touch` is the first index at which the hero touches a bug.
pub proof fn lemma_first_touch(h: HeroModel, bugs: Seq<Bug>)
    ensures
        0 <= first_touch(h, bugs) <= bugs.len(),
        first_touch(h, bugs) < bugs.len() ==> touching(h, bugs[first_touch(h, bugs)]),
        forall|j: int| 0 <= j < first_touch(h, bugs) ==> !touching(h, #[trigger] bugs[j]),
    decreases bugs.len(),
{
    if bugs.len() > 0 {
        lemma_first_touch(h, bugs.drop_last());
        let k = first_touch(h, bugs);
        assert forall|j: int| 0 <= j < k implies !touching(h, #[trigger] bugs[j]) by {
            if j < bugs.len() - 1 {
                assert(bugs.drop_last()[j] == bugs[j]);
            }
        }
    }
}

/// Law: only walking bugs can be touched.  The bug the hero meets first is
/// always a walking one, and among squashed (or vanished) bugs the hero
/// meets nothing: no stomp, no harm, hero and bugs unchanged.
pub proof fn law_only_walking_bugs_touch(h: HeroModel, bugs: Seq<Bug>, input: ButtonController)
    ensures
        first_touch(h, bugs) < bugs.len() ==> bugs[first_touch(h, bugs)].state == BugState::Walking,
        (forall|i: int| 0 <= i < bugs.len() ==> (#[trigger] bugs[i]).state != BugState::Walking)
            ==> collide_model(h, bugs, input) == (h, bugs, None::<bool>),
{
    lemma_first_touch(h, bugs);
}

/// What every bug satisfies inside a well-formed level: it walks left or
/// right, it stays on its spawn row band, and it stays between the side
/// walls (with half a pixel of slack on the side it is walking away from).
pub open spec fn bug_inv(b: Bug, map: LevelMap) -> bool {
    let x = b.pos.x.raw as int;
    let y = b.pos.y.raw as int;
    &&& b.direction == 1 || b.direction == -1
    &&& 9 * 256 <= y <= 153 * 256
    &&& 7 * 256 <= x <= (map.width * CELL - 8) * 256 + 128
    &&& b.direction == -1 ==> x <= (map.width * CELL - 8) * 256
    &&& b.direction == 1 ==> x >= 7 * 256 + 128
}

impl Hero {
    /// Resolve hero/bug touches against the first walking bug the hero
    /// overlaps: `Some(true)` for a stomp (the bug is squashed and the hero
    /// bounces), `Some(false)` for a deadly side touch, `None` for no
    /// contact.
    pub fn collide_bugs(&mut self, bugs: &mut Vec<Bug>, input: &ButtonController) -> (r: Option<
        bool,
    >)
        ensures
            ({
                let k = first_touch(old(self)@, old(bugs)@);
                if k == old(bugs)@.len() {
                    &&& r is None
                    &&& *final(self) == *old(self)
                    &&& final(bugs)@ == old(bugs)@
                } else if falling_onto(old(self)@, old(bugs)@[k]) {
                    &&& r == Some(true)
                    &&& final(self)@ == HeroModel { vy: stomp_speed(*input), ..old(self)@ }
                    &&& final(bugs)@ == old(bugs)@.update(k, squashed(old(bugs)@[k]))
                } else {
                    &&& r == Some(false)
                    &&& *final(self) == *old(self)
                    &&& final(bugs)@ == old(bugs)@
                }
            }),
    {
        proof {
            lemma_first_touch(self@, bugs@);
        }
        let n = bugs.len();
        let mut i: usize = 0;
        while i < n
            invariant
                i <= n,
                n == bugs@.len(),
                bugs@ == old(bugs)@,
                *self == *old(self),
                forall|j: int| 0 <= j < i ==> !touching(self@, #[trigger] bugs@[j]),
                0 <= first_touch(self@, bugs@) <= bugs@.len(),
                first_touch(self@, bugs@) < bugs@.len() ==> touching(self@, bugs@[first_touch(self@, bugs@)]),
                forall|j: int| 0 <= j < first_touch(self@, bugs@) ==> !touching(self@, #[trigger] bugs@[j]),
            decreases n - i,
        {
            let bug = bugs[i];
            let walking = match bug.state {
                BugState::Walking => true,
                BugState::Squashed(_) => false,
            };
            if walking {
                let dx = self.pos.x.floor() - bug.pos.x.floor();
                let dy = self.pos.y.floor() - bug.pos.y.floor();
                if !(abs_i32(dx) >= HERO_HW + BUG_HW || abs_i32(dy) >= HERO_HH + BUG_HH) {
                    assert(touching(self@, bugs@[i as int]));
                    assert(first_touch(self@, bugs@) == i);
                    let falling_onto = self.velocity.y.to_raw() > STOMP_MIN_FALL && (self.pos.y.floor()
                        + HERO_HH) - (bug.pos.y.floor() - BUG_HH) < 8;
                    if falling_onto {
                        bugs.set(i, Bug { state: BugState::Squashed(40), ..bug });
                        self.velocity.y = if input.is_pressed(Button::A) {
                            Fix::from_raw(-STOMP_BOUNCE_HELD)
                        } else {
                            Fix::from_raw(-STOMP_BOUNCE)
                        };
                        return Some(true);
                    }
                    return Some(false);
                }
            }
            i += 1;
        }
        None
    }
}

/// A bug after one frame: a squashed bug's timer runs down; a walking bug
/// turns around at a wall or at the edge of its floor, then takes half a
/// pixel's step.
pub open spec fn bug_step(b: Bug, map: LevelMap) -> Bug {
    match b.state {
        BugState::Squashed(t) => if t > 0 {
            Bug { state: BugState::Squashed((t - 1) as u32), ..b }
        } else {
            b
        },
        BugState::Walking => {
            let fx = floor_div(b.pos.x.raw as int, 256);
            let fy = floor_div(b.pos.y.raw as int, 256);
            let ahead_col = floor_div(fx + b.direction * (BUG_HW + 2), CELL as int);
            let body_row = floor_div(fy, CELL as int);
            let feet_row = floor_div(fy + BUG_HH + 2, CELL as int);
            let dir = if map.solid_at(ahead_col, body_row) || !map.standable_at(ahead_col, feet_row) {
                -b.direction
            } else {
                b.direction as int
            };
            Bug {
                pos: FixVec { x: Fix { raw: (b.pos.x.raw + dir * 128) as i32 }, ..b.pos },
                direction: dir as i32,
                ..b
            }
        },
    }
}

/// Law: a walking bug patrols whatever it can stand on.  Looking at the
/// cell ahead of its body (half a cell past its side) and the cell below
/// that: it keeps walking, half a pixel a frame, while the body cell is not
/// a block and the feet cell is a block or a thin platform; it turns around
/// at a block or where there is nothing to stand on.
pub proof fn law_bugs_patrol_blocks_and_platforms(b: Bug, map: LevelMap)
    requires
        b.state == BugState::Walking,
        b.direction == 1 || b.direction == -1,
        i32::MIN + 128 <= b.pos.x.raw <= i32::MAX - 128,
    ensures
        ({
            let x = floor_div(b.pos.x.raw as int, 256);
            let y = floor_div(b.pos.y.raw as int, 256);
            let ahead = floor_div(x + b.direction * 8, 16);
            let body = map.cell_at(ahead, floor_div(y, 16));
            let feet = map.cell_at(ahead, floor_div(y + 7, 16));
            let keeps = body != SOLID && (feet == SOLID || feet == PLATFORM);
            &&& bug_step(b, map).direction == (if keeps { b.direction as int } else { -b.direction })
            &&& bug_step(b, map).pos.x.raw == b.pos.x.raw + bug_step(b, map).direction * 128
            &&& bug_step(b, map).pos.y == b.pos.y
            &&& bug_step(b, map).state == BugState::Walking
        }),
{
}

/// How many of `bugs` finish vanishing this frame (squashed with one
/// frame left).
pub open spec fn vanishing(bugs: Seq<Bug>) -> nat
    decreases bugs.len(),
{
    if bugs.len() == 0 {
        0
    } else {
        vanishing(bugs.drop_last()) + if bugs.last().state == BugState::Squashed(1) {
            1nat
        } else {
            0nat
        }
    }
}

/// `n` enemy-death sounds.
pub open spec fn enemy_deaths(n: nat) -> Seq<Sfx> {
    Seq::new(n, |i: int| Sfx::EnemyDeath)
}

/// Law: bugs never walk through the level's side walls.  The walls are
/// solid at every height, so a bug about to walk into one turns around
/// first; a bug step keeps the bug invariant.
pub proof fn law_bug_stays_in_level(b: Bug, map: LevelMap)
    requires
        map.wf(),
        bug_inv(b, map),
    ensures
        bug_inv(bug_step(b, map), map),
{
}

/// One frame for every bug.
pub fn update_bugs(bugs: &mut Vec<Bug>, map: &LevelMap, audio: &mut Audio)
    requires
        map.wf(),
        forall|i: int| 0 <= i < old(bugs)@.len() ==> bug_inv(#[trigger] old(bugs)@[i], *map),
    ensures
        final(bugs)@ == old(bugs)@.map_values(|b: Bug| bug_step(b, *map)),
        forall|i: int| 0 <= i < final(bugs)@.len() ==> bug_inv(#[trigger] final(bugs)@[i], *map),
        final(audio).music_playing == old(audio).music_playing,
        final(audio).music_volume == old(audio).music_volume,
        final(audio).sfx_volume == old(audio).sfx_volume,
        final(audio).pending@ == Audio::after_sfxs(
            old(audio).pending@,
            old(audio).sfx_volume,
            enemy_deaths(vanishing(old(bugs)@)),
        ),
{
    let n = bugs.len();
    let mut i: usize = 0;
    while i < n
        invariant
            i <= n,
            n == bugs@.len(),
            n == old(bugs)@.len(),
            map.wf(),
            forall|j: int| 0 <= j < i ==> bugs@[j] == bug_step(#[trigger] old(bugs)@[j], *map),
            forall|j: int| i <= j < n ==> bugs@[j] == #[trigger] old(bugs)@[j],
            forall|j: int| 0 <= j < n ==> bug_inv(#[trigger] old(bugs)@[j], *map),
            audio.music_playing == old(audio).music_playing,
            audio.music_volume == old(audio).music_volume,
            audio.sfx_volume == old(audio).sfx_volume,
            audio.pending@ == Audio::after_sfxs(
                old(audio).pending@,
                old(audio).sfx_volume,
                enemy_deaths(vanishing(old(bugs)@.take(i as int))),
            ),
        decreases n - i,
    {
        let mut bug = bugs[i];
        let ghost b0 = bug;
        proof {
            assert(bugs@[i as int] == old(bugs)@[i as int]);
            law_bug_stays_in_level(b0, *map);
        }
        let ghost deaths_before = vanishing(old(bugs)@.take(i as int));
        assert(old(bugs)@.take(i + 1).drop_last() =~= old(bugs)@.take(i as int));
        match bug.state {
            BugState::Squashed(timer) => {
                if timer > 0 {
                    bug.state = BugState::Squashed(timer - 1);
                    if timer - 1 == 0 {
                        audio.sfx(Sfx::EnemyDeath);
                        assert(enemy_deaths(deaths_before + 1).drop_last() =~= enemy_deaths(deaths_before));
                        assert(enemy_deaths(deaths_before + 1).last() == Sfx::EnemyDeath);
                    }
                }
            },
            BugState::Walking => {
                // Turn around at walls and at the edge of the floor.
                let ahead_x = bug.pos.x.floor() + bug.direction * (BUG_HW + 2);
                let ahead_col = div_floor(ahead_x, CELL);
                let body_row = div_floor(bug.pos.y.floor(), CELL);
                let feet_row = div_floor(bug.pos.y.floor() + BUG_HH + 2, CELL);
                if map.is_solid(ahead_col, body_row) || !map.is_standable(ahead_col, feet_row) {
                    bug.direction = -bug.direction;
                }
                bug.pos.x = bug.pos.x.plus(Fix::new(bug.direction).div_int(2));
            },
        }
        assert(bug == bug_step(b0, *map));
        bugs.set(i, bug);
        i += 1;
    }
    assert(old(bugs)@.take(n as int) =~= old(bugs)@);
    assert(bugs@ =~= old(bugs)@.map_values(|b: Bug| bug_step(b, *map)));
}

// ---------------------------------------------------------------------------
// A whole challenge
// ---------------------------------------------------------------------------

/// Every cell a row scan finds is in that row, left of the scan's end, and
/// satisfies the predicate.
pub proof fn lemma_scan_row_bounds(pred: spec_fn(int, int) -> bool, y: int, n: int)
    ensures
        forall|i: int|
            0 <= i < scan_row(pred, y, n).len() ==> {
                let c = #[trigger] scan_row(pred, y, n)[i];
                0 <= c.0 < n && c.1 == y && pred(c.0, c.1)
            },
    decreases n,
{
    if n > 0 {
        lemma_scan_row_bounds(pred, y, n - 1);
        let a = scan_row(pred, y, n - 1);
        assert forall|i: int| 0 <= i < scan_row(pred, y, n).len() implies {
            let c = #[trigger] scan_row(pred, y, n)[i];
            0 <= c.0 < n && c.1 == y && pred(c.0, c.1)
        } by {
            if i < a.len() {
                assert(scan_row(pred, y, n)[i] == a[i]);
            }
        }
    }
}

/// Every cell a scan finds is inside the scanned rectangle and satisfies
/// the predicate.
pub proof fn lemma_scan_bounds(pred: spec_fn(int, int) -> bool, width: int, rows: int)
    ensures
        forall|i: int|
            0 <= i < scan(pred, width, rows).len() ==> {
                let c = #[trigger] scan(pred, width, rows)[i];
                0 <= c.0 < width && 0 <= c.1 < rows && pred(c.0, c.1)
            },
    decreases rows,
{
    if rows > 0 {
        lemma_scan_bounds(pred, width, rows - 1);
        lemma_scan_row_bounds(pred, rows - 1, width);
        let a = scan(pred, width, rows - 1);
        let b = scan_row(pred, rows - 1, width);
        assert forall|i: int| 0 <= i < (a + b).len() implies {
            let c = #[trigger] (a + b)[i];
            0 <= c.0 < width && 0 <= c.1 < rows && pred(c.0, c.1)
        } by {
            if i >= a.len() {
                assert((a + b)[i] == b[i - a.len()]);
            }
        }
    }
}

/// Requesting sound effects `a` then `b` is requesting `a + b`.
pub proof fn lemma_after_sfxs_concat(pending: Seq<crate::audio::MixerCommand>, volume: u8, a: Seq<Sfx>, b: Seq<Sfx>)
    ensures
        Audio::after_sfxs(pending, volume, a + b) == Audio::after_sfxs(
            Audio::after_sfxs(pending, volume, a),
            volume,
            b,
        ),
    decreases b.len(),
{
    if b.len() == 0 {
        assert(a + b =~= a);
    } else {
        lemma_after_sfxs_concat(pending, volume, a, b.drop_last());
        assert((a + b).drop_last() =~= a + b.drop_last());
    }
}

/// How a challenge ended.
#[derive(Clone, Copy, PartialEq, Eq, Structural, Debug)]
pub enum LevelResult {
    Won,
    Lost,
}

/// What a challenge is doing.
#[derive(Clone, Copy, PartialEq, Eq, Structural, Debug)]
pub enum Phase {
    /// Showing the "CYBER JUMP n" banner for this many more frames; the
    /// world is frozen.
    Intro(u32),
    Play,
    /// The hero hit a bug or fell; pause this many frames before respawn
    /// or game over.
    Dying(u32),
    /// The hero reached the flag; let the jingle play out this many frames.
    Won(u32),
}

/// Frames of the intro banner.
pub const INTRO_FRAMES: u32 = 150;
/// Frames between losing a life and respawning.
pub const DYING_FRAMES: u32 = 70;
/// The frame of the dying pause on which the lose-a-life sound plays.
pub const LOSE_LIFE_SOUND_AT: u32 = 40;
/// Frames of the victory jingle.
pub const WON_FRAMES: u32 = 130;
/// Frames a squashed bug stays visible.
pub const SQUASHED_FRAMES: u32 = 40;

/// The bugs of a freshly (re)started challenge.
pub open spec fn spawned_bugs(map: LevelMap) -> Seq<Bug> {
    scan(marked(map, BUG_MARKER), map.width as int, ROWS as int).map_values(
        |c: (int, int)| spawned_bug(c),
    )
}

/// The hero at the start of a life.
pub open spec fn fresh_hero(start: FixVec) -> Hero {
    Hero {
        pos: start,
        velocity: FixVec { x: Fix { raw: 0 }, y: Fix { raw: 0 } },
        facing_left: false,
        on_ground: false,
        frames_since_grounded: AIRBORNE,
        jump_buffer: 0,
    }
}

/// The horizontal scroll that keeps the hero centred, clamped to the level.
pub open spec fn camera_for(hero_x: int, map: LevelMap) -> int {
    clamp_int(floor_div(hero_x, 256) - SCREEN_WIDTH / 2, 0, map.width * CELL - SCREEN_WIDTH)
}

/// Has the hero fallen off the bottom of the screen?
pub open spec fn fell_out(h: HeroModel) -> bool {
    floor_div(h.y, 256) > SCREEN_HEIGHT + CELL
}

/// Is the hero touching the flag?  (The flag is drawn one cell tall above
/// and one below `flag`'s top edge.)
pub open spec fn at_flag(h: HeroModel, flag: Vec2) -> bool {
    let dx = floor_div(h.x, 256) - (flag.x * CELL + 8);
    let dy = floor_div(h.y, 256) - flag.y * CELL;
    -10 < dx < 10 && -24 < dy < 24
}

/// The grid of challenge `index`.
pub open spec fn level_map(index: usize) -> LevelMap {
    LevelMap { rows: crate::levels::level_rows(index), width: crate::levels::LEVEL_WIDTH as i32 }
}

/// Entities with nothing below them, in reading order.
pub open spec fn floating_cells(map: LevelMap) -> Seq<(int, int)> {
    scan(floating(map), map.width as int, ROWS as int)
}

/// `P` markers in reading order.
pub open spec fn hero_cells(map: LevelMap) -> Seq<(int, int)> {
    scan(marked(map, HERO_MARKER), map.width as int, ROWS as int)
}

/// `F` markers in reading order.
pub open spec fn flag_cells(map: LevelMap) -> Seq<(int, int)> {
    scan(marked(map, FLAG_MARKER), map.width as int, ROWS as int)
}

/// The level passes `validate`.
pub open spec fn level_ok(map: LevelMap) -> bool {
    &&& map.wf()
    &&& floating_cells(map).len() == 0
    &&& pits_ok(map)
    &&& climbs_ok(map)
}

/// Hero, bugs and contact after the hero meets the bugs (see
/// `Hero::collide_bugs`).
pub open spec fn collide_model(h: HeroModel, bugs: Seq<Bug>, input: ButtonController) -> (
    HeroModel,
    Seq<Bug>,
    Option<bool>,
) {
    let k = first_touch(h, bugs);
    if k == bugs.len() {
        (h, bugs, None)
    } else if falling_onto(h, bugs[k]) {
        (HeroModel { vy: stomp_speed(input), ..h }, bugs.update(k, squashed(bugs[k])), Some(true))
    } else {
        (h, bugs, Some(false))
    }
}

/// The sound effects of one frame of play, in order: the jump, the bugs
/// that finish vanishing, the stomp or the hurt, and the hurt of falling.
pub open spec fn play_sounds(h0: HeroModel, bugs0: Seq<Bug>, input: ButtonController, map: LevelMap) -> Seq<Sfx> {
    let h1 = update_model(h0, input, map);
    let bugs1 = bugs0.map_values(|b: Bug| bug_step(b, map));
    let (h2, bugs2, hit) = collide_model(h1, bugs1, input);
    (if jumps(h0, input) { seq![Sfx::Jump] } else { Seq::empty() }) + enemy_deaths(vanishing(bugs0))
        + (match hit {
        Some(true) => seq![Sfx::Stomp],
        Some(false) => seq![Sfx::Hurt],
        None => Seq::empty(),
    }) + (if fell_out(h2) { seq![Sfx::Hurt] } else { Seq::empty() })
}

/// One challenge in progress.
pub struct Platformer {
    pub level_index: usize,
    pub map: LevelMap,
    /// Where the hero (re)starts.
    pub start: FixVec,
    /// The cell of the flag's lower half.
    pub flag_cell: Vec2,
    pub hero: Hero,
    pub bugs: Vec<Bug>,
    pub lives: u32,
    pub phase: Phase,
    /// Horizontal scroll of the camera in pixels.
    pub camera_x: i32,
    /// Frame counter for animations (wrapping).
    pub tick: u32,
}

impl Platformer {
    /// A challenge in a consistent state: a valid level at least a screen
    /// wide, start and flag inside it, hero and bugs within their bounds,
    /// at least one life, running timers, and a hero that has not fallen
    /// out while the game is still on.
    pub open spec fn wf(self) -> bool {
        &&& self.map.wf()
        &&& self.map.width * CELL >= SCREEN_WIDTH
        &&& self.level_index < crate::levels::LEVEL_COUNT
        &&& 8 * 256 <= self.start.x.raw <= (self.map.width * CELL - 8) * 256
        &&& 8 * 256 <= self.start.y.raw <= (ROWS * CELL - 8) * 256
        &&& 0 <= self.flag_cell.x < self.map.width
        &&& 0 <= self.flag_cell.y < ROWS
        &&& self.hero.inv(self.map)
        &&& forall|i: int| 0 <= i < self.bugs@.len() ==> bug_inv(#[trigger] self.bugs@[i], self.map)
        &&& 1 <= self.lives <= LIVES
        &&& match self.phase {
            Phase::Intro(t) => t >= 1 && self.hero@.y < (SCREEN_HEIGHT + CELL + 1) * 256,
            Phase::Play => self.hero@.y < (SCREEN_HEIGHT + CELL + 1) * 256,
            Phase::Dying(t) => t >= 1,
            Phase::Won(t) => t >= 1,
        }
    }
}

/// A fresh hero at a start inside the level satisfies the hero invariant.
pub proof fn lemma_fresh_hero_inv(start: FixVec, map: LevelMap)
    requires
        map.wf(),
        8 * 256 <= start.x.raw <= (map.width * CELL - 8) * 256,
        8 * 256 <= start.y.raw <= (ROWS * CELL - 8) * 256,
    ensures
        fresh_hero(start).inv(map),
        fresh_hero(start)@.y < (SCREEN_HEIGHT + CELL + 1) * 256,
{
}

/// Freshly spawned bugs satisfy the bug invariant.
pub proof fn lemma_spawned_bugs_inv(map: LevelMap)
    requires
        map.wf(),
    ensures
        forall|i: int| 0 <= i < spawned_bugs(map).len() ==> bug_inv(#[trigger] spawned_bugs(map)[i], map),
{
    lemma_scan_bounds(marked(map, BUG_MARKER), map.width as int, ROWS as int);
    let s = scan(marked(map, BUG_MARKER), map.width as int, ROWS as int);
    assert forall|i: int| 0 <= i < spawned_bugs(map).len() implies bug_inv(#[trigger] spawned_bugs(map)[i], map) by {
        let c = s[i];
        assert(0 <= c.0 < map.width && 0 <= c.1 < ROWS);
    }
}

/// A stomp bounce keeps the hero invariant: the hero overlaps a bug, so it
/// is low enough that even the big bounce cannot carry it past the ceiling.
pub proof fn lemma_stomp_keeps_inv(h: Hero, b: Bug, input: ButtonController, map: LevelMap, h2: Hero)
    requires
        h.inv(map),
        bug_inv(b, map),
        touching(h@, b),
        h2@ == (HeroModel { vy: stomp_speed(input), ..h@ }),
    ensures
        h2.inv(map),
{
    assert(h@.y >= -512);
    assert(rise_bound(-1228) == 1665168);
    assert(rise_bound(-819) == 775593);
}

impl Platformer {
    /// Set up challenge `level_index`: check the level, find its markers,
    /// place the hero and the bugs, start the music and the intro banner.
    /// Fails (before any sound) on a level that breaks the design rules or
    /// lacks a `P` or an `F`.
    pub fn start(level_index: usize, audio: &mut Audio) -> (r: Result<Platformer, LevelError>)
        requires
            level_index < crate::levels::LEVEL_COUNT,
        ensures
            r == Err::<Platformer, LevelError>(LevelError::WrongHeight) <==> level_map(level_index).rows@.len() != ROWS,
            r == Err::<Platformer, LevelError>(LevelError::RaggedRow) <==> (level_map(level_index).rows@.len() == ROWS
                && !level_map(level_index).wf()),
            r matches Err(LevelError::Floating { x, y }) ==> level_map(level_index).wf() && floating_cells(
                level_map(level_index),
            ).len() > 0 && floating_cells(level_map(level_index))[0] == (x as int, y as int),
            r matches Err(LevelError::PitTooWide { x }) ==> level_map(level_index).wf() && floating_cells(
                level_map(level_index),
            ).len() == 0 && wide_pit_at(level_map(level_index), x as int) && forall|x2: int|
                x2 < x ==> !#[trigger] wide_pit_at(level_map(level_index), x2),
            r matches Err(LevelError::ClimbTooHigh { x }) ==> level_map(level_index).wf() && floating_cells(
                level_map(level_index),
            ).len() == 0 && pits_ok(level_map(level_index)) && high_climb_at(level_map(level_index), x as int)
                && forall|x2: int| x2 < x ==> !#[trigger] high_climb_at(level_map(level_index), x2),
            r == Err::<Platformer, LevelError>(LevelError::NoHero) <==> level_ok(level_map(level_index))
                && hero_cells(level_map(level_index)).len() == 0,
            r == Err::<Platformer, LevelError>(LevelError::NoFlag) <==> level_ok(level_map(level_index))
                && hero_cells(level_map(level_index)).len() > 0 && flag_cells(level_map(level_index)).len() == 0,
            r is Ok <==> level_ok(level_map(level_index)) && hero_cells(level_map(level_index)).len() > 0
                && flag_cells(level_map(level_index)).len() > 0,
            r is Err ==> *final(audio) == *old(audio),
            r matches Ok(p) ==> p.wf() && p.level_index == level_index && p.map == level_map(level_index),
            r matches Ok(p) ==> p.start == cell_point(hero_cells(p.map).last(), 8) && p.flag_cell == (Vec2 {
                x: flag_cells(p.map).last().0 as i32,
                y: flag_cells(p.map).last().1 as i32,
            }),
            r matches Ok(p) ==> p.hero == fresh_hero(p.start) && p.bugs@ == spawned_bugs(p.map) && p.lives
                == LIVES && p.phase == Phase::Intro(INTRO_FRAMES) && p.tick == 0 && p.camera_x == camera_for(
                p.start.x.raw as int,
                p.map,
            ),
            r is Ok ==> final(audio).music_playing && final(audio).music_volume == old(audio).music_volume
                && final(audio).sfx_volume == old(audio).sfx_volume,
            r is Ok ==> final(audio).pending@ == old(audio).after_play(crate::audio::Music::Platform),
    {
        let level = crate::levels::level(level_index);
        let map = LevelMap::new(level.map);
        match validate(&map) {
            Ok(()) => {},
            Err(e) => {
                return Err(e);
            },
        }
        let (start, flag_cell) = find_markers(&map);
        let start = match start {
            Some(s) => s,
            None => {
                return Err(LevelError::NoHero);
            },
        };
        let flag_cell = match flag_cell {
            Some(f) => f,
            None => {
                return Err(LevelError::NoFlag);
            },
        };
        proof {
            lemma_scan_bounds(marked(map, HERO_MARKER), map.width as int, ROWS as int);
            lemma_scan_bounds(marked(map, FLAG_MARKER), map.width as int, ROWS as int);
            let heroes = scan(marked(map, HERO_MARKER), map.width as int, ROWS as int);
            let flags = scan(marked(map, FLAG_MARKER), map.width as int, ROWS as int);
            assert(0 <= heroes.last().0 < map.width && 0 <= heroes.last().1 < ROWS);
            assert(0 <= flags.last().0 < map.width && 0 <= flags.last().1 < ROWS);
            lemma_fresh_hero_inv(start, map);
            lemma_spawned_bugs_inv(map);
        }
        let hero = Hero::new(start);
        let bugs = spawn_bugs(&map);
        audio.play_music(crate::audio::Music::Platform);
        let camera_x = camera(hero.pos.x, &map);
        assert(bugs@ == spawned_bugs(map));
        Ok(Platformer {
            level_index,
            map,
            start,
            flag_cell,
            hero,
            bugs,
            lives: LIVES,
            phase: Phase::Intro(INTRO_FRAMES),
            camera_x,
            tick: 0,
        })
    }
}

/// The horizontal scroll that keeps the hero centred, clamped to the level.
pub fn camera(hero_x: Fix, map: &LevelMap) -> (c: i32)
    requires
        map.wf(),
        map.width * CELL >= SCREEN_WIDTH,
    ensures
        c == camera_for(hero_x.raw as int, *map),
{
    let target = hero_x.floor() - SCREEN_WIDTH / 2;
    crate::fixed::clamp_i32(target, 0, map.width * CELL - SCREEN_WIDTH)
}

/// The frame counter after one more frame (`u32::wrapping_add(1)`).
pub open spec fn tick_after(t: u32) -> u32 {
    if t == u32::MAX {
        0
    } else {
        (t + 1) as u32
    }
}

/// A single sound effect is requested the same way alone or as a list.
pub proof fn lemma_after_sfxs_one(pending: Seq<crate::audio::MixerCommand>, volume: u8, e: Sfx)
    ensures
        Audio::after_sfxs(pending, volume, seq![e]) == Audio::after_sfx(pending, volume, e),
{
    assert(seq![e].drop_last() =~= Seq::<Sfx>::empty());
    assert(Audio::after_sfxs(pending, volume, Seq::<Sfx>::empty()) == pending);
    assert(seq![e].last() == e);
}

impl Platformer {
    /// One frame of the challenge.  Intro: count down the banner (A skips
    /// it).  Play: move the hero and the bugs, resolve stomps and side
    /// touches, detect falling out and reaching the flag.  Dying: pause,
    /// then respawn with one life less, or lose.  Won: let the jingle play,
    /// then win.  Afterwards the camera follows the hero.
    pub fn step(&mut self, input: &ButtonController, audio: &mut Audio) -> (r: Option<LevelResult>)
        requires
            old(self).wf(),
        ensures
            final(self).tick == tick_after(old(self).tick),
            final(self).map == old(self).map,
            final(self).start == old(self).start,
            final(self).flag_cell == old(self).flag_cell,
            final(self).level_index == old(self).level_index,
            r is None ==> final(self).wf(),
            r is None ==> final(self).camera_x == camera_for(final(self).hero@.x, final(self).map),
            final(audio).music_volume == old(audio).music_volume,
            final(audio).sfx_volume == old(audio).sfx_volume,
            old(self).phase matches Phase::Intro(t) ==> {
                &&& r is None
                &&& final(self).hero == old(self).hero
                &&& final(self).bugs@ == old(self).bugs@
                &&& final(self).lives == old(self).lives
                &&& final(self).phase == if t == 1 || input.just_pressed(Button::A) {
                    Phase::Play
                } else {
                    Phase::Intro((t - 1) as u32)
                }
                &&& final(audio).music_playing == old(audio).music_playing
                &&& final(audio).pending@ == old(audio).pending@
            },
            old(self).phase is Play ==> ({
                let h1 = update_model(old(self).hero@, *input, old(self).map);
                let b1 = old(self).bugs@.map_values(|b: Bug| bug_step(b, old(self).map));
                let c = collide_model(h1, b1, *input);
                let dying = c.2 == Some(false) || fell_out(c.0);
                let won = at_flag(c.0, old(self).flag_cell);
                let p1 = Audio::after_sfxs(
                    old(audio).pending@,
                    old(audio).sfx_volume,
                    play_sounds(old(self).hero@, old(self).bugs@, *input, old(self).map),
                );
                &&& r is None
                &&& final(self).hero@ == c.0
                &&& final(self).bugs@ == c.1
                &&& final(self).lives == old(self).lives
                &&& final(self).phase == if won {
                    Phase::Won(WON_FRAMES)
                } else if dying {
                    Phase::Dying(DYING_FRAMES)
                } else {
                    Phase::Play
                }
                &&& final(audio).music_playing == (old(audio).music_playing && !won)
                &&& final(audio).pending@ == if won {
                    Audio::after_sfx(
                        if old(audio).music_playing {
                            p1.push(crate::audio::MixerCommand::StopMusic)
                        } else {
                            p1
                        },
                        old(audio).sfx_volume,
                        Sfx::WinLevel,
                    )
                } else {
                    p1
                }
            }),
            old(self).phase matches Phase::Dying(t) ==> {
                &&& final(audio).music_playing == old(audio).music_playing
                &&& final(audio).pending@ == if t == LOSE_LIFE_SOUND_AT + 1 {
                    Audio::after_sfx(old(audio).pending@, old(audio).sfx_volume, Sfx::LoseLife)
                } else {
                    old(audio).pending@
                }
                &&& if t == 1 {
                    if old(self).lives == 1 {
                        r == Some(LevelResult::Lost)
                    } else {
                        &&& r is None
                        &&& final(self).lives == old(self).lives - 1
                        &&& final(self).hero == fresh_hero(old(self).start)
                        &&& final(self).bugs@ == spawned_bugs(old(self).map)
                        &&& final(self).phase == Phase::Play
                    }
                } else {
                    &&& r is None
                    &&& final(self).lives == old(self).lives
                    &&& final(self).hero == old(self).hero
                    &&& final(self).bugs@ == old(self).bugs@
                    &&& final(self).phase == Phase::Dying((t - 1) as u32)
                }
            },
            old(self).phase matches Phase::Won(t) ==> {
                &&& final(audio).music_playing == old(audio).music_playing
                &&& final(audio).pending@ == old(audio).pending@
                &&& if t == 1 {
                    r == Some(LevelResult::Won)
                } else {
                    &&& r is None
                    &&& final(self).lives == old(self).lives
                    &&& final(self).hero == old(self).hero
                    &&& final(self).bugs@ == old(self).bugs@
                    &&& final(self).phase == Phase::Won((t - 1) as u32)
                }
            },
    {
        self.tick = self.tick.wrapping_add(1);
        match self.phase {
            Phase::Intro(timer) => {
                let timer = timer - 1;
                if timer == 0 || input.is_just_pressed(Button::A) {
                    self.phase = Phase::Play;
                } else {
                    self.phase = Phase::Intro(timer);
                }
            },
            Phase::Play => {
                let ghost h0 = self.hero;
                let ghost b0 = self.bugs@;
                let ghost pend0 = audio.pending@;
                let ghost vol = audio.sfx_volume;
                self.hero.update(input, audio, &self.map);
                let ghost h1 = self.hero;
                let ghost pend1 = audio.pending@;
                update_bugs(&mut self.bugs, &self.map, audio);
                let ghost b1 = self.bugs@;
                let ghost pend2 = audio.pending@;
                proof {
                    lemma_rise_nonneg(h1@.vy);
                    lemma_first_touch(h1@, b1);
                    let k = first_touch(h1@, b1);
                    if k < b1.len() {
                        lemma_stomp_keeps_inv(h1, b1[k], *input, self.map, Hero { velocity: FixVec { y: Fix { raw: stomp_speed(*input) as i32 }, ..h1.velocity }, ..h1 });
                    }
                }
                let hit = self.hero.collide_bugs(&mut self.bugs, input);
                let ghost h2 = self.hero;
                match hit {
                    Some(true) => {
                        audio.sfx(Sfx::Stomp);
                    },
                    Some(false) => {
                        audio.sfx(Sfx::Hurt);
                        self.phase = Phase::Dying(DYING_FRAMES);
                    },
                    None => {},
                }
                let ghost pend3 = audio.pending@;
                if self.hero.pos.y.floor() > SCREEN_HEIGHT + CELL {
                    audio.sfx(Sfx::Hurt);
                    self.phase = Phase::Dying(DYING_FRAMES);
                }
                let ghost pend4 = audio.pending@;
                proof {
                    let s1: Seq<Sfx> = if jumps(h0@, *input) { seq![Sfx::Jump] } else { Seq::empty() };
                    let s2 = enemy_deaths(vanishing(b0));
                    let s3: Seq<Sfx> = match hit {
                        Some(true) => seq![Sfx::Stomp],
                        Some(false) => seq![Sfx::Hurt],
                        None => Seq::empty(),
                    };
                    let s4: Seq<Sfx> = if fell_out(h2@) { seq![Sfx::Hurt] } else { Seq::empty() };
                    lemma_after_sfxs_one(pend0, vol, Sfx::Jump);
                    lemma_after_sfxs_one(pend2, vol, Sfx::Stomp);
                    lemma_after_sfxs_one(pend2, vol, Sfx::Hurt);
                    lemma_after_sfxs_one(pend3, vol, Sfx::Hurt);
                    assert(pend1 == Audio::after_sfxs(pend0, vol, s1));
                    lemma_after_sfxs_concat(pend0, vol, s1, s2);
                    lemma_after_sfxs_concat(pend0, vol, s1 + s2, s3);
                    lemma_after_sfxs_concat(pend0, vol, s1 + s2 + s3, s4);
                    assert(pend4 == Audio::after_sfxs(pend0, vol, s1 + s2 + s3 + s4));
                }
                // The flag: a 20x48 pixel target around its lower half's top.
                let flag_x = self.flag_cell.x * CELL + 8;
                let flag_y = self.flag_cell.y * CELL;
                let dx = self.hero.pos.x.floor() - flag_x;
                let dy = self.hero.pos.y.floor() - flag_y;
                if crate::fixed::abs_i32(dx) < 10 && crate::fixed::abs_i32(dy) < 24 {
                    audio.stop_music();
                    audio.sfx(Sfx::WinLevel);
                    self.phase = Phase::Won(WON_FRAMES);
                }
                assert(self.hero.inv(self.map));
                assert(forall|i: int| 0 <= i < self.bugs@.len() ==> bug_inv(#[trigger] self.bugs@[i], self.map));
                assert(self.phase is Play ==> self.hero@.y < (SCREEN_HEIGHT + CELL + 1) * 256);
            },
            Phase::Dying(timer) => {
                let timer = timer - 1;
                if timer == LOSE_LIFE_SOUND_AT {
                    audio.sfx(Sfx::LoseLife);
                }
                if timer == 0 {
                    self.lives = self.lives - 1;
                    if self.lives == 0 {
                        return Some(LevelResult::Lost);
                    }
                    proof {
                        lemma_fresh_hero_inv(self.start, self.map);
                        lemma_spawned_bugs_inv(self.map);
                    }
                    self.hero = Hero::new(self.start);
                    self.bugs = spawn_bugs(&self.map);
                    assert(self.bugs@ == spawned_bugs(self.map));
                    self.phase = Phase::Play;
                } else {
                    self.phase = Phase::Dying(timer);
                }
            },
            Phase::Won(timer) => {
                let timer = timer - 1;
                if timer == 0 {
                    return Some(LevelResult::Won);
                }
                self.phase = Phase::Won(timer);
            },
        }
        // Camera: keep the hero centred, clamped to the level.
        self.camera_x = camera(self.hero.pos.x, &self.map);
        None
    }
}

// ---------------------------------------------------------------------------
// What to draw
// ---------------------------------------------------------------------------

/// Horizontal visibility margin: objects this far off screen are skipped.
pub const OFFSCREEN_MARGIN: i32 = 32;

impl Hero {
    /// The hero's sprite: the dying frame, the jump frame in the air, the
    /// two-frame run cycle (8 frames each) when moving, or standing;
    /// mirrored when facing left; centred on the hero.
    pub fn sprite(&self, camera_x: i32, tick: u32, dying: bool) -> (s: Sprite)
        requires
            self.velocity.x.raw > i32::MIN,
            0 <= camera_x <= MAX_LEVEL_WIDTH * CELL,
        ensures
            s.frame == if dying {
                4
            } else if !self.on_ground {
                3
            } else if self.velocity.x.raw > RUN_ANIMATION_SPEED || self.velocity.x.raw < -RUN_ANIMATION_SPEED {
                1 + (tick / 8) % 2
            } else {
                0
            },
            s.hflip == self.facing_left,
            s.x == floor_div(self.pos.x.raw as int, 256) - (camera_x + 8),
            s.y == floor_div(self.pos.y.raw as int, 256) - 8,
    {
        let frame: usize = if dying {
            4
        } else if !self.on_ground {
            3
        } else if self.velocity.x.abs().to_raw() > RUN_ANIMATION_SPEED {
            1 + ((tick / 8) % 2) as usize
        } else {
            0
        };
        Sprite {
            frame,
            x: self.pos.x.floor() - (camera_x + 8),
            y: self.pos.y.floor() - 8,
            hflip: self.facing_left,
        }
    }
}

impl Bug {
    /// The bug's sprite, if there is one to draw: nothing when far off
    /// screen or after a squashed bug has vanished; the two-frame walk
    /// cycle (10 frames each), or the squashed frame; mirrored when walking
    /// right.
    pub fn sprite(&self, camera_x: i32, tick: u32) -> (s: Option<Sprite>)
        requires
            0 <= camera_x <= MAX_LEVEL_WIDTH * CELL,
        ensures
            ({
                let x = floor_div(self.pos.x.raw as int, 256) - (camera_x + 8);
                let y = floor_div(self.pos.y.raw as int, 256) - 9;
                if !(-OFFSCREEN_MARGIN <= x < SCREEN_WIDTH + OFFSCREEN_MARGIN) || self.state == BugState::Squashed(0) {
                    s is None
                } else {
                    s == Some(Sprite {
                        frame: if self.state == BugState::Walking { ((tick / 10) % 2) as usize } else { 2 },
                        x: x as i32,
                        y: y as i32,
                        hflip: self.direction > 0,
                    })
                }
            }),
    {
        let x = self.pos.x.floor() - (camera_x + 8);
        let y = self.pos.y.floor() - 9;
        if !(-OFFSCREEN_MARGIN <= x && x < SCREEN_WIDTH + OFFSCREEN_MARGIN) {
            return None;
        }
        let frame: usize = match self.state {
            BugState::Walking => ((tick / 10) % 2) as usize,
            BugState::Squashed(0) => {
                return None;  // gone
            },
            BugState::Squashed(_) => 2,
        };
        Some(Sprite { frame, x, y, hflip: self.direction > 0 })
    }
}

/// The flag's sprite (16x32, its lower half in `flag_cell`), waving with a
/// two-frame cycle of 20 frames each; nothing when far off screen.
pub fn flag_sprite(flag_cell: Vec2, camera_x: i32, tick: u32) -> (s: Option<Sprite>)
    requires
        0 <= flag_cell.x < MAX_LEVEL_WIDTH,
        0 <= flag_cell.y < ROWS,
        0 <= camera_x <= MAX_LEVEL_WIDTH * CELL,
    ensures
        ({
            let x = flag_cell.x * CELL - camera_x;
            if !(-OFFSCREEN_MARGIN <= x < SCREEN_WIDTH + OFFSCREEN_MARGIN) {
                s is None
            } else {
                s == Some(Sprite {
                    frame: ((tick / 20) % 2) as usize,
                    x: x as i32,
                    y: ((flag_cell.y - 1) * CELL) as i32,
                    hflip: false,
                })
            }
        }),
{
    let x = flag_cell.x * CELL - camera_x;
    if !(-OFFSCREEN_MARGIN <= x && x < SCREEN_WIDTH + OFFSCREEN_MARGIN) {
        return None;
    }
    Some(Sprite { frame: ((tick / 20) % 2) as usize, x, y: (flag_cell.y - 1) * CELL, hflip: false })
}

/// Heart `i` of the lives display: full while the hero has more than `i`
/// lives, empty otherwise; the hearts sit in a row at the top left.
pub fn heart_sprite(i: u32, lives: u32) -> (s: Sprite)
    requires
        i < LIVES,
    ensures
        s.frame == if i < lives { 0usize } else { 1usize },
        s.x == 4 + i * 11,
        s.y == 4,
        !s.hflip,
{
    let frame: usize = if i < lives { 0 } else { 1 };
    Sprite { frame, x: 4 + (i as i32) * 11, y: 4, hflip: false }
}

/// The number shown for challenge `index` ("1" for the first).
pub open spec fn challenge_number(index: usize) -> &'static str {
    if index == 0 {
        "1"
    } else if index == 1 {
        "2"
    } else if index == 2 {
        "3"
    } else if index == 3 {
        "4"
    } else {
        "5"
    }
}

impl Platformer {
    /// The intro banner: "<challenger>'s CYBER JUMP", then
    /// "Challenge <n> of 5" on a second line.
    pub fn intro_text(&self) -> (text: String)
        requires
            self.level_index < crate::levels::LEVEL_COUNT,
        ensures
            text@ == crate::levels::challenger_name(self.level_index)@ + "'s CYBER JUMP\nChallenge "@
                + challenge_number(self.level_index)@ + " of 5"@,
    {
        let level = crate::levels::level(self.level_index);
        let number = if self.level_index == 0 {
            "1"
        } else if self.level_index == 1 {
            "2"
        } else if self.level_index == 2 {
            "3"
        } else if self.level_index == 3 {
            "4"
        } else {
            "5"
        };
        let mut text = String::from_str(level.challenger);
        text.append("'s CYBER JUMP\nChallenge ");
        text.append(number);
        text.append(" of 5");
        text
    }
}

} // verus!
