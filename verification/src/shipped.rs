//! The five shipped levels are playable: each passes every design rule of
//! `platformer::validate` and has a start and a flag, so
//! `Platformer::start` never fails on them.
use vstd::prelude::*;

use crate::levels::{KID_MAP, LEVEL_COUNT, OLD_MAN_MAP, RANGER_MAP, ROBOT_MAP, WOMAN_MAP};
use crate::platformer::{
    flag_cells, floating, hero_cells, high_climb_at, level_map, level_ok, marked, scan, scan_row, surface,
    surface_from, wide_pit_at, LevelMap, FLAG_MARKER, HERO_MARKER, ROWS,
};

verus! {

broadcast use vstd::string::is_ascii_spec_bytes;

/// A scan finds nothing when no cell in range satisfies the predicate.
pub proof fn lemma_scan_row_empty(pred: spec_fn(int, int) -> bool, y: int, n: int)
    requires
        forall|x: int| 0 <= x < n ==> !#[trigger] pred(x, y),
    ensures
        scan_row(pred, y, n).len() == 0,
    decreases n,
{
    if n > 0 {
        lemma_scan_row_empty(pred, y, n - 1);
    }
}

/// A scan of the whole grid finds nothing when no cell satisfies the
/// predicate.
pub proof fn lemma_scan_empty(pred: spec_fn(int, int) -> bool, width: int, rows: int)
    requires
        forall|x: int, y: int| 0 <= x < width && 0 <= y < rows ==> !#[trigger] pred(x, y),
    ensures
        scan(pred, width, rows).len() == 0,
    decreases rows,
{
    if rows > 0 {
        lemma_scan_empty(pred, width, rows - 1);
        lemma_scan_row_empty(pred, rows - 1, width);
    }
}

/// A scan finds something when some cell in range satisfies the predicate.
pub proof fn lemma_scan_row_found(pred: spec_fn(int, int) -> bool, y: int, n: int, x: int)
    requires
        0 <= x < n,
        pred(x, y),
    ensures
        scan_row(pred, y, n).len() > 0,
    decreases n,
{
    if x < n - 1 {
        lemma_scan_row_found(pred, y, n - 1, x);
    }
}

/// A scan of the whole grid finds a cell that satisfies the predicate.
pub proof fn lemma_scan_found(pred: spec_fn(int, int) -> bool, width: int, rows: int, x: int, y: int)
    requires
        0 <= x < width,
        0 <= y < rows,
        pred(x, y),
    ensures
        scan(pred, width, rows).len() > 0,
    decreases rows,
{
    if y < rows - 1 {
        lemma_scan_found(pred, width, rows - 1, x, y);
    } else {
        lemma_scan_row_found(pred, y, width, x);
    }
}

/// A level `Platformer::start` accepts: it passes every design rule and has
/// a start and a flag.
pub open spec fn playable(m: LevelMap) -> bool {
    &&& level_ok(m)
    &&& hero_cells(m).len() > 0
    &&& flag_cells(m).len() > 0
}

/// Something to stand on in column x, in the rows where the shipped levels
/// put their platforms and ground.
spec fn ground_near(m: LevelMap, x: int) -> bool {
    m.standable_at(x, 4) || m.standable_at(x, 5) || m.standable_at(x, 6) || m.standable_at(x, 7)
        || m.standable_at(x, 8)
}

/// The surface of column x of a level whose top six rows hold no block.
spec fn low_surface(m: LevelMap, x: int) -> int {
    if m.solid_at(x, 6) {
        6
    } else if m.solid_at(x, 7) {
        7
    } else if m.solid_at(x, 8) {
        8
    } else if m.solid_at(x, 9) {
        9
    } else {
        ROWS as int
    }
}

/// The kid's level is playable.
proof fn lemma_kid_playable()
    ensures
        playable(level_map(0)),
{
    let m = level_map(0);
    reveal_strlit("............................................................");
    reveal_strlit("..........===.........===...................................");
    reveal_strlit(".P...........................E.................E.......F....");
    reveal_strlit("##########...########...#############...####################");
    assert(m.rows@ == KID_MAP@);
    assert forall|y: int| 0 <= y < ROWS implies vstd::string::is_ascii(#[trigger] m.rows@[y]) && m.rows@[y]@.len() == 60 by {}
    assert(m.wf());
    assert forall|x: int, y: int| 0 <= x < 60 && 0 <= y < ROWS implies !#[trigger] floating(m)(x, y) by {}
    lemma_scan_empty(floating(m), 60, ROWS as int);
    assert forall|x: int| !#[trigger] wide_pit_at(m, x) by {
        if 0 <= x && x + 3 < 60 {
            assert(ground_near(m, x) || ground_near(m, x + 1) || ground_near(m, x + 2) || ground_near(m, x + 3));
        }
    }
    assert forall|x: int| 0 <= x < 60 implies #[trigger] surface(m, x) == low_surface(m, x) by {
        reveal_with_fuel(surface_from, 11);
    }
    assert forall|x: int| !#[trigger] high_climb_at(m, x) by {
        if 0 <= x && x + 1 < 60 {
            assert(surface(m, x) == low_surface(m, x));
            assert(surface(m, x + 1) == low_surface(m, x + 1));
        }
    }
    lemma_scan_found(marked(m, HERO_MARKER), 60, ROWS as int, 1, 7);
    lemma_scan_found(marked(m, FLAG_MARKER), 60, ROWS as int, 55, 7);
}

/// The old man's level is playable.
proof fn lemma_old_man_playable()
    ensures
        playable(level_map(1)),
{
    let m = level_map(1);
    reveal_strlit("............................................................");
    reveal_strlit("..................................E.........................");
    reveal_strlit(".................................===........................");
    reveal_strlit("................===.........................................");
    reveal_strlit("..........................................===...............");
    reveal_strlit(".P..........E........E........##...............E.........F..");
    reveal_strlit("#######...######...######...##############...########..#####");
    assert(m.rows@ == OLD_MAN_MAP@);
    assert forall|y: int| 0 <= y < ROWS implies vstd::string::is_ascii(#[trigger] m.rows@[y]) && m.rows@[y]@.len() == 60 by {}
    assert(m.wf());
    assert forall|x: int, y: int| 0 <= x < 60 && 0 <= y < ROWS implies !#[trigger] floating(m)(x, y) by {}
    lemma_scan_empty(floating(m), 60, ROWS as int);
    assert forall|x: int| !#[trigger] wide_pit_at(m, x) by {
        if 0 <= x && x + 3 < 60 {
            assert(ground_near(m, x) || ground_near(m, x + 1) || ground_near(m, x + 2) || ground_near(m, x + 3));
        }
    }
    assert forall|x: int| 0 <= x < 60 implies #[trigger] surface(m, x) == low_surface(m, x) by {
        reveal_with_fuel(surface_from, 11);
    }
    assert forall|x: int| !#[trigger] high_climb_at(m, x) by {
        if 0 <= x && x + 1 < 60 {
            assert(surface(m, x) == low_surface(m, x));
            assert(surface(m, x + 1) == low_surface(m, x + 1));
        }
    }
    lemma_scan_found(marked(m, HERO_MARKER), 60, ROWS as int, 1, 7);
    lemma_scan_found(marked(m, FLAG_MARKER), 60, ROWS as int, 57, 7);
}

/// The woman's level is playable.
proof fn lemma_woman_playable()
    ensures
        playable(level_map(2)),
{
    let m = level_map(2);
    reveal_strlit("............................................................");
    reveal_strlit("............................E...............................");
    reveal_strlit(".....................===...===....E.........................");
    reveal_strlit("................===..............===...E...===..............");
    reveal_strlit(".P.........===........................===......===....E..F..");
    reveal_strlit("#########..........................................#########");
    assert(m.rows@ == WOMAN_MAP@);
    assert forall|y: int| 0 <= y < ROWS implies vstd::string::is_ascii(#[trigger] m.rows@[y]) && m.rows@[y]@.len() == 60 by {}
    assert(m.wf());
    assert forall|x: int, y: int| 0 <= x < 60 && 0 <= y < ROWS implies !#[trigger] floating(m)(x, y) by {}
    lemma_scan_empty(floating(m), 60, ROWS as int);
    assert forall|x: int| !#[trigger] wide_pit_at(m, x) by {
        if 0 <= x && x + 3 < 60 {
            assert(ground_near(m, x) || ground_near(m, x + 1) || ground_near(m, x + 2) || ground_near(m, x + 3));
        }
    }
    assert forall|x: int| 0 <= x < 60 implies #[trigger] surface(m, x) == low_surface(m, x) by {
        reveal_with_fuel(surface_from, 11);
    }
    assert forall|x: int| !#[trigger] high_climb_at(m, x) by {
        if 0 <= x && x + 1 < 60 {
            assert(surface(m, x) == low_surface(m, x));
            assert(surface(m, x + 1) == low_surface(m, x + 1));
        }
    }
    lemma_scan_found(marked(m, HERO_MARKER), 60, ROWS as int, 1, 7);
    lemma_scan_found(marked(m, FLAG_MARKER), 60, ROWS as int, 57, 7);
}

/// The ranger's level is playable.
proof fn lemma_ranger_playable()
    ensures
        playable(level_map(3)),
{
    let m = level_map(3);
    reveal_strlit("............................................................");
    reveal_strlit(".......................E....................................");
    reveal_strlit(".......................==...................................");
    reveal_strlit(".....................#......................................");
    reveal_strlit(".P.........E.......E.#....##.E......E........E..........F...");
    reveal_strlit("######...######...#############...######...######...########");
    assert(m.rows@ == RANGER_MAP@);
    assert forall|y: int| 0 <= y < ROWS implies vstd::string::is_ascii(#[trigger] m.rows@[y]) && m.rows@[y]@.len() == 60 by {}
    assert(m.wf());
    assert forall|x: int, y: int| 0 <= x < 60 && 0 <= y < ROWS implies !#[trigger] floating(m)(x, y) by {}
    lemma_scan_empty(floating(m), 60, ROWS as int);
    assert forall|x: int| !#[trigger] wide_pit_at(m, x) by {
        if 0 <= x && x + 3 < 60 {
            assert(ground_near(m, x) || ground_near(m, x + 1) || ground_near(m, x + 2) || ground_near(m, x + 3));
        }
    }
    assert forall|x: int| 0 <= x < 60 implies #[trigger] surface(m, x) == low_surface(m, x) by {
        reveal_with_fuel(surface_from, 11);
    }
    assert forall|x: int| !#[trigger] high_climb_at(m, x) by {
        if 0 <= x && x + 1 < 60 {
            assert(surface(m, x) == low_surface(m, x));
            assert(surface(m, x + 1) == low_surface(m, x + 1));
        }
    }
    lemma_scan_found(marked(m, HERO_MARKER), 60, ROWS as int, 1, 7);
    lemma_scan_found(marked(m, FLAG_MARKER), 60, ROWS as int, 56, 7);
}

/// The robot's level is playable.
proof fn lemma_robot_playable()
    ensures
        playable(level_map(4)),
{
    let m = level_map(4);
    reveal_strlit("............................................................");
    reveal_strlit("...................................E........................");
    reveal_strlit("..................................===.......................");
    reveal_strlit(".................................#..........................");
    reveal_strlit(".P........E......E......E......E.#....##.E......E........F..");
    reveal_strlit("#####...#####...####...####...##############...####...######");
    assert(m.rows@ == ROBOT_MAP@);
    assert forall|y: int| 0 <= y < ROWS implies vstd::string::is_ascii(#[trigger] m.rows@[y]) && m.rows@[y]@.len() == 60 by {}
    assert(m.wf());
    assert forall|x: int, y: int| 0 <= x < 60 && 0 <= y < ROWS implies !#[trigger] floating(m)(x, y) by {}
    lemma_scan_empty(floating(m), 60, ROWS as int);
    assert forall|x: int| !#[trigger] wide_pit_at(m, x) by {
        if 0 <= x && x + 3 < 60 {
            assert(ground_near(m, x) || ground_near(m, x + 1) || ground_near(m, x + 2) || ground_near(m, x + 3));
        }
    }
    assert forall|x: int| 0 <= x < 60 implies #[trigger] surface(m, x) == low_surface(m, x) by {
        reveal_with_fuel(surface_from, 11);
    }
    assert forall|x: int| !#[trigger] high_climb_at(m, x) by {
        if 0 <= x && x + 1 < 60 {
            assert(surface(m, x) == low_surface(m, x));
            assert(surface(m, x + 1) == low_surface(m, x + 1));
        }
    }
    lemma_scan_found(marked(m, HERO_MARKER), 60, ROWS as int, 1, 7);
    lemma_scan_found(marked(m, FLAG_MARKER), 60, ROWS as int, 57, 7);
}

/// Law: every shipped level passes `validate` (ten rows of sixty cells,
/// every entity standing on something, no pit too wide, no step too high)
/// and has a start and a flag, so `Platformer::start` succeeds on each.
pub proof fn law_shipped_levels_are_playable(index: usize)
    requires
        index < LEVEL_COUNT,
    ensures
        playable(level_map(index)),
{
    if index == 0 {
        lemma_kid_playable();
    } else if index == 1 {
        lemma_old_man_playable();
    } else if index == 2 {
        lemma_woman_playable();
    } else if index == 3 {
        lemma_ranger_playable();
    } else {
        lemma_robot_playable();
    }
}

} // verus!
