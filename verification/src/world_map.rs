//! The top-down overworld: a dirt road heading north through a forest.
//!
//! The map is a grid of 16x16-pixel cells, written below as ASCII art
//! (one character per cell, row 0 at the top: the hero starts at the
//! bottom and walks up).  Each cell expands to a 2x2 quad of 8x8 tiles
//! of the top-down tile sheet.
//!
//! Legend:  T tree   b bush   g grass   f flowers   t tall grass
//!          [ left road edge   . road   ] right road edge
use vstd::prelude::*;
use vstd::string::StringSliceAdditionalSpecFns;

use crate::fixed::{div_floor, floor_div, rem_floor, Vec2};

verus! {

pub const CELL: i32 = 16;
pub const WIDTH_CELLS: i32 = 15;
pub const HEIGHT_CELLS: i32 = 64;
pub const HEIGHT_PX: i32 = 1024;

/// Hero spawn point (overworld pixels), on the road at the bottom of the map.
pub const HERO_START_X: i32 = 112;
pub const HERO_START_Y: i32 = 968;

/// Reaching this cell row (only possible once every challenger is beaten)
/// finishes the game.
pub const GOAL_ROW: i32 = 3;

/// How many challengers stand along the road.
pub const NPC_COUNT: usize = 5;

/// Where each challenger stands, in cells: (column, row).  They alternate
/// between the east and west side of the road.  Order matters: index n is
/// challenger n with platformer level n.
pub const NPC_CELLS: [(i32, i32); 5] = [(10, 52), (4, 42), (10, 32), (4, 22), (10, 12)];

// Map cells (ASCII).
/// `T`: a tree.
pub const TREE: u8 = 84;
/// `b`: a bush.
pub const BUSH_CELL: u8 = 98;
/// `f`: grass with flowers.
pub const FLOWERS: u8 = 102;
/// `t`: tall grass.
pub const TALL_GRASS_CELL: u8 = 116;
/// `.`: the road.
pub const ROAD_CELL: u8 = 46;
/// `[`: the road's left edge.
pub const ROAD_LEFT: u8 = 91;
/// `]`: the road's right edge.
pub const ROAD_RIGHT: u8 = 93;

pub const MAP: [&'static str; 64] = [
    "TTTTTTT.TTTTTTT", //  0   forest wall (road vanishes north)
    "TTTTTTT.TTTTTTT", //  1
    "TTTggg[.]gggTTT", //  2
    "TTgggg[.]ggggTT", //  3   <- goal row: the game ends here
    "TTgfgg[.]ggfgTT", //  4
    "Tbgggg[.]ggggbT", //  5
    "TTgggg[.]ggtgTT", //  6
    "TTggtg[.]ggggTT", //  7
    "TTTggg[.]gggTTT", //  8
    "TTgggg[.]ggggTT", //  9
    "TTgfgg[.]ggggTT", // 10
    "Tggggg[.]gggggT", // 11   clearing for the robot (challenger 5)
    "Tggfgg[.]ggggfT", // 12   <- robot at column 10
    "Tggggg[.]gggggT", // 13
    "TTgtgg[.]ggbgTT", // 14
    "TTgggg[.]ggggTT", // 15
    "TbTggg[.]gggTTT", // 16
    "TTgggg[.]ggtgTT", // 17
    "TTgfgg[.]ggggTT", // 18
    "TTgggg[.]ggggTT", // 19
    "TTgggg[.]gggTbT", // 20
    "Tggfgg[.]gggggT", // 21   clearing for the ranger (challenger 4)
    "Tggggg[.]ggfggT", // 22   <- ranger at column 4
    "Tgtggg[.]gggggT", // 23
    "TTgggg[.]ggggTT", // 24
    "TTggbg[.]gtggTT", // 25
    "TTTggg[.]ggggTT", // 26
    "TTgggg[.]gggTTT", // 27
    "TTgtgg[.]ggfgTT", // 28
    "TbTggg[.]ggggTT", // 29
    "TTgggg[.]ggggbT", // 30
    "Tggggg[.]gggggT", // 31   clearing for the woman (challenger 3)
    "Tgfggg[.]ggfggT", // 32   <- woman at column 10
    "Tggggg[.]gggggT", // 33
    "TTggtg[.]ggggTT", // 34
    "TTgggg[.]gtggTT", // 35
    "TTgfgg[.]ggggTT", // 36
    "TTTggg[.]gggTTT", // 37
    "TTgggg[.]ggbgTT", // 38
    "TTggbg[.]ggggTT", // 39
    "TTgggg[.]ggtgTT", // 40
    "Tgggfg[.]gggggT", // 41   clearing for the old man (challenger 2)
    "Tggggg[.]gfgggT", // 42   <- old man at column 4
    "Tgtggg[.]gggggT", // 43
    "TTgggg[.]ggggTT", // 44
    "TTgggg[.]gfggTT", // 45
    "TbTgtg[.]ggggTT", // 46
    "TTgggg[.]gggTbT", // 47
    "TTgfgg[.]gtggTT", // 48
    "TTgggg[.]ggggTT", // 49
    "TTggtg[.]ggggTT", // 50
    "Tggggg[.]gggfgT", // 51   clearing for the kid (challenger 1)
    "Tgfggg[.]gggggT", // 52   <- kid at column 10
    "Tggggg[.]ggtggT", // 53
    "TTgggg[.]ggggTT", // 54
    "TTgtgg[.]gbggTT", // 55
    "TTTggg[.]ggggTT", // 56
    "TTgggg[.]gggTTT", // 57
    "TTgfgg[.]gfggTT", // 58
    "Tbgggg[.]ggggTT", // 59
    "TTgggg[.]ggtgbT", // 60   <- hero starts on the road here
    "TTggtg[.]ggggTT", // 61
    "TTgggg[.]ggggTT", // 62
    "TTTTTT[.]TTTTTT", // 63   forest wall (bottom of the map)
];

/// The hero's spawn point.
pub fn hero_start() -> (p: Vec2)
    ensures
        p.x == HERO_START_X,
        p.y == HERO_START_Y,
{
    Vec2 { x: HERO_START_X, y: HERO_START_Y }
}

/// The cell at (column, row); anything off the map counts as a tree.
pub open spec fn cell_at(x: int, y: int) -> u8 {
    if 0 <= x < WIDTH_CELLS && 0 <= y < HEIGHT_CELLS && x < MAP@[y].spec_bytes().len() {
        MAP@[y].spec_bytes()[x]
    } else {
        TREE
    }
}

/// The cell at (column, row); anything off the map counts as a tree.
pub fn cell(x: i32, y: i32) -> (c: u8)
    ensures
        c == cell_at(x as int, y as int),
{
    if !(0 <= x && x < WIDTH_CELLS) || !(0 <= y && y < HEIGHT_CELLS) {
        return TREE;
    }
    let row = MAP[y as usize].as_bytes();
    if (x as usize) < row.len() {
        row[x as usize]
    } else {
        TREE
    }
}

/// Trees and bushes block the way; everything else can be walked on.
pub open spec fn walkable_at(x: int, y: int) -> bool {
    cell_at(x, y) != TREE && cell_at(x, y) != BUSH_CELL
}

/// Law: the map is walled in; nothing off the map can be walked on.
pub proof fn law_off_map_is_blocked(x: int, y: int)
    requires
        !(0 <= x < WIDTH_CELLS && 0 <= y < HEIGHT_CELLS),
    ensures
        cell_at(x, y) == TREE,
        !walkable_at(x, y),
{
}

/// Can the hero walk into this cell?
pub fn walkable(x: i32, y: i32) -> (b: bool)
    ensures
        b == walkable_at(x as int, y as int),
{
    let c = cell(x, y);
    !(c == TREE || c == BUSH_CELL)
}

// Tile indices into the top-down tile strip.
pub const GRASS: usize = 0;
pub const GRASS_TUFTS: usize = 1;
pub const GRASS_FLOWER: usize = 2;
pub const ROAD: usize = 3;
pub const ROAD_EDGE_LEFT: usize = 4;
pub const ROAD_EDGE_RIGHT: usize = 5;
/// The tree's four quads are NW NE / SW SE, from here on.
pub const TREE_NW: usize = 6;
pub const BUSH: usize = 10;
pub const TALL_GRASS: usize = 11;
/// How many tiles the strip has.
pub const TILE_COUNT: usize = 12;

/// The tile at 8x8-tile coordinate (tx, ty).  Trees fill their quad with
/// their four quarters; a bush cell holds two bushes on the diagonal; a
/// flower cell has its flower in the top right quarter; road edges are on
/// the outer side of the road; plain grass gets tufts on a deterministic
/// sparse pattern so that it does not tile visibly.
pub open spec fn tile_at_spec(tx: int, ty: int) -> usize {
    let qx = tx % 2;
    let qy = ty % 2;
    let c = cell_at(floor_div(tx, 2), floor_div(ty, 2));
    if c == TREE {
        (TREE_NW + qx + qy * 2) as usize
    } else if c == BUSH_CELL {
        if qx == qy { BUSH } else { GRASS }
    } else if c == FLOWERS {
        if qx == 1 && qy == 0 { GRASS_FLOWER } else { GRASS }
    } else if c == TALL_GRASS_CELL {
        TALL_GRASS
    } else if c == ROAD_CELL {
        ROAD
    } else if c == ROAD_LEFT {
        if qx == 0 { ROAD_EDGE_LEFT } else { ROAD }
    } else if c == ROAD_RIGHT {
        if qx == 1 { ROAD_EDGE_RIGHT } else { ROAD }
    } else if (tx * 7 + ty * 13) % 11 == 0 {
        GRASS_TUFTS
    } else {
        GRASS
    }
}

/// Map an 8x8 tile coordinate to a tile index in the top-down tile sheet.
/// Each map cell covers a 2x2 quad of tiles.
pub fn tile_at(tile_x: i32, tile_y: i32) -> (t: usize)
    ensures
        t == tile_at_spec(tile_x as int, tile_y as int),
        t < TILE_COUNT,
{
    let quad_x = rem_floor(tile_x, 2);
    let quad_y = rem_floor(tile_y, 2);
    let cx = div_floor(tile_x, 2);
    let cy = div_floor(tile_y, 2);
    let c = cell(cx, cy);
    if c == TREE {
        TREE_NW + (quad_x + quad_y * 2) as usize
    } else if c == BUSH_CELL {
        // A pair of bushes on the diagonal reads as a small thicket.
        if quad_x == quad_y {
            BUSH
        } else {
            GRASS
        }
    } else if c == FLOWERS {
        if quad_x == 1 && quad_y == 0 {
            GRASS_FLOWER
        } else {
            GRASS
        }
    } else if c == TALL_GRASS_CELL {
        TALL_GRASS
    } else if c == ROAD_CELL {
        ROAD
    } else if c == ROAD_LEFT {
        if quad_x == 0 {
            ROAD_EDGE_LEFT
        } else {
            ROAD
        }
    } else if c == ROAD_RIGHT {
        if quad_x == 1 {
            ROAD_EDGE_RIGHT
        } else {
            ROAD
        }
    } else {
        // Plain grass, with deterministic variation so it doesn't tile
        // visibly.  Only cells inside the map are grass, so the tile
        // coordinates are small here.
        assert(0 <= cx < WIDTH_CELLS && 0 <= cy < HEIGHT_CELLS);
        if rem_floor(tile_x * 7 + tile_y * 13, 11) == 0 {
            GRASS_TUFTS
        } else {
            GRASS
        }
    }
}

} // verus!
