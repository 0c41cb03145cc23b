use cyber_jum::world_map::{
    cell, hero_start, tile_at, walkable, HEIGHT_CELLS, MAP, NPC_CELLS, TILE_COUNT, WIDTH_CELLS,
};

#[test]
fn every_row_is_fifteen_cells_wide() {
    assert_eq!(MAP.len() as i32, HEIGHT_CELLS);
    for row in MAP.iter() {
        assert_eq!(row.len() as i32, WIDTH_CELLS);
    }
}

#[test]
fn off_the_map_is_a_tree() {
    assert_eq!(cell(-1, 10), b'T');
    assert_eq!(cell(15, 10), b'T');
    assert_eq!(cell(3, -1), b'T');
    assert_eq!(cell(3, 64), b'T');
    assert!(!walkable(-1, 10));
    assert!(!walkable(7, 64));
}

#[test]
fn cells_read_the_ascii_map() {
    assert_eq!(cell(0, 0), b'T');
    assert_eq!(cell(7, 0), b'.');
    assert_eq!(cell(6, 2), b'[');
    assert_eq!(cell(8, 2), b']');
    assert_eq!(cell(1, 5), b'b');
    assert_eq!(cell(3, 4), b'f');
    assert_eq!(cell(11, 6), b't');
}

#[test]
fn trees_and_bushes_block() {
    assert!(!walkable(0, 0));
    assert!(!walkable(1, 5));
    assert!(walkable(7, 30));
    assert!(walkable(3, 4));
    assert!(walkable(11, 6));
}

#[test]
fn tiles_cover_each_cell_with_a_quad() {
    // A tree fills its quad with its four quarters.
    assert_eq!(tile_at(0, 0), 6);
    assert_eq!(tile_at(1, 0), 7);
    assert_eq!(tile_at(0, 1), 8);
    assert_eq!(tile_at(1, 1), 9);
    // Road and its edges (cell row 2: "TTTggg[.]gggTTT").
    assert_eq!(tile_at(14, 4), 3);
    assert_eq!(tile_at(12, 4), 4);
    assert_eq!(tile_at(13, 4), 3);
    assert_eq!(tile_at(17, 4), 5);
    assert_eq!(tile_at(16, 4), 3);
    // A bush cell (1, 5): bushes on the diagonal, grass elsewhere.
    assert_eq!(tile_at(2, 10), 10);
    assert_eq!(tile_at(3, 11), 10);
    assert_eq!(tile_at(3, 10), 0);
    // Flowers (3, 4): only the top right quarter.
    assert_eq!(tile_at(7, 8), 2);
    assert_eq!(tile_at(6, 8), 0);
    // Tall grass (11, 6).
    assert_eq!(tile_at(22, 12), 11);
    // Off the map: trees.
    assert_eq!(tile_at(-2, -2), 6);
}

#[test]
fn plain_grass_gets_sparse_tufts() {
    // Cell (3, 2) is grass; (7x + 13y) mod 11 decides the tufts.
    assert_eq!(tile_at(6, 4), 0); // 42 + 52 = 94, 94 % 11 = 6
    assert_eq!(tile_at(7, 5), 0); // 49 + 65 = 114, 114 % 11 = 4
    assert_eq!(tile_at(8, 5), 1); // 56 + 65 = 121, 121 % 11 = 0
}

#[test]
fn every_tile_index_is_in_the_sheet() {
    for ty in -4..(HEIGHT_CELLS * 2 + 4) {
        for tx in -4..(WIDTH_CELLS * 2 + 4) {
            assert!(tile_at(tx, ty) < TILE_COUNT);
        }
    }
}

#[test]
fn challengers_stand_beside_the_road() {
    for (cx, cy) in NPC_CELLS.iter() {
        assert!(walkable(*cx, *cy));
        assert!(*cx == 4 || *cx == 10);
    }
    let start = hero_start();
    assert_eq!((start.x, start.y), (112, 968));
    assert!(walkable(start.x / 16, start.y / 16));
}
