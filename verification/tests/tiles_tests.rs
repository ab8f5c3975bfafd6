use tilecore::geom::Vec2i;
use tilecore::surface::Image;
use tilecore::tiles::{MapMask, Tile, TileID, Tilemap, Tileset};

fn simple_tileset(n_tiles: usize, img_w: i32, img_h: i32) -> Tileset {
    let mut tiles = Vec::new();
    for i in 0..n_tiles {
        tiles.push(Tile { solid: i != 0 });
    }
    Tileset::new(tiles, Image::new(Vec2i { x: img_w, y: img_h }))
}

/// An 8-by-8 fine grid (4-by-4 coarse cells at scale factor 2) whose tiles
/// are all moveable except one fine tile inside coarse cell (1, 1).
fn scenario_map() -> Tilemap {
    let mut grid = vec![0usize; 64];
    grid[3 * 8 + 2] = 1; // fine tile (2, 3) lies in coarse cell (1, 1)
    Tilemap::new(
        Vec2i { x: 0, y: 0 },
        (8, 8),
        simple_tileset(4, 16, 16),
        grid,
        2,
        &[0],
    )
}

#[test]
fn scenario_one_solid_tile_blocks_its_coarse_cell() {
    let map = scenario_map();
    for cy in 0..4 {
        for cx in 0..4 {
            let expected = !(cx == 1 && cy == 1);
            assert_eq!(map.can_move_to(Vec2i { x: cx, y: cy }), expected);
        }
    }
}

#[test]
fn movemap_flips_when_one_tile_turns_solid() {
    let all_clear = vec![0usize; 64];
    let open = Tilemap::move_map((8, 8), &all_clear, &[0], 2);
    assert_eq!(open.len(), 16);
    assert!(open.iter().all(|b| *b));

    let mut one_solid = vec![0usize; 64];
    one_solid[3 * 8 + 2] = 1;
    let blocked = Tilemap::move_map((8, 8), &one_solid, &[0], 2);
    for cy in 0..4usize {
        for cx in 0..4usize {
            assert_eq!(blocked[cy * 4 + cx], !(cx == 1 && cy == 1));
        }
    }
}

#[test]
fn contains_solid_scans_exact_rect() {
    let mut grid = vec![0usize; 64];
    grid[0] = 1;
    let r1 = tilecore::geom::Rect { pos: Vec2i { x: 0, y: 0 }, sz: Vec2i { x: 1, y: 1 } };
    let r2 = tilecore::geom::Rect { pos: Vec2i { x: 1, y: 0 }, sz: Vec2i { x: 7, y: 8 } };
    assert!(Tilemap::contains_solid((8, 8), &grid, r1, &[0]));
    assert!(!Tilemap::contains_solid((8, 8), &grid, r2, &[0]));
}

#[test]
fn mapmask_unmask_is_idempotent_and_counted() {
    let mut mask = MapMask::new((8, 8));
    assert_eq!(mask.swapc, 0);
    assert!(mask.at(3, 4));
    mask.unmask(3, 4);
    assert_eq!(mask.swapc, 1);
    assert!(!mask.at(3, 4));
    mask.unmask(3, 4);
    assert_eq!(mask.swapc, 1);
    mask.unmask(0, 0);
    assert_eq!(mask.swapc, 2);
}

#[test]
fn tileset_get_rect_maps_index_to_cell() {
    let ts = simple_tileset(8, 32, 16);
    let r = ts.get_rect(TileID(5));
    assert_eq!((r.pos.x, r.pos.y), (8, 8));
    assert_eq!((r.sz.x, r.sz.y), (8, 8));
    let r0 = ts.get_rect(TileID(0));
    assert_eq!((r0.pos.x, r0.pos.y), (0, 0));
}

#[test]
fn tileset_index_returns_tile() {
    let ts = simple_tileset(4, 16, 16);
    assert!(!ts.index(TileID(0)).solid);
    assert!(ts.index(TileID(1)).solid);
}

#[test]
fn tile_id_at_translates_screen_point() {
    let mut grid = vec![0usize; 64];
    grid[1 * 8 + 2] = 3;
    let map = Tilemap::new(
        Vec2i { x: 0, y: 0 },
        (8, 8),
        simple_tileset(4, 16, 16),
        grid,
        2,
        &[0],
    );
    let (corner, id) = map.tile_id_at(Vec2i { x: 17, y: 9 });
    assert_eq!(corner, Vec2i { x: 16, y: 8 });
    assert_eq!(id, TileID(3));
    let (_, tile) = map.tile_at(Vec2i { x: 17, y: 9 });
    assert!(tile.solid);
}

#[test]
fn translate_scrolls_opposite_to_walking() {
    let map0 = scenario_map();
    let mut map = map0;
    map.translate(tilecore::geom::Dir::Down);
    assert_eq!(map.position, Vec2i { x: 0, y: -1 });
    map.translate(tilecore::geom::Dir::Left);
    assert_eq!(map.position, Vec2i { x: 1, y: -1 });
}

#[test]
fn swap_corridor_excludes_fringe() {
    assert!(Tilemap::swap_can_move_to(Vec2i { x: 5, y: 6 }));
    assert!(Tilemap::swap_can_move_to(Vec2i { x: 22, y: 21 }));
    assert!(!Tilemap::swap_can_move_to(Vec2i { x: 4, y: 6 }));
    assert!(!Tilemap::swap_can_move_to(Vec2i { x: 23, y: 6 }));
    assert!(!Tilemap::swap_can_move_to(Vec2i { x: 5, y: 5 }));
    assert!(!Tilemap::swap_can_move_to(Vec2i { x: 5, y: 22 }));
}

#[test]
fn try_new_accepts_good_grid() {
    let grid = vec![0usize; 64];
    let map = Tilemap::try_new(
        Vec2i { x: 0, y: 0 },
        (8, 8),
        simple_tileset(4, 16, 16),
        grid,
        2,
        &[0],
    );
    assert!(map.is_some());
}

#[test]
fn try_new_rejects_wrong_extent() {
    let grid = vec![0usize; 63];
    let map = Tilemap::try_new(
        Vec2i { x: 0, y: 0 },
        (8, 8),
        simple_tileset(4, 16, 16),
        grid,
        2,
        &[0],
    );
    assert!(map.is_none());
}

#[test]
fn try_new_rejects_out_of_catalog_ids() {
    let mut grid = vec![0usize; 64];
    grid[10] = 99;
    let map = Tilemap::try_new(
        Vec2i { x: 0, y: 0 },
        (8, 8),
        simple_tileset(4, 16, 16),
        grid,
        2,
        &[0],
    );
    assert!(map.is_none());
}

#[test]
fn try_new_rejects_nondividing_scale() {
    let grid = vec![0usize; 56];
    let map = Tilemap::try_new(
        Vec2i { x: 0, y: 0 },
        (7, 8),
        simple_tileset(4, 16, 16),
        grid,
        2,
        &[0],
    );
    assert!(map.is_none());
}

#[test]
fn map_size_accessors() {
    let map = scenario_map();
    assert_eq!(map.size(), (8, 8));
    assert_eq!(map.size_vec2i(), Vec2i { x: 8, y: 8 });
}

#[test]
fn draw_covers_the_map_area_only() {
    let map = scenario_map();
    let mut fb = Image::new(Vec2i { x: 100, y: 100 });
    fb.clear((5, 5, 5, 255));
    map.draw(&mut fb);
    // the tileset sheet is opaque black, so the 64-by-64 map area turns black
    assert_eq!(fb.buffer[0], (0, 0, 0, 255));
    assert_eq!(fb.buffer[(63 * 100 + 63) as usize], (0, 0, 0, 255));
    assert_eq!(fb.buffer[(63 * 100 + 64) as usize], (5, 5, 5, 255));
    assert_eq!(fb.buffer[(99 * 100 + 99) as usize], (5, 5, 5, 255));
}

#[test]
fn masked_draw_skips_unmasked_cells() {
    let mut map = scenario_map();
    let mut fb = Image::new(Vec2i { x: 100, y: 100 });
    fb.clear((5, 5, 5, 255));
    map.mask.unmask(0, 0);
    map.masked_draw(&mut fb);
    // the unmasked top-left fine tile is skipped, the rest is drawn
    assert_eq!(fb.buffer[0], (5, 5, 5, 255));
    assert_eq!(fb.buffer[(0 * 100 + 8) as usize], (0, 0, 0, 255));
    assert_eq!(fb.buffer[(8 * 100 + 0) as usize], (0, 0, 0, 255));
}
