//! Tests of level building, the candidate filter and the clamp that
//! takes the minimum fraction across candidates.

use platformer_core::geom::{Rect, Vec2};
use platformer_core::level::{
    is_candidate, motion_envelope, CollisionShape, Layer, Level, LevelError, ObjectShape, TileDef,
    TileMap, Tileset,
};

fn rect(left: i64, right: i64, bottom: i64, top: i64) -> Rect {
    Rect { left, right, bottom, top }
}

fn shape(left: i64, right: i64, bottom: i64, top: i64) -> CollisionShape {
    CollisionShape::Rect(rect(left, right, bottom, top))
}

fn plain_tileset() -> Tileset {
    Tileset { first_gid: 1, tilecount: 2, tiles: Vec::new() }
}

fn level_of(shapes: Vec<CollisionShape>) -> Level {
    Level { collision_shapes: shapes }
}

#[test]
fn build_full_cell_rects() {
    // A 2x2 map with two solid tiles and no declared sub-shapes: each
    // solid cell contributes its full 16-pixel cell, top row first.
    let map = TileMap {
        width: 2,
        height: 2,
        tilesets: vec![plain_tileset()],
        layers: vec![Layer { visible: true, tiles: Some(vec![vec![0, 1], vec![1, 0]]) }],
    };
    let level = Level::new(&map).unwrap();
    assert_eq!(
        level.collision_shapes,
        vec![
            // top row (y2 = 1): solid at x = 1
            shape(16000, 32000, 16000, 32000),
            // bottom row (y2 = 0): solid at x = 0
            shape(0, 16000, 0, 16000),
        ]
    );
}

#[test]
fn build_uses_declared_object_rect() {
    // A tile declaring a sub-rectangle contributes that rectangle,
    // carried from its top-down tile-local frame into world
    // coordinates: a 4x16-pixel post 2 pixels from the tile's left edge.
    let ts = Tileset {
        first_gid: 1,
        tilecount: 2,
        tiles: vec![TileDef {
            id: 0,
            objects: vec![ObjectShape::Rect { x: 2000, y: 0, width: 4000, height: 16000 }],
        }],
    };
    let map = TileMap {
        width: 1,
        height: 1,
        tilesets: vec![ts],
        layers: vec![Layer { visible: true, tiles: Some(vec![vec![1]]) }],
    };
    let level = Level::new(&map).unwrap();
    assert_eq!(level.collision_shapes, vec![shape(2000, 6000, 0, 16000)]);
}

#[test]
fn build_last_object_rect_wins() {
    let ts = Tileset {
        first_gid: 1,
        tilecount: 2,
        tiles: vec![TileDef {
            id: 0,
            objects: vec![
                ObjectShape::Rect { x: 0, y: 0, width: 16000, height: 16000 },
                ObjectShape::Rect { x: 0, y: 8000, width: 16000, height: 8000 },
            ],
        }],
    };
    let map = TileMap {
        width: 1,
        height: 1,
        tilesets: vec![ts],
        layers: vec![Layer { visible: true, tiles: Some(vec![vec![1]]) }],
    };
    let level = Level::new(&map).unwrap();
    // the second object: bottom half of the cell
    assert_eq!(level.collision_shapes, vec![shape(0, 16000, 0, 8000)]);
}

#[test]
fn build_polygon_objects_fall_back_to_full_cell() {
    // Polygon collision objects are recognized but contribute nothing;
    // a tile with only a polygon gets the full-cell fallback.
    let ts = Tileset {
        first_gid: 1,
        tilecount: 2,
        tiles: vec![TileDef { id: 0, objects: vec![ObjectShape::Polygon] }],
    };
    let map = TileMap {
        width: 1,
        height: 1,
        tilesets: vec![ts],
        layers: vec![Layer { visible: true, tiles: Some(vec![vec![1]]) }],
    };
    let level = Level::new(&map).unwrap();
    assert_eq!(level.collision_shapes, vec![shape(0, 16000, 0, 16000)]);
}

#[test]
fn build_rejects_multiple_tilesets() {
    let map = TileMap {
        width: 1,
        height: 1,
        tilesets: vec![plain_tileset(), plain_tileset()],
        layers: vec![Layer { visible: true, tiles: Some(vec![vec![0]]) }],
    };
    assert_eq!(Level::new(&map).unwrap_err(), LevelError::UnsupportedTilesets);

    let none = TileMap { width: 1, height: 1, tilesets: vec![], layers: vec![] };
    assert_eq!(Level::new(&none).unwrap_err(), LevelError::UnsupportedTilesets);
}

#[test]
fn build_rejects_visible_infinite_layer() {
    let map = TileMap {
        width: 1,
        height: 1,
        tilesets: vec![plain_tileset()],
        layers: vec![Layer { visible: true, tiles: None }],
    };
    assert_eq!(Level::new(&map).unwrap_err(), LevelError::InfiniteLayer);
}

#[test]
fn build_skips_invisible_layers() {
    // An invisible layer is skipped before its tiles are read, even an
    // infinite one; it contributes no geometry.
    let map = TileMap {
        width: 1,
        height: 1,
        tilesets: vec![plain_tileset()],
        layers: vec![Layer { visible: false, tiles: None }],
    };
    let level = Level::new(&map).unwrap();
    assert!(level.collision_shapes.is_empty());
}

#[test]
fn build_rejects_out_of_range_tile_id() {
    // tilecount 2 admits gids 1 (= first_gid) only; gid 5 is out of the
    // declared range.
    let map = TileMap {
        width: 2,
        height: 1,
        tilesets: vec![plain_tileset()],
        layers: vec![Layer { visible: true, tiles: Some(vec![vec![1, 5]]) }],
    };
    assert_eq!(Level::new(&map).unwrap_err(), LevelError::TileIdOutOfRange(5));
}

#[test]
fn build_unknown_tile_id_falls_back_to_full_cell() {
    // A gid in range whose tile declares no objects (and is not listed
    // at all) contributes the full cell.
    let ts = Tileset { first_gid: 1, tilecount: 3, tiles: vec![] };
    let map = TileMap {
        width: 1,
        height: 1,
        tilesets: vec![ts],
        layers: vec![Layer { visible: true, tiles: Some(vec![vec![2]]) }],
    };
    let level = Level::new(&map).unwrap();
    assert_eq!(level.collision_shapes, vec![shape(0, 16000, 0, 16000)]);
}

#[test]
fn candidate_filter_keeps_overlapping_shapes() {
    let mover = rect(0, 2000, 0, 2000);
    let d = Vec2 { x: 4000, y: 0 };
    let env = motion_envelope(&mover, &d);
    assert_eq!(env, rect(0, 6000, 0, 2000));

    // overlapping the envelope on the X axis only still makes it a
    // candidate (the filter is allowed to keep too much, never too
    // little)
    assert!(is_candidate(&shape(1000, 3000, 50000, 52000), &env));
    // overlapping on neither axis is filtered out
    assert!(!is_candidate(&shape(50000, 52000, 50000, 52000), &env));
    // touching edges count as non-overlapping
    assert!(!is_candidate(&shape(6000, 8000, 50000, 52000), &env));
}

#[test]
fn clamp_takes_minimum_fraction_across_candidates() {
    // Two obstacles ahead: the nearer one yields fraction 1/2, the
    // farther one 3/4; the applied displacement is the requested one
    // scaled by the minimum.
    let level = level_of(vec![
        shape(5000, 6000, 0, 2000), // fraction 3000/4000
        shape(4000, 4500, 0, 2000), // fraction 2000/4000, the minimum
    ]);
    let mover = rect(0, 2000, 0, 2000);
    let d = Vec2 { x: 4000, y: 0 };

    let res = level.clamp_move(&mover, &d);
    assert_eq!(res.fraction.num, 2000);
    assert_eq!(res.fraction.den, 4000);
    assert_eq!(res.allowed.x, 2000);
    assert_eq!(res.allowed.y, 0);
    assert!(!res.stuck);
}

#[test]
fn clamp_tie_keeps_the_earlier_candidate() {
    // Two candidates allowing the same rational fraction 1/2 written
    // with different denominators: the earlier candidate's exact pair is
    // kept, so the outcome is deterministic.
    let level = level_of(vec![
        shape(4000, 4600, 0, 4200),  // fraction 2000/4000 on x
        shape(0, 6200, 3000, 3600),  // fraction 1000/2000 on y
    ]);
    let mover = rect(0, 2000, 0, 2000);
    let d = Vec2 { x: 4000, y: 2000 };

    let res = level.clamp_move(&mover, &d);
    assert_eq!(res.fraction.num, 2000);
    assert_eq!(res.fraction.den, 4000);
    assert_eq!(res.allowed, Vec2 { x: 2000, y: 1000 });
}

#[test]
fn clamp_with_no_restriction_returns_displacement_unchanged() {
    let level = level_of(vec![shape(50000, 52000, 0, 2000)]);
    let mover = rect(0, 2000, 0, 2000);
    let d = Vec2 { x: 1000, y: 900 };
    let res = level.clamp_move(&mover, &d);
    assert_eq!(res.fraction.num, res.fraction.den);
    assert_eq!(res.allowed.x, 1000);
    assert_eq!(res.allowed.y, 900);
}

#[test]
fn clamp_stuck_candidate_blocks_the_tick() {
    // A candidate already penetrating the mover contributes fraction 0:
    // no movement this tick, and the degenerate state is surfaced.
    let level = level_of(vec![shape(500, 1500, 500, 1500)]);
    let mover = rect(0, 2000, 0, 2000);
    let d = Vec2 { x: 4000, y: 0 };
    let res = level.clamp_move(&mover, &d);
    assert!(res.stuck);
    assert_eq!(res.fraction.num, 0);
    assert_eq!(res.allowed.x, 0);
    assert_eq!(res.allowed.y, 0);
}

#[test]
fn probe_hits_shapes_edges_included() {
    let level = level_of(vec![shape(0, 16000, 0, 16000)]);
    assert!(level.probe(&Vec2::new(8000, 8000)));
    assert!(level.probe(&Vec2::new(16000, 0)));
    assert!(!level.probe(&Vec2::new(16001, 0)));
    assert!(!level.probe(&Vec2::new(8000, -1)));
}
