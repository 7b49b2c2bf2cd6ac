use std::cell::Cell;

use tile_world::player::Direction;
use tile_world::tile::{GroundType, ResourceType};
use tile_world::world::pixel_pos::PixelPos;
use tile_world::world::tile_pos::TilePos;
use tile_world::world::{Chunk, Terrain, TileDraw, World};

fn at(x: i64, y: i64) -> TilePos {
    TilePos { x, y }
}

fn ground(x: i64, y: i64) -> i64 {
    ((x * 37 + y * 101).rem_euclid(31) - 15) * 100 + 50
}

fn resource(x: i64, y: i64) -> i64 {
    (x * 13 - y * 7).rem_euclid(40) * 10 + 5
}

fn expected_tile(x: i64, y: i64) -> (GroundType, ResourceType) {
    let height = ground(x, y);
    (GroundType::classify(height), ResourceType::classify(height, resource(x, y)))
}

fn assert_chunk_is_generated(chunk: &Chunk, cx: i64, cy: i64) {
    for i in 0..4usize {
        for j in 0..4usize {
            let x = cx * 4 + i as i64;
            let y = cy * 4 + j as i64;
            assert_eq!(chunk.tile(i, j), expected_tile(x, y), "tile ({}, {})", x, y);
        }
    }
}

#[test]
fn the_test_fields_reach_every_ground() {
    let mut seen = Vec::new();
    for x in -20..20 {
        for y in -20..20 {
            let tile = expected_tile(x, y);
            if !seen.contains(&tile.0) {
                seen.push(tile.0);
            }
        }
    }
    assert_eq!(seen.len(), 6);
}

#[test]
fn a_chunk_holds_the_tiles_of_its_places() {
    let chunk = Chunk::generate(&ground, &resource, 0, 0);
    assert_chunk_is_generated(&chunk, 0, 0);
    let far = Chunk::generate(&ground, &resource, -3, 7);
    assert_chunk_is_generated(&far, -3, 7);
}

#[test]
fn a_chunk_asks_each_place_by_column_and_row() {
    let chunk = Chunk::generate(&|x: i64, _y: i64| x * 450 - 1000, &|_x: i64, _y: i64| 0, 0, 0);
    for j in 0..4usize {
        assert_eq!(chunk.tile(0, j).0, GroundType::Water);
        assert_eq!(chunk.tile(1, j).0, GroundType::Water);
        assert_eq!(chunk.tile(2, j).0, GroundType::Grass);
        assert_eq!(chunk.tile(3, j).0, GroundType::WindSweptGrass);
    }
    let rows = Chunk::generate(&|_x: i64, y: i64| y * 450 - 1000, &|_x: i64, _y: i64| 0, 1, -1);
    for i in 0..4usize {
        assert_eq!(rows.tile(i, 0).0, GroundType::Dirt);
        assert_eq!(rows.tile(i, 1).0, GroundType::Dirt);
        assert_eq!(rows.tile(i, 2).0, GroundType::Dirt);
        assert_eq!(rows.tile(i, 3).0, GroundType::Water);
    }
}

#[test]
fn generating_a_chunk_twice_gives_the_same_tiles() {
    for (cx, cy) in [(0, 0), (5, -9), (-1, -1), (1000000, -1000000)] {
        let first = Chunk::generate(&ground, &resource, cx, cy);
        let second = Chunk::generate(&ground, &resource, cx, cy);
        for i in 0..4usize {
            for j in 0..4usize {
                assert_eq!(first.tile(i, j), second.tile(i, j));
            }
        }
    }
}

#[test]
fn generating_in_a_fresh_world_gives_the_same_chunk() {
    let mut one = World::new(ground, resource);
    let mut other = World::new(ground, resource);
    one.load(at(0, 0), at(8, 8));
    other.load(at(4, 4), at(1, 1));
    let first = one.terrain.chunk(1, 1).unwrap();
    let second = other.terrain.chunk(1, 1).unwrap();
    for i in 0..4usize {
        for j in 0..4usize {
            assert_eq!(first.tile(i, j), second.tile(i, j));
        }
    }
}

#[test]
fn a_new_world_has_nothing_loaded() {
    let world = World::new(ground, resource);
    assert!(!world.terrain.has_chunk(0, 0));
    assert!(world.terrain.chunk(0, 0).is_none());
    assert!(!world.is_loaded(at(0, 0), at(4, 4)));
    assert_eq!(*world.player.get_position(), at(0, 0));
    assert_eq!(world.player.facing(), Direction::Up);
    assert!(!world.player.moved_recently());
}

#[test]
fn load_fills_the_window_and_one_chunk_below() {
    let mut world = World::new(ground, resource);
    world.load(at(3, -6), at(5, 8));
    for cx in -3..6 {
        for cy in -6..6 {
            let inside = (-1..2).contains(&cx) && (-3..1).contains(&cy);
            assert_eq!(world.terrain.has_chunk(cx, cy), inside, "chunk ({}, {})", cx, cy);
        }
    }
    assert!(world.is_loaded(at(3, -6), at(5, 8)));
    assert!(world.is_loaded(at(4, -4), at(4, 4)));
    assert!(!world.is_loaded(at(3, -6), at(6, 8)));
    assert!(!world.is_loaded(at(-1, -6), at(5, 8)));
}

#[test]
fn load_covers_every_tile_of_the_window() {
    let mut world = World::new(ground, resource);
    let (pos, size) = (at(-7, 9), at(13, 3));
    world.load(pos, size);
    for x in pos.x..pos.x + size.x {
        for y in pos.y..pos.y + size.y {
            assert!(world.terrain.has_chunk(x.div_euclid(4), y.div_euclid(4)));
        }
    }
}

#[test]
fn loaded_chunks_are_generated_from_the_fields() {
    let mut world = World::new(ground, resource);
    world.load(at(-5, 2), at(9, 9));
    for cx in -3..1 {
        for cy in -1..3 {
            assert_chunk_is_generated(world.terrain.chunk(cx, cy).unwrap(), cx, cy);
        }
    }
}

#[test]
fn an_empty_window_loads_the_chunk_below_only() {
    let mut world = World::new(ground, resource);
    world.load(at(0, 0), at(0, 0));
    assert!(world.terrain.has_chunk(-1, -1));
    assert!(!world.terrain.has_chunk(0, 0));
    assert!(!world.terrain.has_chunk(-2, -1));
    let mut other = World::new(ground, resource);
    other.load(at(0, 0), at(-8, 4));
    assert!(!other.terrain.has_chunk(-1, -1));
    assert!(!other.terrain.has_chunk(-1, 0));
}

#[test]
fn loading_again_generates_nothing_and_changes_nothing() {
    let asked = Cell::new(0u32);
    let counted = |x: i64, y: i64| {
        asked.set(asked.get() + 1);
        ground(x, y)
    };
    let mut world = World::new(counted, resource);
    world.load(at(0, 0), at(8, 8));
    assert_eq!(asked.get(), 9 * 16);
    let before: Vec<(GroundType, ResourceType)> = (0..4usize)
        .flat_map(|i| (0..4usize).map(move |j| (i, j)))
        .map(|(i, j)| world.terrain.chunk(1, 0).unwrap().tile(i, j))
        .collect();
    world.load(at(0, 0), at(8, 8));
    assert_eq!(asked.get(), 9 * 16);
    world.load(at(0, 0), at(4, 4));
    world.load(at(1, 1), at(3, 3));
    assert_eq!(asked.get(), 9 * 16);
    let after: Vec<(GroundType, ResourceType)> = (0..4usize)
        .flat_map(|i| (0..4usize).map(move |j| (i, j)))
        .map(|(i, j)| world.terrain.chunk(1, 0).unwrap().tile(i, j))
        .collect();
    assert_eq!(before, after);
    for cx in -1..2 {
        for cy in -1..2 {
            assert!(world.terrain.has_chunk(cx, cy));
        }
    }
    assert!(!world.terrain.has_chunk(2, 0));
}

#[test]
fn a_wider_load_generates_the_missing_chunks_only() {
    let asked = Cell::new(0u32);
    let counted = |x: i64, y: i64| {
        asked.set(asked.get() + 1);
        resource(x, y)
    };
    let mut world = World::new(ground, counted);
    world.load(at(0, 0), at(4, 4));
    assert_eq!(asked.get(), 4 * 16);
    world.load(at(0, 0), at(8, 4));
    assert_eq!(asked.get(), 6 * 16);
    world.load(at(4, 0), at(4, 4));
    assert_eq!(asked.get(), 6 * 16);
}

#[test]
fn load_leaves_the_player_alone() {
    let mut world = World::new(ground, resource);
    world.player.move_by(at(-1, 0));
    world.load(at(-10, -10), at(20, 20));
    assert_eq!(*world.player.get_position(), at(-1, 0));
    assert_eq!(world.player.facing(), Direction::Left);
    assert!(world.player.moved_recently());
}

#[test]
fn terrain_can_be_used_without_a_player() {
    let mut terrain = Terrain::new(ground, resource);
    terrain.load(at(0, 0), at(1, 1));
    assert!(terrain.is_loaded(at(0, 0), at(1, 1)));
    assert!(terrain.has_chunk(0, 0));
    assert_eq!(terrain.draw(at(0, 0), at(1, 1), PixelPos { x: 0, y: 0 }).len(), 4 * 16);
}

#[test]
fn draw_lists_every_tile_of_every_chunk_in_order() {
    let mut world = World::new(ground, resource);
    let (pos, size, offset) = (at(2, -3), at(3, 6), PixelPos { x: 5, y: 9 });
    world.load(pos, size);
    let tiles = world.draw(pos, size, offset);
    let mut expected = Vec::new();
    for cx in -1..2i64 {
        for cy in -2..1i64 {
            for i in 0..4i64 {
                for j in 0..4i64 {
                    let (x, y) = (cx * 4 + i, cy * 4 + j);
                    let tile = expected_tile(x, y);
                    expected.push(TileDraw {
                        ground: tile.0,
                        resource: tile.1,
                        pos: PixelPos { x: (x - pos.x) * 32 + 5, y: (y - pos.y) * 32 + 9 },
                    });
                }
            }
        }
    }
    assert_eq!(tiles.len(), 9 * 16);
    assert_eq!(tiles, expected);
}

#[test]
fn draw_puts_the_first_tile_of_the_window_at_the_offset() {
    let mut world = World::new(ground, resource);
    let (pos, size, offset) = (at(8, 8), at(4, 4), PixelPos { x: 3, y: 4 });
    world.load(pos, size);
    let tiles = world.draw(pos, size, offset);
    let first = expected_tile(8, 8);
    let wanted = TileDraw { ground: first.0, resource: first.1, pos: offset };
    assert_eq!(tiles.iter().filter(|tile| tile.pos == offset).count(), 1);
    assert!(tiles.contains(&wanted));
    assert_eq!(tiles[0].pos, PixelPos { x: 3 - 4 * 32, y: 4 - 4 * 32 });
}

#[test]
fn draw_of_an_empty_window_lists_nothing() {
    let world = World::new(ground, resource);
    assert!(world.is_loaded(at(0, 0), at(-8, 4)));
    assert_eq!(world.draw(at(0, 0), at(-8, 4), PixelPos { x: 0, y: 0 }), Vec::new());
}

#[test]
fn draw_does_not_change_the_cache() {
    let asked = Cell::new(0u32);
    let counted = |x: i64, y: i64| {
        asked.set(asked.get() + 1);
        ground(x, y)
    };
    let mut world = World::new(counted, resource);
    world.load(at(0, 0), at(4, 4));
    let asked_by_load = asked.get();
    let first = world.draw(at(0, 0), at(4, 4), PixelPos { x: 0, y: 0 });
    let second = world.draw(at(0, 0), at(4, 4), PixelPos { x: 0, y: 0 });
    assert_eq!(first, second);
    assert_eq!(asked.get(), asked_by_load);
    assert!(!world.terrain.has_chunk(1, 1));
}
