use tile_world::atlas::{Atlas, Section, Sheet, TextureType};
use tile_world::control_manager::{Action, ControlManager, KeyCode, MouseButton, PlayerAction};
use tile_world::frame_manager::{FrameManager, SpriteDraw};
use tile_world::tile::{GroundType, ResourceType};
use tile_world::world::pixel_pos::{PixelPos, WindowSize};
use tile_world::world::tile_pos::TilePos;
use tile_world::world::{TileDraw, World};
use tile_world::Error;

fn at(x: i64, y: i64) -> TilePos {
    TilePos { x, y }
}

fn cell(sheet: Sheet, side: u32, column: u32, row: u32) -> Section {
    Section { sheet, x: side * column, y: side * row, width: side, height: side }
}

fn flat_grass(_x: i64, _y: i64) -> i64 {
    0
}

fn bushes_on_even_columns(x: i64, _y: i64) -> i64 {
    if x.rem_euclid(2) == 0 {
        150
    } else {
        0
    }
}

#[test]
fn a_new_frame_manager_is_all_zero() {
    let frame = FrameManager::new();
    assert_eq!(frame.window_size, WindowSize { width: 0, height: 0 });
    assert_eq!(frame.mouse_position, PixelPos { x: 0, y: 0 });
    assert_eq!(frame.board_position, at(0, 0));
    assert_eq!(frame.board_size, at(0, 0));
    assert_eq!(frame.board_offset, PixelPos { x: 0, y: 0 });
    assert_eq!(frame.frame_count, 0);
}

#[test]
fn resizing_keeps_the_rest() {
    let mut frame = FrameManager::new();
    frame.cursor_moved(5, 6, WindowSize { width: 100, height: 100 });
    frame.resized(WindowSize { width: 640, height: 480 });
    assert_eq!(frame.window_size, WindowSize { width: 640, height: 480 });
    assert_eq!(frame.mouse_position, PixelPos { x: 5, y: 94 });
    assert_eq!(frame.frame_count, 0);
}

#[test]
fn the_pointer_is_kept_with_its_axis_turned_upward() {
    let mut frame = FrameManager::new();
    frame.cursor_moved(384, 144, WindowSize { width: 640, height: 480 });
    assert_eq!(frame.mouse_position, PixelPos { x: 384, y: 336 });
    frame.cursor_moved(0, 0, WindowSize { width: 640, height: 480 });
    assert_eq!(frame.mouse_position, PixelPos { x: 0, y: 480 });
}

#[test]
fn a_left_click_moves_to_the_tile_under_the_pointer() {
    let window = WindowSize { width: 640, height: 480 };
    let mut frame = FrameManager::new();
    frame.resized(window);
    frame.cursor_moved(384, 144, window);
    assert_eq!(frame.pointed_at(&at(0, 0)), at(2, 3));
    assert_eq!(frame.pointed_at(&at(-10, 4)), at(-8, 7));
    let mut control = ControlManager::new();
    frame.mouse_pressed(MouseButton::Right, &at(0, 0), &mut control);
    assert_eq!(control.pending_action, None);
    frame.mouse_pressed(MouseButton::Left, &at(-10, 4), &mut control);
    assert_eq!(
        control.pending_action,
        Some(PlayerAction { action: Action::MoveTo(at(-8, 7)), countdown: 3 })
    );
}

#[test]
fn a_key_moves_to_the_next_tile() {
    let frame = FrameManager::new();
    let mut control = ControlManager::new();
    frame.key_pressed(KeyCode::W, &at(3, 3), &mut control);
    assert_eq!(
        control.pending_action,
        Some(PlayerAction { action: Action::MoveTo(at(3, 4)), countdown: 3 })
    );
    frame.key_pressed(KeyCode::Other, &at(3, 3), &mut control);
    assert_eq!(control.pending_action, None);
}

#[test]
fn beginning_a_frame_lays_the_board_out() {
    let mut frame = FrameManager::new();
    frame.begin_frame(WindowSize { width: 650, height: 500 }, &at(100, -100));
    assert_eq!(frame.frame_count, 1);
    assert_eq!(frame.board_size, at(20, 15));
    assert_eq!(frame.board_offset, PixelPos { x: 5, y: 10 });
    assert_eq!(frame.board_position, at(90, -107));
    frame.begin_frame(WindowSize { width: 31, height: 32 }, &at(0, 0));
    assert_eq!(frame.frame_count, 2);
    assert_eq!(frame.board_size, at(0, 1));
    assert_eq!(frame.board_offset, PixelPos { x: 15, y: 0 });
    assert_eq!(frame.board_position, at(0, 0));
}

#[test]
fn the_tile_layer_draws_ground_and_then_resource() {
    let atlas = Atlas::new();
    let tiles = vec![
        TileDraw {
            ground: GroundType::Grass,
            resource: ResourceType::Bush,
            pos: PixelPos { x: 0, y: 0 },
        },
        TileDraw {
            ground: GroundType::Water,
            resource: ResourceType::Nothing,
            pos: PixelPos { x: 32, y: 0 },
        },
        TileDraw {
            ground: GroundType::Stone,
            resource: ResourceType::Rock,
            pos: PixelPos { x: 64, y: -32 },
        },
    ];
    let sprites = FrameManager::tile_layer(&atlas, 4, &tiles).unwrap();
    assert_eq!(
        sprites,
        vec![
            SpriteDraw { section: cell(Sheet::Terrain, 32, 10, 5), pos: PixelPos { x: 0, y: 0 } },
            SpriteDraw { section: cell(Sheet::Plants, 32, 13, 5), pos: PixelPos { x: 0, y: 0 } },
            SpriteDraw { section: cell(Sheet::Terrain, 32, 10, 3), pos: PixelPos { x: 32, y: 0 } },
            SpriteDraw { section: cell(Sheet::Terrain, 32, 2, 5), pos: PixelPos { x: 64, y: -32 } },
            SpriteDraw { section: cell(Sheet::Rocks, 32, 4, 11), pos: PixelPos { x: 64, y: -32 } },
        ]
    );
    assert_eq!(FrameManager::tile_layer(&atlas, 4, &Vec::new()), Ok(Vec::new()));
}

#[test]
fn a_ground_without_a_sprite_fails_the_tile_layer() {
    let mut atlas = Atlas { atlas: Vec::new() };
    atlas.add_still(TextureType::Ground(GroundType::Grass), Sheet::Terrain, 32, 10, 5);
    let tile = |ground| TileDraw { ground, resource: ResourceType::Tree, pos: PixelPos { x: 0, y: 0 } };
    assert_eq!(
        FrameManager::tile_layer(&atlas, 0, &vec![tile(GroundType::Grass)]),
        Ok(vec![SpriteDraw { section: cell(Sheet::Terrain, 32, 10, 5), pos: PixelPos { x: 0, y: 0 } }])
    );
    assert_eq!(
        FrameManager::tile_layer(&atlas, 0, &vec![tile(GroundType::Grass), tile(GroundType::Dirt)]),
        Err(Error::MissingTexture)
    );
}

#[test]
fn a_frame_loads_the_board_and_draws_it_with_the_player_last() {
    let atlas = Atlas::new();
    let mut world = World::new(flat_grass, bushes_on_even_columns);
    world.player.move_to(at(10, 10));
    let mut frame = FrameManager::new();
    let window = WindowSize { width: 100, height: 70 };
    let sprites = frame.frame(window, &mut world, &atlas).unwrap();
    assert_eq!(frame.frame_count, 1);
    assert_eq!(frame.board_size, at(3, 2));
    assert_eq!(frame.board_offset, PixelPos { x: 2, y: 3 });
    assert_eq!(frame.board_position, at(9, 9));
    assert!(world.is_loaded(at(9, 9), at(3, 2)));
    for cx in 0..4 {
        for cy in 0..4 {
            assert_eq!(world.terrain.has_chunk(cx, cy), (1..3).contains(&cx) && (1..3).contains(&cy));
        }
    }
    let tiles = 4 * 16;
    let bushes = tiles / 2;
    assert_eq!(sprites.len(), tiles + bushes + 1);
    assert_eq!(
        sprites[0],
        SpriteDraw {
            section: cell(Sheet::Terrain, 32, 10, 5),
            pos: PixelPos { x: (4 - 9) * 32 + 2, y: (4 - 9) * 32 + 3 },
        }
    );
    assert_eq!(
        sprites[1],
        SpriteDraw {
            section: cell(Sheet::Plants, 32, 13, 5),
            pos: PixelPos { x: (4 - 9) * 32 + 2, y: (4 - 9) * 32 + 3 },
        }
    );
    assert_eq!(
        *sprites.last().unwrap(),
        SpriteDraw { section: cell(Sheet::Player, 64, 0, 3), pos: PixelPos { x: 32 + 2, y: 32 + 3 } }
    );
    let under_player = SpriteDraw {
        section: cell(Sheet::Terrain, 32, 10, 5),
        pos: PixelPos { x: 32 + 2, y: 32 + 3 },
    };
    assert!(sprites.contains(&under_player));
}

#[test]
fn a_frame_without_a_player_sprite_fails() {
    let mut atlas = Atlas { atlas: Vec::new() };
    atlas.add_still(TextureType::Ground(GroundType::Grass), Sheet::Terrain, 32, 10, 5);
    let mut world = World::new(flat_grass, flat_grass);
    let mut frame = FrameManager::new();
    let window = WindowSize { width: 64, height: 64 };
    assert_eq!(frame.frame(window, &mut world, &atlas), Err(Error::MissingTexture));
    assert_eq!(frame.frame_count, 1);
    assert!(world.is_loaded(frame.board_position, frame.board_size));
    assert_eq!(frame.render(&world, &atlas), Err(Error::MissingTexture));
}

#[test]
fn rendering_again_draws_the_same_frame() {
    let atlas = Atlas::new();
    let mut world = World::new(flat_grass, bushes_on_even_columns);
    let mut frame = FrameManager::new();
    let first = frame.frame(WindowSize { width: 200, height: 200 }, &mut world, &atlas);
    assert_eq!(frame.render(&world, &atlas), first);
}
