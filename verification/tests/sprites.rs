use tile_world::atlas::{Atlas, OtherTexture, Section, Sheet, SpriteTexture, TextureType};
use tile_world::frame_manager::draw::{pick_any, pick_frame, pick_still, pose, Draw};
use tile_world::player::{Direction, Player};
use tile_world::tile::{GroundType, ResourceType};
use tile_world::world::tile_pos::TilePos;
use tile_world::Error;

fn cell(sheet: Sheet, side: u32, column: u32, row: u32) -> Section {
    Section { sheet, x: side * column, y: side * row, width: side, height: side }
}

fn still(atlas: &Atlas, key: TextureType) -> Section {
    match atlas.get(&key) {
        Some(SpriteTexture::Still(section)) => *section,
        other => panic!("no still sprite under {:?}: {:?}", key, other),
    }
}

fn frames(atlas: &Atlas, key: TextureType) -> Vec<Section> {
    match atlas.get(&key) {
        Some(SpriteTexture::Animated(frames)) => frames.clone(),
        other => panic!("no animation under {:?}: {:?}", key, other),
    }
}

#[test]
fn atlas_holds_the_still_ground_sprites() {
    let atlas = Atlas::new();
    assert_eq!(still(&atlas, TextureType::Ground(GroundType::Dirt)), cell(Sheet::Terrain, 32, 8, 5));
    assert_eq!(still(&atlas, TextureType::Ground(GroundType::Stone)), cell(Sheet::Terrain, 32, 2, 5));
    assert_eq!(
        still(&atlas, TextureType::Ground(GroundType::PlainGrass)),
        cell(Sheet::Terrain, 32, 4, 28)
    );
    assert_eq!(still(&atlas, TextureType::Ground(GroundType::Grass)), cell(Sheet::Terrain, 32, 10, 5));
    assert_eq!(
        still(&atlas, TextureType::Ground(GroundType::Dirt)),
        Section { sheet: Sheet::Terrain, x: 256, y: 160, width: 32, height: 32 }
    );
}

#[test]
fn atlas_holds_the_animated_ground_sprites() {
    let atlas = Atlas::new();
    assert_eq!(
        frames(&atlas, TextureType::Ground(GroundType::Water)),
        vec![cell(Sheet::Terrain, 32, 9, 3), cell(Sheet::Terrain, 32, 10, 3), cell(Sheet::Terrain, 32, 11, 3)]
    );
    assert_eq!(
        frames(&atlas, TextureType::Ground(GroundType::WindSweptGrass)),
        vec![cell(Sheet::Terrain, 32, 9, 5), cell(Sheet::Terrain, 32, 10, 5), cell(Sheet::Terrain, 32, 11, 5)]
    );
}

#[test]
fn atlas_holds_the_resource_sprites() {
    let atlas = Atlas::new();
    assert_eq!(still(&atlas, TextureType::Resource(ResourceType::Rock)), cell(Sheet::Rocks, 32, 4, 11));
    assert_eq!(still(&atlas, TextureType::Resource(ResourceType::Bush)), cell(Sheet::Plants, 32, 13, 5));
    assert_eq!(still(&atlas, TextureType::Resource(ResourceType::Tree)), cell(Sheet::Plants, 32, 11, 5));
    assert_eq!(
        still(&atlas, TextureType::Resource(ResourceType::Flower)),
        cell(Sheet::Plants, 32, 10, 31)
    );
    assert!(atlas.get(&TextureType::Resource(ResourceType::Nothing)).is_none());
}

#[test]
fn atlas_holds_the_player_sprites() {
    let atlas = Atlas::new();
    let rows = [
        (OtherTexture::PlayerUp, 3),
        (OtherTexture::PlayerLeft, 2),
        (OtherTexture::PlayerDown, 1),
        (OtherTexture::PlayerRight, 0),
    ];
    for (pose, row) in rows {
        assert_eq!(still(&atlas, TextureType::Other(pose)), cell(Sheet::Player, 64, 0, row));
        let walk = frames(&atlas, TextureType::AnimatedOther(pose));
        assert_eq!(walk.len(), 8);
        for (f, section) in walk.iter().enumerate() {
            assert_eq!(*section, cell(Sheet::Player, 64, 1 + f as u32, row));
        }
    }
}

#[test]
fn atlas_holds_nothing_else() {
    let atlas = Atlas::new();
    assert_eq!(atlas.atlas.len(), 18);
    for ground in [
        GroundType::Water,
        GroundType::PlainGrass,
        GroundType::Grass,
        GroundType::WindSweptGrass,
        GroundType::Dirt,
        GroundType::Stone,
    ] {
        assert!(atlas.get(&TextureType::AnimatedGround(ground)).is_none());
    }
}

#[test]
fn the_first_sprite_under_a_key_stays() {
    let mut atlas = Atlas { atlas: Vec::new() };
    let key = TextureType::Resource(ResourceType::Nothing);
    atlas.add_still(key, Sheet::Rocks, 16, 2, 3);
    atlas.add_still(key, Sheet::Plants, 16, 5, 5);
    atlas.add_animated(key, Sheet::Plants, 16, 5, 5, 2);
    assert_eq!(still(&atlas, key), cell(Sheet::Rocks, 16, 2, 3));
    atlas.add_animated(TextureType::Resource(ResourceType::Rock), Sheet::Rocks, 16, 1, 0, 2);
    assert_eq!(
        frames(&atlas, TextureType::Resource(ResourceType::Rock)),
        vec![cell(Sheet::Rocks, 16, 1, 0), cell(Sheet::Rocks, 16, 2, 0)]
    );
}

#[test]
fn ground_with_a_still_sprite_draws_it_at_any_frame() {
    let atlas = Atlas::new();
    for frame in [0, 1, 2, 3, 1000] {
        assert_eq!(GroundType::Dirt.draw(&atlas, frame), Ok(cell(Sheet::Terrain, 32, 8, 5)));
    }
    assert_eq!(GroundType::Dirt.draw_still(&atlas), Ok(cell(Sheet::Terrain, 32, 8, 5)));
    assert_eq!(GroundType::Dirt.draw_animated(&atlas, 0), Err(Error::MissingTexture));
}

#[test]
fn ground_with_an_animation_draws_its_frames_in_turn() {
    let atlas = Atlas::new();
    for frame in 0..9u64 {
        let column = 9 + (frame % 3) as u32;
        assert_eq!(GroundType::Water.draw(&atlas, frame), Ok(cell(Sheet::Terrain, 32, column, 3)));
        assert_eq!(
            GroundType::Water.draw_animated(&atlas, frame),
            Ok(cell(Sheet::Terrain, 32, column, 3))
        );
    }
    assert_eq!(GroundType::WindSweptGrass.draw(&atlas, 7), Ok(cell(Sheet::Terrain, 32, 10, 5)));
    assert_eq!(GroundType::Water.draw(&atlas, u64::MAX), Ok(cell(Sheet::Terrain, 32, 9, 3)));
}

#[test]
fn a_still_draw_of_an_animation_takes_one_of_its_frames() {
    let atlas = Atlas::new();
    let water = frames(&atlas, TextureType::Ground(GroundType::Water));
    let mut seen = [false; 3];
    for _ in 0..200 {
        let drawn = GroundType::Water.draw_still(&atlas).unwrap();
        let index = water.iter().position(|frame| *frame == drawn).unwrap();
        seen[index] = true;
    }
    assert_eq!(seen, [true; 3]);
}

#[test]
fn ground_without_a_sprite_is_missing() {
    let empty = Atlas { atlas: Vec::new() };
    assert_eq!(GroundType::Grass.draw(&empty, 0), Err(Error::MissingTexture));
    assert_eq!(GroundType::Grass.draw_still(&empty), Err(Error::MissingTexture));
    assert_eq!(GroundType::Grass.draw_animated(&empty, 0), Err(Error::MissingTexture));
}

#[test]
fn an_animation_without_frames_is_missing() {
    let mut atlas = Atlas { atlas: Vec::new() };
    atlas.add_animated(TextureType::Ground(GroundType::Water), Sheet::Terrain, 32, 9, 3, 0);
    assert_eq!(GroundType::Water.draw(&atlas, 5), Err(Error::MissingTexture));
    assert_eq!(GroundType::Water.draw_animated(&atlas, 5), Err(Error::MissingTexture));
    assert_eq!(GroundType::Water.draw_still(&atlas), Err(Error::MissingTexture));
}

#[test]
fn resources_draw_their_still_sprite() {
    let atlas = Atlas::new();
    assert_eq!(ResourceType::Tree.draw(&atlas, 4), Ok(cell(Sheet::Plants, 32, 11, 5)));
    assert_eq!(ResourceType::Tree.draw_still(&atlas), Ok(cell(Sheet::Plants, 32, 11, 5)));
    assert_eq!(ResourceType::Rock.draw(&atlas, 0), Ok(cell(Sheet::Rocks, 32, 4, 11)));
}

#[test]
fn resources_have_no_animation() {
    let atlas = Atlas::new();
    assert_eq!(ResourceType::Tree.draw_animated(&atlas, 4), Err(Error::AnimationUnimplemented));
    let mut animated = Atlas { atlas: Vec::new() };
    animated.add_animated(TextureType::Resource(ResourceType::Bush), Sheet::Plants, 32, 0, 0, 2);
    assert_eq!(ResourceType::Bush.draw_still(&animated), Err(Error::AnimationUnimplemented));
    assert_eq!(ResourceType::Bush.draw(&animated, 1), Err(Error::AnimationUnimplemented));
}

#[test]
fn a_tile_without_a_resource_has_no_resource_sprite() {
    let atlas = Atlas::new();
    assert_eq!(ResourceType::Nothing.draw(&atlas, 0), Err(Error::MissingTexture));
    assert_eq!(ResourceType::Nothing.draw_still(&atlas), Err(Error::MissingTexture));
}

#[test]
fn poses_follow_the_facing() {
    assert_eq!(pose(Direction::Up), OtherTexture::PlayerUp);
    assert_eq!(pose(Direction::Down), OtherTexture::PlayerDown);
    assert_eq!(pose(Direction::Left), OtherTexture::PlayerLeft);
    assert_eq!(pose(Direction::Right), OtherTexture::PlayerRight);
}

#[test]
fn a_player_at_rest_draws_its_still_sprite() {
    let atlas = Atlas::new();
    let mut player = Player::new();
    assert_eq!(player.draw(&atlas, 5), Ok(cell(Sheet::Player, 64, 0, 3)));
    player.move_by(TilePos { x: 1, y: 0 });
    player.stopped_moving();
    assert_eq!(player.draw(&atlas, 5), Ok(cell(Sheet::Player, 64, 0, 0)));
    assert_eq!(player.draw_still(&atlas), Ok(cell(Sheet::Player, 64, 0, 0)));
}

#[test]
fn a_player_that_moved_draws_the_frame_of_its_walk() {
    let atlas = Atlas::new();
    let mut player = Player::new();
    player.move_by(TilePos { x: 0, y: -1 });
    for frame in 0..20u64 {
        let column = 1 + (frame % 8) as u32;
        assert_eq!(player.draw(&atlas, frame), Ok(cell(Sheet::Player, 64, column, 1)));
        assert_eq!(player.draw_animated(&atlas, frame), Ok(cell(Sheet::Player, 64, column, 1)));
    }
    player.move_by(TilePos { x: -1, y: 0 });
    assert_eq!(player.draw(&atlas, 8), Ok(cell(Sheet::Player, 64, 1, 2)));
}

#[test]
fn a_player_without_a_sprite_is_missing() {
    let empty = Atlas { atlas: Vec::new() };
    let mut player = Player::new();
    assert_eq!(player.draw(&empty, 0), Err(Error::MissingTexture));
    player.move_by(TilePos { x: 0, y: 1 });
    assert_eq!(player.draw(&empty, 0), Err(Error::MissingTexture));
    let mut wrong = Atlas { atlas: Vec::new() };
    wrong.add_animated(TextureType::Other(OtherTexture::PlayerUp), Sheet::Player, 64, 1, 3, 8);
    wrong.add_still(TextureType::AnimatedOther(OtherTexture::PlayerUp), Sheet::Player, 64, 0, 3);
    assert_eq!(player.draw_still(&wrong), Err(Error::MissingTexture));
    assert_eq!(player.draw_animated(&wrong, 0), Err(Error::MissingTexture));
}

#[test]
fn picking_from_a_sprite() {
    let one = SpriteTexture::Still(cell(Sheet::Rocks, 8, 1, 1));
    let many = SpriteTexture::Animated(vec![cell(Sheet::Rocks, 8, 0, 0), cell(Sheet::Rocks, 8, 1, 0)]);
    assert_eq!(pick_still(Some(&one)), Ok(cell(Sheet::Rocks, 8, 1, 1)));
    assert_eq!(pick_still(Some(&many)), Err(Error::MissingTexture));
    assert_eq!(pick_still(None), Err(Error::MissingTexture));
    assert_eq!(pick_frame(Some(&many), 3), Ok(cell(Sheet::Rocks, 8, 1, 0)));
    assert_eq!(pick_frame(Some(&many), 4), Ok(cell(Sheet::Rocks, 8, 0, 0)));
    assert_eq!(pick_frame(Some(&one), 0), Err(Error::MissingTexture));
    assert_eq!(pick_frame(None, 0), Err(Error::MissingTexture));
    assert_eq!(pick_any(Some(&one)), Ok(cell(Sheet::Rocks, 8, 1, 1)));
    assert_eq!(pick_any(None), Err(Error::MissingTexture));
    let single = SpriteTexture::Animated(vec![cell(Sheet::Rocks, 8, 5, 5)]);
    assert_eq!(pick_any(Some(&single)), Ok(cell(Sheet::Rocks, 8, 5, 5)));
}
