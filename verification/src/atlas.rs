//! The atlas: which sprite belongs to each kind of ground, resource and
//! player pose, and where on its sprite sheet each sprite lies.

use vstd::prelude::*;
use crate::tile::{GroundType, ResourceType};

verus! {

/// A sprite of the player.
#[derive(Clone, Copy, Debug, Hash, PartialEq, Eq, Structural)]
pub enum OtherTexture {
    PlayerUp,
    PlayerDown,
    PlayerLeft,
    PlayerRight,
}

/// What a sprite is looked up by.
#[derive(Clone, Copy, Debug, Hash, PartialEq, Eq, Structural)]
pub enum TextureType {
    Ground(GroundType),
    Resource(ResourceType),
    Other(OtherTexture),
    AnimatedOther(OtherTexture),
    AnimatedGround(GroundType),
}

/// A sheet of sprites.
#[derive(Clone, Copy, Debug, Hash, PartialEq, Eq, Structural)]
pub enum Sheet {
    Terrain,
    Rocks,
    Plants,
    Player,
}

/// A rectangle of a sprite sheet: the pixel of its top left corner and
/// its width and height.
#[derive(Clone, Copy, Debug, PartialEq, Eq, Structural)]
pub struct Section {
    pub sheet: Sheet,
    pub x: u32,
    pub y: u32,
    pub width: u32,
    pub height: u32,
}

/// A sprite: one section, or the sections of the frames of an animation.
#[derive(Clone, Debug)]
pub enum SpriteTexture {
    Still(Section),
    Animated(Vec<Section>),
}

/// A sprite as contracts speak of it.
pub enum Sprite {
    Still(Section),
    Animated(Seq<Section>),
}

impl View for SpriteTexture {
    type V = Sprite;

    open spec fn view(&self) -> Sprite {
        match self {
            SpriteTexture::Still(section) => Sprite::Still(*section),
            SpriteTexture::Animated(frames) => Sprite::Animated(frames@),
        }
    }
}

/// Side of a terrain sprite, in pixels.
pub const TILE_SPRITE_SIZE: u32 = 32;

/// Side of a rock sprite, in pixels.
pub const ROCK_SPRITE_SIZE: u32 = 32;

/// Side of a plant sprite, in pixels.
pub const PLANT_SPRITE_SIZE: u32 = 32;

/// Side of a player sprite, in pixels.
pub const PLAYER_SPRITE_SIZE: u32 = 64;

/// Number of frames in the walk of the player.
pub const PLAYER_FRAMES: u32 = 8;

/// Number of frames in an animated terrain sprite.
pub const TILE_FRAMES: u32 = 3;

/// The square sprite of side `side` in the column `column` and the row
/// `row` of `sheet`.
pub open spec fn cell(sheet: Sheet, side: int, column: int, row: int) -> Section {
    Section {
        sheet,
        x: (side * column) as u32,
        y: (side * row) as u32,
        width: side as u32,
        height: side as u32,
    }
}

/// The `frames` sprites that follow one another in the row `row` of
/// `sheet`, from the column `column` on.
pub open spec fn strip(sheet: Sheet, side: int, column: int, row: int, frames: int) -> Seq<Section> {
    Seq::new(frames as nat, |f: int| cell(sheet, side, column + f, row))
}

/// The row of the player sheet that shows the player facing one way.
pub open spec fn player_row(pose: OtherTexture) -> int {
    match pose {
        OtherTexture::PlayerUp => 3,
        OtherTexture::PlayerLeft => 2,
        OtherTexture::PlayerDown => 1,
        OtherTexture::PlayerRight => 0,
    }
}

/// The sprite that the atlas holds for `key`, if it holds one.
pub open spec fn layout_of(key: TextureType) -> Option<Sprite> {
    match key {
        TextureType::Ground(GroundType::Dirt) => Some(Sprite::Still(cell(Sheet::Terrain, 32, 8, 5))),
        TextureType::Ground(GroundType::Stone) => Some(
            Sprite::Still(cell(Sheet::Terrain, 32, 2, 5)),
        ),
        TextureType::Ground(GroundType::PlainGrass) => Some(
            Sprite::Still(cell(Sheet::Terrain, 32, 4, 28)),
        ),
        TextureType::Ground(GroundType::Grass) => Some(
            Sprite::Still(cell(Sheet::Terrain, 32, 10, 5)),
        ),
        TextureType::Ground(GroundType::Water) => Some(
            Sprite::Animated(strip(Sheet::Terrain, 32, 9, 3, 3)),
        ),
        TextureType::Ground(GroundType::WindSweptGrass) => Some(
            Sprite::Animated(strip(Sheet::Terrain, 32, 9, 5, 3)),
        ),
        TextureType::Resource(ResourceType::Rock) => Some(
            Sprite::Still(cell(Sheet::Rocks, 32, 4, 11)),
        ),
        TextureType::Resource(ResourceType::Bush) => Some(
            Sprite::Still(cell(Sheet::Plants, 32, 13, 5)),
        ),
        TextureType::Resource(ResourceType::Tree) => Some(
            Sprite::Still(cell(Sheet::Plants, 32, 11, 5)),
        ),
        TextureType::Resource(ResourceType::Flower) => Some(
            Sprite::Still(cell(Sheet::Plants, 32, 10, 31)),
        ),
        TextureType::Resource(ResourceType::Nothing) => None,
        TextureType::Other(pose) => Some(Sprite::Still(cell(Sheet::Player, 64, 0, player_row(pose)))),
        TextureType::AnimatedOther(pose) => Some(
            Sprite::Animated(strip(Sheet::Player, 64, 1, player_row(pose), 8)),
        ),
        TextureType::AnimatedGround(_) => None,
    }
}

/// The sprite of the first entry of `entries` that is kept under `key`.
pub open spec fn first_under(entries: Seq<(TextureType, SpriteTexture)>, key: TextureType) -> Option<
    Sprite,
>
    decreases entries.len(),
{
    if entries.len() == 0 {
        None
    } else if entries[0].0 == key {
        Some(entries[0].1@)
    } else {
        first_under(entries.skip(1), key)
    }
}

/// Adding an entry at the end changes the answer for its own key only,
/// and only where no earlier entry answered.
pub proof fn lemma_first_under_push(
    entries: Seq<(TextureType, SpriteTexture)>,
    entry: (TextureType, SpriteTexture),
    key: TextureType,
)
    ensures
        first_under(entries.push(entry), key) == if first_under(entries, key) is Some {
            first_under(entries, key)
        } else if entry.0 == key {
            Some(entry.1@)
        } else {
            None
        },
    decreases entries.len(),
{
    if entries.len() == 0 {
        assert(entries.push(entry).skip(1) =~= entries);
    } else {
        assert(entries.push(entry).skip(1) =~= entries.skip(1).push(entry));
        if entries[0].0 != key {
            lemma_first_under_push(entries.skip(1), entry, key);
        }
    }
}

/// The sprites of the game, by what they show.
#[derive(Clone, Debug)]
pub struct Atlas {
    pub atlas: Vec<(TextureType, SpriteTexture)>,
}

impl Atlas {
    /// The sprite kept under `key`, if there is one.
    pub open spec fn lookup(&self, key: TextureType) -> Option<Sprite> {
        first_under(self.atlas@, key)
    }

    /// The atlas of the game: every sprite at its place on its sheet.
    pub fn new() -> (atlas: Atlas)
        ensures
            forall|key: TextureType| #[trigger] atlas.lookup(key) == layout_of(key),
    {
        let mut atlas = Atlas { atlas: Vec::new() };
        atlas.add_still(TextureType::Ground(GroundType::Dirt), Sheet::Terrain, TILE_SPRITE_SIZE, 8, 5);
        atlas.add_still(TextureType::Ground(GroundType::Stone), Sheet::Terrain, TILE_SPRITE_SIZE, 2, 5);
        atlas.add_still(
            TextureType::Ground(GroundType::PlainGrass),
            Sheet::Terrain,
            TILE_SPRITE_SIZE,
            4,
            28,
        );
        atlas.add_still(TextureType::Ground(GroundType::Grass), Sheet::Terrain, TILE_SPRITE_SIZE, 10, 5);
        atlas.add_still(TextureType::Resource(ResourceType::Bush), Sheet::Plants, PLANT_SPRITE_SIZE, 13, 5);
        atlas.add_still(TextureType::Resource(ResourceType::Tree), Sheet::Plants, PLANT_SPRITE_SIZE, 11, 5);
        atlas.add_still(
            TextureType::Resource(ResourceType::Flower),
            Sheet::Plants,
            PLANT_SPRITE_SIZE,
            10,
            31,
        );
        atlas.add_still(TextureType::Resource(ResourceType::Rock), Sheet::Rocks, ROCK_SPRITE_SIZE, 4, 11);
        atlas.add_still(TextureType::Other(OtherTexture::PlayerUp), Sheet::Player, PLAYER_SPRITE_SIZE, 0, 3);
        atlas.add_still(TextureType::Other(OtherTexture::PlayerLeft), Sheet::Player, PLAYER_SPRITE_SIZE, 0, 2);
        atlas.add_still(TextureType::Other(OtherTexture::PlayerDown), Sheet::Player, PLAYER_SPRITE_SIZE, 0, 1);
        atlas.add_still(TextureType::Other(OtherTexture::PlayerRight), Sheet::Player, PLAYER_SPRITE_SIZE, 0, 0);
        atlas.add_animated(
            TextureType::AnimatedOther(OtherTexture::PlayerUp),
            Sheet::Player,
            PLAYER_SPRITE_SIZE,
            1,
            3,
            PLAYER_FRAMES,
        );
        atlas.add_animated(
            TextureType::AnimatedOther(OtherTexture::PlayerLeft),
            Sheet::Player,
            PLAYER_SPRITE_SIZE,
            1,
            2,
            PLAYER_FRAMES,
        );
        atlas.add_animated(
            TextureType::AnimatedOther(OtherTexture::PlayerDown),
            Sheet::Player,
            PLAYER_SPRITE_SIZE,
            1,
            1,
            PLAYER_FRAMES,
        );
        atlas.add_animated(
            TextureType::AnimatedOther(OtherTexture::PlayerRight),
            Sheet::Player,
            PLAYER_SPRITE_SIZE,
            1,
            0,
            PLAYER_FRAMES,
        );
        atlas.add_animated(
            TextureType::Ground(GroundType::Water),
            Sheet::Terrain,
            TILE_SPRITE_SIZE,
            9,
            3,
            TILE_FRAMES,
        );
        atlas.add_animated(
            TextureType::Ground(GroundType::WindSweptGrass),
            Sheet::Terrain,
            TILE_SPRITE_SIZE,
            9,
            5,
            TILE_FRAMES,
        );
        atlas
    }

    /// Keeps the still sprite at `(column, row)` of `sheet` under `key`,
    /// unless a sprite is kept under `key` already.
    pub fn add_still(&mut self, key: TextureType, sheet: Sheet, side: u32, column: u32, row: u32)
        requires
            side * column <= u32::MAX,
            side * row <= u32::MAX,
        ensures
            forall|other: TextureType| #[trigger]
                final(self).lookup(other) == if other == key && old(self).lookup(key) is None {
                    Some(Sprite::Still(cell(sheet, side as int, column as int, row as int)))
                } else {
                    old(self).lookup(other)
                },
    {
        let section = Section {
            sheet,
            x: side * column,
            y: side * row,
            width: side,
            height: side,
        };
        let entry = (key, SpriteTexture::Still(section));
        proof {
            assert forall|other: TextureType| #[trigger]
                first_under(self.atlas@.push(entry), other) == if other == key && first_under(
                    self.atlas@,
                    key,
                ) is None {
                    Some(Sprite::Still(cell(sheet, side as int, column as int, row as int)))
                } else {
                    first_under(self.atlas@, other)
                } by {
                lemma_first_under_push(self.atlas@, entry, other);
            }
        }
        self.atlas.push(entry);
    }

    /// Keeps under `key` the animation whose `frames` frames follow one
    /// another in the row `row` of `sheet` from `column` on, unless a
    /// sprite is kept under `key` already.
    pub fn add_animated(
        &mut self,
        key: TextureType,
        sheet: Sheet,
        side: u32,
        column: u32,
        row: u32,
        frames: u32,
    )
        requires
            column + frames <= u32::MAX,
            side * (column + frames) <= u32::MAX,
            side * row <= u32::MAX,
        ensures
            forall|other: TextureType| #[trigger]
                final(self).lookup(other) == if other == key && old(self).lookup(key) is None {
                    Some(
                        Sprite::Animated(
                            strip(sheet, side as int, column as int, row as int, frames as int),
                        ),
                    )
                } else {
                    old(self).lookup(other)
                },
    {
        let mut sections: Vec<Section> = Vec::new();
        let mut f: u32 = 0;
        while f < frames
            invariant
                0 <= f <= frames,
                column + frames <= u32::MAX,
                side * (column + frames) <= u32::MAX,
                side * row <= u32::MAX,
                sections@ == strip(sheet, side as int, column as int, row as int, f as int),
            decreases frames - f,
        {
            assert(side * (column + f) <= side * (column + frames)) by (nonlinear_arith)
                requires
                    f <= frames,
            ;
            let section = Section {
                sheet,
                x: side * (column + f),
                y: side * row,
                width: side,
                height: side,
            };
            sections.push(section);
            f = f + 1;
            assert(sections@ =~= strip(sheet, side as int, column as int, row as int, f as int));
        }
        let entry = (key, SpriteTexture::Animated(sections));
        proof {
            assert forall|other: TextureType| #[trigger]
                first_under(self.atlas@.push(entry), other) == if other == key && first_under(
                    self.atlas@,
                    key,
                ) is None {
                    Some(
                        Sprite::Animated(
                            strip(sheet, side as int, column as int, row as int, frames as int),
                        ),
                    )
                } else {
                    first_under(self.atlas@, other)
                } by {
                lemma_first_under_push(self.atlas@, entry, other);
            }
        }
        self.atlas.push(entry);
    }

    /// The sprite kept under `key`, if there is one.
    pub fn get(&self, key: &TextureType) -> (r: Option<&SpriteTexture>)
        ensures
            r is Some == self.lookup(*key) is Some,
            r matches Some(sprite) ==> Some(sprite@) == self.lookup(*key),
    {
        let mut i: usize = 0;
        assert(self.atlas@.skip(0) =~= self.atlas@);
        while i < self.atlas.len()
            invariant
                0 <= i <= self.atlas@.len(),
                first_under(self.atlas@, *key) == first_under(self.atlas@.skip(i as int), *key),
            decreases self.atlas@.len() - i,
        {
            if self.atlas[i].0 == *key {
                assert(self.atlas@.skip(i as int)[0] == self.atlas@[i as int]);
                return Some(&self.atlas[i].1);
            }
            assert(self.atlas@.skip(i as int)[0] == self.atlas@[i as int]);
            assert(self.atlas@.skip(i as int).skip(1) =~= self.atlas@.skip(i + 1));
            i = i + 1;
        }
        assert(self.atlas@.skip(i as int).len() == 0);
        None
    }
}

} // verus!
