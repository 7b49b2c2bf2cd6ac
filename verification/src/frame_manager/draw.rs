//! Which sprite shows a thing: the choice between the still sprite and a
//! frame of the animation, for the ground, for resources and for the
//! player.

use vstd::prelude::*;
use crate::atlas::{Atlas, OtherTexture, Section, Sprite, SpriteTexture, TextureType};
use crate::player::{Direction, Player};
use crate::tile::{GroundType, ResourceType};
use crate::Error;

verus! {

/// The frame of an animation that is shown at the frame count `frame`: the
/// frames are shown in turn, over and over. A sprite that is no animation,
/// or one without frames, shows nothing.
pub open spec fn animated_frame(sprite: Option<Sprite>, frame: u64) -> Result<Section, Error> {
    match sprite {
        Some(Sprite::Animated(frames)) => if frames.len() > 0 {
            Ok(frames[frame as int % frames.len() as int])
        } else {
            Err(Error::MissingTexture)
        },
        _ => Err(Error::MissingTexture),
    }
}

/// The section of a sprite that must be a still one.
pub open spec fn still_section(sprite: Option<Sprite>) -> Result<Section, Error> {
    match sprite {
        Some(Sprite::Still(section)) => Ok(section),
        _ => Err(Error::MissingTexture),
    }
}

/// Whether `drawn` may be what is shown of a sprite when any one of the
/// frames of an animation will do: the still sprite itself, or some frame
/// of the animation.
pub open spec fn any_frame(sprite: Option<Sprite>, drawn: Result<Section, Error>) -> bool {
    match sprite {
        Some(Sprite::Still(section)) => drawn == Ok::<Section, Error>(section),
        Some(Sprite::Animated(frames)) => if frames.len() > 0 {
            exists|i: int| 0 <= i < frames.len() && drawn == Ok::<Section, Error>(#[trigger] frames[i])
        } else {
            drawn == Err::<Section, Error>(Error::MissingTexture)
        },
        None => drawn == Err::<Section, Error>(Error::MissingTexture),
    }
}

/// The sprite of the player that faces `facing`.
pub open spec fn pose_of(facing: Direction) -> OtherTexture {
    match facing {
        Direction::Up => OtherTexture::PlayerUp,
        Direction::Down => OtherTexture::PlayerDown,
        Direction::Left => OtherTexture::PlayerLeft,
        Direction::Right => OtherTexture::PlayerRight,
    }
}

/// The sprite of the player that faces `facing`.
pub fn pose(facing: Direction) -> (r: OtherTexture)
    ensures
        r == pose_of(facing),
{
    match facing {
        Direction::Up => OtherTexture::PlayerUp,
        Direction::Down => OtherTexture::PlayerDown,
        Direction::Left => OtherTexture::PlayerLeft,
        Direction::Right => OtherTexture::PlayerRight,
    }
}

/// `fastrand::usize` over the range `..len`: some index below `len`. Which
/// one is left to chance, so nothing more is claimed of it. An empty range
/// makes the generator panic and is kept out.
#[verifier::external_body]
fn random_index(len: usize) -> (index: usize)
    requires
        len > 0,
    ensures
        index < len,
{
    fastrand::usize(..len)
}

/// The frame of `sprite` shown at the frame count `frame`.
pub fn pick_frame(sprite: Option<&SpriteTexture>, frame: u64) -> (r: Result<Section, Error>)
    ensures
        r == animated_frame(
            match sprite {
                Some(texture) => Some(texture@),
                None => None,
            },
            frame,
        ),
{
    match sprite {
        Some(SpriteTexture::Animated(frames)) => {
            let len = frames.len();
            if len > 0 {
                let index = (frame % (len as u64)) as usize;
                Ok(frames[index])
            } else {
                Err(Error::MissingTexture)
            }
        },
        _ => Err(Error::MissingTexture),
    }
}

/// The section of `sprite`, which must be a still one.
pub fn pick_still(sprite: Option<&SpriteTexture>) -> (r: Result<Section, Error>)
    ensures
        r == still_section(
            match sprite {
                Some(texture) => Some(texture@),
                None => None,
            },
        ),
{
    match sprite {
        Some(SpriteTexture::Still(section)) => Ok(*section),
        _ => Err(Error::MissingTexture),
    }
}

/// The section of `sprite` where any frame will do: of an animation, a
/// frame picked at random.
pub fn pick_any(sprite: Option<&SpriteTexture>) -> (r: Result<Section, Error>)
    ensures
        any_frame(
            match sprite {
                Some(texture) => Some(texture@),
                None => None,
            },
            r,
        ),
{
    match sprite {
        Some(SpriteTexture::Still(section)) => Ok(*section),
        Some(SpriteTexture::Animated(frames)) => {
            let len = frames.len();
            if len > 0 {
                let index = random_index(len);
                Ok(frames[index])
            } else {
                Err(Error::MissingTexture)
            }
        },
        None => Err(Error::MissingTexture),
    }
}

/// A thing that is shown by a sprite of the atlas.
pub trait Draw {
    /// What `draw` shows at the frame count `frame`.
    spec fn drawn(&self, atlas: &Atlas, frame: u64) -> Result<Section, Error>;

    /// What `draw_animated` shows at the frame count `frame`.
    spec fn drawn_animated(&self, atlas: &Atlas, frame: u64) -> Result<Section, Error>;

    /// Whether `draw_still` may show `drawn`.
    spec fn drawn_still(&self, atlas: &Atlas, drawn: Result<Section, Error>) -> bool;

    /// The section to draw at the frame count `frame`.
    fn draw(&self, atlas: &Atlas, frame: u64) -> (r: Result<Section, Error>)
        ensures
            r == self.drawn(atlas, frame),
    ;

    /// The frame of the animation to draw at the frame count `frame`.
    fn draw_animated(&self, atlas: &Atlas, frame: u64) -> (r: Result<Section, Error>)
        ensures
            r == self.drawn_animated(atlas, frame),
    ;

    /// The section to draw where nothing is to move.
    fn draw_still(&self, atlas: &Atlas) -> (r: Result<Section, Error>)
        ensures
            self.drawn_still(atlas, r),
    ;
}

/// The ground shows the frame of its animation where it has one, and its
/// still sprite where it has none.
impl Draw for GroundType {
    open spec fn drawn(&self, atlas: &Atlas, frame: u64) -> Result<Section, Error> {
        match atlas.lookup(TextureType::Ground(*self)) {
            Some(Sprite::Still(section)) => Ok(section),
            sprite => animated_frame(sprite, frame),
        }
    }

    open spec fn drawn_animated(&self, atlas: &Atlas, frame: u64) -> Result<Section, Error> {
        animated_frame(atlas.lookup(TextureType::Ground(*self)), frame)
    }

    open spec fn drawn_still(&self, atlas: &Atlas, drawn: Result<Section, Error>) -> bool {
        any_frame(atlas.lookup(TextureType::Ground(*self)), drawn)
    }

    fn draw(&self, atlas: &Atlas, frame: u64) -> (r: Result<Section, Error>) {
        let sprite = atlas.get(&TextureType::Ground(*self));
        match pick_frame(sprite, frame) {
            Ok(section) => Ok(section),
            Err(_) => pick_still(sprite),
        }
    }

    fn draw_animated(&self, atlas: &Atlas, frame: u64) -> (r: Result<Section, Error>) {
        pick_frame(atlas.get(&TextureType::Ground(*self)), frame)
    }

    fn draw_still(&self, atlas: &Atlas) -> (r: Result<Section, Error>) {
        pick_any(atlas.get(&TextureType::Ground(*self)))
    }
}

/// What is shown of a resource: its still sprite. A resource has no
/// animation, and one whose sprite is an animation cannot be shown.
pub open spec fn resource_section(sprite: Option<Sprite>) -> Result<Section, Error> {
    match sprite {
        Some(Sprite::Still(section)) => Ok(section),
        Some(Sprite::Animated(_)) => Err(Error::AnimationUnimplemented),
        None => Err(Error::MissingTexture),
    }
}

impl Draw for ResourceType {
    open spec fn drawn(&self, atlas: &Atlas, frame: u64) -> Result<Section, Error> {
        resource_section(atlas.lookup(TextureType::Resource(*self)))
    }

    open spec fn drawn_animated(&self, atlas: &Atlas, frame: u64) -> Result<Section, Error> {
        Err(Error::AnimationUnimplemented)
    }

    open spec fn drawn_still(&self, atlas: &Atlas, drawn: Result<Section, Error>) -> bool {
        drawn == resource_section(atlas.lookup(TextureType::Resource(*self)))
    }

    fn draw(&self, atlas: &Atlas, frame: u64) -> (r: Result<Section, Error>) {
        match self.draw_animated(atlas, frame) {
            Ok(section) => Ok(section),
            Err(_) => self.draw_still(atlas),
        }
    }

    fn draw_animated(&self, atlas: &Atlas, frame: u64) -> (r: Result<Section, Error>) {
        Err(Error::AnimationUnimplemented)
    }

    fn draw_still(&self, atlas: &Atlas) -> (r: Result<Section, Error>) {
        match atlas.get(&TextureType::Resource(*self)) {
            Some(SpriteTexture::Still(section)) => Ok(*section),
            Some(SpriteTexture::Animated(_)) => Err(Error::AnimationUnimplemented),
            None => Err(Error::MissingTexture),
        }
    }
}

/// A player that has just moved shows the frame of its walk, a player at
/// rest its still sprite, both for the way it faces.
impl Draw for Player {
    open spec fn drawn(&self, atlas: &Atlas, frame: u64) -> Result<Section, Error> {
        if self@.moved_recently {
            self.drawn_animated(atlas, frame)
        } else {
            still_section(atlas.lookup(TextureType::Other(pose_of(self@.facing))))
        }
    }

    open spec fn drawn_animated(&self, atlas: &Atlas, frame: u64) -> Result<Section, Error> {
        animated_frame(atlas.lookup(TextureType::AnimatedOther(pose_of(self@.facing))), frame)
    }

    open spec fn drawn_still(&self, atlas: &Atlas, drawn: Result<Section, Error>) -> bool {
        drawn == still_section(atlas.lookup(TextureType::Other(pose_of(self@.facing))))
    }

    fn draw(&self, atlas: &Atlas, frame: u64) -> (r: Result<Section, Error>) {
        if self.moved_recently() {
            self.draw_animated(atlas, frame)
        } else {
            self.draw_still(atlas)
        }
    }

    fn draw_animated(&self, atlas: &Atlas, frame: u64) -> (r: Result<Section, Error>) {
        pick_frame(atlas.get(&TextureType::AnimatedOther(pose(self.facing()))), frame)
    }

    fn draw_still(&self, atlas: &Atlas) -> (r: Result<Section, Error>) {
        pick_still(atlas.get(&TextureType::Other(pose(self.facing()))))
    }
}

} // verus!
