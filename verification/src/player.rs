//! The player: where it stands, which way it faces, and whether it has
//! just taken a step.

use vstd::prelude::*;
use crate::world::tile_pos::{fits_i64, TilePos};

verus! {

/// The way the player faces.
#[derive(Clone, Copy, Debug, PartialEq, Eq, Structural)]
pub enum Direction {
    Up,
    Down,
    Left,
    Right,
}

/// The facing after a step of `(dx, dy)` by a player that faced `facing`:
/// a vertical step decides before a horizontal one, and no step at all
/// leaves the facing as it was.
pub open spec fn facing_after(facing: Direction, dx: int, dy: int) -> Direction {
    if dy > 0 {
        Direction::Up
    } else if dy < 0 {
        Direction::Down
    } else if dx < 0 {
        Direction::Left
    } else if dx > 0 {
        Direction::Right
    } else {
        facing
    }
}

/// What a player is, as contracts speak of it.
pub struct PlayerState {
    pub position: TilePos,
    pub facing: Direction,
    pub moved_recently: bool,
}

impl PlayerState {
    /// The state of a new player: at the origin, facing up, at rest.
    pub open spec fn initial() -> PlayerState {
        PlayerState {
            position: TilePos { x: 0, y: 0 },
            facing: Direction::Up,
            moved_recently: false,
        }
    }

    /// The state after a step of `dist`.
    pub open spec fn stepped(self, dist: TilePos) -> PlayerState {
        PlayerState {
            position: TilePos {
                x: (self.position.x + dist.x) as i64,
                y: (self.position.y + dist.y) as i64,
            },
            facing: facing_after(self.facing, dist.x as int, dist.y as int),
            moved_recently: true,
        }
    }

    /// The state once the player has come to rest.
    pub open spec fn stopped(self) -> PlayerState {
        PlayerState { moved_recently: false, ..self }
    }
}

#[derive(Clone, Copy, Debug)]
pub struct Player {
    position: TilePos,
    facing: Direction,
    moved_recently: bool,
}

impl View for Player {
    type V = PlayerState;

    closed spec fn view(&self) -> PlayerState {
        PlayerState {
            position: self.position,
            facing: self.facing,
            moved_recently: self.moved_recently,
        }
    }
}

impl Player {
    /// A player at the origin, facing up, at rest.
    pub fn new() -> (r: Player)
        ensures
            r@ == PlayerState::initial(),
    {
        Player { position: TilePos { x: 0, y: 0 }, facing: Direction::Up, moved_recently: false }
    }

    /// Puts the player on `pos`; facing and motion stay as they were.
    pub fn move_to(&mut self, pos: TilePos)
        ensures
            final(self)@ == (PlayerState { position: pos, ..old(self)@ }),
    {
        self.position = pos;
    }

    /// Marks the player as at rest.
    pub fn stopped_moving(&mut self)
        ensures
            final(self)@ == old(self)@.stopped(),
    {
        self.moved_recently = false;
    }

    /// Takes one step of `dist`, turns to face it, and marks the player
    /// as having just moved.
    pub fn move_by(&mut self, dist: TilePos)
        requires
            fits_i64(old(self)@.position.x + dist.x),
            fits_i64(old(self)@.position.y + dist.y),
        ensures
            final(self)@ == old(self)@.stepped(dist),
    {
        self.facing = if dist.y > 0 {
            Direction::Up
        } else if dist.y < 0 {
            Direction::Down
        } else if dist.x < 0 {
            Direction::Left
        } else if dist.x > 0 {
            Direction::Right
        } else {
            self.facing
        };
        self.position.add_assign(&dist);
        self.moved_recently = true;
    }

    pub fn get_position(&self) -> (r: &TilePos)
        ensures
            *r == self@.position,
    {
        &self.position
    }

    pub fn facing(&self) -> (r: Direction)
        ensures
            r == self@.facing,
    {
        self.facing
    }

    /// Whether the last tick moved the player.
    pub fn moved_recently(&self) -> (r: bool)
        ensures
            r == self@.moved_recently,
    {
        self.moved_recently
    }
}

} // verus!
