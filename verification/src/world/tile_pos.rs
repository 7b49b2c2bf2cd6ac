//! Positions measured in tiles.

use vstd::prelude::*;
use vstd::std_specs::convert::FromSpecImpl;
use vstd::std_specs::ops::{AddSpecImpl, DivSpecImpl, MulSpecImpl, SubSpecImpl};
use crate::world::tile::{Asi64, Direction, unit_of};

verus! {

/// The quotient of `a` by `b` rounded toward zero, as executable integer
/// division computes it.
pub open spec fn trunc_div(a: int, b: int) -> int {
    if a >= 0 {
        a / b
    } else {
        -((-a) / b)
    }
}

/// Whether `v` can be held in an `i64`.
pub open spec fn fits_i64(v: int) -> bool {
    i64::MIN <= v <= i64::MAX
}

/// A position, or a displacement, in whole tiles.
#[derive(Debug, Clone, Copy, PartialEq, Eq, Structural)]
pub struct TilePos {
    pub x: i64,
    pub y: i64,
}

impl From<(i64, i64)> for TilePos {
    fn from(from: (i64, i64)) -> (r: TilePos) {
        TilePos { x: from.0, y: from.1 }
    }
}

impl FromSpecImpl<(i64, i64)> for TilePos {
    open spec fn obeys_from_spec() -> bool {
        true
    }

    open spec fn from_spec(from: (i64, i64)) -> TilePos {
        TilePos { x: from.0, y: from.1 }
    }
}

impl From<Direction> for TilePos {
    fn from(from: Direction) -> (r: TilePos) {
        TilePos { x: from.x.as_i64(), y: from.y.as_i64() }
    }
}

impl FromSpecImpl<Direction> for TilePos {
    open spec fn obeys_from_spec() -> bool {
        true
    }

    open spec fn from_spec(from: Direction) -> TilePos {
        TilePos { x: unit_of(from.x) as i64, y: unit_of(from.y) as i64 }
    }
}

impl std::ops::Add<&TilePos> for TilePos {
    type Output = TilePos;

    fn add(self, rhs: &TilePos) -> (r: TilePos) {
        TilePos { x: self.x + rhs.x, y: self.y + rhs.y }
    }
}

impl AddSpecImpl<&TilePos> for TilePos {
    open spec fn obeys_add_spec() -> bool {
        true
    }

    open spec fn add_req(self, rhs: &TilePos) -> bool {
        fits_i64(self.x + rhs.x) && fits_i64(self.y + rhs.y)
    }

    open spec fn add_spec(self, rhs: &TilePos) -> TilePos {
        TilePos { x: (self.x + rhs.x) as i64, y: (self.y + rhs.y) as i64 }
    }
}

impl std::ops::Sub<&TilePos> for TilePos {
    type Output = TilePos;

    fn sub(self, rhs: &TilePos) -> (r: TilePos) {
        TilePos { x: self.x - rhs.x, y: self.y - rhs.y }
    }
}

impl SubSpecImpl<&TilePos> for TilePos {
    open spec fn obeys_sub_spec() -> bool {
        true
    }

    open spec fn sub_req(self, rhs: &TilePos) -> bool {
        fits_i64(self.x - rhs.x) && fits_i64(self.y - rhs.y)
    }

    open spec fn sub_spec(self, rhs: &TilePos) -> TilePos {
        TilePos { x: (self.x - rhs.x) as i64, y: (self.y - rhs.y) as i64 }
    }
}

impl std::ops::Mul<&TilePos> for TilePos {
    type Output = TilePos;

    fn mul(self, rhs: &TilePos) -> (r: TilePos) {
        TilePos { x: self.x * rhs.x, y: self.y * rhs.y }
    }
}

impl MulSpecImpl<&TilePos> for TilePos {
    open spec fn obeys_mul_spec() -> bool {
        true
    }

    open spec fn mul_req(self, rhs: &TilePos) -> bool {
        fits_i64(self.x * rhs.x) && fits_i64(self.y * rhs.y)
    }

    open spec fn mul_spec(self, rhs: &TilePos) -> TilePos {
        TilePos { x: (self.x * rhs.x) as i64, y: (self.y * rhs.y) as i64 }
    }
}

impl std::ops::Div<&TilePos> for TilePos {
    type Output = TilePos;

    fn div(self, rhs: &TilePos) -> (r: TilePos) {
        TilePos { x: self.x / rhs.x, y: self.y / rhs.y }
    }
}

impl DivSpecImpl<&TilePos> for TilePos {
    open spec fn obeys_div_spec() -> bool {
        true
    }

    open spec fn div_req(self, rhs: &TilePos) -> bool {
        &&& rhs.x != 0
        &&& rhs.y != 0
        &&& !(self.x == i64::MIN && rhs.x == -1)
        &&& !(self.y == i64::MIN && rhs.y == -1)
    }

    open spec fn div_spec(self, rhs: &TilePos) -> TilePos {
        TilePos {
            x: trunc_div(self.x as int, rhs.x as int) as i64,
            y: trunc_div(self.y as int, rhs.y as int) as i64,
        }
    }
}

impl TilePos {
    /// Moves this position by `rhs` in place.
    pub fn add_assign(&mut self, rhs: &TilePos)
        requires
            fits_i64(old(self).x + rhs.x),
            fits_i64(old(self).y + rhs.y),
        ensures
            final(self).x == old(self).x + rhs.x,
            final(self).y == old(self).y + rhs.y,
    {
        self.x = self.x + rhs.x;
        self.y = self.y + rhs.y;
    }

    /// Turns a displacement from the viewport's centre tile into the
    /// absolute tile it points at.
    pub fn to_world_tile(self, center_world_pos: &TilePos) -> (r: TilePos)
        requires
            fits_i64(self.x + center_world_pos.x),
            fits_i64(self.y + center_world_pos.y),
        ensures
            r.x == self.x + center_world_pos.x,
            r.y == self.y + center_world_pos.y,
    {
        std::ops::Add::add(self, center_world_pos)
    }
}

} // verus!
