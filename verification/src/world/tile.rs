//! Tile geometry: the tile size and the per-axis direction of a step.

use vstd::prelude::*;
use vstd::std_specs::convert::FromSpecImpl;
use crate::world::tile_pos::TilePos;

verus! {

/// Side length of a tile in pixels, at 1x scale.
pub const TILE_SIZE: i64 = 32;

/// The sign of one axis of a displacement.
#[derive(Debug, Clone, Copy, PartialEq, Eq, Structural)]
pub enum Sign {
    Negative,
    Zero,
    Positive,
}

/// The sign of an integer.
pub open spec fn sign_of(v: int) -> Sign {
    if v > 0 {
        Sign::Positive
    } else if v < 0 {
        Sign::Negative
    } else {
        Sign::Zero
    }
}

/// The unit step along one axis: -1, 0 or 1.
pub open spec fn unit_of(s: Sign) -> int {
    match s {
        Sign::Positive => 1,
        Sign::Zero => 0,
        Sign::Negative => -1,
    }
}

/// Conversion of a sign to the unit step it stands for.
pub trait Asi64: Sized {
    spec fn unit(self) -> int;

    fn as_i64(self) -> (r: i64)
        ensures
            r == self.unit(),
    ;
}

impl Asi64 for Sign {
    open spec fn unit(self) -> int {
        unit_of(self)
    }

    fn as_i64(self) -> (r: i64) {
        match self {
            Sign::Positive => 1,
            Sign::Zero => 0,
            Sign::Negative => -1,
        }
    }
}

/// Conversion of a number to its sign.
pub trait AsOrdering: Sized {
    spec fn sign(self) -> Sign;

    fn as_ordering(self) -> (r: Sign)
        ensures
            r == self.sign(),
    ;
}

impl AsOrdering for i64 {
    open spec fn sign(self) -> Sign {
        sign_of(self as int)
    }

    fn as_ordering(self) -> (r: Sign) {
        if self > 0 {
            Sign::Positive
        } else if self < 0 {
            Sign::Negative
        } else {
            Sign::Zero
        }
    }
}

/// The direction of a displacement: each axis on its own is negative,
/// zero or positive, so a direction may be diagonal.
#[derive(Debug, Clone, Copy, PartialEq, Eq, Structural)]
pub struct Direction {
    pub x: Sign,
    pub y: Sign,
}

impl Direction {
    /// The direction of the displacement `(dx, dy)`.
    pub open spec fn of(dx: int, dy: int) -> Direction {
        Direction { x: sign_of(dx), y: sign_of(dy) }
    }

    /// Whether this direction moves along neither axis.
    pub open spec fn is_still(self) -> bool {
        self.x == Sign::Zero && self.y == Sign::Zero
    }
}

impl From<TilePos> for Direction {
    fn from(from: TilePos) -> (r: Direction) {
        Direction { x: from.x.as_ordering(), y: from.y.as_ordering() }
    }
}

impl FromSpecImpl<TilePos> for Direction {
    open spec fn obeys_from_spec() -> bool {
        true
    }

    open spec fn from_spec(from: TilePos) -> Direction {
        Direction::of(from.x as int, from.y as int)
    }
}

/// A unit step has the sign it was made from, and the unit step of the
/// sign of a number is 1, 0 or -1 as the number is positive, zero or
/// negative.
pub proof fn lemma_sign_unit_round_trip(s: Sign, v: int)
    ensures
        sign_of(unit_of(s)) == s,
        -1 <= unit_of(sign_of(v)) <= 1,
        v > 0 ==> unit_of(sign_of(v)) == 1,
        v < 0 ==> unit_of(sign_of(v)) == -1,
        v == 0 ==> unit_of(sign_of(v)) == 0,
{
}

} // verus!
