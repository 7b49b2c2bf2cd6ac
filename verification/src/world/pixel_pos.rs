//! Positions measured in pixels, and the transforms between pixel space
//! and tile space.

use vstd::prelude::*;
use vstd::std_specs::convert::FromSpecImpl;
use vstd::std_specs::ops::{AddSpecImpl, DivSpecImpl, MulSpecImpl, SubSpecImpl};
use crate::world::tile::TILE_SIZE;
use crate::world::tile_pos::{fits_i64, trunc_div, TilePos};

verus! {

/// The size of the window, in pixels.
#[derive(Debug, Clone, Copy, PartialEq, Eq, Structural)]
pub struct WindowSize {
    pub width: u32,
    pub height: u32,
}

/// A position, or an offset, in pixels.
#[derive(Debug, Clone, Copy, PartialEq, Eq, Structural)]
pub struct PixelPos {
    pub x: i64,
    pub y: i64,
}

impl From<(i64, i64)> for PixelPos {
    fn from(from: (i64, i64)) -> (r: PixelPos) {
        PixelPos { x: from.0, y: from.1 }
    }
}

impl FromSpecImpl<(i64, i64)> for PixelPos {
    open spec fn obeys_from_spec() -> bool {
        true
    }

    open spec fn from_spec(from: (i64, i64)) -> PixelPos {
        PixelPos { x: from.0, y: from.1 }
    }
}

impl From<WindowSize> for PixelPos {
    fn from(from: WindowSize) -> (r: PixelPos) {
        PixelPos { x: from.width as i64, y: from.height as i64 }
    }
}

impl FromSpecImpl<WindowSize> for PixelPos {
    open spec fn obeys_from_spec() -> bool {
        true
    }

    open spec fn from_spec(from: WindowSize) -> PixelPos {
        PixelPos { x: from.width as i64, y: from.height as i64 }
    }
}

impl From<WindowSize> for TilePos {
    /// The number of whole tiles that fit in the window on each axis.
    fn from(from: WindowSize) -> (r: TilePos) {
        TilePos { x: from.width as i64 / TILE_SIZE, y: from.height as i64 / TILE_SIZE }
    }
}

impl FromSpecImpl<WindowSize> for TilePos {
    open spec fn obeys_from_spec() -> bool {
        true
    }

    open spec fn from_spec(from: WindowSize) -> TilePos {
        visible_tiles(from)
    }
}

impl From<PixelPos> for (i64, i64) {
    fn from(from: PixelPos) -> (r: (i64, i64)) {
        (from.x, from.y)
    }
}

impl FromSpecImpl<PixelPos> for (i64, i64) {
    open spec fn obeys_from_spec() -> bool {
        true
    }

    open spec fn from_spec(from: PixelPos) -> (i64, i64) {
        (from.x, from.y)
    }
}

impl std::ops::Add<&PixelPos> for PixelPos {
    type Output = PixelPos;

    fn add(self, rhs: &PixelPos) -> (r: PixelPos) {
        PixelPos { x: self.x + rhs.x, y: self.y + rhs.y }
    }
}

impl AddSpecImpl<&PixelPos> for PixelPos {
    open spec fn obeys_add_spec() -> bool {
        true
    }

    open spec fn add_req(self, rhs: &PixelPos) -> bool {
        fits_i64(self.x + rhs.x) && fits_i64(self.y + rhs.y)
    }

    open spec fn add_spec(self, rhs: &PixelPos) -> PixelPos {
        PixelPos { x: (self.x + rhs.x) as i64, y: (self.y + rhs.y) as i64 }
    }
}

impl std::ops::Sub<&PixelPos> for PixelPos {
    type Output = PixelPos;

    fn sub(self, rhs: &PixelPos) -> (r: PixelPos) {
        PixelPos { x: self.x - rhs.x, y: self.y - rhs.y }
    }
}

impl SubSpecImpl<&PixelPos> for PixelPos {
    open spec fn obeys_sub_spec() -> bool {
        true
    }

    open spec fn sub_req(self, rhs: &PixelPos) -> bool {
        fits_i64(self.x - rhs.x) && fits_i64(self.y - rhs.y)
    }

    open spec fn sub_spec(self, rhs: &PixelPos) -> PixelPos {
        PixelPos { x: (self.x - rhs.x) as i64, y: (self.y - rhs.y) as i64 }
    }
}

impl std::ops::Mul<&PixelPos> for PixelPos {
    type Output = PixelPos;

    fn mul(self, rhs: &PixelPos) -> (r: PixelPos) {
        PixelPos { x: self.x * rhs.x, y: self.y * rhs.y }
    }
}

impl MulSpecImpl<&PixelPos> for PixelPos {
    open spec fn obeys_mul_spec() -> bool {
        true
    }

    open spec fn mul_req(self, rhs: &PixelPos) -> bool {
        fits_i64(self.x * rhs.x) && fits_i64(self.y * rhs.y)
    }

    open spec fn mul_spec(self, rhs: &PixelPos) -> PixelPos {
        PixelPos { x: (self.x * rhs.x) as i64, y: (self.y * rhs.y) as i64 }
    }
}

impl std::ops::Div<&PixelPos> for PixelPos {
    type Output = PixelPos;

    fn div(self, rhs: &PixelPos) -> (r: PixelPos) {
        PixelPos { x: self.x / rhs.x, y: self.y / rhs.y }
    }
}

impl DivSpecImpl<&PixelPos> for PixelPos {
    open spec fn obeys_div_spec() -> bool {
        true
    }

    open spec fn div_req(self, rhs: &PixelPos) -> bool {
        &&& rhs.x != 0
        &&& rhs.y != 0
        &&& !(self.x == i64::MIN && rhs.x == -1)
        &&& !(self.y == i64::MIN && rhs.y == -1)
    }

    open spec fn div_spec(self, rhs: &PixelPos) -> PixelPos {
        PixelPos {
            x: trunc_div(self.x as int, rhs.x as int) as i64,
            y: trunc_div(self.y as int, rhs.y as int) as i64,
        }
    }
}

impl std::ops::Div<i64> for PixelPos {
    type Output = PixelPos;

    fn div(self, rhs: i64) -> (r: PixelPos) {
        PixelPos { x: self.x / rhs, y: self.y / rhs }
    }
}

impl DivSpecImpl<i64> for PixelPos {
    open spec fn obeys_div_spec() -> bool {
        true
    }

    open spec fn div_req(self, rhs: i64) -> bool {
        &&& rhs != 0
        &&& !(self.x == i64::MIN && rhs == -1)
        &&& !(self.y == i64::MIN && rhs == -1)
    }

    open spec fn div_spec(self, rhs: i64) -> PixelPos {
        PixelPos {
            x: trunc_div(self.x as int, rhs as int) as i64,
            y: trunc_div(self.y as int, rhs as int) as i64,
        }
    }
}

/// The number of whole tiles that fit in the window on each axis.
pub open spec fn visible_tiles(window: WindowSize) -> TilePos {
    TilePos {
        x: (window.width as int / TILE_SIZE as int) as i64,
        y: (window.height as int / TILE_SIZE as int) as i64,
    }
}

/// The pixel at which the tile `(tx, ty)` begins.
pub open spec fn tile_to_pixel(tx: int, ty: int) -> (int, int) {
    (tx * TILE_SIZE, ty * TILE_SIZE)
}

/// The pointer's position with the vertical axis turned upward: the
/// screen counts rows downward from the top, the world counts upward.
pub open spec fn mouse_to_pixel(x: int, y: int, window: WindowSize) -> (int, int) {
    (x, window.height - y)
}

/// The tile displacement, from the tile at the window's centre, of a
/// pixel position whose vertical axis already points upward.
pub open spec fn pixel_to_rel_tile(x: int, y: int, window: WindowSize) -> (int, int) {
    (
        trunc_div(x - window.width / 2, TILE_SIZE as int),
        trunc_div(y - window.height / 2, TILE_SIZE as int),
    )
}

/// The margin left on each side when the window is filled with as many
/// whole tiles as fit.
pub open spec fn viewport_offset(window: WindowSize) -> (int, int) {
    (
        (window.width - visible_tiles(window).x * TILE_SIZE) / 2,
        (window.height - visible_tiles(window).y * TILE_SIZE) / 2,
    )
}

impl PixelPos {
    /// The pixel at which `tile` begins.
    pub fn from_tile(tile: TilePos) -> (r: PixelPos)
        requires
            fits_i64(tile.x * TILE_SIZE),
            fits_i64(tile.y * TILE_SIZE),
        ensures
            (r.x as int, r.y as int) == tile_to_pixel(tile.x as int, tile.y as int),
    {
        PixelPos { x: tile.x * TILE_SIZE, y: tile.y * TILE_SIZE }
    }

    /// Both coordinates as `i32`, or `None` where one does not fit.
    pub fn to_i32(self) -> (r: Option<(i32, i32)>)
        ensures
            r is Some <==> (i32::MIN <= self.x <= i32::MAX && i32::MIN <= self.y <= i32::MAX),
            r matches Some(p) ==> p.0 == self.x && p.1 == self.y,
    {
        if self.x < -2147483648 || self.x > 2147483647 || self.y < -2147483648
            || self.y > 2147483647 {
            None
        } else {
            Some((self.x as i32, self.y as i32))
        }
    }

    /// The pointer position `(x, y)`, given in screen coordinates, with its
    /// vertical axis turned upward.
    pub fn from_mouse(x: i64, y: i64, window_size: WindowSize) -> (r: PixelPos)
        requires
            fits_i64(window_size.height - y),
        ensures
            (r.x as int, r.y as int) == mouse_to_pixel(x as int, y as int, window_size),
    {
        PixelPos { x, y: window_size.height as i64 - y }
    }

    /// The displacement in tiles of this position from the tile at the
    /// centre of the window, rounded toward zero.
    pub fn to_rel_tile_pos(self, window_size: WindowSize) -> (r: TilePos)
        requires
            fits_i64(self.x - window_size.width / 2),
            fits_i64(self.y - window_size.height / 2),
        ensures
            (r.x as int, r.y as int) == pixel_to_rel_tile(self.x as int, self.y as int, window_size),
    {
        let center_pos = PixelPos::from(window_size) / 2;
        let rel_pos = std::ops::Sub::sub(self, &center_pos);
        let tiles = rel_pos / TILE_SIZE;
        TilePos { x: tiles.x, y: tiles.y }
    }

    /// The margin that centres the visible whole tiles in the window.
    pub fn viewport_offset(window_size: WindowSize) -> (r: PixelPos)
        ensures
            (r.x as int, r.y as int) == viewport_offset(window_size),
            0 <= r.x < TILE_SIZE,
            0 <= r.y < TILE_SIZE,
    {
        let board = TilePos::from(window_size);
        PixelPos {
            x: (window_size.width as i64 - board.x * TILE_SIZE) / 2,
            y: (window_size.height as i64 - board.y * TILE_SIZE) / 2,
        }
    }
}

} // verus!
