//! From a pointer position in the window to the tile under it.

use vstd::prelude::*;
use crate::world::tile::TILE_SIZE;
use crate::world::pixel_pos::{mouse_to_pixel, pixel_to_rel_tile, WindowSize};
use crate::world::tile_pos::{fits_i64, trunc_div};

verus! {

/// The tile under the pointer. The pointer is at the pixel `pixel` of a
/// window of `window` pixels, counted from the window's top left corner;
/// the tile `player` is drawn at the window's centre. The vertical axis is
/// turned upward first, then the position is taken from the centre of the
/// window, divided by the tile size toward zero, and added to `player`.
pub open spec fn pointer_tile(window: (int, int), pixel: (int, int), player: (int, int)) -> (
    int,
    int,
) {
    (
        player.0 + trunc_div(pixel.0 - trunc_div(window.0, 2), TILE_SIZE as int),
        player.1 + trunc_div((window.1 - pixel.1) - trunc_div(window.1, 2), TILE_SIZE as int),
    )
}

/// Whether every step of `pointer_tile` stays within the machine's
/// integers.
pub open spec fn pointer_in_reach(window: (int, int), pixel: (int, int), player: (int, int)) -> bool {
    &&& fits_i64(pixel.0 - trunc_div(window.0, 2))
    &&& fits_i64(window.1 - pixel.1)
    &&& fits_i64((window.1 - pixel.1) - trunc_div(window.1, 2))
    &&& fits_i64(pointer_tile(window, pixel, player).0)
    &&& fits_i64(pointer_tile(window, pixel, player).1)
}

/// The tile under the pointer at `pixel_pos` in a window of `window_size`
/// pixels that is centred on the tile `player_pos`.
pub fn pixel_to_tile_pos(window_size: (i64, i64), pixel_pos: (i64, i64), player_pos: (i64, i64)) -> (r:
    (i64, i64))
    requires
        pointer_in_reach(
            (window_size.0 as int, window_size.1 as int),
            (pixel_pos.0 as int, pixel_pos.1 as int),
            (player_pos.0 as int, player_pos.1 as int),
        ),
    ensures
        (r.0 as int, r.1 as int) == pointer_tile(
            (window_size.0 as int, window_size.1 as int),
            (pixel_pos.0 as int, pixel_pos.1 as int),
            (player_pos.0 as int, player_pos.1 as int),
        ),
{
    let centered_x: i64 = pixel_pos.0 - window_size.0 / 2;
    let upward_y: i64 = window_size.1 - pixel_pos.1;
    let centered_y: i64 = upward_y - window_size.1 / 2;
    (player_pos.0 + centered_x / TILE_SIZE, player_pos.1 + centered_y / TILE_SIZE)
}

/// The round trip on tile boundaries. A pointer that stands exactly
/// `tile` tiles, turned into pixels, from the centre of the window points
/// at the tile that lies `tile` tiles from the player: nothing is lost to
/// rounding, whichever way the displacement points.
pub proof fn lemma_round_trip_on_tile_boundaries(
    window: (int, int),
    tile: (int, int),
    player: (int, int),
)
    ensures
        pointer_tile(
            window,
            (
                trunc_div(window.0, 2) + tile.0 * TILE_SIZE,
                window.1 - (trunc_div(window.1, 2) + tile.1 * TILE_SIZE),
            ),
            player,
        ) == (player.0 + tile.0, player.1 + tile.1),
{
}

/// Off the tile boundaries the pointer's tile is rounded toward the
/// player's: a pointer less than one tile from the centre, on either side,
/// points at the player's own tile.
pub proof fn lemma_rounding_is_toward_centre(
    window: (int, int),
    pixel: (int, int),
    player: (int, int),
)
    requires
        -TILE_SIZE < pixel.0 - trunc_div(window.0, 2) < TILE_SIZE,
        -TILE_SIZE < (window.1 - pixel.1) - trunc_div(window.1, 2) < TILE_SIZE,
    ensures
        pointer_tile(window, pixel, player) == player,
{
}

/// Turning the pointer upward, taking it from the centre of the window,
/// and adding the player's tile, one step after the other, finds the same
/// tile as `pointer_tile` does at once.
pub proof fn lemma_pointer_steps_agree(window: WindowSize, pixel: (int, int), player: (int, int))
    ensures
        ({
            let upward = mouse_to_pixel(pixel.0, pixel.1, window);
            let rel = pixel_to_rel_tile(upward.0, upward.1, window);
            (rel.0 + player.0, rel.1 + player.1)
        }) == pointer_tile((window.width as int, window.height as int), pixel, player),
{
}

} // verus!
