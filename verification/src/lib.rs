//! A tile world that is generated on demand, cached by chunk, and walked
//! by a player on a fixed tick cadence.

use vstd::prelude::*;
use std::time::Duration;

pub mod atlas;
pub mod control_manager;
pub mod frame_manager;
pub mod pixel_tile_conversion;
pub mod player;
pub mod tick_manager;
pub mod tile;
pub mod world;

verus! {

/// Width of a chunk, in tiles.
pub const CHUNK_X: i64 = 4;

/// Height of a chunk, in tiles.
pub const CHUNK_Y: i64 = 4;

/// Length of a frame, in milliseconds.
pub const FRAME_LEN: u64 = 80;

/// Length of a tick, in milliseconds.
pub const TICK_LEN: u64 = 100;

/// Number of ticks that a pending move waits between two steps.
pub const MOVE_TIME: u64 = 3;

/// What can go wrong in a frame or in a tick.
#[derive(Debug, Clone, Copy, PartialEq, Eq, Structural)]
pub enum Error {
    MissingTexture,
    AnimationUnimplemented,
    ControlManagerLocked,
    WorldManagerLocked,
}

/// The time to wait before the next cycle of a loop that aims at one
/// cycle every `aim_ms` milliseconds and took `recent_ms` for its last one:
/// half of what is left of three periods, and nothing once the last cycle
/// took that long.
pub open spec fn wait_for(aim_ms: int, recent_ms: int) -> int {
    if 3 * aim_ms > recent_ms {
        (3 * aim_ms - recent_ms) / 2
    } else {
        0
    }
}

/// The time to wait before the next cycle, in milliseconds.
pub fn wait_millis(aim_ms: u64, recent_ms: u64) -> (wait: u64)
    requires
        aim_ms * 3 <= u64::MAX,
    ensures
        wait == wait_for(aim_ms as int, recent_ms as int),
{
    let budget: u64 = aim_ms * 3;
    if budget > recent_ms {
        (budget - recent_ms) / 2
    } else {
        0
    }
}

/// The span of time that lasts `ms` milliseconds.
pub uninterp spec fn duration_of_millis(ms: u64) -> Duration;

/// `Duration::from_millis` of std: the result is the span of `ms`
/// milliseconds, of which nothing more is claimed here than that equal
/// counts give equal spans.
#[verifier::external_body]
fn duration_from_millis(ms: u64) -> (span: Duration)
    ensures
        span == duration_of_millis(ms),
{
    Duration::from_millis(ms)
}

/// The time to wait before the next cycle of a loop that aims at one
/// cycle every `aim_ms` milliseconds and took `recent_ms` for its last one.
pub fn normalise_to(aim_ms: u64, recent_ms: u64) -> (wait: Duration)
    requires
        aim_ms * 3 <= u64::MAX,
    ensures
        wait == duration_of_millis(wait_for(aim_ms as int, recent_ms as int) as u64),
{
    duration_from_millis(wait_millis(aim_ms, recent_ms))
}

} // verus!
