//! The tick engine: once per tick it counts the pending action down and,
//! when the action is due, moves the player one step toward its target.

use vstd::prelude::*;
use crate::control_manager::{Action, ControlManager, PlayerAction};
use crate::player::{Player, PlayerState};
use crate::world::tile::{sign_of, unit_of, Direction, Sign};
use crate::world::tile_pos::TilePos;
use crate::{Error, TICK_LEN};

verus! {

/// What a tick found when it counted the pending action down.
#[derive(Debug, Clone, Copy, PartialEq, Eq, Structural)]
pub enum TickPhase {
    /// Nothing is pending.
    Idle,
    /// The pending action still waits.
    Counting,
    /// The pending action must take its step in this tick.
    Due,
}

/// The direction from `from` toward `to`.
pub open spec fn direction_toward(from: TilePos, to: TilePos) -> Direction {
    Direction::of(to.x - from.x, to.y - from.y)
}

/// The unit step from `from` toward `to`: each axis moves by one, or not
/// at all where it has arrived.
pub open spec fn step_toward(from: TilePos, to: TilePos) -> TilePos {
    TilePos {
        x: unit_of(sign_of(to.x - from.x)) as i64,
        y: unit_of(sign_of(to.y - from.y)) as i64,
    }
}

/// The pending action after the countdown of one tick.
pub open spec fn polled(pending: Option<PlayerAction>) -> Option<PlayerAction> {
    match pending {
        Some(action) => Some(action.ticked()),
        None => None,
    }
}

/// What the countdown of one tick finds.
pub open spec fn phase_of(pending: Option<PlayerAction>) -> TickPhase {
    match pending {
        None => TickPhase::Idle,
        Some(action) => if action.is_due() {
            TickPhase::Due
        } else {
            TickPhase::Counting
        },
    }
}

/// The target of the pending move, if a move is pending.
pub open spec fn target_of(pending: Option<PlayerAction>) -> Option<TilePos> {
    match pending {
        Some(PlayerAction { action: Action::MoveTo(target), .. }) => Some(target),
        None => None,
    }
}

/// Whether a due action is resolved by clearing it: the player stands on
/// its target.
pub open spec fn arrives(pending: Option<PlayerAction>, player: PlayerState) -> bool {
    target_of(pending) == Some(player.position)
}

/// The pending action after a due action was resolved.
pub open spec fn resolved_pending(pending: Option<PlayerAction>, player: PlayerState) -> Option<
    PlayerAction,
> {
    if arrives(pending, player) {
        None
    } else {
        pending
    }
}

/// The player after a due action was resolved.
pub open spec fn resolved_player(pending: Option<PlayerAction>, player: PlayerState) -> PlayerState {
    match target_of(pending) {
        Some(target) => if target == player.position {
            player.stopped()
        } else {
            player.stepped(step_toward(player.position, target))
        },
        None => player,
    }
}

/// What a whole tick answers: it fails only where the action is due and
/// the world is not to be had.
pub open spec fn tick_result(pending: Option<PlayerAction>, world_at_hand: bool) -> Result<
    (),
    Error,
> {
    if phase_of(pending) == TickPhase::Due && !world_at_hand {
        Err(Error::WorldManagerLocked)
    } else {
        Ok(())
    }
}

/// The pending action after a whole tick that had the world at hand.
pub open spec fn ticked_pending(pending: Option<PlayerAction>, player: PlayerState) -> Option<
    PlayerAction,
> {
    if phase_of(pending) == TickPhase::Due {
        resolved_pending(polled(pending), player)
    } else {
        polled(pending)
    }
}

/// The player after a whole tick that had the world at hand.
pub open spec fn ticked_player(pending: Option<PlayerAction>, player: PlayerState) -> PlayerState {
    if phase_of(pending) == TickPhase::Due {
        resolved_player(polled(pending), player)
    } else {
        player
    }
}

/// The direction from `from` toward `to`, found without forming their
/// difference, which need not fit the machine's integers.
pub fn direction_between(from: &TilePos, to: &TilePos) -> (r: Direction)
    ensures
        r == direction_toward(*from, *to),
{
    Direction { x: sign_between(from.x, to.x), y: sign_between(from.y, to.y) }
}

fn sign_between(from: i64, to: i64) -> (r: Sign)
    ensures
        r == sign_of(to - from),
{
    if to > from {
        Sign::Positive
    } else if to < from {
        Sign::Negative
    } else {
        Sign::Zero
    }
}

pub struct TickManager {
    /// The time that passed between the last two ticks, in milliseconds.
    pub tick_gap: u128,
}

impl TickManager {
    pub fn new() -> (r: TickManager)
        ensures
            r.tick_gap == TICK_LEN,
    {
        TickManager { tick_gap: TICK_LEN as u128 }
    }

    /// Counts the pending action down by one tick and says what it found.
    /// The action stays pending, whatever was found.
    pub fn poll(control_manager: &mut ControlManager) -> (phase: TickPhase)
        ensures
            phase == phase_of(old(control_manager).pending_action),
            final(control_manager).pending_action == polled(old(control_manager).pending_action),
    {
        match control_manager.pending_action.take() {
            Some(mut player_action) => {
                let due = player_action.tick();
                control_manager.pending_action = Some(player_action);
                if due {
                    TickPhase::Due
                } else {
                    TickPhase::Counting
                }
            },
            None => TickPhase::Idle,
        }
    }

    /// Resolves a due action. A player that stands on the target has
    /// arrived: the action is cleared and the player comes to rest. Any
    /// other player takes one step toward the target, and the action stays
    /// pending. Answers whether the player had arrived.
    pub fn resolve_due(control_manager: &mut ControlManager, player: &mut Player) -> (arrived: bool)
        ensures
            arrived == arrives(old(control_manager).pending_action, old(player)@),
            final(control_manager).pending_action == resolved_pending(
                old(control_manager).pending_action,
                old(player)@,
            ),
            final(player)@ == resolved_player(old(control_manager).pending_action, old(player)@),
    {
        match control_manager.pending_action {
            Some(PlayerAction { action: Action::MoveTo(target), .. }) => {
                let player_pos = *player.get_position();
                if target == player_pos {
                    control_manager.complete_pending();
                    player.stopped_moving();
                    true
                } else {
                    let direction = direction_between(&player_pos, &target);
                    player.move_by(TilePos::from(direction));
                    false
                }
            },
            None => false,
        }
    }

    /// Runs one tick: notes the time since the last one, counts the pending
    /// action down and, where it is due, resolves it on the player. Each of
    /// the two shared parts is handed in only if it could be had.
    ///
    /// Without the control manager nothing is done, and the tick fails with
    /// `ControlManagerLocked`. Where the action is due and the player is not
    /// to be had, the tick fails with `WorldManagerLocked`, and the action
    /// stays pending for a later tick.
    pub fn run_once(
        &mut self,
        elapsed_ms: u128,
        control_manager: Option<&mut ControlManager>,
        world: Option<&mut Player>,
    ) -> (r: Result<(), Error>)
        ensures
            final(self).tick_gap == elapsed_ms,
            match control_manager {
                None => {
                    &&& r == Err::<(), Error>(Error::ControlManagerLocked)
                    &&& world matches Some(player) ==> final(player)@ == player@
                },
                Some(control) => {
                    &&& r == tick_result(control.pending_action, world is Some)
                    &&& final(control).pending_action == match world {
                        Some(player) => ticked_pending(control.pending_action, player@),
                        None => polled(control.pending_action),
                    }
                    &&& world matches Some(player) ==> final(player)@ == ticked_player(
                        control.pending_action,
                        player@,
                    )
                },
            },
    {
        self.tick_gap = elapsed_ms;
        match control_manager {
            None => Err(Error::ControlManagerLocked),
            Some(control) => match TickManager::poll(control) {
                TickPhase::Due => match world {
                    Some(player) => {
                        TickManager::resolve_due(control, player);
                        Ok(())
                    },
                    None => Err(Error::WorldManagerLocked),
                },
                _ => Ok(()),
            },
        }
    }
}

/// The number of steps between two tiles when each step may move along
/// both axes at once: the larger of the two distances.
pub open spec fn steps_between(from: TilePos, to: TilePos) -> nat {
    let dx = if to.x >= from.x { to.x - from.x } else { from.x - to.x };
    let dy = if to.y >= from.y { to.y - from.y } else { from.y - to.y };
    if dx >= dy {
        dx as nat
    } else {
        dy as nat
    }
}

/// The pending action and the player after `n` resolutions of a due
/// action, one after the other.
pub open spec fn resolved_times(pending: Option<PlayerAction>, player: PlayerState, n: nat) -> (
    Option<PlayerAction>,
    PlayerState,
)
    decreases n,
{
    if n == 0 {
        (pending, player)
    } else {
        let earlier = resolved_times(pending, player, (n - 1) as nat);
        (resolved_pending(earlier.0, earlier.1), resolved_player(earlier.0, earlier.1))
    }
}

/// While the player has not arrived, each resolution brings it one step
/// nearer to the target and leaves the action pending.
pub proof fn lemma_resolutions_close_in(action: PlayerAction, player: PlayerState, n: nat)
    requires
        n <= steps_between(player.position, action.action->MoveTo_0),
    ensures
        resolved_times(Some(action), player, n).0 == Some(action),
        steps_between(resolved_times(Some(action), player, n).1.position, action.action->MoveTo_0)
            == steps_between(player.position, action.action->MoveTo_0) - n,
    decreases n,
{
    if n > 0 {
        lemma_resolutions_close_in(action, player, (n - 1) as nat);
    }
}

/// Movement converges. A player that starts `d` steps from the target of
/// a pending move stands on the target after exactly `d` resolutions of
/// the due action, and on no earlier one; the action stays pending through
/// all of them. The resolution after that finds the player arrived: it
/// clears the action and brings the player to rest where it stands.
pub proof fn lemma_movement_converges(action: PlayerAction, player: PlayerState)
    ensures
        ({
            let target = action.action->MoveTo_0;
            let d = steps_between(player.position, target);
            &&& resolved_times(Some(action), player, d).1.position == target
            &&& resolved_times(Some(action), player, d).0 == Some(action)
            &&& forall|k: nat|
                k < d ==> (#[trigger] resolved_times(Some(action), player, k)).1.position != target
                    && resolved_times(Some(action), player, k).0 == Some(action)
            &&& resolved_times(Some(action), player, d + 1).0 is None
            &&& resolved_times(Some(action), player, d + 1).1.position == target
            &&& !resolved_times(Some(action), player, d + 1).1.moved_recently
        }),
{
    let target = action.action->MoveTo_0;
    let d = steps_between(player.position, target);
    lemma_resolutions_close_in(action, player, d);
    assert forall|k: nat| k < d implies (#[trigger] resolved_times(
        Some(action),
        player,
        k,
    )).1.position != target && resolved_times(Some(action), player, k).0 == Some(action) by {
        lemma_resolutions_close_in(action, player, k);
    }
    let at = resolved_times(Some(action), player, d);
    assert(resolved_times(Some(action), player, d + 1) == (
        resolved_pending(at.0, at.1),
        resolved_player(at.0, at.1),
    ));
}

} // verus!
