//! The one pending intent of the player: input sets it, the tick engine
//! works it off.

use vstd::prelude::*;
use crate::world::tile_pos::{fits_i64, TilePos};
use crate::MOVE_TIME;

verus! {

/// A button of the pointer.
#[derive(Debug, Clone, Copy, PartialEq, Eq, Structural)]
pub enum MouseButton {
    Left,
    Right,
    Middle,
    Other(u8),
}

/// A key of the keyboard, as far as the game tells keys apart.
#[derive(Debug, Clone, Copy, PartialEq, Eq, Structural)]
pub enum KeyCode {
    Up,
    Down,
    Left,
    Right,
    W,
    A,
    S,
    D,
    Other,
}

/// The step that a key asks for, if it asks for one.
pub open spec fn key_step(key: KeyCode) -> Option<(int, int)> {
    match key {
        KeyCode::Right | KeyCode::D => Some((1, 0)),
        KeyCode::Left | KeyCode::A => Some((-1, 0)),
        KeyCode::Up | KeyCode::W => Some((0, 1)),
        KeyCode::Down | KeyCode::S => Some((0, -1)),
        KeyCode::Other => None,
    }
}

/// What the player has been asked to do.
#[derive(Debug, Clone, Copy, PartialEq, Eq, Structural)]
pub enum Action {
    MoveTo(TilePos),
}

/// An action together with the number of ticks left before its next step.
#[derive(Debug, Clone, Copy, PartialEq, Eq, Structural)]
pub struct PlayerAction {
    pub action: Action,
    pub countdown: u64,
}

/// The number of ticks between two steps of `action`.
pub open spec fn step_period(action: Action) -> u64 {
    match action {
        Action::MoveTo(_) => MOVE_TIME,
    }
}

/// A freshly issued `action`: its countdown is the full step period.
pub open spec fn fresh(action: Action) -> PlayerAction {
    PlayerAction { action, countdown: step_period(action) }
}

/// The pending move to `target`, freshly issued.
pub open spec fn fresh_move(target: TilePos) -> Option<PlayerAction> {
    Some(fresh(Action::MoveTo(target)))
}

impl PlayerAction {
    /// The action after one tick.
    pub open spec fn ticked(self) -> PlayerAction {
        if self.countdown == 0 {
            fresh(self.action)
        } else {
            PlayerAction { countdown: (self.countdown - 1) as u64, ..self }
        }
    }

    /// Whether the next tick finds the action due.
    pub open spec fn is_due(self) -> bool {
        self.countdown == 0
    }

    /// The action after `n` ticks.
    pub open spec fn ticked_times(self, n: nat) -> PlayerAction
        decreases n,
    {
        if n == 0 {
            self
        } else {
            self.ticked_times((n - 1) as nat).ticked()
        }
    }

    pub fn new(action: Action) -> (r: PlayerAction)
        ensures
            r == fresh(action),
    {
        let mut new = PlayerAction { action, countdown: 0 };
        new.reset_countdown();
        new
    }

    pub fn reset_countdown(&mut self)
        ensures
            *final(self) == fresh(old(self).action),
    {
        self.countdown = match &self.action {
            Action::MoveTo(_) => MOVE_TIME,
        };
    }

    /// Counts one tick. An action whose countdown has run out is due: it
    /// answers `true` and starts its countdown afresh. Any other answers
    /// `false` and has one tick less to wait.
    pub fn tick(&mut self) -> (due: bool)
        ensures
            due == old(self).is_due(),
            *final(self) == old(self).ticked(),
    {
        if self.countdown == 0 {
            self.reset_countdown();
            true
        } else {
            self.countdown -= 1;
            false
        }
    }
}

#[derive(Debug)]
pub struct ControlManager {
    pub pending_action: Option<PlayerAction>,
}

impl ControlManager {
    pub fn new() -> (r: ControlManager)
        ensures
            r.pending_action is None,
    {
        ControlManager { pending_action: None }
    }

    pub fn get_pending(&mut self) -> (r: &Option<PlayerAction>)
        ensures
            *r == old(self).pending_action,
            final(self).pending_action == old(self).pending_action,
    {
        &self.pending_action
    }

    /// Takes the pending action out, leaving none.
    pub fn complete_pending(&mut self) -> (r: Option<PlayerAction>)
        ensures
            r == old(self).pending_action,
            final(self).pending_action is None,
    {
        self.pending_action.take()
    }

    /// A press of the left button asks for a move to `pos` and puts that
    /// in place of whatever was pending; any other button changes nothing.
    pub fn click(&mut self, button: MouseButton, pos: TilePos)
        ensures
            final(self).pending_action == if button == MouseButton::Left {
                fresh_move(pos)
            } else {
                old(self).pending_action
            },
    {
        if button == MouseButton::Left {
            self.pending_action = Some(PlayerAction::new(Action::MoveTo(pos)));
        }
    }

    /// Whether the tile that `keycode` asks for, seen from `pos`, lies
    /// within the coordinates, so that `press` may be called.
    pub fn key_reaches(keycode: KeyCode, pos: &TilePos) -> (r: bool)
        ensures
            r == (key_step(keycode) matches Some(step) ==> fits_i64(pos.x + step.0) && fits_i64(
                pos.y + step.1,
            )),
    {
        match keycode {
            KeyCode::Right | KeyCode::D => pos.x < i64::MAX,
            KeyCode::Left | KeyCode::A => pos.x > i64::MIN,
            KeyCode::Up | KeyCode::W => pos.y < i64::MAX,
            KeyCode::Down | KeyCode::S => pos.y > i64::MIN,
            KeyCode::Other => true,
        }
    }

    /// A key press takes the place of whatever was pending: a direction
    /// key asks for a move to the tile next to `pos` on that side, any
    /// other key leaves nothing pending.
    pub fn press(&mut self, keycode: KeyCode, pos: TilePos)
        requires
            key_step(keycode) matches Some(step) ==> fits_i64(pos.x + step.0) && fits_i64(
                pos.y + step.1,
            ),
        ensures
            final(self).pending_action == match key_step(keycode) {
                Some(step) => fresh_move(
                    TilePos { x: (pos.x + step.0) as i64, y: (pos.y + step.1) as i64 },
                ),
                None => None,
            },
    {
        self.pending_action = match keycode {
            KeyCode::Right | KeyCode::D => Some(
                PlayerAction::new(Action::MoveTo(TilePos { x: pos.x + 1, y: pos.y })),
            ),
            KeyCode::Left | KeyCode::A => Some(
                PlayerAction::new(Action::MoveTo(TilePos { x: pos.x - 1, y: pos.y })),
            ),
            KeyCode::Up | KeyCode::W => Some(
                PlayerAction::new(Action::MoveTo(TilePos { x: pos.x, y: pos.y + 1 })),
            ),
            KeyCode::Down | KeyCode::S => Some(
                PlayerAction::new(Action::MoveTo(TilePos { x: pos.x, y: pos.y - 1 })),
            ),
            KeyCode::Other => None,
        };
    }
}

/// The cadence of the countdown. An action that was freshly issued with a
/// step period of `N` ticks answers `false` to its first `N` ticks and
/// `true` to the tick after them, and then starts over: after `k` ticks its
/// countdown stands at `N - k % (N + 1)`, so it is the ticks numbered
/// `N + 1`, `2 * (N + 1)`, and so on, that find it due.
pub proof fn lemma_countdown_cadence(action: Action, k: nat)
    ensures
        fresh(action).ticked_times(k).action == action,
        fresh(action).ticked_times(k).countdown == step_period(action) - k % (step_period(action)
            + 1) as nat,
        fresh(action).ticked_times(k).is_due() <==> (k + 1) % (step_period(action) + 1) as nat == 0,
    decreases k,
{
    assert(step_period(action) == 3);
    if k > 0 {
        lemma_countdown_cadence(action, (k - 1) as nat);
        let earlier = fresh(action).ticked_times((k - 1) as nat);
        assert(fresh(action).ticked_times(k) == earlier.ticked());
        assert(earlier.countdown == 3 - (k - 1) % 4);
        assert(k % 4 == if (k - 1) % 4 == 3 { 0 } else { (k - 1) % 4 + 1 });
    }
    assert((k + 1) % 4 == 0 <==> k % 4 == 3);
}

} // verus!
