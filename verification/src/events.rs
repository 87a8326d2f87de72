//! The notifications the movement core emits for dependent systems: enemy
//! reactions are keyed off `TurnOver` so that they always observe the
//! player's post-step coordinate, and combat display is keyed off
//! `CombatEvent`.

use vstd::prelude::*;

use crate::turn::PlayerAction;

verus! {

/// Emitted whenever the player's discrete step resolves: with `Walking` on
/// every resolved step, with `Idle` once when a walking player runs out of
/// movement intent.
#[derive(Clone, Copy, Debug, PartialEq, Eq, Structural)]
pub struct TurnOver(pub PlayerAction);

impl TurnOver {
    /// Whether this event lets the enemies take their reaction move: only a
    /// resolved walking step does, so an enemy always reacts to the player's
    /// post-step coordinate and exactly once per step. The idle announcement
    /// does not.
    pub fn triggers_enemy_reaction(&self) -> (r: bool)
        ensures
            r == (self.0 == PlayerAction::Walking),
    {
        self.0 == PlayerAction::Walking
    }
}

/// Whether any enemy is currently in pursuit range of the player.
#[derive(Clone, Copy, Debug, PartialEq, Eq, Structural)]
pub struct CombatEvent(pub bool);

} // verus!
