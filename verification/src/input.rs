//! The abstract input actions the input-binding collaborator reports, and the
//! rule that turns the set of currently pressed actions into this tick's
//! movement intent.

use vstd::prelude::*;

use crate::grid::GridCoords;

verus! {

/// An abstract player input action, already decoupled from physical keys and
/// gamepad buttons.
#[derive(Clone, Copy, Debug, PartialEq, Eq, Hash, Structural)]
pub enum PlayerInputAction {
    Up,
    Down,
    Left,
    Right,
    Ability1,
    Ability2,
}

/// The movement delta an input action stands for; ability actions move
/// nothing.
pub open spec fn spec_action_direction(a: PlayerInputAction) -> Option<GridCoords> {
    match a {
        PlayerInputAction::Up => Some(GridCoords { x: 0, y: 1 }),
        PlayerInputAction::Down => Some(GridCoords { x: 0, y: -1i32 }),
        PlayerInputAction::Left => Some(GridCoords { x: -1i32, y: 0 }),
        PlayerInputAction::Right => Some(GridCoords { x: 1, y: 0 }),
        PlayerInputAction::Ability1 => None,
        PlayerInputAction::Ability2 => None,
    }
}

impl PlayerInputAction {
    /// The movement delta this action stands for, if it is a direction.
    pub fn direction(self) -> (r: Option<GridCoords>)
        ensures
            r == spec_action_direction(self),
    {
        match self {
            PlayerInputAction::Up => Some(GridCoords { x: 0, y: 1 }),
            PlayerInputAction::Down => Some(GridCoords { x: 0, y: -1 }),
            PlayerInputAction::Left => Some(GridCoords { x: -1, y: 0 }),
            PlayerInputAction::Right => Some(GridCoords { x: 1, y: 0 }),
            PlayerInputAction::Ability1 => None,
            PlayerInputAction::Ability2 => None,
        }
    }
}

/// This tick's movement intent: the first pressed direction in the fixed
/// order up, down, left, right; the null delta when no direction is pressed.
pub open spec fn spec_movement_intent(pressed: Seq<PlayerInputAction>) -> GridCoords {
    if pressed.contains(PlayerInputAction::Up) {
        GridCoords { x: 0, y: 1 }
    } else if pressed.contains(PlayerInputAction::Down) {
        GridCoords { x: 0, y: -1i32 }
    } else if pressed.contains(PlayerInputAction::Left) {
        GridCoords { x: -1i32, y: 0 }
    } else if pressed.contains(PlayerInputAction::Right) {
        GridCoords { x: 1, y: 0 }
    } else {
        GridCoords { x: 0, y: 0 }
    }
}

/// Membership scan over the pressed actions.
fn pressed_contains(pressed: &Vec<PlayerInputAction>, a: PlayerInputAction) -> (r: bool)
    ensures
        r == pressed@.contains(a),
{
    let mut i: usize = 0;
    while i < pressed.len()
        invariant
            0 <= i <= pressed@.len(),
            forall|k: int| 0 <= k < i ==> pressed@[k] != a,
        decreases pressed@.len() - i,
    {
        if pressed[i] == a {
            return true;
        }
        i = i + 1;
    }
    false
}

/// Resolve the set of currently pressed input actions into this tick's
/// movement intent, the first pressed direction winning in the fixed order
/// up, down, left, right.
pub fn movement_intent(pressed: &Vec<PlayerInputAction>) -> (r: GridCoords)
    ensures
        r == spec_movement_intent(pressed@),
{
    if pressed_contains(pressed, PlayerInputAction::Up) {
        GridCoords { x: 0, y: 1 }
    } else if pressed_contains(pressed, PlayerInputAction::Down) {
        GridCoords { x: 0, y: -1 }
    } else if pressed_contains(pressed, PlayerInputAction::Left) {
        GridCoords { x: -1, y: 0 }
    } else if pressed_contains(pressed, PlayerInputAction::Right) {
        GridCoords { x: 1, y: 0 }
    } else {
        GridCoords { x: 0, y: 0 }
    }
}

} // verus!
