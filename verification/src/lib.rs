//! Grid-based turn/movement core of a tile roguelike: a discrete coordinate
//! model, wall/occupancy maps, an A*-backed pursuit pathfinder, and the
//! action-timer state machine that gates player and enemy steps into turns.

use vstd::prelude::*;

pub mod collider;
pub mod cursor;
pub mod enemy;
pub mod events;
pub mod grid;
pub mod input;
pub mod level;
pub mod search;
pub mod turn;

verus! {

/// Time, in milliseconds, that must elapse between two committed steps of a
/// walking actor.
pub const ACTION_DELAY_MILLIS: u64 = 200;

/// Hit points of an actor. `current_health` may drop below zero when a hit
/// lands on an already dying actor; the display layer clamps it.
#[derive(Clone, Copy, Debug, PartialEq, Eq, Structural)]
pub struct Health {
    pub current_health: i32,
    pub max_health: i32,
}

impl Health {
    /// Subtract a hit's damage from the current hit points.
    pub fn apply_damage(&mut self, damage: i32)
        requires
            i32::MIN <= old(self).current_health - damage <= i32::MAX,
        ensures
            final(self).current_health == old(self).current_health - damage,
            final(self).max_health == old(self).max_health,
    {
        self.current_health = self.current_health - damage;
    }
}

impl Default for Health {
    /// A fresh actor starts at full health.
    fn default() -> (r: Self)
        ensures
            r.current_health == 100,
            r.max_health == 100,
    {
        Health { current_health: 100, max_health: 100 }
    }
}

/// A looping walk over a sprite sheet's frame indices, driving an animation.
pub struct IndeciesIter {
    pub indecies: Vec<usize>,
    pub nth: usize,
}

impl From<Vec<usize>> for IndeciesIter {
    fn from(indecies: Vec<usize>) -> (r: Self) {
        Self { indecies, nth: 0 }
    }
}

impl vstd::std_specs::convert::FromSpecImpl<Vec<usize>> for IndeciesIter {
    open spec fn obeys_from_spec() -> bool {
        true
    }

    open spec fn from_spec(v: Vec<usize>) -> Self {
        IndeciesIter { indecies: v, nth: 0 }
    }
}

impl IndeciesIter {
    /// The next frame index. Past the last frame the walk restarts: it hands
    /// out the first frame and continues from the second.
    pub fn next(&mut self) -> (r: Option<usize>)
        requires
            old(self).indecies@.len() > 0,
        ensures
            final(self).indecies == old(self).indecies,
            old(self).nth < old(self).indecies@.len() ==> r == Some(
                old(self).indecies@[old(self).nth as int],
            ) && final(self).nth == old(self).nth + 1,
            old(self).nth >= old(self).indecies@.len() ==> r == Some(old(self).indecies@[0])
                && final(self).nth == 1,
    {
        if self.nth < self.indecies.len() {
            let index = self.indecies[self.nth];
            self.nth = self.nth + 1;
            Some(index)
        } else {
            self.nth = 1;
            Some(self.indecies[0])
        }
    }
}

} // verus!
