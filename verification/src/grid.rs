//! The discrete coordinate model: integer grid cells, componentwise
//! arithmetic, distance measures, and facing directions.

use vstd::prelude::*;

verus! {

/// One discrete cell of the level's integer lattice. The canonical position
/// representation for every grid-bound entity (player, enemies, stairs,
/// walls).
#[derive(Clone, Copy, Debug, PartialEq, Eq, Hash, Structural)]
pub struct GridCoords {
    pub x: i32,
    pub y: i32,
}

/// Absolute difference of two mathematical integers.
pub open spec fn abs_diff(a: int, b: int) -> int {
    if a >= b {
        a - b
    } else {
        b - a
    }
}

/// Chebyshev distance: the number of 8-directional steps between two cells.
pub open spec fn chebyshev(a: GridCoords, b: GridCoords) -> int {
    if abs_diff(a.x as int, b.x as int) >= abs_diff(a.y as int, b.y as int) {
        abs_diff(a.x as int, b.x as int)
    } else {
        abs_diff(a.y as int, b.y as int)
    }
}

/// Manhattan distance: the number of 4-directional steps between two cells.
pub open spec fn manhattan(a: GridCoords, b: GridCoords) -> int {
    abs_diff(a.x as int, b.x as int) + abs_diff(a.y as int, b.y as int)
}

/// Absolute value of an `i64` that is not `i64::MIN`.
pub fn abs_i64(v: i64) -> (r: i64)
    requires
        v != i64::MIN,
    ensures
        r == abs_diff(v as int, 0),
{
    if v >= 0 {
        v
    } else {
        -v
    }
}

/// Whether applying the delta `d` to `c` stays within `i32` on both axes.
pub open spec fn delta_in_range(c: GridCoords, d: GridCoords) -> bool {
    &&& i32::MIN <= c.x + d.x <= i32::MAX
    &&& i32::MIN <= c.y + d.y <= i32::MAX
}

/// The cell reached from `c` by the delta `d` (meaningful when
/// `delta_in_range(c, d)` holds).
pub open spec fn dest_of(c: GridCoords, d: GridCoords) -> GridCoords {
    GridCoords { x: (c.x + d.x) as i32, y: (c.y + d.y) as i32 }
}

/// The null delta: staying in place.
pub open spec fn zero_delta() -> GridCoords {
    GridCoords { x: 0, y: 0 }
}

impl GridCoords {
    pub fn new(x: i32, y: i32) -> (r: GridCoords)
        ensures
            r == (GridCoords { x, y }),
    {
        GridCoords { x, y }
    }

    /// Componentwise sum.
    pub fn add(self, other: GridCoords) -> (r: GridCoords)
        requires
            delta_in_range(self, other),
        ensures
            r == dest_of(self, other),
    {
        GridCoords { x: self.x + other.x, y: self.y + other.y }
    }

    /// Componentwise difference.
    pub fn subtract(self, other: GridCoords) -> (r: GridCoords)
        requires
            i32::MIN <= self.x - other.x <= i32::MAX,
            i32::MIN <= self.y - other.y <= i32::MAX,
        ensures
            r.x == self.x - other.x,
            r.y == self.y - other.y,
    {
        GridCoords { x: self.x - other.x, y: self.y - other.y }
    }

    /// Chebyshev distance to `other`, as used by range checks.
    pub fn distance_chebyshev(self, other: GridCoords) -> (r: u64)
        ensures
            r == chebyshev(self, other),
    {
        let dx = abs_i64(self.x as i64 - other.x as i64);
        let dy = abs_i64(self.y as i64 - other.y as i64);
        if dx >= dy {
            dx as u64
        } else {
            dy as u64
        }
    }

    /// Manhattan distance to `other`.
    pub fn distance_manhattan(self, other: GridCoords) -> (r: u64)
        ensures
            r == manhattan(self, other),
    {
        let dx = abs_i64(self.x as i64 - other.x as i64);
        let dy = abs_i64(self.y as i64 - other.y as i64);
        (dx + dy) as u64
    }
}

/// The four facing directions of an actor sprite.
#[derive(Clone, Copy, Debug, PartialEq, Eq, Structural)]
pub enum Direction {
    Up,
    Down,
    Left,
    Right,
}

/// The facing that a unit cardinal movement delta selects, if any.
pub open spec fn spec_direction_of(delta: GridCoords) -> Option<Direction> {
    if delta == (GridCoords { x: 0, y: 1 }) {
        Some(Direction::Up)
    } else if delta == (GridCoords { x: 0, y: -1i32 }) {
        Some(Direction::Down)
    } else if delta == (GridCoords { x: -1i32, y: 0 }) {
        Some(Direction::Left)
    } else if delta == (GridCoords { x: 1, y: 0 }) {
        Some(Direction::Right)
    } else {
        None
    }
}

impl Direction {
    /// The facing selected by a unit cardinal movement delta; any other delta
    /// (including the null delta) selects none.
    pub fn try_from(value: GridCoords) -> (r: Result<Direction, ()>)
        ensures
            r == match spec_direction_of(value) {
                Some(d) => Ok::<Direction, ()>(d),
                None => Err::<Direction, ()>(()),
            },
    {
        if value.x == 0 && value.y == 1 {
            Ok(Direction::Up)
        } else if value.x == 0 && value.y == -1 {
            Ok(Direction::Down)
        } else if value.x == -1 && value.y == 0 {
            Ok(Direction::Left)
        } else if value.x == 1 && value.y == 0 {
            Ok(Direction::Right)
        } else {
            Err(())
        }
    }
}

impl Default for Direction {
    /// Actors face down until a move turns them.
    fn default() -> (r: Self)
        ensures
            r == Direction::Down,
    {
        Direction::Down
    }
}

/// Whether the player stands on one of the staircases, which sends the game
/// to the next level.
pub fn stair_reached(player: GridCoords, stairs: &Vec<GridCoords>) -> (r: bool)
    ensures
        r == stairs@.contains(player),
{
    let mut i: usize = 0;
    while i < stairs.len()
        invariant
            0 <= i <= stairs@.len(),
            forall|k: int| 0 <= k < i ==> stairs@[k] != player,
        decreases stairs@.len() - i,
    {
        if stairs[i].x == player.x && stairs[i].y == player.y {
            return true;
        }
        i = i + 1;
    }
    false
}

} // verus!
