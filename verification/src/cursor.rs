//! The cursor's octant relative to the player, and the line-of-sight ray it
//! selects: the cells highlighted when aiming are exactly the cells on the
//! straight (orthogonal or diagonal) ray from the player toward the cursor.

use vstd::prelude::*;

use crate::grid::GridCoords;

verus! {

/// The octant the cursor lies in relative to the player, or `Undefined` while
/// no direction is known.
#[derive(Clone, Copy, Debug, PartialEq, Eq, Structural)]
pub enum CursorDirection {
    Undefined,
    Up,
    Down,
    Left,
    Right,
    UpRight,
    UpLeft,
    DownRight,
    DownLeft,
}

impl Default for CursorDirection {
    fn default() -> (r: Self)
        ensures
            r == CursorDirection::Undefined,
    {
        CursorDirection::Undefined
    }
}

/// Whether `cell` lies on the straight ray from `player` in `direction`:
/// the matching half-row or half-column for the orthogonal directions, the
/// matching half-diagonal for the diagonal ones, nothing while undefined.
pub open spec fn spec_ray_contains(
    direction: CursorDirection,
    player: GridCoords,
    cell: GridCoords,
) -> bool {
    match direction {
        CursorDirection::Undefined => false,
        CursorDirection::Up => cell.x == player.x && cell.y >= player.y,
        CursorDirection::Down => cell.x == player.x && cell.y <= player.y,
        CursorDirection::Left => cell.y == player.y && cell.x <= player.x,
        CursorDirection::Right => cell.y == player.y && cell.x >= player.x,
        CursorDirection::UpRight => cell.x >= player.x && cell.y >= player.y && cell.y - player.y
            == cell.x - player.x,
        CursorDirection::UpLeft => cell.x <= player.x && cell.y >= player.y && cell.y - player.y
            == player.x - cell.x,
        CursorDirection::DownRight => cell.x >= player.x && cell.y <= player.y && player.y - cell.y
            == cell.x - player.x,
        CursorDirection::DownLeft => cell.x <= player.x && cell.y <= player.y && player.y - cell.y
            == player.x - cell.x,
    }
}

/// Whether `cell` lies on the straight ray from `player` in `direction`.
pub fn cursor_ray_contains(
    direction: &CursorDirection,
    player: GridCoords,
    cell: GridCoords,
) -> (r: bool)
    ensures
        r == spec_ray_contains(*direction, player, cell),
{
    let px = player.x as i64;
    let py = player.y as i64;
    let cx = cell.x as i64;
    let cy = cell.y as i64;
    match direction {
        CursorDirection::Undefined => false,
        CursorDirection::Up => cx == px && cy >= py,
        CursorDirection::Down => cx == px && cy <= py,
        CursorDirection::Left => cy == py && cx <= px,
        CursorDirection::Right => cy == py && cx >= px,
        CursorDirection::UpRight => cx >= px && cy >= py && cy - py == cx - px,
        CursorDirection::UpLeft => cx <= px && cy >= py && cy - py == px - cx,
        CursorDirection::DownRight => cx >= px && cy <= py && py - cy == cx - px,
        CursorDirection::DownLeft => cx <= px && cy <= py && py - cy == px - cx,
    }
}

} // verus!
