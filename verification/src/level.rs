//! Level occupancy maps: the static wall/floor/fence classification of the
//! current level's cells, rebuilt wholesale on every level load and read-only
//! between loads.
//!
//! Every map shares one invariant: a coordinate outside
//! `[0, level_width) x [0, level_height)` is always impassable, whatever the
//! location set holds.

use vstd::prelude::*;

use crate::grid::GridCoords;

verus! {

/// Whether `c` lies inside a `width x height` level.
pub open spec fn in_level_bounds(width: int, height: int, c: GridCoords) -> bool {
    0 <= c.x < width && 0 <= c.y < height
}

/// Membership scan shared by the occupancy maps.
pub(crate) fn locations_contain(locations: &Vec<GridCoords>, c: GridCoords) -> (r: bool)
    ensures
        r == locations@.contains(c),
{
    let mut i: usize = 0;
    while i < locations.len()
        invariant
            0 <= i <= locations@.len(),
            forall|k: int| 0 <= k < i ==> locations@[k] != c,
        decreases locations@.len() - i,
    {
        if locations[i].x == c.x && locations[i].y == c.y {
            return true;
        }
        i = i + 1;
    }
    false
}

/// The impassable cells of the current level, with the level's size in cells.
pub struct LevelWalls {
    pub wall_locations: Vec<GridCoords>,
    pub level_width: i32,
    pub level_height: i32,
}

impl LevelWalls {
    /// Whether `c` is impassable: out of the level's bounds, or a wall cell.
    pub open spec fn spec_in_wall(self, c: GridCoords) -> bool {
        !in_level_bounds(self.level_width as int, self.level_height as int, c)
            || self.wall_locations@.contains(c)
    }

    pub fn new(wall_locations: Vec<GridCoords>, level_width: i32, level_height: i32) -> (r: Self)
        ensures
            r == (LevelWalls { wall_locations, level_width, level_height }),
    {
        LevelWalls { wall_locations, level_width, level_height }
    }

    /// Whether `grid_coords` is impassable. The boundary check comes first:
    /// out-of-bounds cells are walls whatever the wall set holds.
    pub fn in_wall(&self, grid_coords: &GridCoords) -> (r: bool)
        ensures
            r == self.spec_in_wall(*grid_coords),
    {
        grid_coords.x < 0 || grid_coords.y < 0 || grid_coords.x >= self.level_width
            || grid_coords.y >= self.level_height || locations_contain(
            &self.wall_locations,
            *grid_coords,
        )
    }
}

/// Boundary invariant: a coordinate outside the level's bounds is impassable,
/// regardless of the wall set's contents.
pub proof fn lemma_boundary_impassable(walls: LevelWalls, c: GridCoords)
    requires
        c.x < 0 || c.y < 0 || c.x >= walls.level_width || c.y >= walls.level_height,
    ensures
        walls.spec_in_wall(c),
{
}

/// The floor cells of the current level (cells an entity may stand on).
pub struct LevelFloor {
    pub floor_locations: Vec<GridCoords>,
    pub level_width: i32,
    pub level_height: i32,
}

impl LevelFloor {
    pub open spec fn spec_in_floor(self, c: GridCoords) -> bool {
        !in_level_bounds(self.level_width as int, self.level_height as int, c)
            || self.floor_locations@.contains(c)
    }

    /// Whether `grid_coords` is out of bounds or one of the floor cells.
    pub fn in_floor(&self, grid_coords: &GridCoords) -> (r: bool)
        ensures
            r == self.spec_in_floor(*grid_coords),
    {
        grid_coords.x < 0 || grid_coords.y < 0 || grid_coords.x >= self.level_width
            || grid_coords.y >= self.level_height || locations_contain(
            &self.floor_locations,
            *grid_coords,
        )
    }
}

/// The fence cells of a hub level, blocking like walls.
pub struct LevelFence {
    pub fence_locations: Vec<GridCoords>,
    pub level_width: i32,
    pub level_height: i32,
}

impl LevelFence {
    pub open spec fn spec_in_fence(self, c: GridCoords) -> bool {
        !in_level_bounds(self.level_width as int, self.level_height as int, c)
            || self.fence_locations@.contains(c)
    }

    /// Whether `grid_coords` is out of bounds or one of the fence cells.
    pub fn in_fence(&self, grid_coords: &GridCoords) -> (r: bool)
        ensures
            r == self.spec_in_fence(*grid_coords),
    {
        grid_coords.x < 0 || grid_coords.y < 0 || grid_coords.x >= self.level_width
            || grid_coords.y >= self.level_height || locations_contain(
            &self.fence_locations,
            *grid_coords,
        )
    }
}

} // verus!
