//! The pursuit pathfinder: A* over the 8-connected grid graph, treating walls
//! and a supplied set of currently occupied cells as blocked, with uniform
//! edge cost for diagonal and orthogonal steps alike.
//!
//! The search itself runs in the `pathfinding` crate; this module states what
//! a returned path is (a chain of valid steps from start to goal) and that a
//! path comes back exactly when one exists.

use vstd::prelude::*;

use crate::grid::{abs_diff, chebyshev, manhattan, zero_delta, GridCoords};
use crate::level::{in_level_bounds, locations_contain, LevelWalls};

verus! {

/// Whether `b` is one of the eight neighbors of `a`.
pub open spec fn adjacent8(a: GridCoords, b: GridCoords) -> bool {
    &&& a != b
    &&& abs_diff(a.x as int, b.x as int) <= 1
    &&& abs_diff(a.y as int, b.y as int) <= 1
}

/// Whether `c` can be stepped onto: neither a wall nor occupied.
pub open spec fn open_cell(walls: LevelWalls, occupied: Seq<GridCoords>, c: GridCoords) -> bool {
    !walls.spec_in_wall(c) && !occupied.contains(c)
}

/// One move of the search graph: a single 8-directional step onto an open
/// cell.
pub open spec fn valid_step(
    walls: LevelWalls,
    occupied: Seq<GridCoords>,
    a: GridCoords,
    b: GridCoords,
) -> bool {
    adjacent8(a, b) && open_cell(walls, occupied, b)
}

/// A chain of valid steps. The first cell is where the walker already stands
/// and is not itself required to be open.
pub open spec fn valid_path(walls: LevelWalls, occupied: Seq<GridCoords>, p: Seq<GridCoords>) -> bool {
    &&& p.len() >= 1
    &&& forall|i: int| 1 <= i < p.len() ==> valid_step(walls, occupied, p[i - 1], #[trigger] p[i])
}

/// A valid path that leads from `start` to `goal`, both inclusive.
pub open spec fn connects(
    walls: LevelWalls,
    occupied: Seq<GridCoords>,
    p: Seq<GridCoords>,
    start: GridCoords,
    goal: GridCoords,
) -> bool {
    &&& valid_path(walls, occupied, p)
    &&& p[0] == start
    &&& p[p.len() - 1] == goal
}

/// Whether any valid path leads from `start` to `goal`.
pub open spec fn reachable(
    walls: LevelWalls,
    occupied: Seq<GridCoords>,
    start: GridCoords,
    goal: GridCoords,
) -> bool {
    exists|p: Seq<GridCoords>| connects(walls, occupied, p, start, goal)
}

/// The occupancy set handed to the pathfinder, when one is supplied at all.
pub open spec fn occ_view(occupied_coords: Option<&Vec<GridCoords>>) -> Seq<GridCoords> {
    match occupied_coords {
        Some(v) => v@,
        None => Seq::empty(),
    }
}

/// A node of the search graph.
#[derive(Clone, Copy, Debug, PartialEq, Eq, Hash, Structural)]
pub struct GridPosition(pub GridCoords);

/// One outgoing edge of the search graph, with its uniform cost.
#[derive(Clone, Copy, Debug, PartialEq, Eq, Structural)]
pub struct Successor {
    pub coords: GridPosition,
    pub cost: u32,
}

/// Whether the cell at offset `(dx, dy)` from `base` exists in the
/// coordinate type at all.
pub open spec fn offset_in_range(base: GridCoords, dx: int, dy: int) -> bool {
    &&& i32::MIN <= base.x + dx <= i32::MAX
    &&& i32::MIN <= base.y + dy <= i32::MAX
}

/// The cell at offset `(dx, dy)` from `base` (meaningful when the offset is
/// in range).
pub open spec fn offset_cell(base: GridCoords, dx: int, dy: int) -> GridCoords {
    GridCoords { x: (base.x + dx) as i32, y: (base.y + dy) as i32 }
}

/// Whether the neighbor `b` of `a` sits at an offset the successor walk has
/// already passed, scanning offsets x-first, standing now at `(dx, dy)`.
spec fn scanned_before(a: GridCoords, b: GridCoords, dx: int, dy: int) -> bool {
    ||| b.x - a.x < dx
    ||| (b.x - a.x == dx && b.y - a.y < dy)
}

/// An upper bound on how many non-null offsets the successor walk has passed
/// when standing at `(dx, dy)`.
spec fn scanned_count(dx: int, dy: int) -> int {
    (dx + 1) * 3 + (dy + 1) - (if dx > 0 || (dx == 0 && dy > 0) {
        1int
    } else {
        0int
    })
}

/// A sequence with no duplicates keeps none when an element it does not
/// contain is appended.
proof fn lemma_push_distinct(s: Seq<Successor>, e: Successor)
    requires
        s.no_duplicates(),
        !s.contains(e),
    ensures
        s.push(e).no_duplicates(),
{
    let s2 = s.push(e);
    assert forall|i: int, j: int|
        0 <= i < s2.len() && 0 <= j < s2.len() && i != j implies s2[i] != s2[j] by {
        if i < s.len() && j < s.len() {
        } else if i < s.len() && j == s.len() {
            if s2[i] == e {
                assert(s[i] == e);
                assert(s.contains(e));
            }
        } else if j < s.len() && i == s.len() {
            if s2[j] == e {
                assert(s[j] == e);
                assert(s.contains(e));
            }
        }
    }
}

/// Append the successor for the single offset `(dx, dy)` when that neighbor
/// exists, lies inside the level and is open; leave the list untouched
/// otherwise.
fn push_neighbor(
    r: &mut Vec<Successor>,
    level_walls: &LevelWalls,
    occupied_coords: Option<&Vec<GridCoords>>,
    base: GridCoords,
    dx: i32,
    dy: i32,
)
    requires
        -1 <= dx <= 1,
        -1 <= dy <= 1,
        !(dx == 0 && dy == 0),
    ensures
        forall|s: Successor|
            final(r)@.contains(s) <==> (old(r)@.contains(s) || (s.cost == 1 && s.coords.0.x
                == base.x + dx && s.coords.0.y == base.y + dy && valid_step(
                *level_walls,
                occ_view(occupied_coords),
                base,
                s.coords.0,
            ))),
        final(r)@ == if offset_in_range(base, dx as int, dy as int) && valid_step(
            *level_walls,
            occ_view(occupied_coords),
            base,
            offset_cell(base, dx as int, dy as int),
        ) {
            old(r)@.push(
                Successor {
                    coords: GridPosition(offset_cell(base, dx as int, dy as int)),
                    cost: 1u32,
                },
            )
        } else {
            old(r)@
        },
{
    let nx = base.x as i64 + dx as i64;
    let ny = base.y as i64 + dy as i64;
    if 0 <= nx && nx < level_walls.level_width as i64 && 0 <= ny && ny
        < level_walls.level_height as i64 {
        let nc = GridCoords { x: nx as i32, y: ny as i32 };
        if !locations_contain(&level_walls.wall_locations, nc) {
            let occupied = match occupied_coords {
                Some(v) => locations_contain(v, nc),
                None => false,
            };
            if !occupied {
                let edge = Successor { coords: GridPosition(nc), cost: 1 };
                r.push(edge);
                proof {
                    assert(valid_step(*level_walls, occ_view(occupied_coords), base, nc));
                    assert forall|s: Successor| r@.contains(s) implies (old(r)@.contains(s) || s
                        == edge) by {
                        let idx = choose|i: int| 0 <= i < r@.len() && r@[i] == s;
                        if idx < old(r)@.len() {
                            assert(old(r)@[idx] == s);
                        }
                    }
                    assert(r@.contains(edge)) by {
                        assert(r@[old(r)@.len() as int] == edge);
                    }
                    assert forall|s: Successor| old(r)@.contains(s) implies r@.contains(s) by {
                        let idx = choose|i: int| 0 <= i < old(r)@.len() && old(r)@[i] == s;
                        assert(r@[idx] == s);
                    }
                    assert forall|s: Successor| (s.cost == 1 && s.coords.0.x == base.x + dx
                        && s.coords.0.y == base.y + dy) implies s == edge by {
                        assert(s.coords.0 == nc);
                    }
                }
            }
        }
    }
}

impl GridPosition {
    pub fn new(grid_coords: GridCoords) -> (r: Self)
        ensures
            r == GridPosition(grid_coords),
    {
        Self(grid_coords)
    }

    /// All valid successors of `coords`: its eight neighbors, except the ones
    /// that are walls or (when an occupancy set is supplied) occupied, each
    /// listed exactly once. Every edge costs one, for diagonal and orthogonal
    /// steps alike.
    pub fn successors(
        &self,
        coords: &GridCoords,
        level_walls: &LevelWalls,
        occupied_coords: Option<&Vec<GridCoords>>,
    ) -> (r: Vec<Successor>)
        ensures
            forall|s: Successor|
                r@.contains(s) <==> (s.cost == 1 && valid_step(
                    *level_walls,
                    occ_view(occupied_coords),
                    *coords,
                    s.coords.0,
                )),
            r@.no_duplicates(),
            r@.len() <= 8,
    {
        let base = *coords;
        let mut successors: Vec<Successor> = Vec::new();
        let mut dx: i32 = -1;
        while dx <= 1
            invariant
                -1 <= dx <= 2,
                successors@.no_duplicates(),
                successors@.len() <= scanned_count(dx as int, -1),
                forall|s: Successor|
                    successors@.contains(s) <==> (s.cost == 1 && valid_step(
                        *level_walls,
                        occ_view(occupied_coords),
                        base,
                        s.coords.0,
                    ) && scanned_before(base, s.coords.0, dx as int, -1)),
            decreases 2 - dx,
        {
            let mut dy: i32 = -1;
            while dy <= 1
                invariant
                    -1 <= dx <= 1,
                    -1 <= dy <= 2,
                    successors@.no_duplicates(),
                    successors@.len() <= scanned_count(dx as int, dy as int),
                    forall|s: Successor|
                        successors@.contains(s) <==> (s.cost == 1 && valid_step(
                            *level_walls,
                            occ_view(occupied_coords),
                            base,
                            s.coords.0,
                        ) && scanned_before(base, s.coords.0, dx as int, dy as int)),
                decreases 2 - dy,
            {
                if !(dx == 0 && dy == 0) {
                    let ghost prev = successors@;
                    push_neighbor(&mut successors, level_walls, occupied_coords, base, dx, dy);
                    proof {
                        if successors@.len() != prev.len() {
                            let e = successors@.last();
                            assert(successors@ == prev.push(e));
                            assert(e.coords.0.x - base.x == dx && e.coords.0.y - base.y == dy);
                            assert(!prev.contains(e));
                            lemma_push_distinct(prev, e);
                        }
                    }
                } else {
                    proof {
                        assert forall|s: Successor|
                            s.coords.0.x - base.x == 0 && s.coords.0.y - base.y == 0
                                implies !adjacent8(base, s.coords.0) by {
                            assert(s.coords.0 == base);
                        }
                    }
                }
                dy = dy + 1;
            }
            proof {
                assert forall|s: Successor|
                    s.cost == 1 && valid_step(
                        *level_walls,
                        occ_view(occupied_coords),
                        base,
                        s.coords.0,
                    ) implies (scanned_before(base, s.coords.0, dx as int, 2)
                    == scanned_before(base, s.coords.0, dx as int + 1, -1)) by {
                    let b = s.coords.0;
                    assert(b.x == base.x - 1 || b.x == base.x || b.x == base.x + 1);
                    assert(b.y == base.y - 1 || b.y == base.y || b.y == base.y + 1);
                }
            }
            dx = dx + 1;
        }
        proof {
            assert forall|s: Successor|
                s.cost == 1 && valid_step(
                    *level_walls,
                    occ_view(occupied_coords),
                    base,
                    s.coords.0,
                ) implies scanned_before(base, s.coords.0, 2, -1) by {
                let b = s.coords.0;
                assert(b.x == base.x - 1 || b.x == base.x || b.x == base.x + 1);
            }
        }
        successors
    }

    /// The Manhattan-distance heuristic used by the pursuit search.
    pub fn heuristic(&self, goal: &GridCoords) -> (r: u64)
        ensures
            r == manhattan(self.0, *goal),
    {
        let dx = crate::grid::abs_i64(self.0.x as i64 - goal.x as i64);
        let dy = crate::grid::abs_i64(self.0.y as i64 - goal.y as i64);
        (dx + dy) as u64
    }

    /// A route from this cell to `goal` on the 8-connected grid, or `None`
    /// exactly when no route exists. A returned path starts at this cell,
    /// ends at `goal`, visits no cell twice, and moves only through open
    /// cells. It is not necessarily a shortest route: with diagonal and
    /// orthogonal steps both costing one, the Manhattan heuristic
    /// overestimates, so the search may settle on a longer one.
    pub fn pathfind(
        &self,
        goal: GridCoords,
        level_walls: &LevelWalls,
        occupied_coords: Option<&Vec<GridCoords>>,
    ) -> (r: Option<Vec<GridCoords>>)
        ensures
            match r {
                Some(p) => {
                    &&& connects(*level_walls, occ_view(occupied_coords), p@, self.0, goal)
                    &&& p@.no_duplicates()
                    &&& self.0 == goal ==> p@.len() == 1
                    &&& (adjacent8(self.0, goal) && open_cell(
                        *level_walls,
                        occ_view(occupied_coords),
                        goal,
                    )) ==> p@.len() == 2
                },
                None => !reachable(*level_walls, occ_view(occupied_coords), self.0, goal),
            },
    {
        match occupied_coords {
            Some(v) => run_astar(self, goal, level_walls, v),
            None => {
                let empty: Vec<GridCoords> = Vec::new();
                run_astar(self, goal, level_walls, &empty)
            },
        }
    }
}

/// Relies on `pathfinding::prelude::astar`: it explores exactly the graph the
/// successor closure spans (here, the verified `GridPosition::successors`),
/// returns `Some` with a start-to-goal path built from those edges — start
/// and goal inclusive — when the goal can be reached, and `None` only after
/// exhausting every cell reachable from the start. Further, as its
/// documentation states, the returned path never includes a node twice; the
/// goal test runs on the start node before any expansion, so a start that is
/// the goal comes back as the one-cell path; and since this Manhattan
/// heuristic gives every cell other than the goal an estimate of at least
/// one, an open goal adjacent to the start is the unique entry of least
/// estimated cost and is popped right after the start — the two-cell path.
#[verifier::external_body]
fn run_astar(
    start: &GridPosition,
    goal: GridCoords,
    level_walls: &LevelWalls,
    occupied: &Vec<GridCoords>,
) -> (r: Option<Vec<GridCoords>>)
    ensures
        match r {
            Some(p) => {
                &&& connects(*level_walls, occupied@, p@, start.0, goal)
                &&& p@.no_duplicates()
                &&& start.0 == goal ==> p@.len() == 1
                &&& (adjacent8(start.0, goal) && open_cell(*level_walls, occupied@, goal))
                    ==> p@.len() == 2
            },
            None => !reachable(*level_walls, occupied@, start.0, goal),
        },
{
    let result = pathfinding::prelude::astar(
        start,
        |p: &GridPosition| {
            p.successors(&p.0, level_walls, Some(occupied))
                .iter()
                .map(|s| (s.coords, s.cost as u64))
                .collect::<Vec<_>>()
        },
        |p: &GridPosition| p.heuristic(&goal),
        |p: &GridPosition| p.0 == goal,
    );
    result.map(|(path, _)| path.iter().map(|p| p.0).collect())
}

/// Next-step policy toward a goal: step onto the path's second cell, or stay
/// in place when the path is shorter than three cells — a goal already
/// adjacent is engaged at range, never stepped onto.
pub fn next_step_delta(path: &Vec<GridCoords>) -> (r: GridCoords)
    requires
        path@.len() >= 3 ==> abs_diff(path@[0].x as int, path@[1].x as int) <= 1 && abs_diff(
            path@[0].y as int,
            path@[1].y as int,
        ) <= 1,
    ensures
        path@.len() < 3 ==> r == zero_delta(),
        path@.len() >= 3 ==> r.x == path@[1].x - path@[0].x && r.y == path@[1].y - path@[0].y,
{
    if path.len() >= 3 {
        let a = path[0];
        let b = path[1];
        GridCoords { x: b.x - a.x, y: b.y - a.y }
    } else {
        GridCoords { x: 0, y: 0 }
    }
}

/// On a level with no wall cells and no occupied cells, every pair of
/// in-bounds cells is connected: stepping one cell toward the goal on each
/// differing axis reaches it in Chebyshev-distance many steps. With
/// `pathfind`'s contract, the search then always returns a path.
pub proof fn lemma_open_grid_reachable(
    walls: LevelWalls,
    occupied: Seq<GridCoords>,
    start: GridCoords,
    goal: GridCoords,
)
    requires
        walls.wall_locations@.len() == 0,
        occupied.len() == 0,
        in_level_bounds(walls.level_width as int, walls.level_height as int, start),
        in_level_bounds(walls.level_width as int, walls.level_height as int, goal),
    ensures
        reachable(walls, occupied, start, goal),
    decreases chebyshev(start, goal),
{
    if start == goal {
        let p = seq![goal];
        assert(valid_path(walls, occupied, p));
        assert(connects(walls, occupied, p, start, goal));
    } else {
        let nx: i32 = if goal.x > start.x {
            (start.x + 1) as i32
        } else if goal.x < start.x {
            (start.x - 1) as i32
        } else {
            start.x
        };
        let ny: i32 = if goal.y > start.y {
            (start.y + 1) as i32
        } else if goal.y < start.y {
            (start.y - 1) as i32
        } else {
            start.y
        };
        let next = GridCoords { x: nx, y: ny };
        assert(in_level_bounds(walls.level_width as int, walls.level_height as int, next));
        assert(valid_step(walls, occupied, start, next));
        assert(chebyshev(next, goal) < chebyshev(start, goal));
        lemma_open_grid_reachable(walls, occupied, next, goal);
        let rest = choose|p: Seq<GridCoords>| connects(walls, occupied, p, next, goal);
        let p = seq![start] + rest;
        assert forall|i: int| 1 <= i < p.len() implies valid_step(
            walls,
            occupied,
            p[i - 1],
            #[trigger] p[i],
        ) by {
            if i == 1 {
                assert(p[0] == start && p[1] == rest[0] && rest[0] == next);
            } else {
                assert(p[i - 1] == rest[i - 2] && p[i] == rest[i - 1]);
                assert(valid_step(walls, occupied, rest[i - 2], rest[i - 1]));
            }
        }
        assert(p[p.len() - 1] == rest[rest.len() - 1]);
        assert(connects(walls, occupied, p, start, goal));
    }
}

/// A goal cell whose eight neighbors are all impassable cannot be reached
/// from any cell outside that ring: every path would have to step through an
/// open neighbor of the goal. By `pathfind`'s contract, the pathfinder then
/// returns `None`.
pub proof fn lemma_enclosed_goal_unreachable(
    walls: LevelWalls,
    occupied: Seq<GridCoords>,
    start: GridCoords,
    goal: GridCoords,
)
    requires
        start != goal,
        !adjacent8(start, goal),
        forall|c: GridCoords| adjacent8(c, goal) ==> walls.spec_in_wall(c),
    ensures
        !reachable(walls, occupied, start, goal),
{
    if reachable(walls, occupied, start, goal) {
        let p = choose|p: Seq<GridCoords>| connects(walls, occupied, p, start, goal);
        assert(p.len() >= 2);
        let n = p.len() as int;
        assert(valid_step(walls, occupied, p[n - 2], p[n - 1]));
        let q = p[n - 2];
        assert(adjacent8(q, goal));
        assert(walls.spec_in_wall(q));
        if n == 2 {
            assert(q == start);
            assert(false);
        } else {
            assert(valid_step(walls, occupied, p[n - 3], p[n - 2]));
            assert(open_cell(walls, occupied, q));
            assert(false);
        }
    }
}

} // verus!
