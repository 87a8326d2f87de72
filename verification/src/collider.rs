//! Collider footprints: the rectangle of cells a multi-tile blocking entity
//! covers, recomputed from its live position every tick and used to treat
//! such entities as dynamic obstacles distinct from static walls.

use vstd::prelude::*;

use crate::grid::GridCoords;
use vstd::arithmetic::div_mod::{lemma_fundamental_div_mod, lemma_fundamental_div_mod_converse,
    lemma_mod_division_less_than_divisor, lemma_div_pos_is_pos};

verus! {

/// A blocking entity's footprint: a `tile_width x tile_height` rectangle of
/// cells anchored at `position` (its lower-left cell).
#[derive(Clone, Copy, Debug, PartialEq, Eq, Structural)]
pub struct Collider {
    pub tile_width: i32,
    pub tile_height: i32,
    pub position: GridCoords,
}

impl Collider {
    /// A collider's extent is non-negative and its rectangle stays within the
    /// coordinate type.
    pub open spec fn wf(self) -> bool {
        &&& 0 <= self.tile_width
        &&& 0 <= self.tile_height
        &&& self.position.x + self.tile_width <= i32::MAX
        &&& self.position.y + self.tile_height <= i32::MAX
    }

    /// Whether `c` lies inside this collider's rectangle.
    pub open spec fn covers(self, c: GridCoords) -> bool {
        &&& self.position.x <= c.x < self.position.x + self.tile_width
        &&& self.position.y <= c.y < self.position.y + self.tile_height
    }

    /// The cell at offset `(i, j)` from the anchor (meaningful when the
    /// offsets lie inside the extent of a well-formed collider).
    pub open spec fn cell_at(self, i: int, j: int) -> GridCoords {
        GridCoords { x: (self.position.x + i) as i32, y: (self.position.y + j) as i32 }
    }

    pub fn new(tile_width: i32, tile_height: i32, position: GridCoords) -> (r: Self)
        ensures
            r == (Collider { tile_width, tile_height, position }),
    {
        Collider { tile_width, tile_height, position }
    }

    /// Whether `c` lies inside this collider's rectangle.
    pub fn occupies(&self, c: &GridCoords) -> (r: bool)
        ensures
            r == self.covers(*c),
    {
        self.position.x as i64 <= c.x as i64
            && (c.x as i64) < self.position.x as i64 + self.tile_width as i64
            && self.position.y as i64 <= c.y as i64
            && (c.y as i64) < self.position.y as i64 + self.tile_height as i64
    }

    /// Every cell of the collider's rectangle, row by row, each exactly once.
    pub fn get_occupied_coords(&self) -> (r: Vec<GridCoords>)
        requires
            self.wf(),
        ensures
            r@.len() == self.tile_width * self.tile_height,
            forall|i: int, j: int|
                0 <= i < self.tile_width && 0 <= j < self.tile_height ==> r@[i * self.tile_height
                    + j] == self.cell_at(i, j),
            forall|c: GridCoords| r@.contains(c) <==> self.covers(c),
            forall|k: int, l: int| 0 <= k < l < r@.len() ==> r@[k] != r@[l],
    {
        let th = self.tile_height;
        let mut occupied_coords: Vec<GridCoords> = Vec::new();
        let mut x: i32 = 0;
        while x < self.tile_width
            invariant
                self.wf(),
                th == self.tile_height,
                0 <= x <= self.tile_width,
                occupied_coords@.len() == x * th,
                forall|i: int, j: int|
                    0 <= i < x && 0 <= j < th ==> occupied_coords@[i * th + j] == self.cell_at(
                        i,
                        j,
                    ),
            decreases self.tile_width - x,
        {
            let mut y: i32 = 0;
            while y < th
                invariant
                    self.wf(),
                    th == self.tile_height,
                    0 <= x < self.tile_width,
                    0 <= y <= th,
                    occupied_coords@.len() == x * th + y,
                    forall|i: int, j: int|
                        0 <= i < x && 0 <= j < th ==> occupied_coords@[i * th + j] == self.cell_at(
                            i,
                            j,
                        ),
                    forall|j: int|
                        0 <= j < y ==> occupied_coords@[x * th + j] == self.cell_at(x as int, j),
                decreases th - y,
            {
                proof {
                    lemma_row_cells_bounded(x as int, y as int, th as int, self.tile_width as int);
                }
                occupied_coords.push(
                    GridCoords { x: self.position.x + x, y: self.position.y + y },
                );
                y = y + 1;
                proof {
                    assert forall|i: int, j: int| 0 <= i < x && 0 <= j < th implies occupied_coords@[i
                        * th + j] == self.cell_at(i, j) by {
                        lemma_row_cells_bounded(i, j, th as int, x as int);
                    }
                }
            }
            x = x + 1;
            proof {
                assert(x * th == (x - 1) * th + th) by (nonlinear_arith);
            }
        }
        proof {
            self.lemma_footprint_complete(occupied_coords@);
        }
        occupied_coords
    }
}

/// Bounds of the flat index of a cell inside a rectangle walked row by row:
/// the next push lands at index `x * th + y`, which is within `tw * th`.
proof fn lemma_row_cells_bounded(x: int, y: int, th: int, tw: int)
    requires
        0 <= x < tw,
        0 <= y < th,
    ensures
        0 <= x * th + y,
        x * th + y < tw * th,
        x * th + y + 1 <= tw * th,
{
    assert(0 <= x * th + y && x * th + y + 1 <= tw * th) by (nonlinear_arith)
        requires
            0 <= x < tw,
            0 <= y < th,
    ;
}

/// Decompose a flat index `k < tw * th` into its row `k / th` and column
/// `k % th`.
proof fn lemma_flat_index(tw: int, th: int, k: int)
    requires
        0 < th,
        0 <= k < tw * th,
    ensures
        0 <= k / th < tw,
        0 <= k % th < th,
        k == (k / th) * th + k % th,
{
    lemma_fundamental_div_mod(k, th);
    lemma_mod_division_less_than_divisor(k, th);
    lemma_div_pos_is_pos(k, th);
    assert(th * (k / th) == (k / th) * th) by (nonlinear_arith);
    assert(k == (k / th) * th + k % th);
    assert(k / th < tw) by (nonlinear_arith)
        requires
            0 < th,
            k < tw * th,
            k == (k / th) * th + k % th,
            0 <= k % th,
    ;
}

impl Collider {
    /// From the exact row-by-row layout, derive the footprint law: the
    /// rectangle's cells are listed exactly once each.
    proof fn lemma_footprint_complete(self, s: Seq<GridCoords>)
        requires
            self.wf(),
            s.len() == self.tile_width * self.tile_height,
            forall|i: int, j: int|
                0 <= i < self.tile_width && 0 <= j < self.tile_height ==> s[i * self.tile_height
                    + j] == self.cell_at(i, j),
        ensures
            forall|c: GridCoords| s.contains(c) <==> self.covers(c),
            forall|k: int, l: int| 0 <= k < l < s.len() ==> s[k] != s[l],
    {
        let tw = self.tile_width as int;
        let th = self.tile_height as int;
        if th == 0 {
            assert(s.len() == 0) by (nonlinear_arith)
                requires
                    s.len() == tw * th,
                    th == 0,
            ;
        } else {
            assert forall|k: int| 0 <= k < s.len() implies s[k] == self.cell_at(
                k / th,
                k % th,
            ) && self.covers(s[k]) by {
                lemma_flat_index(tw, th, k);
            }
            assert forall|c: GridCoords| s.contains(c) <==> self.covers(c) by {
                if self.covers(c) {
                    let i = c.x - self.position.x;
                    let j = c.y - self.position.y;
                    lemma_row_cells_bounded(i, j, th, tw);
                    assert(s[i * th + j] == self.cell_at(i, j));
                    assert(self.cell_at(i, j) == c);
                    assert(s.contains(c));
                }
                if s.contains(c) {
                    let k = choose|k: int| 0 <= k < s.len() && s[k] == c;
                    lemma_flat_index(tw, th, k);
                }
            }
            assert forall|k: int, l: int| 0 <= k < l < s.len() implies s[k] != s[l] by {
                lemma_flat_index(tw, th, k);
                lemma_flat_index(tw, th, l);
                if s[k] == s[l] {
                    assert(k / th == l / th && k % th == l % th);
                    lemma_fundamental_div_mod(k, th);
                    lemma_fundamental_div_mod(l, th);
                }
            }
        }
    }
}

impl Default for Collider {
    /// A single-cell collider at the origin.
    fn default() -> (r: Self)
        ensures
            r == (Collider { tile_width: 1, tile_height: 1, position: GridCoords { x: 0, y: 0 } }),
    {
        Collider { tile_width: 1, tile_height: 1, position: GridCoords { x: 0, y: 0 } }
    }
}

/// Recompute each collider's anchor from its entity's live coordinate, run
/// once per tick before movement resolution so footprints never go stale.
pub fn update_colliders(colliders: &Vec<Collider>, positions: &Vec<GridCoords>) -> (r: Vec<
    Collider,
>)
    requires
        colliders@.len() == positions@.len(),
    ensures
        r@.len() == colliders@.len(),
        forall|i: int|
            0 <= i < r@.len() ==> r@[i] == (Collider { position: positions@[i], ..colliders@[i] }),
{
    let mut updated: Vec<Collider> = Vec::new();
    let mut i: usize = 0;
    while i < colliders.len()
        invariant
            colliders@.len() == positions@.len(),
            0 <= i <= colliders@.len(),
            updated@.len() == i,
            forall|k: int|
                0 <= k < i ==> updated@[k] == (Collider {
                    position: positions@[k],
                    ..colliders@[k]
                }),
        decreases colliders@.len() - i,
    {
        updated.push(
            Collider {
                tile_width: colliders[i].tile_width,
                tile_height: colliders[i].tile_height,
                position: positions[i],
            },
        );
        i = i + 1;
    }
    updated
}

/// Whether the destination overlaps any collider of the list. The moving
/// entity's own collider must not be in the list: an entity does not check
/// collision against itself.
pub fn overlaps_any(colliders: &Vec<Collider>, destination: &GridCoords) -> (r: bool)
    ensures
        r == exists|i: int| 0 <= i < colliders@.len() && colliders@[i].covers(*destination),
{
    let mut i: usize = 0;
    while i < colliders.len()
        invariant
            0 <= i <= colliders@.len(),
            forall|k: int| 0 <= k < i ==> !colliders@[k].covers(*destination),
        decreases colliders@.len() - i,
    {
        if colliders[i].occupies(destination) {
            return true;
        }
        i = i + 1;
    }
    false
}

} // verus!
