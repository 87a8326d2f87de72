//! The coordinate model, occupancy maps and collider footprints on concrete
//! values.

use gridturn::collider::Collider;
use gridturn::grid::{Direction, GridCoords};
use gridturn::level::{LevelFence, LevelFloor, LevelWalls};

fn gc(x: i32, y: i32) -> GridCoords {
    GridCoords { x, y }
}

#[test]
fn coordinate_arithmetic_is_componentwise() {
    let a = gc(3, -2);
    let b = gc(-1, 5);
    assert_eq!(a.add(b), gc(2, 3));
    assert_eq!(a.subtract(b), gc(4, -7));
    assert_eq!(a, gc(3, -2));
    assert_ne!(a, b);
}

#[test]
fn distances_match_hand_computed_values() {
    let a = gc(0, 0);
    let b = gc(3, -4);
    assert_eq!(a.distance_chebyshev(b), 4);
    assert_eq!(a.distance_manhattan(b), 7);
    assert_eq!(b.distance_chebyshev(a), 4);
    assert_eq!(a.distance_chebyshev(a), 0);
}

#[test]
fn direction_try_from_maps_the_four_cardinals() {
    assert_eq!(Direction::try_from(gc(0, 1)), Ok(Direction::Up));
    assert_eq!(Direction::try_from(gc(0, -1)), Ok(Direction::Down));
    assert_eq!(Direction::try_from(gc(-1, 0)), Ok(Direction::Left));
    assert_eq!(Direction::try_from(gc(1, 0)), Ok(Direction::Right));
    assert_eq!(Direction::try_from(gc(0, 0)), Err(()));
    assert_eq!(Direction::try_from(gc(1, 1)), Err(()));
    assert_eq!(Direction::default(), Direction::Down);
}

#[test]
fn boundary_coordinates_are_always_walls() {
    let walls = LevelWalls::new(Vec::new(), 4, 3);
    assert!(walls.in_wall(&gc(-1, 0)));
    assert!(walls.in_wall(&gc(0, -1)));
    assert!(walls.in_wall(&gc(4, 0)));
    assert!(walls.in_wall(&gc(0, 3)));
    assert!(walls.in_wall(&gc(-5, -5)));
    assert!(walls.in_wall(&gc(100, 100)));
    assert!(!walls.in_wall(&gc(0, 0)));
    assert!(!walls.in_wall(&gc(3, 2)));
}

#[test]
fn wall_set_membership_marks_interior_cells() {
    let walls = LevelWalls::new(vec![gc(1, 1), gc(2, 2)], 4, 4);
    assert!(walls.in_wall(&gc(1, 1)));
    assert!(walls.in_wall(&gc(2, 2)));
    assert!(!walls.in_wall(&gc(1, 2)));
    assert!(!walls.in_wall(&gc(0, 0)));
}

#[test]
fn floor_and_fence_maps_share_the_boundary_rule() {
    let floor = LevelFloor { floor_locations: vec![gc(1, 1)], level_width: 3, level_height: 3 };
    assert!(floor.in_floor(&gc(-1, 0)));
    assert!(floor.in_floor(&gc(1, 1)));
    assert!(!floor.in_floor(&gc(0, 0)));

    let fence = LevelFence { fence_locations: vec![gc(2, 0)], level_width: 3, level_height: 3 };
    assert!(fence.in_fence(&gc(3, 0)));
    assert!(fence.in_fence(&gc(2, 0)));
    assert!(!fence.in_fence(&gc(1, 0)));
}

#[test]
fn footprint_is_exactly_the_rectangle_each_cell_once() {
    let collider = Collider::new(2, 3, gc(5, -1));
    let cells = collider.get_occupied_coords();
    assert_eq!(cells.len(), 6);
    for x in 5..7 {
        for y in -1..2 {
            assert!(cells.contains(&gc(x, y)), "missing cell ({x}, {y})");
        }
    }
    for (i, a) in cells.iter().enumerate() {
        for b in cells.iter().skip(i + 1) {
            assert_ne!(a, b, "duplicate cell in footprint");
        }
    }
    assert!(!cells.contains(&gc(4, 0)));
    assert!(!cells.contains(&gc(7, 0)));
    assert!(!cells.contains(&gc(5, 2)));
}

#[test]
fn default_collider_is_a_single_cell_at_origin() {
    let collider = Collider::default();
    let cells = collider.get_occupied_coords();
    assert_eq!(cells, vec![gc(0, 0)]);
    assert!(collider.occupies(&gc(0, 0)));
    assert!(!collider.occupies(&gc(0, 1)));
}

#[test]
fn occupies_agrees_with_the_footprint() {
    let collider = Collider::new(3, 2, gc(-2, -2));
    let cells = collider.get_occupied_coords();
    for x in -4..3 {
        for y in -4..3 {
            let c = gc(x, y);
            assert_eq!(collider.occupies(&c), cells.contains(&c));
        }
    }
}

#[test]
fn update_colliders_moves_anchors_and_keeps_extents() {
    let colliders = vec![Collider::new(2, 2, gc(0, 0)), Collider::new(1, 3, gc(5, 5))];
    let positions = vec![gc(4, 4), gc(1, 0)];
    let updated = gridturn::collider::update_colliders(&colliders, &positions);
    assert_eq!(updated.len(), 2);
    assert_eq!(updated[0], Collider::new(2, 2, gc(4, 4)));
    assert_eq!(updated[1], Collider::new(1, 3, gc(1, 0)));
}

#[test]
fn zero_extent_collider_occupies_nothing() {
    let collider = Collider::new(0, 5, gc(1, 1));
    assert!(collider.get_occupied_coords().is_empty());
    assert!(!collider.occupies(&gc(1, 1)));
}
