//! The supporting types: health bookkeeping, the looping frame-index walk,
//! stairs, and the cursor's line-of-sight rays.

use gridturn::cursor::{cursor_ray_contains, CursorDirection};
use gridturn::grid::{stair_reached, GridCoords};
use gridturn::{Health, IndeciesIter};

fn gc(x: i32, y: i32) -> GridCoords {
    GridCoords { x, y }
}

#[test]
fn health_starts_full_and_takes_damage() {
    let mut health = Health::default();
    assert_eq!(health.current_health, 100);
    assert_eq!(health.max_health, 100);
    health.apply_damage(50);
    assert_eq!(health.current_health, 50);
    health.apply_damage(70);
    assert_eq!(health.current_health, -20, "overkill damage is recorded, not clamped");
    assert_eq!(health.max_health, 100);
    health.apply_damage(-10);
    assert_eq!(health.current_health, -10, "negative damage heals");
}

#[test]
fn frame_indices_loop_forever() {
    let mut frames = IndeciesIter::from(vec![2usize, 3, 4, 3]);
    assert_eq!(frames.nth, 0);
    let walked: Vec<usize> = (0..10).map(|_| frames.next().unwrap()).collect();
    assert_eq!(walked, vec![2, 3, 4, 3, 2, 3, 4, 3, 2, 3]);
}

#[test]
fn single_frame_animation_repeats_it() {
    let mut frames = IndeciesIter::from(vec![7usize]);
    for _ in 0..5 {
        assert_eq!(frames.next(), Some(7));
    }
}

#[test]
fn stairs_trigger_only_under_the_player() {
    let stairs = vec![gc(3, 3), gc(7, 1)];
    assert!(stair_reached(gc(3, 3), &stairs));
    assert!(stair_reached(gc(7, 1), &stairs));
    assert!(!stair_reached(gc(3, 4), &stairs));
    assert!(!stair_reached(gc(0, 0), &Vec::new()));
}

#[test]
fn orthogonal_rays_cover_half_lines() {
    let player = gc(2, 2);
    assert!(cursor_ray_contains(&CursorDirection::Up, player, gc(2, 5)));
    assert!(cursor_ray_contains(&CursorDirection::Up, player, gc(2, 2)));
    assert!(!cursor_ray_contains(&CursorDirection::Up, player, gc(2, 1)));
    assert!(!cursor_ray_contains(&CursorDirection::Up, player, gc(3, 5)));
    assert!(cursor_ray_contains(&CursorDirection::Down, player, gc(2, 0)));
    assert!(cursor_ray_contains(&CursorDirection::Left, player, gc(0, 2)));
    assert!(!cursor_ray_contains(&CursorDirection::Left, player, gc(3, 2)));
    assert!(cursor_ray_contains(&CursorDirection::Right, player, gc(4, 2)));
}

#[test]
fn diagonal_rays_cover_exact_diagonals() {
    let player = gc(2, 2);
    assert!(cursor_ray_contains(&CursorDirection::UpRight, player, gc(4, 4)));
    assert!(!cursor_ray_contains(&CursorDirection::UpRight, player, gc(4, 3)));
    assert!(cursor_ray_contains(&CursorDirection::UpLeft, player, gc(0, 4)));
    assert!(!cursor_ray_contains(&CursorDirection::UpLeft, player, gc(0, 3)));
    assert!(cursor_ray_contains(&CursorDirection::DownRight, player, gc(5, -1)));
    assert!(cursor_ray_contains(&CursorDirection::DownLeft, player, gc(0, 0)));
    assert!(!cursor_ray_contains(&CursorDirection::DownLeft, player, gc(1, 0)));
}

#[test]
fn undefined_cursor_direction_selects_nothing() {
    let player = gc(2, 2);
    for x in 0..5 {
        for y in 0..5 {
            assert!(!cursor_ray_contains(&CursorDirection::Undefined, player, gc(x, y)));
        }
    }
    assert_eq!(CursorDirection::default(), CursorDirection::Undefined);
}
