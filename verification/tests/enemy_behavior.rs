//! Enemy behavior: range detection, pursuit stepping, the random idle walk,
//! and the unimplemented modes failing loudly.

use gridturn::enemy::{
    behavior_for, enemy_turn, idle_step, player_enemy_range_detection, AttackRange, Enemy,
    EnemyBehaviorState, EnemyMoveError,
};
use gridturn::grid::GridCoords;
use gridturn::level::LevelWalls;

fn gc(x: i32, y: i32) -> GridCoords {
    GridCoords { x, y }
}

fn open_level(width: i32, height: i32) -> LevelWalls {
    LevelWalls::new(Vec::new(), width, height)
}

#[test]
fn pursuit_scenario_steps_toward_the_player() {
    // Enemy at (0, 0), player at (3, 0), threshold 5: the enemy pursues and
    // its first step is (1, 0).
    let walls = open_level(10, 10);
    assert_eq!(behavior_for(gc(3, 0), gc(0, 0)), EnemyBehaviorState::Pursuing);

    let enemy = Enemy { behavior_state: EnemyBehaviorState::Pursuing };
    let occupied = Vec::new();
    let delta = enemy
        .move_towards_player(&gc(3, 0), &gc(0, 0), &walls, &occupied)
        .expect("pursuit is implemented");
    assert_eq!(delta, gc(1, 0));

    let next = enemy_turn(&enemy, gc(0, 0), gc(3, 0), &walls, &occupied).unwrap();
    assert_eq!(next, gc(1, 0));
}

#[test]
fn range_detection_uses_both_axes_and_reports_combat() {
    let positions = vec![gc(0, 0), gc(10, 10), gc(4, 4), gc(5, 0)];
    let (enemies, combat) = player_enemy_range_detection(gc(0, 0), &positions);
    assert_eq!(enemies.len(), 4);
    assert_eq!(enemies[0].behavior_state, EnemyBehaviorState::Pursuing);
    assert_eq!(enemies[1].behavior_state, EnemyBehaviorState::Idle);
    assert_eq!(enemies[2].behavior_state, EnemyBehaviorState::Pursuing);
    assert_eq!(enemies[3].behavior_state, EnemyBehaviorState::Idle, "distance 5 is out of range");
    assert!(combat.0);

    let (far, quiet) = player_enemy_range_detection(gc(0, 0), &vec![gc(7, 0), gc(0, -9)]);
    assert!(far.iter().all(|e| e.behavior_state == EnemyBehaviorState::Idle));
    assert!(!quiet.0);
}

#[test]
fn adjacent_player_is_engaged_at_range_not_stepped_on() {
    let walls = open_level(5, 5);
    let enemy = Enemy { behavior_state: EnemyBehaviorState::Pursuing };
    let occupied = Vec::new();
    let delta = enemy.move_towards_player(&gc(1, 1), &gc(0, 0), &walls, &occupied).unwrap();
    assert_eq!(delta, gc(0, 0), "one cell apart: hold position");
    let next = enemy_turn(&enemy, gc(0, 0), gc(1, 1), &walls, &occupied).unwrap();
    assert_eq!(next, gc(0, 0));
}

#[test]
fn unreachable_player_stops_the_pursuer() {
    // The player sits in a sealed chamber.
    let mut wall_cells = Vec::new();
    for x in 1..4 {
        for y in 1..4 {
            if (x, y) != (2, 2) {
                wall_cells.push(gc(x, y));
            }
        }
    }
    let walls = LevelWalls::new(wall_cells, 6, 6);
    let enemy = Enemy { behavior_state: EnemyBehaviorState::Pursuing };
    let delta = enemy.move_towards_player(&gc(2, 2), &gc(5, 5), &walls, &Vec::new()).unwrap();
    assert_eq!(delta, gc(0, 0));
}

#[test]
fn pursuit_detours_around_other_enemies() {
    // A corridor one cell high: a blocking enemy in between forces no-path.
    let walls = LevelWalls::new(Vec::new(), 5, 1);
    let enemy = Enemy { behavior_state: EnemyBehaviorState::Pursuing };
    let occupied = vec![gc(2, 0)];
    let delta = enemy.move_towards_player(&gc(4, 0), &gc(0, 0), &walls, &occupied).unwrap();
    assert_eq!(delta, gc(0, 0), "the only corridor cell is occupied");

    // With a second row the enemy can slip around: it moves, and never onto
    // the blocker.
    let wide = LevelWalls::new(Vec::new(), 5, 2);
    let delta = enemy.move_towards_player(&gc(4, 0), &gc(0, 0), &wide, &occupied).unwrap();
    assert_ne!(delta, gc(0, 0), "a detour exists, the enemy must move");
    let dest = gc(delta.x, delta.y);
    assert!(!occupied.contains(&dest), "first step onto the blocker at {dest:?}");
    assert!(!wide.in_wall(&dest));
}

#[test]
fn unimplemented_behaviors_fail_loudly() {
    let walls = open_level(3, 3);
    let fleeing = Enemy { behavior_state: EnemyBehaviorState::Fleeing };
    assert_eq!(
        fleeing.move_towards_player(&gc(1, 1), &gc(0, 0), &walls, &Vec::new()),
        Err(EnemyMoveError::UnsupportedBehavior)
    );
    let patrolling = Enemy { behavior_state: EnemyBehaviorState::Patrolling };
    assert_eq!(
        enemy_turn(&patrolling, gc(0, 0), gc(1, 1), &walls, &Vec::new()),
        Err(EnemyMoveError::UnsupportedBehavior)
    );
}

#[test]
fn idle_walk_only_lands_on_open_neighbors() {
    let walls = LevelWalls::new(vec![gc(1, 0), gc(0, 1)], 3, 3);
    let occupied = vec![gc(1, 1)];
    for _ in 0..200 {
        let delta = idle_step(gc(0, 0), &walls, &occupied);
        assert!((-1..=1).contains(&delta.x) && (-1..=1).contains(&delta.y));
        if delta != gc(0, 0) {
            let dest = gc(delta.x, delta.y);
            assert!(!walls.in_wall(&dest), "idle walk stepped into a wall at {dest:?}");
            assert!(!occupied.contains(&dest), "idle walk stepped onto an occupied cell");
        }
    }
}

#[test]
fn idle_walk_eventually_moves_on_an_open_field() {
    let walls = open_level(20, 20);
    let occupied = Vec::new();
    let moved = (0..200).any(|_| idle_step(gc(10, 10), &walls, &occupied) != gc(0, 0));
    assert!(moved, "200 uniform draws from a fully open neighborhood never moved");
}

#[test]
fn boxed_in_idler_stays_put() {
    // Every neighbor of (1, 1) is a wall: only the null move remains.
    let mut wall_cells = Vec::new();
    for x in 0..3 {
        for y in 0..3 {
            if (x, y) != (1, 1) {
                wall_cells.push(gc(x, y));
            }
        }
    }
    let walls = LevelWalls::new(wall_cells, 3, 3);
    for _ in 0..50 {
        assert_eq!(idle_step(gc(1, 1), &walls, &Vec::new()), gc(0, 0));
    }
}

#[test]
fn idle_enemy_turn_commits_only_valid_moves() {
    let walls = open_level(5, 5);
    let enemy = Enemy::default();
    assert_eq!(enemy.behavior_state, EnemyBehaviorState::Idle);
    for _ in 0..100 {
        let next = enemy_turn(&enemy, gc(2, 2), gc(4, 4), &walls, &Vec::new()).unwrap();
        assert!(!walls.in_wall(&next));
        assert!((next.x - 2).abs() <= 1 && (next.y - 2).abs() <= 1);
    }
}

#[test]
fn cast_targeting_finds_the_first_enemy_under_the_cursor() {
    let positions = vec![gc(1, 1), gc(3, 2), gc(3, 2)];
    assert_eq!(gridturn::enemy::enemy_at(&positions, gc(3, 2)), Some(1));
    assert_eq!(gridturn::enemy::enemy_at(&positions, gc(1, 1)), Some(0));
    assert_eq!(gridturn::enemy::enemy_at(&positions, gc(0, 0)), None);
    assert_eq!(gridturn::enemy::enemy_at(&Vec::new(), gc(0, 0)), None);
}

#[test]
fn attack_range_is_a_chebyshev_check() {
    let range = AttackRange::default();
    assert_eq!(range, AttackRange(1));
    assert!(range.in_range(gc(0, 0), gc(1, 1)));
    assert!(range.in_range(gc(0, 0), gc(0, 0)));
    assert!(!range.in_range(gc(0, 0), gc(2, 1)));
    let long = AttackRange(3);
    assert!(long.in_range(gc(0, 0), gc(-3, 2)));
    assert!(!long.in_range(gc(0, 0), gc(4, 0)));
}
