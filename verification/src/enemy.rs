//! Enemy behavior: the per-tick range check that flips an enemy between
//! idling and pursuing, the random-walk idle policy, and the
//! pathfinder-driven pursuit policy. Awareness (the range check) runs every
//! tick; movement runs only on a turn-over event, so an enemy always observes
//! the player's post-step coordinate.

use vstd::prelude::*;

use crate::events::CombatEvent;
use crate::grid::{chebyshev, delta_in_range, dest_of, zero_delta, GridCoords};
use crate::level::{locations_contain, LevelWalls};
use crate::search::{adjacent8, connects, next_step_delta, open_cell, reachable, valid_step,
    GridPosition};

verus! {

/// Both axis distances below this put an enemy in pursuit of the player.
pub const PURSUIT_RANGE: i32 = 5;

/// The movement mode of an enemy. `Fleeing` and `Patrolling` are designed but
/// not implemented: reaching them is reported explicitly, never silently
/// treated as idling.
#[derive(Clone, Copy, Debug, PartialEq, Eq, Structural)]
pub enum EnemyBehaviorState {
    Idle,
    Fleeing,
    Pursuing,
    Patrolling,
}

impl Default for EnemyBehaviorState {
    /// Enemies spawn idle.
    fn default() -> (r: Self)
        ensures
            r == EnemyBehaviorState::Idle,
    {
        EnemyBehaviorState::Idle
    }
}

/// An enemy's simulation component: its current movement mode.
#[derive(Clone, Copy, Debug, PartialEq, Eq, Structural)]
pub struct Enemy {
    pub behavior_state: EnemyBehaviorState,
}

impl Default for Enemy {
    fn default() -> (r: Self)
        ensures
            r == (Enemy { behavior_state: EnemyBehaviorState::Idle }),
    {
        Enemy { behavior_state: EnemyBehaviorState::Idle }
    }
}

/// A movement request that cannot be served.
#[derive(Clone, Copy, Debug, PartialEq, Eq, Structural)]
pub enum EnemyMoveError {
    /// The enemy is in a behavior mode whose movement policy is not
    /// implemented yet (`Fleeing`, `Patrolling`).
    UnsupportedBehavior,
}

/// Relies on `rand::Rng::gen_range` over the thread-local generator: the draw
/// lies in the requested `-1..=1` range. Which value comes back is chance.
#[verifier::external_body]
fn random_step_component() -> (r: i32)
    ensures
        -1 <= r <= 1,
{
    rand::Rng::gen_range(&mut rand::thread_rng(), -1..=1)
}

/// Idle movement policy: draw a uniformly random delta from `{-1,0,1}^2` and
/// keep it if its destination is open (not a wall, not occupied). The null
/// move is always valid; after a bounded number of rejected draws it is the
/// fallback.
pub fn idle_step(
    enemy_pos: GridCoords,
    level_walls: &LevelWalls,
    occupied_coords: &Vec<GridCoords>,
) -> (r: GridCoords)
    ensures
        -1 <= r.x <= 1 && -1 <= r.y <= 1,
        r != zero_delta() ==> delta_in_range(enemy_pos, r) && valid_step(
            *level_walls,
            occupied_coords@,
            enemy_pos,
            dest_of(enemy_pos, r),
        ),
{
    let mut attempts: u32 = 0;
    while attempts < 16
        decreases 16 - attempts,
    {
        let dx = random_step_component();
        let dy = random_step_component();
        if dx == 0 && dy == 0 {
            return GridCoords { x: 0, y: 0 };
        }
        let nx = enemy_pos.x as i64 + dx as i64;
        let ny = enemy_pos.y as i64 + dy as i64;
        if i32::MIN as i64 <= nx && nx <= i32::MAX as i64 && i32::MIN as i64 <= ny && ny
            <= i32::MAX as i64 {
            let nc = GridCoords { x: nx as i32, y: ny as i32 };
            if !level_walls.in_wall(&nc) && !locations_contain(occupied_coords, nc) {
                return GridCoords { x: dx, y: dy };
            }
        }
        attempts = attempts + 1;
    }
    GridCoords { x: 0, y: 0 }
}

/// What the pursuit policy promises of its delta: a zero delta stands for "no
/// route, or the player is already adjacent" (engage at range); a nonzero
/// delta is the step onto the second cell of an actual route to the player.
pub open spec fn pursuit_step_ok(
    walls: LevelWalls,
    occupied: Seq<GridCoords>,
    enemy: GridCoords,
    player: GridCoords,
    d: GridCoords,
) -> bool {
    if d == zero_delta() {
        !reachable(walls, occupied, enemy, player) || exists|p: Seq<GridCoords>|
            connects(walls, occupied, p, enemy, player) && p.len() < 3
    } else {
        exists|p: Seq<GridCoords>|
            connects(walls, occupied, p, enemy, player) && p.len() >= 3 && p[1] == dest_of(
                enemy,
                d,
            )
    }
}

impl Enemy {
    /// The enemy's movement delta for this turn. Idle enemies wander randomly
    /// onto an open neighbor cell or stay put; pursuing enemies pathfind
    /// toward the player around walls and the other enemies' occupied cells,
    /// stopping one step short of the player. Fleeing and patrolling are not
    /// implemented and are reported as such.
    pub fn move_towards_player(
        &self,
        player_pos: &GridCoords,
        enemy_pos: &GridCoords,
        level_walls: &LevelWalls,
        occupied_coords: &Vec<GridCoords>,
    ) -> (r: Result<GridCoords, EnemyMoveError>)
        ensures
            r is Err <==> (self.behavior_state == EnemyBehaviorState::Fleeing
                || self.behavior_state == EnemyBehaviorState::Patrolling),
            match r {
                Ok(d) => {
                    &&& -1 <= d.x <= 1 && -1 <= d.y <= 1
                    &&& d != zero_delta() ==> delta_in_range(*enemy_pos, d) && valid_step(
                        *level_walls,
                        occupied_coords@,
                        *enemy_pos,
                        dest_of(*enemy_pos, d),
                    )
                    &&& self.behavior_state == EnemyBehaviorState::Pursuing ==> pursuit_step_ok(
                        *level_walls,
                        occupied_coords@,
                        *enemy_pos,
                        *player_pos,
                        d,
                    )
                    &&& (self.behavior_state == EnemyBehaviorState::Pursuing && reachable(
                        *level_walls,
                        occupied_coords@,
                        *enemy_pos,
                        *player_pos,
                    ) && !adjacent8(*enemy_pos, *player_pos) && *enemy_pos != *player_pos)
                        ==> d != zero_delta()
                    &&& (self.behavior_state == EnemyBehaviorState::Pursuing && (adjacent8(
                        *enemy_pos,
                        *player_pos,
                    ) || *enemy_pos == *player_pos)) ==> d == zero_delta()
                },
                Err(e) => e == EnemyMoveError::UnsupportedBehavior,
            },
    {
        match self.behavior_state {
            EnemyBehaviorState::Idle => Ok(idle_step(*enemy_pos, level_walls, occupied_coords)),
            EnemyBehaviorState::Fleeing => Err(EnemyMoveError::UnsupportedBehavior),
            EnemyBehaviorState::Patrolling => Err(EnemyMoveError::UnsupportedBehavior),
            EnemyBehaviorState::Pursuing => {
                let start_pos = GridPosition::new(*enemy_pos);
                let path = start_pos.pathfind(*player_pos, level_walls, Some(occupied_coords));
                match path {
                    Some(p) => {
                        proof {
                            if p@.len() >= 3 {
                                assert(valid_step(
                                    *level_walls,
                                    occupied_coords@,
                                    p@[0],
                                    p@[1],
                                ));
                            }
                            // A route to a non-adjacent, distinct player has
                            // at least three cells, so the policy moves.
                            if !adjacent8(*enemy_pos, *player_pos) && *enemy_pos != *player_pos {
                                if p@.len() == 2 {
                                    assert(valid_step(
                                        *level_walls,
                                        occupied_coords@,
                                        p@[0],
                                        p@[1],
                                    ));
                                }
                                assert(p@.len() >= 3);
                            }
                            // An adjacent player is engaged at range: the
                            // route is the two-cell one, so the policy holds.
                            if adjacent8(*enemy_pos, *player_pos) {
                                if p@.len() >= 2 {
                                    assert(valid_step(
                                        *level_walls,
                                        occupied_coords@,
                                        p@[p@.len() - 2],
                                        p@[p@.len() - 1],
                                    ));
                                    assert(open_cell(*level_walls, occupied_coords@, *player_pos));
                                    assert(p@.len() == 2);
                                } else {
                                    assert(p@[0] == *enemy_pos && p@[0] == *player_pos);
                                    assert(false);
                                }
                            }
                        }
                        let d = next_step_delta(&p);
                        proof {
                            if p@.len() >= 3 {
                                assert(adjacent8(p@[0], p@[1]));
                                assert(d != zero_delta());
                                assert(dest_of(*enemy_pos, d) == p@[1]);
                            }
                        }
                        Ok(d)
                    },
                    None => Ok(GridCoords { x: 0, y: 0 }),
                }
            },
        }
    }
}

/// One enemy reaction to a player turn: compute the enemy's movement delta
/// for its current behavior and commit it unless the destination is a wall.
/// Returns the enemy's next coordinate.
pub fn enemy_turn(
    enemy: &Enemy,
    enemy_pos: GridCoords,
    player_pos: GridCoords,
    level_walls: &LevelWalls,
    occupied_coords: &Vec<GridCoords>,
) -> (r: Result<GridCoords, EnemyMoveError>)
    ensures
        r is Err <==> (enemy.behavior_state == EnemyBehaviorState::Fleeing
            || enemy.behavior_state == EnemyBehaviorState::Patrolling),
        match r {
            Ok(p2) => {
                &&& p2 == enemy_pos || (adjacent8(enemy_pos, p2) && open_cell(
                    *level_walls,
                    occupied_coords@,
                    p2,
                ))
                &&& (enemy.behavior_state == EnemyBehaviorState::Pursuing && p2 != enemy_pos)
                    ==> exists|p: Seq<GridCoords>|
                    connects(*level_walls, occupied_coords@, p, enemy_pos, player_pos) && p.len()
                        >= 3 && p[1] == p2
                &&& (enemy.behavior_state == EnemyBehaviorState::Pursuing && reachable(
                    *level_walls,
                    occupied_coords@,
                    enemy_pos,
                    player_pos,
                ) && !adjacent8(enemy_pos, player_pos) && enemy_pos != player_pos) ==> p2
                    != enemy_pos
                &&& (enemy.behavior_state == EnemyBehaviorState::Pursuing && (adjacent8(
                    enemy_pos,
                    player_pos,
                ) || enemy_pos == player_pos)) ==> p2 == enemy_pos
            },
            Err(e) => e == EnemyMoveError::UnsupportedBehavior,
        },
{
    let direction = match enemy.move_towards_player(
        &player_pos,
        &enemy_pos,
        level_walls,
        occupied_coords,
    ) {
        Ok(d) => d,
        Err(e) => {
            return Err(e);
        },
    };
    if direction.x == 0 && direction.y == 0 {
        return Ok(enemy_pos);
    }
    let destination = GridCoords { x: enemy_pos.x + direction.x, y: enemy_pos.y + direction.y };
    if !level_walls.in_wall(&destination) {
        Ok(destination)
    } else {
        Ok(enemy_pos)
    }
}

/// The behavior mode a range check against the player selects: pursuit when
/// both axis distances are within `PURSUIT_RANGE`, idling otherwise.
pub fn behavior_for(player_pos: GridCoords, enemy_pos: GridCoords) -> (r: EnemyBehaviorState)
    ensures
        r == (if chebyshev(player_pos, enemy_pos) < PURSUIT_RANGE {
            EnemyBehaviorState::Pursuing
        } else {
            EnemyBehaviorState::Idle
        }),
{
    let dist = player_pos.distance_chebyshev(enemy_pos);
    if dist < PURSUIT_RANGE as u64 {
        EnemyBehaviorState::Pursuing
    } else {
        EnemyBehaviorState::Idle
    }
}

/// Recompute every enemy's behavior from its range to the player — run each
/// tick, independently of the turn timer — and report whether any enemy is in
/// pursuit range (the combat flag).
pub fn player_enemy_range_detection(
    player_pos: GridCoords,
    enemy_positions: &Vec<GridCoords>,
) -> (r: (Vec<Enemy>, CombatEvent))
    ensures
        r.0@.len() == enemy_positions@.len(),
        forall|i: int|
            0 <= i < r.0@.len() ==> r.0@[i].behavior_state == (if chebyshev(
                player_pos,
                enemy_positions@[i],
            ) < PURSUIT_RANGE {
                EnemyBehaviorState::Pursuing
            } else {
                EnemyBehaviorState::Idle
            }),
        r.1.0 == exists|i: int|
            0 <= i < enemy_positions@.len() && chebyshev(player_pos, enemy_positions@[i])
                < PURSUIT_RANGE,
{
    let mut enemies: Vec<Enemy> = Vec::new();
    let mut is_in_combat = false;
    let mut i: usize = 0;
    while i < enemy_positions.len()
        invariant
            0 <= i <= enemy_positions@.len(),
            enemies@.len() == i,
            forall|k: int|
                0 <= k < i ==> enemies@[k].behavior_state == (if chebyshev(
                    player_pos,
                    enemy_positions@[k],
                ) < PURSUIT_RANGE {
                    EnemyBehaviorState::Pursuing
                } else {
                    EnemyBehaviorState::Idle
                }),
            is_in_combat == exists|k: int|
                0 <= k < i && chebyshev(player_pos, enemy_positions@[k]) < PURSUIT_RANGE,
        decreases enemy_positions@.len() - i,
    {
        let state = behavior_for(player_pos, enemy_positions[i]);
        if state == EnemyBehaviorState::Pursuing {
            is_in_combat = true;
        }
        enemies.push(Enemy { behavior_state: state });
        i = i + 1;
    }
    (enemies, CombatEvent(is_in_combat))
}

/// The first enemy standing on `cell`, as an index into `positions` — the
/// targeting rule of an ability cast: it needs an enemy under the cursor.
pub fn enemy_at(positions: &Vec<GridCoords>, cell: GridCoords) -> (r: Option<usize>)
    ensures
        match r {
            Some(i) => i < positions@.len() && positions@[i as int] == cell && forall|k: int|
                0 <= k < i ==> positions@[k] != cell,
            None => !positions@.contains(cell),
        },
{
    let mut i: usize = 0;
    while i < positions.len()
        invariant
            0 <= i <= positions@.len(),
            forall|k: int| 0 <= k < i ==> positions@[k] != cell,
        decreases positions@.len() - i,
    {
        if positions[i].x == cell.x && positions[i].y == cell.y {
            return Some(i);
        }
        i = i + 1;
    }
    None
}

/// How close an enemy must stand to strike.
#[derive(Clone, Copy, Debug, PartialEq, Eq, Structural)]
pub struct AttackRange(pub i32);

impl Default for AttackRange {
    /// Melee enemies strike from an adjacent cell.
    fn default() -> (r: Self)
        ensures
            r == AttackRange(1),
    {
        AttackRange(1)
    }
}

impl AttackRange {
    /// Whether the enemy stands close enough to the player to strike: both
    /// axis distances within the range.
    pub fn in_range(&self, player_pos: GridCoords, enemy_pos: GridCoords) -> (r: bool)
        ensures
            r == (chebyshev(player_pos, enemy_pos) <= self.0),
    {
        if self.0 < 0 {
            return false;
        }
        let dist = player_pos.distance_chebyshev(enemy_pos);
        dist <= self.0 as u64
    }
}

} // verus!
