//! The turn/action-timer state machine. It gates the player's discrete steps:
//! the first step off `Idle` resolves immediately (and resets the timer so it
//! cannot double), repeated steps resolve once per timer period, and `Combat`
//! suspends movement resolution entirely. Every resolved step emits a
//! `TurnOver` event for the enemy systems.

use vstd::prelude::*;

use crate::collider::{overlaps_any, Collider};
use crate::events::TurnOver;
use crate::grid::{delta_in_range, dest_of, spec_direction_of, Direction, GridCoords};
use crate::level::LevelWalls;
use vstd::arithmetic::div_mod::{lemma_fundamental_div_mod, lemma_fundamental_div_mod_converse,
    lemma_mod_division_less_than_divisor};

verus! {

/// What the player is currently doing. `Combat` suspends movement until the
/// cast resolves.
#[derive(Clone, Copy, Debug, PartialEq, Eq, Structural)]
pub enum PlayerAction {
    Idle,
    Walking,
    Combat,
}

impl Default for PlayerAction {
    /// Actors start out idle.
    fn default() -> (r: Self)
        ensures
            r == PlayerAction::Idle,
    {
        PlayerAction::Idle
    }
}

/// A repeating countdown of `duration` time units; `elapsed` time units of
/// the current period have passed.
#[derive(Clone, Copy, Debug, PartialEq, Eq, Structural)]
pub struct ActionTimer {
    pub duration: u64,
    pub elapsed: u64,
}

/// The timer after one tick of `delta` time units, and whether a period
/// expired during that tick.
pub open spec fn spec_tick_timer(t: ActionTimer, delta: u64) -> (ActionTimer, bool) {
    (
        ActionTimer {
            duration: t.duration,
            elapsed: ((t.elapsed + delta) % (t.duration as int)) as u64,
        },
        t.elapsed + delta >= t.duration,
    )
}

impl ActionTimer {
    /// The period is positive and the elapsed part never reaches it.
    pub open spec fn wf(self) -> bool {
        1 <= self.duration && self.elapsed < self.duration
    }

    pub fn new(duration: u64) -> (r: Self)
        requires
            duration >= 1,
        ensures
            r == (ActionTimer { duration, elapsed: 0 }),
    {
        ActionTimer { duration, elapsed: 0 }
    }

    /// Advance the timer by `delta` time units, wrapping into the next period,
    /// and report whether a period expired during this tick.
    pub fn tick(&mut self, delta: u64) -> (finished: bool)
        requires
            old(self).wf(),
            delta <= u64::MAX - old(self).duration,
        ensures
            final(self).wf(),
            (*final(self), finished) == spec_tick_timer(*old(self), delta),
    {
        let sum = self.elapsed + delta;
        if sum >= self.duration {
            self.elapsed = sum % self.duration;
            true
        } else {
            proof {
                lemma_fundamental_div_mod_converse(sum as int, self.duration as int, 0, sum as int);
            }
            self.elapsed = sum;
            false
        }
    }

    /// Start the current period over.
    pub fn reset(&mut self)
        ensures
            *final(self) == (ActionTimer { duration: old(self).duration, elapsed: 0 }),
    {
        self.elapsed = 0;
    }
}

/// The player's simulation state: current cell, facing, action, and the
/// action timer that throttles repeated steps.
#[derive(Clone, Copy, Debug, PartialEq, Eq, Structural)]
pub struct PlayerState {
    pub position: GridCoords,
    pub facing: Direction,
    pub action: PlayerAction,
    pub timer: ActionTimer,
}

impl PlayerState {
    pub open spec fn wf(self) -> bool {
        self.timer.wf()
    }

    /// A freshly spawned player: idle, facing down, with a full timer period
    /// ahead.
    pub fn new(position: GridCoords, timer_duration: u64) -> (r: Self)
        requires
            timer_duration >= 1,
        ensures
            r == (PlayerState {
                position,
                facing: Direction::Down,
                action: PlayerAction::Idle,
                timer: ActionTimer { duration: timer_duration, elapsed: 0 },
            }),
            r.wf(),
    {
        PlayerState {
            position,
            facing: Direction::Down,
            action: PlayerAction::Idle,
            timer: ActionTimer::new(timer_duration),
        }
    }
}

/// Whether a step from `pos` by `delta` must be rejected: the destination
/// leaves the coordinate type, is a wall, or overlaps a collider footprint.
pub open spec fn step_blocked(
    walls: LevelWalls,
    colliders: Seq<Collider>,
    pos: GridCoords,
    delta: GridCoords,
) -> bool {
    ||| !delta_in_range(pos, delta)
    ||| walls.spec_in_wall(dest_of(pos, delta))
    ||| exists|i: int| 0 <= i < colliders.len() && colliders[i].covers(dest_of(pos, delta))
}

/// One tick of the player's turn machine, with the blockedness of the
/// intended destination abstracted into `blocked`. Returns the next state and
/// the emitted event.
///
/// - `Combat` only ticks the timer.
/// - `Idle` with a cardinal intent resolves a step immediately and resets the
///   timer, so the step after it cannot fire early.
/// - `Walking` resolves one step per expired timer period while intent lasts,
///   and falls back to `Idle` (announcing it once) when intent stops.
pub open spec fn spec_update(
    s: PlayerState,
    intent: GridCoords,
    delta_time: u64,
    blocked: bool,
) -> (PlayerState, Option<TurnOver>) {
    let tr = spec_tick_timer(s.timer, delta_time);
    match s.action {
        PlayerAction::Combat => (PlayerState { timer: tr.0, ..s }, None),
        PlayerAction::Idle => match spec_direction_of(intent) {
            None => (PlayerState { timer: tr.0, ..s }, None),
            Some(d) => (
                PlayerState {
                    position: if blocked {
                        s.position
                    } else {
                        dest_of(s.position, intent)
                    },
                    facing: d,
                    action: PlayerAction::Walking,
                    timer: ActionTimer { duration: s.timer.duration, elapsed: 0 },
                },
                Some(TurnOver(PlayerAction::Walking)),
            ),
        },
        PlayerAction::Walking => if !tr.1 {
            (PlayerState { timer: tr.0, ..s }, None)
        } else {
            match spec_direction_of(intent) {
                Some(d) => (
                    PlayerState {
                        position: if blocked {
                            s.position
                        } else {
                            dest_of(s.position, intent)
                        },
                        facing: d,
                        action: PlayerAction::Walking,
                        timer: tr.0,
                    },
                    Some(TurnOver(PlayerAction::Walking)),
                ),
                None => (
                    PlayerState { action: PlayerAction::Idle, timer: tr.0, ..s },
                    Some(TurnOver(PlayerAction::Idle)),
                ),
            }
        },
    }
}

/// Whether a step from `pos` by `delta` hits a wall or a collider footprint.
fn step_is_blocked(
    pos: GridCoords,
    delta: GridCoords,
    level_walls: &LevelWalls,
    colliders: &Vec<Collider>,
) -> (r: bool)
    ensures
        r == step_blocked(*level_walls, colliders@, pos, delta),
{
    let nx = pos.x as i64 + delta.x as i64;
    let ny = pos.y as i64 + delta.y as i64;
    if nx < i32::MIN as i64 || nx > i32::MAX as i64 || ny < i32::MIN as i64 || ny
        > i32::MAX as i64 {
        return true;
    }
    let destination = GridCoords { x: nx as i32, y: ny as i32 };
    level_walls.in_wall(&destination) || overlaps_any(colliders, &destination)
}

/// Resolve one fixed-timestep tick of the player's movement: sample the
/// latest intent, tick the action timer, commit at most one step, and emit
/// the turn-over event dependent systems key off.
///
/// A step is committed only when its destination is neither a wall nor inside
/// another entity's collider footprint; a rejected step still resolves (the
/// player turns and the turn-over event fires), but the coordinate stays.
pub fn update_player_position(
    player: &mut PlayerState,
    intent: GridCoords,
    delta_time: u64,
    level_walls: &LevelWalls,
    colliders: &Vec<Collider>,
) -> (turn_over: Option<TurnOver>)
    requires
        old(player).wf(),
        delta_time <= u64::MAX - old(player).timer.duration,
    ensures
        final(player).wf(),
        ({
            let su = spec_update(
                *old(player),
                intent,
                delta_time,
                step_blocked(*level_walls, colliders@, old(player).position, intent),
            );
            *final(player) == su.0 && turn_over == su.1
        }),
{
    let finished = player.timer.tick(delta_time);

    if player.action == PlayerAction::Combat {
        return None;
    }

    if player.action == PlayerAction::Idle {
        match Direction::try_from(intent) {
            Err(_) => {
                return None;
            },
            Ok(d) => {
                player.facing = d;
                player.action = PlayerAction::Walking;
                if !step_is_blocked(player.position, intent, level_walls, colliders) {
                    player.position = GridCoords {
                        x: player.position.x + intent.x,
                        y: player.position.y + intent.y,
                    };
                }
                player.timer.reset();
                return Some(TurnOver(PlayerAction::Walking));
            },
        }
    }

    if finished {
        match Direction::try_from(intent) {
            Ok(d) => {
                player.facing = d;
                player.action = PlayerAction::Walking;
                if !step_is_blocked(player.position, intent, level_walls, colliders) {
                    player.position = GridCoords {
                        x: player.position.x + intent.x,
                        y: player.position.y + intent.y,
                    };
                }
                Some(TurnOver(PlayerAction::Walking))
            },
            Err(_) => {
                player.action = PlayerAction::Idle;
                Some(TurnOver(PlayerAction::Idle))
            },
        }
    } else {
        None
    }
}

/// Enter combat (an ability cast begins): movement resolution is suspended
/// until combat ends. Any in-flight walking is cancelled. The action timer is
/// deliberately left running across the transition, so leaving combat does
/// not grant an early step.
pub fn trigger_combat(player: &mut PlayerState)
    ensures
        *final(player) == (PlayerState { action: PlayerAction::Combat, ..*old(player) }),
{
    player.action = PlayerAction::Combat;
}

/// Leave combat (the cast resolved): the player returns to idle, and the
/// next movement intent resolves a step immediately again. The timer keeps
/// its count, matching `trigger_combat`.
pub fn end_combat(player: &mut PlayerState)
    ensures
        *final(player) == (PlayerState { action: PlayerAction::Idle, ..*old(player) }),
{
    player.action = PlayerAction::Idle;
}

/// Occupancy rejection: a destination that coincides with another actor's
/// collider footprint is never committed, even when it is not a wall — the
/// machine resolves the turn but keeps the coordinate.
pub proof fn lemma_occupancy_rejection(
    s: PlayerState,
    intent: GridCoords,
    delta_time: u64,
    walls: LevelWalls,
    colliders: Seq<Collider>,
)
    requires
        exists|i: int|
            0 <= i < colliders.len() && colliders[i].covers(dest_of(s.position, intent)),
    ensures
        spec_update(
            s,
            intent,
            delta_time,
            step_blocked(walls, colliders, s.position, intent),
        ).0.position == s.position,
{
    assert(step_blocked(walls, colliders, s.position, intent));
}

/// The number of resolved steps (`TurnOver(Walking)` events) over a run of
/// ticks: each tick advances by `delta_time` and sees the blockedness oracle
/// of its slot in `blocked`.
pub open spec fn run_count(
    s: PlayerState,
    intent: GridCoords,
    delta_time: u64,
    blocked: Seq<bool>,
) -> int
    decreases blocked.len(),
{
    if blocked.len() == 0 {
        0
    } else {
        let su = spec_update(s, intent, delta_time, blocked[0]);
        (if su.1 == Some(TurnOver(PlayerAction::Walking)) {
            1int
        } else {
            0int
        }) + run_count(su.0, intent, delta_time, blocked.skip(1))
    }
}

/// While walking with a constant cardinal intent and a tick length of at most
/// one period, the machine resolves exactly one step per expired period:
/// `floor((elapsed + n * d) / duration)` steps over `n` ticks.
proof fn lemma_walking_count(s: PlayerState, intent: GridCoords, d: u64, blocked: Seq<bool>)
    requires
        s.wf(),
        s.action == PlayerAction::Walking,
        spec_direction_of(intent) is Some,
        1 <= d <= s.timer.duration,
    ensures
        run_count(s, intent, d, blocked) == (s.timer.elapsed + blocked.len() * d) / (
        s.timer.duration as int),
    decreases blocked.len(),
{
    let dd = s.timer.duration as int;
    let e = s.timer.elapsed as int;
    let n = blocked.len() as int;
    if blocked.len() == 0 {
        assert(e / dd == 0) by {
            lemma_fundamental_div_mod_converse(e, dd, 0, e);
        }
    } else {
        let su = spec_update(s, intent, d, blocked[0]);
        let s1 = su.0;
        let f1: int = if e + d >= dd {
            1
        } else {
            0
        };
        assert((e + d) % dd == e + d - f1 * dd) by {
            lemma_fundamental_div_mod_converse(e + d, dd, f1, e + d - f1 * dd);
        }
        assert(s1.timer.elapsed == e + d - f1 * dd);
        assert(s1.wf());
        assert(s1.action == PlayerAction::Walking);
        lemma_walking_count(s1, intent, d, blocked.skip(1));
        let a = e + d - f1 * dd + (n - 1) * d;
        assert(run_count(s, intent, d, blocked) == f1 + a / dd);
        lemma_fundamental_div_mod(a, dd);
        lemma_mod_division_less_than_divisor(a, dd);
        assert(e + n * d == (f1 + a / dd) * dd + a % dd) by (nonlinear_arith)
            requires
                a == e + d - f1 * dd + (n - 1) * d,
                a == dd * (a / dd) + a % dd,
        ;
        lemma_fundamental_div_mod_converse(e + n * d, dd, f1 + a / dd, a % dd);
    }
}

/// Turn-timer gating: from `Idle`, a continuous movement intent resolves one
/// step immediately (resetting the timer) and exactly one more step per timer
/// period `D` thereafter — over `n` ticks of length `d` each, that is
/// `1 + floor(((n - 1) * d) / D)` resolved steps, i.e. `1 + floor((T -
/// reset_epsilon) / D)` for total time `T = n * d`.
///
/// The bound `d <= D` states the fixed-timestep regime the scheduler runs
/// the machine in: simulation ticks are shorter than the action delay. It is
/// needed for the count — the machine resolves at most one step per tick, so
/// a tick spanning several periods would fall short of the formula.
pub proof fn lemma_turn_timer_gating(
    s: PlayerState,
    intent: GridCoords,
    d: u64,
    blocked: Seq<bool>,
)
    requires
        s.wf(),
        s.action == PlayerAction::Idle,
        spec_direction_of(intent) is Some,
        1 <= d <= s.timer.duration,
        blocked.len() >= 1,
    ensures
        run_count(s, intent, d, blocked) == 1 + ((blocked.len() - 1) * d) / (
        s.timer.duration as int),
{
    let su = spec_update(s, intent, d, blocked[0]);
    assert(su.1 == Some(TurnOver(PlayerAction::Walking)));
    assert(su.0.action == PlayerAction::Walking);
    assert(su.0.timer.elapsed == 0);
    lemma_walking_count(su.0, intent, d, blocked.skip(1));
}

} // verus!
