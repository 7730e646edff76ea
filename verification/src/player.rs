//! The player's tuning data and the per-tick operations that turn input
//! intents into state transitions and velocity changes, plus the idle-dwell
//! countdown that nudges an idle player into pushing.

use vstd::prelude::*;
use vstd::arithmetic::div_mod::lemma_fundamental_div_mod;
use crate::geom::{Vec2i, COORD_LIMIT};
use crate::common::{move_towards, move_towards_spec, Velocity};
use crate::state_machine::{transition_spec, PlayerEvent, PlayerState};

verus! {

/// Movement tuning of the player. `jump_velocity` is derived once at setup
/// from `jump_height` and `time_jump_peak` (see `jump_parameters`), not
/// recomputed per tick.
#[derive(Clone, Copy, PartialEq, Eq, Structural, Debug)]
pub struct Player {
    pub max_speed: i64,
    pub acceleration: i64,
    pub time_jump_peak: i64,
    pub jump_height: i64,
    pub jump_velocity: i64,
}

impl Player {
    pub open spec fn wf(self) -> bool {
        &&& 0 <= self.max_speed <= COORD_LIMIT
        &&& 0 <= self.acceleration <= COORD_LIMIT
        &&& 0 <= self.time_jump_peak <= COORD_LIMIT
        &&& 0 <= self.jump_height <= COORD_LIMIT
        &&& 0 <= self.jump_velocity <= COORD_LIMIT
    }
}

impl Default for Player {
    /// Tuning for a world measured in tenths of a unit: the launch speed is
    /// left at zero until setup derives it.
    fn default() -> (r: Self)
        ensures
            r.max_speed == 25,
            r.acceleration == 500,
            r.time_jump_peak == 3,
            r.jump_height == 40,
            r.jump_velocity == 0,
            r.wf(),
    {
        Player { max_speed: 25, acceleration: 500, time_jump_peak: 3, jump_height: 40, jump_velocity: 0 }
    }
}

/// Optional countdown attached to the idle state: once it runs out while the
/// player is still idle, the machine is nudged into pushing. Absent in every
/// other state.
#[derive(Clone, Copy, PartialEq, Eq, Debug)]
pub struct StateTriggerTimer(pub Option<i64>);

impl StateTriggerTimer {
    /// A pending countdown always holds a positive remainder.
    pub open spec fn wf(self) -> bool {
        self.0 matches Some(t) ==> 0 < t <= COORD_LIMIT
    }
}

/// Closed-form projectile setup, computed once at actor setup: a gravity
/// strength `2 * jump_height / time_jump_peak^2` and the launch speed
/// `gravity * time_jump_peak` that reaches `jump_height` after
/// `time_jump_peak` time units under that gravity.
pub fn jump_parameters(jump_height: i64, time_jump_peak: i64) -> (r: (i64, i64))
    requires
        0 <= jump_height <= COORD_LIMIT / 2,
        0 < time_jump_peak <= COORD_LIMIT,
    ensures
        r.0 == 2 * jump_height / (time_jump_peak * time_jump_peak),
        r.1 == r.0 * time_jump_peak,
        0 <= r.0 <= 2 * jump_height,
        0 <= r.1 <= 2 * jump_height,
{
    proof {
        assert(1 <= time_jump_peak * time_jump_peak <= COORD_LIMIT * COORD_LIMIT)
            by (nonlinear_arith)
            requires
                0 < time_jump_peak <= COORD_LIMIT,
        ;
    }
    let t2: i64 = time_jump_peak * time_jump_peak;
    let two_h: i64 = 2 * jump_height;
    proof {
        lemma_fundamental_div_mod(two_h as int, t2 as int);
        assert(0 <= two_h / t2 && (two_h / t2) * t2 <= two_h) by (nonlinear_arith)
            requires
                t2 > 0,
                two_h >= 0,
                two_h == t2 * (two_h / t2) + two_h % t2,
                0 <= two_h % t2 < t2,
        ;
    }
    let g: i64 = two_h / t2;
    proof {
        assert(0 <= g * time_jump_peak <= two_h) by (nonlinear_arith)
            requires
                0 <= g,
                1 <= time_jump_peak,
                g * (time_jump_peak * time_jump_peak) <= two_h,
        ;
    }
    let jv: i64 = g * time_jump_peak;
    (g, jv)
}

/// Horizontal intent: with a nonzero horizontal direction the velocity moves
/// toward `direction * max_speed` by at most `acceleration * delta`, but
/// only when the machine already moves or accepts `Move`; a machine that
/// rejects `Move` leaves both state and velocity untouched.
pub open spec fn horizontal_step(
    p: Player,
    s: PlayerState,
    v: Velocity,
    dir_x: i64,
    delta: i64,
) -> (PlayerState, Velocity) {
    if dir_x != 0 {
        let mx = move_towards_spec(v.x as int, dir_x * p.max_speed, p.acceleration * delta);
        if s == PlayerState::Moving {
            (s, Velocity { x: mx as i64, y: v.y })
        } else if transition_spec(s, PlayerEvent::Move) is Some {
            (transition_spec(s, PlayerEvent::Move)->Some_0, Velocity { x: mx as i64, y: v.y })
        } else {
            (s, v)
        }
    } else {
        (s, v)
    }
}

/// Vertical intent: a downward intent attempts `Pull`; an upward intent
/// attempts `Jump` and, on acceptance, sets the vertical velocity to the
/// precomputed launch speed. A rejected attempt changes nothing.
pub open spec fn vertical_step(p: Player, s: PlayerState, v: Velocity, dir_y: i64) -> (
    PlayerState,
    Velocity,
) {
    if dir_y < 0 {
        if transition_spec(s, PlayerEvent::Pull) is Some {
            (transition_spec(s, PlayerEvent::Pull)->Some_0, v)
        } else {
            (s, v)
        }
    } else if dir_y > 0 {
        if transition_spec(s, PlayerEvent::Jump) is Some {
            (transition_spec(s, PlayerEvent::Jump)->Some_0, Velocity { x: v.x, y: p.jump_velocity })
        } else {
            (s, v)
        }
    } else {
        (s, v)
    }
}

/// Zero intent: with no direction held, a machine that accepts `Stop`
/// returns to idle and the horizontal velocity is zeroed.
pub open spec fn stop_step(s: PlayerState, v: Velocity, dir: Vec2i) -> (PlayerState, Velocity) {
    if dir.x == 0 && dir.y == 0 && transition_spec(s, PlayerEvent::Stop) is Some {
        (transition_spec(s, PlayerEvent::Stop)->Some_0, Velocity { x: 0, y: v.y })
    } else {
        (s, v)
    }
}

/// What one input-handling step does: the horizontal intent, then the
/// vertical intent, then the stop rule, each reading the state the previous
/// one left.
pub open spec fn move_player_spec(
    p: Player,
    s: PlayerState,
    v: Velocity,
    dir: Vec2i,
    delta: i64,
) -> (PlayerState, Velocity) {
    let (s1, v1) = horizontal_step(p, s, v, dir.x, delta);
    let (s2, v2) = vertical_step(p, s1, v1, dir.y);
    stop_step(s2, v2, dir)
}

/// Consumes one tick's input intent: `direction` holds one of -1, 0, 1 per
/// axis, built from the held movement keys (independent axes, not
/// normalized). Proposes state transitions and velocity changes per
/// `move_player_spec`; every rejected transition is a silent no-op.
pub fn move_player(
    player: &Player,
    state: &mut PlayerState,
    velocity: &mut Velocity,
    direction: Vec2i,
    delta: i64,
)
    requires
        player.wf(),
        -1 <= direction.x <= 1,
        -1 <= direction.y <= 1,
        0 <= delta <= COORD_LIMIT,
        old(velocity).in_world(),
    ensures
        ({
            let (s2, v2) = move_player_spec(*player, *old(state), *old(velocity), direction, delta);
            &&& *final(state) == s2
            &&& *final(velocity) == v2
        }),
{
    if direction.x != 0 {
        proof {
            assert(-COORD_LIMIT <= direction.x * player.max_speed <= COORD_LIMIT)
                by (nonlinear_arith)
                requires
                    -1 <= direction.x <= 1,
                    0 <= player.max_speed <= COORD_LIMIT,
            ;
        }
        let target: i64 = direction.x * player.max_speed;
        let mx = move_towards(velocity.x, target, player.acceleration, delta);
        if state.is(PlayerState::Moving) {
            velocity.x = mx;
        } else if state.transition(PlayerEvent::Move) {
            velocity.x = mx;
        }
    }
    if direction.y < 0 {
        state.transition(PlayerEvent::Pull);
    } else if direction.y > 0 {
        if state.can(PlayerEvent::Jump) {
            if state.transition(PlayerEvent::Jump) {
                velocity.y = player.jump_velocity;
            }
        }
    }
    if direction.x == 0 && direction.y == 0 {
        if state.can(PlayerEvent::Stop) {
            state.transition(PlayerEvent::Stop);
            velocity.x = 0;
        }
    }
}

/// What one dwell update does: entering idle with no countdown starts one
/// at the full dwell duration; an idle tick counts an existing countdown
/// down and, once it runs out, commits `Push`; leaving idle clears any
/// countdown.
pub open spec fn dwell_spec(s: PlayerState, timer: Option<i64>, dwell: i64, delta: i64) -> (
    PlayerState,
    Option<i64>,
) {
    match (s, timer) {
        (PlayerState::Idle, None) => (s, Some(dwell)),
        (PlayerState::Idle, Some(t)) => if t - delta <= 0 {
            (transition_spec(PlayerState::Idle, PlayerEvent::Push)->Some_0, None)
        } else {
            (s, Some((t - delta) as i64))
        },
        (_, Some(_)) => (s, None),
        (_, None) => (s, None),
    }
}

/// The idle-dwell countdown, run once per tick independently of input:
/// after the configured dwell duration of uninterrupted idleness the
/// machine transitions to pushing; any state away from idle clears the
/// countdown, so no stale countdown can fire later.
pub fn player_state_trigger_timer(
    state: &mut PlayerState,
    timer: &mut StateTriggerTimer,
    dwell: i64,
    delta: i64,
)
    requires
        0 < dwell <= COORD_LIMIT,
        0 <= delta <= COORD_LIMIT,
        old(timer).wf(),
    ensures
        ({
            let (s2, t2) = dwell_spec(*old(state), old(timer).0, dwell, delta);
            &&& *final(state) == s2
            &&& final(timer).0 == t2
        }),
        final(timer).wf(),
{
    match (*state, timer.0) {
        (PlayerState::Idle, None) => {
            timer.0 = Some(dwell);
        }
        (PlayerState::Idle, Some(t)) => {
            let remaining: i64 = t - delta;
            if remaining <= 0 {
                state.transition(PlayerEvent::Push);
                timer.0 = None;
            } else {
                timer.0 = Some(remaining);
            }
        }
        (_, Some(_)) => {
            timer.0 = None;
        }
        _ => {}
    }
}

} // verus!
