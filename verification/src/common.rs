//! Velocity, gravity and the rate-limited interpolation that moves a
//! velocity component toward its target without overshooting.

use vstd::prelude::*;
use vstd::math::abs;
use crate::geom::{Vec2i, COORD_LIMIT};

verus! {

/// The moving actor's velocity. It persists across ticks: the state machine,
/// gravity and the collision resolver each adjust it in turn, and nothing
/// resets it implicitly.
#[derive(Clone, Copy, PartialEq, Eq, Structural, Debug)]
pub struct Velocity {
    pub x: i64,
    pub y: i64,
}

impl Default for Velocity {
    /// A new actor starts at rest.
    fn default() -> (r: Self)
        ensures
            r.x == 0,
            r.y == 0,
    {
        Velocity { x: 0, y: 0 }
    }
}

impl Velocity {
    /// Both components within the world bound.
    pub open spec fn in_world(self) -> bool {
        &&& -COORD_LIMIT <= self.x <= COORD_LIMIT
        &&& -COORD_LIMIT <= self.y <= COORD_LIMIT
    }

    pub fn new(x: i64, y: i64) -> (r: Self)
        ensures
            r.x == x,
            r.y == y,
    {
        Velocity { x, y }
    }
}

/// Downward acceleration applied to the vertical velocity each tick, in
/// spatial units per time unit squared. Derived once at setup from the jump
/// parameters (see `crate::player::jump_parameters`), not recomputed per tick.
#[derive(Clone, Copy, PartialEq, Eq, Structural, Debug)]
pub struct Gravity(pub i64);

impl Default for Gravity {
    /// No gravity until setup derives one.
    fn default() -> (r: Self)
        ensures
            r.0 == 0,
    {
        Gravity(0)
    }
}

/// Where `move_towards` lands: `current` advanced toward `target` by at most
/// `step`, clamped at `target` so it never overshoots.
pub open spec fn move_towards_spec(current: int, target: int, step: int) -> int {
    if current < target {
        if current + step < target {
            current + step
        } else {
            target
        }
    } else {
        if current - step > target {
            current - step
        } else {
            target
        }
    }
}

/// Rate-limited interpolation: moves `current` toward `target` by at most
/// `acceleration * delta`, never overshooting.
pub fn move_towards(current: i64, target: i64, acceleration: i64, delta: i64) -> (r: i64)
    requires
        -COORD_LIMIT <= current <= COORD_LIMIT,
        -COORD_LIMIT <= target <= COORD_LIMIT,
        0 <= acceleration <= COORD_LIMIT,
        0 <= delta <= COORD_LIMIT,
    ensures
        r == move_towards_spec(current as int, target as int, acceleration * delta),
{
    proof {
        assert(0 <= acceleration * delta <= COORD_LIMIT * COORD_LIMIT) by (nonlinear_arith)
            requires
                0 <= acceleration <= COORD_LIMIT,
                0 <= delta <= COORD_LIMIT,
        ;
    }
    let step: i64 = acceleration * delta;
    if current < target {
        let advanced: i64 = current + step;
        if advanced < target {
            advanced
        } else {
            target
        }
    } else {
        let advanced: i64 = current - step;
        if advanced > target {
            advanced
        } else {
            target
        }
    }
}

/// One application of `move_towards` lands between `current` and `target`
/// (no overshoot) and closes the distance to `target` by exactly `step`,
/// or reaches it; repeated application therefore converges to `target`.
pub proof fn lemma_move_towards_progress(current: int, target: int, step: int)
    requires
        step >= 0,
    ensures
        current <= target ==> current <= move_towards_spec(current, target, step) <= target,
        target <= current ==> target <= move_towards_spec(current, target, step) <= current,
        abs(target - move_towards_spec(current, target, step)) == if abs(target - current) - step
            >= 0 {
            abs(target - current) - step
        } else {
            0
        },
{
}

/// Integrates the velocity into the position: one spatial step per tick.
pub fn apply_velocity(position: &mut Vec2i, velocity: &Velocity)
    requires
        i64::MIN <= old(position).x + velocity.x <= i64::MAX,
        i64::MIN <= old(position).y + velocity.y <= i64::MAX,
    ensures
        final(position).x == old(position).x + velocity.x,
        final(position).y == old(position).y + velocity.y,
{
    position.x = position.x + velocity.x;
    position.y = position.y + velocity.y;
}

/// Accrues gravity into the vertical velocity: `velocity.y` drops by
/// `gravity * delta`; the horizontal component is untouched.
pub fn apply_gravity(velocity: &mut Velocity, gravity: &Gravity, delta: i64)
    requires
        0 <= gravity.0 <= COORD_LIMIT,
        0 <= delta <= COORD_LIMIT,
        i64::MIN <= old(velocity).y - gravity.0 * delta,
    ensures
        final(velocity).x == old(velocity).x,
        final(velocity).y == old(velocity).y - gravity.0 * delta,
{
    proof {
        assert(0 <= gravity.0 * delta <= COORD_LIMIT * COORD_LIMIT) by (nonlinear_arith)
            requires
                0 <= gravity.0 <= COORD_LIMIT,
                0 <= delta <= COORD_LIMIT,
        ;
    }
    let drop: i64 = gravity.0 * delta;
    velocity.y = velocity.y - drop;
}

} // verus!
