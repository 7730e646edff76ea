//! Axis-aligned rectangle collision: a pure resolver that classifies the
//! contact side by minimum penetration depth, and the per-tick correction
//! policy that zeroes inward velocity and snaps a landing position.

use vstd::prelude::*;
use vstd::math::abs;
use crate::geom::{Vec2i, COORD_LIMIT, PLAY_LIMIT};
use crate::common::Velocity;

verus! {

/// Fire-and-forget signal that a collision happened this tick; observers
/// such as audio or animation hooks need no payload.
#[derive(Clone, Copy, PartialEq, Eq, Structural, Debug)]
pub struct CollisionEvent;

/// Associates a rectangle extent with an entity taking part in collision
/// checks. Obstacles are static; the player is the only dynamic participant.
#[derive(Clone, Copy, PartialEq, Eq, Structural, Debug)]
pub enum Collider {
    Quad(Vec2i),
}

impl Collider {
    /// The rectangle extent carried by the collider.
    pub open spec fn size_spec(self) -> Vec2i {
        match self {
            Collider::Quad(s) => s,
        }
    }

    pub fn size(&self) -> (r: Vec2i)
        ensures
            r == self.size_spec(),
    {
        match *self {
            Collider::Quad(s) => s,
        }
    }
}

/// Which side of the obstacle the actor reached into, as seen from the
/// actor: `Left` means the actor came from the left, `Top` that it sits on
/// top (a landing while falling). `Inside` means neither axis discriminates
/// a side (the rectangles straddle each other on both axes).
#[derive(Clone, Copy, PartialEq, Eq, Structural, Debug)]
pub enum Collision {
    Left,
    Right,
    Top,
    Bottom,
    Inside,
}

/// Left edge of the rectangle centered at `pos` with extent `size`.
pub open spec fn rect_min_x(pos: Vec2i, size: Vec2i) -> int {
    pos.x - size.x / 2
}

pub open spec fn rect_max_x(pos: Vec2i, size: Vec2i) -> int {
    pos.x + size.x / 2
}

pub open spec fn rect_min_y(pos: Vec2i, size: Vec2i) -> int {
    pos.y - size.y / 2
}

pub open spec fn rect_max_y(pos: Vec2i, size: Vec2i) -> int {
    pos.y + size.y / 2
}

/// Strict intersection on both axes; rectangles that merely touch do not
/// overlap.
pub open spec fn overlaps(a_pos: Vec2i, a_size: Vec2i, b_pos: Vec2i, b_size: Vec2i) -> bool {
    &&& rect_min_x(a_pos, a_size) < rect_max_x(b_pos, b_size)
    &&& rect_max_x(a_pos, a_size) > rect_min_x(b_pos, b_size)
    &&& rect_min_y(a_pos, a_size) < rect_max_y(b_pos, b_size)
    &&& rect_max_y(a_pos, a_size) > rect_min_y(b_pos, b_size)
}

/// Horizontal classification: `Left` when `a` reaches into `b` from the
/// left, `Right` symmetrically, `None` when one rectangle straddles the
/// other on this axis so it cannot discriminate the contact side. The depth
/// is negative: the signed distance that would just close the contact.
pub open spec fn x_contact(a_pos: Vec2i, a_size: Vec2i, b_pos: Vec2i, b_size: Vec2i) -> Option<
    (Collision, int),
> {
    if rect_min_x(a_pos, a_size) < rect_min_x(b_pos, b_size) && rect_max_x(a_pos, a_size)
        > rect_min_x(b_pos, b_size) && rect_max_x(a_pos, a_size) < rect_max_x(b_pos, b_size) {
        Some((Collision::Left, rect_min_x(b_pos, b_size) - rect_max_x(a_pos, a_size)))
    } else if rect_min_x(a_pos, a_size) > rect_min_x(b_pos, b_size) && rect_min_x(a_pos, a_size)
        < rect_max_x(b_pos, b_size) && rect_max_x(a_pos, a_size) > rect_max_x(b_pos, b_size) {
        Some((Collision::Right, rect_min_x(a_pos, a_size) - rect_max_x(b_pos, b_size)))
    } else {
        None
    }
}

/// Vertical classification: `Bottom` when `a` reaches into `b` from below,
/// `Top` when `a` sits on top of `b`, `None` when the axis cannot
/// discriminate.
pub open spec fn y_contact(a_pos: Vec2i, a_size: Vec2i, b_pos: Vec2i, b_size: Vec2i) -> Option<
    (Collision, int),
> {
    if rect_min_y(a_pos, a_size) < rect_min_y(b_pos, b_size) && rect_max_y(a_pos, a_size)
        > rect_min_y(b_pos, b_size) && rect_max_y(a_pos, a_size) < rect_max_y(b_pos, b_size) {
        Some((Collision::Bottom, rect_min_y(b_pos, b_size) - rect_max_y(a_pos, a_size)))
    } else if rect_min_y(a_pos, a_size) > rect_min_y(b_pos, b_size) && rect_min_y(a_pos, a_size)
        < rect_max_y(b_pos, b_size) && rect_max_y(a_pos, a_size) > rect_max_y(b_pos, b_size) {
        Some((Collision::Top, rect_min_y(a_pos, a_size) - rect_max_y(b_pos, b_size)))
    } else {
        None
    }
}

/// The resolver's answer: `None` without overlap; otherwise the axis whose
/// absolute penetration depth is smaller wins the tie-break (an axis that
/// cannot discriminate never wins), and `Inside` stands for the case where
/// neither axis discriminates.
pub open spec fn collide_spec(a_pos: Vec2i, a_size: Vec2i, b_pos: Vec2i, b_size: Vec2i) -> Option<
    (Collision, int),
> {
    if !overlaps(a_pos, a_size, b_pos, b_size) {
        None
    } else {
        match (x_contact(a_pos, a_size, b_pos, b_size), y_contact(a_pos, a_size, b_pos, b_size)) {
            (Some(xc), Some(yc)) => if abs(yc.1) < abs(xc.1) {
                Some(yc)
            } else {
                Some(xc)
            },
            (Some(xc), None) => Some(xc),
            (None, Some(yc)) => Some(yc),
            (None, None) => Some((Collision::Inside, 0)),
        }
    }
}

/// What `collide_v2` promises of its result.
pub open spec fn collide_post(
    a_pos: Vec2i,
    a_size: Vec2i,
    b_pos: Vec2i,
    b_size: Vec2i,
    r: Option<(Collision, i64)>,
) -> bool {
    match r {
        None => !overlaps(a_pos, a_size, b_pos, b_size),
        Some((c, d)) => collide_spec(a_pos, a_size, b_pos, b_size) == Some((c, d as int)),
    }
}

fn abs_i64(v: i64) -> (r: i64)
    requires
        v > i64::MIN,
    ensures
        r == abs(v as int),
{
    if v < 0 {
        -v
    } else {
        v
    }
}

/// Pure resolver: given the moving actor's rectangle `a` and a static
/// obstacle's rectangle `b`, each as center and extent, reports whether they
/// overlap and, if so, the minimum-penetration side and its signed depth.
pub fn collide_v2(a_pos: Vec2i, a_size: Vec2i, b_pos: Vec2i, b_size: Vec2i) -> (r: Option<
    (Collision, i64),
>)
    requires
        a_pos.in_play(),
        a_size.is_size(),
        b_pos.in_play(),
        b_size.is_size(),
    ensures
        collide_post(a_pos, a_size, b_pos, b_size, r),
        (r is Some) == overlaps(a_pos, a_size, b_pos, b_size),
        r matches Some(h) ==> -4 * PLAY_LIMIT <= h.1 <= 0,
{
    let a_min_x: i64 = a_pos.x - a_size.x / 2;
    let a_max_x: i64 = a_pos.x + a_size.x / 2;
    let a_min_y: i64 = a_pos.y - a_size.y / 2;
    let a_max_y: i64 = a_pos.y + a_size.y / 2;
    let b_min_x: i64 = b_pos.x - b_size.x / 2;
    let b_max_x: i64 = b_pos.x + b_size.x / 2;
    let b_min_y: i64 = b_pos.y - b_size.y / 2;
    let b_max_y: i64 = b_pos.y + b_size.y / 2;
    if a_min_x < b_max_x && a_max_x > b_min_x && a_min_y < b_max_y && a_max_y > b_min_y {
        let x_hit: Option<(Collision, i64)> = if a_min_x < b_min_x && a_max_x > b_min_x && a_max_x
            < b_max_x {
            Some((Collision::Left, b_min_x - a_max_x))
        } else if a_min_x > b_min_x && a_min_x < b_max_x && a_max_x > b_max_x {
            Some((Collision::Right, a_min_x - b_max_x))
        } else {
            None
        };
        let y_hit: Option<(Collision, i64)> = if a_min_y < b_min_y && a_max_y > b_min_y && a_max_y
            < b_max_y {
            Some((Collision::Bottom, b_min_y - a_max_y))
        } else if a_min_y > b_min_y && a_min_y < b_max_y && a_max_y > b_max_y {
            Some((Collision::Top, a_min_y - b_max_y))
        } else {
            None
        };
        match (x_hit, y_hit) {
            (Some((xc, xd)), Some((yc, yd))) => {
                if abs_i64(yd) < abs_i64(xd) {
                    Some((yc, yd))
                } else {
                    Some((xc, xd))
                }
            }
            (Some(xh), None) => Some(xh),
            (None, Some(yh)) => Some(yh),
            (None, None) => Some((Collision::Inside, 0)),
        }
    } else {
        None
    }
}

/// Tuning of the per-tick collision policy. The skin margin inflates the
/// actor's rectangle to pre-empt tunneling; the snap tolerance and dead-zone
/// bound how deep a landing may rest before the position is corrected.
#[derive(Clone, Copy, PartialEq, Eq, Structural, Debug)]
pub struct CollisionConfig {
    pub skin: i64,
    pub snap_tolerance: i64,
    pub snap_dead_zone: i64,
}

impl CollisionConfig {
    pub open spec fn wf(self) -> bool {
        &&& 0 <= self.skin <= COORD_LIMIT
        &&& 0 <= self.snap_tolerance <= COORD_LIMIT
        &&& 0 <= self.snap_dead_zone <= COORD_LIMIT
    }

    pub fn new(skin: i64, snap_tolerance: i64, snap_dead_zone: i64) -> (r: Self)
        ensures
            r.skin == skin,
            r.snap_tolerance == snap_tolerance,
            r.snap_dead_zone == snap_dead_zone,
    {
        CollisionConfig { skin, snap_tolerance, snap_dead_zone }
    }
}

/// The actor's rectangle inflated by the skin margin on both axes.
pub open spec fn inflate_spec(size: Vec2i, skin: i64) -> Vec2i {
    Vec2i { x: (size.x + skin) as i64, y: (size.y + skin) as i64 }
}

/// Every obstacle sits in the world and has a valid extent.
pub open spec fn obstacles_ok(obs: Seq<(Vec2i, Collider)>) -> bool {
    forall|k: int|
        0 <= k < obs.len() ==> (#[trigger] obs[k]).0.in_world() && obs[k].1.size_spec().is_size()
}

/// The velocity after reacting to one resolver answer: a component moving
/// further into the obstacle is zeroed, anything else is kept.
pub open spec fn corrected_velocity(v: Velocity, hit: Option<(Collision, int)>) -> Velocity {
    match hit {
        Some((Collision::Left, _)) => if v.x > 0 {
            Velocity { x: 0, y: v.y }
        } else {
            v
        },
        Some((Collision::Right, _)) => if v.x < 0 {
            Velocity { x: 0, y: v.y }
        } else {
            v
        },
        Some((Collision::Top, _)) => if v.y < 0 {
            Velocity { x: v.x, y: 0 }
        } else {
            v
        },
        Some((Collision::Bottom, _)) => if v.y > 0 {
            Velocity { x: v.x, y: 0 }
        } else {
            v
        },
        Some((Collision::Inside, _)) => v,
        None => v,
    }
}

/// One obstacle of the current-position pass: the resolver runs on the
/// actor's present rectangle and only zeroes inward velocity.
pub open spec fn current_step(v: Velocity, pos: Vec2i, psize: Vec2i, ob_pos: Vec2i, ob_size: Vec2i)
    -> (Velocity, bool) {
    let hit = collide_spec(pos, psize, ob_pos, ob_size);
    (corrected_velocity(v, hit), hit is Some)
}

/// The current-position pass folded over the obstacles in order: the
/// corrected velocity and the number of contacts.
pub open spec fn current_pass(
    v0: Velocity,
    pos: Vec2i,
    obs: Seq<(Vec2i, Collider)>,
    psize: Vec2i,
) -> (Velocity, nat)
    decreases obs.len(),
{
    if obs.len() == 0 {
        (v0, 0nat)
    } else {
        let (v1, n1) = current_pass(v0, pos, obs.drop_last(), psize);
        let (v2, hit) = current_step(v1, pos, psize, obs.last().0, obs.last().1.size_spec());
        (
            v2,
            n1 + if hit {
                1nat
            } else {
                0nat
            },
        )
    }
}

/// One obstacle of the projected-position pass: the resolver runs on the
/// rectangle projected one velocity step ahead; inward velocity is zeroed,
/// and a landing while falling whose depth exceeds the tolerance beyond the
/// dead-zone snaps the position up by the signed depth.
pub open spec fn projected_step(
    v: Velocity,
    pos: Vec2i,
    psize: Vec2i,
    ob_pos: Vec2i,
    ob_size: Vec2i,
    tol: i64,
    dead: i64,
) -> (Velocity, Vec2i, bool) {
    let probe = Vec2i { x: (pos.x + v.x) as i64, y: (pos.y + v.y) as i64 };
    let hit = collide_spec(probe, psize, ob_pos, ob_size);
    let pos2 = match hit {
        Some((Collision::Top, d)) => if v.y < 0 && d < -(tol + dead) {
            Vec2i { x: pos.x, y: (pos.y - d) as i64 }
        } else {
            pos
        },
        _ => pos,
    };
    (corrected_velocity(v, hit), pos2, hit is Some)
}

/// The projected-position pass folded over the obstacles in order.
pub open spec fn projected_pass(
    v0: Velocity,
    pos0: Vec2i,
    obs: Seq<(Vec2i, Collider)>,
    psize: Vec2i,
    tol: i64,
    dead: i64,
) -> (Velocity, Vec2i, nat)
    decreases obs.len(),
{
    if obs.len() == 0 {
        (v0, pos0, 0nat)
    } else {
        let (v1, p1, n1) = projected_pass(v0, pos0, obs.drop_last(), psize, tol, dead);
        let (v2, p2, hit) = projected_step(
            v1,
            p1,
            psize,
            obs.last().0,
            obs.last().1.size_spec(),
            tol,
            dead,
        );
        (
            v2,
            p2,
            n1 + if hit {
                1nat
            } else {
                0nat
            },
        )
    }
}

/// A resolver answer of `Top` carries exactly the vertical penetration of
/// the actor's bottom edge into the obstacle's top edge.
proof fn lemma_collide_top_depth(a_pos: Vec2i, a_size: Vec2i, b_pos: Vec2i, b_size: Vec2i)
    ensures
        match collide_spec(a_pos, a_size, b_pos, b_size) {
            Some(h) => h.0 == Collision::Top ==> h.1 == rect_min_y(a_pos, a_size) - rect_max_y(
                b_pos,
                b_size,
            ),
            None => true,
        },
{
}

/// Runs the resolver over every obstacle twice, as the collision phase of
/// one simulation tick. The first pass checks the actor's current rectangle
/// and zeroes velocity components that still push into an obstacle; the
/// second checks the rectangle projected one velocity step ahead, zeroes
/// inward velocity, and on a landing while falling whose depth exceeds the
/// snap tolerance beyond the dead-zone corrects the position upward by the
/// signed depth, so the actor cannot sink through a surface over repeated
/// ticks. Returns one event per contact found, for external observers.
pub fn check_for_collisions(
    velocity: &mut Velocity,
    position: &mut Vec2i,
    collider: &Collider,
    obstacles: &Vec<(Vec2i, Collider)>,
    cfg: &CollisionConfig,
) -> (events: Vec<CollisionEvent>)
    requires
        cfg.wf(),
        old(velocity).in_world(),
        old(position).in_world(),
        collider.size_spec().is_size(),
        collider.size_spec().x + cfg.skin <= COORD_LIMIT,
        collider.size_spec().y + cfg.skin <= COORD_LIMIT,
        obstacles_ok(obstacles@),
    ensures
        ({
            let psize = inflate_spec(collider.size_spec(), cfg.skin);
            let (v1, n1) = current_pass(*old(velocity), *old(position), obstacles@, psize);
            let (v2, p2, n2) = projected_pass(
                v1,
                *old(position),
                obstacles@,
                psize,
                cfg.snap_tolerance,
                cfg.snap_dead_zone,
            );
            &&& *final(velocity) == v2
            &&& *final(position) == p2
            &&& events@.len() == n1 + n2
        }),
{
    let size = collider.size();
    let psize = Vec2i::new(size.x + cfg.skin, size.y + cfg.skin);
    let ghost psize_s = inflate_spec(collider.size_spec(), cfg.skin);
    let ghost v0 = *velocity;
    let ghost p0 = *position;
    let mut events: Vec<CollisionEvent> = Vec::new();

    let mut i: usize = 0;
    while i < obstacles.len()
        invariant
            i <= obstacles@.len(),
            obstacles_ok(obstacles@),
            psize == psize_s,
            psize_s.is_size(),
            p0.in_world(),
            *position == p0,
            velocity.in_world(),
            ({
                let (v1, n1) = current_pass(v0, p0, obstacles@.take(i as int), psize_s);
                &&& *velocity == v1
                &&& events@.len() == n1
            }),
        decreases obstacles@.len() - i,
    {
        let ob = obstacles[i];
        let osize = ob.1.size();
        let r = collide_v2(*position, psize, ob.0, osize);
        match r {
            Some((c, _d)) => {
                match c {
                    Collision::Left => if velocity.x > 0 {
                        velocity.x = 0;
                    },
                    Collision::Right => if velocity.x < 0 {
                        velocity.x = 0;
                    },
                    Collision::Top => if velocity.y < 0 {
                        velocity.y = 0;
                    },
                    Collision::Bottom => if velocity.y > 0 {
                        velocity.y = 0;
                    },
                    Collision::Inside => {},
                }
                events.push(CollisionEvent);
            },
            None => {},
        }
        proof {
            assert(obstacles@.take(i + 1).drop_last() =~= obstacles@.take(i as int));
            assert(obstacles@.take(i + 1).last() == obstacles@[i as int]);
        }
        i = i + 1;
    }
    proof {
        assert(obstacles@.take(obstacles@.len() as int) =~= obstacles@);
    }
    let ghost pass1 = current_pass(v0, p0, obstacles@, psize_s);

    let mut j: usize = 0;
    while j < obstacles.len()
        invariant
            j <= obstacles@.len(),
            obstacles_ok(obstacles@),
            psize == psize_s,
            psize_s.is_size(),
            p0.in_world(),
            cfg.wf(),
            velocity.in_world(),
            position.x == p0.x,
            -3 * COORD_LIMIT <= position.y <= 3 * COORD_LIMIT,
            ({
                let (v2, p2, n2) = projected_pass(
                    pass1.0,
                    p0,
                    obstacles@.take(j as int),
                    psize_s,
                    cfg.snap_tolerance,
                    cfg.snap_dead_zone,
                );
                &&& *velocity == v2
                &&& *position == p2
                &&& events@.len() == pass1.1 + n2
            }),
        decreases obstacles@.len() - j,
    {
        let ob = obstacles[j];
        let osize = ob.1.size();
        let probe = Vec2i::new(position.x + velocity.x, position.y + velocity.y);
        let r = collide_v2(probe, psize, ob.0, osize);
        match r {
            Some((c, d)) => {
                match c {
                    Collision::Left => if velocity.x > 0 {
                        velocity.x = 0;
                    },
                    Collision::Right => if velocity.x < 0 {
                        velocity.x = 0;
                    },
                    Collision::Top => {
                        if velocity.y < 0 {
                            let tpd: i64 = cfg.snap_tolerance + cfg.snap_dead_zone;
                            if d < -tpd {
                                proof {
                                    lemma_collide_top_depth(probe, psize_s, ob.0, osize);
                                }
                                position.y = position.y - d;
                            }
                            velocity.y = 0;
                        }
                    },
                    Collision::Bottom => if velocity.y > 0 {
                        velocity.y = 0;
                    },
                    Collision::Inside => {},
                }
                events.push(CollisionEvent);
            },
            None => {},
        }
        proof {
            assert(obstacles@.take(j + 1).drop_last() =~= obstacles@.take(j as int));
            assert(obstacles@.take(j + 1).last() == obstacles@[j as int]);
        }
        j = j + 1;
    }
    proof {
        assert(obstacles@.take(obstacles@.len() as int) =~= obstacles@);
    }
    events
}

/// Overlapping rectangles whose two axes both discriminate a side: the
/// tie-break returns the axis with the strictly smaller absolute penetration
/// depth (the horizontal one on an exact tie), and the chosen depth is never
/// larger in magnitude than the other axis's.
pub proof fn lemma_collide_picks_smaller_depth(
    a_pos: Vec2i,
    a_size: Vec2i,
    b_pos: Vec2i,
    b_size: Vec2i,
)
    requires
        overlaps(a_pos, a_size, b_pos, b_size),
        x_contact(a_pos, a_size, b_pos, b_size) is Some,
        y_contact(a_pos, a_size, b_pos, b_size) is Some,
    ensures
        ({
            let xc = x_contact(a_pos, a_size, b_pos, b_size)->Some_0;
            let yc = y_contact(a_pos, a_size, b_pos, b_size)->Some_0;
            let r = collide_spec(a_pos, a_size, b_pos, b_size);
            &&& r == Some(
                if abs(yc.1) < abs(xc.1) {
                    yc
                } else {
                    xc
                },
            )
            &&& abs(r->Some_0.1) <= abs(xc.1)
            &&& abs(r->Some_0.1) <= abs(yc.1)
            &&& abs(xc.1) != abs(yc.1) ==> abs(r->Some_0.1) < abs(
                (
                if abs(yc.1) < abs(xc.1) {
                    xc
                } else {
                    yc
                }).1,
            )
        }),
{
}

/// Sign convention of the resolver: a contact approached from the left has a
/// strictly negative depth, equal to the gap-closing distance; shifting the
/// actor horizontally by that depth leaves the rectangles just touching.
pub proof fn lemma_left_depth_gap_closing(a_pos: Vec2i, a_size: Vec2i, b_pos: Vec2i, b_size: Vec2i)
    requires
        x_contact(a_pos, a_size, b_pos, b_size) is Some,
        x_contact(a_pos, a_size, b_pos, b_size)->Some_0.0 == Collision::Left,
    ensures
        ({
            let d = x_contact(a_pos, a_size, b_pos, b_size)->Some_0.1;
            &&& d < 0
            &&& rect_max_x(a_pos, a_size) + d == rect_min_x(b_pos, b_size)
        }),
{
}

/// The resolver is a pure function of its rectangles: any two results that
/// satisfy its contract on the same inputs are equal, so calling it twice
/// with identical inputs yields identical output.
pub proof fn lemma_collide_deterministic(
    a_pos: Vec2i,
    a_size: Vec2i,
    b_pos: Vec2i,
    b_size: Vec2i,
    r1: Option<(Collision, i64)>,
    r2: Option<(Collision, i64)>,
)
    requires
        collide_post(a_pos, a_size, b_pos, b_size, r1),
        collide_post(a_pos, a_size, b_pos, b_size, r2),
    ensures
        r1 == r2,
{
}

} // verus!
