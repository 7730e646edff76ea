//! Plane vectors and the bounds under which the geometric arithmetic of this
//! crate stays inside `i64`.

use vstd::prelude::*;

verus! {

/// Every position coordinate, rectangle extent, velocity component,
/// acceleration and duration handled by this crate is expected to lie within
/// `[-COORD_LIMIT, COORD_LIMIT]`. The bound is generous enough for any
/// fixed-point world and keeps all intermediate sums, differences and
/// rate-times-duration products well inside `i64`.
pub const COORD_LIMIT: i64 = 1_000_000_000;

/// Looser bound for positions that arise transiently inside a tick: a probe
/// rectangle projected by one velocity step, or a position mid-correction,
/// stays within `[-PLAY_LIMIT, PLAY_LIMIT]` whenever the tick's inputs obey
/// `COORD_LIMIT`.
pub const PLAY_LIMIT: i64 = 8_000_000_000;

/// An integer point or extent in the plane.
#[derive(Clone, Copy, PartialEq, Eq, Structural, Debug)]
pub struct Vec2i {
    pub x: i64,
    pub y: i64,
}

impl Vec2i {
    /// Both components within the world bound.
    pub open spec fn in_world(self) -> bool {
        &&& -COORD_LIMIT <= self.x <= COORD_LIMIT
        &&& -COORD_LIMIT <= self.y <= COORD_LIMIT
    }

    /// Both components within the transient bound (see `PLAY_LIMIT`).
    pub open spec fn in_play(self) -> bool {
        &&& -PLAY_LIMIT <= self.x <= PLAY_LIMIT
        &&& -PLAY_LIMIT <= self.y <= PLAY_LIMIT
    }

    /// A valid rectangle extent: strictly positive on both axes.
    pub open spec fn is_size(self) -> bool {
        &&& 0 < self.x <= COORD_LIMIT
        &&& 0 < self.y <= COORD_LIMIT
    }

    pub fn new(x: i64, y: i64) -> (r: Self)
        ensures
            r.x == x,
            r.y == y,
    {
        Vec2i { x, y }
    }
}

} // verus!
