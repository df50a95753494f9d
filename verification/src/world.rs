//! Static obstacles: the per-tick snapshot of the level's colliders.
//!
//! Obstacles never move; the registry is a plain vector rebuilt wholesale
//! whenever the level changes, and the core only reads it. Each obstacle is
//! an axis-aligned rectangle, optionally tagged as a hazard (spikes).

use vstd::prelude::*;

use crate::geom::{edge_high, edge_low, vec2_in_range, Vec2i};

verus! {

/// One static collider: an axis-aligned rectangle placed at `position`,
/// with its collider displaced by `offset` and extending `half_bounds`
/// from that displaced center on each axis. `is_hazard` marks spikes,
/// whose edge contact is terminal.
#[derive(Clone, Copy, Debug, PartialEq, Eq, Structural)]
pub struct Obstacle {
    pub position: Vec2i,
    pub half_bounds: Vec2i,
    pub offset: Vec2i,
    pub is_hazard: bool,
}

/// The left edge of an obstacle's collider.
pub open spec fn ob_left(o: Obstacle) -> int {
    edge_low(o.position.x as int, o.offset.x as int, o.half_bounds.x as int)
}

/// The right edge of an obstacle's collider.
pub open spec fn ob_right(o: Obstacle) -> int {
    edge_high(o.position.x as int, o.offset.x as int, o.half_bounds.x as int)
}

/// The bottom edge of an obstacle's collider.
pub open spec fn ob_bottom(o: Obstacle) -> int {
    edge_low(o.position.y as int, o.offset.y as int, o.half_bounds.y as int)
}

/// The top edge of an obstacle's collider.
pub open spec fn ob_top(o: Obstacle) -> int {
    edge_high(o.position.y as int, o.offset.y as int, o.half_bounds.y as int)
}

/// Whether all of an obstacle's coordinates are within the accepted range.
pub open spec fn ob_in_range(o: Obstacle) -> bool {
    vec2_in_range(o.position) && vec2_in_range(o.half_bounds) && vec2_in_range(o.offset)
}

/// Whether every obstacle of a snapshot is within the accepted range.
pub open spec fn obs_in_range(obs: Seq<Obstacle>) -> bool {
    forall|i: int| 0 <= i < obs.len() ==> ob_in_range(#[trigger] obs[i])
}

impl Obstacle {
    /// Computes the left edge of this obstacle's collider.
    pub fn left(&self) -> (r: i64)
        requires
            ob_in_range(*self),
        ensures
            r == ob_left(*self),
    {
        self.position.x + self.offset.x - self.half_bounds.x
    }

    /// Computes the right edge of this obstacle's collider.
    pub fn right(&self) -> (r: i64)
        requires
            ob_in_range(*self),
        ensures
            r == ob_right(*self),
    {
        self.position.x + self.offset.x + self.half_bounds.x
    }

    /// Computes the bottom edge of this obstacle's collider.
    pub fn bottom(&self) -> (r: i64)
        requires
            ob_in_range(*self),
        ensures
            r == ob_bottom(*self),
    {
        self.position.y + self.offset.y - self.half_bounds.y
    }

    /// Computes the top edge of this obstacle's collider.
    pub fn top(&self) -> (r: i64)
        requires
            ob_in_range(*self),
        ensures
            r == ob_top(*self),
    {
        self.position.y + self.offset.y + self.half_bounds.y
    }
}

} // verus!
