//! The controlled actor: its collider shape and its kinematic state.

use vstd::prelude::*;

use crate::geom::{edge_high, edge_low, in_unit_range, vec2_in_range, Vec2i};

verus! {

/// The actor's collider shape, fixed per run: half-extents of its
/// axis-aligned bounding box and the box's displacement from the actor's
/// position.
#[derive(Clone, Copy, Debug, PartialEq, Eq, Structural)]
pub struct Player {
    pub collider_half: Vec2i,
    pub collider_offset: Vec2i,
}

/// Whether the shape's coordinates are within the accepted range.
pub open spec fn shape_in_range(shape: Player) -> bool {
    vec2_in_range(shape.collider_half) && vec2_in_range(shape.collider_offset)
}

/// The left edge of the actor's collider when the actor stands at `x`.
pub open spec fn actor_left(shape: Player, x: int) -> int {
    edge_low(x, shape.collider_offset.x as int, shape.collider_half.x as int)
}

/// The right edge of the actor's collider when the actor stands at `x`.
pub open spec fn actor_right(shape: Player, x: int) -> int {
    edge_high(x, shape.collider_offset.x as int, shape.collider_half.x as int)
}

/// The bottom edge of the actor's collider when the actor stands at `y`.
pub open spec fn actor_bottom(shape: Player, y: int) -> int {
    edge_low(y, shape.collider_offset.y as int, shape.collider_half.y as int)
}

/// The top edge of the actor's collider when the actor stands at `y`.
pub open spec fn actor_top(shape: Player, y: int) -> int {
    edge_high(y, shape.collider_offset.y as int, shape.collider_half.y as int)
}

/// The actor's kinematic state. `speed` is the signed horizontal velocity,
/// set only by action events; `vertical_velocity` is positive upward;
/// `jumping` is true whenever the actor is airborne (not resting on a
/// floor).
#[derive(Clone, Copy, Debug, PartialEq, Eq, Structural)]
pub struct MovementController {
    pub speed: i64,
    pub jumping: bool,
    pub vertical_velocity: i64,
}

impl MovementController {
    /// A controller at rest: no horizontal speed, grounded, no vertical
    /// velocity.
    pub fn new() -> (c: MovementController)
        ensures
            c.speed == 0,
            !c.jumping,
            c.vertical_velocity == 0,
    {
        MovementController { speed: 0, jumping: false, vertical_velocity: 0 }
    }

    /// Whether the controller's velocities are within the accepted range.
    pub open spec fn in_range(self) -> bool {
        in_unit_range(self.speed as int) && in_unit_range(self.vertical_velocity as int)
    }
}

} // verus!
