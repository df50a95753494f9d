//! The movement resolver: the executable implementation of one tick,
//! verified against the model in [`crate::model`].

use vstd::prelude::*;

use crate::actor::{shape_in_range, MovementController, Player};
use crate::config::SimConfig;
use crate::geom::{edge_in_range, eval_spans_overlap, travel_in_range, vec2_in_range, Vec2i,
    MAX_DT, MAX_UNIT};
use crate::model::{ctrl_inv, ctrl_view, nearest_ceiling, nearest_floor, nearest_wall, state_view,
    tick};
use crate::world::{obs_in_range, Obstacle};

verus! {

/// The abstract view of an optional machine-width coordinate.
pub open spec fn opt_view(o: Option<i64>) -> Option<int> {
    match o {
        None => None,
        Some(v) => Some(v as int),
    }
}

/// Whether an optional edge coordinate is within the range an edge can
/// take.
pub open spec fn opt_edge_in_range(o: Option<i64>) -> bool {
    match o {
        None => true,
        Some(v) => edge_in_range(v as int),
    }
}

/// A velocity scaled by a tick length stays within `2^60`, so adding it
/// to a coordinate cannot overflow a machine word.
pub proof fn lemma_velocity_step_bounds(v: int, dt: int)
    requires
        -MAX_UNIT <= v <= MAX_UNIT,
        0 <= dt <= MAX_DT,
    ensures
        -0x1000_0000_0000_0000 <= v * dt <= 0x1000_0000_0000_0000,
{
    assert(-0x1000_0000_0000_0000 <= v * dt <= 0x1000_0000_0000_0000) by (nonlinear_arith)
        requires
            -0x100_0000_0000 <= v <= 0x100_0000_0000,
            0 <= dt <= 0x10_0000,
    ;
}

/// One resolver tick.
///
/// Moves the actor horizontally against the nearest blocking wall to the
/// right, then vertically against the nearest floor or ceiling in the
/// direction of the current vertical velocity, integrating gravity and
/// updating the airborne flag. Returns the signed horizontal displacement
/// actually applied. The state after the call is exactly what the model's
/// [`tick`] predicts, and the kinematic invariant (grounded implies no
/// vertical velocity) is preserved.
#[verifier::loop_isolation(false)]
#[verifier::rlimit(60)]
pub fn apply_movement(
    cfg: &SimConfig,
    shape: &Player,
    controller: &mut MovementController,
    position: &mut Vec2i,
    obstacles: &Vec<Obstacle>,
    dt: i64,
) -> (moved: i64)
    requires
        cfg.wf(),
        shape_in_range(*shape),
        old(controller).in_range(),
        vec2_in_range(*old(position)),
        obs_in_range(obstacles@),
        0 <= dt <= MAX_DT,
    ensures
        ({
            let t = tick(
                *cfg,
                *shape,
                obstacles@,
                state_view(*old(controller), *old(position)),
                dt as int,
            );
            &&& state_view(*final(controller), *final(position)) == t.state
            &&& moved == t.moved
        }),
        ctrl_inv(ctrl_view(*old(controller))) ==> ctrl_inv(ctrl_view(*final(controller))),
        -0x2000_0000_0000_0000 <= moved <= 0x2000_0000_0000_0000,
        travel_in_range(final(position).x as int),
        travel_in_range(final(position).y as int),
{
    let x0: i64 = position.x;
    let y0: i64 = position.y;
    proof {
        lemma_velocity_step_bounds(controller.speed as int, dt as int);
        lemma_velocity_step_bounds(controller.vertical_velocity as int, dt as int);
        lemma_velocity_step_bounds(cfg.gravity as int, dt as int);
    }

    // The actor's edges before any movement.
    let p_left: i64 = x0 + shape.collider_offset.x - shape.collider_half.x;
    let p_right: i64 = x0 + shape.collider_offset.x + shape.collider_half.x;
    let p_top: i64 = y0 + shape.collider_offset.y + shape.collider_half.y;
    let p_bottom: i64 = y0 + shape.collider_offset.y - shape.collider_half.y;

    // Find the nearest wall the actor could run into while moving
    // rightward: least left edge among vertically overlapping obstacles
    // at or beyond the actor's right edge.
    let mut wall: Option<i64> = None;
    let mut i: usize = 0;
    while i < obstacles.len()
        invariant
            0 <= i <= obstacles@.len(),
            opt_view(wall) == nearest_wall(*shape, x0 as int, y0 as int, obstacles@.subrange(0, i as int)),
            opt_edge_in_range(wall),
        decreases obstacles@.len() - i,
    {
        let o = obstacles[i];
        let o_left: i64 = o.position.x + o.offset.x - o.half_bounds.x;
        let o_top: i64 = o.position.y + o.offset.y + o.half_bounds.y;
        let o_bottom: i64 = o.position.y + o.offset.y - o.half_bounds.y;
        if eval_spans_overlap(p_bottom, p_top, o_bottom, o_top) && p_right <= o_left {
            wall = match wall {
                None => Some(o_left),
                Some(w) => if o_left < w {
                    Some(o_left)
                } else {
                    Some(w)
                },
            };
        }
        proof {
            assert(obstacles@.subrange(0, i + 1 as int).drop_last()
                =~= obstacles@.subrange(0, i as int));
            assert(obstacles@.subrange(0, i + 1 as int).last() == obstacles@[i as int]);
        }
        i = i + 1;
    }
    proof {
        assert(obstacles@.subrange(0, obstacles@.len() as int) =~= obstacles@);
    }

    // Move horizontally. Leftward motion is never obstructed. Rightward
    // motion is clamped so the actor's right edge never passes the
    // blocking wall's left edge; an actor already touching the wall
    // (within the contact tolerance) does not move further right.
    match wall {
        Some(w) => {
            if controller.speed < 0 {
                position.x = x0 + controller.speed * dt;
            } else if w - p_right > cfg.contact_tolerance {
                let proposed: i64 = x0 + controller.speed * dt;
                let limit: i64 = w - shape.collider_offset.x - shape.collider_half.x;
                position.x = if proposed < limit {
                    proposed
                } else {
                    limit
                };
            }
        },
        None => {
            position.x = x0 + controller.speed * dt;
        },
    }
    let moved: i64 = position.x - x0;

    // The actor's horizontal edges after the horizontal pass; vertical
    // blocking is decided with these.
    let x2: i64 = position.x;
    let p_left2: i64 = x2 + shape.collider_offset.x - shape.collider_half.x;
    let p_right2: i64 = x2 + shape.collider_offset.x + shape.collider_half.x;

    // Find the nearest floor below (falling or at rest) or ceiling above
    // (rising) among horizontally overlapping obstacles.
    let falling: bool = controller.vertical_velocity <= 0;
    let mut surface: Option<i64> = None;
    let mut j: usize = 0;
    while j < obstacles.len()
        invariant
            0 <= j <= obstacles@.len(),
            falling ==> opt_view(surface) == nearest_floor(
                *shape,
                x2 as int,
                y0 as int,
                obstacles@.subrange(0, j as int),
            ),
            !falling ==> opt_view(surface) == nearest_ceiling(
                *shape,
                x2 as int,
                y0 as int,
                obstacles@.subrange(0, j as int),
            ),
            opt_edge_in_range(surface),
        decreases obstacles@.len() - j,
    {
        let o = obstacles[j];
        let o_left: i64 = o.position.x + o.offset.x - o.half_bounds.x;
        let o_right: i64 = o.position.x + o.offset.x + o.half_bounds.x;
        let o_top: i64 = o.position.y + o.offset.y + o.half_bounds.y;
        let o_bottom: i64 = o.position.y + o.offset.y - o.half_bounds.y;
        if falling {
            if eval_spans_overlap(p_left2, p_right2, o_left, o_right) && o_top <= p_bottom {
                surface = match surface {
                    None => Some(o_top),
                    Some(t) => if o_top > t {
                        Some(o_top)
                    } else {
                        Some(t)
                    },
                };
            }
        } else {
            if eval_spans_overlap(p_left2, p_right2, o_left, o_right) && o_bottom >= p_top {
                surface = match surface {
                    None => Some(o_bottom),
                    Some(b) => if o_bottom < b {
                        Some(o_bottom)
                    } else {
                        Some(b)
                    },
                };
            }
        }
        proof {
            assert(obstacles@.subrange(0, j + 1 as int).drop_last()
                =~= obstacles@.subrange(0, j as int));
            assert(obstacles@.subrange(0, j + 1 as int).last() == obstacles@[j as int]);
        }
        j = j + 1;
    }
    proof {
        assert(obstacles@.subrange(0, obstacles@.len() as int) =~= obstacles@);
    }

    // Move downwards or upwards, clamped at the surface; landing zeroes
    // the vertical velocity and grounds the actor, bumping a ceiling only
    // zeroes the velocity.
    match surface {
        Some(sfc) => {
            if falling {
                if p_bottom - sfc > cfg.contact_tolerance {
                    let proposed: i64 = y0 + controller.vertical_velocity * dt;
                    let floor_y: i64 = sfc - shape.collider_offset.y + shape.collider_half.y;
                    position.y = if proposed > floor_y {
                        proposed
                    } else {
                        floor_y
                    };
                    if position.y - floor_y > cfg.contact_tolerance {
                        controller.vertical_velocity =
                            controller.vertical_velocity - cfg.gravity * dt;
                        controller.jumping = true;
                    } else {
                        controller.vertical_velocity = 0;
                        controller.jumping = false;
                    }
                } else {
                    // Already touching the floor: at rest on it as soon
                    // as any time passes; a zero-length tick changes
                    // nothing.
                    if dt != 0 {
                        controller.vertical_velocity = 0;
                        controller.jumping = false;
                    }
                }
            } else {
                if sfc - p_top > cfg.contact_tolerance {
                    let proposed: i64 = y0 + controller.vertical_velocity * dt;
                    let ceiling_y: i64 = sfc - shape.collider_offset.y - shape.collider_half.y;
                    position.y = if proposed < ceiling_y {
                        proposed
                    } else {
                        ceiling_y
                    };
                    if ceiling_y - position.y > cfg.contact_tolerance {
                        controller.vertical_velocity =
                            controller.vertical_velocity - cfg.gravity * dt;
                    } else {
                        controller.vertical_velocity = 0;
                    }
                } else {
                    // Head already against the ceiling: gravity still pulls.
                    controller.vertical_velocity =
                        controller.vertical_velocity - cfg.gravity * dt;
                }
                controller.jumping = true;
            }
        },
        None => {
            position.y = y0 + controller.vertical_velocity * dt;
            controller.vertical_velocity = controller.vertical_velocity - cfg.gravity * dt;
            controller.jumping = true;
        },
    }

    moved
}

} // verus!
