//! The hazard detector: edge-contact tests against every hazard obstacle,
//! run after the resolver has finished a tick.
//!
//! Contact uses the same tolerance as the resolver's touching decisions,
//! so collision and death detection agree at boundaries. Detection is a
//! pure read of the post-resolution position; it never mutates the
//! actor's state.

use vstd::prelude::*;

use crate::actor::{actor_bottom, actor_left, actor_right, actor_top, shape_in_range, Player};
use crate::config::SimConfig;
use crate::geom::{eval_spans_overlap, eval_within_tolerance, spans_overlap, travel_in_range,
    within_tolerance, Vec2i};
use crate::world::{ob_bottom, ob_left, ob_right, ob_top, obs_in_range, Obstacle};

verus! {

/// Whether the actor at `(x, y)` touches the hazard `o`: either the
/// hazard's left edge meets the actor's right edge with vertical overlap
/// (side contact), or the actor's bottom meets the hazard's top or the
/// hazard's bottom meets the actor's top with horizontal overlap
/// (top/bottom contact). All touching is within the contact tolerance.
pub open spec fn hazard_contact_with(
    cfg: SimConfig,
    shape: Player,
    x: int,
    y: int,
    o: Obstacle,
) -> bool {
    o.is_hazard && {
        ||| within_tolerance(ob_left(o), actor_right(shape, x), cfg.contact_tolerance as int)
            && spans_overlap(actor_bottom(shape, y), actor_top(shape, y), ob_bottom(o), ob_top(o))
        ||| (within_tolerance(actor_bottom(shape, y), ob_top(o), cfg.contact_tolerance as int)
            || within_tolerance(ob_bottom(o), actor_top(shape, y), cfg.contact_tolerance as int))
            && spans_overlap(actor_left(shape, x), actor_right(shape, x), ob_left(o), ob_right(o))
    }
}

/// Whether the actor touches any hazard in the snapshot.
pub open spec fn any_hazard_contact(
    cfg: SimConfig,
    shape: Player,
    x: int,
    y: int,
    obs: Seq<Obstacle>,
) -> bool {
    exists|i: int| 0 <= i < obs.len() && hazard_contact_with(cfg, shape, x, y, #[trigger] obs[i])
}

/// Tests the actor's edges against every hazard obstacle and reports
/// whether any contact occurred this tick. Contact is terminal: the
/// caller raises a single death signal, however many hazards touch.
#[verifier::loop_isolation(false)]
pub fn check_spike_collisions(
    cfg: &SimConfig,
    shape: &Player,
    position: &Vec2i,
    obstacles: &Vec<Obstacle>,
) -> (death: bool)
    requires
        cfg.wf(),
        shape_in_range(*shape),
        travel_in_range(position.x as int),
        travel_in_range(position.y as int),
        obs_in_range(obstacles@),
    ensures
        death == any_hazard_contact(
            *cfg,
            *shape,
            position.x as int,
            position.y as int,
            obstacles@,
        ),
{
    let p_left: i64 = position.x + shape.collider_offset.x - shape.collider_half.x;
    let p_right: i64 = position.x + shape.collider_offset.x + shape.collider_half.x;
    let p_top: i64 = position.y + shape.collider_offset.y + shape.collider_half.y;
    let p_bottom: i64 = position.y + shape.collider_offset.y - shape.collider_half.y;

    let mut found: bool = false;
    let mut i: usize = 0;
    while i < obstacles.len()
        invariant
            0 <= i <= obstacles@.len(),
            found == exists|k: int|
                0 <= k < i && hazard_contact_with(
                    *cfg,
                    *shape,
                    position.x as int,
                    position.y as int,
                    #[trigger] obstacles@[k],
                ),
        decreases obstacles@.len() - i,
    {
        let o = obstacles[i];
        if o.is_hazard {
            let o_left: i64 = o.position.x + o.offset.x - o.half_bounds.x;
            let o_right: i64 = o.position.x + o.offset.x + o.half_bounds.x;
            let o_top: i64 = o.position.y + o.offset.y + o.half_bounds.y;
            let o_bottom: i64 = o.position.y + o.offset.y - o.half_bounds.y;

            let side = eval_within_tolerance(o_left, p_right, cfg.contact_tolerance)
                && eval_spans_overlap(p_bottom, p_top, o_bottom, o_top);
            let top_bottom = (eval_within_tolerance(p_bottom, o_top, cfg.contact_tolerance)
                || eval_within_tolerance(o_bottom, p_top, cfg.contact_tolerance))
                && eval_spans_overlap(p_left, p_right, o_left, o_right);
            if side || top_bottom {
                found = true;
            }
        }
        i = i + 1;
    }
    found
}

} // verus!
