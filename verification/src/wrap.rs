//! The level-wrap trigger: detects the actor crossing the level's right
//! boundary and repositions it just past the left boundary, advancing the
//! level counter.

use vstd::prelude::*;

use crate::config::SimConfig;
use crate::geom::{travel_in_range, Vec2i};

verus! {

/// Whether the actor's sprite has fully left the level on the right: its
/// left sprite edge lies beyond the level's right boundary.
pub open spec fn past_right_boundary(cfg: SimConfig, x: int) -> bool {
    x - cfg.player_image_half > cfg.level_half_width
}

/// The position that places the actor's sprite just past the level's left
/// boundary.
pub open spec fn left_respawn_x(cfg: SimConfig) -> int {
    -cfg.level_half_width - cfg.player_image_half
}

/// Checks whether the actor has fully left the level on the right. If so,
/// moves it back to just past the left boundary, advances the level
/// counter, and returns the index of the level to spawn next, wrapping
/// modulo the total level count; otherwise changes nothing and returns
/// `None`.
pub fn wrap_within_level(
    cfg: &SimConfig,
    position: &mut Vec2i,
    current_level: &mut u32,
) -> (advance: Option<u32>)
    requires
        cfg.wf(),
        travel_in_range(old(position).x as int),
        *old(current_level) < u32::MAX,
    ensures
        final(position).y == old(position).y,
        past_right_boundary(*cfg, old(position).x as int) ==> {
            &&& final(position).x == left_respawn_x(*cfg)
            &&& *final(current_level) == *old(current_level) + 1
            &&& advance == Some(((*old(current_level) + 1) as u32) % cfg.total_levels)
        },
        !past_right_boundary(*cfg, old(position).x as int) ==> {
            &&& *final(position) == *old(position)
            &&& *final(current_level) == *old(current_level)
            &&& advance is None
        },
{
    let left_edge: i64 = position.x - cfg.player_image_half;
    if left_edge > cfg.level_half_width {
        position.x = -cfg.level_half_width - cfg.player_image_half;
        *current_level = *current_level + 1;
        Some(*current_level % cfg.total_levels)
    } else {
        None
    }
}

} // verus!
