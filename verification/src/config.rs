//! Simulation constants, fixed for the lifetime of a run.
//!
//! All values share the caller's world unit and time unit: velocities are
//! units per time unit, gravity is units per time unit squared. The contact
//! tolerance governs every "touching" decision, in the resolver and in the
//! hazard detector alike, so collision and death detection agree at
//! boundaries.

use vstd::prelude::*;

use crate::geom::in_unit_range;

verus! {

/// The fixed configuration of a simulation.
#[derive(Clone, Copy, Debug)]
pub struct SimConfig {
    /// Downward acceleration while airborne, in units per time unit squared.
    pub gravity: i64,
    /// Vertical velocity set by a jump, in units per time unit.
    pub jump_velocity: i64,
    /// Velocity added by a float, in units per time unit.
    pub float_velocity: i64,
    /// Greatest vertical velocity a float may reach.
    pub float_limit: i64,
    /// Velocity added by a dive (negative), in units per time unit.
    pub dive_velocity: i64,
    /// Least vertical velocity a dive may reach.
    pub dive_limit: i64,
    /// Distance within which two edges count as touching.
    pub contact_tolerance: i64,
    /// Half the width of the level.
    pub level_half_width: i64,
    /// Half the width of the actor's sprite, used by the level-wrap trigger.
    pub player_image_half: i64,
    /// Number of distinct levels the advance-level signal cycles through.
    pub total_levels: u32,
}

impl SimConfig {
    /// Well-formedness: gravity pulls downward (or is off), the contact
    /// tolerance is a distance, at least one level exists, and every value
    /// is within the accepted coordinate range.
    pub open spec fn wf(self) -> bool {
        &&& self.gravity >= 0
        &&& self.contact_tolerance >= 0
        &&& self.total_levels >= 1
        &&& in_unit_range(self.gravity as int)
        &&& in_unit_range(self.jump_velocity as int)
        &&& in_unit_range(self.float_velocity as int)
        &&& in_unit_range(self.float_limit as int)
        &&& in_unit_range(self.dive_velocity as int)
        &&& in_unit_range(self.dive_limit as int)
        &&& in_unit_range(self.contact_tolerance as int)
        &&& in_unit_range(self.level_half_width as int)
        &&& in_unit_range(self.player_image_half as int)
    }
}

} // verus!
