//! The action dispatcher: discrete external action events and their
//! edge-triggered effect on the actor's kinematic state.

use vstd::prelude::*;
use vstd::math::{max, min};

use crate::actor::MovementController;
use crate::config::SimConfig;
use crate::model::{ctrl_inv, ctrl_view, CtrlState};

verus! {

/// A discrete action request from the external driver.
#[derive(Clone, Copy, Debug, PartialEq, Eq, Structural)]
pub enum PlayerAction {
    /// Set the horizontal speed, in units per time unit.
    SetSpeed(i64),
    /// Launch off the ground; ignored while airborne.
    Jump,
    /// Slow a fall toward the float limit; ignored while grounded or when
    /// already at or above the limit.
    Float,
    /// Hasten a fall toward the dive limit; ignored while grounded or when
    /// already at or below the limit.
    Dive,
}

/// The effect of one action on the kinematic state.
///
/// Jump fires only while grounded. Float and Dive fire only while
/// airborne and only while the vertical velocity has not yet reached
/// their limit; each moves the velocity toward its limit and clamps at
/// it, so repeated requests converge on the limit rather than overshoot.
pub open spec fn action_result(cfg: SimConfig, c: CtrlState, a: PlayerAction) -> CtrlState {
    match a {
        PlayerAction::SetSpeed(v) => CtrlState { speed: v as int, vv: c.vv, airborne: c.airborne },
        PlayerAction::Jump => {
            if !c.airborne {
                CtrlState { speed: c.speed, vv: cfg.jump_velocity as int, airborne: true }
            } else {
                c
            }
        },
        PlayerAction::Float => {
            if c.airborne && c.vv < cfg.float_limit {
                CtrlState {
                    speed: c.speed,
                    vv: min(c.vv + cfg.float_velocity, cfg.float_limit as int),
                    airborne: c.airborne,
                }
            } else {
                c
            }
        },
        PlayerAction::Dive => {
            if c.airborne && c.vv > cfg.dive_limit {
                CtrlState {
                    speed: c.speed,
                    vv: max(c.vv + cfg.dive_velocity, cfg.dive_limit as int),
                    airborne: c.airborne,
                }
            } else {
                c
            }
        },
    }
}

/// Applies one action request to the controller, exactly as
/// [`action_result`] describes. Preserves the kinematic invariant
/// (grounded implies no vertical velocity) for every action but
/// `SetSpeed`, which does not touch it at all.
pub fn do_player_action(
    cfg: &SimConfig,
    controller: &mut MovementController,
    action: &PlayerAction,
)
    requires
        cfg.wf(),
        old(controller).in_range(),
    ensures
        ctrl_view(*final(controller)) == action_result(*cfg, ctrl_view(*old(controller)), *action),
        ctrl_inv(ctrl_view(*old(controller))) ==> ctrl_inv(ctrl_view(*final(controller))),
{
    match action {
        PlayerAction::SetSpeed(v) => {
            controller.speed = *v;
        },
        PlayerAction::Jump => {
            if !controller.jumping {
                controller.jumping = true;
                controller.vertical_velocity = cfg.jump_velocity;
            }
        },
        PlayerAction::Float => {
            if controller.jumping && controller.vertical_velocity < cfg.float_limit {
                let raised: i64 = controller.vertical_velocity + cfg.float_velocity;
                controller.vertical_velocity = if raised < cfg.float_limit {
                    raised
                } else {
                    cfg.float_limit
                };
            }
        },
        PlayerAction::Dive => {
            if controller.jumping && controller.vertical_velocity > cfg.dive_limit {
                let lowered: i64 = controller.vertical_velocity + cfg.dive_velocity;
                controller.vertical_velocity = if lowered > cfg.dive_limit {
                    lowered
                } else {
                    cfg.dive_limit
                };
            }
        },
    }
}

} // verus!
