//! The mathematical model of one resolver tick.
//!
//! A tick advances the actor horizontally against the nearest blocking wall
//! to the right, then vertically against the nearest floor or ceiling in
//! the direction of the current vertical velocity, integrating gravity and
//! updating the airborne flag. The vertical pass reads the actor's
//! horizontal edges after the horizontal pass has completed.
//!
//! Blocking is rightward only: leftward movement is never obstructed,
//! even for an actor standing against a wall. This is a deliberate
//! simplification for a game that scrolls in one direction.
//!
//! Everything here is specification; [`crate::resolver`] implements it and
//! [`crate::laws`] proves properties of it.

use vstd::prelude::*;
use vstd::math::{max, min};

use crate::actor::{actor_bottom, actor_left, actor_right, actor_top, MovementController, Player};
use crate::config::SimConfig;
use crate::geom::{spans_overlap, Vec2i};
use crate::world::{ob_bottom, ob_left, ob_right, ob_top, Obstacle};

verus! {

/// The kinematic part of the actor's state, as mathematical integers.
/// `vv` is the vertical velocity, positive upward; `airborne` is false
/// exactly while the actor rests on a floor.
pub ghost struct CtrlState {
    pub speed: int,
    pub vv: int,
    pub airborne: bool,
}

/// The full per-tick state of the actor: its position and its kinematics.
pub ghost struct SimState {
    pub x: int,
    pub y: int,
    pub ctrl: CtrlState,
}

/// What one tick produces: the new state and the signed horizontal
/// displacement actually applied.
pub ghost struct TickResult {
    pub state: SimState,
    pub moved: int,
}

/// The kinematic invariant: a grounded actor has no vertical velocity.
/// Every resolver tick preserves this.
pub open spec fn ctrl_inv(c: CtrlState) -> bool {
    !c.airborne ==> c.vv == 0
}

/// The abstract view of an executable controller.
pub open spec fn ctrl_view(c: MovementController) -> CtrlState {
    CtrlState {
        speed: c.speed as int,
        vv: c.vertical_velocity as int,
        airborne: c.jumping,
    }
}

/// The abstract view of an executable controller together with a position.
pub open spec fn state_view(c: MovementController, position: Vec2i) -> SimState {
    SimState { x: position.x as int, y: position.y as int, ctrl: ctrl_view(c) }
}

/// Whether `o` is a wall the actor could run into while moving rightward:
/// it overlaps the actor vertically and its left edge is at or beyond the
/// actor's right edge.
pub open spec fn wall_candidate(shape: Player, x: int, y: int, o: Obstacle) -> bool {
    &&& spans_overlap(actor_bottom(shape, y), actor_top(shape, y), ob_bottom(o), ob_top(o))
    &&& actor_right(shape, x) <= ob_left(o)
}

/// The left edge of the nearest wall candidate, if any: the least left
/// edge among candidates, since all distances are measured from the same
/// right edge of the actor.
pub open spec fn nearest_wall(shape: Player, x: int, y: int, obs: Seq<Obstacle>) -> Option<int>
    decreases obs.len(),
{
    if obs.len() == 0 {
        None
    } else {
        let prev = nearest_wall(shape, x, y, obs.drop_last());
        let o = obs.last();
        if wall_candidate(shape, x, y, o) {
            match prev {
                None => Some(ob_left(o)),
                Some(l) => Some(min(l, ob_left(o))),
            }
        } else {
            prev
        }
    }
}

/// Whether `o` is a floor the actor could land on: it overlaps the actor
/// horizontally (at the post-horizontal-pass position `x`) and its top
/// edge is at or below the actor's bottom edge.
pub open spec fn floor_candidate(shape: Player, x: int, y: int, o: Obstacle) -> bool {
    &&& spans_overlap(actor_left(shape, x), actor_right(shape, x), ob_left(o), ob_right(o))
    &&& ob_top(o) <= actor_bottom(shape, y)
}

/// The top edge of the nearest floor candidate, if any: the greatest top
/// edge among candidates, since all are at or below the actor's bottom.
pub open spec fn nearest_floor(shape: Player, x: int, y: int, obs: Seq<Obstacle>) -> Option<int>
    decreases obs.len(),
{
    if obs.len() == 0 {
        None
    } else {
        let prev = nearest_floor(shape, x, y, obs.drop_last());
        let o = obs.last();
        if floor_candidate(shape, x, y, o) {
            match prev {
                None => Some(ob_top(o)),
                Some(t) => Some(max(t, ob_top(o))),
            }
        } else {
            prev
        }
    }
}

/// Whether `o` is a ceiling the actor could bump into: it overlaps the
/// actor horizontally (at the post-horizontal-pass position `x`) and its
/// bottom edge is at or above the actor's top edge.
pub open spec fn ceiling_candidate(shape: Player, x: int, y: int, o: Obstacle) -> bool {
    &&& spans_overlap(actor_left(shape, x), actor_right(shape, x), ob_left(o), ob_right(o))
    &&& ob_bottom(o) >= actor_top(shape, y)
}

/// The bottom edge of the nearest ceiling candidate, if any: the least
/// bottom edge among candidates, since all are at or above the actor's top.
pub open spec fn nearest_ceiling(shape: Player, x: int, y: int, obs: Seq<Obstacle>) -> Option<int>
    decreases obs.len(),
{
    if obs.len() == 0 {
        None
    } else {
        let prev = nearest_ceiling(shape, x, y, obs.drop_last());
        let o = obs.last();
        if ceiling_candidate(shape, x, y, o) {
            match prev {
                None => Some(ob_bottom(o)),
                Some(b) => Some(min(b, ob_bottom(o))),
            }
        } else {
            prev
        }
    }
}

/// The actor's position that places its right edge exactly on a wall whose
/// left edge is `wall_left`.
pub open spec fn x_touching_wall(shape: Player, wall_left: int) -> int {
    wall_left - shape.collider_offset.x - shape.collider_half.x
}

/// The actor's position that places its bottom edge exactly on a floor
/// whose top edge is `floor_top`.
pub open spec fn y_on_floor(shape: Player, floor_top: int) -> int {
    floor_top - shape.collider_offset.y + shape.collider_half.y
}

/// The actor's position that places its top edge exactly on a ceiling
/// whose bottom edge is `ceiling_bottom`.
pub open spec fn y_under_ceiling(shape: Player, ceiling_bottom: int) -> int {
    ceiling_bottom - shape.collider_offset.y - shape.collider_half.y
}

/// The horizontal pass: the actor's new position. Leftward motion is
/// never obstructed: with a negative speed the actor always moves the
/// full `speed * dt`. Rightward, with no wall candidate the actor moves
/// unobstructed; with one, it moves only if it is not already touching
/// the wall (within the contact tolerance), clamped so its right edge
/// never passes the wall's left edge.
pub open spec fn horizontal_pass(
    cfg: SimConfig,
    shape: Player,
    obs: Seq<Obstacle>,
    s: SimState,
    dt: int,
) -> int {
    match nearest_wall(shape, s.x, s.y, obs) {
        None => s.x + s.ctrl.speed * dt,
        Some(wl) => {
            if s.ctrl.speed < 0 {
                s.x + s.ctrl.speed * dt
            } else if wl - actor_right(shape, s.x) > cfg.contact_tolerance {
                min(s.x + s.ctrl.speed * dt, x_touching_wall(shape, wl))
            } else {
                s.x
            }
        },
    }
}

/// What the vertical pass produces.
pub ghost struct VerticalResult {
    pub y: int,
    pub vv: int,
    pub airborne: bool,
}

/// The vertical pass, at the post-horizontal-pass position `x`.
///
/// Falling or at rest (`vv <= 0`): against the nearest floor. Already
/// touching it (within tolerance): the actor is on the floor — it stays
/// put and, as soon as any time passes, rests there grounded with no
/// vertical velocity (a zero-length tick changes nothing). Otherwise the
/// fall is clamped so the actor's bottom never passes the floor's top; if
/// the actor ends on the floor (within tolerance) it lands — vertical
/// velocity zeroed, grounded — else gravity integrates and it is
/// airborne. With no floor below the actor free-falls.
///
/// Rising (`vv > 0`): symmetric against the nearest ceiling, except that
/// hitting a ceiling only zeroes the vertical velocity; the actor stays
/// airborne.
pub open spec fn vertical_pass(
    cfg: SimConfig,
    shape: Player,
    obs: Seq<Obstacle>,
    x: int,
    s: SimState,
    dt: int,
) -> VerticalResult {
    if s.ctrl.vv <= 0 {
        match nearest_floor(shape, x, s.y, obs) {
            Some(ft) => {
                if actor_bottom(shape, s.y) - ft <= cfg.contact_tolerance {
                    if dt == 0 {
                        VerticalResult { y: s.y, vv: s.ctrl.vv, airborne: s.ctrl.airborne }
                    } else {
                        VerticalResult { y: s.y, vv: 0, airborne: false }
                    }
                } else {
                    let y2 = max(s.y + s.ctrl.vv * dt, y_on_floor(shape, ft));
                    if y2 - y_on_floor(shape, ft) > cfg.contact_tolerance {
                        VerticalResult { y: y2, vv: s.ctrl.vv - cfg.gravity * dt, airborne: true }
                    } else {
                        VerticalResult { y: y2, vv: 0, airborne: false }
                    }
                }
            },
            None => {
                VerticalResult {
                    y: s.y + s.ctrl.vv * dt,
                    vv: s.ctrl.vv - cfg.gravity * dt,
                    airborne: true,
                }
            },
        }
    } else {
        match nearest_ceiling(shape, x, s.y, obs) {
            Some(cb) => {
                if cb - actor_top(shape, s.y) <= cfg.contact_tolerance {
                    VerticalResult { y: s.y, vv: s.ctrl.vv - cfg.gravity * dt, airborne: true }
                } else {
                    let y2 = min(s.y + s.ctrl.vv * dt, y_under_ceiling(shape, cb));
                    if y_under_ceiling(shape, cb) - y2 > cfg.contact_tolerance {
                        VerticalResult { y: y2, vv: s.ctrl.vv - cfg.gravity * dt, airborne: true }
                    } else {
                        VerticalResult { y: y2, vv: 0, airborne: true }
                    }
                }
            },
            None => {
                VerticalResult {
                    y: s.y + s.ctrl.vv * dt,
                    vv: s.ctrl.vv - cfg.gravity * dt,
                    airborne: true,
                }
            },
        }
    }
}

/// One full resolver tick: the horizontal pass, then the vertical pass at
/// the new horizontal position. `moved` is the signed horizontal
/// displacement actually applied, fed to the external distance
/// accumulator.
pub open spec fn tick(
    cfg: SimConfig,
    shape: Player,
    obs: Seq<Obstacle>,
    s: SimState,
    dt: int,
) -> TickResult {
    let x2 = horizontal_pass(cfg, shape, obs, s, dt);
    let v = vertical_pass(cfg, shape, obs, x2, s, dt);
    TickResult {
        state: SimState {
            x: x2,
            y: v.y,
            ctrl: CtrlState { speed: s.ctrl.speed, vv: v.vv, airborne: v.airborne },
        },
        moved: x2 - s.x,
    }
}

/// The state after `n` resolver ticks of length `dt` with no intervening
/// action events.
pub open spec fn run_ticks(
    cfg: SimConfig,
    shape: Player,
    obs: Seq<Obstacle>,
    s: SimState,
    dt: int,
    n: nat,
) -> SimState
    decreases n,
{
    if n == 0 {
        s
    } else {
        run_ticks(cfg, shape, obs, tick(cfg, shape, obs, s, dt).state, dt, (n - 1) as nat)
    }
}

} // verus!
