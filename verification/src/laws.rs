//! Laws of the simulation, proved over the model in [`crate::model`]:
//! free motion, landing idempotence, the jump round trip, wall blocking,
//! and the float/dive clamps.

use vstd::prelude::*;

use crate::actions::{action_result, PlayerAction};
use crate::actor::{actor_bottom, actor_left, actor_right, actor_top, Player};
use crate::config::SimConfig;
use crate::model::{
    floor_candidate, nearest_ceiling, nearest_floor, nearest_wall, run_ticks, tick,
    wall_candidate, y_on_floor, CtrlState, SimState,
};
use crate::world::{ob_bottom, ob_left, ob_right, ob_top, Obstacle};

verus! {

// ---------------------------------------------------------------------
// Facts about the nearest-obstacle scans.
// ---------------------------------------------------------------------

/// The nearest wall lies no further than any wall candidate.
pub proof fn lemma_nearest_wall_at_most(
    shape: Player,
    x: int,
    y: int,
    obs: Seq<Obstacle>,
    i: int,
)
    requires
        0 <= i < obs.len(),
        wall_candidate(shape, x, y, obs[i]),
    ensures
        nearest_wall(shape, x, y, obs) is Some,
        nearest_wall(shape, x, y, obs)->Some_0 <= ob_left(obs[i]),
    decreases obs.len(),
{
    if i < obs.len() - 1 {
        lemma_nearest_wall_at_most(shape, x, y, obs.drop_last(), i);
    }
}

/// The nearest wall is never nearer than the actor's right edge: every
/// candidate's left edge is at or beyond it.
pub proof fn lemma_nearest_wall_lower_bound(shape: Player, x: int, y: int, obs: Seq<Obstacle>)
    ensures
        nearest_wall(shape, x, y, obs) matches Some(wl) ==> wl >= actor_right(shape, x),
    decreases obs.len(),
{
    if obs.len() > 0 {
        lemma_nearest_wall_lower_bound(shape, x, y, obs.drop_last());
    }
}

/// The nearest floor lies no lower than any floor candidate.
pub proof fn lemma_nearest_floor_at_least(
    shape: Player,
    x: int,
    y: int,
    obs: Seq<Obstacle>,
    i: int,
)
    requires
        0 <= i < obs.len(),
        floor_candidate(shape, x, y, obs[i]),
    ensures
        nearest_floor(shape, x, y, obs) is Some,
        nearest_floor(shape, x, y, obs)->Some_0 >= ob_top(obs[i]),
    decreases obs.len(),
{
    if i < obs.len() - 1 {
        lemma_nearest_floor_at_least(shape, x, y, obs.drop_last(), i);
    }
}

/// The nearest floor is never above the actor's bottom edge: every
/// candidate's top edge is at or below it.
pub proof fn lemma_nearest_floor_upper_bound(shape: Player, x: int, y: int, obs: Seq<Obstacle>)
    ensures
        nearest_floor(shape, x, y, obs) matches Some(ft) ==> ft <= actor_bottom(shape, y),
    decreases obs.len(),
{
    if obs.len() > 0 {
        lemma_nearest_floor_upper_bound(shape, x, y, obs.drop_last());
    }
}

// ---------------------------------------------------------------------
// Free motion: with no obstacles, one tick advances the actor by exactly
// its velocities and integrates gravity.
// ---------------------------------------------------------------------

/// With no obstacles, the horizontal position advances by exactly
/// `speed * dt`, the vertical position by exactly `vv * dt`, and the
/// vertical velocity decreases by exactly `gravity * dt`; the actor is
/// airborne afterwards.
pub proof fn lemma_free_motion(cfg: SimConfig, shape: Player, s: SimState, dt: int)
    ensures
        ({
            let t = tick(cfg, shape, Seq::<Obstacle>::empty(), s, dt);
            &&& t.state.x == s.x + s.ctrl.speed * dt
            &&& t.state.y == s.y + s.ctrl.vv * dt
            &&& t.state.ctrl.vv == s.ctrl.vv - cfg.gravity * dt
            &&& t.state.ctrl.airborne
            &&& t.state.ctrl.speed == s.ctrl.speed
            &&& t.moved == s.ctrl.speed * dt
        }),
{
}

/// A tick of zero length changes no position and no velocity, whatever
/// the obstacles.
pub proof fn lemma_zero_dt_is_static(cfg: SimConfig, shape: Player, obs: Seq<Obstacle>, s: SimState)
    requires
        cfg.wf(),
    ensures
        ({
            let t = tick(cfg, shape, obs, s, 0);
            &&& t.state.x == s.x
            &&& t.state.y == s.y
            &&& t.state.ctrl.vv == s.ctrl.vv
            &&& t.state.ctrl.speed == s.ctrl.speed
            &&& t.moved == 0
        }),
{
}

/// Leftward motion is never obstructed: with a non-positive speed the
/// horizontal position advances by exactly `speed * dt`, whatever
/// obstacles stand around the actor. Only rightward motion blocks.
pub proof fn lemma_leftward_unobstructed(
    cfg: SimConfig,
    shape: Player,
    obs: Seq<Obstacle>,
    s: SimState,
    dt: int,
)
    requires
        s.ctrl.speed <= 0,
    ensures
        tick(cfg, shape, obs, s, dt).state.x == s.x + s.ctrl.speed * dt,
        tick(cfg, shape, obs, s, dt).moved == s.ctrl.speed * dt,
{
    lemma_nearest_wall_lower_bound(shape, s.x, s.y, obs);
    if s.ctrl.speed == 0 {
        assert(s.ctrl.speed * dt == 0) by (nonlinear_arith)
            requires
                s.ctrl.speed == 0,
        ;
    }
}

// ---------------------------------------------------------------------
// Landing idempotence: an actor at rest on a floor stays exactly as it
// is, tick after tick.
// ---------------------------------------------------------------------

/// Whether the actor rests on the floor `obs[i]`: no velocities, grounded,
/// and its bottom edge touches the floor's top edge within the contact
/// tolerance.
pub open spec fn resting_on(
    cfg: SimConfig,
    shape: Player,
    s: SimState,
    obs: Seq<Obstacle>,
    i: int,
) -> bool {
    &&& s.ctrl.speed == 0
    &&& s.ctrl.vv == 0
    &&& !s.ctrl.airborne
    &&& 0 <= i < obs.len()
    &&& floor_candidate(shape, s.x, s.y, obs[i])
    &&& actor_bottom(shape, s.y) - ob_top(obs[i]) <= cfg.contact_tolerance
}

/// One tick of an actor at rest on a floor changes nothing and moves the
/// actor not at all.
pub proof fn lemma_resting_tick_fixed(
    cfg: SimConfig,
    shape: Player,
    s: SimState,
    obs: Seq<Obstacle>,
    i: int,
    dt: int,
)
    requires
        cfg.wf(),
        resting_on(cfg, shape, s, obs, i),
    ensures
        tick(cfg, shape, obs, s, dt).state == s,
        tick(cfg, shape, obs, s, dt).moved == 0,
{
    lemma_nearest_wall_lower_bound(shape, s.x, s.y, obs);
    lemma_nearest_floor_at_least(shape, s.x, s.y, obs, i);
    lemma_nearest_floor_upper_bound(shape, s.x, s.y, obs);
}

/// Once the actor rests on a floor, any number of ticks with no new
/// action leaves its whole state unchanged: the vertical velocity stays
/// zero and the actor stays grounded indefinitely.
pub proof fn lemma_landing_idempotent(
    cfg: SimConfig,
    shape: Player,
    s: SimState,
    obs: Seq<Obstacle>,
    i: int,
    dt: int,
    n: nat,
)
    requires
        cfg.wf(),
        resting_on(cfg, shape, s, obs, i),
    ensures
        run_ticks(cfg, shape, obs, s, dt, n) == s,
    decreases n,
{
    if n > 0 {
        lemma_resting_tick_fixed(cfg, shape, s, obs, i, dt);
        lemma_landing_idempotent(cfg, shape, s, obs, i, dt, (n - 1) as nat);
    }
}

// ---------------------------------------------------------------------
// No tunneling: a wall the actor has not yet passed can never be passed,
// whatever the speed and the tick length, as long as the actor overlaps
// it vertically.
// ---------------------------------------------------------------------

/// One tick never carries the actor's right edge past the left edge of a
/// wall it overlaps vertically, however large `speed * dt` may be.
pub proof fn lemma_wall_blocks_tick(
    cfg: SimConfig,
    shape: Player,
    s: SimState,
    obs: Seq<Obstacle>,
    i: int,
    dt: int,
)
    requires
        0 <= i < obs.len(),
        wall_candidate(shape, s.x, s.y, obs[i]),
        dt >= 0,
    ensures
        actor_right(shape, tick(cfg, shape, obs, s, dt).state.x) <= ob_left(obs[i]),
{
    lemma_nearest_wall_at_most(shape, s.x, s.y, obs, i);
    if s.ctrl.speed < 0 {
        assert(s.ctrl.speed * dt <= 0) by (nonlinear_arith)
            requires
                s.ctrl.speed < 0,
                dt >= 0,
        ;
    }
}

/// Across any number of ticks during which the actor keeps overlapping a
/// wall vertically, its right edge never passes the wall's left edge.
pub proof fn lemma_no_tunneling(
    cfg: SimConfig,
    shape: Player,
    s: SimState,
    obs: Seq<Obstacle>,
    i: int,
    dt: int,
    n: nat,
)
    requires
        0 <= i < obs.len(),
        actor_right(shape, s.x) <= ob_left(obs[i]),
        dt >= 0,
        forall|k: nat| k < n ==> {
            let sk = #[trigger] run_ticks(cfg, shape, obs, s, dt, k);
            crate::geom::spans_overlap(
                actor_bottom(shape, sk.y),
                actor_top(shape, sk.y),
                ob_bottom(obs[i]),
                ob_top(obs[i]),
            )
        },
    ensures
        actor_right(shape, run_ticks(cfg, shape, obs, s, dt, n).x) <= ob_left(obs[i]),
    decreases n,
{
    if n > 0 {
        assert(run_ticks(cfg, shape, obs, s, dt, 0) == s);
        lemma_wall_blocks_tick(cfg, shape, s, obs, i, dt);
        let s1 = tick(cfg, shape, obs, s, dt).state;
        assert forall|k: nat| k < (n - 1) as nat implies {
            let sk = #[trigger] run_ticks(cfg, shape, obs, s1, dt, k);
            crate::geom::spans_overlap(
                actor_bottom(shape, sk.y),
                actor_top(shape, sk.y),
                ob_bottom(obs[i]),
                ob_top(obs[i]),
            )
        } by {
            assert(run_ticks(cfg, shape, obs, s1, dt, k) == run_ticks(
                cfg,
                shape,
                obs,
                s,
                dt,
                (k + 1) as nat,
            )) by {
                lemma_run_ticks_shift(cfg, shape, obs, s, dt, k);
            }
            assert(((k + 1) as nat) < n);
        }
        lemma_no_tunneling(cfg, shape, s1, obs, i, dt, (n - 1) as nat);
        lemma_run_ticks_shift(cfg, shape, obs, s, dt, (n - 1) as nat);
    }
}

/// Running `k` ticks from the state after one tick equals running `k + 1`
/// ticks from the start.
pub proof fn lemma_run_ticks_shift(
    cfg: SimConfig,
    shape: Player,
    obs: Seq<Obstacle>,
    s: SimState,
    dt: int,
    k: nat,
)
    ensures
        run_ticks(cfg, shape, obs, tick(cfg, shape, obs, s, dt).state, dt, k) == run_ticks(
            cfg,
            shape,
            obs,
            s,
            dt,
            (k + 1) as nat,
        ),
{
}

// ---------------------------------------------------------------------
// The jump round trip: over a single floor, a grounded actor that jumps
// comes back to rest on the same floor, at the same height.
// ---------------------------------------------------------------------

/// An actor above a lone floor it overlaps horizontally, moving only
/// vertically, settles back onto the floor in finitely many ticks: the
/// returned `n` is a number of ticks after which the actor rests exactly
/// on the floor's top edge, grounded, with no vertical velocity.
pub proof fn lemma_settles_on_floor(
    cfg: SimConfig,
    shape: Player,
    f: Obstacle,
    s: SimState,
    dt: int,
) -> (n: nat)
    requires
        cfg.wf(),
        cfg.contact_tolerance == 0,
        cfg.gravity >= 1,
        dt >= 1,
        shape.collider_half.y >= 1,
        f.half_bounds.y >= 0,
        s.ctrl.speed == 0,
        crate::geom::spans_overlap(
            actor_left(shape, s.x),
            actor_right(shape, s.x),
            ob_left(f),
            ob_right(f),
        ),
        s.y >= y_on_floor(shape, ob_top(f)),
    ensures
        run_ticks(cfg, shape, seq![f], s, dt, n) == (SimState {
            x: s.x,
            y: y_on_floor(shape, ob_top(f)),
            ctrl: CtrlState { speed: 0, vv: 0, airborne: false },
        }),
    decreases
            (if s.ctrl.vv > 0 {
                1int
            } else {
                0int
            }),
            (if s.ctrl.vv > 0 {
                s.ctrl.vv
            } else {
                s.y - y_on_floor(shape, ob_top(f))
            }),
            (if s.ctrl.vv == 0 {
                1int
            } else {
                0int
            }),
{
    let obs = seq![f];
    let min_y = y_on_floor(shape, ob_top(f));
    let target = SimState { x: s.x, y: min_y, ctrl: CtrlState { speed: 0, vv: 0, airborne: false } };
    assert(obs.len() == 1 && obs[0] == f);
    assert(obs.drop_last() =~= Seq::<Obstacle>::empty());

    if s == target {
        0
    } else {
        let gdt = cfg.gravity * dt;
        assert(cfg.gravity * dt >= 1) by (nonlinear_arith)
            requires
                cfg.gravity >= 1,
                dt >= 1,
        ;
        assert(s.ctrl.speed * dt == 0) by (nonlinear_arith)
            requires
                s.ctrl.speed == 0,
        ;

        // The horizontal pass never moves an actor with no speed.
        lemma_nearest_wall_lower_bound(shape, s.x, s.y, obs);
        let x2 = crate::model::horizontal_pass(cfg, shape, obs, s, dt);
        assert(x2 == s.x);

        let t = tick(cfg, shape, obs, s, dt);
        let s1 = t.state;

        if s.ctrl.vv > 0 {
            // Rising: the lone floor is below the actor, so nothing blocks
            // upward; the actor climbs and gravity bites.
            assert(ob_bottom(f) <= ob_top(f) <= actor_bottom(shape, s.y) < actor_top(shape, s.y));
            assert(nearest_ceiling(shape, x2, s.y, Seq::<Obstacle>::empty()) is None);
            assert(nearest_ceiling(shape, x2, s.y, obs) is None);
            assert(s.ctrl.vv * dt >= s.ctrl.vv) by (nonlinear_arith)
                requires
                    s.ctrl.vv >= 1,
                    dt >= 1,
            ;
            assert(s1.y == s.y + s.ctrl.vv * dt && s1.ctrl.vv == s.ctrl.vv - gdt
                && s1.ctrl.airborne && s1.x == s.x && s1.ctrl.speed == 0);
            assert(s1.y > min_y);
            let m = lemma_settles_on_floor(cfg, shape, f, s1, dt);
            lemma_run_ticks_shift(cfg, shape, obs, s, dt, m);
            m + 1
        } else {
            // Falling or level, against the lone floor.
            assert(floor_candidate(shape, x2, s.y, f));
            assert(nearest_floor(shape, x2, s.y, Seq::<Obstacle>::empty()) is None);
            assert(nearest_floor(shape, x2, s.y, obs) == Some(ob_top(f)));
            assert(actor_bottom(shape, s.y) - ob_top(f) == s.y - min_y);
            if s.y == min_y {
                // Already touching the floor: this tick settles the actor.
                assert(s1 == target);
                lemma_run_ticks_shift(cfg, shape, obs, s, dt, 0);
                assert(run_ticks(cfg, shape, obs, s, dt, 1) == s1);
                1
            } else if s.ctrl.vv == 0 {
                assert(s.ctrl.vv * dt == 0) by (nonlinear_arith)
                    requires
                        s.ctrl.vv == 0,
                ;
                assert(s1.y == s.y && s1.ctrl.vv == 0 - gdt && s1.ctrl.airborne && s1.x == s.x);
                let m = lemma_settles_on_floor(cfg, shape, f, s1, dt);
                lemma_run_ticks_shift(cfg, shape, obs, s, dt, m);
                m + 1
            } else {
                assert(s.ctrl.vv * dt <= s.ctrl.vv) by (nonlinear_arith)
                    requires
                        s.ctrl.vv <= -1,
                        dt >= 1,
                ;
                if s.y + s.ctrl.vv * dt > min_y {
                    // Still above the floor after the fall step.
                    assert(s1.y == s.y + s.ctrl.vv * dt && s1.ctrl.vv == s.ctrl.vv - gdt
                        && s1.ctrl.airborne && s1.x == s.x);
                    assert(min_y < s1.y < s.y);
                    let m = lemma_settles_on_floor(cfg, shape, f, s1, dt);
                    lemma_run_ticks_shift(cfg, shape, obs, s, dt, m);
                    m + 1
                } else {
                    // The fall is clamped onto the floor: the actor lands.
                    assert(s1 == target);
                    lemma_run_ticks_shift(cfg, shape, obs, s, dt, 0);
                    assert(run_ticks(cfg, shape, obs, s, dt, 1) == s1);
                    1
                }
            }
        }
    }
}

/// The jump round trip. A grounded actor resting exactly on a lone floor
/// that issues Jump becomes airborne with vertical velocity
/// `jump_velocity`; ticking forward, it returns in finitely many ticks to
/// exactly the state it started from: grounded, at rest, at the same
/// floor height.
pub proof fn lemma_jump_round_trip(
    cfg: SimConfig,
    shape: Player,
    f: Obstacle,
    s: SimState,
    dt: int,
) -> (n: nat)
    requires
        cfg.wf(),
        cfg.contact_tolerance == 0,
        cfg.gravity >= 1,
        cfg.jump_velocity >= 1,
        dt >= 1,
        shape.collider_half.y >= 1,
        f.half_bounds.y >= 0,
        s.ctrl.speed == 0,
        s.ctrl.vv == 0,
        !s.ctrl.airborne,
        crate::geom::spans_overlap(
            actor_left(shape, s.x),
            actor_right(shape, s.x),
            ob_left(f),
            ob_right(f),
        ),
        actor_bottom(shape, s.y) == ob_top(f),
    ensures
        ({
            let jumped = SimState {
                x: s.x,
                y: s.y,
                ctrl: action_result(cfg, s.ctrl, PlayerAction::Jump),
            };
            &&& jumped.ctrl.vv == cfg.jump_velocity
            &&& jumped.ctrl.airborne
            &&& run_ticks(cfg, shape, seq![f], jumped, dt, n) == s
        }),
{
    let jumped = SimState { x: s.x, y: s.y, ctrl: action_result(cfg, s.ctrl, PlayerAction::Jump) };
    assert(s.y == y_on_floor(shape, ob_top(f)));
    let n = lemma_settles_on_floor(cfg, shape, f, jumped, dt);
    assert(run_ticks(cfg, shape, seq![f], jumped, dt, n) == s);
    n
}

// ---------------------------------------------------------------------
// Float and dive clamps.
// ---------------------------------------------------------------------

/// The kinematic state after `n` repeated Float requests.
pub open spec fn repeat_float(cfg: SimConfig, c: CtrlState, n: nat) -> CtrlState
    decreases n,
{
    if n == 0 {
        c
    } else {
        repeat_float(cfg, action_result(cfg, c, PlayerAction::Float), (n - 1) as nat)
    }
}

/// The kinematic state after `n` repeated Dive requests.
pub open spec fn repeat_dive(cfg: SimConfig, c: CtrlState, n: nat) -> CtrlState
    decreases n,
{
    if n == 0 {
        c
    } else {
        repeat_dive(cfg, action_result(cfg, c, PlayerAction::Dive), (n - 1) as nat)
    }
}

/// Repeated Float requests never drive the vertical velocity above the
/// float limit: it stays at or below the greater of its starting value
/// and the limit, and everything else is untouched.
pub proof fn lemma_float_clamp(cfg: SimConfig, c: CtrlState, n: nat)
    ensures
        ({
            let r = repeat_float(cfg, c, n);
            &&& r.vv <= c.vv || r.vv <= cfg.float_limit
            &&& c.vv <= cfg.float_limit ==> r.vv <= cfg.float_limit
            &&& r.speed == c.speed
            &&& r.airborne == c.airborne
        }),
    decreases n,
{
    if n > 0 {
        lemma_float_clamp(cfg, action_result(cfg, c, PlayerAction::Float), (n - 1) as nat);
    }
}

/// Repeated Dive requests never drive the vertical velocity below the
/// dive limit: it stays at or above the lesser of its starting value and
/// the limit, and everything else is untouched.
pub proof fn lemma_dive_clamp(cfg: SimConfig, c: CtrlState, n: nat)
    ensures
        ({
            let r = repeat_dive(cfg, c, n);
            &&& r.vv >= c.vv || r.vv >= cfg.dive_limit
            &&& c.vv >= cfg.dive_limit ==> r.vv >= cfg.dive_limit
            &&& r.speed == c.speed
            &&& r.airborne == c.airborne
        }),
    decreases n,
{
    if n > 0 {
        lemma_dive_clamp(cfg, action_result(cfg, c, PlayerAction::Dive), (n - 1) as nat);
    }
}

} // verus!
