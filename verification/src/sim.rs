//! The simulation context: one actor, its configuration, the pause and
//! death gates, the level counter and the distance accumulator.
//!
//! Each call to [`Simulation::step`] runs one strictly ordered tick:
//! resolver, then hazard detection, then the level-wrap check. While
//! paused, or once dead, a step is a no-op; a death detected this tick
//! pauses the simulation and halts further resolver work until the
//! external life-management layer starts a new run.

use vstd::prelude::*;

use crate::actor::{shape_in_range, MovementController, Player};
use crate::actions::{action_result, do_player_action, PlayerAction};
use crate::config::SimConfig;
use crate::geom::{vec2_in_range, Vec2i, MAX_DT};
use crate::hazard::{any_hazard_contact, check_spike_collisions};
use crate::model::{ctrl_inv, ctrl_view, state_view, tick};
use crate::resolver::apply_movement;
use crate::world::{obs_in_range, Obstacle};
use crate::wrap::{left_respawn_x, past_right_boundary, wrap_within_level};

verus! {

/// Largest total-distance magnitude a step accepts; one tick's
/// displacement can then never overflow the accumulator.
pub const MAX_DISTANCE: i64 = 0x2000_0000_0000_0000;

/// The signals one step emits to the external layers: whether a hazard
/// contact fired, which level to spawn next if the actor wrapped, and the
/// signed horizontal displacement applied (for the external distance
/// display).
#[derive(Clone, Copy, Debug)]
pub struct StepOutcome {
    pub death: bool,
    pub advance: Option<u32>,
    pub displacement: i64,
}

/// A complete simulation: configuration, actor, gates and counters.
#[derive(Clone, Copy, Debug)]
pub struct Simulation {
    pub config: SimConfig,
    pub player: Player,
    pub controller: MovementController,
    pub position: Vec2i,
    pub paused: bool,
    pub dead: bool,
    pub current_level: u32,
    pub total_distance: i64,
}

impl Simulation {
    /// Well-formedness: the configuration and every coordinate are in
    /// range, the kinematic invariant holds, and the counters have room
    /// to advance.
    pub open spec fn wf(self) -> bool {
        &&& self.config.wf()
        &&& shape_in_range(self.player)
        &&& self.controller.in_range()
        &&& vec2_in_range(self.position)
        &&& ctrl_inv(ctrl_view(self.controller))
        &&& self.current_level < u32::MAX
        &&& -MAX_DISTANCE <= self.total_distance <= MAX_DISTANCE
    }

    /// A fresh simulation: actor at `position` with no velocity, grounded,
    /// paused, alive, at the first level, with no distance travelled.
    pub fn new(config: SimConfig, player: Player, position: Vec2i) -> (sim: Simulation)
        ensures
            sim.config == config,
            sim.player == player,
            sim.position == position,
            sim.controller.speed == 0,
            sim.controller.vertical_velocity == 0,
            !sim.controller.jumping,
            sim.paused,
            !sim.dead,
            sim.current_level == 0,
            sim.total_distance == 0,
    {
        Simulation {
            config,
            player,
            controller: MovementController::new(),
            position,
            paused: true,
            dead: false,
            current_level: 0,
            total_distance: 0,
        }
    }

    /// Starts a new run after a death or a stop: the actor returns to
    /// `position` at rest and grounded, the death gate clears, the level
    /// and the distance counters reset, and the simulation waits paused
    /// for a resume.
    pub fn restart(&mut self, position: Vec2i)
        ensures
            final(self).config == old(self).config,
            final(self).player == old(self).player,
            final(self).position == position,
            final(self).controller.speed == 0,
            final(self).controller.vertical_velocity == 0,
            !final(self).controller.jumping,
            final(self).paused,
            !final(self).dead,
            final(self).current_level == 0,
            final(self).total_distance == 0,
    {
        self.controller = MovementController::new();
        self.position = position;
        self.paused = true;
        self.dead = false;
        self.current_level = 0;
        self.total_distance = 0;
    }

    /// Pauses the simulation: subsequent steps are no-ops until resumed.
    pub fn pause(&mut self)
        ensures
            *final(self) == (Simulation { paused: true, ..*old(self) }),
    {
        self.paused = true;
    }

    /// Resumes a paused simulation, unless the actor is dead: death halts
    /// the run until the external life-management layer starts a new one.
    pub fn resume(&mut self)
        ensures
            old(self).dead ==> *final(self) == *old(self),
            !old(self).dead ==> *final(self) == (Simulation { paused: false, ..*old(self) }),
    {
        if !self.dead {
            self.paused = false;
        }
    }

    /// Applies one queued action event to the actor's kinematic state, as
    /// [`action_result`] describes. The external driver drains its queue
    /// through this before stepping the tick.
    pub fn apply_action(&mut self, action: &PlayerAction)
        requires
            old(self).wf(),
        ensures
            ctrl_view(final(self).controller) == action_result(
                old(self).config,
                ctrl_view(old(self).controller),
                *action,
            ),
            *final(self) == (Simulation { controller: final(self).controller, ..*old(self) }),
            ctrl_inv(ctrl_view(final(self).controller)),
    {
        let cfg = self.config;
        do_player_action(&cfg, &mut self.controller, action);
    }

    /// Runs one simulation tick against the given obstacle snapshot.
    ///
    /// While paused or dead nothing changes and no signal fires.
    /// Otherwise the resolver advances the actor exactly as the model's
    /// [`tick`] predicts and the displacement joins the distance
    /// accumulator; then every hazard is tested at the post-resolution
    /// position, and a contact reports a death, marks the actor dead and
    /// pauses the run; then the level-wrap check fires if the actor has
    /// fully crossed the right boundary, teleporting it back to the left
    /// and naming the next level to spawn.
    pub fn step(&mut self, obstacles: &Vec<Obstacle>, dt: i64) -> (outcome: StepOutcome)
        requires
            old(self).wf(),
            obs_in_range(obstacles@),
            0 <= dt <= MAX_DT,
        ensures
            old(self).paused || old(self).dead ==> {
                &&& *final(self) == *old(self)
                &&& outcome == (StepOutcome { death: false, advance: None, displacement: 0 })
            },
            !(old(self).paused || old(self).dead) ==> {
                let t = tick(
                    old(self).config,
                    old(self).player,
                    obstacles@,
                    state_view(old(self).controller, old(self).position),
                    dt as int,
                );
                &&& ctrl_view(final(self).controller) == t.state.ctrl
                &&& final(self).position.y == t.state.y
                &&& outcome.displacement == t.moved
                &&& final(self).total_distance == old(self).total_distance + t.moved
                &&& outcome.death == any_hazard_contact(
                    old(self).config,
                    old(self).player,
                    t.state.x,
                    t.state.y,
                    obstacles@,
                )
                &&& final(self).dead == outcome.death
                &&& final(self).paused == outcome.death
                &&& (past_right_boundary(old(self).config, t.state.x) ==> {
                    &&& final(self).position.x == left_respawn_x(old(self).config)
                    &&& final(self).current_level == old(self).current_level + 1
                    &&& outcome.advance == Some(
                        ((old(self).current_level + 1) as u32) % old(self).config.total_levels,
                    )
                })
                &&& (!past_right_boundary(old(self).config, t.state.x) ==> {
                    &&& final(self).position.x == t.state.x
                    &&& final(self).current_level == old(self).current_level
                    &&& outcome.advance is None
                })
            },
            final(self).config == old(self).config,
            final(self).player == old(self).player,
            ctrl_inv(ctrl_view(final(self).controller)),
    {
        if self.paused || self.dead {
            return StepOutcome { death: false, advance: None, displacement: 0 };
        }

        let cfg = self.config;
        let shape = self.player;
        let moved = apply_movement(
            &cfg,
            &shape,
            &mut self.controller,
            &mut self.position,
            obstacles,
            dt,
        );
        self.total_distance = self.total_distance + moved;

        let death = check_spike_collisions(&cfg, &shape, &self.position, obstacles);
        if death {
            self.dead = true;
            self.paused = true;
        }

        let advance = wrap_within_level(&cfg, &mut self.position, &mut self.current_level);

        StepOutcome { death, advance, displacement: moved }
    }
}

} // verus!
