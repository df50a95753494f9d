//! Tests of the resolver, the hazard detector, the action dispatcher and
//! the level-wrap trigger, called directly.
//!
//! World units: 3600 units per pixel, 60 time units per second. A speed
//! of one pixel per second is then 60 units per time unit, and gravity in
//! pixels per second squared keeps its number in units per time unit
//! squared.

use rhythm_core::actions::PlayerAction;
use rhythm_core::actions::do_player_action;
use rhythm_core::actor::MovementController;
use rhythm_core::actor::Player;
use rhythm_core::config::SimConfig;
use rhythm_core::geom::Vec2i;
use rhythm_core::hazard::check_spike_collisions;
use rhythm_core::resolver::apply_movement;
use rhythm_core::world::Obstacle;
use rhythm_core::wrap::wrap_within_level;

fn test_config() -> SimConfig {
    SimConfig {
        gravity: 2300,
        jump_velocity: 48000,
        float_velocity: 60000,
        float_limit: -600,
        dive_velocity: -48000,
        dive_limit: -48000,
        contact_tolerance: 0,
        level_half_width: 2304000,
        player_image_half: 129600,
        total_levels: 4,
    }
}

fn test_shape() -> Player {
    Player {
        collider_half: Vec2i { x: 40500, y: 118800 },
        collider_offset: Vec2i { x: 59400, y: -10800 },
    }
}

fn block(x: i64, y: i64, half_x: i64, half_y: i64) -> Obstacle {
    Obstacle {
        position: Vec2i { x, y },
        half_bounds: Vec2i { x: half_x, y: half_y },
        offset: Vec2i { x: 0, y: 0 },
        is_hazard: false,
    }
}

fn spikes(x: i64, y: i64, half_x: i64, half_y: i64) -> Obstacle {
    Obstacle { is_hazard: true, ..block(x, y, half_x, half_y) }
}

/// A wide floor whose top edge sits at 100 pixels (360000 units).
fn wide_floor() -> Obstacle {
    block(0, 356400, 2304000, 3600)
}

/// The position that puts the test shape's bottom edge exactly on the
/// wide floor's top edge.
const RESTING_Y: i64 = 489600;

#[test]
fn free_motion_advances_by_velocity_times_dt() {
    let cfg = test_config();
    let shape = test_shape();
    let mut controller = MovementController { speed: 18000, jumping: true, vertical_velocity: -100 };
    let mut position = Vec2i { x: 0, y: 720000 };
    let obstacles: Vec<Obstacle> = Vec::new();
    let moved = apply_movement(&cfg, &shape, &mut controller, &mut position, &obstacles, 2);
    assert_eq!(moved, 36000);
    assert_eq!(position.x, 36000);
    assert_eq!(position.y, 720000 - 200);
    assert_eq!(controller.vertical_velocity, -100 - 2 * 2300);
    assert!(controller.jumping);
}

#[test]
fn zero_dt_changes_no_position_or_velocity() {
    let cfg = test_config();
    let shape = test_shape();
    let mut controller = MovementController { speed: 18000, jumping: true, vertical_velocity: -700 };
    let mut position = Vec2i { x: 123, y: 720000 };
    let obstacles: Vec<Obstacle> = Vec::new();
    let moved = apply_movement(&cfg, &shape, &mut controller, &mut position, &obstacles, 0);
    assert_eq!(moved, 0);
    assert_eq!(position, Vec2i { x: 123, y: 720000 });
    assert_eq!(controller.vertical_velocity, -700);
    assert_eq!(controller.speed, 18000);
}

#[test]
fn first_fall_tick_gains_velocity_before_displacement() {
    // Actor centered at 200 pixels above a floor whose top edge is at 100
    // pixels, at rest but unsupported: the first tick integrates gravity
    // for dt = 1/60 s without yet moving, the second applies the new
    // velocity as displacement.
    let cfg = test_config();
    let shape = test_shape();
    let mut controller = MovementController { speed: 0, jumping: false, vertical_velocity: 0 };
    let mut position = Vec2i { x: 0, y: 720000 };
    let obstacles = vec![wide_floor()];
    let moved = apply_movement(&cfg, &shape, &mut controller, &mut position, &obstacles, 1);
    assert_eq!(moved, 0);
    assert_eq!(controller.vertical_velocity, -2300);
    assert_eq!(position.y, 720000);
    assert!(controller.jumping);
    apply_movement(&cfg, &shape, &mut controller, &mut position, &obstacles, 1);
    assert_eq!(position.y, 720000 - 2300);
    assert_eq!(controller.vertical_velocity, -4600);
}

#[test]
fn landing_clamps_to_floor_and_grounds() {
    let cfg = test_config();
    let shape = test_shape();
    // One unit above the floor, falling fast: the fall is clamped onto
    // the floor's top edge and the actor lands.
    let mut controller = MovementController { speed: 0, jumping: true, vertical_velocity: -2300 };
    let mut position = Vec2i { x: 0, y: RESTING_Y + 1 };
    let obstacles = vec![wide_floor()];
    apply_movement(&cfg, &shape, &mut controller, &mut position, &obstacles, 1);
    assert_eq!(position.y, RESTING_Y);
    assert_eq!(controller.vertical_velocity, 0);
    assert!(!controller.jumping);
}

#[test]
fn touching_floor_settles_a_falling_actor() {
    let cfg = test_config();
    let shape = test_shape();
    // Bottom edge exactly on the floor's top edge but still marked
    // airborne and moving downward: the tick grounds it where it stands.
    let mut controller = MovementController { speed: 0, jumping: true, vertical_velocity: -5000 };
    let mut position = Vec2i { x: 0, y: RESTING_Y };
    let obstacles = vec![wide_floor()];
    let moved = apply_movement(&cfg, &shape, &mut controller, &mut position, &obstacles, 1);
    assert_eq!(moved, 0);
    assert_eq!(position.y, RESTING_Y);
    assert_eq!(controller.vertical_velocity, 0);
    assert!(!controller.jumping);
}

#[test]
fn zero_dt_leaves_even_a_touching_faller_unchanged() {
    let cfg = test_config();
    let shape = test_shape();
    // Bottom edge exactly on the floor's top edge, still airborne and
    // moving downward: with no time elapsed, nothing changes at all.
    let mut controller = MovementController { speed: 0, jumping: true, vertical_velocity: -5000 };
    let mut position = Vec2i { x: 0, y: RESTING_Y };
    let obstacles = vec![wide_floor()];
    let moved = apply_movement(&cfg, &shape, &mut controller, &mut position, &obstacles, 0);
    assert_eq!(moved, 0);
    assert_eq!(position, Vec2i { x: 0, y: RESTING_Y });
    assert_eq!(controller.vertical_velocity, -5000);
    assert!(controller.jumping);
}

#[test]
fn resting_on_floor_is_idempotent() {
    let cfg = test_config();
    let shape = test_shape();
    let mut controller = MovementController { speed: 0, jumping: false, vertical_velocity: 0 };
    let mut position = Vec2i { x: 0, y: RESTING_Y };
    let obstacles = vec![wide_floor()];
    for _ in 0..5 {
        let moved = apply_movement(&cfg, &shape, &mut controller, &mut position, &obstacles, 1);
        assert_eq!(moved, 0);
        assert_eq!(position, Vec2i { x: 0, y: RESTING_Y });
        assert_eq!(controller.vertical_velocity, 0);
        assert!(!controller.jumping);
    }
}

#[test]
fn jump_returns_to_same_floor_height() {
    let cfg = test_config();
    let shape = test_shape();
    let mut controller = MovementController { speed: 0, jumping: false, vertical_velocity: 0 };
    let mut position = Vec2i { x: 0, y: RESTING_Y };
    let obstacles = vec![wide_floor()];
    do_player_action(&cfg, &mut controller, &PlayerAction::Jump);
    assert_eq!(controller.vertical_velocity, 48000);
    assert!(controller.jumping);
    let mut landed = false;
    for _ in 0..200 {
        apply_movement(&cfg, &shape, &mut controller, &mut position, &obstacles, 1);
        if !controller.jumping {
            landed = true;
            break;
        }
    }
    assert!(landed);
    assert_eq!(position.y, RESTING_Y);
    assert_eq!(controller.vertical_velocity, 0);
}

#[test]
fn wall_blocks_rightward_motion_exactly() {
    let cfg = test_config();
    let shape = test_shape();
    // A wall whose left edge is at 100 pixels (360000 units), level with
    // the actor.
    let wall = block(363600, 720000, 3600, 118800);
    let obstacles = vec![wall];
    let mut controller = MovementController { speed: 60000, jumping: true, vertical_velocity: 0 };
    let mut position = Vec2i { x: 0, y: 720000 };
    for _ in 0..10 {
        apply_movement(&cfg, &shape, &mut controller, &mut position, &obstacles, 1);
        let right_edge = position.x + shape.collider_offset.x + shape.collider_half.x;
        assert!(right_edge <= 360000);
    }
    // Clamped so the right edge sits exactly on the wall's left edge.
    assert_eq!(position.x, 360000 - 59400 - 40500);
}

#[test]
fn touching_wall_stops_horizontal_motion() {
    let cfg = test_config();
    let shape = test_shape();
    let wall = block(363600, 720000, 3600, 118800);
    let obstacles = vec![wall];
    // Right edge exactly on the wall's left edge already.
    let x_touching = 360000 - 59400 - 40500;
    let mut controller = MovementController { speed: 60000, jumping: true, vertical_velocity: 0 };
    let mut position = Vec2i { x: x_touching, y: 720000 };
    let moved = apply_movement(&cfg, &shape, &mut controller, &mut position, &obstacles, 1);
    assert_eq!(moved, 0);
    assert_eq!(position.x, x_touching);
}

#[test]
fn leftward_motion_is_unobstructed() {
    let cfg = test_config();
    let shape = test_shape();
    // A wall to the left of the actor does not block leftward movement.
    let wall = block(-363600, 720000, 3600, 118800);
    let obstacles = vec![wall];
    let mut controller = MovementController { speed: -60000, jumping: true, vertical_velocity: 0 };
    let mut position = Vec2i { x: 0, y: 720000 };
    apply_movement(&cfg, &shape, &mut controller, &mut position, &obstacles, 1);
    assert_eq!(position.x, -60000);
}

#[test]
fn leftward_motion_is_unobstructed_even_at_a_wall() {
    let cfg = test_config();
    let shape = test_shape();
    // The actor stands with its right edge exactly on a wall's left edge;
    // moving left still covers the full distance.
    let wall = block(363600, 720000, 3600, 118800);
    let obstacles = vec![wall];
    let x_touching = 360000 - 59400 - 40500;
    let mut controller = MovementController { speed: -60000, jumping: true, vertical_velocity: 0 };
    let mut position = Vec2i { x: x_touching, y: 720000 };
    let moved = apply_movement(&cfg, &shape, &mut controller, &mut position, &obstacles, 1);
    assert_eq!(moved, -60000);
    assert_eq!(position.x, x_touching - 60000);
}

#[test]
fn ceiling_bump_zeroes_velocity_but_stays_airborne() {
    let cfg = test_config();
    let shape = test_shape();
    // A ceiling whose bottom edge is one pixel above the actor's top.
    let actor_top = 720000 - 10800 + 118800;
    let ceiling = block(0, actor_top + 3600 + 7200, 2304000, 3600);
    let obstacles = vec![ceiling];
    let mut controller = MovementController { speed: 0, jumping: true, vertical_velocity: 48000 };
    let mut position = Vec2i { x: 0, y: 720000 };
    apply_movement(&cfg, &shape, &mut controller, &mut position, &obstacles, 1);
    // Clamped so the actor's top edge sits exactly on the ceiling's
    // bottom edge, velocity zeroed, still airborne.
    assert_eq!(position.y, 720000 + 7200);
    assert_eq!(controller.vertical_velocity, 0);
    assert!(controller.jumping);
}

#[test]
fn head_against_ceiling_still_feels_gravity() {
    let cfg = test_config();
    let shape = test_shape();
    let actor_top = 720000 - 10800 + 118800;
    // Ceiling bottom edge exactly on the actor's top edge.
    let ceiling = block(0, actor_top + 3600, 2304000, 3600);
    let obstacles = vec![ceiling];
    let mut controller = MovementController { speed: 0, jumping: true, vertical_velocity: 48000 };
    let mut position = Vec2i { x: 0, y: 720000 };
    apply_movement(&cfg, &shape, &mut controller, &mut position, &obstacles, 1);
    assert_eq!(position.y, 720000);
    assert_eq!(controller.vertical_velocity, 48000 - 2300);
    assert!(controller.jumping);
}

#[test]
fn nearest_floor_wins_over_deeper_one() {
    let cfg = test_config();
    let shape = test_shape();
    // Two floors below: the higher one catches the actor.
    let low = block(0, 156400, 2304000, 3600);
    let high = wide_floor();
    let obstacles = vec![low, high];
    let mut controller = MovementController { speed: 0, jumping: true, vertical_velocity: -400000 };
    let mut position = Vec2i { x: 0, y: RESTING_Y + 10 };
    apply_movement(&cfg, &shape, &mut controller, &mut position, &obstacles, 1);
    assert_eq!(position.y, RESTING_Y);
    assert!(!controller.jumping);
}

#[test]
fn equal_floors_tie_break_keeps_height() {
    let cfg = test_config();
    let shape = test_shape();
    // Two floors with the same top edge: landing height is that edge.
    let a = block(-100000, 356400, 2304000, 3600);
    let b = block(100000, 356400, 2304000, 3600);
    let obstacles = vec![a, b];
    let mut controller = MovementController { speed: 0, jumping: true, vertical_velocity: -400000 };
    let mut position = Vec2i { x: 0, y: RESTING_Y + 10 };
    apply_movement(&cfg, &shape, &mut controller, &mut position, &obstacles, 1);
    assert_eq!(position.y, RESTING_Y);
    assert_eq!(controller.vertical_velocity, 0);
}

#[test]
fn set_speed_takes_effect_immediately() {
    let cfg = test_config();
    let mut controller = MovementController { speed: 0, jumping: false, vertical_velocity: 0 };
    do_player_action(&cfg, &mut controller, &PlayerAction::SetSpeed(21000));
    assert_eq!(controller.speed, 21000);
    assert!(!controller.jumping);
}

#[test]
fn jump_is_gated_on_being_grounded() {
    let cfg = test_config();
    let mut controller = MovementController { speed: 0, jumping: true, vertical_velocity: -5000 };
    do_player_action(&cfg, &mut controller, &PlayerAction::Jump);
    assert_eq!(controller.vertical_velocity, -5000);
    assert!(controller.jumping);
}

#[test]
fn float_clamps_at_limit() {
    let cfg = test_config();
    let mut controller = MovementController { speed: 0, jumping: true, vertical_velocity: -48000 };
    do_player_action(&cfg, &mut controller, &PlayerAction::Float);
    assert_eq!(controller.vertical_velocity, -600);
    // Already at the limit: a further float does nothing.
    do_player_action(&cfg, &mut controller, &PlayerAction::Float);
    assert_eq!(controller.vertical_velocity, -600);
}

#[test]
fn float_does_nothing_while_grounded() {
    let cfg = test_config();
    let mut controller = MovementController { speed: 0, jumping: false, vertical_velocity: 0 };
    do_player_action(&cfg, &mut controller, &PlayerAction::Float);
    assert_eq!(controller.vertical_velocity, 0);
    assert!(!controller.jumping);
}

#[test]
fn dive_clamps_at_limit() {
    let cfg = test_config();
    let mut controller = MovementController { speed: 0, jumping: true, vertical_velocity: -600 };
    do_player_action(&cfg, &mut controller, &PlayerAction::Dive);
    assert_eq!(controller.vertical_velocity, -48000);
    do_player_action(&cfg, &mut controller, &PlayerAction::Dive);
    assert_eq!(controller.vertical_velocity, -48000);
}

#[test]
fn hazard_side_contact_detected_exactly_at_edge() {
    let cfg = test_config();
    let shape = test_shape();
    // Hazard left edge at 50 pixels (180000 units); the actor's right
    // edge exactly reaches it, with vertical overlap.
    let hazard = spikes(183600, 720000, 3600, 3600);
    let obstacles = vec![hazard];
    let touching = Vec2i { x: 180000 - 59400 - 40500, y: 720000 };
    assert!(check_spike_collisions(&cfg, &shape, &touching, &obstacles));
    // One unit short of touching: no contact.
    let near = Vec2i { x: touching.x - 1, y: 720000 };
    assert!(!check_spike_collisions(&cfg, &shape, &near, &obstacles));
}

#[test]
fn hazard_top_contact_detected() {
    let cfg = test_config();
    let shape = test_shape();
    // Spikes whose top edge exactly meets the actor's bottom edge,
    // horizontally under the actor's collider.
    let hazard = spikes(59400, 356400, 3600, 3600);
    let obstacles = vec![hazard];
    let on_top = Vec2i { x: 0, y: RESTING_Y };
    assert!(check_spike_collisions(&cfg, &shape, &on_top, &obstacles));
    let above = Vec2i { x: 0, y: RESTING_Y + 1 };
    assert!(!check_spike_collisions(&cfg, &shape, &above, &obstacles));
}

#[test]
fn plain_block_contact_is_not_death() {
    let cfg = test_config();
    let shape = test_shape();
    let floor = wide_floor();
    let obstacles = vec![floor];
    let on_top = Vec2i { x: 0, y: RESTING_Y };
    assert!(!check_spike_collisions(&cfg, &shape, &on_top, &obstacles));
}

#[test]
fn wrap_triggers_past_right_boundary() {
    let cfg = test_config();
    // Left sprite edge one unit past the level's right boundary.
    let mut position = Vec2i { x: 2304000 + 129600 + 1, y: 489600 };
    let mut level: u32 = 0;
    let advance = wrap_within_level(&cfg, &mut position, &mut level);
    assert_eq!(advance, Some(1));
    assert_eq!(level, 1);
    assert_eq!(position.x, -2304000 - 129600);
    assert_eq!(position.y, 489600);
}

#[test]
fn wrap_does_not_trigger_at_boundary() {
    let cfg = test_config();
    let mut position = Vec2i { x: 2304000 + 129600, y: 489600 };
    let mut level: u32 = 0;
    let advance = wrap_within_level(&cfg, &mut position, &mut level);
    assert_eq!(advance, None);
    assert_eq!(level, 0);
    assert_eq!(position.x, 2304000 + 129600);
}

#[test]
fn wrap_level_index_cycles_modulo_total() {
    let cfg = test_config();
    let mut position = Vec2i { x: 2304000 + 129600 + 1, y: 0 };
    let mut level: u32 = 3;
    let advance = wrap_within_level(&cfg, &mut position, &mut level);
    assert_eq!(advance, Some(0));
    assert_eq!(level, 4);
}
