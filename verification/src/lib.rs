//! Movement and collision core for a side-scrolling rhythm platformer.
//!
//! A single controlled actor moves through a set of static axis-aligned
//! rectangular obstacles. Each simulation tick resolves horizontal motion
//! against the nearest blocking wall to the right, then vertical motion
//! against the nearest floor or ceiling in the direction of travel,
//! integrating gravity and tracking whether the actor is airborne. After
//! resolution, hazard obstacles are tested for edge contact (a terminal
//! death signal) and the level-wrap trigger checks whether the actor has
//! crossed the level's right boundary.
//!
//! All coordinates, extents and velocities are integers in a world unit
//! chosen by the caller (for example a fixed subdivision of a pixel), and
//! time is an integer count of time units, so every collision decision is
//! exact. The mathematical model of a tick lives in [`model`], the laws
//! proved about it in [`laws`].

pub mod actor;
pub mod actions;
pub mod config;
pub mod geom;
pub mod hazard;
pub mod laws;
pub mod model;
pub mod resolver;
pub mod sim;
pub mod world;
pub mod wrap;
