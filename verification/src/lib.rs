//! A small real-time 2D arena combat game: two fighters move, jump and shoot
//! inside a tile-based world, alongside ambient decor and wandering creatures.
//!
//! All world quantities (positions, velocities, timers, health, alpha) are
//! fixed-point numbers: `i64` counts of thousandths of a world unit, so that
//! every rule of the simulation has an exact arithmetic meaning.

pub mod camera;
pub mod collision;
pub mod components;
pub mod ecosystem;
pub mod entities;
pub mod fixed;
pub mod geom;
pub mod math;
pub mod particles;
pub mod player;
mod rng;
