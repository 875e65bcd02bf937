//! Simulation core of an arcade space-combat game.
//!
//! All gameplay state lives here: ship physics, procedural asteroid
//! generation and splitting, bullet pooling, collision detection, scoring
//! and level transitions.  Geometry is carried in fixed-point milli-units
//! (one thousandth of a world unit) so that every rule of the simulation
//! is expressed over integers and proved exactly.
//!
//! Rendering, input polling and window management are collaborators that
//! live outside this crate; they read plain state from these types and
//! feed plain commands in.

pub mod asteroids;
pub mod bullet;
pub mod hud;
pub mod math;
pub mod particles;
pub mod player;
pub mod rng;
pub mod scene;
pub mod star_field;
