//! Verified simulation core of a 2D arcade shooter.
//!
//! A player ship fights waves of enemies, exchanging projectile fire, with
//! collision-triggered explosions, score tracking, and an n-body gravity
//! variant. This crate holds the per-frame simulation loop: fixed-timestep
//! movement, spatial collision detection between entity categories, entity
//! lifecycle (spawn, despawn, explosion animation), and pairwise force
//! accumulation. Rendering, audio, asset loading, windowing and input-device
//! polling are external collaborators: the simulation consumes already-decoded
//! input state and exposes plain transforms and counters.
//!
//! All quantities are fixed-point integers so that every system can carry an
//! exact contract: distances and sizes in milli-units (1000 = one world unit),
//! angles in milli-radians, time in microseconds, masses in milli-kilograms.

pub mod collide;
pub mod collision;
pub mod components;
pub mod explosion;
pub mod fire;
pub mod fixed;
pub mod input;
pub mod movement;
pub mod nbody;
pub mod spawn;
pub mod tick;
pub mod world;
