//! Simulation and collision engine for a snake-style arcade game.
//!
//! A player-controlled orthogonal polyline (the "snek") grows at its head and
//! is trimmed at its tail inside a resizable rectangular arena, avoiding its
//! own body, the arena walls and autonomous rival snakes, while collecting
//! randomly spawned pills that mutate the arena or the actors.
//!
//! All geometry is carried in fixed-point coordinates: `SCALE` subunits per
//! canvas unit, so that per-tick motion (`speed / FRAMES_PER_SEC`) and the
//! tail-trim fraction stay exact in integer arithmetic.  A renderer divides
//! by `SCALE` when it turns coordinates into pixels.

pub mod collision;
pub mod constants;
pub mod entity;
pub mod game;
pub mod geometry;
pub mod input;
pub mod path;
pub mod pill;
mod rng;
