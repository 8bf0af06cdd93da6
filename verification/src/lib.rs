//! Core of a 2D platformer: a kinematic character controller (horizontal
//! movement, clamped linear-velocity jump, constant-rate fall), collision
//! filtering that is toggled while a jump is in flight, and the discrete
//! interactions between the player, power-up blocks and the "champi"
//! power-up entities.
//!
//! The engine around this core (windowing, rendering, the physics solver,
//! input polling) is an external collaborator: each simulation tick it takes
//! the displacement this library computed, resolves it, and hands back what
//! happened (achieved grounded state and the tick's contact events). All
//! decisions are made here, on plain values.
//!
//! Geometry is held in fixed-point integers: 60 subunits per pixel, with
//! time in milliseconds. The pixel-per-second speeds of the game divide
//! evenly into whole subunits per millisecond, so every displacement the
//! controller computes is exact (see `units`).

pub mod block;
pub mod champi;
pub mod contact;
pub mod mario;
pub mod units;
pub mod world;
