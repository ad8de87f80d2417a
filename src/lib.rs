//! Simulation core of a two-player paddle-and-ball arcade game: the entity
//! model, collision rules, the phase-driven frame dispatcher and the per-frame
//! quad geometry. All coordinates are fixed-point integers (see `math::UNIT`).
pub mod math;
pub mod state;
pub mod physics;
pub mod rules;
pub mod systems;
pub mod buffers;
pub mod laws;
