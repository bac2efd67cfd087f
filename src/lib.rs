//! Reinforcement-learning ball arenas: ball registry, movement and drag,
//! observation/action codec, episode bookkeeping and the batched coordinator.
//!
//! Lengths are fixed-point integers in thousandths of a world unit
//! (velocities in thousandths per second, durations in milliseconds).

pub mod ball;

pub mod movement;
pub mod resources;
pub mod codec;
pub mod scene;
pub mod coordinator;
pub mod logging;
