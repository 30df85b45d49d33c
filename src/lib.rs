//! Simulation core of a wrapped-plane asteroid shooter: movement, screen wrap,
//! projectile lifetimes, collisions, fragmentation, scoring and the round
//! state machine, all on exact integer arithmetic.
pub mod geometry;
pub mod random;
pub mod asteroid;
pub mod player;
pub mod mechanics;
pub mod game;
pub mod laws;
