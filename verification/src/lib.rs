//! Core of a wrapped-plane arcade shooter: a ship, splitting asteroids,
//! hunter aliens and projectiles, stepped once per rendered frame.
//!
//! All simulation quantities are fixed-point integers: distances carry
//! 1000 steps per world unit, angles 1_000_000 steps per turn, and times
//! are whole milliseconds.  The host is expected to poll input, supply the
//! frame delta, and draw the entity lists; nothing here touches a window.

pub mod trig;
pub mod geometry;
pub mod rng;
pub mod game_object;
pub mod lifecycle;
pub mod engine;
