//! Per-frame simulation core for three small arcade games: a flight game, a
//! two-paddle ball game and a growing-trail game.
//!
//! All quantities are whole numbers. Lengths are in milli-pixels, durations in
//! milliseconds, and speeds in pixels per second (which is milli-pixels per
//! millisecond, so `speed * dt` is a displacement with no rounding).
pub mod geom;
pub mod motion;
pub mod timer;
pub mod chain;
pub mod flight;
pub mod ball;
pub mod trail;
mod random;
