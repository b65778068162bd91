//! A deterministic core for a small real-time-strategy game: units are
//! spawned, selected with a dragged rectangle and sent towards a goal.
//!
//! All quantities are fixed-point integers, so that every step of the
//! simulation is exact and reproducible. Lengths are counted in world units
//! ([`fixed::UNITS_PER_PIXEL`] of them to a pixel), time in microseconds.
//! A coordinate that would leave the range of `i64` stays at the end of the
//! range that it ran into.

pub mod fixed;
pub mod vec2;
pub mod rect;
pub mod circle;
pub mod sprite;
pub mod draw;
pub mod tank;
pub mod input;
pub mod game;
