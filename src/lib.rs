//! Per-frame simulation core of a small arcade game: a ship confined to a
//! viewport, projectiles fired upward, asteroids falling from above.
//!
//! Positions are fixed-point: one pixel is `SUBUNITS` sub-units, and elapsed
//! time is counted in microseconds, so a speed in pixels per second is exactly
//! a speed in sub-units per microsecond.
pub mod geometry;
pub mod registry;
pub mod effects;
pub mod motion;
pub mod spawn;
pub mod collision;
pub mod world;
pub mod laws;
