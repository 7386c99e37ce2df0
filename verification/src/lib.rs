//! Verified core of a small 2D arcade engine: axis-aligned rectangle
//! geometry, overlap tests, collision-resolution policies and kinematic
//! integration, together with the per-game entity logic built on them.
//!
//! All coordinates live on a fixed-point grid: the unit square that makes up
//! the board spans `UNIT` grid steps per axis, velocities are grid steps per
//! second, and a time delta of `UNIT` ticks is one second.  Angles are in
//! hundredths of a degree.  Directions (the results of trigonometry, which
//! the embedding program computes) are passed in as `Dir` pairs scaled by
//! `UNIT`.

pub mod angles;
pub mod asteroids;
pub mod breakout;
pub mod classic;
pub mod collide;
pub mod combat;
pub mod fixed;
pub mod geometry;
pub mod invaders;
pub mod physics;
pub mod pong;
pub mod random;
