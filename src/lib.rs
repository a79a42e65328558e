//! Entity simulation core of a 2D side-scrolling platformer: rectangle overlap,
//! tagged colliders, timed status effects, the player's damage and power-ups,
//! enemy sensor-grid AI, projectiles, cannons and the per-frame level tick.
//!
//! World coordinates are whole pixels and time is whole milliseconds. What the
//! physics backend answers (is there ground below, would this cell hit a solid)
//! is handed to the library as plain values.
pub mod geometry;
pub mod matrix;
pub mod timer;
pub mod enums;
pub mod collider;
pub mod player;
pub mod enemy;
pub mod projectile;
pub mod level;
pub mod cannon;
pub mod mapper;
pub mod scores;
pub mod camera;
