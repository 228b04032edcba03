//! Scene-readiness and player-controller logic for a physically simulated
//! dungeon level.
//!
//! Lengths are integers in micrometres, times in microseconds, velocities in
//! micrometres per second and accelerations in micrometres per second squared.
//! The host converts to and from its floating-point representation at the
//! edge.
pub mod fixed;
pub mod geometry;
pub mod names;
pub mod scene;
pub mod config;
pub mod player;
pub mod assets;
pub mod app_state;
pub mod lighting;
