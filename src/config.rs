//! Tunables read by the scene and player logic.
use vstd::prelude::*;

use crate::geometry::Vec3i;

verus! {

/// The tunables the library reads, loaded once and never changed afterwards.
/// Lengths are in micrometres, velocities in micrometres per second,
/// accelerations in micrometres per second squared.
#[derive(Clone, Copy, Debug, PartialEq, Eq, Structural)]
pub struct Config {
    /// Height of the camera above the bottom of the player's capsule.
    pub player_camera_height: i64,
    /// Radius of the player's capsule.
    pub player_capsule_radius: i64,
    /// Height of the cylindrical part of the player's capsule.
    pub player_capsule_cylinder_height: i64,
    /// Factor applied to emissive colours, in millionths.
    pub emissive_scale: i64,
    /// Downward acceleration while airborne.
    pub gravity: i64,
    /// Upward velocity given by a jump.
    pub jump_velocity: i64,
    /// Below this height the player has fallen off the level.
    pub fall_off_level_y: i64,
    /// Where the bottom of the player's capsule is placed on (re)spawn.
    pub spawn_position: Vec3i,
}

impl Config {
    /// The spawn point lifted by the capsule radius is representable.
    pub open spec fn wf(&self) -> bool {
        i64::MIN <= self.spawn_position.y + self.player_capsule_radius <= i64::MAX
    }
}

} // verus!
