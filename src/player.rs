//! The player's kinematic controller: input, gravity, grounding and respawn.
use vstd::prelude::*;

use crate::config::Config;
use crate::fixed::{clamp_i64, mul_micro, mul_micro_spec, saturate_i64};
use crate::geometry::Vec3i;
use crate::scene::BodyKind;

verus! {

/// Vertical velocity kept while standing on the ground and moving down, in
/// micrometres per second. Slightly negative rather than zero, so that the
/// solver keeps reporting ground contact instead of flipping every tick.
pub const GROUND_HOLD_VELOCITY: i64 = -100_000;

/// The player's controller state.
#[derive(Clone, Copy, Debug, PartialEq, Eq, Structural)]
pub struct Player {
    /// Vertical velocity in micrometres per second, upward positive.
    pub vertical_velocity: i64,
    /// Whether the solver reported ground contact after the last move.
    pub grounded: bool,
}

/// Emitted for a tick in which the player asked to move horizontally.
#[derive(Clone, Copy, Debug, PartialEq, Eq, Structural)]
pub struct PlayerMovement;

/// The directional keys held during a tick.
#[derive(Clone, Copy, Debug, PartialEq, Eq, Structural)]
pub struct MoveKeys {
    pub forward: bool,
    pub back: bool,
    pub left: bool,
    pub right: bool,
}

/// The horizontal direction asked for, as weights of the camera's forward and
/// right basis vectors, each -1, 0 or 1. The host normalizes the weighted
/// sum, or uses zero when both weights are zero.
#[derive(Clone, Copy, Debug, PartialEq, Eq, Structural)]
pub struct MoveIntent {
    pub forward: i8,
    pub right: i8,
}

/// The outcome of one movement tick.
#[derive(Clone, Copy, Debug, PartialEq, Eq, Structural)]
pub struct Movement {
    /// The horizontal direction asked for.
    pub intent: MoveIntent,
    /// The notification for this tick, present exactly when the intent is not zero.
    pub event: Option<PlayerMovement>,
}

/// Where the player body and its camera go on (re)spawn.
#[derive(Clone, Copy, Debug, PartialEq, Eq, Structural)]
pub struct SpawnPose {
    /// Position of the body's origin.
    pub body: Vec3i,
    /// Position of the camera relative to the body; the camera faces along +X.
    pub camera: Vec3i,
}

pub open spec fn weight(plus: bool, minus: bool) -> int {
    (if plus {
        1int
    } else {
        0int
    }) - (if minus {
        1int
    } else {
        0int
    })
}

pub open spec fn intent_spec(keys: MoveKeys) -> MoveIntent {
    MoveIntent {
        forward: weight(keys.forward, keys.back) as i8,
        right: weight(keys.right, keys.left) as i8,
    }
}

pub open spec fn is_zero_intent(i: MoveIntent) -> bool {
    i.forward == 0 && i.right == 0
}

/// The velocity change that gravity `g` brings about in `dt` microseconds,
/// rounded down.
pub open spec fn fall_delta(g: i64, dt: u32) -> int {
    mul_micro_spec(g as int, dt as int)
}

/// The player after the vertical part of a tick lasting `dt` microseconds. A
/// jump from the ground sets the jump velocity and leaves the ground; on the
/// ground a downward velocity is held at [`GROUND_HOLD_VELOCITY`]; in the air
/// gravity lowers the velocity, saturating at the bounds of `i64`.
pub open spec fn vertical_step_spec(p: Player, jump: bool, dt: u32, c: Config) -> Player {
    if jump && p.grounded {
        Player { vertical_velocity: c.jump_velocity, grounded: false }
    } else if p.grounded && p.vertical_velocity < 0 {
        Player { vertical_velocity: GROUND_HOLD_VELOCITY, grounded: true }
    } else if !p.grounded {
        Player {
            vertical_velocity: clamp_i64(p.vertical_velocity - fall_delta(c.gravity, dt)),
            grounded: false,
        }
    } else {
        p
    }
}

pub open spec fn spawn_body_spec(c: Config) -> Vec3i {
    Vec3i {
        x: c.spawn_position.x,
        y: (c.spawn_position.y + c.player_capsule_radius) as i64,
        z: c.spawn_position.z,
    }
}

pub open spec fn spawn_camera_spec(c: Config) -> Vec3i {
    Vec3i { x: 0, y: c.player_camera_height, z: 0 }
}

pub open spec fn spawn_pose_spec(c: Config) -> SpawnPose {
    SpawnPose { body: spawn_body_spec(c), camera: spawn_camera_spec(c) }
}

pub open spec fn fresh_player() -> Player {
    Player { vertical_velocity: 0, grounded: false }
}

/// The player and the spawn poses after the respawn check of a player whose
/// body is at height `y`: below the fall-off height the state is reset and the
/// spawn poses are given; otherwise nothing changes.
pub open spec fn respawn_spec(p: Player, y: i64, c: Config) -> (Player, Option<SpawnPose>) {
    if y < c.fall_off_level_y {
        (fresh_player(), Some(spawn_pose_spec(c)))
    } else {
        (p, None)
    }
}

fn weight_exec(plus: bool, minus: bool) -> (r: i8)
    ensures
        r == weight(plus, minus),
{
    let mut w: i8 = 0;
    if plus {
        w = w + 1;
    }
    if minus {
        w = w - 1;
    }
    w
}

/// The horizontal direction asked for by the held keys: forward and back
/// cancel, as do left and right.
pub fn movement_intent(keys: &MoveKeys) -> (r: MoveIntent)
    ensures
        r == intent_spec(*keys),
{
    MoveIntent {
        forward: weight_exec(keys.forward, keys.back),
        right: weight_exec(keys.right, keys.left),
    }
}

impl MoveIntent {
    /// Whether the intent asks for no horizontal motion.
    pub fn is_zero(&self) -> (r: bool)
        ensures
            r == is_zero_intent(*self),
    {
        self.forward == 0 && self.right == 0
    }
}

/// Where the player's body is placed on spawn: the configured spawn position
/// lifted by the capsule radius, so that the capsule rests on the ground.
pub fn player_spawn_transform(config: &Config) -> (r: Vec3i)
    requires
        config.wf(),
    ensures
        r == spawn_body_spec(*config),
{
    Vec3i {
        x: config.spawn_position.x,
        y: config.spawn_position.y + config.player_capsule_radius,
        z: config.spawn_position.z,
    }
}

/// Where the camera is placed relative to the body on spawn: straight above
/// the body's origin at the configured camera height.
pub fn player_camera_spawn_transform(config: &Config) -> (r: Vec3i)
    ensures
        r == spawn_camera_spec(*config),
{
    Vec3i { x: 0, y: config.player_camera_height, z: 0 }
}

/// The poses of body and camera for a (re)spawn.
pub fn spawn_pose(config: &Config) -> (r: SpawnPose)
    requires
        config.wf(),
    ensures
        r == spawn_pose_spec(*config),
{
    SpawnPose { body: player_spawn_transform(config), camera: player_camera_spawn_transform(config) }
}

/// The body the player is given: a kinematic, position-based one.
pub fn player_body_kind() -> (r: BodyKind)
    ensures
        r == BodyKind::KinematicPositionBased,
{
    BodyKind::KinematicPositionBased
}

/// Whether a force push acts: the push button went down this tick and the ray
/// struck a dynamic body.
pub fn force_push_applies(pressed: bool, hit: Option<BodyKind>) -> (r: bool)
    ensures
        r == (pressed && hit == Some(BodyKind::Dynamic)),
{
    if !pressed {
        return false;
    }
    match hit {
        Some(BodyKind::Dynamic) => true,
        _ => false,
    }
}

fn fall_velocity(v: i64, g: i64, dt: u32) -> (r: i64)
    ensures
        r == clamp_i64(v - fall_delta(g, dt)),
{
    let delta = mul_micro(g, dt as i64);
    saturate_i64(v as i128 - delta)
}

impl Player {
    /// A player at rest in the air, as spawned.
    pub fn new() -> (r: Player)
        ensures
            r == fresh_player(),
    {
        Player { vertical_velocity: 0, grounded: false }
    }

    /// The vertical part of a tick lasting `dt` microseconds, given whether a
    /// jump was pressed during it.
    pub fn vertical_step(&mut self, jump_pressed: bool, dt: u32, config: &Config)
        ensures
            *final(self) == vertical_step_spec(*old(self), jump_pressed, dt, *config),
    {
        if jump_pressed && self.grounded {
            self.vertical_velocity = config.jump_velocity;
            self.grounded = false;
        } else if self.grounded && self.vertical_velocity < 0 {
            self.vertical_velocity = GROUND_HOLD_VELOCITY;
        } else if !self.grounded {
            self.vertical_velocity = fall_velocity(self.vertical_velocity, config.gravity, dt);
        }
    }

    /// One movement tick: updates the vertical state and returns the
    /// horizontal intent, with a notification when it is not zero.
    pub fn player_movement(
        &mut self,
        keys: &MoveKeys,
        jump_pressed: bool,
        dt: u32,
        config: &Config,
    ) -> (r: Movement)
        ensures
            *final(self) == vertical_step_spec(*old(self), jump_pressed, dt, *config),
            r.intent == intent_spec(*keys),
            r.event == (if is_zero_intent(r.intent) {
                None
            } else {
                Some(PlayerMovement)
            }),
    {
        self.vertical_step(jump_pressed, dt, config);
        let intent = movement_intent(keys);
        let event = if intent.is_zero() {
            None
        } else {
            Some(PlayerMovement)
        };
        Movement { intent, event }
    }

    /// Copies the solver's ground-contact report into the state.
    pub fn update_after_physics(&mut self, grounded: bool)
        ensures
            final(self).grounded == grounded,
            final(self).vertical_velocity == old(self).vertical_velocity,
    {
        self.grounded = grounded;
    }

    /// Respawns a player whose body is at height `y`, if it has fallen below
    /// the level: the state is reset and the spawn poses are returned.
    /// Otherwise nothing changes.
    pub fn maybe_respawn(&mut self, y: i64, config: &Config) -> (r: Option<SpawnPose>)
        requires
            config.wf(),
        ensures
            (*final(self), r) == respawn_spec(*old(self), y, *config),
    {
        if y < config.fall_off_level_y {
            *self = Player::new();
            Some(spawn_pose(config))
        } else {
            None
        }
    }
}

/// A jump from the ground sets the vertical velocity to exactly the jump
/// velocity and leaves the ground; while airborne, pressing jump changes
/// nothing compared with not pressing it, so repeated presses have no effect
/// until the player is grounded again.
pub proof fn lemma_jump(p: Player, dt: u32, c: Config)
    ensures
        p.grounded ==> vertical_step_spec(p, true, dt, c) == (Player {
            vertical_velocity: c.jump_velocity,
            grounded: false,
        }),
        !p.grounded ==> vertical_step_spec(p, true, dt, c) == vertical_step_spec(p, false, dt, c),
        !p.grounded ==> !vertical_step_spec(p, true, dt, c).grounded,
{
}

/// Opposite keys cancel: forward with back gives no forward weight, left with
/// right no sideways weight; forward with right alone gives equal unit weights,
/// a direction halfway between the two basis vectors.
pub proof fn lemma_intent_cancel(keys: MoveKeys)
    ensures
        keys.forward && keys.back ==> intent_spec(keys).forward == 0,
        keys.left && keys.right ==> intent_spec(keys).right == 0,
        keys.forward && keys.back && keys.left == keys.right ==> is_zero_intent(intent_spec(keys)),
        keys.forward && keys.right && !keys.back && !keys.left ==> intent_spec(keys) == (
        MoveIntent { forward: 1, right: 1 }),
{
}

/// A player below the fall-off height is, at its next respawn check, put back
/// at the spawn position lifted by the capsule radius, with zero vertical
/// velocity and not grounded; at or above that height it is left alone.
pub proof fn lemma_respawn(p: Player, y: i64, c: Config)
    requires
        c.wf(),
    ensures
        y < c.fall_off_level_y ==> {
            let (q, pose) = respawn_spec(p, y, c);
            &&& q.vertical_velocity == 0
            &&& !q.grounded
            &&& pose matches Some(sp) && sp.body.x == c.spawn_position.x && sp.body.y
                == c.spawn_position.y + c.player_capsule_radius && sp.body.z == c.spawn_position.z
        },
        y >= c.fall_off_level_y ==> respawn_spec(p, y, c) == (p, None::<SpawnPose>),
{
}

} // verus!
