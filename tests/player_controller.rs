use dungeon_scene::config::Config;
use dungeon_scene::geometry::Vec3i;
use dungeon_scene::player::{
    force_push_applies, movement_intent, player_body_kind, player_camera_spawn_transform,
    player_spawn_transform, spawn_pose, MoveIntent, MoveKeys, Player, PlayerMovement,
    GROUND_HOLD_VELOCITY,
};
use dungeon_scene::scene::BodyKind;

fn config() -> Config {
    Config {
        player_camera_height: 1_600_000,
        player_capsule_radius: 400_000,
        player_capsule_cylinder_height: 1_000_000,
        emissive_scale: 10_000_000,
        gravity: 9_810_000,
        jump_velocity: 4_000_000,
        fall_off_level_y: -20_000_000,
        spawn_position: Vec3i::new(2_000_000, 0, -3_000_000),
    }
}

fn keys(forward: bool, back: bool, left: bool, right: bool) -> MoveKeys {
    MoveKeys { forward, back, left, right }
}

#[test]
fn forward_and_right_give_equal_weights() {
    let intent = movement_intent(&keys(true, false, false, true));
    assert_eq!(intent, MoveIntent { forward: 1, right: 1 });
    assert!(!intent.is_zero());
}

#[test]
fn opposite_keys_cancel() {
    let intent = movement_intent(&keys(true, true, false, false));
    assert_eq!(intent, MoveIntent { forward: 0, right: 0 });
    assert!(intent.is_zero());
    let all = movement_intent(&keys(true, true, true, true));
    assert!(all.is_zero());
    assert_eq!(movement_intent(&keys(false, true, true, false)), MoveIntent { forward: -1, right: -1 });
}

#[test]
fn movement_event_only_when_moving() {
    let c = config();
    let mut p = Player::new();
    let moved = p.player_movement(&keys(true, false, false, false), false, 16_000, &c);
    assert_eq!(moved.event, Some(PlayerMovement));
    let still = p.player_movement(&keys(false, false, true, true), false, 16_000, &c);
    assert_eq!(still.event, None);
}

#[test]
fn jump_from_ground_sets_jump_velocity() {
    let c = config();
    let mut p = Player { vertical_velocity: 0, grounded: true };
    p.vertical_step(true, 16_000, &c);
    assert_eq!(p, Player { vertical_velocity: 4_000_000, grounded: false });
}

#[test]
fn jump_while_airborne_has_no_effect() {
    let c = config();
    let mut jumping = Player { vertical_velocity: 4_000_000, grounded: false };
    let mut not_jumping = jumping;
    jumping.vertical_step(true, 16_000, &c);
    not_jumping.vertical_step(false, 16_000, &c);
    assert_eq!(jumping, not_jumping);
    assert_eq!(jumping, Player { vertical_velocity: 4_000_000 - 156_960, grounded: false });
}

#[test]
fn grounded_downward_velocity_is_held() {
    let c = config();
    let mut p = Player { vertical_velocity: -3_000_000, grounded: true };
    p.vertical_step(false, 16_000, &c);
    assert_eq!(p, Player { vertical_velocity: GROUND_HOLD_VELOCITY, grounded: true });
    assert_eq!(GROUND_HOLD_VELOCITY, -100_000);
    let mut resting = Player { vertical_velocity: 0, grounded: true };
    resting.vertical_step(false, 16_000, &c);
    assert_eq!(resting, Player { vertical_velocity: 0, grounded: true });
}

#[test]
fn gravity_rounds_down_and_saturates() {
    let mut c = config();
    let mut p = Player::new();
    p.vertical_step(false, 16_000, &c);
    assert_eq!(p.vertical_velocity, -156_960);
    c.gravity = 3;
    let mut q = Player::new();
    q.vertical_step(false, 1, &c);
    assert_eq!(q.vertical_velocity, 0);
    c.gravity = -3;
    let mut up = Player::new();
    up.vertical_step(false, 1, &c);
    assert_eq!(up.vertical_velocity, 1);
    c.gravity = i64::MAX;
    let mut r = Player { vertical_velocity: i64::MIN + 5, grounded: false };
    r.vertical_step(false, u32::MAX, &c);
    assert_eq!(r.vertical_velocity, i64::MIN);
}

#[test]
fn grounded_sync_copies_solver_flag() {
    let mut p = Player { vertical_velocity: -7, grounded: false };
    p.update_after_physics(true);
    assert_eq!(p, Player { vertical_velocity: -7, grounded: true });
    p.update_after_physics(false);
    assert!(!p.grounded);
}

#[test]
fn falling_below_level_respawns() {
    let c = config();
    let mut p = Player { vertical_velocity: -9_000_000, grounded: false };
    let pose = p.maybe_respawn(-20_000_001, &c).unwrap();
    assert_eq!(pose.body, Vec3i::new(2_000_000, 400_000, -3_000_000));
    assert_eq!(pose.camera, Vec3i::new(0, 1_600_000, 0));
    assert_eq!(p, Player { vertical_velocity: 0, grounded: false });
}

#[test]
fn at_fall_level_no_respawn() {
    let c = config();
    let mut p = Player { vertical_velocity: -9_000_000, grounded: false };
    assert_eq!(p.maybe_respawn(-20_000_000, &c), None);
    assert_eq!(p, Player { vertical_velocity: -9_000_000, grounded: false });
}

#[test]
fn spawn_transforms() {
    let c = config();
    assert_eq!(player_spawn_transform(&c), Vec3i::new(2_000_000, 400_000, -3_000_000));
    assert_eq!(player_camera_spawn_transform(&c), Vec3i::new(0, 1_600_000, 0));
    assert_eq!(spawn_pose(&c).body, player_spawn_transform(&c));
    assert_eq!(player_body_kind(), BodyKind::KinematicPositionBased);
}

#[test]
fn force_push_only_on_dynamic_hits() {
    assert!(force_push_applies(true, Some(BodyKind::Dynamic)));
    assert!(!force_push_applies(true, Some(BodyKind::Fixed)));
    assert!(!force_push_applies(true, None));
    assert!(!force_push_applies(false, Some(BodyKind::Dynamic)));
}
