//! Component-level behaviour: intent translation, the jump/fall
//! machine, walking integration, the camera rig and the speed effect.

use character_control::animation::{select_animation, AnimationClip};
use character_control::body::{apply_integration, IntegrationOutcome, KinematicBody};
use character_control::camera::{
    handle_camera_kind, set_camera_actions, update_camera_rig, CameraActions, CameraModeRequest,
    CameraRig, CameraRigKind, CharacterView, DEFAULT_CAMERA_DISTANCE, MAX_CAMERA_DISTANCE,
    MIN_CAMERA_DISTANCE,
};
use character_control::fixed::isqrt64;
use character_control::intent::{handle_horizontal_movement, PlayerIntent};
use character_control::jump::{handle_jump, update_jump, Jump, JumpPhase, JUMP_IMPULSE};
use character_control::speed_effects::{fov_for, handle_speed_effects, Projection, MAX_FOV, MIN_FOV};
use character_control::vector::{normalize_xz, Vec3Fix};
use character_control::walker::{apply_walking, Walker};
use character_control::follower::handle_follower_navigation;

fn v(x: i64, y: i64, z: i64) -> Vec3Fix {
    Vec3Fix { x, y, z }
}

fn third_person_rig(forward: Vec3Fix) -> CameraRig {
    CameraRig {
        kind: CameraRigKind::ThirdPerson { distance: DEFAULT_CAMERA_DISTANCE },
        forward,
        actions: CameraActions::none(),
    }
}

fn resting_body() -> KinematicBody {
    KinematicBody::at_rest(v(0, 0, 0), true)
}

#[test]
fn zero_input_leaves_direction_unset() {
    let mut walker = Walker { direction: Some(v(0, 0, 1000)), sprinting: false };
    let mut jump = Jump::new();
    let intent = PlayerIntent { movement_x: 0, movement_y: 0, jump: false, sprint: false };
    handle_horizontal_movement(&intent, &v(0, 0, 1000), &mut walker, &mut jump);
    assert_eq!(walker.direction, None);
}

#[test]
fn vertical_camera_leaves_direction_unset() {
    let mut walker = Walker::new();
    let mut jump = Jump::new();
    let intent = PlayerIntent { movement_x: 0, movement_y: 1000, jump: false, sprint: false };
    handle_horizontal_movement(&intent, &v(0, 1000, 0), &mut walker, &mut jump);
    assert_eq!(walker.direction, None);
}

#[test]
fn forward_input_gives_camera_forward() {
    let mut walker = Walker::new();
    let mut jump = Jump::new();
    let intent = PlayerIntent { movement_x: 0, movement_y: 1000, jump: false, sprint: true };
    handle_horizontal_movement(&intent, &v(0, 0, 1000), &mut walker, &mut jump);
    assert_eq!(walker.direction, Some(v(0, 0, 1000)));
    assert!(walker.sprinting);
}

#[test]
fn lateral_input_gives_camera_rightward() {
    let mut walker = Walker::new();
    let mut jump = Jump::new();
    // camera looks along +z; its rightward direction is -x
    let intent = PlayerIntent { movement_x: 1000, movement_y: 0, jump: false, sprint: false };
    handle_horizontal_movement(&intent, &v(0, 0, 1000), &mut walker, &mut jump);
    assert_eq!(walker.direction, Some(v(-1000, 0, 0)));
}

#[test]
fn intent_keeps_pending_jump_request() {
    let mut walker = Walker::new();
    let mut jump = Jump::new();
    jump.requested = true;
    let intent = PlayerIntent { movement_x: 0, movement_y: 0, jump: false, sprint: false };
    handle_horizontal_movement(&intent, &v(0, 0, 1000), &mut walker, &mut jump);
    assert!(jump.requested);
}

#[test]
fn jump_button_raises_request() {
    let mut jump = Jump::new();
    handle_jump(&mut jump, true);
    assert!(jump.requested);
    handle_jump(&mut jump, false);
    assert!(jump.requested);
}

#[test]
fn derived_basis_is_orthonormal_for_three_four_five() {
    let (fx, fz) = normalize_xz(3000, 4000).unwrap();
    assert_eq!((fx, fz), (600, 800));
    let (sx, sz) = (-fz, fx);
    assert_eq!(fx * sx + fz * sz, 0);
    assert_eq!(fx * fx + fz * fz, 1_000_000);
    assert_eq!(sx * sx + sz * sz, 1_000_000);
}

#[test]
fn normalize_zero_is_none() {
    assert_eq!(normalize_xz(0, 0), None);
    assert_eq!(normalize_xz(0, 1), Some((0, 1000)));
}

#[test]
fn isqrt_floor_values() {
    assert_eq!(isqrt64(0), 0);
    assert_eq!(isqrt64(1), 1);
    assert_eq!(isqrt64(10), 3);
    assert_eq!(isqrt64(25_000_000), 5000);
    assert_eq!(isqrt64(25_000_001), 5000);
}

#[test]
fn jump_request_consumed_only_once() {
    let mut jump = Jump::new();
    jump.requested = true;
    let v1 = update_jump(&mut jump, true, 100);
    assert_eq!(jump.phase, JumpPhase::Ascending);
    assert_eq!(v1, JUMP_IMPULSE);
    assert!(!jump.requested);
    // the request is spent: later ticks never replay it
    while jump.phase != JumpPhase::Falling {
        update_jump(&mut jump, false, 100);
        assert_ne!(jump.phase, JumpPhase::Grounded);
    }
    update_jump(&mut jump, true, 100);
    assert_eq!(jump.phase, JumpPhase::Grounded);
}

#[test]
fn cleared_request_never_retriggers_ascent() {
    let mut jump = Jump::new();
    update_jump(&mut jump, true, 100);
    assert_eq!(jump.phase, JumpPhase::Grounded);
    update_jump(&mut jump, true, 100);
    assert_eq!(jump.phase, JumpPhase::Grounded);
    assert_eq!(jump.vertical_velocity, 0);
}

#[test]
fn falling_request_is_dropped_not_queued() {
    let mut jump = Jump {
        requested: true,
        phase: JumpPhase::Falling,
        vertical_velocity: -1000,
        ascent_elapsed: 0,
    };
    update_jump(&mut jump, false, 100);
    assert_eq!(jump.phase, JumpPhase::Falling);
    assert!(!jump.requested);
    update_jump(&mut jump, true, 100);
    assert_eq!(jump.phase, JumpPhase::Grounded);
    assert_eq!(jump.vertical_velocity, 0);
}

#[test]
fn ascent_slows_under_gravity_and_turns_into_fall() {
    let mut jump = Jump::new();
    jump.requested = true;
    update_jump(&mut jump, true, 500);
    assert_eq!(jump.phase, JumpPhase::Ascending);
    assert_eq!(jump.vertical_velocity, JUMP_IMPULSE);
    update_jump(&mut jump, false, 500);
    // 5000 - 9810 * 500 / 1000 = 95
    assert_eq!(jump.phase, JumpPhase::Ascending);
    assert_eq!(jump.vertical_velocity, 95);
    update_jump(&mut jump, false, 500);
    assert_eq!(jump.phase, JumpPhase::Falling);
    assert!(jump.vertical_velocity < 0);
}

#[test]
fn walking_accelerates_toward_walk_speed() {
    let walker = Walker { direction: Some(v(0, 0, 1000)), sprinting: false };
    let mut body = resting_body();
    apply_walking(&walker, &mut body, 100);
    assert_eq!(body.velocity, v(0, 0, 2000));
    apply_walking(&walker, &mut body, 100);
    assert_eq!(body.velocity, v(0, 0, 4000));
    apply_walking(&walker, &mut body, 100);
    // the walk-speed target is never overshot
    assert_eq!(body.velocity, v(0, 0, 4000));
}

#[test]
fn sprint_raises_the_target_speed() {
    let walker = Walker { direction: Some(v(0, 0, 1000)), sprinting: true };
    let mut body = resting_body();
    apply_walking(&walker, &mut body, 1000);
    assert_eq!(body.velocity, v(0, 0, 7000));
}

#[test]
fn no_direction_decays_toward_rest() {
    let walker = Walker::new();
    let mut body = resting_body();
    body.velocity = v(5000, 0, -1500);
    apply_walking(&walker, &mut body, 100);
    assert_eq!(body.velocity, v(3000, 0, 0));
    apply_walking(&walker, &mut body, 100);
    assert_eq!(body.velocity, v(1000, 0, 0));
    apply_walking(&walker, &mut body, 100);
    assert_eq!(body.velocity, v(0, 0, 0));
}

#[test]
fn follower_navigation_writes_the_walker() {
    let mut walker = Walker { direction: None, sprinting: true };
    handle_follower_navigation(&mut walker, &Some(v(1000, 0, 0)));
    assert_eq!(walker.direction, Some(v(1000, 0, 0)));
    assert!(walker.sprinting);
    handle_follower_navigation(&mut walker, &None);
    assert_eq!(walker.direction, None);
}

#[test]
fn blocked_normal_removes_velocity_into_wall() {
    let mut body = resting_body();
    body.velocity = v(1000, 0, 0);
    let outcome = IntegrationOutcome {
        position: v(500, 0, 0),
        ground_contact: true,
        blocked_normals: vec![v(-1000, 0, 0)],
    };
    apply_integration(&mut body, &outcome);
    assert_eq!(body.velocity, v(0, 0, 0));
    assert_eq!(body.position, v(500, 0, 0));
    assert!(body.grounded);
}

#[test]
fn normal_facing_away_keeps_velocity() {
    let mut body = resting_body();
    body.velocity = v(1000, 0, 0);
    let outcome = IntegrationOutcome {
        position: v(1100, 0, 0),
        ground_contact: false,
        blocked_normals: vec![v(1000, 0, 0)],
    };
    apply_integration(&mut body, &outcome);
    assert_eq!(body.velocity, v(1000, 0, 0));
    assert!(!body.grounded);
}

#[test]
fn camera_actions_are_mirrored_then_consumed() {
    let mut rig = third_person_rig(v(0, 0, 1000));
    let actions = CameraActions {
        look_x: 10,
        look_y: -10,
        zoom: 500,
        mode_switch: None,
    };
    set_camera_actions(&mut rig, &actions);
    assert_eq!(rig.actions, actions);
    update_camera_rig(&mut rig);
    assert_eq!(rig.actions, CameraActions::none());
    assert_eq!(rig.kind, CameraRigKind::ThirdPerson { distance: DEFAULT_CAMERA_DISTANCE + 500 });
}

#[test]
fn camera_zoom_is_clamped_to_its_range() {
    let mut rig = third_person_rig(v(0, 0, 1000));
    rig.actions.zoom = 1_000_000;
    update_camera_rig(&mut rig);
    assert_eq!(rig.kind, CameraRigKind::ThirdPerson { distance: MAX_CAMERA_DISTANCE });
    rig.actions.zoom = -1_000_000;
    update_camera_rig(&mut rig);
    assert_eq!(rig.kind, CameraRigKind::ThirdPerson { distance: MIN_CAMERA_DISTANCE });
}

#[test]
fn mode_switch_to_same_mode_keeps_distance() {
    let mut rig = third_person_rig(v(0, 0, 1000));
    rig.kind = CameraRigKind::ThirdPerson { distance: 3000 };
    rig.actions.mode_switch = Some(CameraModeRequest::ThirdPerson);
    update_camera_rig(&mut rig);
    assert_eq!(rig.kind, CameraRigKind::ThirdPerson { distance: 3000 });
}

#[test]
fn first_person_hides_and_faces_camera_forward() {
    let mut rig = third_person_rig(v(600, 0, 800));
    let mut view = CharacterView { visible: true, look_target: None };
    let position = v(10_000, 2_000, -4_000);
    rig.actions.mode_switch = Some(CameraModeRequest::FirstPerson);
    update_camera_rig(&mut rig);
    assert_eq!(rig.kind, CameraRigKind::FirstPerson);
    handle_camera_kind(&rig, &position, &mut view);
    assert!(!view.visible);
    assert_eq!(view.look_target, Some(v(10_600, 2_000, -3_200)));
}

#[test]
fn switching_back_restores_visibility() {
    let mut rig = third_person_rig(v(0, 0, 1000));
    let mut view = CharacterView { visible: true, look_target: None };
    let position = v(0, 0, 0);
    rig.actions.mode_switch = Some(CameraModeRequest::FirstPerson);
    update_camera_rig(&mut rig);
    handle_camera_kind(&rig, &position, &mut view);
    assert!(!view.visible);
    rig.actions.mode_switch = Some(CameraModeRequest::ThirdPerson);
    update_camera_rig(&mut rig);
    handle_camera_kind(&rig, &position, &mut view);
    assert!(view.visible);
    rig.actions.mode_switch = Some(CameraModeRequest::FixedAngle);
    update_camera_rig(&mut rig);
    handle_camera_kind(&rig, &position, &mut view);
    assert!(view.visible);
}

#[test]
fn fov_is_exact_at_rest_and_at_the_cap() {
    assert_eq!(fov_for(0), MIN_FOV);
    assert_eq!(fov_for(100_000_000), MAX_FOV);
    assert_eq!(fov_for(200_000_000), MAX_FOV);
}

#[test]
fn fov_at_half_speed_uses_quadratic_easing() {
    // speed 5000: ratio 250 of 1000, eased 62 of 1000, 750 + 950 * 62 / 1000
    assert_eq!(fov_for(25_000_000), 808);
}

#[test]
fn fov_is_monotone_across_samples() {
    let samples = [
        0,
        1,
        1_000,
        1_000_000,
        25_000_000,
        50_000_000,
        99_999_999,
        100_000_000,
        150_000_000,
    ];
    let mut last = MIN_FOV;
    for s in samples {
        let f = fov_for(s);
        assert!(f >= last);
        last = f;
    }
}

#[test]
fn speed_effect_skips_orthographic_projection() {
    let mut body = resting_body();
    body.velocity = v(10_000, 0, 0);
    let mut projection = Projection::Orthographic { ortho_scale: 5 };
    handle_speed_effects(&body, &mut projection);
    assert_eq!(projection, Projection::Orthographic { ortho_scale: 5 });
}

#[test]
fn animation_follows_phase_and_speed() {
    let mut body = resting_body();
    assert_eq!(select_animation(&JumpPhase::Grounded, &body), AnimationClip::Idle);
    body.velocity = v(0, 0, 2000);
    assert_eq!(select_animation(&JumpPhase::Grounded, &body), AnimationClip::Walk);
    assert_eq!(select_animation(&JumpPhase::Ascending, &body), AnimationClip::Aerial);
    assert_eq!(select_animation(&JumpPhase::Falling, &body), AnimationClip::Aerial);
    body.velocity = v(100, 0, 0);
    assert_eq!(select_animation(&JumpPhase::Grounded, &body), AnimationClip::Idle);
}
