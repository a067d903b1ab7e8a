//! End-to-end scenarios over one simulation tick.

use character_control::body::{IntegrationOutcome, KinematicBody};
use character_control::camera::{
    CameraActions, CameraRig, CameraRigKind, CharacterView, DEFAULT_CAMERA_DISTANCE,
};
use character_control::intent::PlayerIntent;
use character_control::jump::{Jump, JumpPhase};
use character_control::speed_effects::{Projection, MAX_FOV, MIN_FOV};
use character_control::tick::{begin_tick, finish_tick, FollowerState, PlayerState};
use character_control::vector::Vec3Fix;
use character_control::walker::Walker;

fn v(x: i64, y: i64, z: i64) -> Vec3Fix {
    Vec3Fix { x, y, z }
}

fn world(grounded: bool) -> (CameraRig, PlayerState, FollowerState) {
    let rig = CameraRig {
        kind: CameraRigKind::ThirdPerson { distance: DEFAULT_CAMERA_DISTANCE },
        forward: v(0, 0, 1000),
        actions: CameraActions::none(),
    };
    let player = PlayerState {
        walker: Walker::new(),
        jump: Jump::new(),
        body: KinematicBody::at_rest(v(0, 0, 0), grounded),
        view: CharacterView { visible: true, look_target: None },
    };
    let follower = FollowerState {
        walker: Walker::new(),
        body: KinematicBody::at_rest(v(10_000, 0, 0), true),
    };
    (rig, player, follower)
}

fn quiet_outcome(body: &KinematicBody) -> IntegrationOutcome {
    IntegrationOutcome {
        position: body.position,
        ground_contact: body.grounded,
        blocked_normals: Vec::new(),
    }
}

#[test]
fn forward_intent_walks_the_player_forward() {
    let (mut rig, mut player, mut follower) = world(true);
    let intent = PlayerIntent { movement_x: 0, movement_y: 1000, jump: false, sprint: false };
    begin_tick(
        &intent,
        &CameraActions::none(),
        &None,
        &mut rig,
        &mut player,
        &mut follower,
        100,
    );
    // the walker's direction is the camera's world forward, unit-scaled
    assert_eq!(player.walker.direction, Some(v(0, 0, 1000)));
    assert!(!player.walker.sprinting);
    // the jump state stays grounded
    assert_eq!(player.jump.phase, JumpPhase::Grounded);
    // horizontal velocity moved toward walk speed in the forward direction
    assert_eq!(player.body.velocity, v(0, 0, 2000));
    // the idle follower stays at rest
    assert_eq!(follower.body.velocity, v(0, 0, 0));
}

#[test]
fn jump_intent_starts_an_ascent_from_ground() {
    let (mut rig, mut player, mut follower) = world(true);
    let intent = PlayerIntent { movement_x: 0, movement_y: 0, jump: true, sprint: false };
    begin_tick(
        &intent,
        &CameraActions::none(),
        &None,
        &mut rig,
        &mut player,
        &mut follower,
        100,
    );
    assert_eq!(player.jump.phase, JumpPhase::Ascending);
    assert!(!player.jump.requested);
    assert!(player.body.velocity.y > 0);
    assert_eq!(player.walker.direction, None);
}

#[test]
fn jump_intent_while_airborne_is_dropped() {
    let (mut rig, mut player, mut follower) = world(false);
    player.jump.phase = JumpPhase::Falling;
    player.jump.vertical_velocity = -2000;
    let intent = PlayerIntent { movement_x: 0, movement_y: 0, jump: true, sprint: false };
    begin_tick(
        &intent,
        &CameraActions::none(),
        &None,
        &mut rig,
        &mut player,
        &mut follower,
        100,
    );
    assert_eq!(player.jump.phase, JumpPhase::Falling);
    assert!(!player.jump.requested);
}

#[test]
fn fov_clamps_exactly_at_twice_the_speed_cap() {
    let (_, mut player, mut follower) = world(true);
    // squared magnitude 2 * 10^8: twice the squared speed cap
    player.body.velocity = v(10_000, 0, 10_000);
    let mut projection = Projection::Perspective { fov: MIN_FOV };
    let p_outcome = quiet_outcome(&player.body);
    let f_outcome = quiet_outcome(&follower.body);
    finish_tick(&mut player, &mut follower, &p_outcome, &f_outcome, &mut projection);
    assert_eq!(projection, Projection::Perspective { fov: MAX_FOV });
    assert_eq!(player.body.velocity, v(10_000, 0, 10_000));
}

#[test]
fn follower_walks_its_navigation_direction() {
    let (mut rig, mut player, mut follower) = world(true);
    let intent = PlayerIntent { movement_x: 0, movement_y: 0, jump: false, sprint: false };
    begin_tick(
        &intent,
        &CameraActions::none(),
        &Some(v(-1000, 0, 0)),
        &mut rig,
        &mut player,
        &mut follower,
        100,
    );
    assert_eq!(follower.walker.direction, Some(v(-1000, 0, 0)));
    assert_eq!(follower.body.velocity, v(-2000, 0, 0));
}

#[test]
fn finish_tick_commits_the_physics_outcome() {
    let (mut rig, mut player, mut follower) = world(true);
    let intent = PlayerIntent { movement_x: 0, movement_y: 1000, jump: false, sprint: false };
    begin_tick(
        &intent,
        &CameraActions::none(),
        &None,
        &mut rig,
        &mut player,
        &mut follower,
        100,
    );
    let p_outcome = IntegrationOutcome {
        position: v(0, 0, 200),
        ground_contact: true,
        blocked_normals: Vec::new(),
    };
    let f_outcome = quiet_outcome(&follower.body);
    let mut projection = Projection::Perspective { fov: MIN_FOV };
    finish_tick(&mut player, &mut follower, &p_outcome, &f_outcome, &mut projection);
    assert_eq!(player.body.position, v(0, 0, 200));
    assert!(player.body.grounded);
    // speed 2000 of the 10000 cap: ratio 40 of 1000, eased 1, 750 + 0
    assert_eq!(projection, Projection::Perspective { fov: 750 });
}
