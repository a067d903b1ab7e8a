//! The per-tick pipeline: one ordered pass over every component.
//!
//! All components run single-threaded as an explicit ordered stage
//! list, once per simulation step: camera input mirroring, the rig's
//! own update, intent translation, follower navigation, camera-mode
//! reconciliation, the jump/fall update, and walking integration —
//! then, after the physics boundary has performed the collision-aware
//! displacement, the integration outcome is committed and the
//! speed-effect feedback runs. Each shared resource is written by
//! exactly one stage per tick and read only by later stages, so
//! correctness rests on this ordering and needs no locking.

use vstd::prelude::*;
use crate::body::{apply_integration, deflect_all, IntegrationOutcome, KinematicBody};
use crate::camera::{
    handle_camera_kind, reconciled_look_target, reconciled_visibility, rig_kind_step,
    set_camera_actions, update_camera_rig, CameraActions, CameraRig, CharacterView,
};
use crate::fixed::{move_toward_spec, SCALE};
use crate::follower::{handle_follower_navigation, nav_direction_wf};
use crate::intent::{handle_horizontal_movement, intent_direction, PlayerIntent};
use crate::jump::{jump_step, Jump};
use crate::speed_effects::{fov_for_speed_sq, handle_speed_effects, Projection};
use crate::vector::Vec3Fix;
use crate::walker::{acceleration_step, apply_walking, Walker};

verus! {

/// Tag of the one entity the player embodies during active play.
#[derive(Clone, Copy, Debug, PartialEq, Eq, Default, Structural)]
pub struct Player;

/// Tag of a sensor child of the player used by interaction collaborators.
#[derive(Clone, Copy, Debug, PartialEq, Eq, Default, Structural)]
pub struct PlayerSensor;

/// Everything the pipeline owns about the player-controlled entity.
#[derive(Clone, Copy, Debug, PartialEq)]
pub struct PlayerState {
    /// Desired horizontal motion, written by the intent translator.
    pub walker: Walker,
    /// Jump/fall state machine.
    pub jump: Jump,
    /// Kinematic body: spatial truth.
    pub body: KinematicBody,
    /// Render-facing state the camera-mode reconciler writes.
    pub view: CharacterView,
}

impl PlayerState {
    /// Every component is within its working ranges.
    pub open spec fn wf(self) -> bool {
        self.walker.wf() && self.jump.wf() && self.body.wf()
    }
}

/// Everything the pipeline owns about the follower NPC.
#[derive(Clone, Copy, Debug, PartialEq)]
pub struct FollowerState {
    /// Desired horizontal motion, written by the follower controller.
    pub walker: Walker,
    /// Kinematic body: spatial truth.
    pub body: KinematicBody,
}

impl FollowerState {
    /// Every component is within its working ranges.
    pub open spec fn wf(self) -> bool {
        self.walker.wf() && self.body.wf()
    }
}

/// The player's jump state right after input handling: the request
/// flag absorbs this tick's button (never clearing a pending request),
/// everything else untouched.
pub open spec fn jump_with_request(j: Jump, pressed: bool) -> Jump {
    Jump {
        requested: j.requested || pressed,
        phase: j.phase,
        vertical_velocity: j.vertical_velocity,
        ascent_elapsed: j.ascent_elapsed,
    }
}

/// The intent-side half of one simulation tick, up to the hand-off to
/// the physics boundary: consumes this tick's input, updates the camera
/// rig, translates intent for the player and navigation for the
/// follower, reconciles the character with the viewing mode, steps the
/// jump/fall machine, and accelerates both bodies' horizontal velocity
/// toward their walkers' targets. After this the caller asks the
/// physics boundary to displace each body by its velocity and feeds the
/// outcomes to [`finish_tick`].
pub fn begin_tick(
    intent: &PlayerIntent,
    camera_input: &CameraActions,
    nav: &Option<Vec3Fix>,
    rig: &mut CameraRig,
    player: &mut PlayerState,
    follower: &mut FollowerState,
    dt: i64,
)
    requires
        intent.wf(),
        camera_input.wf(),
        nav_direction_wf(*nav),
        old(rig).wf(),
        old(player).wf(),
        old(follower).wf(),
        0 < dt <= SCALE,
    ensures
        final (rig).kind == rig_kind_step(old(rig).kind, *camera_input),
        final (rig).forward == old(rig).forward,
        final (rig).wf(),
        ({
            let d = intent_direction(
                intent.movement_x as int,
                intent.movement_y as int,
                old(rig).forward.x as int,
                old(rig).forward.z as int,
            );
            match final (player).walker.direction {
                None => d is None,
                Some(v) => d matches Some(c) && v.x == c.0 && v.y == 0 && v.z == c.1,
            }
        }),
        final (player).walker.sprinting == intent.sprint,
        final (player).jump == jump_step(
            jump_with_request(old(player).jump, intent.jump),
            old(player).body.grounded,
            dt as int,
        ),
        final (player).view.visible == reconciled_visibility(final (rig).kind),
        final (player).view.look_target == reconciled_look_target(
            final (rig).kind,
            old(rig).forward,
            old(player).body.position,
            old(player).view.look_target,
        ),
        final (player).body.velocity.y == final (player).jump.vertical_velocity,
        final (player).body.velocity.x == move_toward_spec(
            old(player).body.velocity.x as int,
            final (player).walker.target_velocity().0,
            acceleration_step(dt as int),
        ),
        final (player).body.velocity.z == move_toward_spec(
            old(player).body.velocity.z as int,
            final (player).walker.target_velocity().1,
            acceleration_step(dt as int),
        ),
        final (player).body.position == old(player).body.position,
        final (player).body.grounded == old(player).body.grounded,
        final (follower).walker.direction == *nav,
        final (follower).walker.sprinting == old(follower).walker.sprinting,
        final (follower).body.velocity.x == move_toward_spec(
            old(follower).body.velocity.x as int,
            final (follower).walker.target_velocity().0,
            acceleration_step(dt as int),
        ),
        final (follower).body.velocity.z == move_toward_spec(
            old(follower).body.velocity.z as int,
            final (follower).walker.target_velocity().1,
            acceleration_step(dt as int),
        ),
        final (follower).body.velocity.y == old(follower).body.velocity.y,
        final (follower).body.position == old(follower).body.position,
        final (follower).body.grounded == old(follower).body.grounded,
        final (player).wf(),
        final (follower).wf(),
{
    set_camera_actions(rig, camera_input);
    update_camera_rig(rig);
    let forward = rig.forward;
    handle_horizontal_movement(intent, &forward, &mut player.walker, &mut player.jump);
    handle_follower_navigation(&mut follower.walker, nav);
    let position = player.body.position;
    handle_camera_kind(rig, &position, &mut player.view);
    let grounded = player.body.grounded;
    let vertical = crate::jump::update_jump(&mut player.jump, grounded, dt);
    player.body.velocity.y = vertical;
    let player_walker = player.walker;
    apply_walking(&player_walker, &mut player.body, dt);
    let follower_walker = follower.walker;
    apply_walking(&follower_walker, &mut follower.body, dt);
}

/// The physics-side half of one simulation tick: commits each body's
/// integration outcome as the physics boundary reported it and runs the
/// speed-effect feedback off the player's settled velocity. Walkers,
/// jump state and the character view are not touched here.
pub fn finish_tick(
    player: &mut PlayerState,
    follower: &mut FollowerState,
    player_outcome: &IntegrationOutcome,
    follower_outcome: &IntegrationOutcome,
    projection: &mut Projection,
)
    requires
        old(player).wf(),
        old(follower).wf(),
        player_outcome.wf(),
        follower_outcome.wf(),
    ensures
        final (player).body.position == player_outcome.position,
        final (player).body.grounded == player_outcome.ground_contact,
        final (player).body.velocity == deflect_all(
            old(player).body.velocity,
            player_outcome.blocked_normals@,
        ),
        final (follower).body.position == follower_outcome.position,
        final (follower).body.grounded == follower_outcome.ground_contact,
        final (follower).body.velocity == deflect_all(
            old(follower).body.velocity,
            follower_outcome.blocked_normals@,
        ),
        *final (projection) == match *old(projection) {
            Projection::Perspective { fov } => Projection::Perspective {
                fov: fov_for_speed_sq(final (player).body.velocity.norm_sq()) as i64,
            },
            Projection::Orthographic { ortho_scale } => *old(projection),
        },
        final (player).walker == old(player).walker,
        final (player).jump == old(player).jump,
        final (player).view == old(player).view,
        final (follower).walker == old(follower).walker,
        final (player).wf(),
        final (follower).wf(),
{
    apply_integration(&mut player.body, player_outcome);
    apply_integration(&mut follower.body, follower_outcome);
    let body = player.body;
    handle_speed_effects(&body, projection);
}

} // verus!
