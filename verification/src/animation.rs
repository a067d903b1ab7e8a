//! Animation clip selection.
//!
//! Playback itself belongs to the rendering engine; this crate only
//! selects which clip is active, from the jump/fall phase and the
//! body's horizontal speed: airborne entities play the aerial clip,
//! grounded ones walk when they move faster than a small threshold and
//! idle otherwise.

use vstd::prelude::*;
use crate::body::KinematicBody;
use crate::jump::JumpPhase;

verus! {

/// Squared horizontal speed above which a grounded entity is
/// considered moving, in squared subunits per second.
pub const WALK_ANIMATION_THRESHOLD_SQ: i64 = 10_000;

/// The clip an entity plays.
#[derive(Clone, Copy, Debug, PartialEq, Eq, Structural)]
pub enum AnimationClip {
    /// Standing still on the ground.
    Idle,
    /// Moving along the ground.
    Walk,
    /// Ascending or falling.
    Aerial,
}

/// Squared horizontal speed of a body.
pub open spec fn horizontal_speed_sq(body: KinematicBody) -> int {
    (body.velocity.x as int) * (body.velocity.x as int) + (body.velocity.z as int) * (
    body.velocity.z as int)
}

/// The clip selected for a jump phase and horizontal speed.
pub open spec fn selected_clip(phase: JumpPhase, hspeed_sq: int) -> AnimationClip {
    if phase != JumpPhase::Grounded {
        AnimationClip::Aerial
    } else if hspeed_sq > WALK_ANIMATION_THRESHOLD_SQ as int {
        AnimationClip::Walk
    } else {
        AnimationClip::Idle
    }
}

/// Selects the active clip for an entity from its jump phase and body.
pub fn select_animation(phase: &JumpPhase, body: &KinematicBody) -> (clip: AnimationClip)
    requires
        body.wf(),
    ensures
        clip == selected_clip(*phase, horizontal_speed_sq(*body)),
{
    match phase {
        JumpPhase::Grounded => {
            proof {
                assert(0 <= (body.velocity.x as int) * (body.velocity.x as int)
                    <= 1_000_000_000_000 && 0 <= (body.velocity.z as int) * (body.velocity.z as int)
                    <= 1_000_000_000_000) by (nonlinear_arith)
                    requires
                        -1_000_000 <= body.velocity.x as int <= 1_000_000,
                        -1_000_000 <= body.velocity.z as int <= 1_000_000,
                ;
            }
            let hsq = body.velocity.x * body.velocity.x + body.velocity.z * body.velocity.z;
            if hsq > WALK_ANIMATION_THRESHOLD_SQ {
                AnimationClip::Walk
            } else {
                AnimationClip::Idle
            }
        },
        _ => AnimationClip::Aerial,
    }
}

} // verus!
