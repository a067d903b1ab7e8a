//! Camera rig and the camera-mode reconciler.
//!
//! Exactly one [`CameraRig`] exists during play. It owns the viewing
//! mode and mirrors the per-tick camera input ([`CameraActions`]): the
//! input collaborator writes the actions once per tick through
//! [`set_camera_actions`], and the rig's own update consumes them once
//! through [`update_camera_rig`]. The reconciler
//! ([`handle_camera_kind`]) forces the controlled character's
//! visibility and facing to match the mode: hidden with a forced
//! camera-aligned facing in first person, visible with free facing
//! otherwise. The rig's orientation itself is written by the camera
//! transform collaborator outside this crate; here it is read only.

use vstd::prelude::*;
use crate::fixed::{abs_i, clamp_i64, clamp_spec, SCALE};
use crate::vector::{normalize_xz, unit_xz, Vec3Fix};

verus! {

/// Smallest third-person camera distance, in fixed-point subunits.
pub const MIN_CAMERA_DISTANCE: i64 = 1_000;

/// Largest third-person camera distance, in fixed-point subunits.
pub const MAX_CAMERA_DISTANCE: i64 = 10_000;

/// Third-person camera distance right after a mode switch.
pub const DEFAULT_CAMERA_DISTANCE: i64 = 5_000;

/// Height of the fixed-angle vantage point right after a mode switch.
pub const DEFAULT_FIXED_HEIGHT: i64 = 10_000;

/// The rig's viewing mode, with its mode-specific parameters.
#[derive(Clone, Copy, Debug, PartialEq, Eq, Structural)]
pub enum CameraRigKind {
    /// The camera sits in the character's head; the character is hidden.
    FirstPerson,
    /// The camera orbits the character at `distance` subunits.
    ThirdPerson { distance: i64 },
    /// The camera looks down from a fixed vantage at `height` subunits.
    FixedAngle { height: i64 },
}

/// A requested viewing mode, without parameters: the rig fills in the
/// mode's defaults on the switch.
#[derive(Clone, Copy, Debug, PartialEq, Eq, Structural)]
pub enum CameraModeRequest {
    FirstPerson,
    ThirdPerson,
    FixedAngle,
}

/// Per-tick camera input, written once by the input collaborator and
/// consumed once by the rig's update.
#[derive(Clone, Copy, Debug, PartialEq)]
pub struct CameraActions {
    /// Horizontal look delta, in fixed-point radians.
    pub look_x: i64,
    /// Vertical look delta, in fixed-point radians.
    pub look_y: i64,
    /// Requested change of the third-person distance, in subunits.
    pub zoom: i64,
    /// Requested viewing mode, if any.
    pub mode_switch: Option<CameraModeRequest>,
}

impl CameraActions {
    /// Neutral input: no look, no zoom, no switch.
    pub fn none() -> (r: CameraActions)
        ensures
            r == (CameraActions { look_x: 0, look_y: 0, zoom: 0, mode_switch: None }),
    {
        CameraActions { look_x: 0, look_y: 0, zoom: 0, mode_switch: None }
    }

    /// The deltas lie within a tick's working range.
    pub open spec fn wf(self) -> bool {
        abs_i(self.look_x as int) <= 1_000_000 && abs_i(self.look_y as int) <= 1_000_000 && abs_i(
            self.zoom as int,
        ) <= 1_000_000
    }
}

/// The one camera rig: viewing mode, orientation, pending input.
#[derive(Clone, Copy, Debug, PartialEq)]
pub struct CameraRig {
    /// Current viewing mode.
    pub kind: CameraRigKind,
    /// Unit-scaled forward vector of the camera's orientation, written
    /// by the camera transform collaborator.
    pub forward: Vec3Fix,
    /// Input waiting to be consumed by the rig's update.
    pub actions: CameraActions,
}

impl CameraRig {
    /// Mode parameters and orientation lie within working ranges.
    pub open spec fn wf(self) -> bool {
        &&& (self.kind matches CameraRigKind::ThirdPerson { distance } ==> MIN_CAMERA_DISTANCE
            <= distance <= MAX_CAMERA_DISTANCE)
        &&& self.forward.bounded(2_000_000)
        &&& self.actions.wf()
    }
}

/// Mirrors the tick's camera input into the rig, leaving mode and
/// orientation untouched: the rig's own update consumes it later in the
/// same tick.
pub fn set_camera_actions(rig: &mut CameraRig, actions: &CameraActions)
    ensures
        final (rig).actions == *actions,
        final (rig).kind == old(rig).kind,
        final (rig).forward == old(rig).forward,
{
    rig.actions = *actions;
}

/// The viewing mode after one update: a requested switch replaces the
/// mode (keeping the third-person distance when the mode does not
/// change), then any zoom moves the third-person distance within its
/// clamped range.
pub open spec fn rig_kind_step(kind: CameraRigKind, actions: CameraActions) -> CameraRigKind {
    let switched = match actions.mode_switch {
        None => kind,
        Some(CameraModeRequest::FirstPerson) => CameraRigKind::FirstPerson,
        Some(CameraModeRequest::ThirdPerson) => match kind {
            CameraRigKind::ThirdPerson { distance } => kind,
            _ => CameraRigKind::ThirdPerson { distance: DEFAULT_CAMERA_DISTANCE },
        },
        Some(CameraModeRequest::FixedAngle) => match kind {
            CameraRigKind::FixedAngle { height } => kind,
            _ => CameraRigKind::FixedAngle { height: DEFAULT_FIXED_HEIGHT },
        },
    };
    match switched {
        CameraRigKind::ThirdPerson { distance } => CameraRigKind::ThirdPerson {
            distance: clamp_spec(
                distance + actions.zoom,
                MIN_CAMERA_DISTANCE as int,
                MAX_CAMERA_DISTANCE as int,
            ) as i64,
        },
        _ => switched,
    }
}

/// Consumes the rig's pending input: applies any mode switch and zoom
/// to the viewing mode and resets the actions to neutral. The look
/// deltas are consumed by the camera transform collaborator, which owns
/// orientation; `forward` is not written here.
pub fn update_camera_rig(rig: &mut CameraRig)
    requires
        old(rig).wf(),
    ensures
        final (rig).kind == rig_kind_step(old(rig).kind, old(rig).actions),
        final (rig).forward == old(rig).forward,
        final (rig).actions == (CameraActions { look_x: 0, look_y: 0, zoom: 0, mode_switch: None }),
        final (rig).wf(),
{
    match &rig.actions.mode_switch {
        None => {},
        Some(CameraModeRequest::FirstPerson) => {
            rig.kind = CameraRigKind::FirstPerson;
        },
        Some(CameraModeRequest::ThirdPerson) => {
            match &rig.kind {
                CameraRigKind::ThirdPerson { .. } => {},
                _ => {
                    rig.kind = CameraRigKind::ThirdPerson { distance: DEFAULT_CAMERA_DISTANCE };
                },
            }
        },
        Some(CameraModeRequest::FixedAngle) => {
            match &rig.kind {
                CameraRigKind::FixedAngle { .. } => {},
                _ => {
                    rig.kind = CameraRigKind::FixedAngle { height: DEFAULT_FIXED_HEIGHT };
                },
            }
        },
    }
    match rig.kind {
        CameraRigKind::ThirdPerson { distance } => {
            rig.kind = CameraRigKind::ThirdPerson {
                distance: clamp_i64(
                    distance + rig.actions.zoom,
                    MIN_CAMERA_DISTANCE,
                    MAX_CAMERA_DISTANCE,
                ),
            };
        },
        _ => {},
    }
    rig.actions = CameraActions { look_x: 0, look_y: 0, zoom: 0, mode_switch: None };
}

/// Render-facing state of the controlled character that the reconciler
/// writes: never velocity, never position.
#[derive(Clone, Copy, Debug, PartialEq)]
pub struct CharacterView {
    /// Whether the character's mesh is drawn.
    pub visible: bool,
    /// World point the character is forced to face, when facing is
    /// forced at all.
    pub look_target: Option<Vec3Fix>,
}

/// Visibility the reconciler enforces for a viewing mode: hidden in
/// first person (the mesh must not occlude the view), visible otherwise.
pub open spec fn reconciled_visibility(kind: CameraRigKind) -> bool {
    !(kind is FirstPerson)
}

/// Facing the reconciler enforces: in first person, a point one world
/// unit from the character along the camera's horizontal forward
/// direction; in the other modes (and when the camera looks straight up
/// or down, leaving no horizontal direction) none, and the previous
/// target is left as it stands.
pub open spec fn reconciled_look_target(
    kind: CameraRigKind,
    forward: Vec3Fix,
    position: Vec3Fix,
    previous: Option<Vec3Fix>,
) -> Option<Vec3Fix> {
    if kind is FirstPerson {
        if forward.x == 0 && forward.z == 0 {
            previous
        } else {
            let d = unit_xz(forward.x as int, forward.z as int);
            Some(
                Vec3Fix {
                    x: (position.x + d.0) as i64,
                    y: position.y,
                    z: (position.z + d.1) as i64,
                },
            )
        }
    } else {
        previous
    }
}

/// Forces the controlled character's render state to match the viewing
/// mode: hidden and facing the camera's horizontal forward in first
/// person, visible with facing left free otherwise. Purely visual: the
/// reconciler never touches velocity or position.
pub fn handle_camera_kind(rig: &CameraRig, position: &Vec3Fix, view: &mut CharacterView)
    requires
        rig.wf(),
        position.bounded(crate::body::POSITION_LIMIT as int),
    ensures
        final (view).visible == reconciled_visibility(rig.kind),
        final (view).look_target == reconciled_look_target(
            rig.kind,
            rig.forward,
            *position,
            old(view).look_target,
        ),
{
    match &rig.kind {
        CameraRigKind::FirstPerson => {
            match normalize_xz(rig.forward.x, rig.forward.z) {
                Some((dx, dz)) => {
                    view.look_target = Some(
                        Vec3Fix { x: position.x + dx, y: position.y, z: position.z + dz },
                    );
                },
                None => {},
            }
            view.visible = false;
        },
        _ => {
            view.visible = true;
        },
    }
}

/// The reconciler's visibility rule, stated across a mode switch:
/// within the tick that switches third person to first person the
/// character is hidden, and the tick that switches back shows it again,
/// whatever the modes' parameters.
pub proof fn lemma_mode_switch_visibility(first: CameraRigKind, third: CameraRigKind)
    requires
        first is FirstPerson,
        !(third is FirstPerson),
    ensures
        !reconciled_visibility(first),
        reconciled_visibility(third),
{
}

} // verus!
