//! Intent translator: raw player input to world-space movement intent.
//!
//! Runs after the camera's orientation is updated for the frame and
//! before movement integration. The 2D input vector (components within
//! one unit, not necessarily normalised) is rebased onto the camera's
//! horizontal forward and rightward directions and normalised into a
//! unit horizontal world direction for the walker. Degenerate geometry
//! — zero input, or a camera looking straight along the vertical axis —
//! leaves the walker's direction unset instead of producing a junk
//! direction; nothing here can fail.

use vstd::prelude::*;
use crate::fixed::{abs_i, fx_mul, lemma_fx_mul_bound, lemma_fx_mul_zero, mul_fx, SCALE};
use crate::jump::{handle_jump, Jump};
use crate::vector::{lemma_unit_xz_orthonormal, normalize_xz, norm_sq_xz, unit_xz, Vec3Fix};
use crate::walker::Walker;

verus! {

/// Per-tick player intent, as the input boundary hands it over.
#[derive(Clone, Copy, Debug, PartialEq)]
pub struct PlayerIntent {
    /// Lateral input axis, in `[-SCALE, SCALE]` (right positive).
    pub movement_x: i64,
    /// Forward input axis, in `[-SCALE, SCALE]` (forward positive).
    pub movement_y: i64,
    /// Whether the jump button was pressed this tick.
    pub jump: bool,
    /// Whether the sprint modifier is held.
    pub sprint: bool,
}

impl PlayerIntent {
    /// Both movement components lie within one unit.
    pub open spec fn wf(self) -> bool {
        abs_i(self.movement_x as int) <= SCALE as int && abs_i(self.movement_y as int)
            <= SCALE as int
    }
}

/// The combined (unnormalised) horizontal intent: camera forward scaled
/// by the forward axis plus camera rightward scaled by the lateral
/// axis, where the rightward direction is the forward direction turned
/// a quarter turn in the horizontal plane.
pub open spec fn combined_intent(mx: int, my: int, f: (int, int)) -> (int, int) {
    (fx_mul(f.0, my) + fx_mul(-f.1, mx), fx_mul(f.1, my) + fx_mul(f.0, mx))
}

/// The world-space movement direction implied by input `(mx, my)` and
/// camera forward `(fx, fz)` (horizontal components): `None` exactly
/// when the camera has no horizontal direction or the rebased input
/// vanishes.
pub open spec fn intent_direction(mx: int, my: int, fx: int, fz: int) -> Option<(int, int)> {
    if fx == 0 && fz == 0 {
        None
    } else {
        let f = unit_xz(fx, fz);
        let c = combined_intent(mx, my, f);
        if c.0 == 0 && c.1 == 0 {
            None
        } else {
            Some(unit_xz(c.0, c.1))
        }
    }
}

/// Translates this tick's intent for the player: writes the derived
/// world direction and the sprint flag into the walker, and raises (or
/// keeps) the jump request. The walker's direction is unset whenever
/// the intent has no direction — zero input, degenerate camera, or an
/// input that cancels against the basis — so idle input causes no
/// drift.
pub fn handle_horizontal_movement(
    intent: &PlayerIntent,
    camera_forward: &Vec3Fix,
    walker: &mut Walker,
    jump: &mut Jump,
)
    requires
        intent.wf(),
        camera_forward.bounded(2_000_000),
    ensures
        ({
            let d = intent_direction(
                intent.movement_x as int,
                intent.movement_y as int,
                camera_forward.x as int,
                camera_forward.z as int,
            );
            match final (walker).direction {
                None => d is None,
                Some(v) => d matches Some(c) && v.x == c.0 && v.y == 0 && v.z == c.1,
            }
        }),
        final (walker).sprinting == intent.sprint,
        final (walker).wf(),
        final (jump).requested == (old(jump).requested || intent.jump),
        final (jump).phase == old(jump).phase,
        final (jump).vertical_velocity == old(jump).vertical_velocity,
        final (jump).ascent_elapsed == old(jump).ascent_elapsed,
{
    handle_jump(jump, intent.jump);
    walker.sprinting = intent.sprint;
    match normalize_xz(camera_forward.x, camera_forward.z) {
        None => {
            walker.direction = None;
        },
        Some((fx, fz)) => {
            proof {
                lemma_fx_mul_bound(fx as int, intent.movement_y as int, SCALE as int);
                lemma_fx_mul_bound(-(fz as int), intent.movement_x as int, SCALE as int);
                lemma_fx_mul_bound(fz as int, intent.movement_y as int, SCALE as int);
                lemma_fx_mul_bound(fx as int, intent.movement_x as int, SCALE as int);
            }
            let cx = mul_fx(fx, intent.movement_y) + mul_fx(-fz, intent.movement_x);
            let cz = mul_fx(fz, intent.movement_y) + mul_fx(fx, intent.movement_x);
            match normalize_xz(cx, cz) {
                None => {
                    walker.direction = None;
                },
                Some((dx, dz)) => {
                    walker.direction = Some(Vec3Fix { x: dx, y: 0, z: dz });
                },
            }
        },
    }
}

/// Idle input causes no drift: whatever the camera faces, a zero input
/// vector yields no movement direction.
pub proof fn lemma_zero_input_no_direction(fx: int, fz: int)
    ensures
        intent_direction(0, 0, fx, fz) is None,
{
    if !(fx == 0 && fz == 0) {
        let f = unit_xz(fx, fz);
        lemma_fx_mul_zero(f.0);
        lemma_fx_mul_zero(f.1);
        lemma_fx_mul_zero(-f.1);
    }
}

/// The derived horizontal basis is orthonormal, up to fixed-point
/// rounding: for any camera forward vector of unit length whose
/// horizontal part is not vanishingly small (at least a tenth of a
/// world unit — a camera not within a few degrees of straight up or
/// down), the forward and rightward directions the translator rebases
/// input onto are exactly orthogonal, of exactly equal length, and of
/// squared length within half a percent of one square world unit.
pub proof fn lemma_intent_basis_orthonormal(fx: int, fy: int, fz: int)
    requires
        fx * fx + fy * fy + fz * fz == (SCALE as int) * (SCALE as int),
        fx * fx + fz * fz >= 10_000,
    ensures
        ({
            let f = unit_xz(fx, fz);
            let s = (-f.1, f.0);
            &&& f.0 * s.0 + f.1 * s.1 == 0
            &&& norm_sq_xz(s.0, s.1) == norm_sq_xz(f.0, f.1)
            &&& 995_998 < norm_sq_xz(f.0, f.1) <= 1_020_000
        }),
{
    lemma_unit_xz_orthonormal(fx, fz);
}

} // verus!
