//! Speed-effect feedback: movement speed to camera field of view.
//!
//! A purely observational stage: it reads the controlled body's squared
//! velocity magnitude and writes a perspective camera's field of view —
//! never the other way round, so there is no feedback into physics. The
//! squared speed is scaled against `MAX_SPEED_FOR_FOV`, clamped to one,
//! and squared again (a deliberate quadratic easing: subtle at low
//! speed, accelerating near the cap) before being mapped affinely onto
//! `[MIN_FOV, MAX_FOV]`. Orthographic cameras are skipped untouched.

use vstd::prelude::*;
use crate::body::KinematicBody;
use crate::fixed::SCALE;
use crate::vector::Vec3Fix;

verus! {

/// Speed at which the field of view reaches its cap, in subunits per second.
pub const MAX_SPEED_FOR_FOV: i64 = 10_000;

/// `MAX_SPEED_FOR_FOV * MAX_SPEED_FOR_FOV`.
pub const MAX_SPEED_FOR_FOV_SQ: i64 = 100_000_000;

/// Field of view at rest, in fixed-point radians.
pub const MIN_FOV: i64 = 750;

/// Field of view at or above the speed cap, in fixed-point radians.
pub const MAX_FOV: i64 = 1_700;

/// A camera's projection parameters, as far as this stage reads them.
#[derive(Clone, Copy, Debug, PartialEq)]
pub enum Projection {
    /// A perspective projection with a field of view in fixed-point radians.
    Perspective { fov: i64 },
    /// A fixed-frustum projection with a uniform scale; it has no field
    /// of view and the speed effect skips it.
    Orthographic { ortho_scale: i64 },
}

/// The eased scale in `[0, SCALE]` for a squared speed: the ratio to
/// the squared speed cap, clamped to one, then squared.
pub open spec fn fov_scale(speed_sq: int) -> int {
    let ratio = if speed_sq >= MAX_SPEED_FOR_FOV_SQ {
        SCALE as int
    } else {
        (speed_sq * (SCALE as int)) / (MAX_SPEED_FOR_FOV_SQ as int)
    };
    (ratio * ratio) / (SCALE as int)
}

/// Field of view for a squared speed: `MIN_FOV` plus the eased share of
/// the `[MIN_FOV, MAX_FOV]` range.
pub open spec fn fov_for_speed_sq(speed_sq: int) -> int {
    (MIN_FOV as int) + (((MAX_FOV - MIN_FOV) as int) * fov_scale(speed_sq)) / (SCALE as int)
}

/// The eased scale stays within `[0, SCALE]`.
pub proof fn lemma_fov_scale_bounds(speed_sq: int)
    requires
        speed_sq >= 0,
    ensures
        0 <= fov_scale(speed_sq) <= SCALE as int,
{
    let ratio = if speed_sq >= MAX_SPEED_FOR_FOV_SQ {
        SCALE as int
    } else {
        (speed_sq * (SCALE as int)) / (MAX_SPEED_FOR_FOV_SQ as int)
    };
    if speed_sq < MAX_SPEED_FOR_FOV_SQ {
        vstd::arithmetic::div_mod::lemma_div_pos_is_pos(speed_sq * (SCALE as int), MAX_SPEED_FOR_FOV_SQ as int);
        assert(speed_sq * (SCALE as int) <= 99_999_999_000) by (nonlinear_arith)
            requires
                0 <= speed_sq <= 99_999_999,
        ;
        vstd::arithmetic::div_mod::lemma_div_is_ordered(
            speed_sq * (SCALE as int),
            99_999_999_000,
            MAX_SPEED_FOR_FOV_SQ as int,
        );
    }
    assert(0 <= ratio <= SCALE as int);
    assert(0 <= ratio * ratio <= 1_000_000) by (nonlinear_arith)
        requires
            0 <= ratio <= 1000,
    ;
    vstd::arithmetic::div_mod::lemma_div_pos_is_pos(ratio * ratio, SCALE as int);
    vstd::arithmetic::div_mod::lemma_div_is_ordered(ratio * ratio, 1_000_000, SCALE as int);
}

/// Computes `fov_for_speed_sq` for a nonnegative squared speed.
pub fn fov_for(speed_sq: i64) -> (fov: i64)
    requires
        speed_sq >= 0,
    ensures
        fov == fov_for_speed_sq(speed_sq as int),
        MIN_FOV <= fov <= MAX_FOV,
{
    let ratio: u64 = if speed_sq >= MAX_SPEED_FOR_FOV_SQ {
        1000
    } else {
        ((speed_sq as u64) * 1000) / 100_000_000
    };
    proof {
        lemma_fov_scale_bounds(speed_sq as int);
        if speed_sq < MAX_SPEED_FOR_FOV_SQ {
            assert((speed_sq as u64) * 1000 <= 99_999_999_000) by (nonlinear_arith)
                requires
                    0 <= speed_sq as u64 <= 99_999_999,
            ;
            vstd::arithmetic::div_mod::lemma_div_pos_is_pos(speed_sq * 1000, 100_000_000);
            vstd::arithmetic::div_mod::lemma_div_is_ordered(
                speed_sq * 1000,
                99_999_999_000,
                100_000_000,
            );
        }
    }
    proof {
        assert(0 <= ratio * ratio <= 1_000_000) by (nonlinear_arith)
            requires
                0 <= ratio <= 1000,
        ;
    }
    let eased: u64 = (ratio * ratio) / 1000;
    proof {
        vstd::arithmetic::div_mod::lemma_div_pos_is_pos((ratio * ratio) as int, 1000);
        vstd::arithmetic::div_mod::lemma_div_is_ordered((ratio * ratio) as int, 1_000_000, 1000);
        vstd::arithmetic::div_mod::lemma_div_pos_is_pos((950 * eased) as int, 1000);
        vstd::arithmetic::div_mod::lemma_div_is_ordered((950 * eased) as int, 950_000, 1000);
        assert(950 * eased <= 950_000) by (nonlinear_arith)
            requires
                0 <= eased <= 1000,
        ;
    }
    MIN_FOV + ((950u64 * eased) / 1000) as i64
}

/// Squared magnitude of the body's velocity, in squared subunits.
pub fn speed_squared(v: &Vec3Fix) -> (r: i64)
    requires
        v.bounded(crate::body::VELOCITY_LIMIT as int),
    ensures
        r == v.norm_sq(),
        0 <= r <= 3_000_000_000_000,
{
    proof {
        assert(0 <= (v.x as int) * (v.x as int) <= 1_000_000_000_000 && 0 <= (v.y as int) * (
        v.y as int) <= 1_000_000_000_000 && 0 <= (v.z as int) * (v.z as int)
            <= 1_000_000_000_000) by (nonlinear_arith)
            requires
                -1_000_000 <= v.x as int <= 1_000_000,
                -1_000_000 <= v.y as int <= 1_000_000,
                -1_000_000 <= v.z as int <= 1_000_000,
        ;
    }
    v.x * v.x + v.y * v.y + v.z * v.z
}

/// Maps the controlled body's speed onto a perspective camera's field
/// of view; an orthographic projection is left untouched. Reads
/// physics, writes only this render-facing parameter.
pub fn handle_speed_effects(body: &KinematicBody, projection: &mut Projection)
    requires
        body.wf(),
    ensures
        *final (projection) == match *old(projection) {
            Projection::Perspective { fov } => Projection::Perspective {
                fov: fov_for_speed_sq(body.velocity.norm_sq()) as i64,
            },
            Projection::Orthographic { ortho_scale } => *old(projection),
        },
{
    match projection {
        Projection::Perspective { fov } => {
            let s = speed_squared(&body.velocity);
            *fov = fov_for(s);
        },
        Projection::Orthographic { .. } => {},
    }
}

/// The speed effect is monotone and exact at its ends: a faster body
/// never narrows the field of view, rest gives exactly `MIN_FOV`, and
/// any speed at or above the cap gives exactly `MAX_FOV` — the scale is
/// capped at one before the easing square.
pub proof fn lemma_fov_monotone(s1: int, s2: int)
    requires
        0 <= s1 <= s2,
    ensures
        fov_for_speed_sq(s1) <= fov_for_speed_sq(s2),
        fov_for_speed_sq(0) == MIN_FOV,
        s2 >= MAX_SPEED_FOR_FOV_SQ ==> fov_for_speed_sq(s2) == MAX_FOV,
{
    let m = MAX_SPEED_FOR_FOV_SQ as int;
    let r1 = if s1 >= m {
        SCALE as int
    } else {
        (s1 * (SCALE as int)) / m
    };
    let r2 = if s2 >= m {
        SCALE as int
    } else {
        (s2 * (SCALE as int)) / m
    };
    lemma_fov_scale_bounds(s1);
    lemma_fov_scale_bounds(s2);
    if s1 < m && s2 < m {
        assert(s1 * (SCALE as int) <= s2 * (SCALE as int)) by (nonlinear_arith)
            requires
                s1 <= s2,
        ;
        vstd::arithmetic::div_mod::lemma_div_is_ordered(s1 * (SCALE as int), s2 * (SCALE as int), m);
    }
    if s1 < m && s2 >= m {
        assert(s1 * (SCALE as int) <= 99_999_999_000) by (nonlinear_arith)
            requires
                0 <= s1 <= 99_999_999,
        ;
        vstd::arithmetic::div_mod::lemma_div_is_ordered(s1 * (SCALE as int), 99_999_999_000, m);
    }
    assert(0 <= r1 && r1 <= r2 && r2 <= SCALE as int);
    assert(r1 * r1 <= r2 * r2) by (nonlinear_arith)
        requires
            0 <= r1 <= r2,
    ;
    vstd::arithmetic::div_mod::lemma_div_is_ordered(r1 * r1, r2 * r2, SCALE as int);
    let e1 = fov_scale(s1);
    let e2 = fov_scale(s2);
    assert(((MAX_FOV - MIN_FOV) as int) * e1 <= ((MAX_FOV - MIN_FOV) as int) * e2)
        by (nonlinear_arith)
        requires
            e1 <= e2,
    ;
    vstd::arithmetic::div_mod::lemma_div_is_ordered(
        ((MAX_FOV - MIN_FOV) as int) * e1,
        ((MAX_FOV - MIN_FOV) as int) * e2,
        SCALE as int,
    );
    // exact ends: rest gives MIN_FOV, the cap gives MAX_FOV
    vstd::arithmetic::div_mod::lemma_div_of0(m);
    vstd::arithmetic::div_mod::lemma_div_of0(SCALE as int);
    assert((0int * (SCALE as int)) / m == 0);
    let r0 = (0int * (SCALE as int)) / m;
    assert(r0 * r0 == 0) by (nonlinear_arith)
        requires
            r0 == 0,
    ;
    assert(fov_scale(0) == 0);
    assert(fov_for_speed_sq(0) == MIN_FOV);
    assert(((SCALE as int) * (SCALE as int)) / (SCALE as int) == SCALE as int) by {
        vstd::arithmetic::div_mod::lemma_div_multiples_vanish(SCALE as int, SCALE as int);
    }
    assert((((MAX_FOV - MIN_FOV) as int) * (SCALE as int)) / (SCALE as int) == (MAX_FOV
        - MIN_FOV) as int) by {
        vstd::arithmetic::div_mod::lemma_div_multiples_vanish((MAX_FOV - MIN_FOV) as int, SCALE as int);
    }
}

} // verus!
