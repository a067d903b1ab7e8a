//! Walker: desired horizontal motion and its integration into velocity.
//!
//! A [`Walker`] holds the horizontal direction its producer wants the
//! entity to move in (the intent translator for the player, the
//! follower controller for NPCs) and whether the entity sprints. Once
//! per tick [`apply_walking`] accelerates the kinematic body's
//! horizontal velocity toward the implied target speed, bounded by a
//! maximum acceleration so direction changes cannot snap.

use vstd::prelude::*;
use crate::body::KinematicBody;
use crate::fixed::{abs_i, fx_mul, lemma_fx_mul_bound, move_toward, move_toward_spec, mul_fx, SCALE};
use crate::vector::Vec3Fix;

verus! {

/// Horizontal speed while walking, in subunits per second.
pub const WALK_SPEED: i64 = 4_000;

/// Horizontal speed while sprinting, in subunits per second.
pub const SPRINT_SPEED: i64 = 7_000;

/// Largest change of each horizontal velocity component per second, in
/// subunits per second per second.
pub const MAX_ACCELERATION: i64 = 20_000;

/// Desired horizontal motion of one controllable entity.
#[derive(Clone, Copy, Debug, PartialEq)]
pub struct Walker {
    /// Unit horizontal direction to move in, or `None` for no motion.
    /// Written once per tick by exactly one producer.
    pub direction: Option<Vec3Fix>,
    /// Whether the sprint speed applies.
    pub sprinting: bool,
}

impl Walker {
    /// A walker with no desired direction.
    pub fn new() -> (r: Walker)
        ensures
            r.direction is None,
            !r.sprinting,
    {
        Walker { direction: None, sprinting: false }
    }

    /// Any stored direction is horizontal and unit-scaled.
    pub open spec fn wf(self) -> bool {
        self.direction matches Some(d) ==> d.y == 0 && abs_i(d.x as int) <= SCALE as int && abs_i(
            d.z as int,
        ) <= SCALE as int
    }

    /// The speed the walker aims for, by its sprint flag.
    pub open spec fn target_speed(self) -> int {
        if self.sprinting {
            SPRINT_SPEED as int
        } else {
            WALK_SPEED as int
        }
    }

    /// Target horizontal velocity: the desired direction scaled by the
    /// target speed, or rest when no direction is set.
    pub open spec fn target_velocity(self) -> (int, int) {
        match self.direction {
            Some(d) => (fx_mul(self.target_speed(), d.x as int), fx_mul(
                self.target_speed(),
                d.z as int,
            )),
            None => (0, 0),
        }
    }
}

/// Largest change of a velocity component over `dt` milliseconds.
pub open spec fn acceleration_step(dt: int) -> int {
    (MAX_ACCELERATION * dt) / (SCALE as int)
}

/// Moves the body's horizontal velocity one bounded step toward the
/// walker's target velocity; decays toward rest when no direction is
/// set. The vertical component belongs to the jump/fall machine and is
/// left untouched, as are position and ground contact.
pub fn apply_walking(walker: &Walker, body: &mut KinematicBody, dt: i64)
    requires
        walker.wf(),
        old(body).wf(),
        0 < dt <= SCALE,
    ensures
        final (body).velocity.x == move_toward_spec(
            old(body).velocity.x as int,
            walker.target_velocity().0,
            acceleration_step(dt as int),
        ),
        final (body).velocity.z == move_toward_spec(
            old(body).velocity.z as int,
            walker.target_velocity().1,
            acceleration_step(dt as int),
        ),
        final (body).velocity.y == old(body).velocity.y,
        final (body).position == old(body).position,
        final (body).grounded == old(body).grounded,
        final (body).wf(),
{
    proof {
        vstd::arithmetic::div_mod::lemma_div_pos_is_pos(MAX_ACCELERATION * dt, SCALE as int);
        vstd::arithmetic::div_mod::lemma_div_is_ordered(
            MAX_ACCELERATION * dt,
            MAX_ACCELERATION * (SCALE as int),
            SCALE as int,
        );
        vstd::arithmetic::div_mod::lemma_div_multiples_vanish(MAX_ACCELERATION as int, SCALE as int);
        assert(MAX_ACCELERATION * dt <= MAX_ACCELERATION * (SCALE as int)) by (nonlinear_arith)
            requires
                0 < dt <= SCALE as int,
        ;
    }
    let step: i64 = (MAX_ACCELERATION * dt) / 1000;
    let speed: i64 = if walker.sprinting {
        SPRINT_SPEED
    } else {
        WALK_SPEED
    };
    let (tx, tz): (i64, i64) = match &walker.direction {
        Some(d) => {
            proof {
                lemma_fx_mul_bound(speed as int, d.x as int, SPRINT_SPEED as int);
                lemma_fx_mul_bound(speed as int, d.z as int, SPRINT_SPEED as int);
            }
            (mul_fx(speed, d.x), mul_fx(speed, d.z))
        },
        None => (0, 0),
    };
    body.velocity.x = move_toward(body.velocity.x, tx, step);
    body.velocity.z = move_toward(body.velocity.z, tz, step);
}

} // verus!
