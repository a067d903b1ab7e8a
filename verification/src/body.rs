//! Kinematic body: spatial truth and the physics-boundary contract.
//!
//! The body owns position and velocity. Collision-aware displacement
//! itself happens at the physics boundary outside this crate; each tick
//! that boundary hands back an [`IntegrationOutcome`] — the new
//! position, whether the body rests on walkable ground, and the contact
//! normals of blocked directions — and [`apply_integration`] commits it:
//! the outcome is recorded and the velocity components that point into a
//! blocking surface are removed, so the body does not keep pushing into
//! walls it already touched.

use vstd::prelude::*;
use crate::fixed::{abs_i, clamp_i64, clamp_spec, SCALE};
use crate::vector::Vec3Fix;

verus! {

/// Largest velocity component magnitude the body ever stores, in
/// subunits per second. Degenerate physics input is clamped into this
/// range rather than propagated.
pub const VELOCITY_LIMIT: i64 = 1_000_000;

/// Largest position component magnitude the body ever stores.
pub const POSITION_LIMIT: i64 = 1_000_000_000;

/// A collision-aware kinematic body.
#[derive(Clone, Copy, Debug, PartialEq)]
pub struct KinematicBody {
    /// World-space position, in fixed-point subunits.
    pub position: Vec3Fix,
    /// World-space velocity, in subunits per second.
    pub velocity: Vec3Fix,
    /// Whether the last integration found walkable ground contact.
    pub grounded: bool,
}

/// What one collision-aware displacement at the physics boundary
/// reports back.
pub struct IntegrationOutcome {
    /// Position after the displacement.
    pub position: Vec3Fix,
    /// Whether the body now rests on walkable ground.
    pub ground_contact: bool,
    /// Unit-scaled contact normals of the surfaces that blocked part of
    /// the displacement.
    pub blocked_normals: Vec<Vec3Fix>,
}

impl KinematicBody {
    /// A resting body at `position`.
    pub fn at_rest(position: Vec3Fix, grounded: bool) -> (r: KinematicBody)
        requires
            position.bounded(POSITION_LIMIT as int),
        ensures
            r.position == position,
            r.velocity.x == 0 && r.velocity.y == 0 && r.velocity.z == 0,
            r.grounded == grounded,
            r.wf(),
    {
        KinematicBody { position, velocity: Vec3Fix::zero(), grounded }
    }

    /// Position and velocity lie within the body's working ranges.
    pub open spec fn wf(self) -> bool {
        self.velocity.bounded(VELOCITY_LIMIT as int) && self.position.bounded(
            POSITION_LIMIT as int,
        )
    }
}

impl IntegrationOutcome {
    /// The outcome's values lie within the body's working ranges.
    pub open spec fn wf(self) -> bool {
        self.position.bounded(POSITION_LIMIT as int) && forall|i: int|
            0 <= i < self.blocked_normals@.len() ==> #[trigger] self.blocked_normals@[i].bounded(
                SCALE as int,
            )
    }
}

/// Product of a unit-scaled normal component and a dot product, brought
/// back to velocity scale: `(a * b) / (SCALE * SCALE)` rounded toward
/// zero.
pub open spec fn proj_term(a: int, b: int) -> int {
    if (a < 0) != (b < 0) {
        -((abs_i(a) * abs_i(b)) / ((SCALE as int) * (SCALE as int)))
    } else {
        (abs_i(a) * abs_i(b)) / ((SCALE as int) * (SCALE as int))
    }
}

/// Computes `proj_term(a, b)` for a unit-scaled `a` and a dot product `b`.
fn mul_proj(a: i64, b: i64) -> (r: i64)
    requires
        abs_i(a as int) <= SCALE as int,
        abs_i(b as int) <= 4_000_000_000,
    ensures
        r == proj_term(a as int, b as int),
        abs_i(r as int) <= 4_000_000,
{
    let neg = (a < 0) != (b < 0);
    let aa: u64 = if a < 0 {
        (-a) as u64
    } else {
        a as u64
    };
    let bb: u64 = if b < 0 {
        (-b) as u64
    } else {
        b as u64
    };
    proof {
        assert(aa * bb <= 4_000_000_000_000) by (nonlinear_arith)
            requires
                0 <= aa <= 1000,
                0 <= bb <= 4_000_000_000,
        ;
    }
    let m: u64 = (aa * bb) / 1_000_000;
    proof {
        vstd::arithmetic::div_mod::lemma_div_pos_is_pos((aa * bb) as int, 1_000_000);
        vstd::arithmetic::div_mod::lemma_div_is_ordered(
            (aa * bb) as int,
            4_000_000_000_000,
            1_000_000,
        );
    }
    if neg {
        -(m as i64)
    } else {
        m as i64
    }
}

/// Dot product of a velocity and a unit-scaled normal.
pub open spec fn dot3(v: Vec3Fix, n: Vec3Fix) -> int {
    (v.x as int) * (n.x as int) + (v.y as int) * (n.y as int) + (v.z as int) * (n.z as int)
}

/// Computes `dot3(v, n)` for a bounded velocity and unit-scaled normal.
fn dot_velocity_normal(v: &Vec3Fix, n: &Vec3Fix) -> (r: i64)
    requires
        v.bounded(VELOCITY_LIMIT as int),
        n.bounded(SCALE as int),
    ensures
        r == dot3(*v, *n),
        abs_i(r as int) <= 3_000_000_000,
{
    proof {
        assert(abs_i((v.x as int) * (n.x as int)) <= 1_000_000_000 && abs_i(
            (v.y as int) * (n.y as int),
        ) <= 1_000_000_000 && abs_i((v.z as int) * (n.z as int)) <= 1_000_000_000)
            by (nonlinear_arith)
            requires
                abs_i(v.x as int) <= 1_000_000,
                abs_i(v.y as int) <= 1_000_000,
                abs_i(v.z as int) <= 1_000_000,
                abs_i(n.x as int) <= 1000,
                abs_i(n.y as int) <= 1000,
                abs_i(n.z as int) <= 1000,
        ;
    }
    v.x * n.x + v.y * n.y + v.z * n.z
}

/// Clamps one velocity component into the body's working range.
pub open spec fn clamp_velocity(a: int) -> int {
    clamp_spec(a, -(VELOCITY_LIMIT as int), VELOCITY_LIMIT as int)
}

/// Velocity after one blocking surface: when the velocity points into
/// the surface (negative dot product with its outward normal), the
/// component along the normal is subtracted, and each coordinate is
/// clamped into the working range; otherwise the velocity is kept.
pub open spec fn deflect(v: Vec3Fix, n: Vec3Fix) -> Vec3Fix {
    let d = dot3(v, n);
    if d < 0 {
        Vec3Fix {
            x: clamp_velocity(v.x - proj_term(n.x as int, d)) as i64,
            y: clamp_velocity(v.y - proj_term(n.y as int, d)) as i64,
            z: clamp_velocity(v.z - proj_term(n.z as int, d)) as i64,
        }
    } else {
        v
    }
}

/// Velocity after all blocking surfaces of one tick, applied in order.
pub open spec fn deflect_all(v: Vec3Fix, normals: Seq<Vec3Fix>) -> Vec3Fix
    decreases normals.len(),
{
    if normals.len() == 0 {
        v
    } else {
        deflect(deflect_all(v, normals.drop_last()), normals.last())
    }
}

/// Commits one physics-boundary outcome to the body: position and
/// ground contact are recorded as reported, and every velocity
/// component pointing into a blocking surface is removed.
pub fn apply_integration(body: &mut KinematicBody, outcome: &IntegrationOutcome)
    requires
        old(body).wf(),
        outcome.wf(),
    ensures
        final (body).position == outcome.position,
        final (body).grounded == outcome.ground_contact,
        final (body).velocity == deflect_all(old(body).velocity, outcome.blocked_normals@),
        final (body).wf(),
{
    body.position = outcome.position;
    body.grounded = outcome.ground_contact;
    let normals = &outcome.blocked_normals;
    let ghost v0 = body.velocity;
    let mut i: usize = 0;
    while i < normals.len()
        invariant
            i <= normals@.len(),
            outcome.wf(),
            normals == &outcome.blocked_normals,
            body.velocity == deflect_all(v0, normals@.take(i as int)),
            body.velocity.bounded(VELOCITY_LIMIT as int),
            body.position == outcome.position,
            body.grounded == outcome.ground_contact,
        decreases normals@.len() - i,
    {
        let n = &normals[i];
        proof {
            assert(outcome.blocked_normals@[i as int].bounded(SCALE as int));
        }
        let d = dot_velocity_normal(&body.velocity, n);
        if d < 0 {
            let vx = body.velocity.x - mul_proj(n.x, d);
            let vy = body.velocity.y - mul_proj(n.y, d);
            let vz = body.velocity.z - mul_proj(n.z, d);
            body.velocity = Vec3Fix {
                x: clamp_i64(vx, -VELOCITY_LIMIT, VELOCITY_LIMIT),
                y: clamp_i64(vy, -VELOCITY_LIMIT, VELOCITY_LIMIT),
                z: clamp_i64(vz, -VELOCITY_LIMIT, VELOCITY_LIMIT),
            };
        }
        proof {
            assert(normals@.take(i + 1).drop_last() =~= normals@.take(i as int));
            assert(normals@.take(i + 1).last() == normals@[i as int]);
        }
        i = i + 1;
    }
    proof {
        assert(normals@.take(normals@.len() as int) =~= normals@);
    }
}

} // verus!
