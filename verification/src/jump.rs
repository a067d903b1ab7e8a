//! Jump/fall state machine.
//!
//! Each controllable entity owns one [`Jump`] value. Input handling
//! sets the one-shot `requested` flag; the per-tick update consumes the
//! flag exactly once, whether or not a transition happens, so a request
//! issued while airborne is dropped rather than queued for a later
//! landing. Vertical velocity follows an impulse followed by gravity
//! during ascent, and gravity clamped at a terminal speed during falls.

use vstd::prelude::*;
use crate::fixed::{max_i, SCALE};

verus! {

/// Upward velocity granted at the start of an ascent, in subunits per second.
pub const JUMP_IMPULSE: i64 = 5_000;

/// Gravitational deceleration, in subunits per second per second.
pub const GRAVITY: i64 = 9_810;

/// An ascent ends after this many milliseconds even if the impulse has
/// not yet been spent.
pub const MAX_ASCENT_MILLIS: i64 = 600;

/// Largest downward speed a fall may reach, in subunits per second.
pub const TERMINAL_FALL_SPEED: i64 = 50_000;

/// The phase of the jump/fall state machine.
#[derive(Clone, Copy, Debug, PartialEq, Eq, Structural)]
pub enum JumpPhase {
    /// Resting on a walkable surface.
    Grounded,
    /// Rising under the remains of the jump impulse.
    Ascending,
    /// Moving down under gravity until ground contact.
    Falling,
}

/// Per-entity jump state.
#[derive(Clone, Copy, Debug, PartialEq, Eq, Structural)]
pub struct Jump {
    /// One-shot edge-triggered jump request; consumed by every update.
    pub requested: bool,
    /// Current phase of the state machine.
    pub phase: JumpPhase,
    /// Signed vertical velocity, in subunits per second.
    pub vertical_velocity: i64,
    /// Milliseconds spent in the current ascent.
    pub ascent_elapsed: i64,
}

impl Jump {
    /// A grounded state with no pending request.
    pub fn new() -> (r: Jump)
        ensures
            r == (Jump {
                requested: false,
                phase: JumpPhase::Grounded,
                vertical_velocity: 0,
                ascent_elapsed: 0,
            }),
    {
        Jump { requested: false, phase: JumpPhase::Grounded, vertical_velocity: 0, ascent_elapsed: 0 }
    }

    /// The state lies within the machine's reachable ranges.
    pub open spec fn wf(self) -> bool {
        &&& -TERMINAL_FALL_SPEED <= self.vertical_velocity <= JUMP_IMPULSE
        &&& 0 <= self.ascent_elapsed <= MAX_ASCENT_MILLIS + SCALE
        &&& (self.phase == JumpPhase::Grounded ==> self.vertical_velocity == 0)
        &&& (self.phase == JumpPhase::Ascending ==> self.vertical_velocity > 0)
    }
}

/// Velocity lost to gravity over `dt` milliseconds.
pub open spec fn gravity_drop(dt: int) -> int {
    (GRAVITY * dt) / (SCALE as int)
}

/// Phase after one update from `j` with ground contact `grounded`.
pub open spec fn jump_step_phase(j: Jump, grounded: bool, dt: int) -> JumpPhase {
    match j.phase {
        JumpPhase::Grounded => if j.requested && grounded {
            JumpPhase::Ascending
        } else if grounded {
            JumpPhase::Grounded
        } else {
            JumpPhase::Falling
        },
        JumpPhase::Ascending => if j.vertical_velocity - gravity_drop(dt) <= 0 || j.ascent_elapsed
            + dt >= MAX_ASCENT_MILLIS {
            JumpPhase::Falling
        } else {
            JumpPhase::Ascending
        },
        JumpPhase::Falling => if grounded {
            JumpPhase::Grounded
        } else {
            JumpPhase::Falling
        },
    }
}

/// Vertical velocity after one update from `j`.
pub open spec fn jump_step_velocity(j: Jump, grounded: bool, dt: int) -> int {
    match j.phase {
        JumpPhase::Grounded => if j.requested && grounded {
            JUMP_IMPULSE as int
        } else if grounded {
            0
        } else {
            max_i(j.vertical_velocity - gravity_drop(dt), -(TERMINAL_FALL_SPEED as int))
        },
        JumpPhase::Ascending => max_i(
            j.vertical_velocity - gravity_drop(dt),
            -(TERMINAL_FALL_SPEED as int),
        ),
        JumpPhase::Falling => if grounded {
            0
        } else {
            max_i(j.vertical_velocity - gravity_drop(dt), -(TERMINAL_FALL_SPEED as int))
        },
    }
}

/// Ascent-timer value after one update from `j`.
pub open spec fn jump_step_elapsed(j: Jump, grounded: bool, dt: int) -> int {
    if j.phase == JumpPhase::Ascending && jump_step_phase(j, grounded, dt)
        == JumpPhase::Ascending {
        j.ascent_elapsed + dt
    } else {
        0
    }
}

/// The whole state after one update from `j`: the request is consumed
/// unconditionally and each field follows its step function.
pub open spec fn jump_step(j: Jump, grounded: bool, dt: int) -> Jump {
    Jump {
        requested: false,
        phase: jump_step_phase(j, grounded, dt),
        vertical_velocity: jump_step_velocity(j, grounded, dt) as i64,
        ascent_elapsed: jump_step_elapsed(j, grounded, dt) as i64,
    }
}

/// Records a pressed jump button in the one-shot request flag. The flag
/// is only ever raised here (logical OR), never cleared: clearing is the
/// update's job, so a request already pending this tick survives.
pub fn handle_jump(jump: &mut Jump, pressed: bool)
    ensures
        final (jump).requested == (old(jump).requested || pressed),
        final (jump).phase == old(jump).phase,
        final (jump).vertical_velocity == old(jump).vertical_velocity,
        final (jump).ascent_elapsed == old(jump).ascent_elapsed,
{
    if pressed {
        jump.requested = true;
    }
}

/// One per-tick update of the jump/fall machine.
///
/// Consumes the request flag exactly once whatever happens; enters an
/// ascent only from `Grounded` with a request and confirmed ground
/// contact; ends an ascent when the impulse is spent or the ascent
/// timer runs out; and lands a fall on ground contact. The returned
/// vertical velocity drives the kinematic body's `y` axis.
pub fn update_jump(jump: &mut Jump, grounded: bool, dt: i64) -> (vertical: i64)
    requires
        old(jump).wf(),
        0 < dt <= SCALE,
    ensures
        *final (jump) == jump_step(*old(jump), grounded, dt as int),
        vertical == final (jump).vertical_velocity,
        final (jump).wf(),
{
    proof {
        vstd::arithmetic::div_mod::lemma_div_pos_is_pos(GRAVITY * dt, SCALE as int);
        vstd::arithmetic::div_mod::lemma_div_is_ordered(GRAVITY * dt, GRAVITY * (SCALE as int), SCALE as int);
        vstd::arithmetic::div_mod::lemma_div_multiples_vanish(GRAVITY as int, SCALE as int);
        assert(GRAVITY * dt <= GRAVITY * (SCALE as int)) by (nonlinear_arith)
            requires
                0 < dt <= SCALE as int,
        ;
    }
    let drop: i64 = (GRAVITY * dt) / 1000;
    let slowed: i64 = {
        let s = jump.vertical_velocity - drop;
        if s < -TERMINAL_FALL_SPEED {
            -TERMINAL_FALL_SPEED
        } else {
            s
        }
    };
    let requested = jump.requested;
    jump.requested = false;
    match jump.phase {
        JumpPhase::Grounded => {
            if requested && grounded {
                jump.phase = JumpPhase::Ascending;
                jump.vertical_velocity = JUMP_IMPULSE;
                jump.ascent_elapsed = 0;
            } else if grounded {
                jump.vertical_velocity = 0;
                jump.ascent_elapsed = 0;
            } else {
                jump.phase = JumpPhase::Falling;
                jump.vertical_velocity = slowed;
                jump.ascent_elapsed = 0;
            }
        },
        JumpPhase::Ascending => {
            if slowed <= 0 || jump.ascent_elapsed + dt >= MAX_ASCENT_MILLIS {
                jump.phase = JumpPhase::Falling;
                jump.vertical_velocity = slowed;
                jump.ascent_elapsed = 0;
            } else {
                jump.vertical_velocity = slowed;
                jump.ascent_elapsed = jump.ascent_elapsed + dt;
            }
        },
        JumpPhase::Falling => {
            if grounded {
                jump.phase = JumpPhase::Grounded;
                jump.vertical_velocity = 0;
                jump.ascent_elapsed = 0;
            } else {
                jump.vertical_velocity = slowed;
                jump.ascent_elapsed = 0;
            }
        },
    }
    jump.vertical_velocity
}

/// Consumption is idempotent within a tick: the first update clears the
/// request flag, so running the update a second time in the same tick
/// never starts an ascent that the first run had not already started.
pub proof fn lemma_jump_consumption_idempotent(j: Jump, grounded: bool, dt: int)
    ensures
        ({
            let once = jump_step(j, grounded, dt);
            let twice = jump_step(once, grounded, dt);
            &&& !once.requested
            &&& (twice.phase == JumpPhase::Ascending ==> once.phase == JumpPhase::Ascending)
        }),
{
}

/// A request issued while falling is dropped: the machine stays in
/// `Falling` until ground contact, and because the request is consumed
/// by that very update, the later landing settles into `Grounded`
/// rather than replaying the stale request as a jump.
pub proof fn lemma_falling_request_dropped(j: Jump, dt1: int, dt2: int)
    requires
        j.phase == JumpPhase::Falling,
        j.requested,
    ensures
        jump_step_phase(j, false, dt1) == JumpPhase::Falling,
        !jump_step(j, false, dt1).requested,
        jump_step_phase(jump_step(j, false, dt1), true, dt2) == JumpPhase::Grounded,
{
}

} // verus!
