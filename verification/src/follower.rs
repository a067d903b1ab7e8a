//! Follower controller: the navigation boundary's input contract.
//!
//! An NPC follower's movement direction is computed by a navigation
//! algorithm outside this crate from the follower's and the player's
//! positions. Each tick that boundary hands over a unit horizontal
//! direction, or nothing when the follower should stand still, and it
//! is written into the follower's walker exactly as the intent
//! translator writes the player's — the same walking integration then
//! applies to both. No jump capability is wired for followers.

use vstd::prelude::*;
use crate::fixed::{abs_i, SCALE};
use crate::vector::Vec3Fix;
use crate::walker::Walker;

verus! {

/// A navigation direction is horizontal and unit-scaled.
pub open spec fn nav_direction_wf(nav: Option<Vec3Fix>) -> bool {
    nav matches Some(d) ==> d.y == 0 && abs_i(d.x as int) <= SCALE as int && abs_i(d.z as int)
        <= SCALE as int
}

/// Writes the externally computed navigation direction into the
/// follower's walker, leaving its sprint flag as it stands.
pub fn handle_follower_navigation(walker: &mut Walker, nav: &Option<Vec3Fix>)
    requires
        nav_direction_wf(*nav),
    ensures
        final (walker).direction == *nav,
        final (walker).sprinting == old(walker).sprinting,
        final (walker).wf(),
{
    walker.direction = *nav;
}

} // verus!
