//! Linear velocities and the pull of gravity.

use vstd::prelude::*;

verus! {

/// A vector whose components are whole thousandths of a world unit.
#[derive(Clone, Copy, Debug, PartialEq, Eq, Structural)]
pub struct Vec3 {
    pub x: i32,
    pub y: i32,
    pub z: i32,
}

/// The vertical speed that gravity gives every body: 9.82 units per second,
/// downwards.
pub const GRAVITY: i32 = -9820;

/// Applies gravity to a body's linear velocity: the vertical speed becomes
/// [`GRAVITY`], whatever it was, and the horizontal speeds stay.
pub fn gravity_system(linear: &mut Vec3)
    ensures
        *final(linear) == (Vec3 { y: GRAVITY, ..*old(linear) }),
{
    linear.y = GRAVITY;
}

} // verus!
