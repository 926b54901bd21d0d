//! The ENU/NED axis exchange on 3-component vectors.
//!
//! ENU (east-north-up) and NED (north-east-down) are the two common local
//! tangent-plane frames. One maps to the other by swapping the first two
//! axes and negating the third, and the same map goes both ways.

use crate::scalar::Scalar;
use crate::scalar::flip_sign;
use crate::scalar::lemma_flip_sign_involutive;
use vstd::prelude::*;

verus! {

/// An ordered triple of double-precision values, each held by its IEEE 754
/// bit pattern. The meaning of the three components depends on the frame the
/// caller works in: (east, north, up) in ENU, (north, east, down) in NED.
#[derive(Clone, Copy, Debug, PartialEq, Eq, Structural)]
pub struct Vec3 {
    /// The first component.
    pub x: Scalar,
    /// The second component.
    pub y: Scalar,
    /// The third component.
    pub z: Scalar,
}

impl Vec3 {
    /// The vector with the given three components.
    pub fn new(x: Scalar, y: Scalar, z: Scalar) -> (v: Vec3)
        ensures
            v.x == x,
            v.y == y,
            v.z == z,
    {
        Vec3 { x, y, z }
    }
}

/// The vector with the first two axes swapped and the third negated: the map
/// that carries an ENU vector to the NED vector for the same displacement,
/// and an NED vector to the ENU one.
pub open spec fn swap_flip(v: Vec3) -> Vec3 {
    Vec3 { x: v.y, y: v.x, z: Scalar { bits: flip_sign(v.z.bits) } }
}

/// Converts a 3-d ENU vector (east, north, up) to the NED vector
/// (north, east, down) for the same displacement: the east and north axes
/// swap places and the vertical axis flips sign.
pub fn enu2ned(enu_vec: &Vec3) -> (ret_vec: Vec3)
    ensures
        ret_vec == swap_flip(*enu_vec),
{
    Vec3 { x: enu_vec.y, y: enu_vec.x, z: enu_vec.z.negated() }
}

/// Converts a 3-d NED vector (north, east, down) to the ENU vector
/// (east, north, up) for the same displacement: the north and east axes
/// swap places and the vertical axis flips sign.
pub fn ned2enu(ned_vec: &Vec3) -> (ret_vec: Vec3)
    ensures
        ret_vec == swap_flip(*ned_vec),
{
    Vec3 { x: ned_vec.y, y: ned_vec.x, z: ned_vec.z.negated() }
}

/// The ENU/NED axis exchange is its own inverse, exactly: swapping the first
/// two axes twice restores them, and flipping the sign bit of the third twice
/// restores its bit pattern. So `enu2ned` followed by `enu2ned` gives back the
/// original vector bit for bit, and likewise `ned2enu` after `ned2enu`,
/// `ned2enu` after `enu2ned`, and `enu2ned` after `ned2enu`.
pub proof fn lemma_swap_flip_involutive(v: Vec3)
    ensures
        swap_flip(swap_flip(v)) == v,
{
    lemma_flip_sign_involutive(v.z.bits);
}

} // verus!
