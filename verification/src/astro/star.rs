//! A luminous star, emerging from high-density regions.

use vstd::prelude::*;

use crate::vector::Vec3Fx;

verus! {

/// A star. Its position is the lattice cell it condensed at, and is what the
/// avoidance-radius rule measures against.
#[derive(Clone, Copy, Debug, PartialEq, Eq, Structural)]
pub struct Star {
    /// World position of the star.
    pub position: Vec3Fx,
    pub mass: i64,
    pub radius: i64,
    pub temperature: i64,
    pub luminosity: i64,
}

} // verus!
