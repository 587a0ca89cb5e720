//! A black hole, created where density and curvature both exceed extreme
//! thresholds.

use vstd::prelude::*;

use crate::vector::Vec3Fx;

verus! {

/// A black hole. Its position is the lattice cell it collapsed at, and is
/// what the avoidance-radius rule measures against.
#[derive(Clone, Copy, Debug, PartialEq, Eq, Structural)]
pub struct BlackHole {
    /// World position of the black hole.
    pub position: Vec3Fx,
    pub mass: i64,
    pub radius: i64,
    pub spin: i64,
}

} // verus!
