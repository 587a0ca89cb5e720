//! A single lattice cell and its dynamical state.

use vstd::prelude::*;

use crate::fixed::FX_ONE;
use crate::vector::{v3_zero, Vec3Fx};

verus! {

/// Discrete lattice coordinates of a cell.
#[derive(Clone, Copy, Debug, PartialEq, Eq, Structural)]
pub struct GridPos {
    pub x: u32,
    pub y: u32,
    pub z: u32,
}

/// A single cell of the simulation lattice.
///
/// The two locks are the primitive per-cell information values: `ua_mass_lock`
/// feeds the inertial mass and the density field, `ub_geom_lock` feeds the
/// curvature proxy.
#[derive(Clone, Copy, Debug, PartialEq, Eq, Structural)]
pub struct PruCell {
    /// World-space position of the cell center.
    pub position: Vec3Fx,
    /// Discrete lattice coordinates for neighborhood lookups.
    pub grid_coords: GridPos,
    /// Inertial / mass-related information lock.
    pub ua_mass_lock: i64,
    /// Geometric adjacency information lock, in `[-1, 1]` world units.
    pub ub_geom_lock: i64,
}

impl PruCell {
    pub fn new(position: Vec3Fx, grid_coords: GridPos, ua_mass_lock: i64, ub_geom_lock: i64) -> (c:
        PruCell)
        ensures
            c == (PruCell { position, grid_coords, ua_mass_lock, ub_geom_lock }),
    {
        PruCell { position, grid_coords, ua_mass_lock, ub_geom_lock }
    }
}

/// Dynamical properties of a cell used by the gravity integrator.
#[derive(Clone, Copy, Debug, PartialEq, Eq, Structural)]
pub struct PruDynamics {
    /// Effective inertial mass derived from the mass lock, floored above zero.
    pub mass: i64,
    /// Current velocity in world units per second.
    pub velocity: Vec3Fx,
    /// Acceleration accumulated by the active gravity solver this step.
    pub acceleration: Vec3Fx,
}

impl Default for PruDynamics {
    /// Unit mass at rest.
    fn default() -> (d: Self)
        ensures
            d == (PruDynamics { mass: FX_ONE, velocity: v3_zero(), acceleration: v3_zero() }),
    {
        PruDynamics { mass: FX_ONE, velocity: Vec3Fx { x: 0, y: 0, z: 0 }, acceleration: Vec3Fx {
            x: 0,
            y: 0,
            z: 0,
        } }
    }
}

/// Scalar fields derived from a cell's locks and its neighborhood; recomputed
/// by every field pass, never persisted.
#[derive(Clone, Copy, Debug, PartialEq, Eq, Structural)]
pub struct DerivedFields {
    /// Non-negative smoothed mass density at the cell.
    pub local_density: i64,
    /// Signed deviation of the geometry lock from its smoothed neighborhood.
    pub curvature_proxy: i64,
}

impl Default for DerivedFields {
    fn default() -> (d: Self)
        ensures
            d == (DerivedFields { local_density: 0, curvature_proxy: 0 }),
    {
        DerivedFields { local_density: 0, curvature_proxy: 0 }
    }
}

} // verus!
