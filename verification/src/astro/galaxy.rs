//! A galaxy as a higher-level structure, linked to a region of the lattice.

use vstd::prelude::*;

use crate::pru::cell::GridPos;
use crate::vector::Vec3Fx;

verus! {

/// A galaxy. The region key is the bucketed lattice coordinate of its
/// originating high-density cluster and is the join key used to match the
/// galaxy to its cluster on each refresh.
#[derive(Clone, Copy, Debug, PartialEq, Eq, Structural)]
pub struct Galaxy {
    /// Unique, monotonically assigned identifier.
    pub id: u32,
    pub total_mass: i64,
    pub radius: i64,
    pub num_stars: u32,
    /// Barycenter in world coordinates.
    pub center: Vec3Fx,
    pub region_key: GridPos,
}

/// Monotonic source of fresh galaxy identifiers.
#[derive(Clone, Copy, Debug, PartialEq, Eq, Structural)]
pub struct GalaxyIdCounter {
    pub next_id: u32,
}

impl Default for GalaxyIdCounter {
    fn default() -> (c: Self)
        ensures
            c == (GalaxyIdCounter { next_id: 0 }),
    {
        GalaxyIdCounter { next_id: 0 }
    }
}

impl GalaxyIdCounter {
    /// Hand out the next identifier.
    pub fn next(&mut self) -> (id: u32)
        requires
            old(self).next_id < u32::MAX,
        ensures
            id == old(self).next_id,
            final(self).next_id == old(self).next_id + 1,
    {
        let id = self.next_id;
        self.next_id = self.next_id + 1;
        id
    }
}

} // verus!
