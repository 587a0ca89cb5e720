//! Verified core of a discrete-lattice universe simulation.
//!
//! Cells of a dense rectangular lattice carry scalar "information locks" from
//! which per-cell density and curvature fields are derived; two interchangeable
//! gravity solvers, a fixed-timestep integrator, energy diagnostics, and a
//! threshold-based emergence detector evolve the lattice into stars, black
//! holes and galaxies. All quantities are saturating fixed-point scalars
//! (`fixed::FX_ONE` quanta per world unit), so every pass is a total,
//! deterministic function of its inputs with an exact contract.

pub mod agents;
pub mod astro;
pub mod fixed;
pub mod pru;
pub mod schedule;
pub mod vector;
