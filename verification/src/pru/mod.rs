//! Core lattice data structures and physics passes: cells with their
//! information locks, the universe configuration, derived-field computation,
//! and the two gravity solvers with their shared integrator.

pub mod cell;
pub mod gravity;
pub mod gravity_relational;
pub mod universe;
