//! Astrophysical archetypes and the threshold-driven formation logic that
//! creates them from the derived fields.

pub mod black_hole;
pub mod formation;
pub mod galaxy;
pub mod star;
