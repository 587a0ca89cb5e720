//! Astro agents: higher-level observers that attach to galaxies, track their
//! aggregate statistics, and append change summaries to a bounded report log.

pub mod analysis;
pub mod astro_agent;
pub mod events;
