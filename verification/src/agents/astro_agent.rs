//! Observer agents attached one-to-one to galaxies.

use vstd::prelude::*;

use crate::astro::galaxy::Galaxy;
use crate::pru::cell::GridPos;

verus! {

/// Region of the lattice tracked by an agent.
#[derive(Clone, Copy, Debug, PartialEq, Eq, Structural)]
pub struct TrackedRegion {
    pub min: GridPos,
    pub max: GridPos,
}

#[derive(Clone, Copy, Debug, PartialEq, Eq, Structural)]
pub enum AstroAgentKind {
    GalaxyAgent,
    ClusterAgent,
    BlackHoleAgent,
}

/// Higher-level observer that summarizes regional behavior.
#[derive(Clone, Copy, Debug, PartialEq, Eq)]
pub struct AstroAgent {
    pub id: u32,
    pub kind: AstroAgentKind,
    pub tracked_region: Option<TrackedRegion>,
}

impl AstroAgent {
    pub fn new(id: u32, kind: AstroAgentKind) -> (a: AstroAgent)
        ensures
            a == (AstroAgent { id, kind, tracked_region: None }),
    {
        AstroAgent { id, kind, tracked_region: None }
    }
}

/// Rolling telemetry values used to detect changes and emit reports.
#[derive(Clone, Copy, Debug, PartialEq, Eq, Structural)]
pub struct AgentTelemetry {
    pub last_mass: i64,
    pub last_star_count: u32,
    pub last_black_holes: u32,
}

impl Default for AgentTelemetry {
    fn default() -> (t: Self)
        ensures
            t == (AgentTelemetry { last_mass: 0, last_star_count: 0, last_black_holes: 0 }),
    {
        AgentTelemetry { last_mass: 0, last_star_count: 0, last_black_holes: 0 }
    }
}

/// Attach agents directly to galaxies to simplify bookkeeping: the agent list
/// runs parallel to the galaxy list (galaxies are never removed), and every
/// galaxy beyond the current agent count receives a fresh galaxy agent with
/// zeroed telemetry.
pub fn attach_agents_to_galaxies(
    agents: &mut Vec<(AstroAgent, AgentTelemetry)>,
    galaxies: &Vec<Galaxy>,
)
    requires
        old(agents)@.len() <= galaxies@.len(),
    ensures
        final(agents)@.len() == galaxies@.len(),
        forall|i: int| 0 <= i < old(agents)@.len() ==> final(agents)@[i] == old(agents)@[i],
        forall|i: int|
            old(agents)@.len() <= i < galaxies@.len() ==> final(agents)@[i] == (
            (
                AstroAgent {
                    id: galaxies@[i].id,
                    kind: AstroAgentKind::GalaxyAgent,
                    tracked_region: None,
                },
                AgentTelemetry { last_mass: 0, last_star_count: 0, last_black_holes: 0 },
            )),
{
    let n = galaxies.len();
    while agents.len() < n
        invariant
            old(agents)@.len() <= agents@.len() <= n,
            n == galaxies@.len(),
            forall|i: int| 0 <= i < old(agents)@.len() ==> agents@[i] == old(agents)@[i],
            forall|i: int|
                old(agents)@.len() <= i < agents@.len() ==> agents@[i] == (
                (
                    AstroAgent {
                        id: galaxies@[i].id,
                        kind: AstroAgentKind::GalaxyAgent,
                        tracked_region: None,
                    },
                    AgentTelemetry { last_mass: 0, last_star_count: 0, last_black_holes: 0 },
                )),
        decreases n - agents.len(),
    {
        let i = agents.len();
        let g = &galaxies[i];
        agents.push(
            (
                AstroAgent::new(g.id, AstroAgentKind::GalaxyAgent),
                AgentTelemetry { last_mass: 0, last_star_count: 0, last_black_holes: 0 },
            ),
        );
    }
}

} // verus!
