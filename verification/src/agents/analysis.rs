//! The periodic survey pass: on its own cadence it compares every galaxy's
//! aggregate statistics against the agent's previous sample and appends a
//! summary to the bounded report log when the relative mass change exceeds
//! five percent or the star or black-hole counts change at all.

use vstd::prelude::*;

use crate::agents::astro_agent::{AgentTelemetry, AstroAgent, TrackedRegion};
use crate::agents::events::{log_push, AstroReport, AstroReportLog};
use crate::astro::black_hole::BlackHole;
use crate::astro::formation::{stars_within_count, within_avoidance, FormationSettings};
use crate::astro::galaxy::Galaxy;
use crate::astro::star::Star;
use crate::fixed::{abs_fx, clip, fx_abs, fx_max, fx_mul, fx_sub, max_fx, mul_fx, sub_fx};
use crate::pru::cell::GridPos;
use crate::vector::{dist2_v3, Vec3Fx};

verus! {

/// Galaxies are measured over at least a 0.1-unit radius.
pub const AGENT_RADIUS_FLOOR: i64 = 6_000_000;

/// A report fires when the mass change exceeds 0.05 of the current mass.
pub const MASS_CHANGE_FACTOR: i64 = 3_000_000;

/// Cadence state of the survey pass.
#[derive(Clone, Copy, Debug, PartialEq, Eq, Structural, Default)]
pub struct AnalysisSchedule {
    pub last_agent_tick: u64,
    /// Zero means "not yet configured": the first run adopts the galaxy
    /// refresh interval, floored at four ticks.
    pub agent_interval: u64,
}

/// How many of the first `k` black holes lie within `radius` of `center`.
pub open spec fn bhs_within_count(bhs: Seq<BlackHole>, center: Vec3Fx, radius: int, k: int) -> int
    decreases k,
{
    if k <= 0 {
        0
    } else {
        bhs_within_count(bhs, center, radius, k - 1) + (
        if within_avoidance(bhs[k - 1].position, center, radius) {
            1int
        } else {
            0int
        })
    }
}

/// The radius a galaxy is measured over.
pub open spec fn agent_radius(g: Galaxy) -> int {
    fx_max(g.radius as int, AGENT_RADIUS_FLOOR as int)
}

pub open spec fn agent_star_count(g: Galaxy, stars: Seq<Star>) -> int {
    stars_within_count(stars, g.center, agent_radius(g), stars.len() as int)
}

pub open spec fn agent_bh_count(g: Galaxy, bhs: Seq<BlackHole>) -> int {
    bhs_within_count(bhs, g.center, agent_radius(g), bhs.len() as int)
}

/// Absolute change of the galaxy's mass against the previous sample.
pub open spec fn mass_change_of(t: AgentTelemetry, g: Galaxy) -> int {
    clip(fx_abs(fx_sub(g.total_mass as int, t.last_mass as int)))
}

/// A summary is appended when the mass change exceeds five percent of the
/// current mass or either entity count changed at all.
pub open spec fn report_emitted(
    t: AgentTelemetry,
    g: Galaxy,
    stars: Seq<Star>,
    bhs: Seq<BlackHole>,
) -> bool {
    ||| mass_change_of(t, g) > fx_mul(g.total_mass as int, MASS_CHANGE_FACTOR as int)
    ||| agent_star_count(g, stars) != t.last_star_count as int
    ||| agent_bh_count(g, bhs) != t.last_black_holes as int
}

pub open spec fn report_of(
    tick: u64,
    a: AstroAgent,
    t: AgentTelemetry,
    g: Galaxy,
    stars: Seq<Star>,
    bhs: Seq<BlackHole>,
) -> AstroReport {
    AstroReport {
        tick,
        agent_id: a.id,
        agent_kind: a.kind,
        galaxy_mass: g.total_mass,
        mass_change: mass_change_of(t, g) as i64,
        star_count: agent_star_count(g, stars) as u32,
        black_hole_count: agent_bh_count(g, bhs) as u32,
    }
}

/// The agent after a survey: it now tracks the region spanned by three bucket
/// widths.
pub open spec fn agent_after(a: AstroAgent, region_size: u32) -> AstroAgent {
    let span = ((region_size as int) * 3) as u32;
    AstroAgent {
        id: a.id,
        kind: a.kind,
        tracked_region: Some(
            TrackedRegion { min: GridPos { x: 0, y: 0, z: 0 }, max: GridPos {
                x: span,
                y: span,
                z: span,
            } },
        ),
    }
}

/// The telemetry after a survey: the current mass and counts become the
/// previous sample for the next one.
pub open spec fn telemetry_after(g: Galaxy, stars: Seq<Star>, bhs: Seq<BlackHole>) -> AgentTelemetry {
    AgentTelemetry {
        last_mass: g.total_mass,
        last_star_count: agent_star_count(g, stars) as u32,
        last_black_holes: agent_bh_count(g, bhs) as u32,
    }
}

/// The report log (contents and capacity) after surveying the first `k`
/// galaxies in order.
pub open spec fn reports_after(
    log: Seq<AstroReport>,
    max: int,
    tick: u64,
    agents: Seq<(AstroAgent, AgentTelemetry)>,
    galaxies: Seq<Galaxy>,
    stars: Seq<Star>,
    bhs: Seq<BlackHole>,
    k: int,
) -> (Seq<AstroReport>, int)
    decreases k,
{
    if k <= 0 {
        (log, max)
    } else {
        let prev = reports_after(log, max, tick, agents, galaxies, stars, bhs, k - 1);
        if report_emitted(agents[k - 1].1, galaxies[k - 1], stars, bhs) {
            log_push(
                prev.0,
                prev.1,
                report_of(tick, agents[k - 1].0, agents[k - 1].1, galaxies[k - 1], stars, bhs),
            )
        } else {
            prev
        }
    }
}

fn count_stars_in_radius(stars: &Vec<Star>, center: Vec3Fx, radius: i64) -> (count: u32)
    requires
        stars@.len() <= u32::MAX,
    ensures
        count as int == stars_within_count(stars@, center, radius as int, stars@.len() as int),
{
    let n = stars.len();
    let mut count: u32 = 0;
    let mut j: usize = 0;
    while j < n
        invariant
            n == stars@.len() <= u32::MAX,
            j <= n,
            count as int == stars_within_count(stars@, center, radius as int, j as int),
            count <= j,
        decreases n - j,
    {
        let d2 = dist2_v3(stars[j].position, center);
        if d2 < mul_fx(radius, radius) {
            count = count + 1;
        }
        j = j + 1;
    }
    count
}

fn count_black_holes_in_radius(bhs: &Vec<BlackHole>, center: Vec3Fx, radius: i64) -> (count: u32)
    requires
        bhs@.len() <= u32::MAX,
    ensures
        count as int == bhs_within_count(bhs@, center, radius as int, bhs@.len() as int),
{
    let n = bhs.len();
    let mut count: u32 = 0;
    let mut j: usize = 0;
    while j < n
        invariant
            n == bhs@.len() <= u32::MAX,
            j <= n,
            count as int == bhs_within_count(bhs@, center, radius as int, j as int),
            count <= j,
        decreases n - j,
    {
        let d2 = dist2_v3(bhs[j].position, center);
        if d2 < mul_fx(radius, radius) {
            count = count + 1;
        }
        j = j + 1;
    }
    count
}

/// Survey every galaxy through its attached agent, on the pass's own
/// cadence: append a summary for each galaxy whose statistics changed, refresh
/// each agent's telemetry sample and tracked region. An unconfigured interval
/// first adopts the galaxy refresh interval, floored at four ticks.
pub fn analyze_agents(
    tick: u64,
    settings: &FormationSettings,
    schedule: &mut AnalysisSchedule,
    reports: &mut AstroReportLog,
    agents: &mut Vec<(AstroAgent, AgentTelemetry)>,
    galaxies: &Vec<Galaxy>,
    stars: &Vec<Star>,
    black_holes: &Vec<BlackHole>,
)
    requires
        old(agents)@.len() == galaxies@.len(),
        tick >= old(schedule).last_agent_tick,
        stars@.len() <= u32::MAX,
        black_holes@.len() <= u32::MAX,
        (settings.region_size as int) * 3 <= u32::MAX as int,
    ensures
        ({
            let interval = if old(schedule).agent_interval == 0 {
                if settings.galaxy_refresh_interval >= 4 {
                    settings.galaxy_refresh_interval
                } else {
                    4u64
                }
            } else {
                old(schedule).agent_interval
            };
            &&& tick - old(schedule).last_agent_tick < interval ==> {
                &&& *final(schedule) == (AnalysisSchedule {
                    last_agent_tick: old(schedule).last_agent_tick,
                    agent_interval: interval,
                })
                &&& final(reports).reports@ == old(reports).reports@
                &&& final(reports).max_reports == old(reports).max_reports
                &&& final(agents)@ == old(agents)@
            }
            &&& tick - old(schedule).last_agent_tick >= interval ==> {
                &&& *final(schedule) == (AnalysisSchedule {
                    last_agent_tick: tick,
                    agent_interval: interval,
                })
                &&& final(agents)@.len() == galaxies@.len()
                &&& forall|i: int|
                    0 <= i < galaxies@.len() ==> #[trigger] final(agents)@[i] == (
                    (
                        agent_after(old(agents)@[i].0, settings.region_size),
                        telemetry_after(galaxies@[i], stars@, black_holes@),
                    ))
                &&& final(reports).reports@ == reports_after(
                    old(reports).reports@,
                    old(reports).max_reports as int,
                    tick,
                    old(agents)@,
                    galaxies@,
                    stars@,
                    black_holes@,
                    galaxies@.len() as int,
                ).0
                &&& final(reports).max_reports as int == reports_after(
                    old(reports).reports@,
                    old(reports).max_reports as int,
                    tick,
                    old(agents)@,
                    galaxies@,
                    stars@,
                    black_holes@,
                    galaxies@.len() as int,
                ).1
            }
        }),
{
    if schedule.agent_interval == 0 {
        schedule.agent_interval = if settings.galaxy_refresh_interval >= 4 {
            settings.galaxy_refresh_interval
        } else {
            4
        };
    }
    if tick - schedule.last_agent_tick < schedule.agent_interval {
        return ;
    }
    schedule.last_agent_tick = tick;
    let span = settings.region_size * 3;
    let n = galaxies.len();
    let ghost agents0 = agents@;
    let ghost log0 = reports.reports@;
    let ghost max0 = old(reports).max_reports as int;
    let mut i: usize = 0;
    while i < n
        invariant
            n == galaxies@.len() == agents0.len(),
            agents@.len() == n,
            i <= n,
            stars@.len() <= u32::MAX,
            black_holes@.len() <= u32::MAX,
            span as int == (settings.region_size as int) * 3,
            forall|c: int|
                0 <= c < i ==> #[trigger] agents@[c] == (
                (
                    agent_after(agents0[c].0, settings.region_size),
                    telemetry_after(galaxies@[c], stars@, black_holes@),
                )),
            forall|c: int| i <= c < n ==> #[trigger] agents@[c] == agents0[c],
            reports.reports@ == reports_after(
                log0,
                max0,
                tick,
                agents0,
                galaxies@,
                stars@,
                black_holes@,
                i as int,
            ).0,
            reports.max_reports as int == reports_after(
                log0,
                max0,
                tick,
                agents0,
                galaxies@,
                stars@,
                black_holes@,
                i as int,
            ).1,
        decreases n - i,
    {
        let g = galaxies[i];
        let (agent, telemetry) = agents[i];
        let region_radius = max_fx(g.radius, AGENT_RADIUS_FLOOR);
        let star_count = count_stars_in_radius(stars, g.center, region_radius);
        let bh_count = count_black_holes_in_radius(black_holes, g.center, region_radius);
        let mass_change = abs_fx(sub_fx(g.total_mass, telemetry.last_mass));
        if mass_change > mul_fx(g.total_mass, MASS_CHANGE_FACTOR) || star_count
            != telemetry.last_star_count || bh_count != telemetry.last_black_holes {
            reports.push(AstroReport {
                tick,
                agent_id: agent.id,
                agent_kind: agent.kind,
                galaxy_mass: g.total_mass,
                mass_change,
                star_count,
                black_hole_count: bh_count,
            });
        }
        agents[i] = (
            AstroAgent {
                id: agent.id,
                kind: agent.kind,
                tracked_region: Some(
                    TrackedRegion { min: GridPos { x: 0, y: 0, z: 0 }, max: GridPos {
                        x: span,
                        y: span,
                        z: span,
                    } },
                ),
            },
            AgentTelemetry {
                last_mass: g.total_mass,
                last_star_count: star_count,
                last_black_holes: bh_count,
            },
        );
        i = i + 1;
    }
}

} // verus!
