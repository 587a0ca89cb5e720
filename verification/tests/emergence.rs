//! Star, black-hole and galaxy emergence, and the agent report layer.

use pru_lattice::agents::analysis::{analyze_agents, AnalysisSchedule};
use pru_lattice::agents::astro_agent::{attach_agents_to_galaxies, AgentTelemetry, AstroAgent, AstroAgentKind};
use pru_lattice::agents::events::{AstroReport, AstroReportLog};
use pru_lattice::astro::black_hole::BlackHole;
use pru_lattice::astro::formation::{
    identify_galaxies, spawn_black_holes_from_density, spawn_stars_from_density,
    FormationSchedule, FormationSettings,
};
use pru_lattice::astro::galaxy::{Galaxy, GalaxyIdCounter};
use pru_lattice::astro::star::Star;
use pru_lattice::fixed::FX_ONE;
use pru_lattice::pru::cell::{DerivedFields, GridPos, PruCell, PruDynamics};
use pru_lattice::pru::universe::{LatticeState, PruUniverse};
use pru_lattice::vector::Vec3Fx;

const FX: i64 = FX_ONE;

/// A lattice of cells along the x axis with prescribed positions and local
/// densities (curvatures zero).
fn field_state(spacing: i64, xs: &[i64], densities: &[i64]) -> (PruUniverse, LatticeState) {
    field_state_curved(spacing, xs, densities, &vec![0; xs.len()])
}

fn field_state_curved(
    spacing: i64,
    xs: &[i64],
    densities: &[i64],
    curvatures: &[i64],
) -> (PruUniverse, LatticeState) {
    let n = xs.len() as u32;
    let mut universe = PruUniverse::new(GridPos { x: n, y: 1, z: 1 }, spacing, FX / 60);
    universe.total_cells = xs.len();
    let mut cells = Vec::new();
    let mut dynamics = Vec::new();
    let mut fields = Vec::new();
    for i in 0..xs.len() {
        cells.push(PruCell::new(
            Vec3Fx { x: xs[i], y: 0, z: 0 },
            GridPos { x: i as u32, y: 0, z: 0 },
            FX,
            0,
        ));
        dynamics.push(PruDynamics {
            mass: FX,
            velocity: Vec3Fx { x: 0, y: 0, z: 0 },
            acceleration: Vec3Fx { x: 0, y: 0, z: 0 },
        });
        fields.push(DerivedFields { local_density: densities[i], curvature_proxy: curvatures[i] });
    }
    (universe, LatticeState { cells, dynamics, fields })
}

#[test]
fn dense_cell_spawns_one_star_within_avoidance_none() {
    // Density threshold 1.8: a cell at density 2.0 with no star nearby spawns
    // exactly one star; an identical cell 0.1 units away (inside the 0.8 *
    // spacing avoidance radius) spawns none.
    let spacing = 84_000_000; // 1.4 world units
    let (universe, state) = field_state(spacing, &[0, FX / 10], &[2 * FX, 2 * FX]);
    let settings = FormationSettings::default();
    let mut schedule = FormationSchedule::default();
    let mut stars: Vec<Star> = Vec::new();
    spawn_stars_from_density(&universe, 8, &settings, &mut schedule, &state, &mut stars);
    assert_eq!(stars.len(), 1);
    assert_eq!(schedule.last_star_tick, 8);
    let star = &stars[0];
    assert_eq!(star.position, Vec3Fx { x: 0, y: 0, z: 0 });
    assert_eq!(star.mass, 2 * FX);
    // radius = clamp(2.0 * 0.08, 0.05, 0.6) = 0.16
    assert_eq!(star.radius, 9_600_000);
    // temperature = 4000 + 2.0 * 3000 = 10000
    assert_eq!(star.temperature, 10_000 * FX);
    // luminosity = 2.0 * 2 = 4
    assert_eq!(star.luminosity, 4 * FX);
}

#[test]
fn second_star_pass_on_unchanged_field_spawns_nothing() {
    // The avoidance radius makes star formation idempotent on an unchanged
    // field: each qualifying cell already carries its own star.
    let spacing = 84_000_000;
    let (universe, state) = field_state(spacing, &[0, 3 * FX], &[2 * FX, 2 * FX]);
    let settings = FormationSettings::default();
    let mut schedule = FormationSchedule::default();
    let mut stars: Vec<Star> = Vec::new();
    spawn_stars_from_density(&universe, 8, &settings, &mut schedule, &state, &mut stars);
    assert_eq!(stars.len(), 2);
    spawn_stars_from_density(&universe, 16, &settings, &mut schedule, &state, &mut stars);
    assert_eq!(stars.len(), 2);
    // No two stars within the avoidance radius (1.12 world units) of each
    // other.
    let ar2 = 67_200_000i64 * 67_200_000 / FX;
    for p in 0..stars.len() {
        for q in (p + 1)..stars.len() {
            let dx = stars[p].position.x - stars[q].position.x;
            assert!(dx * dx / FX >= ar2);
        }
    }
}

#[test]
fn star_formation_respects_its_cadence() {
    let spacing = 84_000_000;
    let (universe, state) = field_state(spacing, &[0], &[2 * FX]);
    let settings = FormationSettings::default();
    let mut schedule = FormationSchedule::default();
    schedule.last_star_tick = 4;
    let mut stars: Vec<Star> = Vec::new();
    // 7 - 4 < 8: the rule does not fire.
    spawn_stars_from_density(&universe, 7, &settings, &mut schedule, &state, &mut stars);
    assert_eq!(stars.len(), 0);
    assert_eq!(schedule.last_star_tick, 4);
    // 12 - 4 >= 8: it fires now.
    spawn_stars_from_density(&universe, 12, &settings, &mut schedule, &state, &mut stars);
    assert_eq!(stars.len(), 1);
    assert_eq!(schedule.last_star_tick, 12);
}

#[test]
fn sparse_cells_spawn_no_stars() {
    let (universe, state) = field_state(84_000_000, &[0], &[FX]);
    let settings = FormationSettings::default();
    let mut schedule = FormationSchedule::default();
    let mut stars: Vec<Star> = Vec::new();
    spawn_stars_from_density(&universe, 8, &settings, &mut schedule, &state, &mut stars);
    assert_eq!(stars.len(), 0);
}

#[test]
fn black_hole_needs_density_and_curvature() {
    let spacing = 84_000_000;
    // Cell 0 exceeds both thresholds; cell 1 (far away) has high density but
    // flat curvature.
    let (universe, state) = field_state_curved(
        spacing,
        &[0, 5 * FX],
        &[3 * FX, 3 * FX],
        &[18_000_000, 0],
    );
    let settings = FormationSettings::default();
    let mut schedule = FormationSchedule::default();
    let mut black_holes: Vec<BlackHole> = Vec::new();
    spawn_black_holes_from_density(&universe, 8, &settings, &mut schedule, &state, &mut black_holes);
    assert_eq!(black_holes.len(), 1);
    let bh = &black_holes[0];
    assert_eq!(bh.position, Vec3Fx { x: 0, y: 0, z: 0 });
    // mass = 4 * density = 12; radius = clamp(12 * 0.05, 0.2, 1.5) = 0.6
    assert_eq!(bh.mass, 12 * FX);
    assert_eq!(bh.radius, 36_000_000);
    assert_eq!(bh.spin, 18_000_000);
}

#[test]
fn dense_bucket_spawns_galaxy_with_fresh_id() {
    // Two cells at density 2.0 share bucket (0,0,0): total mass 4.0 exceeds
    // three galaxy thresholds (3.6), so one galaxy spawns.
    let (universe, state) = field_state(FX, &[0, FX], &[2 * FX, 2 * FX]);
    let settings = FormationSettings::default();
    let mut schedule = FormationSchedule::default();
    let mut id_counter = GalaxyIdCounter::default();
    let stars: Vec<Star> = Vec::new();
    let mut galaxies: Vec<Galaxy> = Vec::new();
    identify_galaxies(
        &universe, 24, &settings, &mut schedule, &mut id_counter, &state, &stars, &mut galaxies,
    );
    assert_eq!(galaxies.len(), 1);
    assert_eq!(id_counter.next_id, 1);
    let g = &galaxies[0];
    assert_eq!(g.id, 0);
    assert_eq!(g.total_mass, 4 * FX);
    assert_eq!(g.region_key, GridPos { x: 0, y: 0, z: 0 });
    // centroid = (0*2 + 1*2) / 4 = 0.5
    assert_eq!(g.center, Vec3Fx { x: FX / 2, y: 0, z: 0 });
    // radius = clamp(4 * 0.05, spacing, 8 * spacing) = spacing = 1.0
    assert_eq!(g.radius, FX);
    assert_eq!(g.num_stars, 0);
}

#[test]
fn weak_bucket_spawns_no_galaxy() {
    // Total bucket mass 3.0 misses the 3.6 spawn bar.
    let (universe, state) = field_state(FX, &[0, FX], &[3 * FX / 2, 3 * FX / 2]);
    let settings = FormationSettings::default();
    let mut schedule = FormationSchedule::default();
    let mut id_counter = GalaxyIdCounter::default();
    let stars: Vec<Star> = Vec::new();
    let mut galaxies: Vec<Galaxy> = Vec::new();
    identify_galaxies(
        &universe, 24, &settings, &mut schedule, &mut id_counter, &state, &stars, &mut galaxies,
    );
    assert_eq!(galaxies.len(), 0);
    assert_eq!(id_counter.next_id, 0);
}

#[test]
fn matched_galaxy_is_updated_in_place() {
    let (universe, state) = field_state(FX, &[0, FX], &[2 * FX, 2 * FX]);
    let settings = FormationSettings::default();
    let mut schedule = FormationSchedule::default();
    let mut id_counter = GalaxyIdCounter { next_id: 7 };
    let stars: Vec<Star> = Vec::new();
    let mut galaxies = vec![Galaxy {
        id: 3,
        total_mass: FX,
        radius: FX,
        num_stars: 9,
        center: Vec3Fx { x: 0, y: 0, z: 0 },
        region_key: GridPos { x: 0, y: 0, z: 0 },
    }];
    identify_galaxies(
        &universe, 24, &settings, &mut schedule, &mut id_counter, &state, &stars, &mut galaxies,
    );
    // The existing galaxy claimed the bucket: updated, and nothing spawned.
    assert_eq!(galaxies.len(), 1);
    assert_eq!(id_counter.next_id, 7);
    assert_eq!(galaxies[0].id, 3);
    assert_eq!(galaxies[0].total_mass, 4 * FX);
    assert_eq!(galaxies[0].center, Vec3Fx { x: FX / 2, y: 0, z: 0 });
    assert_eq!(galaxies[0].num_stars, 0);
}

#[test]
fn faded_galaxy_decays_by_exactly_nine_tenths_and_stays() {
    // No cell is dense, so the galaxy's bucket is gone: each refresh scales
    // its mass and radius by exactly 0.9 and never removes it.
    let (universe, state) = field_state(FX, &[0], &[0]);
    let settings = FormationSettings::default();
    let mut schedule = FormationSchedule::default();
    let mut id_counter = GalaxyIdCounter::default();
    let stars: Vec<Star> = Vec::new();
    let mut galaxies = vec![Galaxy {
        id: 0,
        total_mass: FX,
        radius: FX,
        num_stars: 4,
        center: Vec3Fx { x: 2 * FX, y: 0, z: 0 },
        region_key: GridPos { x: 5, y: 5, z: 5 },
    }];
    identify_galaxies(
        &universe, 24, &settings, &mut schedule, &mut id_counter, &state, &stars, &mut galaxies,
    );
    assert_eq!(galaxies.len(), 1);
    assert_eq!(galaxies[0].total_mass, 54_000_000);
    assert_eq!(galaxies[0].radius, 54_000_000);
    assert_eq!(galaxies[0].id, 0);
    assert_eq!(galaxies[0].num_stars, 4);
    assert_eq!(galaxies[0].center, Vec3Fx { x: 2 * FX, y: 0, z: 0 });
    identify_galaxies(
        &universe, 48, &settings, &mut schedule, &mut id_counter, &state, &stars, &mut galaxies,
    );
    assert_eq!(galaxies.len(), 1);
    assert_eq!(galaxies[0].total_mass, 48_600_000);
    assert_eq!(galaxies[0].radius, 48_600_000);
}

#[test]
fn galaxy_refresh_respects_its_cadence() {
    let (universe, state) = field_state(FX, &[0, FX], &[2 * FX, 2 * FX]);
    let settings = FormationSettings::default();
    let mut schedule = FormationSchedule::default();
    schedule.last_galaxy_tick = 10;
    let mut id_counter = GalaxyIdCounter::default();
    let stars: Vec<Star> = Vec::new();
    let mut galaxies: Vec<Galaxy> = Vec::new();
    identify_galaxies(
        &universe, 20, &settings, &mut schedule, &mut id_counter, &state, &stars, &mut galaxies,
    );
    assert_eq!(galaxies.len(), 0);
    assert_eq!(schedule.last_galaxy_tick, 10);
}

#[test]
fn report_log_drops_oldest_beyond_capacity() {
    let report = |tick: u64| AstroReport {
        tick,
        agent_id: 0,
        agent_kind: AstroAgentKind::GalaxyAgent,
        galaxy_mass: FX,
        mass_change: 0,
        star_count: 0,
        black_hole_count: 0,
    };
    let mut log = AstroReportLog::default();
    log.max_reports = 2;
    log.push(report(1));
    log.push(report(2));
    log.push(report(3));
    assert_eq!(log.reports.len(), 2);
    assert_eq!(log.reports[0].tick, 2);
    assert_eq!(log.reports[1].tick, 3);
}

#[test]
fn report_log_adopts_default_capacity() {
    let mut log = AstroReportLog::default();
    assert_eq!(log.max_reports, 0);
    log.push(AstroReport {
        tick: 0,
        agent_id: 0,
        agent_kind: AstroAgentKind::ClusterAgent,
        galaxy_mass: 0,
        mass_change: 0,
        star_count: 0,
        black_hole_count: 0,
    });
    assert_eq!(log.max_reports, 128);
    assert_eq!(log.reports.len(), 1);
}

#[test]
fn agents_attach_to_new_galaxies() {
    let galaxy = |id: u32| Galaxy {
        id,
        total_mass: FX,
        radius: FX,
        num_stars: 0,
        center: Vec3Fx { x: 0, y: 0, z: 0 },
        region_key: GridPos { x: id, y: 0, z: 0 },
    };
    let galaxies = vec![galaxy(4), galaxy(9)];
    let mut agents: Vec<(AstroAgent, AgentTelemetry)> = Vec::new();
    attach_agents_to_galaxies(&mut agents, &galaxies);
    assert_eq!(agents.len(), 2);
    assert_eq!(agents[0].0.id, 4);
    assert_eq!(agents[1].0.id, 9);
    assert!(matches!(agents[0].0.kind, AstroAgentKind::GalaxyAgent));
    assert_eq!(agents[0].1.last_mass, 0);
}

#[test]
fn survey_reports_mass_change_once() {
    let galaxies = vec![Galaxy {
        id: 0,
        total_mass: 4 * FX,
        radius: FX,
        num_stars: 0,
        center: Vec3Fx { x: 0, y: 0, z: 0 },
        region_key: GridPos { x: 0, y: 0, z: 0 },
    }];
    let mut agents: Vec<(AstroAgent, AgentTelemetry)> = Vec::new();
    attach_agents_to_galaxies(&mut agents, &galaxies);
    let settings = FormationSettings::default();
    let mut schedule = AnalysisSchedule::default();
    let mut reports = AstroReportLog::default();
    let stars: Vec<Star> = Vec::new();
    let black_holes: Vec<BlackHole> = Vec::new();
    // First survey: the mass jumped from the zero sample, so a report fires.
    analyze_agents(
        24, &settings, &mut schedule, &mut reports, &mut agents, &galaxies, &stars, &black_holes,
    );
    assert_eq!(schedule.agent_interval, 24);
    assert_eq!(reports.reports.len(), 1);
    assert_eq!(reports.reports[0].galaxy_mass, 4 * FX);
    assert_eq!(reports.reports[0].mass_change, 4 * FX);
    assert_eq!(agents[0].1.last_mass, 4 * FX);
    assert!(agents[0].0.tracked_region.is_some());
    // Second survey with unchanged statistics: no new report.
    analyze_agents(
        48, &settings, &mut schedule, &mut reports, &mut agents, &galaxies, &stars, &black_holes,
    );
    assert_eq!(reports.reports.len(), 1);
}

#[test]
fn survey_respects_its_cadence() {
    let galaxies = vec![Galaxy {
        id: 0,
        total_mass: 4 * FX,
        radius: FX,
        num_stars: 0,
        center: Vec3Fx { x: 0, y: 0, z: 0 },
        region_key: GridPos { x: 0, y: 0, z: 0 },
    }];
    let mut agents: Vec<(AstroAgent, AgentTelemetry)> = Vec::new();
    attach_agents_to_galaxies(&mut agents, &galaxies);
    let settings = FormationSettings::default();
    let mut schedule = AnalysisSchedule::default();
    let mut reports = AstroReportLog::default();
    let stars: Vec<Star> = Vec::new();
    let black_holes: Vec<BlackHole> = Vec::new();
    // Tick 10 is before the adopted interval of 24: nothing happens except
    // the interval configuration itself.
    analyze_agents(
        10, &settings, &mut schedule, &mut reports, &mut agents, &galaxies, &stars, &black_holes,
    );
    assert_eq!(schedule.agent_interval, 24);
    assert_eq!(schedule.last_agent_tick, 0);
    assert_eq!(reports.reports.len(), 0);
    assert_eq!(agents[0].1.last_mass, 0);
}
