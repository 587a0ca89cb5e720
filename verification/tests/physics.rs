//! Derived fields, the two gravity solvers, the integrator, and the energy
//! diagnostics.

use pru_lattice::fixed::FX_ONE;
use pru_lattice::pru::cell::{DerivedFields, GridPos, PruCell, PruDynamics};
use pru_lattice::pru::gravity::{
    compute_energy_metrics, simulate_gravity_step, GravityMode, GravityParams, SimulationEnergy,
};
use pru_lattice::pru::gravity_relational::{
    apply_relational_gravity, initialize_relational_kernel, RelationalKernel,
};
use pru_lattice::pru::universe::{
    compute_derived_fields, setup_universe, FieldMetrics, LatticeState, PruUniverse,
};
use pru_lattice::vector::Vec3Fx;

const FX: i64 = FX_ONE;

/// A lattice of `masses.len()` cells along the x axis at the given fixed-point
/// x positions, at rest.
fn line_state(spacing: i64, xs: &[i64], masses: &[i64]) -> (PruUniverse, LatticeState) {
    assert_eq!(xs.len(), masses.len());
    let n = xs.len() as u32;
    let mut universe = PruUniverse::new(GridPos { x: n, y: 1, z: 1 }, spacing, FX / 60);
    universe.total_cells = xs.len();
    let mut cells = Vec::new();
    let mut dynamics = Vec::new();
    let mut fields = Vec::new();
    for i in 0..xs.len() {
        cells.push(PruCell::new(
            Vec3Fx { x: xs[i], y: 0, z: 0 },
            GridPos { x: i as u32, y: 0, z: 0 },
            masses[i],
            0,
        ));
        dynamics.push(PruDynamics {
            mass: masses[i],
            velocity: Vec3Fx { x: 0, y: 0, z: 0 },
            acceleration: Vec3Fx { x: 0, y: 0, z: 0 },
        });
        fields.push(DerivedFields::default());
    }
    (universe, LatticeState { cells, dynamics, fields })
}

fn naive_params(g: i64, softening: i64) -> GravityParams {
    GravityParams {
        g_effective: g,
        softening_length: softening,
        damping: 0,
        max_acceleration: 120 * FX,
        enabled: true,
        mode: GravityMode::NaiveNBody,
    }
}

#[test]
fn setup_universe_draws_locks_in_range() {
    let dims = GridPos { x: 3, y: 3, z: 3 };
    let (universe, state) = setup_universe(dims, 84_000_000, FX / 60, 42);
    assert_eq!(universe.total_cells, 27);
    assert_eq!(state.cells.len(), 27);
    let mut all_equal = true;
    for i in 0..27 {
        let c = &state.cells[i];
        assert!(24_000_000 <= c.ua_mass_lock && c.ua_mass_lock < 96_000_000);
        assert!(-FX <= c.ub_geom_lock && c.ub_geom_lock < FX);
        let expected_mass = c.ua_mass_lock.max(3_000_000);
        assert_eq!(state.dynamics[i].mass, expected_mass);
        assert_eq!(state.dynamics[i].acceleration, Vec3Fx { x: 0, y: 0, z: 0 });
        if c.ua_mass_lock != state.cells[0].ua_mass_lock {
            all_equal = false;
        }
    }
    assert!(!all_equal, "lock values should vary across cells");
    // Row-major dense layout.
    assert_eq!(state.cells[0].grid_coords, GridPos { x: 0, y: 0, z: 0 });
    assert_eq!(state.cells[26].grid_coords, GridPos { x: 2, y: 2, z: 2 });
    assert_eq!(state.cells[9 + 3 + 1].grid_coords, GridPos { x: 1, y: 1, z: 1 });
    // The lattice is centered: the middle cell sits at the origin.
    assert_eq!(state.cells[13].position, Vec3Fx { x: 0, y: 0, z: 0 });
}

#[test]
fn setup_universe_is_deterministic_per_seed() {
    let dims = GridPos { x: 2, y: 2, z: 2 };
    let (_, s1) = setup_universe(dims, FX, FX / 60, 7);
    let (_, s2) = setup_universe(dims, FX, FX / 60, 7);
    for i in 0..8 {
        assert_eq!(s1.cells[i].ua_mass_lock, s2.cells[i].ua_mass_lock);
        assert_eq!(s1.cells[i].ub_geom_lock, s2.cells[i].ub_geom_lock);
    }
}

#[test]
fn single_cell_density_is_its_own_mass() {
    let (universe, mut state) = line_state(FX, &[0], &[FX]);
    let mut metrics = FieldMetrics::default();
    compute_derived_fields(&universe, &mut state, &mut metrics);
    // Weight at distance zero is one, so the density is exactly the mass; no
    // other cell contributes weight, so the curvature proxy is zero.
    assert_eq!(state.fields[0].local_density, FX);
    assert_eq!(state.fields[0].curvature_proxy, 0);
    assert_eq!(metrics.avg_density, FX);
    assert_eq!(metrics.min_density, FX);
    assert_eq!(metrics.max_density, FX);
    assert_eq!(metrics.avg_curvature, 0);
    assert_eq!(metrics.density_history.len(), 33);
    assert_eq!(*metrics.density_history.last().unwrap(), FX);
}

#[test]
fn field_pass_is_idempotent() {
    // Running the field computer twice on an unchanged lattice yields
    // identical density and curvature values.
    let (universe, mut state) = setup_universe(GridPos { x: 3, y: 2, z: 2 }, 84_000_000, FX / 60, 5);
    let mut metrics = FieldMetrics::default();
    compute_derived_fields(&universe, &mut state, &mut metrics);
    let first: Vec<DerivedFields> = state.fields.clone();
    compute_derived_fields(&universe, &mut state, &mut metrics);
    assert_eq!(state.fields, first);
}

#[test]
fn density_history_evicts_oldest_first() {
    let (universe, mut state) = line_state(FX, &[0], &[FX]);
    let mut metrics = FieldMetrics::default();
    metrics.max_history = 2;
    compute_derived_fields(&universe, &mut state, &mut metrics);
    assert_eq!(metrics.density_history, vec![0, FX]);
    state.dynamics[0].mass = 2 * FX;
    compute_derived_fields(&universe, &mut state, &mut metrics);
    assert_eq!(metrics.density_history, vec![FX, 2 * FX]);
}

#[test]
fn naive_pair_forces_are_equal_and_opposite() {
    // Two unit masses two units apart, no softening, unit gravity constant.
    let (universe, mut state) = line_state(FX, &[0, 2 * FX], &[FX, FX]);
    let kernel = initialize_relational_kernel(&universe);
    let params = naive_params(FX, 0);
    simulate_gravity_step(&params, &universe, &kernel, 1, FX / 60, &mut state);
    let a0 = state.dynamics[0].acceleration;
    let a1 = state.dynamics[1].acceleration;
    // dist2 = 4, inv_dist = 1/2, inv_dist3 = 1/8, force = 1/8, direction +-x.
    assert_eq!(a0, Vec3Fx { x: FX / 8, y: 0, z: 0 });
    assert_eq!(a1, Vec3Fx { x: -(FX / 8), y: 0, z: 0 });
    assert_eq!(a0.x, -a1.x);
    // Semi-implicit Euler with dt = 1/60 and no damping.
    assert_eq!(state.dynamics[0].velocity.x, 125_000);
    assert_eq!(state.cells[0].position.x, 2_083);
}

#[test]
fn naive_asymmetric_masses_accelerate_inversely() {
    // The lighter body picks up the larger acceleration: a_i = F / m_i.
    let (universe, mut state) = line_state(FX, &[0, 2 * FX], &[FX, 2 * FX]);
    let kernel = initialize_relational_kernel(&universe);
    let params = naive_params(FX, 0);
    simulate_gravity_step(&params, &universe, &kernel, 1, FX / 60, &mut state);
    let a0 = state.dynamics[0].acceleration.x;
    let a1 = state.dynamics[1].acceleration.x;
    // force magnitude = 1 * (1*2) / 8 = 1/4; a0 = 1/4, a1 = -1/8.
    assert_eq!(a0, FX / 4);
    assert_eq!(a1, -(FX / 8));
}

#[test]
fn disabled_gravity_leaves_inertial_drift() {
    let (universe, mut state) = line_state(FX, &[0, 2 * FX], &[FX, FX]);
    state.dynamics[0].velocity = Vec3Fx { x: 6 * FX, y: 0, z: 0 };
    let kernel = initialize_relational_kernel(&universe);
    let mut params = naive_params(FX, 0);
    params.enabled = false;
    simulate_gravity_step(&params, &universe, &kernel, 1, FX / 60, &mut state);
    assert_eq!(state.dynamics[0].acceleration, Vec3Fx { x: 0, y: 0, z: 0 });
    // position += v * dt = 6/60 = 0.1
    assert_eq!(state.cells[0].position.x, FX / 10);
    assert_eq!(state.dynamics[0].velocity.x, 6 * FX);
}

#[test]
fn acceleration_clamp_preserves_direction() {
    // A tiny clamp forces the rescale path.
    let (universe, mut state) = line_state(FX, &[0, 2 * FX], &[FX, FX]);
    let kernel = initialize_relational_kernel(&universe);
    let mut params = naive_params(FX, 0);
    params.max_acceleration = FX / 16;
    simulate_gravity_step(&params, &universe, &kernel, 1, FX / 60, &mut state);
    let a0 = state.dynamics[0].acceleration;
    // Unclamped magnitude would be 1/8; clamped to about 1/16, still +x.
    assert!(a0.x > 0 && a0.y == 0 && a0.z == 0);
    assert!(a0.x <= FX / 16);
    assert!(a0.x > FX / 20);
}

#[test]
fn relational_kernel_weights_for_unit_spacing() {
    let kernel = RelationalKernel::new(FX);
    assert_eq!(kernel.offsets.len(), 6);
    assert_eq!(kernel.weights.len(), 6);
    // 1 / r^3 = 1 at unit spacing.
    assert_eq!(kernel.weights[0], Vec3Fx { x: FX, y: 0, z: 0 });
    assert_eq!(kernel.weights[1], Vec3Fx { x: -FX, y: 0, z: 0 });
    assert_eq!(kernel.weights[2], Vec3Fx { x: 0, y: FX, z: 0 });
    assert_eq!(kernel.weights[5], Vec3Fx { x: 0, y: 0, z: -FX });
    assert_eq!(kernel.offsets[0].x, 1);
    assert_eq!(kernel.offsets[1].x, -1);
}

#[test]
fn relational_solver_reads_only_axis_neighbors() {
    // Perturbing a distant cell's mass must not change a given cell's
    // acceleration; perturbing an axis neighbor must.
    let masses = [FX, 2 * FX, 3 * FX, 4 * FX];
    let xs = [0, FX, 2 * FX, 3 * FX];
    let mut params = naive_params(FX, 0);
    params.mode = GravityMode::RelationalLattice;

    let (universe, mut state) = line_state(FX, &xs, &masses);
    let kernel = initialize_relational_kernel(&universe);
    apply_relational_gravity(&params, &universe, &kernel, &mut state);
    let base_a0 = state.dynamics[0].acceleration;
    // Only the +x neighbor (mass 2) contributes: weight 1, gain 1, g 1.
    assert_eq!(base_a0, Vec3Fx { x: 2 * FX, y: 0, z: 0 });
    let base_a1 = state.dynamics[1].acceleration;
    // +x neighbor mass 3 minus -x neighbor mass 1.
    assert_eq!(base_a1, Vec3Fx { x: 2 * FX, y: 0, z: 0 });

    // Distant perturbation: cell 3 is no axis neighbor of cell 0.
    let far = [FX, 2 * FX, 3 * FX, 9 * FX];
    let (_, mut state_far) = line_state(FX, &xs, &far);
    apply_relational_gravity(&params, &universe, &kernel, &mut state_far);
    assert_eq!(state_far.dynamics[0].acceleration, base_a0);

    // Neighbor perturbation: cell 1 is the +x neighbor of cell 0.
    let near = [FX, 5 * FX, 3 * FX, 4 * FX];
    let (_, mut state_near) = line_state(FX, &xs, &near);
    apply_relational_gravity(&params, &universe, &kernel, &mut state_near);
    assert_ne!(state_near.dynamics[0].acceleration, base_a0);
    assert_eq!(state_near.dynamics[0].acceleration, Vec3Fx { x: 5 * FX, y: 0, z: 0 });
}

#[test]
fn two_body_potential_energy_captured_as_initial_total() {
    // Masses 1 and 1 at distance 2 with zero softening and unit constant:
    // potential -0.5, kinetic 0, total -0.5 captured as the initial total.
    let (_, state) = line_state(FX, &[0, 2 * FX], &[FX, FX]);
    let params = naive_params(FX, 0);
    let mut energy = SimulationEnergy::default();
    compute_energy_metrics(&params, &mut energy, &state);
    assert_eq!(energy.kinetic, 0);
    assert_eq!(energy.potential, -(FX / 2));
    assert_eq!(energy.total, -(FX / 2));
    assert_eq!(energy.initial_total, Some(-(FX / 2)));
    assert_eq!(energy.relative_drift, Some(0));
}

#[test]
fn initial_total_is_frozen_once_captured() {
    let (_, mut state) = line_state(FX, &[0, 2 * FX], &[FX, FX]);
    let params = naive_params(FX, 0);
    let mut energy = SimulationEnergy::default();
    compute_energy_metrics(&params, &mut energy, &state);
    let captured = energy.initial_total;
    // Move the bodies apart: the total changes, the initial total does not.
    state.cells[1].position.x = 4 * FX;
    compute_energy_metrics(&params, &mut energy, &state);
    assert_eq!(energy.potential, -(FX / 4));
    assert_eq!(energy.initial_total, captured);
    // drift = (-0.25 - -0.5) / -0.5 = -0.5
    assert_eq!(energy.relative_drift, Some(-(FX / 2)));
}

#[test]
fn two_body_orbit_keeps_energy_drift_small() {
    // A closed two-body system on a circular orbit, no damping: after 1000
    // fixed steps of the pairwise solver the relative energy drift stays
    // below 1e-3.
    // Masses 1 at distance 2, g = 0.01. The solver scales the unit direction
    // by g*m*m/dist^3, so the circular speed at radius 1 satisfies
    // v*v = g/8 = 0.00125, about 0.035355.
    let (universe, mut state) = line_state(FX, &[-FX, FX], &[FX, FX]);
    state.dynamics[0].velocity = Vec3Fx { x: 0, y: 2_121_320, z: 0 };
    state.dynamics[1].velocity = Vec3Fx { x: 0, y: -2_121_320, z: 0 };
    let kernel = initialize_relational_kernel(&universe);
    let params = naive_params(FX / 100, 0);
    let mut energy = SimulationEnergy::default();
    compute_energy_metrics(&params, &mut energy, &state);
    let initial = energy.initial_total.expect("initial total captured");
    assert!(initial != 0);
    for _ in 0..1000 {
        simulate_gravity_step(&params, &universe, &kernel, 1, FX / 60, &mut state);
        compute_energy_metrics(&params, &mut energy, &state);
    }
    let drift = energy.relative_drift.expect("drift available");
    // 1e-3 in fixed point is 60_000 quanta.
    assert!(
        drift.abs() < 60_000,
        "relative drift {drift} quanta exceeds one thousandth"
    );
}
