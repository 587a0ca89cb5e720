//! Macro-gravity solvers, the shared semi-implicit Euler integrator, and the
//! energy diagnostics.

use vstd::prelude::*;

use crate::fixed::{
    add_fx, div_fx, fx_add, fx_div, fx_mul, fx_neg, fx_sqrt, fx_sub, mul_fx, neg_fx, sqrt_fx,
    sub_fx, FX_HALF, FX_ONE,
};
use crate::pru::cell::{GridPos, PruCell, PruDynamics};
use crate::pru::universe::{lattice_dyn_wf, lattice_wf, LatticeState, PruUniverse};
use crate::vector::{
    add_v3, dist2, dist2_v3, dot_v3, lemma_dist2_sym, lemma_v3_ops_wf, lemma_v3_scale_neg,
    lemma_v3_sub_antisym, lemma_v3_sub_as_add_neg, scale_v3, sub_v3, v3_add, v3_dot, v3_neg,
    v3_scale, v3_sub, v3_wf, v3_zero, zero_v3, Vec3Fx,
};

verus! {

/// Choice of macro-gravity solver.
#[derive(Clone, Copy, Debug, PartialEq, Eq, Structural)]
pub enum GravityMode {
    /// Baseline all-pairs solver, quadratic in the cell count.
    NaiveNBody,
    /// Lattice solver that uses precomputed neighbor kernels, linear in the
    /// cell count.
    RelationalLattice,
}

/// Tunable parameters controlling the effective gravity model. Mutated only by
/// configuration input, never by the solvers.
#[derive(Clone, Copy, Debug, PartialEq, Eq, Structural)]
pub struct GravityParams {
    /// Effective gravitational constant.
    pub g_effective: i64,
    /// Softening length: added in squared form to pair distances by the naive
    /// solver, and used as a gain damper by the relational solver.
    pub softening_length: i64,
    /// Velocity damping factor per unit time, in `[0, 1]`.
    pub damping: i64,
    /// Magnitude clamp on per-cell accelerations.
    pub max_acceleration: i64,
    /// Whether gravity forces are applied (integration still runs for inertial
    /// motion).
    pub enabled: bool,
    /// Active solver controlling how accelerations are computed.
    pub mode: GravityMode,
}

impl Default for GravityParams {
    /// Gravity constant 0.6, softening 0.25, damping 0.01, acceleration clamp
    /// 120, enabled, relational mode.
    fn default() -> (p: Self)
        ensures
            p == (GravityParams {
                g_effective: 36_000_000,
                softening_length: 15_000_000,
                damping: 600_000,
                max_acceleration: 7_200_000_000,
                enabled: true,
                mode: GravityMode::RelationalLattice,
            }),
    {
        GravityParams {
            g_effective: 36_000_000,
            softening_length: 15_000_000,
            damping: 600_000,
            max_acceleration: 7_200_000_000,
            enabled: true,
            mode: GravityMode::RelationalLattice,
        }
    }
}

/// Softened squared distance of the pair `(i, j)`.
pub open spec fn pair_d2(pi: Vec3Fx, pj: Vec3Fx, soft: int) -> int {
    fx_add(dist2(pj, pi), fx_mul(soft, soft))
}

/// Magnitude of the softened inverse-square force between a pair of cells;
/// zero whenever the softened distance or the mass product vanishes.
pub open spec fn pair_force_mag(pi: Vec3Fx, pj: Vec3Fx, mi: int, mj: int, p: GravityParams) -> int {
    let d2 = pair_d2(pi, pj, p.softening_length as int);
    let mp = fx_mul(mi, mj);
    if d2 <= 0 || mp <= 0 {
        0
    } else {
        let inv_dist = fx_div(FX_ONE as int, fx_sqrt(d2));
        let inv_dist3 = fx_mul(fx_mul(inv_dist, inv_dist), inv_dist);
        fx_mul(fx_mul(p.g_effective as int, mp), inv_dist3)
    }
}

/// Unit direction from cell `i` toward cell `j` (the displacement scaled by
/// the inverse softened distance).
pub open spec fn pair_dir(pi: Vec3Fx, pj: Vec3Fx, soft: int) -> Vec3Fx {
    let d2 = pair_d2(pi, pj, soft);
    v3_scale(v3_sub(pj, pi), fx_div(FX_ONE as int, fx_sqrt(d2)))
}

/// The force vector the pair `(i, j)` exerts on cell `i`.
pub open spec fn pair_force(pi: Vec3Fx, pj: Vec3Fx, mi: int, mj: int, p: GravityParams) -> Vec3Fx {
    v3_scale(pair_dir(pi, pj, p.softening_length as int), pair_force_mag(pi, pj, mi, mj, p))
}

/// The acceleration contribution the pair `(i, j)` makes to cell `i`: the
/// pair force rescaled by the receiving cell's own mass.
pub open spec fn pair_accel(pi: Vec3Fx, pj: Vec3Fx, mi: int, mj: int, p: GravityParams) -> Vec3Fx {
    v3_scale(
        pair_dir(pi, pj, p.softening_length as int),
        fx_div(pair_force_mag(pi, pj, mi, mj, p), mi),
    )
}

/// The pair force magnitude is symmetric and the pair direction exactly
/// reverses when the pair is viewed from its other member.
pub proof fn lemma_pair_sym(pi: Vec3Fx, pj: Vec3Fx, mi: int, mj: int, p: GravityParams)
    ensures
        pair_force_mag(pj, pi, mj, mi, p) == pair_force_mag(pi, pj, mi, mj, p),
        pair_dir(pj, pi, p.softening_length as int) == v3_neg(
            pair_dir(pi, pj, p.softening_length as int),
        ),
{
    let soft = p.softening_length as int;
    lemma_dist2_sym(pj, pi);
    assert(mj * mi == mi * mj);
    lemma_v3_sub_antisym(pj, pi);
    lemma_v3_ops_wf(pj, pi, 0);
    let d2 = pair_d2(pi, pj, soft);
    let s = fx_div(FX_ONE as int, fx_sqrt(d2));
    lemma_v3_scale_neg(v3_sub(pj, pi), s);
}

/// Newton's third law, exactly: the force a pair exerts on its first member is
/// the negation of the force it exerts on its second member.
pub proof fn lemma_newton_third_law(pi: Vec3Fx, pj: Vec3Fx, mi: int, mj: int, p: GravityParams)
    ensures
        pair_force(pj, pi, mj, mi, p) == v3_neg(pair_force(pi, pj, mi, mj, p)),
{
    let soft = p.softening_length as int;
    lemma_pair_sym(pi, pj, mi, mj, p);
    lemma_v3_ops_wf(v3_sub(pj, pi), v3_sub(pj, pi), fx_div(FX_ONE as int, fx_sqrt(pair_d2(pi, pj, soft))));
    lemma_v3_scale_neg(pair_dir(pi, pj, soft), pair_force_mag(pi, pj, mi, mj, p));
}

/// The sequence of effective masses of a dynamics array.
pub open spec fn masses_of(dyns: Seq<PruDynamics>) -> Seq<i64> {
    Seq::new(dyns.len(), |i: int| dyns[i].mass)
}

/// Acceleration of cell `i` accumulated from its pairs with cells `0..k`
/// (skipping itself), in index order, starting from zero.
pub open spec fn naive_accel_prefix(
    cells: Seq<PruCell>,
    masses: Seq<i64>,
    p: GravityParams,
    i: int,
    k: int,
) -> Vec3Fx
    decreases k,
{
    if k <= 0 {
        v3_zero()
    } else {
        let prev = naive_accel_prefix(cells, masses, p, i, k - 1);
        if k - 1 == i {
            prev
        } else {
            v3_add(
                prev,
                pair_accel(
                    cells[i].position,
                    cells[k - 1].position,
                    masses[i] as int,
                    masses[k - 1] as int,
                    p,
                ),
            )
        }
    }
}

/// Acceleration of cell `i` under the all-pairs solver: a function of the cell
/// positions and masses alone.
pub open spec fn naive_accel(
    cells: Seq<PruCell>,
    masses: Seq<i64>,
    p: GravityParams,
    i: int,
) -> Vec3Fx {
    naive_accel_prefix(cells, masses, p, i, cells.len() as int)
}

/// Adding the zero vector leaves a well-formed vector unchanged.
proof fn lemma_v3_add_zero(a: Vec3Fx)
    requires
        v3_wf(a),
    ensures
        v3_add(a, v3_zero()) == a,
{
}

/// A vanished pair (zero softened distance or zero mass product) contributes
/// the zero vector.
proof fn lemma_pair_accel_vanishes(pi: Vec3Fx, pj: Vec3Fx, mi: int, mj: int, p: GravityParams)
    requires
        pair_d2(pi, pj, p.softening_length as int) <= 0 || fx_mul(mi, mj) <= 0,
    ensures
        pair_accel(pi, pj, mi, mj, p) == v3_zero(),
        pair_accel(pj, pi, mj, mi, p) == v3_zero(),
{
    let soft = p.softening_length as int;
    lemma_pair_sym(pi, pj, mi, mj, p);
    assert(mi * mj == mj * mi);
    assert(pair_force_mag(pi, pj, mi, mj, p) == 0);
    assert(pair_force_mag(pj, pi, mj, mi, p) == 0);
    assert(fx_div(0, mi) == 0);
    assert(fx_div(0, mj) == 0);
    let d = v3_sub(pj, pi);
    let s = fx_div(FX_ONE as int, fx_sqrt(pair_d2(pi, pj, soft)));
    assert((pair_dir(pi, pj, soft).x as int) * 0 == 0);
    assert(fx_mul(pair_dir(pi, pj, soft).x as int, 0) == 0);
    assert(fx_mul(pair_dir(pi, pj, soft).y as int, 0) == 0);
    assert(fx_mul(pair_dir(pi, pj, soft).z as int, 0) == 0);
    assert(fx_mul(pair_dir(pj, pi, soft).x as int, 0) == 0);
    assert(fx_mul(pair_dir(pj, pi, soft).y as int, 0) == 0);
    assert(fx_mul(pair_dir(pj, pi, soft).z as int, 0) == 0);
}

/// The acceleration increment the exec solver applies to the second member of
/// a pair (`-=` of the direction scaled by force over own mass) equals that
/// member's own pair contribution.
proof fn lemma_pair_accel_other(pi: Vec3Fx, pj: Vec3Fx, mi: int, mj: int, p: GravityParams)
    ensures
        v3_neg(
            v3_scale(
                pair_dir(pi, pj, p.softening_length as int),
                fx_div(pair_force_mag(pi, pj, mi, mj, p), mj),
            ),
        ) == pair_accel(pj, pi, mj, mi, p),
{
    let soft = p.softening_length as int;
    let s = fx_div(pair_force_mag(pi, pj, mi, mj, p), mj);
    lemma_pair_sym(pi, pj, mi, mj, p);
    let dir = pair_dir(pi, pj, soft);
    lemma_v3_ops_wf(v3_sub(pj, pi), v3_sub(pj, pi), fx_div(FX_ONE as int, fx_sqrt(pair_d2(pi, pj, soft))));
    lemma_v3_scale_neg(dir, s);
    assert(pair_dir(pj, pi, soft) == v3_neg(dir));
}

/// Zero every cell's acceleration before accumulating this step's forces.
fn reset_accelerations(state: &mut LatticeState)
    requires
        old(state).dynamics@.len() == old(state).cells@.len(),
    ensures
        final(state).cells@ == old(state).cells@,
        final(state).fields@ == old(state).fields@,
        final(state).dynamics@.len() == old(state).dynamics@.len(),
        forall|i: int|
            0 <= i < final(state).dynamics@.len() ==> #[trigger] final(state).dynamics@[i] == (
            PruDynamics {
                mass: old(state).dynamics@[i].mass,
                velocity: old(state).dynamics@[i].velocity,
                acceleration: v3_zero(),
            }),
{
    let n = state.dynamics.len();
    let ghost dyns0 = state.dynamics@;
    let mut i: usize = 0;
    while i < n
        invariant
            state.cells@ == old(state).cells@,
            state.fields@ == old(state).fields@,
            state.dynamics@.len() == n == dyns0.len(),
            i <= n,
            forall|k: int|
                0 <= k < i ==> #[trigger] state.dynamics@[k] == (PruDynamics {
                    mass: dyns0[k].mass,
                    velocity: dyns0[k].velocity,
                    acceleration: v3_zero(),
                }),
            forall|k: int| i <= k < n ==> #[trigger] state.dynamics@[k] == dyns0[k],
        decreases n - i,
    {
        let d = state.dynamics[i];
        state.dynamics[i] = PruDynamics {
            mass: d.mass,
            velocity: d.velocity,
            acceleration: zero_v3(),
        };
        i = i + 1;
    }
}

/// Pairwise force accumulation: every unordered pair is visited once, and the
/// two members receive exactly opposite force vectors, each rescaled by the
/// receiving cell's own mass.
fn apply_naive_gravity(params: &GravityParams, state: &mut LatticeState)
    requires
        old(state).dynamics@.len() == old(state).cells@.len(),
        forall|i: int|
            0 <= i < old(state).cells@.len() ==> v3_wf(#[trigger] old(state).cells@[i].position),
        forall|i: int|
            0 <= i < old(state).dynamics@.len() ==> #[trigger] old(state).dynamics@[i].acceleration
                == v3_zero(),
    ensures
        final(state).cells@ == old(state).cells@,
        final(state).fields@ == old(state).fields@,
        final(state).dynamics@.len() == old(state).dynamics@.len(),
        forall|i: int|
            0 <= i < final(state).dynamics@.len() ==> #[trigger] final(state).dynamics@[i] == (
            PruDynamics {
                mass: old(state).dynamics@[i].mass,
                velocity: old(state).dynamics@[i].velocity,
                acceleration: naive_accel(
                    old(state).cells@,
                    masses_of(old(state).dynamics@),
                    *params,
                    i,
                ),
            }),
{
    let n = state.cells.len();
    let ghost cells0 = state.cells@;
    let ghost dyns0 = state.dynamics@;
    let ghost masses0 = masses_of(dyns0);
    let mut i: usize = 0;
    while i < n
        invariant
            state.cells@ == cells0,
            state.fields@ == old(state).fields@,
            n == cells0.len(),
            state.dynamics@.len() == n == dyns0.len(),
            masses0 == masses_of(dyns0),
            i <= n,
            forall|c: int|
                0 <= c < n ==> v3_wf(#[trigger] cells0[c].position),
            forall|c: int|
                0 <= c < n ==> (#[trigger] state.dynamics@[c]).mass == dyns0[c].mass
                    && state.dynamics@[c].velocity == dyns0[c].velocity && v3_wf(
                    state.dynamics@[c].acceleration,
                ),
            forall|c: int|
                0 <= c < i ==> #[trigger] state.dynamics@[c].acceleration == naive_accel_prefix(
                    cells0,
                    masses0,
                    *params,
                    c,
                    n as int,
                ),
            forall|c: int|
                i <= c < n ==> #[trigger] state.dynamics@[c].acceleration == naive_accel_prefix(
                    cells0,
                    masses0,
                    *params,
                    c,
                    i as int,
                ),
        decreases n - i,
    {
        let mut j: usize = i + 1;
        while j < n
            invariant
                state.cells@ == cells0,
                state.fields@ == old(state).fields@,
                n == cells0.len(),
                state.dynamics@.len() == n == dyns0.len(),
                masses0 == masses_of(dyns0),
                i < n,
                i < j <= n,
                forall|c: int|
                    0 <= c < n ==> v3_wf(#[trigger] cells0[c].position),
                forall|c: int|
                    0 <= c < n ==> (#[trigger] state.dynamics@[c]).mass == dyns0[c].mass
                        && state.dynamics@[c].velocity == dyns0[c].velocity && v3_wf(
                        state.dynamics@[c].acceleration,
                    ),
                forall|c: int|
                    0 <= c < i ==> #[trigger] state.dynamics@[c].acceleration == naive_accel_prefix(
                        cells0,
                        masses0,
                        *params,
                        c,
                        n as int,
                    ),
                state.dynamics@[i as int].acceleration == naive_accel_prefix(
                    cells0,
                    masses0,
                    *params,
                    i as int,
                    j as int,
                ),
                forall|c: int|
                    i < c < j ==> #[trigger] state.dynamics@[c].acceleration == naive_accel_prefix(
                        cells0,
                        masses0,
                        *params,
                        c,
                        i + 1,
                    ),
                forall|c: int|
                    j <= c < n ==> #[trigger] state.dynamics@[c].acceleration == naive_accel_prefix(
                        cells0,
                        masses0,
                        *params,
                        c,
                        i as int,
                    ),
            decreases n - j,
        {
            let pi_pos = state.cells[i].position;
            let pj_pos = state.cells[j].position;
            let mi = state.dynamics[i].mass;
            let mj = state.dynamics[j].mass;
            let ghost soft = params.softening_length as int;
            proof {
                assert(masses0[i as int] == dyns0[i as int].mass);
                assert(masses0[j as int] == dyns0[j as int].mass);
            }
            let d = sub_v3(pj_pos, pi_pos);
            let d2 = add_fx(
                dot_v3(d, d),
                mul_fx(params.softening_length, params.softening_length),
            );
            let mp = mul_fx(mi, mj);
            proof {
                assert(d2 as int == pair_d2(pi_pos, pj_pos, soft));
            }
            if d2 > 0 && mp > 0 {
                let inv_dist = div_fx(FX_ONE, sqrt_fx(d2));
                let inv_dist3 = mul_fx(mul_fx(inv_dist, inv_dist), inv_dist);
                let force_mag = mul_fx(mul_fx(params.g_effective, mp), inv_dist3);
                let dir = scale_v3(d, inv_dist);
                let accel_a = scale_v3(dir, div_fx(force_mag, mi));
                let accel_b = scale_v3(dir, div_fx(force_mag, mj));
                proof {
                    assert(force_mag as int == pair_force_mag(
                        pi_pos,
                        pj_pos,
                        mi as int,
                        mj as int,
                        *params,
                    ));
                    assert(dir == pair_dir(pi_pos, pj_pos, soft));
                    assert(accel_a == pair_accel(pi_pos, pj_pos, mi as int, mj as int, *params));
                    lemma_v3_ops_wf(d, d, inv_dist as int);
                    lemma_v3_ops_wf(dir, dir, fx_div(force_mag as int, mj as int));
                    lemma_v3_sub_as_add_neg(state.dynamics@[j as int].acceleration, accel_b);
                    lemma_pair_accel_other(pi_pos, pj_pos, mi as int, mj as int, *params);
                }
                let acc_i = state.dynamics[i].acceleration;
                let acc_j = state.dynamics[j].acceleration;
                state.dynamics[i].acceleration = add_v3(acc_i, accel_a);
                state.dynamics[j].acceleration = sub_v3(acc_j, accel_b);
                proof {
                    lemma_v3_ops_wf(acc_i, accel_a, 0);
                    lemma_v3_ops_wf(acc_j, v3_neg(accel_b), 0);
                }
            } else {
                proof {
                    lemma_pair_accel_vanishes(pi_pos, pj_pos, mi as int, mj as int, *params);
                    lemma_v3_add_zero(state.dynamics@[i as int].acceleration);
                    lemma_v3_add_zero(state.dynamics@[j as int].acceleration);
                }
            }
            j = j + 1;
        }
        i = i + 1;
    }
}

/// Clamp an acceleration to the configured magnitude, preserving direction:
/// when the squared length exceeds the squared limit, rescale by the limit
/// over the length.
pub open spec fn clamp_accel(a: Vec3Fx, max_accel: int) -> Vec3Fx {
    let a2 = v3_dot(a, a);
    let max2 = fx_mul(max_accel, max_accel);
    if a2 > max2 {
        v3_scale(a, fx_div(max_accel, fx_sqrt(a2)))
    } else {
        a
    }
}

/// One semi-implicit Euler update of a cell: clamp the accumulated
/// acceleration, step the velocity, damp it, then step the position with the
/// new velocity.
pub open spec fn integrate_cell(c: PruCell, d: PruDynamics, p: GravityParams, dt: int) -> (
    PruCell,
    PruDynamics,
) {
    let accel = clamp_accel(d.acceleration, p.max_acceleration as int);
    let vel_stepped = v3_add(d.velocity, v3_scale(accel, dt));
    let vel = v3_scale(vel_stepped, fx_sub(FX_ONE as int, fx_mul(p.damping as int, dt)));
    let pos = v3_add(c.position, v3_scale(vel, dt));
    (
        PruCell {
            position: pos,
            grid_coords: c.grid_coords,
            ua_mass_lock: c.ua_mass_lock,
            ub_geom_lock: c.ub_geom_lock,
        },
        PruDynamics { mass: d.mass, velocity: vel, acceleration: accel },
    )
}

/// Integrate motion for every cell, strictly after force accumulation.
fn integrate_motion(params: &GravityParams, dt: i64, state: &mut LatticeState)
    requires
        old(state).dynamics@.len() == old(state).cells@.len(),
    ensures
        final(state).fields@ == old(state).fields@,
        final(state).cells@.len() == old(state).cells@.len(),
        final(state).dynamics@.len() == old(state).dynamics@.len(),
        forall|i: int|
            0 <= i < final(state).cells@.len() ==> #[trigger] final(state).cells@[i]
                == integrate_cell(
                old(state).cells@[i],
                old(state).dynamics@[i],
                *params,
                dt as int,
            ).0,
        forall|i: int|
            0 <= i < final(state).dynamics@.len() ==> #[trigger] final(state).dynamics@[i]
                == integrate_cell(
                old(state).cells@[i],
                old(state).dynamics@[i],
                *params,
                dt as int,
            ).1,
{
    let n = state.cells.len();
    let ghost cells0 = state.cells@;
    let ghost dyns0 = state.dynamics@;
    let mut i: usize = 0;
    while i < n
        invariant
            state.fields@ == old(state).fields@,
            state.cells@.len() == n == cells0.len(),
            state.dynamics@.len() == n == dyns0.len(),
            i <= n,
            forall|k: int|
                0 <= k < i ==> #[trigger] state.cells@[k] == integrate_cell(
                    cells0[k],
                    dyns0[k],
                    *params,
                    dt as int,
                ).0,
            forall|k: int|
                0 <= k < i ==> #[trigger] state.dynamics@[k] == integrate_cell(
                    cells0[k],
                    dyns0[k],
                    *params,
                    dt as int,
                ).1,
            forall|k: int| i <= k < n ==> #[trigger] state.cells@[k] == cells0[k],
            forall|k: int| i <= k < n ==> #[trigger] state.dynamics@[k] == dyns0[k],
        decreases n - i,
    {
        let c = state.cells[i];
        let d = state.dynamics[i];
        let a2 = dot_v3(d.acceleration, d.acceleration);
        let max2 = mul_fx(params.max_acceleration, params.max_acceleration);
        let accel = if a2 > max2 {
            scale_v3(d.acceleration, div_fx(params.max_acceleration, sqrt_fx(a2)))
        } else {
            d.acceleration
        };
        let vel_stepped = add_v3(d.velocity, scale_v3(accel, dt));
        let vel = scale_v3(vel_stepped, sub_fx(FX_ONE, mul_fx(params.damping, dt)));
        let pos = add_v3(c.position, scale_v3(vel, dt));
        state.cells[i] = PruCell {
            position: pos,
            grid_coords: c.grid_coords,
            ua_mass_lock: c.ua_mass_lock,
            ub_geom_lock: c.ub_geom_lock,
        };
        state.dynamics[i] = PruDynamics { mass: d.mass, velocity: vel, acceleration: accel };
        i = i + 1;
    }
}

/// The acceleration the enabled solver assigns to cell `i` this step; zero
/// when gravity is disabled.
pub open spec fn step_accel(
    cells: Seq<PruCell>,
    masses: Seq<i64>,
    dims: GridPos,
    spacing: int,
    p: GravityParams,
    i: int,
) -> Vec3Fx {
    if !p.enabled {
        v3_zero()
    } else if p.mode == GravityMode::NaiveNBody {
        naive_accel(cells, masses, p, i)
    } else {
        crate::pru::gravity_relational::relational_accel(cells, masses, dims, spacing, p, i)
    }
}

/// One full fixed step: reset accelerations, accumulate forces with the active
/// solver, then integrate motion.
pub open spec fn gravity_step_state(
    cells: Seq<PruCell>,
    dyns: Seq<PruDynamics>,
    dims: GridPos,
    spacing: int,
    p: GravityParams,
    dt: int,
) -> (Seq<PruCell>, Seq<PruDynamics>) {
    let masses = masses_of(dyns);
    let n = cells.len();
    (
        Seq::new(
            n,
            |i: int|
                integrate_cell(
                    cells[i],
                    PruDynamics {
                        mass: dyns[i].mass,
                        velocity: dyns[i].velocity,
                        acceleration: step_accel(cells, masses, dims, spacing, p, i),
                    },
                    p,
                    dt,
                ).0,
        ),
        Seq::new(
            n,
            |i: int|
                integrate_cell(
                    cells[i],
                    PruDynamics {
                        mass: dyns[i].mass,
                        velocity: dyns[i].velocity,
                        acceleration: step_accel(cells, masses, dims, spacing, p, i),
                    },
                    p,
                    dt,
                ).1,
        ),
    )
}

/// The lattice after `k` fixed steps.
pub open spec fn gravity_steps(
    cells: Seq<PruCell>,
    dyns: Seq<PruDynamics>,
    dims: GridPos,
    spacing: int,
    p: GravityParams,
    dt: int,
    k: nat,
) -> (Seq<PruCell>, Seq<PruDynamics>)
    decreases k,
{
    if k == 0 {
        (cells, dyns)
    } else {
        let prev = gravity_steps(cells, dyns, dims, spacing, p, dt, (k - 1) as nat);
        gravity_step_state(prev.0, prev.1, dims, spacing, p, dt)
    }
}

/// Run `steps` pending fixed steps: each step zeroes accelerations, applies
/// the configured solver (or leaves pure inertial drift when gravity is
/// disabled) and integrates motion with timestep `dt`.
pub fn simulate_gravity_step(
    params: &GravityParams,
    universe: &PruUniverse,
    kernel: &crate::pru::gravity_relational::RelationalKernel,
    steps: u64,
    dt: i64,
    state: &mut LatticeState,
)
    requires
        lattice_wf(*universe, *old(state)),
        crate::pru::gravity_relational::kernel_wf(*kernel, universe.spacing as int),
    ensures
        lattice_wf(*universe, *final(state)),
        final(state).fields@ == old(state).fields@,
        final(state).cells@ == gravity_steps(
            old(state).cells@,
            old(state).dynamics@,
            universe.grid_dimensions,
            universe.spacing as int,
            *params,
            dt as int,
            steps as nat,
        ).0,
        final(state).dynamics@ == gravity_steps(
            old(state).cells@,
            old(state).dynamics@,
            universe.grid_dimensions,
            universe.spacing as int,
            *params,
            dt as int,
            steps as nat,
        ).1,
{
    let ghost orig_cells = state.cells@;
    let ghost orig_dyns = state.dynamics@;
    let ghost dims = universe.grid_dimensions;
    let ghost spacing = universe.spacing as int;
    let mut s: u64 = 0;
    while s < steps
        invariant
            lattice_wf(*universe, *state),
            crate::pru::gravity_relational::kernel_wf(*kernel, universe.spacing as int),
            state.fields@ == old(state).fields@,
            dims == universe.grid_dimensions,
            spacing == universe.spacing as int,
            s <= steps,
            state.cells@ == gravity_steps(
                orig_cells,
                orig_dyns,
                dims,
                spacing,
                *params,
                dt as int,
                s as nat,
            ).0,
            state.dynamics@ == gravity_steps(
                orig_cells,
                orig_dyns,
                dims,
                spacing,
                *params,
                dt as int,
                s as nat,
            ).1,
        decreases steps - s,
    {
        let ghost cells_pre = state.cells@;
        let ghost dyns_pre = state.dynamics@;
        let ghost masses_pre = masses_of(dyns_pre);
        reset_accelerations(state);
        let ghost dyns_reset = state.dynamics@;
        proof {
            assert(masses_of(dyns_reset) =~= masses_pre);
            assert forall|c: int|
                0 <= c < state.dynamics@.len() implies lattice_dyn_wf(
                #[trigger] state.dynamics@[c],
            ) by {
                assert(dyns_pre[c].mass > 0 && v3_wf(dyns_pre[c].velocity));
            }
        }
        if params.enabled {
            match params.mode {
                GravityMode::NaiveNBody => {
                    apply_naive_gravity(params, state);
                },
                GravityMode::RelationalLattice => {
                    crate::pru::gravity_relational::apply_relational_gravity(
                        params,
                        universe,
                        kernel,
                        state,
                    );
                },
            }
        }
        proof {
            assert forall|i: int| 0 <= i < state.dynamics@.len() implies #[trigger] state.dynamics@[i]
                == (PruDynamics {
                mass: dyns_pre[i].mass,
                velocity: dyns_pre[i].velocity,
                acceleration: step_accel(cells_pre, masses_pre, dims, spacing, *params, i),
            }) by {
                assert(dyns_reset[i] == (PruDynamics {
                    mass: dyns_pre[i].mass,
                    velocity: dyns_pre[i].velocity,
                    acceleration: v3_zero(),
                }));
            }
            assert forall|c: int|
                0 <= c < state.dynamics@.len() implies lattice_dyn_wf(
                #[trigger] state.dynamics@[c],
            ) by {
                assert(dyns_pre[c].mass > 0 && v3_wf(dyns_pre[c].velocity));
                lemma_naive_accel_prefix_wf(cells_pre, masses_pre, *params, c, cells_pre.len() as int);
                lemma_relational_accel_wf(cells_pre, masses_pre, dims, spacing, *params, c);
            }
        }
        let ghost dyns_mid = state.dynamics@;
        integrate_motion(params, dt, state);
        proof {
            let stepped = gravity_step_state(cells_pre, dyns_pre, dims, spacing, *params, dt as int);
            assert(state.cells@ =~= stepped.0);
            assert(state.dynamics@ =~= stepped.1);
            assert forall|i: int|
                0 <= i < state.cells@.len() implies crate::pru::universe::lattice_cell_wf(
                universe.grid_dimensions,
                #[trigger] state.cells@[i],
                i,
            ) by {
                assert(state.cells@[i] == integrate_cell(
                    cells_pre[i],
                    dyns_mid[i],
                    *params,
                    dt as int,
                ).0);
                assert(crate::pru::universe::lattice_cell_wf(
                    universe.grid_dimensions,
                    cells_pre[i],
                    i,
                ));
            }
            assert forall|c: int|
                0 <= c < state.dynamics@.len() implies lattice_dyn_wf(
                #[trigger] state.dynamics@[c],
            ) by {
                assert(state.dynamics@[c] == integrate_cell(
                    cells_pre[c],
                    dyns_mid[c],
                    *params,
                    dt as int,
                ).1);
                assert(dyns_mid[c].mass > 0 && v3_wf(dyns_mid[c].acceleration));
            }
        }
        s = s + 1;
    }
}

/// Rolling energy diagnostics for the gravity simulation. Recomputed from
/// scratch each pass; the initial total is captured once and frozen.
#[derive(Clone, Copy, Debug, PartialEq, Eq)]
pub struct SimulationEnergy {
    pub kinetic: i64,
    pub potential: i64,
    pub total: i64,
    pub initial_total: Option<i64>,
    pub relative_drift: Option<i64>,
}

impl Default for SimulationEnergy {
    fn default() -> (e: Self)
        ensures
            e == (SimulationEnergy {
                kinetic: 0,
                potential: 0,
                total: 0,
                initial_total: None,
                relative_drift: None,
            }),
    {
        SimulationEnergy {
            kinetic: 0,
            potential: 0,
            total: 0,
            initial_total: None,
            relative_drift: None,
        }
    }
}

/// Total kinetic energy of the first `k` cells: half the mass times the
/// squared speed, accumulated in index order.
pub open spec fn kinetic_prefix(dyns: Seq<PruDynamics>, k: int) -> int
    decreases k,
{
    if k <= 0 {
        0
    } else {
        fx_add(
            kinetic_prefix(dyns, k - 1),
            fx_mul(
                fx_mul(FX_HALF as int, dyns[k - 1].mass as int),
                v3_dot(dyns[k - 1].velocity, dyns[k - 1].velocity),
            ),
        )
    }
}

pub open spec fn kinetic_total(dyns: Seq<PruDynamics>) -> int {
    kinetic_prefix(dyns, dyns.len() as int)
}

/// Potential energy of one pair: minus the gravitational constant times the
/// mass product over the softened distance; zero at zero distance.
pub open spec fn pair_potential(ci: PruCell, cj: PruCell, mi: int, mj: int, p: GravityParams) -> int {
    let soft = p.softening_length as int;
    let dist = fx_sqrt(fx_add(dist2(cj.position, ci.position), fx_mul(soft, soft)));
    if dist > 0 {
        fx_div(fx_mul(fx_mul(fx_neg(p.g_effective as int), mi), mj), dist)
    } else {
        0
    }
}

/// Potential contributions of the pairs `(i, i+1) .. (i, j-1)` accumulated
/// onto `acc` in index order.
pub open spec fn potential_row(
    cells: Seq<PruCell>,
    dyns: Seq<PruDynamics>,
    p: GravityParams,
    i: int,
    j: int,
    acc: int,
) -> int
    decreases j - i,
{
    if j <= i + 1 {
        acc
    } else {
        fx_add(
            potential_row(cells, dyns, p, i, j - 1, acc),
            pair_potential(
                cells[i],
                cells[j - 1],
                dyns[i].mass as int,
                dyns[j - 1].mass as int,
                p,
            ),
        )
    }
}

/// Potential energy accumulated over all unordered pairs whose first member is
/// below `i`, visited in the solver's pair order.
pub open spec fn potential_rows(cells: Seq<PruCell>, dyns: Seq<PruDynamics>, p: GravityParams, i: int) -> int
    decreases i,
{
    if i <= 0 {
        0
    } else {
        potential_row(cells, dyns, p, i - 1, cells.len() as int, potential_rows(cells, dyns, p, i - 1))
    }
}

/// Total pairwise potential energy, independent of the active solver mode.
pub open spec fn potential_total(cells: Seq<PruCell>, dyns: Seq<PruDynamics>, p: GravityParams) -> int {
    potential_rows(cells, dyns, p, cells.len() as int)
}

/// Compute kinetic and potential energy diagnostics.
///
/// The first time the total is nonzero (the fixed-point quantum exceeds the
/// capture threshold, so any nonzero total qualifies), it is captured as the
/// frozen initial total; once an initial total is set and nonzero, the
/// relative drift `(total - initial) / initial` is recomputed every pass.
pub fn compute_energy_metrics(
    params: &GravityParams,
    energy: &mut SimulationEnergy,
    state: &LatticeState,
)
    requires
        state.dynamics@.len() == state.cells@.len(),
    ensures
        final(energy).kinetic as int == kinetic_total(state.dynamics@),
        final(energy).potential as int == potential_total(state.cells@, state.dynamics@, *params),
        final(energy).total as int == fx_add(
            kinetic_total(state.dynamics@),
            potential_total(state.cells@, state.dynamics@, *params),
        ),
        final(energy).initial_total == (if old(energy).initial_total is None
            && final(energy).total != 0 {
            Some(final(energy).total)
        } else {
            old(energy).initial_total
        }),
        final(energy).relative_drift == (match final(energy).initial_total {
            Some(init) => if init != 0 {
                Some(
                    fx_div(
                        fx_sub(final(energy).total as int, init as int),
                        init as int,
                    ) as i64,
                )
            } else {
                old(energy).relative_drift
            },
            None => old(energy).relative_drift,
        }),
{
    let n = state.cells.len();
    let mut kinetic: i64 = 0;
    let mut i: usize = 0;
    while i < n
        invariant
            state.dynamics@.len() == n == state.cells@.len(),
            i <= n,
            kinetic as int == kinetic_prefix(state.dynamics@, i as int),
        decreases n - i,
    {
        let d = state.dynamics[i];
        kinetic = add_fx(kinetic, mul_fx(mul_fx(FX_HALF, d.mass), dot_v3(d.velocity, d.velocity)));
        i = i + 1;
    }
    let mut potential: i64 = 0;
    let mut a: usize = 0;
    while a < n
        invariant
            state.dynamics@.len() == n == state.cells@.len(),
            a <= n,
            potential as int == potential_rows(state.cells@, state.dynamics@, *params, a as int),
        decreases n - a,
    {
        let mut b: usize = a + 1;
        while b < n
            invariant
                state.dynamics@.len() == n == state.cells@.len(),
                a < b <= n,
                a < n,
                potential as int == potential_row(
                    state.cells@,
                    state.dynamics@,
                    *params,
                    a as int,
                    b as int,
                    potential_rows(state.cells@, state.dynamics@, *params, a as int),
                ),
            decreases n - b,
        {
            let ca = state.cells[a];
            let cb = state.cells[b];
            let soft2 = mul_fx(params.softening_length, params.softening_length);
            let dist = sqrt_fx(add_fx(dist2_v3(cb.position, ca.position), soft2));
            if dist > 0 {
                let term = div_fx(
                    mul_fx(
                        mul_fx(neg_fx(params.g_effective), state.dynamics[a].mass),
                        state.dynamics[b].mass,
                    ),
                    dist,
                );
                potential = add_fx(potential, term);
            }
            b = b + 1;
        }
        a = a + 1;
    }
    energy.kinetic = kinetic;
    energy.potential = potential;
    energy.total = add_fx(kinetic, potential);
    if energy.initial_total.is_none() && energy.total != 0 {
        energy.initial_total = Some(energy.total);
    }
    if let Some(initial) = energy.initial_total {
        if initial != 0 {
            energy.relative_drift = Some(div_fx(sub_fx(energy.total, initial), initial));
        }
    }
}

/// Accumulated pair contributions are always representable vectors.
proof fn lemma_naive_accel_prefix_wf(
    cells: Seq<PruCell>,
    masses: Seq<i64>,
    p: GravityParams,
    i: int,
    k: int,
)
    ensures
        v3_wf(naive_accel_prefix(cells, masses, p, i, k)),
    decreases k,
{
    if k > 0 {
        lemma_naive_accel_prefix_wf(cells, masses, p, i, k - 1);
    }
}

/// Accumulated stencil contributions are always representable vectors.
proof fn lemma_relational_accel_wf(
    cells: Seq<PruCell>,
    masses: Seq<i64>,
    dims: GridPos,
    spacing: int,
    p: GravityParams,
    i: int,
)
    ensures
        v3_wf(
            crate::pru::gravity_relational::relational_accel(cells, masses, dims, spacing, p, i),
        ),
{
    lemma_relational_accel_prefix_wf(cells, masses, dims, spacing, p, i, 6);
}

proof fn lemma_relational_accel_prefix_wf(
    cells: Seq<PruCell>,
    masses: Seq<i64>,
    dims: GridPos,
    spacing: int,
    p: GravityParams,
    i: int,
    k: int,
)
    ensures
        v3_wf(
            crate::pru::gravity_relational::relational_accel_prefix(
                cells,
                masses,
                dims,
                spacing,
                p,
                i,
                k,
            ),
        ),
    decreases k,
{
    if k > 0 {
        lemma_relational_accel_prefix_wf(cells, masses, dims, spacing, p, i, k - 1);
    }
}

} // verus!
