//! The relational lattice gravity solver: a precomputed six-neighbor stencil
//! whose weights are derived once from the lattice spacing, so each step costs
//! one table walk per cell instead of an all-pairs solve.

use vstd::prelude::*;

use crate::fixed::{
    add_fx, div_fx, fx_add, fx_div, fx_max, fx_mul, fx_neg, fx_sqrt, max_fx, mul_fx, neg_fx,
    sqrt_fx, FX_ONE,
};
use crate::pru::cell::{GridPos, PruCell, PruDynamics};
use crate::pru::universe::{
    index_of, index_of_exec, lattice_wf, volume, LatticeState, PruUniverse,
};
use crate::pru::gravity::{masses_of, GravityParams};
use crate::vector::{add_v3, scale_v3, v3_add, v3_scale, v3_wf, v3_zero, zero_v3, Vec3Fx};

verus! {

/// Floor on the squared stencil distance before inversion.
pub const KERNEL_D2_FLOOR: i64 = 60;

/// A discrete lattice jump to one of the six axis neighbors.
#[derive(Clone, Copy, Debug, PartialEq, Eq, Structural)]
pub struct GridOffset {
    pub x: i32,
    pub y: i32,
    pub z: i32,
}

/// The fixed lattice connectivity: the six axis-aligned unit offsets, in the
/// order the solver walks them.
pub open spec fn kernel_offset(k: int) -> GridOffset {
    if k == 0 {
        GridOffset { x: 1, y: 0, z: 0 }
    } else if k == 1 {
        GridOffset { x: -1i32, y: 0, z: 0 }
    } else if k == 2 {
        GridOffset { x: 0, y: 1, z: 0 }
    } else if k == 3 {
        GridOffset { x: 0, y: -1i32, z: 0 }
    } else if k == 4 {
        GridOffset { x: 0, y: 0, z: 1 }
    } else {
        GridOffset { x: 0, y: 0, z: -1i32 }
    }
}

/// Scalar magnitude of a stencil weight: the inverse cube of the neighbor
/// distance, with the squared distance floored away from zero.
pub open spec fn kernel_weight_scalar(spacing: int) -> int {
    let d2 = fx_max(fx_mul(spacing, spacing), KERNEL_D2_FLOOR as int);
    fx_div(FX_ONE as int, fx_mul(d2, fx_sqrt(d2)))
}

/// Directed weight vector of the `k`-th stencil entry: the unit direction of
/// the offset scaled by the inverse-cube magnitude.
pub open spec fn kernel_weight(spacing: int, k: int) -> Vec3Fx {
    let w = kernel_weight_scalar(spacing);
    let wn = fx_neg(w);
    if k == 0 {
        Vec3Fx { x: w as i64, y: 0, z: 0 }
    } else if k == 1 {
        Vec3Fx { x: wn as i64, y: 0, z: 0 }
    } else if k == 2 {
        Vec3Fx { x: 0, y: w as i64, z: 0 }
    } else if k == 3 {
        Vec3Fx { x: 0, y: wn as i64, z: 0 }
    } else if k == 4 {
        Vec3Fx { x: 0, y: 0, z: w as i64 }
    } else {
        Vec3Fx { x: 0, y: 0, z: wn as i64 }
    }
}

/// Lookup-table weights derived once from the lattice spacing; immutable
/// thereafter and shared read-only by the solver.
#[derive(Clone, Debug)]
pub struct RelationalKernel {
    pub offsets: Vec<GridOffset>,
    pub weights: Vec<Vec3Fx>,
}

/// The kernel holds exactly the six canonical offsets and their
/// spacing-derived weights.
pub open spec fn kernel_wf(kr: RelationalKernel, spacing: int) -> bool {
    &&& kr.offsets@.len() == 6
    &&& kr.weights@.len() == 6
    &&& forall|k: int| 0 <= k < 6 ==> #[trigger] kr.offsets@[k] == kernel_offset(k)
    &&& forall|k: int| 0 <= k < 6 ==> #[trigger] kr.weights@[k] == kernel_weight(spacing, k)
}

impl RelationalKernel {
    pub fn new(spacing: i64) -> (kr: RelationalKernel)
        ensures
            kernel_wf(kr, spacing as int),
    {
        let d2 = max_fx(mul_fx(spacing, spacing), KERNEL_D2_FLOOR);
        let w = div_fx(FX_ONE, mul_fx(d2, sqrt_fx(d2)));
        let wn = neg_fx(w);
        let mut offsets: Vec<GridOffset> = Vec::new();
        let mut weights: Vec<Vec3Fx> = Vec::new();
        offsets.push(GridOffset { x: 1, y: 0, z: 0 });
        offsets.push(GridOffset { x: -1i32, y: 0, z: 0 });
        offsets.push(GridOffset { x: 0, y: 1, z: 0 });
        offsets.push(GridOffset { x: 0, y: -1i32, z: 0 });
        offsets.push(GridOffset { x: 0, y: 0, z: 1 });
        offsets.push(GridOffset { x: 0, y: 0, z: -1i32 });
        weights.push(Vec3Fx { x: w, y: 0, z: 0 });
        weights.push(Vec3Fx { x: wn, y: 0, z: 0 });
        weights.push(Vec3Fx { x: 0, y: w, z: 0 });
        weights.push(Vec3Fx { x: 0, y: wn, z: 0 });
        weights.push(Vec3Fx { x: 0, y: 0, z: w });
        weights.push(Vec3Fx { x: 0, y: 0, z: wn });
        RelationalKernel { offsets, weights }
    }
}

/// Build the kernel for a universe's spacing.
pub fn initialize_relational_kernel(universe: &PruUniverse) -> (kr: RelationalKernel)
    ensures
        kernel_wf(kr, universe.spacing as int),
{
    RelationalKernel::new(universe.spacing)
}

/// Signed lattice coordinates of the `k`-th axis neighbor of `c`.
pub open spec fn neighbor_coords(c: GridPos, k: int) -> (int, int, int) {
    let o = kernel_offset(k);
    (c.x as int + o.x as int, c.y as int + o.y as int, c.z as int + o.z as int)
}

pub open spec fn neighbor_in_bounds(nc: (int, int, int), dims: GridPos) -> bool {
    &&& 0 <= nc.0 < (dims.x as int)
    &&& 0 <= nc.1 < (dims.y as int)
    &&& 0 <= nc.2 < (dims.z as int)
}

/// Row-major linear index of signed neighbor coordinates.
pub open spec fn neighbor_index(nc: (int, int, int), dims: GridPos) -> int {
    nc.0 * (dims.y as int) * (dims.z as int) + nc.1 * (dims.z as int) + nc.2
}

/// Uniform gain damper applied to every stencil contribution: one over one
/// plus the softening length.
pub open spec fn softened_gain(p: GravityParams) -> int {
    fx_div(FX_ONE as int, fx_add(FX_ONE as int, fx_max(p.softening_length as int, 0)))
}

/// Acceleration of cell `i` accumulated from the first `k` stencil entries:
/// out-of-bounds neighbors contribute nothing.
pub open spec fn relational_accel_prefix(
    cells: Seq<PruCell>,
    masses: Seq<i64>,
    dims: GridPos,
    spacing: int,
    p: GravityParams,
    i: int,
    k: int,
) -> Vec3Fx
    decreases k,
{
    if k <= 0 {
        v3_zero()
    } else {
        let prev = relational_accel_prefix(cells, masses, dims, spacing, p, i, k - 1);
        let nc = neighbor_coords(cells[i].grid_coords, k - 1);
        if neighbor_in_bounds(nc, dims) {
            let nm = masses[neighbor_index(nc, dims)] as int;
            v3_add(
                prev,
                v3_scale(
                    kernel_weight(spacing, k - 1),
                    fx_mul(fx_mul(p.g_effective as int, nm), softened_gain(p)),
                ),
            )
        } else {
            prev
        }
    }
}

/// Acceleration of cell `i` under the relational solver: a function of the
/// cell's own lattice coordinates and its six axis neighbors' masses alone.
pub open spec fn relational_accel(
    cells: Seq<PruCell>,
    masses: Seq<i64>,
    dims: GridPos,
    spacing: int,
    p: GravityParams,
    i: int,
) -> Vec3Fx {
    relational_accel_prefix(cells, masses, dims, spacing, p, i, 6)
}

/// The relational solver is strictly local: the acceleration of a cell depends
/// only on the cell's own lattice coordinates and the masses of its six axis
/// neighbors. Any change to a non-neighbor cell's mass leaves it untouched.
pub proof fn lemma_relational_locality(
    cells1: Seq<PruCell>,
    masses1: Seq<i64>,
    cells2: Seq<PruCell>,
    masses2: Seq<i64>,
    dims: GridPos,
    spacing: int,
    p: GravityParams,
    i: int,
)
    requires
        cells1[i].grid_coords == cells2[i].grid_coords,
        forall|k: int|
            0 <= k < 6 && neighbor_in_bounds(
                #[trigger] neighbor_coords(cells1[i].grid_coords, k),
                dims,
            ) ==> masses1[neighbor_index(neighbor_coords(cells1[i].grid_coords, k), dims)]
                == masses2[neighbor_index(neighbor_coords(cells1[i].grid_coords, k), dims)],
    ensures
        relational_accel(cells1, masses1, dims, spacing, p, i) == relational_accel(
            cells2,
            masses2,
            dims,
            spacing,
            p,
            i,
        ),
{
    assert forall|k: int| 0 <= k <= 6 implies relational_accel_prefix(
        cells1,
        masses1,
        dims,
        spacing,
        p,
        i,
        k,
    ) == relational_accel_prefix(cells2, masses2, dims, spacing, p, i, k) by {
        lemma_relational_prefix_local(cells1, masses1, cells2, masses2, dims, spacing, p, i, k);
    }
}

proof fn lemma_relational_prefix_local(
    cells1: Seq<PruCell>,
    masses1: Seq<i64>,
    cells2: Seq<PruCell>,
    masses2: Seq<i64>,
    dims: GridPos,
    spacing: int,
    p: GravityParams,
    i: int,
    k: int,
)
    requires
        0 <= k <= 6,
        cells1[i].grid_coords == cells2[i].grid_coords,
        forall|m: int|
            0 <= m < 6 && neighbor_in_bounds(
                #[trigger] neighbor_coords(cells1[i].grid_coords, m),
                dims,
            ) ==> masses1[neighbor_index(neighbor_coords(cells1[i].grid_coords, m), dims)]
                == masses2[neighbor_index(neighbor_coords(cells1[i].grid_coords, m), dims)],
    ensures
        relational_accel_prefix(cells1, masses1, dims, spacing, p, i, k)
            == relational_accel_prefix(cells2, masses2, dims, spacing, p, i, k),
    decreases k,
{
    if k > 0 {
        lemma_relational_prefix_local(cells1, masses1, cells2, masses2, dims, spacing, p, i, k - 1);
    }
}

/// Compute gravity for every cell from the precomputed kernel and the current
/// mass field on the lattice: each cell's acceleration is overwritten with the
/// weighted sum of its in-bounds axis neighbors' mass contributions.
pub fn apply_relational_gravity(
    params: &GravityParams,
    universe: &PruUniverse,
    kernel: &RelationalKernel,
    state: &mut LatticeState,
)
    requires
        lattice_wf(*universe, *old(state)),
        kernel_wf(*kernel, universe.spacing as int),
    ensures
        lattice_wf(*universe, *final(state)),
        final(state).cells@ == old(state).cells@,
        final(state).fields@ == old(state).fields@,
        final(state).dynamics@.len() == old(state).dynamics@.len(),
        forall|i: int|
            0 <= i < final(state).dynamics@.len() ==> #[trigger] final(state).dynamics@[i] == (
            PruDynamics {
                mass: old(state).dynamics@[i].mass,
                velocity: old(state).dynamics@[i].velocity,
                acceleration: relational_accel(
                    old(state).cells@,
                    masses_of(old(state).dynamics@),
                    universe.grid_dimensions,
                    universe.spacing as int,
                    *params,
                    i,
                ),
            }),
{
    let n = state.cells.len();
    let ghost cells0 = state.cells@;
    let ghost dyns0 = state.dynamics@;
    let ghost masses0 = masses_of(dyns0);
    let dims = universe.grid_dimensions;
    let gain = div_fx(FX_ONE, add_fx(FX_ONE, max_fx(params.softening_length, 0)));
    let mut i: usize = 0;
    while i < n
        invariant
            lattice_wf(*universe, *state),
            state.cells@ == cells0,
            state.fields@ == old(state).fields@,
            n == cells0.len(),
            state.dynamics@.len() == n == dyns0.len(),
            masses0 == masses_of(dyns0),
            dims == universe.grid_dimensions,
            gain as int == softened_gain(*params),
            kernel_wf(*kernel, universe.spacing as int),
            i <= n,
            forall|c: int|
                0 <= c < i ==> #[trigger] state.dynamics@[c] == (PruDynamics {
                    mass: dyns0[c].mass,
                    velocity: dyns0[c].velocity,
                    acceleration: relational_accel(
                        cells0,
                        masses0,
                        dims,
                        universe.spacing as int,
                        *params,
                        c,
                    ),
                }),
            forall|c: int| i <= c < n ==> #[trigger] state.dynamics@[c] == dyns0[c],
        decreases n - i,
    {
        let coords = state.cells[i].grid_coords;
        let mut accel = zero_v3();
        let mut k: usize = 0;
        while k < 6
            invariant
                state.cells@ == cells0,
                n == cells0.len(),
                state.dynamics@.len() == n == dyns0.len(),
                masses0 == masses_of(dyns0),
                dims == universe.grid_dimensions,
                dims.x <= 1024,
                dims.y <= 1024,
                dims.z <= 1024,
                n == volume(dims),
                gain as int == softened_gain(*params),
                kernel_wf(*kernel, universe.spacing as int),
                i < n,
                k <= 6,
                coords == cells0[i as int].grid_coords,
                v3_wf(accel),
                forall|c: int|
                    0 <= c < n ==> (#[trigger] state.dynamics@[c]).mass == dyns0[c].mass,
                accel == relational_accel_prefix(
                    cells0,
                    masses0,
                    dims,
                    universe.spacing as int,
                    *params,
                    i as int,
                    k as int,
                ),
            decreases 6 - k,
        {
            let off = kernel.offsets[k];
            let nx = coords.x as i64 + off.x as i64;
            let ny = coords.y as i64 + off.y as i64;
            let nz = coords.z as i64 + off.z as i64;
            if 0 <= nx && nx < dims.x as i64 && 0 <= ny && ny < dims.y as i64 && 0 <= nz && nz
                < dims.z as i64 {
                let nc = GridPos { x: nx as u32, y: ny as u32, z: nz as u32 };
                proof {
                    assert(index_of(nc, dims) == neighbor_index(
                        neighbor_coords(coords, k as int),
                        dims,
                    ));
                }
                let idx = index_of_exec(nc, dims);
                let neighbor_mass = state.dynamics[idx].mass;
                proof {
                    assert(masses0[idx as int] == dyns0[idx as int].mass);
                }
                let w = kernel.weights[k];
                let term = scale_v3(w, mul_fx(mul_fx(params.g_effective, neighbor_mass), gain));
                proof {
                    crate::vector::lemma_v3_ops_wf(accel, term, 0);
                }
                accel = add_v3(accel, term);
            }
            k = k + 1;
        }
        let d = state.dynamics[i];
        let ghost prev_dyns = state.dynamics@;
        state.dynamics[i] = PruDynamics { mass: d.mass, velocity: d.velocity, acceleration: accel };
        proof {
            assert forall|c: int|
                0 <= c < state.dynamics@.len() implies crate::pru::universe::lattice_dyn_wf(
                #[trigger] state.dynamics@[c],
            ) by {
                if c != i as int {
                    assert(state.dynamics@[c] == prev_dyns[c]);
                }
            }
        }
        i = i + 1;
    }
}

} // verus!
