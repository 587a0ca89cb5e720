//! The universe configuration, the lattice state it describes, and the
//! derived-field pass.

use vstd::prelude::*;

use vstd::arithmetic::div_mod::{
    lemma_fundamental_div_mod_converse_div, lemma_fundamental_div_mod_converse_mod,
};

use crate::fixed::{
    abs_fx, add_fx, clip, div_fx, exp_neg_fx, fx_abs, fx_add, fx_div, fx_exp_neg, fx_max, fx_min,
    fx_mul, fx_sub, lemma_fx_exp_neg_bounds, lemma_fx_mul_nonneg, max_fx, min_fx, mul_fx, sub_fx,
    tdiv, tdiv_fx, FX_HALF, FX_MAX, FX_MIN, FX_ONE,
};
use crate::pru::cell::{DerivedFields, GridPos, PruCell, PruDynamics};
use crate::vector::{
    dist2, dist2_v3, lemma_v3_dot_self_nonneg, v3_wf, v3_zero, zero_v3, Vec3Fx,
};

verus! {

/// The smoothing radius is 2.5 lattice spacings.
pub const SMOOTHING_FACTOR: i64 = 150_000_000;

/// Floor on the half smoothing radius before inversion (0.0001 world units).
pub const SMOOTHING_EPS: i64 = 6_000;

/// Smallest mass-lock value drawn at setup (0.4 world units).
pub const MASS_LOCK_MIN: i64 = 24_000_000;

/// Exclusive upper bound on the mass lock drawn at setup (1.6 world units).
pub const MASS_LOCK_MAX: i64 = 96_000_000;

/// Effective masses are floored at 0.05 world units.
pub const MASS_FLOOR: i64 = 3_000_000;

/// Initial velocity components are drawn from `[-0.05, 0.05)` world units.
pub const VEL_JITTER: i64 = 3_000_000;

/// High-level configuration of the lattice universe.
#[derive(Clone, Debug)]
pub struct PruUniverse {
    /// Discrete grid dimensions of the lattice.
    pub grid_dimensions: GridPos,
    /// World-space spacing between adjacent cells.
    pub spacing: i64,
    /// Base fixed delta time per tick (seconds).
    pub base_dt: i64,
    /// Aggregate count of spawned cells.
    pub total_cells: usize,
    /// Whether macro-gravity is enabled for dynamic motion.
    pub gravity_enabled: bool,
}

impl PruUniverse {
    /// Construct a new universe description with zeroed counters.
    pub fn new(grid_dimensions: GridPos, spacing: i64, base_dt: i64) -> (u: PruUniverse)
        ensures
            u == (PruUniverse {
                grid_dimensions,
                spacing,
                base_dt,
                total_cells: 0,
                gravity_enabled: true,
            }),
    {
        PruUniverse { grid_dimensions, spacing, base_dt, total_cells: 0, gravity_enabled: true }
    }
}

/// The cells of the lattice with their dynamical state and derived fields,
/// held in parallel arrays indexed consistently.
#[derive(Clone, Debug)]
pub struct LatticeState {
    pub cells: Vec<PruCell>,
    pub dynamics: Vec<PruDynamics>,
    pub fields: Vec<DerivedFields>,
}

pub open spec fn in_dims(c: GridPos, dims: GridPos) -> bool {
    &&& (c.x as int) < (dims.x as int)
    &&& (c.y as int) < (dims.y as int)
    &&& (c.z as int) < (dims.z as int)
}

/// Row-major linear index of lattice coordinates.
pub open spec fn index_of(c: GridPos, dims: GridPos) -> int {
    (c.x as int) * (dims.y as int) * (dims.z as int) + (c.y as int) * (dims.z as int) + (
    c.z as int)
}

pub open spec fn volume(dims: GridPos) -> int {
    (dims.x as int) * (dims.y as int) * (dims.z as int)
}

pub open spec fn lattice_cell_wf(dims: GridPos, c: PruCell, i: int) -> bool {
    &&& in_dims(c.grid_coords, dims)
    &&& index_of(c.grid_coords, dims) == i
    &&& v3_wf(c.position)
}

pub open spec fn lattice_dyn_wf(d: PruDynamics) -> bool {
    &&& d.mass > 0
    &&& v3_wf(d.velocity)
    &&& v3_wf(d.acceleration)
}

/// Well-formedness of a lattice state against its universe configuration: the
/// three arrays are parallel, the cells fill the dense rectangular lattice in
/// row-major order (so grid coordinates are unique per cell), masses are
/// positive, and all vectors are representable.
pub open spec fn lattice_wf(u: PruUniverse, s: LatticeState) -> bool {
    &&& s.dynamics@.len() == s.cells@.len()
    &&& s.fields@.len() == s.cells@.len()
    &&& s.cells@.len() == volume(u.grid_dimensions)
    &&& u.grid_dimensions.x <= 1024
    &&& u.grid_dimensions.y <= 1024
    &&& u.grid_dimensions.z <= 1024
    &&& u.spacing > 0
    &&& forall|i: int|
        0 <= i < s.cells@.len() ==> lattice_cell_wf(u.grid_dimensions, #[trigger] s.cells@[i], i)
    &&& forall|i: int| 0 <= i < s.cells@.len() ==> lattice_dyn_wf(#[trigger] s.dynamics@[i])
}

/// Compute the row-major linear index of in-bounds coordinates.
pub fn index_of_exec(c: GridPos, dims: GridPos) -> (idx: usize)
    requires
        in_dims(c, dims),
        dims.x <= 1024,
        dims.y <= 1024,
        dims.z <= 1024,
    ensures
        idx as int == index_of(c, dims),
        0 <= index_of(c, dims) < volume(dims),
{
    proof {
        lemma_index_of_bounds(c, dims);
        lemma_volume_bound(dims);
        assert(0 <= (c.x as int) * (dims.y as int) <= 0x100000) by (nonlinear_arith)
            requires
                0 <= (c.x as int) <= 1024,
                0 <= (dims.y as int) <= 1024,
        ;
        assert(0 <= (c.x as int) * (dims.y as int) * (dims.z as int) <= 0x40000000)
            by (nonlinear_arith)
            requires
                0 <= (c.x as int) * (dims.y as int) <= 0x100000,
                0 <= (dims.z as int) <= 1024,
        ;
        assert(0 <= (c.y as int) * (dims.z as int) <= 0x100000) by (nonlinear_arith)
            requires
                0 <= (c.y as int) <= 1024,
                0 <= (dims.z as int) <= 1024,
        ;
    }
    ((c.x as u64) * (dims.y as u64) * (dims.z as u64) + (c.y as u64) * (dims.z as u64) + (
    c.z as u64)) as usize
}

/// A lattice of bounded dimensions holds at most `2^30` cells.
pub proof fn lemma_volume_bound(dims: GridPos)
    requires
        dims.x <= 1024,
        dims.y <= 1024,
        dims.z <= 1024,
    ensures
        volume(dims) <= 0x40000000,
{
    assert((dims.x as int) * (dims.y as int) * (dims.z as int) <= 0x40000000) by (nonlinear_arith)
        requires
            0 <= (dims.x as int) <= 1024,
            0 <= (dims.y as int) <= 1024,
            0 <= (dims.z as int) <= 1024,
    ;
}

/// The linear index of in-bounds coordinates lies within the lattice volume.
pub proof fn lemma_index_of_bounds(c: GridPos, dims: GridPos)
    requires
        in_dims(c, dims),
    ensures
        0 <= index_of(c, dims) < volume(dims),
{
    let cx = c.x as int;
    let cy = c.y as int;
    let cz = c.z as int;
    let dx = dims.x as int;
    let dy = dims.y as int;
    let dz = dims.z as int;
    assert(0 <= cx * dy * dz + cy * dz + cz < dx * dy * dz) by (nonlinear_arith)
        requires
            0 <= cx < dx,
            0 <= cy < dy,
            0 <= cz < dz,
    ;
}

/// The linear index is injective on in-bounds coordinates.
pub proof fn lemma_index_of_injective(a: GridPos, b: GridPos, dims: GridPos)
    requires
        in_dims(a, dims),
        in_dims(b, dims),
        index_of(a, dims) == index_of(b, dims),
    ensures
        a == b,
{
    let i = index_of(a, dims);
    let dy = dims.y as int;
    let dz = dims.z as int;
    let qa = (a.x as int) * dy + (a.y as int);
    let qb = (b.x as int) * dy + (b.y as int);
    assert(i == qa * dz + (a.z as int)) by (nonlinear_arith)
        requires
            i == (a.x as int) * dy * dz + (a.y as int) * dz + (a.z as int),
            qa == (a.x as int) * dy + (a.y as int),
    ;
    assert(i == qb * dz + (b.z as int)) by (nonlinear_arith)
        requires
            i == (b.x as int) * dy * dz + (b.y as int) * dz + (b.z as int),
            qb == (b.x as int) * dy + (b.y as int),
    ;
    lemma_fundamental_div_mod_converse_div(i, dz, qa, a.z as int);
    lemma_fundamental_div_mod_converse_mod(i, dz, qa, a.z as int);
    lemma_fundamental_div_mod_converse_div(i, dz, qb, b.z as int);
    lemma_fundamental_div_mod_converse_mod(i, dz, qb, b.z as int);
    assert(a.z == b.z && qa == qb);
    lemma_fundamental_div_mod_converse_div(qa, dy, a.x as int, a.y as int);
    lemma_fundamental_div_mod_converse_mod(qa, dy, a.x as int, a.y as int);
    lemma_fundamental_div_mod_converse_div(qb, dy, b.x as int, b.y as int);
    lemma_fundamental_div_mod_converse_mod(qb, dy, b.x as int, b.y as int);
}

#[verifier::external_type_specification]
#[verifier::external_body]
pub struct ExStdRng(rand::rngs::StdRng);

/// Relies on rand's `SeedableRng::seed_from_u64`: creates a generator from the
/// given seed.
#[verifier::external_body]
fn seed_rng(seed: u64) -> rand::rngs::StdRng {
    <rand::rngs::StdRng as rand::SeedableRng>::seed_from_u64(seed)
}

/// Relies on rand's `Rng::gen_range` on a half-open `i64` range: returns a
/// sample within the range, and panics only when the range is empty, which the
/// precondition excludes.
#[verifier::external_body]
fn gen_range_fx(rng: &mut rand::rngs::StdRng, lo: i64, hi: i64) -> (r: i64)
    requires
        lo < hi,
    ensures
        lo <= r < hi,
{
    rand::Rng::gen_range(rng, lo..hi)
}

/// World coordinate of lattice index `c` along an axis of `d` cells: the cell
/// is placed at `c * spacing` and the whole axis is centered on the origin.
pub open spec fn axis_position(c: int, d: int, spacing: int) -> int {
    fx_sub(
        fx_mul(c * (FX_ONE as int), spacing),
        fx_mul(fx_mul((d - 1) * (FX_ONE as int), FX_HALF as int), spacing),
    )
}

/// Centered world position of a lattice cell.
pub open spec fn lattice_position(c: GridPos, dims: GridPos, spacing: int) -> Vec3Fx {
    Vec3Fx {
        x: axis_position(c.x as int, dims.x as int, spacing) as i64,
        y: axis_position(c.y as int, dims.y as int, spacing) as i64,
        z: axis_position(c.z as int, dims.z as int, spacing) as i64,
    }
}

fn axis_position_exec(c: u32, d: u32, spacing: i64) -> (r: i64)
    requires
        c < d <= 1024,
    ensures
        r as int == axis_position(c as int, d as int, spacing as int),
{
    let cell_fx: i64 = (c as i64) * FX_ONE;
    let span_fx: i64 = ((d - 1) as i64) * FX_ONE;
    let offset = mul_fx(mul_fx(span_fx, FX_HALF), spacing);
    sub_fx(mul_fx(cell_fx, spacing), offset)
}

/// Everything setup establishes for one cell and its parallel entries.
pub open spec fn setup_cell_ok(
    dims: GridPos,
    spacing: int,
    c: PruCell,
    d: PruDynamics,
    f: DerivedFields,
    i: int,
) -> bool {
    &&& lattice_cell_wf(dims, c, i)
    &&& c.position == lattice_position(c.grid_coords, dims, spacing)
    &&& (MASS_LOCK_MIN as int) <= (c.ua_mass_lock as int) < (MASS_LOCK_MAX as int)
    &&& -(FX_ONE as int) <= (c.ub_geom_lock as int) < (FX_ONE as int)
    &&& lattice_dyn_wf(d)
    &&& d.mass as int == fx_max(c.ua_mass_lock as int, MASS_FLOOR as int)
    &&& -(VEL_JITTER as int) <= (d.velocity.x as int) < (VEL_JITTER as int)
    &&& -(VEL_JITTER as int) <= (d.velocity.y as int) < (VEL_JITTER as int)
    &&& -(VEL_JITTER as int) <= (d.velocity.z as int) < (VEL_JITTER as int)
    &&& d.acceleration == v3_zero()
    &&& f == (DerivedFields { local_density: 0, curvature_proxy: 0 })
}

/// Build a dense rectangular lattice of cells with randomized lock values.
///
/// Cells are laid out in row-major order, positions center the lattice on the
/// origin, mass locks are drawn from `[0.4, 1.6)`, geometry locks from
/// `[-1, 1)`, and each cell starts with a floored effective mass, a small
/// random velocity, zero acceleration and zeroed derived fields.
pub fn setup_universe(grid_dimensions: GridPos, spacing: i64, base_dt: i64, seed: u64) -> (r: (
    PruUniverse,
    LatticeState,
))
    requires
        1 <= grid_dimensions.x <= 1024,
        1 <= grid_dimensions.y <= 1024,
        1 <= grid_dimensions.z <= 1024,
        spacing > 0,
    ensures
        lattice_wf(r.0, r.1),
        r.0.grid_dimensions == grid_dimensions,
        r.0.spacing == spacing,
        r.0.base_dt == base_dt,
        r.0.gravity_enabled,
        r.0.total_cells as int == volume(grid_dimensions),
        r.1.cells@.len() == volume(grid_dimensions),
        forall|i: int|
            0 <= i < r.1.cells@.len() ==> setup_cell_ok(
                grid_dimensions,
                spacing as int,
                #[trigger] r.1.cells@[i],
                r.1.dynamics@[i],
                r.1.fields@[i],
                i,
            ),
{
    let dims = grid_dimensions;
    let mut rng = seed_rng(seed);
    let mut cells: Vec<PruCell> = Vec::new();
    let mut dynamics: Vec<PruDynamics> = Vec::new();
    let mut fields: Vec<DerivedFields> = Vec::new();
    let dx = dims.x;
    let dy = dims.y;
    let dz = dims.z;
    proof {
        assert((0int) * (dy as int) * (dz as int) == 0) by (nonlinear_arith);
    }
    let mut x: u32 = 0;
    while x < dx
        invariant
            1 <= dx <= 1024,
            1 <= dy <= 1024,
            1 <= dz <= 1024,
            dims == (GridPos { x: dx, y: dy, z: dz }),
            spacing > 0,
            x <= dx,
            cells@.len() == (x as int) * (dy as int) * (dz as int),
            dynamics@.len() == cells@.len(),
            fields@.len() == cells@.len(),
            forall|i: int|
                0 <= i < cells@.len() ==> setup_cell_ok(
                    dims,
                    spacing as int,
                    #[trigger] cells@[i],
                    dynamics@[i],
                    fields@[i],
                    i,
                ),
        decreases dx - x,
    {
        let mut y: u32 = 0;
        while y < dy
            invariant
                1 <= dx <= 1024,
                1 <= dy <= 1024,
                1 <= dz <= 1024,
                dims == (GridPos { x: dx, y: dy, z: dz }),
                spacing > 0,
                x < dx,
                y <= dy,
                cells@.len() == (x as int) * (dy as int) * (dz as int) + (y as int) * (dz as int),
                dynamics@.len() == cells@.len(),
                fields@.len() == cells@.len(),
                forall|i: int|
                    0 <= i < cells@.len() ==> setup_cell_ok(
                        dims,
                        spacing as int,
                        #[trigger] cells@[i],
                        dynamics@[i],
                        fields@[i],
                        i,
                    ),
            decreases dy - y,
        {
            let mut z: u32 = 0;
            while z < dz
                invariant
                    1 <= dx <= 1024,
                    1 <= dy <= 1024,
                    1 <= dz <= 1024,
                    dims == (GridPos { x: dx, y: dy, z: dz }),
                    spacing > 0,
                    x < dx,
                    y < dy,
                    z <= dz,
                    cells@.len() == (x as int) * (dy as int) * (dz as int) + (y as int) * (
                    dz as int) + (z as int),
                    dynamics@.len() == cells@.len(),
                    fields@.len() == cells@.len(),
                    forall|i: int|
                        0 <= i < cells@.len() ==> setup_cell_ok(
                            dims,
                            spacing as int,
                            #[trigger] cells@[i],
                            dynamics@[i],
                            fields@[i],
                            i,
                        ),
                decreases dz - z,
            {
                let position = Vec3Fx {
                    x: axis_position_exec(x, dx, spacing),
                    y: axis_position_exec(y, dy, spacing),
                    z: axis_position_exec(z, dz, spacing),
                };
                let ua_mass_lock = gen_range_fx(&mut rng, MASS_LOCK_MIN, MASS_LOCK_MAX);
                let ub_geom_lock = gen_range_fx(&mut rng, -FX_ONE, FX_ONE);
                let grid_coords = GridPos { x, y, z };
                let cell = PruCell::new(position, grid_coords, ua_mass_lock, ub_geom_lock);
                let mass = max_fx(ua_mass_lock, MASS_FLOOR);
                let velocity = Vec3Fx {
                    x: gen_range_fx(&mut rng, -VEL_JITTER, VEL_JITTER),
                    y: gen_range_fx(&mut rng, -VEL_JITTER, VEL_JITTER),
                    z: gen_range_fx(&mut rng, -VEL_JITTER, VEL_JITTER),
                };
                proof {
                    assert(cells@.len() + 1 <= 1024 * 1024 * 1024) by (nonlinear_arith)
                        requires
                            cells@.len() == (x as int) * (dy as int) * (dz as int) + (y as int) * (
                            dz as int) + (z as int),
                            0 <= (x as int) < (dx as int) <= 1024,
                            0 <= (y as int) < (dy as int) <= 1024,
                            0 <= (z as int) < (dz as int) <= 1024,
                    ;
                }
                cells.push(cell);
                dynamics.push(PruDynamics { mass, velocity, acceleration: zero_v3() });
                fields.push(DerivedFields::default());
                z = z + 1;
            }
            y = y + 1;
            proof {
                assert((x as int) * (dy as int) * (dz as int) + ((y - 1) as int) * (dz as int) + (
                dz as int) == (x as int) * (dy as int) * (dz as int) + (y as int) * (dz as int))
                    by (nonlinear_arith)
                    requires
                        y >= 1,
                ;
            }
        }
        x = x + 1;
        proof {
            assert(((x - 1) as int) * (dy as int) * (dz as int) + (dy as int) * (dz as int) == (
            x as int) * (dy as int) * (dz as int)) by (nonlinear_arith)
                requires
                    x >= 1,
            ;
        }
    }
    let total = cells.len();
    let mut universe = PruUniverse::new(grid_dimensions, spacing, base_dt);
    universe.total_cells = total;
    let state = LatticeState { cells, dynamics, fields };
    proof {
        assert forall|i: int| 0 <= i < state.cells@.len() implies lattice_dyn_wf(
            #[trigger] state.dynamics@[i],
        ) by {
            assert(setup_cell_ok(
                grid_dimensions,
                spacing as int,
                state.cells@[i],
                state.dynamics@[i],
                state.fields@[i],
                i,
            ));
        }
    }
    (universe, state)
}

/// Rolling metrics gathered from the derived field calculations.
#[derive(Clone, Debug)]
pub struct FieldMetrics {
    pub avg_density: i64,
    pub min_density: i64,
    pub max_density: i64,
    pub avg_curvature: i64,
    /// Bounded history of average-density samples, oldest first.
    pub density_history: Vec<i64>,
    pub max_history: usize,
}

impl Default for FieldMetrics {
    /// Zeroed metrics with a 32-sample zero history and capacity 64.
    fn default() -> (m: Self)
        ensures
            m.avg_density == 0,
            m.min_density == 0,
            m.max_density == 0,
            m.avg_curvature == 0,
            m.density_history@ == Seq::new(32, |i: int| 0i64),
            m.max_history == 64,
    {
        let mut history: Vec<i64> = Vec::new();
        let mut k: usize = 0;
        while k < 32
            invariant
                k <= 32,
                history@ =~= Seq::new(k as nat, |i: int| 0i64),
            decreases 32 - k,
        {
            history.push(0);
            proof {
                assert(history@ =~= Seq::new((k + 1) as nat, |i: int| 0i64));
            }
            k = k + 1;
        }
        FieldMetrics {
            avg_density: 0,
            min_density: 0,
            max_density: 0,
            avg_curvature: 0,
            density_history: history,
            max_history: 64,
        }
    }
}

/// Inverse of the half smoothing radius, floored away from a division by zero.
pub open spec fn smoothing_inv(spacing: int) -> int {
    fx_div(
        FX_ONE as int,
        fx_max(fx_mul(fx_mul(spacing, SMOOTHING_FACTOR as int), FX_HALF as int), SMOOTHING_EPS as int),
    )
}

/// Smoothing kernel weight for a squared distance: exponential decay in the
/// squared distance scaled by the squared inverse half radius.
pub open spec fn smoothing_weight(d2: int, inv: int) -> int {
    fx_exp_neg(tdiv(fx_mul(d2, fx_mul(inv, inv)), 2))
}

fn smoothing_inv_exec(spacing: i64) -> (r: i64)
    ensures
        r as int == smoothing_inv(spacing as int),
        r >= 0,
{
    let half_radius = mul_fx(mul_fx(spacing, SMOOTHING_FACTOR), FX_HALF);
    div_fx(FX_ONE, max_fx(half_radius, SMOOTHING_EPS))
}

fn smoothing_weight_exec(d2: i64, inv: i64) -> (w: i64)
    requires
        d2 >= 0,
        inv >= 0,
    ensures
        w as int == smoothing_weight(d2 as int, inv as int),
        0 <= w <= FX_ONE,
{
    let inv2 = mul_fx(inv, inv);
    proof {
        lemma_fx_mul_nonneg(inv as int, inv as int);
    }
    let t = mul_fx(d2, inv2);
    proof {
        lemma_fx_mul_nonneg(d2 as int, inv2 as int);
    }
    let x = ((t as u64) / 2) as i64;
    proof {
        lemma_fx_exp_neg_bounds(x as int);
    }
    exp_neg_fx(x)
}

/// Smoothed mass density at `pos` from the first `k` cells.
pub open spec fn density_sum(
    cells: Seq<PruCell>,
    dyns: Seq<PruDynamics>,
    pos: Vec3Fx,
    inv: int,
    k: int,
) -> int
    decreases k,
{
    if k <= 0 {
        0
    } else {
        fx_add(
            density_sum(cells, dyns, pos, inv, k - 1),
            fx_mul(
                dyns[k - 1].mass as int,
                smoothing_weight(dist2(cells[k - 1].position, pos), inv),
            ),
        )
    }
}

/// Weighted sum of geometry locks at `pos` over the first `k` cells, the cell
/// at `pos` itself excluded.
pub open spec fn ub_weighted_sum(cells: Seq<PruCell>, pos: Vec3Fx, inv: int, k: int) -> int
    decreases k,
{
    if k <= 0 {
        0
    } else {
        let d2 = dist2(cells[k - 1].position, pos);
        let prev = ub_weighted_sum(cells, pos, inv, k - 1);
        if d2 > 0 {
            fx_add(prev, fx_mul(cells[k - 1].ub_geom_lock as int, smoothing_weight(d2, inv)))
        } else {
            prev
        }
    }
}

/// Sum of smoothing weights at `pos` over the first `k` cells, the cell at
/// `pos` itself excluded.
pub open spec fn ub_weight_sum(cells: Seq<PruCell>, pos: Vec3Fx, inv: int, k: int) -> int
    decreases k,
{
    if k <= 0 {
        0
    } else {
        let d2 = dist2(cells[k - 1].position, pos);
        let prev = ub_weight_sum(cells, pos, inv, k - 1);
        if d2 > 0 {
            fx_add(prev, smoothing_weight(d2, inv))
        } else {
            prev
        }
    }
}

/// The derived fields of cell `i`: a pure function of cell positions, masses
/// and geometry locks alone, so recomputing over an unchanged lattice always
/// reproduces the same values.
pub open spec fn derived_of_cell(
    cells: Seq<PruCell>,
    dyns: Seq<PruDynamics>,
    spacing: int,
    i: int,
) -> DerivedFields {
    let inv = smoothing_inv(spacing);
    let pos = cells[i].position;
    let n = cells.len() as int;
    let density = density_sum(cells, dyns, pos, inv, n);
    let wsum = ub_weight_sum(cells, pos, inv, n);
    DerivedFields {
        local_density: fx_max(density, 0) as i64,
        curvature_proxy: if wsum > 0 {
            fx_sub(cells[i].ub_geom_lock as int, fx_div(ub_weighted_sum(cells, pos, inv, n), wsum))
                as i64
        } else {
            0
        },
    }
}

/// Field idempotence: the derived fields are a function of the cells and the
/// dynamics alone — the pass never reads previously derived fields — so two
/// passes over lattices with the same cells and dynamics (whatever their
/// current field values) derive identical densities and curvature proxies.
pub proof fn lemma_field_pass_idempotent(s1: LatticeState, s2: LatticeState, spacing: int, i: int)
    requires
        s1.cells@ == s2.cells@,
        s1.dynamics@ == s2.dynamics@,
    ensures
        derived_of_cell(s1.cells@, s1.dynamics@, spacing, i) == derived_of_cell(
            s2.cells@,
            s2.dynamics@,
            spacing,
            i,
        ),
{
}

/// Saturating total of local densities over the first `k` entries.
pub open spec fn density_total(fs: Seq<DerivedFields>, k: int) -> int
    decreases k,
{
    if k <= 0 {
        0
    } else {
        fx_add(density_total(fs, k - 1), fs[k - 1].local_density as int)
    }
}

/// Saturating total of absolute curvature proxies over the first `k` entries.
pub open spec fn curvature_abs_total(fs: Seq<DerivedFields>, k: int) -> int
    decreases k,
{
    if k <= 0 {
        0
    } else {
        fx_add(curvature_abs_total(fs, k - 1), clip(fx_abs(fs[k - 1].curvature_proxy as int)))
    }
}

/// Minimum local density over the first `k` entries.
pub open spec fn density_min_fold(fs: Seq<DerivedFields>, k: int) -> int
    decreases k,
{
    if k <= 0 {
        FX_MAX as int
    } else {
        fx_min(density_min_fold(fs, k - 1), fs[k - 1].local_density as int)
    }
}

/// Maximum local density over the first `k` entries.
pub open spec fn density_max_fold(fs: Seq<DerivedFields>, k: int) -> int
    decreases k,
{
    if k <= 0 {
        FX_MIN as int
    } else {
        fx_max(density_max_fold(fs, k - 1), fs[k - 1].local_density as int)
    }
}

/// A density history trimmed to its capacity, oldest entries dropped first.
pub open spec fn trim_history(h: Seq<i64>, max: int) -> Seq<i64> {
    if h.len() <= max {
        h
    } else {
        h.skip(h.len() - max)
    }
}

/// Compute per-cell derived fields (density and curvature proxies) and update
/// the rolling metrics.
///
/// For every cell the pass takes an exponentially weighted sum over all cells:
/// the local density is the weighted sum of masses, the curvature proxy is the
/// cell's geometry lock minus the weighted average of all other cells'
/// geometry locks (zero when no other cell contributes weight). The metrics
/// receive the average, minimum and maximum density, the average absolute
/// curvature, and the average is appended to the bounded history (oldest
/// samples evicted first). An empty lattice leaves everything untouched.
pub fn compute_derived_fields(
    universe: &PruUniverse,
    state: &mut LatticeState,
    metrics: &mut FieldMetrics,
)
    requires
        lattice_wf(*universe, *old(state)),
    ensures
        lattice_wf(*universe, *final(state)),
        final(state).cells@ == old(state).cells@,
        final(state).dynamics@ == old(state).dynamics@,
        final(state).fields@.len() == old(state).fields@.len(),
        forall|i: int|
            0 <= i < final(state).fields@.len() ==> #[trigger] final(state).fields@[i]
                == derived_of_cell(
                old(state).cells@,
                old(state).dynamics@,
                universe.spacing as int,
                i,
            ),
        final(metrics).max_history == old(metrics).max_history,
        final(state).cells@.len() == 0 ==> *final(metrics) == *old(metrics),
        final(state).cells@.len() > 0 ==> {
            let n = final(state).cells@.len() as int;
            &&& final(metrics).avg_density as int == tdiv(
                density_total(final(state).fields@, n),
                n,
            )
            &&& final(metrics).min_density as int == density_min_fold(final(state).fields@, n)
            &&& final(metrics).max_density as int == density_max_fold(final(state).fields@, n)
            &&& final(metrics).avg_curvature as int == tdiv(
                curvature_abs_total(final(state).fields@, n),
                n,
            )
            &&& final(metrics).density_history@ == trim_history(
                old(metrics).density_history@.push(final(metrics).avg_density),
                old(metrics).max_history as int,
            )
        },
{
    let n = state.cells.len();
    if n == 0 {
        return ;
    }
    let inv = smoothing_inv_exec(universe.spacing);
    let ghost cells0 = state.cells@;
    let ghost dyns0 = state.dynamics@;
    let mut i: usize = 0;
    while i < n
        invariant
            lattice_wf(*universe, *state),
            state.cells@ == cells0,
            state.dynamics@ == dyns0,
            n == cells0.len(),
            state.fields@.len() == n,
            inv as int == smoothing_inv(universe.spacing as int),
            inv >= 0,
            i <= n,
            forall|k: int|
                0 <= k < i ==> #[trigger] state.fields@[k] == derived_of_cell(
                    cells0,
                    dyns0,
                    universe.spacing as int,
                    k,
                ),
        decreases n - i,
    {
        let pos = state.cells[i].position;
        let mut density: i64 = 0;
        let mut ub_weighted: i64 = 0;
        let mut ub_wsum: i64 = 0;
        let mut j: usize = 0;
        while j < n
            invariant
                state.cells@ == cells0,
                state.dynamics@ == dyns0,
                n == cells0.len(),
                state.dynamics@.len() == n,
                inv >= 0,
                j <= n,
                i < n,
                pos == cells0[i as int].position,
                density as int == density_sum(cells0, dyns0, pos, inv as int, j as int),
                ub_weighted as int == ub_weighted_sum(cells0, pos, inv as int, j as int),
                ub_wsum as int == ub_weight_sum(cells0, pos, inv as int, j as int),
            decreases n - j,
        {
            let d2 = dist2_v3(state.cells[j].position, pos);
            proof {
                lemma_v3_dot_self_nonneg(
                    crate::vector::v3_sub(cells0[j as int].position, pos),
                );
            }
            let w = smoothing_weight_exec(d2, inv);
            density = add_fx(density, mul_fx(state.dynamics[j].mass, w));
            if d2 > 0 {
                ub_weighted = add_fx(ub_weighted, mul_fx(state.cells[j].ub_geom_lock, w));
                ub_wsum = add_fx(ub_wsum, w);
            }
            j = j + 1;
        }
        let local_density = max_fx(density, 0);
        let curvature_proxy = if ub_wsum > 0 {
            sub_fx(state.cells[i].ub_geom_lock, div_fx(ub_weighted, ub_wsum))
        } else {
            0
        };
        let derived = DerivedFields { local_density, curvature_proxy };
        proof {
            assert(derived == derived_of_cell(cells0, dyns0, universe.spacing as int, i as int));
        }
        state.fields[i] = derived;
        i = i + 1;
    }
    let mut density_acc: i64 = 0;
    let mut curvature_acc: i64 = 0;
    let mut min_acc: i64 = FX_MAX;
    let mut max_acc: i64 = FX_MIN;
    let mut k: usize = 0;
    while k < n
        invariant
            state.fields@.len() == n,
            n > 0,
            k <= n,
            density_acc as int == density_total(state.fields@, k as int),
            curvature_acc as int == curvature_abs_total(state.fields@, k as int),
            min_acc as int == density_min_fold(state.fields@, k as int),
            max_acc as int == density_max_fold(state.fields@, k as int),
        decreases n - k,
    {
        let f = state.fields[k];
        density_acc = add_fx(density_acc, f.local_density);
        curvature_acc = add_fx(curvature_acc, abs_fx(f.curvature_proxy));
        min_acc = min_fx(min_acc, f.local_density);
        max_acc = max_fx(max_acc, f.local_density);
        k = k + 1;
    }
    proof {
        lemma_volume_bound(universe.grid_dimensions);
    }
    metrics.avg_density = tdiv_fx(density_acc, n as i64);
    metrics.min_density = min_acc;
    metrics.max_density = max_acc;
    metrics.avg_curvature = tdiv_fx(curvature_acc, n as i64);
    let ghost pushed = metrics.density_history@.push(metrics.avg_density);
    let ghost metrics_mid = *metrics;
    metrics.density_history.push(metrics.avg_density);
    while metrics.density_history.len() > metrics.max_history
        invariant
            metrics.avg_density == metrics_mid.avg_density,
            metrics.min_density == metrics_mid.min_density,
            metrics.max_density == metrics_mid.max_density,
            metrics.avg_curvature == metrics_mid.avg_curvature,
            metrics.max_history == metrics_mid.max_history,
            trim_history(metrics.density_history@, metrics.max_history as int) == trim_history(
                pushed,
                metrics.max_history as int,
            ),
        decreases metrics.density_history@.len(),
    {
        let ghost before = metrics.density_history@;
        metrics.density_history.remove(0);
        proof {
            assert(metrics.density_history@ =~= before.skip(1));
            assert(trim_history(before.skip(1), metrics.max_history as int) =~= trim_history(
                before,
                metrics.max_history as int,
            ));
        }
    }
    proof {
        assert(metrics.density_history@ == trim_history(
            pushed,
            metrics.max_history as int,
        ));
    }
}

/// In a well-formed lattice, the cell at the linear index of any in-bounds
/// coordinates carries exactly those coordinates.
pub proof fn lemma_lattice_lookup(u: PruUniverse, s: LatticeState, c: GridPos)
    requires
        lattice_wf(u, s),
        in_dims(c, u.grid_dimensions),
    ensures
        0 <= index_of(c, u.grid_dimensions) < s.cells@.len(),
        s.cells@[index_of(c, u.grid_dimensions)].grid_coords == c,
{
    lemma_index_of_bounds(c, u.grid_dimensions);
    let j = index_of(c, u.grid_dimensions);
    lemma_index_of_injective(s.cells@[j].grid_coords, c, u.grid_dimensions);
}

} // verus!
