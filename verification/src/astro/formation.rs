//! Threshold-driven emergence rules: stars, black holes, and galaxies form
//! from the derived fields on independent cadences.

use vstd::prelude::*;

use crate::astro::black_hole::BlackHole;
use crate::astro::galaxy::{Galaxy, GalaxyIdCounter};
use crate::astro::star::Star;
use crate::fixed::{
    add_fx, clamp_fx, clip, div_fx, fx_abs, fx_add, fx_clamp, fx_div, fx_max, fx_mul, max_fx,
    mul_fx, FX_ONE,
};
use crate::pru::cell::{DerivedFields, GridPos, PruCell};
use crate::pru::universe::{LatticeState, PruUniverse};
use crate::vector::{add_v3, dist2, dist2_v3, scale_v3, v3_add, v3_scale, Vec3Fx};

verus! {

/// Stars form where the local density reaches 1.8.
pub const STAR_DENSITY_THRESHOLD_DEFAULT: i64 = 108_000_000;

/// Black holes need a local density of 3.0.
pub const BH_DENSITY_THRESHOLD_DEFAULT: i64 = 180_000_000;

/// Black holes also need an absolute curvature of 0.25.
pub const BH_CURVATURE_THRESHOLD_DEFAULT: i64 = 15_000_000;

/// Galaxy buckets collect cells whose density reaches 1.2.
pub const GALAXY_DENSITY_THRESHOLD_DEFAULT: i64 = 72_000_000;

/// Star avoidance radius: 0.8 lattice spacings.
pub const STAR_AVOIDANCE_FACTOR: i64 = 48_000_000;

/// Black-hole avoidance radius: 0.9 lattice spacings.
pub const BH_AVOIDANCE_FACTOR: i64 = 54_000_000;

/// Star radius per unit density (0.08), with its clamp range.
pub const STAR_RADIUS_FACTOR: i64 = 4_800_000;

pub const STAR_RADIUS_MIN: i64 = 3_000_000;

pub const STAR_RADIUS_MAX: i64 = 36_000_000;

/// Base star temperature (4000).
pub const STAR_TEMP_BASE: i64 = 240_000_000_000;

/// Star temperature per unit density (3000).
pub const STAR_TEMP_FACTOR: i64 = 180_000_000_000;

/// Star luminosity per unit density (2).
pub const STAR_LUM_FACTOR: i64 = 120_000_000;

/// Black-hole mass per unit density (4).
pub const BH_MASS_FACTOR: i64 = 240_000_000;

/// Black-hole radius per unit mass (0.05), with its clamp range (0.2 to 1.5).
pub const BH_RADIUS_FACTOR: i64 = 3_000_000;

pub const BH_RADIUS_MIN: i64 = 12_000_000;

pub const BH_RADIUS_MAX: i64 = 90_000_000;

/// Tunable thresholds controlling when structures emerge.
#[derive(Clone, Copy, Debug, PartialEq, Eq, Structural)]
pub struct FormationSettings {
    pub star_density_threshold: i64,
    pub black_hole_density_threshold: i64,
    pub black_hole_curvature_threshold: i64,
    pub galaxy_density_threshold: i64,
    /// Cadence (in ticks) of star and black-hole formation.
    pub formation_interval: u64,
    /// Cadence (in ticks) of the galaxy refresh.
    pub galaxy_refresh_interval: u64,
    /// Edge length (in cells) of the spatial buckets galaxies condense from.
    pub region_size: u32,
}

impl Default for FormationSettings {
    fn default() -> (s: Self)
        ensures
            s == (FormationSettings {
                star_density_threshold: STAR_DENSITY_THRESHOLD_DEFAULT,
                black_hole_density_threshold: BH_DENSITY_THRESHOLD_DEFAULT,
                black_hole_curvature_threshold: BH_CURVATURE_THRESHOLD_DEFAULT,
                galaxy_density_threshold: GALAXY_DENSITY_THRESHOLD_DEFAULT,
                formation_interval: 8,
                galaxy_refresh_interval: 24,
                region_size: 3,
            }),
    {
        FormationSettings {
            star_density_threshold: STAR_DENSITY_THRESHOLD_DEFAULT,
            black_hole_density_threshold: BH_DENSITY_THRESHOLD_DEFAULT,
            black_hole_curvature_threshold: BH_CURVATURE_THRESHOLD_DEFAULT,
            galaxy_density_threshold: GALAXY_DENSITY_THRESHOLD_DEFAULT,
            formation_interval: 8,
            galaxy_refresh_interval: 24,
            region_size: 3,
        }
    }
}

/// Per-rule last-run ticks: each emergence rule fires only when the current
/// tick is at least its interval past the rule's own last run.
#[derive(Clone, Copy, Debug, PartialEq, Eq, Structural, Default)]
pub struct FormationSchedule {
    pub last_star_tick: u64,
    pub last_black_hole_tick: u64,
    pub last_galaxy_tick: u64,
}

/// `pos` lies strictly within the avoidance radius of `site` (compared in
/// squared form).
pub open spec fn within_avoidance(site: Vec3Fx, pos: Vec3Fx, radius: int) -> bool {
    dist2(site, pos) < fx_mul(radius, radius)
}

/// Some star among the first `k` lies within the avoidance radius of `pos`.
pub open spec fn star_near(stars: Seq<Star>, pos: Vec3Fx, radius: int) -> bool {
    exists|s: int| 0 <= s < stars.len() && within_avoidance(stars[s].position, pos, radius)
}

/// Some black hole lies within the avoidance radius of `pos`.
pub open spec fn black_hole_near(bhs: Seq<BlackHole>, pos: Vec3Fx, radius: int) -> bool {
    exists|s: int| 0 <= s < bhs.len() && within_avoidance(bhs[s].position, pos, radius)
}

/// The star condensing at a cell: radius, temperature and luminosity derive
/// deterministically from the local density.
pub open spec fn star_of(pos: Vec3Fx, density: int) -> Star {
    Star {
        position: pos,
        mass: density as i64,
        radius: fx_clamp(
            fx_mul(density, STAR_RADIUS_FACTOR as int),
            STAR_RADIUS_MIN as int,
            STAR_RADIUS_MAX as int,
        ) as i64,
        temperature: fx_add(
            STAR_TEMP_BASE as int,
            fx_mul(density, STAR_TEMP_FACTOR as int),
        ) as i64,
        luminosity: fx_mul(density, STAR_LUM_FACTOR as int) as i64,
    }
}

/// The black hole collapsing at a cell.
pub open spec fn black_hole_of(pos: Vec3Fx, density: int, curvature: int) -> BlackHole {
    let mass = fx_mul(density, BH_MASS_FACTOR as int);
    BlackHole {
        position: pos,
        mass: mass as i64,
        radius: fx_clamp(
            fx_mul(mass, BH_RADIUS_FACTOR as int),
            BH_RADIUS_MIN as int,
            BH_RADIUS_MAX as int,
        ) as i64,
        spin: clip(fx_abs(curvature)) as i64,
    }
}

/// One star-formation sweep over the first `k` cells: each cell whose density
/// reaches the threshold spawns a star at the cell, unless a star (existing or
/// spawned earlier in this very sweep) already lies within the avoidance
/// radius.
pub open spec fn star_pass(
    cells: Seq<PruCell>,
    fields: Seq<DerivedFields>,
    threshold: int,
    radius: int,
    stars: Seq<Star>,
    k: int,
) -> Seq<Star>
    decreases k,
{
    if k <= 0 {
        stars
    } else {
        let prev = star_pass(cells, fields, threshold, radius, stars, k - 1);
        let d = fields[k - 1].local_density as int;
        if d >= threshold && !star_near(prev, cells[k - 1].position, radius) {
            prev.push(star_of(cells[k - 1].position, d))
        } else {
            prev
        }
    }
}

/// One black-hole-formation sweep over the first `k` cells: density and
/// absolute curvature must both reach their thresholds, and existing black
/// holes within the avoidance radius suppress the collapse.
pub open spec fn black_hole_pass(
    cells: Seq<PruCell>,
    fields: Seq<DerivedFields>,
    density_threshold: int,
    curvature_threshold: int,
    radius: int,
    bhs: Seq<BlackHole>,
    k: int,
) -> Seq<BlackHole>
    decreases k,
{
    if k <= 0 {
        bhs
    } else {
        let prev = black_hole_pass(
            cells,
            fields,
            density_threshold,
            curvature_threshold,
            radius,
            bhs,
            k - 1,
        );
        let d = fields[k - 1].local_density as int;
        let cv = clip(fx_abs(fields[k - 1].curvature_proxy as int));
        if d >= density_threshold && cv >= curvature_threshold && !black_hole_near(
            prev,
            cells[k - 1].position,
            radius,
        ) {
            prev.push(black_hole_of(cells[k - 1].position, d, fields[k - 1].curvature_proxy as int))
        } else {
            prev
        }
    }
}

/// Is any star of `stars` within the avoidance radius of `pos`?
fn find_star_near(stars: &Vec<Star>, pos: Vec3Fx, radius: i64) -> (r: bool)
    ensures
        r == star_near(stars@, pos, radius as int),
{
    let n = stars.len();
    let mut i: usize = 0;
    while i < n
        invariant
            n == stars@.len(),
            i <= n,
            !star_near(stars@.take(i as int), pos, radius as int),
        decreases n - i,
    {
        let d2 = dist2_v3(stars[i].position, pos);
        if d2 < mul_fx(radius, radius) {
            proof {
                assert(within_avoidance(stars@[i as int].position, pos, radius as int));
            }
            return true;
        }
        proof {
            assert(stars@.take(i + 1 as int) =~= stars@.take(i as int).push(stars@[i as int]));
            assert forall|s: int|
                0 <= s < i + 1 implies !within_avoidance(
                #[trigger] stars@.take(i + 1 as int)[s].position,
                pos,
                radius as int,
            ) by {
                if s < i as int {
                    assert(stars@.take(i + 1 as int)[s] == stars@.take(i as int)[s]);
                    assert(!within_avoidance(stars@.take(i as int)[s].position, pos, radius as int));
                }
            }
        }
        i = i + 1;
    }
    proof {
        assert(stars@.take(n as int) =~= stars@);
    }
    false
}

/// Is any black hole of `bhs` within the avoidance radius of `pos`?
fn find_black_hole_near(bhs: &Vec<BlackHole>, pos: Vec3Fx, radius: i64) -> (r: bool)
    ensures
        r == black_hole_near(bhs@, pos, radius as int),
{
    let n = bhs.len();
    let mut i: usize = 0;
    while i < n
        invariant
            n == bhs@.len(),
            i <= n,
            !black_hole_near(bhs@.take(i as int), pos, radius as int),
        decreases n - i,
    {
        let d2 = dist2_v3(bhs[i].position, pos);
        if d2 < mul_fx(radius, radius) {
            proof {
                assert(within_avoidance(bhs@[i as int].position, pos, radius as int));
            }
            return true;
        }
        proof {
            assert forall|s: int|
                0 <= s < i + 1 implies !within_avoidance(
                #[trigger] bhs@.take(i + 1 as int)[s].position,
                pos,
                radius as int,
            ) by {
                if s < i as int {
                    assert(bhs@.take(i + 1 as int)[s] == bhs@.take(i as int)[s]);
                    assert(!within_avoidance(bhs@.take(i as int)[s].position, pos, radius as int));
                }
            }
        }
        i = i + 1;
    }
    proof {
        assert(bhs@.take(n as int) =~= bhs@);
    }
    false
}

/// Spawn stars at every sufficiently dense cell that has no star within the
/// avoidance radius, on the star rule's own cadence. Runs at most once per
/// `formation_interval` ticks; a gated call changes nothing and a firing call
/// records the tick and performs exactly one sweep.
pub fn spawn_stars_from_density(
    universe: &PruUniverse,
    tick: u64,
    settings: &FormationSettings,
    schedule: &mut FormationSchedule,
    state: &LatticeState,
    stars: &mut Vec<Star>,
)
    requires
        state.fields@.len() == state.cells@.len(),
        tick >= old(schedule).last_star_tick,
    ensures
        tick - old(schedule).last_star_tick < settings.formation_interval ==> *final(schedule)
            == *old(schedule) && final(stars)@ == old(stars)@,
        tick - old(schedule).last_star_tick >= settings.formation_interval ==> {
            &&& *final(schedule) == (FormationSchedule { last_star_tick: tick, ..*old(schedule) })
            &&& final(stars)@ == star_pass(
                state.cells@,
                state.fields@,
                settings.star_density_threshold as int,
                fx_mul(universe.spacing as int, STAR_AVOIDANCE_FACTOR as int),
                old(stars)@,
                state.cells@.len() as int,
            )
        },
{
    if tick - schedule.last_star_tick < settings.formation_interval {
        return ;
    }
    schedule.last_star_tick = tick;
    let avoidance_radius = mul_fx(universe.spacing, STAR_AVOIDANCE_FACTOR);
    let n = state.cells.len();
    let ghost stars0 = stars@;
    let mut i: usize = 0;
    while i < n
        invariant
            state.fields@.len() == n == state.cells@.len(),
            i <= n,
            avoidance_radius as int == fx_mul(universe.spacing as int, STAR_AVOIDANCE_FACTOR as int),
            stars@ == star_pass(
                state.cells@,
                state.fields@,
                settings.star_density_threshold as int,
                avoidance_radius as int,
                stars0,
                i as int,
            ),
        decreases n - i,
    {
        let d = state.fields[i].local_density;
        if d >= settings.star_density_threshold {
            let pos = state.cells[i].position;
            if !find_star_near(stars, pos, avoidance_radius) {
                stars.push(Star {
                    position: pos,
                    mass: d,
                    radius: clamp_fx(mul_fx(d, STAR_RADIUS_FACTOR), STAR_RADIUS_MIN, STAR_RADIUS_MAX),
                    temperature: add_fx(STAR_TEMP_BASE, mul_fx(d, STAR_TEMP_FACTOR)),
                    luminosity: mul_fx(d, STAR_LUM_FACTOR),
                });
                proof {
                    assert(stars@.last() == star_of(
                        state.cells@[i as int].position,
                        state.fields@[i as int].local_density as int,
                    ));
                }
            }
        }
        i = i + 1;
    }
}

/// Spawn black holes at every cell exceeding both thresholds with no black
/// hole within the avoidance radius, on the rule's own cadence.
pub fn spawn_black_holes_from_density(
    universe: &PruUniverse,
    tick: u64,
    settings: &FormationSettings,
    schedule: &mut FormationSchedule,
    state: &LatticeState,
    black_holes: &mut Vec<BlackHole>,
)
    requires
        state.fields@.len() == state.cells@.len(),
        tick >= old(schedule).last_black_hole_tick,
    ensures
        tick - old(schedule).last_black_hole_tick < settings.formation_interval ==> *final(schedule)
            == *old(schedule) && final(black_holes)@ == old(black_holes)@,
        tick - old(schedule).last_black_hole_tick >= settings.formation_interval ==> {
            &&& *final(schedule) == (FormationSchedule {
                last_black_hole_tick: tick,
                ..*old(schedule)
            })
            &&& final(black_holes)@ == black_hole_pass(
                state.cells@,
                state.fields@,
                settings.black_hole_density_threshold as int,
                settings.black_hole_curvature_threshold as int,
                fx_mul(universe.spacing as int, BH_AVOIDANCE_FACTOR as int),
                old(black_holes)@,
                state.cells@.len() as int,
            )
        },
{
    if tick - schedule.last_black_hole_tick < settings.formation_interval {
        return ;
    }
    schedule.last_black_hole_tick = tick;
    let avoidance_radius = mul_fx(universe.spacing, BH_AVOIDANCE_FACTOR);
    let n = state.cells.len();
    let ghost bhs0 = black_holes@;
    let mut i: usize = 0;
    while i < n
        invariant
            state.fields@.len() == n == state.cells@.len(),
            i <= n,
            avoidance_radius as int == fx_mul(universe.spacing as int, BH_AVOIDANCE_FACTOR as int),
            black_holes@ == black_hole_pass(
                state.cells@,
                state.fields@,
                settings.black_hole_density_threshold as int,
                settings.black_hole_curvature_threshold as int,
                avoidance_radius as int,
                bhs0,
                i as int,
            ),
        decreases n - i,
    {
        let f = state.fields[i];
        let cv = crate::fixed::abs_fx(f.curvature_proxy);
        if f.local_density >= settings.black_hole_density_threshold && cv
            >= settings.black_hole_curvature_threshold {
            let pos = state.cells[i].position;
            if !find_black_hole_near(black_holes, pos, avoidance_radius) {
                let mass = mul_fx(f.local_density, BH_MASS_FACTOR);
                black_holes.push(BlackHole {
                    position: pos,
                    mass,
                    radius: clamp_fx(mul_fx(mass, BH_RADIUS_FACTOR), BH_RADIUS_MIN, BH_RADIUS_MAX),
                    spin: cv,
                });
            }
        }
        i = i + 1;
    }
}

/// Galaxy radius per unit bucket mass (0.05).
pub const GALAXY_RADIUS_FACTOR: i64 = 3_000_000;

/// Upper galaxy radius clamp: eight lattice spacings.
pub const GALAXY_RADIUS_SPAN: i64 = 480_000_000;

/// Floor on the bucket mass before the centroid division (0.001).
pub const GALAXY_MASS_EPS: i64 = 60_000;

/// Per-refresh decay factor of faded galaxies (0.9).
pub const GALAXY_DECAY: i64 = 54_000_000;

/// New galaxies need three times the galaxy density threshold of bucket mass.
pub const GALAXY_SPAWN_FACTOR: i64 = 180_000_000;

/// A spatial bucket of high-density cells: its key, accumulated density mass,
/// and density-weighted position sum.
#[derive(Clone, Copy, Debug, PartialEq, Eq, Structural)]
pub struct RegionAgg {
    pub key: GridPos,
    pub mass: i64,
    pub weighted_pos: Vec3Fx,
}

/// The bucket a cell belongs to: its lattice coordinates divided by the
/// region size (floored to one).
pub open spec fn region_key_of(c: GridPos, region_size: u32) -> GridPos {
    let rs = if region_size >= 1 {
        region_size as int
    } else {
        1int
    };
    GridPos {
        x: ((c.x as int) / rs) as u32,
        y: ((c.y as int) / rs) as u32,
        z: ((c.z as int) / rs) as u32,
    }
}

/// Index of the first bucket carrying `key`, or the length when absent.
pub open spec fn first_region_index(rs: Seq<RegionAgg>, key: GridPos) -> int
    decreases rs.len(),
{
    if rs.len() == 0 {
        0
    } else if rs[0].key == key {
        0
    } else {
        1 + first_region_index(rs.drop_first(), key)
    }
}

pub proof fn lemma_first_region_index_props(rs: Seq<RegionAgg>, key: GridPos)
    ensures
        0 <= first_region_index(rs, key) <= rs.len(),
        first_region_index(rs, key) < rs.len() ==> rs[first_region_index(rs, key)].key == key,
        forall|p: int| 0 <= p < first_region_index(rs, key) ==> (#[trigger] rs[p]).key != key,
    decreases rs.len(),
{
    if rs.len() > 0 && rs[0].key != key {
        lemma_first_region_index_props(rs.drop_first(), key);
        assert forall|p: int|
            0 <= p < first_region_index(rs, key) implies (#[trigger] rs[p]).key != key by {
            if p > 0 {
                assert(rs.drop_first()[p - 1] == rs[p]);
            }
        }
    }
}

/// Bucket accumulation over the first `k` cells: every cell whose density
/// reaches the threshold joins the bucket of its region key, in
/// first-encounter order; its density joins the bucket mass and its
/// density-weighted position joins the centroid sum.
pub open spec fn regions_fold(
    cells: Seq<PruCell>,
    fields: Seq<DerivedFields>,
    threshold: int,
    region_size: u32,
    k: int,
) -> Seq<RegionAgg>
    decreases k,
{
    if k <= 0 {
        Seq::empty()
    } else {
        let prev = regions_fold(cells, fields, threshold, region_size, k - 1);
        let d = fields[k - 1].local_density as int;
        if d >= threshold {
            let key = region_key_of(cells[k - 1].grid_coords, region_size);
            let m = first_region_index(prev, key);
            let weighted = v3_scale(cells[k - 1].position, d);
            if m < prev.len() {
                prev.update(
                    m,
                    RegionAgg {
                        key,
                        mass: fx_add(prev[m].mass as int, d) as i64,
                        weighted_pos: v3_add(prev[m].weighted_pos, weighted),
                    },
                )
            } else {
                prev.push(RegionAgg { key, mass: d as i64, weighted_pos: weighted })
            }
        } else {
            prev
        }
    }
}

/// Bucket keys are unique, and at most one bucket exists per processed cell.
pub proof fn lemma_regions_fold_unique(
    cells: Seq<PruCell>,
    fields: Seq<DerivedFields>,
    threshold: int,
    region_size: u32,
    k: int,
)
    ensures
        regions_fold(cells, fields, threshold, region_size, k).len() <= fx_max(k, 0),
        forall|p: int, q: int|
            #![trigger regions_fold(cells, fields, threshold, region_size, k)[p], regions_fold(cells, fields, threshold, region_size, k)[q]]
            0 <= p < q < regions_fold(cells, fields, threshold, region_size, k).len()
                ==> regions_fold(cells, fields, threshold, region_size, k)[p].key != regions_fold(
                cells,
                fields,
                threshold,
                region_size,
                k,
            )[q].key,
    decreases k,
{
    if k > 0 {
        lemma_regions_fold_unique(cells, fields, threshold, region_size, k - 1);
        let prev = regions_fold(cells, fields, threshold, region_size, k - 1);
        let cur = regions_fold(cells, fields, threshold, region_size, k);
        let d = fields[k - 1].local_density as int;
        if d >= threshold {
            let key = region_key_of(cells[k - 1].grid_coords, region_size);
            lemma_first_region_index_props(prev, key);
            let m = first_region_index(prev, key);
            assert forall|p: int, q: int|
                #![trigger cur[p], cur[q]]
                0 <= p < q < cur.len() implies cur[p].key != cur[q].key by {
                if m < prev.len() {
                    assert(cur[p].key == prev[p].key && cur[q].key == prev[q].key);
                } else {
                    if q < prev.len() {
                        assert(cur[p] == prev[p] && cur[q] == prev[q]);
                    } else {
                        assert(cur[p] == prev[p] && cur[q].key == key);
                    }
                }
            }
        }
    }
}

/// Galaxy radius for a bucket mass: clamped between one and eight lattice
/// spacings.
pub open spec fn galaxy_radius_of(mass: int, spacing: int) -> int {
    fx_clamp(
        fx_mul(mass, GALAXY_RADIUS_FACTOR as int),
        spacing,
        fx_mul(spacing, GALAXY_RADIUS_SPAN as int),
    )
}

fn galaxy_radius_exec(mass: i64, spacing: i64) -> (r: i64)
    requires
        spacing > 0,
    ensures
        r as int == galaxy_radius_of(mass as int, spacing as int),
{
    proof {
        assert((spacing as int) * (GALAXY_RADIUS_SPAN as int) == (8 * spacing as int) * (
        FX_ONE as int));
        vstd::arithmetic::div_mod::lemma_div_by_multiple(8 * spacing as int, FX_ONE as int);
    }
    let hi = mul_fx(spacing, GALAXY_RADIUS_SPAN);
    clamp_fx(mul_fx(mass, GALAXY_RADIUS_FACTOR), spacing, hi)
}

/// Mass-weighted centroid of a bucket, with the mass floored away from a
/// division by zero.
pub open spec fn galaxy_center_of(region: RegionAgg) -> Vec3Fx {
    let m = fx_max(region.mass as int, GALAXY_MASS_EPS as int);
    Vec3Fx {
        x: fx_div(region.weighted_pos.x as int, m) as i64,
        y: fx_div(region.weighted_pos.y as int, m) as i64,
        z: fx_div(region.weighted_pos.z as int, m) as i64,
    }
}

fn galaxy_center_exec(region: RegionAgg) -> (c: Vec3Fx)
    ensures
        c == galaxy_center_of(region),
{
    let m = max_fx(region.mass, GALAXY_MASS_EPS);
    Vec3Fx {
        x: div_fx(region.weighted_pos.x, m),
        y: div_fx(region.weighted_pos.y, m),
        z: div_fx(region.weighted_pos.z, m),
    }
}

/// How many of the first `k` stars lie within `radius` of `center` (compared
/// in squared form).
pub open spec fn stars_within_count(stars: Seq<Star>, center: Vec3Fx, radius: int, k: int) -> int
    decreases k,
{
    if k <= 0 {
        0
    } else {
        stars_within_count(stars, center, radius, k - 1) + (
        if within_avoidance(stars[k - 1].position, center, radius) {
            1int
        } else {
            0int
        })
    }
}

fn count_stars_within(stars: &Vec<Star>, center: Vec3Fx, radius: i64) -> (count: u32)
    requires
        stars@.len() <= u32::MAX,
    ensures
        count as int == stars_within_count(stars@, center, radius as int, stars@.len() as int),
{
    let n = stars.len();
    let mut count: u32 = 0;
    let mut j: usize = 0;
    while j < n
        invariant
            n == stars@.len() <= u32::MAX,
            j <= n,
            count as int == stars_within_count(stars@, center, radius as int, j as int),
            count <= j,
        decreases n - j,
    {
        let d2 = dist2_v3(stars[j].position, center);
        if d2 < mul_fx(radius, radius) {
            count = count + 1;
        }
        j = j + 1;
    }
    count
}

/// A galaxy whose bucket survived the refresh, updated in place: it takes the
/// bucket's mass and centroid, the clamped radius, and the count of stars
/// within that radius of the centroid.
pub open spec fn refreshed_galaxy(g: Galaxy, region: RegionAgg, stars: Seq<Star>, spacing: int) -> Galaxy {
    let center = galaxy_center_of(region);
    let radius = galaxy_radius_of(region.mass as int, spacing);
    Galaxy {
        id: g.id,
        total_mass: region.mass,
        radius: radius as i64,
        num_stars: stars_within_count(stars, center, radius, stars.len() as int) as u32,
        center,
        region_key: g.region_key,
    }
}

/// A galaxy whose bucket disappeared fades gracefully: mass and radius each
/// shrink by exactly the decay factor, and nothing else changes.
pub open spec fn decayed_galaxy(g: Galaxy) -> Galaxy {
    Galaxy {
        total_mass: fx_mul(g.total_mass as int, GALAXY_DECAY as int) as i64,
        radius: fx_mul(g.radius as int, GALAXY_DECAY as int) as i64,
        ..g
    }
}

/// One refresh of the existing galaxies: each is matched to the bucket with
/// its region key, updated in place when the bucket exists and decayed when it
/// does not. No galaxy is ever removed.
pub open spec fn galaxies_refreshed(
    galaxies: Seq<Galaxy>,
    regions: Seq<RegionAgg>,
    stars: Seq<Star>,
    spacing: int,
) -> Seq<Galaxy> {
    Seq::new(
        galaxies.len(),
        |i: int|
            {
                let m = first_region_index(regions, galaxies[i].region_key);
                if m < regions.len() {
                    refreshed_galaxy(galaxies[i], regions[m], stars, spacing)
                } else {
                    decayed_galaxy(galaxies[i])
                }
            },
    )
}

/// Some existing galaxy already claims this region key.
pub open spec fn galaxy_key_exists(galaxies: Seq<Galaxy>, key: GridPos) -> bool {
    exists|g: int| 0 <= g < galaxies.len() && galaxies[g].region_key == key
}

/// Galaxies spawned from the first `r` buckets: a bucket with no matching
/// galaxy and at least three thresholds of mass becomes a new galaxy with a
/// freshly assigned, monotonically increasing id.
pub open spec fn spawned_galaxies(
    galaxies0: Seq<Galaxy>,
    regions: Seq<RegionAgg>,
    stars: Seq<Star>,
    spacing: int,
    threshold: int,
    next_id: int,
    r: int,
) -> (Seq<Galaxy>, int)
    decreases r,
{
    if r <= 0 {
        (Seq::<Galaxy>::empty(), next_id)
    } else {
        let prev = spawned_galaxies(galaxies0, regions, stars, spacing, threshold, next_id, r - 1);
        let region = regions[r - 1];
        if region.mass as int >= fx_mul(threshold, GALAXY_SPAWN_FACTOR as int)
            && !galaxy_key_exists(galaxies0, region.key) {
            let center = galaxy_center_of(region);
            let radius = galaxy_radius_of(region.mass as int, spacing);
            (
                prev.0.push(
                    Galaxy {
                        id: prev.1 as u32,
                        total_mass: region.mass,
                        radius: radius as i64,
                        num_stars: stars_within_count(stars, center, radius, stars.len() as int) as u32,
                        center,
                        region_key: region.key,
                    },
                ),
                prev.1 + 1,
            )
        } else {
            prev
        }
    }
}

/// Spawned galaxies take keys of distinct buckets that no existing galaxy
/// claims, and consume exactly one fresh id each.
pub proof fn lemma_spawned_galaxies_props(
    galaxies0: Seq<Galaxy>,
    regions: Seq<RegionAgg>,
    stars: Seq<Star>,
    spacing: int,
    threshold: int,
    next_id: int,
    r: int,
)
    requires
        r <= regions.len(),
        forall|p: int, q: int|
            #![trigger regions[p], regions[q]]
            0 <= p < q < regions.len() ==> regions[p].key != regions[q].key,
    ensures
        ({
            let sp = spawned_galaxies(galaxies0, regions, stars, spacing, threshold, next_id, r);
            &&& sp.1 == next_id + sp.0.len()
            &&& forall|s: int|
                0 <= s < sp.0.len() ==> !galaxy_key_exists(galaxies0, (#[trigger] sp.0[s]).region_key)
            &&& forall|s: int|
                0 <= s < sp.0.len() ==> exists|m: int|
                    0 <= m < r && (#[trigger] sp.0[s]).region_key == regions[m].key
            &&& forall|s: int, t: int|
                #![trigger sp.0[s], sp.0[t]]
                0 <= s < t < sp.0.len() ==> sp.0[s].region_key != sp.0[t].region_key
        }),
    decreases r,
{
    if r > 0 {
        lemma_spawned_galaxies_props(galaxies0, regions, stars, spacing, threshold, next_id, r - 1);
        let prev = spawned_galaxies(galaxies0, regions, stars, spacing, threshold, next_id, r - 1);
        let sp = spawned_galaxies(galaxies0, regions, stars, spacing, threshold, next_id, r);
        if sp.0.len() > prev.0.len() {
            assert forall|s: int|
                0 <= s < sp.0.len() implies exists|m: int|
                0 <= m < r && (#[trigger] sp.0[s]).region_key == regions[m].key by {
                if s < prev.0.len() {
                    assert(sp.0[s] == prev.0[s]);
                    let m0 = choose|m: int|
                        0 <= m < r - 1 && prev.0[s].region_key == regions[m].key;
                    assert(0 <= m0 < r && sp.0[s].region_key == regions[m0].key);
                } else {
                    assert(sp.0[s].region_key == regions[r - 1].key);
                }
            }
            assert forall|s: int, t: int|
                #![trigger sp.0[s], sp.0[t]]
                0 <= s < t < sp.0.len() implies sp.0[s].region_key != sp.0[t].region_key by {
                if t < prev.0.len() {
                    assert(sp.0[s] == prev.0[s] && sp.0[t] == prev.0[t]);
                } else {
                    assert(sp.0[s] == prev.0[s]);
                    let m0 = choose|m: int|
                        0 <= m < r - 1 && prev.0[s].region_key == regions[m].key;
                    assert(regions[m0].key != regions[r - 1].key);
                }
            }
        }
    }
}

/// Galaxy decay law: on a refresh where no bucket carries a galaxy's region
/// key, that galaxy's mass and radius are each multiplied by exactly the decay
/// factor (0.9 in fixed point), its identity, star count, center and key are
/// untouched, and the galaxy is never removed from the collection.
pub proof fn lemma_galaxy_decay(
    galaxies: Seq<Galaxy>,
    regions: Seq<RegionAgg>,
    stars: Seq<Star>,
    spacing: int,
    i: int,
)
    requires
        0 <= i < galaxies.len(),
        forall|m: int|
            0 <= m < regions.len() ==> (#[trigger] regions[m]).key != galaxies[i].region_key,
    ensures
        galaxies_refreshed(galaxies, regions, stars, spacing).len() == galaxies.len(),
        galaxies_refreshed(galaxies, regions, stars, spacing)[i] == decayed_galaxy(galaxies[i]),
        decayed_galaxy(galaxies[i]).total_mass as int == fx_mul(
            galaxies[i].total_mass as int,
            GALAXY_DECAY as int,
        ),
        decayed_galaxy(galaxies[i]).radius as int == fx_mul(
            galaxies[i].radius as int,
            GALAXY_DECAY as int,
        ),
        decayed_galaxy(galaxies[i]).id == galaxies[i].id,
        decayed_galaxy(galaxies[i]).num_stars == galaxies[i].num_stars,
        decayed_galaxy(galaxies[i]).center == galaxies[i].center,
        decayed_galaxy(galaxies[i]).region_key == galaxies[i].region_key,
{
    lemma_first_region_index_props(regions, galaxies[i].region_key);
}

/// Index of the first bucket carrying `key`, or the bucket count when absent.
fn find_region(regions: &Vec<RegionAgg>, key: GridPos) -> (idx: usize)
    ensures
        idx as int == first_region_index(regions@, key),
        idx <= regions@.len(),
{
    let n = regions.len();
    let mut i: usize = 0;
    while i < n
        invariant
            n == regions@.len(),
            i <= n,
            forall|p: int| 0 <= p < i ==> (#[trigger] regions@[p]).key != key,
        decreases n - i,
    {
        if regions[i].key.x == key.x && regions[i].key.y == key.y && regions[i].key.z == key.z {
            proof {
                lemma_first_region_index_props(regions@, key);
                let fri = first_region_index(regions@, key);
                if fri < i as int {
                    assert(regions@[fri].key != key);
                    assert(false);
                }
                if fri > i as int {
                    assert(regions@[i as int].key != key);
                    assert(false);
                }
            }
            return i;
        }
        i = i + 1;
    }
    proof {
        lemma_first_region_index_props(regions@, key);
        let fri = first_region_index(regions@, key);
        if fri < n as int {
            assert(regions@[fri].key != key);
            assert(false);
        }
    }
    n
}

/// Refresh the galaxy collection from the current density field, on the galaxy
/// rule's own cadence.
///
/// Cells above the galaxy density threshold are bucketed into regions of
/// `region_size` cells per axis, accumulating total mass and a mass-weighted
/// centroid. Existing galaxies matched by region key are updated in place;
/// galaxies whose bucket disappeared decay by exactly the decay factor and are
/// never removed. Remaining buckets with at least three thresholds of mass
/// spawn new galaxies with fresh, monotonically increasing ids.
pub fn identify_galaxies(
    universe: &PruUniverse,
    tick: u64,
    settings: &FormationSettings,
    schedule: &mut FormationSchedule,
    id_counter: &mut GalaxyIdCounter,
    state: &LatticeState,
    stars: &Vec<Star>,
    galaxies: &mut Vec<Galaxy>,
)
    requires
        state.fields@.len() == state.cells@.len(),
        tick >= old(schedule).last_galaxy_tick,
        universe.spacing > 0,
        stars@.len() <= u32::MAX,
        old(id_counter).next_id as int + state.cells@.len() <= u32::MAX as int,
        forall|p: int, q: int|
            #![trigger old(galaxies)@[p], old(galaxies)@[q]]
            0 <= p < q < old(galaxies)@.len() ==> old(galaxies)@[p].region_key != old(
                galaxies,
            )@[q].region_key,
    ensures
        tick - old(schedule).last_galaxy_tick < settings.galaxy_refresh_interval
            ==> *final(schedule) == *old(schedule) && *final(id_counter) == *old(id_counter)
            && final(galaxies)@ == old(galaxies)@,
        tick - old(schedule).last_galaxy_tick >= settings.galaxy_refresh_interval ==> ({
            let regions = regions_fold(
                state.cells@,
                state.fields@,
                settings.galaxy_density_threshold as int,
                settings.region_size,
                state.cells@.len() as int,
            );
            let refreshed = galaxies_refreshed(
                old(galaxies)@,
                regions,
                stars@,
                universe.spacing as int,
            );
            let spawned = spawned_galaxies(
                old(galaxies)@,
                regions,
                stars@,
                universe.spacing as int,
                settings.galaxy_density_threshold as int,
                old(id_counter).next_id as int,
                regions.len() as int,
            );
            &&& *final(schedule) == (FormationSchedule { last_galaxy_tick: tick, ..*old(schedule) })
            &&& final(galaxies)@ == refreshed + spawned.0
            &&& final(id_counter).next_id as int == spawned.1
        }),
        forall|p: int, q: int|
            #![trigger final(galaxies)@[p], final(galaxies)@[q]]
            0 <= p < q < final(galaxies)@.len()
                ==> final(galaxies)@[p].region_key != final(galaxies)@[q].region_key,
{
    if tick - schedule.last_galaxy_tick < settings.galaxy_refresh_interval {
        return ;
    }
    schedule.last_galaxy_tick = tick;
    let region_size: u32 = if settings.region_size >= 1 {
        settings.region_size
    } else {
        1
    };
    let n = state.cells.len();
    let ghost threshold = settings.galaxy_density_threshold as int;
    let mut regions: Vec<RegionAgg> = Vec::new();
    let mut k: usize = 0;
    while k < n
        invariant
            state.fields@.len() == n == state.cells@.len(),
            k <= n,
            threshold == settings.galaxy_density_threshold as int,
            region_size as int == (if settings.region_size >= 1 {
                settings.region_size as int
            } else {
                1int
            }),
            regions@ == regions_fold(state.cells@, state.fields@, threshold, settings.region_size, k as int),
            regions@.len() <= k,
        decreases n - k,
    {
        let d = state.fields[k].local_density;
        if d >= settings.galaxy_density_threshold {
            let c = state.cells[k].grid_coords;
            let key = GridPos { x: c.x / region_size, y: c.y / region_size, z: c.z / region_size };
            proof {
                assert(key == region_key_of(c, settings.region_size));
            }
            let m = find_region(&regions, key);
            let pos = state.cells[k].position;
            let ghost prev_fold = regions@;
            if m < regions.len() {
                let prev_agg = regions[m];
                let next_agg = RegionAgg {
                    key,
                    mass: add_fx(prev_agg.mass, d),
                    weighted_pos: add_v3(prev_agg.weighted_pos, scale_v3(pos, d)),
                };
                regions[m] = next_agg;
                proof {
                    assert(regions@ == prev_fold.update(m as int, next_agg));
                    assert(regions@ == regions_fold(
                        state.cells@,
                        state.fields@,
                        threshold,
                        settings.region_size,
                        k + 1,
                    ));
                }
            } else {
                let next_agg = RegionAgg { key, mass: d, weighted_pos: scale_v3(pos, d) };
                regions.push(next_agg);
                proof {
                    assert(regions@ == prev_fold.push(next_agg));
                    assert(regions@ == regions_fold(
                        state.cells@,
                        state.fields@,
                        threshold,
                        settings.region_size,
                        k + 1,
                    ));
                }
            }
        }
        k = k + 1;
    }
    let ghost regions_spec = regions@;
    let ghost galaxies0 = galaxies@;
    let gn = galaxies.len();
    let mut gi: usize = 0;
    while gi < gn
        invariant
            universe.spacing > 0,
            stars@.len() <= u32::MAX,
            regions@ == regions_spec,
            galaxies@.len() == gn == galaxies0.len(),
            gi <= gn,
            forall|c: int|
                0 <= c < gi ==> #[trigger] galaxies@[c] == galaxies_refreshed(
                    galaxies0,
                    regions_spec,
                    stars@,
                    universe.spacing as int,
                )[c],
            forall|c: int| gi <= c < gn ==> #[trigger] galaxies@[c] == galaxies0[c],
        decreases gn - gi,
    {
        let g = galaxies[gi];
        let m = find_region(&regions, g.region_key);
        if m < regions.len() {
            let region = regions[m];
            let center = galaxy_center_exec(region);
            let radius = galaxy_radius_exec(region.mass, universe.spacing);
            let count = count_stars_within(stars, center, radius);
            galaxies[gi] = Galaxy {
                id: g.id,
                total_mass: region.mass,
                radius,
                num_stars: count,
                center,
                region_key: g.region_key,
            };
        } else {
            galaxies[gi] = Galaxy {
                id: g.id,
                total_mass: mul_fx(g.total_mass, GALAXY_DECAY),
                radius: mul_fx(g.radius, GALAXY_DECAY),
                num_stars: g.num_stars,
                center: g.center,
                region_key: g.region_key,
            };
        }
        gi = gi + 1;
    }
    let ghost refreshed = galaxies_refreshed(galaxies0, regions_spec, stars@, universe.spacing as int);
    proof {
        assert(galaxies@ =~= refreshed);
        assert(regions_spec.len() <= n);
    }
    let ghost next_id0 = id_counter.next_id as int;
    let rn = regions.len();
    let mut r: usize = 0;
    while r < rn
        invariant
            universe.spacing > 0,
            stars@.len() <= u32::MAX,
            regions@ == regions_spec,
            rn == regions_spec.len() <= n,
            threshold == settings.galaxy_density_threshold as int,
            r <= rn,
            galaxies0.len() == gn,
            next_id0 + n <= u32::MAX as int,
            refreshed == galaxies_refreshed(galaxies0, regions_spec, stars@, universe.spacing as int),
            galaxies@ == refreshed + spawned_galaxies(
                galaxies0,
                regions_spec,
                stars@,
                universe.spacing as int,
                threshold,
                next_id0,
                r as int,
            ).0,
            id_counter.next_id as int == spawned_galaxies(
                galaxies0,
                regions_spec,
                stars@,
                universe.spacing as int,
                threshold,
                next_id0,
                r as int,
            ).1,
            id_counter.next_id as int <= next_id0 + r,
        decreases rn - r,
    {
        let region = regions[r];
        let mut claimed = false;
        let mut t: usize = 0;
        while t < gn
            invariant
                galaxies@ == refreshed + spawned_galaxies(
                    galaxies0,
                    regions_spec,
                    stars@,
                    universe.spacing as int,
                    threshold,
                    next_id0,
                    r as int,
                ).0,
                refreshed == galaxies_refreshed(
                    galaxies0,
                    regions_spec,
                    stars@,
                    universe.spacing as int,
                ),
                galaxies0.len() == gn,
                t <= gn,
                region == regions_spec[r as int],
                0 <= r < regions_spec.len(),
                regions@ == regions_spec,
                claimed ==> galaxy_key_exists(galaxies0, region.key),
                !claimed ==> forall|u: int|
                    0 <= u < t ==> (#[trigger] galaxies0[u]).region_key != region.key,
            decreases gn - t,
        {
            if !claimed {
                let gt = galaxies[t];
                proof {
                    assert(galaxies@[t as int] == refreshed[t as int]);
                    assert(refreshed[t as int].region_key == galaxies0[t as int].region_key);
                }
                if gt.region_key.x == region.key.x && gt.region_key.y == region.key.y
                    && gt.region_key.z == region.key.z {
                    claimed = true;
                    proof {
                        assert(galaxies0[t as int].region_key == region.key);
                    }
                }
            }
            t = t + 1;
        }
        if region.mass >= mul_fx(settings.galaxy_density_threshold, GALAXY_SPAWN_FACTOR)
            && !claimed {
            let center = galaxy_center_exec(region);
            let radius = galaxy_radius_exec(region.mass, universe.spacing);
            let count = count_stars_within(stars, center, radius);
            let id = id_counter.next();
            galaxies.push(Galaxy {
                id,
                total_mass: region.mass,
                radius,
                num_stars: count,
                center,
                region_key: region.key,
            });
        }
        r = r + 1;
    }
    proof {
        let spawned = spawned_galaxies(
            galaxies0,
            regions_spec,
            stars@,
            universe.spacing as int,
            threshold,
            next_id0,
            regions_spec.len() as int,
        );
        lemma_regions_fold_unique(
            state.cells@,
            state.fields@,
            threshold,
            settings.region_size,
            n as int,
        );
        lemma_spawned_galaxies_props(
            galaxies0,
            regions_spec,
            stars@,
            universe.spacing as int,
            threshold,
            next_id0,
            regions_spec.len() as int,
        );
        assert forall|p: int, q: int|
            #![trigger galaxies@[p], galaxies@[q]]
            0 <= p < q < galaxies@.len() implies galaxies@[p].region_key != galaxies@[q].region_key by {
            if q < gn {
                assert(galaxies@[p] == refreshed[p] && galaxies@[q] == refreshed[q]);
                assert(refreshed[p].region_key == galaxies0[p].region_key);
                assert(refreshed[q].region_key == galaxies0[q].region_key);
            } else if p < gn {
                assert(galaxies@[p] == refreshed[p]);
                assert(refreshed[p].region_key == galaxies0[p].region_key);
                assert(galaxies@[q] == spawned.0[q - gn]);
                assert(!galaxy_key_exists(galaxies0, spawned.0[q - gn].region_key));
                if galaxies0[p].region_key == spawned.0[q - gn].region_key {
                    assert(galaxy_key_exists(galaxies0, spawned.0[q - gn].region_key));
                    assert(false);
                }
            } else {
                assert(galaxies@[p] == spawned.0[p - gn] && galaxies@[q] == spawned.0[q - gn]);
            }
        }
    }
}

/// A star-formation sweep only extends the star list: every pre-existing star
/// keeps its index.
pub proof fn lemma_star_pass_extends(
    cells: Seq<PruCell>,
    fields: Seq<DerivedFields>,
    threshold: int,
    radius: int,
    stars: Seq<Star>,
    k: int,
)
    ensures
        star_pass(cells, fields, threshold, radius, stars, k).len() >= stars.len(),
        forall|m: int|
            0 <= m < stars.len() ==> star_pass(cells, fields, threshold, radius, stars, k)[m]
                == stars[m],
    decreases k,
{
    if k > 0 {
        lemma_star_pass_extends(cells, fields, threshold, radius, stars, k - 1);
    }
}

/// Every star a sweep creates respects the avoidance radius: it is not within
/// the avoidance radius of any star that stood earlier in the list, whether
/// pre-existing or created earlier in the same sweep.
pub proof fn lemma_star_pass_respects_avoidance(
    cells: Seq<PruCell>,
    fields: Seq<DerivedFields>,
    threshold: int,
    radius: int,
    stars: Seq<Star>,
    k: int,
)
    ensures
        ({
            let result = star_pass(cells, fields, threshold, radius, stars, k);
            forall|p: int, q: int|
                #![trigger result[p], result[q]]
                stars.len() <= q < result.len() && 0 <= p < q ==> !within_avoidance(
                    result[p].position,
                    result[q].position,
                    radius,
                )
        }),
    decreases k,
{
    if k > 0 {
        let prev = star_pass(cells, fields, threshold, radius, stars, k - 1);
        let cur = star_pass(cells, fields, threshold, radius, stars, k);
        lemma_star_pass_respects_avoidance(cells, fields, threshold, radius, stars, k - 1);
        lemma_star_pass_extends(cells, fields, threshold, radius, stars, k - 1);
        if cur.len() > prev.len() {
            assert(!star_near(prev, cells[k - 1].position, radius));
            assert forall|p: int, q: int|
                #![trigger cur[p], cur[q]]
                stars.len() <= q < cur.len() && 0 <= p < q implies !within_avoidance(
                cur[p].position,
                cur[q].position,
                radius,
            ) by {
                if q < prev.len() {
                    assert(cur[p] == prev[p] && cur[q] == prev[q]);
                } else {
                    assert(cur[q] == star_of(cells[k - 1].position, fields[k - 1].local_density as int));
                    assert(cur[p] == prev[p]);
                    assert(!within_avoidance(prev[p].position, cells[k - 1].position, radius));
                }
            }
        }
    }
}

/// Two consecutive star-formation sweeps over an unchanged field never place
/// two new stars within the avoidance radius of each other, nor a new star
/// within the avoidance radius of a pre-existing one.
pub proof fn lemma_star_formation_avoidance_two_passes(
    cells: Seq<PruCell>,
    fields: Seq<DerivedFields>,
    threshold: int,
    radius: int,
    stars: Seq<Star>,
    k: int,
)
    ensures
        ({
            let twice = star_pass(
                cells,
                fields,
                threshold,
                radius,
                star_pass(cells, fields, threshold, radius, stars, k),
                k,
            );
            forall|p: int, q: int|
                #![trigger twice[p], twice[q]]
                stars.len() <= q < twice.len() && 0 <= p < q ==> !within_avoidance(
                    twice[p].position,
                    twice[q].position,
                    radius,
                )
        }),
{
    let first = star_pass(cells, fields, threshold, radius, stars, k);
    let second = star_pass(cells, fields, threshold, radius, first, k);
    lemma_star_pass_respects_avoidance(cells, fields, threshold, radius, stars, k);
    lemma_star_pass_respects_avoidance(cells, fields, threshold, radius, first, k);
    lemma_star_pass_extends(cells, fields, threshold, radius, stars, k);
    lemma_star_pass_extends(cells, fields, threshold, radius, first, k);
    assert forall|p: int, q: int|
        #![trigger second[p], second[q]]
        stars.len() <= q < second.len() && 0 <= p < q implies !within_avoidance(
        second[p].position,
        second[q].position,
        radius,
    ) by {
        if q < first.len() {
            assert(second[q] == first[q] && second[p] == first[p]);
        }
    }
}

} // verus!
