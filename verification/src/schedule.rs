//! Global simulation state: the fixed-timestep tick scheduler and time
//! scaling.
//!
//! The scheduler accumulates scaled wall-clock time into a running remainder
//! and converts it into a discrete count of pending fixed steps, decoupling
//! the render-frame rate from the simulation-step rate. When paused it
//! produces no steps regardless of elapsed wall time; a manual single step
//! always advances exactly one tick.

use vstd::prelude::*;

use vstd::arithmetic::div_mod::lemma_fundamental_div_mod;

use crate::fixed::{add_fx, clamp_fx, clip, fx_add, fx_clamp, fx_mul, mul_fx, FX_ONE};

verus! {

/// Lower clamp on the time scale (0.1).
pub const TIME_SCALE_MIN: i64 = 6_000_000;

/// Upper clamp on the time scale (10).
pub const TIME_SCALE_MAX: i64 = 600_000_000;

/// Global simulation state controlling the tick loop and time scaling.
#[derive(Clone, Copy, Debug, PartialEq, Eq, Structural)]
pub struct SimulationState {
    /// Whether the simulation is currently advancing.
    pub running: bool,
    /// Multiplier applied to real time to speed up or slow down ticks.
    pub time_scale: i64,
    /// Current discrete tick counter.
    pub tick: u64,
    /// Fixed simulation delta time (seconds per tick).
    pub dt: i64,
    /// Accumulated (scaled) time used to trigger ticks.
    pub accumulated_time: i64,
    /// Total simulated time in seconds.
    pub simulation_time: i64,
}

impl Default for SimulationState {
    /// Running at unit time scale with a sixtieth-of-a-second step.
    fn default() -> (s: Self)
        ensures
            s == (SimulationState {
                running: true,
                time_scale: FX_ONE,
                tick: 0,
                dt: 1_000_000,
                accumulated_time: 0,
                simulation_time: 0,
            }),
    {
        SimulationState {
            running: true,
            time_scale: FX_ONE,
            tick: 0,
            dt: 1_000_000,
            accumulated_time: 0,
            simulation_time: 0,
        }
    }
}

/// Number of whole fixed steps available once `scaled` time is added to the
/// remainder `acc`.
pub open spec fn pending_steps_of(acc: int, scaled: int, dt: int) -> int {
    let t = fx_add(acc, scaled);
    if t >= 0 {
        t / dt
    } else {
        0
    }
}

/// The remainder left after subtracting the pending whole steps.
pub open spec fn remainder_of(acc: int, scaled: int, dt: int) -> int {
    fx_add(acc, scaled) - pending_steps_of(acc, scaled, dt) * dt
}

impl SimulationState {
    /// Toggle the running flag.
    pub fn toggle(&mut self)
        ensures
            *final(self) == (SimulationState { running: !old(self).running, ..*old(self) }),
    {
        self.running = !self.running;
    }

    /// Advance by a single tick even while paused.
    pub fn step_once(&mut self)
        requires
            old(self).tick < u64::MAX,
        ensures
            *final(self) == (SimulationState {
                tick: (old(self).tick + 1) as u64,
                simulation_time: fx_add(
                    old(self).simulation_time as int,
                    old(self).dt as int,
                ) as i64,
                ..*old(self)
            }),
    {
        self.tick = self.tick + 1;
        self.simulation_time = add_fx(self.simulation_time, self.dt);
    }

    /// Adjust the time scale, keeping it within its clamped range.
    pub fn adjust_speed(&mut self, delta: i64)
        ensures
            *final(self) == (SimulationState {
                time_scale: fx_clamp(
                    fx_add(old(self).time_scale as int, delta as int),
                    TIME_SCALE_MIN as int,
                    TIME_SCALE_MAX as int,
                ) as i64,
                ..*old(self)
            }),
    {
        self.time_scale = clamp_fx(add_fx(self.time_scale, delta), TIME_SCALE_MIN, TIME_SCALE_MAX);
    }
}

/// Drive the fixed-timestep tick counter from a wall-clock delta scaled by the
/// simulation speed, and return how many fixed steps the physics stage must
/// execute.
///
/// While paused nothing changes and no steps are produced. Otherwise the
/// scaled delta joins the accumulated remainder; every whole `dt` inside it
/// becomes one pending step, and exactly the remainder below `dt` stays
/// accumulated.
pub fn advance_simulation_time(state: &mut SimulationState, wall_delta: i64) -> (steps: u64)
    requires
        old(state).dt >= 1,
        old(state).tick as int + pending_steps_of(
            old(state).accumulated_time as int,
            fx_mul(wall_delta as int, old(state).time_scale as int),
            old(state).dt as int,
        ) <= u64::MAX as int,
    ensures
        !old(state).running ==> steps == 0 && *final(state) == *old(state),
        old(state).running ==> {
            let scaled = fx_mul(wall_delta as int, old(state).time_scale as int);
            let acc = old(state).accumulated_time as int;
            let dt = old(state).dt as int;
            let s = pending_steps_of(acc, scaled, dt);
            &&& steps as int == s
            &&& final(state).tick as int == old(state).tick as int + s
            &&& final(state).accumulated_time as int == remainder_of(acc, scaled, dt)
            &&& final(state).simulation_time as int == clip(
                old(state).simulation_time as int + s * dt,
            )
            &&& final(state).running == old(state).running
            &&& final(state).time_scale == old(state).time_scale
            &&& final(state).dt == old(state).dt
        },
{
    if !state.running {
        return 0;
    }
    let scaled = mul_fx(wall_delta, state.time_scale);
    let total = add_fx(state.accumulated_time, scaled);
    let ghost dt_i = state.dt as int;
    let steps: u64;
    let rem: i64;
    if total >= 0 {
        steps = (total as u64) / (state.dt as u64);
        rem = ((total as u64) % (state.dt as u64)) as i64;
        proof {
            lemma_fundamental_div_mod(total as int, dt_i);
        }
    } else {
        steps = 0;
        rem = total;
    }
    state.accumulated_time = rem;
    state.tick = state.tick + steps;
    proof {
        if total >= 0 {
            vstd::arithmetic::div_mod::lemma_div_pos_is_pos(total as int, dt_i);
            lemma_fundamental_div_mod(total as int, dt_i);
            vstd::arithmetic::div_mod::lemma_mod_bound(total as int, dt_i);
            assert(steps as int * dt_i <= total as int);
        }
    }
    let sim_add: i128 = (state.simulation_time as i128) + (steps as i128) * (state.dt as i128);
    state.simulation_time = crate::fixed::clip_saturate(sim_add);
    steps
}

} // verus!
