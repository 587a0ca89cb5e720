//! Fixed-point arithmetic, vectors, and the tick scheduler.

use pru_lattice::fixed::{
    abs_fx, add_fx, clamp_fx, div_fx, exp_neg_fx, max_fx, min_fx, mul_fx, neg_fx, sqrt_fx, sub_fx,
    tdiv_fx, FX_MAX, FX_MIN, FX_ONE,
};
use pru_lattice::schedule::{advance_simulation_time, SimulationState};
use pru_lattice::vector::{dist2_v3, dot_v3, neg_v3, scale_v3, sub_v3, Vec3Fx};

const FX: i64 = FX_ONE;

#[test]
fn mul_fx_exact_products() {
    assert_eq!(mul_fx(FX, FX), FX);
    assert_eq!(mul_fx(2 * FX, 3 * FX), 6 * FX);
    assert_eq!(mul_fx(FX / 2, FX / 2), FX / 4);
    assert_eq!(mul_fx(-FX, FX), -FX);
    assert_eq!(mul_fx(-FX, -FX), FX);
    assert_eq!(mul_fx(FX, 0), 0);
}

#[test]
fn mul_fx_rounds_toward_zero() {
    // 1 quantum times 1 quantum underflows to zero from either sign.
    assert_eq!(mul_fx(1, 1), 0);
    assert_eq!(mul_fx(-1, 1), 0);
}

#[test]
fn mul_fx_saturates() {
    assert_eq!(mul_fx(i64::MAX, i64::MAX), FX_MAX);
    assert_eq!(mul_fx(i64::MAX, -i64::MAX), FX_MIN);
}

#[test]
fn div_fx_exact_and_total() {
    assert_eq!(div_fx(FX, 2 * FX), FX / 2);
    assert_eq!(div_fx(-FX, 2 * FX), -FX / 2);
    assert_eq!(div_fx(FX, -2 * FX), -FX / 2);
    assert_eq!(div_fx(FX, 0), 0);
    assert_eq!(div_fx(0, FX), 0);
}

#[test]
fn add_sub_saturate_symmetrically() {
    assert_eq!(add_fx(i64::MAX, i64::MAX), FX_MAX);
    assert_eq!(sub_fx(-i64::MAX, i64::MAX), FX_MIN);
    assert_eq!(neg_fx(FX_MIN), FX_MAX);
    assert_eq!(neg_fx(FX_MAX), FX_MIN);
}

#[test]
fn sqrt_fx_exact_squares() {
    assert_eq!(sqrt_fx(4 * FX), 2 * FX);
    assert_eq!(sqrt_fx(FX), FX);
    assert_eq!(sqrt_fx(0), 0);
    assert_eq!(sqrt_fx(-FX), 0);
    // 2.25 has the exact root 1.5.
    assert_eq!(sqrt_fx(9 * FX / 4), 3 * FX / 2);
}

#[test]
fn exp_neg_fx_known_values() {
    assert_eq!(exp_neg_fx(0), FX);
    assert_eq!(exp_neg_fx(-FX), FX);
    // Underflow cutoff.
    assert_eq!(exp_neg_fx(30 * FX), 0);
    // exp(-1) is about 0.367879; the kernel agrees to within a few quanta
    // per fixed-point unit.
    let e1 = exp_neg_fx(FX);
    let expected = 22_072_766; // 0.36787944 * 60_000_000, rounded
    assert!((e1 - expected).abs() < 6_000, "exp(-1) was {e1}");
    // Strictly between neighbors.
    assert!(exp_neg_fx(2 * FX) < e1);
    assert!(e1 < exp_neg_fx(FX / 2));
}

#[test]
fn helpers_behave() {
    assert_eq!(min_fx(3, -5), -5);
    assert_eq!(max_fx(3, -5), 3);
    assert_eq!(abs_fx(-7), 7);
    assert_eq!(clamp_fx(5, 0, 3), 3);
    assert_eq!(clamp_fx(-5, 0, 3), 0);
    assert_eq!(tdiv_fx(7, 2), 3);
    assert_eq!(tdiv_fx(-7, 2), -3);
}

#[test]
fn vector_negation_is_exact() {
    let v = Vec3Fx { x: 3 * FX, y: -2 * FX, z: 1 };
    let n = neg_v3(v);
    assert_eq!(n, Vec3Fx { x: -3 * FX, y: 2 * FX, z: -1 });
    let a = Vec3Fx { x: FX, y: 0, z: 0 };
    let b = Vec3Fx { x: 4 * FX, y: 0, z: 0 };
    assert_eq!(sub_v3(a, b), neg_v3(sub_v3(b, a)));
    assert_eq!(dist2_v3(a, b), dist2_v3(b, a));
    assert_eq!(dist2_v3(a, b), 9 * FX);
    assert_eq!(dot_v3(a, a), FX);
    assert_eq!(scale_v3(b, FX / 2), Vec3Fx { x: 2 * FX, y: 0, z: 0 });
}

#[test]
fn scheduler_two_sixtieths_give_two_steps() {
    // A scheduler at dt = 1/60 and unit time scale, fed 2/60 seconds of wall
    // clock, produces exactly 2 steps and a zero remainder.
    let mut state = SimulationState::default();
    assert_eq!(state.dt, FX / 60);
    let steps = advance_simulation_time(&mut state, 2 * FX / 60);
    assert_eq!(steps, 2);
    assert_eq!(state.accumulated_time, 0);
    assert_eq!(state.tick, 2);
    assert_eq!(state.simulation_time, 2 * FX / 60);
}

#[test]
fn scheduler_keeps_partial_remainder() {
    let mut state = SimulationState::default();
    let steps = advance_simulation_time(&mut state, FX / 60 + FX / 120);
    assert_eq!(steps, 1);
    assert_eq!(state.accumulated_time, FX / 120);
    assert_eq!(state.tick, 1);
}

#[test]
fn scheduler_paused_produces_no_steps() {
    let mut state = SimulationState::default();
    state.running = false;
    let steps = advance_simulation_time(&mut state, 100 * FX);
    assert_eq!(steps, 0);
    assert_eq!(state.tick, 0);
    assert_eq!(state.accumulated_time, 0);
}

#[test]
fn scheduler_single_step_advances_while_paused() {
    let mut state = SimulationState::default();
    state.running = false;
    state.step_once();
    assert_eq!(state.tick, 1);
    assert_eq!(state.simulation_time, FX / 60);
}

#[test]
fn scheduler_toggle_flips_running() {
    let mut state = SimulationState::default();
    state.toggle();
    assert!(!state.running);
    state.toggle();
    assert!(state.running);
}

#[test]
fn scheduler_speed_clamps() {
    let mut state = SimulationState::default();
    state.adjust_speed(100 * FX);
    assert_eq!(state.time_scale, 10 * FX);
    state.adjust_speed(-100 * FX);
    assert_eq!(state.time_scale, FX / 10);
}

#[test]
fn scheduler_time_scale_scales_delta() {
    let mut state = SimulationState::default();
    state.time_scale = 2 * FX;
    let steps = advance_simulation_time(&mut state, FX / 60);
    assert_eq!(steps, 2);
    assert_eq!(state.accumulated_time, 0);
}
