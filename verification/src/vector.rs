//! Three-component fixed-point vectors for positions, velocities and
//! accelerations, with the exact negation symmetries that the pairwise gravity
//! solver's equal-and-opposite law rests on.

use vstd::prelude::*;

use crate::fixed::{
    add3_fx, add_fx, fx_add, fx_add3, fx_mul, fx_neg, fx_sub, mul_fx, neg_fx, sub_fx, FX_MAX,
    FX_MIN, FX_ONE,
};
use crate::fixed::{lemma_clip_neg, lemma_fx_mul_neg_left, tdiv};

verus! {

#[derive(Clone, Copy, Debug, PartialEq, Eq, Structural)]
pub struct Vec3Fx {
    pub x: i64,
    pub y: i64,
    pub z: i64,
}

/// All components inside the symmetric scalar range (every vector the library
/// produces satisfies this).
pub open spec fn v3_wf(v: Vec3Fx) -> bool {
    &&& FX_MIN as int <= v.x as int <= FX_MAX as int
    &&& FX_MIN as int <= v.y as int <= FX_MAX as int
    &&& FX_MIN as int <= v.z as int <= FX_MAX as int
}

pub open spec fn v3_zero() -> Vec3Fx {
    Vec3Fx { x: 0, y: 0, z: 0 }
}

pub open spec fn v3_add(a: Vec3Fx, b: Vec3Fx) -> Vec3Fx {
    Vec3Fx {
        x: fx_add(a.x as int, b.x as int) as i64,
        y: fx_add(a.y as int, b.y as int) as i64,
        z: fx_add(a.z as int, b.z as int) as i64,
    }
}

pub open spec fn v3_sub(a: Vec3Fx, b: Vec3Fx) -> Vec3Fx {
    Vec3Fx {
        x: fx_sub(a.x as int, b.x as int) as i64,
        y: fx_sub(a.y as int, b.y as int) as i64,
        z: fx_sub(a.z as int, b.z as int) as i64,
    }
}

pub open spec fn v3_neg(a: Vec3Fx) -> Vec3Fx {
    Vec3Fx {
        x: fx_neg(a.x as int) as i64,
        y: fx_neg(a.y as int) as i64,
        z: fx_neg(a.z as int) as i64,
    }
}

/// Scale every component by the fixed-point scalar `s`.
pub open spec fn v3_scale(a: Vec3Fx, s: int) -> Vec3Fx {
    Vec3Fx {
        x: fx_mul(a.x as int, s) as i64,
        y: fx_mul(a.y as int, s) as i64,
        z: fx_mul(a.z as int, s) as i64,
    }
}

/// Dot product: the three component products are summed exactly and saturated
/// once.
pub open spec fn v3_dot(a: Vec3Fx, b: Vec3Fx) -> int {
    fx_add3(
        fx_mul(a.x as int, b.x as int),
        fx_mul(a.y as int, b.y as int),
        fx_mul(a.z as int, b.z as int),
    )
}

pub fn zero_v3() -> (r: Vec3Fx)
    ensures
        r == v3_zero(),
{
    Vec3Fx { x: 0, y: 0, z: 0 }
}

pub fn add_v3(a: Vec3Fx, b: Vec3Fx) -> (r: Vec3Fx)
    ensures
        r == v3_add(a, b),
{
    Vec3Fx { x: add_fx(a.x, b.x), y: add_fx(a.y, b.y), z: add_fx(a.z, b.z) }
}

pub fn sub_v3(a: Vec3Fx, b: Vec3Fx) -> (r: Vec3Fx)
    ensures
        r == v3_sub(a, b),
{
    Vec3Fx { x: sub_fx(a.x, b.x), y: sub_fx(a.y, b.y), z: sub_fx(a.z, b.z) }
}

pub fn neg_v3(a: Vec3Fx) -> (r: Vec3Fx)
    ensures
        r == v3_neg(a),
{
    Vec3Fx { x: neg_fx(a.x), y: neg_fx(a.y), z: neg_fx(a.z) }
}

pub fn scale_v3(a: Vec3Fx, s: i64) -> (r: Vec3Fx)
    ensures
        r == v3_scale(a, s as int),
{
    Vec3Fx { x: mul_fx(a.x, s), y: mul_fx(a.y, s), z: mul_fx(a.z, s) }
}

pub fn dot_v3(a: Vec3Fx, b: Vec3Fx) -> (r: i64)
    ensures
        r as int == v3_dot(a, b),
{
    add3_fx(mul_fx(a.x, b.x), mul_fx(a.y, b.y), mul_fx(a.z, b.z))
}

/// Squared distance between two points.
pub open spec fn dist2(a: Vec3Fx, b: Vec3Fx) -> int {
    let d = v3_sub(a, b);
    v3_dot(d, d)
}

pub fn dist2_v3(a: Vec3Fx, b: Vec3Fx) -> (r: i64)
    ensures
        r as int == dist2(a, b),
{
    let d = sub_v3(a, b);
    dot_v3(d, d)
}

/// Every operation yields a well-formed vector.
pub proof fn lemma_v3_ops_wf(a: Vec3Fx, b: Vec3Fx, s: int)
    ensures
        v3_wf(v3_add(a, b)),
        v3_wf(v3_sub(a, b)),
        v3_wf(v3_neg(a)),
        v3_wf(v3_scale(a, s)),
{
}

/// Negating a scalar negates the scaled vector exactly.
pub proof fn lemma_v3_scale_neg(a: Vec3Fx, s: int)
    requires
        v3_wf(a),
    ensures
        v3_scale(v3_neg(a), s) == v3_neg(v3_scale(a, s)),
{
    lemma_fx_mul_neg_left(a.x as int, s);
    lemma_fx_mul_neg_left(a.y as int, s);
    lemma_fx_mul_neg_left(a.z as int, s);
    lemma_clip_neg(tdiv(a.x as int * s, FX_ONE as int));
    lemma_clip_neg(tdiv(a.y as int * s, FX_ONE as int));
    lemma_clip_neg(tdiv(a.z as int * s, FX_ONE as int));
}

/// Swapping the operands of a difference negates it exactly.
pub proof fn lemma_v3_sub_antisym(a: Vec3Fx, b: Vec3Fx)
    ensures
        v3_sub(b, a) == v3_neg(v3_sub(a, b)),
{
    lemma_clip_neg(a.x as int - b.x as int);
    lemma_clip_neg(a.y as int - b.y as int);
    lemma_clip_neg(a.z as int - b.z as int);
}

/// A vector and its negation have the same dot product with themselves.
pub proof fn lemma_v3_dot_self_neg(a: Vec3Fx)
    requires
        v3_wf(a),
    ensures
        v3_dot(v3_neg(a), v3_neg(a)) == v3_dot(a, a),
{
    assert((-(a.x as int)) * (-(a.x as int)) == (a.x as int) * (a.x as int)) by (nonlinear_arith);
    assert((-(a.y as int)) * (-(a.y as int)) == (a.y as int) * (a.y as int)) by (nonlinear_arith);
    assert((-(a.z as int)) * (-(a.z as int)) == (a.z as int) * (a.z as int)) by (nonlinear_arith);
}

/// The dot product of a vector with itself is non-negative.
pub proof fn lemma_v3_dot_self_nonneg(a: Vec3Fx)
    ensures
        v3_dot(a, a) >= 0,
{
    crate::fixed::lemma_fx_mul_nonneg_square(a.x as int);
    crate::fixed::lemma_fx_mul_nonneg_square(a.y as int);
    crate::fixed::lemma_fx_mul_nonneg_square(a.z as int);
}

/// Subtracting a well-formed vector is adding its negation.
pub proof fn lemma_v3_sub_as_add_neg(a: Vec3Fx, b: Vec3Fx)
    requires
        v3_wf(b),
    ensures
        v3_sub(a, b) == v3_add(a, v3_neg(b)),
{
}

/// Squared distance is symmetric in its arguments.
pub proof fn lemma_dist2_sym(a: Vec3Fx, b: Vec3Fx)
    ensures
        dist2(a, b) == dist2(b, a),
{
    lemma_v3_sub_antisym(a, b);
    lemma_v3_ops_wf(a, b, 0);
    lemma_v3_dot_self_neg(v3_sub(a, b));
}

} // verus!
