//! Saturating fixed-point scalar arithmetic.
//!
//! A scalar world value is an `i64` holding `FX_ONE` quanta per unit. Every
//! operation is total: intermediate results are computed exactly in `i128` and
//! saturated into the symmetric range `[-i64::MAX, i64::MAX]`, and division by
//! zero yields zero (a singular interaction contributes nothing). The symmetric
//! range and round-toward-zero division make negation an exact involution,
//! which the pairwise gravity solver relies on for its equal-and-opposite law.

use vstd::prelude::*;

verus! {

/// Number of fixed-point quanta per world unit.
pub const FX_ONE: i64 = 60_000_000;

/// One half, in fixed-point quanta.
pub const FX_HALF: i64 = 30_000_000;

/// Largest representable scalar.
pub const FX_MAX: i64 = i64::MAX;

/// Smallest representable scalar; the range is symmetric so that negation
/// never saturates.
pub const FX_MIN: i64 = -i64::MAX;

/// Truncating (round-toward-zero) integer division, total: division by zero
/// yields zero.
pub open spec fn tdiv(n: int, d: int) -> int {
    if d == 0 {
        0
    } else if n >= 0 && d > 0 {
        n / d
    } else if n < 0 && d > 0 {
        -((-n) / d)
    } else if n >= 0 {
        -(n / (-d))
    } else {
        (-n) / (-d)
    }
}

/// Saturate an unbounded value into the representable range.
pub open spec fn clip(v: int) -> int {
    if v > FX_MAX as int {
        FX_MAX as int
    } else if v < FX_MIN as int {
        FX_MIN as int
    } else {
        v
    }
}

pub open spec fn fx_add(a: int, b: int) -> int {
    clip(a + b)
}

pub open spec fn fx_sub(a: int, b: int) -> int {
    clip(a - b)
}

pub open spec fn fx_neg(a: int) -> int {
    clip(-a)
}

pub open spec fn fx_mul(a: int, b: int) -> int {
    clip(tdiv(a * b, FX_ONE as int))
}

pub open spec fn fx_div(a: int, b: int) -> int {
    if b == 0 {
        0
    } else {
        clip(tdiv(a * (FX_ONE as int), b))
    }
}

pub open spec fn fx_min(a: int, b: int) -> int {
    if a <= b {
        a
    } else {
        b
    }
}

pub open spec fn fx_max(a: int, b: int) -> int {
    if a >= b {
        a
    } else {
        b
    }
}

pub open spec fn fx_abs(a: int) -> int {
    if a >= 0 {
        a
    } else {
        -a
    }
}

/// Clamp into `[lo, hi]` (callers establish `lo <= hi`).
pub open spec fn fx_clamp(v: int, lo: int, hi: int) -> int {
    if v < lo {
        lo
    } else if v > hi {
        hi
    } else {
        v
    }
}

/// Saturate an exactly computed `i128` into the scalar range.
fn clip_i128(v: i128) -> (r: i64)
    ensures
        r as int == clip(v as int),
{
    if v > FX_MAX as i128 {
        FX_MAX
    } else if v < FX_MIN as i128 {
        FX_MIN
    } else {
        v as i64
    }
}

/// Bound on any product of two `i64`-ranged factors (`2^126`).
pub const FX_PROD_BOUND: i128 = 0x40000000000000000000000000000000;

/// A product of two `i64`-ranged factors stays within `FX_PROD_BOUND`.
proof fn lemma_mul_i64_bound(a: int, b: int)
    requires
        i64::MIN <= a <= i64::MAX,
        i64::MIN <= b <= i64::MAX,
    ensures
        -(FX_PROD_BOUND as int) <= a * b <= FX_PROD_BOUND as int,
{
    assert(-(FX_PROD_BOUND as int) <= a * b <= FX_PROD_BOUND as int) by (nonlinear_arith)
        requires
            -0x8000000000000000 <= a <= 0x7fffffffffffffff,
            -0x8000000000000000 <= b <= 0x7fffffffffffffff,
    ;
}

/// Round-toward-zero division on exact intermediates.
fn div_trunc_i128(n: i128, d: i128) -> (q: i128)
    requires
        d != 0,
        -FX_PROD_BOUND <= n <= FX_PROD_BOUND,
        -FX_PROD_BOUND <= d <= FX_PROD_BOUND,
    ensures
        q as int == tdiv(n as int, d as int),
{
    let nm: u128 = if n < 0 {
        (-n) as u128
    } else {
        n as u128
    };
    let dm: u128 = if d < 0 {
        (-d) as u128
    } else {
        d as u128
    };
    assert(nm as int == fx_abs(n as int));
    assert(dm as int == fx_abs(d as int));
    let qm: u128 = nm / dm;
    assert(qm <= nm) by (nonlinear_arith)
        requires
            dm >= 1,
            qm == nm / dm,
    ;
    let q: i128 = if (n < 0) != (d < 0) {
        -(qm as i128)
    } else {
        qm as i128
    };
    q
}

pub fn add_fx(a: i64, b: i64) -> (r: i64)
    ensures
        r as int == fx_add(a as int, b as int),
{
    clip_i128(a as i128 + b as i128)
}

pub fn sub_fx(a: i64, b: i64) -> (r: i64)
    ensures
        r as int == fx_sub(a as int, b as int),
{
    clip_i128(a as i128 - b as i128)
}

pub fn neg_fx(a: i64) -> (r: i64)
    ensures
        r as int == fx_neg(a as int),
{
    if a == i64::MIN {
        FX_MAX
    } else {
        -a
    }
}

pub fn mul_fx(a: i64, b: i64) -> (r: i64)
    ensures
        r as int == fx_mul(a as int, b as int),
{
    proof {
        lemma_mul_i64_bound(a as int, b as int);
    }
    let p: i128 = (a as i128) * (b as i128);
    let q = div_trunc_i128(p, FX_ONE as i128);
    clip_i128(q)
}

pub fn div_fx(a: i64, b: i64) -> (r: i64)
    ensures
        r as int == fx_div(a as int, b as int),
{
    if b == 0 {
        0
    } else {
        proof {
            lemma_mul_i64_bound(a as int, FX_ONE as int);
        }
        let p: i128 = (a as i128) * (FX_ONE as i128);
        let q = div_trunc_i128(p, b as i128);
        clip_i128(q)
    }
}

/// Saturate an exactly computed `i128` into the scalar range.
pub fn clip_saturate(v: i128) -> (r: i64)
    ensures
        r as int == clip(v as int),
{
    clip_i128(v)
}

/// Round-toward-zero division of a scalar by a positive divisor.
pub fn tdiv_fx(n: i64, d: i64) -> (q: i64)
    requires
        d > 0,
    ensures
        q as int == tdiv(n as int, d as int),
{
    let q128 = div_trunc_i128(n as i128, d as i128);
    proof {
        if n >= 0 {
            vstd::arithmetic::div_mod::lemma_div_nonincreasing(n as int, d as int);
            vstd::arithmetic::div_mod::lemma_div_pos_is_pos(n as int, d as int);
        } else {
            vstd::arithmetic::div_mod::lemma_div_nonincreasing(-(n as int), d as int);
            vstd::arithmetic::div_mod::lemma_div_pos_is_pos(-(n as int), d as int);
        }
    }
    q128 as i64
}

pub open spec fn fx_add3(a: int, b: int, c: int) -> int {
    clip(a + b + c)
}

/// Saturating three-way sum, saturated once on the exact total.
pub fn add3_fx(a: i64, b: i64, c: i64) -> (r: i64)
    ensures
        r as int == fx_add3(a as int, b as int, c as int),
{
    clip_i128(a as i128 + b as i128 + c as i128)
}

pub fn min_fx(a: i64, b: i64) -> (r: i64)
    ensures
        r as int == fx_min(a as int, b as int),
{
    if a <= b {
        a
    } else {
        b
    }
}

pub fn max_fx(a: i64, b: i64) -> (r: i64)
    ensures
        r as int == fx_max(a as int, b as int),
{
    if a >= b {
        a
    } else {
        b
    }
}

pub fn abs_fx(a: i64) -> (r: i64)
    ensures
        r as int == clip(fx_abs(a as int)),
{
    if a == i64::MIN {
        FX_MAX
    } else if a < 0 {
        -a
    } else {
        a
    }
}

pub fn clamp_fx(v: i64, lo: i64, hi: i64) -> (r: i64)
    requires
        lo <= hi,
    ensures
        r as int == fx_clamp(v as int, lo as int, hi as int),
{
    if v < lo {
        lo
    } else if v > hi {
        hi
    } else {
        v
    }
}

/// `r` is the floor of the square root of `x`.
pub open spec fn is_sqrt_floor(x: int, r: int) -> bool {
    &&& 0 <= r
    &&& r * r <= x
    &&& x < (r + 1) * (r + 1)
}

/// The floor of the square root of a non-negative value.
pub closed spec fn sqrt_floor(x: int) -> int {
    choose|r: int| is_sqrt_floor(x, r)
}

/// Any witness of `is_sqrt_floor` is the unique square-root floor.
pub proof fn lemma_sqrt_floor_unique(x: int, r: int)
    requires
        is_sqrt_floor(x, r),
    ensures
        sqrt_floor(x) == r,
{
    assert(is_sqrt_floor(x, sqrt_floor(x))) by {
        assert(exists|w: int| is_sqrt_floor(x, w));
    }
    let r2 = sqrt_floor(x);
    if r2 < r {
        assert((r2 + 1) * (r2 + 1) <= r * r) by (nonlinear_arith)
            requires
                0 <= r2,
                r2 + 1 <= r,
        ;
        assert(false);
    }
    if r < r2 {
        assert((r + 1) * (r + 1) <= r2 * r2) by (nonlinear_arith)
            requires
                0 <= r,
                r + 1 <= r2,
        ;
        assert(false);
    }
}

/// Binary search for the integer square root.
fn isqrt_u128(x: u128) -> (r: u64)
    ensures
        r as int == sqrt_floor(x as int),
        is_sqrt_floor(x as int, r as int),
{
    let mut lo: u128 = 0;
    let mut hi: u128 = 0x10000000000000000;
    proof {
        assert((0x10000000000000000 as int) * (0x10000000000000000 as int)
            == 0x100000000000000000000000000000000);
    }
    while lo + 1 < hi
        invariant
            lo < hi <= 0x10000000000000000,
            (lo as int) * (lo as int) <= x as int,
            (x as int) < (hi as int) * (hi as int),
        decreases hi - lo,
    {
        let mid = lo + (hi - lo) / 2;
        assert((mid as int) * (mid as int) < 0x100000000000000000000000000000000) by (nonlinear_arith)
            requires
                mid < 0x10000000000000000,
        ;
        let sq = mid * mid;
        if sq <= x {
            lo = mid;
        } else {
            hi = mid;
        }
    }
    proof {
        lemma_sqrt_floor_unique(x as int, lo as int);
    }
    lo as u64
}

/// Square root of a fixed-point scalar, as a fixed-point scalar: the exact
/// integer square root of `a * FX_ONE` quanta; non-positive inputs yield zero.
pub open spec fn fx_sqrt(a: int) -> int {
    if a <= 0 {
        0
    } else {
        sqrt_floor(a * (FX_ONE as int))
    }
}

pub fn sqrt_fx(a: i64) -> (r: i64)
    ensures
        r as int == fx_sqrt(a as int),
{
    if a <= 0 {
        0
    } else {
        assert((a as int) * (FX_ONE as int) < 0x100000000000000000000000000000000) by (nonlinear_arith)
            requires
                0 < a as int <= 0x7fffffffffffffff,
        ;
        let x: u128 = (a as u128) * (FX_ONE as u128);
        let r = isqrt_u128(x);
        assert(r as int <= 0x7fffffffffffffff) by (nonlinear_arith)
            requires
                (r as int) * (r as int) <= x as int,
                x as int <= 0x7fffffffffffffff * (FX_ONE as int),
                0 <= r as int,
        ;
        r as i64
    }
}

/// Inputs at or above this threshold make the decay kernel underflow to zero
/// (thirty world units).
pub const FX_EXP_CUT: i64 = 1_800_000_000;

/// Truncated alternating series for the decay kernel on a small argument.
pub open spec fn taylor_exp_neg(t: int) -> int {
    let t2 = fx_mul(t, t);
    let t3 = fx_mul(t2, t);
    clip(FX_ONE - t + tdiv(t2, 2) - tdiv(t3, 6))
}

/// `k` successive fixed-point squarings of `v`.
pub open spec fn square_k(v: int, k: nat) -> int
    decreases k,
{
    if k == 0 {
        v
    } else {
        square_k(fx_mul(v, v), (k - 1) as nat)
    }
}

/// Exponential decay `exp(-x)` on fixed-point scalars: the argument is scaled
/// down by `2^9`, fed through a truncated series, and squared nine times.
/// Negative arguments saturate to one, large arguments underflow to zero.
pub open spec fn fx_exp_neg(x: int) -> int {
    if x < 0 {
        FX_ONE as int
    } else if x >= FX_EXP_CUT as int {
        0
    } else {
        square_k(taylor_exp_neg(tdiv(x, 512)), 9)
    }
}

fn taylor_exp_neg_exec(t: i64) -> (r: i64)
    ensures
        r as int == taylor_exp_neg(t as int),
{
    let t2 = mul_fx(t, t);
    let t3 = mul_fx(t2, t);
    let h2 = div_trunc_i128(t2 as i128, 2);
    let h3 = div_trunc_i128(t3 as i128, 6);
    clip_i128(FX_ONE as i128 - t as i128 + h2 - h3)
}

/// Peeling the outermost squaring off `square_k`.
proof fn lemma_square_k_step(v: int, k: nat)
    ensures
        square_k(v, k + 1) == fx_mul(square_k(v, k), square_k(v, k)),
    decreases k,
{
    assert(square_k(v, k + 1) == square_k(fx_mul(v, v), k));
    if k > 0 {
        lemma_square_k_step(fx_mul(v, v), (k - 1) as nat);
        assert(square_k(v, k) == square_k(fx_mul(v, v), (k - 1) as nat));
    }
}

pub fn exp_neg_fx(x: i64) -> (r: i64)
    ensures
        r as int == fx_exp_neg(x as int),
{
    if x < 0 {
        FX_ONE
    } else if x >= FX_EXP_CUT {
        0
    } else {
        let t = ((x as u64) / 512) as i64;
        assert(t as int == tdiv(x as int, 512));
        let t0 = taylor_exp_neg_exec(t);
        let mut v = t0;
        let mut k: u32 = 0;
        while k < 9
            invariant
                k <= 9,
                v as int == square_k(t0 as int, k as nat),
            decreases 9 - k,
        {
            proof {
                lemma_square_k_step(t0 as int, k as nat);
            }
            v = mul_fx(v, v);
            k = k + 1;
        }
        v
    }
}

/// The truncated series stays within `[0, FX_ONE]` on the arguments the decay
/// kernel feeds it.
proof fn lemma_taylor_exp_neg_bounds(t: int)
    requires
        0 <= t <= 3_515_625,
    ensures
        0 <= taylor_exp_neg(t) <= FX_ONE as int,
{
    let t2 = fx_mul(t, t);
    let t3 = fx_mul(t2, t);
    lemma_fx_mul_le(t, t);
    lemma_fx_mul_le(t2, t);
    assert(0 <= tdiv(t2, 2) <= t2);
    assert(0 <= tdiv(t3, 6) <= t3);
    assert(2 * tdiv(t2, 2) <= t2);
}

/// Repeated squaring keeps a scalar within `[0, FX_ONE]`.
proof fn lemma_square_k_bounds(v: int, k: nat)
    requires
        0 <= v <= FX_ONE as int,
    ensures
        0 <= square_k(v, k) <= FX_ONE as int,
    decreases k,
{
    if k > 0 {
        lemma_fx_mul_le(v, v);
        lemma_square_k_bounds(fx_mul(v, v), (k - 1) as nat);
    }
}

/// The decay kernel always yields a weight in `[0, FX_ONE]`.
pub proof fn lemma_fx_exp_neg_bounds(x: int)
    ensures
        0 <= fx_exp_neg(x) <= FX_ONE as int,
{
    if 0 <= x < FX_EXP_CUT as int {
        let t = tdiv(x, 512);
        assert(0 <= t <= 3_515_625);
        lemma_taylor_exp_neg_bounds(t);
        lemma_square_k_bounds(taylor_exp_neg(t), 9);
    }
}

/// Round-toward-zero division commutes with negating the dividend.
pub proof fn lemma_tdiv_neg(n: int, d: int)
    ensures
        tdiv(-n, d) == -tdiv(n, d),
{
}

/// Saturation commutes with negation, thanks to the symmetric range.
pub proof fn lemma_clip_neg(v: int)
    ensures
        clip(-v) == -clip(v),
{
}

/// Negation distributes exactly over a fixed-point product.
pub proof fn lemma_fx_mul_neg_left(a: int, b: int)
    ensures
        fx_mul(-a, b) == -fx_mul(a, b),
{
    assert((-a) * b == -(a * b)) by (nonlinear_arith);
    lemma_tdiv_neg(a * b, FX_ONE as int);
    lemma_clip_neg(tdiv(a * b, FX_ONE as int));
}

/// A product of non-negative scalars is non-negative.
pub proof fn lemma_fx_mul_nonneg(a: int, b: int)
    requires
        a >= 0,
        b >= 0,
    ensures
        fx_mul(a, b) >= 0,
{
    assert(a * b >= 0) by (nonlinear_arith)
        requires
            a >= 0,
            b >= 0,
    ;
}

/// A fixed-point square is non-negative, for any representable input.
pub proof fn lemma_fx_mul_nonneg_square(a: int)
    ensures
        fx_mul(a, a) >= 0,
{
    assert(a * a >= 0) by (nonlinear_arith);
}

/// Multiplying by a factor of at most one never grows a non-negative scalar.
pub proof fn lemma_fx_mul_le(a: int, b: int)
    requires
        0 <= a,
        0 <= b <= FX_ONE as int,
    ensures
        0 <= fx_mul(a, b) <= a,
{
    assert(0 <= a * b && a * b <= a * (FX_ONE as int)) by (nonlinear_arith)
        requires
            0 <= a,
            0 <= b <= FX_ONE as int,
    ;
    assert((a * b) / (FX_ONE as int) <= (a * (FX_ONE as int)) / (FX_ONE as int)) by (nonlinear_arith)
        requires
            a * b <= a * (FX_ONE as int),
            0 <= a * b,
    ;
    assert((a * (FX_ONE as int)) / (FX_ONE as int) == a) by (nonlinear_arith)
        requires
            0 <= a,
    ;
}

} // verus!
