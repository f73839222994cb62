//! Deterministic Q32.32 fixed-point arithmetic: the numeric policy of the
//! whole engine.
//!
//! A quantity is an `i64` holding its value scaled by `2^32`, so `FX_ONE`
//! stands for `1.0`. Sums and differences saturate at `+/- i64::MAX`; products
//! are taken exactly in 128 bits, divided by `2^32` rounding toward zero, and
//! saturated the same way. The logistic function is computed from a truncated
//! Taylor series for `e^-r` on the unit interval combined with integer powers
//! of a fixed `1/e` constant, then clamped; the hyperbolic tangent is derived
//! from it. Every operation is total and defined by the spec functions below,
//! so any two executions of the same inputs agree bit for bit.

use vstd::prelude::*;

verus! {

/// `1.0` in Q32.32, that is `2^32`.
pub const FX_ONE: i64 = 4294967296;

/// `0.5` in Q32.32, that is `2^31`.
pub const FX_HALF: i64 = 2147483648;

/// Largest magnitude a fixed-point value may take; sums and products
/// saturate here symmetrically.
pub const FX_MAX: i64 = i64::MAX;

/// Saturation threshold of the logistic function: `22.0` in Q32.32. Beyond
/// it the true value differs from the clamp by less than `2^-31`.
pub const SIG_SAT: i64 = 94489280512;

/// `1/e` in Q32.32, rounded down.
pub const EXP_INV_E: i64 = 1580030168;

/// Symmetric saturation of a mathematical integer into the fixed-point range.
pub open spec fn sat_s(x: int) -> i64 {
    if x > FX_MAX {
        FX_MAX
    } else if x < -FX_MAX {
        (-FX_MAX) as i64
    } else {
        x as i64
    }
}

/// Saturating fixed-point addition.
pub open spec fn fx_add_s(a: i64, b: i64) -> i64 {
    sat_s(a + b)
}

/// Saturating fixed-point subtraction.
pub open spec fn fx_sub_s(a: i64, b: i64) -> i64 {
    sat_s(a - b)
}

/// Saturating fixed-point multiplication: exact product, scaled back by
/// `2^32` rounding toward zero.
pub open spec fn fx_mul_s(a: i64, b: i64) -> i64 {
    let p: int = a * b;
    if p >= 0 {
        sat_s(p / 4294967296)
    } else {
        sat_s(-((-p) / 4294967296))
    }
}

/// Saturating fixed-point addition.
pub fn fx_add(a: i64, b: i64) -> (r: i64)
    ensures
        r == fx_add_s(a, b),
{
    let s: i128 = (a as i128) + (b as i128);
    if s > (FX_MAX as i128) {
        FX_MAX
    } else if s < -(FX_MAX as i128) {
        -FX_MAX
    } else {
        s as i64
    }
}

/// Saturating fixed-point subtraction.
pub fn fx_sub(a: i64, b: i64) -> (r: i64)
    ensures
        r == fx_sub_s(a, b),
{
    let s: i128 = (a as i128) - (b as i128);
    if s > (FX_MAX as i128) {
        FX_MAX
    } else if s < -(FX_MAX as i128) {
        -FX_MAX
    } else {
        s as i64
    }
}

/// Saturating fixed-point multiplication.
pub fn fx_mul(a: i64, b: i64) -> (r: i64)
    ensures
        r == fx_mul_s(a, b),
{
    proof {
        assert(-0x40000000000000000000000000000000 <= (a as int) * (b as int)
            <= 0x40000000000000000000000000000000) by (nonlinear_arith);
    }
    let p: i128 = (a as i128) * (b as i128);
    if p >= 0 {
        let q: u128 = (p as u128) / 4294967296;
        if q > (FX_MAX as u128) {
            FX_MAX
        } else {
            q as i64
        }
    } else {
        let m: u128 = ((-p) as u128) / 4294967296;
        if m > (FX_MAX as u128) {
            -FX_MAX
        } else {
            -(m as i64)
        }
    }
}

/// `1/k!` in Q32.32, rounded down, for degrees `0 ..= 12` of the Taylor
/// expansion of `e^-r`; the series is truncated at degree 12, where the
/// terms fall below the resolution.
pub open spec fn inv_fact_s(k: int) -> i64 {
    if k <= 1 {
        4294967296
    } else if k == 2 {
        2147483648
    } else if k == 3 {
        715827882
    } else if k == 4 {
        178956970
    } else if k == 5 {
        35791394
    } else if k == 6 {
        5965232
    } else if k == 7 {
        852176
    } else if k == 8 {
        106522
    } else if k == 9 {
        11835
    } else if k == 10 {
        1183
    } else if k == 11 {
        107
    } else {
        8
    }
}

fn inv_fact(k: usize) -> (r: i64)
    requires
        k <= 12,
    ensures
        r == inv_fact_s(k as int),
{
    if k <= 1 {
        4294967296
    } else if k == 2 {
        2147483648
    } else if k == 3 {
        715827882
    } else if k == 4 {
        178956970
    } else if k == 5 {
        35791394
    } else if k == 6 {
        5965232
    } else if k == 7 {
        852176
    } else if k == 8 {
        106522
    } else if k == 9 {
        11835
    } else if k == 10 {
        1183
    } else if k == 11 {
        107
    } else {
        8
    }
}

/// Horner evaluation of the truncated alternating series for `e^-r`,
/// `sum_{j>=k} (-r)^(j-k) / j!` up to degree 12.
pub open spec fn exp_horner_s(r: i64, k: int) -> i64
    decreases 12 - k,
{
    if k >= 12 {
        inv_fact_s(12)
    } else {
        fx_sub_s(inv_fact_s(k), fx_mul_s(r, exp_horner_s(r, k + 1)))
    }
}

/// `(1/e)^n` in Q32.32, by repeated fixed-point multiplication.
pub open spec fn pow_einv_s(n: int) -> i64
    decreases n,
{
    if n <= 0 {
        FX_ONE
    } else {
        fx_mul_s(pow_einv_s(n - 1), EXP_INV_E)
    }
}

/// Clamp into `[2^-32, 1.0]`, the range an `e^-y` estimate is held to.
pub open spec fn clamp_unit_s(x: i64) -> i64 {
    if x < 1 {
        1
    } else if x > FX_ONE {
        FX_ONE
    } else {
        x
    }
}

/// `e^-y` in Q32.32 for `y >= 0`: the integer part of `y` through powers of
/// `1/e`, the fractional part through the Taylor series, both clamped into
/// `[2^-32, 1.0]`.
pub open spec fn exp_neg_s(y: i64) -> i64 {
    let n = y / FX_ONE;
    let r = y % FX_ONE;
    clamp_unit_s(fx_mul_s(clamp_unit_s(exp_horner_s(r, 0)), pow_einv_s(n)))
}

fn exp_horner(r: i64) -> (res: i64)
    ensures
        res == exp_horner_s(r, 0),
{
    let mut acc: i64 = 8;
    let mut k: usize = 12;
    proof {
        assert(exp_horner_s(r, 12) == inv_fact_s(12));
    }
    while k > 0
        invariant
            k <= 12,
            acc == exp_horner_s(r, k as int),
        decreases k,
    {
        k = k - 1;
        acc = fx_sub(inv_fact(k), fx_mul(r, acc));
    }
    acc
}

fn pow_einv(n: u64) -> (r: i64)
    ensures
        r == pow_einv_s(n as int),
{
    let mut p: i64 = FX_ONE;
    let mut i: u64 = 0;
    while i < n
        invariant
            i <= n,
            p == pow_einv_s(i as int),
        decreases n - i,
    {
        p = fx_mul(p, EXP_INV_E);
        i = i + 1;
    }
    p
}

fn exp_neg(y: i64) -> (r: i64)
    requires
        0 <= y,
    ensures
        r == exp_neg_s(y),
        1 <= r <= FX_ONE,
{
    let yu = y as u64;
    let n: u64 = yu / 4294967296;
    let rem: i64 = (yu % 4294967296) as i64;
    let h = exp_horner(rem);
    let hc: i64 = if h < 1 {
        1
    } else if h > FX_ONE {
        FX_ONE
    } else {
        h
    };
    let e = fx_mul(hc, pow_einv(n));
    if e < 1 {
        1
    } else if e > FX_ONE {
        FX_ONE
    } else {
        e
    }
}

/// The logistic function on the nonnegative half-line: `2^64 / (2^32 + e)`
/// with `e` the `e^-x` estimate, clamped into `[2^-32, 1 - 2^-32]`.
pub open spec fn sig_core_s(x: i64) -> i64 {
    let e = exp_neg_s(x);
    let q = 18446744073709551616int / (FX_ONE + e);
    if q >= FX_ONE {
        (FX_ONE - 1) as i64
    } else if q < 1 {
        1
    } else {
        q as i64
    }
}

/// The logistic function `1/(1 + e^-x)` under the fixed-point policy:
/// saturated at `+/- SIG_SAT`, computed on the nonnegative half-line and
/// reflected by `sigmoid(-x) = 1 - sigmoid(x)` on the negative one.
pub open spec fn sigmoid_s(x: i64) -> i64 {
    if x >= SIG_SAT {
        (FX_ONE - 1) as i64
    } else if x <= -SIG_SAT {
        1
    } else if x >= 0 {
        sig_core_s(x)
    } else {
        sat_s(FX_ONE - sig_core_s((-x) as i64))
    }
}

/// The hyperbolic tangent, derived as `2 * sigmoid(2x) - 1`.
pub open spec fn tanh_s(x: i64) -> i64 {
    let s = sigmoid_s(fx_add_s(x, x));
    fx_sub_s(fx_add_s(s, s), FX_ONE)
}

fn sig_core(x: i64) -> (r: i64)
    requires
        0 <= x,
    ensures
        r == sig_core_s(x),
        1 <= r < FX_ONE,
{
    let e = exp_neg(x);
    let den: u128 = (FX_ONE + e) as u128;
    let q: u128 = 18446744073709551616 / den;
    if q >= (FX_ONE as u128) {
        FX_ONE - 1
    } else if q < 1 {
        1
    } else {
        q as i64
    }
}

/// Elementwise nonlinearity of the forget, input and output gates.
pub fn sigmoid(x: i64) -> (r: i64)
    ensures
        r == sigmoid_s(x),
        0 < r < FX_ONE,
{
    if x >= SIG_SAT {
        FX_ONE - 1
    } else if x <= -SIG_SAT {
        1
    } else if x >= 0 {
        sig_core(x)
    } else {
        let s = sig_core(-x);
        FX_ONE - s
    }
}

/// Nonlinearity of the candidate gate and of the cell-to-hidden path.
pub fn tanh(x: i64) -> (r: i64)
    ensures
        r == tanh_s(x),
        -FX_ONE < r < FX_ONE,
{
    let s = sigmoid(fx_add(x, x));
    fx_sub(fx_add(s, s), FX_ONE)
}

/// The whole fixed-point range is finite, so the logistic output is strictly
/// inside `(0, 1)` for every argument.
pub proof fn lemma_sigmoid_range(x: i64)
    ensures
        0 < sigmoid_s(x) < FX_ONE,
{
}

} // verus!
