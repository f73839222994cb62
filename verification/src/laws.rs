//! Global properties of the engine, stated and proved once over the
//! spec-level recurrences: determinism of the score, strict boundedness,
//! and the all-zero edge case.

use vstd::prelude::*;

use crate::fixed::{
    exp_horner_s, exp_neg_s, fx_add_s, fx_mul_s, lemma_sigmoid_range, pow_einv_s, sig_core_s,
    sigmoid_s, tanh_s, FX_HALF, FX_ONE,
};
use crate::lstm::{
    col_dot_prefix_s, col_dot_s, dense_sigmoid_s, forward_s, forward_shapes_ok, gate_s,
    lstm_layer_s, lstm_states_s, new_cell_s, new_hidden_s, step_cell_s, step_hidden_s, zero_seq,
};
use crate::model::WeightSetView;

verus! {

/// Every entry of the vector is zero.
pub open spec fn all_zero_vec(v: Seq<i64>) -> bool {
    forall|i: int| 0 <= i < v.len() ==> v[i] == 0i64
}

/// Every entry of the matrix is zero.
pub open spec fn all_zero_mat(m: Seq<Seq<i64>>) -> bool {
    forall|i: int| 0 <= i < m.len() ==> all_zero_vec(#[trigger] m[i])
}

/// Every weight and bias of the whole network is zero.
pub open spec fn all_zero_weights(w: WeightSetView) -> bool {
    &&& all_zero_mat(w.lstm1_kernel)
    &&& all_zero_mat(w.lstm1_recurrent)
    &&& all_zero_vec(w.lstm1_bias)
    &&& all_zero_mat(w.lstm2_kernel)
    &&& all_zero_mat(w.lstm2_recurrent)
    &&& all_zero_vec(w.lstm2_bias)
    &&& all_zero_mat(w.dense_kernel)
    &&& all_zero_vec(w.dense_bias)
}

/// Determinism: the score is a function of the weight set and the market
/// window alone, so two independent runs of the forward pass over equal
/// inputs produce the identical scalar.
pub proof fn lemma_forward_deterministic(
    w1: WeightSetView,
    m1: Seq<Seq<i64>>,
    w2: WeightSetView,
    m2: Seq<Seq<i64>>,
)
    requires
        w1 == w2,
        m1 == m2,
    ensures
        forward_s(w1, m1) == forward_s(w2, m2),
{
}

/// Boundedness: the score of any weight set and market window -- every
/// fixed-point value is finite -- lies strictly inside `(0, 1)`.
pub proof fn lemma_score_bounded(w: WeightSetView, m: Seq<Seq<i64>>)
    ensures
        0 < forward_s(w, m) < FX_ONE,
{
    let u1 = w.lstm1_recurrent.len();
    let u2 = w.lstm2_recurrent.len();
    let h1 = lstm_layer_s(m, w.lstm1_kernel, w.lstm1_recurrent, w.lstm1_bias, u1);
    let h2 = lstm_layer_s(h1, w.lstm2_kernel, w.lstm2_recurrent, w.lstm2_bias, u2);
    let h = h2[h2.len() - 1];
    lemma_sigmoid_range(fx_add_s(col_dot_s(w.dense_kernel, h, 0), w.dense_bias[0]));
}

/// A column dot product against an all-zero matrix is zero.
proof fn lemma_col_dot_prefix_zero(m: Seq<Seq<i64>>, v: Seq<i64>, g: int, d: int)
    requires
        all_zero_mat(m),
        d <= m.len(),
        0 <= g,
        forall|j: int| 0 <= j < m.len() ==> g < (#[trigger] m[j].len()),
    ensures
        col_dot_prefix_s(m, v, g, d) == 0,
    decreases d,
{
    if d > 0 {
        lemma_col_dot_prefix_zero(m, v, g, d - 1);
        assert(m[d - 1][g] == 0);
    }
}

/// A gate pre-activation of all-zero weights and biases is zero.
proof fn lemma_gate_zero(
    kernel: Seq<Seq<i64>>,
    recurrent: Seq<Seq<i64>>,
    bias: Seq<i64>,
    x: Seq<i64>,
    h: Seq<i64>,
    g: int,
)
    requires
        all_zero_mat(kernel),
        all_zero_mat(recurrent),
        all_zero_vec(bias),
        0 <= g < bias.len(),
        forall|j: int| 0 <= j < kernel.len() ==> g < (#[trigger] kernel[j].len()),
        forall|j: int| 0 <= j < recurrent.len() ==> g < (#[trigger] recurrent[j].len()),
    ensures
        gate_s(kernel, recurrent, bias, x, h, g) == 0,
{
    lemma_col_dot_prefix_zero(kernel, x, g, kernel.len() as int);
    lemma_col_dot_prefix_zero(recurrent, h, g, recurrent.len() as int);
}

/// The fixed-point logistic function at zero is exactly one half, and the
/// hyperbolic tangent at zero is exactly zero.
pub proof fn lemma_sigmoid_zero()
    ensures
        sigmoid_s(0) == FX_HALF,
        tanh_s(0) == 0,
{
    assert(fx_mul_s(0, exp_horner_s(0, 1)) == 0);
    assert(exp_horner_s(0, 0) == FX_ONE);
    assert(pow_einv_s(0int) == FX_ONE);
    assert(fx_mul_s(FX_ONE, FX_ONE) == FX_ONE);
    assert(exp_neg_s(0) == FX_ONE);
    assert(sig_core_s(0) == FX_HALF);
    assert(sigmoid_s(0) == FX_HALF);
    assert(fx_add_s(0, 0) == 0);
    assert(fx_add_s(FX_HALF, FX_HALF) == FX_ONE);
    assert(tanh_s(0) == 0);
}

/// One timestep of all-zero weights over all-zero state leaves both state
/// vectors zero.
proof fn lemma_step_zero(
    kernel: Seq<Seq<i64>>,
    recurrent: Seq<Seq<i64>>,
    bias: Seq<i64>,
    x: Seq<i64>,
    units: nat,
)
    requires
        all_zero_mat(kernel),
        all_zero_mat(recurrent),
        all_zero_vec(bias),
        bias.len() == 4 * units,
        forall|j: int| 0 <= j < kernel.len() ==> (#[trigger] kernel[j]).len() == 4 * units,
        forall|j: int| 0 <= j < recurrent.len() ==> (#[trigger] recurrent[j]).len() == 4 * units,
    ensures
        step_cell_s(kernel, recurrent, bias, x, zero_seq(units), zero_seq(units), units)
            == zero_seq(units),
        step_hidden_s(kernel, recurrent, bias, x, zero_seq(units), zero_seq(units), units)
            == zero_seq(units),
{
    let h = zero_seq(units);
    let c = zero_seq(units);
    lemma_sigmoid_zero();
    assert forall|i: int| 0 <= i < units implies new_cell_s(
        kernel,
        recurrent,
        bias,
        x,
        h,
        c,
        units,
        i,
    ) == 0 by {
        lemma_gate_zero(kernel, recurrent, bias, x, h, i);
        lemma_gate_zero(kernel, recurrent, bias, x, h, units + i);
        lemma_gate_zero(kernel, recurrent, bias, x, h, 2 * units + i);
    }
    assert forall|i: int| 0 <= i < units implies new_hidden_s(
        kernel,
        recurrent,
        bias,
        x,
        h,
        c,
        units,
        i,
    ) == 0 by {
        lemma_gate_zero(kernel, recurrent, bias, x, h, 3 * units + i);
        assert(new_cell_s(kernel, recurrent, bias, x, h, c, units, i) == 0);
    }
    assert(step_cell_s(kernel, recurrent, bias, x, h, c, units) =~= zero_seq(units));
    assert(step_hidden_s(kernel, recurrent, bias, x, h, c, units) =~= zero_seq(units));
}

/// Under all-zero weights over an all-zero input sequence, both state
/// vectors stay zero after any number of timesteps.
proof fn lemma_states_zero(
    inputs: Seq<Seq<i64>>,
    kernel: Seq<Seq<i64>>,
    recurrent: Seq<Seq<i64>>,
    bias: Seq<i64>,
    units: nat,
    t: int,
)
    requires
        all_zero_mat(kernel),
        all_zero_mat(recurrent),
        all_zero_vec(bias),
        bias.len() == 4 * units,
        forall|j: int| 0 <= j < kernel.len() ==> (#[trigger] kernel[j]).len() == 4 * units,
        forall|j: int| 0 <= j < recurrent.len() ==> (#[trigger] recurrent[j]).len() == 4 * units,
        0 <= t,
    ensures
        lstm_states_s(inputs, kernel, recurrent, bias, units, t).0 == zero_seq(units),
        lstm_states_s(inputs, kernel, recurrent, bias, units, t).1 == zero_seq(units),
    decreases t,
{
    if t > 0 {
        lemma_states_zero(inputs, kernel, recurrent, bias, units, t - 1);
        lemma_step_zero(kernel, recurrent, bias, inputs[t - 1], units);
    }
}

/// The zero-input edge case: an all-zero market window under all-zero
/// weights and biases keeps every hidden and cell state of both layers
/// zero at every timestep, and the final score is exactly one half --
/// the logistic function at zero.
pub proof fn lemma_zero_inputs(w: WeightSetView, m: Seq<Seq<i64>>)
    requires
        forward_shapes_ok(w, m),
        all_zero_weights(w),
        all_zero_mat(m),
    ensures
        forall|t: int|
            0 <= t ==> #[trigger] lstm_states_s(
                m,
                w.lstm1_kernel,
                w.lstm1_recurrent,
                w.lstm1_bias,
                w.lstm1_recurrent.len(),
                t,
            ) == (
                zero_seq(w.lstm1_recurrent.len()),
                zero_seq(w.lstm1_recurrent.len()),
            ),
        forall|t: int|
            0 <= t ==> #[trigger] lstm_states_s(
                lstm_layer_s(
                    m,
                    w.lstm1_kernel,
                    w.lstm1_recurrent,
                    w.lstm1_bias,
                    w.lstm1_recurrent.len(),
                ),
                w.lstm2_kernel,
                w.lstm2_recurrent,
                w.lstm2_bias,
                w.lstm2_recurrent.len(),
                t,
            ) == (
                zero_seq(w.lstm2_recurrent.len()),
                zero_seq(w.lstm2_recurrent.len()),
            ),
        forward_s(w, m) == FX_HALF,
{
    let u1 = w.lstm1_recurrent.len();
    let u2 = w.lstm2_recurrent.len();
    let h1 = lstm_layer_s(m, w.lstm1_kernel, w.lstm1_recurrent, w.lstm1_bias, u1);
    let h2 = lstm_layer_s(h1, w.lstm2_kernel, w.lstm2_recurrent, w.lstm2_bias, u2);
    assert forall|t: int| 0 <= t implies #[trigger] lstm_states_s(
        m,
        w.lstm1_kernel,
        w.lstm1_recurrent,
        w.lstm1_bias,
        u1,
        t,
    ) == (zero_seq(u1), zero_seq(u1)) by {
        lemma_states_zero(m, w.lstm1_kernel, w.lstm1_recurrent, w.lstm1_bias, u1, t);
    }
    assert(all_zero_mat(h1));
    assert forall|t: int| 0 <= t implies #[trigger] lstm_states_s(
        h1,
        w.lstm2_kernel,
        w.lstm2_recurrent,
        w.lstm2_bias,
        u2,
        t,
    ) == (zero_seq(u2), zero_seq(u2)) by {
        lemma_states_zero(h1, w.lstm2_kernel, w.lstm2_recurrent, w.lstm2_bias, u2, t);
    }
    assert(all_zero_mat(h2));
    let last = h2[h2.len() - 1];
    assert(all_zero_vec(last));
    lemma_col_dot_prefix_zero(w.dense_kernel, last, 0, w.dense_kernel.len() as int);
    lemma_sigmoid_zero();
    assert(dense_sigmoid_s(last, w.dense_kernel, w.dense_bias) == FX_HALF);
}

} // verus!
