//! The forward-pass engine: the LSTM layer operator, the stacked two-layer
//! controller and the dense/sigmoid output stage.
//!
//! Every function is defined by a spec-level recurrence over the fixed-point
//! policy of [`crate::fixed`]; the executable code is proved to compute those
//! recurrences exactly. Shape mismatches are detected before any timestep
//! executes and reported as [`ShapeMismatchError`].

use vstd::prelude::*;

use crate::fixed::{
    fx_add, fx_add_s, fx_mul, fx_mul_s, sigmoid, sigmoid_s, tanh, tanh_s, FX_ONE,
};
use crate::model::{mat_view, MarketWindow, ShapeMismatchError, WeightSet, WeightSetView};

verus! {

broadcast use crate::model::lemma_mat_view_index, crate::model::lemma_mat_view_index_rev;

/// Fixed-point dot product of column `g` of `m` with `v`, accumulated over
/// the first `d` rows in increasing row order.
pub open spec fn col_dot_prefix_s(m: Seq<Seq<i64>>, v: Seq<i64>, g: int, d: int) -> i64
    decreases d,
{
    if d <= 0 {
        0
    } else {
        fx_add_s(col_dot_prefix_s(m, v, g, d - 1), fx_mul_s(m[d - 1][g], v[d - 1]))
    }
}

/// Fixed-point dot product of column `g` of `m` with `v`.
pub open spec fn col_dot_s(m: Seq<Seq<i64>>, v: Seq<i64>, g: int) -> i64 {
    col_dot_prefix_s(m, v, g, m.len() as int)
}

/// Pre-activation of gate `g`: the kernel column against the input vector,
/// plus the recurrent column against the previous hidden vector, plus the
/// bias entry, summed in that fixed order.
pub open spec fn gate_s(
    kernel: Seq<Seq<i64>>,
    recurrent: Seq<Seq<i64>>,
    bias: Seq<i64>,
    x: Seq<i64>,
    h: Seq<i64>,
    g: int,
) -> i64 {
    fx_add_s(fx_add_s(col_dot_s(kernel, x, g), col_dot_s(recurrent, h, g)), bias[g])
}

/// Unit `i` of the new cell vector: `forget * cell + input * candidate`
/// elementwise; the four gate slices keep the fixed order
/// (slice 0 forget, slice 1 input, slice 2 candidate, slice 3 output).
pub open spec fn new_cell_s(
    kernel: Seq<Seq<i64>>,
    recurrent: Seq<Seq<i64>>,
    bias: Seq<i64>,
    x: Seq<i64>,
    h: Seq<i64>,
    c: Seq<i64>,
    units: nat,
    i: int,
) -> i64 {
    fx_add_s(
        fx_mul_s(sigmoid_s(gate_s(kernel, recurrent, bias, x, h, i)), c[i]),
        fx_mul_s(
            sigmoid_s(gate_s(kernel, recurrent, bias, x, h, units + i)),
            tanh_s(gate_s(kernel, recurrent, bias, x, h, 2 * units + i)),
        ),
    )
}

/// Unit `i` of the new hidden vector: `output * tanh(new cell)`.
pub open spec fn new_hidden_s(
    kernel: Seq<Seq<i64>>,
    recurrent: Seq<Seq<i64>>,
    bias: Seq<i64>,
    x: Seq<i64>,
    h: Seq<i64>,
    c: Seq<i64>,
    units: nat,
    i: int,
) -> i64 {
    fx_mul_s(
        sigmoid_s(gate_s(kernel, recurrent, bias, x, h, 3 * units + i)),
        tanh_s(new_cell_s(kernel, recurrent, bias, x, h, c, units, i)),
    )
}

/// One timestep of the recurrence: the cell vector after consuming `x`.
pub open spec fn step_cell_s(
    kernel: Seq<Seq<i64>>,
    recurrent: Seq<Seq<i64>>,
    bias: Seq<i64>,
    x: Seq<i64>,
    h: Seq<i64>,
    c: Seq<i64>,
    units: nat,
) -> Seq<i64> {
    Seq::new(units, |i: int| new_cell_s(kernel, recurrent, bias, x, h, c, units, i))
}

/// One timestep of the recurrence: the hidden vector after consuming `x`.
pub open spec fn step_hidden_s(
    kernel: Seq<Seq<i64>>,
    recurrent: Seq<Seq<i64>>,
    bias: Seq<i64>,
    x: Seq<i64>,
    h: Seq<i64>,
    c: Seq<i64>,
    units: nat,
) -> Seq<i64> {
    Seq::new(units, |i: int| new_hidden_s(kernel, recurrent, bias, x, h, c, units, i))
}

/// The all-zero vector both state vectors start from.
pub open spec fn zero_seq(units: nat) -> Seq<i64> {
    Seq::new(units, |i: int| 0i64)
}

/// The (hidden, cell) state pair after the first `t` timesteps of `inputs`
/// have been consumed, starting from the all-zero pair.
pub open spec fn lstm_states_s(
    inputs: Seq<Seq<i64>>,
    kernel: Seq<Seq<i64>>,
    recurrent: Seq<Seq<i64>>,
    bias: Seq<i64>,
    units: nat,
    t: int,
) -> (Seq<i64>, Seq<i64>)
    decreases t,
{
    if t <= 0 {
        (zero_seq(units), zero_seq(units))
    } else {
        let prev = lstm_states_s(inputs, kernel, recurrent, bias, units, t - 1);
        (
            step_hidden_s(kernel, recurrent, bias, inputs[t - 1], prev.0, prev.1, units),
            step_cell_s(kernel, recurrent, bias, inputs[t - 1], prev.0, prev.1, units),
        )
    }
}

/// The full hidden sequence of one layer: entry `t` is the hidden vector
/// after timesteps `0 ..= t`.
pub open spec fn lstm_layer_s(
    inputs: Seq<Seq<i64>>,
    kernel: Seq<Seq<i64>>,
    recurrent: Seq<Seq<i64>>,
    bias: Seq<i64>,
    units: nat,
) -> Seq<Seq<i64>> {
    Seq::new(inputs.len(), |t: int| lstm_states_s(inputs, kernel, recurrent, bias, units, t + 1).0)
}

/// Shape invariants of one layer application: kernel row count equals the
/// feature width of every input vector, the recurrent matrix is square on
/// the unit dimension, all gate rows and the bias have length `4 * units`.
pub open spec fn layer_shapes_ok(
    inputs: Seq<Seq<i64>>,
    kernel: Seq<Seq<i64>>,
    recurrent: Seq<Seq<i64>>,
    bias: Seq<i64>,
    units: nat,
) -> bool {
    &&& bias.len() == 4 * units
    &&& recurrent.len() == units
    &&& (forall|d: int| 0 <= d < kernel.len() ==> (#[trigger] kernel[d].len()) == 4 * units)
    &&& (forall|u: int| 0 <= u < recurrent.len() ==> (#[trigger] recurrent[u].len()) == 4 * units)
    &&& (forall|t: int| 0 <= t < inputs.len() ==> (#[trigger] inputs[t].len()) == kernel.len())
}

/// Fixed-point dot product of column `g` of `m` with `v`.
pub fn col_dot(m: &Vec<Vec<i64>>, v: &Vec<i64>, g: usize) -> (r: i64)
    requires
        m@.len() == v@.len(),
        forall|d: int| 0 <= d < m@.len() ==> g < (#[trigger] m@[d]@.len()),
    ensures
        r == col_dot_s(mat_view(m@), v@, g as int),
{
    let n = m.len();
    let mut acc: i64 = 0;
    let mut d: usize = 0;
    while d < n
        invariant
            n == m@.len(),
            n == v@.len(),
            d <= n,
            forall|j: int| 0 <= j < m@.len() ==> g < (#[trigger] m@[j]@.len()),
            acc == col_dot_prefix_s(mat_view(m@), v@, g as int, d as int),
        decreases n - d,
    {
        acc = fx_add(acc, fx_mul(m[d][g], v[d]));
        d = d + 1;
    }
    acc
}

/// Copy of the entries `start .. start + count` of `v`.
fn segment(v: &Vec<i64>, start: usize, count: usize) -> (r: Vec<i64>)
    requires
        start + count <= v@.len(),
    ensures
        r@ == v@.subrange(start as int, start as int + count as int),
{
    let mut r: Vec<i64> = Vec::new();
    let mut i: usize = 0;
    let n = v.len();
    while i < count
        invariant
            n == v@.len(),
            start + count <= n,
            i <= count,
            r@.len() == i,
            forall|j: int| 0 <= j < i ==> r@[j] == v@[start + j],
        decreases count - i,
    {
        r.push(v[start + i]);
        i = i + 1;
    }
    proof {
        assert(r@ =~= v@.subrange(start as int, start as int + count as int));
    }
    r
}

/// Elementwise logistic function.
pub fn sigmoid_vec(v: &Vec<i64>) -> (r: Vec<i64>)
    ensures
        r@.len() == v@.len(),
        forall|i: int| 0 <= i < v@.len() ==> r@[i] == sigmoid_s(v@[i]),
{
    let mut r: Vec<i64> = Vec::new();
    let mut i: usize = 0;
    let n = v.len();
    while i < n
        invariant
            n == v@.len(),
            i <= n,
            r@.len() == i,
            forall|j: int| 0 <= j < i ==> r@[j] == sigmoid_s(v@[j]),
        decreases n - i,
    {
        r.push(sigmoid(v[i]));
        i = i + 1;
    }
    r
}

/// Elementwise hyperbolic tangent.
pub fn tanh_vec(v: &Vec<i64>) -> (r: Vec<i64>)
    ensures
        r@.len() == v@.len(),
        forall|i: int| 0 <= i < v@.len() ==> r@[i] == tanh_s(v@[i]),
{
    let mut r: Vec<i64> = Vec::new();
    let mut i: usize = 0;
    let n = v.len();
    while i < n
        invariant
            n == v@.len(),
            i <= n,
            r@.len() == i,
            forall|j: int| 0 <= j < i ==> r@[j] == tanh_s(v@[j]),
        decreases n - i,
    {
        r.push(tanh(v[i]));
        i = i + 1;
    }
    r
}

/// Copy of a state vector, pushed into the output sequence while the
/// original keeps driving the recurrence.
fn clone_row(v: &Vec<i64>) -> (r: Vec<i64>)
    ensures
        r@ == v@,
{
    let mut r: Vec<i64> = Vec::new();
    let mut i: usize = 0;
    let n = v.len();
    while i < n
        invariant
            n == v@.len(),
            i <= n,
            r@.len() == i,
            forall|j: int| 0 <= j < i ==> r@[j] == v@[j],
        decreases n - i,
    {
        r.push(v[i]);
        i = i + 1;
    }
    proof {
        assert(r@ =~= v@);
    }
    r
}

/// All gate pre-activations of one timestep, in gate order.
fn compute_gates(
    kernel: &Vec<Vec<i64>>,
    recurrent: &Vec<Vec<i64>>,
    bias: &Vec<i64>,
    x: &Vec<i64>,
    h: &Vec<i64>,
    four_units: usize,
) -> (r: Vec<i64>)
    requires
        bias@.len() == four_units,
        kernel@.len() == x@.len(),
        recurrent@.len() == h@.len(),
        forall|d: int| 0 <= d < kernel@.len() ==> (#[trigger] kernel@[d]@.len()) == four_units,
        forall|u: int| 0 <= u < recurrent@.len() ==> (#[trigger] recurrent@[u]@.len()) == four_units,
    ensures
        r@.len() == four_units,
        forall|g: int|
            0 <= g < four_units ==> r@[g] == gate_s(
                mat_view(kernel@),
                mat_view(recurrent@),
                bias@,
                x@,
                h@,
                g,
            ),
{
    let mut r: Vec<i64> = Vec::new();
    let mut g: usize = 0;
    while g < four_units
        invariant
            bias@.len() == four_units,
            kernel@.len() == x@.len(),
            recurrent@.len() == h@.len(),
            forall|d: int| 0 <= d < kernel@.len() ==> (#[trigger] kernel@[d]@.len()) == four_units,
            forall|u: int|
                0 <= u < recurrent@.len() ==> (#[trigger] recurrent@[u]@.len()) == four_units,
            g <= four_units,
            r@.len() == g,
            forall|j: int|
                0 <= j < g ==> r@[j] == gate_s(
                    mat_view(kernel@),
                    mat_view(recurrent@),
                    bias@,
                    x@,
                    h@,
                    j,
                ),
        decreases four_units - g,
    {
        let kx = col_dot(kernel, x, g);
        let rh = col_dot(recurrent, h, g);
        r.push(fx_add(fx_add(kx, rh), bias[g]));
        g = g + 1;
    }
    r
}

/// True when every row of `m` has length `width`.
fn check_rows(m: &Vec<Vec<i64>>, width: usize) -> (ok: bool)
    ensures
        ok == forall|i: int| 0 <= i < m@.len() ==> (#[trigger] m@[i]@.len()) == width,
{
    let n = m.len();
    let mut i: usize = 0;
    while i < n
        invariant
            n == m@.len(),
            i <= n,
            forall|j: int| 0 <= j < i ==> (#[trigger] m@[j]@.len()) == width,
        decreases n - i,
    {
        if m[i].len() != width {
            return false;
        }
        i = i + 1;
    }
    true
}

/// Runtime check of [`layer_shapes_ok`].
fn check_layer_shapes(
    inputs: &Vec<Vec<i64>>,
    kernel: &Vec<Vec<i64>>,
    recurrent: &Vec<Vec<i64>>,
    bias: &Vec<i64>,
    units: usize,
) -> (ok: bool)
    ensures
        ok == layer_shapes_ok(
            mat_view(inputs@),
            mat_view(kernel@),
            mat_view(recurrent@),
            bias@,
            units as nat,
        ),
{
    let bias_len = bias.len();
    let four_units = match units.checked_mul(4) {
        Some(f) => f,
        None => {
            return false;
        },
    };
    bias_len == four_units && recurrent.len() == units && check_rows(kernel, four_units)
        && check_rows(recurrent, four_units) && check_rows(inputs, kernel.len())
}

/// The all-zero state vector a layer starts from.
fn zero_vec(units: usize) -> (r: Vec<i64>)
    ensures
        r@ == zero_seq(units as nat),
{
    let mut r: Vec<i64> = Vec::new();
    let mut i: usize = 0;
    while i < units
        invariant
            i <= units,
            r@.len() == i,
            forall|j: int| 0 <= j < i ==> r@[j] == 0i64,
        decreases units - i,
    {
        r.push(0);
        i = i + 1;
    }
    proof {
        assert(r@ =~= zero_seq(units as nat));
    }
    r
}

/// The LSTM layer operator: consumes the `inputs` sequence timestep by
/// timestep in strict order and returns the full hidden sequence. A shape
/// mismatch is detected before any timestep executes; on success the result
/// is exactly the spec-level recurrence [`lstm_layer_s`].
pub fn lstm_layer_forward(
    inputs: &Vec<Vec<i64>>,
    kernel: &Vec<Vec<i64>>,
    recurrent: &Vec<Vec<i64>>,
    bias: &Vec<i64>,
    units: usize,
) -> (r: Result<Vec<Vec<i64>>, ShapeMismatchError>)
    ensures
        r is Ok <==> layer_shapes_ok(
            mat_view(inputs@),
            mat_view(kernel@),
            mat_view(recurrent@),
            bias@,
            units as nat,
        ),
        r is Ok ==> mat_view(r->Ok_0@) == lstm_layer_s(
            mat_view(inputs@),
            mat_view(kernel@),
            mat_view(recurrent@),
            bias@,
            units as nat,
        ),
        r is Ok ==> r->Ok_0@.len() == inputs@.len(),
{
    let ghost ii = mat_view(inputs@);
    let ghost kk = mat_view(kernel@);
    let ghost rr = mat_view(recurrent@);
    let ghost uu = units as nat;

    if !check_layer_shapes(inputs, kernel, recurrent, bias, units) {
        return Err(ShapeMismatchError);
    }
    let bias_len = bias.len();
    proof {
        assert(4 * (units as int) == bias_len);
    }
    let four_units = 4 * units;

    let seq_len = inputs.len();
    let mut outputs: Vec<Vec<i64>> = Vec::new();
    let mut h = zero_vec(units);
    let mut c = zero_vec(units);
    let mut t: usize = 0;
    while t < seq_len
        invariant
            seq_len == inputs@.len(),
            t <= seq_len,
            four_units == 4 * units,
            ii == mat_view(inputs@),
            kk == mat_view(kernel@),
            rr == mat_view(recurrent@),
            uu == units as nat,
            layer_shapes_ok(ii, kk, rr, bias@, uu),
            h@ == lstm_states_s(ii, kk, rr, bias@, uu, t as int).0,
            c@ == lstm_states_s(ii, kk, rr, bias@, uu, t as int).1,
            h@.len() == units,
            c@.len() == units,
            outputs@.len() == t,
            forall|j: int|
                0 <= j < t ==> (#[trigger] outputs@[j]@) == lstm_layer_s(
                    ii,
                    kk,
                    rr,
                    bias@,
                    uu,
                )[j],
        decreases seq_len - t,
    {
        let x = &inputs[t];
        let gates = compute_gates(kernel, recurrent, bias, x, &h, four_units);
        let f = sigmoid_vec(&segment(&gates, 0, units));
        let ig = sigmoid_vec(&segment(&gates, units, units));
        let cand = tanh_vec(&segment(&gates, 2 * units, units));
        let o = sigmoid_vec(&segment(&gates, 3 * units, units));

        let mut c_new: Vec<i64> = Vec::new();
        let mut i: usize = 0;
        while i < units
            invariant
                i <= units,
                c_new@.len() == i,
                units == uu,
                h@.len() == units,
                c@.len() == units,
                f@.len() == units,
                ig@.len() == units,
                cand@.len() == units,
                forall|j: int| 0 <= j < units ==> #[trigger] f@[j] == sigmoid_s(
                    gate_s(kk, rr, bias@, x@, h@, j),
                ),
                forall|j: int| 0 <= j < units ==> #[trigger] ig@[j] == sigmoid_s(
                    gate_s(kk, rr, bias@, x@, h@, uu + j),
                ),
                forall|j: int| 0 <= j < units ==> #[trigger] cand@[j] == tanh_s(
                    gate_s(kk, rr, bias@, x@, h@, 2 * uu + j),
                ),
                forall|j: int|
                    0 <= j < i ==> (#[trigger] c_new@[j]) == new_cell_s(
                        kk,
                        rr,
                        bias@,
                        x@,
                        h@,
                        c@,
                        uu,
                        j,
                    ),
            decreases units - i,
        {
            c_new.push(fx_add(fx_mul(f[i], c[i]), fx_mul(ig[i], cand[i])));
            i = i + 1;
        }

        let ctanh = tanh_vec(&c_new);
        let mut h_new: Vec<i64> = Vec::new();
        let mut i2: usize = 0;
        while i2 < units
            invariant
                i2 <= units,
                h_new@.len() == i2,
                units == uu,
                h@.len() == units,
                c@.len() == units,
                o@.len() == units,
                ctanh@.len() == units,
                c_new@.len() == units,
                forall|j: int| 0 <= j < units ==> #[trigger] o@[j] == sigmoid_s(
                    gate_s(kk, rr, bias@, x@, h@, 3 * uu + j),
                ),
                forall|j: int|
                    0 <= j < units ==> (#[trigger] c_new@[j]) == new_cell_s(
                        kk,
                        rr,
                        bias@,
                        x@,
                        h@,
                        c@,
                        uu,
                        j,
                    ),
                forall|j: int| 0 <= j < units ==> #[trigger] ctanh@[j] == tanh_s(c_new@[j]),
                forall|j: int|
                    0 <= j < i2 ==> (#[trigger] h_new@[j]) == new_hidden_s(
                        kk,
                        rr,
                        bias@,
                        x@,
                        h@,
                        c@,
                        uu,
                        j,
                    ),
            decreases units - i2,
        {
            h_new.push(fx_mul(o[i2], ctanh[i2]));
            i2 = i2 + 1;
        }

        proof {
            assert(x@ == ii[t as int]);
            assert(c_new@ =~= step_cell_s(kk, rr, bias@, ii[t as int], h@, c@, uu));
            assert(h_new@ =~= step_hidden_s(kk, rr, bias@, ii[t as int], h@, c@, uu));
        }
        outputs.push(clone_row(&h_new));
        h = h_new;
        c = c_new;
        t = t + 1;
    }
    proof {
        assert(mat_view(outputs@) =~= lstm_layer_s(ii, kk, rr, bias@, uu));
    }
    Ok(outputs)
}

/// The output stage on a final hidden vector: dense projection onto one
/// scalar logit, then the logistic function.
pub open spec fn dense_sigmoid_s(h: Seq<i64>, kernel: Seq<Seq<i64>>, bias: Seq<i64>) -> i64 {
    sigmoid_s(fx_add_s(col_dot_s(kernel, h, 0), bias[0]))
}

/// Dense projection plus sigmoid activation: the public risk score.
pub fn dense_and_sigmoid(input: &Vec<i64>, kernel: &Vec<Vec<i64>>, bias: &Vec<i64>) -> (r: i64)
    requires
        kernel@.len() == input@.len(),
        forall|d: int| 0 <= d < kernel@.len() ==> 0 < (#[trigger] kernel@[d]@.len()),
        bias@.len() > 0,
    ensures
        r == dense_sigmoid_s(input@, mat_view(kernel@), bias@),
        0 < r < FX_ONE,
{
    let logit = fx_add(col_dot(kernel, input, 0), bias[0]);
    sigmoid(logit)
}

/// Shape invariants of a whole run: both layer applications and the dense
/// head are consistent, and the window holds at least one timestep.
pub open spec fn forward_shapes_ok(w: WeightSetView, m: Seq<Seq<i64>>) -> bool {
    let u1 = w.lstm1_recurrent.len();
    let u2 = w.lstm2_recurrent.len();
    &&& m.len() >= 1
    &&& layer_shapes_ok(m, w.lstm1_kernel, w.lstm1_recurrent, w.lstm1_bias, u1)
    &&& w.lstm2_kernel.len() == u1
    &&& w.lstm2_bias.len() == 4 * u2
    &&& (forall|d: int|
        0 <= d < w.lstm2_kernel.len() ==> (#[trigger] w.lstm2_kernel[d].len()) == 4 * u2)
    &&& (forall|u: int|
        0 <= u < w.lstm2_recurrent.len() ==> (#[trigger] w.lstm2_recurrent[u].len()) == 4 * u2)
    &&& w.dense_kernel.len() == u2
    &&& (forall|d: int|
        0 <= d < w.dense_kernel.len() ==> (#[trigger] w.dense_kernel[d].len()) == 1)
    &&& w.dense_bias.len() == 1
}

/// The score of a whole run: layer one over the window, layer two over the
/// full hidden sequence of layer one, the output stage on the final hidden
/// vector of layer two.
pub open spec fn forward_s(w: WeightSetView, m: Seq<Seq<i64>>) -> i64 {
    let u1 = w.lstm1_recurrent.len();
    let u2 = w.lstm2_recurrent.len();
    let h1 = lstm_layer_s(m, w.lstm1_kernel, w.lstm1_recurrent, w.lstm1_bias, u1);
    let h2 = lstm_layer_s(h1, w.lstm2_kernel, w.lstm2_recurrent, w.lstm2_bias, u2);
    dense_sigmoid_s(h2[h2.len() - 1], w.dense_kernel, w.dense_bias)
}

/// Every hidden vector a layer emits has the layer's unit count.
pub proof fn lemma_layer_row_lens(
    inputs: Seq<Seq<i64>>,
    kernel: Seq<Seq<i64>>,
    recurrent: Seq<Seq<i64>>,
    bias: Seq<i64>,
    units: nat,
)
    ensures
        lstm_layer_s(inputs, kernel, recurrent, bias, units).len() == inputs.len(),
        forall|t: int|
            0 <= t < inputs.len() ==> (#[trigger] lstm_layer_s(
                inputs,
                kernel,
                recurrent,
                bias,
                units,
            )[t].len()) == units,
{
    assert forall|t: int| 0 <= t < inputs.len() implies (#[trigger] lstm_layer_s(
        inputs,
        kernel,
        recurrent,
        bias,
        units,
    )[t].len()) == units by {
        assert(lstm_states_s(inputs, kernel, recurrent, bias, units, t + 1).0.len() == units);
    }
}

/// Runtime check of [`forward_shapes_ok`].
fn check_forward_shapes(w: &WeightSet, m: &MarketWindow) -> (ok: bool)
    ensures
        ok == forward_shapes_ok(w@, m@),
{
    let u1 = w.lstm1_recurrent.len();
    let u2 = w.lstm2_recurrent.len();
    let four_u2 = match u2.checked_mul(4) {
        Some(f) => f,
        None => {
            let _bias2_len = w.lstm2_bias.len();
            return false;
        },
    };
    m.sequence.len() >= 1
        && check_layer_shapes(&m.sequence, &w.lstm1_kernel, &w.lstm1_recurrent, &w.lstm1_bias, u1)
        && w.lstm2_kernel.len() == u1 && w.lstm2_bias.len() == four_u2
        && check_rows(&w.lstm2_kernel, four_u2) && check_rows(&w.lstm2_recurrent, four_u2)
        && w.dense_kernel.len() == u2 && check_rows(&w.dense_kernel, 1)
        && w.dense_bias.len() == 1
}

/// The full forward pass: two stacked LSTM layers and the output stage.
/// Succeeds exactly on shape-valid inputs; the score is exactly the
/// spec-level recurrence [`forward_s`] and lies strictly inside `(0, 1)`.
pub fn forward_pass(weights: &WeightSet, window: &MarketWindow) -> (r: Result<
    i64,
    ShapeMismatchError,
>)
    ensures
        r is Ok <==> forward_shapes_ok(weights@, window@),
        r is Ok ==> r->Ok_0 == forward_s(weights@, window@),
        r is Ok ==> 0 < r->Ok_0 < FX_ONE,
{
    if !check_forward_shapes(weights, window) {
        return Err(ShapeMismatchError);
    }
    let u1 = weights.lstm1_recurrent.len();
    let u2 = weights.lstm2_recurrent.len();
    proof {
        lemma_layer_row_lens(
            window@,
            weights@.lstm1_kernel,
            weights@.lstm1_recurrent,
            weights@.lstm1_bias,
            u1 as nat,
        );
    }
    let hidden1 = match lstm_layer_forward(
        &window.sequence,
        &weights.lstm1_kernel,
        &weights.lstm1_recurrent,
        &weights.lstm1_bias,
        u1,
    ) {
        Ok(h) => h,
        Err(e) => {
            proof {
                assert(false);
            }
            return Err(e);
        },
    };
    proof {
        lemma_layer_row_lens(
            mat_view(hidden1@),
            weights@.lstm2_kernel,
            weights@.lstm2_recurrent,
            weights@.lstm2_bias,
            u2 as nat,
        );
    }
    let hidden2 = match lstm_layer_forward(
        &hidden1,
        &weights.lstm2_kernel,
        &weights.lstm2_recurrent,
        &weights.lstm2_bias,
        u2,
    ) {
        Ok(h) => h,
        Err(e) => {
            proof {
                assert(false);
            }
            return Err(e);
        },
    };
    let final_hidden = &hidden2[hidden2.len() - 1];
    let score = dense_and_sigmoid(final_hidden, &weights.dense_kernel, &weights.dense_bias);
    Ok(score)
}

} // verus!
