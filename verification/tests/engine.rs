//! Tests of the fixed-point policy and of the forward-pass engine.

use ml_sentinel::fixed::{fx_add, fx_mul, fx_sub, sigmoid, tanh, FX_HALF, FX_ONE};
use ml_sentinel::lstm::{forward_pass, lstm_layer_forward};
use ml_sentinel::model::{MarketWindow, WeightSet};

/// A Q32.32 fixed-point value from a float, rounded to nearest.
fn fx(x: f64) -> i64 {
    (x * 4294967296.0).round() as i64
}

fn mat(rows: &[&[f64]]) -> Vec<Vec<i64>> {
    rows.iter().map(|r| r.iter().map(|&x| fx(x)).collect()).collect()
}

fn vec_fx(v: &[f64]) -> Vec<i64> {
    v.iter().map(|&x| fx(x)).collect()
}

/// The weight set of the reference scenario: two single-unit layers over
/// two input features.
fn reference_weights() -> WeightSet {
    WeightSet {
        lstm1_kernel: mat(&[&[0.5, -0.3, 0.8, 0.1], &[0.2, 0.7, -0.6, 0.4]]),
        lstm1_recurrent: mat(&[&[0.1, 0.2, 0.3, -0.1]]),
        lstm1_bias: vec_fx(&[0.01, -0.02, 0.03, 0.04]),
        lstm2_kernel: mat(&[&[0.6, -0.2, 0.5, 0.3]]),
        lstm2_recurrent: mat(&[&[-0.1, 0.4, 0.2, 0.1]]),
        lstm2_bias: vec_fx(&[0.0, 0.1, -0.1, 0.2]),
        dense_kernel: mat(&[&[1.5]]),
        dense_bias: vec_fx(&[-0.3]),
    }
}

/// A three-timestep, two-feature market window.
fn reference_window() -> MarketWindow {
    MarketWindow { sequence: mat(&[&[0.1, 0.2], &[0.3, -0.1], &[-0.2, 0.4]]) }
}

#[test]
fn fx_add_is_exact_and_saturates() {
    assert_eq!(fx_add(fx(1.5), fx(2.25)), fx(3.75));
    assert_eq!(fx_add(i64::MAX, 1), i64::MAX);
    assert_eq!(fx_add(-i64::MAX, -1), -i64::MAX);
    assert_eq!(fx_sub(fx(1.0), fx(3.0)), fx(-2.0));
    assert_eq!(fx_sub(-i64::MAX, 1), -i64::MAX);
}

#[test]
fn fx_mul_rounds_toward_zero() {
    assert_eq!(fx_mul(fx(3.0), fx(2.5)), 32212254720);
    // 1/3 * 1/2 rounds toward zero from either sign
    let third = FX_ONE / 3;
    let half = FX_ONE / 2;
    assert_eq!(fx_mul(third, half), 715827882);
    assert_eq!(fx_mul(-third, half), -715827882);
    assert_eq!(fx_mul(i64::MAX, i64::MAX), i64::MAX);
    assert_eq!(fx_mul(i64::MAX, -i64::MAX), -i64::MAX);
    assert_eq!(fx_mul(fx(5.0), 0), 0);
}

#[test]
fn sigmoid_exact_values() {
    assert_eq!(sigmoid(0), FX_HALF);
    assert_eq!(sigmoid(FX_ONE), 3139872687);
    assert_eq!(sigmoid(-FX_ONE), 1155094609);
    // reflection: sigmoid(x) + sigmoid(-x) == 1
    assert_eq!(sigmoid(FX_ONE) + sigmoid(-FX_ONE), FX_ONE);
    assert_eq!(sigmoid(fx(50.0)), FX_ONE - 1);
    assert_eq!(sigmoid(fx(-50.0)), 1);
    assert_eq!(tanh(0), 0);
    assert_eq!(tanh(FX_ONE), 3271021994);
    assert_eq!(tanh(-FX_ONE), -3271021994);
}

#[test]
fn sigmoid_tracks_the_real_function() {
    for &x in &[-9.5, -3.2, -1.0, -0.1, 0.0, 0.2, 1.7, 4.0, 11.0] {
        let got = sigmoid(fx(x)) as f64 / 4294967296.0;
        let want = 1.0 / (1.0 + (-x as f64).exp());
        assert!((got - want).abs() < 1e-6, "sigmoid({x}): {got} vs {want}");
    }
    for &x in &[-5.0, -0.7, 0.0, 0.3, 2.0] {
        let got = tanh(fx(x)) as f64 / 4294967296.0;
        let want = (x as f64).tanh();
        assert!((got - want).abs() < 1e-6, "tanh({x}): {got} vs {want}");
    }
}

#[test]
fn determinism_two_runs() {
    let s1 = forward_pass(&reference_weights(), &reference_window()).unwrap();
    let s2 = forward_pass(&reference_weights(), &reference_window()).unwrap();
    assert_eq!(s1, s2);
    assert_eq!(s1, 1739200069);
}

#[test]
fn gate_order_sensitivity() {
    // one unit, one feature, one timestep; all weights zero so the gates
    // are the bias alone. Moving the 1.0 from the candidate slice to the
    // forget slice must change the hidden output.
    let inputs = mat(&[&[1.0]]);
    let kernel = mat(&[&[0.0, 0.0, 0.0, 0.0]]);
    let recurrent = mat(&[&[0.0, 0.0, 0.0, 0.0]]);
    let bias_candidate = vec_fx(&[0.0, 0.0, 1.0, 0.0]);
    let bias_forget = vec_fx(&[1.0, 0.0, 0.0, 0.0]);
    let h_candidate =
        lstm_layer_forward(&inputs, &kernel, &recurrent, &bias_candidate, 1).unwrap();
    let h_forget = lstm_layer_forward(&inputs, &kernel, &recurrent, &bias_forget, 1).unwrap();
    assert_eq!(h_candidate[0][0], 780394450);
    assert_eq!(h_forget[0][0], 0);
    assert_ne!(h_candidate, h_forget);
}

#[test]
fn shape_mismatch_detected_before_any_timestep() {
    // kernel row count 3 disagrees with the two-feature inputs
    let inputs = mat(&[&[0.1, 0.2], &[0.3, 0.4]]);
    let kernel = mat(&[&[0.1; 4], &[0.2; 4], &[0.3; 4]]);
    let recurrent = mat(&[&[0.0; 4]]);
    let bias = vec_fx(&[0.0; 4]);
    assert!(lstm_layer_forward(&inputs, &kernel, &recurrent, &bias, 1).is_err());
    // and the same through the full forward pass
    let mut w = reference_weights();
    w.lstm1_kernel = kernel;
    assert!(forward_pass(&w, &reference_window()).is_err());
}

#[test]
fn wrong_bias_length_is_a_shape_mismatch() {
    let mut w = reference_weights();
    w.lstm2_bias = vec_fx(&[0.0; 5]);
    assert!(forward_pass(&w, &reference_window()).is_err());
}

#[test]
fn empty_window_is_rejected() {
    let w = reference_weights();
    let m = MarketWindow { sequence: Vec::new() };
    assert!(forward_pass(&w, &m).is_err());
}

#[test]
fn score_strictly_bounded() {
    let m = reference_window();
    let w = reference_weights();
    let s = forward_pass(&w, &m).unwrap();
    assert!(0 < s && s < FX_ONE);
    // saturating weights drive the score to the very edge but never onto it
    let big = WeightSet {
        lstm1_kernel: vec![vec![i64::MAX; 4], vec![i64::MAX; 4]],
        lstm1_recurrent: vec![vec![i64::MAX; 4]],
        lstm1_bias: vec![i64::MAX; 4],
        lstm2_kernel: vec![vec![-i64::MAX; 4]],
        lstm2_recurrent: vec![vec![i64::MAX; 4]],
        lstm2_bias: vec![-i64::MAX; 4],
        dense_kernel: vec![vec![i64::MAX]],
        dense_bias: vec![i64::MAX],
    };
    let sbig = forward_pass(&big, &m).unwrap();
    assert_eq!(sbig, FX_ONE - 1);
    assert!(0 < sbig && sbig < FX_ONE);
}

#[test]
fn zero_inputs_give_zero_states_and_half_score() {
    let zero_w = WeightSet {
        lstm1_kernel: vec![vec![0; 8]; 2],
        lstm1_recurrent: vec![vec![0; 8]; 2],
        lstm1_bias: vec![0; 8],
        lstm2_kernel: vec![vec![0; 4]; 2],
        lstm2_recurrent: vec![vec![0; 4]],
        lstm2_bias: vec![0; 4],
        dense_kernel: vec![vec![0]],
        dense_bias: vec![0],
    };
    let zero_m = MarketWindow { sequence: vec![vec![0; 2]; 3] };
    // every hidden vector of both layers is all-zero at every timestep
    let h1 = lstm_layer_forward(
        &zero_m.sequence,
        &zero_w.lstm1_kernel,
        &zero_w.lstm1_recurrent,
        &zero_w.lstm1_bias,
        2,
    )
    .unwrap();
    assert_eq!(h1, vec![vec![0i64; 2]; 3]);
    let h2 = lstm_layer_forward(
        &h1,
        &zero_w.lstm2_kernel,
        &zero_w.lstm2_recurrent,
        &zero_w.lstm2_bias,
        1,
    )
    .unwrap();
    assert_eq!(h2, vec![vec![0i64; 1]; 3]);
    // and the score is exactly sigmoid(0) = 0.5
    assert_eq!(forward_pass(&zero_w, &zero_m).unwrap(), FX_HALF);
}

#[test]
fn reference_scenario() {
    // hand computation, following the documented algorithm in f64: gate
    // pre-activations, forget/input/candidate/output split, state update,
    // stacked twice, then the dense/sigmoid head.
    let k1: [[f64; 4]; 2] = [[0.5, -0.3, 0.8, 0.1], [0.2, 0.7, -0.6, 0.4]];
    let r1: [[f64; 4]; 1] = [[0.1, 0.2, 0.3, -0.1]];
    let b1: [f64; 4] = [0.01, -0.02, 0.03, 0.04];
    let k2: [[f64; 4]; 1] = [[0.6, -0.2, 0.5, 0.3]];
    let r2: [[f64; 4]; 1] = [[-0.1, 0.4, 0.2, 0.1]];
    let b2: [f64; 4] = [0.0, 0.1, -0.1, 0.2];
    let window: [[f64; 2]; 3] = [[0.1, 0.2], [0.3, -0.1], [-0.2, 0.4]];
    let sig = |x: f64| 1.0 / (1.0 + (-x).exp());

    let mut h1 = [0.0f64; 3];
    let (mut h, mut c) = (0.0f64, 0.0f64);
    for (t, x) in window.iter().enumerate() {
        let g: Vec<f64> =
            (0..4).map(|j| k1[0][j] * x[0] + k1[1][j] * x[1] + r1[0][j] * h + b1[j]).collect();
        c = sig(g[0]) * c + sig(g[1]) * g[2].tanh();
        h = sig(g[3]) * c.tanh();
        h1[t] = h;
    }
    let (mut h, mut c) = (0.0f64, 0.0f64);
    for x in h1 {
        let g: Vec<f64> = (0..4).map(|j| k2[0][j] * x + r2[0][j] * h + b2[j]).collect();
        c = sig(g[0]) * c + sig(g[1]) * g[2].tanh();
        h = sig(g[3]) * c.tanh();
    }
    let expected = sig(1.5 * h - 0.3);

    let score = forward_pass(&reference_weights(), &reference_window()).unwrap();
    let got = score as f64 / 4294967296.0;
    assert!((got - expected).abs() < 1e-6, "{got} vs {expected}");
}
