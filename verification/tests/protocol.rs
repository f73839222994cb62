//! Tests of the attestation protocol boundary: write order, single use of
//! each channel, and the binding of the committed scalar to the forward pass.

use ml_sentinel::fixed::FX_ONE;
use ml_sentinel::lstm::forward_pass;
use ml_sentinel::model::{MarketWindow, ProtocolError, WeightSet};
use ml_sentinel::protocol::AttestationSession;

fn fx(x: f64) -> i64 {
    (x * 4294967296.0).round() as i64
}

fn weights() -> WeightSet {
    WeightSet {
        lstm1_kernel: vec![vec![fx(0.5), fx(-0.3), fx(0.8), fx(0.1)]],
        lstm1_recurrent: vec![vec![fx(0.1), fx(0.2), fx(0.3), fx(-0.1)]],
        lstm1_bias: vec![fx(0.01), fx(-0.02), fx(0.03), fx(0.04)],
        lstm2_kernel: vec![vec![fx(0.6), fx(-0.2), fx(0.5), fx(0.3)]],
        lstm2_recurrent: vec![vec![fx(-0.1), fx(0.4), fx(0.2), fx(0.1)]],
        lstm2_bias: vec![fx(0.0), fx(0.1), fx(-0.1), fx(0.2)],
        dense_kernel: vec![vec![fx(1.5)]],
        dense_bias: vec![fx(-0.3)],
    }
}

fn window() -> MarketWindow {
    MarketWindow { sequence: vec![vec![fx(0.4)], vec![fx(-0.2)], vec![fx(0.7)]] }
}

#[test]
fn protocol_happy_path_commits_the_forward_pass_score() {
    let mut session = AttestationSession::new();
    assert!(session.write_weight_set(weights()).is_ok());
    assert!(session.write_market_window(window()).is_ok());
    let score = session.execute_and_commit().unwrap();
    assert_eq!(score, forward_pass(&weights(), &window()).unwrap());
    assert!(0 < score && score < FX_ONE);
    assert_eq!(session.committed_score(), Some(score));
}

#[test]
fn window_before_weights_is_out_of_order() {
    let mut session = AttestationSession::new();
    assert_eq!(
        session.write_market_window(window()),
        Err(ProtocolError::OutOfOrderWrite)
    );
    // the rejected write left the session untouched: the proper order
    // still goes through
    assert!(session.write_weight_set(weights()).is_ok());
    assert!(session.write_market_window(window()).is_ok());
    assert!(session.execute_and_commit().is_ok());
}

#[test]
fn each_private_value_is_written_once() {
    let mut session = AttestationSession::new();
    assert!(session.write_weight_set(weights()).is_ok());
    assert_eq!(
        session.write_weight_set(weights()),
        Err(ProtocolError::DuplicateWrite)
    );
    assert!(session.write_market_window(window()).is_ok());
    assert_eq!(
        session.write_market_window(window()),
        Err(ProtocolError::DuplicateWrite)
    );
}

#[test]
fn execute_requires_both_inputs() {
    let mut session = AttestationSession::new();
    assert_eq!(session.execute_and_commit(), Err(ProtocolError::MissingInput));
    assert!(session.write_weight_set(weights()).is_ok());
    assert_eq!(session.execute_and_commit(), Err(ProtocolError::MissingInput));
    assert_eq!(session.committed_score(), None);
}

#[test]
fn the_public_channel_takes_exactly_one_scalar() {
    let mut session = AttestationSession::new();
    session.write_weight_set(weights()).unwrap();
    session.write_market_window(window()).unwrap();
    let score = session.execute_and_commit().unwrap();
    assert_eq!(session.execute_and_commit(), Err(ProtocolError::AlreadyCommitted));
    assert_eq!(session.committed_score(), Some(score));
}

#[test]
fn shape_mismatch_surfaces_at_the_protocol_boundary() {
    let mut bad = weights();
    bad.dense_bias = vec![fx(0.0), fx(0.0)];
    let mut session = AttestationSession::new();
    session.write_weight_set(bad).unwrap();
    session.write_market_window(window()).unwrap();
    assert_eq!(session.execute_and_commit(), Err(ProtocolError::ShapeMismatch));
    assert_eq!(session.committed_score(), None);
}
