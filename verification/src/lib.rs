//! A risk-scoring engine for market time series: a two-layer LSTM followed by
//! a dense/sigmoid head, computed in deterministic Q32.32 fixed-point
//! arithmetic, together with the attestation protocol boundary that governs
//! which values stay private and which single scalar is publicly committed.
//!
//! All arithmetic is integer arithmetic with a documented rounding and
//! saturation policy (see [`fixed`]), so two runs over the same inputs are
//! bit-identical -- the property that binds a public commitment to one
//! specific computation.

pub mod fixed;
pub mod model;
pub mod lstm;
pub mod protocol;
pub mod laws;
