//! The attestation protocol boundary: a private input channel that accepts
//! the two inputs once each, in a fixed order, and a public commitment
//! channel that accepts exactly one scalar.
//!
//! The session is transport-agnostic: it holds the written values in memory,
//! so the same engine can run standalone or be embedded in an attested
//! execution environment by an orchestration layer that shuttles the same
//! values across a real boundary. Everything not committed -- the weights,
//! the window, every intermediate state vector -- never leaves the session.

use vstd::prelude::*;

use crate::fixed::FX_ONE;
use crate::lstm::{forward_pass, forward_s, forward_shapes_ok};
use crate::model::{MarketWindow, ProtocolError, WeightSet, WeightSetView};

verus! {

/// The mathematical content of a session: what has been written to the
/// private channel and what the public channel holds.
pub ghost struct SessionView {
    pub weights: Option<WeightSetView>,
    pub window: Option<Seq<Seq<i64>>>,
    pub committed: Option<i64>,
}

/// One attestation session: the private input channel (weight set first,
/// market window second, each written once) and the public commitment
/// channel (one scalar, written once by the computation).
pub struct AttestationSession {
    weights: Option<WeightSet>,
    window: Option<MarketWindow>,
    committed: Option<i64>,
}

impl View for AttestationSession {
    type V = SessionView;

    closed spec fn view(&self) -> SessionView {
        SessionView {
            weights: match self.weights {
                Some(w) => Some(w@),
                None => None,
            },
            window: match self.window {
                Some(m) => Some(m@),
                None => None,
            },
            committed: self.committed,
        }
    }
}

impl AttestationSession {
    /// A fresh session: nothing written, nothing committed.
    pub fn new() -> (s: Self)
        ensures
            s@.weights is None,
            s@.window is None,
            s@.committed is None,
    {
        AttestationSession { weights: None, window: None, committed: None }
    }

    /// First write on the private channel: the weight set. Rejected if the
    /// channel already holds one.
    pub fn write_weight_set(&mut self, w: WeightSet) -> (r: Result<(), ProtocolError>)
        ensures
            r is Ok <==> old(self)@.weights is None,
            r is Ok ==> final(self)@ == (SessionView {
                weights: Some(w@),
                window: old(self)@.window,
                committed: old(self)@.committed,
            }),
            r is Err ==> final(self)@ == old(self)@ && r->Err_0 == ProtocolError::DuplicateWrite,
    {
        if self.weights.is_some() {
            return Err(ProtocolError::DuplicateWrite);
        }
        self.weights = Some(w);
        Ok(())
    }

    /// Second write on the private channel: the market window. Rejected as
    /// out of order while no weight set has been written, and as a duplicate
    /// if the channel already holds a window.
    pub fn write_market_window(&mut self, m: MarketWindow) -> (r: Result<(), ProtocolError>)
        ensures
            r is Ok <==> old(self)@.weights is Some && old(self)@.window is None,
            r is Ok ==> final(self)@ == (SessionView {
                weights: old(self)@.weights,
                window: Some(m@),
                committed: old(self)@.committed,
            }),
            r is Err ==> final(self)@ == old(self)@,
            old(self)@.weights is None ==> r == Result::<(), ProtocolError>::Err(
                ProtocolError::OutOfOrderWrite,
            ),
            old(self)@.weights is Some && old(self)@.window is Some ==> r == Result::<
                (),
                ProtocolError,
            >::Err(ProtocolError::DuplicateWrite),
    {
        if self.weights.is_none() {
            return Err(ProtocolError::OutOfOrderWrite);
        }
        if self.window.is_some() {
            return Err(ProtocolError::DuplicateWrite);
        }
        self.window = Some(m);
        Ok(())
    }

    /// The execute-and-attest step: runs the pure forward pass over the two
    /// private inputs and writes its score -- and nothing else -- to the
    /// public commitment channel, exactly once per session.
    pub fn execute_and_commit(&mut self) -> (r: Result<i64, ProtocolError>)
        ensures
            r is Ok <==> {
                &&& old(self)@.weights is Some
                &&& old(self)@.window is Some
                &&& old(self)@.committed is None
                &&& forward_shapes_ok(old(self)@.weights->0, old(self)@.window->0)
            },
            r is Ok ==> r->Ok_0 == forward_s(old(self)@.weights->0, old(self)@.window->0) && 0
                < r->Ok_0 < FX_ONE,
            r is Ok ==> final(self)@ == (SessionView {
                weights: old(self)@.weights,
                window: old(self)@.window,
                committed: Some(r->Ok_0),
            }),
            r is Err ==> final(self)@ == old(self)@,
            old(self)@.committed is Some ==> r == Result::<i64, ProtocolError>::Err(
                ProtocolError::AlreadyCommitted,
            ),
            old(self)@.committed is None && (old(self)@.weights is None || old(self)@.window
                is None) ==> r == Result::<i64, ProtocolError>::Err(ProtocolError::MissingInput),
            old(self)@.committed is None && old(self)@.weights is Some && old(self)@.window is Some
                && !forward_shapes_ok(old(self)@.weights->0, old(self)@.window->0) ==> r
                == Result::<i64, ProtocolError>::Err(ProtocolError::ShapeMismatch),
    {
        if self.committed.is_some() {
            return Err(ProtocolError::AlreadyCommitted);
        }
        let score = match (&self.weights, &self.window) {
            (Some(w), Some(m)) => match forward_pass(w, m) {
                Ok(s) => s,
                Err(_) => {
                    return Err(ProtocolError::ShapeMismatch);
                },
            },
            _ => {
                return Err(ProtocolError::MissingInput);
            },
        };
        self.committed = Some(score);
        Ok(score)
    }

    /// What the public channel holds: the committed score, if any.
    pub fn committed_score(&self) -> (r: Option<i64>)
        ensures
            r == self@.committed,
    {
        self.committed
    }
}

} // verus!
