//! The data model of one scoring run: the weight set of the network, the
//! market window it is applied to, and the error values of the engine.
//!
//! Both inputs are plain fixed-point matrices and vectors (see
//! [`crate::fixed`]); once constructed they are never mutated by the engine.

use vstd::prelude::*;

verus! {

/// A matrix of fixed-point values as a sequence of its rows.
pub open spec fn mat_view(m: Seq<Vec<i64>>) -> Seq<Seq<i64>> {
    Seq::new(m.len(), |i: int| m[i]@)
}

/// Indexing a matrix view is indexing the underlying rows.
pub broadcast proof fn lemma_mat_view_index(m: Seq<Vec<i64>>, d: int)
    requires
        0 <= d < m.len(),
    ensures
        (#[trigger] mat_view(m)[d]) == m[d]@,
{
}

/// Indexing the underlying rows is indexing the matrix view.
pub broadcast proof fn lemma_mat_view_index_rev(m: Seq<Vec<i64>>, d: int)
    requires
        0 <= d < m.len(),
    ensures
        mat_view(m)[d] == (#[trigger] m[d]@),
{
}

/// The weights of the network: for each of the two LSTM layers a kernel
/// matrix (input width x 4 * units), a recurrent matrix (units x 4 * units) and a
/// bias vector (length 4 * units), plus the dense kernel (units x 1) and dense
/// bias (length 1) of the output stage.
pub struct WeightSet {
    pub lstm1_kernel: Vec<Vec<i64>>,
    pub lstm1_recurrent: Vec<Vec<i64>>,
    pub lstm1_bias: Vec<i64>,
    pub lstm2_kernel: Vec<Vec<i64>>,
    pub lstm2_recurrent: Vec<Vec<i64>>,
    pub lstm2_bias: Vec<i64>,
    pub dense_kernel: Vec<Vec<i64>>,
    pub dense_bias: Vec<i64>,
}

/// The mathematical content of a [`WeightSet`].
pub ghost struct WeightSetView {
    pub lstm1_kernel: Seq<Seq<i64>>,
    pub lstm1_recurrent: Seq<Seq<i64>>,
    pub lstm1_bias: Seq<i64>,
    pub lstm2_kernel: Seq<Seq<i64>>,
    pub lstm2_recurrent: Seq<Seq<i64>>,
    pub lstm2_bias: Seq<i64>,
    pub dense_kernel: Seq<Seq<i64>>,
    pub dense_bias: Seq<i64>,
}

impl View for WeightSet {
    type V = WeightSetView;

    open spec fn view(&self) -> WeightSetView {
        WeightSetView {
            lstm1_kernel: mat_view(self.lstm1_kernel@),
            lstm1_recurrent: mat_view(self.lstm1_recurrent@),
            lstm1_bias: self.lstm1_bias@,
            lstm2_kernel: mat_view(self.lstm2_kernel@),
            lstm2_recurrent: mat_view(self.lstm2_recurrent@),
            lstm2_bias: self.lstm2_bias@,
            dense_kernel: mat_view(self.dense_kernel@),
            dense_bias: self.dense_bias@,
        }
    }
}

/// An ordered sequence of feature vectors of one fixed width; the order of
/// the timesteps is semantically load-bearing.
pub struct MarketWindow {
    pub sequence: Vec<Vec<i64>>,
}

impl View for MarketWindow {
    type V = Seq<Seq<i64>>;

    open spec fn view(&self) -> Seq<Seq<i64>> {
        mat_view(self.sequence@)
    }
}

/// A weight matrix's dimensions are inconsistent with the declared unit
/// counts or with the input feature width; raised before any timestep runs.
#[derive(Clone, Copy, PartialEq, Eq, Structural, Debug)]
pub struct ShapeMismatchError;

/// A violation of the attestation protocol's channel contract.
#[derive(Clone, Copy, PartialEq, Eq, Structural, Debug)]
pub enum ProtocolError {
    /// A private value was written out of the fixed order
    /// (the weight set must precede the market window).
    OutOfOrderWrite,
    /// A private value was written a second time.
    DuplicateWrite,
    /// Execution was requested before both private inputs were written.
    MissingInput,
    /// The public channel already holds its single committed scalar.
    AlreadyCommitted,
    /// The private inputs fail the shape invariants of the network.
    ShapeMismatch,
}

} // verus!
