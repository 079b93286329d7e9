use vstd::prelude::*;

verus! {

/// The ways a run over a star catalog can fail. Each of them ends the run:
/// no partial result is ever handed back.
#[derive(Debug, Clone, Copy, PartialEq, Eq, Structural)]
pub enum CalcError {
    /// A required numeric cell is absent; `row` is the first such row.
    MissingValue { row: usize },
    /// A parallax is zero or negative; `row` is the first such row.
    InvalidParallax { row: usize },
    /// Pairwise and neighbour work needs at least two stars.
    InsufficientData,
    /// The luminosities sum to zero, so they cannot be normalised.
    DegenerateDistribution,
    /// An index lies outside the catalog or the matrix.
    IndexOutOfRange,
}

} // verus!
