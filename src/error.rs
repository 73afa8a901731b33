use vstd::prelude::*;

verus! {

/// The ways in which an operation of this library can refuse its inputs.
#[derive(Debug, Clone, Copy, PartialEq, Eq, Structural)]
pub enum LearnError {
    /// A distribution parameter is out of range (a standard deviation that is not positive).
    InvalidParameter,
    /// An input vector's length disagrees with the model, or with the rest of the dataset.
    DimensionMismatch,
    /// A cost or a gradient was asked of a dataset with no datapoints.
    EmptyDataset,
}

} // verus!
