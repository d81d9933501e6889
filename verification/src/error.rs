use vstd::prelude::*;

verus! {

/// The one failure the training pipeline can report: two dimensions that the
/// data model requires to agree did not. Both lengths are carried so the
/// caller can print a descriptive message.
#[derive(Clone, Copy, PartialEq, Eq, Debug)]
pub enum TrainError {
    DimMismatch { expected: usize, got: usize },
}

/// The dimension-mismatch error for an expected length and the length that
/// was actually supplied.
pub open spec fn dim_mismatch(expected: usize, got: usize) -> TrainError {
    TrainError::DimMismatch { expected, got }
}

} // verus!
