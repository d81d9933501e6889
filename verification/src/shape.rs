use vstd::prelude::*;

use crate::error::TrainError;
use crate::error::dim_mismatch;

verus! {

/// The linear map of an `x_rows` by `x_cols` matrix against a weight vector
/// of length `w_len` is defined exactly when `x_cols == w_len`; its result
/// then has one entry per row. Returns that output length, or the
/// dimension mismatch.
pub fn check_forward_dims(x_rows: usize, x_cols: usize, w_len: usize) -> (r: Result<
    usize,
    TrainError,
>)
    ensures
        x_cols == w_len ==> r == Ok::<usize, TrainError>(x_rows),
        x_cols != w_len ==> r == Err::<usize, TrainError>(dim_mismatch(x_cols, w_len)),
{
    if x_cols == w_len {
        Ok(x_rows)
    } else {
        Err(TrainError::DimMismatch { expected: x_cols, got: w_len })
    }
}

} // verus!
