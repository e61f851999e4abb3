//! The operations a phase can exercise and the errors a run can end with.

use vstd::prelude::*;

verus! {

/// The operation that every worker of a phase performs on the samples.
#[derive(Clone, Copy, Debug, PartialEq, Eq, Structural)]
pub enum BenchmarkOperation {
    /// Store a fresh record under the sample index.
    Write,
    /// Look the record of the sample index up.
    Read,
    /// Remove the record of the sample index.
    Delete,
}

/// Why a client refused an operation.
#[derive(Clone, Copy, Debug, PartialEq, Eq, Structural)]
pub enum ClientError {
    /// A read or a delete named a key under which nothing is stored.
    KeyNotFound(i32),
}

/// The terminal error of a run.
#[derive(Clone, Copy, Debug, PartialEq, Eq, Structural)]
pub enum BenchmarkError {
    /// No client could be created before the readiness deadline.
    Unreachable,
    /// The one-time preparation of the backing store failed.
    PrepareFailed,
    /// An operation failed in the named phase, which aborted it.
    PhaseFailed(BenchmarkOperation),
}

} // verus!
