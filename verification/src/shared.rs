//! The phase runner in its lock-free form: the state that the workers of
//! one phase share across threads.
//!
//! The counter, the abort flag and the progress counter are atomics. Each
//! method reads and writes them with single atomic operations and decides
//! with the same functions as the sequential runner: a claim is one
//! fetch-and-increment followed by a read of the flag, which the worker may
//! still see clear shortly after it was set; a completion is one store to
//! the flag or one fetch-and-maximum on the progress. What an atomic holds
//! depends on what other workers do, so each contract states what holds
//! whatever the atomics hold.

use std::sync::atomic::{AtomicBool, AtomicI32, AtomicU8, Ordering};
use vstd::prelude::*;
use crate::operation::{BenchmarkError, BenchmarkOperation};
use crate::phase::{phase_result, worker_action};
use crate::phase_model::WorkerAction;
use crate::progress::{
    percent_of_key,
    progress_percent,
    report_update,
    PROGRESS_DONE,
    PROGRESS_START,
};

verus! {

/// The shared state of one phase.
pub struct SharedPhase {
    operation: BenchmarkOperation,
    samples: i32,
    current: AtomicI32,
    error: AtomicBool,
    percent: AtomicU8,
}

impl SharedPhase {
    /// The operation that the phase exercises.
    pub closed spec fn operation_of(&self) -> BenchmarkOperation {
        self.operation
    }

    /// The number of samples of the phase.
    pub closed spec fn samples_of(&self) -> i32 {
        self.samples
    }

    /// The shared state of a fresh phase: the counter at zero, the abort
    /// flag clear, the progress at its start.
    pub fn new(operation: BenchmarkOperation, samples: i32) -> (phase: Self)
        ensures
            phase.operation_of() == operation,
            phase.samples_of() == samples,
    {
        SharedPhase {
            operation,
            samples,
            current: AtomicI32::new(0),
            error: AtomicBool::new(false),
            percent: AtomicU8::new(PROGRESS_START),
        }
    }

    /// The operation that the phase exercises.
    pub fn operation(&self) -> (operation: BenchmarkOperation)
        ensures
            operation == self.operation_of(),
    {
        self.operation
    }

    /// The number of samples of the phase.
    pub fn samples(&self) -> (samples: i32)
        ensures
            samples == self.samples_of(),
    {
        self.samples
    }

    /// Whether the abort flag reads as set.
    pub fn is_aborted(&self) -> bool {
        self.error.load(Ordering::Relaxed)
    }

    /// A worker claims the next index, by one fetch-and-increment, reads the
    /// abort flag and learns what to do. Whatever the counter and the flag
    /// hold: a key that is handed out is a sample of the phase.
    ///
    /// The atomic counter wraps around instead of stopping at its limit. A
    /// wrapped counter reads negative, which is no sample, so the workers
    /// keep leaving; it would take as many claims as the counter has values
    /// to bring it back to zero.
    pub fn claim(&self) -> (action: WorkerAction)
        ensures
            action matches WorkerAction::Operate(key) ==> 0 <= key < self.samples_of(),
    {
        let index: i32 = self.current.fetch_add(1, Ordering::Relaxed);
        let aborted = self.error.load(Ordering::Relaxed);
        worker_action(index, self.samples, aborted)
    }

    /// A worker reports the end of its operation on `key`. A failure sets
    /// the abort flag. A success offers the percentage of the key to the
    /// progress counter, by one fetch-and-maximum; the percentage is handed
    /// back for reporting if it was an increase. Whatever the progress
    /// counter holds: only a success reports, only on a sample, only the
    /// percentage of its key, and only a percentage above the start, since
    /// nothing else is an increase.
    pub fn complete(&self, key: i32, succeeded: bool) -> (report: Option<u8>)
        ensures
            report matches Some(percent) ==> succeeded && 0 <= key < self.samples_of() && percent
                == percent_of_key(key, self.samples_of()) && percent > PROGRESS_START,
    {
        if !succeeded {
            self.error.store(true, Ordering::Relaxed);
            None
        } else if 0 <= key && key < self.samples {
            let candidate: u8 = progress_percent(key, self.samples);
            let previous: u8 = self.percent.fetch_max(candidate, Ordering::Relaxed);
            report_update(previous, candidate)
        } else {
            None
        }
    }

    /// A worker gives up because it has no client to operate with: the
    /// abort flag is set.
    pub fn abandon(&self) {
        self.error.store(true, Ordering::Relaxed);
    }

    /// Joins the phase after all workers have left. Returns the final
    /// percentage to report and the result of the phase. Whatever the abort
    /// flag holds: an error names the operation of the phase.
    pub fn join(&self) -> (end: (u8, Result<(), BenchmarkError>))
        ensures
            end.0 == PROGRESS_DONE,
            end.1 matches Err(error) ==> error == BenchmarkError::PhaseFailed(self.operation_of()),
    {
        let aborted = self.error.load(Ordering::Relaxed);
        (PROGRESS_DONE, phase_result(aborted, self.operation))
    }
}

} // verus!
