//! The phase runner in its sequential form: the executable state of one
//! phase, every step of which is proved to be the step of the model.
//!
//! A runner is single-use. The caller starts it, lets every worker claim and
//! complete until it is told to leave, and joins the phase once all workers
//! have left. Each method is one atomic step of the phase, so a single
//! thread can play any interleaving of the workers.

use vstd::prelude::*;
use vstd::pervasive::unreached;
use crate::distributor::{decide_claim, ClaimDecision, WorkCounter};
use crate::operation::{BenchmarkError, BenchmarkOperation};
use crate::phase_laws::{
    lemma_abandon_keeps_invariant,
    lemma_claim_keeps_invariant,
    lemma_complete_keeps_invariant,
    lemma_idle_satisfies_invariant,
    lemma_join_keeps_invariant,
    lemma_start_keeps_invariant,
};
use crate::phase_model::{
    action_of_claim,
    result_of_phase,
    PhaseModel,
    PhaseStatus,
    WorkerAction,
    WorkerState,
};
use crate::progress::{progress_percent, ProgressCounter, PROGRESS_DONE, PROGRESS_START};

verus! {

/// Decides what a worker has to do after it has claimed `index` in a phase
/// of `samples` samples whose abort flag reads `aborted`.
pub fn worker_action(index: i32, samples: i32, aborted: bool) -> (action: WorkerAction)
    ensures
        action == action_of_claim(index as int, samples as int, aborted),
{
    match decide_claim(index, samples, aborted) {
        ClaimDecision::Operate => WorkerAction::Operate(index),
        ClaimDecision::Cancelled => WorkerAction::Exit,
        ClaimDecision::Exhausted => WorkerAction::Exit,
    }
}

/// Decides the result of a phase that is joined while its abort flag reads
/// `aborted`.
pub fn phase_result(aborted: bool, operation: BenchmarkOperation) -> (result: Result<
    (),
    BenchmarkError,
>)
    ensures
        result == result_of_phase(aborted, operation),
{
    if aborted {
        Err(BenchmarkError::PhaseFailed(operation))
    } else {
        Ok(())
    }
}

/// The state of one phase.
pub struct PhaseRunner {
    operation: BenchmarkOperation,
    samples: i32,
    status: PhaseStatus,
    counter: WorkCounter,
    aborted: bool,
    progress: ProgressCounter,
    workers: Vec<WorkerState>,
    serviced: Ghost<Seq<int>>,
    reported: Ghost<Seq<int>>,
}

impl PhaseRunner {
    /// The state of the phase in the model.
    pub closed spec fn view(&self) -> PhaseModel {
        PhaseModel {
            samples: self.samples as int,
            status: self.status,
            next: self.counter@,
            aborted: self.aborted,
            percent: self.progress@,
            workers: self.workers@,
            serviced: self.serviced@,
            reported: self.reported@,
        }
    }

    /// The operation that the phase exercises.
    pub closed spec fn operation_of(&self) -> BenchmarkOperation {
        self.operation
    }

    /// The runner is in a state that the steps of a phase can reach. Every
    /// runner is: `new` makes one that is, and every step keeps it so.
    pub open spec fn wf(&self) -> bool {
        self@.inv()
    }

    /// An idle phase of `samples` samples for `threads` workers.
    pub fn new(operation: BenchmarkOperation, samples: i32, threads: usize) -> (runner: Self)
        ensures
            runner.wf(),
            runner@ == PhaseModel::idle(samples as int, threads as nat),
            runner.operation_of() == operation,
    {
        let mut workers: Vec<WorkerState> = Vec::new();
        let mut spawned: usize = 0;
        while spawned < threads
            invariant
                spawned <= threads,
                workers@.len() == spawned,
                forall|w: int| 0 <= w < spawned ==> workers@[w] == WorkerState::Ready,
            decreases threads - spawned,
        {
            workers.push(WorkerState::Ready);
            spawned = spawned + 1;
        }
        let runner = PhaseRunner {
            operation,
            samples,
            status: PhaseStatus::Idle,
            counter: WorkCounter::new(),
            aborted: false,
            progress: ProgressCounter::new(),
            workers,
            serviced: Ghost(Seq::empty()),
            reported: Ghost(Seq::empty()),
        };
        proof {
            let idle = PhaseModel::idle(samples as int, threads as nat);
            lemma_idle_satisfies_invariant(samples as int, threads as nat);
            assert(runner@.workers =~= idle.workers);
            assert(runner@ == idle);
        }
        runner
    }

    /// Entry of the phase: from here on workers may claim. Returns the
    /// percentage to report at the start.
    pub fn start(&mut self) -> (percent: u8)
        requires
            old(self).wf(),
            old(self)@.can_start(),
        ensures
            final(self).wf(),
            final(self)@ == old(self)@.start(),
            final(self).operation_of() == old(self).operation_of(),
            percent == PROGRESS_START,
    {
        proof {
            lemma_start_keeps_invariant(self@);
        }
        self.status = PhaseStatus::Running;
        self.reported = Ghost(Seq::<int>::empty().push(0int));
        PROGRESS_START
    }

    /// Worker `worker` claims the next index and learns what to do: operate
    /// on the claimed key, or leave because the phase is drained or aborted.
    /// The worker sees the abort flag as it is.
    pub fn claim(&mut self, worker: usize) -> (action: WorkerAction)
        requires
            old(self).wf(),
            old(self)@.can_claim(worker as int),
        ensures
            final(self).wf(),
            final(self)@ == old(self)@.claim(worker as int, old(self)@.aborted),
            final(self).operation_of() == old(self).operation_of(),
            action == old(self)@.claim_action(old(self)@.aborted),
    {
        proof {
            lemma_claim_keeps_invariant(self@, worker as int, self@.aborted);
        }
        let index: i32 = self.counter.claim();
        let action = worker_action(index, self.samples, self.aborted);
        let state = match action {
            WorkerAction::Operate(key) => WorkerState::Operating(key),
            WorkerAction::Exit => WorkerState::Exited,
        };
        self.workers.set(worker, state);
        proof {
            assert(self@.workers =~= old(self)@.claim(worker as int, old(self)@.aborted).workers);
        }
        action
    }

    /// Worker `worker` reports the end of its operation. A failure sets the
    /// abort flag and the worker has to leave. A success makes the worker
    /// ready for its next claim; the percentage it returns, if any, is to be
    /// reported.
    pub fn complete(&mut self, worker: usize, succeeded: bool) -> (report: Option<u8>)
        requires
            old(self).wf(),
            old(self)@.can_complete(worker as int),
        ensures
            final(self).wf(),
            final(self)@ == old(self)@.complete(worker as int, succeeded),
            final(self).operation_of() == old(self).operation_of(),
            report.is_some() == old(self)@.completion_report(worker as int, succeeded).is_some(),
            report matches Some(percent) ==> old(self)@.completion_report(worker as int, succeeded)
                == Some(percent as int),
    {
        proof {
            lemma_complete_keeps_invariant(self@, worker as int, succeeded);
            assert(self@.holds(worker as int, self@.key_of(worker as int)));
        }
        let key: i32 = match self.workers[worker] {
            WorkerState::Operating(key) => key,
            _ => unreached(),
        };
        if succeeded {
            let candidate: u8 = progress_percent(key, self.samples);
            let report = self.progress.advance(candidate);
            self.workers.set(worker, WorkerState::Ready);
            self.serviced = Ghost(self.serviced@.push(key as int));
            if report.is_some() {
                self.reported = Ghost(self.reported@.push(candidate as int));
            }
            proof {
                assert(self@.workers =~= old(self)@.complete(worker as int, succeeded).workers);
            }
            report
        } else {
            self.aborted = true;
            self.workers.set(worker, WorkerState::Exited);
            proof {
                assert(self@.workers =~= old(self)@.complete(worker as int, succeeded).workers);
            }
            None
        }
    }

    /// Worker `worker` gives up between two claims, because it has no
    /// client to operate with: the abort flag is set and the worker has to
    /// leave.
    pub fn abandon(&mut self, worker: usize)
        requires
            old(self).wf(),
            old(self)@.can_abandon(worker as int),
        ensures
            final(self).wf(),
            final(self)@ == old(self)@.abandon(worker as int),
            final(self).operation_of() == old(self).operation_of(),
    {
        proof {
            lemma_abandon_keeps_invariant(self@, worker as int);
        }
        self.aborted = true;
        self.workers.set(worker, WorkerState::Exited);
        proof {
            assert(self@.workers =~= old(self)@.abandon(worker as int).workers);
        }
    }

    /// Joins the phase after all workers have left. Returns the final
    /// percentage to report, and the result of the phase: an error that
    /// names the phase's operation exactly when the abort flag is set.
    pub fn join(&mut self) -> (end: (u8, Result<(), BenchmarkError>))
        requires
            old(self).wf(),
            old(self)@.can_join(),
        ensures
            final(self).wf(),
            final(self)@ == old(self)@.join(),
            final(self).operation_of() == old(self).operation_of(),
            end.0 == PROGRESS_DONE,
            end.1 == result_of_phase(old(self)@.aborted, old(self).operation_of()),
    {
        proof {
            lemma_join_keeps_invariant(self@);
        }
        self.reported = Ghost(self.reported@.push(100int));
        self.status = if self.aborted {
            PhaseStatus::Aborted
        } else {
            PhaseStatus::Completed
        };
        (PROGRESS_DONE, phase_result(self.aborted, self.operation))
    }

    /// The operation that the phase exercises.
    pub fn operation(&self) -> (operation: BenchmarkOperation)
        ensures
            operation == self.operation_of(),
    {
        self.operation
    }

    /// The number of samples of the phase.
    pub fn samples(&self) -> (samples: i32)
        ensures
            samples == self@.samples,
    {
        self.samples
    }

    /// The number of workers of the phase.
    pub fn threads(&self) -> (threads: usize)
        ensures
            threads == self@.workers.len(),
    {
        self.workers.len()
    }

    /// Where the phase stands.
    pub fn status(&self) -> (status: PhaseStatus)
        ensures
            status == self@.status,
    {
        self.status
    }

    /// Whether the abort flag is set.
    pub fn is_aborted(&self) -> (aborted: bool)
        ensures
            aborted == self@.aborted,
    {
        self.aborted
    }

    /// The index that the next claim returns.
    pub fn claimed(&self) -> (next: i32)
        ensures
            next == self@.next,
    {
        self.counter.peek()
    }

    /// The highest percentage reported by a worker so far.
    pub fn percent(&self) -> (percent: u8)
        ensures
            percent == self@.percent,
    {
        self.progress.current()
    }

    /// What worker `worker` is doing; nothing for a number that names no
    /// worker.
    pub fn worker(&self, worker: usize) -> (state: Option<WorkerState>)
        ensures
            state == if worker < self@.workers.len() {
                Some(self@.workers[worker as int])
            } else {
                None
            },
    {
        if worker < self.workers.len() {
            Some(self.workers[worker])
        } else {
            None
        }
    }

    /// Whether the phase can be started.
    pub fn can_start(&self) -> (possible: bool)
        ensures
            possible == self@.can_start(),
    {
        self.status == PhaseStatus::Idle
    }

    /// Whether worker `worker` can claim.
    pub fn can_claim(&self, worker: usize) -> (possible: bool)
        ensures
            possible == self@.can_claim(worker as int),
    {
        self.status == PhaseStatus::Running && worker < self.workers.len() && self.workers[worker]
            == WorkerState::Ready
    }

    /// Whether worker `worker` can give up: it is between two claims.
    pub fn can_abandon(&self, worker: usize) -> (possible: bool)
        ensures
            possible == self@.can_abandon(worker as int),
    {
        self.can_claim(worker)
    }

    /// Whether worker `worker` has an operation to complete.
    pub fn can_complete(&self, worker: usize) -> (possible: bool)
        ensures
            possible == self@.can_complete(worker as int),
    {
        if self.status == PhaseStatus::Running && worker < self.workers.len() {
            match self.workers[worker] {
                WorkerState::Operating(_) => true,
                _ => false,
            }
        } else {
            false
        }
    }

    /// Whether the phase can be joined: it runs and all workers have left.
    pub fn can_join(&self) -> (possible: bool)
        ensures
            possible == self@.can_join(),
    {
        if self.status != PhaseStatus::Running {
            return false;
        }
        let mut checked: usize = 0;
        while checked < self.workers.len()
            invariant
                checked <= self.workers@.len(),
                forall|w: int| 0 <= w < checked ==> self@.exited(w),
            decreases self.workers@.len() - checked,
        {
            if self.workers[checked] != WorkerState::Exited {
                proof {
                    assert(!self@.exited(checked as int));
                }
                return false;
            }
            checked = checked + 1;
        }
        true
    }
}

} // verus!
