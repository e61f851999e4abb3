//! The mathematical model of one phase: the shared state that its workers
//! act on, the atomic steps they take, and what holds of every state that
//! those steps can reach.
//!
//! A phase goes `Idle → Running → {Completed, Aborted}`. While it runs,
//! each worker alternates between claiming the next sample index and
//! completing the operation on it; the steps of different workers interleave
//! in any order. A worker that has no client gives up instead of claiming,
//! which aborts the phase.
//!
//! The abort flag need not be visible to a worker at once: a claim comes
//! with what the worker sees of the flag, which is the flag itself or, for
//! a while after it was set, still the clear flag. A worker never sees a
//! flag that was not set.

use vstd::prelude::*;
use crate::distributor::{after_claim, claim_decision, counter_limit, is_sample, ClaimDecision};
use crate::operation::{BenchmarkError, BenchmarkOperation};
use crate::progress::{percent_of, progress_after, progress_update};

verus! {

/// Where a phase stands in its life.
#[derive(Clone, Copy, Debug, PartialEq, Eq, Structural)]
pub enum PhaseStatus {
    /// Created, not yet started.
    Idle,
    /// Started: workers claim and operate.
    Running,
    /// Joined without any failure.
    Completed,
    /// Joined after a worker met a failure.
    Aborted,
}

/// What one worker of a phase is doing.
#[derive(Clone, Copy, Debug, PartialEq, Eq, Structural)]
pub enum WorkerState {
    /// About to claim the next index.
    Ready,
    /// Performing the operation on the claimed index.
    Operating(i32),
    /// Left its loop, for good.
    Exited,
}

/// What a worker has to do after a claim.
#[derive(Clone, Copy, Debug, PartialEq, Eq, Structural)]
pub enum WorkerAction {
    /// Perform the phase's operation on this key, then report the outcome.
    Operate(i32),
    /// Leave the loop.
    Exit,
}

/// What a worker has to do after it has claimed `index` in a phase of
/// `samples` samples whose abort flag reads `aborted`: operate on the index
/// if it is a sample and the phase is live, leave otherwise.
pub open spec fn action_of_claim(index: int, samples: int, aborted: bool) -> WorkerAction {
    match claim_decision(index, samples, aborted) {
        ClaimDecision::Operate => WorkerAction::Operate(index as i32),
        ClaimDecision::Cancelled => WorkerAction::Exit,
        ClaimDecision::Exhausted => WorkerAction::Exit,
    }
}

/// The result of a phase that is joined while its abort flag reads
/// `aborted`: an error that names the operation exactly when the flag is
/// set.
pub open spec fn result_of_phase(aborted: bool, operation: BenchmarkOperation) -> Result<
    (),
    BenchmarkError,
> {
    if aborted {
        Err(BenchmarkError::PhaseFailed(operation))
    } else {
        Ok(())
    }
}

/// One atomic step of a phase.
pub enum PhaseEvent {
    /// The phase is started.
    Start,
    /// The worker claims the next index, and sees the abort flag as given.
    Claim(int, bool),
    /// The worker's operation ended, successfully or not.
    Complete(int, bool),
    /// The worker gives up before a claim, because it has no client.
    Abandon(int),
    /// All workers have left and the phase is joined.
    Join,
}

/// The state of a phase.
pub struct PhaseModel {
    /// The number of samples of the phase.
    pub samples: int,
    /// Where the phase stands.
    pub status: PhaseStatus,
    /// The shared work counter: the index that the next claim returns.
    pub next: int,
    /// The shared abort flag.
    pub aborted: bool,
    /// The shared progress counter: the highest percentage reported.
    pub percent: int,
    /// What each worker is doing.
    pub workers: Seq<WorkerState>,
    /// The keys whose operation succeeded, in the order of completion.
    pub serviced: Seq<int>,
    /// The percentages reported so far, in order.
    pub reported: Seq<int>,
}

impl PhaseModel {
    /// A phase of `samples` samples and `threads` workers before its start.
    pub open spec fn idle(samples: int, threads: nat) -> PhaseModel {
        PhaseModel {
            samples,
            status: PhaseStatus::Idle,
            next: 0,
            aborted: false,
            percent: 0,
            workers: Seq::new(threads, |w: int| WorkerState::Ready),
            serviced: Seq::empty(),
            reported: Seq::empty(),
        }
    }

    /// Worker `w` is performing the operation on key `k`.
    pub open spec fn holds(self, w: int, k: int) -> bool {
        &&& 0 <= w < self.workers.len()
        &&& self.workers[w] matches WorkerState::Operating(key)
        &&& key == k
    }

    /// Some worker is performing the operation on key `k`.
    pub open spec fn in_flight(self, k: int) -> bool {
        exists|w: int| self.holds(w, k)
    }

    /// Key `k` has been serviced or is being serviced.
    pub open spec fn accounted(self, k: int) -> bool {
        self.serviced.contains(k) || self.in_flight(k)
    }

    /// Worker `w` has left its loop.
    pub open spec fn exited(self, w: int) -> bool {
        0 <= w < self.workers.len() && self.workers[w] == WorkerState::Exited
    }

    /// The phase has been joined.
    pub open spec fn terminal(self) -> bool {
        self.status == PhaseStatus::Completed || self.status == PhaseStatus::Aborted
    }

    // ----- the steps -----

    /// The phase can be started.
    pub open spec fn can_start(self) -> bool {
        self.status == PhaseStatus::Idle
    }

    /// Entry: the counter at zero, the flag clear, progress at its start.
    pub open spec fn start(self) -> PhaseModel {
        PhaseModel { status: PhaseStatus::Running, reported: Seq::<int>::empty().push(0), ..self }
    }

    /// Worker `w` can claim.
    pub open spec fn can_claim(self, w: int) -> bool {
        &&& self.status == PhaseStatus::Running
        &&& 0 <= w < self.workers.len()
        &&& self.workers[w] == WorkerState::Ready
    }

    /// Worker `w` can claim and see the abort flag as `seen`: a set flag is
    /// seen only if it is set.
    pub open spec fn can_claim_seeing(self, w: int, seen: bool) -> bool {
        self.can_claim(w) && (seen ==> self.aborted)
    }

    /// What a claim tells the worker that sees the abort flag as `seen`.
    pub open spec fn claim_action(self, seen: bool) -> WorkerAction {
        action_of_claim(self.next, self.samples, seen)
    }

    /// Worker `w` claims the next index and sees the abort flag as `seen`.
    pub open spec fn claim(self, w: int, seen: bool) -> PhaseModel {
        let state = match self.claim_action(seen) {
            WorkerAction::Operate(key) => WorkerState::Operating(key),
            WorkerAction::Exit => WorkerState::Exited,
        };
        PhaseModel { next: after_claim(self.next), workers: self.workers.update(w, state), ..self }
    }

    /// Worker `w` can report the end of its operation.
    pub open spec fn can_complete(self, w: int) -> bool {
        &&& self.status == PhaseStatus::Running
        &&& 0 <= w < self.workers.len()
        &&& self.workers[w] is Operating
    }

    /// The key that worker `w` is operating on.
    pub open spec fn key_of(self, w: int) -> int {
        self.workers[w]->Operating_0 as int
    }

    /// The percentage to report when worker `w` completes.
    pub open spec fn completion_report(self, w: int, succeeded: bool) -> Option<int> {
        if succeeded {
            progress_update(self.percent, percent_of(self.key_of(w), self.samples))
        } else {
            None
        }
    }

    /// The operation of worker `w` ended.
    pub open spec fn complete(self, w: int, succeeded: bool) -> PhaseModel {
        if succeeded {
            let candidate = percent_of(self.key_of(w), self.samples);
            PhaseModel {
                percent: progress_after(self.percent, candidate),
                workers: self.workers.update(w, WorkerState::Ready),
                serviced: self.serviced.push(self.key_of(w)),
                reported: if candidate > self.percent {
                    self.reported.push(candidate)
                } else {
                    self.reported
                },
                ..self
            }
        } else {
            PhaseModel {
                aborted: true,
                workers: self.workers.update(w, WorkerState::Exited),
                ..self
            }
        }
    }

    /// Worker `w` can give up: it is between two claims.
    pub open spec fn can_abandon(self, w: int) -> bool {
        self.can_claim(w)
    }

    /// Worker `w` gives up: it sets the abort flag and leaves.
    pub open spec fn abandon(self, w: int) -> PhaseModel {
        PhaseModel { aborted: true, workers: self.workers.update(w, WorkerState::Exited), ..self }
    }

    /// The phase can be joined: it runs and every worker has left.
    pub open spec fn can_join(self) -> bool {
        &&& self.status == PhaseStatus::Running
        &&& forall|w: int| 0 <= w < self.workers.len() ==> self.exited(w)
    }

    /// The phase is joined.
    pub open spec fn join(self) -> PhaseModel {
        PhaseModel {
            status: if self.aborted {
                PhaseStatus::Aborted
            } else {
                PhaseStatus::Completed
            },
            reported: self.reported.push(100),
            ..self
        }
    }

    /// The step `event` can be taken.
    pub open spec fn enabled(self, event: PhaseEvent) -> bool {
        match event {
            PhaseEvent::Start => self.can_start(),
            PhaseEvent::Claim(w, seen) => self.can_claim_seeing(w, seen),
            PhaseEvent::Complete(w, _) => self.can_complete(w),
            PhaseEvent::Abandon(w) => self.can_abandon(w),
            PhaseEvent::Join => self.can_join(),
        }
    }

    /// The state after `event`; a step that cannot be taken changes nothing.
    pub open spec fn step(self, event: PhaseEvent) -> PhaseModel {
        if !self.enabled(event) {
            self
        } else {
            match event {
                PhaseEvent::Start => self.start(),
                PhaseEvent::Claim(w, seen) => self.claim(w, seen),
                PhaseEvent::Complete(w, succeeded) => self.complete(w, succeeded),
                PhaseEvent::Abandon(w) => self.abandon(w),
                PhaseEvent::Join => self.join(),
            }
        }
    }

    /// The state after the steps `events`, taken in order.
    pub open spec fn run(self, events: Seq<PhaseEvent>) -> PhaseModel
        decreases events.len(),
    {
        if events.len() == 0 {
            self
        } else {
            self.step(events[0]).run(events.drop_first())
        }
    }

    // ----- what holds of every reachable state -----

    /// Every serviced key is a sample that the counter has passed.
    pub open spec fn serviced_are_claimed_samples(self) -> bool {
        forall|i: int|
            0 <= i < self.serviced.len() ==> is_sample(#[trigger] self.serviced[i], self.samples)
                && self.serviced[i] < self.next
    }

    /// Every key in flight is a sample that the counter has passed and that
    /// has not been serviced.
    pub open spec fn in_flight_are_claimed_samples(self) -> bool {
        forall|w: int, k: int| #[trigger]
            self.holds(w, k) ==> is_sample(k, self.samples) && k < self.next
                && !self.serviced.contains(k)
    }

    /// No two workers hold the same key.
    pub open spec fn in_flight_are_distinct(self) -> bool {
        forall|w1: int, w2: int, k: int|
            #![trigger self.holds(w1, k), self.holds(w2, k)]
            self.holds(w1, k) && self.holds(w2, k) ==> w1 == w2
    }

    /// Unless the phase was aborted, every sample that the counter has
    /// passed is serviced or in flight.
    pub open spec fn claimed_are_accounted(self) -> bool {
        !self.aborted ==> forall|k: int|
            0 <= k < self.next && k < self.samples ==> #[trigger] self.accounted(k)
    }

    /// Unless the phase was aborted, a worker has left only after the
    /// counter has passed every sample.
    pub open spec fn exits_follow_exhaustion(self) -> bool {
        !self.aborted ==> forall|w: int| #[trigger] self.exited(w) ==> self.next >= self.samples
    }

    /// The reported percentages increase strictly.
    pub open spec fn reports_increase(self) -> bool {
        forall|i: int, j: int|
            0 <= i < j < self.reported.len() ==> self.reported[i] < self.reported[j]
    }

    /// The reports match the status: none before the start; then the
    /// starting percentage first and the shared counter last, below the
    /// final percentage; and the final percentage last once joined.
    pub open spec fn reports_match_status(self) -> bool {
        match self.status {
            PhaseStatus::Idle => self.reported.len() == 0 && self.percent == 0,
            PhaseStatus::Running => {
                &&& self.reported.len() >= 1
                &&& self.reported[0] == 0
                &&& self.reported.last() == self.percent
                &&& 0 <= self.percent < 100
            },
            _ => {
                &&& self.reported.len() >= 2
                &&& self.reported[0] == 0
                &&& self.reported.last() == 100
            },
        }
    }

    /// The status matches the shared state.
    pub open spec fn status_matches_state(self) -> bool {
        match self.status {
            PhaseStatus::Idle => {
                &&& self.next == 0
                &&& !self.aborted
                &&& self.serviced.len() == 0
                &&& forall|w: int|
                    0 <= w < self.workers.len() ==> #[trigger] self.workers[w]
                        == WorkerState::Ready
            },
            PhaseStatus::Running => true,
            PhaseStatus::Completed => {
                &&& !self.aborted
                &&& forall|w: int| 0 <= w < self.workers.len() ==> self.exited(w)
            },
            PhaseStatus::Aborted => {
                &&& self.aborted
                &&& forall|w: int| 0 <= w < self.workers.len() ==> self.exited(w)
            },
        }
    }

    /// The invariant of a phase: what holds of every state that the steps
    /// can reach from an idle phase.
    pub open spec fn inv(self) -> bool {
        &&& 0 <= self.next <= counter_limit()
        &&& self.samples <= counter_limit()
        &&& self.serviced.no_duplicates()
        &&& self.serviced_are_claimed_samples()
        &&& self.in_flight_are_claimed_samples()
        &&& self.in_flight_are_distinct()
        &&& self.claimed_are_accounted()
        &&& self.exits_follow_exhaustion()
        &&& self.reports_increase()
        &&& self.reports_match_status()
        &&& self.status_matches_state()
    }
}

} // verus!
