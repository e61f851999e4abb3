//! The benchmark orchestrator: one preparation, then the write, the read
//! and the delete phase, each run only if everything before it succeeded.
//!
//! This module decides; the caller waits for the client, prepares the
//! store, runs the workers of each phase and measures the time.

use vstd::prelude::*;
use crate::operation::{BenchmarkError, BenchmarkOperation};
use crate::shared::SharedPhase;
use crate::waiter::{wait_decision, WaitAction, WaitProgress};

verus! {

/// The time after which the orchestrator stops waiting for a client, in
/// nanoseconds.
pub const CLIENT_TIMEOUT_NANOS: u64 = 60_000_000_000;

/// The durations of the three phases of a run, in nanoseconds.
#[derive(Clone, Copy, Debug, PartialEq, Eq, Structural)]
pub struct BenchmarkResult {
    /// The duration of the write phase.
    pub writes: u128,
    /// The duration of the read phase.
    pub reads: u128,
    /// The duration of the delete phase.
    pub deletes: u128,
}

/// How the action that the orchestrator asked for ended.
#[derive(Clone, Copy, Debug, PartialEq, Eq, Structural)]
pub enum Outcome {
    /// It succeeded, after this many nanoseconds.
    Succeeded(u128),
    /// It failed.
    Failed,
}

/// What the caller has to do for the orchestrator.
#[derive(Clone, Copy, Debug, PartialEq, Eq, Structural)]
pub enum RunAction {
    /// Obtain one client through the readiness waiter, with this time-out in
    /// nanoseconds.
    AwaitClient(u64),
    /// Prepare the backing store with that client.
    Prepare,
    /// Run one phase with this operation and measure it.
    RunPhase(BenchmarkOperation),
    /// Hand out the result: the run is over.
    Report(BenchmarkResult),
    /// Hand out the error: the run is over.
    Fail(BenchmarkError),
}

/// Where a run stands. Every state but the last two waits for the outcome of
/// one action.
#[derive(Clone, Copy, Debug, PartialEq, Eq, Structural)]
pub enum RunState {
    /// Waiting for the first client.
    AwaitingClient,
    /// Waiting for the preparation of the store.
    Preparing,
    /// Waiting for the write phase.
    Writing,
    /// Waiting for the read phase; the write phase took `writes`.
    Reading { writes: u128 },
    /// Waiting for the delete phase.
    Deleting { writes: u128, reads: u128 },
    /// All three phases completed.
    Finished(BenchmarkResult),
    /// The run ended with an error; nothing runs after it.
    Failed(BenchmarkError),
}

impl RunState {
    /// The state in which every run begins.
    pub open spec fn initial() -> RunState {
        RunState::AwaitingClient
    }

    /// Whether the run is over.
    pub open spec fn is_terminal(self) -> bool {
        self is Finished || self is Failed
    }

    /// Whether a phase is running.
    pub open spec fn is_phase(self) -> bool {
        self is Writing || self is Reading || self is Deleting
    }

    /// How many actions have succeeded before a run reaches this state;
    /// the same number for both ends of a run.
    pub open spec fn rank(self) -> int {
        match self {
            RunState::AwaitingClient => 0,
            RunState::Preparing => 1,
            RunState::Writing => 2,
            RunState::Reading { .. } => 3,
            RunState::Deleting { .. } => 4,
            RunState::Finished(_) => 5,
            RunState::Failed(_) => 5,
        }
    }

    /// The action that this state waits for, or that ends the run.
    pub open spec fn action_of(self) -> RunAction {
        match self {
            RunState::AwaitingClient => RunAction::AwaitClient(CLIENT_TIMEOUT_NANOS),
            RunState::Preparing => RunAction::Prepare,
            RunState::Writing => RunAction::RunPhase(BenchmarkOperation::Write),
            RunState::Reading { .. } => RunAction::RunPhase(BenchmarkOperation::Read),
            RunState::Deleting { .. } => RunAction::RunPhase(BenchmarkOperation::Delete),
            RunState::Finished(result) => RunAction::Report(result),
            RunState::Failed(error) => RunAction::Fail(error),
        }
    }

    /// The error with which a run fails when the action of this state
    /// fails.
    pub open spec fn error_of(self) -> BenchmarkError {
        match self {
            RunState::AwaitingClient => BenchmarkError::Unreachable,
            RunState::Preparing => BenchmarkError::PrepareFailed,
            RunState::Writing => BenchmarkError::PhaseFailed(BenchmarkOperation::Write),
            RunState::Reading { .. } => BenchmarkError::PhaseFailed(BenchmarkOperation::Read),
            RunState::Deleting { .. } => BenchmarkError::PhaseFailed(BenchmarkOperation::Delete),
            RunState::Finished(_) => BenchmarkError::Unreachable,
            RunState::Failed(error) => error,
        }
    }

    /// The state that follows when the action of this state ends with
    /// `outcome`. A run that is over stays as it is.
    pub open spec fn next(self, outcome: Outcome) -> RunState {
        match (self, outcome) {
            (RunState::Finished(_), _) => self,
            (RunState::Failed(_), _) => self,
            (_, Outcome::Failed) => RunState::Failed(self.error_of()),
            (RunState::AwaitingClient, Outcome::Succeeded(_)) => RunState::Preparing,
            (RunState::Preparing, Outcome::Succeeded(_)) => RunState::Writing,
            (RunState::Writing, Outcome::Succeeded(elapsed)) => RunState::Reading {
                writes: elapsed,
            },
            (RunState::Reading { writes }, Outcome::Succeeded(elapsed)) => RunState::Deleting {
                writes,
                reads: elapsed,
            },
            (RunState::Deleting { writes, reads }, Outcome::Succeeded(elapsed)) => {
                RunState::Finished(BenchmarkResult { writes, reads, deletes: elapsed })
            },
        }
    }

    /// The state that a run is in after the outcomes `outcomes`, in order.
    pub open spec fn after(outcomes: Seq<Outcome>) -> RunState
        decreases outcomes.len(),
    {
        if outcomes.len() == 0 {
            RunState::initial()
        } else {
            RunState::after(outcomes.drop_last()).next(outcomes.last())
        }
    }

    /// The state in which every run begins: waiting for a client.
    pub fn begin() -> (state: RunState)
        ensures
            state == RunState::initial(),
    {
        RunState::AwaitingClient
    }

    /// The action that this state waits for, or that ends the run.
    pub fn action(&self) -> (action: RunAction)
        ensures
            action == self.action_of(),
    {
        match self {
            RunState::AwaitingClient => RunAction::AwaitClient(CLIENT_TIMEOUT_NANOS),
            RunState::Preparing => RunAction::Prepare,
            RunState::Writing => RunAction::RunPhase(BenchmarkOperation::Write),
            RunState::Reading { .. } => RunAction::RunPhase(BenchmarkOperation::Read),
            RunState::Deleting { .. } => RunAction::RunPhase(BenchmarkOperation::Delete),
            RunState::Finished(result) => RunAction::Report(*result),
            RunState::Failed(error) => RunAction::Fail(*error),
        }
    }
}

/// The configuration of a run: how many workers, how many samples.
#[derive(Clone, Copy, Debug, PartialEq, Eq, Structural)]
pub struct Benchmark {
    threads: usize,
    samples: i32,
}

impl Benchmark {
    /// The number of workers of every phase.
    pub closed spec fn threads_of(&self) -> nat {
        self.threads as nat
    }

    /// The number of samples of every phase.
    pub closed spec fn samples_of(&self) -> int {
        self.samples as int
    }

    /// A benchmark of `samples` samples, run by `threads` workers.
    pub fn new(threads: usize, samples: i32) -> (benchmark: Self)
        ensures
            benchmark.threads_of() == threads,
            benchmark.samples_of() == samples,
    {
        Benchmark { threads, samples }
    }

    /// The number of workers of every phase.
    pub fn threads(&self) -> (threads: usize)
        ensures
            threads == self.threads_of(),
    {
        self.threads
    }

    /// The number of samples of every phase.
    pub fn samples(&self) -> (samples: i32)
        ensures
            samples == self.samples_of(),
    {
        self.samples
    }

    /// One decision of the readiness waiter: what to do next when the
    /// waiter has come as far as `progress`, the clock reads `elapsed` and
    /// the time-out is `time_out`, both in nanoseconds. The clock reading
    /// counts only once the clock runs, and not after a client was created.
    pub fn wait_for_client(progress: WaitProgress, elapsed: u128, time_out: u128) -> (action:
        WaitAction)
        ensures
            action == wait_decision(progress, elapsed as int, time_out as int),
    {
        match progress {
            WaitProgress::Started => WaitAction::Settle,
            WaitProgress::Connected => WaitAction::Deliver,
            _ => if elapsed < time_out {
                WaitAction::Probe
            } else {
                WaitAction::GiveUp
            },
        }
    }

    /// One decision of the orchestrator: the state that follows `state`
    /// when the action that `state` waited for ended with `outcome`.
    pub fn run(&self, state: RunState, outcome: Outcome) -> (next: RunState)
        ensures
            next == state.next(outcome),
    {
        match state {
            RunState::Finished(_) => state,
            RunState::Failed(_) => state,
            RunState::AwaitingClient => match outcome {
                Outcome::Succeeded(_) => RunState::Preparing,
                Outcome::Failed => RunState::Failed(BenchmarkError::Unreachable),
            },
            RunState::Preparing => match outcome {
                Outcome::Succeeded(_) => RunState::Writing,
                Outcome::Failed => RunState::Failed(BenchmarkError::PrepareFailed),
            },
            RunState::Writing => match outcome {
                Outcome::Succeeded(elapsed) => RunState::Reading { writes: elapsed },
                Outcome::Failed => RunState::Failed(
                    BenchmarkError::PhaseFailed(BenchmarkOperation::Write),
                ),
            },
            RunState::Reading { writes } => match outcome {
                Outcome::Succeeded(elapsed) => RunState::Deleting { writes, reads: elapsed },
                Outcome::Failed => RunState::Failed(
                    BenchmarkError::PhaseFailed(BenchmarkOperation::Read),
                ),
            },
            RunState::Deleting { writes, reads } => match outcome {
                Outcome::Succeeded(elapsed) => RunState::Finished(
                    BenchmarkResult { writes, reads, deletes: elapsed },
                ),
                Outcome::Failed => RunState::Failed(
                    BenchmarkError::PhaseFailed(BenchmarkOperation::Delete),
                ),
            },
        }
    }

    /// Entry of one phase: the shared state of a fresh phase for
    /// `operation`, its counter at zero, its abort flag clear, its progress
    /// at the start.
    pub fn run_operation(&self, operation: BenchmarkOperation) -> (phase: SharedPhase)
        ensures
            phase.operation_of() == operation,
            phase.samples_of() == self.samples_of(),
    {
        SharedPhase::new(operation, self.samples)
    }
}

/// The state of a run after the first `count` of the outcomes `outcomes`.
pub open spec fn state_at(outcomes: Seq<Outcome>, count: int) -> RunState {
    RunState::after(outcomes.take(count))
}

/// A success takes a run one action further; a failure ends it with the
/// error of the action that failed; a run that is over stays as it is.
pub proof fn law_run_step(state: RunState, outcome: Outcome)
    ensures
        state.is_terminal() ==> state.next(outcome) == state,
        !state.is_terminal() && outcome is Succeeded ==> state.next(outcome).rank() == state.rank()
            + 1 && !(state.next(outcome) is Failed),
        !state.is_terminal() && outcome is Failed ==> state.next(outcome) == RunState::Failed(
            state.error_of(),
        ),
{
}

/// A run that is not over after `outcomes` has seen only successes, as
/// many as its state counts.
pub proof fn lemma_live_run(outcomes: Seq<Outcome>)
    requires
        !RunState::after(outcomes).is_terminal(),
    ensures
        RunState::after(outcomes).rank() == outcomes.len(),
        forall|i: int| 0 <= i < outcomes.len() ==> #[trigger] outcomes[i] is Succeeded,
    decreases outcomes.len(),
{
    if outcomes.len() > 0 {
        let before = RunState::after(outcomes.drop_last());
        law_run_step(before, outcomes.last());
        lemma_live_run(outcomes.drop_last());
        assert forall|i: int| 0 <= i < outcomes.len() implies #[trigger] outcomes[i] is Succeeded by {
            if i < outcomes.len() - 1 {
                assert(outcomes.drop_last()[i] is Succeeded);
            }
        }
    }
}

/// The store is prepared exactly once, before any phase. In every run the
/// orchestrator asks for the preparation at most once, namely right after
/// the client was obtained; and whenever it asks for a phase, it has asked
/// for the preparation before, and the preparation succeeded.
pub proof fn law_prepare_once_before_any_phase(outcomes: Seq<Outcome>, count: int)
    requires
        0 <= count <= outcomes.len(),
    ensures
        state_at(outcomes, count) is Preparing <==> count == 1 && outcomes[0] is Succeeded,
        state_at(outcomes, count).is_phase() ==> count >= 2 && state_at(outcomes, 1) is Preparing
            && outcomes[1] is Succeeded,
{
    let prefix = outcomes.take(count);
    let state = RunState::after(prefix);
    if !state.is_terminal() {
        lemma_live_run(prefix);
        if count >= 1 {
            assert(prefix[0] is Succeeded);
        }
        if count >= 2 {
            assert(prefix[1] is Succeeded);
        }
    }
    if count >= 1 {
        let first = outcomes.take(1);
        assert(first.drop_last() =~= Seq::<Outcome>::empty());
        assert(RunState::after(first.drop_last()) == RunState::initial());
        assert(first.last() == outcomes[0]);
    }
}

/// The phases run in the order write, read, delete, each at most once:
/// the write phase as third action, the read phase as fourth, the delete
/// phase as fifth, and each only after all actions before it succeeded.
pub proof fn law_phases_run_in_order(outcomes: Seq<Outcome>, count: int)
    requires
        0 <= count <= outcomes.len(),
    ensures
        state_at(outcomes, count) is Writing ==> count == 2,
        state_at(outcomes, count) is Reading ==> count == 3,
        state_at(outcomes, count) is Deleting ==> count == 4,
        !state_at(outcomes, count).is_terminal() ==> forall|i: int|
            0 <= i < count ==> #[trigger] outcomes[i] is Succeeded,
{
    let prefix = outcomes.take(count);
    if !RunState::after(prefix).is_terminal() {
        lemma_live_run(prefix);
        assert forall|i: int| 0 <= i < count implies #[trigger] outcomes[i] is Succeeded by {
            assert(prefix[i] is Succeeded);
        }
    }
}

/// The first failure ends the run: the error names the action that failed
/// and nothing that follows changes it, so no later phase runs.
pub proof fn law_failure_ends_the_run(outcomes: Seq<Outcome>, later: Seq<Outcome>)
    requires
        RunState::after(outcomes) is Failed,
    ensures
        RunState::after(outcomes + later) == RunState::after(outcomes),
    decreases later.len(),
{
    if later.len() == 0 {
        assert(outcomes + later =~= outcomes);
    } else {
        law_failure_ends_the_run(outcomes, later.drop_last());
        assert((outcomes + later).drop_last() =~= outcomes + later.drop_last());
        assert((outcomes + later).last() == later.last());
    }
}

/// A failed phase fails the run with an error that names the phase.
pub proof fn law_failed_phase_is_named(state: RunState)
    requires
        state.is_phase(),
    ensures
        state.action_of() matches RunAction::RunPhase(operation) && state.next(Outcome::Failed)
            == RunState::Failed(BenchmarkError::PhaseFailed(operation)),
{
}

/// Five successes in a row finish a run, and the result holds what the
/// three phases reported: the third, fourth and fifth duration.
pub proof fn law_five_successes_finish(
    waited: u128,
    prepared: u128,
    writes: u128,
    reads: u128,
    deletes: u128,
)
    ensures
        RunState::after(
            seq![
                Outcome::Succeeded(waited),
                Outcome::Succeeded(prepared),
                Outcome::Succeeded(writes),
                Outcome::Succeeded(reads),
                Outcome::Succeeded(deletes),
            ],
        ) == RunState::Finished(BenchmarkResult { writes, reads, deletes }),
{
    let all = seq![
        Outcome::Succeeded(waited),
        Outcome::Succeeded(prepared),
        Outcome::Succeeded(writes),
        Outcome::Succeeded(reads),
        Outcome::Succeeded(deletes),
    ];
    let four = all.drop_last();
    let three = four.drop_last();
    let two = three.drop_last();
    let one = two.drop_last();
    assert(one.drop_last() =~= Seq::<Outcome>::empty());
    assert(RunState::after(one.drop_last()) == RunState::initial());
    assert(RunState::after(one) == RunState::Preparing);
    assert(RunState::after(two) == RunState::Writing);
    assert(RunState::after(three) == RunState::Reading { writes });
    assert(RunState::after(four) == RunState::Deleting { writes, reads });
}

/// A run finishes only after all five actions succeeded.
pub proof fn law_finish_needs_every_success(outcomes: Seq<Outcome>)
    requires
        RunState::after(outcomes) is Finished,
    ensures
        outcomes.len() >= 5,
        forall|i: int| 0 <= i < 5 ==> #[trigger] outcomes[i] is Succeeded,
    decreases outcomes.len(),
{
    if outcomes.len() > 0 {
        let before = outcomes.drop_last();
        if RunState::after(before) is Finished {
            law_finish_needs_every_success(before);
            assert forall|i: int| 0 <= i < 5 implies #[trigger] outcomes[i] is Succeeded by {
                assert(before[i] is Succeeded);
            }
        } else {
            assert(RunState::after(before) is Deleting);
            lemma_live_run(before);
            assert forall|i: int| 0 <= i < 5 implies #[trigger] outcomes[i] is Succeeded by {
                if i < 4 {
                    assert(before[i] is Succeeded);
                }
            }
        }
    }
}

} // verus!
