use bench_engine::benchmark::{
    Benchmark, BenchmarkResult, Outcome, RunAction, RunState, CLIENT_TIMEOUT_NANOS,
};
use bench_engine::operation::{BenchmarkError, BenchmarkOperation};
use bench_engine::phase_model::WorkerAction;
use bench_engine::waiter::{WaitAction, WaitProgress, INITIAL_DELAY_NANOS, POLL_INTERVAL_NANOS};

/// Drives a run whose actions end as `outcomes` say, and returns the
/// actions that the orchestrator asked for, the last one ending the run.
fn drive(benchmark: &Benchmark, outcomes: &[Outcome]) -> Vec<RunAction> {
    let mut state = RunState::begin();
    let mut actions = vec![state.action()];
    for outcome in outcomes {
        state = benchmark.run(state, *outcome);
        actions.push(state.action());
    }
    actions
}

#[test]
fn benchmark_keeps_its_configuration() {
    let benchmark = Benchmark::new(4, 100);
    assert_eq!(benchmark.threads(), 4);
    assert_eq!(benchmark.samples(), 100);
}

#[test]
fn successful_run_reports_three_durations() {
    let benchmark = Benchmark::new(4, 100);
    let actions = drive(
        &benchmark,
        &[
            Outcome::Succeeded(11),
            Outcome::Succeeded(22),
            Outcome::Succeeded(333),
            Outcome::Succeeded(444),
            Outcome::Succeeded(555),
        ],
    );
    assert_eq!(
        actions,
        vec![
            RunAction::AwaitClient(60_000_000_000),
            RunAction::Prepare,
            RunAction::RunPhase(BenchmarkOperation::Write),
            RunAction::RunPhase(BenchmarkOperation::Read),
            RunAction::RunPhase(BenchmarkOperation::Delete),
            RunAction::Report(BenchmarkResult { writes: 333, reads: 444, deletes: 555 }),
        ]
    );
}

#[test]
fn client_timeout_is_a_minute() {
    assert_eq!(CLIENT_TIMEOUT_NANOS, 60_000_000_000);
    assert_eq!(RunState::begin(), RunState::AwaitingClient);
    assert_eq!(RunState::begin().action(), RunAction::AwaitClient(CLIENT_TIMEOUT_NANOS));
}

#[test]
fn unreachable_store_fails_before_anything_runs() {
    let benchmark = Benchmark::new(4, 100);
    let actions = drive(&benchmark, &[Outcome::Failed]);
    assert_eq!(
        actions,
        vec![RunAction::AwaitClient(CLIENT_TIMEOUT_NANOS), RunAction::Fail(BenchmarkError::Unreachable)]
    );
}

#[test]
fn failed_preparation_fails_before_any_phase() {
    let benchmark = Benchmark::new(4, 100);
    let actions = drive(&benchmark, &[Outcome::Succeeded(1), Outcome::Failed]);
    assert_eq!(actions.last(), Some(&RunAction::Fail(BenchmarkError::PrepareFailed)));
    assert!(!actions.iter().any(|action| matches!(action, RunAction::RunPhase(_))));
}

#[test]
fn failed_phase_is_named_and_ends_the_run() {
    let benchmark = Benchmark::new(4, 100);
    let ok = Outcome::Succeeded(5);
    assert_eq!(
        drive(&benchmark, &[ok, ok, Outcome::Failed]).last(),
        Some(&RunAction::Fail(BenchmarkError::PhaseFailed(BenchmarkOperation::Write)))
    );
    assert_eq!(
        drive(&benchmark, &[ok, ok, ok, Outcome::Failed]).last(),
        Some(&RunAction::Fail(BenchmarkError::PhaseFailed(BenchmarkOperation::Read)))
    );
    assert_eq!(
        drive(&benchmark, &[ok, ok, ok, ok, Outcome::Failed]).last(),
        Some(&RunAction::Fail(BenchmarkError::PhaseFailed(BenchmarkOperation::Delete)))
    );
}

#[test]
fn no_phase_runs_after_a_failure() {
    let benchmark = Benchmark::new(4, 100);
    let ok = Outcome::Succeeded(5);
    let actions = drive(&benchmark, &[ok, ok, Outcome::Failed, ok, ok, ok]);
    let failure = RunAction::Fail(BenchmarkError::PhaseFailed(BenchmarkOperation::Write));
    assert_eq!(&actions[3..], &[failure, failure, failure, failure]);
    assert_eq!(
        actions.iter().filter(|action| matches!(action, RunAction::RunPhase(_))).count(),
        1
    );
}

#[test]
fn finished_run_stays_finished() {
    let benchmark = Benchmark::new(1, 1);
    let finished = RunState::Finished(BenchmarkResult { writes: 1, reads: 2, deletes: 3 });
    assert_eq!(benchmark.run(finished, Outcome::Failed), finished);
    assert_eq!(benchmark.run(finished, Outcome::Succeeded(9)), finished);
    let failed = RunState::Failed(BenchmarkError::PrepareFailed);
    assert_eq!(benchmark.run(failed, Outcome::Succeeded(9)), failed);
    assert_eq!(benchmark.run(failed, Outcome::Failed), failed);
}

#[test]
fn store_is_prepared_exactly_once_before_any_phase() {
    let benchmark = Benchmark::new(4, 100);
    let ok = Outcome::Succeeded(0);
    let runs: Vec<Vec<Outcome>> = vec![
        vec![ok, ok, ok, ok, ok],
        vec![ok, ok, ok, ok, ok, ok, ok],
        vec![ok, ok, Outcome::Failed],
        vec![ok, ok, ok, Outcome::Failed, ok],
        vec![ok, ok, ok, ok, Outcome::Failed],
    ];
    for outcomes in runs.iter() {
        let actions = drive(&benchmark, outcomes);
        let prepares: Vec<usize> = actions
            .iter()
            .enumerate()
            .filter(|(_, action)| **action == RunAction::Prepare)
            .map(|(position, _)| position)
            .collect();
        assert_eq!(prepares, vec![1]);
        let first_phase = actions.iter().position(|action| matches!(action, RunAction::RunPhase(_)));
        assert_eq!(first_phase, Some(2));
    }
    for outcomes in [vec![Outcome::Failed], vec![ok, Outcome::Failed, ok, ok]] {
        let actions = drive(&benchmark, &outcomes);
        assert!(!actions.iter().any(|action| matches!(action, RunAction::RunPhase(_))));
        assert!(actions.iter().filter(|action| **action == RunAction::Prepare).count() <= 1);
    }
}

#[test]
fn run_without_samples_finishes_with_the_measured_durations() {
    let benchmark = Benchmark::new(4, 0);
    let mut state = RunState::begin();
    let mut operations = 0;
    loop {
        let outcome = match state.action() {
            RunAction::AwaitClient(_) => Outcome::Succeeded(0),
            RunAction::Prepare => Outcome::Succeeded(0),
            RunAction::RunPhase(operation) => {
                let phase = benchmark.run_operation(operation);
                for _ in 0..benchmark.threads() {
                    if phase.claim() != WorkerAction::Exit {
                        operations += 1;
                    }
                }
                match phase.join().1 {
                    Ok(()) => Outcome::Succeeded(0),
                    Err(_) => Outcome::Failed,
                }
            }
            RunAction::Report(result) => {
                assert_eq!(result, BenchmarkResult { writes: 0, reads: 0, deletes: 0 });
                break;
            }
            RunAction::Fail(error) => panic!("run failed: {:?}", error),
        };
        state = benchmark.run(state, outcome);
    }
    assert_eq!(operations, 0);
}

#[test]
fn waiter_constants_are_two_seconds() {
    assert_eq!(INITIAL_DELAY_NANOS, 2_000_000_000);
    assert_eq!(POLL_INTERVAL_NANOS, 2_000_000_000);
}

#[test]
fn waiter_decides_by_progress_and_clock() {
    assert_eq!(Benchmark::wait_for_client(WaitProgress::Started, 0, 10), WaitAction::Settle);
    assert_eq!(Benchmark::wait_for_client(WaitProgress::Started, 99, 10), WaitAction::Settle);
    assert_eq!(Benchmark::wait_for_client(WaitProgress::Settled, 0, 10), WaitAction::Probe);
    assert_eq!(Benchmark::wait_for_client(WaitProgress::Settled, 9, 10), WaitAction::Probe);
    assert_eq!(Benchmark::wait_for_client(WaitProgress::Settled, 10, 10), WaitAction::GiveUp);
    assert_eq!(Benchmark::wait_for_client(WaitProgress::Settled, 0, 0), WaitAction::GiveUp);
    assert_eq!(Benchmark::wait_for_client(WaitProgress::Refused, 9, 10), WaitAction::Probe);
    assert_eq!(Benchmark::wait_for_client(WaitProgress::Refused, 10, 10), WaitAction::GiveUp);
    assert_eq!(Benchmark::wait_for_client(WaitProgress::Refused, 11, 10), WaitAction::GiveUp);
    assert_eq!(Benchmark::wait_for_client(WaitProgress::Connected, 0, 10), WaitAction::Deliver);
    assert_eq!(Benchmark::wait_for_client(WaitProgress::Connected, 11, 10), WaitAction::Deliver);
    assert_eq!(Benchmark::wait_for_client(WaitProgress::Refused, u128::MAX, u128::MAX), WaitAction::GiveUp);
    assert_eq!(Benchmark::wait_for_client(WaitProgress::Refused, u128::MAX - 1, u128::MAX), WaitAction::Probe);
}

/// Waits for a client that can first be created at the attempt numbered
/// `ready_at`, on a clock that only the sleeps advance. Returns the last
/// action, the number of attempts and the time slept.
fn wait(ready_at: Option<u32>, time_out: u128) -> (WaitAction, u32, u128) {
    let mut progress = WaitProgress::Started;
    let mut slept: u128 = 0;
    let mut started: u128 = 0;
    let mut attempts: u32 = 0;
    let mut steps: u32 = 0;
    loop {
        steps += 1;
        assert!(steps < 1_000_000);
        let action = Benchmark::wait_for_client(progress, slept - started, time_out);
        match action {
            WaitAction::Settle => {
                slept += INITIAL_DELAY_NANOS as u128;
                started = slept;
                progress = WaitProgress::Settled;
            }
            WaitAction::Probe => {
                slept += POLL_INTERVAL_NANOS as u128;
                attempts += 1;
                progress = if ready_at == Some(attempts) {
                    WaitProgress::Connected
                } else {
                    WaitProgress::Refused
                };
            }
            WaitAction::Deliver | WaitAction::GiveUp => return (action, attempts, slept),
        }
    }
}

#[test]
fn waiter_gives_up_on_a_factory_that_always_fails() {
    let (action, attempts, slept) = wait(None, CLIENT_TIMEOUT_NANOS as u128);
    assert_eq!(action, WaitAction::GiveUp);
    assert_eq!(attempts, 30);
    assert_eq!(slept, 62_000_000_000);
}

#[test]
fn waiter_gives_up_within_the_time_out_plus_one_interval() {
    for time_out in [0u128, 1, 1_999_999_999, 2_000_000_000, 2_000_000_001, 7_000_000_000] {
        let (action, attempts, slept) = wait(None, time_out);
        assert_eq!(action, WaitAction::GiveUp);
        let interval = POLL_INTERVAL_NANOS as u128;
        assert_eq!(attempts as u128, (time_out + interval - 1) / interval);
        assert!(slept < INITIAL_DELAY_NANOS as u128 + time_out + interval);
    }
}

#[test]
fn waiter_delivers_the_first_client() {
    let (action, attempts, slept) = wait(Some(1), CLIENT_TIMEOUT_NANOS as u128);
    assert_eq!(action, WaitAction::Deliver);
    assert_eq!(attempts, 1);
    assert_eq!(slept, 4_000_000_000);

    let (action, attempts, _) = wait(Some(30), CLIENT_TIMEOUT_NANOS as u128);
    assert_eq!(action, WaitAction::Deliver);
    assert_eq!(attempts, 30);

    let (action, attempts, _) = wait(Some(31), CLIENT_TIMEOUT_NANOS as u128);
    assert_eq!(action, WaitAction::GiveUp);
    assert_eq!(attempts, 30);
}

#[test]
fn orchestrator_fails_when_the_waiter_gives_up() {
    let benchmark = Benchmark::new(4, 100);
    let state = RunState::begin();
    let time_out = match state.action() {
        RunAction::AwaitClient(time_out) => time_out as u128,
        other => panic!("unexpected action: {:?}", other),
    };
    let (action, _, _) = wait(None, time_out);
    let outcome = if action == WaitAction::Deliver { Outcome::Succeeded(0) } else { Outcome::Failed };
    let state = benchmark.run(state, outcome);
    assert_eq!(state, RunState::Failed(BenchmarkError::Unreachable));
    assert_eq!(state.action(), RunAction::Fail(BenchmarkError::Unreachable));
}
