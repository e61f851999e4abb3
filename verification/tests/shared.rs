use bench_engine::benchmark::Benchmark;
use bench_engine::dry::DryDatabase;
use bench_engine::operation::{BenchmarkError, BenchmarkOperation, ClientError};
use bench_engine::phase_model::WorkerAction;
use bench_engine::record::RecordProvider;
use bench_engine::shared::SharedPhase;

/// Runs one phase on the store through the shared state, the workers
/// taking turns. Returns the keys operated on, the reports and the result.
fn run_shared(
    benchmark: &Benchmark,
    operation: BenchmarkOperation,
    store: &mut DryDatabase,
) -> (Vec<i32>, Vec<u8>, Result<(), BenchmarkError>) {
    let phase = benchmark.run_operation(operation);
    let mut provider = RecordProvider::default();
    let mut keys: Vec<i32> = Vec::new();
    let mut reports: Vec<u8> = vec![0];
    let mut working = vec![true; benchmark.threads()];
    while working.iter().any(|busy| *busy) {
        for worker in 0..benchmark.threads() {
            if !working[worker] {
                continue;
            }
            match phase.claim() {
                WorkerAction::Exit => working[worker] = false,
                WorkerAction::Operate(key) => {
                    keys.push(key);
                    let outcome = store.apply(operation, key, provider.sample());
                    if let Some(percent) = phase.complete(key, outcome.is_ok()) {
                        reports.push(percent);
                    }
                    if outcome.is_err() {
                        working[worker] = false;
                    }
                }
            }
        }
    }
    let (percent, result) = phase.join();
    reports.push(percent);
    (keys, reports, result)
}

#[test]
fn shared_phase_starts_fresh() {
    let phase = Benchmark::new(4, 100).run_operation(BenchmarkOperation::Read);
    assert_eq!(phase.operation(), BenchmarkOperation::Read);
    assert_eq!(phase.samples(), 100);
    assert!(!phase.is_aborted());
    assert_eq!(phase.claim(), WorkerAction::Operate(0));
    let other = SharedPhase::new(BenchmarkOperation::Write, 7);
    assert_eq!(other.operation(), BenchmarkOperation::Write);
    assert_eq!(other.samples(), 7);
    assert_eq!(other.claim(), WorkerAction::Operate(0));
}

#[test]
fn shared_phase_hands_out_each_index_once() {
    let phase = SharedPhase::new(BenchmarkOperation::Write, 5);
    for expected in 0..5 {
        assert_eq!(phase.claim(), WorkerAction::Operate(expected));
    }
    assert_eq!(phase.claim(), WorkerAction::Exit);
    assert_eq!(phase.claim(), WorkerAction::Exit);
    assert_eq!(phase.join(), (100, Ok(())));
}

#[test]
fn shared_phase_reports_increases_only() {
    let phase = SharedPhase::new(BenchmarkOperation::Write, 4);
    assert_eq!(phase.complete(0, true), None);
    assert_eq!(phase.complete(2, true), Some(50));
    assert_eq!(phase.complete(1, true), None);
    assert_eq!(phase.complete(2, true), None);
    assert_eq!(phase.complete(3, true), Some(75));
    assert_eq!(phase.complete(4, true), None);
    assert_eq!(phase.complete(-1, true), None);
    assert!(!phase.is_aborted());
}

#[test]
fn shared_phase_failure_sets_the_flag_for_good() {
    let phase = SharedPhase::new(BenchmarkOperation::Delete, 10);
    assert_eq!(phase.claim(), WorkerAction::Operate(0));
    assert_eq!(phase.claim(), WorkerAction::Operate(1));
    assert_eq!(phase.complete(0, false), None);
    assert!(phase.is_aborted());
    assert_eq!(phase.claim(), WorkerAction::Exit);
    assert_eq!(phase.complete(1, true), Some(10));
    assert!(phase.is_aborted());
    assert_eq!(phase.claim(), WorkerAction::Exit);
    assert_eq!(phase.join(), (100, Err(BenchmarkError::PhaseFailed(BenchmarkOperation::Delete))));
}

#[test]
fn shared_phase_worker_without_a_client_aborts() {
    let phase = SharedPhase::new(BenchmarkOperation::Read, 10);
    phase.abandon();
    assert!(phase.is_aborted());
    assert_eq!(phase.claim(), WorkerAction::Exit);
    assert_eq!(phase.join(), (100, Err(BenchmarkError::PhaseFailed(BenchmarkOperation::Read))));
}

#[test]
fn shared_phases_round_trip_on_the_store() {
    let benchmark = Benchmark::new(4, 100);
    let mut store = DryDatabase::new();
    let expected_keys: Vec<i32> = (0..100).collect();
    let expected_reports: Vec<u8> = (0..=100).collect();

    let (keys, reports, result) = run_shared(&benchmark, BenchmarkOperation::Write, &mut store);
    assert_eq!(result, Ok(()));
    assert_eq!(keys, expected_keys);
    assert_eq!(reports, expected_reports);
    assert_eq!(store.len(), 100);

    let (keys, _, result) = run_shared(&benchmark, BenchmarkOperation::Read, &mut store);
    assert_eq!(result, Ok(()));
    assert_eq!(keys, expected_keys);
    assert_eq!(store.len(), 100);

    let (keys, reports, result) = run_shared(&benchmark, BenchmarkOperation::Delete, &mut store);
    assert_eq!(result, Ok(()));
    assert_eq!(keys, expected_keys);
    assert_eq!(reports, expected_reports);
    assert!(store.is_empty());

    let (keys, reports, result) = run_shared(&benchmark, BenchmarkOperation::Read, &mut store);
    assert_eq!(result, Err(BenchmarkError::PhaseFailed(BenchmarkOperation::Read)));
    assert_eq!(keys, vec![0]);
    assert_eq!(reports, vec![0, 100]);
    assert_eq!(store.read(0), Err(ClientError::KeyNotFound(0)));

    let (keys, _, result) = run_shared(&benchmark, BenchmarkOperation::Delete, &mut store);
    assert_eq!(result, Err(BenchmarkError::PhaseFailed(BenchmarkOperation::Delete)));
    assert_eq!(keys, vec![0]);
}

#[test]
fn shared_phase_without_samples_operates_on_nothing() {
    for samples in [0, -1, i32::MIN] {
        let benchmark = Benchmark::new(4, samples);
        let mut store = DryDatabase::new();
        for operation in
            [BenchmarkOperation::Write, BenchmarkOperation::Read, BenchmarkOperation::Delete]
        {
            let (keys, reports, result) = run_shared(&benchmark, operation, &mut store);
            assert_eq!(result, Ok(()));
            assert!(keys.is_empty());
            assert_eq!(reports, vec![0, 100]);
            assert!(store.is_empty());
        }
    }
}

/// Checks reports that were sorted: from 0 up to `highest` and then 100,
/// none of them twice. Which percentages lie in between depends on the
/// order in which the operations end.
fn assert_reports(reports: &Vec<u8>, highest: u8) {
    assert_eq!(reports[0], 0);
    assert_eq!(reports[reports.len() - 2], highest);
    assert_eq!(reports[reports.len() - 1], 100);
    for pair in reports.windows(2) {
        assert!(pair[0] < pair[1]);
    }
}

/// Runs one phase with real threads, one per worker. Each worker operates
/// on a store behind a lock and keeps what it has seen.
fn run_threads(
    benchmark: &Benchmark,
    operation: BenchmarkOperation,
    store: &std::sync::Mutex<DryDatabase>,
) -> (Vec<i32>, Vec<u8>, Result<(), BenchmarkError>) {
    let phase = benchmark.run_operation(operation);
    let seen: std::sync::Mutex<(Vec<i32>, Vec<u8>)> = std::sync::Mutex::new((vec![], vec![0]));
    rayon::scope(|scope| {
        for _ in 0..benchmark.threads() {
            let phase = &phase;
            let seen = &seen;
            scope.spawn(move |_| {
                let mut provider = RecordProvider::default();
                let mut keys: Vec<i32> = Vec::new();
                let mut reports: Vec<u8> = Vec::new();
                while let WorkerAction::Operate(key) = phase.claim() {
                    let outcome = store.lock().unwrap().apply(operation, key, provider.sample());
                    if outcome.is_ok() {
                        keys.push(key);
                    }
                    if let Some(percent) = phase.complete(key, outcome.is_ok()) {
                        reports.push(percent);
                    }
                    if outcome.is_err() {
                        break;
                    }
                }
                let mut seen = seen.lock().unwrap();
                seen.0.extend(keys);
                seen.1.extend(reports);
            });
        }
    });
    let (percent, result) = phase.join();
    let (mut keys, mut reports) = seen.into_inner().unwrap();
    keys.sort();
    reports.sort();
    reports.push(percent);
    (keys, reports, result)
}

#[test]
fn threads_service_each_index_once() {
    let benchmark = Benchmark::new(4, 20_000);
    let store = std::sync::Mutex::new(DryDatabase::new());
    let expected: Vec<i32> = (0..20_000).collect();

    let (keys, reports, result) = run_threads(&benchmark, BenchmarkOperation::Write, &store);
    assert_eq!(result, Ok(()));
    assert_eq!(keys, expected);
    assert_reports(&reports, 99);
    assert_eq!(store.lock().unwrap().len(), 20_000);

    let (keys, reports, result) = run_threads(&benchmark, BenchmarkOperation::Read, &store);
    assert_eq!(result, Ok(()));
    assert_eq!(keys, expected);
    assert_reports(&reports, 99);

    let (keys, reports, result) = run_threads(&benchmark, BenchmarkOperation::Delete, &store);
    assert_eq!(result, Ok(()));
    assert_eq!(keys, expected);
    assert_reports(&reports, 99);
    assert!(store.lock().unwrap().is_empty());
}

#[test]
fn threads_abort_on_the_first_failure() {
    let benchmark = Benchmark::new(8, 20_000);
    let store = std::sync::Mutex::new(DryDatabase::new());
    let (keys, reports, result) = run_threads(&benchmark, BenchmarkOperation::Delete, &store);
    assert_eq!(result, Err(BenchmarkError::PhaseFailed(BenchmarkOperation::Delete)));
    assert!(keys.is_empty());
    assert_eq!(reports, vec![0, 100]);

    let (_, _, result) = run_threads(&benchmark, BenchmarkOperation::Read, &store);
    assert_eq!(result, Err(BenchmarkError::PhaseFailed(BenchmarkOperation::Read)));
}

#[test]
fn threads_stop_when_one_key_is_missing() {
    let benchmark = Benchmark::new(4, 2_000);
    let store = std::sync::Mutex::new(DryDatabase::new());
    let (_, _, result) = run_threads(&benchmark, BenchmarkOperation::Write, &store);
    assert_eq!(result, Ok(()));
    assert_eq!(store.lock().unwrap().delete(1_000), Ok(()));

    let (keys, _, result) = run_threads(&benchmark, BenchmarkOperation::Read, &store);
    assert_eq!(result, Err(BenchmarkError::PhaseFailed(BenchmarkOperation::Read)));
    assert!(!keys.contains(&1_000));
    assert!(keys.len() < 2_000);
    for pair in keys.windows(2) {
        assert!(pair[0] < pair[1]);
    }
    assert!(keys.iter().all(|key| 0 <= *key && *key < 2_000));
}

#[test]
fn many_threads_and_few_samples() {
    let benchmark = Benchmark::new(16, 3);
    let store = std::sync::Mutex::new(DryDatabase::new());
    let (keys, reports, result) = run_threads(&benchmark, BenchmarkOperation::Write, &store);
    assert_eq!(result, Ok(()));
    assert_eq!(keys, vec![0, 1, 2]);
    assert_reports(&reports, 66);
}
