use bench_engine::distributor::{decide_claim, ClaimDecision, WorkCounter};

#[test]
fn fresh_counter_hands_out_consecutive_indices() {
    let mut counter = WorkCounter::new();
    assert_eq!(counter.peek(), 0);
    assert_eq!(counter.claim(), 0);
    assert_eq!(counter.claim(), 1);
    assert_eq!(counter.claim(), 2);
    assert_eq!(counter.peek(), 3);
}

#[test]
fn counter_never_repeats_and_never_rewinds() {
    let mut counter = WorkCounter::new();
    let mut previous: i32 = -1;
    let mut claims: i32 = 0;
    while claims < 10_000 {
        let index: i32 = counter.claim();
        assert_eq!(index, previous + 1);
        previous = index;
        claims += 1;
    }
}

#[test]
fn two_counters_do_not_interfere() {
    let mut first = WorkCounter::new();
    let mut second = WorkCounter::new();
    assert_eq!(first.claim(), 0);
    assert_eq!(first.claim(), 1);
    assert_eq!(second.claim(), 0);
    assert_eq!(first.claim(), 2);
    assert_eq!(second.claim(), 1);
}

#[test]
fn claim_decision_by_cases() {
    assert_eq!(decide_claim(0, 1, false), ClaimDecision::Operate);
    assert_eq!(decide_claim(0, 1, true), ClaimDecision::Cancelled);
    assert_eq!(decide_claim(1, 1, false), ClaimDecision::Exhausted);
    assert_eq!(decide_claim(1, 1, true), ClaimDecision::Exhausted);
    assert_eq!(decide_claim(99, 100, false), ClaimDecision::Operate);
    assert_eq!(decide_claim(100, 100, false), ClaimDecision::Exhausted);
    assert_eq!(decide_claim(101, 100, false), ClaimDecision::Exhausted);
}

#[test]
fn claim_decision_without_samples() {
    assert_eq!(decide_claim(0, 0, false), ClaimDecision::Exhausted);
    assert_eq!(decide_claim(0, 0, true), ClaimDecision::Exhausted);
    assert_eq!(decide_claim(0, -3, false), ClaimDecision::Exhausted);
}

#[test]
fn claim_decision_rejects_what_is_no_index() {
    assert_eq!(decide_claim(-1, 5, false), ClaimDecision::Exhausted);
    assert_eq!(decide_claim(i32::MIN, 5, false), ClaimDecision::Exhausted);
    assert_eq!(decide_claim(i32::MAX, i32::MAX, false), ClaimDecision::Exhausted);
    assert_eq!(decide_claim(i32::MAX - 1, i32::MAX, false), ClaimDecision::Operate);
}
