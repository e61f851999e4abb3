//! What holds of every phase: the steps keep the invariant, a completed
//! phase has serviced every sample exactly once, an abort stops all further
//! claims, and the progress reports only ever increase.

use vstd::prelude::*;
use vstd::seq_lib::lemma_seq_contains_after_push;
use vstd::set_lib::{lemma_int_range, set_int_range};
use crate::distributor::{counter_limit, is_sample};
use crate::phase_model::{PhaseEvent, PhaseModel, PhaseStatus, WorkerAction, WorkerState};
use crate::progress::{lemma_percent_of_bounds, percent_of};

verus! {

/// An idle phase satisfies the invariant.
pub proof fn lemma_idle_satisfies_invariant(samples: int, threads: nat)
    requires
        samples <= counter_limit(),
    ensures
        PhaseModel::idle(samples, threads).inv(),
{
    let m = PhaseModel::idle(samples, threads);
    assert forall|w: int, k: int| !#[trigger] m.holds(w, k) by {}
    assert forall|w: int| !#[trigger] m.exited(w) by {}
}

/// Starting keeps the invariant.
pub proof fn lemma_start_keeps_invariant(m: PhaseModel)
    requires
        m.inv(),
        m.can_start(),
    ensures
        m.start().inv(),
{
    let m2 = m.start();
    assert forall|w: int, k: int| #[trigger] m2.holds(w, k) implies false by {
        assert(m.workers[w] == WorkerState::Ready);
    }
    assert forall|w: int| #[trigger] m2.exited(w) implies false by {
        assert(m.workers[w] == WorkerState::Ready);
    }
    assert(m2.reported.last() == 0);
}

/// A claim keeps the invariant.
pub proof fn lemma_claim_keeps_invariant(m: PhaseModel, w: int, seen: bool)
    requires
        m.inv(),
        m.can_claim_seeing(w, seen),
    ensures
        m.claim(w, seen).inv(),
{
    let m2 = m.claim(w, seen);
    let operates = m.claim_action(seen) is Operate;
    if operates {
        assert(is_sample(m.next, m.samples));
        assert(m2.next == m.next + 1);
        assert(m2.workers[w] == WorkerState::Operating(m.next as i32));
        assert(m2.holds(w, m.next));
    }
    assert forall|v: int, k: int| v != w implies m2.holds(v, k) == m.holds(v, k) by {}
    assert forall|k: int| !m.holds(w, k) by {}
    assert forall|k: int| #[trigger] m2.holds(w, k) implies operates && k == m.next by {}
    assert(!m.serviced.contains(m.next)) by {
        if m.serviced.contains(m.next) {
            let i = choose|i: int| 0 <= i < m.serviced.len() && m.serviced[i] == m.next;
            assert(m.serviced[i] < m.next);
        }
    }
    assert(m2.in_flight_are_claimed_samples()) by {
        assert forall|v: int, k: int| #[trigger] m2.holds(v, k) implies is_sample(k, m2.samples)
            && k < m2.next && !m2.serviced.contains(k) by {
            if v != w {
                assert(m.holds(v, k));
            }
        }
    }
    assert(m2.in_flight_are_distinct()) by {
        assert forall|w1: int, w2: int, k: int|
            #![trigger m2.holds(w1, k), m2.holds(w2, k)]
            m2.holds(w1, k) && m2.holds(w2, k) implies w1 == w2 by {
            if w1 != w && w2 != w {
                assert(m.holds(w1, k) && m.holds(w2, k));
            } else if w1 != w {
                assert(m.holds(w1, k));
            } else if w2 != w {
                assert(m.holds(w2, k));
            }
        }
    }
    assert(m2.claimed_are_accounted()) by {
        if !m2.aborted {
            assert forall|k: int| 0 <= k < m2.next && k < m2.samples implies #[trigger] m2.accounted(
                k,
            ) by {
                if k < m.next {
                    assert(m.accounted(k));
                    if !m.serviced.contains(k) {
                        let v = choose|v: int| m.holds(v, k);
                        assert(m2.holds(v, k));
                    }
                } else {
                    assert(m2.holds(w, k));
                }
            }
        }
    }
    assert(m2.exits_follow_exhaustion()) by {
        if !m2.aborted {
            assert forall|v: int| #[trigger] m2.exited(v) implies m2.next >= m2.samples by {
                if v != w {
                    assert(m.exited(v));
                }
            }
        }
    }
}

/// The end of an operation keeps the invariant.
pub proof fn lemma_complete_keeps_invariant(m: PhaseModel, w: int, succeeded: bool)
    requires
        m.inv(),
        m.can_complete(w),
    ensures
        m.complete(w, succeeded).inv(),
{
    let m2 = m.complete(w, succeeded);
    let key = m.key_of(w);
    assert(m.holds(w, key));
    assert forall|v: int, k: int| v != w implies m2.holds(v, k) == m.holds(v, k) by {}
    assert forall|k: int| !#[trigger] m2.holds(w, k) by {}
    assert forall|v: int| #[trigger] m2.exited(v) implies m.exited(v) || (v == w && !succeeded) by {}
    assert(m2.in_flight_are_distinct()) by {
        assert forall|w1: int, w2: int, k: int|
            #![trigger m2.holds(w1, k), m2.holds(w2, k)]
            m2.holds(w1, k) && m2.holds(w2, k) implies w1 == w2 by {
            assert(m.holds(w1, k) && m.holds(w2, k));
        }
    }
    if succeeded {
        lemma_percent_of_bounds(key, m.samples);
        let candidate = percent_of(key, m.samples);
        assert forall|k: int| m2.serviced.contains(k) == (k == key || m.serviced.contains(k)) by {
            lemma_seq_contains_after_push(m.serviced, key, k);
        }
        assert(m2.serviced.no_duplicates()) by {
            assert forall|i: int, j: int|
                0 <= i < m2.serviced.len() && 0 <= j < m2.serviced.len() && i != j implies m2.serviced[i]
                != m2.serviced[j] by {
                if i < m.serviced.len() && j < m.serviced.len() {
                } else if i < m.serviced.len() {
                    assert(m.serviced.contains(m.serviced[i]));
                } else {
                    assert(m.serviced.contains(m.serviced[j]));
                }
            }
        }
        assert(m2.in_flight_are_claimed_samples()) by {
            assert forall|v: int, k: int| #[trigger] m2.holds(v, k) implies is_sample(
                k,
                m2.samples,
            ) && k < m2.next && !m2.serviced.contains(k) by {
                assert(m.holds(v, k));
                assert(v != w);
            }
        }
        assert(m2.claimed_are_accounted()) by {
            if !m2.aborted {
                assert forall|k: int|
                    0 <= k < m2.next && k < m2.samples implies #[trigger] m2.accounted(k) by {
                    assert(m.accounted(k));
                    if !m.serviced.contains(k) {
                        let v = choose|v: int| m.holds(v, k);
                        if v != w {
                            assert(m2.holds(v, k));
                        }
                    }
                }
            }
        }
        assert(m2.exits_follow_exhaustion()) by {
            if !m2.aborted {
                assert forall|v: int| #[trigger] m2.exited(v) implies m2.next >= m2.samples by {
                    assert(m.exited(v));
                }
            }
        }
        assert(m2.reports_increase()) by {
            if candidate > m.percent {
                assert forall|i: int, j: int| 0 <= i < j < m2.reported.len() implies m2.reported[i]
                    < m2.reported[j] by {
                    if j == m.reported.len() {
                        if i < m.reported.len() - 1 {
                            assert(m.reported[i] < m.reported[m.reported.len() - 1]);
                        }
                    }
                }
            }
        }
    } else {
        assert(m2.in_flight_are_claimed_samples()) by {
            assert forall|v: int, k: int| #[trigger] m2.holds(v, k) implies is_sample(
                k,
                m2.samples,
            ) && k < m2.next && !m2.serviced.contains(k) by {
                assert(m.holds(v, k));
            }
        }
    }
}

/// A worker that gives up keeps the invariant.
pub proof fn lemma_abandon_keeps_invariant(m: PhaseModel, w: int)
    requires
        m.inv(),
        m.can_abandon(w),
    ensures
        m.abandon(w).inv(),
{
    let m2 = m.abandon(w);
    assert forall|v: int, k: int| m2.holds(v, k) == m.holds(v, k) by {}
}

/// Joining keeps the invariant.
pub proof fn lemma_join_keeps_invariant(m: PhaseModel)
    requires
        m.inv(),
        m.can_join(),
    ensures
        m.join().inv(),
{
    let m2 = m.join();
    assert forall|v: int, k: int| m2.holds(v, k) == m.holds(v, k) by {}
    assert forall|v: int| m2.exited(v) == m.exited(v) by {}
    assert forall|k: int| m2.accounted(k) == m.accounted(k) by {}
    assert(m2.reports_increase()) by {
        assert forall|i: int, j: int| 0 <= i < j < m2.reported.len() implies m2.reported[i]
            < m2.reported[j] by {
            if j == m.reported.len() {
                if i < m.reported.len() - 1 {
                    assert(m.reported[i] < m.reported[m.reported.len() - 1]);
                }
            }
        }
    }
    assert(m2.reported.last() == 100);
    assert(m2.reported[0] == m.reported[0]);
}

/// Every step keeps the invariant.
pub proof fn law_steps_keep_invariant(m: PhaseModel, event: PhaseEvent)
    requires
        m.inv(),
    ensures
        m.step(event).inv(),
{
    if m.enabled(event) {
        match event {
            PhaseEvent::Start => lemma_start_keeps_invariant(m),
            PhaseEvent::Claim(w, seen) => lemma_claim_keeps_invariant(m, w, seen),
            PhaseEvent::Complete(w, succeeded) => lemma_complete_keeps_invariant(m, w, succeeded),
            PhaseEvent::Abandon(w) => lemma_abandon_keeps_invariant(m, w),
            PhaseEvent::Join => lemma_join_keeps_invariant(m),
        }
    }
}

/// Every sequence of steps keeps the invariant.
pub proof fn law_runs_keep_invariant(m: PhaseModel, events: Seq<PhaseEvent>)
    requires
        m.inv(),
    ensures
        m.run(events).inv(),
    decreases events.len(),
{
    if events.len() > 0 {
        law_steps_keep_invariant(m, events[0]);
        law_runs_keep_invariant(m.step(events[0]), events.drop_first());
    }
}

/// Every state that a phase can reach, through any interleaving of its
/// workers' steps, satisfies the invariant.
pub proof fn law_reachable_states_satisfy_invariant(
    samples: int,
    threads: nat,
    events: Seq<PhaseEvent>,
)
    requires
        samples <= counter_limit(),
    ensures
        PhaseModel::idle(samples, threads).run(events).inv(),
{
    lemma_idle_satisfies_invariant(samples, threads);
    law_runs_keep_invariant(PhaseModel::idle(samples, threads), events);
}

/// A joined phase is final: no step changes it any more.
pub proof fn law_terminal_states_are_final(m: PhaseModel, event: PhaseEvent)
    requires
        m.terminal(),
    ensures
        m.step(event) == m,
{
}

/// A completed phase with at least one worker has serviced every sample
/// index exactly once: no index twice, none left out, nothing else.
pub proof fn law_completed_phase_services_each_sample_once(m: PhaseModel)
    requires
        m.inv(),
        m.status == PhaseStatus::Completed,
        m.workers.len() >= 1,
    ensures
        m.serviced.no_duplicates(),
        forall|k: int| m.serviced.contains(k) <==> is_sample(k, m.samples),
        m.serviced.len() == if m.samples > 0 {
            m.samples
        } else {
            0
        },
{
    assert(m.exited(0));
    assert(m.next >= m.samples);
    assert forall|k: int| m.serviced.contains(k) <==> is_sample(k, m.samples) by {
        if m.serviced.contains(k) {
            let i = choose|i: int| 0 <= i < m.serviced.len() && m.serviced[i] == k;
            assert(is_sample(m.serviced[i], m.samples));
        }
        if is_sample(k, m.samples) {
            assert(m.accounted(k));
            if m.in_flight(k) {
                let w = choose|w: int| m.holds(w, k);
                assert(m.exited(w));
            }
        }
    }
    let count = if m.samples > 0 {
        m.samples
    } else {
        0
    };
    assert(m.serviced.to_set() =~= set_int_range(0, count));
    lemma_int_range(0, count);
    m.serviced.unique_seq_to_set();
}

/// Whatever the interleaving of the workers' steps: if a phase of
/// `threads >= 1` workers ends completed, it has serviced every index of
/// `0 .. samples` exactly once.
pub proof fn law_completed_run_services_each_sample_once(
    samples: int,
    threads: nat,
    events: Seq<PhaseEvent>,
)
    requires
        0 <= samples <= counter_limit(),
        threads >= 1,
        PhaseModel::idle(samples, threads).run(events).status == PhaseStatus::Completed,
    ensures
        ({
            let end = PhaseModel::idle(samples, threads).run(events);
            &&& end.serviced.no_duplicates()
            &&& end.serviced.len() == samples
            &&& forall|k: int| end.serviced.contains(k) <==> 0 <= k < samples
        }),
{
    let start = PhaseModel::idle(samples, threads);
    let end = start.run(events);
    law_reachable_states_satisfy_invariant(samples, threads, events);
    lemma_run_keeps_shape(start, events);
    law_completed_phase_services_each_sample_once(end);
}

/// No step changes the number of samples or of workers.
pub proof fn lemma_run_keeps_shape(m: PhaseModel, events: Seq<PhaseEvent>)
    ensures
        m.run(events).samples == m.samples,
        m.run(events).workers.len() == m.workers.len(),
    decreases events.len(),
{
    if events.len() > 0 {
        lemma_run_keeps_shape(m.step(events[0]), events.drop_first());
    }
}

/// A failed operation sets the abort flag, and the worker leaves.
pub proof fn law_failure_sets_abort_flag(m: PhaseModel, w: int)
    requires
        m.can_complete(w),
    ensures
        m.complete(w, false).aborted,
        m.complete(w, false).exited(w),
        m.complete(w, false).serviced == m.serviced,
{
}

/// Whether the abort flag is visible in `event`: a claim sees it set.
pub open spec fn sees_abort(event: PhaseEvent) -> bool {
    event matches PhaseEvent::Claim(_, seen) ==> seen
}

/// The abort flag is never cleared, and an aborted phase never completes,
/// whatever the workers see of the flag.
pub proof fn law_abort_flag_is_never_cleared(m: PhaseModel, events: Seq<PhaseEvent>)
    requires
        m.inv(),
        m.aborted,
    ensures
        m.run(events).aborted,
        m.run(events).status != PhaseStatus::Completed,
    decreases events.len(),
{
    if events.len() > 0 {
        law_steps_keep_invariant(m, events[0]);
        law_abort_flag_is_never_cleared(m.step(events[0]), events.drop_first());
    }
}

/// One step of an aborted phase in which the flag is visible: the flag
/// stays set, a claim makes the worker leave, and no key is serviced or
/// goes in flight that was not in flight already.
pub proof fn lemma_aborted_step(m: PhaseModel, event: PhaseEvent)
    requires
        m.inv(),
        m.aborted,
        sees_abort(event),
    ensures
        m.step(event).aborted,
        m.step(event).status != PhaseStatus::Completed,
        forall|k: int| #[trigger] m.step(event).accounted(k) ==> m.accounted(k),
        event matches PhaseEvent::Claim(w, seen) ==> m.claim_action(seen) == WorkerAction::Exit,
{
    let m2 = m.step(event);
    if m.enabled(event) {
        match event {
            PhaseEvent::Start => {
                assert forall|v: int, k: int| m2.holds(v, k) == m.holds(v, k) by {}
            },
            PhaseEvent::Claim(w, seen) => {
                assert forall|v: int, k: int| #[trigger] m2.holds(v, k) implies m.holds(v, k) by {}
            },
            PhaseEvent::Complete(w, succeeded) => {
                let key = m.key_of(w);
                assert(m.holds(w, key));
                assert forall|v: int, k: int| #[trigger] m2.holds(v, k) implies m.holds(v, k) by {}
                if succeeded {
                    assert forall|k: int| m2.serviced.contains(k) == (k == key
                        || m.serviced.contains(k)) by {
                        lemma_seq_contains_after_push(m.serviced, key, k);
                    }
                }
            },
            PhaseEvent::Abandon(w) => {
                assert forall|v: int, k: int| m2.holds(v, k) == m.holds(v, k) by {}
            },
            PhaseEvent::Join => {
                assert forall|v: int, k: int| m2.holds(v, k) == m.holds(v, k) by {}
            },
        }
        assert forall|k: int| #[trigger] m2.accounted(k) implies m.accounted(k) by {
            if m2.in_flight(k) {
                let v = choose|v: int| m2.holds(v, k);
                assert(m.holds(v, k));
            }
        }
    }
}

/// Abort propagation. Once the abort flag is set and visible to every
/// worker that claims, then whatever steps follow: the flag stays set, the
/// phase never completes, and the only operations that still succeed are
/// those that were in flight already.
pub proof fn law_abort_stops_the_phase(m: PhaseModel, events: Seq<PhaseEvent>)
    requires
        m.inv(),
        m.aborted,
        forall|i: int| 0 <= i < events.len() ==> sees_abort(#[trigger] events[i]),
    ensures
        m.run(events).aborted,
        m.run(events).status != PhaseStatus::Completed,
        forall|k: int| #[trigger]
            m.run(events).serviced.contains(k) ==> m.serviced.contains(k) || m.in_flight(k),
    decreases events.len(),
{
    if events.len() > 0 {
        let m2 = m.step(events[0]);
        lemma_aborted_step(m, events[0]);
        law_steps_keep_invariant(m, events[0]);
        assert forall|i: int| 0 <= i < events.drop_first().len() implies sees_abort(
            #[trigger] events.drop_first()[i],
        ) by {
            assert(events.drop_first()[i] == events[i + 1]);
        }
        law_abort_stops_the_phase(m2, events.drop_first());
        assert forall|k: int| #[trigger] m.run(events).serviced.contains(k) implies m.serviced.contains(
            k,
        ) || m.in_flight(k) by {
            assert(m2.accounted(k));
            assert(m.accounted(k));
        }
    }
}

/// A worker that gives up sets the abort flag, and services nothing.
pub proof fn law_giving_up_sets_abort_flag(m: PhaseModel, w: int)
    requires
        m.can_abandon(w),
    ensures
        m.abandon(w).aborted,
        m.abandon(w).exited(w),
        m.abandon(w).serviced == m.serviced,
{
}

/// A claim that sees the abort flag set never hands out work: the worker
/// leaves, and the index it has claimed stays unserviced.
pub proof fn law_no_work_after_abort(m: PhaseModel, w: int)
    requires
        m.can_claim_seeing(w, true),
    ensures
        m.claim_action(true) == WorkerAction::Exit,
        m.claim(w, true).exited(w),
        m.claim(w, true).serviced == m.serviced,
        forall|k: int| !m.claim(w, true).holds(w, k),
{
}

/// A joined phase is aborted exactly when its abort flag is set, and
/// completed otherwise.
pub proof fn law_join_reports_abort(m: PhaseModel)
    requires
        m.can_join(),
    ensures
        m.join().status == PhaseStatus::Aborted <==> m.aborted,
        m.join().status == PhaseStatus::Completed <==> !m.aborted,
        m.join().serviced == m.serviced,
{
}

/// The progress reports of a phase increase strictly, so they never repeat
/// and never fall; they start at 0, stay within `0 ..= 100`, and show 100
/// exactly once, as the last report, exactly when the phase has been
/// joined.
pub proof fn law_progress_reports_increase(m: PhaseModel)
    requires
        m.inv(),
    ensures
        forall|i: int, j: int| 0 <= i < j < m.reported.len() ==> m.reported[i] < m.reported[j],
        forall|i: int| 0 <= i < m.reported.len() ==> 0 <= #[trigger] m.reported[i] <= 100,
        m.reported.len() > 0 ==> m.reported[0] == 0,
        m.terminal() ==> m.reported.len() > 0 && m.reported.last() == 100,
        forall|i: int|
            0 <= i < m.reported.len() && #[trigger] m.reported[i] == 100 ==> m.terminal() && i
                == m.reported.len() - 1,
{
    assert forall|i: int| 0 <= i < m.reported.len() implies 0 <= #[trigger] m.reported[i] <= 100
        && (m.reported[i] == 100 ==> m.terminal() && i == m.reported.len() - 1) by {
        let last = m.reported.len() - 1;
        if i > 0 {
            assert(m.reported[0] < m.reported[i]);
        }
        if i < last {
            assert(m.reported[i] < m.reported[last]);
        }
    }
}

/// Whatever the interleaving of the workers' steps, the progress reports
/// of a phase never fall and never repeat, and 100 is reported once, last,
/// when the phase is joined.
pub proof fn law_progress_of_every_run(samples: int, threads: nat, events: Seq<PhaseEvent>)
    requires
        samples <= counter_limit(),
    ensures
        ({
            let end = PhaseModel::idle(samples, threads).run(events);
            &&& forall|i: int, j: int|
                0 <= i < j < end.reported.len() ==> end.reported[i] < end.reported[j]
            &&& forall|i: int|
                0 <= i < end.reported.len() && #[trigger] end.reported[i] == 100 ==> end.terminal()
                    && i == end.reported.len() - 1
            &&& end.terminal() ==> end.reported.len() > 0 && end.reported.last() == 100
        }),
{
    law_reachable_states_satisfy_invariant(samples, threads, events);
    law_progress_reports_increase(PhaseModel::idle(samples, threads).run(events));
}

} // verus!
