//! The readiness waiter: the bounded retry protocol that obtains the first
//! client from a backing store that may not be listening yet.
//!
//! The protocol sleeps a fixed initial delay and starts its clock. Then it
//! probes for as long as the clock reads less than the time-out: each probe
//! sleeps a fixed interval and tries to create a client. The first client
//! that can be created is delivered. Once the clock has reached the
//! time-out, the waiter gives up for good.
//!
//! This module states the decisions; the caller sleeps, reads the clock
//! and creates clients.

use vstd::prelude::*;

verus! {

/// The delay before the clock is started, in nanoseconds.
pub const INITIAL_DELAY_NANOS: u64 = 2_000_000_000;

/// The pause before each attempt to create a client, in nanoseconds.
pub const POLL_INTERVAL_NANOS: u64 = 2_000_000_000;

/// How far the waiter has come.
#[derive(Clone, Copy, Debug, PartialEq, Eq, Structural)]
pub enum WaitProgress {
    /// Nothing has been done yet.
    Started,
    /// The initial delay has passed and the clock runs; no client has been
    /// tried yet.
    Settled,
    /// The latest attempt to create a client failed.
    Refused,
    /// The latest attempt to create a client succeeded.
    Connected,
}

/// What the caller has to do next.
#[derive(Clone, Copy, Debug, PartialEq, Eq, Structural)]
pub enum WaitAction {
    /// Sleep `INITIAL_DELAY_NANOS`, then start the clock.
    Settle,
    /// Sleep `POLL_INTERVAL_NANOS`, then try to create a client and read the
    /// clock.
    Probe,
    /// Hand out the client that the latest attempt created.
    Deliver,
    /// Fail: the backing store is unreachable.
    GiveUp,
}

/// The next action of the waiter when the clock reads `elapsed` and the
/// time-out is `time_out`, both in nanoseconds.
pub open spec fn wait_decision(progress: WaitProgress, elapsed: int, time_out: int) -> WaitAction {
    match progress {
        WaitProgress::Started => WaitAction::Settle,
        WaitProgress::Connected => WaitAction::Deliver,
        _ => if elapsed < time_out {
            WaitAction::Probe
        } else {
            WaitAction::GiveUp
        },
    }
}

/// A client is delivered only after one was created, and as soon as one
/// was: whatever the clock reads.
pub proof fn law_delivery_follows_creation(progress: WaitProgress, elapsed: int, time_out: int)
    ensures
        wait_decision(progress, elapsed, time_out) == WaitAction::Deliver <==> progress
            == WaitProgress::Connected,
{
}

/// The waiter never hangs. Every probe sleeps the poll interval first, so
/// after `probes` failed probes the clock reads at least `probes` times the
/// interval; once that reaches the time-out, the waiter gives up.
pub proof fn law_waiter_gives_up(probes: nat, elapsed: int, time_out: int)
    requires
        elapsed >= probes * POLL_INTERVAL_NANOS,
        probes * POLL_INTERVAL_NANOS >= time_out,
    ensures
        wait_decision(WaitProgress::Refused, elapsed, time_out) == WaitAction::GiveUp,
        wait_decision(WaitProgress::Settled, elapsed, time_out) == WaitAction::GiveUp,
{
}

/// The number of probes that the waiter makes on a store that never
/// answers, when the clock reads `readings[k]` after `k` probes: it probes
/// for as long as the reading is below the time-out, and for as long as
/// there are readings.
pub open spec fn probes_made(readings: Seq<int>, time_out: int) -> nat
    decreases readings.len(),
{
    if readings.len() == 0 || wait_decision(WaitProgress::Refused, readings[0], time_out)
        != WaitAction::Probe {
        0
    } else {
        1 + probes_made(readings.drop_first(), time_out)
    }
}

/// The most probes that a time-out allows: the time-out divided by the poll
/// interval, rounded up.
pub open spec fn probes_allowed(time_out: int) -> int {
    if time_out <= 0 {
        0
    } else {
        (time_out + POLL_INTERVAL_NANOS - 1) / (POLL_INTERVAL_NANOS as int)
    }
}

/// The probes made from a point at which `done` probes have been made
/// already, so that the clock reads `readings[k]` after `done + k` probes.
proof fn lemma_probes_are_bounded_from(readings: Seq<int>, done: nat, time_out: int)
    requires
        forall|k: int|
            0 <= k < readings.len() ==> #[trigger] readings[k] >= (done + k) * POLL_INTERVAL_NANOS,
    ensures
        probes_made(readings, time_out) == 0 || done + probes_made(readings, time_out)
            <= probes_allowed(time_out),
    decreases readings.len(),
{
    if readings.len() > 0 && readings[0] < time_out {
        let rest = readings.drop_first();
        assert forall|k: int| 0 <= k < rest.len() implies #[trigger] rest[k] >= (done + 1 + k)
            * POLL_INTERVAL_NANOS by {
            assert(rest[k] == readings[k + 1]);
        }
        lemma_probes_are_bounded_from(rest, done + 1, time_out);
        assert(readings[0] >= done * POLL_INTERVAL_NANOS);
    }
}

/// Bounded retry. Every probe sleeps the poll interval first, so after `k`
/// probes the clock reads at least `k` times the interval. On a store that
/// never answers the waiter therefore makes at most `probes_allowed`
/// probes, however long the sequence of clock readings goes on.
pub proof fn law_probes_are_bounded(readings: Seq<int>, time_out: int)
    requires
        forall|k: int| 0 <= k < readings.len() ==> #[trigger] readings[k] >= k * POLL_INTERVAL_NANOS,
    ensures
        probes_made(readings, time_out) <= probes_allowed(time_out),
{
    lemma_probes_are_bounded_from(readings, 0, time_out);
}

/// Before the deadline the waiter keeps probing.
pub proof fn law_waiter_probes_before_deadline(elapsed: int, time_out: int)
    requires
        elapsed < time_out,
    ensures
        wait_decision(WaitProgress::Refused, elapsed, time_out) == WaitAction::Probe,
        wait_decision(WaitProgress::Settled, elapsed, time_out) == WaitAction::Probe,
{
}

} // verus!
