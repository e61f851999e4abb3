//! The work distributor: one shared counter from which every worker of a
//! phase draws the next sample index.
//!
//! The counter is the only coordination point between workers. It starts at
//! zero, hands each index out once and never rewinds; once it has reached
//! the largest index it stays there, so that no index is ever handed out a
//! second time by wrapping around.
//!
//! A worker compares the index it has claimed with the number of samples:
//! an index that is no sample tells it that the phase is drained.

use vstd::prelude::*;

verus! {

/// The largest value the counter can take.
pub open spec fn counter_limit() -> int {
    i32::MAX as int
}

/// The counter value that follows `next` after one claim.
pub open spec fn after_claim(next: int) -> int {
    if next < counter_limit() {
        next + 1
    } else {
        next
    }
}

/// The counter value after `claims` claims on a fresh counter.
pub open spec fn counter_after(claims: nat) -> int
    decreases claims,
{
    if claims == 0 {
        0
    } else {
        after_claim(counter_after((claims - 1) as nat))
    }
}

/// The index returned by claim number `k` (counting from zero) on a fresh
/// counter.
pub open spec fn nth_claim(k: nat) -> int {
    counter_after(k)
}

/// What a worker does with an index it has just claimed.
#[derive(Clone, Copy, Debug, PartialEq, Eq, Structural)]
pub enum ClaimDecision {
    /// The index is a sample of this phase and the phase is live: service it.
    Operate,
    /// The index is a sample of this phase, but the phase was aborted: leave
    /// it unserviced and stop.
    Cancelled,
    /// The index is no sample of this phase: the phase is drained, stop.
    Exhausted,
}

/// Whether `index` is a sample index of a phase of `samples` samples.
pub open spec fn is_sample(index: int, samples: int) -> bool {
    0 <= index < samples
}

/// The decision for a claimed `index` in a phase of `samples` samples whose
/// abort flag reads `aborted`.
pub open spec fn claim_decision(index: int, samples: int, aborted: bool) -> ClaimDecision {
    if !is_sample(index, samples) {
        ClaimDecision::Exhausted
    } else if aborted {
        ClaimDecision::Cancelled
    } else {
        ClaimDecision::Operate
    }
}

/// A monotonically increasing counter of sample indices.
pub struct WorkCounter {
    next: i32,
}

impl WorkCounter {
    /// The index that the next claim returns.
    pub closed spec fn view(&self) -> int {
        self.next as int
    }

    /// A counter stays within `0 ..= counter_limit()`.
    #[verifier::type_invariant]
    spec fn in_range(&self) -> bool {
        0 <= self.next
    }

    /// A fresh counter, which starts at index 0.
    pub fn new() -> (counter: Self)
        ensures
            counter@ == 0,
    {
        WorkCounter { next: 0 }
    }

    /// The index that the next claim will return.
    pub fn peek(&self) -> (next: i32)
        ensures
            next == self@,
            0 <= next,
    {
        proof {
            use_type_invariant(self);
        }
        self.next
    }

    /// Fetch-and-increment: returns the current index and moves the counter
    /// past it.
    pub fn claim(&mut self) -> (index: i32)
        ensures
            index == old(self)@,
            0 <= index <= counter_limit(),
            final(self)@ == after_claim(old(self)@),
    {
        proof {
            use_type_invariant(&*self);
        }
        let index: i32 = self.next;
        if index < i32::MAX {
            self.next = index + 1;
        }
        index
    }
}

/// Decides what to do with a freshly claimed `index`: stop when the phase is
/// drained, stop without servicing when it was aborted, service otherwise.
pub fn decide_claim(index: i32, samples: i32, aborted: bool) -> (decision: ClaimDecision)
    ensures
        decision == claim_decision(index as int, samples as int, aborted),
{
    if index < 0 || index >= samples {
        ClaimDecision::Exhausted
    } else if aborted {
        ClaimDecision::Cancelled
    } else {
        ClaimDecision::Operate
    }
}

/// After any number of claims the counter holds the number of claims made,
/// capped at the limit.
pub proof fn law_counter_counts_claims(claims: nat)
    ensures
        counter_after(claims) == if claims <= counter_limit() {
            claims as int
        } else {
            counter_limit()
        },
    decreases claims,
{
    if claims > 0 {
        law_counter_counts_claims((claims - 1) as nat);
    }
}

/// The counter never rewinds: a later claim never returns a smaller index.
pub proof fn law_claims_never_rewind(earlier: nat, later: nat)
    requires
        earlier <= later,
    ensures
        nth_claim(earlier) <= nth_claim(later),
{
    law_counter_counts_claims(earlier);
    law_counter_counts_claims(later);
}

/// No index below the limit is handed out twice: two different claims that
/// both return an index below the limit return different indices, and claim
/// number `k` returns exactly `k`.
pub proof fn law_claims_are_unique(first: nat, second: nat)
    requires
        first != second,
        nth_claim(first) < counter_limit(),
    ensures
        nth_claim(first) == first,
        nth_claim(first) != nth_claim(second),
{
    law_counter_counts_claims(first);
    law_counter_counts_claims(second);
}

/// Every sample index of a phase is handed out: with `samples` samples,
/// claim number `k < samples` returns `k` and is not taken for exhaustion,
/// while every claim from number `samples` on is.
pub proof fn law_claims_are_exhaustive(k: nat, samples: int)
    requires
        0 <= samples <= counter_limit(),
    ensures
        k < samples ==> nth_claim(k) == k && claim_decision(nth_claim(k), samples, false)
            == ClaimDecision::Operate,
        k >= samples ==> claim_decision(nth_claim(k), samples, false) == ClaimDecision::Exhausted,
{
    law_counter_counts_claims(k);
}

} // verus!
