//! Progress reporting: the percentage of a phase that has been serviced, and
//! the shared counter that lets each percentage be reported at most once.

use vstd::prelude::*;

verus! {

/// The percentage that is reported when the phase starts.
pub const PROGRESS_START: u8 = 0;

/// The percentage that is reported when the phase has been joined.
pub const PROGRESS_DONE: u8 = 100;

/// The percentage of a phase of `samples` samples that sample `index` stands
/// for: `index * 100 / samples`, and zero for the first sample.
pub open spec fn percent_of(index: int, samples: int) -> int {
    if index <= 0 {
        0
    } else {
        (index * 100) / samples
    }
}

/// The update to report when the counter reads `current` and a worker has
/// computed `candidate`: the candidate if it is an increase, nothing
/// otherwise.
pub open spec fn progress_update(current: int, candidate: int) -> Option<int> {
    if candidate > current {
        Some(candidate)
    } else {
        None
    }
}

/// The value of the counter after a worker has offered `candidate`.
pub open spec fn progress_after(current: int, candidate: int) -> int {
    if candidate > current {
        candidate
    } else {
        current
    }
}

/// The percentage that key `key` stands for in a phase of `samples`
/// samples.
pub open spec fn percent_of_key(key: i32, samples: i32) -> int {
    percent_of(key as int, samples as int)
}

/// The percentage of a sample index lies in `0 ..= 99`.
pub proof fn lemma_percent_of_bounds(index: int, samples: int)
    requires
        0 <= index < samples,
    ensures
        0 <= percent_of(index, samples) < 100,
{
    if index > 0 {
        assert(0 <= (index * 100) / samples < 100) by (nonlinear_arith)
            requires
                0 < index < samples,
        ;
    }
}

/// A later sample never stands for a smaller percentage.
pub proof fn law_percent_is_monotone(lower: int, upper: int, samples: int)
    requires
        0 <= lower <= upper < samples,
    ensures
        percent_of(lower, samples) <= percent_of(upper, samples),
{
    lemma_percent_of_bounds(upper, samples);
    if lower > 0 {
        assert((lower * 100) / samples <= (upper * 100) / samples) by (nonlinear_arith)
            requires
                0 < lower <= upper,
                0 < samples,
        ;
    }
}

/// Computes the percentage that sample `index` of `samples` stands for.
pub fn progress_percent(index: i32, samples: i32) -> (percent: u8)
    requires
        0 <= index < samples,
    ensures
        percent == percent_of(index as int, samples as int),
        percent < PROGRESS_DONE,
{
    proof {
        lemma_percent_of_bounds(index as int, samples as int);
    }
    if index == 0 {
        0
    } else {
        let scaled: i64 = (index as i64) * 100;
        let percent: i64 = scaled / (samples as i64);
        percent as u8
    }
}

/// Decides what to report when the progress counter read `previous` and a
/// worker has computed `candidate`: the candidate if it is an increase,
/// nothing otherwise.
pub fn report_update(previous: u8, candidate: u8) -> (update: Option<u8>)
    ensures
        update.is_some() == progress_update(previous as int, candidate as int).is_some(),
        update matches Some(percent) ==> percent == candidate,
{
    if candidate > previous {
        Some(candidate)
    } else {
        None
    }
}

/// The shared progress counter of one phase: the highest percentage that
/// has been reported so far.
pub struct ProgressCounter {
    percent: u8,
}

impl ProgressCounter {
    /// The highest percentage reported so far.
    pub closed spec fn view(&self) -> int {
        self.percent as int
    }

    /// A counter at the start of a phase.
    pub fn new() -> (counter: Self)
        ensures
            counter@ == PROGRESS_START,
    {
        ProgressCounter { percent: PROGRESS_START }
    }

    /// The highest percentage reported so far.
    pub fn current(&self) -> (percent: u8)
        ensures
            percent == self@,
    {
        self.percent
    }

    /// Offers `candidate` to the counter. The counter takes it, and hands it
    /// back for reporting, exactly when it is higher than every percentage
    /// reported before; otherwise nothing changes and nothing is reported.
    pub fn advance(&mut self, candidate: u8) -> (update: Option<u8>)
        ensures
            final(self)@ == progress_after(old(self)@, candidate as int),
            update.is_some() == progress_update(old(self)@, candidate as int).is_some(),
            update matches Some(percent) ==> percent == candidate,
    {
        let update = report_update(self.percent, candidate);
        if update.is_some() {
            self.percent = candidate;
        }
        update
    }
}

} // verus!
