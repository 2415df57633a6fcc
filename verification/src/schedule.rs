//! The scheduler: how long to wait before the next cycle.
//!
//! After a cycle that did not fail the agent waits for the configured
//! interval. After a failed one it waits for a tenth of that, and never more
//! than [`RETRY_CAP_SECS`] seconds, however many cycles have failed in a row.

use crate::configure::ClientConf;
use crate::ddns::SyncOutcome;
use crate::duration::{subsec_nanos, whole_secs};
use std::time::Duration;
use vstd::prelude::*;

verus! {

/// The longest wait after a failed cycle, in seconds.
pub const RETRY_CAP_SECS: u64 = 120;

/// What the scheduler remembers between cycles.
#[derive(Clone, Copy, Debug, PartialEq, Eq, Structural)]
pub struct ScheduleState {
    consecutive_failures: u64,
}

/// The scheduler's decision after one cycle.
pub struct Scheduled {
    /// Cycles that have failed in a row, this one included.
    pub failures: nat,
    /// Seconds to wait before the next cycle.
    pub delay_secs: int,
}

/// The wait after a failed cycle: a tenth of the interval, at most
/// [`RETRY_CAP_SECS`].
pub open spec fn retry_delay_secs(interval_secs: int) -> int {
    if interval_secs / 10 < RETRY_CAP_SECS {
        interval_secs / 10
    } else {
        RETRY_CAP_SECS as int
    }
}

/// The decision after a cycle: a cycle that did not fail clears the count
/// and waits for the interval; a failed one adds to the count and waits for
/// the retry delay.
pub open spec fn schedule(failures: nat, failed: bool, interval_secs: int) -> Scheduled {
    if failed {
        Scheduled { failures: failures + 1, delay_secs: retry_delay_secs(interval_secs) }
    } else {
        Scheduled { failures: 0, delay_secs: interval_secs }
    }
}

impl View for ScheduleState {
    type V = nat;

    /// The number of cycles that have failed in a row.
    closed spec fn view(&self) -> nat {
        self.consecutive_failures as nat
    }
}

impl ScheduleState {
    /// The state before the first cycle: nothing has failed.
    pub fn new() -> (state: Self)
        ensures
            state@ == 0,
    {
        ScheduleState { consecutive_failures: 0 }
    }

    /// The number of cycles that have failed in a row.
    pub fn consecutive_failures(&self) -> (n: u64)
        ensures
            n == self@,
    {
        self.consecutive_failures
    }

    /// Takes the outcome of a cycle, keeps count of failures in a row, and
    /// gives the time to wait before the next cycle.
    pub fn next_delay(&mut self, outcome: &SyncOutcome, conf: &ClientConf) -> (delay: Duration)
        requires
            conf@.valid(),
            outcome is Failed ==> old(self)@ < u64::MAX,
        ensures
            final(self)@ == schedule(old(self)@, outcome is Failed, conf@.interval_secs()).failures,
            whole_secs(delay) == schedule(
                old(self)@,
                outcome is Failed,
                conf@.interval_secs(),
            ).delay_secs,
            subsec_nanos(delay) == 0,
    {
        let interval = conf.interval();
        match outcome {
            SyncOutcome::Failed(_) => {
                self.consecutive_failures = self.consecutive_failures + 1;
                let tenth = interval.as_secs() / 10;
                if tenth < RETRY_CAP_SECS {
                    Duration::from_secs(tenth)
                } else {
                    Duration::from_secs(RETRY_CAP_SECS)
                }
            },
            _ => {
                self.consecutive_failures = 0;
                interval
            },
        }
    }
}

/// The wait after a failed cycle is the smaller of a tenth of the interval
/// and the cap, whatever the number of failures before it: it does not grow
/// with them.
pub proof fn lemma_backoff_ignores_failure_count(failures: nat, others: nat, interval_secs: int)
    ensures
        schedule(failures, true, interval_secs).delay_secs == schedule(
            others,
            true,
            interval_secs,
        ).delay_secs,
        schedule(failures, true, interval_secs).delay_secs == vstd::math::min(
            interval_secs / 10,
            RETRY_CAP_SECS as int,
        ),
{
}

} // verus!
