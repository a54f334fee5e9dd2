//! The fixed-interval scheduler's arithmetic and policy: rest-time
//! computation that never goes negative, and the per-tick fault isolation
//! between fetch and send.

use vstd::prelude::*;
use crate::collector::sat_sub_u64;

verus! {

/// Drives the fetch, send, sleep cycle at a fixed cadence. Under sustained
/// overload the cadence drifts rather than queuing ticks.
#[derive(Clone, Copy, Debug)]
pub struct SamplingScheduler {
    pub interval_ms: u64,
}

/// What one tick decided after its fetch: whether the previous snapshot is
/// served instead of a fresh one, how long to pause before going on, and
/// whether a send is attempted at all.
#[derive(Clone, Copy, Debug, PartialEq, Eq, Structural)]
pub struct TickPlan {
    /// Stale-serve: a fetch failure keeps the previous snapshot, it never
    /// blocks on a retry.
    pub keep_previous_snapshot: bool,
    /// A fixed pause inserted after a failed fetch so a persistent failure
    /// cannot become a tight loop.
    pub failure_delay_ms: u64,
    /// Offline mode still fetches but never sends.
    pub attempt_send: bool,
}

impl SamplingScheduler {
    /// The default cadence is one second.
    pub fn new() -> (r: SamplingScheduler)
        ensures
            r.interval_ms == 1000,
    {
        SamplingScheduler { interval_ms: 1000 }
    }

    pub fn with_interval(interval_ms: u64) -> (r: SamplingScheduler)
        ensures
            r.interval_ms == interval_ms,
    {
        SamplingScheduler { interval_ms }
    }

    /// How long to sleep after a tick that took `elapsed_ms`: the remainder
    /// of the interval, and never a negative duration.
    pub fn rest_time_ms(&self, elapsed_ms: u64) -> (r: u64)
        ensures
            r == sat_sub_u64(self.interval_ms, elapsed_ms),
            elapsed_ms <= self.interval_ms ==> r == self.interval_ms - elapsed_ms,
            elapsed_ms >= self.interval_ms ==> r == 0,
    {
        if elapsed_ms >= self.interval_ms {
            0
        } else {
            self.interval_ms - elapsed_ms
        }
    }

    /// The tick's policy after its fetch: a failed fetch keeps the previous
    /// snapshot and inserts a fixed one-second delay; neither failure stops
    /// the loop; offline mode skips sending entirely.
    pub fn plan_after_fetch(&self, fetch_ok: bool, offline: bool) -> (p: TickPlan)
        ensures
            p.keep_previous_snapshot == !fetch_ok,
            p.failure_delay_ms == (if fetch_ok {
                0int
            } else {
                1000int
            }),
            p.attempt_send == !offline,
    {
        TickPlan {
            keep_previous_snapshot: !fetch_ok,
            failure_delay_ms: if fetch_ok {
                0
            } else {
                1000
            },
            attempt_send: !offline,
        }
    }
}

} // verus!
