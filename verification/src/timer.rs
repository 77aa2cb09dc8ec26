//! The round timer. The engine is time-source-agnostic: whoever drives it
//! reads a monotonic clock and hands the current time in as a plain
//! millisecond count. The timer remembers the epoch of the last `start` and
//! derives the elapsed time from it on each `update`.

use vstd::prelude::*;
use crate::config::COUNTDOWN_FROM;

verus! {

/// Elapsed-time tracker for one round.
#[derive(Clone, Copy, PartialEq, Eq, Structural, Debug)]
pub struct Timer {
    /// Epoch of the most recent `start`, in clock milliseconds.
    pub started_ms: u64,
    /// Milliseconds elapsed between the epoch and the last `update`.
    pub elapsed_ms: u64,
}

impl Timer {
    /// Elapsed whole seconds since the epoch, as of the last `update`:
    /// truncating division, never rounding up.
    pub open spec fn spec_value(self) -> u64 {
        self.elapsed_ms / 1000
    }

    /// The timer after an `update` at clock time `now_ms`.
    pub open spec fn spec_updated(self, now_ms: u64) -> Timer {
        Timer { started_ms: self.started_ms, elapsed_ms: (now_ms - self.started_ms) as u64 }
    }

    /// A fresh timer: epoch and elapsed time both zero.
    pub fn new() -> (t: Timer)
        ensures
            t == (Timer { started_ms: 0, elapsed_ms: 0 }),
    {
        Timer { started_ms: 0, elapsed_ms: 0 }
    }

    /// Elapsed whole seconds as of the last `update`.
    pub fn get_value(&self) -> (secs: u64)
        ensures
            secs == self.spec_value(),
    {
        self.elapsed_ms / 1000
    }

    /// Records `now_ms` as the new epoch and resets the elapsed time to zero.
    pub fn start(&mut self, now_ms: u64)
        ensures
            *final(self) == (Timer { started_ms: now_ms, elapsed_ms: 0 }),
    {
        self.started_ms = now_ms;
        self.elapsed_ms = 0;
    }

    /// Recomputes the elapsed time against the epoch. The clock is monotonic,
    /// so `now_ms` is never before the epoch.
    pub fn update(&mut self, now_ms: u64)
        requires
            now_ms >= old(self).started_ms,
        ensures
            *final(self) == old(self).spec_updated(now_ms),
    {
        self.elapsed_ms = now_ms - self.started_ms;
    }
}

/// Updating a timer twice with the same clock reading changes nothing the
/// second time: `update` is idempotent per instant.
pub proof fn lemma_update_idempotent(t: Timer, now_ms: u64)
    ensures
        t.spec_updated(now_ms).spec_updated(now_ms) == t.spec_updated(now_ms),
{
}

/// Between two `start` calls the elapsed time never runs backwards: reading
/// a monotonic clock later never shows an earlier elapsed time, in
/// milliseconds or in whole seconds.
pub proof fn lemma_elapsed_monotone(t: Timer, now1_ms: u64, now2_ms: u64)
    requires
        t.started_ms <= now1_ms <= now2_ms,
    ensures
        t.spec_updated(now1_ms).elapsed_ms <= t.spec_updated(now2_ms).elapsed_ms,
        t.spec_updated(now1_ms).spec_value() <= t.spec_updated(now2_ms).spec_value(),
{
    vstd::arithmetic::div_mod::lemma_div_is_ordered(
        t.spec_updated(now1_ms).elapsed_ms as int,
        t.spec_updated(now2_ms).elapsed_ms as int,
        1000,
    );
}

/// Whether the opening countdown of a round is over, given the elapsed whole
/// seconds: input stays locked through second `COUNTDOWN_FROM - 1` and
/// unlocks at second `COUNTDOWN_FROM`.
pub fn is_countdown_finished(countdown: u64) -> (finished: bool)
    ensures
        finished == (countdown > COUNTDOWN_FROM - 1),
{
    countdown > COUNTDOWN_FROM - 1
}

/// The number the countdown display shows at elapsed second `countdown`:
/// it counts down from `COUNTDOWN_FROM` toward 1.
pub fn convert_countdown(countdown: u64) -> (shown: u64)
    requires
        countdown <= COUNTDOWN_FROM,
    ensures
        shown == COUNTDOWN_FROM - countdown,
{
    COUNTDOWN_FROM - countdown
}

} // verus!
