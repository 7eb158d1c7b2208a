//! The activity clock: it records the timestamp of the most recent recognized
//! activity (real or synthetic) and answers whether the idle threshold has
//! elapsed.

use vstd::prelude::*;

verus! {

/// The idle threshold used when no delay parameter is supplied, in
/// milliseconds.
pub const DEFAULT_THRESHOLD_MS: u64 = 10_000;

/// Timestamps are milliseconds since an epoch. This sentinel means "no
/// activity recorded yet"; while it is stored, idle detection is suppressed.
pub const UNSET_TIMESTAMP: u64 = 0;

/// Records the most recent recognized activity as milliseconds since an
/// epoch, with `UNSET_TIMESTAMP` meaning "never recorded".
pub struct ActivityClock {
    pub last_activity_ms: u64,
}

/// The idle query as a predicate over plain values: the threshold has elapsed
/// iff a timestamp was recorded and strictly more than `threshold_ms`
/// milliseconds have passed since.
pub open spec fn idle_elapsed_spec(last_activity_ms: u64, now_ms: u64, threshold_ms: u64) -> bool {
    last_activity_ms != UNSET_TIMESTAMP && now_ms - last_activity_ms > threshold_ms
}

impl ActivityClock {
    /// A fresh clock with no activity recorded: idle detection is suppressed
    /// until the first recorded activity.
    pub fn new() -> (c: ActivityClock)
        ensures
            c.last_activity_ms == UNSET_TIMESTAMP,
    {
        ActivityClock { last_activity_ms: UNSET_TIMESTAMP }
    }

    /// Sets the stored timestamp to `now_ms`, unconditionally.
    pub fn record_activity(&mut self, now_ms: u64)
        ensures
            final(self).last_activity_ms == now_ms,
    {
        self.last_activity_ms = now_ms;
    }

    /// True iff a timestamp was recorded and strictly more than
    /// `threshold_ms` milliseconds lie between it and `now_ms`. While the
    /// timestamp is unset, the answer is false whatever `now_ms` is.
    pub fn idle_elapsed(&self, now_ms: u64, threshold_ms: u64) -> (r: bool)
        ensures
            r == idle_elapsed_spec(self.last_activity_ms, now_ms, threshold_ms),
    {
        self.last_activity_ms != UNSET_TIMESTAMP
            && now_ms > self.last_activity_ms
            && now_ms - self.last_activity_ms > threshold_ms
    }
}

/// Converts the externally supplied delay parameter, in whole seconds, to the
/// idle threshold in milliseconds; `None` exactly when the product would not
/// fit in 64 bits.
pub fn threshold_from_secs(delay_secs: u64) -> (r: Option<u64>)
    ensures
        delay_secs * 1000 <= u64::MAX ==> r == Some((delay_secs * 1000) as u64),
        delay_secs * 1000 > u64::MAX ==> r is None,
{
    delay_secs.checked_mul(1000)
}

/// Recording an activity at time `t` resets the idle countdown: one
/// millisecond later, no threshold of at least one millisecond has elapsed.
pub proof fn lemma_activity_resets_idle(t: u64, threshold_ms: u64)
    requires
        t < u64::MAX,
        threshold_ms >= 1,
    ensures
        !idle_elapsed_spec(t, (t + 1) as u64, threshold_ms),
{
}

} // verus!
