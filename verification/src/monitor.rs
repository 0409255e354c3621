//! Backpressure observation with rate-limited warning emission.
//!
//! The monitor receives a pulse whenever the relay sees the downstream
//! queue at zero free capacity, and decides whether a warning may be
//! emitted: at most one per interval, however dense the pulses. It is
//! purely observational and never alters relay behaviour.

use vstd::prelude::*;

verus! {

/// Whether a congestion pulse at `now` may emit a warning, given when
/// the previous warning was emitted: always for the first warning, and
/// afterwards only once the interval has fully passed. A clock reading
/// below the recorded one (impossible with a monotonic clock) stays
/// silent.
pub open spec fn warn_due(last_warning: Option<u64>, now: u64, interval: u64) -> bool {
    match last_warning {
        Option::None => true,
        Option::Some(t) => now >= t && now - t >= interval,
    }
}

/// Passive observer of downstream saturation.
pub struct BackpressureMonitor {
    /// Minimum spacing of two warnings, in microseconds.
    pub interval_micros: u64,
    /// When the last warning was emitted, if any.
    pub last_warning_micros: Option<u64>,
}

impl BackpressureMonitor {
    pub fn new(interval_micros: u64) -> (m: BackpressureMonitor)
        ensures
            m.interval_micros == interval_micros,
            m.last_warning_micros is None,
    {
        BackpressureMonitor { interval_micros, last_warning_micros: None }
    }

    /// Notes one congestion pulse at time `now_micros`; the result says
    /// whether the caller may emit a warning now. Warn times are recorded
    /// so that any two emitted warnings lie at least the interval apart.
    pub fn note_congested(&mut self, now_micros: u64) -> (warn: bool)
        ensures
            warn == warn_due(old(self).last_warning_micros, now_micros, old(self).interval_micros),
            final(self).interval_micros == old(self).interval_micros,
            final(self).last_warning_micros == if warn {
                Option::Some(now_micros)
            } else {
                old(self).last_warning_micros
            },
    {
        let due: bool = match self.last_warning_micros {
            None => true,
            Some(t) => now_micros >= t && now_micros - t >= self.interval_micros,
        };
        if due {
            self.last_warning_micros = Some(now_micros);
        }
        due
    }
}

/// Rate limiting: once a warning has been emitted at `t1`, a pulse at any
/// `t2` less than a full interval later is silent — so within any window
/// shorter than the interval, at most one pulse may warn, no matter how
/// many frames were dropped in it.
pub proof fn lemma_warning_rate_limited(t1: u64, t2: u64, interval: u64)
    requires
        t2 < t1 + interval,
    ensures
        !warn_due(Some(t1), t2, interval),
{
}

} // verus!
