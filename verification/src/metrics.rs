//! Performance counters for the relay's steady-state path.
//!
//! Pure bookkeeping: every recorder bumps one or two saturating-free,
//! wrapping counters, exactly as stated in its contract. Ratios and rates
//! are left to the presentation layer, which can derive them from the raw
//! counts in a [`MetricsSnapshot`].

use vstd::prelude::*;

verus! {

/// A counter after one more event: counters wrap around rather than
/// stick, so a relay that outlives `u64::MAX` events keeps running.
pub open spec fn bump(c: u64) -> u64 {
    if c == u64::MAX {
        0
    } else {
        (c + 1) as u64
    }
}

/// `a` advanced by `b` with wrap-around.
pub open spec fn bump_by(a: u64, b: u64) -> u64 {
    ((a + b) % 0x1_0000_0000_0000_0000) as u64
}

/// The larger of a running maximum and a new observation.
pub open spec fn max_of(a: u64, b: u64) -> u64 {
    if b > a {
        b
    } else {
        a
    }
}

/// All counters at zero, as a fresh recorder starts out.
pub open spec fn all_zero(m: PerformanceMetrics) -> bool {
    &&& m.audio_processing_time_total == 0
    &&& m.audio_processing_count == 0
    &&& m.audio_processing_max_time == 0
    &&& m.buffer_pool_gets == 0
    &&& m.buffer_pool_hits == 0
    &&& m.buffer_pool_creates == 0
    &&& m.buffer_pool_returns == 0
    &&& m.cache_hits == 0
    &&& m.cache_misses == 0
    &&& m.cache_http_calls == 0
    &&& m.voice_packets_received == 0
    &&& m.voice_packets_processed == 0
    &&& m.memory_allocations == 0
}

/// Counters over audio processing, the buffer pool, the name cache and
/// packet flow.
pub struct PerformanceMetrics {
    pub audio_processing_time_total: u64,
    pub audio_processing_count: u64,
    pub audio_processing_max_time: u64,
    pub buffer_pool_gets: u64,
    pub buffer_pool_hits: u64,
    pub buffer_pool_creates: u64,
    pub buffer_pool_returns: u64,
    pub cache_hits: u64,
    pub cache_misses: u64,
    pub cache_http_calls: u64,
    pub voice_packets_received: u64,
    pub voice_packets_processed: u64,
    pub memory_allocations: u64,
}

impl PerformanceMetrics {
    pub fn new() -> (m: PerformanceMetrics)
        ensures
            all_zero(m),
    {
        PerformanceMetrics {
            audio_processing_time_total: 0,
            audio_processing_count: 0,
            audio_processing_max_time: 0,
            buffer_pool_gets: 0,
            buffer_pool_hits: 0,
            buffer_pool_creates: 0,
            buffer_pool_returns: 0,
            cache_hits: 0,
            cache_misses: 0,
            cache_http_calls: 0,
            voice_packets_received: 0,
            voice_packets_processed: 0,
            memory_allocations: 0,
        }
    }

    /// Folds one measured processing duration, in microseconds, into the
    /// total, the event count and the running maximum.
    pub fn record_audio_processing_time(&mut self, micros: u64)
        ensures
            *final(self) == (PerformanceMetrics {
                audio_processing_time_total: bump_by(
                    old(self).audio_processing_time_total,
                    micros,
                ),
                audio_processing_count: bump(old(self).audio_processing_count),
                audio_processing_max_time: max_of(old(self).audio_processing_max_time, micros),
                ..*old(self)
            }),
    {
        self.audio_processing_time_total = self.audio_processing_time_total.wrapping_add(micros);
        self.audio_processing_count = self.audio_processing_count.wrapping_add(1);
        if micros > self.audio_processing_max_time {
            self.audio_processing_max_time = micros;
        }
    }

    /// Counts one buffer request, split by whether a pooled buffer was
    /// reused or a fresh one had to be made.
    pub fn record_buffer_pool_get(&mut self, was_reused: bool)
        ensures
            *final(self) == (PerformanceMetrics {
                buffer_pool_gets: bump(old(self).buffer_pool_gets),
                buffer_pool_hits: if was_reused {
                    bump(old(self).buffer_pool_hits)
                } else {
                    old(self).buffer_pool_hits
                },
                buffer_pool_creates: if was_reused {
                    old(self).buffer_pool_creates
                } else {
                    bump(old(self).buffer_pool_creates)
                },
                ..*old(self)
            }),
    {
        self.buffer_pool_gets = self.buffer_pool_gets.wrapping_add(1);
        if was_reused {
            self.buffer_pool_hits = self.buffer_pool_hits.wrapping_add(1);
        } else {
            self.buffer_pool_creates = self.buffer_pool_creates.wrapping_add(1);
        }
    }

    pub fn record_buffer_pool_return(&mut self)
        ensures
            *final(self) == (PerformanceMetrics {
                buffer_pool_returns: bump(old(self).buffer_pool_returns),
                ..*old(self)
            }),
    {
        self.buffer_pool_returns = self.buffer_pool_returns.wrapping_add(1);
    }

    pub fn record_cache_hit(&mut self)
        ensures
            *final(self) == (PerformanceMetrics { cache_hits: bump(old(self).cache_hits), ..*old(
                self,
            ) }),
    {
        self.cache_hits = self.cache_hits.wrapping_add(1);
    }

    pub fn record_cache_miss(&mut self)
        ensures
            *final(self) == (PerformanceMetrics { cache_misses: bump(old(self).cache_misses), ..*old(
                self,
            ) }),
    {
        self.cache_misses = self.cache_misses.wrapping_add(1);
    }

    pub fn record_http_call(&mut self)
        ensures
            *final(self) == (PerformanceMetrics {
                cache_http_calls: bump(old(self).cache_http_calls),
                ..*old(self)
            }),
    {
        self.cache_http_calls = self.cache_http_calls.wrapping_add(1);
    }

    pub fn record_voice_packet_received(&mut self)
        ensures
            *final(self) == (PerformanceMetrics {
                voice_packets_received: bump(old(self).voice_packets_received),
                ..*old(self)
            }),
    {
        self.voice_packets_received = self.voice_packets_received.wrapping_add(1);
    }

    pub fn record_voice_packet_processed(&mut self)
        ensures
            *final(self) == (PerformanceMetrics {
                voice_packets_processed: bump(old(self).voice_packets_processed),
                ..*old(self)
            }),
    {
        self.voice_packets_processed = self.voice_packets_processed.wrapping_add(1);
    }

    pub fn record_memory_allocation(&mut self)
        ensures
            *final(self) == (PerformanceMetrics {
                memory_allocations: bump(old(self).memory_allocations),
                ..*old(self)
            }),
    {
        self.memory_allocations = self.memory_allocations.wrapping_add(1);
    }

    /// A copy of the counters, with the mean processing time computed.
    pub fn get_snapshot(&self) -> (s: MetricsSnapshot)
        ensures
            s.audio_processing_avg_micros == if self.audio_processing_count > 0 {
                self.audio_processing_time_total / self.audio_processing_count
            } else {
                0u64
            },
            s.audio_processing_max_micros == self.audio_processing_max_time,
            s.audio_processing_count == self.audio_processing_count,
            s.buffer_pool_gets == self.buffer_pool_gets,
            s.buffer_pool_hits == self.buffer_pool_hits,
            s.buffer_pool_creates == self.buffer_pool_creates,
            s.cache_hits == self.cache_hits,
            s.cache_misses == self.cache_misses,
            s.cache_http_calls == self.cache_http_calls,
            s.voice_packets_received == self.voice_packets_received,
            s.voice_packets_processed == self.voice_packets_processed,
            s.memory_allocations == self.memory_allocations,
    {
        let avg: u64 = if self.audio_processing_count > 0 {
            self.audio_processing_time_total / self.audio_processing_count
        } else {
            0
        };
        MetricsSnapshot {
            audio_processing_avg_micros: avg,
            audio_processing_max_micros: self.audio_processing_max_time,
            audio_processing_count: self.audio_processing_count,
            buffer_pool_gets: self.buffer_pool_gets,
            buffer_pool_hits: self.buffer_pool_hits,
            buffer_pool_creates: self.buffer_pool_creates,
            cache_hits: self.cache_hits,
            cache_misses: self.cache_misses,
            cache_http_calls: self.cache_http_calls,
            voice_packets_received: self.voice_packets_received,
            voice_packets_processed: self.voice_packets_processed,
            memory_allocations: self.memory_allocations,
        }
    }
}

/// Raw counter snapshot; hit and miss ratios are quotients of these
/// counts and are left to the caller.
pub struct MetricsSnapshot {
    pub audio_processing_avg_micros: u64,
    pub audio_processing_max_micros: u64,
    pub audio_processing_count: u64,
    pub buffer_pool_gets: u64,
    pub buffer_pool_hits: u64,
    pub buffer_pool_creates: u64,
    pub cache_hits: u64,
    pub cache_misses: u64,
    pub cache_http_calls: u64,
    pub voice_packets_received: u64,
    pub voice_packets_processed: u64,
    pub memory_allocations: u64,
}

#[verifier::external_type_specification]
#[verifier::external_body]
pub struct ExInstant(std::time::Instant);

/// Relies on `std::time::Instant::now`: an opaque monotonic timestamp;
/// nothing is assumed of its value.
#[verifier::external_body]
fn instant_now() -> std::time::Instant {
    std::time::Instant::now()
}

/// Relies on `std::time::Instant::elapsed`: the time since `start`;
/// nothing is assumed of its value.
#[verifier::external_body]
fn instant_elapsed(start: &std::time::Instant) -> std::time::Duration {
    start.elapsed()
}

/// Relies on `std::time::Duration::as_micros`: the duration in whole
/// microseconds; nothing is assumed of its value.
#[verifier::external_body]
fn duration_micros(d: &std::time::Duration) -> u64 {
    d.as_micros() as u64
}

/// Measures one audio-processing span against the process clock.
pub struct AudioProcessingTimer {
    start: std::time::Instant,
}

impl AudioProcessingTimer {
    pub fn start() -> Self {
        AudioProcessingTimer { start: instant_now() }
    }

    /// Microseconds since the timer was started; the clock's answer is
    /// not modelled, so nothing is promised of the value.
    pub fn elapsed_micros(&self) -> u64 {
        let d = instant_elapsed(&self.start);
        duration_micros(&d)
    }
}

} // verus!
