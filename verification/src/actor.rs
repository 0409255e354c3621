//! The relay actor: single consumer of the inbound event queue.
//!
//! Each method is one per-event decision of the actor's main loop.
//! Suspension — waiting for the next event, the deadline-bounded
//! downstream send, the deadline-bounded name lookup — belongs to the
//! async shell that drives the loop; that shell performs the waits and
//! hands their outcomes to these verified steps.

use vstd::prelude::*;

use crate::convert::{converted_bytes, convert_voice_data};
use crate::gain::{gain_for, GainTable};
use crate::metrics::{all_zero, bump, AudioProcessingTimer, PerformanceMetrics};
use crate::monitor::{warn_due, BackpressureMonitor};
use crate::pool::{acquire_transition, has_fit, BufferPool, PooledBuffer};
use crate::resolver::{
    cache_promote_model, cache_put_model, fallback_chars, has_key, key_index, LookupOutcome,
    NameResolver,
};
use crate::types::{EmitData, UserInfo, VoiceType, VoiceUserEvent};

verus! {

/// Why the actor's loop is still running, or why it ended. A permanently
/// closed downstream queue is terminal but not a crash: the loop reports
/// it and ends cleanly.
#[derive(Clone, Copy, Debug, PartialEq, Eq, Structural)]
pub enum RelayStatus {
    Running,
    DownstreamClosed,
}

/// The actor's owned state. The gain table is deliberately not a field:
/// it is the one piece of state shared with the control surface, so the
/// owner passes it in per call under its own synchronization.
pub struct RelayActor {
    pub pool: BufferPool,
    pub resolver: NameResolver,
    pub monitor: BackpressureMonitor,
    pub metrics: PerformanceMetrics,
    pub status: RelayStatus,
}

impl RelayActor {
    pub fn new(cache_capacity: usize, warn_interval_micros: u64) -> (a: RelayActor)
        requires
            1 <= cache_capacity,
        ensures
            a.pool.caps() == Seq::<usize>::empty(),
            a.resolver.entries() == Seq::<(u64, Seq<char>)>::empty(),
            a.resolver.capacity() == cache_capacity,
            a.monitor.interval_micros == warn_interval_micros,
            a.monitor.last_warning_micros is None,
            all_zero(a.metrics),
            a.status == RelayStatus::Running,
    {
        RelayActor {
            pool: BufferPool::new(),
            resolver: NameResolver::new(cache_capacity),
            monitor: BackpressureMonitor::new(warn_interval_micros),
            metrics: PerformanceMetrics::new(),
            status: RelayStatus::Running,
        }
    }

    /// First half of membership handling: the cached name, if any. On a
    /// Join the entry is promoted to most recently used, as a resolution
    /// does; on a Leave the cache is only read, never reordered — a Leave
    /// mutates neither the gain table nor the cache. A hit or miss is
    /// counted either way. On `None` for a Join, the caller dispatches
    /// the external lookup and hands its outcome to
    /// [`Self::on_membership_fetched`]; on `None` for a Leave it falls
    /// back to the synthesized name without dispatching anything.
    pub fn membership_lookup(&mut self, info: &UserInfo) -> (r: Option<String>)
        ensures
            final(self).pool == old(self).pool,
            final(self).monitor == old(self).monitor,
            final(self).status == old(self).status,
            final(self).resolver.capacity() == old(self).resolver.capacity(),
            has_key(old(self).resolver.entries(), info.user_id) ==> r is Some && r->Some_0@ == old(self).resolver.entries()[key_index(old(self).resolver.entries(), info.user_id)].1 && final(self).resolver.entries() == (if info.event is Join {
                cache_promote_model(old(self).resolver.entries(), info.user_id)
            } else {
                old(self).resolver.entries()
            }) && final(self).metrics == (PerformanceMetrics {
                cache_hits: bump(old(self).metrics.cache_hits),
                ..old(self).metrics
            }),
            !has_key(old(self).resolver.entries(), info.user_id) ==> r is None && final(self).resolver.entries() == old(self).resolver.entries() && final(self).metrics
                == (PerformanceMetrics {
                cache_misses: bump(old(self).metrics.cache_misses),
                ..old(self).metrics
            }),
    {
        let r = match info.event {
            VoiceUserEvent::Join => self.resolver.lookup_cached(info.user_id),
            VoiceUserEvent::Leave => self.resolver.peek_cached(info.user_id),
        };
        if r.is_some() {
            self.metrics.record_cache_hit();
        } else {
            self.metrics.record_cache_miss();
        }
        r
    }

    /// Membership handling when the name was already cached: emits the
    /// notification record and, on a Join, makes sure a default gain
    /// entry exists. A Leave mutates nothing.
    pub fn on_membership_named(&mut self, gains: &mut GainTable, info: UserInfo, name: String) -> (r:
        EmitData)
        ensures
            *final(self) == *old(self),
            r.user_id == info.user_id,
            r.event == info.event,
            r.identify == info.identify,
            r.name == name,
            final(gains)@ == if info.event is Join && !old(gains)@.contains_key(info.user_id) {
                old(gains)@.insert(info.user_id, crate::gain::GAIN_UNITY_BITS)
            } else {
                old(gains)@
            },
    {
        if matches!(info.event, VoiceUserEvent::Join) {
            gains.init_default_if_absent(info.user_id);
        }
        EmitData::new(info, name)
    }

    /// Membership handling when a Join missed the cache: the external
    /// lookup's outcome decides the name (resolved, or the synthesized
    /// fallback), the lookup is counted, a resolved name is cached, and a
    /// default gain entry is made sure of. Only a Join dispatches a
    /// lookup — a Leave never reaches this step, so nothing here can
    /// mutate the cache on a Leave.
    pub fn on_membership_fetched(
        &mut self,
        gains: &mut GainTable,
        info: UserInfo,
        outcome: LookupOutcome,
    ) -> (r: EmitData)
        requires
            info.event is Join,
        ensures
            final(self).pool == old(self).pool,
            final(self).monitor == old(self).monitor,
            final(self).status == old(self).status,
            final(self).resolver.capacity() == old(self).resolver.capacity(),
            final(self).metrics == (PerformanceMetrics {
                cache_http_calls: bump(old(self).metrics.cache_http_calls),
                ..old(self).metrics
            }),
            r.user_id == info.user_id,
            r.event == info.event,
            r.identify == info.identify,
            outcome matches LookupOutcome::Resolved(n) ==> r.name@ == n@ && final(self).resolver.entries() == cache_put_model(
                old(self).resolver.entries(),
                old(self).resolver.capacity(),
                info.user_id,
                n@,
            ),
            !(outcome is Resolved) ==> r.name@ == fallback_chars(info.user_id) && final(self).resolver.entries() == old(self).resolver.entries(),
            final(gains)@ == if info.event is Join && !old(gains)@.contains_key(info.user_id) {
                old(gains)@.insert(info.user_id, crate::gain::GAIN_UNITY_BITS)
            } else {
                old(gains)@
            },
    {
        self.metrics.record_http_call();
        let name = self.resolver.complete(info.user_id, outcome);
        if matches!(info.event, VoiceUserEvent::Join) {
            gains.init_default_if_absent(info.user_id);
        }
        EmitData::new(info, name)
    }

    /// One audio frame: looks up the speaker's gain (absent means unity,
    /// never an error), borrows a pooled buffer sized for four bytes per
    /// sample, and converts the samples into it. The caller then attempts
    /// the deadline-bounded downstream hand-off and reports back via
    /// [`Self::on_delivered`] or [`Self::on_delivery_timeout`].
    pub fn on_audio(&mut self, gains: &GainTable, frame: &VoiceType) -> (r: PooledBuffer)
        requires
            frame.voice_data@.len() * 4 <= usize::MAX,
        ensures
            r.data@ == converted_bytes(frame.voice_data@, gain_for(gains@, frame.user_id)),
            r.cap >= frame.voice_data@.len() * 4,
            (final(self).metrics.buffer_pool_hits != old(self).metrics.buffer_pool_hits)
                == has_fit(old(self).pool.caps(), (frame.voice_data@.len() * 4) as usize),
            acquire_transition(
                old(self).pool.caps(),
                final(self).pool.caps(),
                r.cap,
                (final(self).metrics.buffer_pool_hits != old(self).metrics.buffer_pool_hits),
                (frame.voice_data@.len() * 4) as usize,
            ),
            final(self).resolver == old(self).resolver,
            final(self).monitor == old(self).monitor,
            final(self).status == old(self).status,
            final(self).metrics.voice_packets_received == bump(
                old(self).metrics.voice_packets_received,
            ),
            final(self).metrics.buffer_pool_gets == bump(old(self).metrics.buffer_pool_gets),
            final(self).metrics.audio_processing_count == bump(
                old(self).metrics.audio_processing_count,
            ),
            final(self).metrics.cache_hits == old(self).metrics.cache_hits,
            final(self).metrics.cache_misses == old(self).metrics.cache_misses,
            final(self).metrics.voice_packets_processed == old(self).metrics.voice_packets_processed,
    {
        self.metrics.record_voice_packet_received();
        let gain_bits = gains.get(frame.user_id);
        let timer = AudioProcessingTimer::start();
        let (buf, reused) = convert_voice_data(&mut self.pool, &frame.voice_data, gain_bits);
        self.metrics.record_buffer_pool_get(reused);
        let elapsed = timer.elapsed_micros();
        self.metrics.record_audio_processing_time(elapsed);
        buf
    }

    /// The downstream hand-off succeeded: the buffer's ownership moved to
    /// the downstream reader, so only the packet is counted here.
    pub fn on_delivered(&mut self)
        ensures
            *final(self) == (RelayActor {
                metrics: PerformanceMetrics {
                    voice_packets_processed: bump(old(self).metrics.voice_packets_processed),
                    ..old(self).metrics
                },
                ..*old(self)
            }),
    {
        self.metrics.record_voice_packet_processed();
    }

    /// The downstream hand-off missed its deadline: the frame is dropped
    /// (never retried), the buffer goes back to the pool, and the
    /// congestion pulse may — rate-limited — emit one warning.
    pub fn on_delivery_timeout(&mut self, buffer: PooledBuffer, now_micros: u64) -> (warn: bool)
        ensures
            final(self).resolver == old(self).resolver,
            final(self).status == old(self).status,
            final(self).pool.caps() == if buffer.cap > 0 && old(self).pool.caps().len()
                < crate::pool::MAX_POOLED_BUFFERS {
                old(self).pool.caps().push(buffer.cap)
            } else {
                old(self).pool.caps()
            },
            warn == warn_due(
                old(self).monitor.last_warning_micros,
                now_micros,
                old(self).monitor.interval_micros,
            ),
            final(self).monitor.interval_micros == old(self).monitor.interval_micros,
            final(self).monitor.last_warning_micros == if warn {
                Option::Some(now_micros)
            } else {
                old(self).monitor.last_warning_micros
            },
            final(self).metrics == (PerformanceMetrics {
                buffer_pool_returns: if buffer.cap > 0 && old(self).pool.caps().len()
                    < crate::pool::MAX_POOLED_BUFFERS {
                    bump(old(self).metrics.buffer_pool_returns)
                } else {
                    old(self).metrics.buffer_pool_returns
                },
                ..old(self).metrics
            }),
    {
        let kept = self.pool.release(buffer);
        if kept {
            self.metrics.record_buffer_pool_return();
        }
        self.monitor.note_congested(now_micros)
    }

    /// The downstream queue is permanently closed: terminal for audio
    /// delivery, reported as a clean shutdown status, never a crash.
    pub fn on_downstream_closed(&mut self)
        ensures
            *final(self) == (RelayActor { status: RelayStatus::DownstreamClosed, ..*old(self) }),
    {
        self.status = RelayStatus::DownstreamClosed;
    }
}

} // verus!
