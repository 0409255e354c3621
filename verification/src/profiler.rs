//! Delivery-side profiling: packet counts, recent processing times and
//! queue depths, and a bounded-rate report trigger.
//!
//! Rates and averages are quotients over what is recorded here; the
//! presentation layer computes and emits them, at most once per report
//! interval as decided by [`VoiceProfiler::record_packet`].

use vstd::prelude::*;

use crate::metrics::{bump, bump_by};

verus! {

/// How many recent observations the rolling windows keep.
pub const RECENT_WINDOW: usize = 1000;

/// A queue deeper than this counts as a congestion event.
pub const CONGESTION_THRESHOLD: usize = 10;

/// One packet's delivery observation.
#[derive(Clone, Copy, Debug, PartialEq, Eq, Structural)]
pub struct DataMetrics {
    /// Milliseconds since the profiler started.
    pub timestamp: u64,
    /// Converted payload size in bytes.
    pub data_size: usize,
    /// Depth of the delivery queue when the packet was taken up.
    pub queue_length: usize,
    /// How long the hand-off took, in microseconds.
    pub processing_time_micros: u64,
}

/// A rolling window after one more observation: the new value enters at
/// the back and the oldest leaves once the window is full.
pub open spec fn window_push<T>(w: Seq<T>, v: T) -> Seq<T> {
    let pushed = w.push(v);
    if pushed.len() > RECENT_WINDOW {
        pushed.drop_first()
    } else {
        pushed
    }
}

/// Whether a report is due at `now`, the previous one having been
/// emitted at `last`.
pub open spec fn report_due(last: u64, now: u64, interval: u64) -> bool {
    now >= last && now - last >= interval
}

/// Both rolling windows within their bound.
pub open spec fn profiler_wf(p: VoiceProfiler) -> bool {
    p.times().len() <= RECENT_WINDOW && p.queues().len() <= RECENT_WINDOW
}

/// Observer of the converted-audio hand-off to the playback sink.
pub struct VoiceProfiler {
    pub packets_sent: u64,
    pub total_bytes_sent: u64,
    pub processing_times: std::collections::VecDeque<u64>,
    pub queue_lengths: std::collections::VecDeque<usize>,
    pub max_queue_length: usize,
    pub queue_full_events: u64,
    pub start_micros: u64,
    pub last_report_micros: u64,
    pub report_interval_micros: u64,
}

impl VoiceProfiler {
    /// The last up-to-[`RECENT_WINDOW`] processing times, oldest first.
    pub closed spec fn times(&self) -> Seq<u64> {
        self.processing_times@
    }

    /// The last up-to-[`RECENT_WINDOW`] queue depths, oldest first.
    pub closed spec fn queues(&self) -> Seq<usize> {
        self.queue_lengths@
    }

    pub fn new(report_interval_micros: u64, now_micros: u64) -> (p: VoiceProfiler)
        ensures
            p.packets_sent == 0,
            p.total_bytes_sent == 0,
            p.times() == Seq::<u64>::empty(),
            p.queues() == Seq::<usize>::empty(),
            p.max_queue_length == 0,
            p.queue_full_events == 0,
            p.start_micros == now_micros,
            p.last_report_micros == now_micros,
            p.report_interval_micros == report_interval_micros,
            profiler_wf(p),
    {
        VoiceProfiler {
            packets_sent: 0,
            total_bytes_sent: 0,
            processing_times: std::collections::VecDeque::with_capacity(RECENT_WINDOW),
            queue_lengths: std::collections::VecDeque::with_capacity(RECENT_WINDOW),
            max_queue_length: 0,
            queue_full_events: 0,
            start_micros: now_micros,
            last_report_micros: now_micros,
            report_interval_micros,
        }
    }

    /// Folds one delivered packet into the counters and windows, and says
    /// whether a report is due now — at most once per report interval.
    pub fn record_packet(
        &mut self,
        data_size: usize,
        queue_length: usize,
        processing_micros: u64,
        now_micros: u64,
    ) -> (r: (DataMetrics, bool))
        requires
            profiler_wf(*old(self)),
        ensures
            profiler_wf(*final(self)),
            final(self).packets_sent == bump(old(self).packets_sent),
            final(self).total_bytes_sent == bump_by(old(self).total_bytes_sent, data_size as u64),
            final(self).times() == window_push(old(self).times(), processing_micros),
            final(self).queues() == window_push(old(self).queues(), queue_length),
            final(self).max_queue_length == if queue_length > old(self).max_queue_length {
                queue_length
            } else {
                old(self).max_queue_length
            },
            final(self).queue_full_events == if queue_length > CONGESTION_THRESHOLD {
                bump(old(self).queue_full_events)
            } else {
                old(self).queue_full_events
            },
            final(self).start_micros == old(self).start_micros,
            final(self).report_interval_micros == old(self).report_interval_micros,
            r.1 == report_due(
                old(self).last_report_micros,
                now_micros,
                old(self).report_interval_micros,
            ),
            final(self).last_report_micros == if r.1 {
                now_micros
            } else {
                old(self).last_report_micros
            },
            r.0.data_size == data_size,
            r.0.queue_length == queue_length,
            r.0.processing_time_micros == processing_micros,
            r.0.timestamp == if now_micros >= old(self).start_micros {
                ((now_micros - old(self).start_micros) / 1000) as u64
            } else {
                0u64
            },
    {
        self.packets_sent = self.packets_sent.wrapping_add(1);
        self.total_bytes_sent = self.total_bytes_sent.wrapping_add(data_size as u64);

        self.processing_times.push_back(processing_micros);
        if self.processing_times.len() > RECENT_WINDOW {
            self.processing_times.pop_front();
        }
        self.queue_lengths.push_back(queue_length);
        if self.queue_lengths.len() > RECENT_WINDOW {
            self.queue_lengths.pop_front();
        }

        if queue_length > self.max_queue_length {
            self.max_queue_length = queue_length;
        }
        if queue_length > CONGESTION_THRESHOLD {
            self.queue_full_events = self.queue_full_events.wrapping_add(1);
        }

        let timestamp: u64 = if now_micros >= self.start_micros {
            (now_micros - self.start_micros) / 1000
        } else {
            0
        };
        let data = DataMetrics {
            timestamp,
            data_size,
            queue_length,
            processing_time_micros: processing_micros,
        };

        let due: bool = now_micros >= self.last_report_micros && now_micros
            - self.last_report_micros >= self.report_interval_micros;
        if due {
            self.last_report_micros = now_micros;
        }
        (data, due)
    }

    /// The recent processing times, oldest first, for the presentation
    /// layer's averages.
    pub fn recent_processing_times(&self) -> (r: &std::collections::VecDeque<u64>)
        ensures
            r@ == self.times(),
    {
        &self.processing_times
    }

    /// The recent queue depths, oldest first.
    pub fn recent_queue_lengths(&self) -> (r: &std::collections::VecDeque<usize>)
        ensures
            r@ == self.queues(),
    {
        &self.queue_lengths
    }
}

} // verus!
