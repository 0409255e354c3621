//! Counter and profiler behaviour, with the ratios the original
//! reporting derived from the raw counts.

use voice_relay::metrics::{AudioProcessingTimer, PerformanceMetrics};
use voice_relay::profiler::VoiceProfiler;

#[test]
fn test_buffer_pool_metrics() {
    let mut metrics = PerformanceMetrics::new();

    metrics.record_buffer_pool_get(true); // hit
    metrics.record_buffer_pool_get(false); // miss
    metrics.record_buffer_pool_return();

    let snapshot = metrics.get_snapshot();
    assert_eq!(snapshot.buffer_pool_gets, 2);
    assert_eq!(snapshot.buffer_pool_creates, 1);
    let hit_rate_percent = (snapshot.buffer_pool_hits as f64 / snapshot.buffer_pool_gets as f64) * 100.0;
    assert_eq!(hit_rate_percent, 50.0);
}

#[test]
fn test_cache_metrics() {
    let mut metrics = PerformanceMetrics::new();

    metrics.record_cache_hit();
    metrics.record_cache_hit();
    metrics.record_cache_miss();
    metrics.record_http_call();

    let snapshot = metrics.get_snapshot();
    assert_eq!(snapshot.cache_hits, 2);
    assert_eq!(snapshot.cache_misses, 1);
    assert_eq!(snapshot.cache_http_calls, 1);
    let cache_total = snapshot.cache_hits + snapshot.cache_misses;
    let hit_rate_percent = (snapshot.cache_hits as f64 / cache_total as f64) * 100.0;
    assert!((hit_rate_percent - 66.67).abs() < 0.1);
}

#[test]
fn audio_time_recording_tracks_count_average_and_maximum() {
    let mut metrics = PerformanceMetrics::new();
    metrics.record_audio_processing_time(10);
    metrics.record_audio_processing_time(30);
    let snapshot = metrics.get_snapshot();
    assert_eq!(snapshot.audio_processing_count, 2);
    assert_eq!(snapshot.audio_processing_avg_micros, 20);
    assert_eq!(snapshot.audio_processing_max_micros, 30);
}

#[test]
fn timer_yields_a_measurement() {
    let timer = AudioProcessingTimer::start();
    let mut spin = 0u64;
    for i in 0..10_000u64 {
        spin = spin.wrapping_add(i);
    }
    assert!(spin > 0);
    let mut metrics = PerformanceMetrics::new();
    metrics.record_audio_processing_time(timer.elapsed_micros());
    assert_eq!(metrics.audio_processing_count, 1);
}

#[test]
fn profiler_counts_packets_and_congestion() {
    let mut p = VoiceProfiler::new(5_000_000, 1_000);
    let (data, due) = p.record_packet(3840, 0, 120, 2_000);
    assert!(!due);
    assert_eq!(data.data_size, 3840);
    assert_eq!(data.queue_length, 0);
    assert_eq!(data.processing_time_micros, 120);
    assert_eq!(data.timestamp, 1);
    assert_eq!(p.packets_sent, 1);
    assert_eq!(p.total_bytes_sent, 3840);
    assert_eq!(p.queue_full_events, 0);

    let (_, _) = p.record_packet(3840, 11, 90, 3_000);
    assert_eq!(p.queue_full_events, 1);
    assert_eq!(p.max_queue_length, 11);

    let (data3, due3) = p.record_packet(100, 2, 80, 6_000_000);
    assert!(due3, "a report is due once the interval has passed");
    assert_eq!(data3.timestamp, 5999);
    let (_, due4) = p.record_packet(100, 2, 80, 6_500_000);
    assert!(!due4, "reports are rate-limited to the interval");
}

#[test]
fn profiler_windows_keep_the_last_thousand() {
    let mut p = VoiceProfiler::new(u64::MAX, 0);
    for i in 0..1005u64 {
        let (_, _) = p.record_packet(1, 1, i, 0);
    }
    let times = p.recent_processing_times();
    assert_eq!(times.len(), 1000);
    assert_eq!(*times.front().unwrap(), 5);
    assert_eq!(*times.back().unwrap(), 1004);
}
