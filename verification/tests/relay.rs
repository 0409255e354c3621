//! End-to-end actor scenarios, driven synchronously: the test plays the
//! role of the async shell, handing the actor events and delivery
//! outcomes.

use voice_relay::actor::{RelayActor, RelayStatus};
use voice_relay::gain::GainTable;
use voice_relay::resolver::{fallback_name, LookupOutcome};
use voice_relay::types::{PubIdentify, UserInfo, VoiceType, VoiceUserEvent};

fn decode_floats(bytes: &[u8]) -> Vec<f32> {
    let mut out = Vec::new();
    let mut i = 0;
    while i < bytes.len() {
        let w = u32::from_le_bytes([bytes[i], bytes[i + 1], bytes[i + 2], bytes[i + 3]]);
        out.push(f32::from_bits(w));
        i += 4;
    }
    out
}

fn join_event(speaker: u64) -> UserInfo {
    UserInfo { user_id: speaker, event: VoiceUserEvent::Join, identify: PubIdentify::Track1 }
}

fn leave_event(speaker: u64) -> UserInfo {
    UserInfo { user_id: speaker, event: VoiceUserEvent::Leave, identify: PubIdentify::Track1 }
}

#[test]
fn join_then_audio_with_default_gain() {
    let mut actor = RelayActor::new(16, 5_000_000);
    let mut gains = GainTable::new();

    // Membership: speaker 7 joins; the resolver worker answers.
    assert!(actor.membership_lookup(&join_event(7)).is_none());
    let emit = actor.on_membership_fetched(
        &mut gains,
        join_event(7),
        LookupOutcome::Resolved("seven".to_string()),
    );
    assert_eq!(emit.user_id, 7);
    assert_eq!(emit.event, VoiceUserEvent::Join);
    assert_eq!(emit.name, "seven");
    assert_eq!(gains.get(7), 1.0f32.to_bits());

    // Audio: three samples at default gain.
    let frame = VoiceType::new(7, vec![0, 16384, -16384]);
    let buf = actor.on_audio(&gains, &frame);
    assert_eq!(buf.data.len(), 12);
    assert_eq!(decode_floats(&buf.data), vec![0.0f32, 0.5, -0.5]);
    actor.on_delivered();
    assert_eq!(actor.metrics.voice_packets_received, 1);
    assert_eq!(actor.metrics.voice_packets_processed, 1);
    assert_eq!(actor.status, RelayStatus::Running);
}

#[test]
fn zero_gain_silences_the_frame() {
    let mut actor = RelayActor::new(16, 5_000_000);
    let mut gains = GainTable::new();
    gains.set(7, 0.0f32.to_bits());
    let frame = VoiceType::new(7, vec![0, 16384, -16384]);
    let buf = actor.on_audio(&gains, &frame);
    let floats = decode_floats(&buf.data);
    assert_eq!(floats.len(), 3);
    for v in floats {
        assert_eq!(v, 0.0);
    }
}

#[test]
fn congested_downstream_drops_frames_and_warns_once() {
    let mut actor = RelayActor::new(16, 5_000_000);
    let mut gains = GainTable::new();
    gains.set(9, 1.0f32.to_bits());
    let mut warnings = 0;
    for i in 0..1000u64 {
        let frame = VoiceType::new(9, vec![100, -100]);
        let buf = actor.on_audio(&gains, &frame);
        // The downstream queue stays at zero free capacity past the
        // deadline: every frame is dropped and its buffer returned.
        if actor.on_delivery_timeout(buf, 50 + i) {
            warnings += 1;
        }
    }
    assert_eq!(warnings, 1, "rate limit allows exactly one warning in the window");
    assert_eq!(actor.metrics.voice_packets_received, 1000);
    assert_eq!(actor.metrics.voice_packets_processed, 0);
    assert_eq!(actor.status, RelayStatus::Running);
}

#[test]
fn unresponsive_resolver_worker_falls_back() {
    let mut actor = RelayActor::new(16, 5_000_000);
    let mut gains = GainTable::new();
    assert!(actor.membership_lookup(&join_event(7)).is_none());
    let emit = actor.on_membership_fetched(&mut gains, join_event(7), LookupOutcome::TimedOut);
    assert_eq!(emit.name, "User#7");
    // The abandoned request is not cached, so a later join retries.
    assert!(actor.membership_lookup(&join_event(7)).is_none());
}

#[test]
fn leave_emits_notification_without_touching_gain_or_cache() {
    let mut actor = RelayActor::new(16, 5_000_000);
    let mut gains = GainTable::new();
    let info = UserInfo { user_id: 4, event: VoiceUserEvent::Leave, identify: PubIdentify::Track2 };
    // A Leave with no cached name: fallback, no external dispatch, and
    // nothing is cached for the next event.
    assert!(actor.membership_lookup(&info).is_none());
    let emit = actor.on_membership_named(&mut gains, info, fallback_name(info.user_id));
    assert_eq!(emit.event, VoiceUserEvent::Leave);
    assert_eq!(emit.identify, PubIdentify::Track2);
    assert_eq!(emit.name, "User#4");
    assert_eq!(actor.metrics.cache_http_calls, 0);
    assert!(actor.membership_lookup(&join_event(4)).is_none());
    // Gain entries stay exactly as they were: no default insert, no
    // overwrite.
    assert!(actor.membership_lookup(&info).is_none());
    actor.on_membership_named(&mut gains, info, "bob".to_string());
    assert_eq!(gains.get(4), 1.0f32.to_bits());
    let mut t = GainTable::new();
    t.set(4, 2.0f32.to_bits());
    actor.on_membership_named(&mut t, info, "bob".to_string());
    assert_eq!(t.get(4), 2.0f32.to_bits());
}

#[test]
fn leave_reads_the_cache_without_promoting() {
    let mut actor = RelayActor::new(2, 5_000_000);
    let mut gains = GainTable::new();
    actor.on_membership_fetched(&mut gains, join_event(1), LookupOutcome::Resolved("a".into()));
    actor.on_membership_fetched(&mut gains, join_event(2), LookupOutcome::Resolved("b".into()));
    // Speaker 1 is now the least recently used. A Leave consults the
    // cache for its notification but must not promote the entry...
    let peeked = actor.membership_lookup(&leave_event(1));
    assert_eq!(peeked.as_deref(), Some("a"));
    // ...so the next new speaker still evicts speaker 1, not speaker 2.
    actor.on_membership_fetched(&mut gains, join_event(3), LookupOutcome::Resolved("c".into()));
    assert!(actor.membership_lookup(&join_event(1)).is_none());
    assert_eq!(actor.membership_lookup(&join_event(2)).as_deref(), Some("b"));
}

#[test]
fn cached_membership_skips_the_external_lookup() {
    let mut actor = RelayActor::new(16, 5_000_000);
    let mut gains = GainTable::new();
    actor.on_membership_fetched(
        &mut gains,
        join_event(3),
        LookupOutcome::Resolved("carol".to_string()),
    );
    let http_calls = actor.metrics.cache_http_calls;
    let cached = actor.membership_lookup(&join_event(3));
    assert_eq!(cached.as_deref(), Some("carol"));
    let emit = actor.on_membership_named(&mut gains, join_event(3), cached.unwrap());
    assert_eq!(emit.name, "carol");
    assert_eq!(actor.metrics.cache_http_calls, http_calls);
    assert_eq!(actor.metrics.cache_hits, 1);
}

#[test]
fn downstream_closure_is_a_clean_terminal_status() {
    let mut actor = RelayActor::new(16, 5_000_000);
    actor.on_downstream_closed();
    assert_eq!(actor.status, RelayStatus::DownstreamClosed);
}

#[test]
fn empty_frame_is_a_no_op_conversion() {
    let mut actor = RelayActor::new(16, 5_000_000);
    let gains = GainTable::new();
    let frame = VoiceType::new(1, Vec::new());
    let buf = actor.on_audio(&gains, &frame);
    assert!(buf.data.is_empty());
}
