//! Ingestion-side event handling and client session state.

use voice_relay::client::{Pub, Sub, VC};
use voice_relay::gain::GainTable;
use voice_relay::ingest::{Receiver, SpeakingData, VoiceEvent};
use voice_relay::types::{JoinInfo, PubIdentify, SendEnum, VoiceUserEvent};

fn speaking(ssrc: u32, pcm: Option<Vec<i16>>) -> SpeakingData {
    SpeakingData { ssrc, decoded_voice: pcm }
}

#[test]
fn speaking_state_update_maps_ssrc_and_reports_join() {
    let mut r = Receiver::new(PubIdentify::Track1);
    let out = r.act(&VoiceEvent::SpeakingStateUpdate { ssrc: 11, user_id: Some(7) }, true);
    assert_eq!(out.len(), 1);
    match &out[0] {
        SendEnum::UserData(info) => {
            assert_eq!(info.user_id, 7);
            assert_eq!(info.event, VoiceUserEvent::Join);
            assert_eq!(info.identify, PubIdentify::Track1);
        }
        SendEnum::VoiceData(_) => panic!("expected a membership event"),
    }
    let none = r.act(&VoiceEvent::SpeakingStateUpdate { ssrc: 12, user_id: None }, true);
    assert!(none.is_empty());
}

#[test]
fn tick_forwards_mapped_speakers_audio_in_order() {
    let mut r = Receiver::new(PubIdentify::Track1);
    r.act(&VoiceEvent::SpeakingStateUpdate { ssrc: 11, user_id: Some(7) }, true);
    r.act(&VoiceEvent::SpeakingStateUpdate { ssrc: 12, user_id: Some(8) }, true);
    let tick = VoiceEvent::VoiceTick {
        speaking: vec![
            speaking(11, Some(vec![1, 2, 3])),
            speaking(12, None),
            speaking(11, Some(vec![4, 5])),
        ],
    };
    let out = r.act(&tick, true);
    assert_eq!(out.len(), 2);
    match &out[0] {
        SendEnum::VoiceData(v) => {
            assert_eq!(v.user_id, 7);
            assert_eq!(v.voice_data, vec![1, 2, 3]);
        }
        SendEnum::UserData(_) => panic!("expected audio"),
    }
    match &out[1] {
        SendEnum::VoiceData(v) => {
            assert_eq!(v.user_id, 7);
            assert_eq!(v.voice_data, vec![4, 5]);
        }
        SendEnum::UserData(_) => panic!("expected audio"),
    }
}

#[test]
fn tick_is_silent_while_not_listening() {
    let mut r = Receiver::new(PubIdentify::Track1);
    r.act(&VoiceEvent::SpeakingStateUpdate { ssrc: 11, user_id: Some(7) }, true);
    let tick = VoiceEvent::VoiceTick { speaking: vec![speaking(11, Some(vec![1, 2]))] };
    let out = r.act(&tick, false);
    assert!(out.is_empty());
}

#[test]
fn unknown_ssrc_stops_the_tick() {
    let mut r = Receiver::new(PubIdentify::Track1);
    r.act(&VoiceEvent::SpeakingStateUpdate { ssrc: 11, user_id: Some(7) }, true);
    let tick = VoiceEvent::VoiceTick {
        speaking: vec![
            speaking(99, Some(vec![9, 9])),
            speaking(11, Some(vec![1])),
        ],
    };
    let out = r.act(&tick, true);
    assert!(out.is_empty(), "an unmapped stream aborts the whole tick");
}

#[test]
fn disconnect_reports_leave() {
    let mut r = Receiver::new(PubIdentify::Track2);
    let out = r.act(&VoiceEvent::ClientDisconnect { user_id: 7 }, false);
    assert_eq!(out.len(), 1);
    match &out[0] {
        SendEnum::UserData(info) => {
            assert_eq!(info.user_id, 7);
            assert_eq!(info.event, VoiceUserEvent::Leave);
            assert_eq!(info.identify, PubIdentify::Track2);
        }
        SendEnum::VoiceData(_) => panic!("expected a membership event"),
    }
}

#[test]
fn packet_events_carry_no_relay_action() {
    let mut r = Receiver::new(PubIdentify::Track1);
    assert!(r.act(&VoiceEvent::RtpPacket, true).is_empty());
    assert!(r.act(&VoiceEvent::RtcpPacket, true).is_empty());
}

#[test]
fn listening_toggle_reaches_the_named_source() {
    let mut vc = VC::new(42);
    assert!(!vc.dis_pub.is_listening());
    vc.update_is_listening(PubIdentify::Track1, true);
    assert!(vc.dis_pub.is_listening());
    assert!(!vc.dis_pub2.is_listening());
    vc.update_is_listening(PubIdentify::Track2, true);
    assert!(vc.dis_pub2.is_listening());
    vc.update_is_listening(PubIdentify::Track1, false);
    assert!(!vc.dis_pub.is_listening());
}

#[test]
fn volume_update_goes_to_the_gain_table() {
    let vc = VC::new(42);
    let mut gains = GainTable::new();
    vc.update_volume(&mut gains, 7, 1.5f32.to_bits());
    assert_eq!(gains.get(7), 1.5f32.to_bits());
}

#[test]
fn pub_state_tracks_name_and_identity() {
    let mut p = Pub::new(PubIdentify::Track2);
    assert_eq!(p.user_name, "");
    p.set_user_name("speaker-two".to_string());
    assert_eq!(p.user_name, "speaker-two");
    assert_eq!(p.identify, PubIdentify::Track2);
    let _s = Sub::new();
}

#[test]
fn join_info_default_is_the_placeholder_channel() {
    let j = JoinInfo::default();
    assert_eq!(j.guild_id, 1);
    assert_eq!(j.channel_id, 1);
}
