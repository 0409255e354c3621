//! Event and identity types flowing through the relay.
//!
//! Speakers, guilds and channels are identified by plain 64-bit keys;
//! their lifecycles are owned by the protocol collaborator.

use vstd::prelude::*;

verus! {

/// Which of the concurrent audio sources an event came from. For
/// attribution only: it never gates processing.
#[derive(Clone, Copy, Debug, PartialEq, Eq, Structural)]
pub enum PubIdentify {
    Track1,
    Track2,
}

/// What a membership event reports: a participant joining or leaving.
#[derive(Clone, Copy, Debug, PartialEq, Eq, Structural)]
pub enum VoiceUserEvent {
    Join,
    Leave,
}

/// A membership event: which speaker, what happened, which source saw it.
#[derive(Clone, Copy, Debug, PartialEq, Eq, Structural)]
pub struct UserInfo {
    pub user_id: u64,
    pub event: VoiceUserEvent,
    pub identify: PubIdentify,
}

/// One audio frame: a speaker's 16-bit PCM samples.
pub struct VoiceType {
    pub user_id: u64,
    pub voice_data: Vec<i16>,
}

impl VoiceType {
    pub fn new(user_id: u64, voice_data: Vec<i16>) -> (r: VoiceType)
        ensures
            r.user_id == user_id,
            r.voice_data == voice_data,
    {
        VoiceType { user_id, voice_data }
    }
}

/// A tagged event on the relay's inbound queue: membership or audio.
pub enum SendEnum {
    UserData(UserInfo),
    VoiceData(VoiceType),
}

/// Where a session takes place: a guild and a voice channel in it.
#[derive(Clone, Copy, Debug, PartialEq, Eq, Structural)]
pub struct JoinInfo {
    pub guild_id: u64,
    pub channel_id: u64,
}

impl Default for JoinInfo {
    fn default() -> (r: JoinInfo)
        ensures
            r.guild_id == 1,
            r.channel_id == 1,
    {
        JoinInfo { guild_id: 1, channel_id: 1 }
    }
}

/// The notification record emitted to the user interface on every
/// membership event: the speaker, what happened, which source saw it,
/// and the resolved-or-fallback display name.
pub struct EmitData {
    pub user_id: u64,
    pub event: VoiceUserEvent,
    pub identify: PubIdentify,
    pub name: String,
}

impl EmitData {
    pub fn new(user_info: UserInfo, name: String) -> (r: EmitData)
        ensures
            r.user_id == user_info.user_id,
            r.event == user_info.event,
            r.identify == user_info.identify,
            r.name == name,
    {
        let UserInfo { user_id, event, identify } = user_info;
        EmitData { user_id, event, identify, name }
    }
}

} // verus!
