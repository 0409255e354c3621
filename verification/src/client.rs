//! Client-side session state for the two speaking sources and the
//! listening sink.
//!
//! The network clients themselves — gateway connections, joining and
//! leaving calls — belong to the protocol collaborator; what lives here
//! is the state the relay logic reads: which source is which, what the
//! source's account is called, and whether it is currently listening.

use vstd::prelude::*;

use crate::gain::GainTable;
use crate::types::PubIdentify;

verus! {

/// One speaking source's session state.
pub struct Pub {
    pub user_name: String,
    pub identify: PubIdentify,
    pub listening: bool,
}

impl Pub {
    pub fn new(identify: PubIdentify) -> (r: Pub)
        ensures
            r.user_name@ == Seq::<char>::empty(),
            r.identify == identify,
            !r.listening,
    {
        Pub { user_name: String::new(), identify, listening: false }
    }

    /// Records the account name this source is connected as; the
    /// protocol collaborator learns it when the client comes up.
    pub fn set_user_name(&mut self, name: String)
        ensures
            *final(self) == (Pub { user_name: name, ..*old(self) }),
    {
        self.user_name = name;
    }

    /// Turns forwarding of this source's audio on or off.
    pub fn set_is_listening(&mut self, is_listening: bool)
        ensures
            *final(self) == (Pub { listening: is_listening, ..*old(self) }),
    {
        self.listening = is_listening;
    }

    pub fn is_listening(&self) -> (b: bool)
        ensures
            b == self.listening,
    {
        self.listening
    }
}

/// The listening sink's session state. The sink consumes converted audio
/// but holds no relay-visible state of its own.
pub struct Sub {}

impl Sub {
    pub fn new() -> Sub {
        Sub {  }
    }
}

/// The session root: both speaking sources, the sink, and the guild the
/// session belongs to.
pub struct VC {
    pub guild_id: u64,
    pub dis_pub: Pub,
    pub dis_pub2: Pub,
    pub dis_sub: Sub,
}

impl VC {
    pub fn new(guild_id: u64) -> (r: VC)
        ensures
            r.guild_id == guild_id,
            r.dis_pub.identify == PubIdentify::Track1,
            !r.dis_pub.listening,
            r.dis_pub2.identify == PubIdentify::Track2,
            !r.dis_pub2.listening,
    {
        VC {
            guild_id,
            dis_pub: Pub::new(PubIdentify::Track1),
            dis_pub2: Pub::new(PubIdentify::Track2),
            dis_sub: Sub::new(),
        }
    }

    /// Routes a listening toggle to the source it names.
    pub fn update_is_listening(&mut self, identify: PubIdentify, is_listening: bool)
        ensures
            final(self).guild_id == old(self).guild_id,
            identify is Track1 ==> final(self).dis_pub == (Pub {
                listening: is_listening,
                ..old(self).dis_pub
            }) && final(self).dis_pub2 == old(self).dis_pub2,
            identify is Track2 ==> final(self).dis_pub2 == (Pub {
                listening: is_listening,
                ..old(self).dis_pub2
            }) && final(self).dis_pub == old(self).dis_pub,
    {
        match identify {
            PubIdentify::Track1 => self.dis_pub.set_is_listening(is_listening),
            PubIdentify::Track2 => self.dis_pub2.set_is_listening(is_listening),
        }
    }

    /// The control surface's gain edit: an unconditional upsert, safe at
    /// any time, also before the speaker has produced audio.
    pub fn update_volume(&self, gains: &mut GainTable, user_id: u64, volume_bits: u32)
        ensures
            final(gains)@ == old(gains)@.insert(user_id, volume_bits),
    {
        gains.set(user_id, volume_bits);
    }
}

} // verus!
