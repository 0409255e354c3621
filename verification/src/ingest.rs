//! Ingestion-side event handling for one audio source.
//!
//! The protocol collaborator announces speakers by a per-stream
//! synchronisation source number (SSRC) before their packets arrive; the
//! receiver maintains the SSRC-to-speaker mapping, tracks whether the
//! last tick carried any audio, gates forwarding on the source's
//! listening flag, and turns protocol events into relay events.

use vstd::prelude::*;

use crate::types::{PubIdentify, SendEnum, UserInfo, VoiceType, VoiceUserEvent};

verus! {

broadcast use vstd::std_specs::hash::group_hash_axioms;

/// One speaking participant within a tick: their stream number and, when
/// the protocol layer decoded it, their 16-bit PCM audio for the tick.
pub struct SpeakingData {
    pub ssrc: u32,
    pub decoded_voice: Option<Vec<i16>>,
}

/// A protocol event delivered to one source's receiver, reduced to the
/// plain values the relay logic reads.
#[allow(inconsistent_fields)]
pub enum VoiceEvent {
    /// A speaker was mapped to an SSRC (the mapping may be absent while
    /// the gateway has not told us the speaker yet).
    SpeakingStateUpdate { ssrc: u32, user_id: Option<u64> },
    /// One voice tick: everyone who spoke in it.
    VoiceTick { speaking: Vec<SpeakingData> },
    /// A raw audio packet; carries nothing the relay acts on.
    RtpPacket,
    /// A call-statistics packet; carries nothing the relay acts on.
    RtcpPacket,
    /// A participant left the call.
    ClientDisconnect { user_id: u64 },
}

/// The ghost shape of an outbound relay event, with the audio as a
/// sequence: what [`Receiver::act`]'s contract speaks about.
pub enum SendView {
    User(UserInfo),
    Voice { user_id: u64, pcm: Seq<i16> },
}

/// The ghost shape of one outbound event.
pub open spec fn send_view(s: SendEnum) -> SendView {
    match s {
        SendEnum::UserData(u) => SendView::User(u),
        SendEnum::VoiceData(v) => SendView::Voice { user_id: v.user_id, pcm: v.voice_data@ },
    }
}

/// The audio events one tick produces: for each speaking entry in order,
/// a voice event for the mapped speaker — provided audio was decoded and
/// the source is listening. An entry whose SSRC is not mapped yet stops
/// the whole rest of the tick (the mapping announcement has not arrived,
/// so later entries of the same tick are not attributable either).
pub open spec fn tick_outputs(
    m: Map<u32, u64>,
    entries: Seq<SpeakingData>,
    listening: bool,
) -> Seq<SendView>
    decreases entries.len(),
{
    if entries.len() == 0 {
        Seq::<SendView>::empty()
    } else {
        let e = entries.first();
        if !m.contains_key(e.ssrc) {
            Seq::<SendView>::empty()
        } else {
            (if e.decoded_voice is Some && listening {
                seq![
                    SendView::Voice {
                        user_id: m[e.ssrc],
                        pcm: e.decoded_voice->Some_0@,
                    },
                ]
            } else {
                Seq::<SendView>::empty()
            }) + tick_outputs(m, entries.drop_first(), listening)
        }
    }
}

/// Splitting a tick at a position whose prefix is fully mapped: the
/// outputs are the prefix's outputs followed by the rest's.
pub proof fn lemma_tick_outputs_split(
    m: Map<u32, u64>,
    entries: Seq<SpeakingData>,
    i: int,
    listening: bool,
)
    requires
        0 <= i <= entries.len(),
        forall|j: int| 0 <= j < i ==> m.contains_key(#[trigger] entries[j].ssrc),
    ensures
        tick_outputs(m, entries, listening) == tick_outputs(m, entries.take(i), listening)
            + tick_outputs(m, entries.skip(i), listening),
    decreases i,
{
    if i == 0 {
        assert(entries.take(0int) =~= Seq::<SpeakingData>::empty());
        assert(entries.skip(0int) =~= entries);
    } else {
        let e = entries.first();
        assert(entries.take(i).first() == e);
        assert(entries.take(i).drop_first() =~= entries.drop_first().take(i - 1));
        assert(entries.skip(i) =~= entries.drop_first().skip(i - 1));
        lemma_tick_outputs_split(m, entries.drop_first(), i - 1, listening);
        assert(tick_outputs(m, entries, listening) =~= tick_outputs(
            m,
            entries.take(i),
            listening,
        ) + tick_outputs(m, entries.skip(i), listening));
    }
}

/// Per-source event handler: owns the SSRC mapping and the last-tick
/// emptiness flag, and turns protocol events into relay events.
pub struct Receiver {
    known_ssrcs: std::collections::HashMap<u32, u64>,
    last_tick_was_empty: bool,
    identify: PubIdentify,
}

impl Receiver {
    /// The SSRC-to-speaker mapping learnt so far.
    pub closed spec fn ssrcs(&self) -> Map<u32, u64> {
        self.known_ssrcs@
    }

    /// Whether the previous tick carried no speakers.
    pub closed spec fn tick_empty(&self) -> bool {
        self.last_tick_was_empty
    }

    /// Which source this receiver attributes its events to.
    pub closed spec fn source(&self) -> PubIdentify {
        self.identify
    }

    pub fn new(identify: PubIdentify) -> (r: Receiver)
        ensures
            r.ssrcs() == Map::<u32, u64>::empty(),
            !r.tick_empty(),
            r.source() == identify,
    {
        Receiver {
            known_ssrcs: std::collections::HashMap::new(),
            last_tick_was_empty: false,
            identify,
        }
    }

    /// Handles one protocol event, returning the relay events to enqueue,
    /// in order. A speaking-state announcement records the SSRC mapping
    /// and reports a Join; a disconnect reports a Leave; a tick yields the
    /// mapped speakers' audio while the source is listening.
    #[verifier::loop_isolation(false)]
    pub fn act(&mut self, event: &VoiceEvent, listening: bool) -> (out: Vec<SendEnum>)
        ensures
            final(self).source() == old(self).source(),
            event matches VoiceEvent::SpeakingStateUpdate { ssrc, user_id } ==> {
                &&& final(self).tick_empty() == old(self).tick_empty()
                &&& user_id matches Some(u) ==> final(self).ssrcs() == old(self).ssrcs().insert(
                    *ssrc,
                    *u,
                ) && out@.map_values(|s: SendEnum| send_view(s)) == seq![
                    SendView::User(
                        UserInfo {
                            user_id: *u,
                            event: VoiceUserEvent::Join,
                            identify: old(self).source(),
                        },
                    ),
                ]
                &&& user_id is None ==> final(self).ssrcs() == old(self).ssrcs() && out@.len() == 0
            },
            event matches VoiceEvent::VoiceTick { speaking } ==> {
                &&& final(self).ssrcs() == old(self).ssrcs()
                &&& final(self).tick_empty() == (speaking@.len() == 0)
                &&& out@.map_values(|s: SendEnum| send_view(s)) == tick_outputs(
                    old(self).ssrcs(),
                    speaking@,
                    listening,
                )
            },
            event is RtpPacket || event is RtcpPacket ==> *final(self) == *old(self) && out@.len()
                == 0,
            event matches VoiceEvent::ClientDisconnect { user_id } ==> *final(self) == *old(self)
                && out@.map_values(|s: SendEnum| send_view(s)) == seq![
                SendView::User(
                    UserInfo {
                        user_id: *user_id,
                        event: VoiceUserEvent::Leave,
                        identify: old(self).source(),
                    },
                ),
            ],
    {
        let mut out: Vec<SendEnum> = Vec::new();
        match event {
            VoiceEvent::SpeakingStateUpdate { ssrc, user_id } => {
                if let Some(u) = user_id {
                    self.known_ssrcs.insert(*ssrc, *u);
                    out.push(
                        SendEnum::UserData(
                            UserInfo {
                                user_id: *u,
                                event: VoiceUserEvent::Join,
                                identify: self.identify,
                            },
                        ),
                    );
                    proof {
                        assert(out@.map_values(|s: SendEnum| send_view(s)) =~= seq![
                            SendView::User(
                                UserInfo {
                                    user_id: *u,
                                    event: VoiceUserEvent::Join,
                                    identify: old(self).source(),
                                },
                            ),
                        ]);
                    }
                }
            },
            VoiceEvent::VoiceTick { speaking } => {
                let n = speaking.len();
                if n == 0 {
                    if !self.last_tick_was_empty {
                        self.last_tick_was_empty = true;
                    }
                    proof {
                        assert(out@.map_values(|s: SendEnum| send_view(s)) =~= tick_outputs(
                            old(self).ssrcs(),
                            speaking@,
                            listening,
                        ));
                    }
                } else {
                    self.last_tick_was_empty = false;
                    let mut i: usize = 0;
                    while i < n
                        invariant
                            n == speaking@.len(),
                            0 <= i <= n,
                            self.known_ssrcs@ == old(self).ssrcs(),
                            self.identify == old(self).source(),
                            self.last_tick_was_empty == false,
                            forall|j: int|
                                0 <= j < i ==> self.known_ssrcs@.contains_key(
                                    #[trigger] speaking@[j].ssrc,
                                ),
                            out@.map_values(|s: SendEnum| send_view(s)) =~= tick_outputs(
                                self.known_ssrcs@,
                                speaking@.take(i as int),
                                listening,
                            ),
                        decreases n - i,
                    {
                        let entry = &speaking[i];
                        let user = match self.known_ssrcs.get(&entry.ssrc) {
                            Some(u) => *u,
                            None => {
                                proof {
                                    lemma_tick_outputs_split(
                                        self.known_ssrcs@,
                                        speaking@,
                                        i as int,
                                        listening,
                                    );
                                    assert(speaking@.skip(i as int).first() == speaking@[i as int]);
                                    assert(tick_outputs(
                                        self.known_ssrcs@,
                                        speaking@.skip(i as int),
                                        listening,
                                    ) =~= Seq::<SendView>::empty());
                                    assert(out@.map_values(|s: SendEnum| send_view(s))
                                        =~= tick_outputs(
                                        old(self).ssrcs(),
                                        speaking@,
                                        listening,
                                    ));
                                }
                                return out;
                            },
                        };
                        let ghost out0 = out@;
                        if listening {
                            if let Some(decoded_voice) = &entry.decoded_voice {
                                let pcm = decoded_voice.clone();
                                out.push(SendEnum::VoiceData(VoiceType { user_id: user, voice_data: pcm }));
                            }
                        }
                        proof {
                            let m = self.known_ssrcs@;
                            let e = speaking@[i as int];
                            let head: Seq<SendView> = if e.decoded_voice is Some && listening {
                                seq![
                                    SendView::Voice {
                                        user_id: m[e.ssrc],
                                        pcm: e.decoded_voice->Some_0@,
                                    },
                                ]
                            } else {
                                Seq::<SendView>::empty()
                            };
                            assert(out@.map_values(|s: SendEnum| send_view(s)) =~= out0.map_values(
                                |s: SendEnum| send_view(s),
                            ) + head);
                            assert forall|j: int| 0 <= j < i implies m.contains_key(
                                #[trigger] speaking@.take(i + 1)[j].ssrc,
                            ) by {
                                assert(speaking@.take(i + 1)[j] == speaking@[j]);
                            }
                            lemma_tick_outputs_split(m, speaking@.take(i + 1), i as int, listening);
                            assert(speaking@.take(i + 1).take(i as int) =~= speaking@.take(
                                i as int,
                            ));
                            let rest = speaking@.take(i + 1).skip(i as int);
                            assert(rest =~= seq![e]);
                            assert(rest.drop_first() =~= Seq::<SpeakingData>::empty());
                            assert(m.contains_key(e.ssrc) && m[e.ssrc] == user);
                            assert(tick_outputs(m, rest.drop_first(), listening)
                                == Seq::<SendView>::empty());
                            assert(rest.first() == e);
                            assert(tick_outputs(m, rest, listening) =~= head);
                            assert(out@.map_values(|s: SendEnum| send_view(s)) =~= tick_outputs(
                                m,
                                speaking@.take(i + 1),
                                listening,
                            ));
                        }
                        i += 1;
                    }
                    proof {
                        assert(speaking@.take(n as int) =~= speaking@);
                    }
                }
            },
            VoiceEvent::RtpPacket => {},
            VoiceEvent::RtcpPacket => {},
            VoiceEvent::ClientDisconnect { user_id } => {
                out.push(
                    SendEnum::UserData(
                        UserInfo {
                            user_id: *user_id,
                            event: VoiceUserEvent::Leave,
                            identify: self.identify,
                        },
                    ),
                );
                proof {
                    assert(out@.map_values(|s: SendEnum| send_view(s)) =~= seq![
                        SendView::User(
                            UserInfo {
                                user_id: *user_id,
                                event: VoiceUserEvent::Leave,
                                identify: old(self).source(),
                            },
                        ),
                    ]);
                }
            },
        }
        out
    }
}

} // verus!
