//! The media of a call: how its legs are transported, and what the caller is answered
//! when the callee's description comes.

use crate::codecs::{CodecInfo, CodecType};
use crate::legs::{BridgeEndpoint, DialogSide, LegRegistry};
use crate::sdp::{SdpType, TransportMode};
use crate::text;
use vstd::prelude::*;

verus! {

/// Whether media runs through the proxy.
#[derive(Clone, Copy, PartialEq, Eq, Debug, Structural)]
pub enum MediaPathMode {
    Anchored,
    Bypass,
}

/// The descriptions that were exchanged, and what the media bridge serves.
pub struct MediaState {
    pub caller_offer: Option<String>,
    pub answer: Option<String>,
    pub callee_offer: Option<String>,
    pub callee_answer_sdp: Option<String>,
    /// There is a media bridge.
    pub media_bridge: bool,
    pub media_bridge_started: bool,
    pub caller_answer_uses_media_bridge: bool,
    pub callee_offer_uses_media_bridge: bool,
    pub early_media_sent: bool,
    pub bridge_playback_track_id: Option<String>,
}

impl MediaState {
    /// The state at the start of a call with this offer.
    pub open spec fn at_start(caller_offer: Option<String>) -> MediaState {
        MediaState {
            caller_offer,
            answer: None,
            callee_offer: None,
            callee_answer_sdp: None,
            media_bridge: false,
            media_bridge_started: false,
            caller_answer_uses_media_bridge: false,
            callee_offer_uses_media_bridge: false,
            early_media_sent: false,
            bridge_playback_track_id: None,
        }
    }

    pub fn new(caller_offer: Option<String>) -> (r: MediaState)
        ensures
            r == MediaState::at_start(caller_offer),
    {
        MediaState {
            caller_offer,
            answer: None,
            callee_offer: None,
            callee_answer_sdp: None,
            media_bridge: false,
            media_bridge_started: false,
            caller_answer_uses_media_bridge: false,
            callee_offer_uses_media_bridge: false,
            early_media_sent: false,
            bridge_playback_track_id: None,
        }
    }
}

/// The description carries ICE and DTLS.
pub open spec fn is_webrtc_sdp(sdp: Seq<char>) -> bool {
    text::contains(sdp, "a=ice-ufrag"@) && text::contains(sdp, "a=fingerprint"@)
}

/// The transport that a description asks for: WebRTC with ICE and DTLS, SRTP with a
/// secure profile or a key, plain RTP otherwise.
pub open spec fn transport_of(sdp: Seq<char>) -> TransportMode {
    if is_webrtc_sdp(sdp) {
        TransportMode::WebRtc
    } else if text::contains(sdp, "RTP/SAVP"@) || text::contains(sdp, "a=crypto"@) {
        TransportMode::Srtp
    } else {
        TransportMode::Rtp
    }
}

pub fn sdp_transport_mode(sdp: &str) -> (r: TransportMode)
    ensures
        r == transport_of(sdp@),
{
    if text::has(sdp, "a=ice-ufrag") && text::has(sdp, "a=fingerprint") {
        TransportMode::WebRtc
    } else if text::has(sdp, "RTP/SAVP") || text::has(sdp, "a=crypto") {
        TransportMode::Srtp
    } else {
        TransportMode::Rtp
    }
}

/// The body of a message as a description: none where it is empty.
pub fn extract_sdp(body: &[u8]) -> (r: Option<String>)
    ensures
        r is None <==> body@.len() == 0,
        r matches Some(s) ==> s@ == text::utf8_lossy(body@),
{
    if body.len() == 0 {
        None
    } else {
        Some(text::from_utf8_lossy(body))
    }
}

/// The transport that the caller's leg is answered with.
pub open spec fn caller_mode(media: MediaState, legs: LegRegistry) -> TransportMode {
    match media.caller_offer {
        Some(offer) => transport_of(offer@),
        None => match legs.transports.value("caller"@) {
            Some(mode) => mode,
            None => TransportMode::Rtp,
        },
    }
}

/// The caller speaks WebRTC: its offer says so, or, without one, its leg does.
pub open spec fn caller_webrtc(media: MediaState, legs: LegRegistry) -> bool {
    match media.caller_offer {
        Some(offer) => is_webrtc_sdp(offer@),
        None => legs.is_webrtc("caller"@),
    }
}

/// The transport that a callee is offered: WebRTC where it speaks it; else secure
/// where the caller's leg is secure.
pub open spec fn callee_mode(caller: TransportMode, callee_is_webrtc: bool) -> TransportMode {
    if callee_is_webrtc {
        TransportMode::WebRtc
    } else if caller == TransportMode::Srtp {
        TransportMode::Srtp
    } else {
        TransportMode::Rtp
    }
}

/// Secure in, secure out: an SRTP offer is answered with SRTP, and a callee that does
/// not speak WebRTC is then offered SRTP. Plain RTP stays plain.
pub proof fn secure_offer_stays_secure(media: MediaState, legs: LegRegistry)
    requires
        media.caller_offer is Some,
    ensures
        transport_of(media.caller_offer->0@) == TransportMode::Srtp ==> caller_mode(media, legs)
            == TransportMode::Srtp && callee_mode(caller_mode(media, legs), false)
            == TransportMode::Srtp,
        transport_of(media.caller_offer->0@) == TransportMode::Rtp ==> callee_mode(
            caller_mode(media, legs),
            false,
        ) == TransportMode::Rtp,
        caller_webrtc(media, legs) <==> caller_mode(media, legs) == TransportMode::WebRtc,
{
}

pub fn caller_transport_mode(media: &MediaState, legs: &LegRegistry) -> (r: TransportMode)
    ensures
        r == caller_mode(*media, *legs),
{
    match &media.caller_offer {
        Some(offer) => sdp_transport_mode(offer),
        None => match legs.get_transport("caller") {
            Some(mode) => mode,
            None => TransportMode::Rtp,
        },
    }
}

pub fn is_caller_webrtc(media: &MediaState, legs: &LegRegistry) -> (r: bool)
    ensures
        r == caller_webrtc(*media, *legs),
{
    match &media.caller_offer {
        Some(offer) => text::has(offer, "a=ice-ufrag") && text::has(offer, "a=fingerprint"),
        None => legs.leg_is_webrtc("caller"),
    }
}

pub fn callee_transport_mode(media: &MediaState, legs: &LegRegistry, callee_is_webrtc: bool) -> (r: TransportMode)
    ensures
        r == callee_mode(caller_mode(*media, *legs), callee_is_webrtc),
{
    if callee_is_webrtc {
        TransportMode::WebRtc
    } else {
        match caller_transport_mode(media, legs) {
            TransportMode::Srtp => TransportMode::Srtp,
            _ => TransportMode::Rtp,
        }
    }
}

/// The proxy only relays signalling: media goes past it.
pub open spec fn bypasses(media: MediaState, path: MediaPathMode) -> bool {
    path == MediaPathMode::Bypass && !media.media_bridge
}

pub fn bypasses_local_media(media: &MediaState, path: MediaPathMode) -> (r: bool)
    ensures
        r == bypasses(*media, path),
{
    path == MediaPathMode::Bypass && !media.media_bridge
}

/// What is done to find the caller's answer to a description of the callee.
#[derive(Clone, Copy, PartialEq, Eq, Debug, Structural)]
pub enum AnswerPlan {
    /// The callee sent no description: the answer of the early media, if there was any.
    NoDescription,
    /// The description is the one that was answered before: the answer stands. The
    /// gate of the bridge is opened where the flag says so.
    Keep { open_gate: bool },
    /// Both legs are on the bridge and the caller has its answer: the description is
    /// applied to the bridge, and the answer stands.
    ApplyToBridge,
    /// The caller has its answer: only the forwarding from the callee is updated.
    UpdateForwarding,
    /// The legs differ in transport: the answer is negotiated over the bridge.
    NegotiateBridge { caller_is_webrtc: bool },
    /// The proxy answers the caller's offer with a track of its own.
    Handshake,
    /// The callee's description is the answer; an anchored callee track takes it too.
    PassThrough { update_callee_track: bool },
}

impl MediaState {
    /// The caller was given an answer to this very description.
    pub open spec fn answered(self, callee_sdp: Seq<char>) -> bool {
        self.answer is Some && text::opt_text(self.callee_answer_sdp) == Some(callee_sdp)
    }

    /// The bridge serves both legs.
    pub open spec fn bridge_serves_both(self) -> bool {
        self.media_bridge && self.caller_answer_uses_media_bridge && self.callee_offer_uses_media_bridge
    }

    /// The callee's leg is on a track of its own, whatever the caller's is on.
    pub open spec fn callee_has_own_track(self) -> bool {
        !self.media_bridge || (self.caller_answer_uses_media_bridge
            && !self.callee_offer_uses_media_bridge)
    }

    /// How the caller's answer is found.
    pub open spec fn answer_plan(
        self,
        path: MediaPathMode,
        caller_confirmed: bool,
        caller_is_webrtc: bool,
        callee_is_webrtc: bool,
        callee_sdp: Option<Seq<char>>,
        force_regenerate: bool,
        is_early_media: bool,
    ) -> AnswerPlan {
        match callee_sdp {
            None => AnswerPlan::NoDescription,
            Some(sdp) => if self.answered(sdp) && !force_regenerate {
                AnswerPlan::Keep { open_gate: !is_early_media && self.media_bridge }
            } else if caller_confirmed && self.answer is Some && self.bridge_serves_both() {
                AnswerPlan::ApplyToBridge
            } else if caller_confirmed && self.answer is Some && path == MediaPathMode::Anchored
                && self.callee_has_own_track() {
                AnswerPlan::UpdateForwarding
            } else if caller_is_webrtc != callee_is_webrtc {
                AnswerPlan::NegotiateBridge { caller_is_webrtc }
            } else if path == MediaPathMode::Anchored && self.caller_offer is Some {
                AnswerPlan::Handshake
            } else {
                AnswerPlan::PassThrough { update_callee_track: path == MediaPathMode::Anchored }
            },
        }
    }

    /// Decides how the caller is answered when the callee's description is known.
    pub fn plan_caller_answer(
        &self,
        path: MediaPathMode,
        caller_confirmed: bool,
        caller_is_webrtc: bool,
        callee_is_webrtc: bool,
        callee_sdp: &Option<String>,
        force_regenerate: bool,
        is_early_media: bool,
    ) -> (r: AnswerPlan)
        ensures
            r == self.answer_plan(
                path,
                caller_confirmed,
                caller_is_webrtc,
                callee_is_webrtc,
                text::opt_text(*callee_sdp),
                force_regenerate,
                is_early_media,
            ),
    {
        let sdp = match callee_sdp {
            None => {
                return AnswerPlan::NoDescription;
            },
            Some(sdp) => sdp,
        };
        let sdp_changed = match &self.callee_answer_sdp {
            Some(known) => !text::same(known, sdp),
            None => true,
        };
        if self.answer.is_some() && !sdp_changed && !force_regenerate {
            return AnswerPlan::Keep { open_gate: !is_early_media && self.media_bridge };
        }
        if caller_confirmed && self.answer.is_some() && self.media_bridge
            && self.caller_answer_uses_media_bridge && self.callee_offer_uses_media_bridge {
            return AnswerPlan::ApplyToBridge;
        }
        let own_track = !self.media_bridge || (self.caller_answer_uses_media_bridge
            && !self.callee_offer_uses_media_bridge);
        if caller_confirmed && self.answer.is_some() && path == MediaPathMode::Anchored && own_track {
            return AnswerPlan::UpdateForwarding;
        }
        if caller_is_webrtc != callee_is_webrtc {
            AnswerPlan::NegotiateBridge { caller_is_webrtc }
        } else if path == MediaPathMode::Anchored && self.caller_offer.is_some() {
            AnswerPlan::Handshake
        } else {
            AnswerPlan::PassThrough { update_callee_track: path == MediaPathMode::Anchored }
        }
    }

    /// The answer where the callee sent no description.
    pub fn answer_without_description(&self) -> (r: Option<String>)
        ensures
            r == (if self.early_media_sent {
                self.answer
            } else {
                None
            }),
    {
        if self.early_media_sent {
            self.answer.clone()
        } else {
            None
        }
    }

    /// The caller keeps its answer; the callee's description is noted.
    pub fn keep_answer(&mut self, callee_sdp: String) -> (r: Option<String>)
        ensures
            r == old(self).answer,
            *final(self) == (MediaState { callee_answer_sdp: Some(callee_sdp), ..*old(self) }),
    {
        self.callee_answer_sdp = Some(callee_sdp);
        self.answer.clone()
    }

    /// Takes the answer that was found for the caller, and says what is started: the
    /// forwarding of an anchored call without bridge, or that of the bridge, whose
    /// gate stays closed while the callee still rings.
    pub fn finish_caller_answer(
        &mut self,
        path: MediaPathMode,
        callee_sdp: String,
        answer: Option<String>,
        is_early_media: bool,
    ) -> (r: AnswerEffects)
        ensures
            ({
                let on_bridge = old(self).callee_offer_uses_media_bridge && old(self).media_bridge
                    && answer is Some;
                &&& *final(self) == (MediaState {
                    callee_answer_sdp: Some(callee_sdp),
                    answer,
                    caller_answer_uses_media_bridge: on_bridge,
                    ..*old(self)
                })
                &&& r.start_anchored_forwarding == (path == MediaPathMode::Anchored
                    && !old(self).media_bridge)
                &&& r.start_bridge_forwarding == on_bridge
                &&& r.open_gate == (on_bridge && !is_early_media)
            }),
    {
        let on_bridge = self.callee_offer_uses_media_bridge && self.media_bridge && answer.is_some();
        self.callee_answer_sdp = Some(callee_sdp);
        self.answer = answer;
        self.caller_answer_uses_media_bridge = on_bridge;
        AnswerEffects {
            start_anchored_forwarding: path == MediaPathMode::Anchored && !self.media_bridge,
            start_bridge_forwarding: on_bridge,
            open_gate: on_bridge && !is_early_media,
        }
    }
}

/// What is started once the caller's answer is known.
pub struct AnswerEffects {
    pub start_anchored_forwarding: bool,
    pub start_bridge_forwarding: bool,
    pub open_gate: bool,
}

/// The callee sends the same SDP twice in a row: the second time the caller answer
/// stands, unless it is to be made anew. With early media `open_gate` is never set.
pub proof fn same_callee_sdp_keeps_answer(
    before: MediaState,
    after: MediaState,
    path: MediaPathMode,
    caller_is_webrtc: bool,
    callee_is_webrtc: bool,
    confirmed: bool,
    callee_sdp: String,
    answer: String,
    is_early_media: bool,
)
    requires
        after == (MediaState {
            callee_answer_sdp: Some(callee_sdp),
            answer: Some(answer),
            caller_answer_uses_media_bridge: before.callee_offer_uses_media_bridge
                && before.media_bridge,
            ..before
        }),
    ensures
        after.answer_plan(
            path,
            confirmed,
            caller_is_webrtc,
            callee_is_webrtc,
            Some(callee_sdp@),
            false,
            is_early_media,
        ) == (AnswerPlan::Keep { open_gate: !is_early_media && after.media_bridge }),
{
}

/// How far the negotiation of the caller's answer over the bridge has come.
#[derive(Clone, Copy, PartialEq, Eq, Debug, Structural)]
pub enum BridgeAnswerStep {
    /// The callee's description is applied to its side of the bridge.
    ApplyCallee,
    /// The caller's offer is applied to the caller's side.
    ApplyOffer,
    /// The caller's side makes an answer.
    CreateAnswer,
    /// The answer becomes the local description.
    SetLocal,
    /// The candidates of a WebRTC side are gathered.
    GatherCandidates,
    /// The local description is read.
    ReadLocal,
    /// The caller is answered with what was read.
    Answered,
    /// The caller is answered with the callee's description.
    FallBack,
}

/// The first step: without a bridge there is nothing to negotiate.
pub fn first_bridge_answer_step(media_bridge: bool) -> (r: BridgeAnswerStep)
    ensures
        r == (if media_bridge {
            BridgeAnswerStep::ApplyCallee
        } else {
            BridgeAnswerStep::FallBack
        }),
{
    if media_bridge {
        BridgeAnswerStep::ApplyCallee
    } else {
        BridgeAnswerStep::FallBack
    }
}

/// The step after one that went well or not. A callee description that cannot be
/// applied does not stop the negotiation, and waiting for candidates cannot fail; any
/// other failure ends it.
pub open spec fn after_bridge_answer_step(
    step: BridgeAnswerStep,
    ok: bool,
    has_offer: bool,
    caller_is_webrtc: bool,
) -> BridgeAnswerStep {
    match step {
        BridgeAnswerStep::ApplyCallee => if has_offer {
            BridgeAnswerStep::ApplyOffer
        } else {
            BridgeAnswerStep::FallBack
        },
        BridgeAnswerStep::GatherCandidates => BridgeAnswerStep::ReadLocal,
        BridgeAnswerStep::Answered => BridgeAnswerStep::Answered,
        BridgeAnswerStep::FallBack => BridgeAnswerStep::FallBack,
        _ => if !ok {
            BridgeAnswerStep::FallBack
        } else {
            match step {
                BridgeAnswerStep::ApplyOffer => BridgeAnswerStep::CreateAnswer,
                BridgeAnswerStep::CreateAnswer => BridgeAnswerStep::SetLocal,
                BridgeAnswerStep::SetLocal => if caller_is_webrtc {
                    BridgeAnswerStep::GatherCandidates
                } else {
                    BridgeAnswerStep::ReadLocal
                },
                _ => BridgeAnswerStep::Answered,
            }
        },
    }
}

pub fn next_bridge_answer_step(
    step: BridgeAnswerStep,
    ok: bool,
    has_offer: bool,
    caller_is_webrtc: bool,
) -> (r: BridgeAnswerStep)
    ensures
        r == after_bridge_answer_step(step, ok, has_offer, caller_is_webrtc),
{
    match step {
        BridgeAnswerStep::ApplyCallee => if has_offer {
            BridgeAnswerStep::ApplyOffer
        } else {
            BridgeAnswerStep::FallBack
        },
        BridgeAnswerStep::ApplyOffer => if ok {
            BridgeAnswerStep::CreateAnswer
        } else {
            BridgeAnswerStep::FallBack
        },
        BridgeAnswerStep::CreateAnswer => if ok {
            BridgeAnswerStep::SetLocal
        } else {
            BridgeAnswerStep::FallBack
        },
        BridgeAnswerStep::SetLocal => if !ok {
            BridgeAnswerStep::FallBack
        } else if caller_is_webrtc {
            BridgeAnswerStep::GatherCandidates
        } else {
            BridgeAnswerStep::ReadLocal
        },
        BridgeAnswerStep::GatherCandidates => BridgeAnswerStep::ReadLocal,
        BridgeAnswerStep::ReadLocal => if ok {
            BridgeAnswerStep::Answered
        } else {
            BridgeAnswerStep::FallBack
        },
        BridgeAnswerStep::Answered => BridgeAnswerStep::Answered,
        BridgeAnswerStep::FallBack => BridgeAnswerStep::FallBack,
    }
}

/// How far a step is from the end of the negotiation.
pub open spec fn bridge_answer_distance(step: BridgeAnswerStep) -> nat {
    match step {
        BridgeAnswerStep::ApplyCallee => 6,
        BridgeAnswerStep::ApplyOffer => 5,
        BridgeAnswerStep::CreateAnswer => 4,
        BridgeAnswerStep::SetLocal => 3,
        BridgeAnswerStep::GatherCandidates => 2,
        BridgeAnswerStep::ReadLocal => 1,
        BridgeAnswerStep::Answered => 0,
        BridgeAnswerStep::FallBack => 0,
    }
}

/// The negotiation always ends: each step leads nearer to the end, with an answer or
/// with the callee's description in its place.
pub proof fn bridge_answer_ends(step: BridgeAnswerStep, ok: bool, has_offer: bool, caller_is_webrtc: bool)
    ensures
        bridge_answer_distance(step) > 0 ==> bridge_answer_distance(
            after_bridge_answer_step(step, ok, has_offer, caller_is_webrtc),
        ) < bridge_answer_distance(step),
        bridge_answer_distance(step) == 0 <==> step == BridgeAnswerStep::Answered || step
            == BridgeAnswerStep::FallBack,
{
}

/// The description that the negotiation answers the caller with.
pub fn bridge_answer(
    step: BridgeAnswerStep,
    callee_sdp: String,
    local: Option<String>,
    restricted: Option<String>,
    selected: usize,
    rewritten: Option<String>,
) -> (r: String)
    requires
        step == BridgeAnswerStep::Answered || step == BridgeAnswerStep::FallBack,
        step == BridgeAnswerStep::Answered ==> local is Some,
    ensures
        step == BridgeAnswerStep::FallBack ==> r == callee_sdp,
        step == BridgeAnswerStep::Answered ==> r == (match rewritten {
            Some(sdp) if selected > 0 => sdp,
            _ => match restricted {
                Some(sdp) => sdp,
                None => local->0,
            },
        }),
{
    if step == BridgeAnswerStep::FallBack {
        return callee_sdp;
    }
    let generated = match restricted {
        Some(sdp) => sdp,
        None => match local {
            Some(sdp) => sdp,
            None => callee_sdp,
        },
    };
    crate::codecs::rewrite_answer_to_selected_codecs(generated, selected, rewritten)
}

/// A callee's description is a provisional answer while it only rings.
pub fn callee_description_type(is_early_media: bool) -> (r: SdpType)
    ensures
        r == (if is_early_media {
            SdpType::Pranswer
        } else {
            SdpType::Answer
        }),
{
    if is_early_media {
        SdpType::Pranswer
    } else {
        SdpType::Answer
    }
}

/// The speech and DTMF codec of a leg.
#[derive(Clone, Copy, PartialEq, Eq, Debug, Structural)]
pub struct LegProfile {
    pub audio: Option<CodecInfo>,
    pub dtmf: Option<CodecInfo>,
}

/// The payload type and clock rate of DTMF on the two legs.
#[derive(Clone, Copy, PartialEq, Eq, Debug, Structural)]
pub struct DtmfMapping {
    pub from: CodecInfo,
    pub to: CodecInfo,
}

/// A conversion of speech from one codec to another.
#[derive(Clone, Copy, PartialEq, Eq, Debug, Structural)]
pub struct Transcoding {
    pub from: CodecType,
    pub to: CodecType,
    pub payload_type: u8,
}

/// What the two directions of the bridge convert.
#[derive(Clone, Copy, PartialEq, Eq, Debug, Structural)]
pub enum SpeechPlan {
    /// A leg has no speech codec: the bridge is left as it is.
    Leave,
    /// Both legs speak the same codec: nothing is converted.
    Direct,
    Convert { caller: Transcoding, callee: Transcoding },
}

/// What the bridge does to the media between the legs.
#[derive(Clone, Copy, Debug)]
pub struct TranscoderPlan {
    /// Mapping of DTMF from the caller and from the callee; cleared where a leg has
    /// none.
    pub dtmf: Option<(DtmfMapping, DtmfMapping)>,
    pub speech: SpeechPlan,
}

/// What the bridge converts between two legs with these codecs.
pub fn plan_transcoders(caller: LegProfile, callee: LegProfile) -> (r: TranscoderPlan)
    ensures
        match (caller.dtmf, callee.dtmf) {
            (Some(a), Some(b)) => r.dtmf == Some(
                ((DtmfMapping { from: a, to: b }), (DtmfMapping { from: b, to: a })),
            ),
            _ => r.dtmf is None,
        },
        match (caller.audio, callee.audio) {
            (Some(a), Some(b)) => if a.codec == b.codec {
                r.speech == SpeechPlan::Direct
            } else {
                r.speech == (SpeechPlan::Convert {
                    caller: Transcoding {
                        from: a.codec,
                        to: b.codec,
                        payload_type: b.payload_type,
                    },
                    callee: Transcoding {
                        from: b.codec,
                        to: a.codec,
                        payload_type: a.payload_type,
                    },
                })
            },
            _ => r.speech == SpeechPlan::Leave,
        },
{
    let dtmf = match (caller.dtmf, callee.dtmf) {
        (Some(a), Some(b)) => Some((DtmfMapping { from: a, to: b }, DtmfMapping { from: b, to: a })),
        _ => None,
    };
    let speech = match (caller.audio, callee.audio) {
        (Some(a), Some(b)) => {
            if a.codec == b.codec {
                SpeechPlan::Direct
            } else {
                SpeechPlan::Convert {
                    caller: Transcoding { from: a.codec, to: b.codec, payload_type: b.payload_type },
                    callee: Transcoding { from: b.codec, to: a.codec, payload_type: a.payload_type },
                }
            }
        },
        _ => SpeechPlan::Leave,
    };
    TranscoderPlan { dtmf, speech }
}

impl MediaState {
    /// Starts the forwarding of the bridge once, when all four descriptions are there.
    pub fn start_media_bridge_forwarding(&mut self, descriptions_complete: bool) -> (r: bool)
        ensures
            r == (!old(self).media_bridge_started && old(self).media_bridge && descriptions_complete),
            *final(self) == (MediaState {
                media_bridge_started: old(self).media_bridge_started || r,
                ..*old(self)
            }),
    {
        if self.media_bridge_started {
            return false;
        }
        if self.media_bridge && descriptions_complete {
            self.media_bridge_started = true;
            true
        } else {
            false
        }
    }

    /// The connection that answers a renegotiation of a side: that of the bridge only
    /// where the leg was negotiated on the bridge, else that of the leg's own track.
    pub fn reinvite_endpoint(&self, legs: &LegRegistry, side: DialogSide) -> (r: Option<BridgeEndpoint>)
        ensures
            r == (if self.media_bridge && (match side {
                DialogSide::Caller => self.caller_answer_uses_media_bridge,
                DialogSide::Callee => self.callee_offer_uses_media_bridge,
            }) {
                Some(legs.endpoint(side.leg()))
            } else {
                None
            }),
    {
        if !self.media_bridge {
            return None;
        }
        let on_bridge = match side {
            DialogSide::Caller => self.caller_answer_uses_media_bridge,
            DialogSide::Callee => self.callee_offer_uses_media_bridge,
        };
        if on_bridge {
            Some(legs.leg_bridge_endpoint(side.leg_id()))
        } else {
            None
        }
    }
}

/// What precedes early media to the caller.
#[derive(Clone, Copy, PartialEq, Eq, Debug, Structural)]
pub enum EarlyMediaPlan {
    AlreadySent,
    NoOffer,
    /// A bridge is made first where there is none.
    Prepare { create_bridge: bool },
}

impl MediaState {
    /// What is done to play early media: nothing twice, nothing without an offer.
    pub fn plan_early_media(&self) -> (r: EarlyMediaPlan)
        ensures
            r == (if self.early_media_sent {
                EarlyMediaPlan::AlreadySent
            } else if self.caller_offer is None {
                EarlyMediaPlan::NoOffer
            } else {
                EarlyMediaPlan::Prepare { create_bridge: !self.media_bridge }
            }),
    {
        if self.early_media_sent {
            EarlyMediaPlan::AlreadySent
        } else if self.caller_offer.is_none() {
            EarlyMediaPlan::NoOffer
        } else {
            EarlyMediaPlan::Prepare { create_bridge: !self.media_bridge }
        }
    }

    /// The bridge between the legs was built.
    pub fn bridge_built(&mut self)
        ensures
            *final(self) == (MediaState { media_bridge: true, ..*old(self) }),
    {
        self.media_bridge = true;
    }

    /// The bridge, where there is one, is taken down; says whether there was one.
    pub fn take_bridge(&mut self) -> (r: bool)
        ensures
            r == old(self).media_bridge,
            *final(self) == (if r {
                MediaState {
                    media_bridge: false,
                    media_bridge_started: false,
                    bridge_playback_track_id: None,
                    ..*old(self)
                }
            } else {
                *old(self)
            }),
    {
        if !self.media_bridge {
            return false;
        }
        self.media_bridge = false;
        self.media_bridge_started = false;
        self.bridge_playback_track_id = None;
        true
    }

    /// The callee is offered this, or nothing.
    pub fn callee_offered(&mut self, offer: Option<String>) -> (r: Option<String>)
        ensures
            r == offer,
            *final(self) == (MediaState { callee_offer: offer, ..*old(self) }),
    {
        self.callee_offer = offer.clone();
        offer
    }

    /// The bridge answered the caller for early media.
    pub fn early_media_answered(&mut self, answer: String)
        ensures
            *final(self) == (MediaState {
                answer: Some(answer),
                caller_answer_uses_media_bridge: true,
                early_media_sent: true,
                media_bridge: true,
                ..*old(self)
            }),
    {
        self.answer = Some(answer);
        self.caller_answer_uses_media_bridge = true;
        self.early_media_sent = true;
        self.media_bridge = true;
    }

    /// The bridge did not answer the caller for early media: one that was made for it is
    /// taken down.
    pub fn early_media_failed(&mut self, created: bool)
        ensures
            *final(self) == (MediaState {
                media_bridge: old(self).media_bridge && !created,
                ..*old(self)
            }),
    {
        if created {
            self.media_bridge = false;
        }
    }

    /// The bridge of an application call is prepared: the answer that stands, or what
    /// has to be done. The callee side of the bridge gets the transport that the
    /// caller does not have.
    pub fn prepare_app_bridge(&mut self, legs: &mut LegRegistry) -> (r: AppBridgePlan)
        ensures
            old(self).answer is Some ==> r == AppBridgePlan::Answered && *final(self) == *old(self)
                && *final(legs) == *old(legs),
            old(self).answer is None && old(self).caller_offer is None ==> r == AppBridgePlan::NoOffer
                && *final(self) == *old(self) && *final(legs) == *old(legs),
            old(self).answer is None && old(self).caller_offer is Some ==> {
                let webrtc = is_webrtc_sdp(old(self).caller_offer->0@);
                &&& r == (AppBridgePlan::Prepare {
                    create_bridge: !old(self).media_bridge,
                    caller_is_webrtc: webrtc,
                })
                &&& *final(self) == (MediaState {
                    callee_offer_uses_media_bridge: false,
                    ..*old(self)
                })
                &&& final(legs).transports.value("caller"@) == Some(
                    transport_of(old(self).caller_offer->0@),
                )
                &&& final(legs).transports.value("callee"@) == Some(
                    if webrtc {
                        TransportMode::Rtp
                    } else {
                        TransportMode::WebRtc
                    },
                )
                &&& forall|k: Seq<char>|
                    k != "caller"@ && k != "callee"@ ==> #[trigger] final(legs).transports.value(k)
                        == old(legs).transports.value(k)
                &&& final(legs).states == old(legs).states
                &&& final(legs).video == old(legs).video
                &&& final(legs).answers == old(legs).answers
                &&& old(legs).wf() ==> final(legs).wf()
            },
    {
        if self.answer.is_some() {
            return AppBridgePlan::Answered;
        }
        if self.caller_offer.is_none() {
            return AppBridgePlan::NoOffer;
        }
        let caller_is_webrtc = is_caller_webrtc(self, legs);
        let mode = caller_transport_mode(self, legs);
        proof {
            reveal_strlit("caller");
            reveal_strlit("callee");
            assert("caller"@[5] != "callee"@[5]);
        }
        legs.set_transport("caller", mode);
        legs.set_transport(
            "callee",
            if caller_is_webrtc {
                TransportMode::Rtp
            } else {
                TransportMode::WebRtc
            },
        );
        self.callee_offer_uses_media_bridge = false;
        AppBridgePlan::Prepare { create_bridge: !self.media_bridge, caller_is_webrtc }
    }

    /// The end of the preparation: the bridge answered, or it did not. A bridge that
    /// was made for a failed answer is taken down.
    pub fn finish_app_bridge(&mut self, created: bool, answer: Option<String>)
        ensures
            answer is Some ==> *final(self) == (MediaState {
                answer,
                caller_answer_uses_media_bridge: true,
                media_bridge: true,
                ..*old(self)
            }),
            answer is None ==> *final(self) == (MediaState {
                caller_answer_uses_media_bridge: false,
                media_bridge: old(self).media_bridge && !created,
                ..*old(self)
            }),
    {
        match answer {
            Some(sdp) => {
                self.answer = Some(sdp);
                self.caller_answer_uses_media_bridge = true;
                self.media_bridge = true;
            },
            None => {
                self.caller_answer_uses_media_bridge = false;
                if created {
                    self.media_bridge = false;
                }
            },
        }
    }

    /// The answer of a call that is accepted without one: the one that stands, or,
    /// past a proxy that only signals, the callee's.
    pub fn standing_answer(&mut self, path: MediaPathMode) -> (r: Option<String>)
        ensures
            old(self).answer is Some ==> r == old(self).answer && *final(self) == *old(self),
            old(self).answer is None && bypasses(*old(self), path) && old(self).callee_answer_sdp is Some
                ==> r == old(self).callee_answer_sdp && *final(self) == (MediaState {
                answer: old(self).callee_answer_sdp,
                caller_answer_uses_media_bridge: false,
                ..*old(self)
            }),
            old(self).answer is None && !(bypasses(*old(self), path)
                && old(self).callee_answer_sdp is Some) ==> r is None && *final(self) == *old(self),
    {
        if self.answer.is_some() {
            return self.answer.clone();
        }
        if bypasses_local_media(self, path) && self.callee_answer_sdp.is_some() {
            self.answer = self.callee_answer_sdp.clone();
            self.caller_answer_uses_media_bridge = false;
            return self.answer.clone();
        }
        None
    }

    /// The answer of a call that is accepted without one, where none stood and the
    /// caller's offer was answered here, or could not be.
    pub fn local_answer_built(&mut self, answer: Option<String>) -> (r: Option<String>)
        ensures
            r == answer,
            answer is Some ==> *final(self) == (MediaState {
                answer,
                caller_answer_uses_media_bridge: false,
                ..*old(self)
            }),
            answer is None ==> *final(self) == *old(self),
    {
        if answer.is_some() {
            self.answer = answer.clone();
            self.caller_answer_uses_media_bridge = false;
        }
        answer
    }
}

/// What an application call does to have its bridge answered.
#[derive(Clone, Copy, PartialEq, Eq, Debug, Structural)]
pub enum AppBridgePlan {
    Answered,
    NoOffer,
    Prepare { create_bridge: bool, caller_is_webrtc: bool },
}

/// For a description that the caller was not yet given an answer to, on a caller that is
/// not confirmed, the answer is negotiated over the bridge exactly where one of the two
/// legs speaks WebRTC and the other does not. To swap which leg speaks it swaps the flag
/// of the negotiation and nothing else.
pub proof fn unlike_legs_meet_on_the_bridge(
    media: MediaState,
    path: MediaPathMode,
    caller_is_webrtc: bool,
    callee_is_webrtc: bool,
    sdp: Seq<char>,
    force: bool,
    early: bool,
)
    requires
        force || media.answer is None || text::opt_text(media.callee_answer_sdp) != Some(sdp),
    ensures
        ({
            let plan = media.answer_plan(
                path,
                false,
                caller_is_webrtc,
                callee_is_webrtc,
                Some(sdp),
                force,
                early,
            );
            let swapped = media.answer_plan(
                path,
                false,
                callee_is_webrtc,
                caller_is_webrtc,
                Some(sdp),
                force,
                early,
            );
            &&& plan is NegotiateBridge <==> caller_is_webrtc != callee_is_webrtc
            &&& plan is NegotiateBridge ==> plan == (AnswerPlan::NegotiateBridge { caller_is_webrtc })
                && swapped == (AnswerPlan::NegotiateBridge { caller_is_webrtc: callee_is_webrtc })
            &&& !(plan is NegotiateBridge) ==> swapped == plan
        }),
{
}

/// Legs that speak alike need no bridge: an unanswered description on a caller that is not
/// confirmed is answered by a track of the proxy exactly where media runs through it and
/// there is an offer to answer, else the callee's description is passed on. A proxy that
/// media goes past never answers with a track of its own.
pub proof fn like_legs_need_no_bridge(
    media: MediaState,
    path: MediaPathMode,
    webrtc: bool,
    sdp: Seq<char>,
    force: bool,
    early: bool,
)
    requires
        force || media.answer is None || text::opt_text(media.callee_answer_sdp) != Some(sdp),
    ensures
        ({
            let plan = media.answer_plan(path, false, webrtc, webrtc, Some(sdp), force, early);
            &&& plan == AnswerPlan::Handshake || plan is PassThrough
            &&& plan == AnswerPlan::Handshake <==> path == MediaPathMode::Anchored
                && media.caller_offer is Some
            &&& plan is PassThrough ==> plan == (AnswerPlan::PassThrough {
                update_callee_track: path == MediaPathMode::Anchored,
            })
        }),
{
}

/// A caller that is confirmed with an answer is not answered anew where both legs are on
/// the bridge, nor where its anchored callee has a track of its own: the description
/// goes to the bridge, or to that track.
pub proof fn confirmed_caller_keeps_its_answer(
    media: MediaState,
    caller_is_webrtc: bool,
    callee_is_webrtc: bool,
    sdp: Seq<char>,
    force: bool,
    early: bool,
)
    requires
        media.answer is Some,
        force || text::opt_text(media.callee_answer_sdp) != Some(sdp),
    ensures
        forall|path: MediaPathMode|
            #![auto]
            media.media_bridge && media.caller_answer_uses_media_bridge
                && media.callee_offer_uses_media_bridge ==> media.answer_plan(
                path,
                true,
                caller_is_webrtc,
                callee_is_webrtc,
                Some(sdp),
                force,
                early,
            ) == AnswerPlan::ApplyToBridge,
        !media.media_bridge ==> media.answer_plan(
            MediaPathMode::Anchored,
            true,
            caller_is_webrtc,
            callee_is_webrtc,
            Some(sdp),
            force,
            early,
        ) == AnswerPlan::UpdateForwarding,
        media.media_bridge && media.caller_answer_uses_media_bridge
            && !media.callee_offer_uses_media_bridge ==> media.answer_plan(
            MediaPathMode::Anchored,
            true,
            caller_is_webrtc,
            callee_is_webrtc,
            Some(sdp),
            force,
            early,
        ) == AnswerPlan::UpdateForwarding,
        media.media_bridge && !media.caller_answer_uses_media_bridge ==> forall|path: MediaPathMode|
            #![auto]
            media.answer_plan(
                path,
                true,
                caller_is_webrtc,
                callee_is_webrtc,
                Some(sdp),
                force,
                early,
            ) == media.answer_plan(
                path,
                false,
                caller_is_webrtc,
                callee_is_webrtc,
                Some(sdp),
                force,
                early,
            ),
        !media.media_bridge ==> media.answer_plan(
            MediaPathMode::Bypass,
            true,
            caller_is_webrtc,
            callee_is_webrtc,
            Some(sdp),
            force,
            early,
        ) == media.answer_plan(
            MediaPathMode::Bypass,
            false,
            caller_is_webrtc,
            callee_is_webrtc,
            Some(sdp),
            force,
            early,
        ),
{
}

/// The answer stands exactly where the caller was given one to this very description and
/// it is not to be made anew; nothing is planned exactly where there is no description.
/// While the caller was never answered, whether it is confirmed makes no difference.
pub proof fn answer_stands_for_the_same_description(
    media: MediaState,
    path: MediaPathMode,
    confirmed: bool,
    caller_is_webrtc: bool,
    callee_is_webrtc: bool,
    sdp: Option<Seq<char>>,
    force: bool,
    early: bool,
)
    ensures
        ({
            let plan = media.answer_plan(
                path,
                confirmed,
                caller_is_webrtc,
                callee_is_webrtc,
                sdp,
                force,
                early,
            );
            &&& plan == AnswerPlan::NoDescription <==> sdp is None
            &&& plan is Keep <==> sdp is Some && !force && media.answer is Some && text::opt_text(
                media.callee_answer_sdp,
            ) == sdp
            &&& plan matches AnswerPlan::Keep { open_gate } ==> (open_gate <==> !early
                && media.media_bridge)
            &&& media.answer is None ==> plan == media.answer_plan(
                path,
                !confirmed,
                caller_is_webrtc,
                callee_is_webrtc,
                sdp,
                force,
                early,
            )
        }),
{
}

/// A description is WebRTC exactly where it carries both ICE and DTLS. One that is not is
/// secure exactly where it has a secure profile or a key, and plain otherwise.
pub proof fn transport_is_what_the_description_carries(sdp: Seq<char>)
    ensures
        transport_of(sdp) == TransportMode::WebRtc <==> text::contains(sdp, "a=ice-ufrag"@)
            && text::contains(sdp, "a=fingerprint"@),
        transport_of(sdp) == TransportMode::Rtp ==> !text::contains(sdp, "RTP/SAVP"@)
            && !text::contains(sdp, "a=crypto"@),
        transport_of(sdp) == TransportMode::Srtp ==> text::contains(sdp, "RTP/SAVP"@) || text::contains(
            sdp,
            "a=crypto"@,
        ),
        is_webrtc_sdp(sdp) <==> transport_of(sdp) == TransportMode::WebRtc,
{
}

/// The caller's transport is what its offer asks for, whatever was noted of its leg;
/// without an offer it is what was noted, and plain where nothing was.
pub proof fn offer_decides_the_callers_transport(
    media: MediaState,
    legs: LegRegistry,
    other: LegRegistry,
)
    ensures
        media.caller_offer matches Some(offer) ==> caller_mode(media, legs) == transport_of(offer@)
            && caller_mode(media, legs) == caller_mode(media, other) && caller_webrtc(media, legs)
            == caller_webrtc(media, other),
        media.caller_offer is None ==> (legs.transports.value("caller"@) matches Some(mode)
            ==> caller_mode(media, legs) == mode),
        media.caller_offer is None && legs.transports.value("caller"@) is None ==> caller_mode(
            media,
            legs,
        ) == TransportMode::Rtp,
        caller_webrtc(media, legs) <==> caller_mode(media, legs) == TransportMode::WebRtc,
{
}

/// A callee is offered WebRTC exactly where it speaks it, and SRTP exactly where it does
/// not and the caller is secure.
pub proof fn callee_is_offered_what_it_speaks(caller: TransportMode, callee_is_webrtc: bool)
    ensures
        callee_mode(caller, callee_is_webrtc) == TransportMode::WebRtc <==> callee_is_webrtc,
        callee_mode(caller, callee_is_webrtc) == TransportMode::Srtp <==> !callee_is_webrtc && caller
            == TransportMode::Srtp,
{
}

/// Media goes past the proxy exactly where that is asked for and there is no bridge: with
/// a bridge, or anchored, it never does.
pub proof fn bridge_is_never_bypassed(media: MediaState, path: MediaPathMode)
    ensures
        media.media_bridge ==> !bypasses(media, path),
        !bypasses(media, MediaPathMode::Anchored),
        !media.media_bridge ==> bypasses(media, MediaPathMode::Bypass),
{
}

/// Where every step goes well the negotiation applies the callee's description, then the
/// caller's offer, makes an answer of it, sets it, gathers candidates for a WebRTC caller
/// alone, reads the description and answers with it.
pub proof fn negotiation_goes_through(callee_applied: bool, gathered: bool)
    ensures
        after_bridge_answer_step(BridgeAnswerStep::ApplyCallee, callee_applied, true, true)
            == BridgeAnswerStep::ApplyOffer,
        ({
            let plain = |s: BridgeAnswerStep| after_bridge_answer_step(s, true, true, false);
            plain(plain(plain(plain(BridgeAnswerStep::ApplyOffer)))) == BridgeAnswerStep::Answered
        }),
        ({
            let webrtc = |s: BridgeAnswerStep| after_bridge_answer_step(s, true, true, true);
            &&& webrtc(webrtc(webrtc(BridgeAnswerStep::ApplyOffer)))
                == BridgeAnswerStep::GatherCandidates
            &&& webrtc(BridgeAnswerStep::ReadLocal) == BridgeAnswerStep::Answered
        }),
        forall|has_offer: bool, webrtc: bool|
            #![auto]
            after_bridge_answer_step(BridgeAnswerStep::GatherCandidates, gathered, has_offer, webrtc)
                == BridgeAnswerStep::ReadLocal,
        forall|has_offer: bool, webrtc: bool|
            #![auto]
            after_bridge_answer_step(BridgeAnswerStep::ApplyOffer, true, has_offer, webrtc)
                == BridgeAnswerStep::CreateAnswer && after_bridge_answer_step(
                BridgeAnswerStep::CreateAnswer,
                true,
                has_offer,
                webrtc,
            ) == BridgeAnswerStep::SetLocal,
{
}

/// The caller is answered with the callee's description where there is no offer to answer
/// or a step of its own side fails, and never while a step is still to come.
pub proof fn failed_negotiation_falls_back(
    step: BridgeAnswerStep,
    ok: bool,
    has_offer: bool,
    webrtc: bool,
)
    ensures
        after_bridge_answer_step(BridgeAnswerStep::ApplyCallee, ok, false, webrtc)
            == BridgeAnswerStep::FallBack,
        step == BridgeAnswerStep::ApplyOffer || step == BridgeAnswerStep::CreateAnswer || step
            == BridgeAnswerStep::SetLocal || step == BridgeAnswerStep::ReadLocal ==> (
        after_bridge_answer_step(step, ok, has_offer, webrtc) == BridgeAnswerStep::FallBack <==> !ok),
        after_bridge_answer_step(step, ok, has_offer, webrtc) == BridgeAnswerStep::Answered ==> step
            == BridgeAnswerStep::ReadLocal || step == BridgeAnswerStep::Answered,
        after_bridge_answer_step(BridgeAnswerStep::Answered, ok, has_offer, webrtc)
            == BridgeAnswerStep::Answered,
        after_bridge_answer_step(BridgeAnswerStep::FallBack, ok, has_offer, webrtc)
            == BridgeAnswerStep::FallBack,
{
}

/// A call starts with its offer and nothing else: no answer, no bridge, nothing sent.
pub proof fn call_starts_with_its_offer_alone(offer: Option<String>)
    ensures
        ({
            let media = MediaState::at_start(offer);
            &&& media.caller_offer == offer
            &&& media.answer is None && media.callee_offer is None && media.callee_answer_sdp is None
            &&& !media.media_bridge && !media.media_bridge_started && !media.early_media_sent
            &&& !media.caller_answer_uses_media_bridge && !media.callee_offer_uses_media_bridge
            &&& media.bridge_playback_track_id is None
        }),
{
}

/// A caller that got its answer as early media gets the same one again, and no other caller
/// gets one where the callee sends none.
pub proof fn early_answer_is_the_answer(m: MediaState, r: Option<String>)
    requires
        call_ensures(MediaState::answer_without_description, (&m,), r),
    ensures
        m.early_media_sent ==> r == m.answer,
        !m.early_media_sent ==> r is None,
{
}

/// The bridge is tried first where there is one, and what comes before the answer is a
/// provisional description of it.
pub proof fn bridge_is_tried_where_there_is_one(
    media_bridge: bool,
    step: BridgeAnswerStep,
    is_early_media: bool,
    kind: SdpType,
)
    requires
        call_ensures(first_bridge_answer_step, (media_bridge,), step),
        call_ensures(callee_description_type, (is_early_media,), kind),
    ensures
        step == BridgeAnswerStep::ApplyCallee <==> media_bridge,
        step == BridgeAnswerStep::FallBack <==> !media_bridge,
        kind == SdpType::Pranswer <==> is_early_media,
        kind == SdpType::Answer <==> !is_early_media,
{
}

/// What one leg sends is turned into what the other leg takes: with the legs exchanged, the
/// plans of the two are exchanged, and legs that speak the same codec need none.
pub proof fn transcoding_goes_both_ways(
    a: LegProfile,
    b: LegProfile,
    there: TranscoderPlan,
    back: TranscoderPlan,
)
    requires
        call_ensures(plan_transcoders, (a, b), there),
        call_ensures(plan_transcoders, (b, a), back),
    ensures
        there.speech matches SpeechPlan::Convert { caller, callee } ==> {
            &&& back.speech == SpeechPlan::Convert { caller: callee, callee: caller }
            &&& caller.from == a.audio->0.codec && callee.from == b.audio->0.codec
            &&& caller.to == callee.from && callee.to == caller.from
            &&& caller.from != caller.to
            &&& caller.payload_type == b.audio->0.payload_type
            &&& callee.payload_type == a.audio->0.payload_type
        },
        there.speech == SpeechPlan::Leave <==> a.audio is None || b.audio is None,
        a.audio is Some && b.audio is Some ==> (there.speech == SpeechPlan::Direct
            <==> a.audio->0.codec == b.audio->0.codec),
        there.dtmf is Some <==> a.dtmf is Some && b.dtmf is Some,
        there.dtmf matches Some(pair) ==> {
            &&& back.dtmf == Some((pair.1, pair.0))
            &&& pair.0.from == a.dtmf->0 && pair.0.to == b.dtmf->0
            &&& pair.1.from == b.dtmf->0 && pair.1.to == a.dtmf->0
        },
{
}

/// Early media is sent once, to a caller that has made an offer, over the bridge that
/// stands or else over one that is made for it.
pub proof fn early_media_is_sent_once(m: MediaState, plan: EarlyMediaPlan)
    requires
        call_ensures(MediaState::plan_early_media, (&m,), plan),
    ensures
        plan is AlreadySent <==> m.early_media_sent,
        plan is Prepare <==> !m.early_media_sent && m.caller_offer is Some,
        plan matches EarlyMediaPlan::Prepare { create_bridge } ==> create_bridge
            == !m.media_bridge,
{
}

/// Two answers that are planned for the same description, with the legs exchanged: both are
/// negotiated over the bridge exactly where one leg alone speaks WebRTC, each with the flag
/// of its own caller.
pub proof fn plans_of_exchanged_legs_agree(
    media: MediaState,
    path: MediaPathMode,
    a: bool,
    b: bool,
    sdp: Option<String>,
    early: bool,
    there: AnswerPlan,
    back: AnswerPlan,
)
    requires
        call_ensures(MediaState::plan_caller_answer, (&media, path, false, a, b, &sdp, true, early), there),
        call_ensures(MediaState::plan_caller_answer, (&media, path, false, b, a, &sdp, true, early), back),
        sdp is Some,
    ensures
        a != b ==> there == (AnswerPlan::NegotiateBridge { caller_is_webrtc: a }) && back == (
        AnswerPlan::NegotiateBridge { caller_is_webrtc: b }),
        a == b ==> there == back && !(there is NegotiateBridge),
{
    unlike_legs_meet_on_the_bridge(media, path, a, b, sdp->0@, true, early);
}

/// A bridge is taken down once, with what ran on it; the rest of the media stays.
pub proof fn bridge_is_taken_down_once()
    ensures
        forall|m: &mut MediaState, r: bool| #[trigger]
            call_ensures(MediaState::take_bridge, (m,), r) ==> {
                &&& r == m.media_bridge
                &&& !final(m).media_bridge
                &&& r ==> !final(m).media_bridge_started && final(m).bridge_playback_track_id is None
                &&& !r ==> *final(m) == *m
                &&& final(m).answer == m.answer && final(m).caller_offer == m.caller_offer
                &&& final(m).callee_offer == m.callee_offer
                &&& final(m).callee_answer_sdp == m.callee_answer_sdp
                &&& final(m).early_media_sent == m.early_media_sent
            },
{
}

/// The bridge forwards from the moment it has both descriptions, and is started once.
pub proof fn bridge_is_started_once()
    ensures
        forall|m: &mut MediaState, complete: bool, r: bool| #[trigger]
            call_ensures(MediaState::start_media_bridge_forwarding, (m, complete), r) ==> {
                &&& r ==> complete && m.media_bridge && !m.media_bridge_started
                &&& complete && m.media_bridge ==> final(m).media_bridge_started
                &&& !r ==> *final(m) == *m
                &&& r ==> *final(m) == (MediaState { media_bridge_started: true, ..*m })
            },
{
}

/// The caller is given again the answer that it has, and what the callee said is kept beside
/// it.
pub proof fn kept_answer_is_given_again()
    ensures
        forall|m: &mut MediaState, sdp: String, r: Option<String>| #[trigger]
            call_ensures(MediaState::keep_answer, (m, sdp), r) ==> {
                &&& r == m.answer && final(m).answer == m.answer
                &&& final(m).callee_answer_sdp == Some(sdp)
                &&& final(m).media_bridge == m.media_bridge
                &&& final(m).early_media_sent == m.early_media_sent
                &&& final(m).caller_answer_uses_media_bridge == m.caller_answer_uses_media_bridge
            },
{
}

/// An answer that was built for a bridged offer runs on the bridge; media flows to the
/// caller at once but for early media, and past the bridge only where there is none.
pub proof fn finished_answer_runs_where_it_was_built()
    ensures
        forall|
            m: &mut MediaState,
            path: MediaPathMode,
            sdp: String,
            answer: Option<String>,
            early: bool,
            r: AnswerEffects,
        | #[trigger]
            call_ensures(MediaState::finish_caller_answer, (m, path, sdp, answer, early), r) ==> {
                &&& final(m).answer == answer && final(m).callee_answer_sdp == Some(sdp)
                &&& final(m).caller_answer_uses_media_bridge == r.start_bridge_forwarding
                &&& r.start_bridge_forwarding <==> (m.callee_offer_uses_media_bridge
                    && m.media_bridge && answer is Some)
                &&& r.open_gate <==> r.start_bridge_forwarding && !early
                &&& !(r.start_bridge_forwarding && r.start_anchored_forwarding)
                &&& !m.media_bridge ==> (r.start_anchored_forwarding <==> path
                    == MediaPathMode::Anchored)
                &&& final(m).media_bridge == m.media_bridge && final(m).early_media_sent
                    == m.early_media_sent && final(m).caller_offer == m.caller_offer
            },
{
}

/// Early media that went out is the caller's answer, on a bridge that stands from then on;
/// where it failed, a bridge that was made for it is gone and any other stands.
pub proof fn early_media_leaves_the_bridge()
    ensures
        forall|m: &mut MediaState, answer: String| #[trigger]
            call_ensures(MediaState::early_media_answered, (m, answer), ()) ==> {
                &&& final(m).answer == Some(answer) && final(m).early_media_sent
                &&& final(m).media_bridge && final(m).caller_answer_uses_media_bridge
                &&& final(m).caller_offer == m.caller_offer && final(m).callee_offer
                    == m.callee_offer && final(m).callee_answer_sdp == m.callee_answer_sdp
            },
        forall|m: &mut MediaState, created: bool| #[trigger]
            call_ensures(MediaState::early_media_failed, (m, created), ()) ==> {
                &&& created ==> !final(m).media_bridge
                &&& !created ==> *final(m) == *m
                &&& final(m).answer == m.answer && final(m).early_media_sent == m.early_media_sent
            },
{
}

/// An app that got an answer runs on the bridge; without one, a bridge that was made for it
/// is gone and the caller keeps the answer that it had.
pub proof fn app_without_answer_leaves_no_bridge()
    ensures
        forall|m: &mut MediaState, created: bool, answer: Option<String>| #[trigger]
            call_ensures(MediaState::finish_app_bridge, (m, created, answer), ()) ==> {
                &&& final(m).caller_answer_uses_media_bridge <==> answer is Some
                &&& answer is Some ==> final(m).answer == answer && final(m).media_bridge
                &&& answer is None ==> final(m).answer == m.answer
                &&& answer is None && created ==> !final(m).media_bridge
                &&& answer is None && !created ==> final(m).media_bridge == m.media_bridge
                &&& final(m).callee_offer == m.callee_offer && final(m).caller_offer
                    == m.caller_offer && final(m).early_media_sent == m.early_media_sent
            },
        forall|m: &mut MediaState, answer: Option<String>, r: Option<String>| #[trigger]
            call_ensures(MediaState::local_answer_built, (m, answer), r) ==> {
                &&& r == answer
                &&& answer is Some ==> final(m).answer == answer
                    && !final(m).caller_answer_uses_media_bridge
                &&& answer is None ==> *final(m) == *m
                &&& final(m).media_bridge == m.media_bridge && final(m).caller_offer
                    == m.caller_offer && final(m).callee_answer_sdp == m.callee_answer_sdp
            },
{
}

/// The caller is answered with the callee's description where the bridge fell back; else with
/// the bridge's own, narrowed to what was selected where anything was.
pub proof fn bridge_answers_with_its_own_description(
    sdp: String,
    local: String,
    restricted: Option<String>,
    selected: usize,
    rewritten: Option<String>,
    fell_back: String,
    r: String,
)
    requires
        call_ensures(
            bridge_answer,
            (BridgeAnswerStep::FallBack, sdp, None, restricted, selected, rewritten),
            fell_back,
        ),
        call_ensures(
            bridge_answer,
            (BridgeAnswerStep::Answered, sdp, Some(local), restricted, selected, rewritten),
            r,
        ),
    ensures
        fell_back == sdp,
        selected > 0 && rewritten is Some ==> r == rewritten->0,
        (selected == 0 || rewritten is None) && restricted is Some ==> r == restricted->0,
        (selected == 0 || rewritten is None) && restricted is None ==> r == local,
{
}

/// A re-INVITE is answered at the bridge only on a side whose media runs there: the caller's
/// by its answer, the callee's by its offer.
pub proof fn reinvite_is_answered_at_its_side(
    m: MediaState,
    legs: LegRegistry,
    caller: Option<BridgeEndpoint>,
    callee: Option<BridgeEndpoint>,
)
    requires
        call_ensures(MediaState::reinvite_endpoint, (&m, &legs, DialogSide::Caller), caller),
        call_ensures(MediaState::reinvite_endpoint, (&m, &legs, DialogSide::Callee), callee),
    ensures
        caller is Some <==> m.media_bridge && m.caller_answer_uses_media_bridge,
        callee is Some <==> m.media_bridge && m.callee_offer_uses_media_bridge,
        caller is Some ==> caller->0 == legs.endpoint("caller"@),
        callee is Some ==> callee->0 == legs.endpoint("callee"@),
{
}

/// The answer that stands is the caller's; a caller without one is given the callee's where
/// media goes past the proxy, and nothing else.
pub proof fn standing_answer_is_the_callers()
    ensures
        forall|m: &mut MediaState, path: MediaPathMode, r: Option<String>| #[trigger]
            call_ensures(MediaState::standing_answer, (m, path), r) ==> {
                &&& m.answer is Some ==> r == m.answer
                &&& m.answer is None && bypasses(*m, path) ==> r == m.callee_answer_sdp
                &&& m.answer is None && !bypasses(*m, path) ==> r is None
                &&& final(m).answer == r
                &&& final(m).callee_answer_sdp == m.callee_answer_sdp && final(m).caller_offer
                    == m.caller_offer && final(m).media_bridge == m.media_bridge
            },
{
}

/// An app that needs the caller's media is bridged to it once, and the two sides of that
/// bridge are never both WebRTC nor both plain.
pub proof fn app_bridge_joins_unlike_sides()
    ensures
        forall|m: &mut MediaState, legs: &mut LegRegistry, r: AppBridgePlan| #[trigger]
            call_ensures(MediaState::prepare_app_bridge, (m, legs), r) ==> {
                &&& r is Answered <==> m.answer is Some
                &&& r is NoOffer <==> m.answer is None && m.caller_offer is None
                &&& !(r is Prepare) ==> *final(m) == *m && *final(legs) == *legs
                &&& r matches AppBridgePlan::Prepare { create_bridge, caller_is_webrtc } ==> {
                    &&& create_bridge == !m.media_bridge
                    &&& final(legs).transports.value("callee"@) == Some(TransportMode::WebRtc)
                        <==> !caller_is_webrtc
                    &&& caller_is_webrtc == is_webrtc_sdp(m.caller_offer->0@)
                    &&& !final(m).callee_offer_uses_media_bridge
                    &&& final(m).answer is None && final(m).caller_offer == m.caller_offer
                }
            },
{
}

/// The steps of an answer over the bridge come in their order; a step that fails falls back,
/// only a WebRTC caller waits for candidates, and an answer is final.
pub proof fn bridge_answer_is_built_step_by_step(
    step: BridgeAnswerStep,
    has_offer: bool,
    webrtc: bool,
    done: BridgeAnswerStep,
    failed: BridgeAnswerStep,
)
    requires
        call_ensures(next_bridge_answer_step, (step, true, has_offer, webrtc), done),
        call_ensures(next_bridge_answer_step, (step, false, has_offer, webrtc), failed),
    ensures
        step == BridgeAnswerStep::ApplyCallee ==> done == failed && (done
            == BridgeAnswerStep::ApplyOffer <==> has_offer),
        step == BridgeAnswerStep::ApplyCallee && !has_offer ==> done == BridgeAnswerStep::FallBack,
        step == BridgeAnswerStep::ApplyOffer ==> done == BridgeAnswerStep::CreateAnswer,
        step == BridgeAnswerStep::CreateAnswer ==> done == BridgeAnswerStep::SetLocal,
        step == BridgeAnswerStep::SetLocal && webrtc ==> done == BridgeAnswerStep::GatherCandidates,
        step == BridgeAnswerStep::SetLocal && !webrtc ==> done == BridgeAnswerStep::ReadLocal,
        step == BridgeAnswerStep::GatherCandidates ==> done == BridgeAnswerStep::ReadLocal
            && failed == done,
        step == BridgeAnswerStep::ReadLocal ==> done == BridgeAnswerStep::Answered,
        step == BridgeAnswerStep::ApplyOffer || step == BridgeAnswerStep::CreateAnswer || step
            == BridgeAnswerStep::SetLocal || step == BridgeAnswerStep::ReadLocal ==> failed
            == BridgeAnswerStep::FallBack,
        step == BridgeAnswerStep::Answered ==> done == step && failed == step,
{
}

/// A callee that speaks WebRTC is offered that; another one is offered SRTP exactly where the
/// caller speaks it.
pub proof fn callee_transport_follows_the_callers(
    m: MediaState,
    legs: LegRegistry,
    to_webrtc: TransportMode,
    to_other: TransportMode,
    callers: TransportMode,
)
    requires
        call_ensures(callee_transport_mode, (&m, &legs, true), to_webrtc),
        call_ensures(callee_transport_mode, (&m, &legs, false), to_other),
        call_ensures(caller_transport_mode, (&m, &legs), callers),
    ensures
        to_webrtc == TransportMode::WebRtc,
        to_other == TransportMode::Srtp <==> callers == TransportMode::Srtp,
        to_other != TransportMode::Srtp ==> to_other == TransportMode::Rtp,
{
}

} // verus!
