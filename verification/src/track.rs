//! The tracks and bridges that a call's media is set up with.

use crate::codecs::{clone_infos, first_speech, first_speech_codec, CodecInfo};
use crate::legs::LegRegistry;
use crate::media::{
    bypasses, bypasses_local_media, callee_mode, callee_transport_mode, caller_mode,
    caller_transport_mode, caller_webrtc, is_caller_webrtc, transport_of, MediaPathMode,
    MediaState,
};
use crate::sdp::{
    all_capabilities, cap_views, parse_sdp, parsed_sdp, sections_of, video_capabilities,
    CapabilityView, ParsedSdp, SdpType, TransportMode, VideoCapability,
};
use crate::text;
use crate::video::{filter_video_caps_for_rtp, rtp_capabilities};
use vstd::prelude::*;

verus! {

/// The addresses and ports for media.
pub struct RtpConfig {
    pub external_ip: Option<String>,
    pub bind_ip: Option<String>,
    pub start_port: Option<u16>,
    pub end_port: Option<u16>,
    pub webrtc_start_port: Option<u16>,
    pub webrtc_end_port: Option<u16>,
}

/// What a session's media is configured with.
pub struct MediaConfig {
    pub rtp: RtpConfig,
    pub enable_latching: bool,
    pub probation_max_packets: Option<u32>,
    pub video_codecs: Vec<String>,
    pub recording_enabled: bool,
    pub recording_force_file: bool,
}

/// Both ends of a port range, where both are configured.
pub open spec fn both(start: Option<u16>, end: Option<u16>) -> Option<(u16, u16)> {
    match (start, end) {
        (Some(a), Some(b)) => Some((a, b)),
        _ => None,
    }
}

pub fn both_ports(start: Option<u16>, end: Option<u16>) -> (r: Option<(u16, u16)>)
    ensures
        r == both(start, end),
{
    match (start, end) {
        (Some(a), Some(b)) => Some((a, b)),
        _ => None,
    }
}

impl RtpConfig {
    /// The ports of a track: those for WebRTC, or those for RTP.
    pub open spec fn ports(self, mode: TransportMode) -> Option<(u16, u16)> {
        if mode == TransportMode::WebRtc {
            both(self.webrtc_start_port, self.webrtc_end_port)
        } else {
            both(self.start_port, self.end_port)
        }
    }

    pub fn port_range(&self, mode: TransportMode) -> (r: Option<(u16, u16)>)
        ensures
            r == self.ports(mode),
    {
        if mode == TransportMode::WebRtc {
            both_ports(self.webrtc_start_port, self.webrtc_end_port)
        } else {
            both_ports(self.start_port, self.end_port)
        }
    }

    /// The address that media is bound to: the external one, else the configured one,
    /// else the loopback.
    pub fn media_address(&self) -> (r: String)
        ensures
            match self.external_ip {
                Some(ip) => r == ip,
                None => match self.bind_ip {
                    Some(ip) => r == ip,
                    None => r@ == "127.0.0.1"@,
                },
            },
    {
        match &self.external_ip {
            Some(ip) => ip.clone(),
            None => match &self.bind_ip {
                Some(ip) => ip.clone(),
                None => "127.0.0.1".to_owned(),
            },
        }
    }
}

/// The codecs of the caller's offer that a call may use, as each leg is offered them.
pub struct OfferedCodecs {
    pub caller: Vec<CodecInfo>,
    pub callee: Vec<CodecInfo>,
    /// Those of the callee's that a WebRTC callee is offered.
    pub webrtc_callee: Vec<CodecInfo>,
}

impl OfferedCodecs {
    /// What a callee is offered.
    pub open spec fn for_callee(self, callee_is_webrtc: bool) -> Seq<CodecInfo> {
        if callee_is_webrtc {
            self.webrtc_callee@
        } else {
            self.callee@
        }
    }
}

/// The codecs that a callee is offered: those for WebRTC where it speaks that, else the
/// plain ones.
pub fn callee_codecs(
    callee_is_webrtc: bool,
    plain: &Vec<CodecInfo>,
    for_webrtc: &Vec<CodecInfo>,
) -> (r: Vec<CodecInfo>)
    ensures
        r@ == (if callee_is_webrtc {
            for_webrtc@
        } else {
            plain@
        }),
{
    if callee_is_webrtc {
        clone_infos(for_webrtc)
    } else {
        clone_infos(plain)
    }
}

/// How a media bridge is set up. Its caller side speaks WebRTC, its callee side RTP.
pub struct BridgeSettings {
    pub id: String,
    pub port_range: Option<(u16, u16)>,
    /// The RTP side is written as the caller, who bundles its media, writes it.
    pub standard_sdp: bool,
    pub latching: bool,
    pub probation_max_packets: Option<u32>,
    /// The RTP side is encrypted.
    pub srtp: bool,
    pub caller_codecs: Vec<CodecInfo>,
    pub callee_codecs: Vec<CodecInfo>,
    pub sender_codecs: Option<(CodecInfo, CodecInfo)>,
    pub video: Vec<VideoCapability>,
    pub record: bool,
    pub capture: bool,
}

/// An RTP caller whose offer bundles its media.
pub open spec fn bundles(offer: Option<String>, caller_is_webrtc: bool) -> bool {
    !caller_is_webrtc && (offer matches Some(sdp) && text::contains(sdp@, "a=group:BUNDLE"@))
}

/// The codecs to send to the two sides, where both have one that carries speech.
pub open spec fn senders(caller: Seq<CodecInfo>, callee: Seq<CodecInfo>) -> Option<(CodecInfo, CodecInfo)> {
    match (first_speech(caller), first_speech(callee)) {
        (Some(a), Some(b)) => Some((a, b)),
        _ => None,
    }
}

/// The settings of a bridge between a caller and a callee, one of which speaks
/// WebRTC.
pub open spec fn bridge_settings_fit(
    r: BridgeSettings,
    offer: Option<String>,
    caller_is_webrtc: bool,
    rtp_side: TransportMode,
    config: MediaConfig,
    caller: Seq<CodecInfo>,
    callee: Seq<CodecInfo>,
) -> bool {
    let webrtc_codecs = if caller_is_webrtc { caller } else { callee };
    let rtp_codecs = if caller_is_webrtc { callee } else { caller };
    &&& r.port_range == both(config.rtp.start_port, config.rtp.end_port)
    &&& r.standard_sdp == bundles(offer, caller_is_webrtc)
    &&& r.latching == (config.enable_latching || bundles(offer, caller_is_webrtc))
    &&& r.probation_max_packets == if bundles(offer, caller_is_webrtc) {
        Some(6u32)
    } else {
        config.probation_max_packets
    }
    &&& r.srtp == (rtp_side == TransportMode::Srtp)
    &&& r.caller_codecs@ == webrtc_codecs
    &&& r.callee_codecs@ == rtp_codecs
    &&& r.sender_codecs == senders(webrtc_codecs, rtp_codecs)
    &&& r.record == config.recording_enabled
    &&& r.capture == (config.recording_enabled && !config.recording_force_file)
}

/// The settings for a bridge between the caller and another leg, without video, by the
/// codecs that the two are offered.
pub fn bridge_settings(
    id: String,
    offer: &Option<String>,
    caller_is_webrtc: bool,
    rtp_side: TransportMode,
    config: &MediaConfig,
    caller: &Vec<CodecInfo>,
    callee: &Vec<CodecInfo>,
) -> (r: BridgeSettings)
    ensures
        r.id == id,
        bridge_settings_fit(r, *offer, caller_is_webrtc, rtp_side, *config, caller@, callee@),
        r.video@.len() == 0,
{
    let bundled = match offer {
        Some(sdp) => !caller_is_webrtc && text::has(sdp, "a=group:BUNDLE"),
        None => false,
    };
    let caller_codecs = if caller_is_webrtc {
        clone_infos(caller)
    } else {
        clone_infos(callee)
    };
    let callee_codecs = if caller_is_webrtc {
        clone_infos(callee)
    } else {
        clone_infos(caller)
    };
    let sender_codecs = match (first_speech_codec(&caller_codecs), first_speech_codec(&callee_codecs)) {
        (Some(a), Some(b)) => Some((a, b)),
        _ => None,
    };
    BridgeSettings {
        id,
        port_range: both_ports(config.rtp.start_port, config.rtp.end_port),
        standard_sdp: bundled,
        latching: config.enable_latching || bundled,
        probation_max_packets: if bundled {
            Some(6)
        } else {
            config.probation_max_packets
        },
        srtp: rtp_side == TransportMode::Srtp,
        caller_codecs,
        callee_codecs,
        sender_codecs,
        video: Vec::new(),
        record: config.recording_enabled,
        capture: config.recording_enabled && !config.recording_force_file,
    }
}

/// The track that a callee is offered where no bridge is needed.
pub struct TrackSettings {
    pub mode: TransportMode,
    /// The track is anchored here: it has ports, addresses and video of its own.
    pub anchored: bool,
    pub port_range: Option<(u16, u16)>,
    pub codecs: Vec<CodecInfo>,
    pub video: Vec<VideoCapability>,
    pub use_ice_servers: bool,
}

/// How the callee's offer is made.
pub enum CalleeTrackPlan {
    /// The offer is that of the bridge that the caller was answered from.
    ReuseBridge,
    BuildBridge(BridgeSettings),
    Track(TrackSettings),
}

/// The legs speak different transports.
pub open spec fn needs_bridge(media: MediaState, legs: LegRegistry, callee_is_webrtc: bool) -> bool {
    caller_webrtc(media, legs) != callee_is_webrtc
}

/// Plans the callee's offer, given the video capabilities of the caller's offer, and
/// notes the transports of the two legs.
pub fn plan_callee_track(
    media: &mut MediaState,
    legs: &mut LegRegistry,
    session_id: &str,
    path: MediaPathMode,
    config: &MediaConfig,
    offered: &OfferedCodecs,
    caller_video: Vec<VideoCapability>,
    callee_is_webrtc: bool,
) -> (r: CalleeTrackPlan)
    ensures
        ({
            let bridged = needs_bridge(*old(media), *old(legs), callee_is_webrtc);
            let caller = caller_mode(*old(media), *old(legs));
            let callee = callee_mode(caller, callee_is_webrtc);
            &&& *final(media) == (MediaState {
                callee_offer_uses_media_bridge: bridged,
                ..*old(media)
            })
            &&& final(legs).transports.value("caller"@) == Some(caller)
            &&& final(legs).transports.value("callee"@) == Some(callee)
            &&& forall|k: Seq<char>|
                k != "caller"@ && k != "callee"@ ==> #[trigger] final(legs).transports.value(k)
                    == old(legs).transports.value(k)
            &&& final(legs).states == old(legs).states
            &&& final(legs).video == old(legs).video
            &&& final(legs).answers == old(legs).answers
            &&& old(legs).wf() ==> final(legs).wf()
            &&& r is Track <==> !bridged
            &&& r is ReuseBridge <==> bridged && old(media).caller_answer_uses_media_bridge
                && old(media).media_bridge
            &&& r matches CalleeTrackPlan::BuildBridge(b) ==> {
                let caller_is_webrtc = caller_webrtc(*old(media), *old(legs));
                &&& b.id@ == session_id@ + "-bridge"@
                &&& bridge_settings_fit(
                    b,
                    old(media).caller_offer,
                    caller_is_webrtc,
                    if caller_is_webrtc { callee } else { caller },
                    *config,
                    offered.caller@,
                    offered.for_callee(callee_is_webrtc),
                )
                &&& cap_views(b.video@) == rtp_capabilities(
                    cap_views(caller_video@),
                    text::views(config.video_codecs@),
                )
            }
            &&& r matches CalleeTrackPlan::Track(t) ==> {
                &&& t.mode == callee
                &&& t.anchored == (path == MediaPathMode::Anchored)
                &&& t.codecs@ == offered.for_callee(callee_is_webrtc)
                &&& t.port_range == if t.anchored {
                    config.rtp.ports(callee)
                } else {
                    None
                }
                &&& t.anchored ==> t.video == caller_video
                &&& !t.anchored ==> t.video@.len() == 0
                &&& t.use_ice_servers == (t.anchored && callee_is_webrtc)
            }
        }),
{
    let caller_is_webrtc = is_caller_webrtc(media, legs);
    let caller = caller_transport_mode(media, legs);
    let callee = callee_transport_mode(media, legs, callee_is_webrtc);
    proof {
        reveal_strlit("caller");
        reveal_strlit("callee");
        assert("caller"@[5] != "callee"@[5]);
    }
    legs.set_transport("caller", caller);
    legs.set_transport("callee", callee);
    let codecs = callee_codecs(callee_is_webrtc, &offered.callee, &offered.webrtc_callee);
    if caller_is_webrtc != callee_is_webrtc {
        media.callee_offer_uses_media_bridge = true;
        if media.caller_answer_uses_media_bridge && media.media_bridge {
            return CalleeTrackPlan::ReuseBridge;
        }
        let id = text::concat(session_id, "-bridge");
        let rtp_side = if caller_is_webrtc { callee } else { caller };
        let mut settings = bridge_settings(
            id,
            &media.caller_offer,
            caller_is_webrtc,
            rtp_side,
            config,
            &offered.caller,
            &codecs,
        );
        settings.video = filter_video_caps_for_rtp(&caller_video, &config.video_codecs);
        return CalleeTrackPlan::BuildBridge(settings);
    }
    media.callee_offer_uses_media_bridge = false;
    let anchored = path == MediaPathMode::Anchored;
    let port_range = if anchored {
        config.rtp.port_range(callee)
    } else {
        None
    };
    let video = if anchored {
        caller_video
    } else {
        Vec::new()
    };
    CalleeTrackPlan::Track(
        TrackSettings {
            mode: callee,
            anchored,
            port_range,
            codecs,
            video,
            use_ice_servers: anchored && callee_is_webrtc,
        },
    )
}

/// The video capabilities of an offer; none where there is no offer that can be read.
pub open spec fn offered_capabilities(offer: Option<String>) -> Seq<CapabilityView> {
    match offer {
        Some(sdp) => match parsed_sdp(SdpType::Offer, sdp@) {
            ParsedSdp::Description(desc) => all_capabilities(sections_of(desc)),
            ParsedSdp::Failure(_) => Seq::empty(),
        },
        None => Seq::empty(),
    }
}

pub fn read_offered_video(offer: &Option<String>) -> (r: Vec<VideoCapability>)
    ensures
        cap_views(r@) == offered_capabilities(*offer),
{
    if let Some(sdp) = offer {
        if let Ok(desc) = parse_sdp(SdpType::Offer, sdp, "caller offer") {
            return video_capabilities(&desc);
        }
    }
    let none: Vec<VideoCapability> = Vec::new();
    assert(cap_views(none@) =~= Seq::empty());
    none
}

/// The settings of the bridge between a caller and an application.
pub fn app_bridge_settings(
    session_id: &str,
    offer: String,
    caller_is_webrtc: bool,
    config: &MediaConfig,
    offered: &OfferedCodecs,
) -> (r: BridgeSettings)
    ensures
        r.id@ == session_id@ + "-app-bridge"@,
        r.video@.len() == 0,
        bridge_settings_fit(
            r,
            Some(offer),
            caller_is_webrtc,
            if caller_is_webrtc {
                TransportMode::Rtp
            } else {
                transport_of(offer@)
            },
            *config,
            offered.caller@,
            offered.callee@,
        ),
{
    let id = text::concat(session_id, "-app-bridge");
    let rtp_side = if caller_is_webrtc {
        TransportMode::Rtp
    } else {
        crate::media::sdp_transport_mode(&offer)
    };
    let offer = Some(offer);
    bridge_settings(
        id,
        &offer,
        caller_is_webrtc,
        rtp_side,
        config,
        &offered.caller,
        &offered.callee,
    )
}

/// A bridge is encrypted on its RTP side exactly where the leg there is secure, so a
/// bridge for an SRTP caller or callee never weakens it.
pub proof fn bridge_keeps_encryption(
    r: BridgeSettings,
    offer: Option<String>,
    caller_is_webrtc: bool,
    rtp_side: TransportMode,
    config: MediaConfig,
    caller: Seq<CodecInfo>,
    callee: Seq<CodecInfo>,
)
    requires
        bridge_settings_fit(r, offer, caller_is_webrtc, rtp_side, config, caller, callee),
    ensures
        r.srtp <==> rtp_side == TransportMode::Srtp,
{
}

/// Where the offer of the callee comes from.
#[derive(Clone, Copy, PartialEq, Eq, Debug, Structural)]
pub enum CalleeOfferSource {
    /// The caller's offer is passed on, rewritten to the selected codecs where there
    /// is a policy and it can be met.
    CallerOffer,
    /// The callee gets a track or a bridge of its own.
    OwnTrack,
}

/// Media that bypasses the proxy takes the caller's offer on to a callee of the same
/// transport; every other callee gets a track.
pub fn callee_offer_source(
    media: &MediaState,
    legs: &LegRegistry,
    path: MediaPathMode,
    callee_is_webrtc: bool,
) -> (r: CalleeOfferSource)
    ensures
        r == (if bypasses(*media, path) && caller_webrtc(*media, *legs) == callee_is_webrtc {
            CalleeOfferSource::CallerOffer
        } else {
            CalleeOfferSource::OwnTrack
        }),
{
    if bypasses_local_media(media, path) && is_caller_webrtc(media, legs) == callee_is_webrtc {
        CalleeOfferSource::CallerOffer
    } else {
        CalleeOfferSource::OwnTrack
    }
}

/// Passes the caller's offer on to the callee: rewritten where codecs were allowed and
/// selected and the rewriting succeeded, else as the caller sent it.
pub fn pass_on_offer(media: &mut MediaState, selected: usize, rewritten: Option<String>) -> (r: Option<
    String,
>)
    ensures
        r == (match old(media).caller_offer {
            None => None,
            Some(offer) => match rewritten {
                Some(sdp) if selected > 0 => Some(sdp),
                _ => Some(offer),
            },
        }),
        *final(media) == (MediaState {
            callee_offer: r,
            callee_offer_uses_media_bridge: false,
            ..*old(media)
        }),
{
    media.callee_offer_uses_media_bridge = false;
    let offer = match &media.caller_offer {
        None => None,
        Some(offer) => Some(
            crate::codecs::rewrite_answer_to_selected_codecs(offer.clone(), selected, rewritten),
        ),
    };
    media.callee_offer = offer.clone();
    offer
}

/// A port range needs both its ends, and a WebRTC track takes that for WebRTC, any other
/// that for RTP.
pub proof fn ports_are_those_of_the_transport(config: RtpConfig, a: u16, b: u16)
    ensures
        both(Some(a), Some(b)) == Some((a, b)),
        both(Some(a), None) is None,
        both(None, Some(b)) is None,
        both(None, None) is None,
        config.webrtc_start_port == Some(a) && config.webrtc_end_port == Some(b) ==> config.ports(
            TransportMode::WebRtc,
        ) == Some((a, b)),
        config.start_port == Some(a) && config.end_port == Some(b) ==> config.ports(TransportMode::Rtp)
            == Some((a, b)) && config.ports(TransportMode::Srtp) == Some((a, b)),
{
}

/// A WebRTC callee is offered the codecs for WebRTC, and any other the plain ones.
pub proof fn callee_is_offered_its_own_codecs(offered: OfferedCodecs)
    ensures
        offered.for_callee(true) == offered.webrtc_callee@,
        offered.for_callee(false) == offered.callee@,
{
}

/// The WebRTC side of a bridge has the codecs of the leg that speaks WebRTC and the other
/// side those of the other leg: to swap the legs, and who speaks WebRTC, changes neither.
pub proof fn bridge_sides_keep_their_codecs(
    r: BridgeSettings,
    swapped: BridgeSettings,
    offer: Option<String>,
    side: TransportMode,
    config: MediaConfig,
    webrtc: Seq<CodecInfo>,
    rtp: Seq<CodecInfo>,
)
    requires
        bridge_settings_fit(r, offer, true, side, config, webrtc, rtp),
        bridge_settings_fit(swapped, offer, false, side, config, rtp, webrtc),
    ensures
        r.caller_codecs@ == webrtc && r.callee_codecs@ == rtp,
        swapped.caller_codecs@ == webrtc && swapped.callee_codecs@ == rtp,
        r.sender_codecs == swapped.sender_codecs,
        r.sender_codecs matches Some((a, b)) ==> first_speech(webrtc) == Some(a) && first_speech(rtp)
            == Some(b),
        r.sender_codecs is None <==> first_speech(webrtc) is None || first_speech(rtp) is None,
{
}

/// A bridge records exactly where that is on, and captures unless a file is wanted; its
/// ports are those for RTP. For a plain caller that bundles its media it latches, with six
/// packets of probation; else it does as configured.
pub proof fn bridge_is_set_up_as_configured(
    r: BridgeSettings,
    offer: Option<String>,
    caller_is_webrtc: bool,
    side: TransportMode,
    config: MediaConfig,
    caller: Seq<CodecInfo>,
    callee: Seq<CodecInfo>,
)
    requires
        bridge_settings_fit(r, offer, caller_is_webrtc, side, config, caller, callee),
    ensures
        r.record <==> config.recording_enabled,
        r.capture ==> r.record,
        config.recording_force_file ==> !r.capture,
        config.recording_enabled && !config.recording_force_file ==> r.capture,
        r.port_range matches Some((a, b)) ==> config.rtp.start_port == Some(a) && config.rtp.end_port
            == Some(b),
        config.rtp.start_port is Some && config.rtp.end_port is Some ==> r.port_range is Some,
        config.enable_latching ==> r.latching,
        r.standard_sdp ==> r.latching && r.probation_max_packets == Some(6u32),
        !r.standard_sdp ==> r.latching == config.enable_latching && r.probation_max_packets
            == config.probation_max_packets,
        caller_is_webrtc || offer is None ==> !r.standard_sdp,
        !caller_is_webrtc && (offer matches Some(sdp) && text::contains(sdp@, "a=group:BUNDLE"@))
            ==> r.standard_sdp,
        (offer matches Some(sdp) && !text::contains(sdp@, "a=group:BUNDLE"@)) ==> !r.standard_sdp,
        r.srtp <==> side == TransportMode::Srtp,
{
}

/// Legs need a bridge exactly where one speaks WebRTC and the other does not, by the
/// caller's offer where there is one.
pub proof fn unlike_legs_need_a_bridge(media: MediaState, legs: LegRegistry)
    ensures
        needs_bridge(media, legs, true) != needs_bridge(media, legs, false),
        media.caller_offer matches Some(offer) ==> (needs_bridge(media, legs, true) <==> transport_of(
            offer@,
        ) != TransportMode::WebRtc),
        needs_bridge(media, legs, true) <==> caller_mode(media, legs) != TransportMode::WebRtc,
{
}

/// Without an offer that can be read there is no video to offer on.
pub proof fn unreadable_offer_has_no_video(offer: Option<String>)
    ensures
        offer is None ==> offered_capabilities(offer).len() == 0,
        offer matches Some(sdp) && parsed_sdp(SdpType::Offer, sdp@) is Failure
            ==> offered_capabilities(offer).len() == 0,
        offer matches Some(sdp) ==> (parsed_sdp(SdpType::Offer, sdp@) matches ParsedSdp::Description(
            desc,
        ) ==> offered_capabilities(offer) == all_capabilities(sections_of(desc))),
{
}

/// The address for media is the one that others see, then the one that is bound; the callee
/// is offered the codecs for what it is.
pub proof fn address_that_others_see_comes_first(t: RtpConfig, r: String)
    requires
        call_ensures(RtpConfig::media_address, (&t,), r),
    ensures
        t.external_ip matches Some(ip) ==> r == ip,
        t.external_ip is None && t.bind_ip is Some ==> r == t.bind_ip->0,
        t.external_ip is None && t.bind_ip is None ==> r@ == "127.0.0.1"@,
{
}

/// A WebRTC callee is offered the codecs for WebRTC, another callee the plain ones.
pub proof fn each_callee_gets_the_codecs_for_it(
    plain: Vec<CodecInfo>,
    for_webrtc: Vec<CodecInfo>,
    to_webrtc: Vec<CodecInfo>,
    to_other: Vec<CodecInfo>,
)
    requires
        call_ensures(callee_codecs, (true, &plain, &for_webrtc), to_webrtc),
        call_ensures(callee_codecs, (false, &plain, &for_webrtc), to_other),
    ensures
        to_webrtc@ == for_webrtc@,
        to_other@ == plain@,
{
}

/// An offer that is passed on is the caller's, rewritten only where codecs were selected for
/// it; it is kept as what the callee was offered, past any bridge.
pub proof fn passed_on_offer_is_the_callers()
    ensures
        forall|
            m: &mut MediaState,
            selected: usize,
            rewritten: Option<String>,
            r: Option<String>,
        | #[trigger]
            call_ensures(pass_on_offer, (m, selected, rewritten), r) ==> {
                &&& r is Some <==> m.caller_offer is Some
                &&& r is Some && selected > 0 && rewritten is Some ==> r == rewritten
                &&& r is Some && (selected == 0 || rewritten is None) ==> r == m.caller_offer
                &&& final(m).callee_offer == r && !final(m).callee_offer_uses_media_bridge
                &&& final(m).caller_offer == m.caller_offer && final(m).answer == m.answer
                &&& final(m).media_bridge == m.media_bridge
            },
{
}

/// The callee is offered the caller's own description only where media goes past the proxy
/// and the two speak alike.
pub proof fn unlike_callee_is_offered_a_track(
    m: MediaState,
    legs: LegRegistry,
    path: MediaPathMode,
    to_webrtc: CalleeOfferSource,
    to_other: CalleeOfferSource,
)
    requires
        call_ensures(callee_offer_source, (&m, &legs, path, true), to_webrtc),
        call_ensures(callee_offer_source, (&m, &legs, path, false), to_other),
    ensures
        !bypasses(m, path) ==> to_webrtc is OwnTrack && to_other is OwnTrack,
        to_webrtc is CallerOffer ==> to_other is OwnTrack,
        bypasses(m, path) ==> (to_webrtc is CallerOffer <==> caller_webrtc(m, legs)),
        bypasses(m, path) ==> (to_other is CallerOffer <==> !caller_webrtc(m, legs)),
{
}

/// Ports are limited only where both ends of the range are given, from the start to the end.
pub proof fn range_needs_both_of_its_ends(
    start: u16,
    end: u16,
    r: Option<(u16, u16)>,
    no_start: Option<(u16, u16)>,
    no_end: Option<(u16, u16)>,
)
    requires
        call_ensures(both_ports, (Some(start), Some(end)), r),
        call_ensures(both_ports, (None, Some(end)), no_start),
        call_ensures(both_ports, (Some(start), None), no_end),
    ensures
        r == Some((start, end)),
        no_start is None && no_end is None,
{
}

} // verus!
