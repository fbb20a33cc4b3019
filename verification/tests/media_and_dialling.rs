use proxy_call::apps::{
    agent_uri_from, create_app, file_menu, AppPlan, FileMenu, PendingQueue, RetryFallback,
    StepProvider,
};
use proxy_call::codecs::{
    first_speech_codec, preferred_codecs, rewrite_answer_to_selected_codecs, CodecInfo, CodecType,
};
use proxy_call::dial::{
    build_target_invite_option, dial_refusal, dialled_location, leg_invite, needs_resolution,
    on_callee_progress, on_invite_reply, on_leg_ringing, raise_session_headers, DialContext,
    DialStep, ForkEvent, ForkRace, ForkStep, InviteHeader, InviteReply, InviteStep, LegCall,
    LegEvent, LegNotice, LegRingStep, RingStep, SequentialDial,
};
use proxy_call::dtmf::{
    accepts_frame, build_telephone_event_payload, dtmf_char_to_code, dtmf_code_to_char, dtmf_event,
    dtmf_frames, info_digits, plan_send_dtmf, RtpDtmfDetector,
};
use proxy_call::flow::{
    after_stage, check_media_proxy, mono_samples, next_stage, DialStrategy, DialplanFlow,
    MediaProxyMode, QueuePlan, StageStep,
};
use proxy_call::json::{get_text, parse_json, Json};
use proxy_call::legs::{BridgeEndpoint, DialogSide, Leg, LegRegistry, LegState};
use proxy_call::media::{
    bridge_answer, callee_description_type, callee_transport_mode, caller_transport_mode,
    first_bridge_answer_step, next_bridge_answer_step, plan_transcoders, AnswerPlan, AppBridgePlan,
    BridgeAnswerStep, EarlyMediaPlan, LegProfile, MediaPathMode, MediaState, SpeechPlan,
};
use proxy_call::playback::{
    audio_file_playback, auto_recording_path, infer_track_leg, parse_audio_spec,
    resolve_audio_file_path, tone_samples, tracks_to_stop, AudioSpec, MediaSource, RecordingPhase,
    ToneError, TrackLeg,
};
use proxy_call::relay::{
    accepted_answer, after_offer, finish_bridged_relay, finish_local_answer, mirror_directions,
    plan_bridge_video, plan_local_video, relay_route, update_response, update_route, MidDialogReply, OfferFacts,
    OfferMethod, OfferStep, RelayError, RelayRoute, UpdateOutcome, UpdateRoute,
};
use proxy_call::sdp::{Direction, MediaKind, MediaSection, SdpType, TransportMode, VideoCapability};
use proxy_call::status::{
    map_queue_xfer_err, parse_sipfrag_status, refer_reason_for_status, reject_status,
    sip_status_to_hangup_reason, CallRecordHangupReason, ReferFailure,
};
use proxy_call::track::{
    both_ports, callee_offer_source, pass_on_offer, plan_callee_track, CalleeOfferSource,
    CalleeTrackPlan, MediaConfig, OfferedCodecs, RtpConfig,
};
use proxy_call::uri::{Location, SipAddr, SipUri, Transport};
use proxy_call::video::{filter_video_caps_for_rtp, order_capabilities};

const WEBRTC: &str = "m=audio 9 UDP/TLS/RTP/SAVPF 111\r\na=ice-ufrag:x\r\na=fingerprint:sha-256 AA\r\n";
const SECURE: &str = "m=audio 1000 RTP/SAVP 0\r\na=crypto:1 AES_CM_128_HMAC_SHA1_80 inline:abc\r\n";
const PLAIN: &str = "m=audio 1000 RTP/AVP 0\r\n";

fn text(s: &str) -> String {
    s.to_string()
}

fn uri(s: &str) -> SipUri {
    SipUri::parse(s).unwrap()
}

fn info(payload_type: u8, codec: CodecType) -> CodecInfo {
    CodecInfo { payload_type, codec, clock_rate: 8000, channels: 1 }
}

fn video(payload_type: u8, name: &str, fmtp: Option<&str>) -> VideoCapability {
    VideoCapability {
        payload_type,
        codec_name: text(name),
        clock_rate: 90000,
        fmtp: fmtp.map(|f| f.to_string()),
        rtcp_fbs: Vec::new(),
    }
}

fn section(kind: MediaKind, port: u16, direction: Direction) -> MediaSection {
    MediaSection { kind, port, direction, formats: Vec::new(), attributes: Vec::new() }
}

#[test]
fn digits_and_codes_agree() {
    for code in 0..16u8 {
        let digit = dtmf_code_to_char(code).unwrap();
        assert_eq!(dtmf_char_to_code(digit), Some(code));
    }
    assert_eq!(dtmf_code_to_char(16), None);
    assert_eq!(dtmf_char_to_code('x'), None);
}

#[test]
fn a_built_event_is_observed_once() {
    let mut detector = RtpDtmfDetector::default();
    let start = build_telephone_event_payload('7', false, 0).unwrap();
    let end = build_telephone_event_payload('7', true, 0x1234).unwrap();
    assert_eq!(start, vec![7, 0, 0, 0]);
    assert_eq!(end, vec![7, 0x80, 0x12, 0x34]);
    assert_eq!(detector.observe(&start, 9), Some('7'));
    assert_eq!(detector.observe(&end, 9), None);
    assert_eq!(build_telephone_event_payload('z', false, 0), Err('z'));
}

#[test]
fn frames_of_unknown_types_are_accepted_without_a_type() {
    assert!(accepts_frame(&vec![101], None));
    assert!(accepts_frame(&vec![96, 101], Some(101)));
    assert!(!accepts_frame(&vec![96, 101], Some(0)));
}

#[test]
fn digits_are_read_from_the_body_of_an_info_request() {
    assert_eq!(info_digits("Signal=5\r\nDuration=160\r\n"), vec!['5']);
    assert_eq!(info_digits("signal= *\nSIGNAL=3"), vec!['*', 'S']);
    assert!(info_digits("Duration=160").is_empty());
    let event = dtmf_event("callee", '#');
    assert_eq!(get_text(Some(&event), "type"), Some(text("dtmf")));
    assert_eq!(get_text(Some(&event), "leg_id"), Some(text("callee")));
    assert_eq!(get_text(Some(&event), "digit"), Some(text("#")));
}

#[test]
fn only_digits_are_sent() {
    let (digits, body) = plan_send_dtmf("1a*D").unwrap();
    assert_eq!(digits, vec!['1', '*', 'D']);
    assert_eq!(body, "Signal=1\nDuration=160\nSignal=*\nDuration=160\nSignal=D\nDuration=160");
    assert_eq!(plan_send_dtmf("xyz"), Err(text("No valid DTMF digits provided: xyz")));
    let frames = dtmf_frames(&vec!['1'], u32::MAX, u16::MAX);
    assert_eq!(frames[0].rtp_timestamp, u32::MAX);
    assert_eq!(frames[1].rtp_timestamp, 799);
    assert_eq!(frames[1].sequence_number, 0);
}

#[test]
fn a_secure_offer_stays_secure() {
    let legs = LegRegistry::new();
    let secure = MediaState::new(Some(text(SECURE)));
    assert_eq!(caller_transport_mode(&secure, &legs), TransportMode::Srtp);
    assert_eq!(callee_transport_mode(&secure, &legs, false), TransportMode::Srtp);
    assert_eq!(callee_transport_mode(&secure, &legs, true), TransportMode::WebRtc);
    let plain = MediaState::new(Some(text(PLAIN)));
    assert_eq!(callee_transport_mode(&plain, &legs, false), TransportMode::Rtp);
    let webrtc = MediaState::new(Some(text(WEBRTC)));
    assert_eq!(caller_transport_mode(&webrtc, &legs), TransportMode::WebRtc);
    assert_eq!(callee_transport_mode(&webrtc, &legs, false), TransportMode::Rtp);
}

#[test]
fn the_same_description_keeps_the_answer() {
    let mut media = MediaState::new(Some(text(PLAIN)));
    let sdp = Some(text("v=0 callee"));
    let plan = |m: &MediaState, confirmed: bool, force: bool, early: bool| {
        m.plan_caller_answer(MediaPathMode::Anchored, confirmed, false, false, &sdp, force, early)
    };
    assert_eq!(plan(&media, false, false, false), AnswerPlan::Handshake);
    let effects = media.finish_caller_answer(
        MediaPathMode::Anchored,
        text("v=0 callee"),
        Some(text("answer")),
        false,
    );
    assert!(effects.start_anchored_forwarding);
    assert_eq!(media.answer, Some(text("answer")));
    assert_eq!(plan(&media, false, false, false), AnswerPlan::Keep { open_gate: false });
    assert_eq!(plan(&media, false, true, false), AnswerPlan::Handshake);
    assert_eq!(plan(&media, true, true, false), AnswerPlan::UpdateForwarding);
    media.media_bridge = true;
    assert_eq!(plan(&media, false, false, false), AnswerPlan::Keep { open_gate: true });
    assert_eq!(plan(&media, false, false, true), AnswerPlan::Keep { open_gate: false });
    media.caller_answer_uses_media_bridge = true;
    media.callee_offer_uses_media_bridge = true;
    assert_eq!(plan(&media, true, true, false), AnswerPlan::ApplyToBridge);
    let none = media.plan_caller_answer(MediaPathMode::Bypass, true, false, false, &None, false, false);
    assert_eq!(none, AnswerPlan::NoDescription);
    let fresh = MediaState::new(None);
    let cross = fresh.plan_caller_answer(MediaPathMode::Bypass, false, true, false, &sdp, false, false);
    assert_eq!(cross, AnswerPlan::NegotiateBridge { caller_is_webrtc: true });
    let past = fresh.plan_caller_answer(MediaPathMode::Bypass, false, false, false, &sdp, false, false);
    assert_eq!(past, AnswerPlan::PassThrough { update_callee_track: false });
}

#[test]
fn the_negotiation_over_the_bridge_ends() {
    let mut step = first_bridge_answer_step(true);
    let mut steps = Vec::new();
    while step != BridgeAnswerStep::Answered && step != BridgeAnswerStep::FallBack {
        steps.push(step);
        step = next_bridge_answer_step(step, true, true, true);
    }
    assert_eq!(steps.len(), 6);
    assert_eq!(step, BridgeAnswerStep::Answered);
    assert_eq!(first_bridge_answer_step(false), BridgeAnswerStep::FallBack);
    assert_eq!(
        next_bridge_answer_step(BridgeAnswerStep::ApplyCallee, false, true, false),
        BridgeAnswerStep::ApplyOffer
    );
    assert_eq!(
        next_bridge_answer_step(BridgeAnswerStep::SetLocal, false, true, false),
        BridgeAnswerStep::FallBack
    );
    let fallen = bridge_answer(BridgeAnswerStep::FallBack, text("callee"), None, None, 0, None);
    assert_eq!(fallen, "callee");
    let kept = bridge_answer(
        BridgeAnswerStep::Answered,
        text("callee"),
        Some(text("local")),
        Some(text("restricted")),
        0,
        Some(text("rewritten")),
    );
    assert_eq!(kept, "restricted");
    assert_eq!(callee_description_type(true), SdpType::Pranswer);
    assert_eq!(callee_description_type(false), SdpType::Answer);
}

#[test]
fn a_renegotiation_uses_the_bridge_only_for_a_leg_on_it() {
    let mut media = MediaState::new(None);
    let legs = LegRegistry::new();
    media.caller_answer_uses_media_bridge = true;
    assert_eq!(media.reinvite_endpoint(&legs, DialogSide::Caller), None);
    media.media_bridge = true;
    assert_eq!(media.reinvite_endpoint(&legs, DialogSide::Caller), Some(BridgeEndpoint::Callee));
    assert_eq!(media.reinvite_endpoint(&legs, DialogSide::Callee), None);
}

#[test]
fn the_bridge_forwards_once_all_descriptions_are_there() {
    let mut media = MediaState::new(None);
    media.media_bridge = true;
    assert!(!media.start_media_bridge_forwarding(false));
    assert!(media.start_media_bridge_forwarding(true));
    assert!(!media.start_media_bridge_forwarding(true));
}

#[test]
fn the_bridge_of_an_application_has_the_other_transport() {
    let mut legs = LegRegistry::new();
    let mut media = MediaState::new(Some(text(PLAIN)));
    assert_eq!(
        media.prepare_app_bridge(&mut legs),
        AppBridgePlan::Prepare { create_bridge: true, caller_is_webrtc: false }
    );
    assert_eq!(legs.get_transport("caller"), Some(TransportMode::Rtp));
    assert_eq!(legs.get_transport("callee"), Some(TransportMode::WebRtc));
    media.media_bridge = true;
    media.finish_app_bridge(true, None);
    assert!(!media.media_bridge && !media.caller_answer_uses_media_bridge);
    media.finish_app_bridge(true, Some(text("answer")));
    assert!(media.media_bridge && media.caller_answer_uses_media_bridge);
    assert_eq!(media.prepare_app_bridge(&mut legs), AppBridgePlan::Answered);
    assert_eq!(MediaState::new(None).prepare_app_bridge(&mut legs), AppBridgePlan::NoOffer);
}

#[test]
fn early_media_are_prepared_once() {
    let mut media = MediaState::new(None);
    assert_eq!(media.plan_early_media(), EarlyMediaPlan::NoOffer);
    media.caller_offer = Some(text(PLAIN));
    assert_eq!(media.plan_early_media(), EarlyMediaPlan::Prepare { create_bridge: true });
    media.media_bridge = true;
    media.early_media_failed(false);
    assert!(media.media_bridge);
    media.early_media_failed(true);
    assert!(!media.media_bridge);
    media.early_media_answered(text("answer"));
    assert_eq!(media.plan_early_media(), EarlyMediaPlan::AlreadySent);
    assert_eq!(media.answer_without_description(), Some(text("answer")));
}

#[test]
fn a_call_past_the_proxy_is_answered_with_the_callee_s_answer() {
    let mut media = MediaState::new(None);
    media.callee_answer_sdp = Some(text("callee"));
    assert_eq!(media.standing_answer(MediaPathMode::Anchored), None);
    assert_eq!(media.standing_answer(MediaPathMode::Bypass), Some(text("callee")));
    assert_eq!(media.answer, Some(text("callee")));
}

#[test]
fn speech_is_converted_between_different_codecs() {
    let caller = LegProfile { audio: Some(info(0, CodecType::PCMU)), dtmf: Some(info(101, CodecType::TelephoneEvent)) };
    let callee = LegProfile { audio: Some(info(9, CodecType::G722)), dtmf: Some(info(96, CodecType::TelephoneEvent)) };
    let plan = plan_transcoders(caller, callee);
    match plan.speech {
        SpeechPlan::Convert { caller, callee } => {
            assert_eq!((caller.from, caller.to, caller.payload_type), (CodecType::PCMU, CodecType::G722, 9));
            assert_eq!((callee.from, callee.to, callee.payload_type), (CodecType::G722, CodecType::PCMU, 0));
        }
        _ => panic!("speech was to be converted"),
    }
    let (there, back) = plan.dtmf.unwrap();
    assert_eq!((there.from.payload_type, there.to.payload_type), (101, 96));
    assert_eq!((back.from.payload_type, back.to.payload_type), (96, 101));
    assert_eq!(plan_transcoders(caller, caller).speech, SpeechPlan::Direct);
    let silent = LegProfile { audio: None, dtmf: None };
    assert_eq!(plan_transcoders(caller, silent).speech, SpeechPlan::Leave);
    assert!(plan_transcoders(caller, silent).dtmf.is_none());
}

#[test]
fn codecs_are_chosen_from_what_is_known() {
    let list = vec![info(101, CodecType::TelephoneEvent), info(8, CodecType::PCMA)];
    assert_eq!(first_speech_codec(&list), Some(info(8, CodecType::PCMA)));
    assert_eq!(
        preferred_codecs(Some(vec![CodecType::G722]), vec![CodecType::PCMU]),
        vec![CodecType::G722]
    );
    assert_eq!(preferred_codecs(None, vec![CodecType::PCMU]), vec![CodecType::PCMU]);
    assert_eq!(rewrite_answer_to_selected_codecs(text("a"), 0, Some(text("b"))), "a");
    assert_eq!(rewrite_answer_to_selected_codecs(text("a"), 1, Some(text("b"))), "b");
    assert_eq!(rewrite_answer_to_selected_codecs(text("a"), 1, None), "a");
}

fn media_config() -> MediaConfig {
    MediaConfig {
        rtp: RtpConfig {
            external_ip: None,
            bind_ip: None,
            start_port: Some(10_000),
            end_port: Some(20_000),
            webrtc_start_port: Some(30_000),
            webrtc_end_port: Some(40_000),
        },
        enable_latching: true,
        probation_max_packets: None,
        video_codecs: vec![text("H264")],
        recording_enabled: false,
        recording_force_file: false,
    }
}

#[test]
fn a_callee_of_another_transport_is_reached_over_a_bridge() {
    let config = media_config();
    let offered = OfferedCodecs { caller: Vec::new(), callee: Vec::new(), webrtc_callee: Vec::new() };
    let mut legs = LegRegistry::new();
    let mut media = MediaState::new(Some(text(SECURE)));
    let plan = plan_callee_track(
        &mut media,
        &mut legs,
        "s1",
        MediaPathMode::Anchored,
        &config,
        &offered,
        vec![video(97, "H264", None), video(98, "VP8", None)],
        true,
    );
    match plan {
        CalleeTrackPlan::BuildBridge(b) => {
            assert_eq!(b.id, "s1-bridge");
            assert!(b.srtp);
            assert_eq!(b.video.len(), 1);
            assert_eq!(b.video[0].codec_name, "H264");
        }
        _ => panic!("a bridge was to be built"),
    }
    assert!(media.callee_offer_uses_media_bridge);
    assert_eq!(legs.get_transport("caller"), Some(TransportMode::Srtp));
    assert_eq!(legs.get_transport("callee"), Some(TransportMode::WebRtc));
}

#[test]
fn a_callee_of_the_same_transport_gets_a_track() {
    let config = media_config();
    let offered = OfferedCodecs {
        caller: Vec::new(),
        callee: vec![info(0, CodecType::PCMU)],
        webrtc_callee: vec![info(111, CodecType::Opus)],
    };
    let mut legs = LegRegistry::new();
    let mut media = MediaState::new(Some(text(PLAIN)));
    let plan = plan_callee_track(
        &mut media,
        &mut legs,
        "s1",
        MediaPathMode::Anchored,
        &config,
        &offered,
        Vec::new(),
        false,
    );
    match plan {
        CalleeTrackPlan::Track(t) => {
            assert_eq!(t.mode, TransportMode::Rtp);
            assert_eq!(t.port_range, Some((10_000, 20_000)));
            assert_eq!(t.codecs.len(), 1);
            assert!(!t.use_ice_servers);
        }
        _ => panic!("a track was to be made"),
    }
    assert!(!media.callee_offer_uses_media_bridge);
    assert_eq!(both_ports(Some(1), None), None);
    assert_eq!(both_ports(Some(1), Some(2)), Some((1, 2)));
    assert_eq!(
        callee_offer_source(&media, &legs, MediaPathMode::Bypass, false),
        CalleeOfferSource::CallerOffer
    );
    assert_eq!(
        callee_offer_source(&media, &legs, MediaPathMode::Anchored, false),
        CalleeOfferSource::OwnTrack
    );
    assert_eq!(pass_on_offer(&mut media, 0, Some(text("x"))), Some(text(PLAIN)));
}

#[test]
fn targets_are_dialled_in_turn() {
    let mut dial = SequentialDial::new(2);
    assert_eq!(dial.next_step(), DialStep::Dial(0));
    let busy = (486u16, text("Busy Here"), None);
    assert_eq!(dial.on_outcome(Err(busy)), DialStep::Dial(1));
    assert_eq!(dial.on_outcome(Err((404, text("Not Found"), None))), DialStep::GiveUp);
    assert_eq!(dial.last_error.0, 404);
    let mut lucky = SequentialDial::new(1);
    assert_eq!(lucky.on_outcome(Ok(())), DialStep::Connected);
    let nobody = SequentialDial::new(0);
    assert_eq!(nobody.next_step(), DialStep::GiveUp);
    assert_eq!(nobody.last_error.0, 480);
    assert_eq!(nobody.last_error.2, Some(text("No targets to dial")));
}

#[test]
fn the_first_target_that_accepts_wins() {
    let mut race = ForkRace::new(3, 3);
    assert!(matches!(
        race.on_event(ForkEvent::Replied { target: 0, status: Some((486, text("Busy Here"))) }),
        ForkStep::Wait
    ));
    assert!(matches!(
        race.on_event(ForkEvent::Replied { target: 2, status: Some((200, text("OK"))) }),
        ForkStep::Winner(2)
    ));
    let mut lost = ForkRace::new(2, 2);
    assert!(matches!(lost.on_event(ForkEvent::Failed { error: text("x") }), ForkStep::Wait));
    assert!(matches!(
        lost.on_event(ForkEvent::Dropped),
        ForkStep::Lost((500, _, Some(detail))) if detail == "Target fork failed: x"
    ));
    let mut alone = ForkRace::new(1, 1);
    assert!(matches!(
        alone.on_event(ForkEvent::CallerEnded),
        ForkStep::Abort((487, _, Some(detail))) if detail == "Caller cancelled"
    ));
    assert!(matches!(
        alone.on_event(ForkEvent::Broken { error: text("y") }),
        ForkStep::Lost((500, _, Some(detail))) if detail == "Fork join error: y"
    ));
    let none = ForkRace::new(2, 0);
    assert!(matches!(
        none.exhausted(),
        Some((480, _, Some(detail))) if detail == "All targets failed"
    ));
}

#[test]
fn what_cannot_be_dialled_is_refused() {
    assert!(dial_refusal(1, true, true).is_none());
    assert_eq!(dial_refusal(0, true, true).unwrap().2, Some(text("No targets to dial")));
    assert_eq!(dial_refusal(1, false, true).unwrap().2, Some(text("No caller in dialplan")));
    assert_eq!(dial_refusal(1, true, false).unwrap().2, Some(text("No callee event sender")));
}

#[test]
fn an_invite_is_sent_again_once_for_its_interval() {
    let short = |min_se: Option<u64>| InviteReply::Response {
        status: 422,
        phrase: text("Session Interval Too Small"),
        reason: None,
        min_se,
    };
    assert!(matches!(on_invite_reply(short(Some(600)), true, 0), InviteStep::Retry { min_se: 600 }));
    assert!(matches!(on_invite_reply(short(Some(600)), true, 1), InviteStep::Failed((422, _, _))));
    assert!(matches!(on_invite_reply(short(Some(600)), false, 0), InviteStep::Failed(_)));
    assert!(matches!(on_invite_reply(short(None), true, 0), InviteStep::Failed(_)));
    let ok = InviteReply::Response { status: 200, phrase: text("OK"), reason: None, min_se: None };
    assert!(matches!(on_invite_reply(ok, true, 0), InviteStep::Connected));
    assert!(matches!(
        on_invite_reply(InviteReply::NoResponse, true, 0),
        InviteStep::Failed((500, _, Some(d))) if d == "No response from callee"
    ));
    assert!(matches!(
        on_invite_reply(InviteReply::Failed { error: text("x") }, true, 0),
        InviteStep::Failed((500, _, Some(d))) if d == "Invite failed: x"
    ));
    assert!(matches!(
        on_invite_reply(InviteReply::CallerGone, true, 0),
        InviteStep::Failed((487, _, Some(d))) if d == "Caller cancelled"
    ));
}

#[test]
fn raised_headers_have_no_old_timer() {
    let headers = vec![
        InviteHeader::Named(text("Session-Expires"), text("90")),
        InviteHeader::Supported(text("timer, replaces")),
        InviteHeader::Named(text("min-se"), text("90")),
        InviteHeader::Named(text("X-Other"), text("1")),
    ];
    let raised = raise_session_headers(
        &headers,
        vec![InviteHeader::Named(text("Session-Expires"), text("600"))],
    );
    let named: Vec<String> = raised
        .iter()
        .map(|h| match h {
            InviteHeader::Named(n, v) => format!("{}={}", n, v),
            InviteHeader::Supported(v) => format!("Supported={}", v),
            InviteHeader::Typed(n, v) => format!("{}:{}", n, v),
        })
        .collect();
    assert_eq!(named, vec!["Supported=replaces", "X-Other=1", "Session-Expires=600"]);
}

#[test]
fn ringing_is_passed_on_as_the_media_go() {
    let sdp = b"v=0\r\n";
    assert_eq!(
        on_callee_progress(sdp, MediaPathMode::Anchored, false),
        RingStep::AnchoredEarlyMedia
    );
    assert_eq!(on_callee_progress(sdp, MediaPathMode::Bypass, false), RingStep::RelayEarlyMedia);
    assert_eq!(
        on_callee_progress(b"", MediaPathMode::Bypass, false),
        RingStep::Ring { mark_ringing: true }
    );
    assert_eq!(
        on_leg_ringing(&None, true, MediaPathMode::Anchored, false),
        LegRingStep::Nothing
    );
    assert_eq!(
        on_leg_ringing(&Some(text("v=0")), false, MediaPathMode::Anchored, true),
        LegRingStep::MarkEarlyMedia
    );
    assert_eq!(
        on_leg_ringing(&None, false, MediaPathMode::Anchored, true),
        LegRingStep::Relay(RingStep::Ring { mark_ringing: false })
    );
}

#[test]
fn a_further_leg_tells_how_it_fares() {
    let (state, notice) = LegCall::Inviting.on_event(LegEvent::Progress { body: b"v=0" });
    assert_eq!(state, LegCall::Inviting);
    assert!(matches!(notice, Some(LegNotice::Ringing { sdp: Some(s) }) if s == "v=0"));
    let (state, notice) = LegCall::Inviting.on_event(LegEvent::Response { status: 200, body: b"" });
    assert_eq!(state, LegCall::Established);
    assert!(matches!(notice, Some(LegNotice::Connected { answer_sdp: None })));
    let (state, notice) = state.on_event(LegEvent::Terminated);
    assert_eq!(state, LegCall::Over);
    assert!(matches!(notice, Some(LegNotice::Failed { reason }) if reason == "Remote hung up"));
    let (_, notice) = LegCall::Inviting.on_event(LegEvent::Response { status: 486, body: b"" });
    assert!(matches!(notice, Some(LegNotice::Failed { reason }) if reason == "Rejected with 486"));
    let (_, notice) = LegCall::Inviting.on_event(LegEvent::NoResponse);
    assert!(matches!(notice, Some(LegNotice::Failed { reason }) if reason == "Timeout"));
    let invite = leg_invite("s1", "leg-1", uri("sip:ann@example.com"), &None, &None);
    assert_eq!(invite.call_id, "s1-leg-1");
    assert_eq!(invite.track_id, "leg-s1-leg-1");
    assert_eq!(invite.caller.to_text(), "sip:ann@example.com");
}

#[test]
fn schemes_that_are_not_sip_are_resolved() {
    assert!(needs_resolution("skill-group:sales"));
    assert!(!needs_resolution("sip:a@b"));
    assert!(!needs_resolution("tel:123"));
    assert!(!needs_resolution("plain"));
    let here = Location::bare(uri("sip:a@b"));
    let found = Location::bare(uri("sip:a@192.0.2.1"));
    assert_eq!(dialled_location(here, true, Some(found)).aor.host, "192.0.2.1");
    let here = Location::bare(uri("sip:a@b"));
    let found = Location::bare(uri("sip:a@192.0.2.1"));
    assert_eq!(dialled_location(here, false, Some(found)).aor.host, "b");
}

#[test]
fn the_invite_to_a_target_holds_what_the_call_says() {
    let mut context = DialContext {
        caller: Some(uri("sip:alice@example.com")),
        caller_display_name: Some(text("Alice")),
        caller_contact: None,
        call_id: None,
        call_id_suffix: None,
        max_forwards: 69,
        local_addrs: Vec::new(),
        cluster_enabled: false,
    };
    let mut target = Location::bare(uri("sip:bob@example.com"));
    target.destination =
        Some(SipAddr { transport: Some(Transport::Udp), host: text("192.0.2.9"), port: Some(5060) });
    target.headers = vec![(text("X-A"), text("1"))];
    let plan = match build_target_invite_option(
        &context,
        &target,
        vec![(text("Session-Expires"), text("1800"))],
        Some(text("v=0")),
        text("fresh"),
    ) {
        Ok(plan) => plan,
        Err(e) => panic!("{}", e.1),
    };
    assert_eq!(plan.callee.to_text(), "sip:bob@example.com");
    assert_eq!(plan.contact.to_text(), "sip:alice@example.com");
    assert_eq!(plan.call_id, "fresh");
    assert_eq!(plan.caller_display_name, Some(text("Alice")));
    assert_eq!(plan.content_type, Some(text("application/sdp")));
    assert_eq!(
        plan.headers,
        vec![
            (text("Max-Forwards"), text("69")),
            (text("Session-Expires"), text("1800")),
            (text("X-A"), text("1"))
        ]
    );
    context.caller = None;
    let refused = build_target_invite_option(&context, &target, Vec::new(), None, text("x"));
    assert_eq!(refused.err().and_then(|e| e.2), Some(text("No caller in dialplan")));
}

#[test]
fn statuses_say_why_a_call_ended() {
    assert!(matches!(sip_status_to_hangup_reason(486), CallRecordHangupReason::Rejected));
    assert!(matches!(sip_status_to_hangup_reason(487), CallRecordHangupReason::Canceled));
    assert!(matches!(sip_status_to_hangup_reason(480), CallRecordHangupReason::NoAnswer));
    assert!(matches!(sip_status_to_hangup_reason(503), CallRecordHangupReason::ServerUnavailable));
    assert_eq!(parse_sipfrag_status("SIP/2.0 180 Ringing\r\n"), Some(180));
    assert_eq!(parse_sipfrag_status("HTTP/1.1 200 OK"), None);
    assert_eq!(parse_sipfrag_status(""), None);
    assert_eq!(reject_status(&Some(text("busy"))), (486, "Busy Here"));
    assert_eq!(reject_status(&Some(text("403"))), (403, "Forbidden"));
    assert_eq!(reject_status(&Some(text("Unavailable"))), (480, "Temporarily Unavailable"));
    assert_eq!(reject_status(&None), (603, "Decline"));
    assert!(matches!(refer_reason_for_status(405), Some(ReferFailure::NotSupported)));
    assert!(refer_reason_for_status(202).is_none());
    let error = map_queue_xfer_err("boom");
    assert_eq!((error.0, error.2), (480, Some(text("Queue transfer failed: boom"))));
}

#[test]
fn an_offer_is_sent_again_as_an_invite_once() {
    let reply = |status: u16| MidDialogReply::Response { status };
    assert_eq!(after_offer(OfferMethod::Update, false, reply(200)), OfferStep::Accept);
    assert_eq!(after_offer(OfferMethod::Update, false, reply(405)), OfferStep::RetryAsInvite);
    assert_ne!(after_offer(OfferMethod::Update, true, reply(405)), OfferStep::RetryAsInvite);
    assert_ne!(after_offer(OfferMethod::Invite, false, reply(405)), OfferStep::RetryAsInvite);
    assert_eq!(after_offer(OfferMethod::Invite, false, MidDialogReply::TimedOut), OfferStep::TimedOut);
    assert_eq!(accepted_answer(200, b"v=0"), Some((200, text("v=0"))));
    assert_eq!(relay_route(true, false), RelayRoute::Bridged);
    assert_eq!(relay_route(true, true), RelayRoute::SignalingOnly);
}

#[test]
fn each_transceiver_is_mirrored_once() {
    let sections = vec![
        section(MediaKind::Audio, 4000, Direction::SendOnly),
        section(MediaKind::Video, 4002, Direction::SendRecv),
        section(MediaKind::Video, 4004, Direction::SendRecv),
    ];
    let kinds = vec![MediaKind::Video, MediaKind::Audio, MediaKind::Video];
    let pairs = mirror_directions(&sections, &kinds, true, true);
    let mut places: Vec<usize> = pairs.iter().map(|p| p.0).collect();
    assert_eq!(places, vec![1, 0, 2]);
    places.sort();
    places.dedup();
    assert_eq!(places.len(), 3);
}

#[test]
fn hold_follows_the_offer() {
    let mut legs = LegRegistry::new();
    legs.add_leg(Leg::new("callee"));
    let mut media = MediaState::new(Some(text("old")));
    let facts = |audio: Direction| OfferFacts {
        video_direction: Some(Direction::SendRecv),
        audio_direction: Some(audio),
        video_caps: Vec::new(),
    };
    finish_local_answer(
        &mut media,
        &mut legs,
        DialogSide::Caller,
        text("offer"),
        text("answer"),
        &facts(Direction::SendOnly),
        false,
    );
    assert_eq!(media.caller_offer, Some(text("offer")));
    assert_eq!(media.answer, Some(text("answer")));
    assert_eq!(legs.states.get("caller").unwrap().state, LegState::Hold);
    assert_eq!(legs.states.get("callee").unwrap().state, LegState::Initializing);
    assert!(legs.leg_has_video("caller") && !legs.leg_has_video("callee"));
    finish_bridged_relay(
        &mut media,
        &mut legs,
        DialogSide::Caller,
        text("o2"),
        text("t2"),
        text("ta"),
        text("sa"),
        &facts(Direction::SendRecv),
        false,
    );
    assert_eq!(legs.states.get("caller").unwrap().state, LegState::Connected);
    assert_eq!(media.callee_offer, Some(text("t2")));
    assert_eq!(media.callee_answer_sdp, Some(text("ta")));
    assert_eq!(media.answer, Some(text("sa")));
    assert!(legs.leg_has_video("callee"));
}

#[test]
fn video_over_a_bridge_needs_a_bridge_and_a_codec() {
    let none = OfferFacts {
        video_direction: Some(Direction::SendRecv),
        audio_direction: None,
        video_caps: Vec::new(),
    };
    assert!(matches!(plan_bridge_video(&none, false, false), Err(RelayError::NoBridge)));
    assert!(matches!(plan_bridge_video(&none, true, false), Err(RelayError::NoVideoCodec)));
    let some = OfferFacts {
        video_direction: Some(Direction::SendRecv),
        audio_direction: None,
        video_caps: vec![video(97, "H264", None)],
    };
    assert_eq!(plan_bridge_video(&some, true, false).ok(), Some(Some((97, 90000))));
    assert_eq!(plan_bridge_video(&some, true, true).ok(), Some(None));
}

#[test]
fn an_update_is_answered_by_its_route() {
    let mut media = MediaState::new(None);
    assert_eq!(update_route(&media, MediaPathMode::Bypass, true, false, true), UpdateRoute::NoOffer);
    assert_eq!(
        update_route(&media, MediaPathMode::Bypass, true, true, true),
        UpdateRoute::SignalingOnly
    );
    assert_eq!(update_route(&media, MediaPathMode::Anchored, true, true, true), UpdateRoute::Local);
    media.media_bridge = true;
    assert_eq!(
        update_route(&media, MediaPathMode::Anchored, true, true, true),
        UpdateRoute::BridgedVideo
    );
    let refused = update_response(false, Some(200), Vec::new(), UpdateOutcome::Nothing);
    assert_eq!(refused.status, 422);
    let failed = update_response(true, None, Vec::new(), UpdateOutcome::Failed(UpdateRoute::Local));
    assert!(failed.status >= 400 && failed.body.is_none());
    let good = update_response(
        true,
        None,
        vec![(text("Session-Expires"), text("90"))],
        UpdateOutcome::Answered { status: 200, sdp: Some(text("v=0")) },
    );
    assert_eq!(good.status, 200);
    assert_eq!(good.body, Some(text("v=0")));
}

#[test]
fn tones_and_files_are_told_apart() {
    assert!(matches!(parse_audio_spec("beep.wav"), Ok(AudioSpec::File(f)) if f == "beep.wav"));
    assert!(matches!(
        parse_audio_spec("tone://440, 500"),
        Ok(AudioSpec::Tone { frequency: 440, duration_ms: 500 })
    ));
    assert_eq!(parse_audio_spec("tone://440").err(), Some(ToneError::MissingDuration));
    assert_eq!(parse_audio_spec("tone://x,5").err(), Some(ToneError::InvalidFrequency));
    assert_eq!(parse_audio_spec("tone://4,y").err(), Some(ToneError::InvalidDuration));
    assert_eq!(tone_samples(500), 4000);
    assert_eq!(resolve_audio_file_path("a.wav", false, true), "config/a.wav");
    assert_eq!(resolve_audio_file_path("a.wav", true, true), "a.wav");
    assert_eq!(resolve_audio_file_path("http://x/a.wav", false, true), "http://x/a.wav");
    assert_eq!(resolve_audio_file_path("config/a.wav", false, true), "config/a.wav");
    let (source, options) = audio_file_playback(text("https://x/a.wav"), true, "hold-music", true);
    assert_eq!(source, MediaSource::Url { url: text("https://x/a.wav") });
    assert!(options.await_completion && options.loop_playback);
    assert_eq!(options.track_id, Some(text("hold-music")));
}

#[test]
fn tracks_belong_to_the_leg_that_they_name() {
    assert!(matches!(infer_track_leg("menu-caller"), TrackLeg::Caller));
    assert!(matches!(infer_track_leg("menu-callee"), TrackLeg::Callee));
    assert!(matches!(infer_track_leg("a-leg-b-leg-7"), TrackLeg::Dynamic(l) if l == "leg-7"));
    assert!(matches!(infer_track_leg("anything"), TrackLeg::Caller));
    let tracks = vec![text("menu-caller"), text("playback"), text("menu-callee"), text("callee")];
    assert_eq!(tracks_to_stop(&tracks, &Some(text("caller"))), vec!["menu-caller", "playback", "callee"]);
    assert_eq!(tracks_to_stop(&tracks, &Some(text("callee"))), vec!["menu-callee", "callee"]);
    assert_eq!(tracks_to_stop(&tracks, &None).len(), 4);
}

#[test]
fn a_paused_recording_is_kept() {
    let mut phase = RecordingPhase::Idle;
    assert_eq!(phase.pause_recording(), Err(text("Recording not active")));
    assert_eq!(phase.resume_recording(), Err(text("Recording not active")));
    assert!(phase.stop_recording().is_none());
    assert_eq!(phase.start_refusal(false, false), None);
    assert_eq!(
        phase.start_refusal(true, false),
        Some(text("Live recording is disabled when SipFlow is enabled"))
    );
    phase.start_recording(text("a.wav"), 5, Some(60_000));
    assert_eq!(phase.start_refusal(false, true), Some(text("Recording already active")));
    assert_eq!(phase.resume_recording(), Err(text("Recording already active: a.wav")));
    assert_eq!(phase.pause_recording(), Ok(()));
    assert_eq!(phase.pause_recording(), Err(text("Recording already paused: a.wav")));
    let kept = phase.stop_recording().unwrap();
    assert_eq!((kept.path.as_str(), kept.started_at, kept.max_duration), ("a.wav", 5, Some(60_000)));
    assert!(!phase.is_active());
    assert_eq!(auto_recording_path(true, true, false, &Some(text("r.wav"))), Some(text("r.wav")));
    assert_eq!(auto_recording_path(true, true, true, &Some(text("r.wav"))), None);
    assert_eq!(auto_recording_path(true, true, false, &Some(text(""))), None);
}

#[test]
fn a_flow_goes_on_where_a_queue_cannot_start() {
    let mut plan = QueuePlan::plain();
    plan.dial_strategy = Some(DialStrategy::Sequential(vec![Location::bare(uri("sip:a@b"))]));
    let queue = DialplanFlow::Queue {
        plan,
        next: Box::new(DialplanFlow::Queue {
            plan: QueuePlan::plain(),
            next: Box::new(DialplanFlow::Application {
                app_name: text("conference"),
                app_params: None,
                graph: None,
                auto_answer: true,
            }),
        }),
    };
    assert!(matches!(next_stage(&queue), DialplanFlow::Queue { .. }));
    assert!(matches!(
        after_stage(&queue, true, "s1"),
        StageStep::Running { dial_first_agent: true, join: None }
    ));
    match after_stage(&queue, false, "s1") {
        StageStep::Next(stage) => {
            assert!(matches!(stage, DialplanFlow::Application { .. }));
            assert!(matches!(after_stage(stage, false, "s1"), StageStep::Stopped));
            assert!(matches!(
                after_stage(stage, true, "s1"),
                StageStep::Running { dial_first_agent: false, join: Some(c) } if c == "conf-s1"
            ));
        }
        _ => panic!("the next stage was to be executed"),
    }
    assert!(check_media_proxy(false, &queue, MediaProxyMode::Auto));
    assert!(!check_media_proxy(false, &queue, MediaProxyMode::Off));
    assert!(check_media_proxy(true, &queue, MediaProxyMode::Off));
    assert_eq!(mono_samples(&vec![1, 2, 3, 4, 5], 2), Some(vec![1, 3, 5]));
    assert_eq!(mono_samples(&vec![], 2), None);
    assert_eq!(mono_samples(&vec![1, 2], 0), Some(vec![1, 2]));
}

#[test]
fn applications_are_planned_from_their_parameters() {
    let step = parse_json(
        "{\"mode\": \"step\", \"url\": \"http://x\", \"headers\": {\"A\": \"1\", \"B\": 2}, \"retry\": {\"delay_ms\": 250}}",
    )
    .unwrap();
    let mut none: Option<PendingQueue> = None;
    match create_app("ivr", Some(&step), false, &mut none) {
        Some(AppPlan::StepIvr { url, headers, retry, name, tts }) => {
            assert_eq!(url, "http://x");
            assert_eq!(headers, vec![(text("A"), text("1"))]);
            let retry = retry.unwrap();
            assert_eq!((retry.max_retries, retry.timeout_ms), (3, 250));
            assert!(matches!(
                retry.fallback,
                RetryFallback::HangUp { prompt: "sounds/error.wav" }
            ));
            assert_eq!(name, "step_ivr");
            assert!(tts.is_none());
        }
        _ => panic!("a menu was to be fetched"),
    }
    let file = parse_json("{\"file\": \"m.toml\"}").unwrap();
    assert!(matches!(
        create_app("ivr", Some(&file), false, &mut none),
        Some(AppPlan::IvrFile { file, .. }) if file == "m.toml"
    ));
    assert!(create_app("ivr", None, false, &mut none).is_none());
    let box_of = parse_json("{\"extension\": \"200\"}").unwrap();
    assert!(matches!(
        create_app("voicemail", Some(&box_of), false, &mut none),
        Some(AppPlan::Voicemail { extension, greeting_path: None }) if extension == "200"
    ));
    assert!(create_app("check_voicemail", None, false, &mut none).is_none());
    assert!(matches!(create_app("check_voicemail", None, true, &mut none), Some(AppPlan::CheckVoicemail)));
    assert!(create_app("conference", None, true, &mut none).is_none());
    assert!(matches!(
        create_app("conference", Some(&Json::Null), true, &mut none),
        Some(AppPlan::Conference { id }) if id == "default"
    ));
    assert!(create_app("queue", None, false, &mut none).is_none());
    assert!(create_app("other", None, true, &mut none).is_none());
    assert_eq!(agent_uri_from(None, None).to_text(), "localhost");
    assert!(matches!(file_menu(false, None), Some(FileMenu::Tree)));
    assert!(file_menu(true, None).is_none());
    let provider = StepProvider { url: text("http://x"), headers: Vec::new(), max_retries: 1, retry_delay_ms: 2 };
    assert!(matches!(file_menu(true, Some(provider)), Some(FileMenu::Steps(p)) if p.url == "http://x"));
}

#[test]
fn capabilities_are_ordered_like_their_source() {
    let locals = vec![video(97, "H264", None), video(98, "VP8", None), video(99, "VP9", None)];
    let sources = vec![video(120, "vp8", None), video(121, "H264", None)];
    let ordered = order_capabilities(&locals, &sources);
    let types: Vec<u8> = ordered.iter().map(|c| c.payload_type).collect();
    assert_eq!(types, vec![98, 97]);
    let allowed = filter_video_caps_for_rtp(&locals, &vec![text("h264")]);
    assert_eq!(allowed.len(), 1);
    assert_eq!(allowed[0].payload_type, 97);
}

#[test]
fn video_that_starts_on_a_leg_gets_a_track() {
    let facts = |video: Option<Direction>| OfferFacts {
        video_direction: video,
        audio_direction: None,
        video_caps: Vec::new(),
    };
    let first = Some((96, 90000));
    assert_eq!(plan_local_video(&facts(Some(Direction::SendRecv)), false, true, first), first);
    assert_eq!(plan_local_video(&facts(Some(Direction::SendRecv)), false, true, None), None);
    assert_eq!(plan_local_video(&facts(Some(Direction::SendRecv)), true, true, first), None);
    assert_eq!(plan_local_video(&facts(Some(Direction::SendRecv)), false, false, first), None);
    assert_eq!(plan_local_video(&facts(Some(Direction::Inactive)), false, true, first), None);
    assert_eq!(plan_local_video(&facts(None), false, true, first), None);
}

#[test]
fn any_leg_with_video_counts() {
    let mut legs = LegRegistry::new();
    assert!(!legs.any_has_video());
    legs.set_video_state("callee", false);
    assert!(!legs.any_has_video());
    legs.set_video_state("caller", true);
    assert!(legs.any_has_video());
}

#[test]
fn a_waiting_queue_is_taken_by_the_first_queue_application() {
    let mut plan = QueuePlan::plain();
    plan.queue_name = text("support");
    plan.failure_audio = Some(text("sorry.wav"));
    plan.voice_prompts = Some(vec![(text("wait"), text("wait.wav"))]);
    let waiting = PendingQueue { plan, agent_uris: vec![text("sip:a@example.com")], parallel: true };
    let mut pending = Some(waiting);
    assert!(create_app("conference", Some(&Json::Null), false, &mut pending).is_some());
    assert!(pending.is_some());
    match create_app("queue", None, false, &mut pending) {
        Some(AppPlan::Queue { plan, config }) => {
            assert_eq!(plan.failure_audio.as_deref(), Some("sorry.wav"));
            assert_eq!(config.name, "support");
            assert_eq!(config.agents.len(), 1);
            assert!(config.parallel);
            assert_eq!(config.voice_prompts, Some(vec![(text("wait"), text("wait.wav"))]));
        }
        _ => panic!("the queue was to be taken"),
    }
    assert!(pending.is_none());
    assert!(create_app("queue", None, false, &mut pending).is_none());
    assert!(pending.is_none());
}
