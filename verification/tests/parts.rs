use proxy_call::data::{ProxyConfig, ProxyDataContext};
use proxy_call::dialog::CallState;
use proxy_call::flow::agent_uris;
use proxy_call::json::{from_value, get_number, get_text, Json};
use proxy_call::legs::DialogSide;
use proxy_call::media::MediaState;
use proxy_call::relay::RelayError;
use proxy_call::session::{captures_flow, SipSession};
use proxy_call::status::CallRecordHangupReason;
use proxy_call::timer::{is_uac_dialog, refresh_body, SessionTimerMode};
use proxy_call::track::{
    app_bridge_settings, read_offered_video, MediaConfig, OfferedCodecs, RtpConfig,
};
use proxy_call::trunk::TrunkConfig;
use proxy_call::uri::{Location, SipUri};

const VIDEO_OFFER: &str = "v=0\r\no=- 1 1 IN IP4 192.0.2.1\r\ns=-\r\nc=IN IP4 192.0.2.1\r\nt=0 0\r\n\
m=video 4002 RTP/AVP 97\r\na=rtpmap:97 H264/90000\r\na=sendrecv\r\n";

fn text(s: &str) -> String {
    s.to_string()
}

fn rtp(external_ip: Option<&str>, bind_ip: Option<&str>) -> RtpConfig {
    RtpConfig {
        external_ip: external_ip.map(text),
        bind_ip: bind_ip.map(text),
        start_port: Some(10_000),
        end_port: Some(20_000),
        webrtc_start_port: None,
        webrtc_end_port: None,
    }
}

fn proxy(queue_dir: &str) -> ProxyConfig {
    ProxyConfig {
        trunks_files: Vec::new(),
        queues_files: Vec::new(),
        routes_files: Vec::new(),
        acl_files: Vec::new(),
        modules: None,
        queue_dir: text(queue_dir),
        ivr_dir: text("ivr"),
    }
}

#[test]
fn a_new_configuration_leaves_the_trunks() {
    let mut context = ProxyDataContext::new(proxy("a"));
    context.trunks.insert(text("t1"), TrunkConfig::bare(text("sip:10.0.0.1")));
    context.update_config(proxy("b"));
    assert_eq!(context.config.queue_dir, "b");
    assert_eq!(context.trunks_snapshot().get("t1").unwrap().dest, "sip:10.0.0.1");
}

#[test]
fn a_dialplan_that_failed_says_why() {
    let mut call = CallState::new(text("d"));
    call.on_dialplan_failure(486, text("Busy Here"), Some(text("busy")));
    assert_eq!(call.hangup_reason, Some(CallRecordHangupReason::Rejected));
    let (status, reason) = call.last_error.unwrap();
    assert_eq!((status.code, status.text.as_str()), (486, "Busy Here"));
    assert_eq!(reason.as_deref(), Some("busy"));
}

#[test]
fn agents_are_named_by_their_contact_first() {
    let plain = Location::bare(SipUri::parse("sip:a@example.com").unwrap());
    let mut written = Location::bare(SipUri::parse("sip:b@example.com").unwrap());
    written.contact_raw = Some(text("<sip:b@192.0.2.7>"));
    let names = agent_uris(&vec![plain, written]);
    assert_eq!(names, vec![text("sip:a@example.com"), text("<sip:b@192.0.2.7>")]);
}

#[test]
fn a_value_is_read_as_it_is() {
    let mut members = serde_json::Map::new();
    members.insert(text("n"), serde_json::Value::from(7u64));
    members.insert(text("t"), serde_json::Value::from("x"));
    let read = from_value(serde_json::Value::Object(members));
    assert_eq!(get_number(Some(&read), "n"), Some(7));
    assert_eq!(get_text(Some(&read), "t").as_deref(), Some("x"));
    assert!(matches!(from_value(serde_json::Value::Null), Json::Null));
}

#[test]
fn the_sides_of_a_dialog_are_each_others_other() {
    assert_eq!(DialogSide::Caller.other(), DialogSide::Callee);
    assert_eq!(DialogSide::Callee.other(), DialogSide::Caller);
    assert_eq!(DialogSide::Callee.leg_id(), "callee");
}

#[test]
fn an_answer_that_is_kept_stays() {
    let mut media = MediaState::new(Some(text("offer")));
    assert!(media.keep_answer(text("first")).is_none());
    media.answer = Some(text("answer"));
    assert_eq!(media.keep_answer(text("second")).as_deref(), Some("answer"));
    assert_eq!(media.callee_answer_sdp.as_deref(), Some("second"));
}

#[test]
fn a_relay_that_cannot_be_made_says_why() {
    assert_eq!(RelayError::NoBridge.message(), "No media bridge available for dialog offer");
    assert_eq!(RelayError::NoVideoCodec.message(), "Video re-INVITE offer has no video codec");
}

#[test]
fn a_leg_that_is_abandoned_is_gone() {
    let mut session = SipSession::new(text("s"), text("d"), true, b"");
    session.add_leg("leg-1", "sip:x@example.com").unwrap();
    assert!(session.legs.states.get("leg-1").is_some());
    session.abandon_leg("leg-1");
    assert!(session.legs.states.get("leg-1").is_none());
    assert!(session.legs.states.get("caller").is_some());
}

#[test]
fn only_recordings_that_are_no_mere_files_are_captured() {
    assert!(captures_flow(true, false));
    assert!(!captures_flow(true, true));
    assert!(!captures_flow(false, false));
}

#[test]
fn a_timer_that_is_off_is_not_enabled() {
    assert!(!SessionTimerMode::Off.is_enabled());
    assert!(SessionTimerMode::Supported.is_enabled());
    assert!(SessionTimerMode::Always.is_enabled());
}

#[test]
fn only_the_dialog_of_the_caller_was_opened_by_the_peer() {
    assert!(!is_uac_dialog("d", "d"));
    assert!(is_uac_dialog("e", "d"));
}

#[test]
fn a_refresh_repeats_what_was_said_last() {
    let mut media = MediaState::new(Some(text("offer")));
    assert!(refresh_body(&media, true).is_none());
    media.answer = Some(text("answer"));
    media.callee_offer = Some(text("callee offer"));
    assert_eq!(refresh_body(&media, false).as_deref(), Some("answer"));
    assert_eq!(refresh_body(&media, true).as_deref(), Some("callee offer"));
}

#[test]
fn media_are_bound_to_the_external_address_first() {
    assert_eq!(rtp(Some("203.0.113.1"), Some("10.0.0.1")).media_address(), "203.0.113.1");
    assert_eq!(rtp(None, Some("10.0.0.1")).media_address(), "10.0.0.1");
    assert_eq!(rtp(None, None).media_address(), "127.0.0.1");
}

#[test]
fn the_video_that_is_offered_is_read() {
    let video = read_offered_video(&Some(text(VIDEO_OFFER)));
    assert_eq!(video.len(), 1);
    assert_eq!((video[0].payload_type, video[0].clock_rate), (97, 90000));
    assert!(read_offered_video(&None).is_empty());
}

#[test]
fn the_bridge_of_an_application_is_set_up_for_its_caller() {
    let config = MediaConfig {
        rtp: rtp(None, None),
        enable_latching: false,
        probation_max_packets: Some(3),
        video_codecs: Vec::new(),
        recording_enabled: true,
        recording_force_file: true,
    };
    let offered = OfferedCodecs { caller: Vec::new(), callee: Vec::new(), webrtc_callee: Vec::new() };
    let secure = text("m=audio 1 RTP/SAVP 0\r\na=group:BUNDLE 0\r\n");
    let bridge = app_bridge_settings("s1", secure, false, &config, &offered);
    assert_eq!(bridge.id, "s1-app-bridge");
    assert!(bridge.srtp && bridge.latching && bridge.standard_sdp);
    assert_eq!(bridge.probation_max_packets, Some(6));
    assert!(bridge.record && !bridge.capture);
    assert_eq!(bridge.port_range, Some((10_000, 20_000)));
    let plain = app_bridge_settings("s1", text("m=audio 1 RTP/AVP 0"), true, &config, &offered);
    assert!(!plain.srtp && !plain.latching);
    assert_eq!(plain.probation_max_packets, Some(3));
}
