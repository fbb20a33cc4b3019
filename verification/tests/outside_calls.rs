use proxy_call::apps::queue_config;
use proxy_call::builder::{new_leg_id, CallSessionBuilder, Dialplan, Engine};
use proxy_call::codecs::{match_destination_trunk_codecs, parse_allowed_codecs, CodecType, TrunkCodecs};
use proxy_call::command::{agent_event, info_command_text, AgentEvent, CallCommand};
use proxy_call::dial::{expand_targets, AgentFinding, TargetFinding};
use proxy_call::dialog::{classify_info, InfoKind};
use proxy_call::dtmf::telephone_event_frames;
use proxy_call::flow::{DialStrategy, DialplanFlow, QueuePlan};
use proxy_call::json::{parse_json, Json, JsonNumber};
use proxy_call::media::{extract_sdp, MediaState};
use proxy_call::playback::{generate_hold_sdp, generate_unhold_sdp};
use proxy_call::relay::{constrain_video, decline_video, has_active_video, offers_video, read_offer};
use proxy_call::route::{sanitize_ivr_filename, slugify_queue_name};
use proxy_call::sdp::{
    describe, find_section, parse_sdp, video_capabilities, Direction, MediaKind, SdpType,
    VideoCapability,
};
use proxy_call::session::SipSession;
use proxy_call::status::{CallRecordHangupReason, StatusCode};
use proxy_call::uri::{pct_decode_query, trunk_host_port, Location, SipUri};

const OFFER: &str = "v=0\r\no=- 1 1 IN IP4 192.0.2.1\r\ns=-\r\nc=IN IP4 192.0.2.1\r\nt=0 0\r\n\
m=audio 4000 RTP/AVP 0 8\r\na=rtpmap:0 PCMU/8000\r\na=rtpmap:8 PCMA/8000\r\na=sendrecv\r\n\
m=video 4002 RTP/AVP 97 98\r\na=rtpmap:97 H264/90000\r\na=fmtp:97 packetization-mode=1\r\n\
a=rtpmap:98 VP8/90000\r\na=sendrecv\r\n";

const AUDIO_OFFER: &str = "v=0\r\no=- 1 1 IN IP4 192.0.2.1\r\ns=-\r\nc=IN IP4 192.0.2.1\r\n\
t=0 0\r\nm=audio 4000 RTP/AVP 0\r\na=rtpmap:0 PCMU/8000\r\na=sendonly\r\n";

fn uri(s: &str) -> SipUri {
    SipUri::parse(s).unwrap()
}

#[test]
fn a_uri_is_taken_apart_and_written_again() {
    let u = uri("sip:alice@example.com:5070;transport=tcp");
    assert_eq!(u.scheme.as_deref(), Some("sip"));
    assert_eq!(u.auth.as_deref(), Some("alice"));
    assert_eq!(u.host, "example.com");
    assert_eq!(u.port, Some(5070));
    assert!(u.params.starts_with(";transport="));
    assert!(u.headers.is_empty());
    assert!(u.to_text().starts_with("sip:alice@example.com:5070;transport="));
    assert_eq!(uri("sip:bob@example.com").to_text(), "sip:bob@example.com");
}

#[test]
fn what_is_no_uri_is_refused_with_a_reason() {
    assert!(SipUri::parse("").is_none());
    match SipUri::read("") {
        Ok(_) => panic!("an empty text is no URI"),
        Err(why) => assert!(!why.is_empty()),
    }
}

#[test]
fn the_parties_of_an_invite_are_read_from_its_headers() {
    let dialplan = Dialplan {
        session_id: Some("s1".to_string()),
        from: Some("\"Alice\" <sip:alice@example.com>;tag=1".to_string()),
        to: Some("<sip:bob@example.org>".to_string()),
        caller: Some(uri("sip:other@example.com")),
        flow: DialplanFlow::Targets(DialStrategy::Sequential(Vec::new())),
    };
    let builder = CallSessionBuilder::new(dialplan, 69);
    let context = builder.build_context(None);
    assert_eq!(context.session_id, "s1");
    assert_eq!(context.original_caller, "sip:alice@example.com");
    assert_eq!(context.original_callee, "sip:bob@example.org");
    assert_eq!(context.max_forwards, 69);
    assert!(context.metadata.is_none());
    assert!(context.created_at.contains('T'));
    assert_eq!(builder.engine(false), Engine::Standard);
    assert_eq!(builder.engine(true), Engine::Session);
}

#[test]
fn parties_without_headers_are_those_of_the_dialplan() {
    let dialplan = Dialplan {
        session_id: None,
        from: None,
        to: None,
        caller: Some(uri("sip:other@example.com")),
        flow: DialplanFlow::Targets(DialStrategy::Sequential(Vec::new())),
    };
    let mut target = Location::bare(uri("sip:desk@example.com"));
    target.headers = vec![
        ("X-CRM-Id".to_string(), "7".to_string()),
        ("Subject".to_string(), "none".to_string()),
        ("X-CC-Queue".to_string(), "sales".to_string()),
        ("X-CRM-Id".to_string(), "8".to_string()),
    ];
    let builder = CallSessionBuilder::new(dialplan, 70);
    let context = builder.build_context(Some(&target));
    assert_eq!(context.session_id.len(), 36);
    assert_eq!(context.original_caller, "sip:other@example.com");
    assert_eq!(context.original_callee, "sip:desk@example.com");
    let metadata = context.metadata.unwrap();
    assert_eq!(metadata.get("X-CRM-Id").map(|s| s.as_str()), Some("8"));
    assert_eq!(metadata.get("X-CC-Queue").map(|s| s.as_str()), Some("sales"));
    assert!(metadata.get("Subject").is_none());
}

#[test]
fn the_headers_of_a_failed_call_are_reported_as_written() {
    let dialplan = Dialplan {
        session_id: None,
        from: Some("<sip:alice@example.com>;tag=1".to_string()),
        to: None,
        caller: None,
        flow: DialplanFlow::Targets(DialStrategy::Sequential(Vec::new())),
    };
    let report = CallSessionBuilder::new(dialplan, 10)
        .report_failure(StatusCode::of(503), Some("down".to_string()), None);
    let record = report.record;
    assert_eq!(record.original_caller.as_deref(), Some("<sip:alice@example.com>;tag=1"));
    assert_eq!(record.original_callee.as_deref(), Some(""));
    assert_eq!(report.max_forwards, 70);
    let (status, reason) = record.last_error.unwrap();
    assert_eq!(status.code, 503);
    assert_eq!(status.text, "Service Unavailable");
    assert_eq!(reason.as_deref(), Some("down"));
    assert!(matches!(record.hangup_reason, Some(CallRecordHangupReason::Failed)));
    assert_eq!(record.ring_time, None);
    assert_eq!(record.answer_time, None);
    assert!(record.callee_call_ids.is_empty());
    assert_eq!(record.server_dialog_id, "--");
    assert!(record.metadata.is_none());
    assert_eq!(report.session_id.len(), 36);
}

#[test]
fn a_leg_without_a_name_gets_a_fresh_one() {
    assert_eq!(new_leg_id(Some("desk".to_string())), "desk");
    let a = new_leg_id(None);
    let b = new_leg_id(None);
    assert!(a.starts_with("leg-"));
    assert_eq!(a.len(), 40);
    assert_ne!(a, b);
    assert!(a[4..].chars().all(|c| c == '-' || c.is_ascii_hexdigit()));
}

#[test]
fn codec_names_are_known_in_any_case() {
    let names: Vec<String> =
        ["PCMU", "alaw", "g722", "Opus", "nonsense", "telephone-event"].iter().map(|s| s.to_string()).collect();
    assert_eq!(
        parse_allowed_codecs(&names),
        vec![
            CodecType::PCMU,
            CodecType::PCMA,
            CodecType::G722,
            CodecType::Opus,
            CodecType::TelephoneEvent
        ]
    );
}

#[test]
fn the_codecs_of_the_destination_trunk_are_found_by_host_and_port() {
    let trunks = vec![
        TrunkCodecs { dest: "sip:gw.example.com:5080".to_string(), codec: vec!["pcma".to_string()] },
        TrunkCodecs { dest: "sip:GW.example.com".to_string(), codec: vec!["nonsense".to_string()] },
        TrunkCodecs { dest: "Gw.Example.com".to_string(), codec: vec!["g722".to_string()] },
    ];
    assert_eq!(
        match_destination_trunk_codecs(&trunks, &uri("sip:1@gw.example.com")),
        Some(vec![CodecType::G722])
    );
    assert_eq!(
        match_destination_trunk_codecs(&trunks, &uri("sip:1@GW.EXAMPLE.COM:5080")),
        Some(vec![CodecType::PCMA])
    );
    assert_eq!(match_destination_trunk_codecs(&trunks, &uri("sip:1@elsewhere.example.com")), None);
}

#[test]
fn percent_encoding_is_undone_and_plus_is_a_space() {
    assert_eq!(pct_decode_query("a%20b+c"), "a b c");
    assert_eq!(pct_decode_query("plain"), "plain");
    assert_eq!(pct_decode_query("%C3%A9"), "\u{e9}");
}

#[test]
fn phrases_of_statuses_are_the_usual_ones() {
    assert_eq!(StatusCode::of(486).text, "Busy Here");
    assert_eq!(StatusCode::of(487).text, "Request Terminated");
    assert_eq!(StatusCode::of(480).text, "Temporarily Unavailable");
}

#[test]
fn a_reason_is_read_in_any_case() {
    assert_eq!(agent_event("Rejected with 486"), AgentEvent::Busy);
    assert_eq!(agent_event("Line BUSY now"), AgentEvent::Busy);
    assert_eq!(agent_event("Timeout"), AgentEvent::NoAnswer);
    assert_eq!(AgentEvent::Busy.name(), "agent_busy");
    assert_eq!(AgentEvent::NoAnswer.name(), "agent_no_answer");
}

#[test]
fn letters_of_all_scripts_are_kept_in_a_menu_name() {
    assert_eq!(sanitize_ivr_filename("Main Menu!"), "Main_Menu_");
    assert_eq!(sanitize_ivr_filename("\u{e9}t\u{e9}-1"), "\u{e9}t\u{e9}-1");
    assert_eq!(slugify_queue_name("Sales  Team"), "sales-team");
}

#[test]
fn a_body_that_is_not_utf8_is_read_as_far_as_it_can_be() {
    assert_eq!(extract_sdp(&[]), None);
    assert_eq!(extract_sdp(b"v=0"), Some("v=0".to_string()));
    assert_eq!(extract_sdp(&[b'a', 0xff, b'b']), Some("a\u{fffd}b".to_string()));
    let mut session = SipSession::new("s".to_string(), "d".to_string(), true, &[]);
    assert_eq!(session.media.caller_offer, None);
    session.take_offer(&[]);
    assert_eq!(session.media.caller_offer, Some("".to_string()));
}

#[test]
fn the_kind_of_an_info_request_is_read_from_its_headers() {
    assert_eq!(classify_info(Some("application/dtmf-relay"), b"Signal=1"), InfoKind::Dtmf);
    assert_eq!(
        classify_info(Some("application/media_control+xml"), b"<picture_fast_update/>"),
        InfoKind::PictureFastUpdate
    );
    assert_eq!(classify_info(Some("Application/VND.rustpbx+json"), b"{}"), InfoKind::Command);
    assert_eq!(classify_info(None, b"hello"), InfoKind::Unknown);
}

#[test]
fn a_command_is_read_from_the_text_of_an_info_request() {
    match info_command_text("{\"action\": \"hold\", \"params\": {\"leg_id\": \"callee\"}}") {
        Some(CallCommand::Hold { leg_id, music }) => {
            assert_eq!(leg_id, "callee");
            assert!(music.is_none());
        }
        _ => panic!("a hold was asked for"),
    }
    match info_command_text("{\"cmd\": \"consult.cancel\", \"call_id\": \"c7\"}") {
        Some(CallCommand::Unhold { leg_id }) => assert_eq!(leg_id, "c7"),
        _ => panic!("the end of a consultation was asked for"),
    }
    assert!(info_command_text("{\"action\": \"dance\"}").is_none());
    assert!(info_command_text("not json").is_none());
}

#[test]
fn json_is_read_from_text() {
    let j = parse_json("{\"a\": [1, -2, 2.5, null, true, \"x\"], \"b\": {\"c\": \"d\"}}").unwrap();
    let list = j.get("a").and_then(|a| a.as_array()).unwrap();
    assert_eq!(list.len(), 6);
    assert!(matches!(list[0], Json::Number(JsonNumber::Unsigned(1))));
    assert!(matches!(list[1], Json::Number(JsonNumber::Negative(-2))));
    assert!(matches!(&list[2], Json::Number(JsonNumber::Fraction(f)) if f == "2.5"));
    assert!(matches!(list[3], Json::Null));
    assert_eq!(list[4].as_bool(), Some(true));
    assert_eq!(list[5].as_str().map(|s| s.as_str()), Some("x"));
    let c = j.get("b").and_then(|b| b.get("c")).and_then(|c| c.as_str());
    assert_eq!(c.map(|s| s.as_str()), Some("d"));
    assert!(parse_json("{").is_none());
}

#[test]
fn hold_changes_the_directions_of_the_media_sections_only() {
    let mut media = MediaState::new(Some(
        "v=0\r\na=sendrecv\r\nm=audio 4000 RTP/AVP 0\r\na=sendrecv\r\na=ptime:20\r\n".to_string(),
    ));
    assert_eq!(
        generate_hold_sdp(&media),
        Ok("v=0\r\na=sendrecv\r\nm=audio 4000 RTP/AVP 0\r\na=sendonly\r\na=ptime:20".to_string())
    );
    media.answer = Some("v=0\r\nm=audio 1 RTP/AVP 0\r\na=inactive".to_string());
    assert_eq!(
        generate_unhold_sdp(&media),
        Ok("v=0\r\nm=audio 1 RTP/AVP 0\r\na=sendrecv".to_string())
    );
    let silent = MediaState::new(None);
    assert_eq!(generate_hold_sdp(&silent), Err("No SDP available for hold".to_string()));
    assert_eq!(generate_unhold_sdp(&silent), Err("No SDP available for unhold".to_string()));
}

#[test]
fn the_sections_of_a_description_are_read() {
    let sections = match describe(SdpType::Offer, OFFER, "offer") {
        Ok(sections) => sections,
        Err(why) => panic!("{}", why),
    };
    assert_eq!(sections.len(), 2);
    assert_eq!(sections[0].kind, MediaKind::Audio);
    assert_eq!(sections[0].port, 4000);
    assert_eq!(sections[0].direction, Direction::SendRecv);
    assert_eq!(sections[0].formats, vec!["0".to_string(), "8".to_string()]);
    assert_eq!(sections[1].kind, MediaKind::Video);
    assert!(sections[1]
        .attributes
        .iter()
        .any(|a| a.key == "rtpmap" && a.value.as_deref() == Some("98 VP8/90000")));
    assert_eq!(find_section(&sections, MediaKind::Video), Some(1));
    assert_eq!(find_section(&sections, MediaKind::Image), None);
    assert!(has_active_video(&sections));
}

#[test]
fn a_description_that_cannot_be_read_is_named() {
    match describe(SdpType::Offer, "m=audio", "re-INVITE offer") {
        Ok(_) => panic!("this is no description"),
        Err(why) => assert!(why.starts_with("Failed to parse re-INVITE offer SDP: ")),
    }
}

#[test]
fn the_video_of_an_offer_is_read() {
    let desc = parse_sdp(SdpType::Offer, OFFER, "offer").unwrap();
    let caps = video_capabilities(&desc);
    assert_eq!(caps.len(), 2);
    assert_eq!(caps[0].payload_type, 97);
    assert_eq!(caps[0].codec_name, "H264");
    assert_eq!(caps[0].clock_rate, 90000);
    assert_eq!(caps[0].fmtp.as_deref(), Some("packetization-mode=1"));
    let facts = read_offer(&desc, &vec!["h264".to_string()]);
    assert_eq!(facts.audio_direction, Some(Direction::SendRecv));
    assert_eq!(facts.video_direction, Some(Direction::SendRecv));
    assert!(facts.video_active());
    assert_eq!(facts.video_caps.len(), 1);
    assert_eq!(facts.video_caps[0].payload_type, 97);
    assert!(offers_video(OFFER));
    assert!(!offers_video(AUDIO_OFFER));
}

#[test]
fn video_that_the_other_side_has_not_is_declined() {
    let declined = decline_video(OFFER.to_string(), true, false).unwrap();
    let sections = match describe(SdpType::Answer, &declined, "answer") {
        Ok(sections) => sections,
        Err(why) => panic!("{}", why),
    };
    let video = find_section(&sections, MediaKind::Video).unwrap();
    assert_eq!(sections[video].port, 0);
    assert_eq!(sections[video].direction, Direction::Inactive);
    assert!(!has_active_video(&sections));
    assert_eq!(decline_video(OFFER.to_string(), true, true), Ok(OFFER.to_string()));
}

#[test]
fn video_is_constrained_to_what_the_other_side_has() {
    let caps = vec![VideoCapability {
        payload_type: 98,
        codec_name: "VP8".to_string(),
        clock_rate: 90000,
        fmtp: None,
        rtcp_fbs: Vec::new(),
    }];
    let kept = constrain_video(SdpType::Offer, OFFER.to_string(), "offer", true, &caps).unwrap();
    let sections = match describe(SdpType::Offer, &kept, "offer") {
        Ok(sections) => sections,
        Err(why) => panic!("{}", why),
    };
    assert_eq!(sections[1].formats, vec!["98".to_string()]);
    assert_eq!(
        constrain_video(SdpType::Offer, OFFER.to_string(), "offer", false, &caps),
        Ok(OFFER.to_string())
    );
}

#[test]
fn event_frames_start_anywhere_and_go_on_in_step() {
    let frames = telephone_event_frames(&vec!['5', '#']);
    assert_eq!(frames.len(), 4);
    assert_eq!(frames[0].payload, vec![5, 0, 0, 0]);
    assert_eq!(frames[1].payload, vec![5, 0x80, 3, 0x20]);
    assert_eq!(frames[2].payload, vec![11, 0, 0, 0]);
    assert!(frames[0].marker && !frames[1].marker && frames[2].marker);
    assert_eq!(frames[1].rtp_timestamp, frames[0].rtp_timestamp.wrapping_add(800));
    assert_eq!(frames[2].rtp_timestamp, frames[1].rtp_timestamp.wrapping_add(160));
    assert_eq!(frames[1].sequence_number, frames[0].sequence_number.wrapping_add(1));
    assert_eq!(frames[3].sequence_number, frames[0].sequence_number.wrapping_add(3));
}

#[test]
fn the_destination_of_a_trunk_is_read_with_or_without_a_scheme() {
    assert_eq!(
        trunk_host_port("sip:gw.example.com:5090"),
        Some(("gw.example.com".to_string(), 5090))
    );
    assert_eq!(trunk_host_port("gw.example.com"), Some(("gw.example.com".to_string(), 5060)));
    assert_eq!(trunk_host_port("   "), None);
}

#[test]
fn the_agents_of_a_queue_are_dialled_at_what_they_are_called() {
    let mut plan = QueuePlan::plain();
    plan.queue_name = "support".to_string();
    plan.ring_timeout = Some(20_000);
    let agents = vec!["sip:ann@example.com".to_string(), "1001@example.com".to_string()];
    let config = queue_config(&plan, &agents, true);
    assert_eq!(config.name, "support");
    assert_eq!(config.ring_timeout, Some(20_000));
    assert!(config.parallel);
    assert!(config.hold.is_none() && config.fallback.is_none() && config.voice_prompts.is_none());
    assert_eq!(config.agents.len(), 2);
    assert_eq!(config.agents[0].aor.to_text(), "sip:ann@example.com");
    assert_eq!(config.agents[0].contact_raw.as_deref(), Some("sip:ann@example.com"));
    assert_eq!(config.agents[1].aor.auth.as_deref(), Some("1001"));
    assert_eq!(config.agents[1].aor.host, "example.com");
    let mut labelled = QueuePlan::plain();
    labelled.label = Some("VIP".to_string());
    assert_eq!(queue_config(&labelled, &Vec::new(), false).name, "VIP");
}

#[test]
fn custom_targets_become_the_agents_that_can_be_reached() {
    let finding = |name: &str, registered: Option<Location>, same_realm: bool| AgentFinding {
        agent_uri: name.to_string(),
        registered,
        same_realm,
    };
    let plain = Location::bare(uri("sip:desk@example.com"));
    let mut custom = Location::bare(uri("sip:placeholder@example.com"));
    custom.aor.scheme = Some("skill-group".to_string());
    let targets = vec![
        TargetFinding { location: plain, agents: Vec::new() },
        TargetFinding {
            location: custom,
            agents: vec![
                finding("sip:a@example.com", Some(Location::bare(uri("sip:a@192.0.2.7"))), true),
                finding("sip:b@example.com", None, true),
                finding("sip:c@elsewhere.example", None, false),
                finding("", None, false),
            ],
        },
    ];
    let found = expand_targets(targets);
    let names: Vec<String> = found.iter().map(|l| l.aor.to_text()).collect();
    assert_eq!(names, vec!["sip:desk@example.com", "sip:a@192.0.2.7", "sip:c@elsewhere.example"]);
    assert_eq!(found[2].contact_raw.as_deref(), Some("sip:c@elsewhere.example"));
}
