use proxy_call::codecs::{parse_allowed_codecs, resolve_effective_codecs, CodecType};
use proxy_call::command::parse_info_media_source;
use proxy_call::dtmf::{build_telephone_event_payload, RtpDtmfDetector};
use proxy_call::json::Json;
use proxy_call::media::sdp_transport_mode;
use proxy_call::playback::MediaSource;
use proxy_call::sdp::{SdpType, TransportMode, VideoCapability};
use proxy_call::session::SipSession;
use proxy_call::status::should_fallback_to_reinvite;
use proxy_call::timer::{SessionTimerMode, DEFAULT_SESSION_EXPIRES};
use proxy_call::uri::{
    is_local_home_proxy, resolve_outbound_callee_uri, route_via_home_proxy, trunk_host_port,
    Location, SipAddr, SipUri, Transport,
};
use proxy_call::video::{apply_video_caps_from_source, filter_video_caps_for_rtp};

fn addr(transport: Option<Transport>, host: &str, port: u16) -> SipAddr {
    SipAddr { transport, host: host.to_string(), port: Some(port) }
}

fn uri(s: &str) -> SipUri {
    SipUri::parse(s).unwrap()
}

fn target(destination: Option<SipAddr>, home_proxy: Option<SipAddr>) -> Location {
    let mut location = Location::bare(uri("sip:localhost"));
    location.destination = destination;
    location.home_proxy = home_proxy;
    location
}

#[test]
fn test_sdp_transport_mode_classification() {
    assert_eq!(
        sdp_transport_mode("m=audio 1000 RTP/AVP 8 0\r\na=sendrecv\r\n"),
        TransportMode::Rtp
    );
    assert_eq!(
        sdp_transport_mode(
            "m=audio 1000 RTP/SAVP 0 8 101\r\na=crypto:1 AES_CM_128_HMAC_SHA1_80 inline:abc\r\n"
        ),
        TransportMode::Srtp
    );
    assert_eq!(
        sdp_transport_mode(
            "m=audio 1000 RTP/AVP 8\r\na=crypto:1 AES_CM_128_HMAC_SHA1_80 inline:abc\r\n"
        ),
        TransportMode::Srtp
    );
    assert_eq!(
        sdp_transport_mode(
            "m=audio 9 UDP/TLS/RTP/SAVPF 111\r\na=ice-ufrag:x\r\na=fingerprint:sha-256 AA\r\n"
        ),
        TransportMode::WebRtc
    );
}

#[test]
fn test_rtp_dtmf_detector_deduplicates_same_event() {
    let mut detector = RtpDtmfDetector::default();

    assert_eq!(detector.observe(&[1, 0x00, 0x00, 0xa0], 12_345), Some('1'));
    assert_eq!(detector.observe(&[1, 0x80, 0x01, 0x40], 12_345), None);
    assert_eq!(detector.observe(&[1, 0x00, 0x00, 0xa0], 12_505), Some('1'));
}

#[test]
fn test_rtp_dtmf_detector_maps_special_digits() {
    let mut detector = RtpDtmfDetector::default();

    assert_eq!(detector.observe(&[10, 0x00, 0x00, 0xa0], 1), Some('*'));
    assert_eq!(detector.observe(&[11, 0x00, 0x00, 0xa0], 2), Some('#'));
    assert_eq!(detector.observe(&[12, 0x00, 0x00, 0xa0], 3), Some('A'));
    assert_eq!(detector.observe(&[16, 0x00, 0x00, 0xa0], 4), None);
}

#[test]
fn test_rtp_dtmf_detector_receives_all_digits_0_to_9() {
    let mut detector = RtpDtmfDetector::default();

    for digit_code in 0..=9 {
        let expected_digit = std::char::from_digit(digit_code as u32, 10).unwrap();
        let result = detector.observe(&[digit_code, 0x00, 0x00, 0xa0], digit_code as u32);
        assert_eq!(
            result,
            Some(expected_digit),
            "Failed to receive DTMF digit {}: got {:?}",
            digit_code,
            result
        );
    }
}

#[test]
fn test_rtp_dtmf_detector_sequence_of_different_digits() {
    let mut detector = RtpDtmfDetector::default();

    let sequence = vec![
        (2u8, 100u32, '2'),
        (4u8, 200u32, '4'),
        (5u8, 300u32, '5'),
        (6u8, 400u32, '6'),
    ];

    for (digit_code, timestamp, expected_char) in sequence {
        let result = detector.observe(&[digit_code, 0x00, 0x00, 0xa0], timestamp);
        assert_eq!(
            result,
            Some(expected_char),
            "Failed to receive DTMF sequence digit {}: got {:?}",
            expected_char,
            result
        );
    }
}

#[test]
fn test_rtp_dtmf_detector_handles_short_payload() {
    let mut detector = RtpDtmfDetector::default();

    assert_eq!(detector.observe(&[1, 0x00], 100), None);
    assert_eq!(detector.observe(&[1, 0x00, 0x00], 100), None);
    assert_eq!(detector.observe(&[], 100), None);
}

#[test]
fn test_rtp_dtmf_detector_extended_tone_recognition() {
    let mut detector = RtpDtmfDetector::default();

    let expected_digits = vec![
        ('0', 0u8),
        ('1', 1u8),
        ('2', 2u8),
        ('3', 3u8),
        ('4', 4u8),
        ('5', 5u8),
        ('6', 6u8),
        ('7', 7u8),
        ('8', 8u8),
        ('9', 9u8),
        ('*', 10u8),
        ('#', 11u8),
        ('A', 12u8),
        ('B', 13u8),
        ('C', 14u8),
        ('D', 15u8),
    ];

    for (expected_digit, digit_code) in expected_digits {
        let result = detector.observe(&[digit_code, 0x00, 0x00, 0xa0], digit_code as u32);
        assert_eq!(
            result,
            Some(expected_digit),
            "Failed to map DTMF code {} to digit {}: got {:?}",
            digit_code,
            expected_digit,
            result
        );
    }
}

#[test]
fn test_rtp_dtmf_detector_rapidly_repeated_digit() {
    let mut detector = RtpDtmfDetector::default();

    assert_eq!(detector.observe(&[2, 0x00, 0x00, 0xa0], 1000), Some('2'));
    assert_eq!(detector.observe(&[2, 0x80, 0x01, 0x40], 1000), None);
    assert_eq!(detector.observe(&[2, 0x00, 0x00, 0xa0], 2000), Some('2'));
    assert_eq!(detector.observe(&[4, 0x00, 0x00, 0xa0], 3000), Some('4'));
}

#[test]
fn test_update_fallback_only_for_unsupported_methods() {
    assert!(should_fallback_to_reinvite(405));
    assert!(should_fallback_to_reinvite(501));
    assert!(!should_fallback_to_reinvite(491));
    assert!(!should_fallback_to_reinvite(408));
    assert!(!should_fallback_to_reinvite(401));
    assert!(!should_fallback_to_reinvite(500));
}

#[test]
fn test_route_via_home_proxy_detects_remote_home_proxy() {
    let target = target(
        Some(addr(Some(Transport::Udp), "192.168.1.10", 5060)),
        Some(addr(Some(Transport::Tcp), "10.0.0.2", 5070)),
    );
    let local_addrs = vec![addr(Some(Transport::Udp), "10.0.0.1", 5060)];

    assert!(route_via_home_proxy(&target, &local_addrs, true));
}

#[test]
fn test_route_via_home_proxy_ignores_local_home_proxy() {
    let target = target(
        Some(addr(Some(Transport::Udp), "192.168.1.10", 5060)),
        Some(addr(Some(Transport::Tcp), "10.0.0.1", 5060)),
    );
    let local_addrs = vec![addr(Some(Transport::Udp), "10.0.0.1", 5060)];

    assert!(!route_via_home_proxy(&target, &local_addrs, true));
}

#[test]
fn test_resolve_outbound_callee_uri_prefers_registered_aor_via_home_proxy() {
    let mut target = Location::bare(uri("sip:lp@172.25.52.29:63647;transport=UDP"));
    target.registered_aor = Some(uri("sip:lp@rustpbx.com"));
    target.home_proxy = Some(addr(Some(Transport::Udp), "10.0.0.2", 5070));
    let expected = uri("sip:lp@10.0.0.2:5070");

    let resolved = resolve_outbound_callee_uri(&target, true);
    assert_eq!(resolved, expected);
}

#[test]
fn test_resolve_outbound_callee_uri_falls_back_to_contact_when_no_registered_aor() {
    let contact_uri = uri("sip:lp@172.25.52.29:63647;transport=UDP");
    let target = Location::bare(contact_uri.duplicate());

    let resolved = resolve_outbound_callee_uri(&target, true);
    assert_eq!(resolved, contact_uri);
}

#[test]
fn test_resolve_outbound_callee_uri_uses_contact_when_not_via_home_proxy() {
    let contact_uri = uri("sip:lp@172.25.52.29:63647;transport=UDP");
    let mut target = Location::bare(contact_uri.duplicate());
    target.registered_aor = Some(uri("sip:lp@rustpbx.com"));

    let resolved = resolve_outbound_callee_uri(&target, false);
    assert_eq!(resolved, contact_uri);
}

#[test]
fn test_init_callee_timer_disabled_without_session_expires() {
    let mut session = SipSession::new("test-session".to_string(), "caller".to_string(), false, b"");
    let dialog_id = "callee-call;local;remote";

    session.init_callee_timer(
        dialog_id,
        SessionTimerMode::Supported,
        None,
        DEFAULT_SESSION_EXPIRES,
        0,
    );
    session.timers.schedule(dialog_id, Some(60_000));

    let timer = session.timers.timers.get(dialog_id).expect("missing callee timer");
    assert!(!timer.enabled);
    assert!(!timer.active);
    assert_eq!(timer.session_interval, DEFAULT_SESSION_EXPIRES);
    assert!(!session.timers.due.contains_key(dialog_id));
}

#[test]
fn test_is_local_home_proxy_detects_matching_address() {
    let local_addrs = vec![addr(Some(Transport::Udp), "10.172.148.121", 8060)];
    let home_proxy = addr(None, "10.172.148.121", 8060);
    assert!(is_local_home_proxy(&local_addrs, &home_proxy));
}

#[test]
fn test_is_local_home_proxy_detects_non_matching_address() {
    let local_addrs = vec![addr(Some(Transport::Udp), "10.172.148.121", 8060)];
    let home_proxy = addr(None, "10.172.149.126", 8060);
    assert!(!is_local_home_proxy(&local_addrs, &home_proxy));
}

#[test]
fn test_is_local_home_proxy_matches_any_local_address() {
    let local_addrs = vec![
        addr(Some(Transport::Udp), "127.0.0.1", 5060),
        addr(Some(Transport::Tcp), "10.172.148.121", 8060),
        addr(Some(Transport::Ws), "10.172.148.121", 8443),
    ];
    let home_proxy = addr(None, "10.172.148.121", 8060);
    assert!(is_local_home_proxy(&local_addrs, &home_proxy));
}

#[test]
fn test_is_local_home_proxy_rejects_port_mismatch() {
    let local_addrs = vec![addr(Some(Transport::Udp), "10.172.148.121", 8060)];
    let home_proxy = addr(None, "10.172.148.121", 5070);
    assert!(!is_local_home_proxy(&local_addrs, &home_proxy));
}

#[test]
fn test_is_local_home_proxy_compares_addr_string_not_transport() {
    let local_addrs = vec![addr(Some(Transport::Wss), "10.172.148.121", 8060)];
    let home_proxy = addr(Some(Transport::Udp), "10.172.148.121", 8060);
    assert!(is_local_home_proxy(&local_addrs, &home_proxy));
}

#[test]
fn test_route_via_home_proxy_false_without_home_proxy() {
    let target = target(Some(addr(Some(Transport::Udp), "192.168.1.10", 5060)), None);
    let local_addrs = vec![addr(Some(Transport::Udp), "10.0.0.1", 5060)];
    assert!(!route_via_home_proxy(&target, &local_addrs, false));
}

#[test]
fn test_route_via_home_proxy_remote_home_proxy_sets_via_flag() {
    let target = target(
        Some(addr(Some(Transport::Udp), "10.172.149.126", 8060)),
        Some(addr(None, "10.172.149.126", 8060)),
    );
    let local_addrs = vec![addr(Some(Transport::Udp), "10.172.148.121", 8060)];
    let via_home_proxy = route_via_home_proxy(&target, &local_addrs, true);
    assert!(
        via_home_proxy,
        "route_via_home_proxy must be true for remote home_proxy"
    );
}

#[test]
fn test_route_via_home_proxy_local_home_proxy_no_via_flag() {
    let target = target(
        Some(addr(Some(Transport::Udp), "10.172.148.121", 8060)),
        Some(addr(None, "10.172.148.121", 8060)),
    );
    let local_addrs = vec![addr(Some(Transport::Udp), "10.172.148.121", 8060)];
    let via_home_proxy = route_via_home_proxy(&target, &local_addrs, true);
    assert!(
        !via_home_proxy,
        "route_via_home_proxy must be false when home_proxy is local"
    );
}

#[test]
fn test_route_via_home_proxy_does_not_add_self_referencing_record_route() {
    let home_proxy = addr(None, "10.172.149.126", 8060);
    let target = target(
        Some(addr(Some(Transport::Udp), "10.172.149.126", 8060)),
        Some(home_proxy.clone()),
    );
    let local_addrs = vec![addr(Some(Transport::Udp), "10.172.148.121", 8060)];
    let via_home_proxy = route_via_home_proxy(&target, &local_addrs, true);
    assert!(
        via_home_proxy,
        "route_via_home_proxy must be true for cross-node routing"
    );

    assert!(
        !is_local_home_proxy(&local_addrs, &home_proxy),
        "home_proxy at 10.172.149.126 must NOT match local 10.172.148.121"
    );

    let local_home_proxy = addr(None, "10.172.148.121", 8060);
    assert!(
        is_local_home_proxy(&local_addrs, &local_home_proxy),
        "home_proxy at 10.172.148.121 must match local 10.172.148.121"
    );
}

fn make_video_cap(pt: u8, codec: &str, fmtp: Option<&str>, rtcp_fbs: &[&str]) -> VideoCapability {
    VideoCapability {
        payload_type: pt,
        codec_name: codec.to_string(),
        clock_rate: 90000,
        fmtp: fmtp.map(|s| s.to_string()),
        rtcp_fbs: rtcp_fbs.iter().map(|s| s.to_string()).collect(),
    }
}

#[test]
fn test_apply_video_caps_from_source_keeps_source_order_with_target_payload_types() {
    let generated_offer = "v=0\r\n\
o=- 1 1 IN IP4 127.0.0.1\r\n\
s=-\r\n\
t=0 0\r\n\
m=video 9 UDP/TLS/RTP/SAVPF 96 103 107 104\r\n\
a=mid:1\r\n\
a=sendrecv\r\n\
a=rtpmap:96 VP8/90000\r\n\
a=rtcp-fb:96 nack\r\n\
a=rtpmap:103 H264/90000\r\n\
a=fmtp:103 level-asymmetry-allowed=1;packetization-mode=1;profile-level-id=42001f\r\n\
a=rtcp-fb:103 nack pli\r\n\
a=rtpmap:107 H264/90000\r\n\
a=fmtp:107 level-asymmetry-allowed=1;packetization-mode=0;profile-level-id=42001f\r\n\
a=rtcp-fb:107 nack pli\r\n\
a=rtpmap:104 VP9/90000\r\n\
a=rtcp-fb:104 nack\r\n";
    let source_caps = vec![
        make_video_cap(96, "H264", Some("profile-level-id=42801F"), &[]),
        make_video_cap(97, "VP8", None, &[]),
    ];

    let reordered = apply_video_caps_from_source(
        SdpType::Offer,
        generated_offer,
        "test offer",
        &source_caps,
    )
    .unwrap();

    assert!(reordered.contains("m=video 9 UDP/TLS/RTP/SAVPF 103 107 96\r\n"));
    assert!(reordered.contains("a=rtpmap:103 H264/90000\r\n"));
    assert!(reordered.contains("a=rtpmap:107 H264/90000\r\n"));
    assert!(reordered.contains("a=rtpmap:96 VP8/90000\r\n"));
    assert!(reordered.contains("a=fmtp:103 "));
    assert!(reordered.contains("a=fmtp:107 "));
    assert!(!reordered.contains("a=rtpmap:104 VP9/90000\r\n"));
    assert!(!reordered.contains("a=rtcp-fb:104 "));
}

#[test]
fn test_filter_video_caps_default_keeps_h264_only() {
    let caps = vec![
        make_video_cap(
            96,
            "H264",
            Some("level-asymmetry-allowed=1;packetization-mode=1;profile-level-id=42e01f"),
            &["goog-remb", "transport-cc", "nack"],
        ),
        make_video_cap(97, "VP8", None, &["goog-remb", "transport-cc"]),
        make_video_cap(98, "VP9", None, &["goog-remb"]),
    ];

    let result = filter_video_caps_for_rtp(&caps, &vec![]);

    assert_eq!(result.len(), 1, "only H264 should survive");
    assert_eq!(result[0].codec_name, "H264");
    assert_eq!(result[0].payload_type, 96);
    assert!(result[0].rtcp_fbs.is_empty(), "rtcp_fbs must be cleared");
    assert!(result[0].fmtp.is_some(), "fmtp should be preserved");
}

#[test]
fn test_filter_video_caps_explicit_allowlist() {
    let caps = vec![
        make_video_cap(96, "H264", Some("profile-level-id=42e01f"), &["goog-remb"]),
        make_video_cap(97, "VP8", None, &["transport-cc"]),
        make_video_cap(98, "H265", None, &[]),
    ];

    let allowed = vec!["H264".to_string(), "h265".to_string()];
    let result = filter_video_caps_for_rtp(&caps, &allowed);

    assert_eq!(result.len(), 2);
    assert_eq!(result[0].codec_name, "H264");
    assert_eq!(result[1].codec_name, "H265");
    assert!(result.iter().all(|c| c.rtcp_fbs.is_empty()));
}

#[test]
fn test_filter_video_caps_rtcp_fb_always_cleared() {
    let caps = vec![make_video_cap(
        96,
        "H264",
        None,
        &["nack", "nack pli", "ccm fir", "goog-remb", "transport-cc"],
    )];

    let result = filter_video_caps_for_rtp(&caps, &vec![]);

    assert!(
        result[0].rtcp_fbs.is_empty(),
        "every rtcp-fb must be stripped"
    );
}

#[test]
fn test_filter_video_caps_default_does_not_fallback_when_no_match() {
    let caps = vec![
        make_video_cap(97, "VP8", None, &["goog-remb", "transport-cc"]),
        make_video_cap(98, "VP9", None, &["goog-remb"]),
    ];

    let result = filter_video_caps_for_rtp(&caps, &vec![]);

    assert!(result.is_empty(), "default should not accept VP8/VP9");
}

#[test]
fn test_filter_video_caps_empty_input() {
    let result = filter_video_caps_for_rtp(&vec![], &vec![]);
    assert!(result.is_empty());
}

#[test]
fn test_filter_video_caps_case_insensitive_matching() {
    let caps = vec![make_video_cap(96, "h264", None, &["nack"])];

    let result = filter_video_caps_for_rtp(&caps, &vec![]);
    assert_eq!(result.len(), 1);
    assert_eq!(result[0].codec_name, "h264");
}

#[test]
fn test_filter_video_caps_fmtp_preserved() {
    let fmtp = "level-asymmetry-allowed=1;packetization-mode=1;profile-level-id=640032";
    let caps = vec![make_video_cap(96, "H264", Some(fmtp), &["goog-remb"])];

    let result = filter_video_caps_for_rtp(&caps, &vec![]);
    assert_eq!(result[0].fmtp.as_deref(), Some(fmtp));
}

#[test]
fn test_filter_video_caps_multiple_h264_profiles_all_kept() {
    let caps = vec![
        make_video_cap(96, "H264", Some("profile-level-id=42e01f"), &["goog-remb"]),
        make_video_cap(97, "VP8", None, &["transport-cc"]),
        make_video_cap(98, "H264", Some("profile-level-id=640032"), &["nack"]),
    ];

    let result = filter_video_caps_for_rtp(&caps, &vec![]);
    assert_eq!(result.len(), 2, "both H264 profiles should be kept");
    assert!(result.iter().all(|c| c.codec_name == "H264"));
    assert!(result.iter().all(|c| c.rtcp_fbs.is_empty()));
}

#[test]
fn test_build_telephone_event_payload_digit_1() {
    let payload = build_telephone_event_payload('1', false, 800).unwrap();
    assert_eq!(payload[0], 1);
    assert_eq!(payload[1] & 0x80, 0);
    assert_eq!(u16::from_be_bytes([payload[2], payload[3]]), 800);
}

#[test]
fn test_build_telephone_event_payload_digit_end_bit() {
    let payload = build_telephone_event_payload('5', true, 1600).unwrap();
    assert_eq!(payload[0], 5);
    assert_eq!(payload[1] & 0x80, 0x80);
    assert_eq!(u16::from_be_bytes([payload[2], payload[3]]), 1600);
}

#[test]
fn test_build_telephone_event_payload_star() {
    let payload = build_telephone_event_payload('*', false, 0).unwrap();
    assert_eq!(payload[0], 10);
}

#[test]
fn test_build_telephone_event_payload_hash() {
    let payload = build_telephone_event_payload('#', false, 0).unwrap();
    assert_eq!(payload[0], 11);
}

#[test]
fn test_build_telephone_event_payload_invalid() {
    let result = build_telephone_event_payload('Z', false, 0);
    assert!(result.is_err());
}

#[test]
fn test_build_telephone_event_payload_all_digits() {
    for (ch, expected_code) in [
        ('0', 0),
        ('1', 1),
        ('2', 2),
        ('3', 3),
        ('4', 4),
        ('5', 5),
        ('6', 6),
        ('7', 7),
        ('8', 8),
        ('9', 9),
        ('*', 10),
        ('#', 11),
    ] {
        let payload = build_telephone_event_payload(ch, false, 800).unwrap();
        assert_eq!(
            payload[0], expected_code,
            "DTMF digit '{}' should map to code {}",
            ch, expected_code
        );
    }
}

#[test]
fn test_build_telephone_event_payload_duration_zero() {
    let payload = build_telephone_event_payload('3', false, 0).unwrap();
    assert_eq!(u16::from_be_bytes([payload[2], payload[3]]), 0);
}

#[test]
fn test_build_telephone_event_payload_duration_max() {
    let payload = build_telephone_event_payload('7', false, 65535).unwrap();
    assert_eq!(u16::from_be_bytes([payload[2], payload[3]]), 65535);
}

#[test]
fn test_trunk_host_port_sip_uri_with_port() {
    let (host, port) = trunk_host_port("sip:58.246.19.74:6988").unwrap();
    assert_eq!(host, "58.246.19.74");
    assert_eq!(port, 6988);
}

#[test]
fn test_trunk_host_port_sip_uri_without_port() {
    let (host, port) = trunk_host_port("sip:pbx.example.com").unwrap();
    assert_eq!(host, "pbx.example.com");
    assert_eq!(port, 5060);
}

#[test]
fn test_trunk_host_port_sip_uri_with_user_and_port() {
    let (host, port) = trunk_host_port("sip:user@203.0.113.5:5060").unwrap();
    assert_eq!(host, "203.0.113.5");
    assert_eq!(port, 5060);
}

#[test]
fn test_trunk_host_port_bare_host_port() {
    let (host, port) = trunk_host_port("58.246.19.74:6988").unwrap();
    assert_eq!(host, "58.246.19.74");
    assert_eq!(port, 6988);
}

#[test]
fn test_trunk_host_port_bare_host_only() {
    let (host, port) = trunk_host_port("203.0.113.10").unwrap();
    assert_eq!(host, "203.0.113.10");
    assert_eq!(port, 5060);
}

#[test]
fn test_trunk_host_port_bare_ipv6() {
    let (host, port) = trunk_host_port("[::1]").unwrap();
    assert_eq!(host, "[::1]");
    assert_eq!(port, 5060);
}

#[test]
fn test_trunk_host_port_empty() {
    assert!(trunk_host_port("").is_none());
}

fn resolve_codecs(dialplan: &[CodecType], proxy_strs: &[&str]) -> Vec<CodecType> {
    let proxy: Vec<String> =
        proxy_strs.iter().filter(|s| !s.is_empty()).map(|s| s.to_string()).collect();
    let resolved = resolve_effective_codecs(&dialplan.to_vec(), None, &Some(proxy.clone()));
    if dialplan.is_empty() && !proxy.is_empty() {
        assert_eq!(resolved, parse_allowed_codecs(&proxy));
    }
    resolved
}

#[test]
fn test_priority_uses_dialplan_first() {
    let codecs = resolve_codecs(&[CodecType::PCMA, CodecType::G729], &[]);
    assert_eq!(codecs, vec![CodecType::PCMA, CodecType::G729]);
}

#[test]
fn test_priority_falls_back_to_proxy_when_dialplan_empty() {
    let codecs = resolve_codecs(&[], &["pcma", "g729"]);
    assert_eq!(codecs, vec![CodecType::PCMA, CodecType::G729]);
}

#[test]
fn test_priority_returns_empty_when_no_sources() {
    let codecs = resolve_codecs(&[], &[] as &[&str]);
    assert!(codecs.is_empty());
}

#[test]
fn test_priority_filters_invalid_codec_names() {
    let codecs = resolve_codecs(&[], &["pcma", "invalid_codec", "g729"]);
    assert_eq!(codecs, vec![CodecType::PCMA, CodecType::G729]);
}

#[test]
fn test_priority_ignores_empty_proxy_config() {
    let codecs = resolve_codecs(&[], &[""]);
    assert!(codecs.is_empty());
}

#[test]
fn test_priority_dialplan_with_opus() {
    let codecs = resolve_codecs(&[CodecType::Opus, CodecType::PCMU], &[]);
    assert_eq!(codecs, vec![CodecType::Opus, CodecType::PCMU]);
}

fn source(entries: Vec<(&str, Json)>) -> Json {
    Json::Object(entries.into_iter().map(|(k, v)| (k.to_string(), v)).collect())
}

fn text(value: &str) -> Json {
    Json::Text(value.to_string())
}

#[test]
fn test_parse_file_source() {
    let src = source(vec![("source_type", text("file")), ("uri", text("/tmp/a.wav"))]);
    assert_eq!(
        parse_info_media_source(&src),
        Some(MediaSource::File { path: "/tmp/a.wav".into() })
    );
}

#[test]
fn test_parse_url_source() {
    let src = source(vec![("source_type", text("url")), ("uri", text("http://x.com/a.wav"))]);
    assert_eq!(
        parse_info_media_source(&src),
        Some(MediaSource::Url { url: "http://x.com/a.wav".into() })
    );
}

#[test]
fn test_parse_silence_source() {
    let src = source(vec![("source_type", text("silence"))]);
    assert_eq!(parse_info_media_source(&src), Some(MediaSource::Silence));
}

#[test]
fn test_parse_files_source_uses_first_uri() {
    let src = source(vec![
        ("source_type", text("files")),
        ("uris", Json::List(vec![text("/tmp/a.wav"), text("/tmp/b.wav")])),
    ]);
    assert_eq!(
        parse_info_media_source(&src),
        Some(MediaSource::File { path: "/tmp/a.wav".into() })
    );
}

#[test]
fn test_parse_unknown_source_type() {
    let src = source(vec![("source_type", text("mp3")), ("uri", text("/tmp/x.mp3"))]);
    assert_eq!(parse_info_media_source(&src), None);
}

#[test]
fn test_parse_defaults_to_file() {
    let src = source(vec![("uri", text("/tmp/default.wav"))]);
    assert_eq!(
        parse_info_media_source(&src),
        Some(MediaSource::File { path: "/tmp/default.wav".into() })
    );
}
