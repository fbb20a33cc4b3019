use proxy_call::codecs::{effective_codecs, CodecInfo, CodecType, TrunkCodecs};
use proxy_call::conditions::{normalize_rewrite_rules, RewriteRules};
use proxy_call::media::MediaState;
use proxy_call::playback::{playback_codec, recording_beep, tone_file_name, MediaSource};
use proxy_call::route::sanitize_ivr_filename;
use proxy_call::sdp::VideoCapability;
use proxy_call::track::callee_codecs;
use proxy_call::uri::SipUri;
use proxy_call::video::filter_video_caps_for_rtp;
use proxy_call::wav::{read_wav, write_wav};

fn text(s: &str) -> String {
    s.to_string()
}

fn uri(s: &str) -> SipUri {
    SipUri::parse(s).unwrap()
}

#[test]
fn sound_that_is_written_is_read_back() {
    let samples: Vec<i16> = vec![0, 1, -1, 256, -256, i16::MAX, i16::MIN];
    let file = write_wav(&samples, 8_000);
    assert_eq!(file.len(), 58);
    assert_eq!(&file[0..4], b"RIFF");
    assert_eq!(&file[4..8], &50u32.to_le_bytes());
    assert_eq!(&file[8..16], b"WAVEfmt ");
    assert_eq!(&file[24..28], &8_000u32.to_le_bytes());
    assert_eq!(&file[28..32], &16_000u32.to_le_bytes());
    assert_eq!(&file[36..40], b"data");
    assert_eq!(&file[40..44], &14u32.to_le_bytes());
    assert_eq!(&file[48..50], &(-1i16).to_le_bytes());
    let sound = read_wav(&file).unwrap();
    assert_eq!((sound.channels, sound.sample_rate), (1, 8_000));
    assert_eq!(sound.samples, samples);
}

#[test]
fn other_chunks_of_a_file_are_passed_over() {
    let mut file: Vec<u8> = b"RIFF\0\0\0\0WAVE".to_vec();
    file.extend_from_slice(b"LIST\x03\0\0\0abc\0");
    file.extend_from_slice(b"fmt \x10\0\0\0\x01\0\x02\0\x80\x3e\0\0\0\0\0\0\x04\0\x10\0");
    file.extend_from_slice(b"data\xff\xff\xff\xff\x05\0\x06\0\x07");
    let sound = read_wav(&file).unwrap();
    assert_eq!((sound.channels, sound.sample_rate), (2, 16_000));
    assert_eq!(sound.samples, vec![5, 6]);
    assert!(read_wav(b"RIFF\0\0\0\0WAVEdata").is_none());
    assert!(read_wav(b"RIFX\0\0\0\0WAVEdata\0\0\0\0").is_none());
    assert!(read_wav(b"RIFF\0\0\0\0WAVEdata\0\0\0\0").unwrap().samples.is_empty());
    assert!(read_wav(b"").is_none());
}

#[test]
fn the_file_of_a_tone_is_named_by_the_tone_and_the_time() {
    assert_eq!(tone_file_name(425, 1_000, 17), "rustpbx_tone_425hz_1000ms_17.wav");
}

#[test]
fn codecs_come_from_the_dialplan_then_the_trunk_then_the_proxy() {
    let trunks = vec![
        TrunkCodecs { dest: text("sip:other.example"), codec: vec![text("g722")] },
        TrunkCodecs { dest: text("sip:gw.example:5060"), codec: vec![text("pcma")] },
        TrunkCodecs { dest: text("sip:gw.example"), codec: vec![text("g722")] },
    ];
    let proxy = Some(vec![text("pcmu")]);
    let callee = uri("sip:1@GW.example");
    let dialplan = vec![CodecType::G729];
    assert_eq!(effective_codecs(&dialplan, &trunks, &callee, &proxy), vec![CodecType::G729]);
    assert_eq!(effective_codecs(&Vec::new(), &trunks, &callee, &proxy), vec![CodecType::PCMA]);
    let elsewhere = uri("sip:1@nowhere.example");
    assert_eq!(effective_codecs(&Vec::new(), &trunks, &elsewhere, &proxy), vec![CodecType::PCMU]);
    assert!(effective_codecs(&Vec::new(), &trunks, &elsewhere, &None).is_empty());
}

#[test]
fn a_webrtc_callee_is_offered_the_codecs_for_webrtc() {
    let plain = vec![CodecInfo { payload_type: 0, codec: CodecType::PCMU, clock_rate: 8_000, channels: 1 }];
    let webrtc =
        vec![CodecInfo { payload_type: 111, codec: CodecType::Opus, clock_rate: 48_000, channels: 2 }];
    assert_eq!(callee_codecs(true, &plain, &webrtc)[0].payload_type, 111);
    assert_eq!(callee_codecs(false, &plain, &webrtc)[0].payload_type, 0);
}

#[test]
fn a_track_is_played_in_the_first_codec_of_the_caller() {
    let pcmu = CodecInfo { payload_type: 0, codec: CodecType::PCMU, clock_rate: 8_000, channels: 1 };
    let pcma = CodecInfo { payload_type: 8, codec: CodecType::PCMA, clock_rate: 8_000, channels: 1 };
    assert_eq!(playback_codec(&vec![pcma, pcmu], pcmu), pcma);
    assert_eq!(playback_codec(&Vec::new(), pcmu), pcmu);
    assert_eq!(recording_beep(true), Some(MediaSource::File { path: text("beep.wav") }));
    assert_eq!(recording_beep(false), None);
}

#[test]
fn the_file_name_of_an_ivr_stays_in_its_directory() {
    assert_eq!(sanitize_ivr_filename("../a\\b.c"), "___a_b_c");
}

#[test]
fn rules_that_are_normalized_stay_as_they_are() {
    let mut rules = RewriteRules::new();
    rules.headers.insert(text(" From-User "), text(" 100 "));
    rules.headers.insert(text(" X-A "), text(" b "));
    normalize_rewrite_rules(&mut rules);
    assert_eq!(rules.from_user, Some(text("100")));
    assert_eq!(rules.headers.get("X-A"), Some(&text("b")));
    normalize_rewrite_rules(&mut rules);
    assert_eq!(rules.from_user, Some(text("100")));
    assert_eq!(rules.headers.get("X-A"), Some(&text("b")));
    assert_eq!(rules.headers.keys(), vec![text("X-A")]);
}

#[test]
fn capabilities_that_are_filtered_stay_as_they_are() {
    let cap = |name: &str, payload_type: u8| VideoCapability {
        payload_type,
        codec_name: text(name),
        clock_rate: 90_000,
        fmtp: Some(text("x=1")),
        rtcp_fbs: vec![text("nack")],
    };
    let caps = vec![cap("VP8", 96), cap("h264", 97)];
    let once = filter_video_caps_for_rtp(&caps, &Vec::new());
    let twice = filter_video_caps_for_rtp(&once, &Vec::new());
    let shown = |caps: &Vec<VideoCapability>| -> Vec<(u8, usize)> {
        caps.iter().map(|c| (c.payload_type, c.rtcp_fbs.len())).collect()
    };
    assert_eq!(shown(&once), vec![(97, 0)]);
    assert_eq!(shown(&twice), shown(&once));
}

#[test]
fn the_bridge_and_the_offer_of_the_callee_are_noted() {
    let mut media = MediaState::new(Some(text("v=0")));
    media.bridge_built();
    assert!(media.media_bridge && !media.media_bridge_started);
    assert_eq!(media.callee_offered(Some(text("o"))), Some(text("o")));
    assert_eq!(media.callee_offer, Some(text("o")));
    assert_eq!(media.callee_offered(None), None);
    assert_eq!(media.callee_offer, None);
    assert!(media.take_bridge());
    assert!(!media.take_bridge());
}
