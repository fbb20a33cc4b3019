use proxy_call::dial::{callee_call_id, require_caller, DialContext};
use proxy_call::record::CallMeta;
use proxy_call::session::SipSession;
use proxy_call::status::{CallRecordHangupReason, StatusCode};
use proxy_call::table::Table;
use proxy_call::uri::{Location, SipUri};

fn text(s: &str) -> String {
    s.to_string()
}

fn uri(s: &str) -> SipUri {
    SipUri::parse(s).unwrap()
}

fn session() -> SipSession {
    SipSession::new(text("s1"), text("caller-dialog"), true, b"v=0")
}

fn context(call_id: Option<&str>, suffix: Option<&str>) -> DialContext {
    DialContext {
        caller: Some(uri("sip:alice@example.com")),
        caller_display_name: Some(text("Alice")),
        caller_contact: None,
        call_id: call_id.map(text),
        call_id_suffix: suffix.map(text),
        max_forwards: 70,
        local_addrs: Vec::new(),
        cluster_enabled: false,
    }
}

#[test]
fn a_fresh_call_id_ends_with_the_suffix() {
    assert_eq!(callee_call_id(&context(Some("given"), Some("pbx.example"))), "given");
    let made = callee_call_id(&context(None, Some("pbx.example")));
    let (digits, suffix) = made.split_at(33);
    assert_eq!(suffix, "pbx.example");
    assert!(digits.ends_with('@'));
    assert!(digits[..32].chars().all(|c| c.is_ascii_digit() || ('a'..='f').contains(&c)));
    assert_ne!(made, callee_call_id(&context(None, Some("pbx.example"))));
    assert!(callee_call_id(&context(None, None)).ends_with("@restsend.com"));
    assert_eq!(callee_call_id(&context(None, None)).len(), 45);
}

#[test]
fn the_call_ids_of_the_callees_are_remembered() {
    let mut s = session();
    let target = Location::bare(uri("sip:bob@example.com"));
    let fresh = context(None, Some("pbx.example"));
    let first = match s.build_target_invite_option(&fresh, &target, Vec::new(), None) {
        Ok(plan) => plan,
        Err(e) => panic!("{}", e.1),
    };
    assert_eq!(first.caller_display_name, Some(text("Alice")));
    assert!(s.meta.callee_call_ids.contains(&first.call_id));
    let given = context(Some("given"), None);
    assert!(s.build_target_invite_option(&given, &target, Vec::new(), None).is_ok());
    assert!(s.build_target_invite_option(&given, &target, Vec::new(), None).is_ok());
    let mut nobody = context(Some("unused"), None);
    assert_eq!(require_caller(&nobody).map(|c| c.to_text()).ok(), Some(text("sip:alice@example.com")));
    nobody.caller = None;
    assert_eq!(require_caller(&nobody).err().map(|e| e.0), Some(500));
    let refused = s.build_target_invite_option(&nobody, &target, Vec::new(), None);
    assert_eq!(refused.err().and_then(|e| e.2), Some(text("No caller in dialplan")));
    let record = s.record_snapshot(&text("a"), &text("b"), None);
    let mut ids = record.callee_call_ids;
    ids.sort();
    let mut expected = vec![first.call_id, text("given")];
    expected.sort();
    assert_eq!(ids, expected);
}

#[test]
fn the_record_of_a_call_holds_what_the_session_keeps() {
    let mut s = session();
    s.on_routed(
        Some(text("sip:alice@inside.example")),
        Some(text("sip:bob@inside.example")),
        Some(text("<sip:bob@192.0.2.7>")),
        Some(text("192.0.2.7:5060")),
    );
    s.on_callee_progress(b"", 1_500);
    s.on_callee_progress(b"", 2_500);
    s.on_answered(4_000);
    s.call.connected_callee = Some(text("sip:1001@example.com"));
    s.call.hangup_reason = Some(CallRecordHangupReason::ByCallee);
    s.call.last_error = Some((StatusCode::of(486), Some(text("busy"))));
    s.queue_name = Some(text("sales"));
    s.meta.hangup_messages.push(text("bye"));
    let mut metadata: Table<String> = Table::new();
    metadata.insert(text("agent_id"), text("old"));
    metadata.insert(text("tenant"), text("t1"));
    let r = s.record_snapshot(
        &text("sip:alice@example.com"),
        &text("sip:desk@example.com"),
        Some(metadata),
    );
    assert_eq!(r.ring_time, Some(1_500));
    assert_eq!(r.answer_time, Some(4_000));
    assert_eq!(r.last_error.map(|(status, detail)| (status.code, detail)), Some((486, Some(text("busy")))));
    assert_eq!(r.hangup_reason, Some(CallRecordHangupReason::ByCallee));
    assert_eq!(r.hangup_messages, vec![text("bye")]);
    assert_eq!(r.original_caller, Some(text("sip:alice@example.com")));
    assert_eq!(r.original_callee, Some(text("sip:desk@example.com")));
    assert_eq!(r.routed_caller, Some(text("sip:alice@inside.example")));
    assert_eq!(r.routed_callee, Some(text("sip:bob@inside.example")));
    assert_eq!(r.connected_callee, Some(text("sip:1001@example.com")));
    assert_eq!(r.routed_contact, Some(text("<sip:bob@192.0.2.7>")));
    assert_eq!(r.routed_destination, Some(text("192.0.2.7:5060")));
    assert_eq!(r.last_queue_name, Some(text("sales")));
    assert_eq!(r.server_dialog_id, "caller-dialog");
    let entries = r.metadata.unwrap();
    assert_eq!(entries.get("agent_id"), Some(&text("1001")));
    assert_eq!(entries.get("queue_name"), Some(&text("sales")));
    assert_eq!(entries.get("tenant"), Some(&text("t1")));
}

#[test]
fn the_record_of_a_call_that_never_rang_is_empty() {
    let r = session().record_snapshot(&text("a"), &text("b"), None);
    assert_eq!(r.ring_time, None);
    assert_eq!(r.answer_time, None);
    assert!(r.callee_call_ids.is_empty());
    assert!(r.hangup_messages.is_empty());
    assert_eq!(r.metadata.map(|m| m.keys().len()), Some(0));
}

#[test]
fn the_time_of_the_first_ring_is_kept() {
    let mut meta = CallMeta::new();
    meta.rang(7);
    meta.rang(9);
    assert_eq!(meta.ring_time, Some(7));
}

#[test]
fn talk_is_counted_in_whole_seconds_from_the_answer() {
    let mut s = session();
    assert_eq!(s.meta.talk_seconds(9_000), 0);
    s.on_answered(2_000);
    assert_eq!(s.meta.talk_seconds(4_999), 2);
    assert_eq!(s.meta.talk_seconds(5_000), 3);
    assert_eq!(s.meta.talk_seconds(1_000), 0);
}

#[test]
fn a_session_that_is_cleaned_up_has_no_callees_and_no_timers() {
    let mut s = session();
    s.call.callee_dialogs.insert(text("d1"));
    s.call.connected_dialog = Some(text("d1"));
    s.call.pending_hangup.insert(text("d2"));
    s.media.bridge_built();
    s.media.media_bridge_started = true;
    s.media.bridge_playback_track_id = Some(text("t"));
    s.recording.start_recording(text("/r.wav"), 1_000, None);
    let owed = s.clean_up();
    assert_eq!(owed.dialogs, vec![text("d2")]);
    assert!(owed.stop_bridge);
    assert!(!s.media.media_bridge && !s.media.media_bridge_started);
    assert_eq!(s.media.bridge_playback_track_id, None);
    assert!(!s.recording.is_active());
    let info = owed.recording.unwrap().finish(4_500, 99);
    assert_eq!((info.path.as_str(), info.duration, info.size_bytes), ("/r.wav", 3_500, 99));
    assert!(s.call.callee_dialogs.is_empty());
    assert_eq!(s.call.connected_dialog, None);
    assert!(s.timers.timers.keys().is_empty());
    s.media.bridge_playback_track_id = Some(text("t"));
    let again = s.clean_up();
    assert!(!again.stop_bridge && again.recording.is_none());
    assert_eq!(s.media.bridge_playback_track_id, Some(text("t")));
}
