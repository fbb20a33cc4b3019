use proxy_call::command::{
    audio_complete, command_result, denied, note_degradation, room_info, CallCommand,
    CommandOutcome, CommandReply, CommandResult, MediaCapabilityCheck, Participant, Room,
};
use proxy_call::dial::{LegRingStep, RingStep};
use proxy_call::dialog::{
    agent_id, answer_outcome, answered_parties, farewell_of, max_setup_time, record_metadata,
    termination_failure, AnswerSent, CallState, CalleeEnd, SetupEvent, SetupStep, SetupWait,
    TerminatedReason,
};
use proxy_call::dialogs::DialogSet;
use proxy_call::dtmf::RtpDtmfDetector;
use proxy_call::events::{after_refresh, NextLook, SessionEvent, SessionLoop, SessionStep};
use proxy_call::json::{get_at, get_bool, get_number, get_text, Json};
use proxy_call::legs::{
    fork_leg_id, participant_leg, plan_media_path, BridgeConfig, BridgeEndpoint, DialogSide,
    HangupCascade, Leg, LegRegistry, LegState, MediaPathPlan, SessionState,
};
use proxy_call::media::{MediaPathMode, MediaState};
use proxy_call::playback::{
    hold_music, message_outcome, mute_outcome, options_ping_outcome, plan_play, reinvite_outcome,
    CallerReply, DialogMessage, MediaSource, OutputChange, PlayOptions, RingPlan, RingbackPolicy, TrackLeg,
};
use proxy_call::sdp::TransportMode;
use proxy_call::session::{
    caller_media_source, dtmf_description, dtmf_route, ensure_app_step, forwarding_update,
    handle_reinvite, observe_frame, owed_at_drop, plan_ingress_monitor, reinvite_answer, CommandStep, DtmfRoute, DtmfSent, EnsureAppStep,
    MonitorPlan, MonitorState, ProfileEnd, ReinviteAnswer, ReinviteMethod, ReinvitePlan,
    CallerMediaSource, SipSession, StartOutcome,
};
use proxy_call::status::{CallRecordHangupReason, StatusCode};
use proxy_call::table::Table;
use proxy_call::timer::{
    init_server_timer, RefreshReply, RefreshStep, SessionExpires, SessionRefresher,
    SessionTimerMode, SessionTimerState, TimerAction, TimerClock, TimerTable,
};

fn text(s: &str) -> String {
    s.to_string()
}

fn session() -> SipSession {
    SipSession::new(text("s1"), text("caller-dialog"), true, b"v=0")
}

fn with_callee() -> SipSession {
    let mut s = session();
    s.legs.add_leg(Leg::new("callee"));
    s
}

fn state_of(s: &SipSession, leg: &str) -> Option<LegState> {
    s.legs.states.get(leg).map(|l| l.state)
}

fn failure(step: CommandStep) -> String {
    match step {
        CommandStep::Done(CommandResult { outcome: CommandOutcome::Failure(m), .. }) => m,
        _ => panic!("a failure was expected"),
    }
}

fn is_success(step: &CommandStep) -> bool {
    matches!(step, CommandStep::Done(CommandResult { outcome: CommandOutcome::Success, degradation: None }))
}

#[test]
fn a_new_session_has_its_caller_alone() {
    let s = session();
    assert_eq!(s.state, SessionState::Initializing);
    assert_eq!(state_of(&s, "caller"), Some(LegState::Initializing));
    assert_eq!(s.path, MediaPathMode::Anchored);
    assert_eq!(s.media.caller_offer.as_deref(), Some("v=0"));
    let shown = s.snapshot(false);
    assert_eq!(shown.id, "s1");
    assert_eq!(shown.leg_count, 1);
    assert!(!shown.bridge_active);
    assert!(shown.caller_gate_open);
    assert!(shown.callee_dialogs.is_empty());
}

#[test]
fn a_full_hangup_ends_the_session() {
    let mut s = with_callee();
    s.legs.update_leg_state("callee", LegState::Connected);
    let step = s.process_command(
        CallCommand::Hangup { cascade: HangupCascade::All, reason: Some(text("bye")) },
        true,
    );
    assert!(matches!(step, CommandStep::TearDown { reason: Some(r) } if r == "bye"));
    assert_eq!(s.state, SessionState::Ended);
    assert!(s.call.cancelled);
    assert!(!s.bridge.active);
}

#[test]
fn a_hangup_can_spare_legs() {
    let mut s = with_callee();
    s.legs.update_leg_state("callee", LegState::Connected);
    let cascade = HangupCascade::AllExcept(vec![text("callee")]);
    let _ = s.process_command(CallCommand::Hangup { cascade, reason: None }, true);
    assert_eq!(state_of(&s, "caller"), Some(LegState::Ended));
    assert_eq!(state_of(&s, "callee"), Some(LegState::Connected));
    assert_eq!(s.state, SessionState::Active);
    let _ = s.process_command(
        CallCommand::Hangup { cascade: HangupCascade::Nobody, reason: None },
        true,
    );
    assert_eq!(state_of(&s, "callee"), Some(LegState::Connected));
}

#[test]
fn unhold_undoes_hold_and_ends_the_music() {
    let mut s = with_callee();
    s.legs.update_leg_state("callee", LegState::Connected);
    s.playback.insert(text("hold-music"));
    let held = s.process_command(CallCommand::Hold { leg_id: text("callee"), music: None }, true);
    assert!(matches!(held, CommandStep::Perform(CallCommand::Hold { .. })));
    assert_eq!(state_of(&s, "callee"), Some(LegState::Hold));
    assert!(s.playback.contains("hold-music"));
    let released = s.process_command(CallCommand::Unhold { leg_id: text("callee") }, true);
    assert!(matches!(released, CommandStep::Perform(CallCommand::Unhold { .. })));
    assert_eq!(state_of(&s, "callee"), Some(LegState::Connected));
    assert!(!s.playback.contains("hold-music"));
    let again = s.process_command(CallCommand::Unhold { leg_id: text("callee") }, true);
    assert!(is_success(&again));
}

#[test]
fn commands_for_legs_that_are_not_there_fail() {
    let mut s = session();
    let ghost = || text("ghost");
    let commands = vec![
        CallCommand::Hold { leg_id: ghost(), music: None },
        CallCommand::Unhold { leg_id: ghost() },
        CallCommand::Answer { leg_id: ghost() },
        CallCommand::QueueEnqueue { leg_id: ghost(), queue_id: text("q"), priority: None },
        CallCommand::QueueDequeue { leg_id: ghost() },
        CallCommand::Reject { leg_id: ghost(), reason: None },
        CallCommand::Ring { leg_id: ghost(), ringback: None },
        CallCommand::HandleReInvite { leg_id: ghost(), sdp: text("v=0") },
    ];
    for command in commands {
        assert_eq!(failure(s.process_command(command, true)), "Leg not found: ghost");
    }
    assert_eq!(
        failure(s.process_command(
            CallCommand::Bridge { leg_a: text("caller"), leg_b: ghost() },
            true
        )),
        "Cannot bridge: one or both legs not found"
    );
    assert_eq!(
        failure(s.process_command(
            CallCommand::Transfer { leg_id: text("caller"), target: text("x"), attended: false },
            false
        )),
        "No callee state receiver available for transfer"
    );
    match s.process_command(CallCommand::Unknown, true) {
        CommandStep::Done(CommandResult { outcome: CommandOutcome::NotSupported(m), .. }) => {
            assert_eq!(m, "Command not yet implemented")
        }
        _ => panic!("there is no such command"),
    }
}

#[test]
fn two_legs_are_bridged_and_unbridged() {
    let mut s = with_callee();
    let step = s.process_command(
        CallCommand::Bridge { leg_a: text("caller"), leg_b: text("callee") },
        true,
    );
    assert!(is_success(&step));
    assert_eq!(s.bridge.legs, Some((text("caller"), text("callee"))));
    assert_eq!(state_of(&s, "caller"), Some(LegState::Connected));
    assert_eq!(state_of(&s, "callee"), Some(LegState::Connected));
    assert!(is_success(&s.process_command(CallCommand::Unbridge, true)));
    assert!(!s.bridge.active);
    assert_eq!(s.bridge.legs, None);
}

#[test]
fn an_agent_that_answers_is_announced() {
    let mut s = session();
    assert!(s.add_leg("leg-1", "sip:ann@example.com").is_ok());
    assert_eq!(state_of(&s, "leg-1"), Some(LegState::Initializing));
    let step = s.process_command(
        CallCommand::LegConnected { leg_id: text("leg-1"), answer_sdp: Some(text("v=0")) },
        true,
    );
    match step {
        CommandStep::Refresh { result, event: Some(event) } => {
            assert!(matches!(result.outcome, CommandOutcome::Success));
            assert_eq!(event.name, "agent_connected");
            assert_eq!(get_text(Some(&event.data), "leg_id"), Some(text("leg-1")));
            assert_eq!(get_text(Some(&event.data), "agent_uri"), Some(text("sip:ann@example.com")));
        }
        _ => panic!("the agent was to be announced"),
    }
    assert_eq!(state_of(&s, "leg-1"), Some(LegState::Connected));
    assert_eq!(s.legs.answers.get("leg-1"), Some(&text("v=0")));
    let silent = s.process_command(
        CallCommand::LegConnected { leg_id: text("caller"), answer_sdp: None },
        true,
    );
    assert!(matches!(silent, CommandStep::Refresh { event: None, .. }));
}

#[test]
fn an_agent_that_fails_is_announced_and_gone() {
    let mut s = session();
    assert!(s.add_leg("leg-1", "sip:ann@example.com").is_ok());
    let step = s.process_command(
        CallCommand::LegFailed { leg_id: text("leg-1"), reason: text("Rejected with 486") },
        true,
    );
    match step {
        CommandStep::Refresh { result, event: Some(event) } => {
            assert!(matches!(result.outcome, CommandOutcome::Failure(m) if m == "Rejected with 486"));
            assert_eq!(event.name, "agent_busy");
            assert_eq!(get_text(Some(&event.data), "reason"), Some(text("Rejected with 486")));
        }
        _ => panic!("the failure was to be announced"),
    }
    assert_eq!(state_of(&s, "leg-1"), None);
    match s.process_command(
        CallCommand::LegFailed { leg_id: text("nobody"), reason: text("Timeout") },
        true,
    ) {
        CommandStep::Refresh { event: Some(event), .. } => {
            assert_eq!(event.name, "agent_no_answer");
            assert!(matches!(get_at(Some(&event.data), "agent_uri"), Some(Json::Null)));
        }
        _ => panic!("the failure was to be announced"),
    }
}

#[test]
fn a_leg_needs_an_address_that_can_be_read() {
    let mut s = session();
    let why = s.add_leg("leg-1", "").unwrap_err();
    assert!(why.starts_with("Invalid SIP URI '': "));
    assert_eq!(state_of(&s, "leg-1"), None);
}

#[test]
fn a_leg_with_a_dialog_is_hung_up_when_it_is_removed() {
    let mut s = session();
    assert!(s.add_leg("leg-1", "sip:ann@example.com").is_ok());
    assert_eq!(s.remove_leg("leg-1"), None);
    let mut leg = Leg::new("leg-2");
    leg.dialog_id = Some(text("d2"));
    s.legs.add_leg(leg);
    assert_eq!(s.remove_leg("leg-2"), Some(text("s1-leg-2")));
    assert_eq!(state_of(&s, "leg-2"), None);
    assert_eq!(s.remove_leg("leg-2"), None);
}

#[test]
fn active_legs_are_bridged_or_mixed() {
    let mut s = with_callee();
    let two = vec![text("caller"), text("callee")];
    assert!(matches!(s.update_media_path(&two), MediaPathPlan::Direct { .. }));
    assert!(s.bridge.active);
    let three = vec![text("caller"), text("callee"), text("leg-1")];
    assert!(matches!(s.update_media_path(&three), MediaPathPlan::Conference));
    assert!(!s.bridge.active);
    let unknown = vec![text("caller"), text("leg-9")];
    assert!(matches!(s.update_media_path(&unknown), MediaPathPlan::Direct { .. }));
    assert!(!s.bridge.active);
    assert!(matches!(plan_media_path(&vec![text("caller")]), MediaPathPlan::Unconnected));
}

#[test]
fn a_leg_rings_as_the_policy_says() {
    let mut s = with_callee();
    let file = RingbackPolicy::EarlyMedia { source: MediaSource::File { path: text("ring.wav") } };
    match s.ring_leg("callee", Some(file)) {
        Ok(RingPlan::EarlyMedia { path }) => assert_eq!(path, "ring.wav"),
        _ => panic!("early media was asked for"),
    }
    assert_eq!(state_of(&s, "callee"), Some(LegState::Initializing));
    let silent = RingbackPolicy::EarlyMedia { source: MediaSource::Silence };
    assert_eq!(
        s.ring_leg("callee", Some(silent)).err(),
        Some(text("EarlyMedia requires a File media source"))
    );
    match s.ring_leg("callee", Some(RingbackPolicy::Replace)) {
        Ok(RingPlan::Ring { sdp }) => assert_eq!(sdp, Some(text("v=0"))),
        _ => panic!("a ringing indication was asked for"),
    }
    assert_eq!(state_of(&s, "callee"), Some(LegState::Ringing));
    match s.ring_leg("callee", None) {
        Ok(RingPlan::Ring { sdp }) => assert_eq!(sdp, None),
        _ => panic!("a ringing indication was asked for"),
    }
}

#[test]
fn what_is_played_to_a_leg_is_stopped_with_it() {
    let mut s = session();
    let options = Some(PlayOptions {
        loop_playback: true,
        await_completion: false,
        interrupt_on_dtmf: false,
        track_id: Some(text("menu")),
        send_progress: false,
    });
    let file = || MediaSource::File { path: text("menu.wav") };
    let to_caller = Some(text("caller"));
    assert_eq!(
        plan_play(&to_caller, file(), &options, &s.media).err(),
        Some(text("Playback requires media bridge for caller leg"))
    );
    s.media.caller_answer_uses_media_bridge = true;
    assert_eq!(
        plan_play(&to_caller, file(), &options, &s.media).err(),
        Some(text("Playback requires active media bridge"))
    );
    s.media.media_bridge = true;
    assert_eq!(
        plan_play(&to_caller, MediaSource::Silence, &options, &s.media).err(),
        Some(text("Only file/URL playback supported"))
    );
    assert_eq!(
        plan_play(&Some(text("leg-7")), file(), &options, &s.media).err(),
        Some(text("Playback to dynamic leg leg-7 requires media bridge output mapping"))
    );
    let plan = match plan_play(&to_caller, file(), &options, &s.media) {
        Ok(plan) => plan,
        Err(why) => panic!("{}", why),
    };
    assert_eq!(plan.track_id, "menu-caller");
    assert_eq!(plan.side, DialogSide::Caller);
    assert!(plan.loop_playback && !plan.await_completion);
    s.start_track(&plan);
    assert_eq!(s.media.bridge_playback_track_id, Some(text("menu-caller")));
    assert_eq!(s.tracks_of_leg(&to_caller), vec![text("menu-caller")]);
    assert!(s.tracks_of_leg(&Some(text("callee"))).is_empty());
    let stop = s.stop_track("menu-caller", true).unwrap();
    assert_eq!(stop.output, Some((DialogSide::Caller, OutputChange::Mute)));
    assert!(matches!(stop.remove_from, Some(TrackLeg::Caller)));
    assert_eq!(s.media.bridge_playback_track_id, None);
    assert!(s.stop_track("menu-caller", true).is_none());
}

#[test]
fn without_a_leg_the_caller_hears_the_track() {
    let mut s = session();
    s.media.media_bridge = true;
    s.media.caller_answer_uses_media_bridge = true;
    let plan = match plan_play(&None, MediaSource::Url { url: text("http://x/y") }, &None, &s.media) {
        Ok(plan) => plan,
        Err(why) => panic!("{}", why),
    };
    assert_eq!(plan.track_id, "playback");
    assert_eq!(plan.path, "http://x/y");
    s.start_track(&plan);
    assert_eq!(s.tracks_of_leg(&Some(text("caller"))), vec![text("playback")]);
    assert!(!s.start_progress_media(false));
    assert!(!s.playback.contains("progress-media"));
    assert!(s.start_progress_media(true));
    assert!(s.playback.contains("progress-media"));
    assert_eq!(s.media.bridge_playback_track_id, Some(text("progress-media")));
}

#[test]
fn digits_that_were_sent_are_remembered() {
    let mut s = session();
    assert_eq!(s.finish_send_dtmf("caller", &vec!['1', '#'], DtmfSent::Sent), Ok(()));
    assert_eq!(s.dtmf_digits, vec!['1', '#']);
    assert_eq!(
        s.finish_send_dtmf("callee", &vec!['2'], DtmfSent::NoDialog { dialog: text("d") }),
        Err(text("Callee dialog not found: d"))
    );
    assert_eq!(
        s.finish_send_dtmf("leg-1", &vec!['2'], DtmfSent::NoDialog { dialog: text("d") }),
        Err(text("Dialog not found for leg leg-1: d"))
    );
    assert_eq!(
        s.finish_send_dtmf("caller", &vec!['2'], DtmfSent::Failed { error: text("gone") }),
        Err(text("gone"))
    );
    assert_eq!(
        s.finish_send_dtmf("callee", &vec!['2'], DtmfSent::Failed { error: text("gone") }),
        Err(text("Failed to send DTMF: gone"))
    );
    assert_eq!(s.dtmf_digits, vec!['1', '#']);
}

#[test]
fn digits_go_to_the_dialog_of_their_leg() {
    assert!(matches!(dtmf_route("caller", &None, &None), Ok(DtmfRoute::Caller)));
    assert!(matches!(
        dtmf_route("callee", &Some(text("d")), &None),
        Ok(DtmfRoute::Dialog(d)) if d == "d"
    ));
    assert_eq!(dtmf_route("callee", &None, &None).err(), Some(text("No connected callee dialog")));
    assert_eq!(
        dtmf_route("leg-1", &Some(text("d")), &None).err(),
        Some(text("No dialog_id for leg: leg-1"))
    );
}

#[test]
fn answers_dequeues_and_rejections_come_to_an_end() {
    let mut s = session();
    let r = s.finish_answer("caller", Err(text("no")));
    assert!(matches!(r.outcome, CommandOutcome::Failure(m) if m == "no"));
    assert_eq!(state_of(&s, "caller"), Some(LegState::Initializing));
    let r = s.finish_answer("caller", Ok(()));
    assert!(matches!(r.outcome, CommandOutcome::Success));
    assert_eq!(state_of(&s, "caller"), Some(LegState::Connected));
    let r = s.finish_reject("caller", Err(text("gone")));
    assert!(
        matches!(r.outcome, CommandOutcome::Failure(m) if m == "Failed to send reject response: gone")
    );
    let _ = s.finish_reject("caller", Ok(()));
    assert_eq!(state_of(&s, "caller"), Some(LegState::Ended));
    let _ = s.finish_dequeue("caller");
    assert_eq!(state_of(&s, "caller"), Some(LegState::Connected));
}

#[test]
fn replies_become_results() {
    let outcome = |reply| command_result(reply).outcome;
    assert!(matches!(outcome(CommandReply::Plain(Ok(()))), CommandOutcome::Success));
    assert!(matches!(
        outcome(CommandReply::Plain(Err(text("e")))),
        CommandOutcome::Failure(m) if m == "e"
    ));
    assert!(matches!(
        outcome(CommandReply::Injected(Err(text("e")))),
        CommandOutcome::Degraded(m) if m == "e"
    ));
    assert!(matches!(
        outcome(CommandReply::LegAdded(Ok(text("leg-1")))),
        CommandOutcome::SuccessWithLeg(l) if l == "leg-1"
    ));
    let room = || Room {
        conf_id: text("c"),
        participants: vec![Participant { leg_id: text("caller"), muted: true }],
        locked: true,
    };
    match outcome(CommandReply::RoomFound(Ok(room()))) {
        CommandOutcome::SuccessWithData(d) => {
            assert_eq!(get_text(Some(&d), "conf_id"), Some(text("c")));
            assert_eq!(get_number(Some(&d), "participant_count"), Some(1));
        }
        _ => panic!("the conference was to be told of"),
    }
    match outcome(CommandReply::Rooms(vec![room()])) {
        CommandOutcome::SuccessWithData(d) => {
            let list = d.as_array().unwrap();
            assert_eq!(list.len(), 1);
            assert_eq!(get_bool(Some(&list[0]), "locked"), Some(true));
        }
        _ => panic!("the conferences were to be told of"),
    }
    let info = room_info(&room());
    let people = get_at(Some(&info), "participants").and_then(|p| p.as_array()).unwrap();
    assert_eq!(get_bool(Some(&people[0]), "muted"), Some(true));
    let ended = audio_complete("menu", true);
    assert_eq!(get_text(Some(&ended), "type"), Some(text("audio_complete")));
    assert_eq!(get_bool(Some(&ended), "interrupted"), Some(true));
}

#[test]
fn a_command_that_media_do_not_allow_is_not_carried_out() {
    let deny = MediaCapabilityCheck::Denied { reason: text("no media") };
    let r = denied(&deny).unwrap();
    assert!(matches!(r.outcome, CommandOutcome::Degraded(m) if m == "no media"));
    let less = MediaCapabilityCheck::Degraded { reason: text("bypass") };
    assert!(denied(&less).is_none());
    let noted = note_degradation(less, CommandResult::success());
    assert_eq!(noted.degradation, Some(text("bypass")));
    assert!(denied(&MediaCapabilityCheck::Allowed).is_none());
}

#[test]
fn a_session_ends_once_nothing_is_left() {
    let mut s = session();
    let mut serving = SessionLoop::new();
    s.call.callee_dialogs.insert(text("d1"));
    assert!(!serving.finished(&s, 0, true));
    assert!(matches!(
        serving.on_event(&mut s, SessionEvent::Cancelled),
        SessionStep::StartDrain { secs: 3 }
    ));
    assert!(matches!(serving.on_event(&mut s, SessionEvent::Cancelled), SessionStep::Wait));
    assert!(!serving.finished(&s, 0, true));
    let _ = serving.on_event(&mut s, SessionEvent::HungUp { ended: Some(text("d1")) });
    assert!(!serving.finished(&s, 1, true));
    assert!(!serving.finished(&s, 0, false));
    assert!(serving.finished(&s, 0, true));
}

#[test]
fn an_ending_call_keeps_its_reason() {
    let mut s = session();
    let mut serving = SessionLoop::new();
    assert!(matches!(serving.on_event(&mut s, SessionEvent::DrainTimeout), SessionStep::Wait));
    let _ = serving.on_event(&mut s, SessionEvent::RtpTimeout);
    assert_eq!(s.call.hangup_reason, Some(CallRecordHangupReason::RtpTimeout));
    assert!(s.call.cancelled);
    let _ = serving.on_event(&mut s, SessionEvent::Cancelled);
    let _ = serving.on_event(&mut s, SessionEvent::MaxDuration);
    let clock = TimerClock { expired: true, our_turn: true, refresh_due: true };
    let _ = serving.on_event(
        &mut s,
        SessionEvent::TimerDue { dialog: text("caller-dialog"), clock },
    );
    assert_eq!(s.call.hangup_reason, Some(CallRecordHangupReason::RtpTimeout));
    assert!(s.call.pending_hangup.is_empty());
    assert!(matches!(serving.on_event(&mut s, SessionEvent::DrainTimeout), SessionStep::Finish));
}

#[test]
fn timers_refresh_or_end_their_dialogs() {
    let mut s = session();
    let mut serving = SessionLoop::new();
    let timer = s.init_callee_timer("d1", SessionTimerMode::Always, None, 1800, 0);
    s.timers.start("caller-dialog", timer);
    s.timers.schedule("d1", Some(900));
    assert_eq!(s.timers.due.get("d1"), Some(&900));
    assert!(s.timers.due.get("caller-dialog").is_none());
    let due = |dialog: &str, expired: bool| SessionEvent::TimerDue {
        dialog: text(dialog),
        clock: TimerClock { expired, our_turn: true, refresh_due: true },
    };
    match serving.on_event(&mut s, due("d1", false)) {
        SessionStep::Refresh { dialog, to_callee } => {
            assert_eq!(dialog, "d1");
            assert!(to_callee);
        }
        _ => panic!("the session was to be refreshed"),
    }
    assert!(s.timers.timers.get("d1").unwrap().refreshing);
    assert_eq!(s.timers.due.get("d1"), None);
    assert!(matches!(serving.on_event(&mut s, due("d1", false)), SessionStep::Wait));
    assert!(matches!(
        serving.on_event(&mut s, due("caller-dialog", false)),
        SessionStep::Refresh { to_callee: false, .. }
    ));
    let _ = serving.on_event(&mut s, due("d1", true));
    assert_eq!(s.call.hangup_reason, Some(CallRecordHangupReason::Autohangup));
    assert_eq!(s.call.take_hangups(), vec![text("d1")]);
    assert!(matches!(serving.on_event(&mut s, due("unknown", true)), SessionStep::Wait));
    assert_eq!(after_refresh(true), NextLook::Regular);
    assert_eq!(after_refresh(false), NextLook::Expiration);
}

#[test]
fn an_interval_below_the_smallest_is_refused_with_it() {
    let init = |min_se: Option<u64>, expires: SessionExpires, mode: SessionTimerMode| {
        init_server_timer(mode, min_se, expires, SessionRefresher::Uas, 60, 5)
    };
    let refused = init(Some(200), SessionExpires::Interval { secs: 150 }, SessionTimerMode::Supported);
    match refused {
        Err((code, _, detail)) => {
            assert_eq!(code, 422);
            assert_eq!(detail, Some(text("200")));
        }
        Ok(_) => panic!("the interval is too small"),
    }
    let taken = init(None, SessionExpires::Interval { secs: 90 }, SessionTimerMode::Supported).unwrap();
    assert!(taken.active && taken.enabled);
    assert_eq!(taken.session_interval, 90);
    assert_eq!(taken.refresher, SessionRefresher::Uas);
    let always = init(Some(100), SessionExpires::Absent, SessionTimerMode::Always).unwrap();
    assert_eq!(always.session_interval, 100);
    assert_eq!(always.min_se, 100);
    let idle = init(None, SessionExpires::Absent, SessionTimerMode::Supported).unwrap();
    assert!(!idle.active && !idle.enabled);
    assert_eq!(idle.session_interval, 1800);
    let unread = init(None, SessionExpires::Unreadable, SessionTimerMode::Always).unwrap();
    assert!(!unread.active);
}

#[test]
fn a_refresh_goes_from_update_to_reinvite_and_ends() {
    let mut t = TimerTable::new();
    assert_eq!(t.first_refresh_step("d"), RefreshStep::Failed);
    t.timers.insert(text("d"), SessionTimerState::new(SessionTimerMode::Always, 0));
    let reply = |status: u16, min_se: Option<u64>| RefreshReply::Response { status, min_se };
    let first = t.first_refresh_step("d");
    assert_eq!(first, RefreshStep::Update { again: false });
    let second = t.on_refresh_reply("d", first, reply(422, Some(3600)));
    assert_eq!(second, RefreshStep::Update { again: true });
    assert_eq!(t.timers.get("d").unwrap().session_interval, 3600);
    assert_eq!(t.timers.get("d").unwrap().min_se, 3600);
    let third = t.on_refresh_reply("d", second, reply(405, None));
    assert_eq!(third, RefreshStep::Reinvite { again: false });
    assert_eq!(t.first_refresh_step("d"), RefreshStep::Reinvite { again: false });
    let fourth = t.on_refresh_reply("d", third, reply(422, Some(4000)));
    assert_eq!(fourth, RefreshStep::Reinvite { again: true });
    assert_eq!(t.on_refresh_reply("d", fourth, reply(422, Some(5000))), RefreshStep::Failed);
    assert_eq!(t.on_refresh_reply("d", third, reply(200, None)), RefreshStep::Refreshed);
    assert_eq!(t.on_refresh_reply("d", third, RefreshReply::TimedOut), RefreshStep::Failed);
    assert!(!t.runs("d"));
    t.forget("d");
    assert_eq!(t.first_refresh_step("d"), RefreshStep::Failed);
}

#[test]
fn a_pending_refresh_is_not_started_again() {
    let mut t = TimerTable::new();
    t.timers.insert(text("d"), SessionTimerState::new(SessionTimerMode::Always, 0));
    let clock = TimerClock { expired: false, our_turn: true, refresh_due: true };
    assert_eq!(t.next_timer_action("d", clock), Some(TimerAction::Refresh));
    assert_eq!(t.next_timer_action("d", clock), None);
    let step = t.on_refresh_reply("d", RefreshStep::Update { again: true }, RefreshReply::SendFailed);
    assert_eq!(step, RefreshStep::Failed);
    assert_eq!(t.next_timer_action("d", clock), Some(TimerAction::Refresh));
    let theirs = TimerClock { expired: false, our_turn: false, refresh_due: true };
    assert_eq!(t.next_timer_action("d", theirs), None);
}

#[test]
fn a_caller_who_leaves_takes_every_callee_along() {
    let mut s = with_callee();
    s.call.callee_dialogs.insert(text("d1"));
    s.call.callee_dialogs.insert(text("d2"));
    s.on_caller_terminated(TerminatedReason::UacBye);
    assert!(s.call.cancelled);
    assert_eq!(state_of(&s, "caller"), Some(LegState::Ended));
    assert_eq!(s.call.hangup_reason, Some(CallRecordHangupReason::ByCaller));
    let mut taken = s.call.take_hangups();
    taken.sort();
    assert_eq!(taken, vec![text("d1"), text("d2")]);
    for d in &taken {
        s.call.on_hung_up(d);
    }
    assert!(s.call.callee_dialogs.is_empty());
    assert!(s.call.pending_hangup.is_empty());
}

#[test]
fn the_end_of_a_foreign_dialog_is_ignored() {
    let mut s = with_callee();
    s.on_connected(text("sip:bob@example.com"), text("d1"));
    assert_eq!(state_of(&s, "callee"), Some(LegState::Connected));
    let end = s.on_callee_terminated("d9", TerminatedReason::UasBye, false, None);
    assert!(matches!(end, CalleeEnd::Ignored));
    assert_eq!(state_of(&s, "callee"), Some(LegState::Connected));
    assert_eq!(s.call.hangup_reason, None);
}

#[test]
fn a_connected_callee_who_leaves_is_asked_about() {
    let mut s = with_callee();
    s.on_connected(text("sip:bob@example.com"), text("d1"));
    let end = s.on_callee_terminated("d1", TerminatedReason::UasBye, false, None);
    assert!(matches!(end, CalleeEnd::AskPostCallHook));
    assert_eq!(s.call.hangup_reason, Some(CallRecordHangupReason::ByCallee));
    assert_eq!(s.call.connected_callee, None);
    s.call.after_post_call_hook(false, false);
    assert_eq!(s.call.take_hangups(), vec![text("caller-dialog")]);
    let mut t = with_callee();
    t.on_connected(text("sip:bob@example.com"), text("d1"));
    let end = t.on_callee_terminated("d1", TerminatedReason::UasBye, true, None);
    assert!(matches!(end, CalleeEnd::Over));
}

#[test]
fn a_failed_callee_goes_to_voicemail_or_is_rejected() {
    let mut s = with_callee();
    s.call.callee_dialogs.insert(text("d1"));
    match s.on_callee_terminated("d1", TerminatedReason::UasBusy, false, Some(text("200"))) {
        CalleeEnd::TryVoicemail { extension, status, reason } => {
            assert_eq!(extension, "200");
            assert_eq!(status.code, 486);
            assert_eq!(reason, Some(text("Busy Here")));
        }
        _ => panic!("the mailbox was to be tried"),
    }
    let mut t = with_callee();
    t.call.callee_dialogs.insert(text("d1"));
    match t.on_callee_terminated("d1", TerminatedReason::Timeout, false, None) {
        CalleeEnd::Reject { status, reason } => {
            assert_eq!(status.code, 408);
            assert_eq!(reason, Some(text("Request Timeout")));
        }
        _ => panic!("the call was to be rejected"),
    }
    assert_eq!(t.call.last_error.as_ref().map(|e| e.0.code), Some(408));
}

#[test]
fn every_end_has_its_failure() {
    let code = |r: TerminatedReason| termination_failure(r).map(|f| (f.0.code, f.1));
    assert_eq!(code(TerminatedReason::UasBusy), Some((486, Some(text("Busy Here")))));
    assert_eq!(code(TerminatedReason::UasDecline), Some((603, Some(text("Decline")))));
    assert_eq!(code(TerminatedReason::Timeout), Some((408, Some(text("Request Timeout")))));
    assert_eq!(
        code(TerminatedReason::ProxyAuthRequired),
        Some((407, Some(text("Proxy Authentication Required"))))
    );
    assert_eq!(
        code(TerminatedReason::ProxyError(StatusCode::of(502))),
        Some((502, Some(text("Proxy Error"))))
    );
    assert_eq!(code(TerminatedReason::UasOther(StatusCode::of(404))), Some((404, None)));
    assert_eq!(code(TerminatedReason::UasBye), None);
    assert_eq!(code(TerminatedReason::UacCancel), Some((500, Some(text("Internal Error")))));
    assert!(matches!(farewell_of(&TerminatedReason::UacBye), Some(CallRecordHangupReason::ByCaller)));
    assert!(farewell_of(&TerminatedReason::Timeout).is_none());
}

#[test]
fn cleaning_up_names_what_is_still_to_be_hung_up() {
    let mut call = CallState::new(text("c"));
    call.connect(text("d1"));
    call.on_timer_expired(text("d1"));
    assert_eq!(call.clean_up(), vec![text("d1")]);
    assert!(call.callee_dialogs.is_empty());
    assert_eq!(call.connected_dialog, None);
    assert_eq!(owed_at_drop(false, false, true), (true, true));
    assert_eq!(owed_at_drop(true, false, false), (false, false));
}

#[test]
fn transfers_are_followed_by_their_notifications() {
    let mut call = CallState::new(text("c"));
    assert_eq!(call.on_notify(true, "SIP/2.0 200 OK"), Some(200));
    let mut other = CallState::new(text("c"));
    assert_eq!(other.on_notify(false, "SIP/2.0 200 OK"), None);
    assert_eq!(other.on_notify(true, "hello"), None);
}

#[test]
fn a_session_takes_the_state_of_its_legs() {
    let mut legs = LegRegistry::new();
    assert_eq!(legs.derive_state(), SessionState::Ringing);
    legs.update_leg_state("caller", LegState::Hold);
    assert_eq!(legs.derive_state(), SessionState::Active);
    let mut leg = Leg::new("callee");
    leg.state = LegState::Ending;
    legs.add_leg(leg);
    assert_eq!(legs.derive_state(), SessionState::Ending);
    legs.end_legs(&HangupCascade::Other);
    assert_eq!(legs.derive_state(), SessionState::Ended);
    let _ = legs.remove_leg("caller");
    let _ = legs.remove_leg("callee");
    assert_eq!(legs.derive_state(), SessionState::Initializing);
}

#[test]
fn the_winner_of_a_race_becomes_the_callee() {
    let mut legs = LegRegistry::new();
    for k in 0..3 {
        let mut leg = Leg::new(&fork_leg_id(k));
        leg.endpoint = Some(format!("sip:{}@example.com", k));
        legs.add_leg(leg);
    }
    legs.promote_fork_winner(1, 3);
    assert_eq!(legs.states.entries.len(), 2);
    let callee = legs.states.get("callee").unwrap();
    assert_eq!(callee.id, "callee");
    assert_eq!(callee.endpoint.as_deref(), Some("sip:1@example.com"));
    assert_eq!(fork_leg_id(12), "fork-12");
    assert_eq!(participant_leg("s1", "caller"), "s1-caller");
}

#[test]
fn the_webrtc_leg_has_the_webrtc_end_of_the_bridge() {
    let mut legs = LegRegistry::new();
    legs.set_transport("callee", TransportMode::WebRtc);
    assert_eq!(legs.leg_bridge_endpoint("callee"), BridgeEndpoint::Caller);
    assert_eq!(legs.leg_bridge_endpoint("caller"), BridgeEndpoint::Callee);
    let mut bridge = BridgeConfig::new();
    assert!(!bridge.setup_bridge(&legs, "caller", "callee"));
    assert!(bridge.setup_bridge(&legs, "caller", "caller"));
}

#[test]
fn a_reinvite_is_passed_on_to_the_callees() {
    let mut media = MediaState::new(Some(text("old")));
    media.answer = Some(text("answer"));
    let mut dialogs = DialogSet::new();
    let refused = handle_reinvite(
        &mut media,
        MediaPathMode::Anchored,
        ReinviteMethod::Other(text("UPDATE")),
        None,
        &dialogs,
    );
    assert_eq!(refused.err(), Some(text("Expected INVITE method, got UPDATE")));
    match handle_reinvite(&mut media, MediaPathMode::Anchored, ReinviteMethod::Invite, None, &dialogs) {
        Ok(ReinvitePlan::Standing { answer }) => assert_eq!(answer, Some(text("answer"))),
        _ => panic!("the standing answer was to be given"),
    }
    let offer = Some(text("new"));
    let alone = handle_reinvite(&mut media, MediaPathMode::Anchored, ReinviteMethod::Invite, offer, &dialogs);
    assert_eq!(alone.err(), Some(text("No callee dialogs available for B2BUA forwarding")));
    assert_eq!(media.caller_offer, Some(text("new")));
    dialogs.insert(text("d1"));
    let newer = Some(text("newer"));
    match handle_reinvite(&mut media, MediaPathMode::Bypass, ReinviteMethod::Invite, newer, &dialogs) {
        Ok(ReinvitePlan::PassOn { offer, dialogs }) => {
            assert_eq!(offer, "newer");
            assert_eq!(dialogs, vec![text("d1")]);
        }
        _ => panic!("the offer was to be passed on"),
    }
    assert_eq!(media.caller_offer, Some(text("new")));
    assert_eq!(reinvite_answer(b"", &media, MediaPathMode::Bypass), ReinviteAnswer::Nothing);
    assert_eq!(reinvite_answer(b"v", &media, MediaPathMode::Bypass), ReinviteAnswer::PassOn);
    assert_eq!(reinvite_answer(b"v", &media, MediaPathMode::Anchored), ReinviteAnswer::Prepare);
}

#[test]
fn requests_to_the_caller_have_their_outcomes() {
    assert_eq!(reinvite_outcome(CallerReply::Status(200)), Ok(()));
    assert_eq!(
        reinvite_outcome(CallerReply::Status(488)),
        Err(text("re-INVITE rejected with status 488"))
    );
    assert_eq!(reinvite_outcome(CallerReply::NoResponse), Err(text("re-INVITE timed out")));
    assert_eq!(
        reinvite_outcome(CallerReply::Failed { error: text("x") }),
        Err(text("re-INVITE failed: x"))
    );
    assert_eq!(options_ping_outcome(CallerReply::NoResponse), Ok(()));
    assert_eq!(
        options_ping_outcome(CallerReply::Status(503)),
        Err(text("OPTIONS ping failed with status: 503"))
    );
    assert_eq!(
        options_ping_outcome(CallerReply::Failed { error: text("x") }),
        Err(text("Failed to send OPTIONS ping: x"))
    );
    assert_eq!(mute_outcome("t", false, true), Ok(()));
    assert_eq!(mute_outcome("t", false, false), Err(text("Track not found on either peer: t")));
    assert_eq!(hold_music(true, Some(MediaSource::File { path: text("m") })), Some(text("m")));
    assert_eq!(hold_music(true, Some(MediaSource::Silence)), None);
    assert_eq!(hold_music(false, Some(MediaSource::File { path: text("m") })), None);
}

#[test]
fn the_caller_s_digits_are_listened_for_where_they_arrive() {
    let mut media = MediaState::new(None);
    let absent = MonitorState::Absent;
    assert!(matches!(
        plan_ingress_monitor(false, &media, Some(101), &vec![], absent),
        MonitorPlan::Nothing
    ));
    media.answer = Some(text("v=0"));
    assert!(matches!(plan_ingress_monitor(false, &media, None, &vec![], absent), MonitorPlan::Nothing));
    assert!(matches!(
        plan_ingress_monitor(true, &media, Some(101), &vec![], absent),
        MonitorPlan::Nothing
    ));
    match plan_ingress_monitor(false, &media, Some(101), &vec![102, 96, 102], MonitorState::Finished) {
        MonitorPlan::Start { types, stop_old } => {
            assert_eq!(types, vec![96, 102]);
            assert!(stop_old);
        }
        _ => panic!("a monitor was to be started"),
    }
    media.caller_answer_uses_media_bridge = true;
    assert!(matches!(
        plan_ingress_monitor(false, &media, Some(101), &vec![], MonitorState::Running),
        MonitorPlan::StopOnly
    ));
    media.media_bridge = true;
    match plan_ingress_monitor(false, &media, Some(101), &vec![], MonitorState::Running) {
        MonitorPlan::ListenAtBridge { types, stop_old } => {
            assert_eq!(types, vec![101]);
            assert!(stop_old);
        }
        _ => panic!("the bridge was to listen"),
    }
}

#[test]
fn the_ends_of_the_media_take_over_a_new_description() {
    let mut dialogs = DialogSet::new();
    let anchored = MediaPathMode::Anchored;
    assert_eq!(forwarding_update(anchored, false, DialogSide::Caller, false, &dialogs), None);
    dialogs.insert(text("d"));
    assert_eq!(
        forwarding_update(anchored, false, DialogSide::Caller, false, &dialogs),
        Some((ProfileEnd::Ingress, ProfileEnd::Egress))
    );
    assert_eq!(
        forwarding_update(anchored, false, DialogSide::Callee, false, &dialogs),
        Some((ProfileEnd::Egress, ProfileEnd::Ingress))
    );
    assert_eq!(forwarding_update(anchored, true, DialogSide::Callee, false, &dialogs), None);
    assert_eq!(
        forwarding_update(MediaPathMode::Bypass, false, DialogSide::Callee, true, &dialogs),
        None
    );
}

#[test]
fn an_application_that_runs_is_restarted_once() {
    assert!(matches!(ensure_app_step(StartOutcome::Started, false, "x"), EnsureAppStep::Running));
    let running = || StartOutcome::AlreadyRunning { error: text("busy") };
    assert!(matches!(
        ensure_app_step(running(), false, "voicemail app"),
        EnsureAppStep::Restart { reason } if reason == "restart voicemail app"
    ));
    assert!(matches!(
        ensure_app_step(running(), true, "voicemail app"),
        EnsureAppStep::Failed { message } if message == "Failed to restart voicemail app: busy"
    ));
    assert!(matches!(
        ensure_app_step(StartOutcome::Failed { error: text("no") }, false, "voicemail app"),
        EnsureAppStep::Failed { message } if message == "Failed to start voicemail app: no"
    ));
}

#[test]
fn the_set_up_of_a_call_waits_until_it_is_over() {
    let mut wait = SetupWait::new();
    assert_eq!(wait.on_event(SetupEvent::Cancelled, false), SetupStep::WaitForTeardown);
    assert_eq!(wait.on_event(SetupEvent::Cancelled, false), SetupStep::Ignore);
    assert_eq!(wait.on_event(SetupEvent::TimedOut, false), SetupStep::CancelAndTerminate);
    assert_eq!(max_setup_time(1_000_000_000), 30_000_000_000);
    assert_eq!(max_setup_time(45_000_000_000), 45_000_000_000);
    assert_eq!(max_setup_time(500_000_000_000), 120_000_000_000);
}

#[test]
fn the_record_names_the_agent_and_the_queue() {
    assert_eq!(agent_id("sip:1001@example.com"), "1001");
    assert_eq!(agent_id("sips:1002@example.com"), "1002");
    assert_eq!(agent_id("1003"), "1003");
    let mut metadata: Table<String> = Table::new();
    metadata.insert(text("agent_id"), text("old"));
    record_metadata(&mut metadata, &Some(text("sip:1001@example.com")), &Some(text("sales")));
    assert_eq!(metadata.get("agent_id"), Some(&text("1001")));
    assert_eq!(metadata.get("queue_name"), Some(&text("sales")));
    let parties = answered_parties(
        (None, None),
        &None,
        &Some(text("sip:bob@example.com")),
        &None,
        &text("sip:alice@example.com"),
        &text("sip:desk@example.com"),
    );
    assert_eq!(parties.0, Some(text("sip:alice@example.com")));
    assert_eq!(parties.1, Some(text("sip:bob@example.com")));
    assert!(answer_outcome(AnswerSent::Sent).is_ok());
    assert!(answer_outcome(AnswerSent::Failed { error: text("x"), confirmed: true }).is_ok());
    assert!(answer_outcome(AnswerSent::Failed { error: text("x"), confirmed: false }).is_err());
}

#[test]
fn progress_of_the_callee_reaches_the_caller() {
    let mut s = with_callee();
    assert_eq!(s.on_callee_progress(b"", 100), RingStep::Ring { mark_ringing: true });
    assert_eq!(state_of(&s, "callee"), Some(LegState::Ringing));
    assert!(!s.media.early_media_sent);
    assert_eq!(s.on_callee_progress(b"v=0", 200), RingStep::AnchoredEarlyMedia);
    assert_eq!(state_of(&s, "callee"), Some(LegState::EarlyMedia));
    assert!(s.media.early_media_sent);
    assert_eq!(s.on_callee_progress(b"", 300), RingStep::Ring { mark_ringing: false });
    assert_eq!(state_of(&s, "callee"), Some(LegState::EarlyMedia));
    s.path = MediaPathMode::Bypass;
    assert_eq!(s.on_callee_progress(b"v=0", 400), RingStep::RelayEarlyMedia);
    assert_eq!(s.meta.ring_time, Some(100));
}

#[test]
fn early_media_of_a_further_leg_are_relayed_once() {
    let sdp = Some(text("v=0"));
    let mut s = with_callee();
    assert_eq!(s.on_leg_ringing("callee", &sdp, true), LegRingStep::Nothing);
    assert_eq!(state_of(&s, "callee"), Some(LegState::Initializing));
    assert_eq!(
        s.on_leg_ringing("callee", &None, false),
        LegRingStep::Relay(RingStep::Ring { mark_ringing: true })
    );
    assert_eq!(state_of(&s, "callee"), Some(LegState::Ringing));
    assert_eq!(
        s.on_leg_ringing("callee", &sdp, false),
        LegRingStep::Relay(RingStep::AnchoredEarlyMedia)
    );
    assert_eq!(state_of(&s, "callee"), Some(LegState::EarlyMedia));
    assert!(!s.media.early_media_sent);
    s.early_media_prepared(false);
    assert!(!s.media.early_media_sent);
    s.early_media_prepared(true);
    assert_eq!(s.on_leg_ringing("callee", &sdp, false), LegRingStep::MarkEarlyMedia);
    assert_eq!(
        s.on_leg_ringing("callee", &None, false),
        LegRingStep::Relay(RingStep::Ring { mark_ringing: false })
    );
    let mut t = with_callee();
    t.path = MediaPathMode::Bypass;
    assert_eq!(
        t.on_leg_ringing("callee", &sdp, false),
        LegRingStep::Relay(RingStep::RelayEarlyMedia)
    );
    assert!(t.media.early_media_sent);
    assert_eq!(t.on_leg_ringing("callee", &sdp, false), LegRingStep::MarkEarlyMedia);
}

#[test]
fn a_message_that_cannot_be_sent_says_which() {
    assert_eq!(message_outcome(DialogMessage::Message, Ok(())), Ok(()));
    assert_eq!(
        message_outcome(DialogMessage::Ringing, Err(text("x"))),
        Err(text("Failed to send ringing indication: x"))
    );
    assert_eq!(
        message_outcome(DialogMessage::Message, Err(text("x"))),
        Err(text("Failed to send SIP MESSAGE: x"))
    );
    assert_eq!(
        message_outcome(DialogMessage::Notify, Err(text("x"))),
        Err(text("Failed to send SIP NOTIFY: x"))
    );
}

#[test]
fn a_success_that_cannot_be_agreed_to_is_no_refresh() {
    let mut t = TimerTable::new();
    let pending = SessionTimerState {
        refreshing: true,
        ..SessionTimerState::new(SessionTimerMode::Always, 0)
    };
    t.timers.insert(text("d"), pending);
    let agreed = SessionTimerState { refreshing: false, last_refresh: 9, ..pending };
    let update = RefreshStep::Update { again: false };
    assert_eq!(t.complete_refresh("d", update, agreed, true), RefreshStep::Refreshed);
    assert_eq!(*t.timers.get("d").unwrap(), agreed);
    assert_eq!(t.complete_refresh("d", update, pending, false), RefreshStep::Failed);
    assert!(!t.timers.get("d").unwrap().refreshing);
    let reinvite = RefreshStep::Reinvite { again: false };
    assert_eq!(t.complete_refresh("d", reinvite, pending, false), RefreshStep::Failed);
    assert!(t.timers.get("d").unwrap().refreshing);
    assert_eq!(t.complete_refresh("other", update, pending, false), RefreshStep::Refreshed);
    assert!(t.timers.get("other").is_none());
}

#[test]
fn the_callee_of_an_accepted_call_is_connected() {
    let mut s = with_callee();
    s.accepting(Some(text("sip:bob@example.com")));
    assert_eq!(state_of(&s, "callee"), Some(LegState::Connected));
    assert_eq!(s.call.connected_callee.as_deref(), Some("sip:bob@example.com"));
    s.accepting(None);
    assert!(s.call.connected_callee.is_none());
}

#[test]
fn a_local_answer_stands_from_then_on() {
    let mut m = MediaState::new(Some(text("offer")));
    m.caller_answer_uses_media_bridge = true;
    assert!(m.standing_answer(MediaPathMode::Anchored).is_none());
    assert!(m.local_answer_built(None).is_none());
    assert!(m.caller_answer_uses_media_bridge);
    assert_eq!(m.local_answer_built(Some(text("answer"))).as_deref(), Some("answer"));
    assert!(!m.caller_answer_uses_media_bridge);
    assert_eq!(m.standing_answer(MediaPathMode::Anchored).as_deref(), Some("answer"));
}

#[test]
fn digits_go_by_the_description_of_their_leg() {
    let mut m = MediaState::new(None);
    assert!(dtmf_description("caller", &m).is_none());
    m.answer = Some(text("a"));
    m.callee_answer_sdp = Some(text("b"));
    assert_eq!(dtmf_description("caller", &m).unwrap(), "a");
    assert_eq!(dtmf_description("callee", &m).unwrap(), "b");
    assert!(dtmf_description("leg-3", &m).is_none());
}

#[test]
fn only_frames_of_an_event_type_bring_digits() {
    let mut detector = RtpDtmfDetector::default();
    let end = [5u8, 0x8a, 0x03, 0x20];
    let types = vec![101u8];
    assert_eq!(observe_frame(&types, &mut detector, Some(0), &end, 160), None);
    assert_eq!(observe_frame(&types, &mut detector, Some(101), &end, 160), Some('5'));
    assert_eq!(observe_frame(&types, &mut detector, Some(101), &end, 160), None);
}

#[test]
fn the_media_of_the_caller_are_taken_where_it_was_answered() {
    let s = session();
    let mut m = MediaState::new(None);
    assert_eq!(caller_media_source(&m, &s.legs), CallerMediaSource::OwnTrack);
    m.caller_answer_uses_media_bridge = true;
    assert_eq!(caller_media_source(&m, &s.legs), CallerMediaSource::Missing);
    m.media_bridge = true;
    assert_eq!(
        caller_media_source(&m, &s.legs),
        CallerMediaSource::Bridge(s.legs.leg_bridge_endpoint("caller"))
    );
}

#[test]
fn the_dialogs_of_the_callees_are_a_set() {
    let mut dialogs = DialogSet::new();
    assert!(dialogs.is_empty() && dialogs.names().is_empty());
    dialogs.insert(text("d1"));
    dialogs.insert(text("d2"));
    dialogs.insert(text("d1"));
    let mut names = dialogs.names();
    names.sort();
    assert_eq!(names, vec![text("d1"), text("d2")]);
    assert!(dialogs.contains("d2") && !dialogs.contains("d3"));
    dialogs.remove("d2");
    dialogs.remove("d3");
    assert!(!dialogs.contains("d2") && !dialogs.is_empty());
    dialogs.clear();
    assert!(dialogs.is_empty());
}

#[test]
fn the_timer_of_the_caller_is_kept_under_its_dialog() {
    let mut s = session();
    let asked = SessionExpires::Interval { secs: 60 };
    let uas = SessionRefresher::Uas;
    let refused = s.init_server_timer(SessionTimerMode::Supported, None, asked, uas, 1800, 5);
    assert_eq!(refused.unwrap_err().0, 422);
    assert!(s.timers.timers.get("caller-dialog").is_none());
    let asked = SessionExpires::Interval { secs: 600 };
    let timer = s.init_server_timer(SessionTimerMode::Supported, None, asked, uas, 1800, 5).unwrap();
    assert_eq!(s.timers.timers.get("caller-dialog"), Some(&timer));
    assert!(s.timers.runs("caller-dialog"));
    assert!(s.timers.due.get("caller-dialog").is_none());
}

#[test]
fn an_update_moves_the_timer_of_its_dialog_where_it_is_agreed_to() {
    let mut s = session();
    let timer = s.init_callee_timer("d", SessionTimerMode::Always, None, 1800, 0);
    s.timers.schedule("d", Some(10));
    let raised = SessionTimerState { min_se: 2000, ..timer };
    s.timers.on_update("d", raised, false, Some(20));
    assert_eq!(s.timers.timers.get("d"), Some(&raised));
    assert_eq!(s.timers.due.get("d"), Some(&10));
    s.timers.on_update("d", timer, true, Some(20));
    assert_eq!(s.timers.due.get("d"), Some(&20));
    let idle = SessionTimerState { active: false, ..timer };
    s.timers.on_update("d", idle, true, Some(30));
    assert!(s.timers.due.get("d").is_none());
}
