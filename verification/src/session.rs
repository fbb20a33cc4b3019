//! A session: the legs of a call, their media and dialogs, and what commands do to them.

use crate::command::{
    agent_event, is_text_entry, ok_or_failure, says_busy, CallCommand, CommandOutcome, CommandResult,
};
use crate::dial::{
    build_target_invite_option, callee_call_id, is_call_id, is_error, is_invite_plan, leg_ring_step,
    on_callee_progress, on_leg_ringing, ring_step, DialContext, InvitePlan, LegRingStep, RingStep,
};
use crate::dialog::{agent_of, record_metadata, CallState, CalleeEnd, TerminatedReason};
use crate::dialogs::DialogSet;
use crate::dtmf::{
    accepts_frame, dtmf_payload_types, payload_accepted, strictly_sorted, RtpDtmfDetector,
};
use crate::idset::IdSet;
use crate::json::Json;
use crate::legs::{
    in_state, plan_media_path, session_state, BridgeConfig, BridgeEndpoint, DialogSide,
    HangupCascade, Leg, LegRegistry, LegState, MediaPathPlan, SessionState,
};
use crate::media::{extract_sdp, MediaPathMode, MediaState};
use crate::playback::{
    is_ring_plan, plan_ring, playback_started, stop_playback_track, stops, track_stopped,
    tracks_to_stop, with_playback, PlayPlan, Recording, RecordingPhase, RingPlan, RingbackPolicy, StopPlan,
};
use crate::record::{rung_at, CallMeta, CallSessionRecordSnapshot};
use crate::status::{reason_phrase, CalleeError};
use crate::table::Table;
use crate::text;
use crate::timer::{
    accepted_min_se, callee_timer, init_callee_timer, init_server_timer, server_timer,
    timer_started, SessionExpires, SessionRefresher, SessionTimerMode, SessionTimerState, TimerTable,
};
use crate::uri::{parsed_uri, Location, SipUri};
use crate::video::clone_texts;
use vstd::prelude::*;

verus! {

/// What the metadata of a dialplan hold under a key; there may be no metadata.
pub open spec fn entry_of(metadata: Option<Table<String>>, key: Seq<char>) -> Option<String> {
    match metadata {
        Some(m) => m.value(key),
        None => None,
    }
}

/// What is still to be done for a session that was cleaned up.
pub struct CleanUp {
    /// The recording that is to be finished.
    pub recording: Option<Recording>,
    /// The media bridge is to be stopped.
    pub stop_bridge: bool,
    /// The dialogs that are to be hung up.
    pub dialogs: Vec<String>,
}

/// What others are shown of a session.
pub struct SessionSnapshot {
    pub id: String,
    pub state: SessionState,
    pub leg_count: usize,
    pub bridge_active: bool,
    pub caller_gate_open: bool,
    pub media_path: MediaPathMode,
    pub answer_sdp: Option<String>,
    pub callee_dialogs: Vec<String>,
}

/// A session of a call.
pub struct SipSession {
    pub id: String,
    pub state: SessionState,
    pub legs: LegRegistry,
    pub bridge: BridgeConfig,
    pub path: MediaPathMode,
    pub media: MediaState,
    pub call: CallState,
    pub timers: TimerTable,
    pub recording: RecordingPhase,
    /// The digits that were sent.
    pub dtmf_digits: Vec<char>,
    pub queue_name: Option<String>,
    /// The tracks that are played.
    pub playback: IdSet,
    pub meta: CallMeta,
}

/// An event for the application of a call.
pub struct AppEvent {
    pub name: String,
    pub data: Json,
}

/// What is done about a command.
pub enum CommandStep {
    /// Nothing is left to do.
    Done(CommandResult),
    /// The application is told, and the media path is set up anew for the legs that are
    /// there now.
    Refresh { result: CommandResult, event: Option<AppEvent> },
    /// The call is torn down: the application, where one runs, is stopped for this
    /// reason.
    TearDown { reason: Option<String> },
    /// The command is carried out.
    Perform(CallCommand),
}

/// The step ends with this message.
pub open spec fn fails_with(step: CommandStep, message: Seq<char>) -> bool {
    &&& step matches CommandStep::Done(result)
    &&& result.outcome matches CommandOutcome::Failure(m)
    &&& m@ == message
    &&& result.degradation is None
}

pub open spec fn succeeds(step: CommandStep) -> bool {
    &&& step matches CommandStep::Done(result)
    &&& result.outcome is Success
    &&& result.degradation is None
}

/// What is told where a leg is not there.
pub open spec fn no_leg(leg: Seq<char>) -> Seq<char> {
    "Leg not found: "@ + leg
}

/// Nothing but the legs differs.
pub open spec fn same_but_legs(a: SipSession, b: SipSession) -> bool {
    a == (SipSession { legs: a.legs, ..b })
}

/// One leg is in this state, and nothing else differs.
pub open spec fn leg_moved(before: LegRegistry, after: LegRegistry, leg: Seq<char>, state: LegState) -> bool {
    &&& forall|k: Seq<char>| #[trigger]
        after.leg(k) == if k == leg {
            in_state(before.leg(k), state)
        } else {
            before.leg(k)
        }
    &&& after.transports == before.transports
    &&& after.video == before.video
    &&& after.answers == before.answers
}

/// What the command makes of the session before any outside work: the legs that it needs
/// must be there, and those that it moves are moved.
pub open spec fn is_command_step(
    before: SipSession,
    after: SipSession,
    command: CallCommand,
    has_receiver: bool,
    step: CommandStep,
) -> bool {
    match command {
        CallCommand::Answer { leg_id } => if leg_id@ == "caller"@ {
            step == CommandStep::Perform(command) && after == before
        } else {
            &&& same_but_legs(after, before)
            &&& leg_moved(before.legs, after.legs, leg_id@, LegState::Connected)
            &&& if before.legs.leg(leg_id@) is Some {
                succeeds(step)
            } else {
                fails_with(step, no_leg(leg_id@))
            }
        },
        CallCommand::Hangup { cascade, reason } => {
            &&& step == (CommandStep::TearDown { reason })
            &&& hung_up(before, after, cascade)
        },
        CallCommand::Bridge { leg_a, leg_b } => if before.legs.leg(leg_a@) is Some
            && before.legs.leg(leg_b@) is Some {
            &&& succeeds(step)
            &&& bridged(before, after, leg_a@, leg_b@)
        } else {
            &&& fails_with(step, "Cannot bridge: one or both legs not found"@)
            &&& after == before
        },
        CallCommand::Unbridge => {
            &&& succeeds(step)
            &&& !after.bridge.active && after.bridge.legs is None
            &&& same_but_bridge(after, before)
        },
        CallCommand::Hold { leg_id, .. } => needs_leg_and_moves(
            before,
            after,
            command,
            leg_id@,
            LegState::Hold,
            step,
        ),
        CallCommand::QueueEnqueue { leg_id, .. } => needs_leg_and_moves(
            before,
            after,
            command,
            leg_id@,
            LegState::Hold,
            step,
        ),
        CallCommand::Unhold { leg_id } => match before.legs.leg(leg_id@) {
            None => fails_with(step, no_leg(leg_id@)) && after == before,
            Some(leg) => if leg.state == LegState::Hold {
                &&& step == CommandStep::Perform(command)
                &&& taken_off_hold(before, after, leg_id@)
            } else {
                succeeds(step) && after == before
            },
        },
        CallCommand::QueueDequeue { leg_id } => needs_leg(before, after, command, leg_id@, step),
        CallCommand::Reject { leg_id, .. } => needs_leg(before, after, command, leg_id@, step),
        CallCommand::Ring { leg_id, .. } => needs_leg(before, after, command, leg_id@, step),
        CallCommand::HandleReInvite { leg_id, .. } => needs_leg(
            before,
            after,
            command,
            leg_id@,
            step,
        ),
        CallCommand::Transfer { .. } => {
            &&& after == before
            &&& if has_receiver {
                step == CommandStep::Perform(command)
            } else {
                fails_with(step, "No callee state receiver available for transfer"@)
            }
        },
        CallCommand::LegConnected { leg_id, answer_sdp } => {
            &&& step matches CommandStep::Refresh { result, event }
            &&& result.outcome is Success && result.degradation is None
            &&& tells_connected(event, before.legs.leg(leg_id@), leg_id@)
            &&& same_but_legs(after, before)
            &&& leg_answered(before.legs, after.legs, leg_id@, answer_sdp)
        },
        CallCommand::LegFailed { leg_id, reason } => {
            &&& step matches CommandStep::Refresh { result, event }
            &&& result.outcome == CommandOutcome::Failure(reason) && result.degradation is None
            &&& event matches Some(e) && tells_failed(e, before.legs.leg(leg_id@), leg_id@, reason@)
            &&& same_but_legs(after, before)
            &&& leg_gone(before.legs, after.legs, leg_id@)
        },
        CallCommand::Unknown => {
            &&& after == before
            &&& step matches CommandStep::Done(result)
            &&& result.outcome matches CommandOutcome::NotSupported(m)
            &&& m@ == "Command not yet implemented"@
            &&& result.degradation is None
        },
        _ => step == CommandStep::Perform(command) && after == before,
    }
}

/// A leg talks again, and its music is gone.
pub open spec fn taken_off_hold(before: SipSession, after: SipSession, leg: Seq<char>) -> bool {
    &&& after == (SipSession { legs: after.legs, playback: after.playback, ..before })
    &&& leg_moved(before.legs, after.legs, leg, LegState::Connected)
    &&& after.playback@ == before.playback@.remove("hold-music"@)
}

/// A leg talks, and what it answered, where it did, is kept.
pub open spec fn leg_answered(
    before: LegRegistry,
    after: LegRegistry,
    leg: Seq<char>,
    answer: Option<String>,
) -> bool {
    &&& forall|k: Seq<char>| #[trigger]
        after.leg(k) == if k == leg {
            in_state(before.leg(k), LegState::Connected)
        } else {
            before.leg(k)
        }
    &&& forall|k: Seq<char>| #[trigger]
        after.answers.value(k) == if k == leg && answer is Some {
            answer
        } else {
            before.answers.value(k)
        }
    &&& after.transports == before.transports
    &&& after.video == before.video
}

/// A leg is no longer there, and nothing else differs.
pub open spec fn leg_gone(before: LegRegistry, after: LegRegistry, leg: Seq<char>) -> bool {
    &&& forall|k: Seq<char>| #[trigger]
        after.leg(k) == if k == leg {
            None
        } else {
            before.leg(k)
        }
    &&& after.transports == before.transports
    &&& after.video == before.video
    &&& after.answers == before.answers
}

/// There is a new leg of this name, which leads to this address.
pub open spec fn leg_added(before: LegRegistry, after: LegRegistry, leg: Seq<char>, target: Seq<char>) -> bool {
    &&& after.leg(leg) matches Some(l) && l.id@ == leg && l.state == LegState::Initializing
        && text::opt_text(l.endpoint) == Some(target) && l.dialog_id is None
    &&& forall|k: Seq<char>| k != leg ==> #[trigger] after.leg(k) == before.leg(k)
    &&& after.transports == before.transports
    &&& after.video == before.video
    &&& after.answers == before.answers
}

/// What is told where an address cannot be read.
pub open spec fn invalid_uri(target: Seq<char>, detail: Seq<char>) -> Seq<char> {
    "Invalid SIP URI '"@ + target + "': "@ + detail
}

/// Where a leg leads.
pub open spec fn leg_endpoint(leg: Option<Leg>) -> Option<Seq<char>> {
    match leg {
        Some(l) => text::opt_text(l.endpoint),
        None => None,
    }
}

/// The application is told that an agent is connected, where the leg leads to one.
pub open spec fn tells_connected(event: Option<AppEvent>, leg: Option<Leg>, leg_id: Seq<char>) -> bool {
    match leg_endpoint(leg) {
        Some(uri) => {
            &&& event matches Some(e)
            &&& e.name@ == "agent_connected"@
            &&& e.data matches Json::Object(d)
            &&& d@.len() == 2
            &&& is_text_entry(d@[0], "leg_id"@, leg_id)
            &&& is_text_entry(d@[1], "agent_uri"@, uri)
        },
        None => event is None,
    }
}

/// The application is told that an agent is busy or did not answer, and why.
pub open spec fn tells_failed(
    event: AppEvent,
    leg: Option<Leg>,
    leg_id: Seq<char>,
    reason: Seq<char>,
) -> bool {
    &&& event.name@ == (if says_busy(reason, text::lowercase(reason)) {
        "agent_busy"@
    } else {
        "agent_no_answer"@
    })
    &&& event.data matches Json::Object(d)
    &&& d@.len() == 3
    &&& is_text_entry(d@[0], "leg_id"@, leg_id)
    &&& d@[1].0@ == "agent_uri"@
    &&& match leg_endpoint(leg) {
        Some(uri) => d@[1].1.text() == Some(uri),
        None => d@[1].1 is Null,
    }
    &&& is_text_entry(d@[2], "reason"@, reason)
}

/// The command is carried out where the leg is there.
pub open spec fn needs_leg(
    before: SipSession,
    after: SipSession,
    command: CallCommand,
    leg: Seq<char>,
    step: CommandStep,
) -> bool {
    &&& after == before
    &&& if before.legs.leg(leg) is Some {
        step == CommandStep::Perform(command)
    } else {
        fails_with(step, no_leg(leg))
    }
}

/// The command is carried out where the leg is there, which moves.
pub open spec fn needs_leg_and_moves(
    before: SipSession,
    after: SipSession,
    command: CallCommand,
    leg: Seq<char>,
    state: LegState,
    step: CommandStep,
) -> bool {
    if before.legs.leg(leg) is Some {
        &&& step == CommandStep::Perform(command)
        &&& same_but_legs(after, before)
        &&& leg_moved(before.legs, after.legs, leg, state)
    } else {
        fails_with(step, no_leg(leg)) && after == before
    }
}

pub open spec fn same_but_bridge(a: SipSession, b: SipSession) -> bool {
    a == (SipSession { bridge: a.bridge, ..b })
}

/// Two legs are connected with each other.
pub open spec fn bridged(before: SipSession, after: SipSession, a: Seq<char>, b: Seq<char>) -> bool {
    &&& after.bridge.active
    &&& after.bridge.legs matches Some((x, y)) && x@ == a && y@ == b
    &&& forall|k: Seq<char>| #[trigger]
        after.legs.leg(k) == if k == a || k == b {
            in_state(before.legs.leg(k), LegState::Connected)
        } else {
            before.legs.leg(k)
        }
    &&& after.legs == (LegRegistry { states: after.legs.states, ..before.legs })
    &&& after == (SipSession { legs: after.legs, bridge: after.bridge, ..before })
}

/// The legs that the hangup is for are over, the bridge is gone, and the call is being
/// torn down.
pub open spec fn hung_up(before: SipSession, after: SipSession, cascade: HangupCascade) -> bool {
    &&& after.legs.states.entries@.len() == before.legs.states.entries@.len()
    &&& forall|i: int|
        0 <= i < before.legs.states.entries@.len() ==> {
            let (k, l) = before.legs.states.entries@[i];
            #[trigger] after.legs.states.entries@[i] == (
                k,
                if cascade.ends(l.id@) {
                    Leg { state: LegState::Ended, ..l }
                } else {
                    l
                },
            )
        }
    &&& after.legs == (LegRegistry { states: after.legs.states, ..before.legs })
    &&& after.state == session_state(after.legs.states.entries@)
    &&& !after.bridge.active && after.bridge.legs is None
    &&& after == (SipSession {
        legs: after.legs,
        state: after.state,
        bridge: after.bridge,
        call: CallState { cancelled: true, ..before.call },
        ..before
    })
}

/// A hangup of all legs leaves a session that is over.
pub proof fn full_hangup_ends_the_session(before: SipSession, after: SipSession)
    requires
        hung_up(before, after, HangupCascade::All),
        before.legs.states.entries@.len() > 0,
    ensures
        after.state == SessionState::Ended,
        after.call.cancelled,
{
    let a = before.legs.states.entries@;
    let b = after.legs.states.entries@;
    assert forall|i: int| 0 <= i < a.len() implies (#[trigger] b[i]) == (
        a[i].0,
        Leg { state: LegState::Ended, ..a[i].1 },
    ) by {
        let (k, l) = a[i];
        assert(HangupCascade::All.ends(l.id@));
    }
    crate::legs::full_hangup_ends_session(a, b);
}

/// A leg that is held and then taken off hold talks again, and the session is otherwise
/// as it was, but that no music is played any longer.
pub proof fn unhold_undoes_hold(before: SipSession, held: SipSession, after: SipSession, leg: Seq<char>)
    requires
        before.legs.leg(leg) is Some,
        same_but_legs(held, before),
        leg_moved(before.legs, held.legs, leg, LegState::Hold),
        taken_off_hold(held, after, leg),
    ensures
        taken_off_hold(before, after, leg),
{
    assert forall|k: Seq<char>| #[trigger] after.legs.leg(k) == (if k == leg {
        in_state(before.legs.leg(k), LegState::Connected)
    } else {
        before.legs.leg(k)
    }) by {
        assert(held.legs.leg(k) == held.legs.leg(k));
    }
}

fn connected_event(legs: &LegRegistry, leg_id: &str) -> (r: Option<AppEvent>)
    ensures
        tells_connected(r, legs.leg(leg_id@), leg_id@),
{
    match endpoint_of(legs, leg_id) {
        Some(uri) => {
            let mut data: Vec<(String, Json)> = Vec::new();
            data.push(("leg_id".to_owned(), Json::Text(leg_id.to_owned())));
            data.push(("agent_uri".to_owned(), Json::Text(uri)));
            Some(AppEvent { name: "agent_connected".to_owned(), data: Json::Object(data) })
        },
        None => None,
    }
}

fn failed_event(legs: &LegRegistry, leg_id: &str, reason: &str) -> (r: AppEvent)
    ensures
        tells_failed(r, legs.leg(leg_id@), leg_id@, reason@),
{
    let uri = match endpoint_of(legs, leg_id) {
        Some(uri) => Json::Text(uri),
        None => Json::Null,
    };
    let mut data: Vec<(String, Json)> = Vec::new();
    data.push(("leg_id".to_owned(), Json::Text(leg_id.to_owned())));
    data.push(("agent_uri".to_owned(), uri));
    data.push(("reason".to_owned(), Json::Text(reason.to_owned())));
    AppEvent { name: agent_event(reason).name().to_owned(), data: Json::Object(data) }
}

fn endpoint_of(legs: &LegRegistry, leg_id: &str) -> (r: Option<String>)
    ensures
        text::opt_text(r) == leg_endpoint(legs.leg(leg_id@)),
{
    match legs.states.get(leg_id) {
        Some(leg) => leg.endpoint.clone(),
        None => None,
    }
}

fn done_failure(message: String) -> (r: CommandStep)
    ensures
        fails_with(r, message@),
{
    CommandStep::Done(CommandResult::failure(message))
}

fn done_success() -> (r: CommandStep)
    ensures
        succeeds(r),
{
    CommandStep::Done(CommandResult::success())
}

impl SipSession {
    pub open spec fn wf(self) -> bool {
        &&& self.legs.wf()
        &&& self.call.wf()
        &&& self.timers.wf()
        &&& self.playback.wf()
        &&& self.meta.wf()
    }

    /// A session for a call that came in: its caller's dialog, whether the proxy anchors
    /// its media, and the body of its INVITE.
    pub fn new(id: String, caller_dialog: String, use_media_proxy: bool, invite_body: &[u8]) -> (r:
        SipSession)
        ensures
            r.wf(),
            r.id == id,
            r.state == SessionState::Initializing,
            r.legs.leg("caller"@) matches Some(l) && l.state == LegState::Initializing && l.id@ == "caller"@
                && l.endpoint is None && l.dialog_id is None,
            forall|k: Seq<char>| k != "caller"@ ==> #[trigger] r.legs.leg(k) is None,
            forall|k: Seq<char>| #[trigger] r.legs.transports.value(k) is None,
            forall|k: Seq<char>| #[trigger] r.legs.video.value(k) is None,
            forall|k: Seq<char>| #[trigger] r.legs.answers.value(k) is None,
            !r.bridge.active && r.bridge.legs is None,
            r.path == (if use_media_proxy {
                MediaPathMode::Anchored
            } else {
                MediaPathMode::Bypass
            }),
            match r.media.caller_offer {
                Some(offer) => invite_body@.len() > 0 && offer@ == text::utf8_lossy(invite_body@),
                None => invite_body@.len() == 0,
            },
            r.media == MediaState::at_start(r.media.caller_offer),
            r.call.caller_dialog == caller_dialog,
            r.call.callee_dialogs@ == Set::<Seq<char>>::empty(),
            r.call.pending_hangup@ == Set::<Seq<char>>::empty(),
            r.call.hangup_reason is None && r.call.last_error is None && !r.call.cancelled,
            r.call.connected_callee is None && r.call.connected_dialog is None,
            forall|k: Seq<char>| #[trigger] r.timers.timers.value(k) is None,
            forall|k: Seq<char>| #[trigger] r.timers.update_disabled.value(k) is None,
            forall|k: Seq<char>| #[trigger] r.timers.due.value(k) is None,
            r.recording == RecordingPhase::Idle,
            r.dtmf_digits@.len() == 0,
            r.queue_name is None,
            r.playback@ == Set::<Seq<char>>::empty(),
            r.meta.ring_time is None && r.meta.answer_time is None,
            r.meta.routed_caller is None && r.meta.routed_callee is None,
            r.meta.routed_contact is None && r.meta.routed_destination is None,
            r.meta.hangup_messages@.len() == 0,
            r.meta.callee_call_ids@ == Set::<Seq<char>>::empty(),
    {
        let path = if use_media_proxy {
            MediaPathMode::Anchored
        } else {
            MediaPathMode::Bypass
        };
        SipSession {
            id,
            state: SessionState::Initializing,
            legs: LegRegistry::new(),
            bridge: BridgeConfig::new(),
            path,
            media: MediaState::new(extract_sdp(invite_body)),
            call: CallState::new(caller_dialog),
            timers: TimerTable::new(),
            recording: RecordingPhase::Idle,
            dtmf_digits: Vec::new(),
            queue_name: None,
            playback: IdSet::new(),
            meta: CallMeta::new(),
        }
    }

    /// The INVITE to a target, under the call id of the dialplan or else a fresh one, which
    /// is remembered. Where the dialplan names no caller, nothing is sent.
    pub fn build_target_invite_option(
        &mut self,
        context: &DialContext,
        target: &Location,
        timer_headers: Vec<(String, String)>,
        offer: Option<String>,
    ) -> (r: Result<InvitePlan, CalleeError>)
        requires
            old(self).wf(),
        ensures
            final(self).wf(),
            r is Err <==> context.caller is None,
            r matches Err(e) ==> is_error(e, 500, "No caller in dialplan"@) && *final(self) == *old(
                self,
            ),
            r matches Ok(plan) ==> {
                &&& is_invite_plan(plan, *context, *target, timer_headers@, offer)
                &&& is_call_id(plan.call_id, *context)
                &&& final(self).meta.callee_call_ids@ == old(self).meta.callee_call_ids@.insert(
                    plan.call_id@,
                )
                &&& *final(self) == (SipSession {
                    meta: CallMeta {
                        callee_call_ids: final(self).meta.callee_call_ids,
                        ..old(self).meta
                    },
                    ..*old(self)
                })
            },
    {
        let call_id = callee_call_id(context);
        let plan = build_target_invite_option(context, target, timer_headers, offer, call_id)?;
        self.meta.callee_call_ids.insert(plan.call_id.clone());
        Ok(plan)
    }

    /// The call is routed: these are the parties that it has from then on, where it is
    /// reached, and where its requests go.
    pub fn on_routed(
        &mut self,
        caller: Option<String>,
        callee: Option<String>,
        contact: Option<String>,
        destination: Option<String>,
    )
        ensures
            *final(self) == (SipSession {
                meta: CallMeta {
                    routed_caller: caller,
                    routed_callee: callee,
                    routed_contact: contact,
                    routed_destination: destination,
                    ..old(self).meta
                },
                ..*old(self)
            }),
            old(self).wf() ==> final(self).wf(),
    {
        self.meta.routed_caller = caller;
        self.meta.routed_callee = callee;
        self.meta.routed_contact = contact;
        self.meta.routed_destination = destination;
    }

    /// The call is answered.
    pub fn on_answered(&mut self, now: u64)
        ensures
            *final(self) == (SipSession {
                meta: CallMeta { answer_time: Some(now), ..old(self).meta },
                ..*old(self)
            }),
            old(self).wf() ==> final(self).wf(),
    {
        self.meta.answer_time = Some(now);
    }

    /// The session is cleaned up: its recording and its media bridge, where it has them,
    /// are stopped, the dialogs that are still to be hung up are named, no callee is left,
    /// and no timer runs.
    pub fn clean_up(&mut self) -> (r: CleanUp)
        requires
            old(self).wf(),
        ensures
            final(self).wf(),
            r.recording == old(self).recording.recording(),
            final(self).recording is Idle,
            r.stop_bridge == old(self).media.media_bridge,
            final(self).media == (if old(self).media.media_bridge {
                MediaState {
                    media_bridge: false,
                    media_bridge_started: false,
                    bridge_playback_track_id: None,
                    ..old(self).media
                }
            } else {
                old(self).media
            }),
            text::views(r.dialogs@).no_duplicates(),
            text::views(r.dialogs@).to_set() == old(self).call.pending_hangup@,
            final(self).call.callee_dialogs@ == Set::<Seq<char>>::empty(),
            final(self).call == (CallState {
                callee_dialogs: final(self).call.callee_dialogs,
                connected_dialog: None,
                ..old(self).call
            }),
            forall|k: Seq<char>| #[trigger] final(self).timers.timers.value(k) is None,
            forall|k: Seq<char>| #[trigger] final(self).timers.update_disabled.value(k) is None,
            forall|k: Seq<char>| #[trigger] final(self).timers.due.value(k) is None,
            *final(self) == (SipSession {
                recording: final(self).recording,
                media: final(self).media,
                call: final(self).call,
                timers: final(self).timers,
                ..*old(self)
            }),
    {
        let recording = self.recording.stop_recording();
        let stop_bridge = self.media.take_bridge();
        let dialogs = self.call.clean_up();
        self.timers = TimerTable::new();
        CleanUp { recording, stop_bridge, dialogs }
    }

    /// What the record of the call is made from: the times, parties and causes that the
    /// session keeps, and the metadata of the dialplan, into which the agent and the queue
    /// of the call are entered.
    pub fn record_snapshot(
        &self,
        original_caller: &String,
        original_callee: &String,
        metadata: Option<Table<String>>,
    ) -> (r: CallSessionRecordSnapshot)
        requires
            self.wf(),
            metadata matches Some(m) ==> m.wf(),
        ensures
            r.ring_time == self.meta.ring_time,
            r.answer_time == self.meta.answer_time,
            r.last_error == self.call.last_error,
            r.hangup_reason == self.call.hangup_reason,
            r.hangup_messages@ == self.meta.hangup_messages@,
            r.original_caller == Some(*original_caller),
            r.original_callee == Some(*original_callee),
            r.routed_caller == self.meta.routed_caller,
            r.routed_callee == self.meta.routed_callee,
            r.connected_callee == self.call.connected_callee,
            r.routed_contact == self.meta.routed_contact,
            r.routed_destination == self.meta.routed_destination,
            r.last_queue_name == self.queue_name,
            text::views(r.callee_call_ids@).no_duplicates(),
            text::views(r.callee_call_ids@).to_set() == self.meta.callee_call_ids@,
            r.server_dialog_id == self.call.caller_dialog,
            r.metadata matches Some(entries) && entries.wf() && {
                &&& match self.call.connected_callee {
                    Some(callee) => text::opt_text(entries.value("agent_id"@)) == Some(
                        agent_of(callee@),
                    ),
                    None => entries.value("agent_id"@) == entry_of(metadata, "agent_id"@),
                }
                &&& entries.value("queue_name"@) == (match self.queue_name {
                    Some(queue) => Some(queue),
                    None => entry_of(metadata, "queue_name"@),
                })
                &&& forall|k: Seq<char>|
                    #![trigger entries.value(k)]
                    k != "agent_id"@ && k != "queue_name"@ ==> entries.value(k) == entry_of(metadata, k)
            },
    {
        let mut entries = match metadata {
            Some(m) => m,
            None => Table::new(),
        };
        record_metadata(&mut entries, &self.call.connected_callee, &self.queue_name);
        let last_error = match &self.call.last_error {
            Some((status, detail)) => Some((status.clone(), detail.clone())),
            None => None,
        };
        CallSessionRecordSnapshot {
            ring_time: self.meta.ring_time,
            answer_time: self.meta.answer_time,
            last_error,
            hangup_reason: self.call.hangup_reason,
            hangup_messages: clone_texts(&self.meta.hangup_messages),
            original_caller: Some(original_caller.clone()),
            original_callee: Some(original_callee.clone()),
            routed_caller: self.meta.routed_caller.clone(),
            routed_callee: self.meta.routed_callee.clone(),
            connected_callee: self.call.connected_callee.clone(),
            routed_contact: self.meta.routed_contact.clone(),
            routed_destination: self.meta.routed_destination.clone(),
            last_queue_name: self.queue_name.clone(),
            callee_call_ids: clone_texts(&self.meta.callee_call_ids.items),
            server_dialog_id: self.call.caller_dialog.clone(),
            metadata: Some(entries),
        }
    }

    /// What others are shown of the session. `caller_gate_open` says whether the bridge
    /// lets the caller's media through; without a bridge it does not matter.
    pub fn snapshot(&self, caller_gate_open: bool) -> (r: SessionSnapshot)
        ensures
            r.id == self.id,
            r.state == self.state,
            r.leg_count == self.legs.states.entries@.len(),
            r.bridge_active == self.bridge.active,
            r.caller_gate_open == (!self.media.media_bridge || caller_gate_open),
            r.media_path == self.path,
            r.answer_sdp == self.media.answer,
            text::views(r.callee_dialogs@).no_duplicates(),
            text::views(r.callee_dialogs@).to_set() == self.call.callee_dialogs@,
    {
        SessionSnapshot {
            id: self.id.clone(),
            state: self.state,
            leg_count: self.legs.states.entries.len(),
            bridge_active: self.bridge.active,
            caller_gate_open: !self.media.media_bridge || caller_gate_open,
            media_path: self.path,
            answer_sdp: self.media.answer.clone(),
            callee_dialogs: self.call.callee_dialogs.names(),
        }
    }

    fn hang_up(&mut self, cascade: &HangupCascade)
        requires
            old(self).wf(),
        ensures
            final(self).wf(),
            hung_up(*old(self), *final(self), *cascade),
    {
        self.legs.end_legs(cascade);
        self.state = self.legs.derive_state();
        self.bridge.clear();
        self.call.cancelled = true;
    }

    fn hold_leg(&mut self, leg_id: &str, state: LegState) -> (r: Option<CommandStep>)
        requires
            old(self).wf(),
        ensures
            final(self).wf(),
            r is None <==> old(self).legs.leg(leg_id@) is Some,
            r is None ==> same_but_legs(*final(self), *old(self)) && leg_moved(
                old(self).legs,
                final(self).legs,
                leg_id@,
                state,
            ),
            r matches Some(step) ==> fails_with(step, no_leg(leg_id@)) && *final(self) == *old(self),
    {
        if let Err(e) = self.legs.require_leg(leg_id) {
            return Some(done_failure(e));
        }
        let _ = self.legs.update_leg_state(leg_id, state);
        None
    }

    fn missing_leg(&self, leg_id: &str) -> (r: Option<CommandStep>)
        ensures
            r is None <==> self.legs.leg(leg_id@) is Some,
            r matches Some(step) ==> fails_with(step, no_leg(leg_id@)),
    {
        match self.legs.require_leg(leg_id) {
            Ok(_) => None,
            Err(e) => Some(done_failure(e)),
        }
    }

    /// Takes a command, up to the work that is done outside the session. `has_receiver`
    /// says that the events of callees can be waited for.
    pub fn process_command(&mut self, command: CallCommand, has_receiver: bool) -> (r: CommandStep)
        requires
            old(self).wf(),
        ensures
            final(self).wf(),
            is_command_step(*old(self), *final(self), command, has_receiver, r),
    {
        match command {
            CallCommand::Answer { leg_id } => {
                if text::same(&leg_id, "caller") {
                    return CommandStep::Perform(CallCommand::Answer { leg_id });
                }
                if self.legs.update_leg_state(&leg_id, LegState::Connected) {
                    done_success()
                } else {
                    done_failure(text::concat("Leg not found: ", &leg_id))
                }
            },
            CallCommand::Hangup { cascade, reason } => {
                self.hang_up(&cascade);
                CommandStep::TearDown { reason }
            },
            CallCommand::Bridge { leg_a, leg_b } => {
                if self.bridge.setup_bridge(&self.legs, &leg_a, &leg_b) {
                    let ghost before = self.legs;
                    let _ = self.legs.update_leg_state(&leg_a, LegState::Connected);
                    let ghost mid = self.legs;
                    let _ = self.legs.update_leg_state(&leg_b, LegState::Connected);
                    assert forall|k: Seq<char>| #[trigger] self.legs.leg(k) == (if k == leg_a@ || k
                        == leg_b@ {
                        in_state(before.leg(k), LegState::Connected)
                    } else {
                        before.leg(k)
                    }) by {
                        assert(mid.leg(k) == mid.leg(k));
                    }
                    done_success()
                } else {
                    done_failure("Cannot bridge: one or both legs not found".to_owned())
                }
            },
            CallCommand::Unbridge => {
                self.bridge.clear();
                done_success()
            },
            CallCommand::Hold { leg_id, music } => {
                match self.hold_leg(&leg_id, LegState::Hold) {
                    Some(step) => step,
                    None => CommandStep::Perform(CallCommand::Hold { leg_id, music }),
                }
            },
            CallCommand::QueueEnqueue { leg_id, queue_id, priority } => {
                match self.hold_leg(&leg_id, LegState::Hold) {
                    Some(step) => step,
                    None => CommandStep::Perform(
                        CallCommand::QueueEnqueue { leg_id, queue_id, priority },
                    ),
                }
            },
            CallCommand::Unhold { leg_id } => {
                let held = match self.legs.require_leg(&leg_id) {
                    Ok(leg) => matches!(leg.state, LegState::Hold),
                    Err(e) => {
                        return done_failure(e);
                    },
                };
                if !held {
                    return done_success();
                }
                let _ = self.legs.update_leg_state(&leg_id, LegState::Connected);
                let _ = self.playback.remove("hold-music");
                CommandStep::Perform(CallCommand::Unhold { leg_id })
            },
            CallCommand::QueueDequeue { leg_id } => match self.missing_leg(&leg_id) {
                Some(step) => step,
                None => CommandStep::Perform(CallCommand::QueueDequeue { leg_id }),
            },
            CallCommand::Reject { leg_id, reason } => match self.missing_leg(&leg_id) {
                Some(step) => step,
                None => CommandStep::Perform(CallCommand::Reject { leg_id, reason }),
            },
            CallCommand::Ring { leg_id, ringback } => match self.missing_leg(&leg_id) {
                Some(step) => step,
                None => CommandStep::Perform(CallCommand::Ring { leg_id, ringback }),
            },
            CallCommand::HandleReInvite { leg_id, sdp } => match self.missing_leg(&leg_id) {
                Some(step) => step,
                None => CommandStep::Perform(CallCommand::HandleReInvite { leg_id, sdp }),
            },
            CallCommand::Transfer { leg_id, target, attended } => {
                if has_receiver {
                    CommandStep::Perform(CallCommand::Transfer { leg_id, target, attended })
                } else {
                    done_failure("No callee state receiver available for transfer".to_owned())
                }
            },
            CallCommand::LegConnected { leg_id, answer_sdp } => {
                let event = connected_event(&self.legs, &leg_id);
                let ghost before = self.legs;
                if let Some(sdp) = answer_sdp {
                    self.legs.set_answer(&leg_id, sdp);
                }
                let ghost mid = self.legs;
                let _ = self.legs.update_leg_state(&leg_id, LegState::Connected);
                assert forall|k: Seq<char>| #[trigger] self.legs.leg(k) == (if k == leg_id@ {
                    in_state(before.leg(k), LegState::Connected)
                } else {
                    before.leg(k)
                }) by {
                    assert(mid.leg(k) == before.leg(k));
                }
                CommandStep::Refresh { result: CommandResult::success(), event }
            },
            CallCommand::LegFailed { leg_id, reason } => {
                let event = failed_event(&self.legs, &leg_id, &reason);
                let _ = self.legs.remove_leg(&leg_id);
                CommandStep::Refresh { result: CommandResult::failure(reason), event: Some(event) }
            },
            CallCommand::Unknown => CommandStep::Done(
                CommandResult::of(
                    CommandOutcome::NotSupported("Command not yet implemented".to_owned()),
                ),
            ),
            other => CommandStep::Perform(other),
        }
    }

    /// The caller was answered, or could not be, as a command asked for.
    pub fn finish_answer(&mut self, leg_id: &str, accepted: Result<(), String>) -> (r: CommandResult)
        requires
            old(self).wf(),
        ensures
            final(self).wf(),
            same_but_legs(*final(self), *old(self)),
            accepted is Ok ==> leg_moved(
                old(self).legs,
                final(self).legs,
                leg_id@,
                LegState::Connected,
            ),
            accepted is Err ==> *final(self) == *old(self),
            r.degradation is None,
            r.outcome == (match accepted {
                Ok(()) => CommandOutcome::Success,
                Err(e) => CommandOutcome::Failure(e),
            }),
    {
        if accepted.is_ok() {
            let _ = self.legs.update_leg_state(leg_id, LegState::Connected);
        }
        ok_or_failure(accepted)
    }

    /// A leg left its queue, whichever queue that was.
    pub fn finish_dequeue(&mut self, leg_id: &str) -> (r: CommandResult)
        requires
            old(self).wf(),
        ensures
            final(self).wf(),
            same_but_legs(*final(self), *old(self)),
            leg_moved(old(self).legs, final(self).legs, leg_id@, LegState::Connected),
            r.outcome is Success && r.degradation is None,
    {
        let _ = self.legs.update_leg_state(leg_id, LegState::Connected);
        CommandResult::success()
    }

    /// The caller was rejected, or could not be.
    pub fn finish_reject(&mut self, leg_id: &str, sent: Result<(), String>) -> (r: CommandResult)
        requires
            old(self).wf(),
        ensures
            final(self).wf(),
            same_but_legs(*final(self), *old(self)),
            sent is Ok ==> leg_moved(old(self).legs, final(self).legs, leg_id@, LegState::Ended),
            sent is Err ==> *final(self) == *old(self),
            r.degradation is None,
            match sent {
                Ok(()) => r.outcome is Success,
                Err(e) => r.outcome matches CommandOutcome::Failure(m) && m@
                    == "Failed to send reject response: "@ + e@,
            },
    {
        match sent {
            Ok(()) => {
                let _ = self.legs.update_leg_state(leg_id, LegState::Ended);
                CommandResult::success()
            },
            Err(e) => CommandResult::failure(text::concat("Failed to send reject response: ", &e)),
        }
    }

    /// Takes the body of the INVITE as the caller's offer, even where it is empty, as a
    /// call does whose media the proxy anchors.
    pub fn take_offer(&mut self, invite_body: &[u8])
        ensures
            final(self).media.caller_offer matches Some(offer) && offer@ == text::utf8_lossy(
                invite_body@,
            ),
            *final(self) == (SipSession {
                media: MediaState {
                    caller_offer: final(self).media.caller_offer,
                    ..old(self).media
                },
                ..*old(self)
            }),
    {
        self.media.caller_offer = Some(text::from_utf8_lossy(invite_body));
    }

    /// Connects the media of the active legs, which are given in their order: two are
    /// bridged, where the session has both, and otherwise no bridge stands.
    pub fn update_media_path(&mut self, active_legs: &Vec<String>) -> (r: MediaPathPlan)
        ensures
            r is Unconnected <==> active_legs@.len() < 2,
            r is Conference <==> active_legs@.len() >= 3,
            r matches MediaPathPlan::Direct { leg_a, leg_b } ==> leg_a == active_legs@[0] && leg_b
                == active_legs@[1],
            same_but_bridge(*final(self), *old(self)),
            active_legs@.len() == 2 ==> if old(self).legs.leg(active_legs@[0]@) is Some && old(
                self,
            ).legs.leg(active_legs@[1]@) is Some {
                final(self).bridge.active && (final(self).bridge.legs matches Some((a, b)) && a@
                    == active_legs@[0]@ && b@ == active_legs@[1]@)
            } else {
                final(self).bridge == old(self).bridge
            },
            active_legs@.len() != 2 ==> if old(self).bridge.active {
                !final(self).bridge.active && final(self).bridge.legs is None
            } else {
                final(self).bridge == old(self).bridge
            },
    {
        let plan = plan_media_path(active_legs);
        match &plan {
            MediaPathPlan::Direct { leg_a, leg_b } => {
                let _ = self.bridge.setup_bridge(&self.legs, leg_a, leg_b);
            },
            _ => {
                if self.bridge.active {
                    self.bridge.clear();
                }
            },
        }
        plan
    }

    /// Adds a leg under this name that is called at an address, which must be a URI.
    pub fn add_leg(&mut self, leg_id: &str, target: &str) -> (r: Result<(), String>)
        ensures
            r is Ok <==> parsed_uri(target@) is Some,
            r matches Err(e) ==> *final(self) == *old(self) && exists|detail: Seq<char>|
                e@ == #[trigger] invalid_uri(target@, detail),
            r is Ok ==> same_but_legs(*final(self), *old(self)) && leg_added(
                old(self).legs,
                final(self).legs,
                leg_id@,
                target@,
            ),
            old(self).wf() ==> final(self).wf(),
    {
        if let Err(detail) = SipUri::read(target) {
            let mut message = text::concat3("Invalid SIP URI '", target, "': ");
            message.append(&detail);
            assert(message@ == invalid_uri(target@, detail@));
            return Err(message);
        }
        let mut leg = Leg::new(leg_id);
        leg.endpoint = Some(target.to_owned());
        self.legs.add_leg(leg);
        Ok(())
    }

    /// Takes a leg out that could not be called.
    pub fn abandon_leg(&mut self, leg_id: &str)
        requires
            old(self).wf(),
        ensures
            final(self).wf(),
            same_but_legs(*final(self), *old(self)),
            leg_gone(old(self).legs, final(self).legs, leg_id@),
    {
        let _ = self.legs.remove_leg(leg_id);
    }

    /// Takes a leg out. A leg with a dialog is hung up under the name of the session and
    /// the leg, which is handed out.
    pub fn remove_leg(&mut self, leg_id: &str) -> (r: Option<String>)
        requires
            old(self).wf(),
        ensures
            final(self).wf(),
            same_but_legs(*final(self), *old(self)),
            leg_gone(old(self).legs, final(self).legs, leg_id@),
            r is Some <==> (old(self).legs.leg(leg_id@) matches Some(l) && l.dialog_id is Some),
            r matches Some(dialog) ==> dialog@ == old(self).id@ + "-"@ + leg_id@,
    {
        match self.legs.remove_leg(leg_id) {
            Some(leg) => {
                if leg.dialog_id.is_some() {
                    Some(text::concat3(&self.id, "-", leg_id))
                } else {
                    None
                }
            },
            None => None,
        }
    }

    /// Makes a leg ring, as the policy says: with early media, for which the leg stays as
    /// it is, or with a ringing indication.
    pub fn ring_leg(&mut self, leg_id: &str, ringback: Option<RingbackPolicy>) -> (r: Result<
        RingPlan,
        String,
    >)
        ensures
            is_ring_plan(r, ringback, old(self).media.caller_offer),
            r matches Ok(RingPlan::Ring { .. }) ==> same_but_legs(*final(self), *old(self))
                && leg_moved(old(self).legs, final(self).legs, leg_id@, LegState::Ringing),
            !(r matches Ok(RingPlan::Ring { .. })) ==> *final(self) == *old(self),
            old(self).wf() ==> final(self).wf(),
    {
        let plan = plan_ring(ringback, &self.media.caller_offer);
        if let Ok(RingPlan::Ring { .. }) = &plan {
            let _ = self.legs.update_leg_state(leg_id, LegState::Ringing);
        }
        plan
    }

    /// The callee that is dialled makes progress; the first time that one does is kept.
    /// Where it sends a description, its early media count as sent from then on; else it
    /// rings, unless early media were sent before.
    pub fn on_callee_progress(&mut self, body: &[u8], now: u64) -> (r: RingStep)
        ensures
            r == ring_step(text::utf8_lossy(body@), old(self).path, old(self).media.early_media_sent),
            *final(self) == (SipSession {
                legs: final(self).legs,
                media: MediaState {
                    early_media_sent: old(self).media.early_media_sent || !(r is Ring),
                    ..old(self).media
                },
                meta: CallMeta {
                    ring_time: rung_at(old(self).meta.ring_time, now),
                    ..old(self).meta
                },
                ..*old(self)
            }),
            match r {
                RingStep::Ring { mark_ringing: false } => final(self).legs == old(self).legs,
                RingStep::Ring { mark_ringing: true } => leg_moved(
                    old(self).legs,
                    final(self).legs,
                    "callee"@,
                    LegState::Ringing,
                ),
                _ => leg_moved(old(self).legs, final(self).legs, "callee"@, LegState::EarlyMedia),
            },
            old(self).wf() ==> final(self).wf(),
    {
        self.meta.rang(now);
        let step = on_callee_progress(body, self.path, self.media.early_media_sent);
        match step {
            RingStep::Ring { mark_ringing } => {
                if mark_ringing {
                    let _ = self.legs.update_leg_state("callee", LegState::Ringing);
                }
            },
            _ => {
                self.media.early_media_sent = true;
                let _ = self.legs.update_leg_state("callee", LegState::EarlyMedia);
            },
        }
        step
    }

    /// A further leg rings. Its early media are relayed once; those that the proxy anchors
    /// count as sent only when the caller's answer to them was prepared.
    pub fn on_leg_ringing(&mut self, leg_id: &str, sdp: &Option<String>, caller_confirmed: bool) -> (r:
        LegRingStep)
        ensures
            r == leg_ring_step(
                *sdp,
                caller_confirmed,
                old(self).path,
                old(self).media.early_media_sent,
            ),
            *final(self) == (SipSession {
                legs: final(self).legs,
                media: MediaState {
                    early_media_sent: old(self).media.early_media_sent || r == LegRingStep::Relay(
                        RingStep::RelayEarlyMedia,
                    ),
                    ..old(self).media
                },
                ..*old(self)
            }),
            match r {
                LegRingStep::Nothing
                | LegRingStep::Relay(RingStep::Ring { mark_ringing: false }) => final(self).legs
                    == old(self).legs,
                LegRingStep::Relay(RingStep::Ring { mark_ringing: true }) => leg_moved(
                    old(self).legs,
                    final(self).legs,
                    leg_id@,
                    LegState::Ringing,
                ),
                _ => leg_moved(old(self).legs, final(self).legs, leg_id@, LegState::EarlyMedia),
            },
            old(self).wf() ==> final(self).wf(),
    {
        let step = on_leg_ringing(sdp, caller_confirmed, self.path, self.media.early_media_sent);
        match step {
            LegRingStep::Nothing => {},
            LegRingStep::Relay(RingStep::Ring { mark_ringing }) => {
                if mark_ringing {
                    let _ = self.legs.update_leg_state(leg_id, LegState::Ringing);
                }
            },
            LegRingStep::Relay(RingStep::RelayEarlyMedia) => {
                self.media.early_media_sent = true;
                let _ = self.legs.update_leg_state(leg_id, LegState::EarlyMedia);
            },
            _ => {
                let _ = self.legs.update_leg_state(leg_id, LegState::EarlyMedia);
            },
        }
        step
    }

    /// The answer to the early media of a further leg was prepared, or could not be.
    pub fn early_media_prepared(&mut self, answered: bool)
        ensures
            *final(self) == (SipSession {
                media: MediaState {
                    early_media_sent: old(self).media.early_media_sent || answered,
                    ..old(self).media
                },
                ..*old(self)
            }),
    {
        if answered {
            self.media.early_media_sent = true;
        }
    }

    /// A track is played: it is known from then on.
    pub fn start_track(&mut self, plan: &PlayPlan)
        requires
            old(self).wf(),
        ensures
            final(self).wf(),
            final(self).playback@ == old(self).playback@.insert(plan.track_id@),
            final(self).media == with_playback(old(self).media, *plan),
            *final(self) == (SipSession {
                playback: final(self).playback,
                media: final(self).media,
                ..*old(self)
            }),
    {
        playback_started(&mut self.media, plan);
        self.playback.insert(plan.track_id.clone());
    }

    /// Early media are played to the caller, where there is a bridge and the caller's
    /// answer has a codec for speech; says whether they are.
    pub fn start_progress_media(&mut self, has_codec: bool) -> (r: bool)
        requires
            old(self).wf(),
        ensures
            final(self).wf(),
            r == (old(self).media.media_bridge && has_codec),
            r || *final(self) == *old(self),
            r ==> {
                &&& final(self).playback@ == old(self).playback@.insert("progress-media"@)
                &&& text::opt_text(final(self).media.bridge_playback_track_id) == Some("progress-media"@)
                &&& *final(self) == (SipSession {
                    playback: final(self).playback,
                    media: MediaState {
                        bridge_playback_track_id: final(self).media.bridge_playback_track_id,
                        ..old(self).media
                    },
                    ..*old(self)
                })
            },
    {
        if self.media.media_bridge && has_codec {
            self.media.bridge_playback_track_id = Some("progress-media".to_owned());
            self.playback.insert("progress-media".to_owned());
            return true;
        }
        false
    }

    /// Stops a track that is played.
    pub fn stop_track(&mut self, track_id: &str, remove_from_peer: bool) -> (r: Option<StopPlan>)
        requires
            old(self).wf(),
        ensures
            final(self).wf(),
            final(self).playback@ == old(self).playback@.remove(track_id@),
            r is Some <==> old(self).playback@.contains(track_id@),
            r matches Some(plan) ==> track_stopped(
                old(self).media,
                final(self).media,
                track_id@,
                remove_from_peer,
                plan,
            ),
            r is None ==> final(self).media == old(self).media,
            *final(self) == (SipSession {
                playback: final(self).playback,
                media: final(self).media,
                ..*old(self)
            }),
    {
        if self.playback.remove(track_id) {
            Some(stop_playback_track(&mut self.media, track_id, remove_from_peer))
        } else {
            None
        }
    }

    /// The tracks that are stopped when what is played to a leg is, or to all of them.
    pub fn tracks_of_leg(&self, leg_id: &Option<String>) -> (r: Vec<String>)
        ensures
            r@ == self.playback.items@.filter(|t: String| stops(text::opt_text(*leg_id), t@)),
    {
        tracks_to_stop(&self.playback.items, leg_id)
    }

    /// Digits were sent to a leg, or could not be: those that were are remembered.
    pub fn finish_send_dtmf(&mut self, leg_id: &str, digits: &Vec<char>, sent: DtmfSent) -> (r:
        Result<(), String>)
        ensures
            match sent {
                DtmfSent::Sent => {
                    &&& r is Ok
                    &&& final(self).dtmf_digits@ == old(self).dtmf_digits@ + digits@
                    &&& *final(self) == (SipSession {
                        dtmf_digits: final(self).dtmf_digits,
                        ..*old(self)
                    })
                },
                DtmfSent::NoDialog { dialog } => {
                    &&& *final(self) == *old(self)
                    &&& r matches Err(e)
                    &&& e@ == (if leg_id@ == "callee"@ {
                        "Callee dialog not found: "@ + dialog@
                    } else {
                        "Dialog not found for leg "@ + leg_id@ + ": "@ + dialog@
                    })
                },
                DtmfSent::Failed { error } => {
                    &&& *final(self) == *old(self)
                    &&& r matches Err(e)
                    &&& e@ == (if leg_id@ == "caller"@ {
                        error@
                    } else {
                        "Failed to send DTMF: "@ + error@
                    })
                },
            },
    {
        match sent {
            DtmfSent::Sent => {
                self.remember_digits(digits);
                Ok(())
            },
            DtmfSent::NoDialog { dialog } => {
                if text::same(leg_id, "callee") {
                    Err(text::concat("Callee dialog not found: ", &dialog))
                } else {
                    let mut message = text::concat3("Dialog not found for leg ", leg_id, ": ");
                    message.append(&dialog);
                    Err(message)
                }
            },
            DtmfSent::Failed { error } => {
                if text::same(leg_id, "caller") {
                    Err(error)
                } else {
                    Err(text::concat("Failed to send DTMF: ", &error))
                }
            },
        }
    }

    fn remember_digits(&mut self, digits: &Vec<char>)
        ensures
            *final(self) == (SipSession { dtmf_digits: final(self).dtmf_digits, ..*old(self) }),
            final(self).dtmf_digits@ == old(self).dtmf_digits@ + digits@,
    {
        let mut i: usize = 0;
        let ghost before = self.dtmf_digits@;
        assert(before =~= before + digits@.subrange(0, 0));
        while i < digits.len()
            invariant
                i <= digits@.len(),
                *self == (SipSession { dtmf_digits: self.dtmf_digits, ..*old(self) }),
                self.dtmf_digits@ == before + digits@.subrange(0, i as int),
            decreases digits@.len() - i,
        {
            self.dtmf_digits.push(digits[i]);
            assert(self.dtmf_digits@ =~= before + digits@.subrange(0, i + 1));
            i += 1;
        }
        assert(digits@.subrange(0, digits@.len() as int) =~= digits@);
    }

    /// The dialog of a callee ended: its timer is dropped, and its leg is over unless the
    /// call goes on with another.
    pub fn on_callee_terminated(
        &mut self,
        dialog: &str,
        reason: TerminatedReason,
        caller_terminated: bool,
        voicemail: Option<String>,
    ) -> (r: CalleeEnd)
        requires
            old(self).wf(),
        ensures
            final(self).wf(),
            crate::dialog::callee_ended(
                old(self).call,
                final(self).call,
                dialog@,
                reason,
                caller_terminated,
                voicemail,
                r,
            ),
            forall|k: Seq<char>| #[trigger]
                final(self).timers.timers.value(k) == if k == dialog@ {
                    None
                } else {
                    old(self).timers.timers.value(k)
                },
            forall|k: Seq<char>| #[trigger]
                final(self).timers.update_disabled.value(k) == if k == dialog@ {
                    None
                } else {
                    old(self).timers.update_disabled.value(k)
                },
            forall|k: Seq<char>| #[trigger]
                final(self).timers.due.value(k) == if k == dialog@ {
                    None
                } else {
                    old(self).timers.due.value(k)
                },
            r is Ignored ==> final(self).legs == old(self).legs,
            r !is Ignored ==> leg_moved(
                old(self).legs,
                final(self).legs,
                "callee"@,
                LegState::Ended,
            ),
            *final(self) == (SipSession {
                legs: final(self).legs,
                call: final(self).call,
                timers: final(self).timers,
                ..*old(self)
            }),
    {
        self.timers.forget(dialog);
        let end = self.call.on_callee_terminated(dialog, reason, caller_terminated, voicemail);
        if !matches!(end, CalleeEnd::Ignored) {
            let _ = self.legs.update_leg_state("callee", LegState::Ended);
        }
        end
    }

    /// The caller's dialog ended: its leg is over, and so is the call.
    pub fn on_caller_terminated(&mut self, reason: TerminatedReason)
        requires
            old(self).wf(),
        ensures
            final(self).wf(),
            crate::dialog::caller_ended(old(self).call, final(self).call, reason),
            leg_moved(old(self).legs, final(self).legs, "caller"@, LegState::Ended),
            *final(self) == (SipSession {
                legs: final(self).legs,
                call: final(self).call,
                ..*old(self)
            }),
    {
        let _ = self.legs.update_leg_state("caller", LegState::Ended);
        self.call.on_caller_terminated(reason);
    }

    /// Gives the caller's dialog its timer, from what the initial request says. An interval
    /// below the accepted one is refused, with the accepted one as the detail; then no
    /// timer changes. A timer is not looked at before a time is set for that.
    pub fn init_server_timer(
        &mut self,
        mode: SessionTimerMode,
        min_se: Option<u64>,
        expires: SessionExpires,
        refresher: SessionRefresher,
        default_expires: u64,
        now: u64,
    ) -> (r: Result<SessionTimerState, CalleeError>)
        requires
            old(self).wf(),
        ensures
            final(self).wf(),
            match server_timer(mode, min_se, expires, refresher, default_expires, now) {
                Some(timer) => {
                    &&& r == Ok::<SessionTimerState, CalleeError>(timer)
                    &&& timer_started(
                        old(self).timers,
                        final(self).timers,
                        old(self).call.caller_dialog@,
                        timer,
                    )
                },
                None => {
                    &&& r matches Err(e)
                    &&& e.0 == 422 && e.1@ == reason_phrase(422) && e.2 is Some
                    &&& e.2->0@ == text::decimal(accepted_min_se(min_se) as nat)
                    &&& *final(self) == *old(self)
                },
            },
            *final(self) == (SipSession { timers: final(self).timers, ..*old(self) }),
    {
        let timer = match init_server_timer(
            mode,
            min_se,
            expires,
            refresher,
            default_expires,
            now,
        ) {
            Ok(timer) => timer,
            Err(e) => {
                return Err(e);
            },
        };
        self.timers.start(&self.call.caller_dialog, timer);
        Ok(timer)
    }

    /// Gives the dialog of a callee its timer, from what its answer says. The timer is not
    /// looked at before a time is set for that, and one that does not run never is.
    pub fn init_callee_timer(
        &mut self,
        dialog_id: &str,
        mode: SessionTimerMode,
        answered: Option<(u64, SessionRefresher)>,
        requested_session_interval: u64,
        now: u64,
    ) -> (r: SessionTimerState)
        requires
            old(self).wf(),
        ensures
            final(self).wf(),
            r == callee_timer(mode, answered, requested_session_interval, now),
            timer_started(old(self).timers, final(self).timers, dialog_id@, r),
            *final(self) == (SipSession { timers: final(self).timers, ..*old(self) }),
    {
        let timer = init_callee_timer(mode, answered, requested_session_interval, now);
        self.timers.start(dialog_id, timer);
        timer
    }

    /// The caller is about to be answered, on behalf of this callee or of none: it is the
    /// connected one, and its leg talks.
    pub fn accepting(&mut self, callee: Option<String>)
        requires
            old(self).wf(),
        ensures
            final(self).wf(),
            leg_moved(old(self).legs, final(self).legs, "callee"@, LegState::Connected),
            *final(self) == (SipSession {
                legs: final(self).legs,
                call: CallState { connected_callee: callee, ..old(self).call },
                ..*old(self)
            }),
    {
        let _ = self.legs.update_leg_state("callee", LegState::Connected);
        self.call.connected_callee = callee;
    }

    /// A callee answered: it is the connected one under this dialog, and the call is told
    /// who it is.
    pub fn on_connected(&mut self, callee: String, dialog: String)
        requires
            old(self).wf(),
        ensures
            final(self).wf(),
            final(self).call.connected_callee == Some(callee),
            final(self).call.connected_dialog == Some(dialog),
            final(self).call.callee_dialogs@ == old(self).call.callee_dialogs@.insert(dialog@),
            final(self).call.pending_hangup == old(self).call.pending_hangup,
            final(self).call.hangup_reason == old(self).call.hangup_reason,
            final(self).call.last_error == old(self).call.last_error,
            final(self).call.cancelled == old(self).call.cancelled,
            final(self).call.caller_dialog == old(self).call.caller_dialog,
            leg_moved(old(self).legs, final(self).legs, "callee"@, LegState::Connected),
            *final(self) == (SipSession {
                legs: final(self).legs,
                call: final(self).call,
                ..*old(self)
            }),
    {
        let _ = self.legs.update_leg_state("callee", LegState::Connected);
        self.call.connect(dialog);
        self.call.connected_callee = Some(callee);
    }
}

/// What came of sending digits in a dialog.
pub enum DtmfSent {
    Sent,
    /// The dialog of this name is not there any longer.
    NoDialog { dialog: String },
    Failed { error: String },
}

/// Where the digits for a leg go.
pub enum DtmfRoute {
    /// To the caller's dialog.
    Caller,
    /// To the dialog of this name.
    Dialog(String),
}

/// The dialog that the digits for a leg are sent in: the caller's, the connected
/// callee's, or that of a further leg.
pub fn dtmf_route(leg_id: &str, connected_dialog: &Option<String>, leg_dialog: &Option<String>) -> (r:
    Result<DtmfRoute, String>)
    ensures
        if leg_id@ == "caller"@ {
            r == Ok::<DtmfRoute, String>(DtmfRoute::Caller)
        } else if leg_id@ == "callee"@ {
            match *connected_dialog {
                Some(d) => r == Ok::<DtmfRoute, String>(DtmfRoute::Dialog(d)),
                None => r matches Err(e) && e@ == "No connected callee dialog"@,
            }
        } else {
            match *leg_dialog {
                Some(d) => r == Ok::<DtmfRoute, String>(DtmfRoute::Dialog(d)),
                None => r matches Err(e) && e@ == "No dialog_id for leg: "@ + leg_id@,
            }
        },
{
    if text::same(leg_id, "caller") {
        Ok(DtmfRoute::Caller)
    } else if text::same(leg_id, "callee") {
        match connected_dialog {
            Some(d) => Ok(DtmfRoute::Dialog(d.clone())),
            None => Err("No connected callee dialog".to_owned()),
        }
    } else {
        match leg_dialog {
            Some(d) => Ok(DtmfRoute::Dialog(d.clone())),
            None => Err(text::concat("No dialog_id for leg: ", leg_id)),
        }
    }
}

/// The description that says how a leg takes digits as events.
pub fn dtmf_description<'a>(leg_id: &str, media: &'a MediaState) -> (r: Option<&'a String>)
    ensures
        r is Some <==> (leg_id@ == "caller"@ && media.answer is Some) || (leg_id@ != "caller"@
            && leg_id@ == "callee"@ && media.callee_answer_sdp is Some),
        r matches Some(sdp) ==> Some(*sdp) == (if leg_id@ == "caller"@ {
            media.answer
        } else {
            media.callee_answer_sdp
        }),
{
    if text::same(leg_id, "caller") {
        match &media.answer {
            Some(sdp) => Some(sdp),
            None => None,
        }
    } else if text::same(leg_id, "callee") {
        match &media.callee_answer_sdp {
            Some(sdp) => Some(sdp),
            None => None,
        }
    } else {
        None
    }
}

/// How the monitor of the caller's digits stands.
#[derive(Clone, Copy, PartialEq, Eq, Debug, Structural)]
pub enum MonitorState {
    Absent,
    Running,
    Finished,
}

/// What is done to hear the caller's digits.
pub enum MonitorPlan {
    Nothing,
    /// The old monitor is stopped, and there is no bridge to listen at.
    StopOnly,
    /// The bridge listens for events of these payload types.
    ListenAtBridge { types: Vec<u8>, stop_old: bool },
    /// A monitor listens at the caller's track.
    Start { types: Vec<u8>, stop_old: bool },
}

/// The types are those that were negotiated, in order, each once.
pub open spec fn are_event_types(types: Seq<u8>, extracted: Seq<u8>, negotiated: u8) -> bool {
    &&& strictly_sorted(types)
    &&& forall|t: u8| #[trigger]
        types.contains(t) <==> (if extracted.len() == 0 {
            t == negotiated
        } else {
            extracted.contains(t)
        })
}

/// Plans how the caller's digits are heard while no callee is connected: at the bridge
/// where the caller's media go through it, else at its own track. `negotiated` is the
/// payload type of events in the answer, where there is one, and `extracted` are all that
/// the answer has.
pub fn plan_ingress_monitor(
    callee_connected: bool,
    media: &MediaState,
    negotiated: Option<u8>,
    extracted: &Vec<u8>,
    monitor: MonitorState,
) -> (r: MonitorPlan)
    ensures
        if callee_connected || media.answer is None || negotiated is None {
            r is Nothing
        } else if media.caller_answer_uses_media_bridge {
            if media.media_bridge {
                r matches MonitorPlan::ListenAtBridge { types, stop_old } && are_event_types(
                    types@,
                    extracted@,
                    negotiated->0,
                ) && stop_old == (monitor != MonitorState::Absent)
            } else if monitor == MonitorState::Absent {
                r is Nothing
            } else {
                r is StopOnly
            }
        } else if monitor == MonitorState::Running {
            r is Nothing
        } else {
            r matches MonitorPlan::Start { types, stop_old } && are_event_types(
                types@,
                extracted@,
                negotiated->0,
            ) && stop_old == (monitor == MonitorState::Finished)
        },
{
    if callee_connected || media.answer.is_none() {
        return MonitorPlan::Nothing;
    }
    let payload_type: u8 = match negotiated {
        Some(t) => t,
        None => {
            return MonitorPlan::Nothing;
        },
    };
    let types = dtmf_payload_types(extracted, payload_type);
    assert forall|t: u8| #[trigger] types@.contains(t) <==> (if extracted@.len() == 0 {
        t == payload_type
    } else {
        extracted@.contains(t)
    }) by {
        if extracted@.len() == 0 {
            assert(types@[0] == payload_type);
        }
    }
    if media.caller_answer_uses_media_bridge {
        let stop_old = !matches!(monitor, MonitorState::Absent);
        if media.media_bridge {
            return MonitorPlan::ListenAtBridge { types, stop_old };
        }
        if stop_old {
            return MonitorPlan::StopOnly;
        }
        return MonitorPlan::Nothing;
    }
    if matches!(monitor, MonitorState::Running) {
        return MonitorPlan::Nothing;
    }
    MonitorPlan::Start { types, stop_old: matches!(monitor, MonitorState::Finished) }
}

/// The digit that a frame of the caller's track brings, where it is an event of one of
/// the types, or of none that is known, and has not been heard before.
pub fn observe_frame(
    types: &Vec<u8>,
    detector: &mut RtpDtmfDetector,
    payload_type: Option<u8>,
    payload: &[u8],
    rtp_timestamp: u32,
) -> (r: Option<char>)
    ensures
        !payload_accepted(types@, payload_type) ==> r is None && *final(detector) == *old(detector),
        payload_accepted(types@, payload_type) ==> RtpDtmfDetector::observed(
            *old(detector),
            *final(detector),
            payload@,
            rtp_timestamp,
            r,
        ),
{
    if !accepts_frame(types, payload_type) {
        return None;
    }
    detector.observe(payload, rtp_timestamp)
}

/// What the caller's media are taken from when they are passed on.
#[derive(Clone, Copy, PartialEq, Eq, Debug, Structural)]
pub enum CallerMediaSource {
    /// The bridge should have them, and there is none.
    Missing,
    Bridge(BridgeEndpoint),
    OwnTrack,
}

/// Where the caller's media are taken from.
pub fn caller_media_source(media: &MediaState, legs: &LegRegistry) -> (r: CallerMediaSource)
    ensures
        r == (if !media.caller_answer_uses_media_bridge {
            CallerMediaSource::OwnTrack
        } else if media.media_bridge {
            CallerMediaSource::Bridge(legs.endpoint("caller"@))
        } else {
            CallerMediaSource::Missing
        }),
{
    if !media.caller_answer_uses_media_bridge {
        return CallerMediaSource::OwnTrack;
    }
    if !media.media_bridge {
        return CallerMediaSource::Missing;
    }
    CallerMediaSource::Bridge(legs.leg_bridge_endpoint("caller"))
}

/// The two ends of a direction that media are passed on in.
#[derive(Clone, Copy, PartialEq, Eq, Debug, Structural)]
pub enum ProfileEnd {
    Ingress,
    Egress,
}

/// Which ends of the two directions, from the caller and from the callee, take over the
/// new description of a side; nothing where no media are passed on.
pub fn forwarding_update(
    path: MediaPathMode,
    media_bridge: bool,
    side: DialogSide,
    callee_connected: bool,
    callee_dialogs: &DialogSet,
) -> (r: Option<(ProfileEnd, ProfileEnd)>)
    ensures
        r is None <==> path != MediaPathMode::Anchored || media_bridge || (side
            == DialogSide::Caller && !callee_connected && callee_dialogs@
            == Set::<Seq<char>>::empty()),
        r matches Some(ends) ==> ends == (match side {
            DialogSide::Caller => (ProfileEnd::Ingress, ProfileEnd::Egress),
            DialogSide::Callee => (ProfileEnd::Egress, ProfileEnd::Ingress),
        }),
{
    if !matches!(path, MediaPathMode::Anchored) || media_bridge {
        return None;
    }
    let has_callee = callee_connected || !callee_dialogs.is_empty();
    match side {
        DialogSide::Caller => {
            if !has_callee {
                return None;
            }
            Some((ProfileEnd::Ingress, ProfileEnd::Egress))
        },
        DialogSide::Callee => Some((ProfileEnd::Egress, ProfileEnd::Ingress)),
    }
}

/// The media are captured for the flow of the call: where it is recorded, and not only
/// into a file.
pub fn captures_flow(recording_enabled: bool, force_file: bool) -> (r: bool)
    ensures
        r == (recording_enabled && !force_file),
{
    recording_enabled && !force_file
}

/// What came of starting an application; an error comes with its text.
pub enum StartOutcome {
    Started,
    AlreadyRunning { error: String },
    Failed { error: String },
}

/// What is done next to have an application run.
pub enum EnsureAppStep {
    Running,
    /// The one that runs is stopped for this reason, and this one is started again.
    Restart { reason: String },
    Failed { message: String },
}

/// Goes on after an application was started. One that runs already is stopped once.
pub fn ensure_app_step(outcome: StartOutcome, restarted: bool, label: &str) -> (r: EnsureAppStep)
    ensures
        match outcome {
            StartOutcome::Started => r is Running,
            StartOutcome::AlreadyRunning { error } => if restarted {
                r matches EnsureAppStep::Failed { message } && message@ == "Failed to restart "@
                    + label@ + ": "@ + error@
            } else {
                r matches EnsureAppStep::Restart { reason } && reason@ == "restart "@ + label@
            },
            StartOutcome::Failed { error } => r matches EnsureAppStep::Failed { message }
                && message@ == (if restarted {
                "Failed to restart "@
            } else {
                "Failed to start "@
            }) + label@ + ": "@ + error@,
        },
{
    match outcome {
        StartOutcome::Started => EnsureAppStep::Running,
        StartOutcome::AlreadyRunning { error } => {
            if restarted {
                let mut message = text::concat3("Failed to restart ", label, ": ");
                message.append(&error);
                EnsureAppStep::Failed { message }
            } else {
                EnsureAppStep::Restart { reason: text::concat("restart ", label) }
            }
        },
        StartOutcome::Failed { error } => {
            let mut message = if restarted {
                text::concat3("Failed to restart ", label, ": ")
            } else {
                text::concat3("Failed to start ", label, ": ")
            };
            message.append(&error);
            EnsureAppStep::Failed { message }
        },
    }
}

/// What is still owed when a session goes away: the media engine is told, and the record
/// of the call is written, each once.
pub fn owed_at_drop(engine_told: bool, record_sent: bool, has_reporter: bool) -> (r: (bool, bool))
    ensures
        r.0 == !engine_told,
        r.1 == (!record_sent && has_reporter),
{
    (!engine_told, !record_sent && has_reporter)
}

/// What a re-INVITE from the caller leads to.
pub enum ReinvitePlan {
    /// It is answered with the standing answer.
    Standing { answer: Option<String> },
    /// Its offer is passed on to these dialogs.
    PassOn { offer: String, dialogs: Vec<String> },
}

/// The method of a request that is to be taken as a re-INVITE.
pub enum ReinviteMethod {
    Invite,
    /// Another method, by its name.
    Other(String),
}

/// Plans what a re-INVITE leads to; where media are anchored, the offer is the caller's
/// from then on.
pub fn handle_reinvite(
    media: &mut MediaState,
    path: MediaPathMode,
    method: ReinviteMethod,
    sdp: Option<String>,
    callee_dialogs: &DialogSet,
) -> (r: Result<ReinvitePlan, String>)
    ensures
        match method {
            ReinviteMethod::Other(name) => r matches Err(e) && e@ == "Expected INVITE method, got "@
                + name@ && *final(media) == *old(media),
            ReinviteMethod::Invite => match sdp {
                None => r == Ok::<ReinvitePlan, String>(
                    (ReinvitePlan::Standing { answer: old(media).answer }),
                ) && *final(media) == *old(media),
                Some(offer) => {
                    &&& *final(media) == (if crate::media::bypasses(*old(media), path) {
                        *old(media)
                    } else {
                        MediaState { caller_offer: Some(offer), ..*old(media) }
                    })
                    &&& if callee_dialogs@ == Set::<Seq<char>>::empty() {
                        r matches Err(e) && e@ == "No callee dialogs available for B2BUA forwarding"@
                    } else {
                        r matches Ok(ReinvitePlan::PassOn { offer: passed, dialogs }) && passed
                            == offer && text::views(dialogs@).no_duplicates() && text::views(dialogs@).to_set()
                            == callee_dialogs@
                    }
                },
            },
        },
{
    if let ReinviteMethod::Other(name) = method {
        return Err(text::concat("Expected INVITE method, got ", &name));
    }
    let offer = match sdp {
        Some(offer) => offer,
        None => {
            return Ok(ReinvitePlan::Standing { answer: media.answer.clone() });
        },
    };
    if !crate::media::bypasses_local_media(media, path) {
        media.caller_offer = Some(offer.clone());
    }
    if callee_dialogs.is_empty() {
        return Err("No callee dialogs available for B2BUA forwarding".to_owned());
    }
    Ok(ReinvitePlan::PassOn { offer, dialogs: callee_dialogs.names() })
}

/// How the answer of a callee to a re-INVITE reaches the caller.
#[derive(Clone, Copy, PartialEq, Eq, Debug, Structural)]
pub enum ReinviteAnswer {
    /// There is none.
    Nothing,
    /// The caller gets an answer of the proxy.
    Prepare,
    /// It is passed on.
    PassOn,
}

pub fn reinvite_answer(body: &[u8], media: &MediaState, path: MediaPathMode) -> (r: ReinviteAnswer)
    ensures
        r == (if body@.len() == 0 {
            ReinviteAnswer::Nothing
        } else if path == MediaPathMode::Anchored || media.media_bridge {
            ReinviteAnswer::Prepare
        } else {
            ReinviteAnswer::PassOn
        }),
{
    if body.len() == 0 {
        ReinviteAnswer::Nothing
    } else if matches!(path, MediaPathMode::Anchored) || media.media_bridge {
        ReinviteAnswer::Prepare
    } else {
        ReinviteAnswer::PassOn
    }
}

/// A leg that moves is the only one, and keeps who it is and where it leads.
pub proof fn only_the_named_leg_moves(
    before: LegRegistry,
    after: LegRegistry,
    leg: Seq<char>,
    state: LegState,
    other: Seq<char>,
)
    requires
        leg_moved(before, after, leg, state),
        other != leg,
    ensures
        before.leg(leg) matches Some(l) ==> (after.leg(leg) matches Some(m) && m.state == state && m.id
            == l.id && m.endpoint == l.endpoint && m.dialog_id == l.dialog_id),
        before.leg(leg) is None ==> after.leg(leg) is None,
        after.leg(other) == before.leg(other),
        after.transports.value(other) == before.transports.value(other),
        after.video.value(other) == before.video.value(other),
        after.answers.value(other) == before.answers.value(other),
{
}

/// A command for a leg that is not there fails, says which leg, and leaves the session as
/// it was.
pub proof fn missing_leg_fails_the_command(
    before: SipSession,
    after: SipSession,
    command: CallCommand,
    has_receiver: bool,
    step: CommandStep,
    leg: String,
)
    requires
        is_command_step(before, after, command, has_receiver, step),
        before.legs.leg(leg@) is None,
        (command matches CallCommand::Hold { leg_id, .. } && leg_id == leg) || (
        command matches CallCommand::Unhold { leg_id } && leg_id == leg) || (
        command matches CallCommand::QueueEnqueue { leg_id, .. } && leg_id == leg) || (
        command matches CallCommand::QueueDequeue { leg_id } && leg_id == leg) || (
        command matches CallCommand::Reject { leg_id, .. } && leg_id == leg) || (
        command matches CallCommand::Ring { leg_id, .. } && leg_id == leg) || (
        command matches CallCommand::HandleReInvite { leg_id, .. } && leg_id == leg),
    ensures
        after == before,
        step matches CommandStep::Done(result) && (result.outcome matches CommandOutcome::Failure(m)
            && m@ == "Leg not found: "@ + leg@),
{
}

/// To hold a leg, or to put it into a queue, puts it on hold; to take it off hold connects
/// it, where it was held, and drops its music. No other leg is touched.
pub proof fn hold_and_unhold_move_their_leg(
    before: SipSession,
    after: SipSession,
    command: CallCommand,
    has_receiver: bool,
    step: CommandStep,
    leg: String,
    other: Seq<char>,
)
    requires
        is_command_step(before, after, command, has_receiver, step),
        before.legs.leg(leg@) is Some,
        other != leg@,
    ensures
        command matches CallCommand::Hold { leg_id, .. } && leg_id == leg ==> (after.legs.leg(
            leg@,
        ) matches Some(l) && l.state == LegState::Hold) && after.legs.leg(other) == before.legs.leg(
            other,
        ) && step is Perform,
        command matches CallCommand::QueueEnqueue { leg_id, .. } && leg_id == leg ==> (after.legs.leg(
            leg@,
        ) matches Some(l) && l.state == LegState::Hold) && after.legs.leg(other) == before.legs.leg(
            other,
        ) && step is Perform,
        command matches CallCommand::Unhold { leg_id } && leg_id == leg && before.legs.leg(
            leg@,
        )->0.state == LegState::Hold ==> (after.legs.leg(leg@) matches Some(l) && l.state
            == LegState::Connected) && after.legs.leg(other) == before.legs.leg(other)
            && !after.playback@.contains("hold-music"@) && step is Perform,
        command matches CallCommand::Unhold { leg_id } && leg_id == leg && before.legs.leg(
            leg@,
        )->0.state != LegState::Hold ==> after == before && !(step is Perform),
        command matches CallCommand::Ring { leg_id, .. } && leg_id == leg ==> after == before
            && step is Perform,
        command matches CallCommand::Reject { leg_id, .. } && leg_id == leg ==> after == before
            && step is Perform,
{
}

/// To answer the caller is work for outside; any other leg that is there is connected at
/// once.
pub proof fn answering_connects_a_leg(
    before: SipSession,
    after: SipSession,
    leg_id: String,
    has_receiver: bool,
    step: CommandStep,
)
    requires
        is_command_step(before, after, CallCommand::Answer { leg_id }, has_receiver, step),
    ensures
        leg_id@ == "caller"@ ==> step is Perform && after == before,
        leg_id@ != "caller"@ && before.legs.leg(leg_id@) is Some ==> (after.legs.leg(
            leg_id@,
        ) matches Some(l) && l.state == LegState::Connected) && (step matches CommandStep::Done(r)
            && r.outcome is Success),
        leg_id@ != "caller"@ && before.legs.leg(leg_id@) is None ==> (step matches CommandStep::Done(r)
            && r.outcome is Failure) && after.legs.leg(leg_id@) is None,
{
}

/// A hangup always tears the call down, for the reason that is given, and ends exactly the
/// legs that it reaches; no bridge is left.
pub proof fn hangup_tears_the_call_down(
    before: SipSession,
    after: SipSession,
    cascade: HangupCascade,
    reason: Option<String>,
    has_receiver: bool,
    step: CommandStep,
    i: int,
)
    requires
        is_command_step(
            before,
            after,
            CallCommand::Hangup { cascade, reason },
            has_receiver,
            step,
        ),
        0 <= i < before.legs.states.entries@.len(),
    ensures
        step == (CommandStep::TearDown { reason }),
        after.call.cancelled,
        !after.bridge.active && after.bridge.legs is None,
        after.call.hangup_reason == before.call.hangup_reason,
        after.media == before.media,
        cascade.ends(before.legs.states.entries@[i].1.id@) ==> after.legs.states.entries@[i].1.state
            == LegState::Ended,
        !cascade.ends(before.legs.states.entries@[i].1.id@) ==> after.legs.states.entries@[i]
            == before.legs.states.entries@[i],
        after.legs.states.entries@[i].0 == before.legs.states.entries@[i].0,
        after.state == session_state(after.legs.states.entries@),
{
    assert(after.legs.states.entries@[i].0 == before.legs.states.entries@[i].0);
}

/// Two legs that are there are bridged with each other and talk; where one is missing
/// nothing changes. To take a bridge down leaves the legs as they are.
pub proof fn bridge_connects_both_or_neither(
    before: SipSession,
    joined: SipSession,
    leg_a: String,
    leg_b: String,
    has_receiver: bool,
    step: CommandStep,
    parted: SipSession,
    parting: CommandStep,
    other: Seq<char>,
)
    requires
        is_command_step(before, joined, CallCommand::Bridge { leg_a, leg_b }, has_receiver, step),
        is_command_step(joined, parted, CallCommand::Unbridge, has_receiver, parting),
    ensures
        before.legs.leg(leg_a@) is Some && before.legs.leg(leg_b@) is Some ==> {
            &&& joined.bridge.active
            &&& joined.bridge.legs matches Some((a, b)) && a@ == leg_a@ && b@ == leg_b@
            &&& joined.legs.leg(leg_a@) matches Some(l) && l.state == LegState::Connected
            &&& joined.legs.leg(leg_b@) matches Some(l) && l.state == LegState::Connected
            &&& other != leg_a@ && other != leg_b@ ==> joined.legs.leg(other) == before.legs.leg(
                other,
            )
            &&& step matches CommandStep::Done(r) && r.outcome is Success
        },
        before.legs.leg(leg_a@) is None || before.legs.leg(leg_b@) is None ==> joined == before && (
        step matches CommandStep::Done(r) && r.outcome is Failure),
        !parted.bridge.active && parted.bridge.legs is None,
        parted.legs == joined.legs,
        parting matches CommandStep::Done(r) && r.outcome is Success,
{
}

/// A transfer needs somebody who listens to callees, and a command that calls do not have
/// is not supported; neither changes the session.
pub proof fn transfer_needs_a_listener(
    before: SipSession,
    after: SipSession,
    leg_id: String,
    target: String,
    attended: bool,
    step: CommandStep,
    unknown: SipSession,
    refusal: CommandStep,
    has_receiver: bool,
)
    requires
        is_command_step(
            before,
            after,
            CallCommand::Transfer { leg_id, target, attended },
            has_receiver,
            step,
        ),
        is_command_step(before, unknown, CallCommand::Unknown, has_receiver, refusal),
    ensures
        after == before && unknown == before,
        step is Perform <==> has_receiver,
        !has_receiver ==> (step matches CommandStep::Done(r) && r.outcome is Failure),
        refusal matches CommandStep::Done(r) && r.outcome is NotSupported,
{
}

/// A further leg that answered talks, with its answer kept; one that failed is gone, and
/// the reason is told. In both cases the media are set up anew, and no other leg differs.
pub proof fn further_leg_answers_or_goes(
    before: SipSession,
    connected: SipSession,
    failed: SipSession,
    leg_id: String,
    answer_sdp: Option<String>,
    reason: String,
    has_receiver: bool,
    answering: CommandStep,
    failing: CommandStep,
    other: Seq<char>,
)
    requires
        is_command_step(
            before,
            connected,
            CallCommand::LegConnected { leg_id, answer_sdp },
            has_receiver,
            answering,
        ),
        is_command_step(
            before,
            failed,
            CallCommand::LegFailed { leg_id, reason },
            has_receiver,
            failing,
        ),
        other != leg_id@,
    ensures
        answering is Refresh && failing is Refresh,
        before.legs.leg(leg_id@) is Some ==> (connected.legs.leg(leg_id@) matches Some(l) && l.state
            == LegState::Connected),
        answer_sdp is Some ==> connected.legs.answers.value(leg_id@) == answer_sdp,
        answer_sdp is None ==> connected.legs.answers.value(leg_id@) == before.legs.answers.value(
            leg_id@,
        ),
        failed.legs.leg(leg_id@) is None,
        connected.legs.leg(other) == before.legs.leg(other),
        failed.legs.leg(other) == before.legs.leg(other),
        failing->result.outcome == CommandOutcome::Failure(reason),
        answering->result.outcome is Success,
{
}

/// The application is told that an agent is connected exactly where the leg leads to one,
/// and of a leg that failed whether its agent was busy, with the address and the reason.
pub proof fn application_is_told_of_agents(
    connected: Option<AppEvent>,
    failed: AppEvent,
    leg: Leg,
    leg_id: Seq<char>,
    reason: Seq<char>,
)
    requires
        tells_connected(connected, Some(leg), leg_id),
        tells_failed(failed, Some(leg), leg_id, reason),
    ensures
        connected is Some <==> leg.endpoint is Some,
        connected matches Some(e) ==> e.name@ == "agent_connected"@ && (e.data matches Json::Object(d)
            && d@[0].0@ == "leg_id"@ && d@[0].1.text() == Some(leg_id) && d@[1].0@ == "agent_uri"@
            && d@[1].1.text() == text::opt_text(leg.endpoint)),
        failed.name@ == "agent_busy"@ <==> text::contains(reason, "486"@) || text::contains(
            text::lowercase(reason),
            "busy"@,
        ),
        failed.name@ == "agent_busy"@ || failed.name@ == "agent_no_answer"@,
        failed.data matches Json::Object(d) && d@.len() == 3 && d@[0].0@ == "leg_id"@
            && d@[0].1.text() == Some(leg_id) && d@[1].0@ == "agent_uri"@ && d@[2].0@
            == "reason"@ && d@[2].1.text() == Some(reason) && (leg.endpoint is Some ==> d@[1].1.text()
            == text::opt_text(leg.endpoint)) && (leg.endpoint is None ==> d@[1].1 is Null),
{
    reveal_strlit("agent_busy");
    reveal_strlit("agent_no_answer");
    assert("agent_busy"@.len() == 10);
    assert("agent_no_answer"@.len() == 15);
}

/// A leg that is added is new, leads to its address, and is not called yet; every other leg
/// stays.
pub proof fn added_leg_leads_to_its_address(
    before: LegRegistry,
    after: LegRegistry,
    gone: LegRegistry,
    leg: Seq<char>,
    target: Seq<char>,
    other: Seq<char>,
)
    requires
        leg_added(before, after, leg, target),
        leg_gone(after, gone, leg),
        other != leg,
    ensures
        after.leg(leg) matches Some(l) && l.id@ == leg && l.state == LegState::Initializing
            && text::opt_text(l.endpoint) == Some(target) && l.dialog_id is None,
        after.leg(other) == before.leg(other),
        gone.leg(leg) is None,
        gone.leg(other) == before.leg(other),
{
}

/// Digits are listened for as the types that the answer has, each once and in order; else
/// as the one that was negotiated.
pub proof fn digits_are_heard_as_negotiated(types: Seq<u8>, extracted: Seq<u8>, negotiated: u8, t: u8)
    requires
        are_event_types(types, extracted, negotiated),
    ensures
        extracted.len() > 0 ==> (types.contains(t) <==> extracted.contains(t)),
        extracted.len() == 0 ==> (types.contains(t) <==> t == negotiated),
        forall|i: int, j: int| 0 <= i < j < types.len() ==> types[i] < types[j],
{
}

/// Metadata hold what they hold, and nothing where there are none.
pub proof fn missing_metadata_hold_nothing(metadata: Table<String>, key: Seq<char>)
    ensures
        entry_of(Some(metadata), key) == metadata.value(key),
        entry_of(None, key) is None,
{
}

/// The message about an address that cannot be read names the address and ends with why.
pub proof fn message_names_the_address(target: Seq<char>, detail: Seq<char>)
    ensures
        text::ends_with(invalid_uri(target, detail), detail),
        text::contains(invalid_uri(target, detail), target),
{
    let head = "Invalid SIP URI '"@;
    let mid = "': "@;
    let all = invalid_uri(target, detail);
    let before = head + target + mid;
    assert(all.subrange(before.len() as int, all.len() as int) =~= detail);
    assert(all.subrange(head.len() as int, head.len() as int + target.len()) =~= target);
    assert(text::occurs_at(all, target, head.len() as int));
}

/// The digits of a leg go by the description that the leg was given: the caller by its
/// answer, the callee by its own, any other leg by none.
pub proof fn digits_go_by_the_description_of_the_leg(
    media: MediaState,
    to_caller: Option<&String>,
    to_callee: Option<&String>,
    leg_id: &str,
    r: Option<&String>,
)
    requires
        call_ensures(dtmf_description, ("caller", &media), to_caller),
        call_ensures(dtmf_description, ("callee", &media), to_callee),
        call_ensures(dtmf_description, (leg_id, &media), r),
        leg_id@ != "caller"@ && leg_id@ != "callee"@,
    ensures
        media.answer is None <==> to_caller is None,
        to_caller matches Some(sdp) ==> Some(*sdp) == media.answer,
        media.callee_answer_sdp is None <==> to_callee is None,
        to_callee matches Some(sdp) ==> Some(*sdp) == media.callee_answer_sdp,
        r is None,
{
    reveal_strlit("caller");
    reveal_strlit("callee");
    assert("caller"@[5] == 'r');
    assert("callee"@[5] == 'e');
}

/// A recording is captured on its way, unless it must be a file.
pub proof fn file_recording_is_not_captured(recording_enabled: bool, r: bool, forced: bool)
    requires
        call_ensures(captures_flow, (recording_enabled, false), r),
        call_ensures(captures_flow, (recording_enabled, true), forced),
    ensures
        r == recording_enabled,
        !forced,
{
}

/// An app that runs already is restarted once: what still stands in the way the second time
/// is a failure, and one that has started is running.
pub proof fn app_is_restarted_once(
    outcome: StartOutcome,
    label: &str,
    first: EnsureAppStep,
    again: EnsureAppStep,
)
    requires
        call_ensures(ensure_app_step, (outcome, false, label), first),
        call_ensures(ensure_app_step, (outcome, true, label), again),
    ensures
        first is Running <==> outcome is Started,
        again is Running <==> outcome is Started,
        first is Restart <==> outcome is AlreadyRunning,
        !(again is Restart),
        first is Failed <==> outcome is Failed,
{
}

/// What was told and sent is not owed again, and a record is owed only where someone takes
/// it.
pub proof fn nothing_is_owed_twice(
    engine_told: bool,
    record_sent: bool,
    has_reporter: bool,
    r: (bool, bool),
)
    requires
        call_ensures(owed_at_drop, (engine_told, record_sent, has_reporter), r),
    ensures
        r.0 != engine_told,
        record_sent || !has_reporter ==> !r.1,
        !record_sent && has_reporter ==> r.1,
{
}

/// A re-INVITE without a body needs no description; one with a body is answered here where
/// media passes through, and passed on where it does not.
pub proof fn anchored_reinvite_is_answered_here(
    body: &[u8],
    media: MediaState,
    path: MediaPathMode,
    r: ReinviteAnswer,
)
    requires
        call_ensures(reinvite_answer, (body, &media, path), r),
    ensures
        r is Nothing <==> body@.len() == 0,
        body@.len() > 0 && media.media_bridge ==> r is Prepare,
        body@.len() > 0 && path == MediaPathMode::Anchored ==> r is Prepare,
        r is Prepare ==> media.media_bridge || path == MediaPathMode::Anchored,
{
}

/// What a call was routed to and when it was answered is noted of it, each without the rest.
pub proof fn call_notes_what_it_is_told()
    ensures
        forall|
            s: &mut SipSession,
            caller: Option<String>,
            callee: Option<String>,
            contact: Option<String>,
            destination: Option<String>,
        | #[trigger]
            call_ensures(SipSession::on_routed, (s, caller, callee, contact, destination), ())
                ==> {
                &&& final(s).meta.routed_caller == caller && final(s).meta.routed_callee == callee
                &&& final(s).meta.routed_contact == contact
                &&& final(s).meta.routed_destination == destination
                &&& final(s).meta.answer_time == s.meta.answer_time
                &&& final(s).meta.ring_time == s.meta.ring_time
            },
        forall|s: &mut SipSession, now: u64| #[trigger]
            call_ensures(SipSession::on_answered, (s, now), ()) ==> {
                &&& final(s).meta.answer_time == Some(now)
                &&& final(s).meta.ring_time == s.meta.ring_time
                &&& final(s).meta.routed_caller == s.meta.routed_caller
                &&& final(s).meta.routed_callee == s.meta.routed_callee
                &&& final(s).meta.routed_contact == s.meta.routed_contact
                &&& final(s).meta.routed_destination == s.meta.routed_destination
            },
{
}

/// The caller's media comes off the bridge exactly where its answer runs there, and is
/// missing where that bridge is gone.
pub proof fn caller_media_comes_from_where_it_runs(
    m: MediaState,
    legs: LegRegistry,
    r: CallerMediaSource,
)
    requires
        call_ensures(caller_media_source, (&m, &legs), r),
    ensures
        r is OwnTrack <==> !m.caller_answer_uses_media_bridge,
        r is Missing <==> m.caller_answer_uses_media_bridge && !m.media_bridge,
        r matches CallerMediaSource::Bridge(end) ==> end == legs.endpoint("caller"@),
{
}

/// Forwarding is set anew only where media runs through the proxy without a bridge and there
/// is a callee; what changes on one side is turned into what the other side has.
pub proof fn forwarding_goes_from_the_changed_side(
    path: MediaPathMode,
    connected: bool,
    dialogs: DialogSet,
    caller: Option<(ProfileEnd, ProfileEnd)>,
    callee: Option<(ProfileEnd, ProfileEnd)>,
    bridged: Option<(ProfileEnd, ProfileEnd)>,
)
    requires
        call_ensures(forwarding_update, (path, false, DialogSide::Caller, connected, &dialogs), caller),
        call_ensures(forwarding_update, (path, false, DialogSide::Callee, connected, &dialogs), callee),
        call_ensures(forwarding_update, (path, true, DialogSide::Callee, connected, &dialogs), bridged),
    ensures
        bridged is None,
        callee is Some <==> path == MediaPathMode::Anchored,
        caller is Some ==> callee is Some && (caller->0).0 == (callee->0).1 && (caller->0).1
            == (callee->0).0,
        caller is Some ==> caller->0 == (ProfileEnd::Ingress, ProfileEnd::Egress),
        connected && path == MediaPathMode::Anchored ==> caller is Some,
{
}

/// Digits for the caller go to it, for the callee to its connected dialog, and for any other
/// leg to the dialog of that leg; without a dialog they go nowhere.
pub proof fn digits_go_to_the_dialog_of_the_leg(
    leg_id: &str,
    connected: Option<String>,
    own: Option<String>,
    r: Result<DtmfRoute, String>,
)
    requires
        call_ensures(dtmf_route, (leg_id, &connected, &own), r),
        "caller"@ != "callee"@,
    ensures
        leg_id@ == "caller"@ ==> r is Ok && r->Ok_0 is Caller,
        leg_id@ == "callee"@ ==> (r is Ok <==> connected is Some),
        leg_id@ == "callee"@ && r is Ok ==> r->Ok_0 == DtmfRoute::Dialog(connected->0),
        leg_id@ != "caller"@ && leg_id@ != "callee"@ ==> (r is Ok <==> own is Some),
        leg_id@ != "caller"@ && leg_id@ != "callee"@ && r is Ok ==> r->Ok_0 == DtmfRoute::Dialog(
            own->0,
        ),
{
}

/// Nobody listens for the caller's digits once a callee is connected, before there is an
/// answer, or where none were negotiated; else they are heard where the answer runs, by one
/// listener at a time.
pub proof fn digits_are_heard_where_the_answer_runs(
    connected: bool,
    m: MediaState,
    negotiated: Option<u8>,
    extracted: Vec<u8>,
    monitor: MonitorState,
    r: MonitorPlan,
)
    requires
        call_ensures(plan_ingress_monitor, (connected, &m, negotiated, &extracted, monitor), r),
    ensures
        connected || m.answer is None || negotiated is None ==> r is Nothing,
        r is ListenAtBridge ==> m.caller_answer_uses_media_bridge && m.media_bridge,
        r is Start ==> !m.caller_answer_uses_media_bridge && monitor != MonitorState::Running,
        r is StopOnly ==> m.caller_answer_uses_media_bridge && !m.media_bridge && monitor
            != MonitorState::Absent,
        !connected && m.answer is Some && negotiated is Some && !m.caller_answer_uses_media_bridge
            && monitor != MonitorState::Running ==> r is Start,
        !connected && m.answer is Some && negotiated is Some && m.caller_answer_uses_media_bridge
            && m.media_bridge ==> r is ListenAtBridge,
        r is ListenAtBridge ==> (r->ListenAtBridge_stop_old <==> monitor != MonitorState::Absent),
        r is Start ==> (r->Start_stop_old <==> monitor == MonitorState::Finished),
{
}

/// A re-INVITE without a description is answered with what stands; one with a description is
/// passed to every dialog of the callee, and is kept as the caller's offer where media runs
/// through the proxy.
pub proof fn reinvite_goes_to_every_callee_dialog()
    ensures
        forall|
            m: &mut MediaState,
            path: MediaPathMode,
            sdp: Option<String>,
            dialogs: DialogSet,
            r: Result<ReinvitePlan, String>,
        | #[trigger]
            call_ensures(handle_reinvite, (m, path, ReinviteMethod::Invite, sdp, &dialogs), r)
                ==> {
                &&& sdp is None ==> r == Ok::<ReinvitePlan, String>(
                    ReinvitePlan::Standing { answer: m.answer },
                ) && *final(m) == *m
                &&& sdp is Some && dialogs@ == Set::<Seq<char>>::empty() ==> r is Err
                &&& sdp is Some && dialogs@ != Set::<Seq<char>>::empty() ==> r is Ok
                    && r->Ok_0 is PassOn && r->Ok_0->PassOn_offer == sdp->0 && text::views(
                    r->Ok_0->PassOn_dialogs@,
                ).to_set() == dialogs@
                &&& sdp is Some && !crate::media::bypasses(*m, path) ==> final(m).caller_offer
                    == sdp
                &&& crate::media::bypasses(*m, path) ==> *final(m) == *m
                &&& final(m).answer == m.answer
            },
{
}

/// Digits that went out are added to those of the call, in their order; digits that did not
/// leave the call as it is.
pub proof fn sent_digits_are_noted()
    ensures
        forall|
            s: &mut SipSession,
            leg_id: &str,
            digits: Vec<char>,
            sent: DtmfSent,
            r: Result<(), String>,
        | #[trigger]
            call_ensures(SipSession::finish_send_dtmf, (s, leg_id, &digits, sent), r) ==> {
                &&& r is Ok <==> sent is Sent
                &&& r is Ok ==> final(s).dtmf_digits@ == s.dtmf_digits@ + digits@
                &&& r is Err ==> *final(s) == *s
                &&& final(s).legs == s.legs && final(s).media == s.media && final(s).call == s.call
            },
        forall|s: &mut SipSession, answered: bool| #[trigger]
            call_ensures(SipSession::early_media_prepared, (s, answered), ()) ==> {
                &&& final(s).media.early_media_sent == (s.media.early_media_sent || answered)
                &&& final(s).media.answer == s.media.answer
                &&& final(s).legs == s.legs && final(s).call == s.call
            },
{
}

/// A snapshot shows the call as it is; media to the caller is held back only
/// on a bridge.
pub proof fn snapshot_shows_the_call(s: SipSession, open: SessionSnapshot, shut: SessionSnapshot)
    requires
        call_ensures(SipSession::snapshot, (&s, true), open),
        call_ensures(SipSession::snapshot, (&s, false), shut),
    ensures
        open.id == s.id && open.state == s.state && open.media_path == s.path,
        open.answer_sdp == s.media.answer && open.bridge_active == s.bridge.active,
        open.leg_count == s.legs.states.entries@.len(),
        text::views(open.callee_dialogs@).to_set() == s.call.callee_dialogs@,
        open.caller_gate_open,
        shut.caller_gate_open <==> !s.media.media_bridge,
{
}

/// The record of a call tells each thing as the call has it: its times, its parties before
/// and after routing, who answered, and why it ended.
pub proof fn record_tells_the_call_as_it_was(
    s: SipSession,
    caller: String,
    callee: String,
    metadata: Option<Table<String>>,
    r: CallSessionRecordSnapshot,
)
    requires
        call_ensures(SipSession::record_snapshot, (&s, &caller, &callee, metadata), r),
    ensures
        r.original_caller == Some(caller) && r.original_callee == Some(callee),
        r.routed_caller == s.meta.routed_caller && r.routed_callee == s.meta.routed_callee,
        r.routed_contact == s.meta.routed_contact && r.routed_destination
            == s.meta.routed_destination,
        r.ring_time == s.meta.ring_time && r.answer_time == s.meta.answer_time,
        r.connected_callee == s.call.connected_callee && r.hangup_reason == s.call.hangup_reason,
        r.last_error == s.call.last_error && r.last_queue_name == s.queue_name,
        r.server_dialog_id == s.call.caller_dialog,
        text::views(r.callee_call_ids@).to_set() == s.meta.callee_call_ids@,
{
}

/// A callee that connects is the connected one, with its dialog; the caller's side of the call
/// stays, and so does its media.
pub proof fn connected_callee_is_noted()
    ensures
        forall|s: &mut SipSession, callee: String, dialog: String| #[trigger]
            call_ensures(SipSession::on_connected, (s, callee, dialog), ()) ==> {
                &&& final(s).call.connected_callee == Some(callee)
                &&& final(s).call.connected_dialog == Some(dialog)
                &&& final(s).call.callee_dialogs@.contains(dialog@)
                &&& final(s).call.hangup_reason == s.call.hangup_reason
                &&& final(s).call.caller_dialog == s.call.caller_dialog
                &&& final(s).media == s.media && final(s).timers == s.timers
            },
        forall|s: &mut SipSession, callee: Option<String>| #[trigger]
            call_ensures(SipSession::accepting, (s, callee), ()) ==> {
                &&& final(s).call.connected_callee == callee
                &&& final(s).call.connected_dialog == s.call.connected_dialog
                &&& final(s).media == s.media
            },
{
}

/// At its end a call gives up its recording, its bridge, its dialogs and its timers, and keeps
/// why it ended.
pub proof fn ended_call_gives_up_what_it_holds(dialog: Seq<char>)
    ensures
        forall|s: &mut SipSession, r: CleanUp| #[trigger]
            call_ensures(SipSession::clean_up, (s,), r) ==> {
                &&& final(s).recording is Idle
                &&& r.recording is Some <==> !(s.recording is Idle)
                &&& r.stop_bridge == s.media.media_bridge && !final(s).media.media_bridge
                &&& text::views(r.dialogs@).to_set() == s.call.pending_hangup@
                &&& !final(s).call.callee_dialogs@.contains(dialog)
                &&& final(s).call.connected_dialog is None
                &&& final(s).timers.timers.value(dialog) is None
                &&& final(s).call.hangup_reason == s.call.hangup_reason
                &&& final(s).meta == s.meta && final(s).media.answer == s.media.answer
            },
{
}

/// Progress is played only over a bridge and in a codec that there is; nothing changes where
/// it is not.
pub proof fn progress_is_played_over_a_bridge()
    ensures
        forall|s: &mut SipSession, has_codec: bool, r: bool| #[trigger]
            call_ensures(SipSession::start_progress_media, (s, has_codec), r) ==> {
                &&& r <==> s.media.media_bridge && has_codec
                &&& !r ==> *final(s) == *s
                &&& r ==> final(s).playback@.contains("progress-media"@)
                &&& final(s).call == s.call && final(s).legs == s.legs
            },
{
}

/// A leg whose answer or rejection went out is connected or ended; one whose did not is as it
/// was, and the command fails with why.
pub proof fn leg_moves_once_its_answer_is_out()
    ensures
        forall|s: &mut SipSession, leg: &str, accepted: Result<(), String>, r: CommandResult|
            #[trigger]
            call_ensures(SipSession::finish_answer, (s, leg, accepted), r) ==> {
                &&& accepted is Ok ==> r.outcome is Success
                &&& accepted is Ok && s.legs.leg(leg@) is Some ==> final(s).legs.leg(leg@) is Some
                    && final(s).legs.leg(leg@)->0.state == LegState::Connected
                &&& accepted matches Err(e) ==> r.outcome == CommandOutcome::Failure(e)
                    && *final(s) == *s
                &&& final(s).media == s.media && final(s).call == s.call
            },
        forall|s: &mut SipSession, leg: &str, sent: Result<(), String>, r: CommandResult|
            #[trigger]
            call_ensures(SipSession::finish_reject, (s, leg, sent), r) ==> {
                &&& sent is Ok ==> r.outcome is Success
                &&& sent is Ok && s.legs.leg(leg@) is Some ==> final(s).legs.leg(leg@) is Some
                    && final(s).legs.leg(leg@)->0.state == LegState::Ended
                &&& sent is Err ==> r.outcome is Failure && *final(s) == *s
                &&& final(s).media == s.media && final(s).call == s.call
            },
{
}

} // verus!
