//! The commands of a call: what they are, what an INFO request makes of its body, and
//! what comes back.

use crate::json::{
    at, bool_at, get_at, get_bool, get_number, get_text, low32, number_at, parse_json, parsed_json,
    text_at, to_low32, value_of, Json, JsonNumber,
};
use crate::legs::HangupCascade;
use crate::playback::{MediaSource, PlayOptions, RingbackPolicy, SourceView};
use crate::text;
use vstd::prelude::*;

verus! {

/// How a recording is made.
pub struct RecordConfig {
    pub path: String,
    pub max_duration_secs: Option<u32>,
    pub beep: bool,
    pub format: Option<String>,
}

/// How a supervisor takes part in a call.
#[derive(Clone, Copy, PartialEq, Eq, Debug, Structural)]
pub enum SupervisorMode {
    Listen,
    Whisper,
    Barge,
    Takeover,
}

/// What is asked of a conference.
#[derive(Clone, Copy, PartialEq, Eq, Debug, Structural)]
pub enum ConferenceAction {
    Create,
    Add,
    Remove,
    Mute,
    Unmute,
    Destroy,
    End,
    Kick,
    MuteAll,
    Info,
    List,
}

/// A command to a call.
#[allow(inconsistent_fields)]
pub enum CallCommand {
    Answer { leg_id: String },
    Hangup { cascade: HangupCascade, reason: Option<String> },
    Bridge { leg_a: String, leg_b: String },
    Unbridge,
    Hold { leg_id: String, music: Option<MediaSource> },
    Unhold { leg_id: String },
    StartApp { app_name: String, params: Option<Json>, auto_answer: bool },
    StopApp { reason: Option<String> },
    InjectAppEvent { event: Json },
    Play { leg_id: Option<String>, source: MediaSource, options: Option<PlayOptions> },
    StopPlayback { leg_id: Option<String> },
    StartRecording { config: RecordConfig },
    StopRecording,
    PauseRecording,
    ResumeRecording,
    Transfer { leg_id: String, target: String, attended: bool },
    TransferComplete { consult_leg: String },
    TransferCancel { consult_leg: String },
    TransferCompleteCrossSession {
        from_session: String,
        leg_id: String,
        into_conference: Option<String>,
    },
    BridgeCrossSession { session_a: String, leg_a: String, session_b: String, leg_b: String },
    Supervise {
        mode: SupervisorMode,
        supervisor_leg: String,
        target_leg: String,
        supervisor_session_id: Option<String>,
    },
    SupervisorStop { supervisor_leg: String },
    Conference { action: ConferenceAction, conf_id: String, leg_id: Option<String> },
    QueueEnqueue { leg_id: String, queue_id: String, priority: Option<u32> },
    QueueDequeue { leg_id: String },
    Reject { leg_id: String, reason: Option<String> },
    Ring { leg_id: String, ringback: Option<RingbackPolicy> },
    SendDtmf { leg_id: String, digits: String },
    HandleReInvite { leg_id: String, sdp: String },
    MuteTrack { track_id: String },
    UnmuteTrack { track_id: String },
    SendSipMessage { content_type: String, body: String },
    SendSipNotify { event: String, content_type: String, body: String },
    SendSipOptionsPing,
    JoinMixer { mixer_id: String },
    LeaveMixer,
    LegAdd { target: String, leg_id: Option<String> },
    LegRemove { leg_id: String },
    LegConnected { leg_id: String, answer_sdp: Option<String> },
    LegRinging { leg_id: String, sdp: Option<String> },
    LegFailed { leg_id: String, reason: String },
    /// A command that calls do not have.
    Unknown,
}

/// How a command went.
pub enum CommandOutcome {
    Success,
    SuccessWithData(Json),
    SuccessWithLeg(String),
    Failure(String),
    Degraded(String),
    NotSupported(String),
}

/// What comes back for a command.
pub struct CommandResult {
    pub outcome: CommandOutcome,
    /// The command was carried out with less than it asked for, and why.
    pub degradation: Option<String>,
}

impl CommandResult {
    pub fn of(outcome: CommandOutcome) -> (r: CommandResult)
        ensures
            r.outcome == outcome,
            r.degradation is None,
    {
        CommandResult { outcome, degradation: None }
    }

    pub fn success() -> (r: CommandResult)
        ensures
            r.outcome is Success,
            r.degradation is None,
    {
        CommandResult::of(CommandOutcome::Success)
    }

    pub fn failure(message: String) -> (r: CommandResult)
        ensures
            r.outcome == CommandOutcome::Failure(message),
            r.degradation is None,
    {
        CommandResult::of(CommandOutcome::Failure(message))
    }
}

/// What comes back for a handler that only says whether it went well.
pub fn ok_or_failure(result: Result<(), String>) -> (r: CommandResult)
    ensures
        r.degradation is None,
        r.outcome == (match result {
            Ok(()) => CommandOutcome::Success,
            Err(e) => CommandOutcome::Failure(e),
        }),
{
    match result {
        Ok(()) => CommandResult::success(),
        Err(e) => CommandResult::failure(e),
    }
}

/// What the media of a call let a command do.
pub enum MediaCapabilityCheck {
    Allowed,
    Degraded { reason: String },
    Denied { reason: String },
}

/// What comes back without the command being carried out, where it must not be.
pub fn denied(check: &MediaCapabilityCheck) -> (r: Option<CommandResult>)
    ensures
        r is Some <==> check is Denied,
        r matches Some(result) ==> result.outcome == CommandOutcome::Degraded(
            check->Denied_reason,
        ) && result.degradation is None,
{
    match check {
        MediaCapabilityCheck::Denied { reason } => Some(
            CommandResult::of(CommandOutcome::Degraded(reason.clone())),
        ),
        _ => None,
    }
}

/// The result of a command that was carried out, with the note that it was degraded where
/// it was.
pub fn note_degradation(check: MediaCapabilityCheck, result: CommandResult) -> (r: CommandResult)
    ensures
        r.outcome == result.outcome,
        r.degradation == (match check {
            MediaCapabilityCheck::Degraded { reason } => Some(reason),
            _ => result.degradation,
        }),
{
    match check {
        MediaCapabilityCheck::Degraded { reason } => CommandResult {
            outcome: result.outcome,
            degradation: Some(reason),
        },
        _ => result,
    }
}

/// The source that a JSON value names, with `source_type` and `uri` or `uris`.
pub open spec fn info_source(src: Json) -> Option<SourceView> {
    let kind = match text_at(Some(src), "source_type"@) {
        Some(t) => t,
        None => "file"@,
    };
    if kind == "files"@ {
        match at(Some(src), "uris"@) {
            Some(Json::List(items)) => if items@.len() > 0 && items@[0].text() is Some {
                Some(SourceView::File(items@[0].text()->0))
            } else {
                None
            },
            _ => None,
        }
    } else if kind == "url"@ {
        match text_at(Some(src), "uri"@) {
            Some(uri) => Some(SourceView::Url(uri)),
            None => None,
        }
    } else if kind == "file"@ {
        match text_at(Some(src), "uri"@) {
            Some(uri) => Some(SourceView::File(uri)),
            None => None,
        }
    } else if kind == "silence"@ {
        Some(SourceView::Silence)
    } else {
        None
    }
}

/// Reads a media source.
pub fn parse_info_media_source(src: &Json) -> (r: Option<MediaSource>)
    ensures
        r is Some <==> info_source(*src) is Some,
        r matches Some(s) ==> info_source(*src) == Some(s@),
{
    let kind = match get_text(Some(src), "source_type") {
        Some(t) => t,
        None => "file".to_owned(),
    };
    proof {
        reveal_strlit("file");
        reveal_strlit("url");
        reveal_strlit("files");
        reveal_strlit("silence");
    }
    if text::same(&kind, "files") {
        match get_at(Some(src), "uris") {
            Some(Json::List(items)) => {
                if items.len() == 0 {
                    return None;
                }
                match items[0].as_str() {
                    Some(uri) => Some(MediaSource::File { path: uri.clone() }),
                    None => None,
                }
            },
            _ => None,
        }
    } else if text::same(&kind, "url") {
        match get_text(Some(src), "uri") {
            Some(uri) => Some(MediaSource::Url { url: uri }),
            None => None,
        }
    } else if text::same(&kind, "file") {
        match get_text(Some(src), "uri") {
            Some(uri) => Some(MediaSource::File { path: uri }),
            None => None,
        }
    } else if text::same(&kind, "silence") {
        Some(MediaSource::Silence)
    } else {
        None
    }
}

/// The action that a command names.
pub open spec fn info_action(parsed: Json) -> Seq<char> {
    match text_at(Some(parsed), "action"@) {
        Some(a) => a,
        None => match text_at(Some(parsed), "cmd"@) {
            Some(c) => c,
            None => ""@,
        },
    }
}

pub open spec fn text_or(t: Option<Seq<char>>, other: Seq<char>) -> Seq<char> {
    match t {
        Some(s) => s,
        None => other,
    }
}

pub open spec fn bool_or(b: Option<bool>, other: bool) -> bool {
    match b {
        Some(v) => v,
        None => other,
    }
}

/// The leg of a consultation: as named, else the call, else the caller.
pub open spec fn consult_leg(parsed: Json) -> Seq<char> {
    text_or(
        text_at(at(Some(parsed), "params"@), "leg_id"@),
        text_or(text_at(Some(parsed), "call_id"@), "caller"@),
    )
}

/// The source of what is played; silence where none can be read.
pub open spec fn play_source(params: Option<Json>) -> SourceView {
    match at(params, "source"@) {
        Some(src) => match info_source(src) {
            Some(s) => s,
            None => SourceView::Silence,
        },
        None => SourceView::Silence,
    }
}

/// The command is the one that plays what the parameters ask for.
pub open spec fn is_play_command(cmd: Option<CallCommand>, params: Option<Json>) -> bool {
    &&& cmd matches Some(CallCommand::Play { leg_id, source, options })
    &&& text::opt_text(leg_id) == text_at(params, "leg_id"@)
    &&& source@ == play_source(params)
    &&& options matches Some(o)
    &&& o.loop_playback == bool_or(bool_at(params, "loop"@), false)
    &&& o.interrupt_on_dtmf == bool_or(bool_at(params, "interrupt_on_dtmf"@), false)
    &&& !o.await_completion
    &&& o.track_id is None
    &&& !o.send_progress
}

/// The command is the one that records as the parameters ask for.
pub open spec fn is_record_command(cmd: Option<CallCommand>, params: Option<Json>) -> bool {
    &&& cmd matches Some(CallCommand::StartRecording { config })
    &&& config.path@ == text_or(text_at(params, "path"@), ""@)
    &&& config.max_duration_secs == (match number_at(params, "max_duration"@) {
        Some(n) => Some(low32(n)),
        None => None,
    })
    &&& config.beep == bool_or(bool_at(params, "beep"@), true)
    &&& text::opt_text(config.format) == text_at(params, "format"@)
}

pub open spec fn is_hold_command(cmd: Option<CallCommand>, leg: Seq<char>) -> bool {
    cmd matches Some(CallCommand::Hold { leg_id, music }) && leg_id@ == leg && music is None
}

pub open spec fn is_unhold_command(cmd: Option<CallCommand>, leg: Seq<char>) -> bool {
    cmd matches Some(CallCommand::Unhold { leg_id }) && leg_id@ == leg
}

/// The command is what the JSON body of an INFO request asks for; an action that is not
/// known asks for nothing.
pub open spec fn is_info_command(cmd: Option<CallCommand>, parsed: Json) -> bool {
    let action = info_action(parsed);
    let params = at(Some(parsed), "params"@);
    if action == "media.play"@ || action == "media.inject_start"@ {
        is_play_command(cmd, params)
    } else if action == "media.stop"@ || action == "media.inject_stop"@ {
        cmd matches Some(CallCommand::StopPlayback { leg_id }) && text::opt_text(leg_id) == text_at(
            params,
            "leg_id"@,
        )
    } else if action == "record.start"@ {
        is_record_command(cmd, params)
    } else if action == "record.stop"@ {
        cmd matches Some(CallCommand::StopRecording)
    } else if action == "hold"@ {
        is_hold_command(cmd, text_or(text_at(params, "leg_id"@), "caller"@))
    } else if action == "unhold"@ {
        is_unhold_command(cmd, text_or(text_at(params, "leg_id"@), "caller"@))
    } else if action == "consult.initiate"@ {
        is_hold_command(cmd, consult_leg(parsed))
    } else if action == "consult.cancel"@ {
        is_unhold_command(cmd, consult_leg(parsed))
    } else {
        cmd is None
    }
}

fn or_text(t: Option<String>, other: &str) -> (r: String)
    ensures
        r@ == text_or(text::opt_text(t), other@),
{
    match t {
        Some(s) => s,
        None => other.to_owned(),
    }
}

fn or_bool(b: Option<bool>, other: bool) -> (r: bool)
    ensures
        r == bool_or(b, other),
{
    match b {
        Some(v) => v,
        None => other,
    }
}

fn play_command(params: Option<&Json>) -> (r: CallCommand)
    ensures
        is_play_command(Some(r), value_of(params)),
{
    let source = match get_at(params, "source") {
        Some(src) => match parse_info_media_source(src) {
            Some(s) => s,
            None => MediaSource::Silence,
        },
        None => MediaSource::Silence,
    };
    CallCommand::Play {
        leg_id: get_text(params, "leg_id"),
        source,
        options: Some(
            PlayOptions {
                loop_playback: or_bool(get_bool(params, "loop"), false),
                await_completion: false,
                interrupt_on_dtmf: or_bool(get_bool(params, "interrupt_on_dtmf"), false),
                track_id: None,
                send_progress: false,
            },
        ),
    }
}

fn record_command(params: Option<&Json>) -> (r: CallCommand)
    ensures
        is_record_command(Some(r), value_of(params)),
{
    let max_duration_secs = match get_number(params, "max_duration") {
        Some(n) => Some(to_low32(n)),
        None => None,
    };
    CallCommand::StartRecording {
        config: RecordConfig {
            path: or_text(get_text(params, "path"), ""),
            max_duration_secs,
            beep: or_bool(get_bool(params, "beep"), true),
            format: get_text(params, "format"),
        },
    }
}

fn consult_leg_id(parsed: &Json) -> (r: String)
    ensures
        r@ == consult_leg(*parsed),
{
    let params = get_at(Some(parsed), "params");
    match get_text(params, "leg_id") {
        Some(l) => l,
        None => or_text(get_text(Some(parsed), "call_id"), "caller"),
    }
}

/// The command that the JSON body of an INFO request asks for.
pub fn info_command(parsed: &Json) -> (r: Option<CallCommand>)
    ensures
        is_info_command(r, *parsed),
{
    let action = match get_text(Some(parsed), "action") {
        Some(a) => a,
        None => or_text(get_text(Some(parsed), "cmd"), ""),
    };
    let params = get_at(Some(parsed), "params");
    if text::same(&action, "media.play") || text::same(&action, "media.inject_start") {
        Some(play_command(params))
    } else if text::same(&action, "media.stop") || text::same(&action, "media.inject_stop") {
        Some(CallCommand::StopPlayback { leg_id: get_text(params, "leg_id") })
    } else if text::same(&action, "record.start") {
        Some(record_command(params))
    } else if text::same(&action, "record.stop") {
        Some(CallCommand::StopRecording)
    } else if text::same(&action, "hold") {
        Some(
            CallCommand::Hold {
                leg_id: or_text(get_text(params, "leg_id"), "caller"),
                music: None,
            },
        )
    } else if text::same(&action, "unhold") {
        Some(CallCommand::Unhold { leg_id: or_text(get_text(params, "leg_id"), "caller") })
    } else if text::same(&action, "consult.initiate") {
        Some(CallCommand::Hold { leg_id: consult_leg_id(parsed), music: None })
    } else if text::same(&action, "consult.cancel") {
        Some(CallCommand::Unhold { leg_id: consult_leg_id(parsed) })
    } else {
        None
    }
}

/// The command that the body of an INFO request asks for; none where it is not JSON.
pub fn info_command_text(body: &str) -> (r: Option<CallCommand>)
    ensures
        parsed_json(body@) is None ==> r is None,
        parsed_json(body@) matches Some(c) ==> exists|parsed: Json|
            parsed.contents() == c && #[trigger] is_info_command(r, parsed),
{
    match parse_json(body) {
        Some(parsed) => info_command(&parsed),
        None => None,
    }
}

/// A consultation that is cancelled takes off hold the leg that its start put on hold.
pub proof fn consult_cancel_undoes_consult(
    start: CallCommand,
    cancel: CallCommand,
    asked: Json,
    withdrawn: Json,
)
    requires
        info_action(asked) == "consult.initiate"@,
        info_action(withdrawn) == "consult.cancel"@,
        consult_leg(asked) == consult_leg(withdrawn),
        is_info_command(Some(start), asked),
        is_info_command(Some(cancel), withdrawn),
    ensures
        start matches CallCommand::Hold { leg_id: held, .. } && cancel matches CallCommand::Unhold {
            leg_id: released,
        } && held@ == released@,
{
    reveal_strlit("media.play");
    reveal_strlit("media.inject_start");
    reveal_strlit("media.stop");
    reveal_strlit("media.inject_stop");
    reveal_strlit("record.start");
    reveal_strlit("record.stop");
    reveal_strlit("hold");
    reveal_strlit("unhold");
    reveal_strlit("consult.initiate");
    reveal_strlit("consult.cancel");
    assert(info_action(asked).len() == 16);
    assert(info_action(withdrawn).len() == 14);
    assert("media.play"@.len() == 10 && "media.inject_start"@.len() == 18);
    assert("media.stop"@.len() == 10 && "media.inject_stop"@.len() == 17);
    assert("record.start"@.len() == 12 && "record.stop"@.len() == 11);
    assert("hold"@.len() == 4 && "unhold"@.len() == 6);
    assert(is_hold_command(Some(start), consult_leg(asked)));
    assert(is_unhold_command(Some(cancel), consult_leg(withdrawn)));
}

/// What happened to an agent's leg that failed.
#[derive(Clone, Copy, PartialEq, Eq, Debug, Structural)]
pub enum AgentEvent {
    Busy,
    NoAnswer,
}

impl AgentEvent {
    pub fn name(&self) -> (r: &'static str)
        ensures
            r@ == (match *self {
                AgentEvent::Busy => "agent_busy"@,
                AgentEvent::NoAnswer => "agent_no_answer"@,
            }),
    {
        match self {
            AgentEvent::Busy => "agent_busy",
            AgentEvent::NoAnswer => "agent_no_answer",
        }
    }
}

/// The reason says that the agent is busy.
pub open spec fn says_busy(reason: Seq<char>, small: Seq<char>) -> bool {
    text::contains(reason, "486"@) || text::contains(small, "busy"@)
}

/// What happened to an agent, by the reason and by the reason in small letters.
pub fn agent_event_from(reason: &str, small: &str) -> (r: AgentEvent)
    ensures
        r == (if says_busy(reason@, small@) {
            AgentEvent::Busy
        } else {
            AgentEvent::NoAnswer
        }),
{
    if text::has(reason, "486") || text::has(small, "busy") {
        AgentEvent::Busy
    } else {
        AgentEvent::NoAnswer
    }
}

/// What happened to an agent whose leg failed for this reason.
pub fn agent_event(reason: &str) -> (r: AgentEvent)
    ensures
        r == (if says_busy(reason@, text::lowercase(reason@)) {
            AgentEvent::Busy
        } else {
            AgentEvent::NoAnswer
        }),
{
    let small = text::to_lowercase(reason);
    agent_event_from(reason, &small)
}

/// A participant of a conference.
pub struct Participant {
    pub leg_id: String,
    pub muted: bool,
}

/// A conference.
pub struct Room {
    pub conf_id: String,
    pub participants: Vec<Participant>,
    pub locked: bool,
}

pub open spec fn is_text_entry(entry: (String, Json), key: Seq<char>, value: Seq<char>) -> bool {
    entry.0@ == key && entry.1.text() == Some(value)
}

pub open spec fn is_participant(j: Json, p: Participant) -> bool {
    &&& j matches Json::Object(e)
    &&& e@.len() == 2
    &&& is_text_entry(e@[0], "leg_id"@, p.leg_id@)
    &&& e@[1].0@ == "muted"@ && e@[1].1 == Json::Bool(p.muted)
}

pub open spec fn are_participants(items: Seq<Json>, ps: Seq<Participant>) -> bool {
    items.len() == ps.len() && forall|i: int|
        0 <= i < items.len() ==> is_participant(#[trigger] items[i], ps[i])
}

/// The value tells of a conference: its name, how many take part, and who.
pub open spec fn is_room_info(j: Json, room: Room) -> bool {
    &&& j matches Json::Object(e)
    &&& e@.len() == 3
    &&& is_text_entry(e@[0], "conf_id"@, room.conf_id@)
    &&& e@[1].0@ == "participant_count"@ && e@[1].1 == Json::Number(
        JsonNumber::Unsigned(room.participants@.len() as u64),
    )
    &&& e@[2].0@ == "participants"@
    &&& e@[2].1 matches Json::List(items)
    &&& are_participants(items@, room.participants@)
}

/// What is told of a conference.
pub fn room_info(room: &Room) -> (r: Json)
    ensures
        is_room_info(r, *room),
{
    let mut items: Vec<Json> = Vec::new();
    let mut i: usize = 0;
    while i < room.participants.len()
        invariant
            i <= room.participants@.len(),
            items@.len() == i,
            forall|j: int|
                0 <= j < i ==> is_participant(#[trigger] items@[j], room.participants@[j]),
        decreases room.participants@.len() - i,
    {
        let p = &room.participants[i];
        let mut entry: Vec<(String, Json)> = Vec::new();
        entry.push(("leg_id".to_owned(), Json::Text(p.leg_id.clone())));
        entry.push(("muted".to_owned(), Json::Bool(p.muted)));
        items.push(Json::Object(entry));
        i += 1;
    }
    let count: u64 = room.participants.len() as u64;
    let mut data: Vec<(String, Json)> = Vec::new();
    data.push(("conf_id".to_owned(), Json::Text(room.conf_id.clone())));
    data.push(("participant_count".to_owned(), Json::Number(JsonNumber::Unsigned(count))));
    data.push(("participants".to_owned(), Json::List(items)));
    Json::Object(data)
}

/// The value tells of a conference among others: its name, how many take part, and
/// whether it is locked.
pub open spec fn is_room_entry(j: Json, room: Room) -> bool {
    &&& j matches Json::Object(e)
    &&& e@.len() == 3
    &&& is_text_entry(e@[0], "conf_id"@, room.conf_id@)
    &&& e@[1].0@ == "participant_count"@ && e@[1].1 == Json::Number(
        JsonNumber::Unsigned(room.participants@.len() as u64),
    )
    &&& e@[2].0@ == "locked"@ && e@[2].1 == Json::Bool(room.locked)
}

pub open spec fn is_room_list(j: Json, rooms: Seq<Room>) -> bool {
    j matches Json::List(items) && items@.len() == rooms.len() && forall|i: int|
        0 <= i < items@.len() ==> is_room_entry(#[trigger] items@[i], rooms[i])
}

/// What is told of all conferences.
pub fn room_list(rooms: &Vec<Room>) -> (r: Json)
    ensures
        is_room_list(r, rooms@),
{
    let mut items: Vec<Json> = Vec::new();
    let mut i: usize = 0;
    while i < rooms.len()
        invariant
            i <= rooms@.len(),
            items@.len() == i,
            forall|j: int| 0 <= j < i ==> is_room_entry(#[trigger] items@[j], rooms@[j]),
        decreases rooms@.len() - i,
    {
        let room = &rooms[i];
        let count: u64 = room.participants.len() as u64;
        let mut entry: Vec<(String, Json)> = Vec::new();
        entry.push(("conf_id".to_owned(), Json::Text(room.conf_id.clone())));
        entry.push(("participant_count".to_owned(), Json::Number(JsonNumber::Unsigned(count))));
        entry.push(("locked".to_owned(), Json::Bool(room.locked)));
        items.push(Json::Object(entry));
        i += 1;
    }
    Json::List(items)
}

/// What came of carrying out a command.
pub enum CommandReply {
    Plain(Result<(), String>),
    /// An event was handed to the application, or could not be.
    Injected(Result<(), String>),
    /// A leg was added, under this name.
    LegAdded(Result<String, String>),
    RoomFound(Result<Room, String>),
    Rooms(Vec<Room>),
}

/// The result is what comes back for the reply: a conference and the list of all are told
/// of, an added leg is named, and an event that no application takes only degrades.
pub open spec fn is_result_of(r: CommandResult, reply: CommandReply) -> bool {
    &&& r.degradation is None
    &&& match reply {
        CommandReply::Plain(Ok(())) => r.outcome is Success,
        CommandReply::Plain(Err(e)) => r.outcome == CommandOutcome::Failure(e),
        CommandReply::Injected(Ok(())) => r.outcome is Success,
        CommandReply::Injected(Err(e)) => r.outcome == CommandOutcome::Degraded(e),
        CommandReply::LegAdded(Ok(leg)) => r.outcome == CommandOutcome::SuccessWithLeg(leg),
        CommandReply::LegAdded(Err(e)) => r.outcome == CommandOutcome::Failure(e),
        CommandReply::RoomFound(Ok(room)) => r.outcome matches CommandOutcome::SuccessWithData(d)
            && is_room_info(d, room),
        CommandReply::RoomFound(Err(e)) => r.outcome == CommandOutcome::Failure(e),
        CommandReply::Rooms(rooms) => r.outcome matches CommandOutcome::SuccessWithData(d)
            && is_room_list(d, rooms@),
    }
}

/// What comes back for a command that was carried out.
pub fn command_result(reply: CommandReply) -> (r: CommandResult)
    ensures
        is_result_of(r, reply),
{
    match reply {
        CommandReply::Plain(result) => ok_or_failure(result),
        CommandReply::Injected(result) => match result {
            Ok(()) => CommandResult::success(),
            Err(e) => CommandResult::of(CommandOutcome::Degraded(e)),
        },
        CommandReply::LegAdded(result) => match result {
            Ok(leg) => CommandResult::of(CommandOutcome::SuccessWithLeg(leg)),
            Err(e) => CommandResult::failure(e),
        },
        CommandReply::RoomFound(result) => match result {
            Ok(room) => CommandResult::of(CommandOutcome::SuccessWithData(room_info(&room))),
            Err(e) => CommandResult::failure(e),
        },
        CommandReply::Rooms(rooms) => CommandResult::of(
            CommandOutcome::SuccessWithData(room_list(&rooms)),
        ),
    }
}

/// The value tells the application that a track ended, and whether it was cut short.
pub open spec fn tells_audio_complete(j: Json, track: Seq<char>, interrupted: bool) -> bool {
    &&& j matches Json::Object(e)
    &&& e@.len() == 3
    &&& is_text_entry(e@[0], "type"@, "audio_complete"@)
    &&& is_text_entry(e@[1], "track_id"@, track)
    &&& e@[2].0@ == "interrupted"@ && e@[2].1 == Json::Bool(interrupted)
}

/// What the application is told once a track ended.
pub fn audio_complete(track_id: &str, interrupted: bool) -> (r: Json)
    ensures
        tells_audio_complete(r, track_id@, interrupted),
{
    let mut data: Vec<(String, Json)> = Vec::new();
    data.push(("type".to_owned(), Json::Text("audio_complete".to_owned())));
    data.push(("track_id".to_owned(), Json::Text(track_id.to_owned())));
    data.push(("interrupted".to_owned(), Json::Bool(interrupted)));
    Json::Object(data)
}

/// The word that an INFO request names as its action decides the command, whatever its
/// parameters: two words play, two stop playing, two put on hold and two take off it, one
/// starts and one stops a recording, and every other word asks for nothing.
pub proof fn action_decides_the_command(cmd: Option<CallCommand>, parsed: Json)
    requires
        is_info_command(cmd, parsed),
    ensures
        ({
            let word = info_action(parsed);
            &&& (cmd matches Some(CallCommand::Play { .. })) <==> word == "media.play"@ || word
                == "media.inject_start"@
            &&& (cmd matches Some(CallCommand::StopPlayback { .. })) <==> word == "media.stop"@ || word
                == "media.inject_stop"@
            &&& (cmd matches Some(CallCommand::StartRecording { .. })) <==> word == "record.start"@
            &&& (cmd matches Some(CallCommand::StopRecording)) <==> word == "record.stop"@
            &&& (cmd matches Some(CallCommand::Hold { .. })) <==> word == "hold"@ || word
                == "consult.initiate"@
            &&& (cmd matches Some(CallCommand::Unhold { .. })) <==> word == "unhold"@ || word
                == "consult.cancel"@
            &&& cmd is None <==> !(cmd matches Some(CallCommand::Play { .. })) && !(
            cmd matches Some(CallCommand::StopPlayback { .. })) && !(
            cmd matches Some(CallCommand::StartRecording { .. })) && !(
            cmd matches Some(CallCommand::StopRecording)) && !(
            cmd matches Some(CallCommand::Hold { .. })) && !(
            cmd matches Some(CallCommand::Unhold { .. }))
        }),
{
    reveal_strlit("media.play");
    reveal_strlit("media.inject_start");
    reveal_strlit("media.stop");
    reveal_strlit("media.inject_stop");
    reveal_strlit("record.start");
    reveal_strlit("record.stop");
    reveal_strlit("hold");
    reveal_strlit("unhold");
    reveal_strlit("consult.initiate");
    reveal_strlit("consult.cancel");
    assert("media.play"@.len() == 10);
    assert("media.inject_start"@.len() == 18);
    assert("media.stop"@.len() == 10);
    assert("media.inject_stop"@.len() == 17);
    assert("record.start"@.len() == 12);
    assert("record.stop"@.len() == 11);
    assert("hold"@.len() == 4);
    assert("unhold"@.len() == 6);
    assert("consult.initiate"@.len() == 16);
    assert("consult.cancel"@.len() == 14);
    assert("media.play"@[6] == 'p');
    assert("media.stop"@[6] == 's');
}

/// The action of a command is the text under `action`; one under `cmd` counts only where
/// there is no such text, and without either there is none.
pub proof fn action_is_named_before_the_old_name(parsed: Json)
    ensures
        parsed.member("action"@) matches Some(Json::Text(t)) ==> info_action(parsed) == t@,
        !(parsed.member("action"@) is Some && parsed.member("action"@)->0 is Text) ==> (
        parsed.member("cmd"@) matches Some(Json::Text(t)) ==> info_action(parsed) == t@),
        parsed.member("action"@) is None && parsed.member("cmd"@) is None ==> info_action(parsed).len()
            == 0,
{
    reveal_strlit("");
}

/// The leg of a command is the one that its parameters name. Without one, playing is for
/// no leg in particular and hold for the caller; a consultation takes the name of the call
/// before it takes the caller.
pub proof fn command_is_for_the_leg_it_names(cmd: CallCommand, parsed: Json, params: Json)
    requires
        is_info_command(Some(cmd), parsed),
        parsed.member("params"@) == Some(params),
    ensures
        params.member("leg_id"@) matches Some(Json::Text(leg)) ==> {
            &&& cmd matches CallCommand::Play { leg_id, .. } ==> text::opt_text(leg_id) == Some(leg@)
            &&& cmd matches CallCommand::StopPlayback { leg_id } ==> text::opt_text(leg_id) == Some(
                leg@,
            )
            &&& cmd matches CallCommand::Hold { leg_id, .. } ==> leg_id@ == leg@
            &&& cmd matches CallCommand::Unhold { leg_id } ==> leg_id@ == leg@
        },
        params.member("leg_id"@) is None ==> {
            &&& cmd matches CallCommand::Play { leg_id, .. } ==> leg_id is None
            &&& cmd matches CallCommand::StopPlayback { leg_id } ==> leg_id is None
            &&& info_action(parsed) == "hold"@ || info_action(parsed) == "unhold"@ ==> (
            cmd matches CallCommand::Hold { leg_id, .. } ==> leg_id@ == "caller"@) && (
            cmd matches CallCommand::Unhold { leg_id } ==> leg_id@ == "caller"@)
            &&& info_action(parsed) == "consult.initiate"@ || info_action(parsed)
                == "consult.cancel"@ ==> (parsed.member("call_id"@) matches Some(Json::Text(call))
                ==> (cmd matches CallCommand::Hold { leg_id, .. } ==> leg_id@ == call@) && (
            cmd matches CallCommand::Unhold { leg_id } ==> leg_id@ == call@))
            &&& parsed.member("call_id"@) is None ==> (
            cmd matches CallCommand::Hold { leg_id, .. } ==> leg_id@ == "caller"@) && (
            cmd matches CallCommand::Unhold { leg_id } ==> leg_id@ == "caller"@)
        },
{
    reveal_strlit("media.play");
    reveal_strlit("media.inject_start");
    reveal_strlit("media.stop");
    reveal_strlit("media.inject_stop");
    reveal_strlit("record.start");
    reveal_strlit("record.stop");
    reveal_strlit("hold");
    reveal_strlit("unhold");
    reveal_strlit("consult.initiate");
    reveal_strlit("consult.cancel");
    assert("media.play"@.len() == 10);
    assert("media.inject_start"@.len() == 18);
    assert("media.stop"@.len() == 10);
    assert("media.inject_stop"@.len() == 17);
    assert("record.start"@.len() == 12);
    assert("record.stop"@.len() == 11);
    assert("hold"@.len() == 4);
    assert("unhold"@.len() == 6);
    assert("consult.initiate"@.len() == 16);
    assert("consult.cancel"@.len() == 14);
    assert("media.play"@[6] == 'p');
    assert("media.stop"@[6] == 's');
}

/// A command to play repeats, and stops for a digit, exactly where its parameters say so;
/// it never waits for the end, nor sends progress. What it plays is the source that they
/// name, or silence.
pub proof fn play_command_does_what_it_is_asked(cmd: CallCommand, params: Json)
    requires
        is_play_command(Some(cmd), Some(params)),
    ensures
        cmd matches CallCommand::Play { source, options, .. } && options is Some
            && !options->0.await_completion && !options->0.send_progress && options->0.track_id is None,
        params.member("loop"@) == Some(Json::Bool(true)) <==> cmd->Play_options->0.loop_playback,
        params.member("interrupt_on_dtmf"@) == Some(Json::Bool(true))
            <==> cmd->Play_options->0.interrupt_on_dtmf,
        params.member("source"@) is None ==> cmd->Play_source@ == SourceView::Silence,
        params.member("source"@) matches Some(src) ==> (info_source(src) matches Some(s)
            ==> cmd->Play_source@ == s),
        params.member("source"@) matches Some(src) && info_source(src) is None ==> cmd->Play_source@
            == SourceView::Silence,
{
}

/// A command to record does so at the path and in the format that its parameters name,
/// with a beep unless they say no.
pub proof fn record_command_does_what_it_is_asked(cmd: CallCommand, params: Json)
    requires
        is_record_command(Some(cmd), Some(params)),
    ensures
        cmd is StartRecording,
        params.member("path"@) matches Some(Json::Text(p)) ==> cmd->config.path@ == p@,
        params.member("path"@) is None ==> cmd->config.path@.len() == 0,
        !cmd->config.beep <==> params.member("beep"@) == Some(Json::Bool(false)),
        params.member("format"@) matches Some(Json::Text(f)) ==> text::opt_text(cmd->config.format)
            == Some(f@),
        params.member("format"@) is None ==> cmd->config.format is None,
        params.member("max_duration"@) matches Some(
            Json::Number(JsonNumber::Unsigned(n)),
        ) && n <= 0xFFFF_FFFF ==> cmd->config.max_duration_secs == Some(
            params.member("max_duration"@)->0->Number_0->Unsigned_0 as u32,
        ),
        params.member("max_duration"@) is None ==> cmd->config.max_duration_secs is None,
{
    reveal_strlit("");
}

/// A source is a file unless it says otherwise; an address only where it says so; of
/// several files the first; and silence needs no name. A source of another kind is none.
pub proof fn source_is_of_the_kind_it_says(src: Json)
    ensures
        ({
            let kind = text_at(Some(src), "source_type"@);
            let uri = text_at(Some(src), "uri"@);
            &&& kind is None || kind == Some("file"@) ==> (uri matches Some(u) ==> info_source(src)
                == Some(SourceView::File(u))) && (uri is None ==> info_source(src) is None)
            &&& kind == Some("url"@) ==> (uri matches Some(u) ==> info_source(src) == Some(
                SourceView::Url(u),
            )) && (uri is None ==> info_source(src) is None)
            &&& kind == Some("silence"@) ==> info_source(src) == Some(SourceView::Silence)
            &&& kind == Some("files"@) ==> (info_source(src) matches Some(s) ==> s is File)
            &&& kind == Some("files"@) ==> (src.member("uris"@) matches Some(Json::List(items))
                ==> (items@.len() > 0 ==> (items@[0].text() matches Some(t) ==> info_source(src)
                == Some(SourceView::File(t)))))
            &&& info_source(src) matches Some(SourceView::Url(_)) ==> kind == Some("url"@)
            &&& kind is Some && kind != Some("file"@) && kind != Some("url"@) && kind != Some(
                "silence"@,
            ) && kind != Some("files"@) ==> info_source(src) is None
        }),
{
    reveal_strlit("file");
    reveal_strlit("url");
    reveal_strlit("files");
    reveal_strlit("silence");
    assert("file"@.len() == 4);
    assert("url"@.len() == 3);
    assert("files"@.len() == 5);
    assert("silence"@.len() == 7);
}

/// An agent is busy exactly where the reason has the status of a busy callee in it, or the
/// word, in any case.
pub proof fn busy_agent_is_told_by_status_or_word(before: Seq<char>, after: Seq<char>, small: Seq<char>)
    ensures
        says_busy(before + "486"@ + after, small),
        says_busy(small, before + "busy"@ + after),
        !text::contains(before, "486"@) && !text::contains(small, "busy"@) ==> !says_busy(
            before,
            small,
        ),
{
    text::text_has_its_parts(before, "486"@, after);
    text::text_has_its_parts(before, "busy"@, after);
}

/// What is told of a conference names it, counts who takes part, and lists each of them in
/// order with whether they are muted; what is told of all of them says of each whether it
/// is locked.
pub proof fn conference_is_told_as_it_is(told: Json, listed: Json, room: Room, i: int)
    requires
        is_room_info(told, room),
        is_room_entry(listed, room),
        0 <= i < room.participants@.len(),
    ensures
        told matches Json::Object(e) && e@[0].0@ == "conf_id"@ && e@[0].1.text() == Some(
            room.conf_id@,
        ) && e@[1].0@ == "participant_count"@ && e@[1].1.number() == Some(
            room.participants@.len() as u64,
        ) && e@[2].0@ == "participants"@ && (e@[2].1 matches Json::List(all) && all@.len()
            == room.participants@.len() && (all@[i] matches Json::Object(p) && p@.len() == 2
            && p@[0].0@ == "leg_id"@ && p@[0].1.text() == Some(room.participants@[i].leg_id@)
            && p@[1].0@ == "muted"@ && p@[1].1.truth() == Some(room.participants@[i].muted))),
        listed matches Json::Object(e) && e@[0].0@ == "conf_id"@ && e@[0].1.text() == Some(
            room.conf_id@,
        ) && e@[1].0@ == "participant_count"@ && e@[1].1.number() == Some(
            room.participants@.len() as u64,
        ) && e@[2].0@ == "locked"@ && e@[2].1.truth() == Some(room.locked),
{
    assert(is_participant(told->Object_0@[2].1->List_0@[i], room.participants@[i]));
}

/// A reply that went well is a success and one that did not a failure, with its own
/// message; only an event that no application takes degrades in place of failing. An
/// added leg is named.
pub proof fn reply_comes_back_as_it_went(r: CommandResult, reply: CommandReply)
    requires
        is_result_of(r, reply),
    ensures
        r.degradation is None,
        r.outcome is Failure ==> (reply matches CommandReply::Plain(Err(e)) && r.outcome->Failure_0
            == e) || (reply matches CommandReply::LegAdded(Err(e)) && r.outcome->Failure_0 == e) || (
        reply matches CommandReply::RoomFound(Err(e)) && r.outcome->Failure_0 == e),
        r.outcome is Degraded <==> (reply matches CommandReply::Injected(Err(_))),
        r.outcome is Success <==> (reply matches CommandReply::Plain(Ok(_))) || (
        reply matches CommandReply::Injected(Ok(_))),
        reply matches CommandReply::LegAdded(Ok(leg)) ==> r.outcome
            == CommandOutcome::SuccessWithLeg(leg),
        r.outcome is SuccessWithData ==> (reply matches CommandReply::RoomFound(Ok(_))) || reply is Rooms,
{
}

/// The application is told which track ended, and whether it was cut short.
pub proof fn end_of_a_track_is_told(j: Json, track: Seq<char>, interrupted: bool)
    requires
        tells_audio_complete(j, track, interrupted),
    ensures
        j.member("type"@) matches Some(t) && t.text() == Some("audio_complete"@),
        j.member("track_id"@) matches Some(t) && t.text() == Some(track),
        j.member("interrupted"@) matches Some(t) && t.truth() == Some(interrupted),
{
    reveal_strlit("type");
    reveal_strlit("track_id");
    reveal_strlit("interrupted");
    assert("type"@.len() == 4);
    assert("track_id"@.len() == 8);
    assert("interrupted"@.len() == 11);
    let e = j->Object_0@;
    let rest = e.drop_first();
    assert(rest[0] == e[1]);
    assert(rest.drop_first()[0] == e[2]);
    reveal_with_fuel(crate::table::lookup, 4);
}

/// A command fails with the message of what failed in it, and is degraded in nothing.
pub proof fn failed_command_tells_why(e: String, done: CommandResult, failed: CommandResult)
    requires
        call_ensures(ok_or_failure, (Ok(()),), done),
        call_ensures(ok_or_failure, (Err(e),), failed),
    ensures
        done.outcome is Success && done.degradation is None,
        failed.outcome == CommandOutcome::Failure(e) && failed.degradation is None,
{
}

/// Only a denied command is stopped before it runs; one that is degraded runs, and its
/// result keeps its outcome and tells what it was degraded in.
pub proof fn denied_command_does_not_run(
    check: MediaCapabilityCheck,
    stopped: Option<CommandResult>,
    result: CommandResult,
    noted: CommandResult,
)
    requires
        call_ensures(denied, (&check,), stopped),
        call_ensures(note_degradation, (check, result), noted),
    ensures
        stopped is Some <==> check is Denied,
        check matches MediaCapabilityCheck::Denied { reason } ==> stopped->0.outcome
            == CommandOutcome::Degraded(reason),
        noted.outcome == result.outcome,
        check matches MediaCapabilityCheck::Degraded { reason } ==> noted.degradation == Some(
            reason,
        ),
        !(check is Degraded) ==> noted == result,
{
}

/// An agent that is busy and one that does not answer are told apart.
pub proof fn agent_events_are_named(busy: &'static str, no_answer: &'static str)
    requires
        call_ensures(AgentEvent::name, (&AgentEvent::Busy,), busy),
        call_ensures(AgentEvent::name, (&AgentEvent::NoAnswer,), no_answer),
    ensures
        busy@ == "agent_busy"@,
        no_answer@ == "agent_no_answer"@,
{
}

} // verus!
