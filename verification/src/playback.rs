//! What is played to the legs of a call, what is recorded of it, and how it is held.

use crate::codecs::{CodecInfo, CodecType};
use crate::legs::DialogSide;
use crate::media::MediaState;
use crate::text;
use vstd::prelude::*;

verus! {

/// Where the sound that is played comes from.
#[derive(PartialEq, Eq, Debug)]
pub enum MediaSource {
    File { path: String },
    Url { url: String },
    Silence,
    /// A source that is not played from here, such as speech that is synthesised.
    Other,
}

/// What a source names.
pub enum SourceView {
    File(Seq<char>),
    Url(Seq<char>),
    Silence,
    Other,
}

impl View for MediaSource {
    type V = SourceView;

    open spec fn view(&self) -> SourceView {
        match self {
            MediaSource::File { path } => SourceView::File(path@),
            MediaSource::Url { url } => SourceView::Url(url@),
            MediaSource::Silence => SourceView::Silence,
            MediaSource::Other => SourceView::Other,
        }
    }
}

pub struct PlayOptions {
    pub loop_playback: bool,
    pub await_completion: bool,
    pub interrupt_on_dtmf: bool,
    pub track_id: Option<String>,
    pub send_progress: bool,
}

/// The leg that a track is played to.
pub enum TrackLeg {
    Caller,
    Callee,
    /// A further leg, by its name.
    Dynamic(String),
}

/// A track belongs to the leg that its name ends with; a name that does not tell belongs
/// to the caller.
pub open spec fn is_leg_of(leg: TrackLeg, track: Seq<char>) -> bool {
    if text::ends_with(track, "-caller"@) {
        leg is Caller
    } else if text::ends_with(track, "-callee"@) || track == "callee"@ {
        leg is Callee
    } else if track != "caller"@ && text::contains(track, "-leg-"@) {
        leg matches TrackLeg::Dynamic(id) && exists|i: int|
            #![trigger text::occurs_at(track, "-leg-"@, i)]
            text::occurs_at(track, "-leg-"@, i) && (forall|j: int|
                #![trigger text::occurs_at(track, "-leg-"@, j)]
                text::occurs_at(track, "-leg-"@, j) ==> j <= i) && id@ == track.skip(i + 1)
    } else {
        leg is Caller
    }
}

/// The leg that a track is played to, by its name.
pub fn infer_track_leg(track_id: &str) -> (r: TrackLeg)
    ensures
        is_leg_of(r, track_id@),
{
    if text::has_suffix(track_id, "-caller") {
        TrackLeg::Caller
    } else if text::has_suffix(track_id, "-callee") {
        TrackLeg::Callee
    } else if text::same(track_id, "caller") {
        assert("caller"@ != "callee"@) by {
            reveal_strlit("caller");
            reveal_strlit("callee");
            assert("caller"@[5] != "callee"@[5]);
        }
        TrackLeg::Caller
    } else if text::same(track_id, "callee") {
        TrackLeg::Callee
    } else if let Some(pos) = text::last_position(track_id, "-leg-") {
        let chars = text::chars_of(track_id);
        let n: usize = chars.len();
        proof {
            reveal_strlit("-leg-");
            assert(pos + 5 <= n);
        }
        let name = text::text_of(&chars, pos + 1, n);
        assert(name@ =~= track_id@.skip(pos + 1));
        TrackLeg::Dynamic(name)
    } else {
        TrackLeg::Caller
    }
}

/// The name that a track is played under, without the leg.
pub open spec fn base_track(leg: Option<Seq<char>>, track: Option<Seq<char>>) -> Seq<char> {
    match (track, leg) {
        (Some(t), _) => t,
        (None, Some(l)) => l,
        (None, None) => "playback"@,
    }
}

/// The name that a track is played under.
pub open spec fn playback_track(leg: Option<Seq<char>>, track: Option<Seq<char>>) -> Seq<char> {
    match leg {
        Some(l) => base_track(leg, track) + "-"@ + l,
        None => base_track(leg, track),
    }
}

/// A track that is played to a side of the media bridge.
pub struct PlayPlan {
    pub side: DialogSide,
    pub track_id: String,
    pub path: String,
    pub loop_playback: bool,
    pub await_completion: bool,
}

pub open spec fn option_track(options: Option<PlayOptions>) -> Option<Seq<char>> {
    match options {
        Some(o) => text::opt_text(o.track_id),
        None => None,
    }
}

/// What is played, where it is a file or can be fetched.
pub open spec fn source_path(source: MediaSource) -> Option<Seq<char>> {
    match source {
        MediaSource::File { path } => Some(path@),
        MediaSource::Url { url } => Some(url@),
        _ => None,
    }
}

/// The side that a leg is on; without a leg it is the caller's.
pub open spec fn side_of(leg: Option<Seq<char>>) -> Option<DialogSide> {
    match leg {
        None => Some(DialogSide::Caller),
        Some(l) => if l == "caller"@ {
            Some(DialogSide::Caller)
        } else if l == "callee"@ {
            Some(DialogSide::Callee)
        } else {
            None
        },
    }
}

/// The media of this side go through the bridge.
pub open spec fn uses_bridge(media: MediaState, side: DialogSide) -> bool {
    match side {
        DialogSide::Caller => media.caller_answer_uses_media_bridge,
        DialogSide::Callee => media.callee_offer_uses_media_bridge,
    }
}

/// Why a sound cannot be played to a leg, where it cannot.
pub open spec fn play_refusal(leg: Option<Seq<char>>, source: MediaSource, media: MediaState) -> Option<
    Seq<char>,
> {
    if source_path(source) is None {
        Some("Only file/URL playback supported"@)
    } else if side_of(leg) is None {
        Some(
            "Playback to dynamic leg "@ + leg->0 + " requires media bridge output mapping"@,
        )
    } else if !uses_bridge(media, side_of(leg)->0) {
        Some(
            "Playback requires media bridge for "@ + (if side_of(leg)->0 == DialogSide::Caller {
                "caller"@
            } else {
                "callee"@
            }) + " leg"@,
        )
    } else if !media.media_bridge {
        Some("Playback requires active media bridge"@)
    } else {
        None
    }
}

/// Plans what is played to a leg, to the caller where none is named. It takes a file or
/// an address, a leg that the media bridge serves, and the bridge.
pub fn plan_play(
    leg_id: &Option<String>,
    source: MediaSource,
    options: &Option<PlayOptions>,
    media: &MediaState,
) -> (r: Result<PlayPlan, String>)
    ensures
        r is Err <==> play_refusal(text::opt_text(*leg_id), source, *media) is Some,
        r matches Err(e) ==> e@ == play_refusal(text::opt_text(*leg_id), source, *media)->0,
        r matches Ok(plan) ==> {
            &&& Some(plan.side) == side_of(text::opt_text(*leg_id))
            &&& plan.track_id@ == playback_track(text::opt_text(*leg_id), option_track(*options))
            &&& Some(plan.path@) == source_path(source)
            &&& plan.loop_playback == (options is Some && options->0.loop_playback)
            &&& plan.await_completion == (options is Some && options->0.await_completion)
        },
{
    let path = match source {
        MediaSource::File { path } => path,
        MediaSource::Url { url } => url,
        _ => {
            return Err("Only file/URL playback supported".to_owned());
        },
    };
    let side = match leg_id {
        None => DialogSide::Caller,
        Some(l) => {
            if text::same(l, "caller") {
                DialogSide::Caller
            } else if text::same(l, "callee") {
                DialogSide::Callee
            } else {
                return Err(
                    text::concat3(
                        "Playback to dynamic leg ",
                        l,
                        " requires media bridge output mapping",
                    ),
                );
            }
        },
    };
    let bridged = match side {
        DialogSide::Caller => media.caller_answer_uses_media_bridge,
        DialogSide::Callee => media.callee_offer_uses_media_bridge,
    };
    if !bridged {
        let name = match side {
            DialogSide::Caller => "caller",
            DialogSide::Callee => "callee",
        };
        return Err(text::concat3("Playback requires media bridge for ", name, " leg"));
    }
    if !media.media_bridge {
        return Err("Playback requires active media bridge".to_owned());
    }
    let named = match options {
        Some(o) => o.track_id.clone(),
        None => None,
    };
    let base = match named {
        Some(t) => t,
        None => match leg_id {
            Some(l) => l.clone(),
            None => "playback".to_owned(),
        },
    };
    let track_id = match leg_id {
        None => base,
        Some(l) => text::concat3(&base, "-", l),
    };
    let loop_playback = match options {
        Some(o) => o.loop_playback,
        None => false,
    };
    let await_completion = match options {
        Some(o) => o.await_completion,
        None => false,
    };
    Ok(PlayPlan { side, track_id, path, loop_playback, await_completion })
}

/// The codec that a track is played in: the first that the caller offers, else PCMU.
pub fn playback_codec(offered: &Vec<CodecInfo>, pcmu: CodecInfo) -> (r: CodecInfo)
    requires
        pcmu.codec == CodecType::PCMU,
    ensures
        r == (if offered@.len() > 0 {
            offered@[0]
        } else {
            pcmu
        }),
{
    if offered.len() > 0 {
        offered[0]
    } else {
        pcmu
    }
}

/// The file that tells that a recording starts.
pub fn recording_beep(beep: bool) -> (r: Option<MediaSource>)
    ensures
        match r {
            Some(source) => beep && source@ == SourceView::File("beep.wav"@),
            None => !beep,
        },
{
    if beep {
        Some(MediaSource::File { path: "beep.wav".to_owned() })
    } else {
        None
    }
}

/// The media with the track that is played: the bridge remembers the one that the caller
/// hears.
pub open spec fn with_playback(media: MediaState, plan: PlayPlan) -> MediaState {
    MediaState {
        bridge_playback_track_id: if plan.side == DialogSide::Caller {
            Some(plan.track_id)
        } else {
            media.bridge_playback_track_id
        },
        ..media
    }
}

/// The track started.
pub fn playback_started(media: &mut MediaState, plan: &PlayPlan)
    ensures
        *final(media) == with_playback(*old(media), *plan),
{
    if plan.side == DialogSide::Caller {
        media.bridge_playback_track_id = Some(plan.track_id.clone());
    }
}

/// To stop what is played to a leg stops this track.
pub open spec fn stops(leg: Option<Seq<char>>, track: Seq<char>) -> bool {
    match leg {
        None => true,
        Some(l) => {
            ||| text::ends_with(track, "-"@ + l)
            ||| track == l
            ||| l == "caller"@ && !track.contains('-')
        },
    }
}

/// The tracks that are stopped when what is played to a leg is, or to all of them.
pub fn tracks_to_stop(tracks: &Vec<String>, leg_id: &Option<String>) -> (r: Vec<String>)
    ensures
        r@ == tracks@.filter(|t: String| stops(text::opt_text(*leg_id), t@)),
{
    let ghost leg = text::opt_text(*leg_id);
    let ghost test = |t: String| stops(leg, t@);
    let suffix = match leg_id {
        Some(l) => text::concat("-", l),
        None => "".to_owned(),
    };
    let mut r: Vec<String> = Vec::new();
    let mut i: usize = 0;
    proof {
        reveal(Seq::filter);
        assert(tracks@.subrange(0, 0).filter(test) =~= Seq::empty());
    }
    while i < tracks.len()
        invariant
            i <= tracks@.len(),
            leg == text::opt_text(*leg_id),
            test == (|t: String| stops(leg, t@)),
            leg_id is Some ==> suffix@ == "-"@ + leg->0,
            r@ == tracks@.subrange(0, i as int).filter(test),
        decreases tracks@.len() - i,
    {
        let track = &tracks[i];
        let stop = match leg_id {
            None => true,
            Some(l) => text::has_suffix(track, &suffix) || text::same(track, l) || (text::same(
                l,
                "caller",
            ) && text::position_of(track, '-').is_none()),
        };
        proof {
            reveal(Seq::filter);
            let next = tracks@.subrange(0, i + 1);
            assert(next.drop_last() =~= tracks@.subrange(0, i as int));
            assert(next.last() == tracks@[i as int]);
            assert(stop == test(tracks@[i as int]));
        }
        if stop {
            r.push(track.clone());
        }
        i += 1;
    }
    assert(tracks@.subrange(0, tracks@.len() as int) =~= tracks@);
    r
}

/// To stop what is played to a leg stops every track that was started for it.
pub proof fn stopping_a_leg_stops_its_tracks(leg: Seq<char>, track: Option<Seq<char>>)
    ensures
        stops(Some(leg), playback_track(Some(leg), track)),
        stops(None, playback_track(Some(leg), track)),
{
    let base = base_track(Some(leg), track);
    let whole = base + "-"@ + leg;
    let tail = "-"@ + leg;
    assert(whole =~= base + tail);
    assert(whole.subrange(whole.len() - tail.len(), whole.len() as int) =~= tail);
    assert(text::ends_with(whole, tail));
}

/// What a side of the bridge hears once a track ends.
#[derive(Clone, Copy, PartialEq, Eq, Debug, Structural)]
pub enum OutputChange {
    /// The other party.
    Peer,
    /// Nothing.
    Mute,
}

/// What is done when a track is stopped.
pub struct StopPlan {
    /// The side of the bridge that hears something else from then on.
    pub output: Option<(DialogSide, OutputChange)>,
    /// The leg whose peer loses the track.
    pub remove_from: Option<TrackLeg>,
}

/// The side of the bridge that hears this track.
pub open spec fn bridged_side(media: MediaState, leg: TrackLeg, track: Seq<char>) -> Option<DialogSide> {
    if !media.media_bridge || !(media.bridge_playback_track_id matches Some(t) && t@ == track) {
        None
    } else {
        match leg {
            TrackLeg::Caller => if media.caller_answer_uses_media_bridge {
                Some(DialogSide::Caller)
            } else {
                None
            },
            TrackLeg::Callee => if media.callee_offer_uses_media_bridge {
                Some(DialogSide::Callee)
            } else {
                None
            },
            TrackLeg::Dynamic(_) => None,
        }
    }
}

/// A track was stopped. A side of the bridge that heard it hears the other party again
/// where the bridge runs already, else nothing.
pub open spec fn track_stopped(
    before: MediaState,
    after: MediaState,
    track: Seq<char>,
    remove_from_peer: bool,
    plan: StopPlan,
) -> bool {
    exists|leg: TrackLeg|
        #![trigger is_leg_of(leg, track)]
        {
            &&& is_leg_of(leg, track)
            &&& plan.remove_from == (if remove_from_peer {
                Some(leg)
            } else {
                None
            })
            &&& match bridged_side(before, leg, track) {
                Some(side) => {
                    &&& plan.output == Some(
                        (
                            side,
                            if before.media_bridge_started {
                                OutputChange::Peer
                            } else {
                                OutputChange::Mute
                            },
                        ),
                    )
                    &&& after == (MediaState { bridge_playback_track_id: None, ..before })
                },
                None => plan.output is None && after == before,
            }
        }
}

/// Stops a track.
pub fn stop_playback_track(media: &mut MediaState, track_id: &str, remove_from_peer: bool) -> (r:
    StopPlan)
    ensures
        track_stopped(*old(media), *final(media), track_id@, remove_from_peer, r),
{
    let leg = infer_track_leg(track_id);
    let heard = media.media_bridge && match &media.bridge_playback_track_id {
        Some(t) => text::same(t, track_id),
        None => false,
    };
    let side = if !heard {
        None
    } else {
        match &leg {
            TrackLeg::Caller => if media.caller_answer_uses_media_bridge {
                Some(DialogSide::Caller)
            } else {
                None
            },
            TrackLeg::Callee => if media.callee_offer_uses_media_bridge {
                Some(DialogSide::Callee)
            } else {
                None
            },
            TrackLeg::Dynamic(_) => None,
        }
    };
    assert(side == bridged_side(*old(media), leg, track_id@));
    assert(is_leg_of(leg, track_id@));
    let output = match side {
        Some(s) => {
            media.bridge_playback_track_id = None;
            Some(
                (
                    s,
                    if media.media_bridge_started {
                        OutputChange::Peer
                    } else {
                        OutputChange::Mute
                    },
                ),
            )
        },
        None => None,
    };
    let remove_from = if remove_from_peer {
        Some(leg)
    } else {
        None
    };
    StopPlan { output, remove_from }
}

/// What an audio specification names.
pub enum AudioSpec {
    File(String),
    Tone { frequency: u32, duration_ms: u64 },
}

/// What is wrong with the specification of a tone.
#[derive(Clone, Copy, PartialEq, Eq, Debug, Structural)]
pub enum ToneError {
    MissingDuration,
    InvalidFrequency,
    InvalidDuration,
}

/// The specification without the scheme of a tone.
pub open spec fn tone_body(spec: Seq<char>) -> Option<Seq<char>> {
    if text::starts_with(spec, "tone://"@) {
        Some(spec.skip("tone://"@.len() as int))
    } else {
        None
    }
}

/// The text before the first comma and the text after it.
pub open spec fn around_comma(s: Seq<char>) -> (Seq<char>, Seq<char>) {
    let i = s.index_of_first(',')->0;
    (s.subrange(0, i), s.skip(i + 1))
}

pub open spec fn tone_frequency(body: Seq<char>) -> Option<nat> {
    text::parsed(text::trimmed(around_comma(body).0), u32::MAX as nat)
}

pub open spec fn tone_duration(body: Seq<char>) -> Option<nat> {
    text::parsed(text::trimmed(around_comma(body).1), u64::MAX as nat)
}

/// The file that a tone is written into, by the time at which it is.
pub open spec fn tone_file(frequency: u32, duration_ms: u64, nanos: u64) -> Seq<char> {
    "rustpbx_tone_"@ + text::decimal(frequency as nat) + "hz_"@ + text::decimal(duration_ms as nat)
        + "ms_"@ + text::decimal(nanos as nat) + ".wav"@
}

pub fn tone_file_name(frequency: u32, duration_ms: u64, nanos: u64) -> (r: String)
    ensures
        r@ == tone_file(frequency, duration_ms, nanos),
{
    let mut r = text::concat3("rustpbx_tone_", &text::decimal_text(frequency as u64), "hz_");
    r.append(&text::decimal_text(duration_ms));
    r.append("ms_");
    r.append(&text::decimal_text(nanos));
    r.append(".wav");
    r
}

/// Reads an audio specification: `tone://frequency,duration_ms`, or the path of a file.
pub fn parse_audio_spec(spec: &str) -> (r: Result<AudioSpec, ToneError>)
    ensures
        match tone_body(spec@) {
            None => r matches Ok(AudioSpec::File(path)) && path@ == spec@,
            Some(body) => if !body.contains(',') {
                r == Err::<AudioSpec, ToneError>(ToneError::MissingDuration)
            } else if tone_frequency(body) is None {
                r == Err::<AudioSpec, ToneError>(ToneError::InvalidFrequency)
            } else if tone_duration(body) is None {
                r == Err::<AudioSpec, ToneError>(ToneError::InvalidDuration)
            } else {
                r matches Ok(AudioSpec::Tone { frequency, duration_ms }) && frequency
                    == tone_frequency(body)->0 && duration_ms == tone_duration(body)->0
            },
        },
{
    match text::strip_prefix(spec, "tone://") {
        None => Ok(AudioSpec::File(spec.to_owned())),
        Some(body) => {
            let comma = match text::position_of(&body, ',') {
                None => {
                    return Err(ToneError::MissingDuration);
                },
                Some(i) => i,
            };
            proof {
                body@.index_of_first_ensures(',');
            }
            let chars = text::chars_of(&body);
            let before = text::text_of(&chars, 0, comma);
            let after = text::text_of(&chars, comma + 1, chars.len());
            assert(before@ =~= around_comma(body@).0);
            assert(after@ =~= around_comma(body@).1);
            let frequency: u32 = match text::parse_up_to(&text::trim(&before), 0xFFFF_FFFF) {
                Some(f) => f as u32,
                None => {
                    return Err(ToneError::InvalidFrequency);
                },
            };
            let duration_ms: u64 = match text::parse_up_to(
                &text::trim(&after),
                0xFFFF_FFFF_FFFF_FFFF,
            ) {
                Some(d) => d,
                None => {
                    return Err(ToneError::InvalidDuration);
                },
            };
            Ok(AudioSpec::Tone { frequency, duration_ms })
        },
    }
}

/// The samples of a tone each second.
pub const TONE_SAMPLE_RATE: u32 = 8000;

/// The number of samples of a tone. It is defined for tones up to some seventy thousand
/// years.
pub fn tone_samples(duration_ms: u64) -> (r: u64)
    requires
        duration_ms <= 2305843009213693,
    ensures
        r == TONE_SAMPLE_RATE * duration_ms / 1000,
{
    TONE_SAMPLE_RATE as u64 * duration_ms / 1000
}

/// An address that is fetched.
pub open spec fn is_remote(path: Seq<char>) -> bool {
    text::starts_with(path, "http://"@) || text::starts_with(path, "https://"@)
}

/// Where an audio file is looked for: an address, a path that is absolute or exists, and
/// one under the configuration directory stay; anything else is taken from that
/// directory where it is found there.
pub open spec fn audio_path(file: Seq<char>, found: bool, found_in_config: bool) -> Seq<char> {
    if is_remote(file) || found || text::starts_with(file, "config/"@) || text::starts_with(
        file,
        "./config/"@,
    ) || !found_in_config {
        file
    } else {
        "config/"@ + file
    }
}

/// The path of an audio file. `found` says that the path is absolute or that the file
/// exists, `found_in_config` that it exists in the configuration directory.
pub fn resolve_audio_file_path(audio_file: &str, found: bool, found_in_config: bool) -> (r: String)
    ensures
        r@ == audio_path(audio_file@, found, found_in_config),
{
    if text::has_prefix(audio_file, "http://") || text::has_prefix(audio_file, "https://") {
        return audio_file.to_owned();
    }
    if found {
        return audio_file.to_owned();
    }
    if text::has_prefix(audio_file, "config/") || text::has_prefix(audio_file, "./config/") {
        return audio_file.to_owned();
    }
    if found_in_config {
        text::concat("config/", audio_file)
    } else {
        audio_file.to_owned()
    }
}

/// What is played for an audio file, and how.
pub fn audio_file_playback(
    resolved: String,
    await_completion: bool,
    track_id: &str,
    loop_playback: bool,
) -> (r: (MediaSource, PlayOptions))
    ensures
        r.0 == (if is_remote(resolved@) {
            MediaSource::Url { url: resolved }
        } else {
            MediaSource::File { path: resolved }
        }),
        r.1.loop_playback == loop_playback,
        r.1.await_completion == await_completion,
        !r.1.interrupt_on_dtmf,
        !r.1.send_progress,
        r.1.track_id is Some && r.1.track_id->0@ == track_id@,
{
    let remote = text::has_prefix(&resolved, "http://") || text::has_prefix(&resolved, "https://");
    let source = if remote {
        MediaSource::Url { url: resolved }
    } else {
        MediaSource::File { path: resolved }
    };
    let options = PlayOptions {
        loop_playback,
        await_completion,
        interrupt_on_dtmf: false,
        track_id: Some(track_id.to_owned()),
        send_progress: false,
    };
    (source, options)
}

/// A recording: its file, the time at which it started, and how long it may get. Times
/// are in milliseconds.
pub struct Recording {
    pub path: String,
    pub started_at: u64,
    pub max_duration: Option<u64>,
}

/// What the application is told of a recording that was finished.
pub struct RecordingInfo {
    pub path: String,
    pub duration: u64,
    pub size_bytes: u64,
}

impl Recording {
    /// The recording is finished, with a file of this size. It lasted since it started,
    /// pauses among it.
    pub fn finish(self, now: u64, size_bytes: u64) -> (r: RecordingInfo)
        ensures
            r.path == self.path,
            r.duration == (if now >= self.started_at {
                now - self.started_at
            } else {
                0
            }),
            r.size_bytes == size_bytes,
    {
        let duration: u64 = if now >= self.started_at {
            now - self.started_at
        } else {
            0
        };
        RecordingInfo { path: self.path, duration, size_bytes }
    }
}

/// How a recording stands.
pub enum RecordingPhase {
    Idle,
    Running(Recording),
    Paused(Recording),
}

impl RecordingPhase {
    pub open spec fn active(self) -> bool {
        self !is Idle
    }

    /// The recording, whether it runs or is paused.
    pub open spec fn recording(self) -> Option<Recording> {
        match self {
            RecordingPhase::Running(recording) => Some(recording),
            RecordingPhase::Paused(recording) => Some(recording),
            RecordingPhase::Idle => None,
        }
    }

    pub open spec fn after_pause(self) -> RecordingPhase {
        match self {
            RecordingPhase::Running(recording) => RecordingPhase::Paused(recording),
            other => other,
        }
    }

    pub open spec fn after_resume(self) -> RecordingPhase {
        match self {
            RecordingPhase::Paused(recording) => RecordingPhase::Running(recording),
            other => other,
        }
    }

    pub fn is_active(&self) -> (r: bool)
        ensures
            r == self.active(),
    {
        !matches!(self, RecordingPhase::Idle)
    }

    /// Why no recording can start, where none can.
    pub fn start_refusal(&self, flow_capture: bool, recording_enabled: bool) -> (r: Option<String>)
        ensures
            r is None <==> !(flow_capture && !recording_enabled) && !self.active(),
            r matches Some(why) ==> why@ == (if flow_capture && !recording_enabled {
                "Live recording is disabled when SipFlow is enabled"@
            } else {
                "Recording already active"@
            }),
    {
        if flow_capture && !recording_enabled {
            return Some("Live recording is disabled when SipFlow is enabled".to_owned());
        }
        if self.is_active() {
            return Some("Recording already active".to_owned());
        }
        None
    }

    /// A recording starts.
    pub fn start_recording(&mut self, path: String, now: u64, max_duration: Option<u64>)
        requires
            !old(self).active(),
        ensures
            *final(self) == RecordingPhase::Running(
                (Recording { path, started_at: now, max_duration }),
            ),
    {
        *self = RecordingPhase::Running(Recording { path, started_at: now, max_duration });
    }

    /// Pauses a recording that runs.
    pub fn pause_recording(&mut self) -> (r: Result<(), String>)
        ensures
            *final(self) == old(self).after_pause(),
            match *old(self) {
                RecordingPhase::Running(_) => r is Ok,
                RecordingPhase::Paused(recording) => r matches Err(e) && e@
                    == "Recording already paused: "@ + recording.path@,
                RecordingPhase::Idle => r matches Err(e) && e@ == "Recording not active"@,
            },
    {
        let mut phase = RecordingPhase::Idle;
        std::mem::swap(&mut phase, self);
        match phase {
            RecordingPhase::Running(recording) => {
                *self = RecordingPhase::Paused(recording);
                Ok(())
            },
            RecordingPhase::Paused(recording) => {
                let why = text::concat("Recording already paused: ", &recording.path);
                *self = RecordingPhase::Paused(recording);
                Err(why)
            },
            RecordingPhase::Idle => Err("Recording not active".to_owned()),
        }
    }

    /// Goes on with a recording that was paused.
    pub fn resume_recording(&mut self) -> (r: Result<(), String>)
        ensures
            *final(self) == old(self).after_resume(),
            match *old(self) {
                RecordingPhase::Paused(_) => r is Ok,
                RecordingPhase::Running(recording) => r matches Err(e) && e@
                    == "Recording already active: "@ + recording.path@,
                RecordingPhase::Idle => r matches Err(e) && e@ == "Recording not active"@,
            },
    {
        let mut phase = RecordingPhase::Idle;
        std::mem::swap(&mut phase, self);
        match phase {
            RecordingPhase::Paused(recording) => {
                *self = RecordingPhase::Running(recording);
                Ok(())
            },
            RecordingPhase::Running(recording) => {
                let why = text::concat("Recording already active: ", &recording.path);
                *self = RecordingPhase::Running(recording);
                Err(why)
            },
            RecordingPhase::Idle => Err("Recording not active".to_owned()),
        }
    }

    /// Stops a recording, whether it runs or is paused, and hands it out.
    pub fn stop_recording(&mut self) -> (r: Option<Recording>)
        ensures
            *final(self) is Idle,
            r == old(self).recording(),
    {
        let mut phase = RecordingPhase::Idle;
        std::mem::swap(&mut phase, self);
        match phase {
            RecordingPhase::Running(recording) => Some(recording),
            RecordingPhase::Paused(recording) => Some(recording),
            RecordingPhase::Idle => None,
        }
    }
}

/// A recording that is paused and then resumed is the one that it was, and one that is
/// stopped while it is paused is handed out whole.
pub proof fn paused_recording_is_kept(phase: RecordingPhase)
    requires
        phase is Running,
    ensures
        phase.after_pause().after_resume() == phase,
        phase.after_pause().recording() == phase.recording(),
{
}

/// What a recording that starts by itself with the call writes to, where one does.
pub fn auto_recording_path(
    enabled: bool,
    auto_start: bool,
    active: bool,
    recorder_file: &Option<String>,
) -> (r: Option<String>)
    ensures
        r is Some <==> enabled && auto_start && !active && recorder_file is Some
            && recorder_file->0@.len() > 0,
        r matches Some(path) ==> Some(path) == *recorder_file,
{
    match recorder_file {
        Some(path) => {
            if enabled && auto_start && !active && !path.as_str().is_empty() {
                Some(path.clone())
            } else {
                None
            }
        },
        None => None,
    }
}

/// What the caller hears while a leg rings.
pub enum RingbackPolicy {
    EarlyMedia { source: MediaSource },
    Replace,
    Other,
}

/// What is done to make a leg ring.
pub enum RingPlan {
    /// This file is played as early media.
    EarlyMedia { path: String },
    /// The leg is marked, and the caller is told, with this description.
    Ring { sdp: Option<String> },
}

/// What the policy asks for: a file as early media, the caller's own offer, or a plain
/// indication.
pub open spec fn is_ring_plan(
    r: Result<RingPlan, String>,
    ringback: Option<RingbackPolicy>,
    caller_offer: Option<String>,
) -> bool {
    match ringback {
        Some(RingbackPolicy::EarlyMedia { source }) => match source {
            MediaSource::File { path } => r == Ok::<RingPlan, String>(
                (RingPlan::EarlyMedia { path }),
            ),
            _ => r matches Err(e) && e@ == "EarlyMedia requires a File media source"@,
        },
        Some(RingbackPolicy::Replace) => r == Ok::<RingPlan, String>(
            (RingPlan::Ring { sdp: caller_offer }),
        ),
        _ => r == Ok::<RingPlan, String>((RingPlan::Ring { sdp: None })),
    }
}

pub fn plan_ring(ringback: Option<RingbackPolicy>, caller_offer: &Option<String>) -> (r: Result<
    RingPlan,
    String,
>)
    ensures
        is_ring_plan(r, ringback, *caller_offer),
{
    match ringback {
        Some(RingbackPolicy::EarlyMedia { source }) => match source {
            MediaSource::File { path } => Ok(RingPlan::EarlyMedia { path }),
            _ => Err("EarlyMedia requires a File media source".to_owned()),
        },
        Some(RingbackPolicy::Replace) => Ok(RingPlan::Ring { sdp: caller_offer.clone() }),
        _ => Ok(RingPlan::Ring { sdp: None }),
    }
}

/// A line of a description that gives a direction.
pub open spec fn is_direction_line(line: Seq<char>) -> bool {
    ||| text::starts_with(line, "a=sendrecv"@)
    ||| text::starts_with(line, "a=sendonly"@)
    ||| text::starts_with(line, "a=recvonly"@)
    ||| text::starts_with(line, "a=inactive"@)
}

/// A media section starts before this line.
pub open spec fn in_media_section(lines: Seq<Seq<char>>, i: int) -> bool {
    exists|j: int| 0 <= j < i && text::starts_with(#[trigger] lines[j], "m="@)
}

/// The description with every direction inside its media sections replaced.
pub open spec fn with_direction(sdp: Seq<char>, direction: Seq<char>) -> Seq<char> {
    let lines = text::lines(sdp);
    text::joined(
        Seq::new(
            lines.len(),
            |i: int|
                if in_media_section(lines, i) && is_direction_line(lines[i]) {
                    "a="@ + direction
                } else {
                    lines[i]
                },
        ),
        "\r\n"@,
    )
}

/// `rustrtc::modify_sdp_direction`: every line of a media section that gives a direction
/// gives this one; the other lines stay, and lines end with a carriage return and a line
/// feed.
#[verifier::external_body]
fn modify_sdp_direction(sdp: &str, direction: &str) -> (r: String)
    ensures
        r@ == with_direction(sdp@, direction@),
{
    rustrtc::modify_sdp_direction(sdp, direction)
}

/// The description that a held call is offered anew: the caller's answer, else its offer.
pub open spec fn held_description(media: MediaState) -> Option<String> {
    if media.answer is Some {
        media.answer
    } else {
        media.caller_offer
    }
}

/// The description that puts the caller on hold.
pub fn generate_hold_sdp(media: &MediaState) -> (r: Result<String, String>)
    ensures
        r is Ok <==> held_description(*media) is Some,
        r matches Ok(sdp) ==> sdp@ == with_direction(held_description(*media)->0@, "sendonly"@),
        r matches Err(e) ==> e@ == "No SDP available for hold"@,
{
    if let Some(answer) = &media.answer {
        return Ok(modify_sdp_direction(answer, "sendonly"));
    }
    match &media.caller_offer {
        Some(offer) => Ok(modify_sdp_direction(offer, "sendonly")),
        None => Err("No SDP available for hold".to_owned()),
    }
}

/// The description that takes the caller off hold.
pub fn generate_unhold_sdp(media: &MediaState) -> (r: Result<String, String>)
    ensures
        r is Ok <==> held_description(*media) is Some,
        r matches Ok(sdp) ==> sdp@ == with_direction(held_description(*media)->0@, "sendrecv"@),
        r matches Err(e) ==> e@ == "No SDP available for unhold"@,
{
    if let Some(answer) = &media.answer {
        return Ok(modify_sdp_direction(answer, "sendrecv"));
    }
    match &media.caller_offer {
        Some(offer) => Ok(modify_sdp_direction(offer, "sendrecv")),
        None => Err("No SDP available for unhold".to_owned()),
    }
}

/// What came back for a request within the caller's dialog.
pub enum CallerReply {
    Status(u16),
    NoResponse,
    Failed { error: String },
}

/// Whether the caller took a re-INVITE.
pub fn reinvite_outcome(reply: CallerReply) -> (r: Result<(), String>)
    ensures
        match reply {
            CallerReply::Status(code) => if crate::status::successful(code) {
                r is Ok
            } else {
                r matches Err(e) && e@ == "re-INVITE rejected with status "@ + text::decimal(
                    code as nat,
                )
            },
            CallerReply::NoResponse => r matches Err(e) && e@ == "re-INVITE timed out"@,
            CallerReply::Failed { error } => r matches Err(e) && e@ == "re-INVITE failed: "@
                + error@,
        },
{
    match reply {
        CallerReply::Status(code) => {
            if crate::status::is_successful(code) {
                Ok(())
            } else {
                let digits = text::decimal_text(code as u64);
                Err(text::concat("re-INVITE rejected with status ", &digits))
            }
        },
        CallerReply::NoResponse => Err("re-INVITE timed out".to_owned()),
        CallerReply::Failed { error } => Err(text::concat("re-INVITE failed: ", &error)),
    }
}

/// Whether the caller answered an OPTIONS request; silence counts as an answer.
pub fn options_ping_outcome(reply: CallerReply) -> (r: Result<(), String>)
    ensures
        match reply {
            CallerReply::Status(code) => if crate::status::successful(code) {
                r is Ok
            } else {
                r matches Err(e) && e@ == "OPTIONS ping failed with status: "@ + text::decimal(
                    code as nat,
                )
            },
            CallerReply::NoResponse => r is Ok,
            CallerReply::Failed { error } => r matches Err(e) && e@
                == "Failed to send OPTIONS ping: "@ + error@,
        },
{
    match reply {
        CallerReply::Status(code) => {
            if crate::status::is_successful(code) {
                Ok(())
            } else {
                let digits = text::decimal_text(code as u64);
                Err(text::concat("OPTIONS ping failed with status: ", &digits))
            }
        },
        CallerReply::NoResponse => Ok(()),
        CallerReply::Failed { error } => Err(text::concat("Failed to send OPTIONS ping: ", &error)),
    }
}

/// A track is muted, or no longer, where either peer has it.
pub fn mute_outcome(track_id: &str, on_caller: bool, on_callee: bool) -> (r: Result<(), String>)
    ensures
        r is Ok <==> on_caller || on_callee,
        r matches Err(e) ==> e@ == "Track not found on either peer: "@ + track_id@,
{
    if on_caller || on_callee {
        Ok(())
    } else {
        Err(text::concat("Track not found on either peer: ", track_id))
    }
}

/// A message that is sent within the caller's dialog.
#[derive(Clone, Copy, PartialEq, Eq, Debug, Structural)]
pub enum DialogMessage {
    Ringing,
    Message,
    Notify,
}

impl DialogMessage {
    /// What is said of a message of this kind that could not be sent.
    pub open spec fn complaint(self) -> Seq<char> {
        match self {
            DialogMessage::Ringing => "Failed to send ringing indication: "@,
            DialogMessage::Message => "Failed to send SIP MESSAGE: "@,
            DialogMessage::Notify => "Failed to send SIP NOTIFY: "@,
        }
    }
}

/// Whether a message counts as sent: whatever the caller says to it, it does.
pub fn message_outcome(kind: DialogMessage, sent: Result<(), String>) -> (r: Result<(), String>)
    ensures
        r is Ok <==> sent is Ok,
        r matches Err(e) ==> e@ == kind.complaint() + sent->Err_0@,
{
    match sent {
        Ok(()) => Ok(()),
        Err(error) => {
            let complaint = match kind {
                DialogMessage::Ringing => "Failed to send ringing indication: ",
                DialogMessage::Message => "Failed to send SIP MESSAGE: ",
                DialogMessage::Notify => "Failed to send SIP NOTIFY: ",
            };
            Err(text::concat(complaint, &error))
        },
    }
}

/// The music for a call on hold, where the caller took the hold and the music is a file or
/// can be fetched.
pub fn hold_music(held: bool, music: Option<MediaSource>) -> (r: Option<String>)
    ensures
        r is Some <==> held && music is Some && source_path(music->0) is Some,
        r matches Some(path) ==> Some(path@) == source_path(music->0),
{
    match music {
        Some(MediaSource::File { path }) if held => Some(path),
        Some(MediaSource::Url { url }) if held => Some(url),
        _ => None,
    }
}

/// A track that is named after a leg is played to that leg: the caller, the callee, or a
/// further leg by its own name. Any other track is played to the caller.
pub proof fn track_is_played_to_the_leg_it_names(leg: TrackLeg, track: Seq<char>)
    requires
        is_leg_of(leg, track),
    ensures
        text::ends_with(track, "-caller"@) ==> leg is Caller,
        text::ends_with(track, "-callee"@) && !text::ends_with(track, "-caller"@) ==> leg is Callee,
        track == "callee"@ && !text::ends_with(track, "-caller"@) ==> leg is Callee,
        track == "caller"@ && !text::ends_with(track, "-callee"@) && track != "callee"@
            ==> leg is Caller,
        !text::contains(track, "-leg-"@) && !text::ends_with(track, "-callee"@) && track != "callee"@
            ==> leg is Caller,
        leg matches TrackLeg::Dynamic(id) ==> text::contains(track, "-leg-"@) && text::ends_with(
            track,
            id@,
        ) && text::starts_with(id@, "leg-"@),
        text::contains(track, "-leg-"@) && !text::ends_with(track, "-caller"@) && !text::ends_with(
            track,
            "-callee"@,
        ) && track != "caller"@ && track != "callee"@ ==> leg is Dynamic,
{
    reveal_strlit("caller");
    reveal_strlit("callee");
    assert("caller"@.len() == 6);
    assert("callee"@.len() == 6);
    assert("caller"@[5] == 'r');
    assert("callee"@[5] == 'e');
    reveal_strlit("-leg-");
    reveal_strlit("leg-");
    if leg is Dynamic {
        let id = leg->Dynamic_0;
        let i = choose|i: int|
            #![trigger text::occurs_at(track, "-leg-"@, i)]
            text::occurs_at(track, "-leg-"@, i) && (forall|j: int|
                #![trigger text::occurs_at(track, "-leg-"@, j)]
                text::occurs_at(track, "-leg-"@, j) ==> j <= i) && id@ == track.skip(i + 1);
        assert(track.subrange(track.len() - id@.len(), track.len() as int) =~= id@);
        assert forall|k: int| 0 <= k < 4 implies #[trigger] id@[k] == "leg-"@[k] by {
            assert(track.subrange(i, i + 5)[k + 1] == "-leg-"@[k + 1]);
        }
        assert(id@.subrange(0, 4) =~= "leg-"@);
    }
}

/// A track goes by the name that it is given, else by its leg, else by what playing is
/// called; behind it stands the leg, where there is one.
pub proof fn track_is_named_after_its_leg(leg: Seq<char>, track: Seq<char>)
    ensures
        playback_track(Some(leg), Some(track)) == track + "-"@ + leg,
        playback_track(Some(leg), None) == leg + "-"@ + leg,
        playback_track(None, Some(track)) == track,
        playback_track(None, None) == "playback"@,
        text::ends_with(playback_track(Some(leg), Some(track)), leg),
{
    text::text_has_its_parts(track + "-"@, leg, Seq::empty());
}

/// Sound is played exactly where it is a file or can be fetched, to one of the two
/// parties, through a bridge that is there and that this party's media go through; the
/// first thing that is missing is told.
pub proof fn play_needs_a_source_a_party_and_a_bridge(
    leg: Option<Seq<char>>,
    source: MediaSource,
    media: MediaState,
)
    ensures
        play_refusal(leg, source, media) is None <==> (source is File || source is Url) && (leg is None
            || leg == Some("caller"@) || leg == Some("callee"@)) && media.media_bridge && (leg == Some(
            "callee"@,
        ) ==> media.callee_offer_uses_media_bridge) && (leg != Some("callee"@)
            ==> media.caller_answer_uses_media_bridge),
        source is Silence || source is Other ==> play_refusal(leg, source, media) == Some(
            "Only file/URL playback supported"@,
        ),
{
    reveal_strlit("caller");
    reveal_strlit("callee");
    assert("caller"@.len() == 6);
    assert("callee"@.len() == 6);
    assert("caller"@[5] == 'r');
    assert("callee"@[5] == 'e');
}

/// The side of a leg is the party that it names, the caller where none is named; a further
/// leg is on neither.
pub proof fn side_is_the_named_party(leg: Seq<char>)
    ensures
        side_of(None) == Some(DialogSide::Caller),
        side_of(Some(leg)) == Some(DialogSide::Caller) <==> leg == "caller"@,
        side_of(Some(leg)) == Some(DialogSide::Callee) <==> leg == "callee"@,
{
    reveal_strlit("caller");
    reveal_strlit("callee");
    assert("caller"@.len() == 6);
    assert("callee"@.len() == 6);
    assert("caller"@[5] == 'r');
    assert("callee"@[5] == 'e');
}

/// A party's media go through the bridge by that party's own answer or offer.
pub proof fn each_party_has_its_own_way(media: MediaState)
    ensures
        uses_bridge(media, DialogSide::Caller) == media.caller_answer_uses_media_bridge,
        uses_bridge(media, DialogSide::Callee) == media.callee_offer_uses_media_bridge,
{
}

/// What is played is the file or the address that the source names.
pub proof fn source_is_played_from_where_it_is(path: String)
    ensures
        source_path(MediaSource::File { path }) == Some(path@),
        source_path(MediaSource::Url { url: path }) == Some(path@),
        source_path(MediaSource::Silence) is None,
        source_path(MediaSource::Other) is None,
{
}

/// The bridge remembers what the caller hears and nothing else: what is played to the
/// callee does not change it.
pub proof fn bridge_remembers_the_callers_track(media: MediaState, plan: PlayPlan)
    ensures
        plan.side == DialogSide::Caller ==> with_playback(media, plan).bridge_playback_track_id == Some(
            plan.track_id,
        ),
        plan.side == DialogSide::Callee ==> with_playback(media, plan) == media,
        with_playback(media, plan).answer == media.answer,
        with_playback(media, plan).media_bridge == media.media_bridge,
{
}

/// To stop what is played to a leg leaves the tracks of other legs alone; without a leg
/// every track is stopped.
pub proof fn stopping_a_leg_spares_the_others(leg: Seq<char>, track: Seq<char>)
    ensures
        stops(None, track),
        stops(Some(leg), leg),
        !track.contains('-') ==> stops(Some("caller"@), track),
        track != leg && !text::ends_with(track, "-"@ + leg) && leg != "caller"@ ==> !stops(
            Some(leg),
            track,
        ),
        track.contains('-') && track != leg && !text::ends_with(track, "-"@ + leg) ==> !stops(
            Some(leg),
            track,
        ),
{
}

/// A party that heard a track that was stopped hears the other party again where the
/// bridge runs, and nothing where it does not yet; a party that did not hear it hears what
/// it heard. The track is taken off a peer exactly where that is asked.
pub proof fn stopped_track_gives_the_peer_back(
    before: MediaState,
    after: MediaState,
    track: Seq<char>,
    remove: bool,
    plan: StopPlan,
)
    requires
        track_stopped(before, after, track, remove, plan),
    ensures
        plan.remove_from is Some <==> remove,
        plan.output matches Some((side, change)) ==> {
            &&& before.media_bridge
            &&& text::opt_text(before.bridge_playback_track_id) == Some(track)
            &&& change == OutputChange::Peer <==> before.media_bridge_started
            &&& side == DialogSide::Caller ==> before.caller_answer_uses_media_bridge
            &&& side == DialogSide::Callee ==> before.callee_offer_uses_media_bridge
            &&& after == (MediaState { bridge_playback_track_id: None, ..before })
        },
        plan.output is None ==> after == before,
        before.media_bridge && text::opt_text(before.bridge_playback_track_id) == Some(track)
            && text::ends_with(track, "-caller"@) && before.caller_answer_uses_media_bridge ==> (
        plan.output matches Some((side, _)) && side == DialogSide::Caller),
        before.media_bridge && text::opt_text(before.bridge_playback_track_id) == Some(track)
            && text::ends_with(track, "-callee"@) && !text::ends_with(track, "-caller"@)
            && before.callee_offer_uses_media_bridge ==> (plan.output matches Some((side, _)) && side
            == DialogSide::Callee),
{
}

/// A tone is written as a frequency and a duration with a comma between them, blanks
/// aside: what is written is what is read. Anything without the scheme is a file.
pub proof fn tone_is_read_as_written(frequency: u32, duration_ms: u64, spec: Seq<char>)
    ensures
        ({
            let body = text::decimal(frequency as nat) + seq![','] + text::decimal(duration_ms as nat);
            &&& tone_body("tone://"@ + body) == Some(body)
            &&& body.contains(',')
            &&& tone_frequency(body) == Some(frequency as nat)
            &&& tone_duration(body) == Some(duration_ms as nat)
        }),
        !text::starts_with(spec, "tone://"@) ==> tone_body(spec) is None,
{
    let f = text::decimal(frequency as nat);
    let d = text::decimal(duration_ms as nat);
    let body = f + seq![','] + d;
    assert(tone_body("tone://"@ + body) == Some(body)) by {
        text::text_has_its_parts("tone://"@, body, Seq::empty());
        assert(("tone://"@ + body).skip("tone://"@.len() as int) =~= body);
    }
    assert(text::all_digits(f) && text::all_digits(d)) by {
        text::decimal_is_read_back(frequency as nat, 0);
        text::decimal_is_read_back(duration_ms as nat, 0);
    }
    comma_parts_the_numbers(f, d);
    digits_have_no_blanks(f);
    digits_have_no_blanks(d);
    assert(tone_frequency(body) == Some(frequency as nat)) by {
        text::decimal_is_read_back(frequency as nat, u32::MAX as nat);
    }
    assert(tone_duration(body) == Some(duration_ms as nat)) by {
        text::decimal_is_read_back(duration_ms as nat, u64::MAX as nat);
    }
}

proof fn comma_parts_the_numbers(f: Seq<char>, d: Seq<char>)
    requires
        text::all_digits(f),
    ensures
        (f + seq![','] + d).contains(','),
        around_comma(f + seq![','] + d) == (f, d),
{
    let body = f + seq![','] + d;
    let at = f.len() as int;
    assert(body[at] == ',');
    assert(body.contains(','));
    assert forall|k: int| 0 <= k < at implies body[k] != ',' by {
        assert(body[k] == f[k]);
        assert(text::is_ascii_digit(f[k]));
    }
    body.index_of_first_ensures(',');
    let i = body.index_of_first(',')->0;
    assert(body[i] == ',');
    assert(i == at);
    assert(body.subrange(0, at) =~= f);
    assert(body.skip(at + 1) =~= d);
}

proof fn digits_have_no_blanks(s: Seq<char>)
    requires
        text::all_digits(s),
    ensures
        text::trimmed(s) == s,
{
    if s.len() > 0 {
        assert(text::is_ascii_digit(s[0]));
        assert(text::is_ascii_digit(s[s.len() - 1]));
        assert(text::trim_start(s) == s);
        assert(text::trim_end(s) == s);
    }
}

/// The file of a tone names the tone and the time.
pub proof fn tone_file_names_the_tone(frequency: u32, duration_ms: u64, nanos: u64)
    ensures
        text::starts_with(
            tone_file(frequency, duration_ms, nanos),
            "rustpbx_tone_"@ + text::decimal(frequency as nat) + "hz_"@,
        ),
        text::ends_with(
            tone_file(frequency, duration_ms, nanos),
            "ms_"@ + text::decimal(nanos as nat) + ".wav"@,
        ),
        text::contains(tone_file(frequency, duration_ms, nanos), text::decimal(duration_ms as nat)),
{
    let a = "rustpbx_tone_"@ + text::decimal(frequency as nat) + "hz_"@;
    let b = text::decimal(duration_ms as nat);
    let c = "ms_"@ + text::decimal(nanos as nat) + ".wav"@;
    let all = tone_file(frequency, duration_ms, nanos);
    assert(all =~= a + b + c);
    assert(all =~= a + (b + c));
    text::text_has_its_parts(a, b, c);
    text::text_has_its_parts(a, b + c, Seq::empty());
    text::text_has_its_parts(a + b, c, Seq::empty());
}

/// An audio file is taken from where it is: an address, a file that is found, and one that
/// names the configuration directory stay; one that is found only there is taken from
/// there, and one that is found nowhere stays as it was written.
pub proof fn audio_file_is_taken_from_where_it_is(file: Seq<char>, in_config: bool)
    ensures
        audio_path(file, true, in_config) == file,
        audio_path(file, false, false) == file,
        text::starts_with(file, "http://"@) || text::starts_with(file, "https://"@) ==> audio_path(
            file,
            false,
            true,
        ) == file,
        text::starts_with(file, "config/"@) || text::starts_with(file, "./config/"@) ==> audio_path(
            file,
            false,
            true,
        ) == file,
        !text::starts_with(file, "http://"@) && !text::starts_with(file, "https://"@)
            && !text::starts_with(file, "config/"@) && !text::starts_with(file, "./config/"@)
            ==> audio_path(file, false, true) == "config/"@ + file,
        is_remote(file) <==> text::starts_with(file, "http://"@) || text::starts_with(
            file,
            "https://"@,
        ),
{
}

/// Only a recording that runs can be paused and only a paused one resumed; any other stays
/// as it is, and is active unless there is none.
pub proof fn recording_is_paused_and_resumed(recording: Recording)
    ensures
        RecordingPhase::Running(recording).after_pause() == RecordingPhase::Paused(recording),
        RecordingPhase::Paused(recording).after_pause() == RecordingPhase::Paused(recording),
        RecordingPhase::Paused(recording).after_resume() == RecordingPhase::Running(recording),
        RecordingPhase::Running(recording).after_resume() == RecordingPhase::Running(recording),
        RecordingPhase::Idle.after_pause() is Idle,
        RecordingPhase::Idle.after_resume() is Idle,
        RecordingPhase::Running(recording).active() && RecordingPhase::Paused(recording).active(),
        !RecordingPhase::Idle.active(),
        RecordingPhase::Running(recording).recording() == Some(recording),
        RecordingPhase::Paused(recording).recording() == Some(recording),
        RecordingPhase::Idle.recording() is None,
{
}

/// A leg rings as its policy says: with a file as early media, with the caller's own offer,
/// or plainly; early media from anything but a file are refused.
pub proof fn leg_rings_as_its_policy_says(
    r: Result<RingPlan, String>,
    ringback: Option<RingbackPolicy>,
    offer: Option<String>,
)
    requires
        is_ring_plan(r, ringback, offer),
    ensures
        ringback matches Some(RingbackPolicy::EarlyMedia { source }) ==> (
        source matches MediaSource::File { path } ==> (r matches Ok(RingPlan::EarlyMedia { path: p })
            && p == path)) && (!(source is File) ==> r is Err),
        ringback matches Some(RingbackPolicy::Replace) ==> (r matches Ok(RingPlan::Ring { sdp }) && sdp
            == offer),
        ringback is None ==> (r matches Ok(RingPlan::Ring { sdp }) && sdp is None),
        r is Err ==> (ringback matches Some(RingbackPolicy::EarlyMedia { .. })),
{
}

/// A held call is offered its answer anew, and its offer only where it has no answer.
pub proof fn held_call_is_offered_its_answer(media: MediaState)
    ensures
        media.answer is Some ==> held_description(media) == media.answer,
        media.answer is None ==> held_description(media) == media.caller_offer,
{
}

/// A direction is set in media sections alone: a description without one keeps its lines,
/// and so does every line that gives no direction.
pub proof fn direction_is_set_in_media_alone(lines: Seq<Seq<char>>, i: int, j: int)
    ensures
        (forall|k: int| 0 <= k < i ==> !text::starts_with(#[trigger] lines[k], "m="@))
            ==> !in_media_section(lines, i),
        0 <= j < i && text::starts_with(lines[j], "m="@) ==> in_media_section(lines, i),
        is_direction_line("a=sendrecv"@),
        is_direction_line("a=sendonly"@),
        is_direction_line("a=recvonly"@),
        is_direction_line("a=inactive"@),
{
    assert("a=sendrecv"@.subrange(0, "a=sendrecv"@.len() as int) =~= "a=sendrecv"@);
    assert("a=sendonly"@.subrange(0, "a=sendonly"@.len() as int) =~= "a=sendonly"@);
    assert("a=recvonly"@.subrange(0, "a=recvonly"@.len() as int) =~= "a=recvonly"@);
    assert("a=inactive"@.subrange(0, "a=inactive"@.len() as int) =~= "a=inactive"@);
}

/// What could not be sent is told by its kind.
pub proof fn complaint_tells_the_kind()
    ensures
        DialogMessage::Ringing.complaint() == "Failed to send ringing indication: "@,
        DialogMessage::Message.complaint() == "Failed to send SIP MESSAGE: "@,
        DialogMessage::Notify.complaint() == "Failed to send SIP NOTIFY: "@,
{
}

/// A prompt is played in the first codec that was offered, or in PCMU where none was.
pub proof fn first_offered_codec_is_played(offered: Vec<CodecInfo>, pcmu: CodecInfo, r: CodecInfo)
    requires
        call_ensures(playback_codec, (&offered, pcmu), r),
    ensures
        offered@.len() > 0 ==> r == offered@.first(),
        offered@.len() == 0 ==> r == pcmu,
{
}

/// A recording beeps if and only if it was asked to, and a track that neither peer has
/// cannot be muted.
pub proof fn beep_is_played_on_demand(
    silent: Option<MediaSource>,
    loud: Option<MediaSource>,
    track_id: &str,
    on_caller: bool,
    on_callee: bool,
    muted: Result<(), String>,
)
    requires
        call_ensures(recording_beep, (false,), silent),
        call_ensures(recording_beep, (true,), loud),
        call_ensures(mute_outcome, (track_id, on_caller, on_callee), muted),
    ensures
        silent is None,
        loud is Some && loud->0@ == SourceView::File("beep.wav"@),
        muted is Err <==> !on_caller && !on_callee,
        muted matches Err(e) ==> text::ends_with(e@, track_id@),
{
    if muted is Err {
        let head = "Track not found on either peer: "@;
        let all = muted->Err_0@;
        assert(all.subrange(head.len() as int, all.len() as int) =~= track_id@);
    }
}

/// A tone has eight samples for each of its milliseconds.
pub proof fn tone_has_eight_samples_a_millisecond(duration_ms: u64, r: u64)
    requires
        call_ensures(tone_samples, (duration_ms,), r),
    ensures
        r == 8 * duration_ms,
{
}

/// A recording took from its start until it was finished, and is where it was begun.
pub proof fn recording_took_until_its_end(
    rec: Recording,
    now: u64,
    size_bytes: u64,
    info: RecordingInfo,
)
    requires
        call_ensures(Recording::finish, (rec, now, size_bytes), info),
    ensures
        info.path == rec.path,
        info.size_bytes == size_bytes,
        now >= rec.started_at ==> rec.started_at + info.duration == now,
        now < rec.started_at ==> info.duration == 0,
{
}

/// A recording that is started runs from then on, at the path and within the time it was
/// given.
pub proof fn started_recording_runs()
    ensures
        forall|p: &mut RecordingPhase, path: String, now: u64, limit: Option<u64>| #[trigger]
            call_ensures(RecordingPhase::start_recording, (p, path, now, limit), ()) ==> {
                &&& *final(p) matches RecordingPhase::Running(rec) && rec.path == path
                    && rec.started_at == now && rec.max_duration == limit
            },
{
}

/// A recording is paused only while it runs and resumed only while it is paused, and is the
/// same recording throughout; an operation that fails changes nothing.
pub proof fn recording_is_paused_only_while_it_runs()
    ensures
        forall|p: &mut RecordingPhase, r: Result<(), String>| #[trigger]
            call_ensures(RecordingPhase::pause_recording, (p,), r) ==> {
                &&& r is Ok <==> *p is Running
                &&& *p matches RecordingPhase::Running(rec) ==> *final(p) == RecordingPhase::Paused(
                    rec,
                )
                &&& r is Err ==> *final(p) == *p
            },
        forall|p: &mut RecordingPhase, r: Result<(), String>| #[trigger]
            call_ensures(RecordingPhase::resume_recording, (p,), r) ==> {
                &&& r is Ok <==> *p is Paused
                &&& *p matches RecordingPhase::Paused(rec) ==> *final(p) == RecordingPhase::Running(
                    rec,
                )
                &&& r is Err ==> *final(p) == *p
            },
        forall|p: &mut RecordingPhase, r: Option<Recording>| #[trigger]
            call_ensures(RecordingPhase::stop_recording, (p,), r) ==> {
                &&& *final(p) is Idle
                &&& r is None <==> *p is Idle
                &&& *p matches RecordingPhase::Running(rec) ==> r == Some(rec)
                &&& *p matches RecordingPhase::Paused(rec) ==> r == Some(rec)
            },
{
}

/// A recording is not started while another is under way, nor where calls are captured
/// instead and recording is off.
pub proof fn one_recording_at_a_time(
    p: RecordingPhase,
    captured: bool,
    enabled: bool,
    r: Option<String>,
)
    requires
        call_ensures(RecordingPhase::start_refusal, (&p, captured, enabled), r),
    ensures
        !(p is Idle) ==> r is Some,
        p is Idle ==> (r is Some <==> captured && !enabled),
        captured && !enabled ==> r->0@ == "Live recording is disabled when SipFlow is enabled"@,
        !(captured && !enabled) && r is Some ==> r->0@ == "Recording already active"@,
{
}

/// A call records itself only where that is turned on, nothing records it yet, and it has a
/// file to go to.
pub proof fn recording_starts_by_itself_with_a_file(
    enabled: bool,
    auto_start: bool,
    active: bool,
    file: Option<String>,
    r: Option<String>,
)
    requires
        call_ensures(auto_recording_path, (enabled, auto_start, active, &file), r),
    ensures
        !enabled || !auto_start || active || file is None ==> r is None,
        r is Some ==> r == file && file->0@.len() > 0,
        enabled && auto_start && !active && file is Some && file->0@.len() > 0 ==> r == file,
{
}

/// A call is held in one direction and let go in both, by the same description, and neither
/// can be without one.
pub proof fn hold_and_unhold_use_one_description(
    m: MediaState,
    hold: Result<String, String>,
    unhold: Result<String, String>,
)
    requires
        call_ensures(generate_hold_sdp, (&m,), hold),
        call_ensures(generate_unhold_sdp, (&m,), unhold),
    ensures
        hold is Ok <==> unhold is Ok,
        hold is Ok <==> held_description(m) is Some,
        hold is Ok ==> hold->Ok_0@ == with_direction(held_description(m)->0@, "sendonly"@),
        unhold is Ok ==> unhold->Ok_0@ == with_direction(held_description(m)->0@, "sendrecv"@),
{
}

/// A request to the caller succeeds with a status of two hundred and fails with any other; a
/// caller that does not reply fails a re-INVITE but not a ping.
pub proof fn silent_caller_fails_only_a_reinvite(
    reply: CallerReply,
    reinvite: Result<(), String>,
    ping: Result<(), String>,
)
    requires
        call_ensures(reinvite_outcome, (reply,), reinvite),
        call_ensures(options_ping_outcome, (reply,), ping),
    ensures
        reply matches CallerReply::Status(code) ==> (reinvite is Ok <==> 200 <= code <= 299) && (
        ping is Ok <==> 200 <= code <= 299),
        reply is NoResponse ==> reinvite is Err && ping is Ok,
        reply is Failed ==> reinvite is Err && ping is Err,
        reply matches CallerReply::Failed { error } ==> reinvite->Err_0@ == "re-INVITE failed: "@
            + error@ && ping->Err_0@ == "Failed to send OPTIONS ping: "@ + error@,
{
}

/// A file is played from where it is, by its name or over the net, as it was asked to be.
pub proof fn file_is_played_from_where_it_is(
    resolved: String,
    waits: bool,
    track_id: &str,
    loops: bool,
    source: MediaSource,
    options: PlayOptions,
)
    requires
        call_ensures(audio_file_playback, (resolved, waits, track_id, loops), (source, options)),
    ensures
        is_remote(resolved@) ==> source == (MediaSource::Url { url: resolved }),
        !is_remote(resolved@) ==> source == (MediaSource::File { path: resolved }),
        options.loop_playback == loops && options.await_completion == waits,
        options.track_id is Some && options.track_id->0@ == track_id@,
        !options.interrupt_on_dtmf && !options.send_progress,
{
}

/// A file that is found, remote or under the configuration is played from where it is; only
/// one that exists in the configuration alone is looked for there.
pub proof fn missing_file_is_looked_for_in_the_configuration(
    file: &str,
    in_config: bool,
    found: String,
    nowhere: String,
    configured: String,
)
    requires
        call_ensures(resolve_audio_file_path, (file, true, in_config), found),
        call_ensures(resolve_audio_file_path, (file, false, false), nowhere),
        call_ensures(resolve_audio_file_path, (file, false, true), configured),
    ensures
        found@ == file@ && nowhere@ == file@,
        configured@ == file@ || configured@ == "config/"@ + file@,
        is_remote(file@) ==> configured@ == file@,
        !is_remote(file@) && !text::starts_with(file@, "config/"@) && !text::starts_with(
            file@,
            "./config/"@,
        ) ==> configured@ == "config/"@ + file@,
{
}

/// The name of a tone tells how high it is, how long, and when it was made, in this order.
pub proof fn tone_is_named_by_what_it_is(frequency: u32, duration_ms: u64, nanos: u64, r: String)
    requires
        call_ensures(tone_file_name, (frequency, duration_ms, nanos), r),
    ensures
        r@ == "rustpbx_tone_"@ + text::decimal(frequency as nat) + "hz_"@ + text::decimal(
            duration_ms as nat,
        ) + "ms_"@ + text::decimal(nanos as nat) + ".wav"@,
{
}

/// Early media can only be played from a file: any other source is refused, and says so.
pub proof fn early_media_is_played_from_a_file(
    source: MediaSource,
    offer: Option<String>,
    r: Result<RingPlan, String>,
)
    requires
        call_ensures(plan_ring, (Some(RingbackPolicy::EarlyMedia { source }), &offer), r),
    ensures
        source is File ==> r is Ok && r->Ok_0 == (RingPlan::EarlyMedia { path: source->path }),
        !(source is File) ==> r is Err && r->Err_0@ == "EarlyMedia requires a File media source"@,
{
}

} // verus!
