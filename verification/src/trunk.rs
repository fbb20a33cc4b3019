//! The trunks that calls come from and go to.

use crate::idset::IdSet;
use crate::json::{
    at, bool_at, extract_string_array, get_at, get_bool, get_number, get_text, get_texts, low32,
    number_at, string_array, strings_exactly, text_at, texts_in, to_low32, value_of, Json,
};
use crate::json::{all_texts, texts, JsonNumber};
use crate::table::Table;
use crate::text;
use vstd::prelude::*;

verus! {

#[derive(Clone, Copy, PartialEq, Eq, Debug, Structural)]
pub enum TrunkDirection {
    Inbound,
    Outbound,
    Bidirectional,
}

impl TrunkDirection {
    pub open spec fn takes_calls(self) -> bool {
        self != TrunkDirection::Outbound
    }

    pub fn allows_inbound(&self) -> (r: bool)
        ensures
            r == self.takes_calls(),
    {
        !matches!(self, TrunkDirection::Outbound)
    }
}

#[derive(Clone, Copy, PartialEq, Eq, Debug, Structural)]
pub enum CallIdMode {
    Transparent,
    Rewrite,
}

#[derive(Clone, Copy, PartialEq, Eq, Debug, Structural)]
pub enum CacPolicy {
    Lossy,
    Reject,
    Overflow,
}

#[derive(Clone, Copy, PartialEq, Eq, Debug, Structural)]
pub enum MediaMode {
    Off,
    Bypass,
    Auto,
    ForceTranscode,
}

#[derive(Clone, Copy, PartialEq, Eq, Debug, Structural)]
pub enum VideoPolicy {
    PassThrough,
    Strip,
    Transcode,
}

/// Where a piece of configuration comes from.
pub enum ConfigOrigin {
    Embedded,
    File(String),
}

/// What is recorded of calls; the settings other than the switch are kept as written.
pub struct RecordingPolicy {
    pub enabled: Option<bool>,
    pub settings: String,
}

/// The rules for headers, as written.
pub struct HeaderRules {
    pub encoded: String,
}

/// What a caller hears for each outcome of a call.
pub struct Ringback {
    pub busy: Option<String>,
    pub reject: Option<String>,
    pub offline: Option<String>,
    pub notfound: Option<String>,
    pub ring: Option<String>,
    pub play_duration_secs: Option<u64>,
}

/// A member that is a text, or is not there.
pub open spec fn optional_text(v: Option<Json>) -> Option<Option<Seq<char>>> {
    match v {
        None => Some(None),
        Some(Json::Null) => Some(None),
        Some(Json::Text(s)) => Some(Some(s@)),
        Some(_) => None,
    }
}

/// A member that is a number, or is not there.
pub open spec fn optional_number(v: Option<Json>) -> Option<Option<u64>> {
    match v {
        None => Some(None),
        Some(Json::Null) => Some(None),
        Some(Json::Number(JsonNumber::Unsigned(n))) => Some(Some(n)),
        Some(_) => None,
    }
}

/// The value is an object whose members are what a ringback needs.
pub open spec fn reads_as_ringback(j: Json) -> bool {
    &&& j is Object
    &&& optional_text(j.member("busy"@)) is Some
    &&& optional_text(j.member("reject"@)) is Some
    &&& optional_text(j.member("offline"@)) is Some
    &&& optional_text(j.member("notfound"@)) is Some
    &&& optional_text(j.member("ring"@)) is Some
    &&& optional_number(j.member("play_duration_secs"@)) is Some
}

pub open spec fn is_ringback(r: Ringback, j: Json) -> bool {
    &&& text::opt_text(r.busy) == optional_text(j.member("busy"@))->0
    &&& text::opt_text(r.reject) == optional_text(j.member("reject"@))->0
    &&& text::opt_text(r.offline) == optional_text(j.member("offline"@))->0
    &&& text::opt_text(r.notfound) == optional_text(j.member("notfound"@))->0
    &&& text::opt_text(r.ring) == optional_text(j.member("ring"@))->0
    &&& r.play_duration_secs == optional_number(j.member("play_duration_secs"@))->0
}

fn read_optional_text(v: Option<&Json>) -> (r: Option<Option<String>>)
    ensures
        r is Some <==> optional_text(value_of(v)) is Some,
        r matches Some(t) ==> text::opt_text(t) == optional_text(value_of(v))->0,
{
    match v {
        None => Some(None),
        Some(Json::Null) => Some(None),
        Some(Json::Text(s)) => Some(Some(s.clone())),
        Some(_) => None,
    }
}

fn read_optional_number(v: Option<&Json>) -> (r: Option<Option<u64>>)
    ensures
        r == optional_number(value_of(v)),
{
    match v {
        None => Some(None),
        Some(Json::Null) => Some(None),
        Some(Json::Number(JsonNumber::Unsigned(n))) => Some(Some(*n)),
        Some(_) => None,
    }
}

impl Ringback {
    /// Reads what a caller hears out of a JSON value.
    pub fn read(j: &Json) -> (r: Option<Ringback>)
        ensures
            r is Some <==> reads_as_ringback(*j),
            r matches Some(rb) ==> is_ringback(rb, *j),
    {
        match j {
            Json::Object(_) => {},
            _ => {
                return None;
            },
        }
        let busy = read_optional_text(j.get("busy"));
        let reject = read_optional_text(j.get("reject"));
        let offline = read_optional_text(j.get("offline"));
        let notfound = read_optional_text(j.get("notfound"));
        let ring = read_optional_text(j.get("ring"));
        let play_duration_secs = read_optional_number(j.get("play_duration_secs"));
        match (busy, reject, offline, notfound, ring, play_duration_secs) {
            (
                Some(busy),
                Some(reject),
                Some(offline),
                Some(notfound),
                Some(ring),
                Some(play_duration_secs),
            ) => Some(Ringback { busy, reject, offline, notfound, ring, play_duration_secs }),
            _ => None,
        }
    }
}

pub struct TrunkConfig {
    pub dest: String,
    pub backup_dest: Option<String>,
    pub username: Option<String>,
    pub password: Option<String>,
    pub codec: Vec<String>,
    pub disabled: Option<bool>,
    pub max_calls: Option<u32>,
    pub max_cps: Option<u32>,
    pub weight: Option<u32>,
    pub transport: Option<String>,
    pub id: Option<i64>,
    pub direction: Option<TrunkDirection>,
    pub inbound_hosts: Vec<String>,
    pub recording: Option<RecordingPolicy>,
    pub incoming_from_user_prefix: Option<String>,
    pub incoming_to_user_prefix: Option<String>,
    pub country: Option<String>,
    pub policy: Option<String>,
    pub register_enabled: Option<bool>,
    pub register_expires: Option<u32>,
    pub register_extra_headers: Option<Vec<(String, String)>>,
    pub rewrite_hostport: bool,
    pub did_numbers: Vec<String>,
    pub origin: ConfigOrigin,
    pub call_id_mode: Option<CallIdMode>,
    pub health_check_enabled: Option<bool>,
    pub health_check_per_ip: Option<bool>,
    pub health_check_interval_secs: Option<u64>,
    pub health_check_probe_count: Option<u32>,
    pub health_check_fallback_trunk: Option<String>,
    pub cac_policy: Option<CacPolicy>,
    pub overflow_threshold: Option<u32>,
    pub media_mode: Option<MediaMode>,
    pub video_policy: Option<VideoPolicy>,
    pub header_rules: Option<HeaderRules>,
    pub ringback: Option<Ringback>,
}

impl TrunkConfig {
    /// A trunk to a destination, about which nothing else is said.
    pub fn bare(dest: String) -> (r: TrunkConfig)
        ensures
            r.dest == dest,
            r.codec@.len() == 0,
            r.inbound_hosts@.len() == 0,
            r.did_numbers@.len() == 0,
            r.origin is Embedded,
            !r.rewrite_hostport,
            r.backup_dest is None && r.username is None && r.password is None,
            r.disabled is None && r.max_calls is None && r.max_cps is None && r.weight is None,
            r.transport is None && r.id is None && r.direction is None && r.recording is None,
            r.incoming_from_user_prefix is None && r.incoming_to_user_prefix is None,
            r.country is None && r.policy is None,
            r.register_enabled is None && r.register_expires is None,
            r.register_extra_headers is None,
            r.call_id_mode is None && r.health_check_enabled is None,
            r.health_check_per_ip is None && r.health_check_interval_secs is None,
            r.health_check_probe_count is None && r.health_check_fallback_trunk is None,
            r.cac_policy is None && r.overflow_threshold is None && r.media_mode is None,
            r.video_policy is None && r.header_rules is None && r.ringback is None,
    {
        TrunkConfig {
            dest,
            backup_dest: None,
            username: None,
            password: None,
            codec: Vec::new(),
            disabled: None,
            max_calls: None,
            max_cps: None,
            weight: None,
            transport: None,
            id: None,
            direction: None,
            inbound_hosts: Vec::new(),
            recording: None,
            incoming_from_user_prefix: None,
            incoming_to_user_prefix: None,
            country: None,
            policy: None,
            register_enabled: None,
            register_expires: None,
            register_extra_headers: None,
            rewrite_hostport: false,
            did_numbers: Vec::new(),
            origin: ConfigOrigin::Embedded,
            call_id_mode: None,
            health_check_enabled: None,
            health_check_per_ip: None,
            health_check_interval_secs: None,
            health_check_probe_count: None,
            health_check_fallback_trunk: None,
            cac_policy: None,
            overflow_threshold: None,
            media_mode: None,
            video_policy: None,
            header_rules: None,
            ringback: None,
        }
    }
}

pub open spec fn call_id_mode(name: Option<Seq<char>>) -> Option<CallIdMode> {
    if name == Some("transparent"@) {
        Some(CallIdMode::Transparent)
    } else if name == Some("rewrite"@) {
        Some(CallIdMode::Rewrite)
    } else {
        None
    }
}

pub open spec fn cac_policy(name: Option<Seq<char>>) -> Option<CacPolicy> {
    if name == Some("lossy"@) {
        Some(CacPolicy::Lossy)
    } else if name == Some("reject"@) {
        Some(CacPolicy::Reject)
    } else if name == Some("overflow"@) {
        Some(CacPolicy::Overflow)
    } else {
        None
    }
}

pub open spec fn media_mode(name: Option<Seq<char>>) -> Option<MediaMode> {
    if name == Some("none"@) {
        Some(MediaMode::Off)
    } else if name == Some("bypass"@) {
        Some(MediaMode::Bypass)
    } else if name == Some("auto"@) {
        Some(MediaMode::Auto)
    } else if name == Some("force_transcode"@) {
        Some(MediaMode::ForceTranscode)
    } else {
        None
    }
}

pub open spec fn video_policy(name: Option<Seq<char>>) -> Option<VideoPolicy> {
    if name == Some("pass_through"@) {
        Some(VideoPolicy::PassThrough)
    } else if name == Some("strip"@) {
        Some(VideoPolicy::Strip)
    } else if name == Some("transcode"@) {
        Some(VideoPolicy::Transcode)
    } else {
        None
    }
}

fn is_word(name: &Option<String>, word: &str) -> (r: bool)
    ensures
        r == (text::opt_text(*name) == Some(word@)),
{
    match name {
        Some(n) => text::same(n, word),
        None => false,
    }
}

fn read_call_id_mode(name: &Option<String>) -> (r: Option<CallIdMode>)
    ensures
        r == call_id_mode(text::opt_text(*name)),
{
    if is_word(name, "transparent") {
        Some(CallIdMode::Transparent)
    } else if is_word(name, "rewrite") {
        Some(CallIdMode::Rewrite)
    } else {
        None
    }
}

fn read_cac_policy(name: &Option<String>) -> (r: Option<CacPolicy>)
    ensures
        r == cac_policy(text::opt_text(*name)),
{
    if is_word(name, "lossy") {
        Some(CacPolicy::Lossy)
    } else if is_word(name, "reject") {
        Some(CacPolicy::Reject)
    } else if is_word(name, "overflow") {
        Some(CacPolicy::Overflow)
    } else {
        None
    }
}

fn read_media_mode(name: &Option<String>) -> (r: Option<MediaMode>)
    ensures
        r == media_mode(text::opt_text(*name)),
{
    if is_word(name, "none") {
        Some(MediaMode::Off)
    } else if is_word(name, "bypass") {
        Some(MediaMode::Bypass)
    } else if is_word(name, "auto") {
        Some(MediaMode::Auto)
    } else if is_word(name, "force_transcode") {
        Some(MediaMode::ForceTranscode)
    } else {
        None
    }
}

fn read_video_policy(name: &Option<String>) -> (r: Option<VideoPolicy>)
    ensures
        r == video_policy(text::opt_text(*name)),
{
    if is_word(name, "pass_through") {
        Some(VideoPolicy::PassThrough)
    } else if is_word(name, "strip") {
        Some(VideoPolicy::Strip)
    } else if is_word(name, "transcode") {
        Some(VideoPolicy::Transcode)
    } else {
        None
    }
}

/// The codecs: those for sound and then those for pictures, where any for sound are
/// named; else the common list.
pub open spec fn sbc_codecs(sbc: Option<Json>) -> Seq<Seq<char>> {
    let audio = texts_in(at(sbc, "audio_codecs"@));
    if audio.len() > 0 {
        audio + texts_in(at(sbc, "video_codecs"@))
    } else {
        texts_in(at(sbc, "codecs"@))
    }
}

fn read_codecs(sbc: Option<&Json>) -> (r: Vec<String>)
    ensures
        text::views(r@) == sbc_codecs(value_of(sbc)),
{
    let mut audio = get_texts(get_at(sbc, "audio_codecs"));
    if audio.len() > 0 {
        let ghost first = audio@;
        let mut video = get_texts(get_at(sbc, "video_codecs"));
        let ghost second = video@;
        audio.append(&mut video);
        assert(text::views(audio@) =~= text::views(first) + text::views(second));
        audio
    } else {
        get_texts(get_at(sbc, "codecs"))
    }
}

pub open spec fn low_number_at(v: Option<Json>, key: Seq<char>) -> Option<u32> {
    match number_at(v, key) {
        Some(n) => Some(low32(n)),
        None => None,
    }
}

fn get_low_number(v: Option<&Json>, key: &str) -> (r: Option<u32>)
    ensures
        r == low_number_at(value_of(v), key@),
{
    match get_number(v, key) {
        Some(n) => Some(to_low32(n)),
        None => None,
    }
}

/// The ringback of a trunk is what its metadata say, where they say one that can be
/// read.
pub open spec fn is_ringback_of(r: Option<Ringback>, v: Option<Json>) -> bool {
    match v {
        Some(j) => {
            &&& r is Some <==> reads_as_ringback(j)
            &&& (r matches Some(rb) ==> is_ringback(rb, j))
        },
        None => r is None,
    }
}

/// What the metadata of a trunk say of it as a session border controller, as far as it
/// goes into the configuration.
pub open spec fn is_sbc_config(c: TrunkConfig, sbc: Option<Json>, header_rules: Option<HeaderRules>) -> bool {
    &&& c.call_id_mode == call_id_mode(text_at(sbc, "call_id_mode"@))
    &&& c.health_check_enabled == bool_at(sbc, "health_check_enabled"@)
    &&& c.health_check_per_ip == bool_at(sbc, "health_check_per_ip"@)
    &&& c.health_check_interval_secs == number_at(sbc, "health_check_interval"@)
    &&& c.health_check_probe_count == low_number_at(sbc, "health_check_probe_count"@)
    &&& text::opt_text(c.health_check_fallback_trunk) == text_at(sbc, "health_check_fallback_trunk"@)
    &&& c.cac_policy == cac_policy(text_at(sbc, "cac_policy"@))
    &&& c.overflow_threshold == low_number_at(sbc, "overflow_threshold"@)
    &&& c.media_mode == media_mode(text_at(sbc, "media_mode"@))
    &&& c.video_policy == video_policy(text_at(sbc, "video_policy"@))
    &&& c.header_rules == (if at(sbc, "header_rules"@) is Some {
        header_rules
    } else {
        None
    })
    &&& is_ringback_of(c.ringback, at(sbc, "ringback"@))
    &&& text::views(c.codec@) == sbc_codecs(sbc)
    &&& match bool_at(sbc, "recording_enabled"@) {
        Some(enabled) => c.recording matches Some(policy) && policy.enabled == Some(enabled)
            && policy.settings@.len() == 0,
        None => c.recording is None,
    }
}

/// Reads the part of a trunk's metadata that is about the session border controller.
/// `header_rules` are its header rules, where they can be read.
pub fn sbc_config_from_metadata(meta: &Json, header_rules: Option<HeaderRules>) -> (r: TrunkConfig)
    ensures
        is_sbc_config(r, meta.member("sbc"@), header_rules),
        r.dest@.len() == 0,
        r.backup_dest is None && r.username is None && r.password is None,
        r.disabled is None && r.max_calls is None && r.max_cps is None && r.weight is None,
        r.transport is None && r.id is None && r.direction is None,
        r.inbound_hosts@.len() == 0 && r.did_numbers@.len() == 0,
        r.incoming_from_user_prefix is None && r.incoming_to_user_prefix is None,
        r.country is None && r.policy is None,
        r.register_enabled is None && r.register_expires is None,
        r.register_extra_headers is None && !r.rewrite_hostport,
        r.origin is Embedded,
{
    let sbc = meta.get("sbc");
    proof {
        reveal_strlit("");
    }
    let mut c = TrunkConfig::bare("".to_owned());
    c.call_id_mode = read_call_id_mode(&get_text(sbc, "call_id_mode"));
    c.health_check_enabled = get_bool(sbc, "health_check_enabled");
    c.health_check_per_ip = get_bool(sbc, "health_check_per_ip");
    c.health_check_interval_secs = get_number(sbc, "health_check_interval");
    c.health_check_probe_count = get_low_number(sbc, "health_check_probe_count");
    c.health_check_fallback_trunk = get_text(sbc, "health_check_fallback_trunk");
    c.cac_policy = read_cac_policy(&get_text(sbc, "cac_policy"));
    c.overflow_threshold = get_low_number(sbc, "overflow_threshold");
    c.media_mode = read_media_mode(&get_text(sbc, "media_mode"));
    c.video_policy = read_video_policy(&get_text(sbc, "video_policy"));
    c.header_rules = if get_at(sbc, "header_rules").is_some() {
        header_rules
    } else {
        None
    };
    c.ringback = match get_at(sbc, "ringback") {
        Some(j) => Ringback::read(j),
        None => None,
    };
    c.codec = read_codecs(sbc);
    c.recording = match get_bool(sbc, "recording_enabled") {
        Some(enabled) => Some(RecordingPolicy { enabled: Some(enabled), settings: "".to_owned() }),
        None => None,
    };
    c
}

/// A trunk as it is stored. The metadata come with the header rules and the recording
/// policy that they hold, where those can be read.
pub struct TrunkModel {
    pub id: i64,
    pub name: String,
    pub sip_server: Option<String>,
    pub outbound_proxy: Option<String>,
    pub sip_transport: String,
    pub direction: TrunkDirection,
    pub auth_username: Option<String>,
    pub auth_password: Option<String>,
    pub is_active: bool,
    pub max_concurrent: Option<i32>,
    pub max_cps: Option<i32>,
    pub allowed_ips: Option<Json>,
    pub did_numbers: Option<Json>,
    pub incoming_from_user_prefix: Option<String>,
    pub incoming_to_user_prefix: Option<String>,
    pub register_enabled: bool,
    pub register_expires: Option<i32>,
    pub register_extra_headers: Option<Vec<(String, String)>>,
    pub rewrite_hostport: bool,
    pub metadata: Option<Json>,
    pub header_rules: Option<HeaderRules>,
    pub recording: Option<RecordingPolicy>,
}

/// The number as the same bits without a sign.
pub open spec fn unsigned_bits(v: i32) -> u32 {
    if v >= 0 {
        v as u32
    } else {
        (v + 0x1_0000_0000) as u32
    }
}

fn to_unsigned_bits(v: Option<i32>) -> (r: Option<u32>)
    ensures
        r == (match v {
            Some(n) => Some(unsigned_bits(n)),
            None => None,
        }),
{
    match v {
        Some(n) => {
            if n >= 0 {
                Some(n as u32)
            } else {
                let wide: i64 = n as i64 + 0x1_0000_0000;
                Some(wide as u32)
            }
        },
        None => None,
    }
}

/// The address of a trunk: its server, else its proxy, else none.
pub open spec fn trunk_dest(model: TrunkModel) -> Seq<char> {
    match (model.sip_server, model.outbound_proxy) {
        (Some(server), _) => server@,
        (None, Some(proxy)) => proxy@,
        (None, None) => Seq::empty(),
    }
}

/// Of two values the first counts where it is there.
pub open spec fn first_of<T>(a: Option<T>, b: Option<T>) -> Option<T> {
    if a is Some {
        a
    } else {
        b
    }
}

/// The numbers that a trunk is dialled by: a list of texts, and nothing else in it.
pub open spec fn did_numbers(v: Option<Json>) -> Seq<Seq<char>> {
    match v {
        Some(Json::List(items)) => if all_texts(items@) {
            texts(items@)
        } else {
            Seq::empty()
        },
        _ => Seq::empty(),
    }
}

/// The trunk holds what its model says, apart from what goes by the metadata.
pub open spec fn is_trunk_of(t: TrunkConfig, model: TrunkModel) -> bool {
    &&& t.dest@ == trunk_dest(model)
    &&& t.backup_dest == (match model.outbound_proxy {
        Some(proxy) => if proxy@ != trunk_dest(model) {
            Some(proxy)
        } else {
            None
        },
        None => None,
    })
    &&& t.username == model.auth_username
    &&& t.password == model.auth_password
    &&& t.disabled == Some(!model.is_active)
    &&& t.max_calls == (match model.max_concurrent {
        Some(n) => Some(unsigned_bits(n)),
        None => None,
    })
    &&& t.max_cps == (match model.max_cps {
        Some(n) => Some(unsigned_bits(n)),
        None => None,
    })
    &&& t.weight is None
    &&& t.transport == Some(model.sip_transport)
    &&& t.id == Some(model.id)
    &&& t.direction == Some(model.direction)
    &&& text::views(t.inbound_hosts@) == string_array(model.allowed_ips)
    &&& t.incoming_from_user_prefix == model.incoming_from_user_prefix
    &&& t.incoming_to_user_prefix == model.incoming_to_user_prefix
    &&& t.country is None
    &&& t.policy is None
    &&& t.register_enabled == (if model.register_enabled {
        Some(true)
    } else {
        None
    })
    &&& t.register_expires == (match model.register_expires {
        Some(n) => Some(unsigned_bits(n)),
        None => None,
    })
    &&& t.register_extra_headers == model.register_extra_headers
    &&& t.rewrite_hostport == model.rewrite_hostport
    &&& text::views(t.did_numbers@) == did_numbers(model.did_numbers)
    &&& t.origin is Embedded
}

/// The trunk has no settings of a session border controller.
pub open spec fn is_plain(t: TrunkConfig, recording: Option<RecordingPolicy>) -> bool {
    &&& t.codec@.len() == 0
    &&& t.recording == recording
    &&& t.call_id_mode is None && t.health_check_enabled is None && t.health_check_per_ip is None
    &&& t.health_check_interval_secs is None && t.health_check_probe_count is None
    &&& t.health_check_fallback_trunk is None && t.cac_policy is None && t.overflow_threshold is None
    &&& t.media_mode is None && t.video_policy is None && t.header_rules is None
    &&& t.ringback is None
}

/// The recording policy that the metadata hold outside their part about the session
/// border controller.
pub open spec fn metadata_recording(model: TrunkModel) -> Option<RecordingPolicy> {
    if at(model.metadata, "recording"@) is Some {
        model.recording
    } else {
        None
    }
}

/// The trunk has the settings that its metadata give the session border controller, and
/// the recording policy of the metadata where those give none.
pub open spec fn is_sbc_trunk(t: TrunkConfig, model: TrunkModel, sbc: Json) -> bool {
    exists|c: TrunkConfig|
        {
            &&& #[trigger] is_sbc_config(c, Some(sbc), model.header_rules)
            &&& t.call_id_mode == c.call_id_mode
            &&& t.health_check_enabled == c.health_check_enabled
            &&& t.health_check_per_ip == c.health_check_per_ip
            &&& t.health_check_interval_secs == c.health_check_interval_secs
            &&& t.health_check_probe_count == c.health_check_probe_count
            &&& t.health_check_fallback_trunk == c.health_check_fallback_trunk
            &&& t.cac_policy == c.cac_policy
            &&& t.overflow_threshold == c.overflow_threshold
            &&& t.media_mode == c.media_mode
            &&& t.video_policy == c.video_policy
            &&& t.header_rules == c.header_rules
            &&& t.ringback == c.ringback
            &&& t.codec@ == c.codec@
            &&& t.recording == first_of(c.recording, metadata_recording(model))
        }
}

/// The configuration of a stored trunk, under its name.
pub fn convert_trunk(model: TrunkModel) -> (r: Option<(String, TrunkConfig)>)
    ensures
        r matches Some((name, t)) && name == model.name && is_trunk_of(t, model) && (match at(
            model.metadata,
            "sbc"@,
        ) {
            Some(sbc) => is_sbc_trunk(t, model, sbc),
            None => is_plain(t, metadata_recording(model)),
        }),
{
    let dest = match &model.sip_server {
        Some(server) => server.clone(),
        None => match &model.outbound_proxy {
            Some(proxy) => proxy.clone(),
            None => {
                proof {
                    reveal_strlit("");
                    assert(""@ =~= Seq::empty());
                }
                "".to_owned()
            },
        },
    };
    let backup_dest = match &model.outbound_proxy {
        Some(proxy) => if text::same(proxy, &dest) {
            None
        } else {
            Some(proxy.clone())
        },
        None => None,
    };
    let inbound_hosts = extract_string_array(&model.allowed_ips);
    let numbers = match &model.did_numbers {
        Some(value) => match strings_exactly(value) {
            Some(v) => v,
            None => Vec::new(),
        },
        None => Vec::new(),
    };
    proof {
        if did_numbers(model.did_numbers).len() == 0 {
            assert(text::views(numbers@) =~= did_numbers(model.did_numbers));
        }
    }
    let has_policy = match &model.metadata {
        Some(meta) => meta.get("recording").is_some(),
        None => false,
    };
    let recording = if has_policy {
        model.recording
    } else {
        None
    };
    let mut trunk = TrunkConfig::bare(dest);
    trunk.backup_dest = backup_dest;
    trunk.username = model.auth_username;
    trunk.password = model.auth_password;
    trunk.disabled = Some(!model.is_active);
    trunk.max_calls = to_unsigned_bits(model.max_concurrent);
    trunk.max_cps = to_unsigned_bits(model.max_cps);
    trunk.transport = Some(model.sip_transport);
    trunk.id = Some(model.id);
    trunk.direction = Some(model.direction);
    trunk.inbound_hosts = inbound_hosts;
    trunk.recording = recording;
    trunk.incoming_from_user_prefix = model.incoming_from_user_prefix;
    trunk.incoming_to_user_prefix = model.incoming_to_user_prefix;
    trunk.register_enabled = if model.register_enabled {
        Some(true)
    } else {
        None
    };
    trunk.register_expires = to_unsigned_bits(model.register_expires);
    trunk.register_extra_headers = model.register_extra_headers;
    trunk.rewrite_hostport = model.rewrite_hostport;
    trunk.did_numbers = numbers;
    assert(is_trunk_of(trunk, model));
    if let Some(meta) = &model.metadata {
        if meta.get("sbc").is_some() {
            let sbc = sbc_config_from_metadata(meta, model.header_rules);
            let ghost c = sbc;
            trunk.call_id_mode = sbc.call_id_mode;
            trunk.health_check_enabled = sbc.health_check_enabled;
            trunk.health_check_per_ip = sbc.health_check_per_ip;
            trunk.health_check_interval_secs = sbc.health_check_interval_secs;
            trunk.health_check_probe_count = sbc.health_check_probe_count;
            trunk.health_check_fallback_trunk = sbc.health_check_fallback_trunk;
            trunk.cac_policy = sbc.cac_policy;
            trunk.overflow_threshold = sbc.overflow_threshold;
            trunk.media_mode = sbc.media_mode;
            trunk.video_policy = sbc.video_policy;
            trunk.header_rules = sbc.header_rules;
            trunk.codec = sbc.codec;
            if sbc.recording.is_some() {
                trunk.recording = sbc.recording;
            }
            trunk.ringback = sbc.ringback;
            assert(is_sbc_config(c, at(model.metadata, "sbc"@), model.header_rules));
        }
    }
    Some((model.name, trunk))
}

/// Any trunk takes calls from listed hosts.
pub open spec fn lists_hosts(trunks: Table<TrunkConfig>) -> bool {
    exists|i: int|
        0 <= i < trunks.entries@.len() && (#[trigger] trunks.entries@[i]).1.inbound_hosts@.len() > 0
}

pub fn any_inbound_hosts(trunks: &Table<TrunkConfig>) -> (r: bool)
    ensures
        r == lists_hosts(*trunks),
{
    let mut i: usize = 0;
    while i < trunks.entries.len()
        invariant
            i <= trunks.entries@.len(),
            forall|j: int|
                0 <= j < i ==> (#[trigger] trunks.entries@[j]).1.inbound_hosts@.len() == 0,
        decreases trunks.entries@.len() - i,
    {
        if trunks.entries[i].1.inbound_hosts.len() > 0 {
            assert(trunks.entries@[i as int].1.inbound_hosts@.len() > 0);
            return true;
        }
        i += 1;
    }
    false
}

/// One of the names is in the set.
pub open spec fn any_in(names: Seq<String>, set: Set<Seq<char>>) -> bool {
    exists|i: int| 0 <= i < names.len() && set.contains((#[trigger] names[i])@)
}

fn is_any_in(names: &Vec<String>, set: &IdSet) -> (r: bool)
    ensures
        r == any_in(names@, set@),
{
    let mut i: usize = 0;
    while i < names.len()
        invariant
            i <= names@.len(),
            forall|j: int| 0 <= j < i ==> !set@.contains((#[trigger] names@[j])@),
        decreases names@.len() - i,
    {
        if set.contains(&names[i]) {
            assert(set@.contains(names@[i as int]@));
            return true;
        }
        i += 1;
    }
    false
}

/// A call from an address may come in over the trunk: one of its hosts is at the address,
/// and it takes calls.
pub open spec fn takes_call_from(t: TrunkConfig, hosts: Set<Seq<char>>) -> bool {
    (t.direction matches Some(d) ==> d.takes_calls()) && any_in(t.inbound_hosts@, hosts)
}

/// The names of the trunks that take calls from an address.
pub open spec fn trunks_from(entries: Seq<(String, TrunkConfig)>, hosts: Set<Seq<char>>) -> Seq<
    Seq<char>,
>
    decreases entries.len(),
{
    if entries.len() == 0 {
        Seq::empty()
    } else {
        let before = trunks_from(entries.drop_last(), hosts);
        if takes_call_from(entries.last().1, hosts) {
            before.push(entries.last().0@)
        } else {
            before
        }
    }
}

/// The trunks that a call from an address may come in over. `hosts` are the hosts that
/// are found at the address.
pub fn find_trunks_by_ip(trunks: &Table<TrunkConfig>, hosts: &IdSet) -> (r: Vec<String>)
    ensures
        text::views(r@) == trunks_from(trunks.entries@, hosts@),
{
    let mut r: Vec<String> = Vec::new();
    let mut i: usize = 0;
    let ghost all = trunks.entries@;
    proof {
        assert(all.subrange(0, 0) =~= Seq::empty());
        assert(text::views(r@) =~= Seq::empty());
    }
    while i < trunks.entries.len()
        invariant
            i <= trunks.entries@.len(),
            all == trunks.entries@,
            text::views(r@) == trunks_from(all.subrange(0, i as int), hosts@),
        decreases trunks.entries@.len() - i,
    {
        proof {
            assert(all.subrange(0, i + 1).drop_last() =~= all.subrange(0, i as int));
            assert(all.subrange(0, i + 1).last() == all[i as int]);
        }
        let trunk = &trunks.entries[i].1;
        let allowed = match &trunk.direction {
            Some(d) => d.allows_inbound(),
            None => true,
        };
        if allowed && is_any_in(&trunk.inbound_hosts, hosts) {
            let ghost before = text::views(r@);
            r.push(trunks.entries[i].0.clone());
            assert(text::views(r@) =~= before.push(all[i as int].0@));
        }
        i += 1;
    }
    assert(all.subrange(0, all.len() as int) =~= all);
    r
}

/// The first trunk that a call from an address may come in over.
pub fn find_trunk_by_ip(trunks: &Table<TrunkConfig>, hosts: &IdSet) -> (r: Option<String>)
    ensures
        r is Some <==> trunks_from(trunks.entries@, hosts@).len() > 0,
        r matches Some(name) ==> name@ == trunks_from(trunks.entries@, hosts@)[0],
{
    let found = find_trunks_by_ip(trunks, hosts);
    if found.len() == 0 {
        None
    } else {
        assert(text::views(found@)[0] == found@[0]@);
        Some(found[0].clone())
    }
}

/// A trunk that only makes calls takes none, whatever its hosts.
pub proof fn outbound_trunk_takes_no_call(t: TrunkConfig, hosts: Set<Seq<char>>)
    requires
        t.direction == Some(TrunkDirection::Outbound),
    ensures
        !takes_call_from(t, hosts),
{
}

/// A stored trunk with a server is dialled at that server, whether or not it has a proxy;
/// the proxy, where it differs from the server, is the backup. One with a proxy alone is
/// dialled at the proxy, without a backup.
pub proof fn trunk_is_dialled_at_its_server(t: TrunkConfig, model: TrunkModel)
    requires
        is_trunk_of(t, model),
    ensures
        model.sip_server matches Some(server) ==> t.dest@ == server@,
        model.sip_server is Some && model.outbound_proxy is Some && model.outbound_proxy->0@
            != model.sip_server->0@ ==> t.backup_dest == model.outbound_proxy,
        model.sip_server is None ==> (model.outbound_proxy matches Some(proxy) ==> t.dest@ == proxy@),
        model.sip_server is None ==> t.backup_dest is None,
        model.outbound_proxy is None ==> t.backup_dest is None,
        model.sip_server is None && model.outbound_proxy is None ==> t.dest@.len() == 0,
        t.backup_dest matches Some(backup) ==> backup@ != t.dest@ && model.outbound_proxy == Some(
            backup,
        ),
{
}

/// A stored trunk keeps who it signs on as, its number and its side of calls; it is
/// disabled exactly where it is not active, and signs on exactly where it is stored to.
pub proof fn trunk_keeps_what_is_stored(t: TrunkConfig, model: TrunkModel)
    requires
        is_trunk_of(t, model),
    ensures
        t.username == model.auth_username,
        t.password == model.auth_password,
        t.id == Some(model.id),
        t.direction == Some(model.direction),
        t.transport == Some(model.sip_transport),
        t.disabled matches Some(off) && off != model.is_active,
        t.register_enabled == Some(true) <==> model.register_enabled,
        t.register_enabled is None <==> !model.register_enabled,
        t.register_extra_headers == model.register_extra_headers,
        t.rewrite_hostport <==> model.rewrite_hostport,
        t.incoming_from_user_prefix == model.incoming_from_user_prefix,
        t.incoming_to_user_prefix == model.incoming_to_user_prefix,
        t.origin is Embedded && t.weight is None && t.country is None && t.policy is None,
{
}

/// The limits of a stored trunk are its own: calls, calls per second and the time for
/// which it signs on, each to the number where it is not negative, and each there exactly
/// where it is stored.
pub proof fn trunk_keeps_its_limits(t: TrunkConfig, model: TrunkModel)
    requires
        is_trunk_of(t, model),
    ensures
        t.max_calls is Some <==> model.max_concurrent is Some,
        t.max_cps is Some <==> model.max_cps is Some,
        t.register_expires is Some <==> model.register_expires is Some,
        model.max_concurrent matches Some(n) && n >= 0 ==> t.max_calls->0 as int
            == model.max_concurrent->0 as int,
        model.max_cps matches Some(n) && n >= 0 ==> t.max_cps->0 as int == model.max_cps->0 as int,
        model.register_expires matches Some(n) && n >= 0 ==> t.register_expires->0 as int
            == model.register_expires->0 as int,
{
}

/// The bits of a number without a sign differ from it by a whole turn, or by nothing.
pub proof fn unsigned_bits_are_the_same_bits(v: i32)
    ensures
        v >= 0 ==> unsigned_bits(v) as int == v as int,
        v < 0 ==> unsigned_bits(v) as int - v as int == 0x1_0000_0000,
{
}

/// A list of numbers counts only where every item of it is a text, and then whole; the
/// hosts of a trunk are the texts of a list, or the one text that is stored.
pub proof fn listed_numbers_count_whole(items: Vec<Json>, host: String)
    ensures
        (forall|i: int| 0 <= i < items@.len() ==> (#[trigger] items@[i]) is Text) ==> did_numbers(
            Some(Json::List(items)),
        ).len() == items@.len(),
        (exists|i: int| 0 <= i < items@.len() && !((#[trigger] items@[i]) is Text)) ==> did_numbers(
            Some(Json::List(items)),
        ).len() == 0,
        did_numbers(Some(Json::Text(host))).len() == 0,
        did_numbers(None).len() == 0,
        string_array(Some(Json::Text(host))) == seq![host@],
        string_array(None).len() == 0,
{
    if forall|i: int| 0 <= i < items@.len() ==> (#[trigger] items@[i]) is Text {
        crate::json::texts_are_taken_in_order(items@);
        assert(all_texts(items@));
    }
    if exists|i: int| 0 <= i < items@.len() && !((#[trigger] items@[i]) is Text) {
        let i = choose|i: int| 0 <= i < items@.len() && !((#[trigger] items@[i]) is Text);
        assert(items@[i].text() is None);
        assert(!all_texts(items@));
    }
}

/// Each setting is written in its own word, and a word that is none of them sets nothing.
pub proof fn settings_are_read_by_their_words(word: Seq<char>)
    ensures
        call_id_mode(Some(word)) == Some(CallIdMode::Transparent) <==> word == "transparent"@,
        call_id_mode(Some(word)) == Some(CallIdMode::Rewrite) <==> word == "rewrite"@,
        cac_policy(Some(word)) == Some(CacPolicy::Lossy) <==> word == "lossy"@,
        cac_policy(Some(word)) == Some(CacPolicy::Reject) <==> word == "reject"@,
        cac_policy(Some(word)) == Some(CacPolicy::Overflow) <==> word == "overflow"@,
        media_mode(Some(word)) == Some(MediaMode::Off) <==> word == "none"@,
        media_mode(Some(word)) == Some(MediaMode::Bypass) <==> word == "bypass"@,
        media_mode(Some(word)) == Some(MediaMode::Auto) <==> word == "auto"@,
        media_mode(Some(word)) == Some(MediaMode::ForceTranscode) <==> word == "force_transcode"@,
        video_policy(Some(word)) == Some(VideoPolicy::PassThrough) <==> word == "pass_through"@,
        video_policy(Some(word)) == Some(VideoPolicy::Strip) <==> word == "strip"@,
        video_policy(Some(word)) == Some(VideoPolicy::Transcode) <==> word == "transcode"@,
        call_id_mode(None) is None && cac_policy(None) is None,
        media_mode(None) is None && video_policy(None) is None,
{
    reveal_strlit("transparent");
    reveal_strlit("rewrite");
    reveal_strlit("lossy");
    reveal_strlit("reject");
    reveal_strlit("overflow");
    reveal_strlit("none");
    reveal_strlit("bypass");
    reveal_strlit("auto");
    reveal_strlit("force_transcode");
    reveal_strlit("pass_through");
    reveal_strlit("strip");
    reveal_strlit("transcode");
    assert("transparent"@.len() == 11);
    assert("rewrite"@.len() == 7);
    assert("lossy"@.len() == 5);
    assert("reject"@.len() == 6);
    assert("overflow"@.len() == 8);
    assert("none"@.len() == 4);
    assert("bypass"@.len() == 6);
    assert("auto"@.len() == 4);
    assert("force_transcode"@.len() == 15);
    assert("pass_through"@.len() == 12);
    assert("strip"@.len() == 5);
    assert("transcode"@.len() == 9);
    assert("lossy"@[0] == 'l');
    assert("strip"@[0] == 's');
    assert("reject"@[0] == 'r');
    assert("bypass"@[0] == 'b');
    assert("none"@[0] == 'n');
    assert("auto"@[0] == 'a');
}

/// The codecs of a trunk are the common list only where none for sound are named; those
/// for pictures never come without any for sound, and come after them.
pub proof fn sound_codecs_come_first(sbc: Option<Json>)
    ensures
        ({
            let audio = texts_in(at(sbc, "audio_codecs"@));
            let video = texts_in(at(sbc, "video_codecs"@));
            &&& audio.len() == 0 ==> sbc_codecs(sbc) == texts_in(at(sbc, "codecs"@))
            &&& audio.len() > 0 ==> sbc_codecs(sbc).len() == audio.len() + video.len()
            &&& audio.len() > 0 ==> forall|i: int|
                0 <= i < audio.len() ==> #[trigger] sbc_codecs(sbc)[i] == audio[i]
            &&& audio.len() > 0 ==> forall|i: int|
                0 <= i < video.len() ==> sbc_codecs(sbc)[audio.len() + i] == #[trigger] video[i]
        }),
{
}

/// What the metadata of a trunk say under a name is what the trunk has under it: its
/// checks, its limits, its switch for recording and its modes; where they say nothing,
/// or something of another kind, the trunk has nothing.
pub proof fn border_settings_are_what_the_metadata_say(
    c: TrunkConfig,
    sbc: Json,
    header_rules: Option<HeaderRules>,
)
    requires
        is_sbc_config(c, Some(sbc), header_rules),
    ensures
        ({
            let m = |key: Seq<char>| sbc.member(key);
            &&& m("health_check_enabled"@) matches Some(Json::Bool(b)) ==> c.health_check_enabled
                == Some(b)
            &&& m("health_check_per_ip"@) matches Some(Json::Bool(b)) ==> c.health_check_per_ip
                == Some(b)
            &&& m("health_check_interval"@) matches Some(
                Json::Number(JsonNumber::Unsigned(n)),
            ) ==> c.health_check_interval_secs == Some(n)
            &&& m("health_check_probe_count"@) matches Some(
                Json::Number(JsonNumber::Unsigned(n)),
            ) ==> (n <= 0xFFFF_FFFF ==> c.health_check_probe_count == Some(n as u32))
            &&& m("overflow_threshold"@) matches Some(Json::Number(JsonNumber::Unsigned(n))) ==> (n
                <= 0xFFFF_FFFF ==> c.overflow_threshold == Some(n as u32))
            &&& m("health_check_fallback_trunk"@) matches Some(Json::Text(t)) ==> text::opt_text(
                c.health_check_fallback_trunk,
            ) == Some(t@)
            &&& m("recording_enabled"@) matches Some(Json::Bool(b)) ==> (
            c.recording matches Some(policy) && policy.enabled == Some(b))
            &&& m("call_id_mode"@) matches Some(Json::Text(t)) ==> (t@ == "rewrite"@
                ==> c.call_id_mode == Some(CallIdMode::Rewrite)) && (t@ == "transparent"@
                ==> c.call_id_mode == Some(CallIdMode::Transparent))
            &&& m("cac_policy"@) matches Some(Json::Text(t)) ==> (t@ == "reject"@ ==> c.cac_policy
                == Some(CacPolicy::Reject)) && (t@ == "overflow"@ ==> c.cac_policy == Some(
                CacPolicy::Overflow,
            )) && (t@ == "lossy"@ ==> c.cac_policy == Some(CacPolicy::Lossy))
            &&& m("media_mode"@) matches Some(Json::Text(t)) ==> (t@ == "bypass"@ ==> c.media_mode
                == Some(MediaMode::Bypass)) && (t@ == "none"@ ==> c.media_mode == Some(
                MediaMode::Off,
            )) && (t@ == "auto"@ ==> c.media_mode == Some(MediaMode::Auto)) && (t@
                == "force_transcode"@ ==> c.media_mode == Some(MediaMode::ForceTranscode))
            &&& m("video_policy"@) matches Some(Json::Text(t)) ==> (t@ == "strip"@ ==> c.video_policy
                == Some(VideoPolicy::Strip)) && (t@ == "pass_through"@ ==> c.video_policy == Some(
                VideoPolicy::PassThrough,
            )) && (t@ == "transcode"@ ==> c.video_policy == Some(VideoPolicy::Transcode))
            &&& m("header_rules"@) is Some ==> c.header_rules == header_rules
            &&& m("header_rules"@) is None ==> c.header_rules is None
            &&& m("health_check_enabled"@) is None ==> c.health_check_enabled is None
            &&& m("health_check_per_ip"@) is None ==> c.health_check_per_ip is None
            &&& m("health_check_interval"@) is None ==> c.health_check_interval_secs is None
            &&& m("health_check_probe_count"@) is None ==> c.health_check_probe_count is None
            &&& m("overflow_threshold"@) is None ==> c.overflow_threshold is None
            &&& m("health_check_fallback_trunk"@) is None ==> c.health_check_fallback_trunk is None
            &&& m("recording_enabled"@) is None ==> c.recording is None
            &&& m("ringback"@) is None ==> c.ringback is None
            &&& m("call_id_mode"@) is None ==> c.call_id_mode is None
            &&& m("cac_policy"@) is None ==> c.cac_policy is None
            &&& m("media_mode"@) is None ==> c.media_mode is None
            &&& m("video_policy"@) is None ==> c.video_policy is None
        }),
{
    settings_are_read_by_their_words("rewrite"@);
    settings_are_read_by_their_words("transparent"@);
    settings_are_read_by_their_words("reject"@);
    settings_are_read_by_their_words("overflow"@);
    settings_are_read_by_their_words("lossy"@);
    settings_are_read_by_their_words("bypass"@);
    settings_are_read_by_their_words("none"@);
    settings_are_read_by_their_words("auto"@);
    settings_are_read_by_their_words("force_transcode"@);
    settings_are_read_by_their_words("strip"@);
    settings_are_read_by_their_words("pass_through"@);
    settings_are_read_by_their_words("transcode"@);
}

/// What a caller hears for an outcome is what the metadata name for that outcome. A member
/// that is missing, or null, says nothing; one of another kind makes the whole unreadable.
pub proof fn ringback_is_by_outcome(r: Option<Ringback>, j: Json)
    requires
        is_ringback_of(r, Some(j)),
    ensures
        !(j is Object) ==> r is None,
        r matches Some(rb) ==> {
            &&& j.member("busy"@) matches Some(Json::Text(t)) ==> text::opt_text(rb.busy) == Some(t@)
            &&& j.member("reject"@) matches Some(Json::Text(t)) ==> text::opt_text(rb.reject) == Some(
                t@,
            )
            &&& j.member("offline"@) matches Some(Json::Text(t)) ==> text::opt_text(rb.offline)
                == Some(t@)
            &&& j.member("notfound"@) matches Some(Json::Text(t)) ==> text::opt_text(rb.notfound)
                == Some(t@)
            &&& j.member("ring"@) matches Some(Json::Text(t)) ==> text::opt_text(rb.ring) == Some(t@)
            &&& j.member("play_duration_secs"@) matches Some(
                Json::Number(JsonNumber::Unsigned(n)),
            ) ==> rb.play_duration_secs == Some(n)
            &&& j.member("busy"@) is None ==> rb.busy is None
            &&& j.member("reject"@) is None ==> rb.reject is None
            &&& j.member("offline"@) is None ==> rb.offline is None
            &&& j.member("notfound"@) is None ==> rb.notfound is None
            &&& j.member("ring"@) is None ==> rb.ring is None
            &&& j.member("play_duration_secs"@) is None ==> rb.play_duration_secs is None
            &&& j.member("busy"@) == Some(Json::Null) ==> rb.busy is None
        },
        j.member("busy"@) matches Some(Json::Bool(_)) ==> r is None,
        j.member("ring"@) matches Some(Json::Number(_)) ==> r is None,
        j.member("play_duration_secs"@) matches Some(Json::Text(_)) ==> r is None,
        j is Object && j.member("busy"@) is None && j.member("reject"@) is None && j.member(
            "offline"@,
        ) is None && j.member("notfound"@) is None && j.member("ring"@) is None && j.member(
            "play_duration_secs"@,
        ) is None ==> r is Some,
{
}

/// A recording policy that the metadata give for the border counts over the one that they
/// hold beside it, which counts where there is no other.
pub proof fn border_recording_counts_first(t: TrunkConfig, model: TrunkModel, sbc: Json)
    requires
        is_sbc_trunk(t, model, sbc),
    ensures
        sbc.member("recording_enabled"@) matches Some(Json::Bool(b)) ==> (
        t.recording matches Some(policy) && policy.enabled == Some(b)),
        sbc.member("recording_enabled"@) is None && (model.metadata matches Some(meta)
            && meta.member("recording"@) is Some) ==> t.recording == model.recording,
        sbc.member("recording_enabled"@) is None && (model.metadata matches Some(meta)
            && meta.member("recording"@) is None) ==> t.recording is None,
{
    let c = choose|c: TrunkConfig|
        {
            &&& #[trigger] is_sbc_config(c, Some(sbc), model.header_rules)
            &&& t.call_id_mode == c.call_id_mode
            &&& t.health_check_enabled == c.health_check_enabled
            &&& t.health_check_per_ip == c.health_check_per_ip
            &&& t.health_check_interval_secs == c.health_check_interval_secs
            &&& t.health_check_probe_count == c.health_check_probe_count
            &&& t.health_check_fallback_trunk == c.health_check_fallback_trunk
            &&& t.cac_policy == c.cac_policy
            &&& t.overflow_threshold == c.overflow_threshold
            &&& t.media_mode == c.media_mode
            &&& t.video_policy == c.video_policy
            &&& t.header_rules == c.header_rules
            &&& t.ringback == c.ringback
            &&& t.codec@ == c.codec@
            &&& t.recording == first_of(c.recording, metadata_recording(model))
        };
    border_settings_are_what_the_metadata_say(c, sbc, model.header_rules);
}

/// A trunk with metadata for the border has all of the border's settings.
pub proof fn border_trunk_has_the_settings(t: TrunkConfig, model: TrunkModel, sbc: Json)
    requires
        is_sbc_trunk(t, model, sbc),
    ensures
        sbc.member("health_check_enabled"@) matches Some(Json::Bool(b)) ==> t.health_check_enabled
            == Some(b),
        sbc.member("health_check_interval"@) matches Some(
            Json::Number(JsonNumber::Unsigned(n)),
        ) ==> t.health_check_interval_secs == Some(n),
        sbc.member("media_mode"@) matches Some(Json::Text(w)) ==> (w@ == "bypass"@ ==> t.media_mode
            == Some(MediaMode::Bypass)) && (w@ == "force_transcode"@ ==> t.media_mode == Some(
            MediaMode::ForceTranscode,
        )),
        sbc.member("video_policy"@) matches Some(Json::Text(w)) ==> (w@ == "strip"@
            ==> t.video_policy == Some(VideoPolicy::Strip)),
        sbc.member("cac_policy"@) matches Some(Json::Text(w)) ==> (w@ == "reject"@ ==> t.cac_policy
            == Some(CacPolicy::Reject)),
        sbc.member("call_id_mode"@) matches Some(Json::Text(w)) ==> (w@ == "rewrite"@
            ==> t.call_id_mode == Some(CallIdMode::Rewrite)),
        sbc.member("ringback"@) is None ==> t.ringback is None,
        sbc.member("header_rules"@) is Some ==> t.header_rules == model.header_rules,
        text::views(t.codec@) == sbc_codecs(Some(sbc)),
{
    let c = choose|c: TrunkConfig|
        {
            &&& #[trigger] is_sbc_config(c, Some(sbc), model.header_rules)
            &&& t.call_id_mode == c.call_id_mode
            &&& t.health_check_enabled == c.health_check_enabled
            &&& t.health_check_per_ip == c.health_check_per_ip
            &&& t.health_check_interval_secs == c.health_check_interval_secs
            &&& t.health_check_probe_count == c.health_check_probe_count
            &&& t.health_check_fallback_trunk == c.health_check_fallback_trunk
            &&& t.cac_policy == c.cac_policy
            &&& t.overflow_threshold == c.overflow_threshold
            &&& t.media_mode == c.media_mode
            &&& t.video_policy == c.video_policy
            &&& t.header_rules == c.header_rules
            &&& t.ringback == c.ringback
            &&& t.codec@ == c.codec@
            &&& t.recording == first_of(c.recording, metadata_recording(model))
        };
    border_settings_are_what_the_metadata_say(c, sbc, model.header_rules);
}

/// A trunk takes calls unless it only makes them; one that says nothing of its direction
/// does, too. From an address it takes them exactly where one of its hosts is there.
pub proof fn trunk_takes_calls_from_its_hosts(t: TrunkConfig, hosts: Set<Seq<char>>, i: int)
    ensures
        TrunkDirection::Inbound.takes_calls(),
        TrunkDirection::Bidirectional.takes_calls(),
        !TrunkDirection::Outbound.takes_calls(),
        t.direction != Some(TrunkDirection::Outbound) && 0 <= i < t.inbound_hosts@.len()
            && hosts.contains(t.inbound_hosts@[i]@) ==> takes_call_from(t, hosts),
        (forall|k: int|
            0 <= k < t.inbound_hosts@.len() ==> !hosts.contains((#[trigger] t.inbound_hosts@[k])@))
            ==> !takes_call_from(t, hosts),
{
}

/// The trunks of an address are all that take calls from it, in their order.
pub proof fn trunks_of_an_address_are_all(
    entries: Seq<(String, TrunkConfig)>,
    hosts: Set<Seq<char>>,
    name: String,
    t: TrunkConfig,
)
    ensures
        trunks_from(entries.push((name, t)), hosts) == (if takes_call_from(t, hosts) {
            trunks_from(entries, hosts).push(name@)
        } else {
            trunks_from(entries, hosts)
        }),
        trunks_from(Seq::empty(), hosts).len() == 0,
        trunks_from(entries, hosts).len() <= entries.len(),
        forall|i: int|
            0 <= i < entries.len() && takes_call_from((#[trigger] entries[i]).1, hosts) ==> trunks_from(
                entries,
                hosts,
            ).contains(entries[i].0@),
    decreases entries.len(),
{
    assert(entries.push((name, t)).drop_last() =~= entries);
    if entries.len() > 0 {
        trunks_of_an_address_are_all(entries.drop_last(), hosts, name, t);
        let before = trunks_from(entries.drop_last(), hosts);
        assert forall|i: int|
            0 <= i < entries.len() && takes_call_from(
                (#[trigger] entries[i]).1,
                hosts,
            ) implies trunks_from(entries, hosts).contains(entries[i].0@) by {
            if i < entries.len() - 1 {
                assert(entries.drop_last()[i] == entries[i]);
                let w = choose|w: int| 0 <= w < before.len() && before[w] == entries[i].0@;
                assert(trunks_from(entries, hosts)[w] == entries[i].0@);
            } else {
                assert(trunks_from(entries, hosts).last() == entries[i].0@);
            }
        }
    }
}

/// A trunk without metadata for the border has none of the border's settings, and records
/// as its own metadata say.
pub proof fn plain_trunk_has_no_border_settings(t: TrunkConfig, recording: Option<RecordingPolicy>)
    requires
        is_plain(t, recording),
    ensures
        t.recording == recording,
        t.codec@.len() == 0,
        t.media_mode is None && t.video_policy is None && t.cac_policy is None,
        t.call_id_mode is None && t.header_rules is None && t.ringback is None,
        t.health_check_enabled is None && t.health_check_per_ip is None,
        t.health_check_interval_secs is None && t.health_check_probe_count is None,
        t.health_check_fallback_trunk is None && t.overflow_threshold is None,
{
}

/// Hosts are listed as soon as one trunk lists one.
pub proof fn one_listed_host_is_enough(trunks: Table<TrunkConfig>, i: int)
    requires
        0 <= i < trunks.entries@.len(),
    ensures
        trunks.entries@[i].1.inbound_hosts@.len() > 0 ==> lists_hosts(trunks),
        (forall|k: int|
            0 <= k < trunks.entries@.len() ==> (#[trigger] trunks.entries@[k]).1.inbound_hosts@.len()
                == 0) ==> !lists_hosts(trunks),
{
}

/// A stored trunk is read under its name and dialled at its server; where it has a proxy too,
/// that is its backup.
pub proof fn stored_trunk_is_dialled_at_its_server(
    model: TrunkModel,
    r: Option<(String, TrunkConfig)>,
)
    requires
        call_ensures(convert_trunk, (model,), r),
    ensures
        r matches Some((name, t)) && {
            &&& name == model.name
            &&& model.sip_server matches Some(server) ==> t.dest@ == server@
            &&& model.sip_server is Some && model.outbound_proxy is Some
                && model.outbound_proxy->0@ != model.sip_server->0@ ==> t.backup_dest
                == model.outbound_proxy
            &&& model.sip_server is None && model.outbound_proxy is Some ==> t.dest@
                == model.outbound_proxy->0@ && t.backup_dest is None
            &&& model.outbound_proxy is None ==> t.backup_dest is None
        },
{
    if let Some((name, t)) = r {
        trunk_is_dialled_at_its_server(t, model);
    }
}

} // verus!
