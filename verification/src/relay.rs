//! Offers inside an established dialog: what they ask for, how they are carried over
//! to the other side, and how they are answered.

use crate::legs::{in_state, is_hold_direction, DialogSide, Leg, LegRegistry, LegState};
use crate::media::{bypasses, bypasses_local_media, MediaPathMode, MediaState};
use crate::sdp::{
    cap_views, capabilities_at, find_section, first_of_kind, parse_failure, parse_sdp, parsed_sdp,
    read_sections, sdp_text, section_capabilities, section_views, sections_of,
    set_section_direction, with_section_direction, write_sdp, CapabilityView, Direction, MediaKind,
    MediaSection, ParsedSdp, SdpType, SectionView, VideoCapability,
};
use crate::status::{is_successful, successful};
use crate::text;
use crate::video::{
    apply_video_caps_from_source, filter_video_caps_for_rtp, rtp_capabilities, with_source_codecs,
};
use vstd::prelude::*;

verus! {

/// The direction in which an offer's video flows; a section without a port is inactive.
pub open spec fn video_direction(sections: Seq<SectionView>) -> Option<Direction> {
    match first_of_kind(sections, MediaKind::Video) {
        Some(i) => Some(
            if sections[i].port == 0 {
                Direction::Inactive
            } else {
                sections[i].direction
            },
        ),
        None => None,
    }
}

pub open spec fn audio_direction(sections: Seq<SectionView>) -> Option<Direction> {
    match first_of_kind(sections, MediaKind::Audio) {
        Some(i) => Some(sections[i].direction),
        None => None,
    }
}

/// Video flows in some direction.
pub open spec fn flows(direction: Option<Direction>) -> bool {
    direction matches Some(d) && d != Direction::Inactive
}

/// A video section that is in use.
pub open spec fn is_active_video(s: SectionView) -> bool {
    s.kind == MediaKind::Video && s.port != 0 && s.direction != Direction::Inactive
}

pub open spec fn any_active_video(sections: Seq<SectionView>) -> bool {
    exists|i: int| 0 <= i < sections.len() && is_active_video(#[trigger] sections[i])
}

/// The capabilities of the video sections in use.
pub open spec fn active_capabilities(sections: Seq<SectionView>) -> Seq<CapabilityView>
    decreases sections.len(),
{
    if sections.len() == 0 {
        Seq::empty()
    } else {
        active_capabilities(sections.drop_last()) + (if is_active_video(sections.last()) {
            section_capabilities(sections.last())
        } else {
            Seq::empty()
        })
    }
}

pub open spec fn is_known_codec(c: CapabilityView) -> bool {
    !text::same_ignoring_case(c.codec_name, "unknown"@)
}

/// The capabilities of an offer that may cross the bridge.
pub open spec fn bridged_capabilities(sections: Seq<SectionView>, allowed: Seq<Seq<char>>) -> Seq<
    CapabilityView,
> {
    rtp_capabilities(active_capabilities(sections).filter(|c: CapabilityView| is_known_codec(c)), allowed)
}

/// What an offer asks for.
pub struct OfferFacts {
    pub video_direction: Option<Direction>,
    pub audio_direction: Option<Direction>,
    pub video_caps: Vec<VideoCapability>,
}

impl OfferFacts {
    pub open spec fn of(self, sections: Seq<SectionView>, allowed: Seq<Seq<char>>) -> bool {
        &&& self.video_direction == video_direction(sections)
        &&& self.audio_direction == audio_direction(sections)
        &&& cap_views(self.video_caps@) == bridged_capabilities(sections, allowed)
    }

    pub fn video_active(&self) -> (r: bool)
        ensures
            r == flows(self.video_direction),
    {
        match self.video_direction {
            Some(d) => d != Direction::Inactive,
            None => false,
        }
    }
}

/// The direction of the first section of a kind, with the port taken into account for
/// video.
fn read_directions(sections: &Vec<MediaSection>) -> (r: (Option<Direction>, Option<Direction>))
    ensures
        r.0 == video_direction(section_views(sections@)),
        r.1 == audio_direction(section_views(sections@)),
{
    let video = match find_section(sections, MediaKind::Video) {
        Some(i) => {
            assert(section_views(sections@)[i as int] == sections@[i as int]@);
            if sections[i].port == 0 {
                Some(Direction::Inactive)
            } else {
                Some(sections[i].direction)
            }
        },
        None => None,
    };
    let audio = match find_section(sections, MediaKind::Audio) {
        Some(i) => {
            assert(section_views(sections@)[i as int] == sections@[i as int]@);
            Some(sections[i].direction)
        },
        None => None,
    };
    (video, audio)
}

/// The capabilities of the video sections in use whose codec is known.
fn read_active_capabilities(desc: &rustrtc::sdp::SessionDescription, sections: &Vec<MediaSection>) -> (r: Vec<
    VideoCapability,
>)
    requires
        section_views(sections@) == sections_of(*desc),
    ensures
        cap_views(r@) == active_capabilities(sections_of(*desc)).filter(
            |c: CapabilityView| is_known_codec(c),
        ),
{
    let ghost all = sections_of(*desc);
    let ghost known = |c: CapabilityView| is_known_codec(c);
    let mut r: Vec<VideoCapability> = Vec::new();
    let mut i: usize = 0;
    proof {
        reveal(Seq::filter);
        assert(all.subrange(0, 0) =~= Seq::empty());
        assert(cap_views(r@) =~= Seq::empty());
        assert(active_capabilities(all.subrange(0, 0)).filter(known) =~= Seq::empty());
    }
    while i < sections.len()
        invariant
            i <= sections@.len() == all.len(),
            all == sections_of(*desc),
            all == section_views(sections@),
            known == (|c: CapabilityView| is_known_codec(c)),
            cap_views(r@) == active_capabilities(all.subrange(0, i as int)).filter(known),
        decreases sections@.len() - i,
    {
        let ghost before = active_capabilities(all.subrange(0, i as int));
        proof {
            assert(all.subrange(0, i + 1).drop_last() =~= all.subrange(0, i as int));
            assert(all.subrange(0, i + 1).last() == all[i as int]);
            assert(all[i as int] == sections@[i as int]@);
        }
        let s = &sections[i];
        if s.kind == MediaKind::Video && s.port != 0 && s.direction != Direction::Inactive {
            let caps = capabilities_at(desc, i);
            let ghost cs = cap_views(caps@);
            let mut k: usize = 0;
            proof {
                assert(before + cs.subrange(0, 0) =~= before);
            }
            while k < caps.len()
                invariant
                    k <= caps@.len(),
                    cs == cap_views(caps@),
                    known == (|c: CapabilityView| is_known_codec(c)),
                    cap_views(r@) == (before + cs.subrange(0, k as int)).filter(known),
                decreases caps@.len() - k,
            {
                let ghost some = before + cs.subrange(0, k as int);
                let ghost more = before + cs.subrange(0, k + 1);
                proof {
                    reveal(Seq::filter);
                    assert(more.drop_last() =~= some);
                    assert(more.last() == caps@[k as int]@);
                }
                if !text::eq_ignore_ascii_case(&caps[k].codec_name, "unknown") {
                    let ghost old_r = r@;
                    let cap = caps[k].duplicate();
                    r.push(cap);
                    assert(cap_views(r@) =~= cap_views(old_r).push(caps@[k as int]@));
                }
                k += 1;
            }
            assert(cs.subrange(0, cs.len() as int) =~= cs);
        } else {
            assert(before + Seq::<CapabilityView>::empty() =~= before);
        }
        i += 1;
    }
    assert(all.subrange(0, all.len() as int) =~= all);
    r
}

/// Reads what an offer asks for.
pub fn read_offer(desc: &rustrtc::sdp::SessionDescription, allowed_video: &Vec<String>) -> (r: OfferFacts)
    ensures
        r.of(sections_of(*desc), text::views(allowed_video@)),
{
    let sections = read_sections(desc);
    let (video, audio) = read_directions(&sections);
    let active = read_active_capabilities(desc, &sections);
    let video_caps = filter_video_caps_for_rtp(&active, allowed_video);
    OfferFacts { video_direction: video, audio_direction: audio, video_caps }
}

/// Whether a description has a video section.
pub open spec fn mentions_video(sections: Seq<SectionView>) -> bool {
    first_of_kind(sections, MediaKind::Video) is Some
}

/// Whether the offer, read as a description, has a video section.
pub fn offers_video(offer: &str) -> (r: bool)
    ensures
        r == (parsed_sdp(SdpType::Offer, offer@) matches ParsedSdp::Description(desc) && mentions_video(
            sections_of(desc),
        )),
{
    match parse_sdp(SdpType::Offer, offer, "dialog offer") {
        Ok(desc) => {
            let sections = read_sections(&desc);
            find_section(&sections, MediaKind::Video).is_some()
        },
        Err(_) => false,
    }
}

/// How an offer of one side reaches the other.
#[derive(Clone, Copy, PartialEq, Eq, Debug, Structural)]
pub enum RelayRoute {
    /// Both legs speak the same transport: the offer is passed on as it is.
    SignalingOnly,
    /// The bridge makes an offer of its own.
    Bridged,
}

pub fn relay_route(source_is_webrtc: bool, target_is_webrtc: bool) -> (r: RelayRoute)
    ensures
        r == RelayRoute::SignalingOnly <==> source_is_webrtc == target_is_webrtc,
{
    if source_is_webrtc == target_is_webrtc {
        RelayRoute::SignalingOnly
    } else {
        RelayRoute::Bridged
    }
}

#[derive(Clone, Copy, PartialEq, Eq, Debug, Structural)]
pub enum RelayError {
    NoBridge,
    NoVideoCodec,
}

impl RelayError {
    pub fn message(&self) -> (r: &'static str)
        ensures
            r@ == match *self {
                RelayError::NoBridge => "No media bridge available for dialog offer"@,
                RelayError::NoVideoCodec => "Video re-INVITE offer has no video codec"@,
            },
    {
        match self {
            RelayError::NoBridge => "No media bridge available for dialog offer",
            RelayError::NoVideoCodec => "Video re-INVITE offer has no video codec",
        }
    }
}

/// The video track to add to the bridge before the offer is made: payload type and
/// clock rate of the first codec that may cross, where video starts to flow and the
/// bridge has none.
pub fn plan_bridge_video(facts: &OfferFacts, media_bridge: bool, bridge_has_video: bool) -> (r: Result<
    Option<(u8, u32)>,
    RelayError,
>)
    ensures
        r == Err::<Option<(u8, u32)>, RelayError>(RelayError::NoBridge) <==> !media_bridge,
        r == Err::<Option<(u8, u32)>, RelayError>(RelayError::NoVideoCodec) <==> media_bridge && flows(
            facts.video_direction,
        ) && !bridge_has_video && facts.video_caps@.len() == 0,
        r matches Ok(track) ==> track == (if flows(facts.video_direction) && !bridge_has_video {
            Some((facts.video_caps@[0].payload_type, facts.video_caps@[0].clock_rate))
        } else {
            None
        }),
{
    if !media_bridge {
        return Err(RelayError::NoBridge);
    }
    if facts.video_active() && !bridge_has_video {
        if facts.video_caps.len() == 0 {
            return Err(RelayError::NoVideoCodec);
        }
        return Ok(Some((facts.video_caps[0].payload_type, facts.video_caps[0].clock_rate)));
    }
    Ok(None)
}

/// The direction in which the target's side of the bridge carries a section of the
/// source: the same, and inactive without a port. Video that a WebRTC target was
/// receiving goes on being sent to it when the source stops its own.
pub open spec fn mirrored(s: SectionView, target_is_webrtc: bool, previously_had_video: bool) -> Direction {
    let direction = if s.port == 0 {
        Direction::Inactive
    } else {
        s.direction
    };
    if target_is_webrtc && previously_had_video && s.kind == MediaKind::Video && direction
        == Direction::Inactive {
        Direction::SendOnly
    } else {
        direction
    }
}

fn mirrored_direction(s: &MediaSection, target_is_webrtc: bool, previously_had_video: bool) -> (r: Direction)
    ensures
        r == mirrored(s@, target_is_webrtc, previously_had_video),
{
    let direction = if s.port == 0 {
        Direction::Inactive
    } else {
        s.direction
    };
    if target_is_webrtc && previously_had_video && s.kind == MediaKind::Video && direction
        == Direction::Inactive {
        Direction::SendOnly
    } else {
        direction
    }
}

pub open spec fn is_used(used: Seq<(usize, Direction)>, i: int) -> bool {
    exists|k: int| 0 <= k < used.len() && (#[trigger] used[k]).0 == i
}

/// The first transceiver of a kind that has no section yet.
pub open spec fn first_free(kinds: Seq<MediaKind>, used: Seq<(usize, Direction)>, kind: MediaKind, i: int) -> bool {
    &&& 0 <= i < kinds.len()
    &&& kinds[i] == kind
    &&& !is_used(used, i)
    &&& forall|j: int| 0 <= j < i ==> #[trigger] kinds[j] != kind || is_used(used, j)
}

/// `r` gives the sections, in order, the first free transceiver of their kind, with the
/// mirrored direction; a section without a transceiver left is passed over.
pub open spec fn mirrors(
    r: Seq<(usize, Direction)>,
    sections: Seq<SectionView>,
    kinds: Seq<MediaKind>,
    target_is_webrtc: bool,
    previously_had_video: bool,
) -> bool
    decreases sections.len(),
{
    if sections.len() == 0 {
        r.len() == 0
    } else {
        let s = sections.last();
        ||| r.len() > 0 && first_free(kinds, r.drop_last(), s.kind, r.last().0 as int) && r.last().1
            == mirrored(s, target_is_webrtc, previously_had_video) && mirrors(
            r.drop_last(),
            sections.drop_last(),
            kinds,
            target_is_webrtc,
            previously_had_video,
        )
        ||| (forall|i: int| 0 <= i < kinds.len() && #[trigger] kinds[i] == s.kind ==> is_used(r, i))
            && mirrors(
            r,
            sections.drop_last(),
            kinds,
            target_is_webrtc,
            previously_had_video,
        )
    }
}

/// The transceivers of the target whose direction is set, with the direction.
pub fn mirror_directions(
    sections: &Vec<MediaSection>,
    kinds: &Vec<MediaKind>,
    target_is_webrtc: bool,
    previously_had_video: bool,
) -> (r: Vec<(usize, Direction)>)
    ensures
        mirrors(r@, section_views(sections@), kinds@, target_is_webrtc, previously_had_video),
{
    let ghost all = section_views(sections@);
    let mut r: Vec<(usize, Direction)> = Vec::new();
    let mut i: usize = 0;
    assert(all.subrange(0, 0) =~= Seq::empty());
    while i < sections.len()
        invariant
            i <= sections@.len(),
            all == section_views(sections@),
            mirrors(
                r@,
                all.subrange(0, i as int),
                kinds@,
                target_is_webrtc,
                previously_had_video,
            ),
        decreases sections@.len() - i,
    {
        let kind = sections[i].kind;
        let ghost before = r@;
        proof {
            assert(all.subrange(0, i + 1).drop_last() =~= all.subrange(0, i as int));
            assert(all.subrange(0, i + 1).last() == sections@[i as int]@);
        }
        let mut k: usize = 0;
        let mut found = false;
        while k < kinds.len() && !found
            invariant
                k <= kinds@.len(),
                r@ == before,
                found ==> first_free(kinds@, before, kind, k as int),
                !found ==> forall|j: int|
                    0 <= j < k ==> #[trigger] kinds@[j] != kind || is_used(before, j),
            decreases kinds@.len() - k, if found { 0int } else { 1int },
        {
            let mut taken = false;
            let mut u: usize = 0;
            while u < r.len()
                invariant
                    u <= r@.len(),
                    r@ == before,
                    taken ==> is_used(before, k as int),
                    !taken ==> forall|w: int| 0 <= w < u ==> (#[trigger] before[w]).0 != k,
                decreases r@.len() - u,
            {
                if r[u].0 == k {
                    assert(before[u as int].0 == k);
                    taken = true;
                }
                u += 1;
            }
            if !taken && kinds[k] == kind {
                found = true;
            } else {
                k += 1;
            }
        }
        if found {
            let direction = mirrored_direction(&sections[i], target_is_webrtc, previously_had_video);
            r.push((k, direction));
            assert(r@.drop_last() =~= before);
        }
        i += 1;
    }
    assert(all.subrange(0, all.len() as int) =~= all);
    r
}

/// No transceiver is given to two sections.
pub proof fn mirrored_transceivers_are_distinct(
    r: Seq<(usize, Direction)>,
    sections: Seq<SectionView>,
    kinds: Seq<MediaKind>,
    target_is_webrtc: bool,
    previously_had_video: bool,
)
    requires
        mirrors(r, sections, kinds, target_is_webrtc, previously_had_video),
    ensures
        forall|i: int, j: int| 0 <= i < j < r.len() ==> (#[trigger] r[i]).0 != (#[trigger] r[j]).0,
    decreases sections.len(),
{
    if sections.len() > 0 {
        let s = sections.last();
        let earlier = sections.drop_last();
        if r.len() > 0 && first_free(kinds, r.drop_last(), s.kind, r.last().0 as int) && mirrors(
            r.drop_last(),
            earlier,
            kinds,
            target_is_webrtc,
            previously_had_video,
        ) {
            let front = r.drop_last();
            mirrored_transceivers_are_distinct(
                front,
                earlier,
                kinds,
                target_is_webrtc,
                previously_had_video,
            );
            assert forall|i: int, j: int| 0 <= i < j < r.len() implies (#[trigger] r[i]).0 != (#[trigger] r[j]).0 by {
                assert(front[i] == r[i]);
                if j < front.len() {
                    assert(front[j] == r[j]);
                }
            }
        } else {
            mirrored_transceivers_are_distinct(
                r,
                earlier,
                kinds,
                target_is_webrtc,
                previously_had_video,
            );
        }
    }
}

/// The generated offer or answer, held to the video codecs of the source where it has
/// video that may cross.
pub fn constrain_video(
    sdp_type: SdpType,
    generated: String,
    context: &str,
    has_video: bool,
    caps: &Vec<VideoCapability>,
) -> (r: Result<String, String>)
    ensures
        !has_video || caps@.len() == 0 ==> r == Ok::<String, String>(generated),
        has_video && caps@.len() > 0 ==> match parsed_sdp(sdp_type, generated@) {
            ParsedSdp::Description(desc) => r matches Ok(out) && out@ == sdp_text(
                with_source_codecs(desc, cap_views(caps@)),
            ),
            ParsedSdp::Failure(why) => r matches Err(message) && message@ == parse_failure(
                context@,
                why,
            ),
        },
{
    if has_video && caps.len() > 0 {
        apply_video_caps_from_source(sdp_type, &generated, context, caps)
    } else {
        Ok(generated)
    }
}

/// The description with its first video section turned off.
pub open spec fn without_video(desc: rustrtc::sdp::SessionDescription) -> rustrtc::sdp::SessionDescription {
    match first_of_kind(sections_of(desc), MediaKind::Video) {
        Some(i) => with_section_direction(desc, i, 0, Direction::Inactive),
        None => desc,
    }
}

/// The source's answer, with its video turned off where the target declined the video
/// that was offered.
pub fn decline_video(answer: String, offer_has_video: bool, target_video_active: bool) -> (r: Result<
    String,
    String,
>)
    ensures
        !offer_has_video || target_video_active ==> r == Ok::<String, String>(answer),
        offer_has_video && !target_video_active ==> match parsed_sdp(SdpType::Answer, answer@) {
            ParsedSdp::Description(desc) => r matches Ok(out) && out@ == sdp_text(
                without_video(desc),
            ),
            ParsedSdp::Failure(why) => r matches Err(message) && message@ == parse_failure(
                "bridged source answer"@,
                why,
            ),
        },
{
    if !offer_has_video || target_video_active {
        return Ok(answer);
    }
    match parse_sdp(SdpType::Answer, &answer, "bridged source answer") {
        Err(message) => Err(message),
        Ok(desc) => {
            let mut desc = desc;
            let sections = read_sections(&desc);
            if let Some(i) = find_section(&sections, MediaKind::Video) {
                assert(section_views(sections@).len() == sections@.len());
                set_section_direction(&mut desc, i, 0, Direction::Inactive);
            }
            Ok(write_sdp(&desc))
        },
    }
}

/// Whether some video section of the answer is in use.
pub fn has_active_video(sections: &Vec<MediaSection>) -> (r: bool)
    ensures
        r == any_active_video(section_views(sections@)),
{
    let ghost all = section_views(sections@);
    let mut i: usize = 0;
    while i < sections.len()
        invariant
            i <= sections@.len(),
            all == section_views(sections@),
            forall|j: int| 0 <= j < i ==> !is_active_video(#[trigger] all[j]),
        decreases sections@.len() - i,
    {
        let s = &sections[i];
        assert(all[i as int] == s@);
        if s.kind == MediaKind::Video && s.port != 0 && s.direction != Direction::Inactive {
            assert(is_active_video(all[i as int]));
            return true;
        }
        i += 1;
    }
    false
}

/// The request that carries an offer inside a dialog.
#[derive(Clone, Copy, PartialEq, Eq, Debug, Structural)]
pub enum OfferMethod {
    Invite,
    Update,
    Other,
}

/// What came back for a request inside a dialog.
#[derive(Clone, Copy, PartialEq, Eq, Debug, Structural)]
pub enum MidDialogReply {
    Response { status: u16 },
    TimedOut,
    Failed,
}

/// What follows the reply to an offer.
#[derive(Clone, Copy, PartialEq, Eq, Debug, Structural)]
pub enum OfferStep {
    /// The response is the answer, whatever its status.
    Accept,
    /// An UPDATE that did not succeed is repeated as a re-INVITE.
    RetryAsInvite,
    TimedOut,
    Failed,
}

/// The step after the reply to an offer that was sent with a method, for the first time
/// or as the retry.
pub open spec fn offer_step(method: OfferMethod, retried: bool, reply: MidDialogReply) -> OfferStep {
    let succeeded = reply matches MidDialogReply::Response { status } && successful(status);
    if method == OfferMethod::Update && !retried && !succeeded {
        OfferStep::RetryAsInvite
    } else {
        match reply {
            MidDialogReply::Response { .. } => OfferStep::Accept,
            MidDialogReply::TimedOut => OfferStep::TimedOut,
            MidDialogReply::Failed => OfferStep::Failed,
        }
    }
}

pub fn after_offer(method: OfferMethod, retried: bool, reply: MidDialogReply) -> (r: OfferStep)
    ensures
        r == offer_step(method, retried, reply),
{
    let retry = method == OfferMethod::Update && !retried;
    match reply {
        MidDialogReply::Response { status } => {
            if is_successful(status) || !retry {
                OfferStep::Accept
            } else {
                OfferStep::RetryAsInvite
            }
        },
        MidDialogReply::TimedOut => {
            if retry {
                OfferStep::RetryAsInvite
            } else {
                OfferStep::TimedOut
            }
        },
        MidDialogReply::Failed => {
            if retry {
                OfferStep::RetryAsInvite
            } else {
                OfferStep::Failed
            }
        },
    }
}

/// An offer is repeated at most once, and only as a re-INVITE after an UPDATE.
pub proof fn offer_is_retried_once(method: OfferMethod, first: MidDialogReply, second: MidDialogReply)
    ensures
        offer_step(method, false, first) == OfferStep::RetryAsInvite ==> method == OfferMethod::Update,
        offer_step(method, true, second) != OfferStep::RetryAsInvite,
        offer_step(OfferMethod::Invite, false, first) != OfferStep::RetryAsInvite,
{
}

/// The answer in a response that was accepted: a success without a description is an
/// error.
pub fn accepted_answer(status: u16, body: &[u8]) -> (r: Option<(u16, String)>)
    ensures
        r is None <==> body@.len() == 0 && successful(status),
        r matches Some((s, sdp)) ==> s == status && sdp@ == text::utf8_lossy(body@),
{
    if body.len() == 0 && is_successful(status) {
        None
    } else {
        Some((status, text::from_utf8_lossy(body)))
    }
}

/// The state that the audio of an offer puts the offering leg in; an offer without
/// audio leaves the leg as it is.
pub open spec fn offered_state(audio: Option<Direction>) -> Option<LegState> {
    match audio {
        Some(d) => Some(
            if d != Direction::SendRecv {
                LegState::Hold
            } else {
                LegState::Connected
            },
        ),
        None => None,
    }
}

/// The leg after an offer with this audio.
pub open spec fn after_audio(leg: Option<Leg>, audio: Option<Direction>) -> Option<Leg> {
    match offered_state(audio) {
        Some(state) => in_state(leg, state),
        None => leg,
    }
}

fn apply_audio(legs: &mut LegRegistry, side: DialogSide, audio: Option<Direction>)
    ensures
        forall|k: Seq<char>|
            #[trigger] final(legs).leg(k) == if k == side.leg() {
                after_audio(old(legs).leg(k), audio)
            } else {
                old(legs).leg(k)
            },
        final(legs).transports == old(legs).transports,
        final(legs).video == old(legs).video,
        final(legs).answers == old(legs).answers,
        old(legs).wf() ==> final(legs).wf(),
{
    if let Some(d) = audio {
        let state = if is_hold_direction(d) {
            LegState::Hold
        } else {
            LegState::Connected
        };
        let _known = legs.update_leg_state(side.leg_id(), state);
    }
}

/// Takes over the descriptions of an offer that was relayed over the bridge, and what
/// it says of hold and video.
pub fn finish_bridged_relay(
    media: &mut MediaState,
    legs: &mut LegRegistry,
    side: DialogSide,
    offer: String,
    target_offer: String,
    target_answer: String,
    source_answer: String,
    facts: &OfferFacts,
    previously_had_video: bool,
)
    ensures
        match side {
            DialogSide::Caller => *final(media) == (MediaState {
                caller_offer: Some(offer),
                callee_offer: Some(target_offer),
                callee_answer_sdp: Some(target_answer),
                answer: Some(source_answer),
                caller_answer_uses_media_bridge: true,
                callee_offer_uses_media_bridge: true,
                ..*old(media)
            }),
            DialogSide::Callee => *final(media) == (MediaState {
                callee_offer: Some(source_answer),
                callee_answer_sdp: Some(source_answer),
                caller_answer_uses_media_bridge: true,
                callee_offer_uses_media_bridge: true,
                ..*old(media)
            }),
        },
        forall|k: Seq<char>|
            #[trigger] final(legs).leg(k) == if k == side.leg() {
                after_audio(old(legs).leg(k), facts.audio_direction)
            } else {
                old(legs).leg(k)
            },
        final(legs).transports == old(legs).transports,
        facts.video_direction is Some && (previously_had_video || flows(facts.video_direction)) ==> {
            &&& final(legs).has_video("caller"@)
            &&& final(legs).has_video("callee"@)
            &&& forall|k: Seq<char>|
                k != "caller"@ && k != "callee"@ ==> #[trigger] final(legs).video.value(k) == old(
                    legs,
                ).video.value(k)
        },
        !(facts.video_direction is Some && (previously_had_video || flows(facts.video_direction)))
            ==> final(legs).video == old(legs).video,
        final(legs).answers == old(legs).answers,
        old(legs).wf() ==> final(legs).wf(),
{
    match side {
        DialogSide::Caller => {
            media.caller_offer = Some(offer);
            media.callee_offer = Some(target_offer);
            media.callee_answer_sdp = Some(target_answer);
            media.answer = Some(source_answer);
        },
        DialogSide::Callee => {
            media.callee_offer = Some(source_answer.clone());
            media.callee_answer_sdp = Some(source_answer);
        },
    }
    media.caller_answer_uses_media_bridge = true;
    media.callee_offer_uses_media_bridge = true;
    apply_audio(legs, side, facts.audio_direction);
    if facts.video_direction.is_some() && (previously_had_video || facts.video_active()) {
        legs.set_video_state("caller", true);
        legs.set_video_state("callee", true);
    }
}

/// The video track to add to the bridge before an offer is answered here, where video
/// starts to flow on a leg without any. `first` is the first video codec of the offer.
pub fn plan_local_video(facts: &OfferFacts, had_video: bool, media_bridge: bool, first: Option<(u8, u32)>) -> (r:
    Option<(u8, u32)>)
    ensures
        r == (if flows(facts.video_direction) && !had_video && media_bridge {
            first
        } else {
            None
        }),
{
    if facts.video_active() && !had_video && media_bridge {
        first
    } else {
        None
    }
}

/// Takes over an offer that was answered here.
pub fn finish_local_answer(
    media: &mut MediaState,
    legs: &mut LegRegistry,
    side: DialogSide,
    offer: String,
    answer: String,
    facts: &OfferFacts,
    had_video: bool,
)
    ensures
        match side {
            DialogSide::Caller => *final(media) == (MediaState {
                caller_offer: Some(offer),
                answer: Some(answer),
                ..*old(media)
            }),
            DialogSide::Callee => *final(media) == (MediaState {
                callee_offer: Some(answer),
                callee_answer_sdp: Some(answer),
                ..*old(media)
            }),
        },
        forall|k: Seq<char>|
            #[trigger] final(legs).leg(k) == if k == side.leg() {
                after_audio(old(legs).leg(k), facts.audio_direction)
            } else {
                old(legs).leg(k)
            },
        final(legs).transports == old(legs).transports,
        forall|k: Seq<char>|
            #[trigger] final(legs).video.value(k) == if k == side.leg() && facts.video_direction is Some
                && (had_video || flows(facts.video_direction)) {
                Some(true)
            } else {
                old(legs).video.value(k)
            },
        final(legs).answers == old(legs).answers,
        old(legs).wf() ==> final(legs).wf(),
{
    match side {
        DialogSide::Caller => {
            media.caller_offer = Some(offer);
            media.answer = Some(answer);
        },
        DialogSide::Callee => {
            media.callee_offer = Some(answer.clone());
            media.callee_answer_sdp = Some(answer);
        },
    }
    apply_audio(legs, side, facts.audio_direction);
    if facts.video_direction.is_some() && (had_video || facts.video_active()) {
        legs.set_video_state(side.leg_id(), true);
    }
}

/// An offer to send both ways takes a leg off hold, any other puts it on hold, and one
/// without audio leaves it as it is.
pub proof fn hold_follows_offer(leg: Leg, audio: Direction)
    ensures
        after_audio(Some(leg), Some(audio)) == Some(
            (Leg {
                state: if audio == Direction::SendRecv {
                    LegState::Connected
                } else {
                    LegState::Hold
                },
                ..leg
            }),
        ),
        after_audio(Some(leg), None) == Some(leg),
{
}

/// How an offer inside a dialog is answered.
#[derive(Clone, Copy, PartialEq, Eq, Debug, Structural)]
pub enum UpdateRoute {
    /// No offer, or the session interval was refused: nothing is negotiated.
    NoOffer,
    /// The offer is relayed to the other side.
    SignalingOnly,
    /// The offer has video and is relayed over the bridge.
    BridgedVideo,
    /// The offer is answered here.
    Local,
}

pub fn update_route(
    media: &MediaState,
    path: MediaPathMode,
    timer_accepted: bool,
    has_body: bool,
    offer_has_video: bool,
) -> (r: UpdateRoute)
    ensures
        r == (if !timer_accepted || !has_body {
            UpdateRoute::NoOffer
        } else if bypasses(*media, path) {
            UpdateRoute::SignalingOnly
        } else if media.media_bridge && offer_has_video {
            UpdateRoute::BridgedVideo
        } else {
            UpdateRoute::Local
        }),
{
    if !timer_accepted || !has_body {
        UpdateRoute::NoOffer
    } else if bypasses_local_media(media, path) {
        UpdateRoute::SignalingOnly
    } else if media.media_bridge && offer_has_video {
        UpdateRoute::BridgedVideo
    } else {
        UpdateRoute::Local
    }
}

/// What became of the offer.
pub enum UpdateOutcome {
    /// There was none to answer.
    Nothing,
    /// A status, and an answer where there is one.
    Answered { status: u16, sdp: Option<String> },
    /// It could not be relayed, or not be answered, along a route.
    Failed(UpdateRoute),
}

/// The response to an update of a dialog.
pub struct UpdateResponse {
    pub status: u16,
    pub headers: Vec<(String, String)>,
    pub body: Option<String>,
}

/// The status of an update whose offer could not be handled.
pub open spec fn failure_status(route: UpdateRoute) -> u16 {
    if route == UpdateRoute::SignalingOnly {
        500
    } else {
        488
    }
}

/// The response to an update. A refused session interval is answered with the smallest
/// one accepted, where a timer knows it. Timer headers go only with a success, and an
/// answer carries its content type.
pub fn update_response(
    timer_accepted: bool,
    min_se: Option<u64>,
    refresh_headers: Vec<(String, String)>,
    outcome: UpdateOutcome,
) -> (r: UpdateResponse)
    ensures
        !timer_accepted ==> r.status == 422 && r.body is None && match min_se {
            Some(secs) => r.headers@.len() == 1 && r.headers@[0].0@ == "Min-SE"@ && r.headers@[0].1@
                == text::decimal(secs as nat),
            None => r.headers@.len() == 0,
        },
        timer_accepted ==> match outcome {
            UpdateOutcome::Nothing => r.status == 200 && r.headers == refresh_headers && r.body is None,
            UpdateOutcome::Answered { status, sdp } => {
                let kept = if successful(status) {
                    refresh_headers@
                } else {
                    Seq::empty()
                };
                &&& r.status == status
                &&& r.body == sdp
                &&& sdp is None ==> r.headers@ == kept
                &&& sdp is Some ==> r.headers@.len() == kept.len() + 1 && r.headers@.drop_last() == kept
                    && r.headers@.last().0@ == "Content-Type"@ && r.headers@.last().1@
                    == "application/sdp"@
            },
            UpdateOutcome::Failed(route) => r.status == failure_status(route) && r.headers@.len() == 0
                && r.body is None,
        },
{
    if !timer_accepted {
        let mut headers: Vec<(String, String)> = Vec::new();
        if let Some(secs) = min_se {
            headers.push(("Min-SE".to_owned(), text::decimal_text(secs)));
        }
        return UpdateResponse { status: 422, headers, body: None };
    }
    match outcome {
        UpdateOutcome::Nothing => UpdateResponse { status: 200, headers: refresh_headers, body: None },
        UpdateOutcome::Answered { status, sdp } => {
            let mut headers = if is_successful(status) {
                refresh_headers
            } else {
                Vec::new()
            };
            let ghost kept = headers@;
            if sdp.is_some() {
                headers.push(("Content-Type".to_owned(), "application/sdp".to_owned()));
                assert(headers@.drop_last() =~= kept);
            }
            assert(!successful(status) ==> kept =~= Seq::empty());
            UpdateResponse { status, headers, body: sdp }
        },
        UpdateOutcome::Failed(route) => {
            let status: u16 = match route {
                UpdateRoute::SignalingOnly => 500,
                _ => 488,
            };
            UpdateResponse { status, headers: Vec::new(), body: None }
        },
    }
}

/// Video of an offer flows in the direction of its first video section, and not at all
/// where that has no port; sound in that of its first audio section, port or not.
pub proof fn direction_is_that_of_the_first_section(sections: Seq<SectionView>, i: int, j: int)
    requires
        0 <= i < sections.len(),
        sections[i].kind == MediaKind::Video,
        forall|k: int| 0 <= k < i ==> (#[trigger] sections[k]).kind != MediaKind::Video,
        0 <= j < sections.len(),
        sections[j].kind == MediaKind::Audio,
        forall|k: int| 0 <= k < j ==> (#[trigger] sections[k]).kind != MediaKind::Audio,
    ensures
        sections[i].port != 0 ==> video_direction(sections) == Some(sections[i].direction),
        sections[i].port == 0 ==> video_direction(sections) == Some(Direction::Inactive),
        audio_direction(sections) == Some(sections[j].direction),
        mentions_video(sections),
{
    crate::sdp::first_of_a_kind_is_the_first(sections, MediaKind::Video);
    crate::sdp::first_of_a_kind_is_the_first(sections, MediaKind::Audio);
    let a = first_of_kind(sections, MediaKind::Video)->0;
    let b = first_of_kind(sections, MediaKind::Audio)->0;
    assert(a == i && b == j);
}

/// An offer without video has no direction for it, and video flows in every direction but
/// the inactive one.
pub proof fn inactive_video_does_not_flow(sections: Seq<SectionView>, d: Direction)
    ensures
        (forall|k: int| 0 <= k < sections.len() ==> (#[trigger] sections[k]).kind != MediaKind::Video)
            ==> video_direction(sections) is None && !mentions_video(sections),
        flows(Some(d)) <==> d != Direction::Inactive,
        !flows(None),
{
    crate::sdp::first_of_a_kind_is_the_first(sections, MediaKind::Video);
}

/// Video is in use where its section has a port and a direction; that of any one section
/// makes it so for the whole.
pub proof fn video_is_in_use_with_port_and_direction(sections: Seq<SectionView>, i: int)
    requires
        0 <= i < sections.len(),
    ensures
        sections[i].kind == MediaKind::Video && sections[i].port != 0 && sections[i].direction
            != Direction::Inactive ==> any_active_video(sections),
        (forall|k: int|
            0 <= k < sections.len() ==> (#[trigger] sections[k]).port == 0 || sections[k].direction
                == Direction::Inactive || sections[k].kind != MediaKind::Video) ==> !any_active_video(
            sections,
        ),
{
    if any_active_video(sections) {
        let k = choose|k: int| 0 <= k < sections.len() && is_active_video(#[trigger] sections[k]);
        assert(is_active_video(sections[k]));
    } else {
        assert(!is_active_video(sections[i]));
    }
}

/// The codecs that may cross are those of the sections in use, in their order; a section
/// that is not adds none.
pub proof fn codecs_cross_from_sections_in_use(sections: Seq<SectionView>, s: SectionView)
    ensures
        s.kind == MediaKind::Video && s.port != 0 && s.direction != Direction::Inactive
            ==> active_capabilities(sections.push(s)) == active_capabilities(sections)
            + section_capabilities(s),
        s.kind != MediaKind::Video || s.port == 0 || s.direction == Direction::Inactive
            ==> active_capabilities(sections.push(s)) =~= active_capabilities(sections),
        active_capabilities(Seq::empty()).len() == 0,
{
    assert(sections.push(s).drop_last() =~= sections);
}

/// Nothing that crosses the bridge is a codec without a name or one that is not allowed.
pub proof fn crossing_codecs_are_allowed(
    sections: Seq<SectionView>,
    allowed: Seq<Seq<char>>,
    i: int,
)
    requires
        0 <= i < bridged_capabilities(sections, allowed).len(),
    ensures
        crate::video::names_codec(
            crate::video::effective_allow(allowed),
            bridged_capabilities(sections, allowed)[i].codec_name,
        ),
        bridged_capabilities(sections, allowed)[i].rtcp_fbs.len() == 0,
        !text::same_ignoring_case(
            bridged_capabilities(sections, allowed)[i].codec_name,
            "unknown"@,
        ),
{
    let known = |c: CapabilityView| is_known_codec(c);
    let caps = active_capabilities(sections).filter(known);
    crate::video::rtp_capabilities_are_allowed(caps, allowed);
    let c = bridged_capabilities(sections, allowed)[i];
    let k = choose|k: int|
        0 <= k < caps.len() && c == crate::video::without_feedback(#[trigger] caps[k]);
    active_capabilities(sections).lemma_filter_pred(known, k);
    assert(known(caps[k]));
}

/// A section is mirrored as it is, and inactive without a port; only video that a WebRTC
/// target was receiving is still sent to it when the source stops its own.
pub proof fn stopped_video_is_still_sent_to_a_browser(
    s: SectionView,
    target_is_webrtc: bool,
    had_video: bool,
)
    ensures
        s.port != 0 && s.direction != Direction::Inactive ==> mirrored(s, target_is_webrtc, had_video)
            == s.direction,
        s.kind != MediaKind::Video && s.port == 0 ==> mirrored(s, target_is_webrtc, had_video)
            == Direction::Inactive,
        !target_is_webrtc && s.port == 0 ==> mirrored(s, target_is_webrtc, had_video)
            == Direction::Inactive,
        !had_video && s.port == 0 ==> mirrored(s, target_is_webrtc, had_video) == Direction::Inactive,
        s.kind == MediaKind::Video && (s.port == 0 || s.direction == Direction::Inactive) ==> mirrored(
            s,
            true,
            true,
        ) == Direction::SendOnly,
        s.kind != MediaKind::Video && s.direction == Direction::Inactive ==> mirrored(
            s,
            target_is_webrtc,
            had_video,
        ) == Direction::Inactive,
{
}

/// A transceiver that is given to a section is of its kind.
pub proof fn section_gets_a_transceiver_of_its_kind(
    r: Seq<(usize, Direction)>,
    s: SectionView,
    kinds: Seq<MediaKind>,
    target_is_webrtc: bool,
    had_video: bool,
)
    requires
        mirrors(r, seq![s], kinds, target_is_webrtc, had_video),
    ensures
        r.len() <= 1,
        r.len() == 1 ==> r[0].0 < kinds.len() && kinds[r[0].0 as int] == s.kind && r[0].1 == mirrored(
            s,
            target_is_webrtc,
            had_video,
        ) && forall|j: int| 0 <= j < r[0].0 ==> #[trigger] kinds[j] != s.kind,
        r.len() == 0 ==> forall|j: int| 0 <= j < kinds.len() ==> #[trigger] kinds[j] != s.kind,
{
    assert(seq![s].drop_last() =~= Seq::<SectionView>::empty());
    assert(seq![s].last() == s);
    reveal_with_fuel(mirrors, 3);
    if r.len() > 0 && first_free(kinds, r.drop_last(), s.kind, r.last().0 as int) && mirrors(
        r.drop_last(),
        Seq::<SectionView>::empty(),
        kinds,
        target_is_webrtc,
        had_video,
    ) {
        assert(r.drop_last().len() == 0);
    }
}

/// An UPDATE that did not succeed, for whatever reason, is repeated as a re-INVITE; a
/// re-INVITE is not repeated, and its response is the answer whatever it says.
pub proof fn failed_update_becomes_a_reinvite(status: u16, reply: MidDialogReply, method: OfferMethod)
    ensures
        offer_step(OfferMethod::Update, false, MidDialogReply::TimedOut) == OfferStep::RetryAsInvite,
        offer_step(OfferMethod::Update, false, MidDialogReply::Failed) == OfferStep::RetryAsInvite,
        offer_step(
            OfferMethod::Update,
            false,
            MidDialogReply::Response { status },
        ) == OfferStep::RetryAsInvite <==> !(200 <= status <= 299),
        200 <= status <= 299 ==> offer_step(method, false, MidDialogReply::Response { status })
            == OfferStep::Accept,
        method != OfferMethod::Update ==> offer_step(method, false, MidDialogReply::Response { status })
            == OfferStep::Accept,
        offer_step(method, true, MidDialogReply::Response { status }) == OfferStep::Accept,
        offer_step(method, true, MidDialogReply::TimedOut) == OfferStep::TimedOut,
        offer_step(method, true, MidDialogReply::Failed) == OfferStep::Failed,
        offer_step(OfferMethod::Invite, false, MidDialogReply::TimedOut) == OfferStep::TimedOut,
        offer_step(OfferMethod::Invite, false, MidDialogReply::Failed) == OfferStep::Failed,
{
}

/// An offer whose sound does not flow both ways holds its leg, one whose sound does
/// connects it, and one without sound leaves it.
pub proof fn one_way_sound_holds_a_leg(d: Direction)
    ensures
        offered_state(Some(d)) == Some(LegState::Connected) <==> d == Direction::SendRecv,
        offered_state(Some(d)) == Some(LegState::Hold) <==> d != Direction::SendRecv,
        offered_state(None) is None,
{
}

/// What an offer asks for is read off its sections.
pub proof fn facts_are_those_of_the_offer(
    facts: OfferFacts,
    sections: Seq<SectionView>,
    allowed: Seq<Seq<char>>,
)
    requires
        facts.of(sections, allowed),
    ensures
        facts.video_direction is Some <==> mentions_video(sections),
        facts.audio_direction == audio_direction(sections),
        facts.video_direction == video_direction(sections),
        cap_views(facts.video_caps@) == bridged_capabilities(sections, allowed),
{
}

/// An offer that could not be passed on is a failure of the server; one that could not be
/// answered here, or over the bridge, is not acceptable.
pub proof fn failure_tells_where_it_happened(route: UpdateRoute)
    ensures
        failure_status(route) == 500 <==> route == UpdateRoute::SignalingOnly,
        failure_status(route) == 488 <==> route != UpdateRoute::SignalingOnly,
{
}

/// To decline video turns its first section off, with neither port nor direction; a
/// description without video is left as it is.
pub proof fn declined_video_is_turned_off(desc: rustrtc::sdp::SessionDescription, i: int)
    ensures
        first_of_kind(sections_of(desc), MediaKind::Video) == Some(i) ==> without_video(desc)
            == with_section_direction(desc, i, 0, Direction::Inactive),
        !mentions_video(sections_of(desc)) ==> without_video(desc) == desc,
{
}

/// A request between legs of one kind is passed on as it is, whichever way it goes; between
/// unlike legs media is bridged.
pub proof fn unlike_legs_relay_media(a: bool, b: bool, there: RelayRoute, back: RelayRoute)
    requires
        call_ensures(relay_route, (a, b), there),
        call_ensures(relay_route, (b, a), back),
    ensures
        there == RelayRoute::SignalingOnly <==> a == b,
        back == RelayRoute::SignalingOnly <==> there == RelayRoute::SignalingOnly,
{
}

/// A relayed answer is passed back with its status, whole; only a success without a body has
/// nothing to pass back.
pub proof fn relayed_answer_is_passed_back(status: u16, body: &[u8], r: Option<(u16, String)>)
    requires
        call_ensures(accepted_answer, (status, body), r),
    ensures
        r is None <==> body@.len() == 0 && 200 <= status <= 299,
        r matches Some((s, sdp)) ==> s == status && sdp@ == text::utf8_lossy(body@),
{
}

/// An UPDATE without an offer, or with an interval that is too small, leaves media alone; one
/// with an offer is passed on where media goes past the proxy, and else answered by it, over
/// the bridge where it brings video.
pub proof fn update_is_answered_where_media_runs(
    m: MediaState,
    path: MediaPathMode,
    video: bool,
    refused: UpdateRoute,
    empty: UpdateRoute,
    r: UpdateRoute,
)
    requires
        call_ensures(update_route, (&m, path, false, true, video), refused),
        call_ensures(update_route, (&m, path, true, false, video), empty),
        call_ensures(update_route, (&m, path, true, true, video), r),
    ensures
        refused is NoOffer && empty is NoOffer && !(r is NoOffer),
        r is SignalingOnly <==> bypasses(m, path),
        r is BridgedVideo <==> !bypasses(m, path) && m.media_bridge && video,
        r is Local <==> !bypasses(m, path) && !(m.media_bridge && video),
{
}

/// An interval that is too small is answered with 422 and the smallest that is taken; a
/// description goes back as one, and only a success carries the headers of the refresh.
pub proof fn update_response_tells_what_came_of_it(
    min_se: Option<u64>,
    headers: Vec<(String, String)>,
    outcome: UpdateOutcome,
    refused: UpdateResponse,
    r: UpdateResponse,
)
    requires
        call_ensures(update_response, (false, min_se, headers, outcome), refused),
        call_ensures(update_response, (true, min_se, headers, outcome), r),
    ensures
        refused.status == 422 && refused.body is None,
        min_se is None ==> refused.headers@.len() == 0,
        min_se matches Some(secs) ==> refused.headers@.len() == 1 && refused.headers@[0].0@
            == "Min-SE"@ && refused.headers@[0].1@ == text::decimal(secs as nat),
        outcome is Nothing ==> r.status == 200 && r.headers == headers && r.body is None,
        outcome matches UpdateOutcome::Answered { status, sdp } ==> {
            &&& r.status == status && r.body == sdp
            &&& sdp is None && 200 <= status <= 299 ==> r.headers@ == headers@
            &&& sdp is None && !(200 <= status <= 299) ==> r.headers@.len() == 0
            &&& sdp is Some ==> r.headers@.last().0@ == "Content-Type"@ && r.headers@.last().1@
                == "application/sdp"@
            &&& sdp is Some && 200 <= status <= 299 ==> r.headers@.drop_last() == headers@
            &&& sdp is Some && !(200 <= status <= 299) ==> r.headers@.len() == 1
        },
        outcome is Failed ==> r.body is None && r.headers@.len() == 0,
{
}

/// Video that starts to flow needs a bridge, and a codec where the bridge has no video yet;
/// the first that is offered is taken.
pub proof fn new_video_needs_bridge_and_codec(
    facts: OfferFacts,
    bridge_has_video: bool,
    without: Result<Option<(u8, u32)>, RelayError>,
    r: Result<Option<(u8, u32)>, RelayError>,
)
    requires
        call_ensures(plan_bridge_video, (&facts, false, bridge_has_video), without),
        call_ensures(plan_bridge_video, (&facts, true, bridge_has_video), r),
    ensures
        without is Err && without->Err_0 == RelayError::NoBridge,
        r is Err <==> flows(facts.video_direction) && !bridge_has_video
            && facts.video_caps@.len() == 0,
        bridge_has_video || !flows(facts.video_direction) ==> r is Ok && r->Ok_0 is None,
        r is Ok && r->Ok_0 is Some ==> facts.video_caps@.len() > 0 && (r->Ok_0->0).0
            == facts.video_caps@[0].payload_type && (r->Ok_0->0).1
            == facts.video_caps@[0].clock_rate,
{
    if let Err(e) = r {
        match e {
            RelayError::NoBridge => {
                assert(r == Err::<Option<(u8, u32)>, RelayError>(RelayError::NoBridge));
            },
            RelayError::NoVideoCodec => {
                assert(r == Err::<Option<(u8, u32)>, RelayError>(RelayError::NoVideoCodec));
            },
        }
    }
}

/// What a leg offered anew and was answered is kept for that leg, and the other leg's side of
/// the media for the other; both run on the bridge.
pub proof fn relayed_offer_is_kept_for_its_side()
    ensures
        forall|
            m: &mut MediaState,
            legs: &mut LegRegistry,
            side: DialogSide,
            offer: String,
            target_offer: String,
            target_answer: String,
            source_answer: String,
            facts: OfferFacts,
            had_video: bool,
        | #[trigger]
            call_ensures(
                finish_bridged_relay,
                (
                    m,
                    legs,
                    side,
                    offer,
                    target_offer,
                    target_answer,
                    source_answer,
                    &facts,
                    had_video,
                ),
                (),
            ) ==> {
                &&& final(m).caller_answer_uses_media_bridge
                    && final(m).callee_offer_uses_media_bridge
                &&& side == DialogSide::Caller ==> final(m).caller_offer == Some(offer)
                    && final(m).answer == Some(source_answer) && final(m).callee_offer == Some(
                    target_offer,
                ) && final(m).callee_answer_sdp == Some(target_answer)
                &&& side == DialogSide::Callee ==> final(m).caller_offer == m.caller_offer
                    && final(m).answer == m.answer && final(m).callee_answer_sdp == Some(
                    source_answer,
                )
                &&& final(m).media_bridge == m.media_bridge && final(m).early_media_sent
                    == m.early_media_sent
            },
        forall|
            m: &mut MediaState,
            legs: &mut LegRegistry,
            side: DialogSide,
            offer: String,
            answer: String,
            facts: OfferFacts,
            had_video: bool,
        | #[trigger]
            call_ensures(
                finish_local_answer,
                (m, legs, side, offer, answer, &facts, had_video),
                (),
            ) ==> {
                &&& side == DialogSide::Caller ==> final(m).caller_offer == Some(offer)
                    && final(m).answer == Some(answer) && final(m).callee_offer == m.callee_offer
                    && final(m).callee_answer_sdp == m.callee_answer_sdp
                &&& side == DialogSide::Callee ==> final(m).caller_offer == m.caller_offer
                    && final(m).answer == m.answer && final(m).callee_answer_sdp == Some(answer)
            },
{
}

/// An UPDATE that is not taken is offered again as an INVITE, once; what a reply then says
/// stands.
pub proof fn refused_update_is_offered_as_invite(
    reply: MidDialogReply,
    update: OfferStep,
    again: OfferStep,
    invite: OfferStep,
)
    requires
        call_ensures(after_offer, (OfferMethod::Update, false, reply), update),
        call_ensures(after_offer, (OfferMethod::Update, true, reply), again),
        call_ensures(after_offer, (OfferMethod::Invite, false, reply), invite),
    ensures
        again == invite && !(invite is RetryAsInvite),
        update is RetryAsInvite <==> !(reply is Response && 200 <= reply->status <= 299),
        reply is Response ==> invite is Accept,
        reply is TimedOut ==> invite is TimedOut,
        reply is Failed ==> invite is Failed,
{
}

} // verus!
