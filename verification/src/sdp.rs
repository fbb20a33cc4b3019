//! Session descriptions: what the media sections of an offer or answer say, and how
//! the video codecs of one side are carried over to the other.

use crate::text;
use vstd::prelude::*;

verus! {

/// A parsed session description of `rustrtc`.
#[verifier::external_type_specification]
#[verifier::external_body]
pub struct ExSessionDescription(rustrtc::sdp::SessionDescription);

#[derive(Clone, Copy, PartialEq, Eq, Debug, Structural)]
pub enum SdpType {
    Offer,
    Answer,
    Pranswer,
    Rollback,
}

#[derive(Clone, Copy, PartialEq, Eq, Debug, Structural)]
pub enum MediaKind {
    Audio,
    Video,
    Application,
    Image,
}

#[derive(Clone, Copy, PartialEq, Eq, Debug, Structural)]
pub enum Direction {
    SendRecv,
    SendOnly,
    RecvOnly,
    Inactive,
}

/// How the media of a leg is transported.
#[derive(Clone, Copy, PartialEq, Eq, Debug, Structural)]
pub enum TransportMode {
    WebRtc,
    Srtp,
    Rtp,
}

/// An attribute line of a media section.
pub struct Attribute {
    pub key: String,
    pub value: Option<String>,
}

/// Key and value of an attribute.
pub type AttributeView = (Seq<char>, Option<Seq<char>>);

impl View for Attribute {
    type V = AttributeView;

    open spec fn view(&self) -> AttributeView {
        (self.key@, text::opt_text(self.value))
    }
}

/// A media section, as far as calls read it.
pub struct MediaSection {
    pub kind: MediaKind,
    pub port: u16,
    pub direction: Direction,
    pub formats: Vec<String>,
    pub attributes: Vec<Attribute>,
}

#[verifier::ext_equal]
pub struct SectionView {
    pub kind: MediaKind,
    pub port: u16,
    pub direction: Direction,
    pub formats: Seq<Seq<char>>,
    pub attributes: Seq<AttributeView>,
}

pub open spec fn attribute_views(v: Seq<Attribute>) -> Seq<AttributeView> {
    v.map_values(|a: Attribute| a@)
}

impl View for MediaSection {
    type V = SectionView;

    open spec fn view(&self) -> SectionView {
        SectionView {
            kind: self.kind,
            port: self.port,
            direction: self.direction,
            formats: text::views(self.formats@),
            attributes: attribute_views(self.attributes@),
        }
    }
}

pub open spec fn section_views(v: Seq<MediaSection>) -> Seq<SectionView> {
    v.map_values(|s: MediaSection| s@)
}

/// A video codec with the parameters that were negotiated for it.
pub struct VideoCapability {
    pub payload_type: u8,
    pub codec_name: String,
    pub clock_rate: u32,
    pub fmtp: Option<String>,
    pub rtcp_fbs: Vec<String>,
}

#[verifier::ext_equal]
pub struct CapabilityView {
    pub payload_type: u8,
    pub codec_name: Seq<char>,
    pub clock_rate: u32,
    pub fmtp: Option<Seq<char>>,
    pub rtcp_fbs: Seq<Seq<char>>,
}

impl View for VideoCapability {
    type V = CapabilityView;

    open spec fn view(&self) -> CapabilityView {
        CapabilityView {
            payload_type: self.payload_type,
            codec_name: self.codec_name@,
            clock_rate: self.clock_rate,
            fmtp: text::opt_text(self.fmtp),
            rtcp_fbs: text::views(self.rtcp_fbs@),
        }
    }
}

pub open spec fn cap_views(v: Seq<VideoCapability>) -> Seq<CapabilityView> {
    v.map_values(|c: VideoCapability| c@)
}

/// A description that was read, or the words on why it was not.
pub enum ParsedSdp {
    Description(rustrtc::sdp::SessionDescription),
    Failure(Seq<char>),
}

/// What `rustrtc` makes of a text as a session description.
pub uninterp spec fn parsed_sdp(sdp_type: SdpType, sdp: Seq<char>) -> ParsedSdp;

/// What the media sections of a description hold, in their order.
pub uninterp spec fn sections_of(desc: rustrtc::sdp::SessionDescription) -> Seq<SectionView>;

/// The description after an assignment to the formats and attributes of a section.
pub uninterp spec fn with_section_lines(
    desc: rustrtc::sdp::SessionDescription,
    i: int,
    formats: Seq<Seq<char>>,
    attributes: Seq<AttributeView>,
) -> rustrtc::sdp::SessionDescription;

/// The description after an assignment to the port and direction of a section.
pub uninterp spec fn with_section_direction(
    desc: rustrtc::sdp::SessionDescription,
    i: int,
    port: u16,
    direction: Direction,
) -> rustrtc::sdp::SessionDescription;

/// What `rustrtc` writes for a description.
pub uninterp spec fn sdp_text(desc: rustrtc::sdp::SessionDescription) -> Seq<char>;

/// The video capabilities that `rustrtc` finds in a media section.
pub uninterp spec fn section_capabilities(section: SectionView) -> Seq<CapabilityView>;

/// `rustrtc::SessionDescription::parse`.
#[verifier::external_body]
fn parse_outside(sdp_type: SdpType, sdp: &str) -> (r: Result<rustrtc::sdp::SessionDescription, String>)
    ensures
        r matches Ok(desc) ==> parsed_sdp(sdp_type, sdp@) == ParsedSdp::Description(desc),
        r matches Err(why) ==> parsed_sdp(sdp_type, sdp@) == ParsedSdp::Failure(why@),
{
    let kind = match sdp_type {
        SdpType::Offer => rustrtc::sdp::SdpType::Offer,
        SdpType::Answer => rustrtc::sdp::SdpType::Answer,
        SdpType::Pranswer => rustrtc::sdp::SdpType::Pranswer,
        SdpType::Rollback => rustrtc::sdp::SdpType::Rollback,
    };
    rustrtc::sdp::SessionDescription::parse(kind, sdp).map_err(|error| error.to_string())
}

/// The number of elements of `SessionDescription::media_sections`.
#[verifier::external_body]
pub(crate) fn section_count(desc: &rustrtc::sdp::SessionDescription) -> (r: usize)
    ensures
        r == sections_of(*desc).len(),
{
    desc.media_sections.len()
}

/// The field `kind` of a media section.
#[verifier::external_body]
pub(crate) fn section_kind(desc: &rustrtc::sdp::SessionDescription, i: usize) -> (r: MediaKind)
    requires
        i < sections_of(*desc).len(),
    ensures
        r == sections_of(*desc)[i as int].kind,
{
    match desc.media_sections[i].kind {
        rustrtc::sdp::MediaKind::Audio => MediaKind::Audio,
        rustrtc::sdp::MediaKind::Video => MediaKind::Video,
        rustrtc::sdp::MediaKind::Application => MediaKind::Application,
        rustrtc::sdp::MediaKind::Image => MediaKind::Image,
    }
}

/// The field `direction` of a media section.
#[verifier::external_body]
fn section_direction(desc: &rustrtc::sdp::SessionDescription, i: usize) -> (r: Direction)
    requires
        i < sections_of(*desc).len(),
    ensures
        r == sections_of(*desc)[i as int].direction,
{
    match desc.media_sections[i].direction {
        rustrtc::sdp::Direction::SendRecv => Direction::SendRecv,
        rustrtc::sdp::Direction::SendOnly => Direction::SendOnly,
        rustrtc::sdp::Direction::RecvOnly => Direction::RecvOnly,
        rustrtc::sdp::Direction::Inactive => Direction::Inactive,
    }
}

/// The fields `port`, `formats` and `attributes` of a media section.
#[verifier::external_body]
fn section_lines(desc: &rustrtc::sdp::SessionDescription, i: usize) -> (r: (u16, Vec<String>, Vec<Attribute>))
    requires
        i < sections_of(*desc).len(),
    ensures
        r.0 == sections_of(*desc)[i as int].port,
        text::views(r.1@) == sections_of(*desc)[i as int].formats,
        attribute_views(r.2@) == sections_of(*desc)[i as int].attributes,
{
    let section = desc.media_sections[i].clone();
    let attributes = section.attributes.into_iter();
    (
        section.port,
        section.formats,
        attributes.map(|a| Attribute { key: a.key, value: a.value }).collect(),
    )
}

/// Assigns the fields `formats` and `attributes` of a media section.
#[verifier::external_body]
pub(crate) fn set_section_lines(
    desc: &mut rustrtc::sdp::SessionDescription,
    i: usize,
    formats: Vec<String>,
    attributes: Vec<Attribute>,
)
    requires
        i < sections_of(*old(desc)).len(),
    ensures
        *final(desc) == with_section_lines(
            *old(desc),
            i as int,
            text::views(formats@),
            attribute_views(attributes@),
        ),
        sections_of(*final(desc)) == sections_of(*old(desc)).update(
            i as int,
            (SectionView {
                formats: text::views(formats@),
                attributes: attribute_views(attributes@),
                ..sections_of(*old(desc))[i as int]
            }),
        ),
{
    let attributes = attributes.into_iter();
    desc.media_sections[i].formats = formats;
    desc.media_sections[i].attributes =
        attributes.map(|a| rustrtc::sdp::Attribute::new(a.key, a.value)).collect();
}

/// Assigns the fields `port` and `direction` of a media section.
#[verifier::external_body]
pub(crate) fn set_section_direction(
    desc: &mut rustrtc::sdp::SessionDescription,
    i: usize,
    port: u16,
    direction: Direction,
)
    requires
        i < sections_of(*old(desc)).len(),
    ensures
        *final(desc) == with_section_direction(*old(desc), i as int, port, direction),
        sections_of(*final(desc)) == sections_of(*old(desc)).update(
            i as int,
            (SectionView { port, direction, ..sections_of(*old(desc))[i as int] }),
        ),
{
    desc.media_sections[i].port = port;
    desc.media_sections[i].direction = match direction {
        Direction::SendRecv => rustrtc::sdp::Direction::SendRecv,
        Direction::SendOnly => rustrtc::sdp::Direction::SendOnly,
        Direction::RecvOnly => rustrtc::sdp::Direction::RecvOnly,
        Direction::Inactive => rustrtc::sdp::Direction::Inactive,
    };
}

/// `rustrtc::SessionDescription::to_sdp_string`.
#[verifier::external_body]
pub(crate) fn write_sdp(desc: &rustrtc::sdp::SessionDescription) -> (r: String)
    ensures
        r@ == sdp_text(*desc),
{
    desc.to_sdp_string()
}

/// `rustrtc::MediaSection::to_video_capabilities`: none for a section of another kind.
#[verifier::external_body]
pub(crate) fn capabilities_at(desc: &rustrtc::sdp::SessionDescription, i: usize) -> (r: Vec<VideoCapability>)
    requires
        i < sections_of(*desc).len(),
    ensures
        cap_views(r@) == section_capabilities(sections_of(*desc)[i as int]),
        sections_of(*desc)[i as int].kind != MediaKind::Video ==> r@.len() == 0,
{
    let caps = desc.media_sections[i].to_video_capabilities();
    caps.into_iter().map(|c| VideoCapability {
        payload_type: c.payload_type,
        codec_name: c.codec_name,
        clock_rate: c.clock_rate,
        fmtp: c.fmtp,
        rtcp_fbs: c.rtcp_fbs,
    }).collect()
}

/// The message for a description that cannot be read.
pub open spec fn parse_failure(context: Seq<char>, why: Seq<char>) -> Seq<char> {
    "Failed to parse "@ + context + " SDP: "@ + why
}

/// The session description that a text writes; the error names what it was read as.
pub fn parse_sdp(sdp_type: SdpType, sdp: &str, context: &str) -> (r: Result<
    rustrtc::sdp::SessionDescription,
    String,
>)
    ensures
        r matches Ok(desc) ==> parsed_sdp(sdp_type, sdp@) == ParsedSdp::Description(desc),
        r matches Err(message) ==> (parsed_sdp(sdp_type, sdp@) matches ParsedSdp::Failure(why)
            && message@ == parse_failure(context@, why)),
{
    match parse_outside(sdp_type, sdp) {
        Ok(desc) => Ok(desc),
        Err(why) => {
            let mut message = text::concat3("Failed to parse ", context, " SDP: ");
            message.append(&why);
            Err(message)
        },
    }
}

/// The media sections of a description.
pub fn read_sections(desc: &rustrtc::sdp::SessionDescription) -> (r: Vec<MediaSection>)
    ensures
        section_views(r@) == sections_of(*desc),
{
    let n: usize = section_count(desc);
    let mut r: Vec<MediaSection> = Vec::new();
    let mut i: usize = 0;
    assert(section_views(r@) =~= sections_of(*desc).subrange(0, 0));
    while i < n
        invariant
            i <= n == sections_of(*desc).len(),
            section_views(r@) == sections_of(*desc).subrange(0, i as int),
        decreases n - i,
    {
        let kind = section_kind(desc, i);
        let direction = section_direction(desc, i);
        let (port, formats, attributes) = section_lines(desc, i);
        let section = MediaSection { kind, port, direction, formats, attributes };
        let ghost old_r = r@;
        let ghost s = section@;
        r.push(section);
        proof {
            assert(s =~= sections_of(*desc)[i as int]);
            assert(section_views(r@) =~= section_views(old_r).push(s));
            assert(sections_of(*desc).subrange(0, i + 1) =~= sections_of(*desc).subrange(
                0,
                i as int,
            ).push(s));
        }
        i += 1;
    }
    assert(sections_of(*desc).subrange(0, n as int) =~= sections_of(*desc));
    r
}

/// The sections that a text describes; none where it cannot be read.
pub open spec fn described_sections(sdp_type: SdpType, sdp: Seq<char>) -> Seq<SectionView> {
    match parsed_sdp(sdp_type, sdp) {
        ParsedSdp::Description(desc) => sections_of(desc),
        ParsedSdp::Failure(_) => Seq::empty(),
    }
}

/// The media sections that a text describes, or why it describes none.
pub fn describe(sdp_type: SdpType, sdp: &str, context: &str) -> (r: Result<Vec<MediaSection>, String>)
    ensures
        r is Ok <==> parsed_sdp(sdp_type, sdp@) is Description,
        r matches Ok(sections) ==> section_views(sections@) == described_sections(sdp_type, sdp@),
        r matches Err(message) ==> message@ == parse_failure(
            context@,
            parsed_sdp(sdp_type, sdp@)->Failure_0,
        ),
{
    match parse_sdp(sdp_type, sdp, context) {
        Ok(desc) => Ok(read_sections(&desc)),
        Err(message) => Err(message),
    }
}

/// The video capabilities of all sections, one section after another.
pub open spec fn all_capabilities(sections: Seq<SectionView>) -> Seq<CapabilityView>
    decreases sections.len(),
{
    if sections.len() == 0 {
        Seq::empty()
    } else {
        all_capabilities(sections.drop_last()) + (if sections.last().kind == MediaKind::Video {
            section_capabilities(sections.last())
        } else {
            Seq::empty()
        })
    }
}

/// The video capabilities that a description offers.
pub fn video_capabilities(desc: &rustrtc::sdp::SessionDescription) -> (r: Vec<VideoCapability>)
    ensures
        cap_views(r@) == all_capabilities(sections_of(*desc)),
{
    let n: usize = section_count(desc);
    let mut r: Vec<VideoCapability> = Vec::new();
    let mut i: usize = 0;
    let ghost all = sections_of(*desc);
    proof {
        assert(all.subrange(0, 0) =~= Seq::empty());
        assert(cap_views(r@) =~= Seq::empty());
    }
    while i < n
        invariant
            i <= n == all.len(),
            all == sections_of(*desc),
            cap_views(r@) == all_capabilities(all.subrange(0, i as int)),
        decreases n - i,
    {
        proof {
            assert(all.subrange(0, i + 1).drop_last() =~= all.subrange(0, i as int));
            assert(all.subrange(0, i + 1).last() == all[i as int]);
        }
        if section_kind(desc, i) == MediaKind::Video {
            let mut more = capabilities_at(desc, i);
            let ghost old_r = r@;
            let ghost old_more = more@;
            r.append(&mut more);
            assert(cap_views(r@) =~= cap_views(old_r) + cap_views(old_more));
        } else {
            assert(cap_views(r@) =~= cap_views(r@) + Seq::empty());
        }
        i += 1;
    }
    assert(all.subrange(0, n as int) =~= all);
    r
}

/// The position of the first section of a kind.
pub open spec fn first_of_kind(sections: Seq<SectionView>, kind: MediaKind) -> Option<int>
    decreases sections.len(),
{
    if sections.len() == 0 {
        None
    } else {
        match first_of_kind(sections.drop_last(), kind) {
            Some(i) => Some(i),
            None => if sections.last().kind == kind {
                Some(sections.len() - 1)
            } else {
                None
            },
        }
    }
}

/// The position of the first section of a kind.
pub fn find_section(sections: &Vec<MediaSection>, kind: MediaKind) -> (r: Option<usize>)
    ensures
        r is Some <==> first_of_kind(section_views(sections@), kind) is Some,
        r matches Some(i) ==> i < sections@.len() && first_of_kind(section_views(sections@), kind) == Some(
            i as int,
        ) && sections@[i as int].kind == kind,
{
    let mut found: Option<usize> = None;
    let mut i: usize = 0;
    let ghost all = section_views(sections@);
    assert(all.subrange(0, 0) =~= Seq::empty());
    while i < sections.len()
        invariant
            i <= sections@.len(),
            all == section_views(sections@),
            found is Some <==> first_of_kind(all.subrange(0, i as int), kind) is Some,
            found matches Some(k) ==> k < i && first_of_kind(all.subrange(0, i as int), kind) == Some(
                k as int,
            ) && sections@[k as int].kind == kind,
        decreases sections@.len() - i,
    {
        proof {
            assert(all.subrange(0, i + 1).drop_last() =~= all.subrange(0, i as int));
            assert(all.subrange(0, i + 1).last() == sections@[i as int]@);
        }
        if found.is_none() && sections[i].kind == kind {
            found = Some(i);
        }
        i += 1;
    }
    assert(all.subrange(0, all.len() as int) =~= all);
    found
}

/// The first section of a kind is of that kind, and none before it is; there is none only
/// where no section is of that kind.
pub proof fn first_of_a_kind_is_the_first(sections: Seq<SectionView>, kind: MediaKind)
    ensures
        first_of_kind(sections, kind) matches Some(i) ==> 0 <= i < sections.len() && sections[i].kind
            == kind && forall|j: int| 0 <= j < i ==> (#[trigger] sections[j]).kind != kind,
        first_of_kind(sections, kind) is None ==> forall|j: int|
            0 <= j < sections.len() ==> (#[trigger] sections[j]).kind != kind,
    decreases sections.len(),
{
    if sections.len() > 0 {
        let rest = sections.drop_last();
        first_of_a_kind_is_the_first(rest, kind);
        if first_of_kind(rest, kind) is Some {
            let i = first_of_kind(rest, kind)->0;
            assert forall|j: int| 0 <= j < i implies (#[trigger] sections[j]).kind != kind by {
                assert(rest[j] == sections[j]);
            }
        } else {
            assert forall|j: int| 0 <= j < rest.len() implies (#[trigger] sections[j]).kind != kind by {
                assert(rest[j] == sections[j]);
            }
        }
    }
}

/// The video capabilities of a description are those of its video sections, in order, and
/// those alone.
pub proof fn capabilities_are_those_of_video(sections: Seq<SectionView>, section: SectionView)
    ensures
        section.kind == MediaKind::Video ==> all_capabilities(sections.push(section))
            == all_capabilities(sections) + section_capabilities(section),
        section.kind != MediaKind::Video ==> all_capabilities(sections.push(section))
            =~= all_capabilities(sections),
        all_capabilities(Seq::empty()).len() == 0,
{
    assert(sections.push(section).drop_last() =~= sections);
}

/// What cannot be read describes no section, and what can describes its own.
pub proof fn unreadable_text_describes_nothing(sdp_type: SdpType, sdp: Seq<char>)
    ensures
        parsed_sdp(sdp_type, sdp) is Failure ==> described_sections(sdp_type, sdp).len() == 0,
        parsed_sdp(sdp_type, sdp) matches ParsedSdp::Description(desc) ==> described_sections(
            sdp_type,
            sdp,
        ) == sections_of(desc),
{
}

/// The message about a description that cannot be read names what was read, and ends with
/// why it could not be.
pub proof fn message_tells_what_and_why(context: Seq<char>, why: Seq<char>)
    ensures
        text::ends_with(parse_failure(context, why), why),
        text::contains(parse_failure(context, why), context),
{
    let head = "Failed to parse "@;
    let mid = " SDP: "@;
    let all = parse_failure(context, why);
    let before = head + context + mid;
    assert(all.subrange(before.len() as int, all.len() as int) =~= why);
    assert(all.subrange(head.len() as int, head.len() as int + context.len()) =~= context);
    assert(text::occurs_at(all, context, head.len() as int));
}

} // verus!
