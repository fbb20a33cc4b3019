//! Video between the two sides of a call: which codecs cross the bridge, in what
//! order, and in which direction the video of an offer flows.

use crate::sdp::{
    all_capabilities, attribute_views, cap_views, find_section, first_of_kind, parse_failure,
    parse_sdp, parsed_sdp, read_sections, sdp_text, section_views, sections_of, set_section_lines,
    video_capabilities, with_section_lines, write_sdp, Attribute, AttributeView, CapabilityView,
    MediaKind, ParsedSdp, SdpType, VideoCapability,
};
use crate::text;
use vstd::prelude::*;

verus! {

pub fn clone_texts(v: &Vec<String>) -> (r: Vec<String>)
    ensures
        r@ == v@,
{
    let mut r: Vec<String> = Vec::new();
    let mut i: usize = 0;
    while i < v.len()
        invariant
            i <= v@.len(),
            r@ == v@.subrange(0, i as int),
        decreases v@.len() - i,
    {
        r.push(v[i].clone());
        i += 1;
    }
    r
}

impl VideoCapability {
    pub fn duplicate(&self) -> (r: VideoCapability)
        ensures
            r@ == self@,
    {
        VideoCapability {
            payload_type: self.payload_type,
            codec_name: self.codec_name.clone(),
            clock_rate: self.clock_rate,
            fmtp: self.fmtp.clone(),
            rtcp_fbs: clone_texts(&self.rtcp_fbs),
        }
    }
}

/// The codec names that an RTP peer is offered: those configured, or H264.
pub open spec fn effective_allow(allowed: Seq<Seq<char>>) -> Seq<Seq<char>> {
    if allowed.len() == 0 {
        seq!["H264"@]
    } else {
        allowed
    }
}

/// One of the names is the codec's, whatever the case of its letters.
pub open spec fn names_codec(names: Seq<Seq<char>>, codec: Seq<char>) -> bool {
    exists|i: int| 0 <= i < names.len() && text::same_ignoring_case(#[trigger] names[i], codec)
}

/// The capability without its RTCP feedback, which RTP peers commonly reject.
pub open spec fn without_feedback(cap: CapabilityView) -> CapabilityView {
    CapabilityView { rtcp_fbs: Seq::empty(), ..cap }
}

/// The capabilities that may be offered to an RTP peer.
pub open spec fn rtp_capabilities(caps: Seq<CapabilityView>, allowed: Seq<Seq<char>>) -> Seq<CapabilityView> {
    caps.filter(|c: CapabilityView| names_codec(effective_allow(allowed), c.codec_name)).map_values(
        |c: CapabilityView| without_feedback(c),
    )
}

fn is_allowed(allowed: &Vec<String>, codec: &str) -> (r: bool)
    ensures
        r == names_codec(effective_allow(text::views(allowed@)), codec@),
{
    let ghost eff = effective_allow(text::views(allowed@));
    if allowed.len() == 0 {
        let r = text::eq_ignore_ascii_case("H264", codec);
        assert(eff[0] == "H264"@);
        return r;
    }
    let mut i: usize = 0;
    while i < allowed.len()
        invariant
            i <= allowed@.len(),
            eff == text::views(allowed@),
            forall|j: int| 0 <= j < i ==> !text::same_ignoring_case(#[trigger] eff[j], codec@),
        decreases allowed@.len() - i,
    {
        assert(eff[i as int] == allowed@[i as int]@);
        if text::eq_ignore_ascii_case(&allowed[i], codec) {
            assert(names_codec(eff, codec@));
            return true;
        }
        i += 1;
    }
    false
}

/// The video capabilities for a leg that speaks plain RTP: of those given, the ones
/// whose codec is allowed, without RTCP feedback. Where none is left there is no
/// video; nothing else is let through in its place.
pub fn filter_video_caps_for_rtp(caps: &Vec<VideoCapability>, allowed_codecs: &Vec<String>) -> (r: Vec<
    VideoCapability,
>)
    ensures
        cap_views(r@) == rtp_capabilities(cap_views(caps@), text::views(allowed_codecs@)),
{
    let mut r: Vec<VideoCapability> = Vec::new();
    let mut i: usize = 0;
    let ghost all = cap_views(caps@);
    let ghost names = text::views(allowed_codecs@);
    let ghost keep = |c: CapabilityView| names_codec(effective_allow(names), c.codec_name);
    proof {
        reveal(Seq::filter);
        assert(all.subrange(0, 0) =~= Seq::empty());
        assert(cap_views(r@) =~= rtp_capabilities(all.subrange(0, 0), names));
    }
    while i < caps.len()
        invariant
            i <= caps@.len(),
            all == cap_views(caps@),
            names == text::views(allowed_codecs@),
            keep == (|c: CapabilityView| names_codec(effective_allow(names), c.codec_name)),
            cap_views(r@) == rtp_capabilities(all.subrange(0, i as int), names),
        decreases caps@.len() - i,
    {
        let ghost before = all.subrange(0, i as int);
        let ghost now = all.subrange(0, i + 1);
        proof {
            reveal(Seq::filter);
            assert(now.drop_last() =~= before);
            assert(now.last() == caps@[i as int]@);
        }
        if is_allowed(allowed_codecs, &caps[i].codec_name) {
            let mut cap = caps[i].duplicate();
            cap.rtcp_fbs = Vec::new();
            let ghost c = cap@;
            let ghost old_r = r@;
            r.push(cap);
            proof {
                assert(c =~= without_feedback(caps@[i as int]@));
                assert(cap_views(r@) =~= cap_views(old_r).push(c));
                assert(now.filter(keep) == before.filter(keep).push(caps@[i as int]@));
                assert(rtp_capabilities(now, names) =~= rtp_capabilities(before, names).push(c));
            }
        } else {
            assert(now.filter(keep) == before.filter(keep));
        }
        i += 1;
    }
    assert(all.subrange(0, all.len() as int) =~= all);
    r
}

/// To filter the capabilities for an RTP peer twice does no more than to do it once.
pub proof fn filtering_twice_is_filtering_once(caps: Seq<CapabilityView>, allowed: Seq<Seq<char>>)
    ensures
        rtp_capabilities(rtp_capabilities(caps, allowed), allowed) == rtp_capabilities(caps, allowed),
{
    rtp_capabilities_are_allowed(caps, allowed);
    all_kept(rtp_capabilities(caps, allowed), allowed);
}

proof fn all_kept(caps: Seq<CapabilityView>, allowed: Seq<Seq<char>>)
    requires
        forall|i: int|
            0 <= i < caps.len() ==> names_codec(
                effective_allow(allowed),
                (#[trigger] caps[i]).codec_name,
            ) && caps[i].rtcp_fbs.len() == 0,
    ensures
        rtp_capabilities(caps, allowed) == caps,
    decreases caps.len(),
{
    reveal(Seq::filter);
    let keep = |c: CapabilityView| names_codec(effective_allow(allowed), c.codec_name);
    if caps.len() > 0 {
        let rest = caps.drop_last();
        let last = caps.last();
        assert(forall|j: int| 0 <= j < rest.len() ==> (#[trigger] rest[j]) == caps[j]);
        all_kept(rest, allowed);
        assert(caps[caps.len() - 1] == last);
        assert(keep(last));
        assert(last.rtcp_fbs =~= Seq::empty());
        assert(without_feedback(last) == last);
        assert(caps.filter(keep) == rest.filter(keep).push(last));
        assert(rtp_capabilities(caps, allowed) =~= rtp_capabilities(rest, allowed).push(last));
        assert(rest.push(last) =~= caps);
    } else {
        assert(rtp_capabilities(caps, allowed) =~= caps);
    }
}

/// What is offered to an RTP peer is allowed, carries no RTCP feedback, and is
/// otherwise as the source offered it.
pub proof fn rtp_capabilities_are_allowed(caps: Seq<CapabilityView>, allowed: Seq<Seq<char>>)
    ensures
        rtp_capabilities(caps, allowed).len() <= caps.len(),
        forall|i: int|
            0 <= i < rtp_capabilities(caps, allowed).len() ==> {
                let c = #[trigger] rtp_capabilities(caps, allowed)[i];
                &&& names_codec(effective_allow(allowed), c.codec_name)
                &&& c.rtcp_fbs.len() == 0
                &&& exists|k: int| 0 <= k < caps.len() && c == without_feedback(#[trigger] caps[k])
            },
    decreases caps.len(),
{
    reveal(Seq::filter);
    let keep = |c: CapabilityView| names_codec(effective_allow(allowed), c.codec_name);
    if caps.len() > 0 {
        let before = caps.drop_last();
        rtp_capabilities_are_allowed(before, allowed);
        let all = rtp_capabilities(caps, allowed);
        let some = rtp_capabilities(before, allowed);
        if keep(caps.last()) {
            assert(all =~= some.push(without_feedback(caps.last())));
        } else {
            assert(all =~= some);
        }
        assert forall|i: int| 0 <= i < all.len() implies {
            let c = #[trigger] all[i];
            &&& names_codec(effective_allow(allowed), c.codec_name)
            &&& c.rtcp_fbs.len() == 0
            &&& exists|k: int| 0 <= k < caps.len() && c == without_feedback(#[trigger] caps[k])
        } by {
            if i < some.len() {
                assert(all[i] == some[i]);
                let k = choose|k: int| 0 <= k < before.len() && some[i] == without_feedback(#[trigger] before[k]);
                assert(before[k] == caps[k]);
            } else {
                assert(all[i] == without_feedback(caps[caps.len() - 1]));
            }
        }
    }
}

/// The same codec at the same clock rate.
pub open spec fn same_codec(a: CapabilityView, b: CapabilityView) -> bool {
    text::same_ignoring_case(a.codec_name, b.codec_name) && a.clock_rate == b.clock_rate
}

pub open spec fn has_payload_type(caps: Seq<CapabilityView>, pt: u8) -> bool {
    exists|i: int| 0 <= i < caps.len() && (#[trigger] caps[i]).payload_type == pt
}

/// The capabilities with one more, unless its payload type is taken.
pub open spec fn with_new(caps: Seq<CapabilityView>, cap: CapabilityView) -> Seq<CapabilityView> {
    if has_payload_type(caps, cap.payload_type) {
        caps
    } else {
        caps.push(cap)
    }
}

/// The capabilities with the local ones for a codec of the source.
pub open spec fn with_locals(caps: Seq<CapabilityView>, locals: Seq<CapabilityView>, source: CapabilityView) -> Seq<
    CapabilityView,
>
    decreases locals.len(),
{
    if locals.len() == 0 {
        caps
    } else {
        let before = with_locals(caps, locals.drop_last(), source);
        if same_codec(locals.last(), source) {
            with_new(before, locals.last())
        } else {
            before
        }
    }
}

pub open spec fn has_codec(locals: Seq<CapabilityView>, source: CapabilityView) -> bool {
    exists|i: int| 0 <= i < locals.len() && same_codec(#[trigger] locals[i], source)
}

/// The local capabilities in the order of the source's codecs; a codec of the source
/// that is not there locally stands as the source has it.
pub open spec fn in_source_order(locals: Seq<CapabilityView>, sources: Seq<CapabilityView>) -> Seq<
    CapabilityView,
>
    decreases sources.len(),
{
    if sources.len() == 0 {
        Seq::empty()
    } else {
        let before = in_source_order(locals, sources.drop_last());
        if has_codec(locals, sources.last()) {
            with_locals(before, locals, sources.last())
        } else {
            with_new(before, sources.last())
        }
    }
}

pub open spec fn distinct_payload_types(caps: Seq<CapabilityView>) -> bool {
    forall|i: int, j: int|
        0 <= i < j < caps.len() ==> (#[trigger] caps[i]).payload_type != (#[trigger] caps[j]).payload_type
}

proof fn lemma_with_locals_distinct(caps: Seq<CapabilityView>, locals: Seq<CapabilityView>, source: CapabilityView)
    requires
        distinct_payload_types(caps),
    ensures
        distinct_payload_types(with_locals(caps, locals, source)),
    decreases locals.len(),
{
    if locals.len() > 0 {
        lemma_with_locals_distinct(caps, locals.drop_last(), source);
    }
}

/// No payload type stands twice in the ordered list.
pub proof fn ordered_payload_types_are_distinct(locals: Seq<CapabilityView>, sources: Seq<CapabilityView>)
    ensures
        distinct_payload_types(in_source_order(locals, sources)),
    decreases sources.len(),
{
    if sources.len() > 0 {
        ordered_payload_types_are_distinct(locals, sources.drop_last());
        lemma_with_locals_distinct(
            in_source_order(locals, sources.drop_last()),
            locals,
            sources.last(),
        );
    }
}

/// Every capability of the list is a local one or one of the source.
pub open spec fn drawn_from(caps: Seq<CapabilityView>, locals: Seq<CapabilityView>, sources: Seq<CapabilityView>) -> bool {
    forall|i: int|
        0 <= i < caps.len() ==> locals.contains(#[trigger] caps[i]) || sources.contains(caps[i])
}

proof fn lemma_with_locals_drawn(
    caps: Seq<CapabilityView>,
    locals: Seq<CapabilityView>,
    source: CapabilityView,
    all_locals: Seq<CapabilityView>,
    sources: Seq<CapabilityView>,
)
    requires
        drawn_from(caps, all_locals, sources),
        forall|i: int| 0 <= i < locals.len() ==> all_locals.contains(#[trigger] locals[i]),
    ensures
        drawn_from(with_locals(caps, locals, source), all_locals, sources),
    decreases locals.len(),
{
    if locals.len() > 0 {
        assert(forall|i: int|
            0 <= i < locals.len() - 1 ==> #[trigger] locals.drop_last()[i] == locals[i]);
        lemma_with_locals_drawn(caps, locals.drop_last(), source, all_locals, sources);
        assert(all_locals.contains(locals[locals.len() - 1]));
    }
}

/// The ordered list invents nothing: each entry is a local capability or one of the
/// source.
pub proof fn ordered_capabilities_are_known(locals: Seq<CapabilityView>, sources: Seq<CapabilityView>)
    ensures
        drawn_from(in_source_order(locals, sources), locals, sources),
    decreases sources.len(),
{
    if sources.len() > 0 {
        let before = in_source_order(locals, sources.drop_last());
        ordered_capabilities_are_known(locals, sources.drop_last());
        assert forall|i: int| 0 <= i < before.len() implies locals.contains(#[trigger] before[i])
            || sources.contains(before[i]) by {
            if sources.drop_last().contains(before[i]) {
                let k = choose|k: int|
                    0 <= k < sources.len() - 1 && sources.drop_last()[k] == before[i];
                assert(sources[k] == before[i]);
            }
        }
        assert(forall|i: int| 0 <= i < locals.len() ==> locals.contains(#[trigger] locals[i]));
        lemma_with_locals_drawn(before, locals, sources.last(), locals, sources);
        assert(sources.contains(sources[sources.len() - 1]));
    }
}

fn push_new(caps: &mut Vec<VideoCapability>, cap: &VideoCapability)
    ensures
        cap_views(final(caps)@) == with_new(cap_views(old(caps)@), cap@),
{
    let ghost all = cap_views(caps@);
    let mut i: usize = 0;
    while i < caps.len()
        invariant
            i <= caps@.len(),
            all == cap_views(caps@),
            caps@ == old(caps)@,
            forall|j: int| 0 <= j < i ==> (#[trigger] all[j]).payload_type != cap@.payload_type,
        decreases caps@.len() - i,
    {
        assert(all[i as int] == caps@[i as int]@);
        if caps[i].payload_type == cap.payload_type {
            assert(has_payload_type(all, cap@.payload_type));
            return;
        }
        i += 1;
    }
    caps.push(cap.duplicate());
    assert(cap_views(caps@) =~= all.push(cap@));
}

/// The local capabilities in the order in which the source offers their codecs.
pub fn order_capabilities(locals: &Vec<VideoCapability>, sources: &Vec<VideoCapability>) -> (r: Vec<
    VideoCapability,
>)
    ensures
        cap_views(r@) == in_source_order(cap_views(locals@), cap_views(sources@)),
{
    let mut r: Vec<VideoCapability> = Vec::new();
    let ghost ls = cap_views(locals@);
    let ghost ss = cap_views(sources@);
    let mut i: usize = 0;
    proof {
        assert(ss.subrange(0, 0) =~= Seq::empty());
        assert(cap_views(r@) =~= Seq::empty());
    }
    while i < sources.len()
        invariant
            i <= sources@.len(),
            ls == cap_views(locals@),
            ss == cap_views(sources@),
            cap_views(r@) == in_source_order(ls, ss.subrange(0, i as int)),
        decreases sources@.len() - i,
    {
        let source = &sources[i];
        let ghost before = cap_views(r@);
        let mut matched = false;
        let mut k: usize = 0;
        assert(ls.subrange(0, 0) =~= Seq::empty());
        while k < locals.len()
            invariant
                k <= locals@.len(),
                ls == cap_views(locals@),
                cap_views(r@) == with_locals(before, ls.subrange(0, k as int), source@),
                matched == has_codec(ls.subrange(0, k as int), source@),
                !matched ==> cap_views(r@) == before,
            decreases locals@.len() - k,
        {
            let ghost some = ls.subrange(0, k as int);
            let ghost more = ls.subrange(0, k + 1);
            proof {
                assert(more.drop_last() =~= some);
                assert(more.last() == locals@[k as int]@);
            }
            let is_same = text::eq_ignore_ascii_case(&locals[k].codec_name, &source.codec_name)
                && locals[k].clock_rate == source.clock_rate;
            assert(is_same == same_codec(more[k as int], source@));
            if is_same {
                matched = true;
                push_new(&mut r, &locals[k]);
            } else {
                proof {
                    if has_codec(more, source@) {
                        let w = choose|w: int| 0 <= w < more.len() && same_codec(#[trigger] more[w], source@);
                        assert(some[w] == more[w]);
                    }
                    if has_codec(some, source@) {
                        let w = choose|w: int| 0 <= w < some.len() && same_codec(#[trigger] some[w], source@);
                        assert(more[w] == some[w]);
                    }
                }
            }
            k += 1;
        }
        assert(ls.subrange(0, ls.len() as int) =~= ls);
        if !matched {
            push_new(&mut r, source);
        }
        proof {
            assert(ss.subrange(0, i + 1).drop_last() =~= ss.subrange(0, i as int));
            assert(ss.subrange(0, i + 1).last() == source@);
        }
        i += 1;
    }
    assert(ss.subrange(0, ss.len() as int) =~= ss);
    r
}

pub open spec fn format_texts(caps: Seq<CapabilityView>) -> Seq<Seq<char>> {
    caps.map_values(|c: CapabilityView| text::decimal(c.payload_type as nat))
}

pub open spec fn pt_text(c: CapabilityView) -> Seq<char> {
    text::decimal(c.payload_type as nat) + " "@
}

pub open spec fn feedback_attributes(c: CapabilityView) -> Seq<AttributeView> {
    c.rtcp_fbs.map_values(|fb: Seq<char>| ("rtcp-fb"@, Some(pt_text(c) + fb)))
}

/// The attribute lines of one capability: codec and clock rate, then its format
/// parameters, then its feedback.
pub open spec fn attributes_of(c: CapabilityView) -> Seq<AttributeView> {
    let rtpmap = ("rtpmap"@, Some(pt_text(c) + c.codec_name + "/"@ + text::decimal(c.clock_rate as nat)));
    let fmtp = match c.fmtp {
        Some(f) => seq![("fmtp"@, Some(pt_text(c) + f))],
        None => Seq::empty(),
    };
    seq![rtpmap] + fmtp + feedback_attributes(c)
}

pub open spec fn all_attributes(caps: Seq<CapabilityView>) -> Seq<AttributeView>
    decreases caps.len(),
{
    if caps.len() == 0 {
        Seq::empty()
    } else {
        all_attributes(caps.drop_last()) + attributes_of(caps.last())
    }
}

pub open spec fn describes_codec(a: AttributeView) -> bool {
    a.0 == "rtpmap"@ || a.0 == "fmtp"@ || a.0 == "rtcp-fb"@
}

/// The attributes of a section once its codecs are replaced.
pub open spec fn replaced_attributes(attributes: Seq<AttributeView>, caps: Seq<CapabilityView>) -> Seq<
    AttributeView,
> {
    attributes.filter(|a: AttributeView| !describes_codec(a)) + all_attributes(caps)
}

fn write_formats(caps: &Vec<VideoCapability>) -> (r: Vec<String>)
    ensures
        text::views(r@) == format_texts(cap_views(caps@)),
{
    let mut r: Vec<String> = Vec::new();
    let mut i: usize = 0;
    let ghost all = format_texts(cap_views(caps@));
    assert(text::views(r@) =~= all.subrange(0, 0));
    while i < caps.len()
        invariant
            i <= caps@.len(),
            all == format_texts(cap_views(caps@)),
            text::views(r@) == all.subrange(0, i as int),
        decreases caps@.len() - i,
    {
        let ghost old_r = r@;
        let t = text::decimal_text(caps[i].payload_type as u64);
        let ghost tv = t@;
        r.push(t);
        proof {
            assert(all[i as int] == tv);
            assert(text::views(r@) =~= text::views(old_r).push(tv));
            assert(all.subrange(0, i + 1) =~= all.subrange(0, i as int).push(tv));
        }
        i += 1;
    }
    assert(all.subrange(0, all.len() as int) =~= all);
    r
}

fn keep_attributes(attributes: Vec<Attribute>) -> (r: Vec<Attribute>)
    ensures
        attribute_views(r@) == attribute_views(attributes@).filter(
            |a: AttributeView| !describes_codec(a),
        ),
{
    let ghost all = attribute_views(attributes@);
    let ghost keep = |a: AttributeView| !describes_codec(a);
    let mut r: Vec<Attribute> = Vec::new();
    let mut i: usize = 0;
    proof {
        reveal(Seq::filter);
        assert(all.subrange(0, 0) =~= Seq::empty());
        assert(attribute_views(r@) =~= Seq::empty());
    }
    while i < attributes.len()
        invariant
            i <= attributes@.len(),
            all == attribute_views(attributes@),
            keep == (|a: AttributeView| !describes_codec(a)),
            attribute_views(r@) == all.subrange(0, i as int).filter(keep),
        decreases attributes@.len() - i,
    {
        let a = &attributes[i];
        proof {
            reveal(Seq::filter);
            assert(all.subrange(0, i + 1).drop_last() =~= all.subrange(0, i as int));
            assert(all.subrange(0, i + 1).last() == a@);
        }
        if !(text::same(&a.key, "rtpmap") || text::same(&a.key, "fmtp") || text::same(&a.key, "rtcp-fb")) {
            let ghost old_r = r@;
            let copy = Attribute { key: a.key.clone(), value: a.value.clone() };
            r.push(copy);
            assert(attribute_views(r@) =~= attribute_views(old_r).push(a@));
        }
        i += 1;
    }
    assert(all.subrange(0, all.len() as int) =~= all);
    r
}

fn push_attribute(r: &mut Vec<Attribute>, key: &str, value: String)
    ensures
        attribute_views(final(r)@) == attribute_views(old(r)@).push((key@, Some(value@))),
{
    let ghost v = value@;
    let ghost before = r@;
    r.push(Attribute { key: key.to_owned(), value: Some(value) });
    assert(attribute_views(r@) =~= attribute_views(before).push((key@, Some(v))));
}

/// Appends the attribute lines of a capability.
fn push_capability(r: &mut Vec<Attribute>, cap: &VideoCapability)
    ensures
        attribute_views(final(r)@) == attribute_views(old(r)@) + attributes_of(cap@),
{
    let ghost start = attribute_views(r@);
    let digits = text::decimal_text(cap.payload_type as u64);
    let pt = text::concat(&digits, " ");
    assert(pt@ == pt_text(cap@));
    let rate = text::decimal_text(cap.clock_rate as u64);
    let mut value = text::concat3(&pt, &cap.codec_name, "/");
    value.append(&rate);
    let ghost rtpmap = ("rtpmap"@, Some(value@));
    push_attribute(r, "rtpmap", value);
    let ghost fmtp: Seq<AttributeView> = match cap@.fmtp {
        Some(f) => seq![("fmtp"@, Some(pt_text(cap@) + f))],
        None => Seq::empty(),
    };
    if let Some(f) = &cap.fmtp {
        let value = text::concat(&pt, f);
        push_attribute(r, "fmtp", value);
    }
    let ghost mid = attribute_views(r@);
    assert(mid =~= start + seq![rtpmap] + fmtp);
    let ghost fbs = feedback_attributes(cap@);
    let mut i: usize = 0;
    assert(mid =~= mid + fbs.subrange(0, 0));
    while i < cap.rtcp_fbs.len()
        invariant
            i <= cap.rtcp_fbs@.len(),
            pt@ == pt_text(cap@),
            fbs == feedback_attributes(cap@),
            attribute_views(r@) == mid + fbs.subrange(0, i as int),
        decreases cap.rtcp_fbs@.len() - i,
    {
        let value = text::concat(&pt, &cap.rtcp_fbs[i]);
        let ghost v = value@;
        push_attribute(r, "rtcp-fb", value);
        proof {
            assert(cap@.rtcp_fbs[i as int] == cap.rtcp_fbs@[i as int]@);
            assert(fbs[i as int] == ("rtcp-fb"@, Some(v)));
            assert(fbs.subrange(0, i + 1) =~= fbs.subrange(0, i as int).push(fbs[i as int]));
            assert(mid + fbs.subrange(0, i + 1) =~= (mid + fbs.subrange(0, i as int)).push(
                fbs[i as int],
            ));
        }
        i += 1;
    }
    proof {
        assert(fbs.subrange(0, fbs.len() as int) =~= fbs);
        assert(attribute_views(r@) =~= start + attributes_of(cap@));
    }
}

fn write_attributes(attributes: Vec<Attribute>, caps: &Vec<VideoCapability>) -> (r: Vec<Attribute>)
    ensures
        attribute_views(r@) == replaced_attributes(attribute_views(attributes@), cap_views(caps@)),
{
    let mut r = keep_attributes(attributes);
    let ghost kept = attribute_views(r@);
    let ghost all = cap_views(caps@);
    let mut i: usize = 0;
    proof {
        assert(all.subrange(0, 0) =~= Seq::empty());
        assert(kept =~= kept + all_attributes(all.subrange(0, 0)));
    }
    while i < caps.len()
        invariant
            i <= caps@.len(),
            all == cap_views(caps@),
            attribute_views(r@) == kept + all_attributes(all.subrange(0, i as int)),
        decreases caps@.len() - i,
    {
        proof {
            assert(all.subrange(0, i + 1).drop_last() =~= all.subrange(0, i as int));
            assert(all.subrange(0, i + 1).last() == caps@[i as int]@);
        }
        push_capability(&mut r, &caps[i]);
        assert(attribute_views(r@) =~= kept + all_attributes(all.subrange(0, i + 1)));
        i += 1;
    }
    assert(all.subrange(0, all.len() as int) =~= all);
    r
}

/// The description with its first video section rewritten to the codecs of the
/// source; one without video is left as it is.
pub open spec fn with_source_codecs(desc: rustrtc::sdp::SessionDescription, sources: Seq<CapabilityView>) -> rustrtc::sdp::SessionDescription {
    let sections = sections_of(desc);
    match first_of_kind(sections, MediaKind::Video) {
        Some(i) => {
            let caps = in_source_order(all_capabilities(sections), sources);
            with_section_lines(
                desc,
                i,
                format_texts(caps),
                replaced_attributes(sections[i].attributes, caps),
            )
        },
        None => desc,
    }
}

/// Rewrites the first video section of a description to the codecs of the source, in
/// the source's order and with the payload types that the description has for them.
pub fn apply_video_caps_from_source(
    sdp_type: SdpType,
    sdp: &str,
    context: &str,
    caps: &Vec<VideoCapability>,
) -> (r: Result<String, String>)
    ensures
        match parsed_sdp(sdp_type, sdp@) {
            ParsedSdp::Description(desc) => r matches Ok(out) && out@ == sdp_text(
                with_source_codecs(desc, cap_views(caps@)),
            ),
            ParsedSdp::Failure(why) => r matches Err(message) && message@ == parse_failure(
                context@,
                why,
            ),
        },
{
    match parse_sdp(sdp_type, sdp, context) {
        Err(message) => Err(message),
        Ok(desc) => {
            let mut desc = desc;
            let locals = video_capabilities(&desc);
            let mut sections = read_sections(&desc);
            match find_section(&sections, MediaKind::Video) {
                Some(i) => {
                    let ordered = order_capabilities(&locals, caps);
                    let formats = write_formats(&ordered);
                    let section = sections.swap_remove(i);
                    assert(section_views(sections@).len() == sections_of(desc).len() - 1);
                    let attributes = write_attributes(section.attributes, &ordered);
                    set_section_lines(&mut desc, i, formats, attributes);
                },
                None => {},
            }
            Ok(write_sdp(&desc))
        },
    }
}

/// A plain peer is offered the codecs that are configured, in any case of their names, and
/// H264 alone where none are; nothing is offered in the place of a codec that is not
/// allowed.
pub proof fn plain_peer_is_offered_what_is_allowed(
    caps: Seq<CapabilityView>,
    cap: CapabilityView,
    allowed: Seq<Seq<char>>,
    i: int,
)
    ensures
        0 <= i < allowed.len() && text::same_ignoring_case(allowed[i], cap.codec_name)
            ==> rtp_capabilities(caps.push(cap), allowed) == rtp_capabilities(caps, allowed).push(
            (CapabilityView { rtcp_fbs: Seq::empty(), ..cap }),
        ),
        allowed.len() > 0 && (forall|k: int|
            0 <= k < allowed.len() ==> !text::same_ignoring_case(#[trigger] allowed[k], cap.codec_name))
            ==> rtp_capabilities(caps.push(cap), allowed) == rtp_capabilities(caps, allowed),
        allowed.len() == 0 && text::same_ignoring_case("H264"@, cap.codec_name) ==> rtp_capabilities(
            caps.push(cap),
            allowed,
        ) == rtp_capabilities(caps, allowed).push(
            (CapabilityView { rtcp_fbs: Seq::empty(), ..cap }),
        ),
        allowed.len() == 0 && !text::same_ignoring_case("H264"@, cap.codec_name) ==> rtp_capabilities(
            caps.push(cap),
            allowed,
        ) == rtp_capabilities(caps, allowed),
        rtp_capabilities(Seq::empty(), allowed).len() == 0,
{
    let keep = |c: CapabilityView| names_codec(effective_allow(allowed), c.codec_name);
    let bare = |c: CapabilityView| without_feedback(c);
    let more = caps.push(cap);
    reveal(Seq::filter);
    assert(more.drop_last() =~= caps);
    assert(more.filter(keep) == (if keep(cap) {
        caps.filter(keep).push(cap)
    } else {
        caps.filter(keep)
    }));
    if keep(cap) {
        assert(more.filter(keep).map_values(bare) =~= caps.filter(keep).map_values(bare).push(
            bare(cap),
        ));
    }
    if 0 <= i < allowed.len() && text::same_ignoring_case(allowed[i], cap.codec_name) {
        assert(keep(cap));
    }
    if allowed.len() == 0 {
        assert(effective_allow(allowed)[0] == "H264"@);
        if text::same_ignoring_case("H264"@, cap.codec_name) {
            assert(keep(cap));
        }
    }
    assert(Seq::<CapabilityView>::empty().filter(keep) =~= Seq::empty());
}

/// Two capabilities are of one codec where name and clock rate agree, the case of the name
/// aside; the payload type does not matter.
pub proof fn codec_is_name_and_clock(a: CapabilityView, b: CapabilityView, pt: u8)
    ensures
        same_codec(a, a),
        same_codec(a, b) <==> same_codec(b, a),
        same_codec(a, (CapabilityView { payload_type: pt, ..a })),
        a.clock_rate != b.clock_rate ==> !same_codec(a, b),
        !text::same_ignoring_case(a.codec_name, b.codec_name) ==> !same_codec(a, b),
{
}

/// One more codec of the source comes after those before it: as the local side has it, or,
/// where it has none, as the source has it. A payload type that is taken is not used again.
pub proof fn codecs_follow_the_source(
    locals: Seq<CapabilityView>,
    sources: Seq<CapabilityView>,
    source: CapabilityView,
    local: CapabilityView,
)
    ensures
        ({
            let before = in_source_order(locals, sources);
            let more = in_source_order(locals, sources.push(source));
            &&& (forall|i: int| 0 <= i < locals.len() ==> !same_codec(#[trigger] locals[i], source))
                && !has_payload_type(before, source.payload_type) ==> more == before.push(source)
            &&& (forall|i: int| 0 <= i < locals.len() ==> !same_codec(#[trigger] locals[i], source))
                && has_payload_type(before, source.payload_type) ==> more == before
        }),
        same_codec(local, source) ==> in_source_order(seq![local], seq![source]) == seq![local],
        !same_codec(local, source) ==> in_source_order(seq![local], seq![source]) == seq![source],
        in_source_order(locals, Seq::empty()).len() == 0,
{
    assert(sources.push(source).drop_last() =~= sources);
    assert(seq![source].drop_last() =~= Seq::<CapabilityView>::empty());
    assert(seq![source].last() == source);
    let one = seq![local];
    assert(one.drop_last() =~= Seq::<CapabilityView>::empty());
    assert(one.last() == local);
    assert(one[0] == local);
    let none = in_source_order(one, Seq::<CapabilityView>::empty());
    assert(none =~= Seq::empty());
    assert(with_locals(none, Seq::<CapabilityView>::empty(), source) == none);
    if same_codec(local, source) {
        assert(has_codec(one, source));
        assert(with_new(none, local) =~= seq![local]);
    } else {
        assert(!has_codec(one, source));
        assert(with_new(none, source) =~= seq![source]);
    }
}

/// Every codec of the source is served in the list: by its own payload type, or by every
/// local capability of that codec.
pub proof fn every_codec_of_the_source_is_served(
    locals: Seq<CapabilityView>,
    sources: Seq<CapabilityView>,
    k: int,
    l: int,
)
    requires
        0 <= k < sources.len(),
    ensures
        !has_codec(locals, sources[k]) ==> has_payload_type(
            in_source_order(locals, sources),
            sources[k].payload_type,
        ),
        0 <= l < locals.len() && same_codec(locals[l], sources[k]) ==> has_payload_type(
            in_source_order(locals, sources),
            locals[l].payload_type,
        ),
    decreases sources.len(),
{
    let rest = sources.drop_last();
    let before = in_source_order(locals, rest);
    let last = sources.last();
    if k < rest.len() {
        every_codec_of_the_source_is_served(locals, rest, k, l);
        assert(rest[k] == sources[k]);
    }
    if has_codec(locals, last) {
        lemma_with_locals_serves(before, locals, last);
    } else {
        lemma_with_new_keeps(before, last);
    }
}

proof fn lemma_with_new_keeps(caps: Seq<CapabilityView>, cap: CapabilityView)
    ensures
        has_payload_type(with_new(caps, cap), cap.payload_type),
        forall|pt: u8| #[trigger]
            has_payload_type(caps, pt) ==> has_payload_type(with_new(caps, cap), pt),
{
    let all = with_new(caps, cap);
    if !has_payload_type(caps, cap.payload_type) {
        assert(all[caps.len() as int].payload_type == cap.payload_type);
    }
    assert forall|pt: u8| #[trigger] has_payload_type(caps, pt) implies has_payload_type(all, pt) by {
        let i = choose|i: int| 0 <= i < caps.len() && (#[trigger] caps[i]).payload_type == pt;
        assert(all[i].payload_type == pt);
    }
}

proof fn lemma_with_locals_serves(
    caps: Seq<CapabilityView>,
    locals: Seq<CapabilityView>,
    source: CapabilityView,
)
    ensures
        forall|pt: u8| #[trigger]
            has_payload_type(caps, pt) ==> has_payload_type(with_locals(caps, locals, source), pt),
        forall|l: int|
            0 <= l < locals.len() && same_codec(#[trigger] locals[l], source) ==> has_payload_type(
                with_locals(caps, locals, source),
                locals[l].payload_type,
            ),
    decreases locals.len(),
{
    if locals.len() > 0 {
        let rest = locals.drop_last();
        lemma_with_locals_serves(caps, rest, source);
        let before = with_locals(caps, rest, source);
        if same_codec(locals.last(), source) {
            lemma_with_new_keeps(before, locals.last());
        }
        assert forall|l: int|
            0 <= l < locals.len() && same_codec(#[trigger] locals[l], source) implies has_payload_type(
            with_locals(caps, locals, source),
            locals[l].payload_type,
        ) by {
            if l < rest.len() {
                assert(rest[l] == locals[l]);
                assert(has_payload_type(before, locals[l].payload_type));
            }
        }
    }
}

/// A capability is written as its codec with the clock rate, then its parameters where it
/// has any, then each feedback, every line under its payload type; the formats are the
/// payload types in order.
pub proof fn capability_is_written_under_its_payload_type(
    c: CapabilityView,
    caps: Seq<CapabilityView>,
    i: int,
)
    ensures
        attributes_of(c)[0] == ("rtpmap"@, Some(
            text::decimal(c.payload_type as nat) + " "@ + c.codec_name + "/"@ + text::decimal(
                c.clock_rate as nat,
            ),
        )),
        c.fmtp matches Some(f) ==> attributes_of(c)[1] == ("fmtp"@, Some(
            text::decimal(c.payload_type as nat) + " "@ + f,
        )) && attributes_of(c).len() == 2 + c.rtcp_fbs.len(),
        c.fmtp is None ==> attributes_of(c).len() == 1 + c.rtcp_fbs.len(),
        0 <= i < c.rtcp_fbs.len() ==> attributes_of(c)[attributes_of(c).len() - c.rtcp_fbs.len() + i]
            == ("rtcp-fb"@, Some(text::decimal(c.payload_type as nat) + " "@ + c.rtcp_fbs[i])),
        format_texts(caps.push(c)) == format_texts(caps).push(text::decimal(c.payload_type as nat)),
        all_attributes(caps.push(c)) == all_attributes(caps) + attributes_of(c),
        all_attributes(Seq::empty()).len() == 0,
{
    assert(caps.push(c).drop_last() =~= caps);
    assert(format_texts(caps.push(c)) =~= format_texts(caps).push(
        text::decimal(c.payload_type as nat),
    ));
}

/// Of the lines of a section only those about its codecs are replaced; every other line
/// stays, before them.
pub proof fn other_lines_of_a_section_stay(
    attributes: Seq<AttributeView>,
    caps: Seq<CapabilityView>,
    a: AttributeView,
)
    ensures
        a.0 != "rtpmap"@ && a.0 != "fmtp"@ && a.0 != "rtcp-fb"@ && attributes.contains(a)
            ==> replaced_attributes(attributes, caps).contains(a),
        replaced_attributes(Seq::empty(), caps) =~= all_attributes(caps),
        a.0 == "rtpmap"@ || a.0 == "fmtp"@ || a.0 == "rtcp-fb"@ ==> replaced_attributes(
            attributes.push(a),
            caps,
        ) == replaced_attributes(attributes, caps),
{
    let keep = |x: AttributeView| !describes_codec(x);
    reveal(Seq::filter);
    assert(attributes.push(a).drop_last() =~= attributes);
    assert(Seq::<AttributeView>::empty().filter(keep) =~= Seq::empty());
    if !describes_codec(a) && attributes.contains(a) {
        let k = choose|k: int| 0 <= k < attributes.len() && attributes[k] == a;
        attributes.lemma_filter_contains(keep, k);
        let kept = attributes.filter(keep);
        let w = choose|w: int| 0 <= w < kept.len() && kept[w] == a;
        assert(replaced_attributes(attributes, caps)[w] == a);
    }
}

/// Only the first video section of a description is rewritten, to the codecs of the source
/// in their order; a description without video stays as it is.
pub proof fn first_video_section_is_rewritten(
    desc: rustrtc::sdp::SessionDescription,
    sources: Seq<CapabilityView>,
    i: int,
)
    ensures
        first_of_kind(sections_of(desc), MediaKind::Video) is None ==> with_source_codecs(
            desc,
            sources,
        ) == desc,
        first_of_kind(sections_of(desc), MediaKind::Video) == Some(i) ==> with_source_codecs(
            desc,
            sources,
        ) == with_section_lines(
            desc,
            i,
            format_texts(in_source_order(all_capabilities(sections_of(desc)), sources)),
            replaced_attributes(
                sections_of(desc)[i].attributes,
                in_source_order(all_capabilities(sections_of(desc)), sources),
            ),
        ),
{
}

} // verus!
