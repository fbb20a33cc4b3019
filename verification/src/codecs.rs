//! Audio codecs: their names, and which of them a call may use.

use crate::text;
use crate::uri::{host_and_port, parsed_uri, trunk_host_port, SipUri, DEFAULT_SIP_PORT};
use vstd::prelude::*;

verus! {

#[derive(Clone, Copy, PartialEq, Eq, Debug, Structural)]
pub enum CodecType {
    PCMU,
    PCMA,
    G722,
    G729,
    Opus,
    TelephoneEvent,
}

/// A codec with the parameters that were negotiated for it.
#[derive(Clone, Copy, PartialEq, Eq, Debug, Structural)]
pub struct CodecInfo {
    pub payload_type: u8,
    pub codec: CodecType,
    pub clock_rate: u32,
    pub channels: u16,
}

pub open spec fn named(name: Seq<char>, known: Seq<char>) -> bool {
    text::same_ignoring_case(name, known)
}

/// The codec of a name, whatever the case of its letters.
pub open spec fn codec_by_name(name: Seq<char>) -> Option<CodecType> {
    if named(name, "pcmu"@) || named(name, "ulaw"@) {
        Some(CodecType::PCMU)
    } else if named(name, "pcma"@) || named(name, "alaw"@) {
        Some(CodecType::PCMA)
    } else if named(name, "g722"@) {
        Some(CodecType::G722)
    } else if named(name, "g729"@) {
        Some(CodecType::G729)
    } else if named(name, "opus"@) {
        Some(CodecType::Opus)
    } else if named(name, "telephone-event"@) {
        Some(CodecType::TelephoneEvent)
    } else {
        None
    }
}

/// `audio_codec::CodecType::try_from`: the codec that the name is known for, compared
/// without case; none for any other name.
#[verifier::external_body]
fn codec_from_name(name: &str) -> (r: Option<CodecType>)
    ensures
        r == codec_by_name(name@),
{
    match audio_codec::CodecType::try_from(name).ok()? {
        audio_codec::CodecType::PCMU => Some(CodecType::PCMU),
        audio_codec::CodecType::PCMA => Some(CodecType::PCMA),
        audio_codec::CodecType::G722 => Some(CodecType::G722),
        audio_codec::CodecType::G729 => Some(CodecType::G729),
        audio_codec::CodecType::Opus => Some(CodecType::Opus),
        audio_codec::CodecType::TelephoneEvent => Some(CodecType::TelephoneEvent),
    }
}

/// The codecs that the names stand for, in order; names of no codec are passed over.
pub open spec fn codecs_named(names: Seq<Seq<char>>) -> Seq<CodecType>
    decreases names.len(),
{
    if names.len() == 0 {
        Seq::empty()
    } else {
        let before = codecs_named(names.drop_last());
        match codec_by_name(names.last()) {
            Some(c) => before.push(c),
            None => before,
        }
    }
}

/// The codecs that a configured list of names allows.
pub fn parse_allowed_codecs(names: &Vec<String>) -> (r: Vec<CodecType>)
    ensures
        r@ == codecs_named(text::views(names@)),
{
    let mut r: Vec<CodecType> = Vec::new();
    let mut i: usize = 0;
    let ghost all = text::views(names@);
    assert(all.subrange(0, 0) =~= Seq::empty());
    while i < names.len()
        invariant
            i <= names@.len(),
            all == text::views(names@),
            r@ == codecs_named(all.subrange(0, i as int)),
        decreases names@.len() - i,
    {
        proof {
            assert(all.subrange(0, i + 1).drop_last() =~= all.subrange(0, i as int));
            assert(all.subrange(0, i + 1).last() == names@[i as int]@);
        }
        if let Some(c) = codec_from_name(&names[i]) {
            r.push(c);
        }
        i += 1;
    }
    assert(all.subrange(0, all.len() as int) =~= all);
    r
}

/// The destination and the codec names of a trunk.
pub struct TrunkCodecs {
    pub dest: String,
    pub codec: Vec<String>,
}

/// The port that a callee is reached at.
pub open spec fn callee_port(callee: SipUri) -> u16 {
    match callee.port {
        Some(p) => p,
        None => DEFAULT_SIP_PORT,
    }
}

/// The trunk serves the host and the port of the callee, whatever the case of the host,
/// and names codecs that are known.
pub open spec fn trunk_serves(trunk: TrunkCodecs, callee: SipUri) -> bool {
    &&& host_and_port(trunk.dest@, parsed_uri(trunk.dest@)) matches Some((h, p)) && text::lowercase(h)
        == text::lowercase(callee.host@) && p == callee_port(callee)
    &&& codecs_named(text::views(trunk.codec@)).len() > 0
}

/// The codecs of the first trunk whose destination is the callee's host and port.
pub fn match_destination_trunk_codecs(trunks: &Vec<TrunkCodecs>, callee: &SipUri) -> (r: Option<
    Vec<CodecType>,
>)
    ensures
        r is None <==> forall|i: int|
            0 <= i < trunks@.len() ==> !trunk_serves(#[trigger] trunks@[i], *callee),
        r matches Some(codecs) ==> exists|i: int|
            0 <= i < trunks@.len() && trunk_serves(#[trigger] trunks@[i], *callee) && codecs@
                == codecs_named(text::views(trunks@[i].codec@)) && (forall|j: int|
                0 <= j < i ==> !trunk_serves(#[trigger] trunks@[j], *callee)),
{
    let host = text::to_lowercase(&callee.host);
    let port: u16 = match callee.port {
        Some(p) => p,
        None => DEFAULT_SIP_PORT,
    };
    let mut i: usize = 0;
    while i < trunks.len()
        invariant
            i <= trunks@.len(),
            host@ == text::lowercase(callee.host@),
            port == callee_port(*callee),
            forall|j: int| 0 <= j < i ==> !trunk_serves(#[trigger] trunks@[j], *callee),
        decreases trunks@.len() - i,
    {
        let trunk = &trunks[i];
        if trunk.codec.len() == 0 {
            assert(text::views(trunk.codec@).len() == 0);
        } else if let Some((h, p)) = trunk_host_port(&trunk.dest) {
            if text::same(&text::to_lowercase(&h), &host) && p == port {
                let parsed = parse_allowed_codecs(&trunk.codec);
                if parsed.len() > 0 {
                    assert(trunk_serves(trunks@[i as int], *callee));
                    return Some(parsed);
                }
            }
        }
        i += 1;
    }
    None
}

/// The codecs that a call may use: those of its dialplan; else those of the trunk
/// that its destination belongs to; else those that the proxy is configured with. An
/// empty list says that there is no policy.
pub fn resolve_effective_codecs(
    dialplan: &Vec<CodecType>,
    trunk: Option<Vec<CodecType>>,
    proxy: &Option<Vec<String>>,
) -> (r: Vec<CodecType>)
    ensures
        dialplan@.len() > 0 ==> r@ == dialplan@,
        dialplan@.len() == 0 ==> match trunk {
            Some(codecs) => r == codecs,
            None => match *proxy {
                Some(names) => r@ == codecs_named(text::views(names@)),
                None => r@.len() == 0,
            },
        },
{
    if dialplan.len() > 0 {
        return clone_codecs(dialplan);
    }
    if let Some(codecs) = trunk {
        return codecs;
    }
    if let Some(names) = proxy {
        let parsed = parse_allowed_codecs(names);
        if parsed.len() > 0 {
            return parsed;
        }
    }
    let none: Vec<CodecType> = Vec::new();
    assert(proxy matches Some(names) ==> codecs_named(text::views(names@)) =~= none@);
    none
}

/// The codecs that a call to this callee may use.
pub open spec fn are_effective_codecs(
    codecs: Seq<CodecType>,
    dialplan: Seq<CodecType>,
    trunks: Seq<TrunkCodecs>,
    callee: SipUri,
    proxy: Option<Vec<String>>,
) -> bool {
    if dialplan.len() > 0 {
        codecs == dialplan
    } else {
        match first_serving(trunks, callee) {
            Some(i) => codecs == codecs_named(text::views(trunks[i].codec@)),
            None => match proxy {
                Some(names) => codecs == codecs_named(text::views(names@)),
                None => codecs.len() == 0,
            },
        }
    }
}

/// The first trunk that serves a callee.
pub open spec fn first_serving(trunks: Seq<TrunkCodecs>, callee: SipUri) -> Option<int>
    decreases trunks.len(),
{
    if trunks.len() == 0 {
        None
    } else {
        match first_serving(trunks.drop_last(), callee) {
            Some(i) => Some(i),
            None => if trunk_serves(trunks.last(), callee) {
                Some(trunks.len() - 1)
            } else {
                None
            },
        }
    }
}

proof fn first_serving_is_first(trunks: Seq<TrunkCodecs>, callee: SipUri)
    ensures
        first_serving(trunks, callee) matches Some(i) ==> 0 <= i < trunks.len() && trunk_serves(
            trunks[i],
            callee,
        ) && forall|j: int| 0 <= j < i ==> !trunk_serves(#[trigger] trunks[j], callee),
        first_serving(trunks, callee) is None ==> forall|j: int|
            0 <= j < trunks.len() ==> !trunk_serves(#[trigger] trunks[j], callee),
    decreases trunks.len(),
{
    if trunks.len() > 0 {
        let rest = trunks.drop_last();
        first_serving_is_first(rest, callee);
        assert(forall|j: int| 0 <= j < rest.len() ==> (#[trigger] trunks[j]) == rest[j]);
    }
}

/// The codecs that a call to this callee may use: those of its dialplan; else those of the
/// first trunk that serves the callee; else those that the proxy is configured with. An
/// empty list says that there is no policy.
pub fn effective_codecs(
    dialplan: &Vec<CodecType>,
    trunks: &Vec<TrunkCodecs>,
    callee: &SipUri,
    proxy: &Option<Vec<String>>,
) -> (r: Vec<CodecType>)
    ensures
        are_effective_codecs(r@, dialplan@, trunks@, *callee, *proxy),
{
    let trunk = match_destination_trunk_codecs(trunks, callee);
    proof {
        first_serving_is_first(trunks@, *callee);
        if trunk is Some {
            let i = choose|i: int|
                0 <= i < trunks@.len() && trunk_serves(#[trigger] trunks@[i], *callee) && (trunk->0)@
                    == codecs_named(text::views(trunks@[i].codec@)) && (forall|j: int|
                    0 <= j < i ==> !trunk_serves(#[trigger] trunks@[j], *callee));
            assert(trunk_serves(trunks@[i], *callee));
            let f = first_serving(trunks@, *callee)->0;
            assert(trunk_serves(trunks@[f], *callee));
            assert(i == f);
        }
    }
    resolve_effective_codecs(dialplan, trunk, proxy)
}

pub fn clone_codecs(v: &Vec<CodecType>) -> (r: Vec<CodecType>)
    ensures
        r@ == v@,
{
    let mut r: Vec<CodecType> = Vec::new();
    let mut i: usize = 0;
    while i < v.len()
        invariant
            i <= v@.len(),
            r@ == v@.subrange(0, i as int),
        decreases v@.len() - i,
    {
        r.push(v[i]);
        i += 1;
    }
    r
}

pub fn clone_infos(v: &Vec<CodecInfo>) -> (r: Vec<CodecInfo>)
    ensures
        r@ == v@,
{
    let mut r: Vec<CodecInfo> = Vec::new();
    let mut i: usize = 0;
    while i < v.len()
        invariant
            i <= v@.len(),
            r@ == v@.subrange(0, i as int),
        decreases v@.len() - i,
    {
        r.push(v[i]);
        i += 1;
    }
    r
}

/// The first codec of a list that carries speech rather than digits.
pub open spec fn first_speech(codecs: Seq<CodecInfo>) -> Option<CodecInfo>
    decreases codecs.len(),
{
    if codecs.len() == 0 {
        None
    } else if codecs[0].codec != CodecType::TelephoneEvent {
        Some(codecs[0])
    } else {
        first_speech(codecs.drop_first())
    }
}

pub fn first_speech_codec(codecs: &Vec<CodecInfo>) -> (r: Option<CodecInfo>)
    ensures
        r == first_speech(codecs@),
{
    let mut i: usize = 0;
    assert(codecs@.subrange(0, codecs@.len() as int) =~= codecs@);
    while i < codecs.len()
        invariant
            i <= codecs@.len(),
            first_speech(codecs@) == first_speech(codecs@.subrange(i as int, codecs@.len() as int)),
        decreases codecs@.len() - i,
    {
        assert(codecs@.subrange(i as int, codecs@.len() as int).drop_first() =~= codecs@.subrange(
            i + 1,
            codecs@.len() as int,
        ));
        if codecs[i].codec != CodecType::TelephoneEvent {
            return Some(codecs[i]);
        }
        i += 1;
    }
    None
}

/// The codecs of the peer's answer where there are any, else those that are allowed.
pub open spec fn preferred(peer: Option<Seq<CodecType>>, allowed: Seq<CodecType>) -> Seq<CodecType> {
    match peer {
        Some(codecs) if codecs.len() > 0 => codecs,
        _ => allowed,
    }
}

/// The codecs by which an answer is ordered: the peer's, where its answer names any;
/// else those that are allowed.
pub fn preferred_codecs(peer: Option<Vec<CodecType>>, allowed: Vec<CodecType>) -> (r: Vec<CodecType>)
    ensures
        r@ == preferred(
            match peer {
                Some(codecs) => Some(codecs@),
                None => None,
            },
            allowed@,
        ),
{
    match peer {
        Some(codecs) => if codecs.len() > 0 {
            codecs
        } else {
            allowed
        },
        None => allowed,
    }
}

/// The answer to send: `rewritten` to the selected codecs where some were selected and
/// the rewriting succeeded, else as it was generated.
pub fn rewrite_answer_to_selected_codecs(answer: String, selected: usize, rewritten: Option<String>) -> (r: String)
    ensures
        r == (match rewritten {
            Some(text) if selected > 0 => text,
            _ => answer,
        }),
{
    if selected == 0 {
        return answer;
    }
    match rewritten {
        Some(text) => text,
        None => answer,
    }
}

/// A codec goes by its names in any case, and by no other: the two logarithmic ones also
/// by the short names of their laws.
pub proof fn codec_goes_by_its_names(name: Seq<char>)
    ensures
        text::same_ignoring_case(name, "pcmu"@) || text::same_ignoring_case(name, "ulaw"@)
            <==> codec_by_name(name) == Some(CodecType::PCMU),
        text::same_ignoring_case(name, "pcma"@) || text::same_ignoring_case(name, "alaw"@)
            <==> codec_by_name(name) == Some(CodecType::PCMA),
        text::same_ignoring_case(name, "g722"@) <==> codec_by_name(name) == Some(CodecType::G722),
        text::same_ignoring_case(name, "g729"@) <==> codec_by_name(name) == Some(CodecType::G729),
        text::same_ignoring_case(name, "opus"@) <==> codec_by_name(name) == Some(CodecType::Opus),
        text::same_ignoring_case(name, "telephone-event"@) <==> codec_by_name(name) == Some(
            CodecType::TelephoneEvent,
        ),
        codec_by_name(text::ascii_lower(name)) == codec_by_name(name),
{
    reveal_strlit("pcmu");
    reveal_strlit("ulaw");
    reveal_strlit("pcma");
    reveal_strlit("alaw");
    reveal_strlit("g722");
    reveal_strlit("g729");
    reveal_strlit("opus");
    reveal_strlit("telephone-event");
    assert("pcmu"@.len() == 4);
    assert("ulaw"@.len() == 4);
    assert("pcma"@.len() == 4);
    assert("alaw"@.len() == 4);
    assert("g722"@.len() == 4);
    assert("g729"@.len() == 4);
    assert("opus"@.len() == 4);
    assert("telephone-event"@.len() == 15);
    assert("pcmu"@[0] == 'p');
    assert("ulaw"@[0] == 'u');
    assert("pcmu"@[3] == 'u');
    assert("pcma"@[3] == 'a');
    assert("alaw"@[0] == 'a');
    assert("g722"@[0] == 'g');
    assert("g729"@[0] == 'g');
    assert("opus"@[0] == 'o');
    assert("pcma"@[0] == 'p');
    assert("g722"@[3] == '2');
    assert("g729"@[3] == '9');
    text::case_is_all_that_is_ignored(name, name);
    let l = text::ascii_lower(name);
    assert(text::ascii_lower(l) =~= l) by {
        assert forall|i: int| 0 <= i < name.len() implies text::ascii_lower(l)[i] == l[i] by {
            text::lower_char_is_the_small_letter(name[i]);
        }
    }
    assert(text::ascii_lower("pcmu"@)[0] == 'p' && text::ascii_lower("pcmu"@)[3] == 'u');
    assert(text::ascii_lower("pcma"@)[0] == 'p' && text::ascii_lower("pcma"@)[3] == 'a');
    assert(text::ascii_lower("ulaw"@)[0] == 'u');
    assert(text::ascii_lower("alaw"@)[0] == 'a');
    assert(text::ascii_lower("g722"@)[0] == 'g' && text::ascii_lower("g722"@)[3] == '2');
    assert(text::ascii_lower("g729"@)[0] == 'g' && text::ascii_lower("g729"@)[3] == '9');
    assert(text::ascii_lower("opus"@)[0] == 'o');
    assert(text::ascii_lower("telephone-event"@).len() == 15);
}

/// Names are read in their order, each into its codec; a name of no codec leaves nothing.
pub proof fn names_are_read_in_order(names: Seq<Seq<char>>, name: Seq<char>)
    ensures
        codec_by_name(name) matches Some(c) ==> codecs_named(names.push(name)) == codecs_named(
            names,
        ).push(c),
        codec_by_name(name) is None ==> codecs_named(names.push(name)) == codecs_named(names),
        codecs_named(Seq::empty()).len() == 0,
        codecs_named(names).len() <= names.len(),
    decreases names.len(),
{
    assert(names.push(name).drop_last() =~= names);
    if names.len() > 0 {
        names_are_read_in_order(names.drop_last(), names.last());
        assert(names.drop_last().push(names.last()) =~= names);
    }
}

/// The dialplan of a call decides its codecs where it names any. Else the first trunk that
/// leads to the callee does, at the callee's host in any case and its port, which is that
/// of SIP where none is given; and only where no trunk does, the proxy.
pub proof fn codecs_are_chosen_by_rank(
    codecs: Seq<CodecType>,
    dialplan: Seq<CodecType>,
    trunks: Seq<TrunkCodecs>,
    callee: SipUri,
    proxy: Option<Vec<String>>,
    i: int,
)
    requires
        are_effective_codecs(codecs, dialplan, trunks, callee, proxy),
    ensures
        dialplan.len() > 0 ==> codecs == dialplan,
        dialplan.len() == 0 && 0 <= i < trunks.len() && trunk_serves(trunks[i], callee) && (forall|
            j: int,
        |
            0 <= j < i ==> !trunk_serves(#[trigger] trunks[j], callee)) ==> codecs == codecs_named(
            text::views(trunks[i].codec@),
        ) && codecs.len() > 0,
        dialplan.len() == 0 && (forall|j: int|
            0 <= j < trunks.len() ==> !trunk_serves(#[trigger] trunks[j], callee)) ==> (
        proxy matches Some(names) ==> codecs == codecs_named(text::views(names@))) && (proxy is None
            ==> codecs.len() == 0),
{
    first_serving_is_first(trunks, callee);
    if 0 <= i < trunks.len() && trunk_serves(trunks[i], callee) && (forall|j: int|
        0 <= j < i ==> !trunk_serves(#[trigger] trunks[j], callee)) {
        let k = first_serving(trunks, callee)->0;
        assert(k == i);
    }
}

/// A trunk leads to a callee only at the host and the port of the callee, and only where
/// it names a codec that is known.
pub proof fn trunk_leads_to_its_own_address(trunk: TrunkCodecs, callee: SipUri)
    ensures
        trunk_serves(trunk, callee) ==> codecs_named(text::views(trunk.codec@)).len() > 0,
        trunk_serves(trunk, callee) ==> (host_and_port(trunk.dest@, parsed_uri(trunk.dest@)) matches Some(
            (h, p),
        ) && text::lowercase(h) == text::lowercase(callee.host@) && (callee.port matches Some(port)
            ==> p == port) && (callee.port is None ==> p == 5060)),
        host_and_port(trunk.dest@, parsed_uri(trunk.dest@)) is None ==> !trunk_serves(trunk, callee),
        (host_and_port(trunk.dest@, parsed_uri(trunk.dest@)) matches Some((h, p)) && h == callee.host@
            && callee.port == Some(p)) && codecs_named(text::views(trunk.codec@)).len() > 0
            ==> trunk_serves(trunk, callee),
{
}

/// The first codec for speech is the first that does not carry digits: all before it do.
pub proof fn first_speech_skips_digits_alone(codecs: Seq<CodecInfo>)
    ensures
        first_speech(codecs) matches Some(c) ==> c.codec != CodecType::TelephoneEvent && exists|i: int|
            0 <= i < codecs.len() && #[trigger] codecs[i] == c && forall|j: int|
                0 <= j < i ==> (#[trigger] codecs[j]).codec == CodecType::TelephoneEvent,
        first_speech(codecs) is None ==> forall|j: int|
            0 <= j < codecs.len() ==> (#[trigger] codecs[j]).codec == CodecType::TelephoneEvent,
    decreases codecs.len(),
{
    if codecs.len() > 0 && codecs[0].codec == CodecType::TelephoneEvent {
        let rest = codecs.drop_first();
        first_speech_skips_digits_alone(rest);
        if first_speech(rest) is Some {
            let c = first_speech(rest)->0;
            let i = choose|i: int|
                0 <= i < rest.len() && #[trigger] rest[i] == c && forall|j: int|
                    0 <= j < i ==> (#[trigger] rest[j]).codec == CodecType::TelephoneEvent;
            assert(codecs[i + 1] == c);
            assert forall|j: int| 0 <= j < i + 1 implies (#[trigger] codecs[j]).codec
                == CodecType::TelephoneEvent by {
                if j > 0 {
                    assert(rest[j - 1] == codecs[j]);
                }
            }
        } else {
            assert forall|j: int| 0 <= j < codecs.len() implies (#[trigger] codecs[j]).codec
                == CodecType::TelephoneEvent by {
                if j > 0 {
                    assert(rest[j - 1] == codecs[j]);
                }
            }
        }
    } else if codecs.len() > 0 {
        assert(codecs[0] == first_speech(codecs)->0);
    }
}

/// The peer's codecs are preferred where it answered with any, and those that are allowed
/// where it did not.
pub proof fn peer_is_preferred_where_it_answered(peer: Seq<CodecType>, allowed: Seq<CodecType>)
    ensures
        peer.len() > 0 ==> preferred(Some(peer), allowed) == peer,
        peer.len() == 0 ==> preferred(Some(peer), allowed) == allowed,
        preferred(None, allowed) == allowed,
{
}

/// The codecs of a call are those of its plan, else those of its trunk, else those of the
/// proxy; no later list is looked at where an earlier one is given.
pub proof fn plan_comes_before_trunk_before_proxy(
    plan: Vec<CodecType>,
    trunk: Option<Vec<CodecType>>,
    proxy: Option<Vec<String>>,
    r: Vec<CodecType>,
)
    requires
        call_ensures(resolve_effective_codecs, (&plan, trunk, &proxy), r),
    ensures
        plan@.len() > 0 ==> r@ == plan@,
        plan@.len() == 0 && trunk is Some ==> r == trunk->0,
        plan@.len() == 0 && trunk is None && proxy is Some ==> r@ == codecs_named(
            text::views(proxy->0@),
        ),
        plan@.len() == 0 && trunk is None && proxy is None ==> r@.len() == 0,
{
}

/// An answer is rewritten only where codecs were selected for it and it could be.
pub proof fn answer_stands_where_nothing_is_selected(
    answer: String,
    selected: usize,
    text: String,
    r: String,
    unwritten: String,
)
    requires
        call_ensures(rewrite_answer_to_selected_codecs, (answer, selected, Some(text)), r),
        call_ensures(rewrite_answer_to_selected_codecs, (answer, selected, None), unwritten),
    ensures
        selected > 0 ==> r == text,
        selected == 0 ==> r == answer,
        unwritten == answer,
{
}

} // verus!
