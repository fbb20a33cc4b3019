//! A call from its INVITE to its session: its name, its parties, and the engine that
//! serves it.

use crate::flow::{supported, supports_flow, DialplanFlow};
use crate::record::CallSessionRecordSnapshot;
use crate::status::{CallRecordHangupReason, StatusCode};
use crate::table::Table;
use crate::text;
use crate::uri::{Location, SipUri};
use vstd::prelude::*;

verus! {

/// A name as the `uuid` crate writes it: thirty-six characters, each a small hexadecimal
/// digit or a hyphen.
pub open spec fn is_uuid_text(s: Seq<char>) -> bool {
    s.len() == 36 && forall|i: int|
        0 <= i < s.len() ==> ('0' <= #[trigger] s[i] && s[i] <= '9') || ('a' <= s[i] && s[i] <= 'f')
            || s[i] == '-'
}

/// `uuid::Uuid::new_v4`, written out: a random name. Nothing is said of which one.
#[verifier::external_body]
fn fresh_uuid() -> (r: String)
    ensures
        is_uuid_text(r@),
{
    uuid::Uuid::new_v4().to_string()
}

/// `chrono::Utc::now`, written as in RFC 3339. Nothing is said of the time.
#[verifier::external_body]
fn now_text() -> (r: String) {
    chrono::Utc::now().to_rfc3339()
}

/// The name of a leg that is added without one.
pub fn new_leg_id(leg_id: Option<String>) -> (r: String)
    ensures
        leg_id matches Some(id) ==> r == id,
        leg_id is None ==> exists|u: Seq<char>|
            #![trigger is_uuid_text(u)]
            is_uuid_text(u) && r@ == "leg-"@ + u,
{
    match leg_id {
        Some(id) => id,
        None => {
            let fresh = fresh_uuid();
            assert(is_uuid_text(fresh@));
            text::concat("leg-", &fresh)
        },
    }
}

/// The URI, written out, that `rsipstack` finds in the value of a From header.
pub uninterp spec fn from_header_uri(value: Seq<char>) -> Option<Seq<char>>;

/// The URI, written out, that `rsipstack` finds in the value of a To header.
pub uninterp spec fn to_header_uri(value: Seq<char>) -> Option<Seq<char>>;

/// `rsipstack::sip::headers::From::uri`, written out: the URI of the header with this
/// value, where it has one.
#[verifier::external_body]
fn uri_of_from(value: &str) -> (r: Option<String>)
    ensures
        r is Some <==> from_header_uri(value@) is Some,
        r matches Some(u) ==> from_header_uri(value@) == Some(u@),
{
    rsipstack::sip::headers::From::new(value).uri().ok().map(|uri| uri.to_string())
}

/// `rsipstack::sip::headers::To::uri`, written out: the URI of the header with this
/// value, where it has one.
#[verifier::external_body]
fn uri_of_to(value: &str) -> (r: Option<String>)
    ensures
        r is Some <==> to_header_uri(value@) is Some,
        r matches Some(u) ==> to_header_uri(value@) == Some(u@),
{
    rsipstack::sip::headers::To::new(value).uri().ok().map(|uri| uri.to_string())
}

/// What a dialplan says of a call as a whole; the parties are the values of the From and
/// To headers of its INVITE.
pub struct Dialplan {
    pub session_id: Option<String>,
    pub from: Option<String>,
    pub to: Option<String>,
    pub caller: Option<SipUri>,
    pub flow: DialplanFlow,
}

/// What is known of a call throughout.
pub struct CallContext {
    pub session_id: String,
    pub original_caller: String,
    pub original_callee: String,
    pub max_forwards: u32,
    pub created_at: String,
    pub metadata: Option<Table<String>>,
}

/// The address of a party: that of its header, else that of the dialplan, else none.
pub open spec fn party_text(uri: Option<Seq<char>>, other: Option<Seq<char>>) -> Seq<char> {
    match uri {
        Some(u) => u,
        None => match other {
            Some(o) => o,
            None => Seq::empty(),
        },
    }
}

/// The value of a party's header.
pub open spec fn party_value(party: Option<String>) -> Seq<char> {
    match party {
        Some(value) => value@,
        None => Seq::empty(),
    }
}

fn empty_text() -> (r: String)
    ensures
        r@ == Seq::<char>::empty(),
{
    proof {
        reveal_strlit("");
        assert(""@ =~= Seq::empty());
    }
    "".to_owned()
}

fn party_or(uri: Option<String>, other: Option<String>) -> (r: String)
    ensures
        r@ == party_text(text::opt_text(uri), text::opt_text(other)),
{
    match uri {
        Some(u) => u,
        None => match other {
            Some(o) => o,
            None => empty_text(),
        },
    }
}

fn value_or_empty(party: &Option<String>) -> (r: String)
    ensures
        r@ == party_value(*party),
{
    match party {
        Some(value) => value.clone(),
        None => empty_text(),
    }
}

/// The header goes along with the call's record.
pub open spec fn is_metadata_header(name: Seq<char>) -> bool {
    text::starts_with(name, "X-CRM-"@) || text::starts_with(name, "X-CC-"@)
}

/// What the headers say under this name: the last one counts.
pub open spec fn metadata_value(headers: Seq<(String, String)>, name: Seq<char>) -> Option<String>
    decreases headers.len(),
{
    if headers.len() == 0 {
        None
    } else if headers.last().0@ == name && is_metadata_header(name) {
        Some(headers.last().1)
    } else {
        metadata_value(headers.drop_last(), name)
    }
}

/// Any of the headers goes along with the call's record.
pub open spec fn has_metadata(headers: Seq<(String, String)>) -> bool {
    exists|i: int| 0 <= i < headers.len() && is_metadata_header((#[trigger] headers[i]).0@)
}

/// The headers that go along with the call's record, where there are any.
pub fn header_metadata(headers: &Vec<(String, String)>) -> (r: Option<Table<String>>)
    ensures
        r is Some <==> has_metadata(headers@),
        r matches Some(t) ==> t.wf() && forall|k: Seq<char>| #[trigger]
            t.value(k) == metadata_value(headers@, k),
{
    let mut t: Table<String> = Table::new();
    let mut any = false;
    let mut i: usize = 0;
    assert(headers@.subrange(0, 0) =~= Seq::empty());
    while i < headers.len()
        invariant
            i <= headers@.len(),
            t.wf(),
            any == has_metadata(headers@.subrange(0, i as int)),
            forall|k: Seq<char>| #[trigger]
                t.value(k) == metadata_value(headers@.subrange(0, i as int), k),
        decreases headers@.len() - i,
    {
        let ghost before = headers@.subrange(0, i as int);
        let ghost after = headers@.subrange(0, i + 1);
        proof {
            assert(after.drop_last() =~= before);
            assert(after.last() == headers@[i as int]);
            if has_metadata(before) {
                let j = choose|j: int|
                    0 <= j < before.len() && is_metadata_header((#[trigger] before[j]).0@);
                assert(after[j] == before[j]);
            }
            if has_metadata(after) {
                let j = choose|j: int|
                    0 <= j < after.len() && is_metadata_header((#[trigger] after[j]).0@);
                if j < i {
                    assert(before[j] == after[j]);
                }
            }
        }
        let name = &headers[i].0;
        if text::has_prefix(name, "X-CRM-") || text::has_prefix(name, "X-CC-") {
            assert(is_metadata_header(after[i as int].0@));
            t.insert(name.clone(), headers[i].1.clone());
            any = true;
        }
        i += 1;
    }
    assert(headers@.subrange(0, headers@.len() as int) =~= headers@);
    if any {
        Some(t)
    } else {
        None
    }
}

/// The engine that serves a call.
#[derive(Clone, Copy, PartialEq, Eq, Debug, Structural)]
pub enum Engine {
    Session,
    Standard,
}

/// What is reported of a call that could not be set up.
pub struct FailureReport {
    pub session_id: String,
    pub max_forwards: u32,
    pub created_at: String,
    pub record: CallSessionRecordSnapshot,
}

/// Sets up the session of a call.
pub struct CallSessionBuilder {
    pub dialplan: Dialplan,
    pub max_forwards: u32,
}

/// The hops that are left to a call that was never set up.
pub const DEFAULT_MAX_FORWARDS: u32 = 70;

impl CallSessionBuilder {
    pub fn new(dialplan: Dialplan, max_forwards: u32) -> (r: CallSessionBuilder)
        ensures
            r.dialplan == dialplan,
            r.max_forwards == max_forwards,
    {
        CallSessionBuilder { dialplan, max_forwards }
    }

    /// The engine for the call: the session engine where it is switched on and has what
    /// the flow needs.
    pub fn engine(&self, session_engine: bool) -> (r: Engine)
        ensures
            r == (if session_engine && supported(self.dialplan.flow) {
                Engine::Session
            } else {
                Engine::Standard
            }),
    {
        if session_engine && supports_flow(&self.dialplan.flow) {
            Engine::Session
        } else {
            Engine::Standard
        }
    }

    /// The URI of the caller in the INVITE.
    pub open spec fn from_uri(&self) -> Option<Seq<char>> {
        match self.dialplan.from {
            Some(value) => from_header_uri(value@),
            None => None,
        }
    }

    /// The URI of the callee in the INVITE.
    pub open spec fn to_uri(&self) -> Option<Seq<char>> {
        match self.dialplan.to {
            Some(value) => to_header_uri(value@),
            None => None,
        }
    }

    /// The context of the call, under the dialplan's name for it or a fresh one.
    /// `first_target` is the first target of the dialplan.
    pub fn build_context(&self, first_target: Option<&Location>) -> (r: CallContext)
        ensures
            self.dialplan.session_id matches Some(id) ==> r.session_id == id,
            self.dialplan.session_id is None ==> is_uuid_text(r.session_id@),
            self.is_context(r, first_target, self.from_uri(), self.to_uri()),
    {
        let session_id = match &self.dialplan.session_id {
            Some(id) => id.clone(),
            None => fresh_uuid(),
        };
        let from_uri = match &self.dialplan.from {
            Some(value) => uri_of_from(value),
            None => None,
        };
        let to_uri = match &self.dialplan.to {
            Some(value) => uri_of_to(value),
            None => None,
        };
        let created_at = now_text();
        self.build_context_with(first_target, from_uri, to_uri, session_id, created_at)
    }

    /// The context holds what the dialplan says, whatever the call is named and whenever
    /// it came, for a caller and a callee of these URIs.
    pub open spec fn is_context(
        &self,
        r: CallContext,
        first_target: Option<&Location>,
        from_uri: Option<Seq<char>>,
        to_uri: Option<Seq<char>>,
    ) -> bool {
        &&& r.original_caller@ == party_text(
            from_uri,
            match self.dialplan.caller {
                Some(c) => Some(c@.text()),
                None => None,
            },
        )
        &&& r.original_callee@ == party_text(
            to_uri,
            match first_target {
                Some(t) => Some(t.aor@.text()),
                None => None,
            },
        )
        &&& r.max_forwards == self.max_forwards
        &&& match first_target {
            Some(t) => {
                &&& r.metadata is Some <==> has_metadata(t.headers@)
                &&& (r.metadata matches Some(m) ==> m.wf() && forall|k: Seq<char>| #[trigger]
                    m.value(k) == metadata_value(t.headers@, k))
            },
            None => r.metadata is None,
        }
    }

    /// The context of the call under this name, made at this time, with the URIs of the
    /// caller and the callee in its INVITE.
    pub fn build_context_with(
        &self,
        first_target: Option<&Location>,
        from_uri: Option<String>,
        to_uri: Option<String>,
        session_id: String,
        created_at: String,
    ) -> (r: CallContext)
        ensures
            r.session_id == session_id,
            r.created_at == created_at,
            self.is_context(r, first_target, text::opt_text(from_uri), text::opt_text(to_uri)),
    {
        let caller = match &self.dialplan.caller {
            Some(c) => Some(c.to_text()),
            None => None,
        };
        let original_caller = party_or(from_uri, caller);
        let callee = match first_target {
            Some(t) => Some(t.aor.to_text()),
            None => None,
        };
        let original_callee = party_or(to_uri, callee);
        let metadata = match first_target {
            Some(t) => header_metadata(&t.headers),
            None => None,
        };
        CallContext {
            session_id,
            original_caller,
            original_callee,
            max_forwards: self.max_forwards,
            created_at,
            metadata,
        }
    }

    /// The report of a call that could not be set up: it has no dialog, whose call id and
    /// tags are empty, and the metadata of the dialplan as they are.
    pub fn report_failure(
        self,
        code: StatusCode,
        reason: Option<String>,
        metadata: Option<Table<String>>,
    ) -> (r: FailureReport)
        ensures
            self.dialplan.session_id matches Some(id) ==> r.session_id == id,
            self.dialplan.session_id is None ==> is_uuid_text(r.session_id@),
            r.max_forwards == 70,
            r.record.ring_time is None,
            r.record.answer_time is None,
            r.record.last_error == Some((code, reason)),
            r.record.hangup_reason == Some(CallRecordHangupReason::Failed),
            r.record.hangup_messages@.len() == 0,
            text::opt_text(r.record.original_caller) == Some(party_value(self.dialplan.from)),
            text::opt_text(r.record.original_callee) == Some(party_value(self.dialplan.to)),
            r.record.routed_caller is None,
            r.record.routed_callee is None,
            r.record.connected_callee is None,
            r.record.routed_contact is None,
            r.record.routed_destination is None,
            r.record.last_queue_name is None,
            r.record.callee_call_ids@.len() == 0,
            r.record.server_dialog_id@ == "--"@,
            r.record.metadata == metadata,
    {
        let session_id = match &self.dialplan.session_id {
            Some(id) => id.clone(),
            None => fresh_uuid(),
        };
        let record = CallSessionRecordSnapshot {
            ring_time: None,
            answer_time: None,
            last_error: Some((code, reason)),
            hangup_reason: Some(CallRecordHangupReason::Failed),
            hangup_messages: Vec::new(),
            original_caller: Some(value_or_empty(&self.dialplan.from)),
            original_callee: Some(value_or_empty(&self.dialplan.to)),
            routed_caller: None,
            routed_callee: None,
            connected_callee: None,
            routed_contact: None,
            routed_destination: None,
            last_queue_name: None,
            callee_call_ids: Vec::new(),
            server_dialog_id: "--".to_owned(),
            metadata,
        };
        FailureReport {
            session_id,
            max_forwards: DEFAULT_MAX_FORWARDS,
            created_at: now_text(),
            record,
        }
    }
}

/// A party is who its header says; the dialplan counts only where the header names nobody.
pub proof fn header_names_the_party(uri: Seq<char>, other: Option<Seq<char>>, planned: Seq<char>)
    ensures
        party_text(Some(uri), other) == uri,
        party_text(None, Some(planned)) == planned,
        party_text(None, None).len() == 0,
{
}

/// The headers of a customer system or a call centre go along with the record of the call
/// by their names, the last of one name; no other header does.
pub proof fn marked_headers_go_along(
    headers: Seq<(String, String)>,
    name: String,
    value: String,
    rest: Seq<char>,
    other: Seq<char>,
)
    ensures
        is_metadata_header("X-CRM-"@ + rest),
        is_metadata_header("X-CC-"@ + rest),
        rest.len() > 0 && rest[0] != 'X' ==> !is_metadata_header(rest),
        is_metadata_header(name@) ==> metadata_value(headers.push((name, value)), name@) == Some(value)
            && has_metadata(headers.push((name, value))),
        other != name@ || !is_metadata_header(name@) ==> metadata_value(
            headers.push((name, value)),
            other,
        ) == metadata_value(headers, other),
        !is_metadata_header(name@) ==> (has_metadata(headers.push((name, value))) <==> has_metadata(
            headers,
        )),
        !has_metadata(Seq::empty()),
        metadata_value(Seq::empty(), other) is None,
{
    reveal_strlit("X-CRM-");
    reveal_strlit("X-CC-");
    text::text_has_its_parts("X-CRM-"@, rest, Seq::empty());
    text::text_has_its_parts("X-CC-"@, rest, Seq::empty());
    let more = headers.push((name, value));
    assert(more.drop_last() =~= headers);
    assert(more[headers.len() as int] == (name, value));
    if rest.len() > 0 && rest[0] != 'X' {
        if text::starts_with(rest, "X-CRM-"@) {
            assert(rest.subrange(0, 6)[0] == rest[0]);
        }
        if text::starts_with(rest, "X-CC-"@) {
            assert(rest.subrange(0, 5)[0] == rest[0]);
        }
    }
    if has_metadata(headers) {
        let i = choose|i: int| 0 <= i < headers.len() && is_metadata_header((#[trigger] headers[i]).0@);
        assert(more[i] == headers[i]);
    }
    if has_metadata(more) && !is_metadata_header(name@) {
        let i = choose|i: int| 0 <= i < more.len() && is_metadata_header((#[trigger] more[i]).0@);
        assert(headers[i] == more[i]);
    }
}

/// The context of a call has the caller on the caller's side and the callee on the
/// callee's: who the two headers say, else who the dialplan and its first target say.
pub proof fn context_keeps_the_parties_apart(
    builder: CallSessionBuilder,
    r: CallContext,
    first_target: Option<&Location>,
    from_uri: Option<Seq<char>>,
    to_uri: Option<Seq<char>>,
)
    requires
        builder.is_context(r, first_target, from_uri, to_uri),
    ensures
        from_uri matches Some(u) ==> r.original_caller@ == u,
        to_uri matches Some(u) ==> r.original_callee@ == u,
        from_uri is None ==> (builder.dialplan.caller matches Some(c) ==> r.original_caller@
            == c@.text()),
        to_uri is None ==> (first_target matches Some(t) ==> r.original_callee@ == t.aor@.text()),
        from_uri is None && builder.dialplan.caller is None ==> r.original_caller@.len() == 0,
        to_uri is None && first_target is None ==> r.original_callee@.len() == 0,
        r.max_forwards == builder.max_forwards,
        first_target is None ==> r.metadata is None,
{
}

/// A call runs on the session engine only where that is turned on and can run its flow.
pub proof fn engine_runs_what_it_supports(
    b: CallSessionBuilder,
    on: Engine,
    off: Engine,
)
    requires
        call_ensures(CallSessionBuilder::engine, (&b, true), on),
        call_ensures(CallSessionBuilder::engine, (&b, false), off),
    ensures
        off == Engine::Standard,
        on == Engine::Session <==> supported(b.dialplan.flow),
{
}

/// A call that failed before it began is reported as failed with its status, for the parties
/// it had, without any time that it rang or talked.
pub proof fn early_failure_is_reported_as_failed(
    b: CallSessionBuilder,
    code: StatusCode,
    reason: Option<String>,
    metadata: Option<Table<String>>,
    r: FailureReport,
)
    requires
        call_ensures(CallSessionBuilder::report_failure, (b, code, reason, metadata), r),
    ensures
        r.record.hangup_reason == Some(CallRecordHangupReason::Failed),
        r.record.last_error == Some((code, reason)),
        r.record.ring_time is None && r.record.answer_time is None,
        r.record.connected_callee is None && r.record.routed_callee is None,
        r.record.metadata == metadata,
        r.max_forwards == 70,
        b.dialplan.session_id matches Some(id) ==> r.session_id == id,
        text::opt_text(r.record.original_caller) == Some(party_value(b.dialplan.from)),
        text::opt_text(r.record.original_callee) == Some(party_value(b.dialplan.to)),
{
}

} // verus!
