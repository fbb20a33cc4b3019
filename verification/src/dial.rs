//! Dialling: one target, targets in turn, targets at once, and further legs.

use crate::media::MediaPathMode;
use crate::status::{callee_error, is_successful, reason_phrase, successful, CalleeError};
use crate::text;
use crate::uri::{
    clone_pairs, outbound_uri, parsed_uri, resolve_outbound_callee_uri, route_via_home_proxy,
    routes_via_home_proxy, Location, SipAddr, SipUri,
};
use vstd::prelude::*;

verus! {

/// The error has this code, the phrase of the code, and this detail.
pub open spec fn is_error(e: CalleeError, code: u16, detail: Seq<char>) -> bool {
    e.0 == code && e.1@ == reason_phrase(code) && e.2 is Some && e.2->0@ == detail
}

/// Targets that are dialled one after another.
pub struct SequentialDial {
    pub total: usize,
    pub tried: usize,
    pub last_error: CalleeError,
}

/// What a dial does next.
#[derive(Clone, Copy, PartialEq, Eq, Debug, Structural)]
pub enum DialStep {
    /// The target at this position is dialled.
    Dial(usize),
    /// A target was reached: no other is dialled.
    Connected,
    /// No target is left.
    GiveUp,
}

impl SequentialDial {
    pub open spec fn wf(self) -> bool {
        self.tried <= self.total
    }

    /// The step that the dial is at.
    pub open spec fn step(self) -> DialStep {
        if self.tried < self.total {
            DialStep::Dial(self.tried)
        } else {
            DialStep::GiveUp
        }
    }

    pub fn new(total: usize) -> (r: SequentialDial)
        ensures
            r.wf(),
            r.total == total,
            r.tried == 0,
            is_error(r.last_error, 480, "No targets to dial"@),
    {
        SequentialDial { total, tried: 0, last_error: callee_error(480, "No targets to dial") }
    }

    pub fn next_step(&self) -> (r: DialStep)
        ensures
            r == self.step(),
    {
        if self.tried < self.total {
            DialStep::Dial(self.tried)
        } else {
            DialStep::GiveUp
        }
    }

    /// Takes the outcome of the target that was dialled: the first one reached ends the
    /// dial; a failure goes on to the next target, and is the error of the whole dial
    /// if it is the last.
    pub fn on_outcome(&mut self, outcome: Result<(), CalleeError>) -> (r: DialStep)
        requires
            old(self).wf(),
            old(self).tried < old(self).total,
        ensures
            final(self).wf(),
            final(self).total == old(self).total,
            outcome is Ok ==> r == DialStep::Connected && *final(self) == *old(self),
            outcome matches Err(e) ==> {
                &&& final(self).tried == old(self).tried + 1
                &&& final(self).last_error == e
                &&& r == final(self).step()
            },
    {
        match outcome {
            Ok(()) => DialStep::Connected,
            Err(e) => {
                self.tried += 1;
                self.last_error = e;
                self.next_step()
            },
        }
    }
}

/// What came back from one of the targets that are dialled at once, or from the caller.
pub enum ForkEvent {
    /// The caller's dialog is gone.
    CallerEnded,
    Cancelled,
    /// A target's INVITE is over, with a status and its phrase, or without a response.
    Replied { target: usize, status: Option<(u16, String)> },
    /// The INVITE of a target failed.
    Failed { error: String },
    /// The INVITE of a target was given up.
    Dropped,
    /// The task of a target broke.
    Broken { error: String },
}

/// What the race does after an event.
pub enum ForkStep {
    /// The other targets are cancelled and this one is connected.
    Winner(usize),
    /// All targets are cancelled, and the dial fails.
    Abort(CalleeError),
    /// No target is left: the dial fails.
    Lost(CalleeError),
    Wait,
}

/// Targets that are dialled at once; the first that answers is connected.
pub struct ForkRace {
    pub total: usize,
    /// The targets that were really sent an INVITE and have not come back.
    pub pending: usize,
    pub failures: usize,
    pub last_error: CalleeError,
}

/// The target accepted the call.
pub open spec fn accepts(status: Option<(u16, String)>) -> bool {
    status matches Some((code, _)) && successful(code)
}

/// The error that an event leaves behind.
pub open spec fn fork_error(e: CalleeError, before: CalleeError, event: ForkEvent) -> bool {
    match event {
        ForkEvent::Replied { status, .. } => match status {
            Some((code, phrase)) => e.0 == code && e.1 == phrase && e.2 is None,
            None => e.0 == 480 && e.1@ == reason_phrase(480) && e.2 is None,
        },
        ForkEvent::Failed { error } => is_error(e, 500, "Target fork failed: "@ + error@),
        ForkEvent::Broken { error } => is_error(e, 500, "Fork join error: "@ + error@),
        _ => e == before,
    }
}

impl ForkRace {
    pub open spec fn wf(self) -> bool {
        self.pending + self.failures <= self.total
    }

    /// The race among `total` targets of which `pending` were sent an INVITE.
    pub fn new(total: usize, pending: usize) -> (r: ForkRace)
        requires
            pending <= total,
        ensures
            r.wf(),
            r.total == total,
            r.pending == pending,
            r.failures == 0,
            is_error(r.last_error, 480, "All targets failed"@),
    {
        ForkRace { total, pending, failures: 0, last_error: callee_error(480, "All targets failed") }
    }

    /// The error of a race that no target is left in.
    pub fn exhausted(&self) -> (r: Option<CalleeError>)
        ensures
            r is Some <==> self.pending == 0,
            r matches Some(e) ==> e == self.last_error,
    {
        if self.pending == 0 {
            Some((self.last_error.0, self.last_error.1.clone(), self.last_error.2.clone()))
        } else {
            None
        }
    }

    /// Takes an event. The first target that accepts wins. A caller that is gone, or a
    /// cancelled call, ends the race. A failed target is remembered, and when none is
    /// left the race is lost with the error that came last.
    pub fn on_event(&mut self, event: ForkEvent) -> (r: ForkStep)
        requires
            old(self).wf(),
            old(self).pending > 0,
        ensures
            final(self).wf(),
            final(self).total == old(self).total,
            match event {
                ForkEvent::CallerEnded | ForkEvent::Cancelled => {
                    &&& (r matches ForkStep::Abort(e) && is_error(e, 487, "Caller cancelled"@))
                    &&& *final(self) == *old(self)
                },
                ForkEvent::Replied { target, status } if accepts(status) => {
                    &&& r == ForkStep::Winner(target)
                    &&& *final(self) == *old(self)
                },
                _ => {
                    &&& final(self).pending == old(self).pending - 1
                    &&& final(self).failures == old(self).failures + 1
                    &&& fork_error(final(self).last_error, old(self).last_error, event)
                    &&& if final(self).pending == 0 {
                        r matches ForkStep::Lost(e) && e == final(self).last_error
                    } else {
                        r is Wait
                    }
                },
            },
    {
        match event {
            ForkEvent::CallerEnded => ForkStep::Abort(callee_error(487, "Caller cancelled")),
            ForkEvent::Cancelled => ForkStep::Abort(callee_error(487, "Caller cancelled")),
            ForkEvent::Replied { target, status } => {
                let won = match &status {
                    Some((code, _)) => is_successful(*code),
                    None => false,
                };
                if won {
                    return ForkStep::Winner(target);
                }
                let error = match status {
                    Some((code, phrase)) => (code, phrase, None),
                    None => {
                        let unavailable = crate::status::StatusCode::of(480);
                        (480, unavailable.text, None)
                    },
                };
                self.fail(error)
            },
            ForkEvent::Failed { error } => {
                let detail = text::concat("Target fork failed: ", &error);
                self.fail(callee_error(500, &detail))
            },
            ForkEvent::Dropped => {
                let error = (
                    self.last_error.0,
                    self.last_error.1.clone(),
                    self.last_error.2.clone(),
                );
                self.fail(error)
            },
            ForkEvent::Broken { error } => {
                let detail = text::concat("Fork join error: ", &error);
                self.fail(callee_error(500, &detail))
            },
        }
    }

    fn fail(&mut self, error: CalleeError) -> (r: ForkStep)
        requires
            old(self).wf(),
            old(self).pending > 0,
        ensures
            final(self).wf(),
            final(self).total == old(self).total,
            final(self).pending == old(self).pending - 1,
            final(self).failures == old(self).failures + 1,
            final(self).last_error == error,
            if final(self).pending == 0 {
                r matches ForkStep::Lost(e) && e == error
            } else {
                r is Wait
            },
    {
        self.pending -= 1;
        self.failures += 1;
        self.last_error = (error.0, error.1.clone(), error.2.clone());
        if self.pending == 0 {
            ForkStep::Lost(error)
        } else {
            ForkStep::Wait
        }
    }
}

/// Why targets cannot be dialled at all, where they cannot: there are none, the
/// dialplan has no caller, or nobody listens to the callees.
pub fn dial_refusal(targets: usize, has_caller: bool, has_listener: bool) -> (r: Option<CalleeError>)
    ensures
        r is None <==> targets > 0 && has_caller && has_listener,
        r matches Some(e) ==> if targets == 0 {
            is_error(e, 480, "No targets to dial"@)
        } else if !has_caller {
            is_error(e, 500, "No caller in dialplan"@)
        } else {
            is_error(e, 500, "No callee event sender"@)
        },
{
    if targets == 0 {
        Some(callee_error(480, "No targets to dial"))
    } else if !has_caller {
        Some(callee_error(500, "No caller in dialplan"))
    } else if !has_listener {
        Some(callee_error(500, "No callee event sender"))
    } else {
        None
    }
}

/// What came back for the INVITE to one target.
pub enum InviteReply {
    /// A final response, with the smallest session interval that it accepts where it
    /// gives one.
    Response { status: u16, phrase: String, reason: Option<String>, min_se: Option<u64> },
    NoResponse,
    Failed { error: String },
    /// The caller left while the target was being called.
    CallerGone,
}

/// What is done about the INVITE to one target.
pub enum InviteStep {
    /// It is sent again with this session interval.
    Retry { min_se: u64 },
    Connected,
    Failed(CalleeError),
}

/// The response asks for a longer session, and may have it.
pub open spec fn wants_longer_session(reply: InviteReply, timer_enabled: bool, retries: u32) -> Option<u64> {
    match reply {
        InviteReply::Response { status, min_se, .. } if timer_enabled && status == 422 && retries < 1 => min_se,
        _ => None,
    }
}

/// Takes the reply to an INVITE: a session interval that is too small is raised once,
/// where sessions have timers; a success connects; everything else is the error of the
/// target.
pub fn on_invite_reply(reply: InviteReply, timer_enabled: bool, retries: u32) -> (r: InviteStep)
    ensures
        match wants_longer_session(reply, timer_enabled, retries) {
            Some(secs) => r == (InviteStep::Retry { min_se: secs }),
            None => match reply {
                InviteReply::Response { status, phrase, reason, .. } => if successful(status) {
                    r is Connected
                } else {
                    r matches InviteStep::Failed(e) && e == (status, phrase, reason)
                },
                InviteReply::NoResponse => r matches InviteStep::Failed(e) && is_error(
                    e,
                    500,
                    "No response from callee"@,
                ),
                InviteReply::Failed { error } => r matches InviteStep::Failed(e) && is_error(
                    e,
                    500,
                    "Invite failed: "@ + error@,
                ),
                InviteReply::CallerGone => r matches InviteStep::Failed(e) && is_error(
                    e,
                    487,
                    "Caller cancelled"@,
                ),
            },
        },
{
    match reply {
        InviteReply::Response { status, phrase, reason, min_se } => {
            if timer_enabled && status == 422 && retries < 1 {
                if let Some(secs) = min_se {
                    return InviteStep::Retry { min_se: secs };
                }
            }
            if is_successful(status) {
                InviteStep::Connected
            } else {
                InviteStep::Failed((status, phrase, reason))
            }
        },
        InviteReply::NoResponse => InviteStep::Failed(callee_error(500, "No response from callee")),
        InviteReply::Failed { error } => {
            let detail = text::concat("Invite failed: ", &error);
            InviteStep::Failed(callee_error(500, &detail))
        },
        InviteReply::CallerGone => InviteStep::Failed(callee_error(487, "Caller cancelled")),
    }
}

/// An INVITE is repeated at most once for its session interval.
pub proof fn invite_is_retried_once(reply: InviteReply, timer_enabled: bool, retries: u32)
    ensures
        wants_longer_session(reply, timer_enabled, retries) is Some ==> retries == 0 && timer_enabled,
{
}

/// A header of an INVITE: the supported extensions, a named one, or another.
pub enum InviteHeader {
    Supported(String),
    Named(String, String),
    Typed(String, String),
}

#[verifier::ext_equal]
pub enum HeaderView {
    Supported(Seq<char>),
    Named(Seq<char>, Seq<char>),
    Typed(Seq<char>, Seq<char>),
}

impl View for InviteHeader {
    type V = HeaderView;

    open spec fn view(&self) -> HeaderView {
        match self {
            InviteHeader::Supported(v) => HeaderView::Supported(v@),
            InviteHeader::Named(n, v) => HeaderView::Named(n@, v@),
            InviteHeader::Typed(n, v) => HeaderView::Typed(n@, v@),
        }
    }
}

pub open spec fn header_views(v: Seq<InviteHeader>) -> Seq<HeaderView> {
    v.map_values(|h: InviteHeader| h@)
}

/// The entries of a list of extensions without the session timer.
pub open spec fn other_extensions(entries: Seq<Seq<char>>) -> Seq<Seq<char>>
    decreases entries.len(),
{
    if entries.len() == 0 {
        Seq::empty()
    } else {
        let before = other_extensions(entries.drop_last());
        let entry = text::trimmed(entries.last());
        if entry.len() > 0 && entry != "timer"@ {
            before.push(entry)
        } else {
            before
        }
    }
}

/// The list of extensions as text, without the session timer.
pub open spec fn without_timer(value: Seq<char>) -> Seq<char> {
    text::joined(other_extensions(text::split(value, ',')), ", "@)
}

pub open spec fn is_timer_header(name: Seq<char>) -> bool {
    text::same_ignoring_case(name, "Session-Expires"@) || text::same_ignoring_case(name, "Min-SE"@)
}

/// What becomes of a header when the session interval is raised: those of the timer go,
/// and the list of extensions loses the timer, or goes where nothing is left of it.
pub open spec fn without_session_timer(h: HeaderView) -> Option<HeaderView> {
    match h {
        HeaderView::Supported(value) => {
            let rest = without_timer(value);
            if text::trimmed(rest).len() > 0 {
                Some(HeaderView::Named("Supported"@, rest))
            } else {
                None
            }
        },
        HeaderView::Named(name, value) => if is_timer_header(name) {
            None
        } else if text::same_ignoring_case(name, "Supported"@) && text::trimmed(value).len() == 0 {
            None
        } else {
            Some(h)
        },
        HeaderView::Typed(..) => Some(h),
    }
}

pub open spec fn kept_headers(headers: Seq<HeaderView>) -> Seq<HeaderView>
    decreases headers.len(),
{
    if headers.len() == 0 {
        Seq::empty()
    } else {
        let before = kept_headers(headers.drop_last());
        match without_session_timer(headers.last()) {
            Some(h) => before.push(h),
            None => before,
        }
    }
}

fn extensions_without_timer(value: &str) -> (r: String)
    ensures
        r@ == without_timer(value@),
{
    let entries = text::split_on(value, ',');
    let ghost all = text::views(entries@);
    let mut kept: Vec<String> = Vec::new();
    let mut i: usize = 0;
    proof {
        assert(all.subrange(0, 0) =~= Seq::empty());
        assert(text::views(kept@) =~= Seq::empty());
    }
    while i < entries.len()
        invariant
            i <= entries@.len(),
            all == text::views(entries@),
            text::views(kept@) == other_extensions(all.subrange(0, i as int)),
        decreases entries@.len() - i,
    {
        proof {
            assert(all.subrange(0, i + 1).drop_last() =~= all.subrange(0, i as int));
            assert(all.subrange(0, i + 1).last() == entries@[i as int]@);
        }
        let entry = text::trim(&entries[i]);
        if !entry.as_str().is_empty() && !text::same(&entry, "timer") {
            let ghost e = entry@;
            let ghost old_kept = kept@;
            kept.push(entry);
            assert(text::views(kept@) =~= text::views(old_kept).push(e));
        }
        i += 1;
    }
    assert(all.subrange(0, all.len() as int) =~= all);
    text::join(&kept, ", ")
}

fn strip_session_timer(h: &InviteHeader) -> (r: Option<InviteHeader>)
    ensures
        r is Some <==> without_session_timer(h@) is Some,
        r matches Some(kept) ==> without_session_timer(h@) == Some(kept@),
{
    match h {
        InviteHeader::Supported(value) => {
            let rest = extensions_without_timer(value);
            if text::trim(&rest).as_str().is_empty() {
                None
            } else {
                Some(InviteHeader::Named("Supported".to_owned(), rest))
            }
        },
        InviteHeader::Named(name, value) => {
            if text::eq_ignore_ascii_case(name, "Session-Expires") || text::eq_ignore_ascii_case(
                name,
                "Min-SE",
            ) {
                None
            } else if text::eq_ignore_ascii_case(name, "Supported") && text::trim(
                value,
            ).as_str().is_empty() {
                None
            } else {
                Some(InviteHeader::Named(name.clone(), value.clone()))
            }
        },
        InviteHeader::Typed(name, value) => Some(InviteHeader::Typed(name.clone(), value.clone())),
    }
}

/// The headers of an INVITE that is repeated with a larger session interval: those of
/// the first one without its session timer, then those of the new timer.
pub fn raise_session_headers(headers: &Vec<InviteHeader>, timer_headers: Vec<InviteHeader>) -> (r: Vec<
    InviteHeader,
>)
    ensures
        header_views(r@) == kept_headers(header_views(headers@)) + header_views(timer_headers@),
{
    let ghost all = header_views(headers@);
    let mut r: Vec<InviteHeader> = Vec::new();
    let mut i: usize = 0;
    proof {
        assert(all.subrange(0, 0) =~= Seq::empty());
        assert(header_views(r@) =~= Seq::empty());
    }
    while i < headers.len()
        invariant
            i <= headers@.len(),
            all == header_views(headers@),
            header_views(r@) == kept_headers(all.subrange(0, i as int)),
        decreases headers@.len() - i,
    {
        proof {
            assert(all.subrange(0, i + 1).drop_last() =~= all.subrange(0, i as int));
            assert(all.subrange(0, i + 1).last() == headers@[i as int]@);
        }
        if let Some(h) = strip_session_timer(&headers[i]) {
            let ghost hv = h@;
            let ghost old_r = r@;
            r.push(h);
            assert(header_views(r@) =~= header_views(old_r).push(hv));
        }
        i += 1;
    }
    assert(all.subrange(0, all.len() as int) =~= all);
    let ghost old_r = r@;
    let mut timer_headers = timer_headers;
    let ghost tv = timer_headers@;
    r.append(&mut timer_headers);
    assert(header_views(r@) =~= header_views(old_r) + header_views(tv));
    r
}

/// No header of the old session timer is left among those that are kept.
pub proof fn raised_headers_have_no_timer(headers: Seq<HeaderView>)
    ensures
        forall|i: int|
            0 <= i < kept_headers(headers).len() ==> match #[trigger] kept_headers(headers)[i] {
                HeaderView::Supported(_) => false,
                HeaderView::Named(name, _) => !is_timer_header(name),
                HeaderView::Typed(..) => true,
            },
    decreases headers.len(),
{
    if headers.len() > 0 {
        raised_headers_have_no_timer(headers.drop_last());
        reveal_strlit("Supported");
        reveal_strlit("Session-Expires");
        reveal_strlit("Min-SE");
        assert(text::ascii_lower("Supported"@).len() == 9);
        assert(text::ascii_lower("Session-Expires"@).len() == 15);
        assert(text::ascii_lower("Min-SE"@).len() == 6);
        let before = kept_headers(headers.drop_last());
        let all = kept_headers(headers);
        assert forall|i: int| 0 <= i < all.len() implies match #[trigger] all[i] {
            HeaderView::Supported(_) => false,
            HeaderView::Named(name, _) => !is_timer_header(name),
            HeaderView::Typed(..) => true,
        } by {
            if i < before.len() {
                assert(all[i] == before[i]);
            }
        }
    }
}

/// A provisional response carries a description.
pub open spec fn has_description(sdp: Seq<char>) -> bool {
    sdp.len() > 0 && text::contains(sdp, "v=0"@)
}

/// What the caller is sent when a callee rings.
#[derive(Clone, Copy, PartialEq, Eq, Debug, Structural)]
pub enum RingStep {
    /// The callee's early media is anchored: the caller gets an answer of the proxy.
    AnchoredEarlyMedia,
    /// The callee's description is passed on.
    RelayEarlyMedia,
    /// The caller is told that it rings. The leg is marked as ringing unless early
    /// media was sent before.
    Ring { mark_ringing: bool },
}

/// What the caller is sent for a provisional response with this body.
pub open spec fn ring_step(sdp: Seq<char>, path: MediaPathMode, early_media_sent: bool) -> RingStep {
    if has_description(sdp) {
        if path == MediaPathMode::Anchored {
            RingStep::AnchoredEarlyMedia
        } else {
            RingStep::RelayEarlyMedia
        }
    } else {
        RingStep::Ring { mark_ringing: !early_media_sent }
    }
}

/// What the caller is sent for a provisional response of the callee.
pub fn on_callee_progress(body: &[u8], path: MediaPathMode, early_media_sent: bool) -> (r: RingStep)
    ensures
        r == ring_step(text::utf8_lossy(body@), path, early_media_sent),
{
    let sdp = text::from_utf8_lossy(body);
    if !sdp.as_str().is_empty() && text::has(&sdp, "v=0") {
        if path == MediaPathMode::Anchored {
            RingStep::AnchoredEarlyMedia
        } else {
            RingStep::RelayEarlyMedia
        }
    } else {
        RingStep::Ring { mark_ringing: !early_media_sent }
    }
}

/// What the caller is sent when a further leg rings.
#[derive(Clone, Copy, PartialEq, Eq, Debug, Structural)]
pub enum LegRingStep {
    /// The caller was answered already.
    Nothing,
    /// Early media was sent before: only the leg is marked.
    MarkEarlyMedia,
    Relay(RingStep),
}

/// What the caller is sent for a further leg that rings with this description.
pub open spec fn leg_ring_step(
    sdp: Option<String>,
    caller_confirmed: bool,
    path: MediaPathMode,
    early_media_sent: bool,
) -> LegRingStep {
    if caller_confirmed {
        LegRingStep::Nothing
    } else {
        match sdp {
            Some(s) => if has_description(s@) && early_media_sent {
                LegRingStep::MarkEarlyMedia
            } else {
                LegRingStep::Relay(ring_step(s@, path, early_media_sent))
            },
            None => LegRingStep::Relay(RingStep::Ring { mark_ringing: !early_media_sent }),
        }
    }
}

/// Relays the ringing of a further leg to a caller that is not answered yet: its early
/// media once, else plain ringing.
pub fn on_leg_ringing(
    sdp: &Option<String>,
    caller_confirmed: bool,
    path: MediaPathMode,
    early_media_sent: bool,
) -> (r: LegRingStep)
    ensures
        r == leg_ring_step(*sdp, caller_confirmed, path, early_media_sent),
{
    if caller_confirmed {
        return LegRingStep::Nothing;
    }
    if let Some(s) = sdp {
        if !s.as_str().is_empty() && text::has(s, "v=0") {
            if early_media_sent {
                return LegRingStep::MarkEarlyMedia;
            }
            return LegRingStep::Relay(
                if path == MediaPathMode::Anchored {
                    RingStep::AnchoredEarlyMedia
                } else {
                    RingStep::RelayEarlyMedia
                },
            );
        }
    }
    LegRingStep::Relay(RingStep::Ring { mark_ringing: !early_media_sent })
}

/// Early media that were sent are not relayed again, whatever a further leg sends.
pub proof fn early_media_are_relayed_once(
    sdp: Option<String>,
    caller_confirmed: bool,
    path: MediaPathMode,
)
    ensures
        match leg_ring_step(sdp, caller_confirmed, path, true) {
            LegRingStep::Relay(step) => step == (RingStep::Ring { mark_ringing: false }),
            _ => true,
        },
{
}

/// Where the INVITE of a further leg stands.
#[derive(Clone, Copy, PartialEq, Eq, Debug, Structural)]
pub enum LegCall {
    Inviting,
    Established,
    Over,
}

/// What happens to the INVITE of a further leg.
pub enum LegEvent<'a> {
    /// The INVITE is over.
    Response { status: u16, body: &'a [u8] },
    NoResponse,
    Failed { error: String },
    /// The callee rings, with or without a description.
    Progress { body: &'a [u8] },
    /// The dialog ended.
    Terminated,
    /// Nothing more will be told of the dialog.
    Closed,
    Cancelled,
}

/// What the session is told of a further leg.
pub enum LegNotice {
    Connected { answer_sdp: Option<String> },
    Ringing { sdp: Option<String> },
    Failed { reason: String },
}

pub open spec fn body_sdp(sdp: Option<String>, body: Seq<u8>) -> bool {
    match sdp {
        Some(s) => body.len() > 0 && s@ == text::utf8_lossy(body),
        None => body.len() == 0,
    }
}

pub open spec fn fails_with(notice: Option<LegNotice>, reason: Seq<char>) -> bool {
    notice matches Some(LegNotice::Failed { reason: why }) && why@ == reason
}

impl LegCall {
    /// Takes an event of the leg: the state after it, and what the session is told.
    pub fn on_event<'a>(self, event: LegEvent<'a>) -> (r: (LegCall, Option<LegNotice>))
        ensures
            self == LegCall::Over ==> r.0 == LegCall::Over && r.1 is None,
            self == LegCall::Inviting ==> match event {
                LegEvent::Response { status, body } => if successful(status) {
                    r.0 == LegCall::Established && (r.1 matches Some(
                        LegNotice::Connected { answer_sdp },
                    ) && body_sdp(answer_sdp, body@))
                } else {
                    r.0 == LegCall::Over && fails_with(
                        r.1,
                        "Rejected with "@ + text::decimal(status as nat),
                    )
                },
                LegEvent::NoResponse => r.0 == LegCall::Over && fails_with(r.1, "Timeout"@),
                LegEvent::Failed { error } => r.0 == LegCall::Over && fails_with(r.1, error@),
                LegEvent::Progress { body } => r.0 == LegCall::Inviting && (r.1 matches Some(
                    LegNotice::Ringing { sdp },
                ) && body_sdp(sdp, body@)),
                _ => r.0 == LegCall::Inviting && r.1 is None,
            },
            self == LegCall::Established ==> match event {
                LegEvent::Terminated => r.0 == LegCall::Over && fails_with(r.1, "Remote hung up"@),
                LegEvent::Closed | LegEvent::Cancelled => r.0 == LegCall::Over && r.1 is None,
                _ => r.0 == LegCall::Established && r.1 is None,
            },
    {
        match self {
            LegCall::Over => (LegCall::Over, None),
            LegCall::Inviting => match event {
                LegEvent::Response { status, body } => {
                    if is_successful(status) {
                        let answer_sdp = crate::media::extract_sdp(body);
                        (LegCall::Established, Some(LegNotice::Connected { answer_sdp }))
                    } else {
                        let digits = text::decimal_text(status as u64);
                        let reason = text::concat("Rejected with ", &digits);
                        (LegCall::Over, Some(LegNotice::Failed { reason }))
                    }
                },
                LegEvent::NoResponse => {
                    (LegCall::Over, Some(LegNotice::Failed { reason: "Timeout".to_owned() }))
                },
                LegEvent::Failed { error } => {
                    (LegCall::Over, Some(LegNotice::Failed { reason: error }))
                },
                LegEvent::Progress { body } => {
                    let sdp = crate::media::extract_sdp(body);
                    (LegCall::Inviting, Some(LegNotice::Ringing { sdp }))
                },
                _ => (LegCall::Inviting, None),
            },
            LegCall::Established => match event {
                LegEvent::Terminated => {
                    (LegCall::Over, Some(LegNotice::Failed { reason: "Remote hung up".to_owned() }))
                },
                LegEvent::Closed => (LegCall::Over, None),
                LegEvent::Cancelled => (LegCall::Over, None),
                _ => (LegCall::Established, None),
            },
        }
    }
}

/// The INVITE of a further leg: its parties and its names.
pub struct LegInvite {
    pub callee: SipUri,
    pub caller: SipUri,
    pub contact: SipUri,
    pub call_id: String,
    pub track_id: String,
}

/// The INVITE for a further leg to `callee`: from the caller of the dialplan, or, where
/// there is none, from the callee's own address.
pub fn leg_invite(
    session_id: &str,
    leg_id: &str,
    callee: SipUri,
    caller: &Option<SipUri>,
    contact: &Option<SipUri>,
) -> (r: LegInvite)
    ensures
        r.callee == callee,
        r.caller@ == (match *caller {
            Some(c) => c@,
            None => callee@,
        }),
        r.contact@ == (match *contact {
            Some(c) => c@,
            None => r.caller@,
        }),
        r.call_id@ == session_id@ + "-"@ + leg_id@,
        r.track_id@ == "leg-"@ + session_id@ + "-"@ + leg_id@,
{
    let from = match caller {
        Some(c) => c.duplicate(),
        None => callee.duplicate(),
    };
    let contact = match contact {
        Some(c) => c.duplicate(),
        None => from.duplicate(),
    };
    let call_id = text::concat3(session_id, "-", leg_id);
    let mut track_id = text::concat3("leg-", session_id, "-");
    track_id.append(leg_id);
    LegInvite { callee, caller: from, contact, call_id, track_id }
}

/// The name that a target is dialled by names a scheme other than those of SIP: it
/// stands for agents that have to be looked up.
pub open spec fn is_custom_target(uri: Seq<char>) -> bool {
    let scheme = text::split(uri, ':')[0];
    uri.contains(':') && scheme != "sip"@ && scheme != "sips"@ && scheme != "tel"@
}

pub fn needs_resolution(uri: &str) -> (r: bool)
    ensures
        r == is_custom_target(uri@),
{
    let parts = text::split_on(uri, ':');
    assert(text::views(parts@)[0] == parts@[0]@);
    text::position_of(uri, ':').is_some() && !text::same(&parts[0], "sip") && !text::same(
        &parts[0],
        "sips",
    ) && !text::same(&parts[0], "tel")
}

/// The location of an agent that a custom target stands for: where it is registered;
/// else, outside the local realm, its address. An agent of the local realm that is not
/// registered is offline, and so is one whose address cannot be read.
pub fn agent_location(
    agent_uri: &str,
    uri: Option<SipUri>,
    registered: Option<Location>,
    same_realm: bool,
) -> (r: Option<Location>)
    ensures
        r is None <==> uri is None || (registered is None && same_realm),
        uri is Some && registered is Some ==> r == registered,
        uri is Some && registered is None && !same_realm ==> {
            let l = r->0;
            &&& l.aor == uri->0
            &&& l.contact_raw is Some && l.contact_raw->0@ == agent_uri@
            &&& l.is_bare_but_contact()
        },
{
    match uri {
        None => None,
        Some(uri) => match registered {
            Some(location) => Some(location),
            None => {
                if same_realm {
                    None
                } else {
                    let mut location = Location::bare(uri);
                    location.contact_raw = Some(agent_uri.to_owned());
                    Some(location)
                }
            },
        },
    }
}

/// What was found about one of the agents that a custom target stands for.
pub struct AgentFinding {
    pub agent_uri: String,
    pub registered: Option<Location>,
    pub same_realm: bool,
}

/// The agent can be dialled.
pub open spec fn is_reachable(a: AgentFinding) -> bool {
    parsed_uri(a.agent_uri@) is Some && (a.registered is Some || !a.same_realm)
}

/// The location is that of the agent.
pub open spec fn is_location_of(l: Location, a: AgentFinding) -> bool {
    &&& is_reachable(a)
    &&& a.registered is Some ==> l == a.registered->0
    &&& a.registered is None ==> {
        &&& Some(l.aor@) == parsed_uri(a.agent_uri@)
        &&& l.contact_raw is Some && l.contact_raw->0@ == a.agent_uri@
        &&& l.is_bare_but_contact()
    }
}

/// The agents that can be dialled, in the order in which they were found.
pub open spec fn reachable(agents: Seq<AgentFinding>) -> Seq<AgentFinding> {
    agents.filter(|a: AgentFinding| is_reachable(a))
}

/// A target with what was found about its agents, where it stands for any.
pub struct TargetFinding {
    pub location: Location,
    pub agents: Vec<AgentFinding>,
}

/// What a target is dialled as: itself, or an agent that it stands for.
pub enum Dialled {
    Target(Location),
    Agent(AgentFinding),
}

pub open spec fn dialled_as(t: TargetFinding) -> Seq<Dialled> {
    if is_custom_target(t.location.aor@.text()) {
        reachable(t.agents@).map_values(|a: AgentFinding| Dialled::Agent(a))
    } else {
        seq![Dialled::Target(t.location)]
    }
}

/// The targets one after another, each custom one replaced by its agents.
pub open spec fn all_dialled(targets: Seq<TargetFinding>) -> Seq<Dialled>
    decreases targets.len(),
{
    if targets.len() == 0 {
        Seq::empty()
    } else {
        all_dialled(targets.drop_last()) + dialled_as(targets.last())
    }
}

pub open spec fn is_location_for(l: Location, d: Dialled) -> bool {
    match d {
        Dialled::Target(t) => l == t,
        Dialled::Agent(a) => is_location_of(l, a),
    }
}

pub open spec fn are_locations_for(ls: Seq<Location>, ds: Seq<Dialled>) -> bool {
    ls.len() == ds.len() && forall|i: int|
        0 <= i < ls.len() ==> is_location_for(#[trigger] ls[i], ds[i])
}

fn agent_locations(agents: Vec<AgentFinding>) -> (r: Vec<Location>)
    ensures
        are_locations_for(
            r@,
            reachable(agents@).map_values(|a: AgentFinding| Dialled::Agent(a)),
        ),
{
    let ghost all = agents@;
    let mut agents = agents;
    let mut r: Vec<Location> = Vec::new();
    let ghost mut i: int = 0;
    assert(all.subrange(0, all.len() as int) =~= all);
    proof {
        reveal(Seq::filter);
        assert(reachable(all.subrange(0, 0)) =~= Seq::empty());
    }
    while agents.len() > 0
        invariant
            0 <= i <= all.len(),
            agents@ == all.subrange(i, all.len() as int),
            are_locations_for(
                r@,
                reachable(all.subrange(0, i)).map_values(|a: AgentFinding| Dialled::Agent(a)),
            ),
        decreases agents@.len(),
    {
        let agent = agents.remove(0);
        assert(agent == all[i]);
        proof {
            reveal(Seq::filter);
            assert(all.subrange(0, i + 1).drop_last() =~= all.subrange(0, i));
            assert(all.subrange(0, i + 1).last() == all[i]);
            i = i + 1;
            assert(agents@ =~= all.subrange(i, all.len() as int));
        }
        let ghost before = reachable(all.subrange(0, i - 1)).map_values(
            |a: AgentFinding| Dialled::Agent(a),
        );
        let ghost after = reachable(all.subrange(0, i)).map_values(
            |a: AgentFinding| Dialled::Agent(a),
        );
        let ghost found = agent;
        let uri = SipUri::parse(&agent.agent_uri);
        if let Some(location) = agent_location(
            &agent.agent_uri,
            uri,
            agent.registered,
            agent.same_realm,
        ) {
            assert(is_location_of(location, found));
            assert(after =~= before.push(Dialled::Agent(found)));
            r.push(location);
        } else {
            assert(after =~= before);
        }
    }
    assert(all.subrange(0, i) =~= all);
    r
}

/// Replaces each custom target by the agents that it stands for, as far as they can be
/// dialled; the others stay. The order is kept.
pub fn expand_targets(targets: Vec<TargetFinding>) -> (r: Vec<Location>)
    ensures
        are_locations_for(r@, all_dialled(targets@)),
{
    let ghost all = targets@;
    let mut targets = targets;
    let mut r: Vec<Location> = Vec::new();
    let ghost mut i: int = 0;
    assert(all.subrange(0, all.len() as int) =~= all);
    while targets.len() > 0
        invariant
            0 <= i <= all.len(),
            targets@ == all.subrange(i, all.len() as int),
            are_locations_for(r@, all_dialled(all.subrange(0, i))),
        decreases targets@.len(),
    {
        let target = targets.remove(0);
        assert(target == all[i]);
        let ghost before = all_dialled(all.subrange(0, i));
        let ghost added = dialled_as(target);
        proof {
            assert(all.subrange(0, i + 1).drop_last() =~= all.subrange(0, i));
            assert(all.subrange(0, i + 1).last() == all[i]);
            i = i + 1;
            assert(targets@ =~= all.subrange(i, all.len() as int));
            assert(all_dialled(all.subrange(0, i)) == before + added);
        }
        let name = target.location.aor.to_text();
        let ghost kept = r@;
        if needs_resolution(&name) {
            let mut locations = agent_locations(target.agents);
            let ghost more = locations@;
            r.append(&mut locations);
            assert(r@ =~= kept + more);
        } else {
            r.push(target.location);
        }
    }
    assert(all.subrange(0, i) =~= all);
    r
}

/// The location that a target of the local realm is dialled at: the first one that it is
/// registered at, where there is any; every other target is dialled as it is.
pub fn dialled_location(location: Location, same_realm: bool, found: Option<Location>) -> (r: Location)
    ensures
        r == (match found {
            Some(l) if same_realm => l,
            _ => location,
        }),
{
    match found {
        Some(l) => if same_realm {
            l
        } else {
            location
        },
        None => location,
    }
}

/// The INVITE to a target.
pub struct InvitePlan {
    pub caller_display_name: Option<String>,
    pub callee: SipUri,
    pub caller: SipUri,
    pub contact: SipUri,
    pub headers: Vec<(String, String)>,
    pub offer: Option<String>,
    pub content_type: Option<String>,
    pub destination: Option<SipAddr>,
    pub credential: Option<String>,
    pub call_id: String,
}

/// The parties of the dialplan, and what every INVITE of the call carries.
pub struct DialContext {
    pub caller: Option<SipUri>,
    pub caller_display_name: Option<String>,
    pub caller_contact: Option<SipUri>,
    pub call_id: Option<String>,
    /// What a call id that is made for a dialplan without one ends with.
    pub call_id_suffix: Option<String>,
    pub max_forwards: u32,
    pub local_addrs: Vec<SipAddr>,
    pub cluster_enabled: bool,
}

/// A call id as `rsipstack` makes it: thirty-two small hexadecimal digits, an at sign, and
/// the suffix.
pub open spec fn is_made_call_id(s: Seq<char>, suffix: Seq<char>) -> bool {
    &&& s.len() == 33 + suffix.len()
    &&& forall|i: int|
        0 <= i < 32 ==> ('0' <= #[trigger] s[i] && s[i] <= '9') || ('a' <= s[i] && s[i] <= 'f')
    &&& s[32] == '@'
    &&& s.skip(33) == suffix
}

/// What a call id ends with where nothing else is configured.
pub open spec fn suffix_or_default(suffix: Option<Seq<char>>) -> Seq<char> {
    match suffix {
        Some(s) => s,
        None => "restsend.com"@,
    }
}

/// `rsipstack::transaction::make_call_id`, with a suffix: a random call id. Nothing is said
/// of which one.
#[verifier::external_body]
fn make_call_id(suffix: Option<&str>) -> (r: String)
    ensures
        is_made_call_id(r@, suffix_or_default(match suffix {
            Some(s) => Some(s@),
            None => None,
        })),
{
    let format = rsipstack::transaction::CallIdFormat::UuidWithSuffix;
    rsipstack::transaction::make_call_id(suffix, format).value().to_string()
}

/// The call id of an INVITE: that of the dialplan, else a fresh one.
pub open spec fn is_call_id(id: String, context: DialContext) -> bool {
    match context.call_id {
        Some(given) => id == given,
        None => is_made_call_id(
            id@,
            suffix_or_default(text::opt_text(context.call_id_suffix)),
        ),
    }
}

/// The call id of the next INVITE of a call.
pub fn callee_call_id(context: &DialContext) -> (r: String)
    ensures
        is_call_id(r, *context),
{
    match &context.call_id {
        Some(id) => id.clone(),
        None => match &context.call_id_suffix {
            Some(suffix) => make_call_id(Some(suffix.as_str())),
            None => make_call_id(None),
        },
    }
}

/// The INVITE to the target: through a home proxy of the cluster the request goes to that
/// proxy, and no other destination is set.
pub open spec fn is_invite_plan(
    plan: InvitePlan,
    context: DialContext,
    target: Location,
    timer_headers: Seq<(String, String)>,
    offer: Option<String>,
) -> bool {
    let via = routes_via_home_proxy(target, context.local_addrs@, context.cluster_enabled);
    &&& plan.caller_display_name == context.caller_display_name
    &&& plan.callee@ == outbound_uri(target, via)
    &&& plan.caller@ == context.caller->0@
    &&& plan.contact@ == (match context.caller_contact {
        Some(c) => c@,
        None => context.caller->0@,
    })
    &&& plan.headers@.len() == 1 + timer_headers.len() + target.headers@.len()
    &&& plan.headers@[0].0@ == "Max-Forwards"@
    &&& plan.headers@[0].1@ == text::decimal(context.max_forwards as nat)
    &&& plan.headers@.drop_first() == timer_headers + target.headers@
    &&& plan.offer == offer
    &&& plan.content_type is Some <==> offer is Some
    &&& plan.content_type matches Some(t) ==> t@ == "application/sdp"@
    &&& plan.destination == (if via {
        None
    } else {
        target.destination
    })
    &&& plan.credential == target.credential
}

/// The caller of the dialplan, without whom nobody is dialled.
pub fn require_caller(context: &DialContext) -> (r: Result<SipUri, CalleeError>)
    ensures
        r is Err <==> context.caller is None,
        r matches Err(e) ==> is_error(e, 500, "No caller in dialplan"@),
        r matches Ok(caller) ==> caller@ == context.caller->0@,
{
    match &context.caller {
        Some(c) => Ok(c.duplicate()),
        None => Err(callee_error(500, "No caller in dialplan")),
    }
}

/// Builds the INVITE to a target, under a call id. `timer_headers` are those of the session
/// timer, none where sessions have none.
pub fn build_target_invite_option(
    context: &DialContext,
    target: &Location,
    timer_headers: Vec<(String, String)>,
    offer: Option<String>,
    call_id: String,
) -> (r: Result<InvitePlan, CalleeError>)
    ensures
        r is Err <==> context.caller is None,
        r matches Err(e) ==> is_error(e, 500, "No caller in dialplan"@),
        r matches Ok(plan) ==> is_invite_plan(plan, *context, *target, timer_headers@, offer)
            && plan.call_id == call_id,
{
    let caller = require_caller(context)?;
    let via = route_via_home_proxy(target, &context.local_addrs, context.cluster_enabled);
    let callee = resolve_outbound_callee_uri(target, via);
    let mut headers: Vec<(String, String)> = Vec::new();
    headers.push(("Max-Forwards".to_owned(), text::decimal_text(context.max_forwards as u64)));
    let ghost first = headers@[0];
    let ghost tv = timer_headers@;
    let mut timer_headers = timer_headers;
    headers.append(&mut timer_headers);
    let mut target_headers = clone_pairs(&target.headers);
    headers.append(&mut target_headers);
    assert(headers@ =~= seq![first] + tv + target.headers@);
    assert(headers@.drop_first() =~= tv + target.headers@);
    let content_type = match &offer {
        Some(_) => Some("application/sdp".to_owned()),
        None => None,
    };
    let contact = match &context.caller_contact {
        Some(c) => c.duplicate(),
        None => caller.duplicate(),
    };
    let destination = if via {
        None
    } else {
        match &target.destination {
            Some(addr) => Some(addr.clone()),
            None => None,
        }
    };
    Ok(
        InvitePlan {
            caller_display_name: context.caller_display_name.clone(),
            callee,
            caller,
            contact,
            headers,
            offer,
            content_type,
            destination,
            credential: target.credential.clone(),
            call_id,
        },
    )
}

/// Targets in turn are dialled each once, from the first to the last, and given up on only
/// when none is left.
pub proof fn targets_are_dialled_in_turn(dial: SequentialDial)
    requires
        dial.wf(),
    ensures
        dial.step() == DialStep::GiveUp <==> dial.tried == dial.total,
        dial.step() matches DialStep::Dial(i) ==> i < dial.total && i == dial.tried,
        dial.step() != DialStep::Connected,
{
}

/// A target accepts a call by a success and by nothing else.
pub proof fn only_a_success_accepts(code: u16, phrase: String)
    ensures
        accepts(Some((code, phrase))) <==> 200 <= code <= 299,
        !accepts(None),
{
}

/// The error that a failed target leaves is that of its own reply: its status and phrase,
/// or that it is unavailable where it sent none; what broke on this side is a server
/// error. A target that was given up leaves the error before it.
pub proof fn failed_target_leaves_its_error(
    e: CalleeError,
    before: CalleeError,
    event: ForkEvent,
)
    requires
        fork_error(e, before, event),
    ensures
        event matches ForkEvent::Replied { status, .. } ==> (status matches Some((code, phrase))
            ==> e.0 == code && e.1 == phrase) && (status is None ==> e.0 == 480) && e.2 is None,
        event is Failed || event is Broken ==> e.0 == 500,
        event matches ForkEvent::Failed { error } ==> e.2 matches Some(detail) && detail@
            == "Target fork failed: "@ + error@,
        event matches ForkEvent::Broken { error } ==> e.2 matches Some(detail) && detail@
            == "Fork join error: "@ + error@,
        event is Dropped || event is CallerEnded || event is Cancelled ==> e == before,
{
}

/// An error of this side has the phrase of its code, and says in the detail what happened.
pub proof fn error_has_the_phrase_of_its_code(e: CalleeError, code: u16, detail: Seq<char>)
    requires
        is_error(e, code, detail),
    ensures
        e.0 == code,
        e.1@ == reason_phrase(code),
        e.2 matches Some(d) && d@ == detail,
{
}

/// An INVITE is repeated for its session exactly where sessions have timers, it was not
/// repeated yet, and the refusal names the interval that it takes: then with that one.
pub proof fn refused_session_is_tried_once_more(
    status: u16,
    phrase: String,
    reason: Option<String>,
    min_se: Option<u64>,
    timer_enabled: bool,
    retries: u32,
    error: String,
)
    ensures
        ({
            let reply = InviteReply::Response { status, phrase, reason, min_se };
            &&& wants_longer_session(reply, timer_enabled, retries) is Some <==> timer_enabled
                && retries == 0 && status == 422 && min_se is Some
            &&& wants_longer_session(reply, timer_enabled, retries) is Some ==> wants_longer_session(
                reply,
                timer_enabled,
                retries,
            ) == min_se
        }),
        wants_longer_session(InviteReply::NoResponse, timer_enabled, retries) is None,
        wants_longer_session(InviteReply::CallerGone, timer_enabled, retries) is None,
        wants_longer_session(InviteReply::Failed { error }, timer_enabled, retries) is None,
{
}

/// A list of extensions without the session timer is the list of all others, in order and
/// without blanks around them.
pub proof fn only_the_timer_is_taken_off(entries: Seq<Seq<char>>, entry: Seq<char>, value: Seq<char>)
    ensures
        text::trimmed(entry) == "timer"@ || text::trimmed(entry).len() == 0 ==> other_extensions(
            entries.push(entry),
        ) == other_extensions(entries),
        text::trimmed(entry) != "timer"@ && text::trimmed(entry).len() > 0 ==> other_extensions(
            entries.push(entry),
        ) == other_extensions(entries).push(text::trimmed(entry)),
        other_extensions(Seq::empty()).len() == 0,
        !value.contains(',') && text::trimmed(value) != "timer"@ ==> without_timer(value)
            == text::trimmed(value),
        !value.contains(',') && text::trimmed(value) == "timer"@ ==> without_timer(value).len() == 0,
{
    assert(entries.push(entry).drop_last() =~= entries);
    if !value.contains(',') {
        text::lemma_split_plain(value, ',');
        assert(seq![value].drop_last() =~= Seq::<Seq<char>>::empty());
        assert(seq![value].last() == value);
        assert(other_extensions(Seq::<Seq<char>>::empty()) =~= Seq::empty());
        let all = other_extensions(seq![value]);
        if text::trimmed(value).len() > 0 && text::trimmed(value) != "timer"@ {
            assert(all =~= seq![text::trimmed(value)]);
        } else {
            assert(all =~= Seq::empty());
            if text::trimmed(value).len() == 0 {
                assert(text::trimmed(value) =~= Seq::empty());
            }
        }
    }
}

/// The headers of the timer go, in any case of their names, and no other header of a
/// request is changed but its list of extensions, which loses the timer.
pub proof fn only_timer_headers_go(name: Seq<char>, value: Seq<char>)
    ensures
        without_session_timer(HeaderView::Typed(name, value)) == Some(HeaderView::Typed(name, value)),
        text::same_ignoring_case(name, "Session-Expires"@) || text::same_ignoring_case(
            name,
            "Min-SE"@,
        ) ==> without_session_timer(HeaderView::Named(name, value)) is None,
        !text::same_ignoring_case(name, "Session-Expires"@) && !text::same_ignoring_case(
            name,
            "Min-SE"@,
        ) && text::trimmed(value).len() > 0 ==> without_session_timer(HeaderView::Named(name, value))
            == Some(HeaderView::Named(name, value)),
        !text::same_ignoring_case(name, "Session-Expires"@) && !text::same_ignoring_case(
            name,
            "Min-SE"@,
        ) && !text::same_ignoring_case(name, "Supported"@) ==> without_session_timer(
            HeaderView::Named(name, value),
        ) == Some(HeaderView::Named(name, value)),
        text::trimmed(without_timer(value)).len() > 0 ==> without_session_timer(
            HeaderView::Supported(value),
        ) == Some(HeaderView::Named("Supported"@, without_timer(value))),
        text::trimmed(without_timer(value)).len() == 0 ==> without_session_timer(
            HeaderView::Supported(value),
        ) is None,
{
}

/// Headers that are kept stay in their order.
pub proof fn kept_headers_stay_in_order(headers: Seq<HeaderView>, h: HeaderView)
    ensures
        without_session_timer(h) matches Some(k) ==> kept_headers(headers.push(h)) == kept_headers(
            headers,
        ).push(k),
        without_session_timer(h) is None ==> kept_headers(headers.push(h)) == kept_headers(headers),
        kept_headers(Seq::empty()).len() == 0,
{
    assert(headers.push(h).drop_last() =~= headers);
}

/// A callee that rings with a description sends early media, anchored exactly where media
/// run through the proxy; one without just rings, and marks the leg only where no early
/// media came before.
pub proof fn description_decides_how_it_rings(sdp: Seq<char>, path: MediaPathMode, early: bool)
    ensures
        ring_step(sdp, path, early) is Ring <==> sdp.len() == 0 || !text::contains(sdp, "v=0"@),
        ring_step(sdp, path, early) == RingStep::AnchoredEarlyMedia ==> path
            == MediaPathMode::Anchored,
        ring_step(sdp, path, early) == RingStep::RelayEarlyMedia ==> path == MediaPathMode::Bypass,
        ring_step(sdp, path, early) matches RingStep::Ring { mark_ringing } ==> mark_ringing != early,
        ring_step(sdp, path, early) is Ring || ring_step(sdp, path, true) == ring_step(
            sdp,
            path,
            false,
        ),
{
}

/// A caller that was answered hears nothing of a further leg. One that was not is told
/// what any callee's ringing tells it, but for early media that it has already.
pub proof fn answered_caller_hears_no_ringing(
    sdp: Option<String>,
    path: MediaPathMode,
    early: bool,
)
    ensures
        leg_ring_step(sdp, true, path, early) == LegRingStep::Nothing,
        leg_ring_step(sdp, false, path, early) != LegRingStep::Nothing,
        sdp matches Some(s) ==> leg_ring_step(sdp, false, path, false) == LegRingStep::Relay(
            ring_step(s@, path, false),
        ),
        sdp matches Some(s) && has_description(s@) ==> leg_ring_step(sdp, false, path, true)
            == LegRingStep::MarkEarlyMedia,
        sdp is None ==> leg_ring_step(sdp, false, path, early) == LegRingStep::Relay(
            RingStep::Ring { mark_ringing: !early },
        ),
{
}

/// A target that is named by a SIP address or a telephone number is dialled itself; one
/// of any other scheme stands for agents.
pub proof fn other_schemes_stand_for_agents(scheme: Seq<char>, rest: Seq<char>, plain: Seq<char>)
    requires
        !scheme.contains(':'),
        !rest.contains(':'),
        !plain.contains(':'),
    ensures
        is_custom_target(scheme + seq![':'] + rest) <==> scheme != "sip"@ && scheme != "sips"@ && scheme
            != "tel"@,
        !is_custom_target(plain),
{
    let uri = scheme + seq![':'] + rest;
    text::lemma_split_plain(scheme, ':');
    text::lemma_split_push(scheme, rest, ':');
    assert(uri[scheme.len() as int] == ':');
    assert(text::split(uri, ':')[0] == scheme);
}

/// An agent can be dialled where it is registered, or lives elsewhere; one of this realm
/// that is not registered is offline, and one whose address cannot be read is none.
pub proof fn unregistered_local_agent_is_offline(a: AgentFinding, l: Location)
    ensures
        parsed_uri(a.agent_uri@) is None ==> !is_reachable(a),
        a.registered is None && a.same_realm ==> !is_reachable(a),
        parsed_uri(a.agent_uri@) is Some && a.registered is Some ==> is_reachable(a),
        parsed_uri(a.agent_uri@) is Some && !a.same_realm ==> is_reachable(a),
        is_location_of(l, a) && a.registered is Some ==> Some(l) == a.registered,
        is_location_of(l, a) && a.registered is None ==> parsed_uri(a.agent_uri@) == Some(l.aor@)
            && !l.supports_webrtc && l.destination is None && l.home_proxy is None,
{
}

/// Targets are dialled in their order: a plain one as itself, one that stands for agents
/// as those of them that can be dialled.
pub proof fn agents_take_the_place_of_their_target(
    targets: Seq<TargetFinding>,
    t: TargetFinding,
)
    ensures
        !is_custom_target(t.location.aor@.text()) ==> all_dialled(targets.push(t)) == all_dialled(
            targets,
        ).push(Dialled::Target(t.location)),
        is_custom_target(t.location.aor@.text()) ==> all_dialled(targets.push(t)).len()
            == all_dialled(targets).len() + reachable(t.agents@).len() && forall|i: int|
            0 <= i < reachable(t.agents@).len() ==> all_dialled(targets.push(t))[all_dialled(
                targets,
            ).len() + i] == Dialled::Agent(#[trigger] reachable(t.agents@)[i]),
        all_dialled(Seq::empty()).len() == 0,
{
    assert(targets.push(t).drop_last() =~= targets);
    if !is_custom_target(t.location.aor@.text()) {
        assert(all_dialled(targets.push(t)) =~= all_dialled(targets).push(
            Dialled::Target(t.location),
        ));
    }
}

/// An INVITE is from the caller of the dialplan, at the caller's contact where there is
/// one. It carries first the hops that are left, then the headers of the timer, then those of the target; its offer goes with its
/// type. Through a home proxy no other destination is set.
pub proof fn invite_carries_what_the_call_says(
    plan: InvitePlan,
    context: DialContext,
    target: Location,
    timer_headers: Seq<(String, String)>,
    offer: Option<String>,
    i: int,
)
    requires
        is_invite_plan(plan, context, target, timer_headers, offer),
    ensures
        plan.caller@ == context.caller->0@,
        plan.caller_display_name == context.caller_display_name,
        context.caller_contact matches Some(c) ==> plan.contact@ == c@,
        context.caller_contact is None ==> plan.contact@ == context.caller->0@,
        plan.headers@[0].0@ == "Max-Forwards"@,
        plan.headers@[0].1@ == text::decimal(context.max_forwards as nat),
        0 <= i < timer_headers.len() ==> plan.headers@[1 + i] == timer_headers[i],
        0 <= i < target.headers@.len() ==> plan.headers@[1 + timer_headers.len() + i]
            == target.headers@[i],
        plan.offer == offer,
        offer is Some ==> plan.content_type is Some && plan.content_type->0@ == "application/sdp"@,
        offer is None ==> plan.content_type is None,
        !context.cluster_enabled || target.home_proxy is None ==> plan.destination
            == target.destination && plan.callee@ == target.aor@,
        context.cluster_enabled && target.home_proxy is Some && context.local_addrs@.len() == 0
            ==> plan.destination is None,
        plan.credential == target.credential,
{
    if 0 <= i < timer_headers.len() {
        assert(plan.headers@.drop_first()[i] == timer_headers[i]);
    }
    if 0 <= i < target.headers@.len() {
        assert(plan.headers@.drop_first()[timer_headers.len() + i] == target.headers@[i]);
    }
}

/// A description in a message is its body as text, and none where the body is empty.
pub proof fn empty_body_is_no_description(sdp: Option<String>, body: Seq<u8>)
    requires
        body_sdp(sdp, body),
    ensures
        sdp is None <==> body.len() == 0,
        sdp matches Some(s) ==> s@ == text::utf8_lossy(body),
{
}

/// The call id of an INVITE is the dialplan's own; one that is made ends with an at sign
/// and what is configured, or the default.
pub proof fn call_id_is_the_dialplans_own(id: String, context: DialContext)
    requires
        is_call_id(id, context),
    ensures
        context.call_id is Some ==> Some(id) == context.call_id,
        context.call_id is None ==> (context.call_id_suffix matches Some(s) ==> text::ends_with(
            id@,
            "@"@ + s@,
        )),
        context.call_id is None && context.call_id_suffix is None ==> text::ends_with(
            id@,
            "@restsend.com"@,
        ),
{
    if context.call_id is None {
        reveal_strlit("@");
        reveal_strlit("restsend.com");
        reveal_strlit("@restsend.com");
        let suffix = suffix_or_default(text::opt_text(context.call_id_suffix));
        assert(id@.subrange(32, id@.len() as int) =~= "@"@ + suffix) by {
            assert forall|k: int| 0 <= k < suffix.len() implies #[trigger] id@[33 + k] == suffix[k] by {
                assert(id@.skip(33)[k] == suffix[k]);
            }
        }
        assert("@"@ + "restsend.com"@ =~= "@restsend.com"@);
    }
}

/// A target that is dialled as itself is dialled where it is; one that stands for agents is
/// dialled as many times as it has agents that can be reached.
pub proof fn plain_target_is_dialled_where_it_is(ls: Seq<Location>, t: TargetFinding)
    requires
        are_locations_for(ls, all_dialled(seq![t])),
    ensures
        !is_custom_target(t.location.aor@.text()) ==> ls == seq![t.location],
        is_custom_target(t.location.aor@.text()) ==> ls.len() == reachable(t.agents@).len()
            && forall|i: int|
            0 <= i < ls.len() ==> is_location_of(#[trigger] ls[i], reachable(t.agents@)[i]),
{
    let none = Seq::<TargetFinding>::empty();
    agents_take_the_place_of_their_target(none, t);
    assert(none.push(t) =~= seq![t]);
    assert(all_dialled(none) =~= Seq::empty());
    let all = all_dialled(seq![t]);
    if !is_custom_target(t.location.aor@.text()) {
        assert(all =~= seq![Dialled::Target(t.location)]);
        assert(is_location_for(ls[0], all[0]));
        assert(ls =~= seq![t.location]);
    } else {
        assert forall|i: int| 0 <= i < ls.len() implies is_location_of(
            #[trigger] ls[i],
            reachable(t.agents@)[i],
        ) by {
            assert(is_location_for(ls[i], all[i]));
            assert(all[i] == Dialled::Agent(reachable(t.agents@)[i]));
        }
    }
}

/// A call to one of the realm goes where the registrar found it; to another realm it goes
/// where it was sent.
pub proof fn found_location_is_of_the_realm(
    location: Location,
    found: Option<Location>,
    at_home: Location,
    abroad: Location,
)
    requires
        call_ensures(dialled_location, (location, true, found), at_home),
        call_ensures(dialled_location, (location, false, found), abroad),
    ensures
        found matches Some(l) ==> at_home == l,
        found is None ==> at_home == location,
        abroad == location,
{
}

/// A call is refused before it is dialled only where it has no target, no caller or nobody
/// that listens; the first of these that holds is told, and only the lack of targets is for
/// the callee to answer for.
pub proof fn call_without_targets_is_refused(
    targets: usize,
    has_caller: bool,
    has_listener: bool,
    r: Option<CalleeError>,
)
    requires
        call_ensures(dial_refusal, (targets, has_caller, has_listener), r),
    ensures
        targets > 0 && has_caller && has_listener ==> r is None,
        targets == 0 ==> r is Some && (r->0).0 == 480,
        targets > 0 && !(has_caller && has_listener) ==> r is Some && (r->0).0 == 500,
        targets > 0 && !has_caller ==> (r->0).2->0@ == "No caller in dialplan"@,
        targets > 0 && has_caller && !has_listener ==> (r->0).2->0@
            == "No callee event sender"@,
{
}

/// A final status of two hundred connects, any other is the callee's failure with its own
/// words, unless it asks for a longer session and is asked again; a caller that has gone is
/// told apart from a callee that does not reply.
pub proof fn reply_is_answered_in_its_kind(
    reply: InviteReply,
    timer_enabled: bool,
    retries: u32,
    r: InviteStep,
)
    requires
        call_ensures(on_invite_reply, (reply, timer_enabled, retries), r),
    ensures
        r is Retry ==> timer_enabled && retries < 1,
        reply matches InviteReply::Response { status, .. } ==> {
            &&& 200 <= status <= 299 ==> r is Connected
            &&& r is Retry ==> status == 422
            &&& !(200 <= status <= 299) && status != 422 ==> r is Failed
            &&& r matches InviteStep::Failed(e) ==> e.0 == status && e.1 == reply->phrase && e.2
                == reply->reason
        },
        reply is NoResponse ==> r is Failed && (r->Failed_0).0 == 500,
        reply is CallerGone ==> r is Failed && (r->Failed_0).0 == 487,
        reply matches InviteReply::Failed { error } ==> r is Failed && (r->Failed_0).0 == 500
            && (r->Failed_0).2->0@ == "Invite failed: "@ + error@,
{
}

/// The call to a leg is made as the caller where there is one, else as the leg itself, and is
/// reached where the call is, else at the caller; its ids tell the session and the leg.
pub proof fn leg_is_called_as_the_caller(
    session_id: &str,
    leg_id: &str,
    callee: SipUri,
    caller: Option<SipUri>,
    contact: Option<SipUri>,
    r: LegInvite,
)
    requires
        call_ensures(leg_invite, (session_id, leg_id, callee, &caller, &contact), r),
    ensures
        r.callee == callee,
        caller matches Some(c) ==> r.caller@ == c@,
        caller is None ==> r.caller@ == callee@,
        contact matches Some(c) ==> r.contact@ == c@,
        contact is None ==> r.contact@ == r.caller@,
        r.track_id@ == "leg-"@ + r.call_id@,
        r.call_id@ == session_id@ + "-"@ + leg_id@,
{
    assert("leg-"@ + session_id@ + "-"@ + leg_id@ =~= "leg-"@ + (session_id@ + "-"@ + leg_id@));
}

/// An agent is dialled where it is registered; one of the realm that is not registered cannot
/// be dialled, one of another realm is dialled at its address.
pub proof fn agent_is_dialled_where_it_is_registered(
    agent_uri: &str,
    uri: Option<SipUri>,
    registered: Option<Location>,
    at_home: Option<Location>,
    abroad: Option<Location>,
)
    requires
        call_ensures(agent_location, (agent_uri, uri, registered, true), at_home),
        call_ensures(agent_location, (agent_uri, uri, registered, false), abroad),
    ensures
        uri is None ==> at_home is None && abroad is None,
        uri is Some && registered is Some ==> at_home == registered && abroad == registered,
        registered is None ==> at_home is None,
        uri is Some && registered is None ==> abroad is Some && abroad->0.aor == uri->0,
{
}

/// Targets are tried one after the other: a target that answers ends the dialling without
/// another being tried, one that fails leaves its error and one target less.
pub proof fn target_that_fails_is_the_last_error()
    ensures
        forall|d: &mut SequentialDial, outcome: Result<(), CalleeError>, r: DialStep| #[trigger]
            call_ensures(SequentialDial::on_outcome, (d, outcome), r) ==> {
                &&& outcome is Ok ==> r == DialStep::Connected && *final(d) == *d
                &&& outcome matches Err(e) ==> final(d).last_error == e && final(d).tried
                    == d.tried + 1
                &&& final(d).total == d.total
                &&& outcome is Err && d.tried + 1 < d.total ==> r == DialStep::Dial(
                    (d.tried + 1) as usize,
                )
                &&& outcome is Err && d.tried + 1 >= d.total ==> r == DialStep::GiveUp
            },
        forall|race: ForkRace, r: Option<CalleeError>| #[trigger]
            call_ensures(ForkRace::exhausted, (&race,), r) ==> (r is Some <==> race.pending == 0)
                && (r is Some ==> r->0 == race.last_error),
{
}

/// A description that comes with ringing is early media, anchored where media runs through
/// the proxy; without one the caller hears it ring.
pub proof fn ringing_with_a_description_is_early_media(
    body: &[u8],
    early: bool,
    anchored: RingStep,
    path: MediaPathMode,
    past: RingStep,
)
    requires
        call_ensures(on_callee_progress, (body, MediaPathMode::Anchored, early), anchored),
        call_ensures(on_callee_progress, (body, path, early), past),
        path != MediaPathMode::Anchored,
    ensures
        anchored is AnchoredEarlyMedia <==> past is RelayEarlyMedia,
        !(anchored is RelayEarlyMedia) && !(past is AnchoredEarlyMedia),
        anchored is Ring ==> anchored == past && anchored->mark_ringing == !early,
        anchored is Ring <==> !has_description(text::utf8_lossy(body@)),
{
}

/// A caller that is confirmed hears no further ringing.
pub proof fn confirmed_caller_hears_no_ringing(
    sdp: Option<String>,
    path: MediaPathMode,
    early: bool,
    confirmed: LegRingStep,
    waiting: LegRingStep,
)
    requires
        call_ensures(on_leg_ringing, (&sdp, true, path, early), confirmed),
        call_ensures(on_leg_ringing, (&sdp, false, path, early), waiting),
    ensures
        confirmed is Nothing && !(waiting is Nothing),
        waiting is MarkEarlyMedia <==> sdp is Some && has_description(sdp->0@) && early,
{
}

/// A call id that was made is thirty-two hexadecimal digits, an at sign and the suffix.
pub proof fn made_call_id_ends_with_its_suffix(s: Seq<char>, suffix: Seq<char>, i: int)
    requires
        is_made_call_id(s, suffix),
    ensures
        s.len() == 33 + suffix.len(),
        s.skip(33) == suffix,
        s[32] == '@',
        0 <= i < 32 ==> s[i] != '@' && (48 <= s[i] as u32 <= 57 || 97 <= s[i] as u32 <= 102),
{
}

} // verus!
