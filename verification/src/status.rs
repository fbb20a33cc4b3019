//! SIP status codes, the errors of a failed callee, and why a call ended.

use crate::text;
use vstd::prelude::*;

verus! {

/// A status code with its reason phrase.
pub struct StatusCode {
    pub code: u16,
    pub text: String,
}

/// Status code, reason phrase and detail of a callee that could not be reached.
pub type CalleeError = (u16, String, Option<String>);

/// What `rsipstack` gives as the reason phrase of a status code.
pub uninterp spec fn reason_phrase(code: u16) -> Seq<char>;

/// `rsipstack::sip::StatusCode::text` of the status with this code.
#[verifier::external_body]
fn phrase_of(code: u16) -> (r: String)
    ensures
        r@ == reason_phrase(code),
{
    rsipstack::sip::StatusCode::from(code).text().to_string()
}

/// The class of final success.
pub open spec fn successful(code: u16) -> bool {
    200 <= code <= 299
}

pub fn is_successful(code: u16) -> (r: bool)
    ensures
        r == successful(code),
{
    200 <= code && code <= 299
}

impl StatusCode {
    /// The status with the phrase that its code has.
    pub fn of(code: u16) -> (r: StatusCode)
        ensures
            r.code == code,
            r.text@ == reason_phrase(code),
    {
        StatusCode { code, text: phrase_of(code) }
    }
}

impl Clone for StatusCode {
    fn clone(&self) -> (r: Self)
        ensures
            r == *self,
    {
        StatusCode { code: self.code, text: self.text.clone() }
    }
}

/// The callee error of a status.
pub fn into_callee_err(code: &StatusCode, msg: Option<String>) -> (r: CalleeError)
    ensures
        r.0 == code.code,
        r.1 == code.text,
        r.2 == msg,
{
    (code.code, code.text.clone(), msg)
}

/// The callee error of a status code, with its phrase and a detail.
pub fn callee_error(code: u16, detail: &str) -> (r: CalleeError)
    ensures
        r.0 == code,
        r.1@ == reason_phrase(code),
        r.2 is Some,
        r.2->0@ == detail@,
{
    let status = StatusCode::of(code);
    into_callee_err(&status, Some(detail.to_owned()))
}

/// The callee error for a transfer or redirect to a queue that failed.
pub fn map_queue_xfer_err(error: &str) -> (r: CalleeError)
    ensures
        r.0 == 480,
        r.1@ == reason_phrase(480),
        r.2 is Some,
        r.2->0@ == "Queue transfer failed: "@ + error@,
{
    let detail = crate::text::concat("Queue transfer failed: ", error);
    callee_error(480, &detail)
}

/// Why a call ended, as the call record says it.
#[derive(Clone, Copy, PartialEq, Eq, Debug, Structural)]
pub enum CallRecordHangupReason {
    ByCaller,
    ByCallee,
    ByRefer,
    Rejected,
    Canceled,
    NoAnswer,
    Failed,
    ServerUnavailable,
    Autohangup,
    RtpTimeout,
}

/// The call was turned down by someone: busy here or everywhere, or declined.
pub open spec fn status_rejects(code: u16) -> bool {
    code == 486 || code == 600 || code == 603
}

/// Nobody was there to take the call.
pub open spec fn status_no_answer(code: u16) -> bool {
    code == 408 || code == 480 || code == 484 || code == 485 || code == 604
}

/// The reason that a failure with this status is recorded under.
pub open spec fn hangup_reason(code: u16) -> CallRecordHangupReason {
    if status_rejects(code) {
        CallRecordHangupReason::Rejected
    } else if code == 487 {
        CallRecordHangupReason::Canceled
    } else if status_no_answer(code) {
        CallRecordHangupReason::NoAnswer
    } else if 500 <= code <= 599 {
        CallRecordHangupReason::ServerUnavailable
    } else {
        CallRecordHangupReason::Failed
    }
}

/// The hangup reason for a SIP response status.
pub fn sip_status_to_hangup_reason(status_code: u16) -> (r: CallRecordHangupReason)
    ensures
        r == hangup_reason(status_code),
{
    match status_code {
        486 | 600 => CallRecordHangupReason::Rejected,
        487 => CallRecordHangupReason::Canceled,
        408 => CallRecordHangupReason::NoAnswer,
        480 | 484 | 485 => CallRecordHangupReason::NoAnswer,
        603 => CallRecordHangupReason::Rejected,
        604 => CallRecordHangupReason::NoAnswer,
        _ => {
            if 500 <= status_code && status_code < 600 {
                CallRecordHangupReason::ServerUnavailable
            } else {
                CallRecordHangupReason::Failed
            }
        },
    }
}

/// What the answer to a REFER means; `None` where the transfer goes on.
#[derive(Clone, Copy, PartialEq, Eq, Debug, Structural)]
pub enum ReferFailure {
    NotSupported,
    Rejected,
    Unexpected,
}

impl ReferFailure {
    pub fn as_str(&self) -> (r: &'static str)
        ensures
            r@ == match *self {
                ReferFailure::NotSupported => "refer_not_supported"@,
                ReferFailure::Rejected => "refer_rejected"@,
                ReferFailure::Unexpected => "unexpected_response"@,
            },
    {
        match self {
            ReferFailure::NotSupported => "refer_not_supported",
            ReferFailure::Rejected => "refer_rejected",
            ReferFailure::Unexpected => "unexpected_response",
        }
    }
}

/// The reason why a REFER with this answer fails: none for an accepted or
/// provisional one.
pub fn refer_reason_for_status(status: u16) -> (r: Option<ReferFailure>)
    ensures
        r is None <==> status == 202 || 100 <= status <= 199,
        r == Some(ReferFailure::NotSupported) <==> status == 405 || status == 420 || status == 501,
        r == Some(ReferFailure::Rejected) <==> status >= 400 && status != 405 && status != 420
            && status != 501,
        r == Some(ReferFailure::Unexpected) <==> status < 400 && status != 202 && !(100 <= status
            <= 199),
{
    if status == 202 || (100 <= status && status <= 199) {
        None
    } else if status == 405 || status == 420 || status == 501 {
        Some(ReferFailure::NotSupported)
    } else if status >= 400 {
        Some(ReferFailure::Rejected)
    } else {
        Some(ReferFailure::Unexpected)
    }
}

/// An UPDATE is retried as a re-INVITE only where the peer says that it does not
/// know the method.
pub fn should_fallback_to_reinvite(status: u16) -> (r: bool)
    ensures
        r == (status == 405 || status == 501),
{
    status == 405 || status == 501
}

/// The words of the reject reasons that have a status of their own.
pub open spec fn is_reject_word(reason: Option<Seq<char>>, small: Seq<char>, large: Seq<char>, code: Seq<char>) -> bool {
    reason matches Some(w) && (w == small || w == large || w == code)
}

fn one_of(word: &str, a: &str, b: &str, c: &str) -> (r: bool)
    ensures
        r == (word@ == a@ || word@ == b@ || word@ == c@),
{
    crate::text::same(word, a) || crate::text::same(word, b) || crate::text::same(word, c)
}

/// The status code that a reject command with this reason sends.
pub open spec fn reject_code(reason: Option<Seq<char>>) -> u16 {
    if is_reject_word(reason, "busy"@, "Busy"@, "486"@) {
        486
    } else if is_reject_word(reason, "decline"@, "Decline"@, "603"@) {
        603
    } else if is_reject_word(reason, "unavailable"@, "Unavailable"@, "480"@) {
        480
    } else if is_reject_word(reason, "reject"@, "Reject"@, "403"@) {
        403
    } else {
        603
    }
}

/// The phrase that goes with the status of a reject.
pub open spec fn reject_phrase(code: u16) -> Seq<char> {
    if code == 486 {
        "Busy Here"@
    } else if code == 480 {
        "Temporarily Unavailable"@
    } else if code == 403 {
        "Forbidden"@
    } else {
        "Decline"@
    }
}

/// Status and phrase with which a reject command is carried out.
pub fn reject_status(reason: &Option<String>) -> (r: (u16, &'static str))
    ensures
        r.0 == reject_code(text::opt_text(*reason)),
        r.1@ == reject_phrase(r.0),
{
    match reason {
        Some(word) => {
            if one_of(word, "busy", "Busy", "486") {
                (486, "Busy Here")
            } else if one_of(word, "decline", "Decline", "603") {
                (603, "Decline")
            } else if one_of(word, "unavailable", "Unavailable", "480") {
                (480, "Temporarily Unavailable")
            } else if one_of(word, "reject", "Reject", "403") {
                (403, "Forbidden")
            } else {
                (603, "Decline")
            }
        },
        None => (603, "Decline"),
    }
}

/// Whatever the reason says, a rejected call is answered with a failure status
/// that the call record knows as rejected, unanswered or failed.
pub proof fn reject_code_is_failure(reason: Option<Seq<char>>)
    ensures
        400 <= reject_code(reason) <= 699,
        hangup_reason(reject_code(reason)) == CallRecordHangupReason::Rejected || hangup_reason(
            reject_code(reason),
        ) == CallRecordHangupReason::NoAnswer || hangup_reason(reject_code(reason))
            == CallRecordHangupReason::Failed,
{
}

/// The status of a `message/sipfrag` body: the second word of its first line,
/// where the first is the protocol version.
pub open spec fn sipfrag_status(body: Seq<char>) -> Option<nat> {
    let all = crate::text::lines(body);
    if all.len() == 0 {
        None
    } else {
        let line = crate::text::trim_start(all[0]);
        let first = crate::text::word_len(line) as int;
        let rest = crate::text::trim_start(line.subrange(first, line.len() as int));
        let second = crate::text::word_len(rest) as int;
        if second > 0 && line.subrange(0, first) == "SIP/2.0"@ {
            crate::text::parsed(rest.subrange(0, second), 0xFFFF)
        } else {
            None
        }
    }
}

/// The number of characters of `v` from `from` up to white space.
fn word_end(v: &Vec<char>, from: usize) -> (r: usize)
    requires
        from <= v@.len(),
    ensures
        from <= r <= v@.len(),
        r - from == crate::text::word_len(v@.subrange(from as int, v@.len() as int)),
{
    let mut i: usize = from;
    let ghost tail = v@.subrange(from as int, v@.len() as int);
    while i < v.len() && !crate::text::is_space(v[i])
        invariant
            from <= i <= v@.len(),
            crate::text::word_len(tail) == (i - from) + crate::text::word_len(
                v@.subrange(i as int, v@.len() as int),
            ),
        decreases v@.len() - i,
    {
        proof {
            assert(v@.subrange(i as int, v@.len() as int).drop_first() =~= v@.subrange(
                i + 1,
                v@.len() as int,
            ));
        }
        i += 1;
    }
    i
}

/// The first position from `from` on that holds no white space.
fn space_end(v: &Vec<char>, from: usize) -> (r: usize)
    requires
        from <= v@.len(),
    ensures
        from <= r <= v@.len(),
        v@.subrange(r as int, v@.len() as int) == crate::text::trim_start(
            v@.subrange(from as int, v@.len() as int),
        ),
{
    let mut i: usize = from;
    let ghost tail = v@.subrange(from as int, v@.len() as int);
    while i < v.len() && crate::text::is_space(v[i])
        invariant
            from <= i <= v@.len(),
            crate::text::trim_start(tail) == crate::text::trim_start(
                v@.subrange(i as int, v@.len() as int),
            ),
        decreases v@.len() - i,
    {
        proof {
            assert(v@.subrange(i as int, v@.len() as int).drop_first() =~= v@.subrange(
                i + 1,
                v@.len() as int,
            ));
        }
        i += 1;
    }
    i
}

/// The SIP status code in a `message/sipfrag` body of the form
/// `SIP/2.0 <code> <reason>`.
pub fn parse_sipfrag_status(body: &str) -> (r: Option<u16>)
    ensures
        r is Some <==> sipfrag_status(body@) is Some,
        r matches Some(code) ==> sipfrag_status(body@) == Some(code as nat),
{
    let all = crate::text::lines_of(body);
    assert(crate::text::lines(body@).len() == all@.len());
    if all.len() == 0 {
        return None;
    }
    assert(crate::text::views(all@)[0] == all@[0]@);
    let v = crate::text::chars_of(&all[0]);
    assert(v@.subrange(0, v@.len() as int) =~= v@);
    let a: usize = space_end(&v, 0);
    let b: usize = word_end(&v, a);
    let c: usize = space_end(&v, b);
    let d: usize = word_end(&v, c);
    let ghost line = crate::text::trim_start(v@);
    let ghost rest = crate::text::trim_start(line.subrange(b - a, line.len() as int));
    proof {
        assert(line.subrange(b - a, line.len() as int) =~= v@.subrange(b as int, v@.len() as int));
        assert(line.subrange(0, b - a) =~= v@.subrange(a as int, b as int));
        assert(rest.subrange(0, d - c) =~= v@.subrange(c as int, d as int));
    }
    let first = crate::text::text_of(&v, a, b);
    if d > c && crate::text::same(&first, "SIP/2.0") {
        let second = crate::text::text_of(&v, c, d);
        crate::text::parse_u16(&second)
    } else {
        None
    }
}

/// A call is recorded as rejected exactly where the callee turned it down, being busy
/// here or everywhere or declining, and as cancelled exactly where the request was
/// terminated.
pub proof fn turned_down_call_is_rejected(code: u16)
    ensures
        hangup_reason(code) == CallRecordHangupReason::Rejected <==> (code == 486 || code == 600
            || code == 603),
        hangup_reason(code) == CallRecordHangupReason::Canceled <==> code == 487,
{
}

/// A call is recorded as unanswered exactly for a timeout, an unavailable callee, an
/// address that is incomplete, ambiguous or exists nowhere.
pub proof fn unreached_call_is_unanswered(code: u16)
    ensures
        hangup_reason(code) == CallRecordHangupReason::NoAnswer <==> (code == 408 || code == 480
            || code == 484 || code == 485 || code == 604),
{
}

/// Every failure of a server is recorded as one, and nothing else is; what is neither
/// that, nor rejected, nor cancelled, nor unanswered is a plain failure. Nobody is said
/// to have hung up.
pub proof fn server_failure_is_recorded_as_one(code: u16)
    ensures
        hangup_reason(code) == CallRecordHangupReason::ServerUnavailable <==> code / 100 == 5,
        code < 400 ==> hangup_reason(code) == CallRecordHangupReason::Failed,
        code >= 605 ==> hangup_reason(code) == CallRecordHangupReason::Failed,
        hangup_reason(code) != CallRecordHangupReason::ByCaller,
        hangup_reason(code) != CallRecordHangupReason::ByCallee,
        hangup_reason(code) != CallRecordHangupReason::ByRefer,
        hangup_reason(code) != CallRecordHangupReason::Autohangup,
        hangup_reason(code) != CallRecordHangupReason::RtpTimeout,
{
}

/// A status succeeds exactly where its first of three digits is a two.
pub proof fn success_is_the_second_class(code: u16)
    ensures
        successful(code) <==> code / 100 == 2,
{
}

/// A status that a reject reason names is the one that is sent; the word for it, small or
/// with a capital, means the same. Any other reason, and none, declines.
pub proof fn reject_reason_names_its_status(reason: Seq<char>)
    ensures
        reject_code(Some(reason)) == 486 <==> (reason == "486"@ || reason == "busy"@ || reason
            == "Busy"@),
        reject_code(Some(reason)) == 480 <==> (reason == "480"@ || reason == "unavailable"@ || reason
            == "Unavailable"@),
        reject_code(Some(reason)) == 403 <==> (reason == "403"@ || reason == "reject"@ || reason
            == "Reject"@),
        reject_code(Some(reason)) == 486 || reject_code(Some(reason)) == 480 || reject_code(
            Some(reason),
        ) == 403 || reject_code(Some(reason)) == 603,
        reject_code(None) == 603,
{
    reveal_strlit("486");
    reveal_strlit("busy");
    reveal_strlit("Busy");
    reveal_strlit("480");
    reveal_strlit("unavailable");
    reveal_strlit("Unavailable");
    reveal_strlit("403");
    reveal_strlit("reject");
    reveal_strlit("Reject");
    reveal_strlit("603");
    reveal_strlit("decline");
    reveal_strlit("Decline");
    assert("486"@.len() == 3);
    assert("busy"@.len() == 4);
    assert("Busy"@.len() == 4);
    assert("480"@.len() == 3);
    assert("unavailable"@.len() == 11);
    assert("Unavailable"@.len() == 11);
    assert("403"@.len() == 3);
    assert("reject"@.len() == 6);
    assert("Reject"@.len() == 6);
    assert("603"@.len() == 3);
    assert("decline"@.len() == 7);
    assert("Decline"@.len() == 7);
    assert("486"@[2] == '6');
    assert("480"@[2] == '0');
    assert("486"@[1] == '8');
    assert("403"@[1] == '0');
    assert("486"@[0] == '4');
    assert("603"@[0] == '6');
    assert("busy"@[0] == 'b');
    assert("Busy"@[0] == 'B');
    assert("480"@[1] == '8');
    assert("480"@[0] == '4');
    assert("unavailable"@[0] == 'u');
    assert("Unavailable"@[0] == 'U');
    assert("403"@[0] == '4');
    assert("reject"@[0] == 'r');
    assert("Reject"@[0] == 'R');
    assert("decline"@[0] == 'd');
    assert("Decline"@[0] == 'D');
}

/// Each status that a reject sends goes with the phrase of that status and no other.
pub proof fn reject_phrase_tells_the_status(reason: Option<Seq<char>>)
    ensures
        reject_phrase(reject_code(reason)) == "Busy Here"@ <==> reject_code(reason) == 486,
        reject_phrase(reject_code(reason)) == "Temporarily Unavailable"@ <==> reject_code(reason)
            == 480,
        reject_phrase(reject_code(reason)) == "Forbidden"@ <==> reject_code(reason) == 403,
        reject_phrase(reject_code(reason)) == "Decline"@ <==> reject_code(reason) == 603,
{
    reveal_strlit("Busy Here");
    reveal_strlit("Temporarily Unavailable");
    reveal_strlit("Forbidden");
    reveal_strlit("Decline");
    assert("Busy Here"@.len() == 9);
    assert("Temporarily Unavailable"@.len() == 23);
    assert("Forbidden"@.len() == 9);
    assert("Decline"@.len() == 7);
    assert("Busy Here"@[0] == 'B');
    assert("Forbidden"@[0] == 'F');
    reject_reason_names_its_status(if reason is Some { reason->0 } else { Seq::empty() });
}

/// The status of a fragment is the number behind the version of the protocol, whatever
/// follows it; a first line of another protocol has none.
pub proof fn fragment_tells_its_status(code: u16, rest: Seq<char>, other: Seq<char>)
    requires
        !rest.contains('\n'),
        rest.len() > 0 ==> text::is_white_space(rest[0]),
        other.len() > 0,
        !other.contains('\n'),
        forall|i: int| 0 <= i < other.len() ==> !text::is_white_space(#[trigger] other[i]),
        other != "SIP/2.0"@,
    ensures
        sipfrag_status("SIP/2.0"@ + seq![' '] + text::decimal(code as nat) + rest) == Some(
            code as nat,
        ),
        sipfrag_status(other + seq![' '] + text::decimal(code as nat) + rest) is None,
        sipfrag_status(Seq::empty()) is None,
{
    reveal_strlit("SIP/2.0");
    let version = "SIP/2.0"@;
    assert(!version.contains('\n'));
    assert forall|i: int| 0 <= i < version.len() implies !text::is_white_space(
        #[trigger] version[i],
    ) by {}
    status_line_is_read(version, code, rest);
    status_line_is_read(other, code, rest);
    text::text_without_feeds_is_one_line(Seq::empty());
}

proof fn status_line_is_read(word: Seq<char>, code: u16, rest: Seq<char>)
    requires
        word.len() > 0,
        !word.contains('\n'),
        forall|i: int| 0 <= i < word.len() ==> !text::is_white_space(#[trigger] word[i]),
        !rest.contains('\n'),
        rest.len() > 0 ==> text::is_white_space(rest[0]),
    ensures
        sipfrag_status(word + seq![' '] + text::decimal(code as nat) + rest) == (if word
            == "SIP/2.0"@ {
            Some(code as nat)
        } else {
            None
        }),
{
    let digits = text::decimal(code as nat);
    text::decimal_is_read_back(code as nat, 0xFFFF);
    let line = word + seq![' '] + digits + rest;
    assert forall|i: int| 0 <= i < digits.len() implies !text::is_white_space(
        #[trigger] digits[i],
    ) && digits[i] != '\n' by {
        assert(text::is_ascii_digit(digits[i]));
    }
    assert(!line.contains('\n')) by {
        if line.contains('\n') {
            let w = choose|w: int| 0 <= w < line.len() && line[w] == '\n';
            if w < word.len() {
                assert(word[w] == '\n');
            } else if w > word.len() {
                if w < word.len() + 1 + digits.len() {
                    assert(digits[w - word.len() - 1] == '\n');
                } else {
                    assert(rest[w - word.len() - 1 - digits.len()] == '\n');
                }
            }
        }
    }
    text::text_without_feeds_is_one_line(line);
    let tail = seq![' '] + digits + rest;
    assert(line =~= word + tail);
    text::word_ends_at_white_space(word, tail);
    assert(line.subrange(0, word.len() as int) =~= word);
    assert(line.subrange(word.len() as int, line.len() as int) =~= tail);
    let value = digits + rest;
    assert(tail.drop_first() =~= value);
    text::word_ends_at_white_space(digits, rest);
    assert(tail[0] == ' ');
    assert(text::trim_start(tail) == text::trim_start(tail.drop_first()));
    assert(digits.len() >= 1);
    assert(text::trim_start(value) == value);
    assert(value.subrange(0, digits.len() as int) =~= digits);
}

/// A status on which a transfer falls back to a re-INVITE is one that says transfers are not
/// supported, and any status of a failure has a reason; one that goes on has none.
pub proof fn unsupported_transfer_falls_back(status: u16, reason: Option<ReferFailure>, r: bool)
    requires
        call_ensures(refer_reason_for_status, (status,), reason),
        call_ensures(should_fallback_to_reinvite, (status,), r),
    ensures
        r ==> reason == Some(ReferFailure::NotSupported),
        reason == Some(ReferFailure::NotSupported) ==> r || status == 420,
        status == 405 || status == 501 ==> r,
        status >= 400 ==> reason is Some && reason != Some(ReferFailure::Unexpected),
        status >= 400 && !r && status != 420 ==> reason == Some(ReferFailure::Rejected),
        100 <= status <= 199 || status == 202 ==> reason is None,
        status < 100 || 200 <= status <= 201 || 203 <= status <= 399 ==> reason == Some(
            ReferFailure::Unexpected,
        ),
{
}

/// The failures of a transfer have names of their own.
pub proof fn transfer_failures_are_named(
    not_supported: &'static str,
    rejected: &'static str,
    unexpected: &'static str,
)
    requires
        call_ensures(ReferFailure::as_str, (&ReferFailure::NotSupported,), not_supported),
        call_ensures(ReferFailure::as_str, (&ReferFailure::Rejected,), rejected),
        call_ensures(ReferFailure::as_str, (&ReferFailure::Unexpected,), unexpected),
    ensures
        not_supported@ == "refer_not_supported"@,
        rejected@ == "refer_rejected"@,
        unexpected@ == "unexpected_response"@,
{
}

/// What is recorded of a call that ended with a status: a busy or declining callee rejected
/// it, and nobody else did; a terminated request cancelled it; a failing server made it
/// unavailable.
pub proof fn status_is_recorded_for_what_it_says(code: u16, r: CallRecordHangupReason)
    requires
        call_ensures(sip_status_to_hangup_reason, (code,), r),
    ensures
        r == CallRecordHangupReason::Rejected <==> (code == 486 || code == 600 || code == 603),
        r == CallRecordHangupReason::Canceled <==> code == 487,
        r == CallRecordHangupReason::NoAnswer <==> (code == 408 || code == 480 || code == 484
            || code == 485 || code == 604),
        r == CallRecordHangupReason::ServerUnavailable <==> 500 <= code < 600,
{
    turned_down_call_is_rejected(code);
    unreached_call_is_unanswered(code);
    server_failure_is_recorded_as_one(code);
}

/// An error for the callee has its status, the phrase of that status and its detail; a failed
/// transfer to a queue is one of an unavailable callee.
pub proof fn error_tells_status_and_detail(
    code: u16,
    detail: &str,
    status: StatusCode,
    msg: Option<String>,
    made: CalleeError,
    turned: CalleeError,
    queue: CalleeError,
    unavailable: CalleeError,
    plain: StatusCode,
)
    requires
        call_ensures(callee_error, (code, detail), made),
        call_ensures(into_callee_err, (&status, msg), turned),
        call_ensures(map_queue_xfer_err, (detail,), queue),
        call_ensures(callee_error, (480, detail), unavailable),
        call_ensures(StatusCode::of, (code,), plain),
    ensures
        made.0 == code && made.2 is Some && made.2->0@ == detail@,
        plain.code == code && plain.text@ == made.1@,
        turned.0 == status.code && turned.1 == status.text && turned.2 == msg,
        queue.0 == unavailable.0 && queue.1@ == unavailable.1@,
        queue.2 is Some && queue.2->0@ == "Queue transfer failed: "@ + detail@,
{
}

/// The status of a fragment is read as it was written.
pub proof fn fragment_is_read_as_written(code: u16, body: &str, r: Option<u16>)
    requires
        call_ensures(parse_sipfrag_status, (body,), r),
        body@ == "SIP/2.0"@ + seq![' '] + text::decimal(code as nat),
    ensures
        r == Some(code),
{
    reveal_strlit("SIP/2.0");
    let other = seq!['x'];
    assert(other[0] == 'x');
    assert(other != "SIP/2.0"@) by {
        assert(other.len() != "SIP/2.0"@.len());
    }
    assert(body@ =~= "SIP/2.0"@ + seq![' '] + text::decimal(code as nat) + Seq::<char>::empty());
    fragment_tells_its_status(code, Seq::empty(), other);
}

} // verus!
