//! The dialogs of a call: who is connected, who is to be hung up, and why the call ended.

use crate::dialogs::DialogSet;
use crate::idset::IdSet;
use crate::status::{
    hangup_reason, is_successful, parse_sipfrag_status, reason_phrase, sip_status_to_hangup_reason,
    sipfrag_status, successful, CallRecordHangupReason, StatusCode,
};
use crate::table::Table;
use crate::text;
use vstd::prelude::*;

verus! {

/// Why a dialog ended.
pub enum TerminatedReason {
    Timeout,
    UacCancel,
    UacBye,
    UasBye,
    UacBusy,
    UasBusy,
    UasDecline,
    ProxyError(StatusCode),
    ProxyAuthRequired,
    UacOther(StatusCode),
    UasOther(StatusCode),
}

/// The status and its reason are these.
pub open spec fn is_failure(
    failure: Option<(StatusCode, Option<String>)>,
    code: u16,
    reason: Seq<char>,
) -> bool {
    failure matches Some((status, why)) && status.code == code && status.text@ == reason_phrase(code)
        && why is Some && why->0@ == reason
}

/// The failure is the one that a callee who was never connected leaves behind. A BYE
/// leaves none.
pub open spec fn is_failure_of(
    failure: Option<(StatusCode, Option<String>)>,
    reason: TerminatedReason,
) -> bool {
    match reason {
        TerminatedReason::UasBye => failure is None,
        TerminatedReason::UasBusy => is_failure(failure, 486, "Busy Here"@),
        TerminatedReason::UasDecline => is_failure(failure, 603, "Decline"@),
        TerminatedReason::Timeout => is_failure(failure, 408, "Request Timeout"@),
        TerminatedReason::ProxyError(s) => failure matches Some((status, why)) && status == s
            && why is Some && why->0@ == "Proxy Error"@,
        TerminatedReason::ProxyAuthRequired => is_failure(
            failure,
            407,
            "Proxy Authentication Required"@,
        ),
        TerminatedReason::UasOther(s) => failure matches Some((status, why)) && status == s
            && why is None,
        _ => is_failure(failure, 500, "Internal Error"@),
    }
}

/// The failure that a callee who was never connected leaves behind.
pub fn termination_failure(reason: TerminatedReason) -> (r: Option<(StatusCode, Option<String>)>)
    ensures
        is_failure_of(r, reason),
{
    match reason {
        TerminatedReason::UasBye => None,
        TerminatedReason::UasBusy => Some((StatusCode::of(486), Some("Busy Here".to_owned()))),
        TerminatedReason::UasDecline => Some((StatusCode::of(603), Some("Decline".to_owned()))),
        TerminatedReason::Timeout => Some(
            (StatusCode::of(408), Some("Request Timeout".to_owned())),
        ),
        TerminatedReason::ProxyError(status) => Some((status, Some("Proxy Error".to_owned()))),
        TerminatedReason::ProxyAuthRequired => Some(
            (StatusCode::of(407), Some("Proxy Authentication Required".to_owned())),
        ),
        TerminatedReason::UasOther(status) => Some((status, None)),
        _ => Some((StatusCode::of(500), Some("Internal Error".to_owned()))),
    }
}

/// Who said goodbye, where the reason tells.
pub open spec fn farewell(reason: TerminatedReason) -> Option<CallRecordHangupReason> {
    match reason {
        TerminatedReason::UasBye => Some(CallRecordHangupReason::ByCallee),
        TerminatedReason::UacBye => Some(CallRecordHangupReason::ByCaller),
        _ => None,
    }
}

pub fn farewell_of(reason: &TerminatedReason) -> (r: Option<CallRecordHangupReason>)
    ensures
        r == farewell(*reason),
{
    match reason {
        TerminatedReason::UasBye => Some(CallRecordHangupReason::ByCallee),
        TerminatedReason::UacBye => Some(CallRecordHangupReason::ByCaller),
        _ => None,
    }
}

/// What is done when a callee's dialog ends.
pub enum CalleeEnd {
    /// It was not the callee of this call, or another one is connected.
    Ignored,
    /// The connected callee left a caller who is still there: whoever looks after the
    /// caller next is asked.
    AskPostCallHook,
    /// The connected callee left, and the caller is gone too; or the callee said goodbye
    /// before it was connected.
    Over,
    /// The call failed; the voice mailbox of this extension is tried before it is
    /// rejected.
    TryVoicemail { extension: String, status: StatusCode, reason: Option<String> },
    /// The call failed and is rejected.
    Reject { status: StatusCode, reason: Option<String> },
}

/// The dialogs of a call and how it fares.
pub struct CallState {
    pub caller_dialog: String,
    pub callee_dialogs: DialogSet,
    /// The dialogs that are to be hung up.
    pub pending_hangup: IdSet,
    pub hangup_reason: Option<CallRecordHangupReason>,
    pub connected_callee: Option<String>,
    pub connected_dialog: Option<String>,
    pub last_error: Option<(StatusCode, Option<String>)>,
    /// The call is being torn down.
    pub cancelled: bool,
}

/// Nothing but the two sets of dialogs differs.
pub open spec fn same_progress(a: CallState, b: CallState) -> bool {
    &&& a.caller_dialog == b.caller_dialog
    &&& a.hangup_reason == b.hangup_reason
    &&& a.connected_callee == b.connected_callee
    &&& a.connected_dialog == b.connected_dialog
    &&& a.last_error == b.last_error
    &&& a.cancelled == b.cancelled
}

/// Nothing but the reason of the hangup, and whether the call is being torn down, differs.
pub open spec fn same_but_reason(a: CallState, b: CallState) -> bool {
    &&& a.caller_dialog == b.caller_dialog
    &&& a.callee_dialogs == b.callee_dialogs
    &&& a.pending_hangup == b.pending_hangup
    &&& a.connected_callee == b.connected_callee
    &&& a.connected_dialog == b.connected_dialog
    &&& a.last_error == b.last_error
}

/// How the call stands once the dialog of a callee ended, and what is done about it.
pub open spec fn callee_ended(
    before: CallState,
    after: CallState,
    dialog: Seq<char>,
    reason: TerminatedReason,
    caller_terminated: bool,
    voicemail: Option<String>,
    r: CalleeEnd,
) -> bool {
    &&& after.callee_dialogs@ == before.callee_dialogs@.remove(dialog)
    &&& after.pending_hangup@ == before.pending_hangup@.remove(dialog)
    &&& after.caller_dialog == before.caller_dialog
    &&& after.cancelled == before.cancelled
    &&& r is Ignored <==> before.ignores(dialog)
    &&& before.ignores(dialog) ==> same_progress(after, before)
    &&& before.is_connected(dialog) ==> {
        &&& after.connected_callee is None
        &&& after.connected_dialog is None
        &&& after.last_error == before.last_error
        &&& after.hangup_reason == (if farewell(reason) is Some {
            farewell(reason)
        } else {
            before.hangup_reason
        })
        &&& if caller_terminated {
            r is Over
        } else {
            r is AskPostCallHook
        }
    }
    &&& !before.ignores(dialog) && !before.is_connected(dialog) ==> {
        &&& after.connected_callee == before.connected_callee
        &&& after.connected_dialog == before.connected_dialog
        &&& reason is UasBye ==> {
            &&& r is Over
            &&& after.last_error == before.last_error
            &&& after.hangup_reason == Some(CallRecordHangupReason::ByCallee)
        }
        &&& reason !is UasBye ==> {
            &&& is_failure_of(after.last_error, reason)
            &&& after.hangup_reason == (if farewell(reason) is Some {
                farewell(reason)
            } else if before.hangup_reason is Some {
                before.hangup_reason
            } else {
                Some(hangup_reason((after.last_error->0).0.code))
            })
            &&& match voicemail {
                Some(ext) if !caller_terminated => r == (CalleeEnd::TryVoicemail {
                    extension: ext,
                    status: (after.last_error->0).0,
                    reason: (after.last_error->0).1,
                }),
                _ => r == (CalleeEnd::Reject {
                    status: (after.last_error->0).0,
                    reason: (after.last_error->0).1,
                }),
            }
        }
    }
}

/// How the call stands once its caller is gone.
pub open spec fn caller_ended(before: CallState, after: CallState, reason: TerminatedReason) -> bool {
    &&& after.cancelled
    &&& after.callee_dialogs == before.callee_dialogs
    &&& after.pending_hangup@ == before.pending_hangup@.union(before.callee_dialogs@)
    &&& after.hangup_reason == (if farewell(reason) is Some {
        farewell(reason)
    } else {
        before.hangup_reason
    })
    &&& after.caller_dialog == before.caller_dialog
    &&& after.connected_callee == before.connected_callee
    &&& after.connected_dialog == before.connected_dialog
    &&& after.last_error == before.last_error
}

/// How the call stands once the dialogs to be hung up were handed out.
pub open spec fn hangups_taken(before: CallState, after: CallState, taken: Seq<Seq<char>>) -> bool {
    &&& after.pending_hangup@ == Set::<Seq<char>>::empty()
    &&& taken.no_duplicates()
    &&& taken.to_set() == before.pending_hangup@
    &&& after.callee_dialogs == before.callee_dialogs
    &&& same_progress(after, before)
}

/// The callees that are left when these dialogs were hung up, one after another.
pub open spec fn left_after(dialogs: Set<Seq<char>>, hung_up: Seq<Seq<char>>) -> Set<Seq<char>>
    decreases hung_up.len(),
{
    if hung_up.len() == 0 {
        dialogs
    } else {
        left_after(dialogs, hung_up.drop_last()).remove(hung_up.last())
    }
}

impl CallState {
    pub open spec fn wf(self) -> bool {
        self.pending_hangup.wf()
    }

    /// This dialog is the connected callee's.
    pub open spec fn is_connected(self, dialog: Seq<char>) -> bool {
        self.connected_dialog matches Some(d) && d@ == dialog
    }

    /// The end of this dialog is no concern of the call: it is not one of its callees,
    /// or another callee is connected.
    pub open spec fn ignores(self, dialog: Seq<char>) -> bool {
        !self.is_connected(dialog) && (self.connected_dialog is Some
            || !self.callee_dialogs@.contains(dialog))
    }

    pub fn new(caller_dialog: String) -> (r: CallState)
        ensures
            r.wf(),
            r.caller_dialog == caller_dialog,
            r.callee_dialogs@ == Set::<Seq<char>>::empty(),
            r.pending_hangup@ == Set::<Seq<char>>::empty(),
            r.hangup_reason is None,
            r.connected_callee is None,
            r.connected_dialog is None,
            r.last_error is None,
            !r.cancelled,
    {
        CallState {
            caller_dialog,
            callee_dialogs: DialogSet::new(),
            pending_hangup: IdSet::new(),
            hangup_reason: None,
            connected_callee: None,
            connected_dialog: None,
            last_error: None,
            cancelled: false,
        }
    }

    /// A callee answered and is connected under this dialog.
    pub fn connect(&mut self, dialog: String)
        requires
            old(self).wf(),
        ensures
            final(self).wf(),
            final(self).connected_dialog == Some(dialog),
            final(self).callee_dialogs@ == old(self).callee_dialogs@.insert(dialog@),
            final(self).pending_hangup == old(self).pending_hangup,
            final(self).caller_dialog == old(self).caller_dialog,
            final(self).hangup_reason == old(self).hangup_reason,
            final(self).connected_callee == old(self).connected_callee,
            final(self).last_error == old(self).last_error,
            final(self).cancelled == old(self).cancelled,
    {
        self.callee_dialogs.insert(dialog.clone());
        self.connected_dialog = Some(dialog);
    }

    /// The dialog of a callee ended. `voicemail` is the extension whose mailbox takes
    /// failed calls, where the dialplan has one.
    pub fn on_callee_terminated(
        &mut self,
        dialog: &str,
        reason: TerminatedReason,
        caller_terminated: bool,
        voicemail: Option<String>,
    ) -> (r: CalleeEnd)
        requires
            old(self).wf(),
        ensures
            final(self).wf(),
            callee_ended(
                *old(self),
                *final(self),
                dialog@,
                reason,
                caller_terminated,
                voicemail,
                r,
            ),
    {
        let connected = match &self.connected_dialog {
            Some(d) => text::same(d, dialog),
            None => false,
        };
        let _ = self.pending_hangup.remove(dialog);
        let known = self.callee_dialogs.contains(dialog);
        self.callee_dialogs.remove(dialog);
        if !known && !connected {
            return CalleeEnd::Ignored;
        }
        if self.connected_dialog.is_some() && !connected {
            return CalleeEnd::Ignored;
        }
        if let Some(who) = farewell_of(&reason) {
            self.hangup_reason = Some(who);
        }
        if connected {
            self.connected_callee = None;
            self.connected_dialog = None;
            if caller_terminated {
                return CalleeEnd::Over;
            }
            return CalleeEnd::AskPostCallHook;
        }
        match termination_failure(reason) {
            None => CalleeEnd::Over,
            Some((status, why)) => {
                let code: u16 = status.code;
                self.last_error = Some((status.clone(), why.clone()));
                if self.hangup_reason.is_none() {
                    self.hangup_reason = Some(sip_status_to_hangup_reason(code));
                }
                match voicemail {
                    Some(extension) => {
                        if !caller_terminated {
                            return CalleeEnd::TryVoicemail { extension, status, reason: why };
                        }
                        CalleeEnd::Reject { status, reason: why }
                    },
                    None => CalleeEnd::Reject { status, reason: why },
                }
            },
        }
    }

    /// The hook for the time after a call was asked: the caller is hung up unless it took
    /// over, or unless the caller is gone.
    pub fn after_post_call_hook(&mut self, handled: bool, caller_terminated: bool)
        requires
            old(self).wf(),
        ensures
            final(self).wf(),
            final(self).callee_dialogs == old(self).callee_dialogs,
            final(self).pending_hangup@ == (if !handled && !caller_terminated {
                old(self).pending_hangup@.insert(old(self).caller_dialog@)
            } else {
                old(self).pending_hangup@
            }),
            same_progress(*final(self), *old(self)),
    {
        if !handled && !caller_terminated {
            let id = self.caller_dialog.clone();
            self.pending_hangup.insert(id);
        }
    }

    /// The caller's dialog ended: every callee is hung up and the call is torn down.
    pub fn on_caller_terminated(&mut self, reason: TerminatedReason)
        requires
            old(self).wf(),
        ensures
            final(self).wf(),
            caller_ended(*old(self), *final(self), reason),
    {
        if let Some(who) = farewell_of(&reason) {
            self.hangup_reason = Some(who);
        }
        self.pending_hangup.extend(&self.callee_dialogs.names());
        self.cancelled = true;
    }

    /// A NOTIFY arrived. For the subscription of a REFER, the status that it reports is
    /// handed out; a success hangs the caller up, who is then served elsewhere.
    pub fn on_notify(&mut self, is_refer: bool, body: &str) -> (r: Option<u16>)
        requires
            old(self).wf(),
        ensures
            final(self).wf(),
            r is Some <==> is_refer && sipfrag_status(body@) is Some,
            r matches Some(status) ==> status == sipfrag_status(body@)->0,
            final(self).callee_dialogs == old(self).callee_dialogs,
            final(self).caller_dialog == old(self).caller_dialog,
            final(self).connected_callee == old(self).connected_callee,
            final(self).connected_dialog == old(self).connected_dialog,
            final(self).last_error == old(self).last_error,
            final(self).cancelled == old(self).cancelled,
            if r is Some && successful(r->0) {
                &&& final(self).pending_hangup@ == old(self).pending_hangup@.insert(
                    old(self).caller_dialog@,
                )
                &&& final(self).hangup_reason == (if old(self).hangup_reason is Some {
                    old(self).hangup_reason
                } else {
                    Some(CallRecordHangupReason::ByRefer)
                })
            } else {
                &&& final(self).pending_hangup == old(self).pending_hangup
                &&& final(self).hangup_reason == old(self).hangup_reason
            },
    {
        if !is_refer {
            return None;
        }
        let status = parse_sipfrag_status(body);
        if let Some(code) = status {
            if is_successful(code) {
                if self.hangup_reason.is_none() {
                    self.hangup_reason = Some(CallRecordHangupReason::ByRefer);
                }
                let id = self.caller_dialog.clone();
                self.pending_hangup.insert(id);
            }
        }
        status
    }

    /// The dialplan failed with this status.
    pub fn on_dialplan_failure(&mut self, code: u16, phrase: String, reason: Option<String>)
        requires
            old(self).wf(),
        ensures
            final(self).wf(),
            final(self).last_error == Some((StatusCode { code, text: phrase }, reason)),
            final(self).hangup_reason == Some(hangup_reason(code)),
            final(self).caller_dialog == old(self).caller_dialog,
            final(self).callee_dialogs == old(self).callee_dialogs,
            final(self).pending_hangup == old(self).pending_hangup,
            final(self).connected_callee == old(self).connected_callee,
            final(self).connected_dialog == old(self).connected_dialog,
            final(self).cancelled == old(self).cancelled,
    {
        self.last_error = Some((StatusCode { code, text: phrase }, reason));
        self.hangup_reason = Some(sip_status_to_hangup_reason(code));
    }

    /// The hangup of a dialog went through.
    pub fn on_hung_up(&mut self, dialog: &str)
        requires
            old(self).wf(),
        ensures
            final(self).wf(),
            final(self).callee_dialogs@ == old(self).callee_dialogs@.remove(dialog@),
            final(self).pending_hangup == old(self).pending_hangup,
            same_progress(*final(self), *old(self)),
    {
        self.callee_dialogs.remove(dialog);
    }

    /// The session timer of a dialog ran out: the dialog is hung up.
    pub fn on_timer_expired(&mut self, dialog: String)
        requires
            old(self).wf(),
        ensures
            final(self).wf(),
            final(self).hangup_reason == Some(CallRecordHangupReason::Autohangup),
            final(self).pending_hangup@ == old(self).pending_hangup@.insert(dialog@),
            final(self).callee_dialogs == old(self).callee_dialogs,
            final(self).caller_dialog == old(self).caller_dialog,
            final(self).connected_callee == old(self).connected_callee,
            final(self).connected_dialog == old(self).connected_dialog,
            final(self).last_error == old(self).last_error,
            final(self).cancelled == old(self).cancelled,
    {
        self.hangup_reason = Some(CallRecordHangupReason::Autohangup);
        self.pending_hangup.insert(dialog);
    }

    /// No media arrived for too long: the call is torn down.
    pub fn on_rtp_timeout(&mut self)
        requires
            old(self).wf(),
        ensures
            final(self).wf(),
            final(self).hangup_reason == Some(CallRecordHangupReason::RtpTimeout),
            final(self).cancelled,
            same_but_reason(*final(self), *old(self)),
    {
        self.hangup_reason = Some(CallRecordHangupReason::RtpTimeout);
        self.cancelled = true;
    }

    /// The call lasted as long as it may: it is torn down.
    pub fn on_max_duration(&mut self)
        requires
            old(self).wf(),
        ensures
            final(self).wf(),
            final(self).hangup_reason == Some(CallRecordHangupReason::Autohangup),
            final(self).cancelled,
            same_but_reason(*final(self), *old(self)),
    {
        self.hangup_reason = Some(CallRecordHangupReason::Autohangup);
        self.cancelled = true;
    }

    /// The dialogs that are hung up now; none of them waits any longer.
    pub fn take_hangups(&mut self) -> (r: Vec<String>)
        requires
            old(self).wf(),
        ensures
            final(self).wf(),
            hangups_taken(*old(self), *final(self), text::views(r@)),
    {
        self.pending_hangup.drain()
    }

    /// The call is cleaned up: the dialogs that are still to be hung up are named, and no
    /// callee is left.
    pub fn clean_up(&mut self) -> (r: Vec<String>)
        requires
            old(self).wf(),
        ensures
            final(self).wf(),
            text::views(r@).no_duplicates(),
            text::views(r@).to_set() == old(self).pending_hangup@,
            final(self).pending_hangup == old(self).pending_hangup,
            final(self).callee_dialogs@ == Set::<Seq<char>>::empty(),
            final(self).connected_dialog is None,
            final(self).caller_dialog == old(self).caller_dialog,
            final(self).hangup_reason == old(self).hangup_reason,
            final(self).connected_callee == old(self).connected_callee,
            final(self).last_error == old(self).last_error,
            final(self).cancelled == old(self).cancelled,
    {
        self.callee_dialogs.clear();
        self.connected_dialog = None;
        crate::video::clone_texts(&self.pending_hangup.items)
    }
}

proof fn nothing_is_left(dialogs: Set<Seq<char>>, hung_up: Seq<Seq<char>>)
    ensures
        forall|k: Seq<char>|
            #[trigger] left_after(dialogs, hung_up).contains(k) <==> dialogs.contains(k)
                && !hung_up.contains(k),
    decreases hung_up.len(),
{
    if hung_up.len() > 0 {
        let rest = hung_up.drop_last();
        nothing_is_left(dialogs, rest);
        assert(hung_up =~= rest.push(hung_up.last()));
        assert forall|k: Seq<char>| #[trigger]
            left_after(dialogs, hung_up).contains(k) <==> dialogs.contains(k)
                && !hung_up.contains(k) by {
            if hung_up.contains(k) {
                let i = choose|i: int| 0 <= i < hung_up.len() && hung_up[i] == k;
                if i < rest.len() {
                    assert(rest[i] == k);
                }
            }
            if rest.contains(k) {
                let i = choose|i: int| 0 <= i < rest.len() && rest[i] == k;
                assert(hung_up[i] == k);
            }
            assert(hung_up[hung_up.len() - 1] == hung_up.last());
            assert(left_after(dialogs, hung_up) == left_after(dialogs, rest).remove(
                hung_up.last(),
            ));
            assert(left_after(dialogs, rest).contains(k) <==> dialogs.contains(k)
                && !rest.contains(k));
        }
    }
}

/// A caller who left takes every callee along: the dialogs handed out next hold all of
/// them, and once those are hung up, no callee is left.
pub proof fn caller_hangup_reaches_every_callee(
    before: CallState,
    ended: CallState,
    taken_from: CallState,
    reason: TerminatedReason,
    taken: Seq<Seq<char>>,
)
    requires
        caller_ended(before, ended, reason),
        hangups_taken(ended, taken_from, taken),
    ensures
        forall|k: Seq<char>| before.callee_dialogs@.contains(k) ==> #[trigger] taken.contains(k),
        left_after(taken_from.callee_dialogs@, taken) == Set::<Seq<char>>::empty(),
        taken_from.cancelled,
{
    assert forall|k: Seq<char>| before.callee_dialogs@.contains(k) implies #[trigger] taken.contains(
        k,
    ) by {
        assert(taken.to_set().contains(k));
    }
    nothing_is_left(taken_from.callee_dialogs@, taken);
    assert(left_after(taken_from.callee_dialogs@, taken) =~= Set::empty());
}

/// The end of a dialog that is none of the call's leaves the call as it was.
pub proof fn foreign_dialog_changes_nothing(state: CallState, dialog: Seq<char>)
    requires
        !state.is_connected(dialog),
        !state.callee_dialogs@.contains(dialog),
    ensures
        state.ignores(dialog),
        state.callee_dialogs@.remove(dialog) == state.callee_dialogs@,
{
    assert(state.callee_dialogs@.remove(dialog) =~= state.callee_dialogs@);
}

/// What an INFO request asks for.
#[derive(Clone, Copy, PartialEq, Eq, Debug, Structural)]
pub enum InfoKind {
    Dtmf,
    PictureFastUpdate,
    Command,
    Unknown,
}

/// The content type of a JSON command.
pub open spec fn command_content_type() -> Seq<char> {
    "application/vnd.rustpbx+json"@
}

pub open spec fn is_picture_fast_update(content_type: Option<Seq<char>>, body: Seq<char>) -> bool {
    content_type matches Some(ct) && text::contains(ct, "application/media_control+xml"@)
        && text::contains(text::ascii_lower(body), "picture_fast_update"@)
}

/// The kind of an INFO request with this content type, in small letters, and this body.
pub open spec fn info_kind(content_type: Option<Seq<char>>, body: Seq<char>) -> InfoKind {
    if content_type is Some && text::contains(content_type->0, "application/dtmf-relay"@) {
        InfoKind::Dtmf
    } else if is_picture_fast_update(content_type, body) {
        InfoKind::PictureFastUpdate
    } else if content_type is Some && text::contains(content_type->0, command_content_type()) {
        InfoKind::Command
    } else {
        InfoKind::Unknown
    }
}

pub fn is_picture_fast_update_info(content_type: Option<&str>, body: &str) -> (r: bool)
    ensures
        r == is_picture_fast_update(
            match content_type {
                Some(ct) => Some(ct@),
                None => None,
            },
            body@,
        ),
{
    match content_type {
        Some(ct) => {
            let small = text::to_ascii_lowercase(body);
            text::has(ct, "application/media_control+xml") && text::has(
                &small,
                "picture_fast_update",
            )
        },
        None => false,
    }
}

/// The content type of a request in small letters, from the value of its header.
pub fn request_content_type(header: Option<&str>) -> (r: Option<String>)
    ensures
        r is Some <==> header is Some,
        r matches Some(ct) ==> ct@ == text::lowercase(header->0@),
{
    match header {
        Some(value) => Some(text::to_lowercase(value)),
        None => None,
    }
}

/// What an INFO request asks for, by the value of its content type header and its body.
pub fn classify_info(header: Option<&str>, body: &[u8]) -> (r: InfoKind)
    ensures
        r == info_kind(
            match header {
                Some(value) => Some(text::lowercase(value@)),
                None => None,
            },
            text::utf8_lossy(body@),
        ),
{
    let content_type = request_content_type(header);
    let body_text = text::from_utf8_lossy(body);
    classify_info_text(&content_type, &body_text)
}

/// What an INFO request asks for, by its content type in small letters and its text.
pub fn classify_info_text(content_type: &Option<String>, body: &str) -> (r: InfoKind)
    ensures
        r == info_kind(
            match *content_type {
                Some(ct) => Some(ct@),
                None => None,
            },
            body@,
        ),
{
    match content_type {
        Some(ct) => {
            if text::has(ct, "application/dtmf-relay") {
                InfoKind::Dtmf
            } else if is_picture_fast_update_info(Some(ct.as_str()), body) {
                InfoKind::PictureFastUpdate
            } else if text::has(ct, "application/vnd.rustpbx+json") {
                InfoKind::Command
            } else {
                InfoKind::Unknown
            }
        },
        None => InfoKind::Unknown,
    }
}

/// The agent's name in the address of a callee: what stands between the scheme and the
/// host.
pub open spec fn agent_of(callee: Seq<char>) -> Seq<char> {
    let rest = if text::starts_with(callee, "sips:"@) {
        callee.skip("sips:"@.len() as int)
    } else if text::starts_with(callee, "sip:"@) {
        callee.skip("sip:"@.len() as int)
    } else {
        callee
    };
    text::split(rest, '@')[0]
}

pub fn agent_id(callee: &str) -> (r: String)
    ensures
        r@ == agent_of(callee@),
{
    let rest = match text::strip_prefix(callee, "sips:") {
        Some(rest) => rest,
        None => match text::strip_prefix(callee, "sip:") {
            Some(rest) => rest,
            None => callee.to_owned(),
        },
    };
    let parts = text::split_on(&rest, '@');
    assert(text::views(parts@)[0] == parts@[0]@);
    parts[0].clone()
}

/// Enters the agent and the queue of a call into its metadata, where there are any.
pub fn record_metadata(
    metadata: &mut Table<String>,
    connected_callee: &Option<String>,
    queue_name: &Option<String>,
)
    requires
        old(metadata).wf(),
    ensures
        final(metadata).wf(),
        forall|k: Seq<char>|
            #![trigger final(metadata).value(k)]
            k != "agent_id"@ && k != "queue_name"@ ==> final(metadata).value(k) == old(
                metadata,
            ).value(k),
        match *connected_callee {
            Some(callee) => final(metadata).value("agent_id"@) matches Some(id) && id@
                == agent_of(callee@),
            None => final(metadata).value("agent_id"@) == old(metadata).value("agent_id"@),
        },
        match *queue_name {
            Some(queue) => final(metadata).value("queue_name"@) == Some(queue),
            None => final(metadata).value("queue_name"@) == old(metadata).value("queue_name"@),
        },
{
    proof {
        reveal_strlit("agent_id");
        reveal_strlit("queue_name");
        assert("agent_id"@.len() != "queue_name"@.len());
    }
    if let Some(callee) = connected_callee {
        metadata.insert("agent_id".to_owned(), agent_id(callee));
    }
    if let Some(queue) = queue_name {
        metadata.insert("queue_name".to_owned(), queue.clone());
    }
}

/// The time, in nanoseconds, that a call has to be set up: that of the dialplan, but at
/// least half a minute and at most two.
pub open spec fn setup_time(max_ring: u128) -> u128 {
    if max_ring < 30_000_000_000 {
        30_000_000_000
    } else if max_ring > 120_000_000_000 {
        120_000_000_000
    } else {
        max_ring
    }
}

pub fn max_setup_time(max_ring: u128) -> (r: u128)
    ensures
        r == setup_time(max_ring),
{
    if max_ring < 30_000_000_000 {
        30_000_000_000
    } else if max_ring > 120_000_000_000 {
        120_000_000_000
    } else {
        max_ring
    }
}

/// What happens while the caller's INVITE is served.
#[derive(Clone, Copy, PartialEq, Eq, Debug, Structural)]
pub enum SetupEvent {
    /// The transaction of the INVITE is over; it failed, or its dialog is terminated.
    HandledAndOver,
    /// The transaction is over and its dialog lives on.
    Handled,
    Cancelled,
    TimedOut,
}

/// What is done about it.
#[derive(Clone, Copy, PartialEq, Eq, Debug, Structural)]
pub enum SetupStep {
    /// Goes on, now with the time for the tear down.
    WaitForTeardown,
    Ignore,
    /// Ends, and cancels the call.
    CancelAndEnd,
    /// Ends, cancels the call, and answers the INVITE with 487.
    CancelAndTerminate,
    End,
}

/// The wait for the caller's INVITE.
pub struct SetupWait {
    pub cancelled: bool,
}

impl SetupWait {
    pub fn new() -> (r: SetupWait)
        ensures
            !r.cancelled,
    {
        SetupWait { cancelled: false }
    }

    /// Takes an event: a call that is cancelled gets a little time to be torn down, once;
    /// when the time is up the INVITE is answered unless its dialog is over already.
    pub fn on_event(&mut self, event: SetupEvent, dialog_terminated: bool) -> (r: SetupStep)
        ensures
            final(self).cancelled == (old(self).cancelled || event == SetupEvent::Cancelled),
            r == (match event {
                SetupEvent::HandledAndOver => SetupStep::CancelAndEnd,
                SetupEvent::Handled => SetupStep::End,
                SetupEvent::Cancelled => if old(self).cancelled {
                    SetupStep::Ignore
                } else {
                    SetupStep::WaitForTeardown
                },
                SetupEvent::TimedOut => if dialog_terminated {
                    SetupStep::CancelAndEnd
                } else {
                    SetupStep::CancelAndTerminate
                },
            }),
    {
        match event {
            SetupEvent::HandledAndOver => SetupStep::CancelAndEnd,
            SetupEvent::Handled => SetupStep::End,
            SetupEvent::Cancelled => {
                if self.cancelled {
                    SetupStep::Ignore
                } else {
                    self.cancelled = true;
                    SetupStep::WaitForTeardown
                }
            },
            SetupEvent::TimedOut => {
                if dialog_terminated {
                    SetupStep::CancelAndEnd
                } else {
                    SetupStep::CancelAndTerminate
                }
            },
        }
    }
}

/// The parties that a call is listed with once it is answered: those that are listed
/// already stay; else the caller as routed, and the callee as connected or routed.
pub fn answered_parties(
    listed: (Option<String>, Option<String>),
    routed_caller: &Option<String>,
    connected_callee: &Option<String>,
    routed_callee: &Option<String>,
    original_caller: &String,
    original_callee: &String,
) -> (r: (Option<String>, Option<String>))
    ensures
        r.0 == (if listed.0 is Some {
            listed.0
        } else if routed_caller is Some {
            *routed_caller
        } else {
            Some(*original_caller)
        }),
        r.1 == (if listed.1 is Some {
            listed.1
        } else if connected_callee is Some {
            *connected_callee
        } else if routed_callee is Some {
            *routed_callee
        } else {
            Some(*original_callee)
        }),
{
    let caller = match listed.0 {
        Some(c) => Some(c),
        None => match routed_caller {
            Some(c) => Some(c.clone()),
            None => Some(original_caller.clone()),
        },
    };
    let callee = match listed.1 {
        Some(c) => Some(c),
        None => match connected_callee {
            Some(c) => Some(c.clone()),
            None => match routed_callee {
                Some(c) => Some(c.clone()),
                None => Some(original_callee.clone()),
            },
        },
    };
    (caller, callee)
}

/// How the answer to the caller went out.
pub enum AnswerSent {
    /// There was none to send.
    Nothing,
    Sent,
    /// Sending failed; the dialog may be confirmed all the same.
    Failed { error: String, confirmed: bool },
}

/// Whether the call is answered: a failure counts only where the dialog is not confirmed.
pub fn answer_outcome(sent: AnswerSent) -> (r: Result<(), String>)
    ensures
        r is Err <==> (sent matches AnswerSent::Failed { confirmed, .. } && !confirmed),
        r matches Err(e) ==> e@ == "Failed to send answer: "@ + sent->error@,
{
    match sent {
        AnswerSent::Nothing => Ok(()),
        AnswerSent::Sent => Ok(()),
        AnswerSent::Failed { error, confirmed } => {
            if confirmed {
                Ok(())
            } else {
                Err(text::concat("Failed to send answer: ", &error))
            }
        },
    }
}

/// A callee that was never connected fails with the status that tells why: busy, declined,
/// timed out, or whatever status it gave itself. Only a goodbye is no failure.
pub proof fn failure_tells_why_the_callee_left(
    failure: Option<(StatusCode, Option<String>)>,
    reason: TerminatedReason,
)
    requires
        is_failure_of(failure, reason),
    ensures
        failure is None <==> reason is UasBye,
        reason is UasBusy ==> (failure->0).0.code == 486,
        reason is UasDecline ==> (failure->0).0.code == 603,
        reason is Timeout ==> (failure->0).0.code == 408,
        reason is ProxyAuthRequired ==> (failure->0).0.code == 407,
        reason matches TerminatedReason::UasOther(s) ==> (failure->0).0 == s && (failure->0).1 is None,
        reason matches TerminatedReason::ProxyError(s) ==> (failure->0).0 == s,
        reason is UacCancel || reason is UacBye || reason is UacBusy || reason is UacOther ==> (
        failure->0).0.code == 500,
        reason is UasBusy ==> hangup_reason((failure->0).0.code) == CallRecordHangupReason::Rejected,
        reason is UasDecline ==> hangup_reason((failure->0).0.code) == CallRecordHangupReason::Rejected,
        reason is Timeout ==> hangup_reason((failure->0).0.code) == CallRecordHangupReason::NoAnswer,
{
}

/// A goodbye of the called side is the callee's and one of the calling side the caller's;
/// no other end is a goodbye.
pub proof fn goodbye_is_of_the_side_that_said_it(reason: TerminatedReason)
    ensures
        farewell(reason) == Some(CallRecordHangupReason::ByCallee) <==> reason is UasBye,
        farewell(reason) == Some(CallRecordHangupReason::ByCaller) <==> reason is UacBye,
        farewell(reason) is Some <==> reason is UasBye || reason is UacBye,
{
}

/// The end of the connected callee's dialog disconnects it and keeps the caller, unless
/// the caller is gone: whoever looks after the caller next is asked. It is never a failure
/// of the call.
pub proof fn connected_callee_leaves_the_caller(
    before: CallState,
    after: CallState,
    dialog: Seq<char>,
    reason: TerminatedReason,
    caller_terminated: bool,
    voicemail: Option<String>,
    r: CalleeEnd,
)
    requires
        callee_ended(before, after, dialog, reason, caller_terminated, voicemail, r),
        before.connected_dialog matches Some(d) && d@ == dialog,
    ensures
        after.connected_dialog is None && after.connected_callee is None,
        after.last_error == before.last_error,
        caller_terminated ==> r is Over,
        !caller_terminated ==> r is AskPostCallHook,
        reason is UasBye ==> after.hangup_reason == Some(CallRecordHangupReason::ByCallee),
        reason is UacBye ==> after.hangup_reason == Some(CallRecordHangupReason::ByCaller),
        !(reason is UasBye) && !(reason is UacBye) ==> after.hangup_reason == before.hangup_reason,
        !after.callee_dialogs@.contains(dialog) && !after.pending_hangup@.contains(dialog),
        !after.is_connected(dialog),
{
}

/// The end of a callee that was still being called fails the call, where none is connected:
/// the caller is offered the mailbox where there is one and the caller is still there, and
/// rejected otherwise, with the callee's own status. A goodbye ends it without failure.
pub proof fn unreached_callee_fails_the_call(
    before: CallState,
    after: CallState,
    dialog: Seq<char>,
    reason: TerminatedReason,
    caller_terminated: bool,
    voicemail: Option<String>,
    r: CalleeEnd,
)
    requires
        callee_ended(before, after, dialog, reason, caller_terminated, voicemail, r),
        before.connected_dialog is None,
        before.callee_dialogs@.contains(dialog),
    ensures
        reason is UasBye ==> r is Over && after.hangup_reason == Some(
            CallRecordHangupReason::ByCallee,
        ),
        !(reason is UasBye) && voicemail is Some && !caller_terminated ==> (
        r matches CalleeEnd::TryVoicemail { extension, .. } && Some(extension) == voicemail),
        !(reason is UasBye) && (voicemail is None || caller_terminated) ==> r is Reject,
        reason is UasBusy ==> after.last_error is Some && (after.last_error->0).0.code == 486,
        reason is UasDecline ==> after.last_error is Some && (after.last_error->0).0.code == 603,
        reason is UasDecline && before.hangup_reason is None ==> after.hangup_reason == Some(
            CallRecordHangupReason::Rejected,
        ),
        reason is UasBusy && before.hangup_reason is None ==> after.hangup_reason == Some(
            CallRecordHangupReason::Rejected,
        ),
        reason is Timeout && before.hangup_reason is None ==> after.hangup_reason == Some(
            CallRecordHangupReason::NoAnswer,
        ),
        !(reason is UasBye) && !(reason is UacBye) && before.hangup_reason is Some
            ==> after.hangup_reason == before.hangup_reason,
        r matches CalleeEnd::Reject { status, reason: why } ==> after.last_error == Some((status, why)),
        r matches CalleeEnd::TryVoicemail { status, reason: why, .. } ==> after.last_error == Some(
            (status, why),
        ),
        after.connected_dialog is None,
        !after.callee_dialogs@.contains(dialog),
{
    if !(reason is UasBye) {
        failure_tells_why_the_callee_left(after.last_error, reason);
    }
}

/// While one callee is connected the end of any other changes neither who is connected nor
/// why the call ends.
pub proof fn other_callee_does_not_end_the_call(
    before: CallState,
    after: CallState,
    dialog: Seq<char>,
    reason: TerminatedReason,
    caller_terminated: bool,
    voicemail: Option<String>,
    r: CalleeEnd,
    other: Seq<char>,
)
    requires
        callee_ended(before, after, dialog, reason, caller_terminated, voicemail, r),
        before.connected_dialog matches Some(d) && d@ != dialog,
        other != dialog,
    ensures
        r is Ignored,
        after.connected_dialog == before.connected_dialog,
        after.connected_callee == before.connected_callee,
        after.hangup_reason == before.hangup_reason,
        after.last_error == before.last_error,
        after.cancelled == before.cancelled,
        after.callee_dialogs@.contains(other) <==> before.callee_dialogs@.contains(other),
        after.pending_hangup@.contains(other) <==> before.pending_hangup@.contains(other),
{
}

/// A caller that left tears the call down for the reason that it left by, and owes a hangup
/// to every callee and to whoever was owed one before.
pub proof fn leaving_caller_tears_the_call_down(
    before: CallState,
    after: CallState,
    reason: TerminatedReason,
    dialog: Seq<char>,
)
    requires
        caller_ended(before, after, reason),
    ensures
        after.cancelled,
        reason is UacBye ==> after.hangup_reason == Some(CallRecordHangupReason::ByCaller),
        reason is UasBye ==> after.hangup_reason == Some(CallRecordHangupReason::ByCallee),
        !(reason is UacBye) && !(reason is UasBye) ==> after.hangup_reason == before.hangup_reason,
        after.pending_hangup@.contains(dialog) <==> before.pending_hangup@.contains(dialog)
            || before.callee_dialogs@.contains(dialog),
        after.last_error == before.last_error,
        after.connected_dialog == before.connected_dialog,
{
}

/// Hangups that are handed out are all that were owed, each once, and owed no longer.
pub proof fn owed_hangups_are_handed_out_once(
    before: CallState,
    after: CallState,
    taken: Seq<Seq<char>>,
    dialog: Seq<char>,
)
    requires
        hangups_taken(before, after, taken),
    ensures
        taken.contains(dialog) <==> before.pending_hangup@.contains(dialog),
        !after.pending_hangup@.contains(dialog),
        after.callee_dialogs == before.callee_dialogs,
        after.hangup_reason == before.hangup_reason,
        after.connected_dialog == before.connected_dialog,
        after.cancelled == before.cancelled,
{
    assert(taken.contains(dialog) <==> taken.to_set().contains(dialog));
}

/// An INFO request is what its content type says: digits before anything else; a picture
/// update only where its body asks for one; a command by the type of commands. Without a
/// content type it is unknown.
pub proof fn content_type_says_what_is_asked(ct: Seq<char>, body: Seq<char>)
    ensures
        info_kind(None, body) == InfoKind::Unknown,
        info_kind(Some(ct), body) == InfoKind::Dtmf <==> text::contains(ct, "application/dtmf-relay"@),
        info_kind(Some(ct), body) == InfoKind::PictureFastUpdate ==> text::contains(
            ct,
            "application/media_control+xml"@,
        ) && text::contains(text::ascii_lower(body), "picture_fast_update"@),
        !text::contains(ct, "application/dtmf-relay"@) && text::contains(
            ct,
            "application/media_control+xml"@,
        ) && text::contains(text::ascii_lower(body), "picture_fast_update"@) ==> info_kind(
            Some(ct),
            body,
        ) == InfoKind::PictureFastUpdate,
        info_kind(Some(ct), body) == InfoKind::Command ==> text::contains(
            ct,
            "application/vnd.rustpbx+json"@,
        ),
        text::contains(ct, "application/vnd.rustpbx+json"@) ==> info_kind(Some(ct), body)
            != InfoKind::Unknown,
        !text::contains(ct, "application/dtmf-relay"@) && !text::contains(
            ct,
            "application/media_control+xml"@,
        ) && text::contains(ct, "application/vnd.rustpbx+json"@) ==> info_kind(Some(ct), body)
            == InfoKind::Command,
{
}

/// The agent of a callee is the user of its address, with either scheme of SIP or none.
pub proof fn agent_is_the_user_of_the_address(user: Seq<char>, host: Seq<char>)
    requires
        !user.contains('@'),
        !host.contains('@'),
        !text::starts_with(user + seq!['@'] + host, "sip:"@),
        !text::starts_with(user + seq!['@'] + host, "sips:"@),
    ensures
        agent_of("sip:"@ + (user + seq!['@'] + host)) == user,
        agent_of("sips:"@ + (user + seq!['@'] + host)) == user,
        agent_of(user + seq!['@'] + host) == user,
{
    reveal_strlit("sip:");
    reveal_strlit("sips:");
    let rest = user + seq!['@'] + host;
    text::lemma_split_plain(user, '@');
    text::lemma_split_push(user, host, '@');
    assert(text::split(rest, '@')[0] == user);
    let a = "sip:"@ + rest;
    let b = "sips:"@ + rest;
    assert(a.subrange(0, 4) =~= "sip:"@);
    assert(b.subrange(0, 5) =~= "sips:"@);
    assert(a.skip(4) =~= rest);
    assert(b.skip(5) =~= rest);
    if text::starts_with(a, "sips:"@) {
        assert(a.subrange(0, 5)[3] == "sips:"@[3]);
    }
}

/// A call has as long to be set up as its dialplan says, between half a minute and two.
pub proof fn setup_takes_between_half_a_minute_and_two(max_ring: u128)
    ensures
        30_000_000_000 <= setup_time(max_ring) <= 120_000_000_000,
        30_000_000_000 <= max_ring <= 120_000_000_000 ==> setup_time(max_ring) == max_ring,
        max_ring < 30_000_000_000 ==> setup_time(max_ring) == 30_000_000_000,
        max_ring > 120_000_000_000 ==> setup_time(max_ring) == 120_000_000_000,
{
}

/// Who a header names is the party, then who the call was routed to, and last who it was
/// for; the caller rests on nothing of the callee, nor the callee on the caller.
pub proof fn parties_are_the_latest_known(
    listed: (Option<String>, Option<String>),
    routed_caller: Option<String>,
    connected_callee: Option<String>,
    routed_callee: Option<String>,
    original_caller: String,
    original_callee: String,
    r: (Option<String>, Option<String>),
)
    requires
        call_ensures(
            answered_parties,
            (
                listed,
                &routed_caller,
                &connected_callee,
                &routed_callee,
                &original_caller,
                &original_callee,
            ),
            r,
        ),
    ensures
        r.0 is Some && r.1 is Some,
        listed.0 is Some ==> r.0 == listed.0,
        listed.1 is Some ==> r.1 == listed.1,
        listed.0 is None && routed_caller is Some ==> r.0 == routed_caller,
        listed.0 is None && routed_caller is None ==> r.0->0 == original_caller,
        listed.1 is None && connected_callee is Some ==> r.1 == connected_callee,
        listed.1 is None && connected_callee is None && routed_callee is Some ==> r.1
            == routed_callee,
        listed.1 is None && connected_callee is None && routed_callee is None ==> r.1->0
            == original_callee,
{
}

/// An answer that did not go out fails the call, unless the dialog is confirmed already.
pub proof fn unsent_answer_fails(sent: AnswerSent, r: Result<(), String>)
    requires
        call_ensures(answer_outcome, (sent,), r),
    ensures
        !(sent is Failed) ==> r is Ok,
        sent matches AnswerSent::Failed { confirmed, .. } ==> (r is Ok <==> confirmed),
        r matches Err(e) ==> text::ends_with(e@, sent->error@),
{
    if r is Err {
        let head = "Failed to send answer: "@;
        let all = r->Err_0@;
        assert(all.subrange(head.len() as int, all.len() as int) =~= sent->error@);
    }
}

/// A call that is being set up is torn down once: the first cancellation waits for the
/// teardown, another changes nothing, and when the wait is over what is still there is
/// ended.
pub proof fn setup_is_cancelled_once()
    ensures
        forall|s: &mut SetupWait, event: SetupEvent, over: bool, r: SetupStep| #[trigger]
            call_ensures(SetupWait::on_event, (s, event, over), r) ==> {
                &&& s.cancelled ==> final(s).cancelled
                &&& r is WaitForTeardown <==> event == SetupEvent::Cancelled && !s.cancelled
                &&& r is WaitForTeardown ==> final(s).cancelled
                &&& r is Ignore <==> event == SetupEvent::Cancelled && s.cancelled
                &&& event != SetupEvent::Cancelled ==> final(s).cancelled == s.cancelled
                &&& r is End <==> event == SetupEvent::Handled
                &&& r is CancelAndTerminate <==> event == SetupEvent::TimedOut && !over
                &&& r is CancelAndEnd <==> event == SetupEvent::HandledAndOver || (event
                    == SetupEvent::TimedOut && over)
            },
{
}

/// A dialog that connects is the connected one and one of the callee's; nothing else of the
/// call changes.
pub proof fn connected_dialog_is_the_callees()
    ensures
        forall|c: &mut CallState, dialog: String| #[trigger]
            call_ensures(CallState::connect, (c, dialog), ()) ==> {
                &&& final(c).connected_dialog == Some(dialog)
                &&& final(c).callee_dialogs@.contains(dialog@)
                &&& forall|other: Seq<char>|
                    other != dialog@ ==> final(c).callee_dialogs@.contains(other)
                        == c.callee_dialogs@.contains(other)
                &&& final(c).hangup_reason == c.hangup_reason && final(c).pending_hangup
                    == c.pending_hangup && final(c).cancelled == c.cancelled
            },
{
}

/// Why a call ended is recorded by what ended it: a silent stream as such, a call that lasted
/// too long or whose timer ran out as hung up by the proxy, a failed plan by its status. A
/// stream and a duration end the whole call, a timer only its dialog.
pub proof fn call_is_ended_for_its_reason()
    ensures
        forall|c: &mut CallState| #[trigger]
            call_ensures(CallState::on_rtp_timeout, (c,), ()) ==> {
                &&& final(c).hangup_reason == Some(CallRecordHangupReason::RtpTimeout)
                &&& final(c).cancelled && final(c).pending_hangup == c.pending_hangup
                &&& final(c).callee_dialogs == c.callee_dialogs && final(c).last_error
                    == c.last_error
            },
        forall|c: &mut CallState| #[trigger]
            call_ensures(CallState::on_max_duration, (c,), ()) ==> {
                &&& final(c).hangup_reason == Some(CallRecordHangupReason::Autohangup)
                &&& final(c).cancelled && final(c).pending_hangup == c.pending_hangup
                &&& final(c).callee_dialogs == c.callee_dialogs && final(c).last_error
                    == c.last_error
            },
        forall|c: &mut CallState, dialog: String| #[trigger]
            call_ensures(CallState::on_timer_expired, (c, dialog), ()) ==> {
                &&& final(c).hangup_reason == Some(CallRecordHangupReason::Autohangup)
                &&& final(c).cancelled == c.cancelled
                &&& final(c).pending_hangup@.contains(dialog@)
                &&& forall|other: Seq<char>|
                    other != dialog@ ==> final(c).pending_hangup@.contains(other)
                        == c.pending_hangup@.contains(other)
            },
        forall|c: &mut CallState, code: u16, phrase: String, reason: Option<String>| #[trigger]
            call_ensures(CallState::on_dialplan_failure, (c, code, phrase, reason), ()) ==> {
                &&& final(c).hangup_reason is Some
                &&& final(c).hangup_reason->0 == CallRecordHangupReason::Rejected <==> (code == 486
                    || code == 600 || code == 603)
                &&& final(c).hangup_reason->0 == CallRecordHangupReason::Canceled <==> code == 487
                &&& final(c).last_error matches Some((status, why)) && status.code == code
                    && status.text == phrase && why == reason
                &&& final(c).cancelled == c.cancelled && final(c).pending_hangup
                    == c.pending_hangup
            },
{
}

/// After the hook of a call the caller is hung up, unless the hook handled the call or the
/// caller is gone.
pub proof fn unhandled_caller_is_hung_up()
    ensures
        forall|c: &mut CallState, handled: bool, gone: bool| #[trigger]
            call_ensures(CallState::after_post_call_hook, (c, handled, gone), ()) ==> {
                &&& !handled && !gone ==> final(c).pending_hangup@.contains(c.caller_dialog@)
                &&& handled || gone ==> final(c).pending_hangup@ == c.pending_hangup@
                &&& final(c).callee_dialogs == c.callee_dialogs && final(c).hangup_reason
                    == c.hangup_reason
            },
{
}

/// At the end every dialog that is still to be hung up is, each once, and no dialog of the
/// callee is left.
pub proof fn everything_pending_is_hung_up_at_the_end()
    ensures
        forall|c: &mut CallState, r: Vec<String>| #[trigger]
            call_ensures(CallState::clean_up, (c,), r) ==> {
                &&& text::views(r@).no_duplicates()
                &&& forall|d: Seq<char>|
                    text::views(r@).to_set().contains(d) == c.pending_hangup@.contains(d)
                &&& forall|d: Seq<char>| !final(c).callee_dialogs@.contains(d)
                &&& final(c).connected_dialog is None
                &&& final(c).hangup_reason == c.hangup_reason
            },
{
}

/// A record tells the agent that answered and the queue it was for, and keeps what else is
/// known of the call.
pub proof fn record_tells_agent_and_queue(other: Seq<char>)
    requires
        other != "agent_id"@ && other != "queue_name"@,
    ensures
        forall|m: &mut Table<String>, callee: Option<String>, queue: Option<String>| #[trigger]
            call_ensures(record_metadata, (m, &callee, &queue), ()) ==> {
                &&& final(m).value(other) == m.value(other)
                &&& queue is Some ==> final(m).value("queue_name"@) == queue
                &&& queue is None ==> final(m).value("queue_name"@) == m.value("queue_name"@)
                &&& callee is Some ==> final(m).value("agent_id"@) is Some
                    && final(m).value("agent_id"@)->0@ == agent_of(callee->0@)
                &&& callee is None ==> final(m).value("agent_id"@) == m.value("agent_id"@)
            },
{
}

/// A failure tells its status with the phrase of that status, and why.
pub proof fn failure_has_the_phrase_of_its_status(
    failure: Option<(StatusCode, Option<String>)>,
    code: u16,
    reason: Seq<char>,
)
    requires
        is_failure(failure, code, reason),
    ensures
        failure matches Some((status, why)) && status.code == code && status.text@
            == reason_phrase(code) && why is Some && why->0@ == reason,
{
}

/// What a callee that was never connected leaves behind says why it left, in words.
pub proof fn callee_leaves_its_reason_in_words(failure: Option<(StatusCode, Option<String>)>)
    ensures
        is_failure_of(failure, TerminatedReason::UasBusy) ==> is_failure(
            failure,
            486,
            "Busy Here"@,
        ),
        is_failure_of(failure, TerminatedReason::UasDecline) ==> is_failure(
            failure,
            603,
            "Decline"@,
        ),
        is_failure_of(failure, TerminatedReason::Timeout) ==> is_failure(
            failure,
            408,
            "Request Timeout"@,
        ),
        is_failure_of(failure, TerminatedReason::ProxyAuthRequired) ==> is_failure(
            failure,
            407,
            "Proxy Authentication Required"@,
        ),
{
}

} // verus!
