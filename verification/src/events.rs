//! The loop that serves a session: what each event leads to, and when it ends.

use crate::dialog::{same_but_reason, same_progress, CallState};
use crate::session::SipSession;
use crate::status::CallRecordHangupReason;
use crate::text;
use crate::timer::{timer_action, SessionTimerState, TimerAction, TimerClock};
use vstd::prelude::*;

verus! {

/// How long, in seconds, a call that is torn down may take.
pub const SHUTDOWN_DRAIN_TIMEOUT: u64 = 3;

/// What happens while a session is served, apart from dialog states and commands.
pub enum SessionEvent {
    /// The hangup of a dialog came to an end: of this one, where it went well.
    HungUp { ended: Option<String> },
    /// The call is to be torn down.
    Cancelled,
    /// The time that a call may take to be torn down is over.
    DrainTimeout,
    /// The timer of a dialog came due; the clock says what that means.
    TimerDue { dialog: String, clock: TimerClock },
    /// No media arrived for too long.
    RtpTimeout,
    /// The call lasted as long as it may.
    MaxDuration,
}

/// What is done about an event.
pub enum SessionStep {
    /// The next event is waited for.
    Wait,
    /// From now on the call has so many seconds to come to its end.
    StartDrain { secs: u64 },
    /// The session of a dialog is refreshed: a callee's, or the caller's.
    Refresh { dialog: String, to_callee: bool },
    /// The session is over.
    Finish,
}

/// The state of the loop: whether the call is coming to its end.
#[derive(Clone, Copy, PartialEq, Eq, Debug, Structural)]
pub struct SessionLoop {
    pub draining: bool,
}

/// The call is hung up for this reason.
pub open spec fn torn_down(before: SipSession, after: SipSession, reason: CallRecordHangupReason) -> bool {
    &&& after == (SipSession { call: after.call, ..before })
    &&& after.call.hangup_reason == Some(reason)
    &&& after.call.cancelled
    &&& same_but_reason(after.call, before.call)
}

/// The dialog of an expired timer is hung up.
pub open spec fn expired(before: SipSession, after: SipSession, dialog: Seq<char>) -> bool {
    &&& after.call.hangup_reason == Some(CallRecordHangupReason::Autohangup)
    &&& after.call.pending_hangup@ == before.call.pending_hangup@.insert(dialog)
    &&& after.call == (CallState {
        hangup_reason: after.call.hangup_reason,
        pending_hangup: after.call.pending_hangup,
        ..before.call
    })
    &&& after == (SipSession { call: after.call, timers: after.timers, ..before })
}

/// The timer of a dialog is no longer due, and is marked where it is refreshed.
pub open spec fn timer_taken(before: SipSession, after: SipSession, dialog: Seq<char>, refreshing: bool) -> bool {
    &&& forall|k: Seq<char>| #[trigger]
        after.timers.due.value(k) == if k == dialog {
            None
        } else {
            before.timers.due.value(k)
        }
    &&& forall|k: Seq<char>| #[trigger]
        after.timers.timers.value(k) == if k == dialog && refreshing {
            Some(SessionTimerState { refreshing: true, ..before.timers.timers.value(k)->0 })
        } else {
            before.timers.timers.value(k)
        }
    &&& after.timers.update_disabled == before.timers.update_disabled
}

/// What an event makes of the loop and the session, and what is done about it.
pub open spec fn is_session_step(
    before: SipSession,
    after: SipSession,
    draining: bool,
    event: SessionEvent,
    draining_after: bool,
    step: SessionStep,
) -> bool {
    match event {
        SessionEvent::HungUp { ended } => {
            &&& step is Wait
            &&& draining_after == draining
            &&& match ended {
                Some(d) => {
                    &&& after == (SipSession { call: after.call, ..before })
                    &&& after.call.callee_dialogs@ == before.call.callee_dialogs@.remove(d@)
                    &&& after.call.pending_hangup == before.call.pending_hangup
                    &&& same_progress(after.call, before.call)
                },
                None => after == before,
            }
        },
        SessionEvent::Cancelled => {
            &&& after == before
            &&& draining_after
            &&& if draining {
                step is Wait
            } else {
                step == (SessionStep::StartDrain { secs: 3 })
            }
        },
        SessionEvent::DrainTimeout => {
            &&& after == before
            &&& draining_after == draining
            &&& if draining {
                step is Finish
            } else {
                step is Wait
            }
        },
        SessionEvent::TimerDue { dialog, clock } => {
            &&& draining_after == draining
            &&& if draining {
                after == before && step is Wait
            } else {
                match timer_action(before.timers.timers.value(dialog@), clock) {
                    Some(TimerAction::Refresh) => {
                        &&& step == (SessionStep::Refresh {
                            dialog,
                            to_callee: dialog@ != before.call.caller_dialog@,
                        })
                        &&& timer_taken(before, after, dialog@, true)
                        &&& after == (SipSession { timers: after.timers, ..before })
                    },
                    Some(TimerAction::Expired) => {
                        &&& step is Wait
                        &&& timer_taken(before, after, dialog@, false)
                        &&& expired(before, after, dialog@)
                    },
                    None => {
                        &&& step is Wait
                        &&& timer_taken(before, after, dialog@, false)
                        &&& after == (SipSession { timers: after.timers, ..before })
                    },
                }
            }
        },
        SessionEvent::RtpTimeout => {
            &&& step is Wait
            &&& draining_after == draining
            &&& if draining {
                after == before
            } else {
                torn_down(before, after, CallRecordHangupReason::RtpTimeout)
            }
        },
        SessionEvent::MaxDuration => {
            &&& step is Wait
            &&& draining_after == draining
            &&& if draining {
                after == before
            } else {
                torn_down(before, after, CallRecordHangupReason::Autohangup)
            }
        },
    }
}

impl SessionLoop {
    pub fn new() -> (r: SessionLoop)
        ensures
            !r.draining,
    {
        SessionLoop { draining: false }
    }

    /// Takes an event of the session.
    pub fn on_event(&mut self, session: &mut SipSession, event: SessionEvent) -> (r: SessionStep)
        requires
            old(session).wf(),
        ensures
            final(session).wf(),
            is_session_step(
                *old(session),
                *final(session),
                old(self).draining,
                event,
                final(self).draining,
                r,
            ),
    {
        match event {
            SessionEvent::HungUp { ended } => {
                if let Some(d) = ended {
                    session.call.on_hung_up(&d);
                }
                SessionStep::Wait
            },
            SessionEvent::Cancelled => {
                if self.draining {
                    return SessionStep::Wait;
                }
                self.draining = true;
                SessionStep::StartDrain { secs: SHUTDOWN_DRAIN_TIMEOUT }
            },
            SessionEvent::DrainTimeout => {
                if self.draining {
                    SessionStep::Finish
                } else {
                    SessionStep::Wait
                }
            },
            SessionEvent::TimerDue { dialog, clock } => {
                if self.draining {
                    return SessionStep::Wait;
                }
                match session.timers.next_timer_action(&dialog, clock) {
                    Some(TimerAction::Refresh) => {
                        let to_callee = !text::same(&dialog, &session.call.caller_dialog);
                        SessionStep::Refresh { dialog, to_callee }
                    },
                    Some(TimerAction::Expired) => {
                        session.call.on_timer_expired(dialog);
                        SessionStep::Wait
                    },
                    None => SessionStep::Wait,
                }
            },
            SessionEvent::RtpTimeout => {
                if !self.draining {
                    session.call.on_rtp_timeout();
                }
                SessionStep::Wait
            },
            SessionEvent::MaxDuration => {
                if !self.draining {
                    session.call.on_max_duration();
                }
                SessionStep::Wait
            },
        }
    }

    /// Nothing is left to wait for: the call comes to its end, no hangup runs or is owed,
    /// the caller is gone, and so is every callee.
    pub open spec fn is_finished(self, session: SipSession, hangups_running: usize, caller_terminated: bool) -> bool {
        &&& self.draining
        &&& hangups_running == 0
        &&& session.call.pending_hangup@ == Set::<Seq<char>>::empty()
        &&& caller_terminated
        &&& session.call.callee_dialogs@ == Set::<Seq<char>>::empty()
    }

    pub fn finished(&self, session: &SipSession, hangups_running: usize, caller_terminated: bool) -> (r:
        bool)
        ensures
            r == self.is_finished(*session, hangups_running, caller_terminated),
    {
        self.draining && hangups_running == 0 && session.call.pending_hangup.is_empty()
            && caller_terminated && session.call.callee_dialogs.is_empty()
    }
}

/// When the timer of a dialog is looked at next.
#[derive(Clone, Copy, PartialEq, Eq, Debug, Structural)]
pub enum NextLook {
    /// When the session is to be refreshed, or expires.
    Regular,
    /// When the session expires.
    Expiration,
}

/// When the timer is looked at after a refresh: one that failed is not tried again.
pub fn after_refresh(refreshed: bool) -> (r: NextLook)
    ensures
        r == (if refreshed {
            NextLook::Regular
        } else {
            NextLook::Expiration
        }),
{
    if refreshed {
        NextLook::Regular
    } else {
        NextLook::Expiration
    }
}

/// Once a call comes to its end, neither a timer nor silence nor the time limit changes
/// why it ended, and it is given time for that only once.
pub proof fn ending_call_keeps_its_reason(
    before: SipSession,
    after: SipSession,
    event: SessionEvent,
    draining_after: bool,
    step: SessionStep,
)
    requires
        is_session_step(before, after, true, event, draining_after, step),
    ensures
        draining_after,
        after.call.hangup_reason == before.call.hangup_reason,
        step !is StartDrain,
        step is Finish <==> event is DrainTimeout,
{
}

/// Only a cancelled call starts to come to its end, once and with three seconds for it;
/// only when that time is over it is finished.
pub proof fn only_a_cancelled_call_comes_to_its_end(
    before: SipSession,
    after: SipSession,
    draining: bool,
    event: SessionEvent,
    draining_after: bool,
    step: SessionStep,
)
    requires
        is_session_step(before, after, draining, event, draining_after, step),
    ensures
        step is StartDrain <==> event is Cancelled && !draining,
        step matches SessionStep::StartDrain { secs } ==> secs == 3,
        draining_after <==> draining || event is Cancelled,
        step is Finish <==> event is DrainTimeout && draining,
        event is Cancelled || event is DrainTimeout ==> after == before,
        step is Refresh ==> event is TimerDue,
{
}

/// Silence on the media and the longest duration of a call tear it down, each for its own
/// reason, and hang nobody up by themselves.
pub proof fn silence_and_length_tear_a_call_down(
    before: SipSession,
    after: SipSession,
    event: SessionEvent,
    draining_after: bool,
    step: SessionStep,
)
    requires
        is_session_step(before, after, false, event, draining_after, step),
        event is RtpTimeout || event is MaxDuration,
    ensures
        after.call.cancelled,
        event is RtpTimeout ==> after.call.hangup_reason == Some(CallRecordHangupReason::RtpTimeout),
        event is MaxDuration ==> after.call.hangup_reason == Some(CallRecordHangupReason::Autohangup),
        after.call.pending_hangup == before.call.pending_hangup,
        after.call.callee_dialogs == before.call.callee_dialogs,
        after.call.connected_dialog == before.call.connected_dialog,
        after.timers == before.timers,
        step is Wait,
{
}

/// A timer that comes due is looked at once. An expired session hangs its own dialog up and
/// no other; one that is to be refreshed is refreshed towards the callee unless it is the
/// caller's, and is marked so that it is not refreshed twice.
pub proof fn due_timer_concerns_its_dialog(
    before: SipSession,
    after: SipSession,
    dialog: String,
    clock: TimerClock,
    draining_after: bool,
    step: SessionStep,
    other: Seq<char>,
    timer: SessionTimerState,
)
    requires
        is_session_step(
            before,
            after,
            false,
            SessionEvent::TimerDue { dialog, clock },
            draining_after,
            step,
        ),
        before.timers.timers.value(dialog@) == Some(timer),
        other != dialog@,
    ensures
        after.timers.due.value(dialog@) is None,
        after.timers.due.value(other) == before.timers.due.value(other),
        after.timers.timers.value(other) == before.timers.timers.value(other),
        clock.expired ==> after.call.hangup_reason == Some(CallRecordHangupReason::Autohangup)
            && after.call.pending_hangup@.contains(dialog@) && step is Wait,
        clock.expired ==> (after.call.pending_hangup@.contains(other)
            <==> before.call.pending_hangup@.contains(other)),
        !clock.expired ==> after.call == before.call,
        step is Refresh <==> !clock.expired && clock.our_turn && clock.refresh_due && !timer.refreshing,
        step matches SessionStep::Refresh { dialog: d, to_callee } ==> d == dialog && (to_callee
            <==> dialog@ != before.call.caller_dialog@) && (after.timers.timers.value(
            dialog@,
        ) matches Some(t) && t.refreshing && t.session_interval == timer.session_interval),
        !(step is Refresh) ==> after.timers.timers.value(dialog@) == Some(timer),
{
}

/// A dialog that was hung up is no longer one of the callees; every other one still is, and
/// a hangup that failed changes nothing.
pub proof fn hung_up_dialog_is_gone(
    before: SipSession,
    after: SipSession,
    draining: bool,
    ended: Option<String>,
    draining_after: bool,
    step: SessionStep,
    other: Seq<char>,
)
    requires
        is_session_step(
            before,
            after,
            draining,
            SessionEvent::HungUp { ended },
            draining_after,
            step,
        ),
    ensures
        ended matches Some(d) ==> !after.call.callee_dialogs@.contains(d@) && (other != d@ ==> (
        after.call.callee_dialogs@.contains(other) <==> before.call.callee_dialogs@.contains(other))),
        ended is None ==> after == before,
        after.call.hangup_reason == before.call.hangup_reason,
        after.call.pending_hangup == before.call.pending_hangup,
        step is Wait && draining_after == draining,
{
}

/// A session is finished only when it comes to its end with nobody left in it and nothing
/// owed to anybody.
pub proof fn finished_session_owes_nothing(
    state: SessionLoop,
    session: SipSession,
    hangups_running: usize,
    caller_terminated: bool,
    dialog: Seq<char>,
)
    ensures
        state.is_finished(session, hangups_running, caller_terminated) ==> state.draining
            && caller_terminated && hangups_running == 0 && !session.call.pending_hangup@.contains(
            dialog,
        ) && !session.call.callee_dialogs@.contains(dialog),
        state.draining && caller_terminated && hangups_running == 0 && session.call.pending_hangup@
            == Set::<Seq<char>>::empty() && session.call.callee_dialogs@
            == Set::<Seq<char>>::empty() ==> state.is_finished(
            session,
            hangups_running,
            caller_terminated,
        ),
{
}

/// A timer that was refreshed is looked at as usual; one that was not is looked at when it
/// expires.
pub proof fn failed_refresh_waits_for_expiration(good: NextLook, bad: NextLook)
    requires
        call_ensures(after_refresh, (true,), good),
        call_ensures(after_refresh, (false,), bad),
    ensures
        good == NextLook::Regular,
        bad == NextLook::Expiration,
{
}

/// A call is finished once it is being ended, nothing is left to hang up, the caller is gone
/// and so is every dialog of the callee.
pub proof fn call_is_finished_when_nothing_is_left(
    l: SessionLoop,
    session: SipSession,
    running: usize,
    gone: bool,
    dialog: Seq<char>,
    r: bool,
)
    requires
        call_ensures(SessionLoop::finished, (&l, &session, running, gone), r),
    ensures
        r ==> l.draining && running == 0 && gone,
        r ==> !session.call.pending_hangup@.contains(dialog),
        r ==> !session.call.callee_dialogs@.contains(dialog),
        l.draining && running == 0 && gone && session.call.pending_hangup@ == Set::<
            Seq<char>,
        >::empty() && session.call.callee_dialogs@ == Set::<Seq<char>>::empty() ==> r,
{
}

/// A dialog whose timer ran out is hung up by the proxy; its call keeps its legs, its media and
/// all that is noted of it.
pub proof fn expired_dialog_leaves_the_call(
    before: SipSession,
    after: SipSession,
    dialog: Seq<char>,
)
    requires
        expired(before, after, dialog),
    ensures
        after.call.hangup_reason == Some(CallRecordHangupReason::Autohangup),
        after.call.pending_hangup@.contains(dialog),
        after.legs == before.legs && after.media == before.media && after.meta == before.meta,
        after.id == before.id && after.recording == before.recording && after.playback
            == before.playback,
        after.call.callee_dialogs == before.call.callee_dialogs && after.call.last_error
            == before.call.last_error,
{
}

} // verus!
