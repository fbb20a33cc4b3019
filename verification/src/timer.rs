//! Session timers: the interval that a dialog is kept alive for, and the requests that
//! refresh it.

use crate::media::MediaState;
use crate::status::{callee_error, is_successful, reason_phrase, should_fallback_to_reinvite, successful, CalleeError};
use crate::table::Table;
use crate::text;
use vstd::prelude::*;

verus! {

/// The interval, in seconds, where none was negotiated.
pub const DEFAULT_SESSION_EXPIRES: u64 = 1800;

/// The smallest interval, in seconds, that may be asked for.
pub const MIN_MIN_SE: u64 = 90;

/// When sessions get a timer.
#[derive(Clone, Copy, PartialEq, Eq, Debug, Structural)]
pub enum SessionTimerMode {
    Off,
    /// When the peer asks for one.
    Supported,
    Always,
}

impl SessionTimerMode {
    pub fn is_enabled(&self) -> (r: bool)
        ensures
            r == (*self != SessionTimerMode::Off),
    {
        match self {
            SessionTimerMode::Off => false,
            _ => true,
        }
    }
}

/// The side of the dialog that refreshes the session.
#[derive(Clone, Copy, PartialEq, Eq, Debug, Structural)]
pub enum SessionRefresher {
    Uac,
    Uas,
}

/// The timer of a dialog. Intervals are in seconds, times in milliseconds.
#[derive(Clone, Copy, PartialEq, Eq, Debug, Structural)]
pub struct SessionTimerState {
    pub mode: SessionTimerMode,
    pub enabled: bool,
    pub active: bool,
    pub session_interval: u64,
    pub min_se: u64,
    pub refresher: SessionRefresher,
    pub refreshing: bool,
    pub last_refresh: u64,
}

impl SessionTimerState {
    /// A timer that does not run.
    pub open spec fn idle(mode: SessionTimerMode, now: u64) -> SessionTimerState {
        SessionTimerState {
            mode,
            enabled: false,
            active: false,
            session_interval: DEFAULT_SESSION_EXPIRES,
            min_se: MIN_MIN_SE,
            refresher: SessionRefresher::Uac,
            refreshing: false,
            last_refresh: now,
        }
    }

    pub fn new(mode: SessionTimerMode, now: u64) -> (r: SessionTimerState)
        ensures
            r == Self::idle(mode, now),
    {
        SessionTimerState {
            mode,
            enabled: false,
            active: false,
            session_interval: DEFAULT_SESSION_EXPIRES,
            min_se: MIN_MIN_SE,
            refresher: SessionRefresher::Uac,
            refreshing: false,
            last_refresh: now,
        }
    }
}

pub open spec fn larger(a: u64, b: u64) -> u64 {
    if a < b {
        b
    } else {
        a
    }
}

/// What a request says of its session interval.
#[derive(Clone, Copy, PartialEq, Eq, Debug, Structural)]
pub enum SessionExpires {
    Absent,
    /// The header is there and cannot be read.
    Unreadable,
    Interval { secs: u64 },
}

/// The smallest interval accepted for a request that asks for `min_se`.
pub open spec fn accepted_min_se(min_se: Option<u64>) -> u64 {
    match min_se {
        Some(secs) => larger(MIN_MIN_SE, secs),
        None => MIN_MIN_SE,
    }
}

/// The timer that is agreed on with the caller, where its interval is accepted.
pub open spec fn server_timer(
    mode: SessionTimerMode,
    min_se: Option<u64>,
    expires: SessionExpires,
    refresher: SessionRefresher,
    default_expires: u64,
    now: u64,
) -> Option<SessionTimerState> {
    let idle = SessionTimerState {
        min_se: accepted_min_se(min_se),
        ..SessionTimerState::idle(mode, now)
    };
    match expires {
        SessionExpires::Interval { secs } => if secs < accepted_min_se(min_se) {
            None
        } else {
            Some(
                SessionTimerState {
                    enabled: true,
                    active: true,
                    session_interval: secs,
                    refresher,
                    ..idle
                },
            )
        },
        SessionExpires::Absent if mode == SessionTimerMode::Always => Some(
            SessionTimerState {
                enabled: true,
                active: true,
                session_interval: larger(default_expires, accepted_min_se(min_se)),
                refresher,
                ..idle
            },
        ),
        _ => Some(idle),
    }
}

/// The timer of the caller's dialog, from what the initial request says. An interval
/// below the accepted one is refused, with the accepted one as the detail. A request
/// without interval gets a timer only where sessions always have one. `refresher` is the
/// side that was selected to refresh.
pub fn init_server_timer(
    mode: SessionTimerMode,
    min_se: Option<u64>,
    expires: SessionExpires,
    refresher: SessionRefresher,
    default_expires: u64,
    now: u64,
) -> (r: Result<SessionTimerState, CalleeError>)
    ensures
        match server_timer(mode, min_se, expires, refresher, default_expires, now) {
            Some(timer) => r == Ok::<SessionTimerState, CalleeError>(timer),
            None => r matches Err(e) && e.0 == 422 && e.1@ == reason_phrase(422) && e.2 is Some
                && e.2->0@ == text::decimal(accepted_min_se(min_se) as nat),
        },
{
    let mut timer = SessionTimerState::new(mode, now);
    if let Some(secs) = min_se {
        if timer.min_se < secs {
            timer.min_se = secs;
        }
    }
    match expires {
        SessionExpires::Interval { secs } => {
            if secs < timer.min_se {
                let detail = text::decimal_text(timer.min_se);
                return Err(callee_error(422, &detail));
            }
            timer.enabled = true;
            timer.active = true;
            timer.session_interval = secs;
            timer.refresher = refresher;
        },
        SessionExpires::Unreadable => {},
        SessionExpires::Absent => {
            if mode == SessionTimerMode::Always {
                timer.enabled = true;
                timer.active = true;
                timer.session_interval = if default_expires < timer.min_se {
                    timer.min_se
                } else {
                    default_expires
                };
                timer.refresher = refresher;
            }
        },
    }
    Ok(timer)
}

/// The timer of the callee's dialog, from what its answer says: the interval that it
/// gives; else the requested one, which runs only where sessions always have a timer.
pub open spec fn callee_timer(
    mode: SessionTimerMode,
    answered: Option<(u64, SessionRefresher)>,
    requested_session_interval: u64,
    now: u64,
) -> SessionTimerState {
    match answered {
        Some((secs, refresher)) => SessionTimerState {
            enabled: true,
            active: true,
            session_interval: secs,
            refresher,
            ..SessionTimerState::idle(mode, now)
        },
        None => SessionTimerState {
            enabled: mode == SessionTimerMode::Always,
            active: mode == SessionTimerMode::Always,
            session_interval: requested_session_interval,
            ..SessionTimerState::idle(mode, now)
        },
    }
}

/// Makes the timer of the callee's dialog.
pub fn init_callee_timer(
    mode: SessionTimerMode,
    answered: Option<(u64, SessionRefresher)>,
    requested_session_interval: u64,
    now: u64,
) -> (r: SessionTimerState)
    ensures
        r == callee_timer(mode, answered, requested_session_interval, now),
{
    let mut timer = SessionTimerState::new(mode, now);
    match answered {
        Some((secs, refresher)) => {
            timer.enabled = true;
            timer.active = true;
            timer.session_interval = secs;
            timer.refresher = refresher;
        },
        None => {
            timer.session_interval = requested_session_interval;
            if mode == SessionTimerMode::Always {
                timer.enabled = true;
                timer.active = true;
            }
        },
    }
    timer
}

/// Whatever is agreed on a caller's timer, the interval of one that runs is no smaller
/// than the smallest that the caller asked for, nor than the smallest allowed.
pub proof fn server_timer_respects_min_se(
    mode: SessionTimerMode,
    min_se: Option<u64>,
    expires: SessionExpires,
    refresher: SessionRefresher,
    default_expires: u64,
    now: u64,
)
    ensures
        server_timer(mode, min_se, expires, refresher, default_expires, now) matches Some(timer)
            ==> timer.active ==> {
            &&& timer.session_interval >= timer.min_se
            &&& timer.session_interval >= MIN_MIN_SE
            &&& min_se matches Some(m) ==> timer.session_interval >= m
        },
{
}

/// How the refresh of a session goes on.
#[derive(Clone, Copy, PartialEq, Eq, Debug, Structural)]
pub enum RefreshStep {
    /// An UPDATE is sent, for the first time or with a larger interval.
    Update { again: bool },
    /// A re-INVITE is sent, for the first time or with a larger interval.
    Reinvite { again: bool },
    Refreshed,
    Failed,
}

/// What came back for a refresh request.
#[derive(Clone, Copy, PartialEq, Eq, Debug, Structural)]
pub enum RefreshReply {
    /// A response, with the smallest interval that it accepts, where it gives one.
    Response { status: u16, min_se: Option<u64> },
    TimedOut,
    SendFailed,
}

/// The peer refuses the interval and says which one it accepts.
pub open spec fn asks_larger_interval(reply: RefreshReply) -> Option<u64> {
    match reply {
        RefreshReply::Response { status: 422, min_se } => min_se,
        _ => None,
    }
}

pub open spec fn reply_status(reply: RefreshReply) -> Option<u16> {
    match reply {
        RefreshReply::Response { status, .. } => Some(status),
        _ => None,
    }
}

pub open spec fn reply_succeeds(reply: RefreshReply) -> bool {
    reply_status(reply) matches Some(status) && successful(status)
}

pub open spec fn method_unknown(reply: RefreshReply) -> bool {
    reply_status(reply) == Some(405u16) || reply_status(reply) == Some(501u16)
}

/// The step after a reply, for a dialog with a timer.
pub open spec fn refresh_step(step: RefreshStep, reply: RefreshReply) -> RefreshStep {
    match step {
        RefreshStep::Update { again } => if reply_succeeds(reply) {
            RefreshStep::Refreshed
        } else if method_unknown(reply) {
            RefreshStep::Reinvite { again: false }
        } else if !again && asks_larger_interval(reply) is Some {
            RefreshStep::Update { again: true }
        } else {
            RefreshStep::Failed
        },
        RefreshStep::Reinvite { again } => if reply_succeeds(reply) {
            RefreshStep::Refreshed
        } else if !again && asks_larger_interval(reply) is Some {
            RefreshStep::Reinvite { again: true }
        } else {
            RefreshStep::Failed
        },
        _ => step,
    }
}

/// The timers of a call's dialogs.
pub struct TimerTable {
    pub timers: Table<SessionTimerState>,
    /// The dialogs whose peer does not know UPDATE.
    pub update_disabled: Table<bool>,
    /// When the timer of a dialog is looked at next, in milliseconds.
    pub due: Table<u64>,
}

/// The timer with its interval raised to what the peer accepts.
pub open spec fn raised(timer: SessionTimerState, min_se: u64) -> SessionTimerState {
    SessionTimerState {
        min_se: larger(timer.min_se, min_se),
        session_interval: larger(timer.session_interval, min_se),
        ..timer
    }
}

/// What became of the timer of a dialog after a reply to its refresh.
pub open spec fn timer_after(timer: SessionTimerState, step: RefreshStep, reply: RefreshReply) -> SessionTimerState {
    match refresh_step(step, reply) {
        RefreshStep::Failed => SessionTimerState { refreshing: false, ..timer },
        RefreshStep::Refreshed => timer,
        RefreshStep::Update { .. } => raised(timer, asks_larger_interval(reply)->0),
        RefreshStep::Reinvite { again: true } => raised(timer, asks_larger_interval(reply)->0),
        RefreshStep::Reinvite { again: false } => timer,
    }
}

impl TimerTable {
    pub open spec fn wf(self) -> bool {
        self.timers.wf() && self.update_disabled.wf() && self.due.wf()
    }

    pub fn new() -> (r: TimerTable)
        ensures
            r.wf(),
            forall|k: Seq<char>| #[trigger] r.timers.value(k) is None,
            forall|k: Seq<char>| #[trigger] r.update_disabled.value(k) is None,
            forall|k: Seq<char>| #[trigger] r.due.value(k) is None,
    {
        TimerTable { timers: Table::new(), update_disabled: Table::new(), due: Table::new() }
    }

    /// How the refresh of a dialog starts: with UPDATE, unless the peer is known not to
    /// know it. Without a timer there is nothing to refresh.
    pub fn first_refresh_step(&self, dialog_id: &str) -> (r: RefreshStep)
        ensures
            r == (if self.timers.value(dialog_id@) is None {
                RefreshStep::Failed
            } else if self.update_disabled.value(dialog_id@) is None {
                RefreshStep::Update { again: false }
            } else {
                RefreshStep::Reinvite { again: false }
            }),
    {
        if !self.timers.contains_key(dialog_id) {
            RefreshStep::Failed
        } else if !self.update_disabled.contains_key(dialog_id) {
            RefreshStep::Update { again: false }
        } else {
            RefreshStep::Reinvite { again: false }
        }
    }

    /// Takes the reply to a refresh request and says what follows. A peer that does not
    /// know UPDATE is not sent it again; an interval that the peer finds too small is
    /// raised; a refresh that failed is no longer pending.
    pub fn on_refresh_reply(&mut self, dialog_id: &str, step: RefreshStep, reply: RefreshReply) -> (r: RefreshStep)
        requires
            old(self).timers.value(dialog_id@) is Some,
            step is Update || step is Reinvite,
        ensures
            r == refresh_step(step, reply),
            forall|k: Seq<char>|
                #[trigger] final(self).timers.value(k) == if k == dialog_id@ {
                    Some(timer_after(old(self).timers.value(k)->0, step, reply))
                } else {
                    old(self).timers.value(k)
                },
            forall|k: Seq<char>|
                #[trigger] final(self).update_disabled.value(k) == if k == dialog_id@ && step is Update
                    && method_unknown(reply) {
                    Some(true)
                } else {
                    old(self).update_disabled.value(k)
                },
            final(self).due == old(self).due,
            old(self).wf() ==> final(self).wf(),
    {
        let mut timer = match self.timers.get(dialog_id) {
            Some(timer) => *timer,
            None => {
                return RefreshStep::Failed;
            },
        };
        let is_update = match step {
            RefreshStep::Update { .. } => true,
            _ => false,
        };
        let again = match step {
            RefreshStep::Update { again } => again,
            RefreshStep::Reinvite { again } => again,
            _ => false,
        };
        let (status, min_se) = match reply {
            RefreshReply::Response { status, min_se } => (Some(status), min_se),
            _ => (None, None),
        };
        let mut next = RefreshStep::Failed;
        if let Some(status) = status {
            if is_successful(status) {
                next = RefreshStep::Refreshed;
            } else if is_update && should_fallback_to_reinvite(status) {
                next = RefreshStep::Reinvite { again: false };
                let key = dialog_id.to_owned();
                self.update_disabled.insert(key, true);
            } else if status == 422 && !again {
                if let Some(secs) = min_se {
                    if timer.min_se < secs {
                        timer.min_se = secs;
                    }
                    if timer.session_interval < secs {
                        timer.session_interval = secs;
                    }
                    next = if is_update {
                        RefreshStep::Update { again: true }
                    } else {
                        RefreshStep::Reinvite { again: true }
                    };
                }
            }
        }
        if next == RefreshStep::Failed {
            timer.refreshing = false;
        }
        let key = dialog_id.to_owned();
        self.timers.insert(key, timer);
        next
    }

    /// Takes what a success made of the timer of a dialog: `applied` is the timer after
    /// the response was read, and `accepted` whether it could be agreed to. One that could
    /// not be agreed to leaves the session without its refresh, which is then no longer
    /// pending where it went by UPDATE.
    pub fn complete_refresh(
        &mut self,
        dialog_id: &str,
        step: RefreshStep,
        applied: SessionTimerState,
        accepted: bool,
    ) -> (r: RefreshStep)
        requires
            old(self).wf(),
        ensures
            final(self).wf(),
            r == if accepted || old(self).timers.value(dialog_id@) is None {
                RefreshStep::Refreshed
            } else {
                RefreshStep::Failed
            },
            forall|k: Seq<char>|
                #[trigger] final(self).timers.value(k) == if k == dialog_id@ && old(self).timers.value(k) is Some {
                    Some(
                        SessionTimerState {
                            refreshing: applied.refreshing && (accepted || !(step is Update)),
                            ..applied
                        },
                    )
                } else {
                    old(self).timers.value(k)
                },
            final(self).update_disabled == old(self).update_disabled,
            final(self).due == old(self).due,
    {
        if self.timers.get(dialog_id).is_none() {
            return RefreshStep::Refreshed;
        }
        let mut timer = applied;
        let is_update = match step {
            RefreshStep::Update { .. } => true,
            _ => false,
        };
        if !accepted && is_update {
            timer.refreshing = false;
        }
        let key = dialog_id.to_owned();
        self.timers.insert(key, timer);
        if accepted {
            RefreshStep::Refreshed
        } else {
            RefreshStep::Failed
        }
    }

    /// Gives a dialog its timer. It is not looked at before a time is set for that.
    pub fn start(&mut self, dialog_id: &str, timer: SessionTimerState)
        requires
            old(self).wf(),
        ensures
            final(self).wf(),
            timer_started(*old(self), *final(self), dialog_id@, timer),
    {
        let key = dialog_id.to_owned();
        self.timers.insert(key, timer);
        let _gone = self.due.remove(dialog_id);
    }

    /// A request of the peer was read into the timer of its dialog: `applied` is the timer
    /// after that, and `accepted` whether its interval could be agreed to. Only then is the
    /// timer looked at at another time, which is `due` for one that runs.
    pub fn on_update(
        &mut self,
        dialog_id: &str,
        applied: SessionTimerState,
        accepted: bool,
        due: Option<u64>,
    )
        requires
            old(self).wf(),
            old(self).timers.value(dialog_id@) is Some,
        ensures
            final(self).wf(),
            forall|k: Seq<char>|
                #[trigger] final(self).timers.value(k) == if k == dialog_id@ {
                    Some(applied)
                } else {
                    old(self).timers.value(k)
                },
            forall|k: Seq<char>|
                #[trigger] final(self).due.value(k) == if k == dialog_id@ && accepted {
                    due_of(Some(applied), due)
                } else {
                    old(self).due.value(k)
                },
            final(self).update_disabled == old(self).update_disabled,
    {
        let key = dialog_id.to_owned();
        self.timers.insert(key, applied);
        if accepted {
            self.schedule(dialog_id, due);
        }
    }

    /// Sets when the timer of a dialog is looked at next, or that it is not. A timer that
    /// does not run is not looked at.
    pub fn schedule(&mut self, dialog_id: &str, due: Option<u64>)
        requires
            old(self).wf(),
        ensures
            final(self).wf(),
            forall|k: Seq<char>|
                #[trigger] final(self).due.value(k) == if k == dialog_id@ {
                    due_of(old(self).timers.value(k), due)
                } else {
                    old(self).due.value(k)
                },
            final(self).timers == old(self).timers,
            final(self).update_disabled == old(self).update_disabled,
    {
        let due = if self.runs(dialog_id) {
            due
        } else {
            None
        };
        match due {
            Some(at) => {
                let key = dialog_id.to_owned();
                self.due.insert(key, at);
            },
            None => {
                let _gone = self.due.remove(dialog_id);
            },
        }
    }

    /// Forgets everything about a dialog.
    pub fn forget(&mut self, dialog_id: &str)
        requires
            old(self).wf(),
        ensures
            final(self).wf(),
            forall|k: Seq<char>|
                #[trigger] final(self).timers.value(k) == if k == dialog_id@ {
                    None
                } else {
                    old(self).timers.value(k)
                },
            forall|k: Seq<char>|
                #[trigger] final(self).update_disabled.value(k) == if k == dialog_id@ {
                    None
                } else {
                    old(self).update_disabled.value(k)
                },
            forall|k: Seq<char>|
                #[trigger] final(self).due.value(k) == if k == dialog_id@ {
                    None
                } else {
                    old(self).due.value(k)
                },
    {
        let _a = self.due.remove(dialog_id);
        let _b = self.timers.remove(dialog_id);
        let _c = self.update_disabled.remove(dialog_id);
    }

    /// What is done when the timer of a dialog comes due. `clock` says what the time
    /// means for it. A refresh that is started is marked as pending.
    pub fn next_timer_action(&mut self, dialog_id: &str, clock: TimerClock) -> (r: Option<TimerAction>)
        requires
            old(self).wf(),
        ensures
            final(self).wf(),
            r == timer_action(old(self).timers.value(dialog_id@), clock),
            forall|k: Seq<char>|
                #[trigger] final(self).due.value(k) == if k == dialog_id@ {
                    None
                } else {
                    old(self).due.value(k)
                },
            forall|k: Seq<char>|
                #[trigger] final(self).timers.value(k) == if k == dialog_id@ && r == Some(
                    TimerAction::Refresh,
                ) {
                    Some(
                        SessionTimerState {
                            refreshing: true,
                            ..old(self).timers.value(k)->0
                        },
                    )
                } else {
                    old(self).timers.value(k)
                },
            final(self).update_disabled == old(self).update_disabled,
    {
        let _due = self.due.remove(dialog_id);
        let timer = match self.timers.get(dialog_id) {
            Some(timer) => *timer,
            None => {
                return None;
            },
        };
        if clock.expired {
            return Some(TimerAction::Expired);
        }
        if clock.our_turn && clock.refresh_due && !timer.refreshing {
            let mut timer = timer;
            timer.refreshing = true;
            let key = dialog_id.to_owned();
            self.timers.insert(key, timer);
            return Some(TimerAction::Refresh);
        }
        None
    }

    /// Whether a success may carry the headers of the timer: it exists, is enabled and
    /// runs.
    pub fn runs(&self, dialog_id: &str) -> (r: bool)
        ensures
            r == is_running(self.timers.value(dialog_id@)),
    {
        match self.timers.get(dialog_id) {
            Some(t) => t.enabled && t.active,
            None => false,
        }
    }
}

/// The timer exists, is enabled and runs.
pub open spec fn is_running(timer: Option<SessionTimerState>) -> bool {
    timer matches Some(t) && t.enabled && t.active
}

/// When a timer is looked at, where that is at this time if it runs.
pub open spec fn due_of(timer: Option<SessionTimerState>, due: Option<u64>) -> Option<u64> {
    if is_running(timer) {
        due
    } else {
        None
    }
}

/// The dialog has this timer, which is not looked at yet; nothing else differs.
pub open spec fn timer_started(
    before: TimerTable,
    after: TimerTable,
    dialog: Seq<char>,
    timer: SessionTimerState,
) -> bool {
    &&& forall|k: Seq<char>|
        #[trigger] after.timers.value(k) == if k == dialog {
            Some(timer)
        } else {
            before.timers.value(k)
        }
    &&& forall|k: Seq<char>|
        #[trigger] after.due.value(k) == if k == dialog {
            None
        } else {
            before.due.value(k)
        }
    &&& after.update_disabled == before.update_disabled
}

/// A timer that does not run is never looked at, whatever time is set for that.
pub proof fn idle_timer_is_not_looked_at(timer: SessionTimerState, due: Option<u64>)
    requires
        !timer.enabled || !timer.active,
    ensures
        due_of(Some(timer), due) is None,
{
}

/// What the present time means for a timer.
#[derive(Clone, Copy, PartialEq, Eq, Debug, Structural)]
pub struct TimerClock {
    /// The session was not refreshed in time.
    pub expired: bool,
    /// This side refreshes the session.
    pub our_turn: bool,
    /// The time to refresh has come.
    pub refresh_due: bool,
}

#[derive(Clone, Copy, PartialEq, Eq, Debug, Structural)]
pub enum TimerAction {
    Refresh,
    Expired,
}

/// What a timer that comes due asks for.
pub open spec fn timer_action(timer: Option<SessionTimerState>, clock: TimerClock) -> Option<TimerAction> {
    match timer {
        None => None,
        Some(t) => if clock.expired {
            Some(TimerAction::Expired)
        } else if clock.our_turn && clock.refresh_due && !t.refreshing {
            Some(TimerAction::Refresh)
        } else {
            None
        },
    }
}

/// The number of requests that a refresh may still send.
pub open spec fn requests_left(step: RefreshStep) -> nat {
    match step {
        RefreshStep::Update { again: false } => 4,
        RefreshStep::Update { again: true } => 3,
        RefreshStep::Reinvite { again: false } => 2,
        RefreshStep::Reinvite { again: true } => 1,
        _ => 0,
    }
}

/// A refresh ends after at most four requests, and once it goes over to re-INVITE it
/// never returns to UPDATE.
pub proof fn refresh_ends(step: RefreshStep, reply: RefreshReply)
    ensures
        requests_left(step) > 0 ==> requests_left(refresh_step(step, reply)) < requests_left(step),
        step is Reinvite ==> !(refresh_step(step, reply) is Update),
        requests_left(step) == 0 <==> step == RefreshStep::Refreshed || step == RefreshStep::Failed,
{
}

/// A raised timer accepts what the peer accepts, and never shrinks.
pub proof fn raised_timer_is_acceptable(timer: SessionTimerState, min_se: u64)
    ensures
        raised(timer, min_se).session_interval >= min_se,
        raised(timer, min_se).min_se >= min_se,
        raised(timer, min_se).session_interval >= timer.session_interval,
        raised(timer, min_se).min_se >= timer.min_se,
{
}

/// A dialog other than the caller's was opened by this side.
pub fn is_uac_dialog(dialog_id: &str, caller_dialog_id: &str) -> (r: bool)
    ensures
        r == (dialog_id@ != caller_dialog_id@),
{
    !text::same(dialog_id, caller_dialog_id)
}

/// The description that a refresh repeats: what the caller was answered, or what the
/// callee was offered.
pub fn refresh_body(media: &MediaState, to_callee: bool) -> (r: Option<String>)
    ensures
        r == (if to_callee {
            media.callee_offer
        } else {
            media.answer
        }),
{
    if to_callee {
        media.callee_offer.clone()
    } else {
        media.answer.clone()
    }
}

/// Where the callee's answer gives an interval, the timer of its dialog runs with exactly
/// that interval and that refresher, whatever was requested.
pub proof fn answered_interval_is_kept(
    mode: SessionTimerMode,
    secs: u64,
    refresher: SessionRefresher,
    requested: u64,
    other_request: u64,
    now: u64,
)
    ensures
        ({
            let timer = callee_timer(mode, Some((secs, refresher)), requested, now);
            &&& timer.enabled && timer.active
            &&& timer.session_interval == secs
            &&& timer.refresher == refresher
            &&& timer.last_refresh == now && !timer.refreshing && timer.mode == mode
            &&& timer == callee_timer(mode, Some((secs, refresher)), other_request, now)
        }),
{
}

/// Where the callee's answer gives no interval, its timer holds the requested one, and
/// runs exactly where sessions always have a timer.
pub proof fn unanswered_interval_is_the_requested(mode: SessionTimerMode, requested: u64, now: u64)
    ensures
        ({
            let timer = callee_timer(mode, None, requested, now);
            &&& timer.session_interval == requested
            &&& timer.enabled == timer.active
            &&& timer.active <==> mode == SessionTimerMode::Always
            &&& timer.last_refresh == now && !timer.refreshing && timer.mode == mode
        }),
{
}

/// The smallest interval accepted is the smallest that satisfies both sides: never below
/// ninety seconds nor below what the request asks for, and no larger than one of them.
pub proof fn accepted_interval_is_the_smallest(min_se: Option<u64>)
    ensures
        accepted_min_se(min_se) >= 90,
        min_se matches Some(m) ==> accepted_min_se(min_se) >= m && (accepted_min_se(min_se) == 90
            || accepted_min_se(min_se) == m),
        min_se is None ==> accepted_min_se(min_se) == 90,
{
}

/// A caller's interval is refused exactly where it is below ninety seconds or below the
/// smallest that the same request names; one that is accepted is kept to the second, with
/// the refresher that was selected. A request without an interval is never refused.
pub proof fn caller_interval_is_kept_or_refused(
    mode: SessionTimerMode,
    min_se: Option<u64>,
    secs: u64,
    refresher: SessionRefresher,
    default_expires: u64,
    now: u64,
)
    ensures
        ({
            let agreed = server_timer(
                mode,
                min_se,
                SessionExpires::Interval { secs },
                refresher,
                default_expires,
                now,
            );
            &&& agreed is None <==> secs < 90 || (min_se matches Some(m) && secs < m)
            &&& agreed matches Some(timer) ==> timer.active && timer.enabled && timer.session_interval
                == secs && timer.refresher == refresher && timer.last_refresh == now
                && !timer.refreshing && timer.mode == mode
        }),
        server_timer(mode, min_se, SessionExpires::Absent, refresher, default_expires, now) is Some,
        server_timer(mode, min_se, SessionExpires::Unreadable, refresher, default_expires, now) is Some,
{
}

/// Without an interval the caller's timer runs exactly where sessions always have one,
/// with the default interval where that is accepted, else with the smallest accepted. An
/// interval that cannot be read starts no timer.
pub proof fn missing_interval_gets_the_default(
    mode: SessionTimerMode,
    min_se: Option<u64>,
    refresher: SessionRefresher,
    default_expires: u64,
    now: u64,
)
    ensures
        ({
            let timer = server_timer(
                mode,
                min_se,
                SessionExpires::Absent,
                refresher,
                default_expires,
                now,
            )->0;
            &&& timer.enabled == timer.active
            &&& timer.active <==> mode == SessionTimerMode::Always
            &&& timer.active ==> timer.session_interval >= default_expires && (
            timer.session_interval == default_expires || (timer.session_interval == timer.min_se
                && default_expires < timer.min_se)) && timer.refresher == refresher
        }),
        !server_timer(
            mode,
            min_se,
            SessionExpires::Unreadable,
            refresher,
            default_expires,
            now,
        )->0.active,
        !server_timer(
            mode,
            min_se,
            SessionExpires::Unreadable,
            refresher,
            default_expires,
            now,
        )->0.enabled,
{
}

/// A new timer does not run. It would run for half an hour, accepts no less than ninety
/// seconds, and counts from now.
pub proof fn new_timer_does_not_run(mode: SessionTimerMode, now: u64)
    ensures
        !SessionTimerState::idle(mode, now).enabled,
        !SessionTimerState::idle(mode, now).active,
        !SessionTimerState::idle(mode, now).refreshing,
        SessionTimerState::idle(mode, now).session_interval == 30 * 60,
        SessionTimerState::idle(mode, now).min_se == 90,
        SessionTimerState::idle(mode, now).refresher == SessionRefresher::Uac,
        SessionTimerState::idle(mode, now).last_refresh == now,
        SessionTimerState::idle(mode, now).mode == mode,
{
}

/// A success ends a refresh, by whichever request it came; no other reply does, and a
/// request that was not answered fails it.
pub proof fn refresh_succeeds_with_a_success(step: RefreshStep, status: u16, min_se: Option<u64>)
    requires
        step is Update || step is Reinvite,
    ensures
        refresh_step(step, RefreshReply::Response { status, min_se }) == RefreshStep::Refreshed
            <==> 200 <= status <= 299,
        refresh_step(step, RefreshReply::TimedOut) == RefreshStep::Failed,
        refresh_step(step, RefreshReply::SendFailed) == RefreshStep::Failed,
{
}

/// Only a peer that does not know UPDATE, by 405 or 501, is sent a re-INVITE in its
/// place; a re-INVITE that it does not know fails.
pub proof fn unknown_update_becomes_reinvite(again: bool, status: u16, min_se: Option<u64>)
    ensures
        refresh_step(
            RefreshStep::Update { again },
            RefreshReply::Response { status, min_se },
        ) is Reinvite <==> status == 405 || status == 501,
        status == 405 || status == 501 ==> refresh_step(
            RefreshStep::Update { again },
            RefreshReply::Response { status, min_se },
        ) == (RefreshStep::Reinvite { again: false }) && refresh_step(
            RefreshStep::Reinvite { again },
            RefreshReply::Response { status, min_se },
        ) == RefreshStep::Failed,
{
}

/// A peer that refuses the interval with 422 and names a smallest one is asked once more
/// by the same request; the second refusal fails the refresh, and so does one that names
/// none.
pub proof fn refused_interval_is_raised_once(min_se: u64, status: u16)
    ensures
        refresh_step(
            RefreshStep::Update { again: false },
            RefreshReply::Response { status: 422, min_se: Some(min_se) },
        ) == (RefreshStep::Update { again: true }),
        refresh_step(
            RefreshStep::Reinvite { again: false },
            RefreshReply::Response { status: 422, min_se: Some(min_se) },
        ) == (RefreshStep::Reinvite { again: true }),
        refresh_step(
            RefreshStep::Update { again: true },
            RefreshReply::Response { status: 422, min_se: Some(min_se) },
        ) == RefreshStep::Failed,
        refresh_step(
            RefreshStep::Reinvite { again: true },
            RefreshReply::Response { status: 422, min_se: Some(min_se) },
        ) == RefreshStep::Failed,
        forall|step: RefreshStep|
            #![trigger refresh_step(step, RefreshReply::Response { status: 422, min_se: None })]
            step is Update || step is Reinvite ==> refresh_step(
                step,
                RefreshReply::Response { status: 422, min_se: None },
            ) == RefreshStep::Failed,
        status >= 300 && status != 405 && status != 422 && status != 501 ==> refresh_step(
            RefreshStep::Update { again: false },
            RefreshReply::Response { status, min_se: Some(min_se) },
        ) == RefreshStep::Failed && refresh_step(
            RefreshStep::Reinvite { again: false },
            RefreshReply::Response { status, min_se: Some(min_se) },
        ) == RefreshStep::Failed,
{
}

/// After a reply the timer keeps everything but what the reply speaks of: a refusal
/// raises its two intervals just to what the peer accepts, a failure takes the refresh
/// off, and anything else leaves it alone.
pub proof fn reply_changes_no_more_than_it_says(
    timer: SessionTimerState,
    step: RefreshStep,
    reply: RefreshReply,
)
    requires
        step is Update || step is Reinvite,
    ensures
        ({
            let after = timer_after(timer, step, reply);
            &&& after.mode == timer.mode && after.enabled == timer.enabled && after.active
                == timer.active && after.refresher == timer.refresher && after.last_refresh
                == timer.last_refresh
            &&& refresh_step(step, reply) == RefreshStep::Failed ==> !after.refreshing
                && after.session_interval == timer.session_interval && after.min_se == timer.min_se
            &&& refresh_step(step, reply) != RefreshStep::Failed ==> after.refreshing
                == timer.refreshing
            &&& refresh_step(step, reply) == RefreshStep::Refreshed ==> after == timer
            &&& step == (RefreshStep::Update { again: false }) ==> (
            reply matches RefreshReply::Response { status: 422, min_se: Some(secs) } ==> after.session_interval >= secs && (
            after.session_interval == secs || after.session_interval == timer.session_interval)
                && after.session_interval >= timer.session_interval && after.min_se >= secs && (
            after.min_se == secs || after.min_se == timer.min_se) && after.min_se >= timer.min_se)
            &&& step == (RefreshStep::Reinvite { again: false }) ==> (
            reply matches RefreshReply::Response { status: 422, min_se: Some(secs) } ==> after.session_interval >= secs && (
            after.session_interval == secs || after.session_interval == timer.session_interval)
                && after.session_interval >= timer.session_interval && after.min_se >= secs && (
            after.min_se == secs || after.min_se == timer.min_se) && after.min_se >= timer.min_se)
            &&& step is Update && (reply matches RefreshReply::Response { status, .. } && (status == 405
                || status == 501)) ==> after == timer
        }),
{
}

/// A session that was not refreshed in time expires, whosever turn it was. Else this side
/// refreshes it exactly when it is its turn and the time has come, and not while a
/// refresh is still pending. Without a timer nothing is done.
pub proof fn due_timer_expires_or_refreshes(timer: SessionTimerState, clock: TimerClock)
    ensures
        timer_action(Some(timer), clock) == Some(TimerAction::Expired) <==> clock.expired,
        timer_action(Some(timer), clock) == Some(TimerAction::Refresh) <==> !clock.expired
            && clock.our_turn && clock.refresh_due && !timer.refreshing,
        timer_action(None, clock) is None,
        timer_action(
            Some(SessionTimerState { refreshing: true, ..timer }),
            clock,
        ) != Some(TimerAction::Refresh),
{
}

/// A timer that runs is looked at at the time that was set for it.
pub proof fn running_timer_is_looked_at_when_set(timer: SessionTimerState, due: Option<u64>)
    requires
        timer.enabled && timer.active,
    ensures
        due_of(Some(timer), due) == due,
        is_running(Some(timer)),
        !is_running(None),
        !is_running(Some(SessionTimerState { enabled: false, ..timer })),
        !is_running(Some(SessionTimerState { active: false, ..timer })),
{
}

/// A dialog that is given a timer has that one, not looked at before a time is set; every
/// other dialog keeps its timer and its time.
pub proof fn started_timer_touches_one_dialog(
    before: TimerTable,
    after: TimerTable,
    dialog: Seq<char>,
    timer: SessionTimerState,
    other: Seq<char>,
)
    requires
        timer_started(before, after, dialog, timer),
    ensures
        after.timers.value(dialog) == Some(timer),
        after.due.value(dialog) is None,
        other != dialog ==> after.timers.value(other) == before.timers.value(other)
            && after.due.value(other) == before.due.value(other),
        after.update_disabled.value(other) == before.update_disabled.value(other),
{
}

/// A dialog without a timer cannot be refreshed; one with a timer is refreshed by UPDATE,
/// unless its peer has turned UPDATE down.
pub proof fn refresh_goes_by_update_first(set: TimerTable, dialog_id: &str, r: RefreshStep)
    requires
        call_ensures(TimerTable::first_refresh_step, (&set, dialog_id), r),
    ensures
        r is Failed <==> set.timers.value(dialog_id@) is None,
        set.timers.value(dialog_id@) is Some && set.update_disabled.value(dialog_id@) is None
            ==> r == (RefreshStep::Update { again: false }),
        set.timers.value(dialog_id@) is Some && set.update_disabled.value(dialog_id@) is Some
            ==> r == (RefreshStep::Reinvite { again: false }),
{
}

/// The dialog of the caller is the one that the other side opened; a refresh carries to the
/// callee what was offered to it, and to the caller what it was answered.
pub proof fn refresh_repeats_what_was_said(
    media: MediaState,
    to_callee: Option<String>,
    to_caller: Option<String>,
    dialog_id: &str,
    caller_dialog_id: &str,
    uac: bool,
)
    requires
        call_ensures(refresh_body, (&media, true), to_callee),
        call_ensures(refresh_body, (&media, false), to_caller),
        call_ensures(is_uac_dialog, (dialog_id, caller_dialog_id), uac),
    ensures
        to_callee == media.callee_offer,
        to_caller == media.answer,
        uac <==> dialog_id@ != caller_dialog_id@,
{
}

/// Timers are on in every mode but the one that turns them off.
pub proof fn only_off_is_off(mode: SessionTimerMode, r: bool)
    requires
        call_ensures(SessionTimerMode::is_enabled, (&mode,), r),
    ensures
        mode == SessionTimerMode::Off <==> !r,
{
}

/// The timer of the callee's dialog, when it is set up: an answered interval and refresher
/// are taken as they are, an unanswered interval is the requested one.
pub proof fn callee_timer_takes_the_answer(
    mode: SessionTimerMode,
    secs: u64,
    refresher: SessionRefresher,
    requested: u64,
    now: u64,
    answered: SessionTimerState,
    unanswered: SessionTimerState,
)
    requires
        call_ensures(init_callee_timer, (mode, Some((secs, refresher)), requested, now), answered),
        call_ensures(init_callee_timer, (mode, None, requested, now), unanswered),
    ensures
        answered.session_interval == secs && answered.refresher == refresher,
        answered.active && answered.enabled && answered.last_refresh == now,
        unanswered.session_interval == requested,
        unanswered.active <==> mode == SessionTimerMode::Always,
        unanswered.enabled <==> mode == SessionTimerMode::Always,
{
    answered_interval_is_kept(mode, secs, refresher, requested, requested, now);
    unanswered_interval_is_the_requested(mode, requested, now);
}

/// A dialog that is forgotten has no timer, nothing due and nothing turned down; the others
/// keep theirs.
pub proof fn forgotten_dialog_has_no_timer(other: Seq<char>)
    ensures
        forall|t: &mut TimerTable, dialog_id: &str| #[trigger]
            call_ensures(TimerTable::forget, (t, dialog_id), ()) ==> {
                &&& final(t).timers.value(dialog_id@) is None
                &&& final(t).due.value(dialog_id@) is None
                &&& final(t).update_disabled.value(dialog_id@) is None
                &&& other != dialog_id@ ==> final(t).timers.value(other) == t.timers.value(other)
                    && final(t).due.value(other) == t.due.value(other)
                    && final(t).update_disabled.value(other) == t.update_disabled.value(other)
            },
{
}

/// A refresh that was accepted, or whose timer is gone, is done; one that was not has failed,
/// and an UPDATE that failed no longer keeps the timer busy.
pub proof fn refused_refresh_has_failed()
    ensures
        forall|
            t: &mut TimerTable,
            id: &str,
            step: RefreshStep,
            applied: SessionTimerState,
            accepted: bool,
            r: RefreshStep,
        | #[trigger]
            call_ensures(TimerTable::complete_refresh, (t, id, step, applied, accepted), r) ==> {
                &&& r is Refreshed <==> accepted || t.timers.value(id@) is None
                &&& r is Failed <==> !accepted && t.timers.value(id@) is Some
                &&& t.timers.value(id@) is None ==> final(t).timers.value(id@) is None
                &&& t.timers.value(id@) is Some ==> final(t).timers.value(id@) is Some && final(
                    t).timers.value(id@)->0.session_interval == applied.session_interval
                &&& t.timers.value(id@) is Some && !accepted && step is Update ==> !final(
                    t).timers.value(id@)->0.refreshing
                &&& final(t).due == t.due && final(t).update_disabled == t.update_disabled
            },
        forall|
            t: &mut TimerTable,
            id: &str,
            applied: SessionTimerState,
            due: Option<u64>,
        | #[trigger]
            call_ensures(TimerTable::on_update, (t, id, applied, false, due), ()) ==> {
                &&& final(t).timers.value(id@) == Some(applied)
                &&& final(t).due.value(id@) == t.due.value(id@)
            },
{
}

/// A caller whose interval is taken gets its timer; one whose interval is too small is told
/// the smallest that is taken, with 422.
pub proof fn too_small_an_interval_is_told(
    mode: SessionTimerMode,
    min_se: Option<u64>,
    expires: SessionExpires,
    refresher: SessionRefresher,
    default_expires: u64,
    now: u64,
    r: Result<SessionTimerState, CalleeError>,
)
    requires
        call_ensures(init_server_timer, (mode, min_se, expires, refresher, default_expires, now), r),
    ensures
        r is Ok ==> server_timer(mode, min_se, expires, refresher, default_expires, now) == Some(
            r->Ok_0,
        ),
        r is Err ==> (r->Err_0).0 == 422 && (r->Err_0).2 is Some && (r->Err_0).2->0@
            == text::decimal(accepted_min_se(min_se) as nat),
        r is Err <==> server_timer(mode, min_se, expires, refresher, default_expires, now) is None,
{
}

/// A timer that is looked at is due no more until it is scheduled again; one that asks for a
/// refresh is busy with it, and no other timer changes.
pub proof fn looked_at_timer_is_due_no_more(other: Seq<char>)
    ensures
        forall|t: &mut TimerTable, id: &str, clock: TimerClock, r: Option<TimerAction>| #[trigger]
            call_ensures(TimerTable::next_timer_action, (t, id, clock), r) ==> {
                &&& final(t).due.value(id@) is None
                &&& r == Some(TimerAction::Refresh) ==> final(t).timers.value(id@) is Some
                    && final(t).timers.value(id@)->0.refreshing
                &&& r != Some(TimerAction::Refresh) ==> final(t).timers.value(id@)
                    == t.timers.value(id@)
                &&& other != id@ ==> final(t).timers.value(other) == t.timers.value(other)
                    && final(t).due.value(other) == t.due.value(other)
            },
        forall|t: &mut TimerTable, id: &str, due: Option<u64>| #[trigger]
            call_ensures(TimerTable::schedule, (t, id, due), ()) ==> {
                &&& final(t).timers == t.timers
                &&& final(t).due.value(id@) is Some ==> final(t).due.value(id@) == due
                &&& other != id@ ==> final(t).due.value(other) == t.due.value(other)
            },
{
}

} // verus!
