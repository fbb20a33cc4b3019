//! What a session keeps for the record of its call.

use crate::idset::IdSet;
use crate::status::{CallRecordHangupReason, StatusCode};
use crate::table::Table;
use vstd::prelude::*;

verus! {

/// What becomes known of a call while it goes on. Times are in milliseconds.
pub struct CallMeta {
    /// When a callee first made progress.
    pub ring_time: Option<u64>,
    pub answer_time: Option<u64>,
    pub routed_caller: Option<String>,
    pub routed_callee: Option<String>,
    pub routed_contact: Option<String>,
    pub routed_destination: Option<String>,
    pub hangup_messages: Vec<String>,
    /// The call ids of the INVITEs that were sent.
    pub callee_call_ids: IdSet,
}

/// The time of the first ring: once there is one, it stays.
pub open spec fn rung_at(ring_time: Option<u64>, now: u64) -> Option<u64> {
    if ring_time is Some {
        ring_time
    } else {
        Some(now)
    }
}

/// A later ring changes nothing: the time of the first is kept.
pub proof fn first_ring_time_is_kept(ring_time: Option<u64>, first: u64, later: u64)
    ensures
        rung_at(rung_at(ring_time, first), later) == rung_at(ring_time, first),
        rung_at(None, first) == Some(first),
{
}

impl CallMeta {
    pub open spec fn wf(self) -> bool {
        self.callee_call_ids.wf()
    }

    pub fn new() -> (r: CallMeta)
        ensures
            r.wf(),
            r.ring_time is None && r.answer_time is None,
            r.routed_caller is None && r.routed_callee is None,
            r.routed_contact is None && r.routed_destination is None,
            r.hangup_messages@.len() == 0,
            r.callee_call_ids@ == Set::<Seq<char>>::empty(),
    {
        CallMeta {
            ring_time: None,
            answer_time: None,
            routed_caller: None,
            routed_callee: None,
            routed_contact: None,
            routed_destination: None,
            hangup_messages: Vec::new(),
            callee_call_ids: IdSet::new(),
        }
    }

    /// A callee made progress.
    pub fn rang(&mut self, now: u64)
        ensures
            *final(self) == (CallMeta { ring_time: rung_at(old(self).ring_time, now), ..*old(self) }),
    {
        if self.ring_time.is_none() {
            self.ring_time = Some(now);
        }
    }

    /// For how many whole seconds the call has been answered; none where it never was.
    pub fn talk_seconds(&self, now: u64) -> (r: u64)
        ensures
            r == (match self.answer_time {
                Some(t) if t <= now => (now - t) / 1000,
                _ => 0,
            }),
    {
        match self.answer_time {
            Some(t) => if t <= now {
                (now - t) / 1000
            } else {
                0
            },
            None => 0,
        }
    }
}

/// What the record of a call is made from.
pub struct CallSessionRecordSnapshot {
    pub ring_time: Option<u64>,
    pub answer_time: Option<u64>,
    pub last_error: Option<(StatusCode, Option<String>)>,
    pub hangup_reason: Option<CallRecordHangupReason>,
    pub hangup_messages: Vec<String>,
    pub original_caller: Option<String>,
    pub original_callee: Option<String>,
    pub routed_caller: Option<String>,
    pub routed_callee: Option<String>,
    pub connected_callee: Option<String>,
    pub routed_contact: Option<String>,
    pub routed_destination: Option<String>,
    pub last_queue_name: Option<String>,
    pub callee_call_ids: Vec<String>,
    pub server_dialog_id: String,
    /// The metadata of the dialplan, with the agent and the queue of the call.
    pub metadata: Option<Table<String>>,
}

/// The first ring is at its own time, and no ring moves it.
pub proof fn ring_time_is_that_of_the_first(first: u64, later: u64)
    ensures
        rung_at(None, first) == Some(first),
        rung_at(Some(first), later) == Some(first),
{
}

/// The time of a talk runs from the answer in whole seconds; a call that was not answered has
/// none.
pub proof fn talk_runs_from_the_answer(m: CallMeta, now: u64, r: u64)
    requires
        call_ensures(CallMeta::talk_seconds, (&m, now), r),
    ensures
        m.answer_time is None ==> r == 0,
        m.answer_time matches Some(t) ==> t <= now ==> t + 1000 * r <= now < t + 1000 * r + 1000,
        m.answer_time matches Some(t) ==> t > now ==> r == 0,
{
}

} // verus!
