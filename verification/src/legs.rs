//! The legs of a call: their states, their transports, and how a session is bridged
//! between them.

use crate::sdp::{Direction, TransportMode};
use crate::table::Table;
use crate::text;
use vstd::prelude::*;

verus! {

#[derive(Clone, Copy, PartialEq, Eq, Debug, Structural)]
pub enum LegState {
    Initializing,
    Ringing,
    EarlyMedia,
    Connected,
    Hold,
    Ending,
    Ended,
}

#[derive(Clone, Copy, PartialEq, Eq, Debug, Structural)]
pub enum SessionState {
    Initializing,
    Ringing,
    Active,
    Ending,
    Ended,
}

/// One party of the session.
pub struct Leg {
    pub id: String,
    pub state: LegState,
    pub endpoint: Option<String>,
    pub dialog_id: Option<String>,
}

impl Clone for Leg {
    fn clone(&self) -> (r: Self)
        ensures
            r == *self,
    {
        Leg {
            id: self.id.clone(),
            state: self.state,
            endpoint: self.endpoint.clone(),
            dialog_id: self.dialog_id.clone(),
        }
    }
}

impl Leg {
    pub fn new(id: &str) -> (r: Leg)
        ensures
            r.id@ == id@,
            r.state == LegState::Initializing,
            r.endpoint is None,
            r.dialog_id is None,
    {
        Leg { id: id.to_owned(), state: LegState::Initializing, endpoint: None, dialog_id: None }
    }
}

/// A side of the media bridge: the one that speaks WebRTC, or the one that speaks RTP.
#[derive(Clone, Copy, PartialEq, Eq, Debug, Structural)]
pub enum BridgeEndpoint {
    Caller,
    Callee,
}

/// The two parties of the caller's dialog.
#[derive(Clone, Copy, PartialEq, Eq, Debug, Structural)]
pub enum DialogSide {
    Caller,
    Callee,
}

impl DialogSide {
    pub open spec fn leg(self) -> Seq<char> {
        match self {
            DialogSide::Caller => "caller"@,
            DialogSide::Callee => "callee"@,
        }
    }

    pub open spec fn opposite(self) -> DialogSide {
        match self {
            DialogSide::Caller => DialogSide::Callee,
            DialogSide::Callee => DialogSide::Caller,
        }
    }

    /// The leg of the side.
    pub fn leg_id(&self) -> (r: &'static str)
        ensures
            r@ == self.leg(),
    {
        match self {
            DialogSide::Caller => "caller",
            DialogSide::Callee => "callee",
        }
    }

    /// The other side.
    pub fn other(&self) -> (r: DialogSide)
        ensures
            r == self.opposite(),
    {
        match self {
            DialogSide::Caller => DialogSide::Callee,
            DialogSide::Callee => DialogSide::Caller,
        }
    }
}

/// Which legs a hangup ends.
pub enum HangupCascade {
    All,
    Nobody,
    AllExcept(Vec<String>),
    Other,
}

impl HangupCascade {
    pub open spec fn ends(self, leg: Seq<char>) -> bool {
        match self {
            HangupCascade::All => true,
            HangupCascade::Nobody => false,
            HangupCascade::AllExcept(kept) => !text::views(kept@).contains(leg),
            HangupCascade::Other => true,
        }
    }

    pub fn ends_leg(&self, leg: &str) -> (r: bool)
        ensures
            r == self.ends(leg@),
    {
        match self {
            HangupCascade::All => true,
            HangupCascade::Nobody => false,
            HangupCascade::AllExcept(kept) => {
                let mut i: usize = 0;
                let ghost names = text::views(kept@);
                while i < kept.len()
                    invariant
                        i <= kept@.len(),
                        names == text::views(kept@),
                        *self == HangupCascade::AllExcept(*kept),
                        forall|j: int| 0 <= j < i ==> #[trigger] names[j] != leg@,
                    decreases kept@.len() - i,
                {
                    assert(names[i as int] == kept@[i as int]@);
                    if text::same(&kept[i], leg) {
                        assert(names.contains(leg@));
                        return false;
                    }
                    i += 1;
                }
                true
            },
            HangupCascade::Other => true,
        }
    }
}

/// A leg with an established dialog, on hold or not.
pub open spec fn talks(s: LegState) -> bool {
    s == LegState::Connected || s == LegState::Hold
}

pub open spec fn some_leg(entries: Seq<(String, Leg)>, p: spec_fn(LegState) -> bool) -> bool {
    exists|i: int| 0 <= i < entries.len() && p((#[trigger] entries[i]).1.state)
}

/// The state of a session with these legs: ended when all legs are, else the most
/// advanced of ending, active and ringing that a leg is in.
pub open spec fn session_state(entries: Seq<(String, Leg)>) -> SessionState {
    if entries.len() == 0 {
        SessionState::Initializing
    } else if !some_leg(entries, |s: LegState| s != LegState::Ended) {
        SessionState::Ended
    } else if some_leg(entries, |s: LegState| s == LegState::Ending) {
        SessionState::Ending
    } else if some_leg(entries, |s: LegState| talks(s)) {
        SessionState::Active
    } else {
        SessionState::Ringing
    }
}

/// The legs of a session with what is known of their media.
pub struct LegRegistry {
    pub states: Table<Leg>,
    pub transports: Table<TransportMode>,
    pub video: Table<bool>,
    /// What the legs answered.
    pub answers: Table<String>,
}

/// The leg with another state.
pub open spec fn in_state(leg: Option<Leg>, state: LegState) -> Option<Leg> {
    match leg {
        Some(l) => Some(Leg { state, ..l }),
        None => None,
    }
}

/// The name under which the `k`th target of a parallel dial runs.
pub open spec fn fork_leg(k: nat) -> Seq<char> {
    "fork-"@ + text::decimal(k)
}

/// The targets of a parallel dial run under different names, none of which is that of
/// the caller or of the callee.
pub proof fn fork_legs_differ(a: nat, b: nat)
    ensures
        fork_leg(a) == fork_leg(b) ==> a == b,
        fork_leg(a) != "callee"@,
        fork_leg(a) != "caller"@,
{
    reveal_strlit("fork-");
    reveal_strlit("callee");
    reveal_strlit("caller");
    text::decimal_is_injective(a, b);
    if fork_leg(a) == fork_leg(b) {
        assert(text::decimal(a) =~= fork_leg(a).subrange(5, fork_leg(a).len() as int));
        assert(text::decimal(b) =~= fork_leg(b).subrange(5, fork_leg(b).len() as int));
    }
    assert(fork_leg(a)[0] == 'f');
}

pub fn fork_leg_id(k: usize) -> (r: String)
    ensures
        r@ == fork_leg(k as nat),
{
    let digits = text::decimal_text(k as u64);
    text::concat("fork-", &digits)
}

/// A leg as a participant of a conference: the session and the leg.
pub fn participant_leg(session_id: &str, leg: &str) -> (r: String)
    ensures
        r@ == session_id@ + "-"@ + leg@,
{
    text::concat3(session_id, "-", leg)
}

impl LegRegistry {
    pub open spec fn wf(self) -> bool {
        self.states.wf() && self.transports.wf() && self.video.wf() && self.answers.wf()
    }

    pub open spec fn leg(self, id: Seq<char>) -> Option<Leg> {
        self.states.value(id)
    }

    /// The registry of a new session: the caller's leg alone.
    pub fn new() -> (r: LegRegistry)
        ensures
            r.wf(),
            r.leg("caller"@) matches Some(l) && l.state == LegState::Initializing && l.id@ == "caller"@
                && l.endpoint is None && l.dialog_id is None,
            forall|k: Seq<char>| k != "caller"@ ==> #[trigger] r.leg(k) is None,
            forall|k: Seq<char>| #[trigger] r.transports.value(k) is None,
            forall|k: Seq<char>| #[trigger] r.video.value(k) is None,
            forall|k: Seq<char>| #[trigger] r.answers.value(k) is None,
    {
        let mut states: Table<Leg> = Table::new();
        states.insert("caller".to_owned(), Leg::new("caller"));
        LegRegistry {
            states,
            transports: Table::new(),
            video: Table::new(),
            answers: Table::new(),
        }
    }

    /// Sets the state of a leg that exists. No leg is made by setting its state: where
    /// there is none the answer is `false` and nothing changes.
    pub fn update_leg_state(&mut self, leg_id: &str, new_state: LegState) -> (r: bool)
        ensures
            r == (old(self).leg(leg_id@) is Some),
            forall|k: Seq<char>|
                #[trigger] final(self).leg(k) == if k == leg_id@ {
                    in_state(old(self).leg(k), new_state)
                } else {
                    old(self).leg(k)
                },
            final(self).transports == old(self).transports,
            final(self).video == old(self).video,
            final(self).answers == old(self).answers,
            old(self).wf() ==> final(self).wf(),
            !r ==> *final(self) == *old(self),
    {
        match self.states.get(leg_id) {
            Some(leg) => {
                let mut leg = leg.clone();
                leg.state = new_state;
                let key = leg_id.to_owned();
                self.states.insert(key, leg);
                true
            },
            None => false,
        }
    }

    /// The leg, or the message that there is none.
    pub fn require_leg(&self, leg_id: &str) -> (r: Result<&Leg, String>)
        ensures
            r is Ok <==> self.leg(leg_id@) is Some,
            r matches Ok(l) ==> self.leg(leg_id@) == Some(*l),
            r matches Err(m) ==> m@ == "Leg not found: "@ + leg_id@,
    {
        match self.states.get(leg_id) {
            Some(leg) => Ok(leg),
            None => Err(text::concat("Leg not found: ", leg_id)),
        }
    }

    /// The state that the legs put the session in.
    pub fn derive_state(&self) -> (r: SessionState)
        ensures
            r == session_state(self.states.entries@),
    {
        let ghost all = self.states.entries@;
        let ghost ended = |s: LegState| s != LegState::Ended;
        let ghost ends = |s: LegState| s == LegState::Ending;
        let ghost active = |s: LegState| talks(s);
        let mut has_connected = false;
        let mut has_ending = false;
        let mut all_ended = true;
        let mut i: usize = 0;
        while i < self.states.entries.len()
            invariant
                i <= all.len(),
                all == self.states.entries@,
                ended == (|s: LegState| s != LegState::Ended),
                ends == (|s: LegState| s == LegState::Ending),
                active == (|s: LegState| talks(s)),
                all_ended == !some_leg(all.subrange(0, i as int), ended),
                has_ending == some_leg(all.subrange(0, i as int), ends),
                has_connected == some_leg(all.subrange(0, i as int), active),
            decreases all.len() - i,
        {
            let state = self.states.entries[i].1.state;
            proof {
                lemma_some_leg_push(all, i as int, ended);
                lemma_some_leg_push(all, i as int, ends);
                lemma_some_leg_push(all, i as int, active);
            }
            match state {
                LegState::Initializing | LegState::Ringing | LegState::EarlyMedia => {
                    all_ended = false;
                },
                LegState::Connected | LegState::Hold => {
                    has_connected = true;
                    all_ended = false;
                },
                LegState::Ending => {
                    has_ending = true;
                    all_ended = false;
                },
                LegState::Ended => {},
            }
            i += 1;
        }
        assert(all.subrange(0, all.len() as int) =~= all);
        if self.states.entries.len() == 0 {
            SessionState::Initializing
        } else if all_ended {
            SessionState::Ended
        } else if has_ending {
            SessionState::Ending
        } else if has_connected {
            SessionState::Active
        } else {
            SessionState::Ringing
        }
    }

    /// Ends the legs that the hangup reaches.
    pub fn end_legs(&mut self, cascade: &HangupCascade)
        ensures
            final(self).states.entries@.len() == old(self).states.entries@.len(),
            forall|i: int|
                0 <= i < old(self).states.entries@.len() ==> {
                    let (k, l) = old(self).states.entries@[i];
                    #[trigger] final(self).states.entries@[i] == (
                        k,
                        if cascade.ends(l.id@) {
                            Leg { state: LegState::Ended, ..l }
                        } else {
                            l
                        },
                    )
                },
            final(self).transports == old(self).transports,
            final(self).video == old(self).video,
            final(self).answers == old(self).answers,
    {
        let mut i: usize = 0;
        while i < self.states.entries.len()
            invariant
                i <= self.states.entries@.len() == old(self).states.entries@.len(),
                self.transports == old(self).transports,
                self.video == old(self).video,
                self.answers == old(self).answers,
                forall|j: int|
                    0 <= j < i ==> {
                        let (k, l) = old(self).states.entries@[j];
                        #[trigger] self.states.entries@[j] == (
                            k,
                            if cascade.ends(l.id@) {
                                Leg { state: LegState::Ended, ..l }
                            } else {
                                l
                            },
                        )
                    },
                forall|j: int|
                    i <= j < self.states.entries@.len() ==> #[trigger] self.states.entries@[j]
                        == old(self).states.entries@[j],
            decreases self.states.entries@.len() - i,
        {
            if cascade.ends_leg(&self.states.entries[i].1.id) {
                let key = self.states.entries[i].0.clone();
                let mut leg = self.states.entries[i].1.clone();
                leg.state = LegState::Ended;
                self.states.entries.set(i, (key, leg));
            }
            i += 1;
        }
    }

    /// A parallel dial is won: the legs of the other targets go, and the winner's leg
    /// becomes the callee's.
    pub fn promote_fork_winner(&mut self, winner: usize, total: usize)
        requires
            old(self).wf(),
            winner < total,
        ensures
            final(self).wf(),
            forall|k: nat| k < total ==> #[trigger] final(self).leg(fork_leg(k)) is None,
            match old(self).leg(fork_leg(winner as nat)) {
                Some(l) => final(self).leg("callee"@) matches Some(c) && c.id@ == "callee"@ && c.state
                    == l.state && c.endpoint == l.endpoint && c.dialog_id == l.dialog_id,
                None => final(self).leg("callee"@) == old(self).leg("callee"@),
            },
            forall|id: Seq<char>|
                id != "callee"@ && (forall|k: nat| k < total ==> id != #[trigger] fork_leg(k))
                    ==> #[trigger] final(self).leg(id) == old(self).leg(id),
            final(self).transports == old(self).transports,
            final(self).video == old(self).video,
            final(self).answers == old(self).answers,
    {
        let mut i: usize = 0;
        while i < total
            invariant
                i <= total,
                winner < total,
                self.states.wf(),
                self.transports == old(self).transports,
                self.video == old(self).video,
                self.answers == old(self).answers,
                forall|k: nat|
                    k < i && k != winner ==> #[trigger] self.leg(fork_leg(k)) is None,
                self.leg(fork_leg(winner as nat)) == old(self).leg(fork_leg(winner as nat)),
                forall|id: Seq<char>|
                    (forall|k: nat| k < total ==> id != #[trigger] fork_leg(k))
                        ==> #[trigger] self.leg(id) == old(self).leg(id),
            decreases total - i,
        {
            if i != winner {
                let name = fork_leg_id(i);
                let ghost before = *self;
                let _gone = self.states.remove(&name);
                proof {
                    fork_legs_differ(winner as nat, i as nat);
                    assert forall|k: nat| k < i + 1 && k != winner implies #[trigger] self.leg(
                        fork_leg(k),
                    ) is None by {
                        if k < i {
                            assert(before.leg(fork_leg(k)) is None);
                            fork_legs_differ(k, i as nat);
                        }
                    }
                    assert forall|id: Seq<char>|
                        (forall|k: nat| k < total ==> id != #[trigger] fork_leg(k)) implies #[trigger] self.leg(
                        id,
                    ) == old(self).leg(id) by {
                        assert(id != fork_leg(i as nat));
                        assert(before.leg(id) == old(self).leg(id));
                    }
                }
            }
            i += 1;
        }
        let name = fork_leg_id(winner);
        let ghost before = *self;
        proof {
            fork_legs_differ(winner as nat, winner as nat);
            assert forall|k: nat| k < total implies "callee"@ != #[trigger] fork_leg(k) by {
                fork_legs_differ(k, k);
            }
            assert(before.leg("callee"@) == old(self).leg("callee"@));
        }
        match self.states.remove(&name) {
            Some(leg) => {
                let mut leg = leg;
                leg.id = "callee".to_owned();
                self.states.insert("callee".to_owned(), leg);
            },
            None => {},
        }
        proof {
            assert forall|k: nat| k < total implies #[trigger] self.leg(fork_leg(k)) is None by {
                fork_legs_differ(k, winner as nat);
                if k != winner {
                    assert(before.leg(fork_leg(k)) is None);
                }
            }
            assert forall|id: Seq<char>|
                id != "callee"@ && (forall|k: nat| k < total ==> id != #[trigger] fork_leg(k)) implies #[trigger] self.leg(
                id,
            ) == old(self).leg(id) by {
                assert(id != fork_leg(winner as nat));
                assert(before.leg(id) == old(self).leg(id));
            }
        }
    }

    /// Notes how the media of a leg is transported.
    pub fn set_transport(&mut self, leg_id: &str, mode: TransportMode)
        ensures
            forall|k: Seq<char>|
                #[trigger] final(self).transports.value(k) == if k == leg_id@ {
                    Some(mode)
                } else {
                    old(self).transports.value(k)
                },
            final(self).states == old(self).states,
            final(self).video == old(self).video,
            final(self).answers == old(self).answers,
            old(self).wf() ==> final(self).wf(),
    {
        let key = leg_id.to_owned();
        self.transports.insert(key, mode);
    }

    pub fn get_transport(&self, leg_id: &str) -> (r: Option<TransportMode>)
        ensures
            r == self.transports.value(leg_id@),
    {
        match self.transports.get(leg_id) {
            Some(mode) => Some(*mode),
            None => None,
        }
    }

    pub open spec fn is_webrtc(self, leg: Seq<char>) -> bool {
        self.transports.value(leg) == Some(TransportMode::WebRtc)
    }

    pub fn leg_is_webrtc(&self, leg_id: &str) -> (r: bool)
        ensures
            r == self.is_webrtc(leg_id@),
    {
        match self.get_transport(leg_id) {
            Some(TransportMode::WebRtc) => true,
            _ => false,
        }
    }

    /// The bridge endpoint that a leg is served by: the WebRTC one for a WebRTC leg,
    /// the other for every other leg.
    pub open spec fn endpoint(self, leg: Seq<char>) -> BridgeEndpoint {
        if self.is_webrtc(leg) {
            BridgeEndpoint::Caller
        } else {
            BridgeEndpoint::Callee
        }
    }

    pub fn leg_bridge_endpoint(&self, leg_id: &str) -> (r: BridgeEndpoint)
        ensures
            r == self.endpoint(leg_id@),
    {
        if self.leg_is_webrtc(leg_id) {
            BridgeEndpoint::Caller
        } else {
            BridgeEndpoint::Callee
        }
    }

    pub open spec fn has_video(self, leg: Seq<char>) -> bool {
        self.video.value(leg) == Some(true)
    }

    pub fn leg_has_video(&self, leg_id: &str) -> (r: bool)
        ensures
            r == self.has_video(leg_id@),
    {
        match self.video.get(leg_id) {
            Some(on) => *on,
            None => false,
        }
    }

    /// Whether any leg carries video.
    pub fn any_has_video(&self) -> (r: bool)
        requires
            self.wf(),
        ensures
            r == exists|leg: Seq<char>| #[trigger] self.has_video(leg),
    {
        let n: usize = self.video.entries.len();
        let mut i: usize = 0;
        while i < n
            invariant
                n == self.video.entries@.len(),
                i <= n,
                self.wf(),
                forall|j: int| 0 <= j < i ==> !(#[trigger] self.video.entries@[j]).1,
            decreases n - i,
        {
            if self.video.entries[i].1 {
                proof {
                    let leg = self.video.entries@[i as int].0@;
                    crate::table::lookup_finds(self.video.entries@, leg);
                    assert(self.has_video(leg));
                }
                return true;
            }
            i += 1;
        }
        proof {
            assert forall|leg: Seq<char>| !#[trigger] self.has_video(leg) by {
                if self.has_video(leg) {
                    crate::table::lookup_finds(self.video.entries@, leg);
                }
            }
        }
        false
    }

    /// Notes whether a leg carries video.
    pub fn set_video_state(&mut self, leg_id: &str, on: bool)
        ensures
            forall|k: Seq<char>|
                #[trigger] final(self).video.value(k) == if k == leg_id@ {
                    Some(on)
                } else {
                    old(self).video.value(k)
                },
            final(self).states == old(self).states,
            final(self).transports == old(self).transports,
            final(self).answers == old(self).answers,
            old(self).wf() ==> final(self).wf(),
    {
        let key = leg_id.to_owned();
        self.video.insert(key, on);
    }

    /// Notes what a leg answered.
    pub fn set_answer(&mut self, leg_id: &str, answer: String)
        ensures
            forall|k: Seq<char>|
                #[trigger] final(self).answers.value(k) == if k == leg_id@ {
                    Some(answer)
                } else {
                    old(self).answers.value(k)
                },
            final(self).states == old(self).states,
            final(self).transports == old(self).transports,
            final(self).video == old(self).video,
            old(self).wf() ==> final(self).wf(),
    {
        let key = leg_id.to_owned();
        self.answers.insert(key, answer);
    }

    /// Adds a leg, in the place of one of the same name.
    pub fn add_leg(&mut self, leg: Leg)
        ensures
            forall|k: Seq<char>|
                #[trigger] final(self).leg(k) == if k == leg.id@ {
                    Some(leg)
                } else {
                    old(self).leg(k)
                },
            final(self).transports == old(self).transports,
            final(self).video == old(self).video,
            final(self).answers == old(self).answers,
            old(self).wf() ==> final(self).wf(),
    {
        let key = leg.id.clone();
        self.states.insert(key, leg);
        assert forall|k: Seq<char>| #[trigger] self.leg(k) == (if k == leg.id@ {
            Some(leg)
        } else {
            old(self).leg(k)
        }) by {
            assert(self.states.value(k) == self.leg(k));
        }
    }

    /// Takes a leg out, where there is one of that name.
    pub fn remove_leg(&mut self, leg_id: &str) -> (r: Option<Leg>)
        requires
            old(self).wf(),
        ensures
            final(self).wf(),
            r == old(self).leg(leg_id@),
            forall|k: Seq<char>|
                #[trigger] final(self).leg(k) == if k == leg_id@ {
                    None
                } else {
                    old(self).leg(k)
                },
            final(self).transports == old(self).transports,
            final(self).video == old(self).video,
            final(self).answers == old(self).answers,
    {
        let leg = self.states.remove(leg_id);
        assert forall|k: Seq<char>| #[trigger] self.leg(k) == (if k == leg_id@ {
            None
        } else {
            old(self).leg(k)
        }) by {
            assert(self.states.value(k) == self.leg(k));
        }
        leg
    }
}

proof fn lemma_some_leg_push(all: Seq<(String, Leg)>, i: int, p: spec_fn(LegState) -> bool)
    requires
        0 <= i < all.len(),
    ensures
        some_leg(all.subrange(0, i + 1), p) == (some_leg(all.subrange(0, i), p) || p(all[i].1.state)),
{
    let a = all.subrange(0, i);
    let b = all.subrange(0, i + 1);
    if some_leg(a, p) {
        let k = choose|k: int| 0 <= k < a.len() && p((#[trigger] a[k]).1.state);
        assert(b[k] == a[k]);
    }
    if p(all[i].1.state) {
        assert(b[i] == all[i]);
    }
    if some_leg(b, p) {
        let k = choose|k: int| 0 <= k < b.len() && p((#[trigger] b[k]).1.state);
        if k < i {
            assert(a[k] == b[k]);
        }
    }
}

/// A hangup that reaches every leg ends the session, whatever its legs were doing.
pub proof fn full_hangup_ends_session(before: Seq<(String, Leg)>, after: Seq<(String, Leg)>)
    requires
        before.len() > 0,
        after.len() == before.len(),
        forall|i: int|
            0 <= i < before.len() ==> (#[trigger] after[i]) == (
                before[i].0,
                Leg { state: LegState::Ended, ..before[i].1 },
            ),
    ensures
        session_state(after) == SessionState::Ended,
{
    let p = |s: LegState| s != LegState::Ended;
    if some_leg(after, p) {
        let i = choose|i: int| 0 <= i < after.len() && p((#[trigger] after[i]).1.state);
        assert(after[i].1.state == LegState::Ended);
    }
}

/// A session is active exactly when a leg talks and none is ending.
pub proof fn active_session_has_talking_leg(entries: Seq<(String, Leg)>)
    ensures
        session_state(entries) == SessionState::Active <==> some_leg(entries, |s: LegState| talks(s))
            && !some_leg(entries, |s: LegState| s == LegState::Ending),
        session_state(entries) == SessionState::Initializing <==> entries.len() == 0,
{
    let talk = |s: LegState| talks(s);
    let alive = |s: LegState| s != LegState::Ended;
    if some_leg(entries, talk) {
        let i = choose|i: int| 0 <= i < entries.len() && talk((#[trigger] entries[i]).1.state);
        assert(alive(entries[i].1.state));
        assert(some_leg(entries, alive));
    }
}

/// A direct bridge between two legs.
pub struct BridgeConfig {
    pub active: bool,
    pub legs: Option<(String, String)>,
}

impl BridgeConfig {
    pub fn new() -> (r: BridgeConfig)
        ensures
            !r.active,
            r.legs is None,
    {
        BridgeConfig { active: false, legs: None }
    }

    pub fn clear(&mut self)
        ensures
            !final(self).active,
            final(self).legs is None,
    {
        self.active = false;
        self.legs = None;
    }

    /// Bridges two legs that both exist; else nothing changes.
    pub fn setup_bridge(&mut self, legs: &LegRegistry, leg_a: &str, leg_b: &str) -> (r: bool)
        ensures
            r == (legs.leg(leg_a@) is Some && legs.leg(leg_b@) is Some),
            !r ==> *final(self) == *old(self),
            r ==> final(self).active && (final(self).legs matches Some((a, b)) && a@ == leg_a@ && b@
                == leg_b@),
    {
        if legs.states.contains_key(leg_a) && legs.states.contains_key(leg_b) {
            self.active = true;
            self.legs = Some((leg_a.to_owned(), leg_b.to_owned()));
            true
        } else {
            false
        }
    }
}

/// How the media of the active legs is connected.
pub enum MediaPathPlan {
    /// The two legs are bridged, and no conference runs.
    Direct { leg_a: String, leg_b: String },
    /// The legs are mixed, and no direct bridge stands.
    Conference,
    /// Nothing is connected.
    Unconnected,
}

/// Two active legs are bridged, three or more are mixed, fewer are left alone.
pub fn plan_media_path(active_legs: &Vec<String>) -> (r: MediaPathPlan)
    ensures
        r is Unconnected <==> active_legs@.len() < 2,
        r is Conference <==> active_legs@.len() >= 3,
        r matches MediaPathPlan::Direct { leg_a, leg_b } ==> leg_a == active_legs@[0] && leg_b
            == active_legs@[1],
{
    if active_legs.len() == 2 {
        MediaPathPlan::Direct { leg_a: active_legs[0].clone(), leg_b: active_legs[1].clone() }
    } else if active_legs.len() >= 3 {
        MediaPathPlan::Conference
    } else {
        MediaPathPlan::Unconnected
    }
}

/// An offered direction other than both ways puts the leg on hold.
pub fn is_hold_direction(direction: Direction) -> (r: bool)
    ensures
        r == (direction != Direction::SendRecv),
{
    match direction {
        Direction::SendRecv => false,
        _ => true,
    }
}

/// The two parties are each other's other side, under their own names.
pub proof fn parties_are_opposite(side: DialogSide)
    ensures
        side.opposite() != side,
        side.opposite().opposite() == side,
        DialogSide::Caller.leg() == "caller"@,
        DialogSide::Callee.leg() == "callee"@,
        DialogSide::Caller.leg() != DialogSide::Callee.leg(),
{
    reveal_strlit("caller");
    reveal_strlit("callee");
    assert("caller"@.len() == 6);
    assert("callee"@.len() == 6);
    assert("caller"@[5] == 'r');
    assert("callee"@[5] == 'e');
}

/// A hangup reaches every leg, none, or all but those that are kept.
pub proof fn hangup_spares_what_is_kept(kept: Vec<String>, leg: Seq<char>, i: int)
    ensures
        HangupCascade::All.ends(leg),
        HangupCascade::Other.ends(leg),
        !HangupCascade::Nobody.ends(leg),
        0 <= i < kept@.len() && kept@[i]@ == leg ==> !HangupCascade::AllExcept(kept).ends(leg),
        (forall|k: int| 0 <= k < kept@.len() ==> (#[trigger] kept@[k])@ != leg)
            ==> HangupCascade::AllExcept(kept).ends(leg),
{
    if 0 <= i < kept@.len() && kept@[i]@ == leg {
        assert(text::views(kept@)[i] == leg);
    }
    if text::views(kept@).contains(leg) {
        let k = choose|k: int| 0 <= k < text::views(kept@).len() && text::views(kept@)[k] == leg;
        assert(kept@[k]@ == leg);
    }
}

/// A session is over exactly when all its legs are, and none before it has a leg; it is
/// ending as soon as one leg is, and rings while no leg talks or ends.
pub proof fn session_follows_its_legs(entries: Seq<(String, Leg)>, i: int)
    requires
        0 <= i < entries.len(),
    ensures
        session_state(entries) == SessionState::Ended <==> forall|k: int|
            0 <= k < entries.len() ==> (#[trigger] entries[k]).1.state == LegState::Ended,
        entries[i].1.state == LegState::Ending ==> session_state(entries) == SessionState::Ending,
        (entries[i].1.state == LegState::Connected || entries[i].1.state == LegState::Hold)
            ==> session_state(entries) == SessionState::Active || session_state(entries)
            == SessionState::Ending,
        entries.len() == 1 && (entries[i].1.state == LegState::Initializing || entries[i].1.state
            == LegState::Ringing || entries[i].1.state == LegState::EarlyMedia) ==> session_state(
            entries,
        ) == SessionState::Ringing,
        entries.len() == 1 && (entries[i].1.state == LegState::Connected || entries[i].1.state
            == LegState::Hold) ==> session_state(entries) == SessionState::Active,
        session_state(entries) != SessionState::Initializing,
        session_state(Seq::empty()) == SessionState::Initializing,
        session_state(entries) == SessionState::Ringing <==> (exists|k: int|
            0 <= k < entries.len() && (#[trigger] entries[k]).1.state != LegState::Ended) && (forall|
            k: int,
        |
            0 <= k < entries.len() ==> (#[trigger] entries[k]).1.state != LegState::Ending
                && entries[k].1.state != LegState::Connected && entries[k].1.state != LegState::Hold),
{
    let e = entries[i];
    if some_leg(entries, |s: LegState| s != LegState::Ended) {
        let k = choose|k: int| 0 <= k < entries.len() && (#[trigger] entries[k]).1.state != LegState::Ended;
        assert(entries[k].1.state != LegState::Ended);
    }
}

/// To put a leg into a state changes that and nothing else of it, and makes no leg.
pub proof fn leg_keeps_all_but_its_state(leg: Leg, state: LegState)
    ensures
        in_state(Some(leg), state) matches Some(l) && l.state == state && l.id == leg.id && l.endpoint
            == leg.endpoint && l.dialog_id == leg.dialog_id,
        in_state(None, state) is None,
{
}

/// The targets of a parallel dial run under their numbers.
pub proof fn fork_is_named_by_its_number(k: nat)
    ensures
        fork_leg(k) == "fork-"@ + text::decimal(k),
        text::ends_with(fork_leg(k), text::decimal(k)),
{
    text::text_has_its_parts("fork-"@, text::decimal(k), Seq::empty());
}

/// A leg that speaks WebRTC is served by the WebRTC end of the bridge and every other leg
/// by the other end; only a leg that was noted to speak it does.
pub proof fn webrtc_leg_is_served_at_its_end(legs: LegRegistry, leg: Seq<char>)
    ensures
        legs.is_webrtc(leg) <==> legs.transports.value(leg) == Some(TransportMode::WebRtc),
        legs.endpoint(leg) == BridgeEndpoint::Caller <==> legs.transports.value(leg) == Some(
            TransportMode::WebRtc,
        ),
        legs.transports.value(leg) is None ==> legs.endpoint(leg) == BridgeEndpoint::Callee,
        legs.has_video(leg) <==> legs.video.value(leg) == Some(true),
{
}

/// A leg talks while it is connected or held, and at no other time.
pub proof fn held_leg_still_talks(s: LegState)
    ensures
        talks(LegState::Hold) && talks(LegState::Connected),
        talks(s) ==> s == LegState::Hold || s == LegState::Connected,
{
}

/// Two legs meet directly, more of them in a conference, and one alone not at all.
pub proof fn two_legs_meet_directly(active: Vec<String>, plan: MediaPathPlan)
    requires
        call_ensures(plan_media_path, (&active,), plan),
    ensures
        active@.len() == 2 <==> plan is Direct,
        plan matches MediaPathPlan::Direct { leg_a, leg_b } ==> active@ == seq![leg_a, leg_b],
        active@.len() > 2 <==> plan is Conference,
{
    if plan is Direct {
        assert(active@ =~= seq![plan->leg_a, plan->leg_b]);
    }
}

/// Only a stream that goes both ways is no hold.
pub proof fn anything_but_both_ways_is_hold(direction: Direction, r: bool)
    requires
        call_ensures(is_hold_direction, (direction,), r),
    ensures
        direction == Direction::SendRecv ==> !r,
        direction == Direction::SendOnly || direction == Direction::RecvOnly || direction
            == Direction::Inactive ==> r,
{
}

/// What is set of a leg is read of that leg, and every other leg keeps its own.
pub proof fn leg_keeps_what_is_set_of_it(other: Seq<char>)
    ensures
        forall|l: &mut LegRegistry, id: &str, mode: TransportMode| #[trigger]
            call_ensures(LegRegistry::set_transport, (l, id, mode), ()) ==> {
                &&& final(l).transports.value(id@) == Some(mode)
                &&& other != id@ ==> final(l).transports.value(other) == l.transports.value(other)
                &&& final(l).states == l.states && final(l).video == l.video && final(l).answers
                    == l.answers
            },
        forall|l: &mut LegRegistry, id: &str, on: bool| #[trigger]
            call_ensures(LegRegistry::set_video_state, (l, id, on), ()) ==> {
                &&& final(l).video.value(id@) == Some(on)
                &&& other != id@ ==> final(l).video.value(other) == l.video.value(other)
                &&& final(l).states == l.states && final(l).transports == l.transports 
                    && final(l).answers == l.answers
            },
        forall|l: &mut LegRegistry, id: &str, answer: String| #[trigger]
            call_ensures(LegRegistry::set_answer, (l, id, answer), ()) ==> {
                &&& final(l).answers.value(id@) == Some(answer)
                &&& other != id@ ==> final(l).answers.value(other) == l.answers.value(other)
                &&& final(l).states == l.states && final(l).transports == l.transports 
                    && final(l).video == l.video
            },
{
}

/// Two legs are bridged where both are there, in the order in which they were named; else the
/// bridge stays as it was.
pub proof fn bridge_needs_both_legs()
    ensures
        forall|b: &mut BridgeConfig, legs: LegRegistry, x: &str, y: &str, r: bool| #[trigger]
            call_ensures(BridgeConfig::setup_bridge, (b, &legs, x, y), r) ==> {
                &&& r <==> legs.leg(x@) is Some && legs.leg(y@) is Some
                &&& !r ==> *final(b) == *b
                &&& r ==> final(b).active && final(b).legs is Some && (final(b).legs->0).0@ == x@
                    && (final(b).legs->0).1@ == y@
            },
{
}

/// The leg that won a fork is the callee, as it was, and no leg of the fork is left.
pub proof fn winner_of_a_fork_is_the_callee(k: nat)
    ensures
        forall|l: &mut LegRegistry, winner: usize, total: usize| #[trigger]
            call_ensures(LegRegistry::promote_fork_winner, (l, winner, total), ()) ==> {
                &&& k < total ==> final(l).leg(fork_leg(k)) is None
                &&& l.leg(fork_leg(winner as nat)) is Some ==> final(l).leg("callee"@) is Some
                    && final(l).leg("callee"@)->0.state == l.leg(
                    fork_leg(winner as nat),
                )->0.state && final(l).leg("callee"@)->0.dialog_id == l.leg(
                    fork_leg(winner as nat),
                )->0.dialog_id
                &&& l.leg(fork_leg(winner as nat)) is None ==> final(l).leg("callee"@) == l.leg(
                    "callee"@,
                )
            },
{
}

/// A leg that is added is there and one that is removed is not, a leg that moves is in its new
/// state, and every other leg stays as it is.
pub proof fn legs_come_and_go_alone(other: Seq<char>)
    ensures
        forall|l: &mut LegRegistry, leg: Leg| #[trigger]
            call_ensures(LegRegistry::add_leg, (l, leg), ()) ==> {
                &&& final(l).leg(leg.id@) == Some(leg)
                &&& other != leg.id@ ==> final(l).leg(other) == l.leg(other)
            },
        forall|l: &mut LegRegistry, id: &str, r: Option<Leg>| #[trigger]
            call_ensures(LegRegistry::remove_leg, (l, id), r) ==> {
                &&& r == l.leg(id@) && final(l).leg(id@) is None
                &&& other != id@ ==> final(l).leg(other) == l.leg(other)
            },
        forall|l: &mut LegRegistry, id: &str, state: LegState, r: bool| #[trigger]
            call_ensures(LegRegistry::update_leg_state, (l, id, state), r) ==> {
                &&& r <==> l.leg(id@) is Some
                &&& r ==> final(l).leg(id@) is Some && final(l).leg(id@)->0.state == state
                &&& r ==> final(l).leg(id@)->0.endpoint == l.leg(id@)->0.endpoint
                &&& !r ==> *final(l) == *l
                &&& other != id@ ==> final(l).leg(other) == l.leg(other)
            },
        forall|l: LegRegistry, id: &str, r: Result<&Leg, String>| #[trigger]
            call_ensures(LegRegistry::require_leg, (&l, id), r) ==> {
                &&& r is Ok <==> l.leg(id@) is Some
                &&& r is Ok ==> Some(*r->Ok_0) == l.leg(id@)
            },
{
}

} // verus!
