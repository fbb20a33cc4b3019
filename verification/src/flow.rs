//! The flow of a dialplan: targets, queues and applications.

use crate::json::{get_text, text_at, value_of, Json};
use crate::status::StatusCode;
use crate::text;
use crate::uri::Location;
use vstd::prelude::*;

verus! {

/// Targets, and whether they are dialled in turn or at once.
pub enum DialStrategy {
    Sequential(Vec<Location>),
    Parallel(Vec<Location>),
}

impl DialStrategy {
    pub open spec fn targets(self) -> Seq<Location> {
        match self {
            DialStrategy::Sequential(t) => t@,
            DialStrategy::Parallel(t) => t@,
        }
    }

    pub fn locations(&self) -> (r: &Vec<Location>)
        ensures
            r@ == self.targets(),
    {
        match self {
            DialStrategy::Sequential(t) => t,
            DialStrategy::Parallel(t) => t,
        }
    }
}

/// How a call that failed is ended.
pub enum FailureAction {
    Hangup { code: Option<StatusCode>, reason: Option<String> },
    PlayThenHangup {
        audio_file: String,
        use_early_media: bool,
        status_code: StatusCode,
        reason: Option<String>,
    },
    Transfer { target: String },
}

impl Clone for FailureAction {
    fn clone(&self) -> (r: Self)
        ensures
            r == *self,
    {
        match self {
            FailureAction::Hangup { code, reason } => {
                let code = match code {
                    Some(status) => Some(status.clone()),
                    None => None,
                };
                FailureAction::Hangup { code, reason: reason.clone() }
            },
            FailureAction::PlayThenHangup { audio_file, use_early_media, status_code, reason } => {
                FailureAction::PlayThenHangup {
                    audio_file: audio_file.clone(),
                    use_early_media: *use_early_media,
                    status_code: status_code.clone(),
                    reason: reason.clone(),
                }
            },
            FailureAction::Transfer { target } => FailureAction::Transfer { target: target.clone() },
        }
    }
}

/// What becomes of a caller whom no agent of a queue took.
pub enum QueueFallbackAction {
    Failure(FailureAction),
    Redirect { target: String },
    Queue { name: String },
}

impl Clone for QueueFallbackAction {
    fn clone(&self) -> (r: Self)
        ensures
            r == *self,
    {
        match self {
            QueueFallbackAction::Failure(action) => QueueFallbackAction::Failure(action.clone()),
            QueueFallbackAction::Redirect { target } => {
                QueueFallbackAction::Redirect { target: target.clone() }
            },
            QueueFallbackAction::Queue { name } => QueueFallbackAction::Queue { name: name.clone() },
        }
    }
}

/// What the caller hears while a queue looks for an agent.
pub struct QueueHold {
    pub audio_file: Option<String>,
    pub loop_playback: bool,
}

impl Clone for QueueHold {
    fn clone(&self) -> (r: Self)
        ensures
            r == *self,
    {
        QueueHold { audio_file: self.audio_file.clone(), loop_playback: self.loop_playback }
    }
}

/// Times are in milliseconds.
pub struct QueuePlan {
    pub queue_name: String,
    pub label: Option<String>,
    pub dial_strategy: Option<DialStrategy>,
    pub accept_immediately: bool,
    pub hold: Option<QueueHold>,
    pub fallback: Option<QueueFallbackAction>,
    pub ring_timeout: Option<u64>,
    /// The announcements, by their names.
    pub voice_prompts: Option<Vec<(String, String)>>,
    pub failure_audio: Option<String>,
    pub acd_policy: Option<String>,
    pub retry_codes: Option<Vec<u16>>,
    pub no_trying_timeout: Option<u64>,
}

impl QueuePlan {
    /// A queue that asks for nothing.
    pub fn plain() -> (r: QueuePlan)
        ensures
            r.queue_name@.len() == 0,
            r.label is None,
            r.dial_strategy is None,
            !r.accept_immediately,
            r.hold is None,
            r.fallback is None,
            r.ring_timeout is None,
            r.voice_prompts is None,
            r.failure_audio is None,
            r.acd_policy is None,
            r.retry_codes is None,
            r.no_trying_timeout is None,
    {
        proof {
            reveal_strlit("");
        }
        QueuePlan {
            queue_name: "".to_owned(),
            label: None,
            dial_strategy: None,
            accept_immediately: false,
            hold: None,
            fallback: None,
            ring_timeout: None,
            voice_prompts: None,
            failure_audio: None,
            acd_policy: None,
            retry_codes: None,
            no_trying_timeout: None,
        }
    }
}

/// A node of a call graph.
#[derive(Clone, Copy, PartialEq, Eq, Debug, Structural)]
pub enum Node {
    Hangup,
    Prompt(u32),
    Collect,
    Dial(u32),
}

/// A call graph: its first node, its nodes, its prompts and its targets.
pub struct GraphDef {
    pub entry: u32,
    pub nodes: Vec<(u32, Node)>,
    pub prompts: Vec<(u32, String)>,
    pub targets: Vec<String>,
}

/// The flow of a dialplan. An application comes with its parameters and with the call
/// graph that they describe, where they describe one.
pub enum DialplanFlow {
    Targets(DialStrategy),
    Queue { plan: QueuePlan, next: Box<DialplanFlow> },
    Application {
        app_name: String,
        app_params: Option<Json>,
        graph: Option<GraphDef>,
        auto_answer: bool,
    },
}

/// The queue asks for nothing but music, agents, a time to ring, and an end: no
/// announcements, no failure audio of its own, no policy for its agents, no codes to retry
/// after, no time to wait for a first response, and a fallback only to a hangup.
pub open spec fn covered(plan: QueuePlan) -> bool {
    &&& plan.voice_prompts is None
    &&& plan.failure_audio is None
    &&& plan.acd_policy is None
    &&& plan.retry_codes is None
    &&& plan.no_trying_timeout is None
    &&& (plan.fallback matches Some(action) ==> (action matches QueueFallbackAction::Failure(f)
        && f !is Transfer))
}

/// The application walks a call graph.
pub open spec fn walks_graph(flow: DialplanFlow) -> bool {
    flow matches DialplanFlow::Application { app_name, graph, .. } && app_name@ == "graph"@
        && graph is Some
}

/// Every queue of the flow is covered, and it ends with targets or with a call graph.
pub open spec fn supported(flow: DialplanFlow) -> bool
    decreases flow,
{
    match flow {
        DialplanFlow::Targets(_) => true,
        DialplanFlow::Queue { plan, next } => covered(plan) && supported(*next),
        DialplanFlow::Application { .. } => walks_graph(flow),
    }
}

fn is_covered(plan: &QueuePlan) -> (r: bool)
    ensures
        r == covered(*plan),
{
    let fallback_ok = match &plan.fallback {
        None => true,
        Some(QueueFallbackAction::Failure(FailureAction::Hangup { .. })) => true,
        Some(QueueFallbackAction::Failure(FailureAction::PlayThenHangup { .. })) => true,
        Some(_) => false,
    };
    plan.voice_prompts.is_none() && plan.failure_audio.is_none() && plan.acd_policy.is_none()
        && plan.retry_codes.is_none() && plan.no_trying_timeout.is_none() && fallback_ok
}

/// Whether the session engine can serve a flow: plain targets, queues whose features it
/// has, and applications that walk a call graph. Queues with announcements, failure audio,
/// other fallbacks than a hangup, a policy for agents, codes to retry after, or a time to
/// wait for a first response are left to the other engine.
pub fn supports_flow(flow: &DialplanFlow) -> (r: bool)
    ensures
        r == supported(*flow),
    decreases flow,
{
    match flow {
        DialplanFlow::Targets(_) => true,
        DialplanFlow::Queue { plan, next } => is_covered(plan) && supports_flow(next),
        DialplanFlow::Application { .. } => graph_def(flow).is_some(),
    }
}

/// The call graph of an application that walks one.
pub fn graph_def(flow: &DialplanFlow) -> (r: Option<&GraphDef>)
    ensures
        r is Some <==> walks_graph(*flow),
        r matches Some(g) ==> (flow matches DialplanFlow::Application { graph, .. } && graph == Some(*g)),
{
    match flow {
        DialplanFlow::Application { app_name, graph, .. } => {
            if !text::same(app_name, "graph") {
                return None;
            }
            match graph {
                Some(g) => Some(g),
                None => None,
            }
        },
        _ => None,
    }
}

/// A flow that starts with a queue is supported exactly where the queue is covered and
/// what follows is supported.
pub proof fn support_goes_through_queues(plan: QueuePlan, next: DialplanFlow)
    ensures
        supported(
            DialplanFlow::Queue { plan, next: Box::new(next) },
        ) <==> covered(plan) && supported(next),
{
}

/// The sound that a caller hears whom no agent took.
pub open spec fn failure_audio(flow: DialplanFlow) -> Option<String> {
    match flow {
        DialplanFlow::Queue { plan, .. } => if plan.failure_audio is Some {
            plan.failure_audio
        } else {
            match plan.fallback {
                Some(
                    QueueFallbackAction::Failure(FailureAction::PlayThenHangup { audio_file, .. }),
                ) => Some(audio_file),
                _ => None,
            }
        },
        _ => None,
    }
}

/// The sound for a failed call: the queue's own, else that of its fallback.
pub fn failure_audio_file(flow: &DialplanFlow) -> (r: Option<String>)
    ensures
        r == failure_audio(*flow),
{
    match flow {
        DialplanFlow::Queue { plan, .. } => {
            if plan.failure_audio.is_some() {
                return plan.failure_audio.clone();
            }
            match &plan.fallback {
                Some(
                    QueueFallbackAction::Failure(FailureAction::PlayThenHangup { audio_file, .. }),
                ) => Some(audio_file.clone()),
                _ => None,
            }
        },
        _ => None,
    }
}

/// The targets of all stages of a flow, queue by queue.
pub open spec fn flat_targets(flow: DialplanFlow) -> Seq<Location>
    decreases flow,
{
    match flow {
        DialplanFlow::Targets(strategy) => strategy.targets(),
        DialplanFlow::Queue { plan, next } => (match plan.dial_strategy {
            Some(strategy) => strategy.targets(),
            None => Seq::empty(),
        }) + flat_targets(*next),
        DialplanFlow::Application { .. } => Seq::empty(),
    }
}

/// These references point to those locations.
pub open spec fn refer_to(refs: Seq<&Location>, locations: Seq<Location>) -> bool {
    refs.len() == locations.len() && forall|i: int|
        0 <= i < refs.len() ==> *(#[trigger] refs[i]) == locations[i]
}

fn collect_refs<'a>(locations: &'a Vec<Location>) -> (r: Vec<&'a Location>)
    ensures
        refer_to(r@, locations@),
{
    let mut r: Vec<&'a Location> = Vec::new();
    let mut i: usize = 0;
    while i < locations.len()
        invariant
            i <= locations@.len(),
            r@.len() == i,
            forall|j: int| 0 <= j < i ==> *(#[trigger] r@[j]) == locations@[j],
        decreases locations@.len() - i,
    {
        r.push(&locations[i]);
        i += 1;
    }
    r
}

/// The targets of all stages of a flow: the agents of each queue, then those of what
/// follows it.
pub fn flatten_targets<'a>(flow: &'a DialplanFlow) -> (r: Vec<&'a Location>)
    ensures
        refer_to(r@, flat_targets(*flow)),
    decreases flow,
{
    match flow {
        DialplanFlow::Targets(strategy) => collect_refs(strategy.locations()),
        DialplanFlow::Queue { plan, next } => {
            let mut r = match &plan.dial_strategy {
                Some(strategy) => collect_refs(strategy.locations()),
                None => Vec::new(),
            };
            let ghost first = r@;
            let mut rest = flatten_targets(next);
            let ghost second = rest@;
            r.append(&mut rest);
            assert(r@ =~= first + second);
            r
        },
        DialplanFlow::Application { .. } => Vec::new(),
    }
}

/// The agents of a queue come before everything that follows the queue.
pub proof fn queue_agents_come_first(plan: QueuePlan, next: DialplanFlow, i: int)
    requires
        plan.dial_strategy is Some,
        0 <= i < plan.dial_strategy->0.targets().len(),
    ensures
        flat_targets(DialplanFlow::Queue { plan, next: Box::new(next) })[i]
            == plan.dial_strategy->0.targets()[i],
        flat_targets(DialplanFlow::Queue { plan, next: Box::new(next) }).len()
            == plan.dial_strategy->0.targets().len() + flat_targets(next).len(),
{
}

/// The music of a queue.
pub fn hold_audio_file(flow: &DialplanFlow) -> (r: Option<String>)
    ensures
        r == (match *flow {
            DialplanFlow::Queue { plan, .. } => match plan.hold {
                Some(hold) => hold.audio_file,
                None => None,
            },
            _ => None,
        }),
{
    match flow {
        DialplanFlow::Queue { plan, .. } => match &plan.hold {
            Some(hold) => hold.audio_file.clone(),
            None => None,
        },
        _ => None,
    }
}

/// The time that an agent of the queue rings.
pub fn ring_timeout(flow: &DialplanFlow) -> (r: Option<u64>)
    ensures
        r == (match *flow {
            DialplanFlow::Queue { plan, .. } => plan.ring_timeout,
            _ => None,
        }),
{
    match flow {
        DialplanFlow::Queue { plan, .. } => plan.ring_timeout,
        _ => None,
    }
}

/// The first of several channels of sound: every sample whose place is a multiple of
/// their number.
pub open spec fn first_channel(samples: Seq<i16>, channels: nat) -> Seq<i16> {
    Seq::new((samples.len() + channels - 1) as nat / channels, |i: int| samples[i * channels])
}

proof fn next_place(k: nat, channels: nat, n: nat)
    requires
        channels >= 1,
    ensures
        k * channels < n ==> k < (n + channels - 1) as nat / channels,
        k * channels >= n ==> k >= (n + channels - 1) as nat / channels,
{
    let total = (n + channels - 1) as nat;
    let q = total / channels;
    let m = total % channels;
    vstd::arithmetic::div_mod::lemma_fundamental_div_mod(total as int, channels as int);
    assert(total == channels * q + m && m < channels);
    if k * channels < n {
        assert(k < q) by (nonlinear_arith)
            requires
                k * channels < n,
                n + channels - 1 == channels * q + m,
                m < channels,
                channels >= 1,
        ;
    } else {
        assert(k >= q) by (nonlinear_arith)
            requires
                k * channels >= n,
                n + channels - 1 == channels * q + m,
                channels >= 1,
        ;
    }
}

/// The sound of one channel, where there is any; a number of channels of zero counts as
/// one.
pub fn mono_samples(samples: &Vec<i16>, channels: u16) -> (r: Option<Vec<i16>>)
    ensures
        r is None <==> samples@.len() == 0,
        r matches Some(mono) ==> mono@ == first_channel(
            samples@,
            if channels == 0 {
                1
            } else {
                channels as nat
            },
        ),
{
    let n: usize = samples.len();
    if n == 0 {
        return None;
    }
    let step: usize = if channels == 0 {
        1
    } else {
        channels as usize
    };
    let mut mono: Vec<i16> = Vec::new();
    let mut i: usize = 0;
    let mut done = false;
    proof {
        assert(0 * step == 0) by (nonlinear_arith);
    }
    while !done && i < n
        invariant
            n == samples@.len(),
            step >= 1,
            !done ==> i == mono@.len() * step,
            done ==> mono@.len() * step >= n,
            mono@.len() > 0 ==> (mono@.len() - 1) * step < n,
            forall|j: int|
                0 <= j < mono@.len() ==> (#[trigger] mono@[j]) == samples@[j * step],
        decreases n - i, (if done { 0int } else { 1int }),
    {
        mono.push(samples[i]);
        assert(mono@.len() * step == (mono@.len() - 1) * step + step) by (nonlinear_arith);
        if n - i > step {
            i += step;
        } else {
            done = true;
        }
    }
    proof {
        assert(mono@.len() * step >= n);
        next_place(mono@.len() as nat, step as nat, n as nat);
        if mono@.len() > 0 {
            next_place((mono@.len() - 1) as nat, step as nat, n as nat);
        }
        assert(mono@ =~= first_channel(samples@, step as nat));
    }
    Some(mono)
}

/// How the media of a call are proxied.
#[derive(Clone, Copy, PartialEq, Eq, Debug, Structural)]
pub enum MediaProxyMode {
    All,
    Auto,
    Nat,
    Off,
    /// Any other mode.
    Other,
}

/// Whether the proxy anchors the media of a call: always where the call is recorded,
/// else as the mode says; the modes that look at the call anchor queues and
/// applications.
pub fn check_media_proxy(recording_enabled: bool, flow: &DialplanFlow, mode: MediaProxyMode) -> (r: bool)
    ensures
        r == (recording_enabled || mode == MediaProxyMode::All || ((mode == MediaProxyMode::Auto
            || mode == MediaProxyMode::Nat) && !(flow is Targets))),
{
    if recording_enabled {
        return true;
    }
    let app_or_queue = match flow {
        DialplanFlow::Targets(_) => false,
        _ => true,
    };
    match mode {
        MediaProxyMode::All => true,
        MediaProxyMode::Auto => app_or_queue,
        MediaProxyMode::Nat => app_or_queue,
        MediaProxyMode::Off => false,
        MediaProxyMode::Other => false,
    }
}

/// The queue has agents to dial.
pub open spec fn has_agents(plan: QueuePlan) -> bool {
    plan.dial_strategy matches Some(strategy) && strategy.targets().len() > 0
}

/// The first stage of a flow at which anything is done: queues without agents are passed
/// over.
pub open spec fn first_stage(flow: DialplanFlow) -> DialplanFlow
    decreases flow,
{
    match flow {
        DialplanFlow::Queue { plan, next } => if has_agents(plan) {
            flow
        } else {
            first_stage(*next)
        },
        _ => flow,
    }
}

/// The stage of a flow that is executed first, or after a queue that could not be
/// started.
pub fn next_stage<'a>(flow: &'a DialplanFlow) -> (r: &'a DialplanFlow)
    ensures
        *r == first_stage(*flow),
        *r matches DialplanFlow::Queue { plan, .. } ==> has_agents(plan),
    decreases flow,
{
    match flow {
        DialplanFlow::Queue { plan, next } => {
            let agents = match &plan.dial_strategy {
                Some(strategy) => strategy.locations().len() > 0,
                None => false,
            };
            if agents {
                flow
            } else {
                next_stage(next)
            }
        },
        _ => flow,
    }
}

/// The names by which the agents of a queue are dialled: their contacts as written, else
/// their addresses.
pub open spec fn agent_names(agents: Seq<Location>) -> Seq<Seq<char>> {
    agents.map_values(
        |l: Location|
            match l.contact_raw {
                Some(raw) => raw@,
                None => l.aor@.text(),
            },
    )
}

pub fn agent_uris(agents: &Vec<Location>) -> (r: Vec<String>)
    ensures
        text::views(r@) == agent_names(agents@),
{
    let mut r: Vec<String> = Vec::new();
    let mut i: usize = 0;
    while i < agents.len()
        invariant
            i <= agents@.len(),
            r@.len() == i,
            forall|j: int| 0 <= j < i ==> (#[trigger] r@[j])@ == agent_names(agents@)[j],
        decreases agents@.len() - i,
    {
        let name = match &agents[i].contact_raw {
            Some(raw) => raw.clone(),
            None => agents[i].aor.to_text(),
        };
        r.push(name);
        i += 1;
    }
    assert(text::views(r@) =~= agent_names(agents@));
    r
}

/// The conference that a call joins: the one that the application names, else one of its
/// own.
pub fn conference_id(params: Option<&Json>, session_id: &str) -> (r: String)
    ensures
        r@ == conference_of(value_of(params), session_id@),
{
    match get_text(params, "id") {
        Some(id) => id,
        None => text::concat("conf-", session_id),
    }
}

/// How a flow goes on once a stage was started, or could not be.
pub enum StageStep<'a> {
    /// The stage runs, and the caller's digits are listened for. A queue that calls its
    /// agents in turn is told to call the first; a conference is joined.
    Running { dial_first_agent: bool, join: Option<String> },
    /// This stage is executed instead.
    Next(&'a DialplanFlow),
    /// Nothing more is done.
    Stopped,
}

/// The conference that an application joins the call to.
pub open spec fn conference_of(params: Option<Json>, session_id: Seq<char>) -> Seq<char> {
    match text_at(params, "id"@) {
        Some(id) => id,
        None => "conf-"@ + session_id,
    }
}

/// What follows the start of a queue or an application. A queue that could not be started
/// gives way to what comes after it.
pub fn after_stage<'a>(stage: &'a DialplanFlow, started: bool, session_id: &str) -> (r: StageStep<'a>)
    requires
        !(stage is Targets),
    ensures
        match *stage {
            DialplanFlow::Queue { plan, next } => if started {
                r == (StageStep::Running {
                    dial_first_agent: !(plan.dial_strategy matches Some(DialStrategy::Parallel(_))),
                    join: None,
                })
            } else {
                r matches StageStep::Next(flow) && *flow == first_stage(*next)
            },
            DialplanFlow::Application { app_name, app_params, .. } => if !started {
                r is Stopped
            } else {
                &&& r matches StageStep::Running { dial_first_agent, join }
                &&& !dial_first_agent
                &&& text::opt_text(join) == (if app_name@ == "conference"@ {
                    Some(conference_of(app_params, session_id@))
                } else {
                    None
                })
            },
            DialplanFlow::Targets(_) => true,
        },
{
    match stage {
        DialplanFlow::Queue { plan, next } => {
            if started {
                let parallel = match &plan.dial_strategy {
                    Some(DialStrategy::Parallel(_)) => true,
                    _ => false,
                };
                StageStep::Running { dial_first_agent: !parallel, join: None }
            } else {
                StageStep::Next(next_stage(next))
            }
        },
        DialplanFlow::Application { app_name, app_params, .. } => {
            if !started {
                return StageStep::Stopped;
            }
            let join = if text::same(app_name, "conference") {
                Some(conference_id(app_params.as_ref(), session_id))
            } else {
                None
            };
            StageStep::Running { dial_first_agent: false, join }
        },
        DialplanFlow::Targets(_) => StageStep::Stopped,
    }
}

/// Plain targets are always supported, and an application exactly where it is the one that
/// walks a call graph and has one.
pub proof fn targets_and_graphs_are_supported(
    strategy: DialStrategy,
    app_name: String,
    app_params: Option<Json>,
    graph: Option<GraphDef>,
    auto_answer: bool,
)
    ensures
        supported(DialplanFlow::Targets(strategy)),
        supported(
            DialplanFlow::Application { app_name, app_params, graph, auto_answer },
        ) <==> app_name@ == "graph"@ && graph is Some,
{
}

/// A queue is not covered as soon as it asks for any one thing more: announcements,
/// failure audio, a policy, codes to retry after, a time for a first response, or another
/// end than a hangup. Music, agents, a time to ring and a hangup at the end are covered.
pub proof fn queue_is_covered_unless_it_asks_for_more(
    plan: QueuePlan,
    label: Option<String>,
    wait: Option<u64>,
    hold: Option<QueueHold>,
    now: bool,
)
    ensures
        plan.voice_prompts is Some || plan.failure_audio is Some || plan.acd_policy is Some
            || plan.retry_codes is Some || plan.no_trying_timeout is Some ==> !covered(plan),
        plan.fallback matches Some(QueueFallbackAction::Redirect { .. }) ==> !covered(plan),
        plan.fallback matches Some(QueueFallbackAction::Queue { .. }) ==> !covered(plan),
        plan.fallback matches Some(
            QueueFallbackAction::Failure(FailureAction::Transfer { .. }),
        ) ==> !covered(plan),
        plan.voice_prompts is None && plan.failure_audio is None && plan.acd_policy is None
            && plan.retry_codes is None && plan.no_trying_timeout is None ==> (plan.fallback is None
            ==> covered(plan)) && (plan.fallback matches Some(
            QueueFallbackAction::Failure(FailureAction::Hangup { .. }),
        ) ==> covered(plan)) && (plan.fallback matches Some(
            QueueFallbackAction::Failure(FailureAction::PlayThenHangup { .. }),
        ) ==> covered(plan)),
        covered(
            QueuePlan { label, ring_timeout: wait, hold, accept_immediately: now, ..plan },
        ) == covered(plan),
{
}

/// The sound of a failed call is the queue's own, else that of a fallback that plays one;
/// a flow that is no queue has none.
pub proof fn failure_sound_is_the_queues_own(plan: QueuePlan, next: DialplanFlow, s: DialStrategy)
    ensures
        plan.failure_audio is Some ==> failure_audio(
            DialplanFlow::Queue { plan, next: Box::new(next) },
        ) == plan.failure_audio,
        plan.failure_audio is None ==> (plan.fallback matches Some(
            QueueFallbackAction::Failure(FailureAction::PlayThenHangup { audio_file, .. }),
        ) ==> failure_audio(DialplanFlow::Queue { plan, next: Box::new(next) }) == Some(audio_file)),
        plan.failure_audio is None && plan.fallback is None ==> failure_audio(
            DialplanFlow::Queue { plan, next: Box::new(next) },
        ) is None,
        failure_audio(DialplanFlow::Targets(s)) is None,
{
}

/// The targets of a flow are those of its queues, then those that it ends with, each
/// strategy in its own order; an application has none.
pub proof fn targets_come_stage_by_stage(
    plan: QueuePlan,
    next: DialplanFlow,
    s: DialStrategy,
    all: Vec<Location>,
    i: int,
)
    requires
        0 <= i < flat_targets(next).len(),
    ensures
        flat_targets(DialplanFlow::Targets(s)) == s.targets(),
        DialStrategy::Sequential(all).targets() == all@,
        DialStrategy::Parallel(all).targets() == all@,
        plan.dial_strategy is None ==> flat_targets(
            DialplanFlow::Queue { plan, next: Box::new(next) },
        ) =~= flat_targets(next),
        plan.dial_strategy matches Some(agents) ==> flat_targets(
            DialplanFlow::Queue { plan, next: Box::new(next) },
        )[agents.targets().len() + i] == flat_targets(next)[i],
{
}

/// One channel of sound has a sample for each frame, the first of the frame: of a single
/// channel that is every sample.
pub proof fn first_channel_takes_each_frame(samples: Seq<i16>, channels: nat, i: int)
    requires
        channels >= 1,
    ensures
        first_channel(samples, 1) =~= samples,
        0 <= i && i * channels < samples.len() ==> 0 <= i < first_channel(samples, channels).len()
            && first_channel(samples, channels)[i] == samples[i * channels],
        samples.len() % channels == 0 ==> first_channel(samples, channels).len() * channels
            == samples.len(),
{
    assert(((samples.len() + 1 - 1) as nat) / 1 == samples.len()) by (nonlinear_arith);
    assert forall|k: int| 0 <= k < samples.len() implies first_channel(samples, 1)[k] == samples[k] by {
        assert(k * 1 == k);
    }
    if 0 <= i && i * channels < samples.len() {
        next_place(i as nat, channels, samples.len());
    }
    if samples.len() % channels == 0 {
        let n = samples.len();
        assert(((n + channels - 1) as nat / channels) * channels == n) by (nonlinear_arith)
            requires
                n % channels == 0,
                channels >= 1,
        ;
    }
}

/// The first stage at which anything is done is never a queue without agents, and a queue
/// with agents is its own first stage.
pub proof fn empty_queues_are_passed_over(plan: QueuePlan, next: DialplanFlow)
    ensures
        has_agents(plan) ==> first_stage(DialplanFlow::Queue { plan, next: Box::new(next) })
            == (DialplanFlow::Queue { plan, next: Box::new(next) }),
        !has_agents(plan) ==> first_stage(DialplanFlow::Queue { plan, next: Box::new(next) })
            == first_stage(next),
        !(next is Queue) ==> first_stage(next) == next,
        plan.dial_strategy is None ==> !has_agents(plan),
        plan.dial_strategy matches Some(DialStrategy::Sequential(all)) && all@.len() > 0 ==> has_agents(
            plan,
        ),
        plan.dial_strategy matches Some(DialStrategy::Parallel(all)) && all@.len() > 0 ==> has_agents(
            plan,
        ),
        plan.dial_strategy matches Some(DialStrategy::Sequential(all)) && all@.len() == 0
            ==> !has_agents(plan),
{
}

/// An agent is dialled by the contact as it was written, else by the address.
pub proof fn agent_goes_by_the_written_contact(agents: Seq<Location>, i: int)
    requires
        0 <= i < agents.len(),
    ensures
        agent_names(agents).len() == agents.len(),
        agents[i].contact_raw matches Some(raw) ==> agent_names(agents)[i] == raw@,
        agents[i].contact_raw is None ==> agent_names(agents)[i] == agents[i].aor@.text(),
{
}

/// A call joins the conference that the application names; without a name it has one of
/// its own, which differs from that of any other call.
pub proof fn unnamed_conference_is_the_calls_own(params: Option<Json>, a: Seq<char>, b: Seq<char>)
    ensures
        text_at(params, "id"@) matches Some(id) ==> conference_of(params, a) == id,
        conference_of(None, a) == "conf-"@ + a,
        text_at(params, "id"@) is None && a != b ==> conference_of(params, a) != conference_of(
            params,
            b,
        ),
{
    reveal_strlit("conf-");
    let x = "conf-"@ + a;
    let y = "conf-"@ + b;
    assert(x.subrange(5, x.len() as int) =~= a);
    assert(y.subrange(5, y.len() as int) =~= b);
}

/// References to locations are as many as those, each to its own.
pub proof fn each_reference_is_to_its_own(refs: Seq<&Location>, locations: Seq<Location>, i: int)
    requires
        refer_to(refs, locations),
        0 <= i < locations.len(),
    ensures
        refs.len() == locations.len(),
        *refs[i] == locations[i],
{
}

/// Media of a recorded call is always proxied, and where it is not recorded no call is
/// proxied but by its mode: every call under one mode, none under another, and calls that
/// do not simply ring their targets under the two that look at the call.
pub proof fn recorded_call_is_proxied(
    flow: DialplanFlow,
    mode: MediaProxyMode,
    recorded: bool,
    plain: bool,
)
    requires
        call_ensures(check_media_proxy, (true, &flow, mode), recorded),
        call_ensures(check_media_proxy, (false, &flow, mode), plain),
    ensures
        recorded,
        mode == MediaProxyMode::All ==> plain,
        mode == MediaProxyMode::Off || mode == MediaProxyMode::Other ==> !plain,
        mode == MediaProxyMode::Auto || mode == MediaProxyMode::Nat ==> (plain <==> !(
        flow is Targets)),
{
}

/// Only a queue plays music on hold and rings for a time of its own, those of its plan.
pub proof fn queue_rings_by_its_plan(
    flow: DialplanFlow,
    hold: Option<String>,
    timeout: Option<u64>,
)
    requires
        call_ensures(hold_audio_file, (&flow,), hold),
        call_ensures(ring_timeout, (&flow,), timeout),
    ensures
        !(flow is Queue) ==> hold is None && timeout is None,
        flow matches DialplanFlow::Queue { plan, .. } ==> {
            &&& timeout == plan.ring_timeout
            &&& plan.hold is None ==> hold is None
            &&& plan.hold matches Some(h) ==> hold == h.audio_file
        },
{
}

/// A queue that does not start hands on to what comes after it; an application that does not
/// start stops the call. Agents that are rung one by one have the first rung at once.
pub proof fn stage_that_fails_hands_on(
    stage: DialplanFlow,
    session_id: &str,
    started: StageStep,
    failed: StageStep,
)
    requires
        call_ensures(after_stage, (&stage, true, session_id), started),
        call_ensures(after_stage, (&stage, false, session_id), failed),
        !(stage is Targets),
    ensures
        started is Running,
        stage is Application ==> failed is Stopped,
        stage is Queue ==> failed is Next,
        stage matches DialplanFlow::Queue { plan, next } ==> {
            &&& failed matches StageStep::Next(flow) && *flow == first_stage(*next)
            &&& started->dial_first_agent <==> !(plan.dial_strategy is Some
                && plan.dial_strategy->0 is Parallel)
            &&& started->join is None
        },
        stage matches DialplanFlow::Application { app_name, .. } ==> {
            &&& !started->dial_first_agent
            &&& started->join is Some <==> app_name@ == "conference"@
        },
{
}

} // verus!
