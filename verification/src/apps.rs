//! The applications that a call can be handed to.

use crate::command::text_or;
use crate::flow::{QueueFallbackAction, QueueHold, QueuePlan};
use crate::json::{
    at, get_at, get_number, get_text, low32, number_at, text_at, to_low32, value_of, Json,
};
use crate::text;
use crate::uri::{clone_pairs, parsed_uri, Location, SipUri, UriView};
use vstd::prelude::*;

verus! {

/// What happens when a menu cannot be reached.
pub enum RetryFallback<'a> {
    /// What the parameters say.
    Given(&'a Json),
    /// This is played, and the call is hung up.
    HangUp { prompt: &'static str },
}

/// How often a step of a menu is asked for again, and what happens when it does not come.
pub struct RetryPlan<'a> {
    pub max_retries: u32,
    pub timeout_ms: u64,
    pub fallback: RetryFallback<'a>,
}

/// An application, with what its parameters say.
pub enum AppPlan<'a> {
    /// A menu whose steps are fetched one by one.
    StepIvr {
        url: String,
        headers: Vec<(String, String)>,
        retry: Option<RetryPlan<'a>>,
        name: String,
        tts: Option<&'a Json>,
    },
    /// A menu that a file describes.
    IvrFile { file: String, tts: Option<&'a Json> },
    Voicemail { extension: String, greeting_path: Option<String> },
    CheckVoicemail,
    Conference { id: String },
    /// The queue that waits for the call, and how it is run.
    Queue { plan: QueuePlan, config: QueueConfig },
}

/// The members of an object that are texts, with their names.
pub open spec fn text_members(entries: Seq<(String, Json)>) -> Seq<(Seq<char>, Seq<char>)>
    decreases entries.len(),
{
    if entries.len() == 0 {
        Seq::empty()
    } else {
        let before = text_members(entries.drop_last());
        match entries.last().1.text() {
            Some(t) => before.push((entries.last().0@, t)),
            None => before,
        }
    }
}

/// The headers that a menu is fetched with.
pub open spec fn fetch_headers(v: Option<Json>) -> Seq<(Seq<char>, Seq<char>)> {
    match v {
        Some(Json::Object(entries)) => text_members(entries@),
        _ => Seq::empty(),
    }
}

fn collect_text_members(entries: &Vec<(String, Json)>) -> (r: Vec<(String, String)>)
    ensures
        crate::uri::pair_views(r@) == text_members(entries@),
{
    let mut r: Vec<(String, String)> = Vec::new();
    let mut i: usize = 0;
    proof {
        assert(entries@.subrange(0, 0) =~= Seq::empty());
        assert(crate::uri::pair_views(r@) =~= Seq::empty());
    }
    while i < entries.len()
        invariant
            i <= entries@.len(),
            crate::uri::pair_views(r@) == text_members(entries@.subrange(0, i as int)),
        decreases entries@.len() - i,
    {
        proof {
            assert(entries@.subrange(0, i + 1).drop_last() =~= entries@.subrange(0, i as int));
            assert(entries@.subrange(0, i + 1).last() == entries@[i as int]);
        }
        if let Some(value) = entries[i].1.as_str() {
            let ghost before = crate::uri::pair_views(r@);
            r.push((entries[i].0.clone(), value.clone()));
            assert(crate::uri::pair_views(r@) =~= before.push((entries@[i as int].0@, value@)));
        }
        i += 1;
    }
    assert(entries@.subrange(0, entries@.len() as int) =~= entries@);
    r
}

/// The parameters ask for a menu whose steps are fetched.
pub open spec fn asks_for_steps(params: Option<Json>) -> bool {
    text_at(params, "mode"@) == Some("step"@) && at(params, "url"@) is Some
}

/// How often a step is asked for again, as the parameters say.
pub open spec fn is_retry_plan(plan: RetryPlan, retry: Json) -> bool {
    &&& plan.max_retries == low32(
        match number_at(Some(retry), "max_retries"@) {
            Some(n) => n,
            None => 3,
        },
    )
    &&& plan.timeout_ms == (match number_at(Some(retry), "timeout_ms"@) {
        Some(n) => n,
        None => match number_at(Some(retry), "delay_ms"@) {
            Some(n) => n,
            None => 1000,
        },
    })
    &&& match at(Some(retry), "fallback"@) {
        Some(action) => plan.fallback matches RetryFallback::Given(given) && *given == action,
        None => plan.fallback matches RetryFallback::HangUp { prompt } && prompt@
            == "sounds/error.wav"@,
    }
}

/// The plan is what the parameters ask of a menu that is fetched.
pub open spec fn is_step_plan(plan: Option<AppPlan>, params: Option<Json>) -> bool {
    match text_at(params, "url"@) {
        None => plan is None,
        Some(address) => {
            &&& plan matches Some(AppPlan::StepIvr { url, headers, retry, name, tts })
            &&& url@ == address
            &&& crate::uri::pair_views(headers@) == fetch_headers(at(params, "headers"@))
            &&& match at(params, "retry"@) {
                Some(asked) => retry is Some && is_retry_plan(retry->0, asked),
                None => retry is None,
            }
            &&& name@ == text_or(text_at(params, "name"@), "step_ivr"@)
            &&& value_of(tts) == at(params, "tts"@)
        },
    }
}

/// The plan is that of the application of this name, with these parameters, where
/// `pending` is the queue that waits for the call.
pub open spec fn is_app_plan(
    plan: Option<AppPlan>,
    app_name: Seq<char>,
    params: Option<Json>,
    has_mailboxes: bool,
    pending: Option<PendingQueue>,
) -> bool {
    if app_name == "ivr"@ {
        if asks_for_steps(params) {
            is_step_plan(plan, params)
        } else {
            match text_at(params, "file"@) {
                Some(path) => {
                    &&& plan matches Some(AppPlan::IvrFile { file, tts })
                    &&& file@ == path
                    &&& value_of(tts) == at(params, "tts"@)
                },
                None => plan is None,
            }
        }
    } else if app_name == "voicemail"@ {
        match text_at(params, "extension"@) {
            Some(ext) => {
                &&& plan matches Some(AppPlan::Voicemail { extension, greeting_path })
                &&& extension@ == ext
                &&& text::opt_text(greeting_path) == text_at(params, "greeting_path"@)
            },
            None => plan is None,
        }
    } else if app_name == "check_voicemail"@ {
        if has_mailboxes {
            plan matches Some(AppPlan::CheckVoicemail)
        } else {
            plan is None
        }
    } else if app_name == "conference"@ {
        if params is Some {
            plan matches Some(AppPlan::Conference { id }) && id@ == text_or(
                text_at(params, "id"@),
                "default"@,
            )
        } else {
            plan is None
        }
    } else if app_name == "queue"@ {
        match pending {
            Some(waiting) => {
                &&& plan matches Some(AppPlan::Queue { plan: queue, config })
                &&& queue == waiting.plan
                &&& is_queue_config(config, waiting.plan, waiting.agent_uris@, waiting.parallel)
            },
            None => plan is None,
        }
    } else {
        plan is None
    }
}

fn retry_plan<'a>(retry: &'a Json) -> (r: RetryPlan<'a>)
    ensures
        is_retry_plan(r, *retry),
{
    let max_retries = match get_number(Some(retry), "max_retries") {
        Some(n) => to_low32(n),
        None => to_low32(3),
    };
    let timeout_ms = match get_number(Some(retry), "timeout_ms") {
        Some(n) => n,
        None => match get_number(Some(retry), "delay_ms") {
            Some(n) => n,
            None => 1000,
        },
    };
    let fallback = match get_at(Some(retry), "fallback") {
        Some(action) => RetryFallback::Given(action),
        None => RetryFallback::HangUp { prompt: "sounds/error.wav" },
    };
    RetryPlan { max_retries, timeout_ms, fallback }
}

fn step_plan<'a>(params: Option<&'a Json>) -> (r: Option<AppPlan<'a>>)
    ensures
        is_step_plan(r, value_of(params)),
{
    let url = match get_text(params, "url") {
        Some(url) => url,
        None => {
            return None;
        },
    };
    let headers = match get_at(params, "headers") {
        Some(Json::Object(entries)) => collect_text_members(entries),
        _ => {
            let none: Vec<(String, String)> = Vec::new();
            assert(crate::uri::pair_views(none@) =~= Seq::empty());
            none
        },
    };
    let retry = match get_at(params, "retry") {
        Some(asked) => Some(retry_plan(asked)),
        None => None,
    };
    let name = match get_text(params, "name") {
        Some(name) => name,
        None => "step_ivr".to_owned(),
    };
    Some(AppPlan::StepIvr { url, headers, retry, name, tts: get_at(params, "tts") })
}

/// The queue that waits for the call once the application of this name was planned: the
/// queue application takes it.
pub open spec fn pending_after(app_name: Seq<char>, pending: Option<PendingQueue>) -> Option<PendingQueue> {
    if app_name == "queue"@ {
        None
    } else {
        pending
    }
}

proof fn queue_is_no_other_name()
    ensures
        "queue"@ != "ivr"@,
        "queue"@ != "voicemail"@,
        "queue"@ != "check_voicemail"@,
        "queue"@ != "conference"@,
{
    reveal_strlit("ivr");
    reveal_strlit("voicemail");
    reveal_strlit("check_voicemail");
    reveal_strlit("conference");
    reveal_strlit("queue");
    assert("queue"@[0] != "ivr"@[0]);
    assert("queue"@[0] != "voicemail"@[0]);
    assert("queue"@[0] != "check_voicemail"@[0]);
    assert("queue"@[0] != "conference"@[0]);
}

/// Plans the application of this name, where there is one and its parameters say enough.
/// The queue application takes the queue that waits for the call, and needs one.
pub fn create_app<'a>(
    app_name: &str,
    params: Option<&'a Json>,
    has_mailboxes: bool,
    pending: &mut Option<PendingQueue>,
) -> (r: Option<AppPlan<'a>>)
    ensures
        is_app_plan(r, app_name@, value_of(params), has_mailboxes, *old(pending)),
        *final(pending) == pending_after(app_name@, *old(pending)),
{
    proof {
        queue_is_no_other_name();
    }
    if text::same(app_name, "ivr") {
        let steps = match get_text(params, "mode") {
            Some(mode) => text::same(&mode, "step"),
            None => false,
        };
        if steps && get_at(params, "url").is_some() {
            return step_plan(params);
        }
        match get_text(params, "file") {
            Some(file) => Some(AppPlan::IvrFile { file, tts: get_at(params, "tts") }),
            None => None,
        }
    } else if text::same(app_name, "voicemail") {
        match get_text(params, "extension") {
            Some(extension) => Some(
                AppPlan::Voicemail { extension, greeting_path: get_text(params, "greeting_path") },
            ),
            None => None,
        }
    } else if text::same(app_name, "check_voicemail") {
        if has_mailboxes {
            Some(AppPlan::CheckVoicemail)
        } else {
            None
        }
    } else if text::same(app_name, "conference") {
        if params.is_none() {
            return None;
        }
        let id = match get_text(params, "id") {
            Some(id) => id,
            None => "default".to_owned(),
        };
        Some(AppPlan::Conference { id })
    } else if text::same(app_name, "queue") {
        match pending.take() {
            Some(waiting) => {
                let config = queue_config(&waiting.plan, &waiting.agent_uris, waiting.parallel);
                Some(AppPlan::Queue { plan: waiting.plan, config })
            },
            None => None,
        }
    } else {
        None
    }
}

/// A queue that waits for a call starts one application: once it was taken, the queue
/// application is not planned again, whatever was planned in between.
pub proof fn pending_queue_is_taken_once(
    between: Seq<char>,
    again: Option<AppPlan>,
    params: Option<Json>,
    has_mailboxes: bool,
    pending: Option<PendingQueue>,
)
    requires
        is_app_plan(
            again,
            "queue"@,
            params,
            has_mailboxes,
            pending_after(between, pending_after("queue"@, pending)),
        ),
    ensures
        again is None,
        pending_after("queue"@, pending_after(between, pending_after("queue"@, pending))) is None,
{
    queue_is_no_other_name();
}

/// Where the steps of a menu come from that a file describes.
pub struct StepProvider {
    pub url: String,
    pub headers: Vec<(String, String)>,
    pub max_retries: u32,
    pub retry_delay_ms: u64,
}

/// The kind of menu that a file describes.
pub enum FileMenu {
    Steps(StepProvider),
    Tree,
}

/// The menu that a file describes; one that is fetched needs to say from where.
pub fn file_menu(step_mode: bool, provider: Option<StepProvider>) -> (r: Option<FileMenu>)
    ensures
        r == (if !step_mode {
            Some(FileMenu::Tree)
        } else {
            match provider {
                Some(p) => Some(FileMenu::Steps(p)),
                None => None,
            }
        }),
{
    if !step_mode {
        return Some(FileMenu::Tree);
    }
    match provider {
        Some(p) => Some(FileMenu::Steps(p)),
        None => None,
    }
}

/// The address that an agent is dialled at: as written, else as the user part of a SIP
/// address, else that of this host.
pub open spec fn agent_aor(uri: Seq<char>) -> UriView {
    match parsed_uri(uri) {
        Some(u) => u,
        None => match parsed_uri("sip:"@ + uri) {
            Some(u) => u,
            None => local_address(),
        },
    }
}

/// The address that names nobody.
pub open spec fn local_address() -> UriView {
    UriView {
        scheme: None,
        auth: None,
        host: "localhost"@,
        port: None,
        params: Seq::empty(),
        headers: Seq::empty(),
    }
}

fn local_uri() -> (r: SipUri)
    ensures
        r@ == local_address(),
{
    let headers: Vec<(String, String)> = Vec::new();
    let r = SipUri {
        scheme: None,
        auth: None,
        host: "localhost".to_owned(),
        port: None,
        params: "".to_owned(),
        headers,
    };
    proof {
        reveal_strlit("");
        assert(""@ =~= Seq::empty());
        assert(crate::uri::pair_views(r.headers@) =~= Seq::empty());
        assert(r@ =~= local_address());
    }
    r
}

/// The address of an agent, by what its name and its name with the scheme read as.
pub fn agent_uri_from(plain: Option<SipUri>, with_scheme: Option<SipUri>) -> (r: SipUri)
    ensures
        r@ == (match (plain, with_scheme) {
            (Some(u), _) => u@,
            (None, Some(u)) => u@,
            (None, None) => local_address(),
        }),
{
    match plain {
        Some(u) => u,
        None => match with_scheme {
            Some(u) => u,
            None => local_uri(),
        },
    }
}

fn agent_uri(uri: &str) -> (r: SipUri)
    ensures
        r@ == agent_aor(uri@),
{
    let plain = SipUri::parse(uri);
    let with_scheme = SipUri::parse(&text::concat("sip:", uri));
    agent_uri_from(plain, with_scheme)
}

/// The queue that waits for a call, as the queue application runs it.
pub struct QueueConfig {
    pub name: String,
    pub accept_immediately: bool,
    pub hold: Option<QueueHold>,
    pub fallback: Option<QueueFallbackAction>,
    pub voice_prompts: Option<Vec<(String, String)>>,
    pub ring_timeout: Option<u64>,
    pub agents: Vec<Location>,
    pub parallel: bool,
}

/// The location is that of the agent of this name, and says nothing more.
pub open spec fn is_agent(a: Location, name: Seq<char>) -> bool {
    &&& a.aor@ == agent_aor(name)
    &&& text::opt_text(a.contact_raw) == Some(name)
    &&& a.is_bare_but_contact()
}

/// The agents are those of these names.
pub open spec fn are_agents(agents: Seq<Location>, names: Seq<Seq<char>>) -> bool {
    agents.len() == names.len() && forall|i: int|
        0 <= i < agents.len() ==> is_agent(#[trigger] agents[i], names[i])
}

/// A queue that waits for a call, with the addresses of its agents, and whether they are
/// called at once.
pub struct PendingQueue {
    pub plan: QueuePlan,
    pub agent_uris: Vec<String>,
    pub parallel: bool,
}

/// The configuration is that of the queue: under its label where it has one, with the
/// agents as they were resolved.
pub open spec fn is_queue_config(c: QueueConfig, plan: QueuePlan, agent_uris: Seq<String>, parallel: bool) -> bool {
    &&& c.name == (match plan.label {
        Some(label) => label,
        None => plan.queue_name,
    })
    &&& c.accept_immediately == plan.accept_immediately
    &&& c.hold == plan.hold
    &&& c.fallback == plan.fallback
    &&& match (c.voice_prompts, plan.voice_prompts) {
        (Some(a), Some(b)) => a@ == b@,
        (None, None) => true,
        _ => false,
    }
    &&& c.ring_timeout == plan.ring_timeout
    &&& c.parallel == parallel
    &&& are_agents(c.agents@, text::views(agent_uris))
}

/// The configuration of a queue that waits for a call.
pub fn queue_config(plan: &QueuePlan, agent_uris: &Vec<String>, parallel: bool) -> (r: QueueConfig)
    ensures
        is_queue_config(r, *plan, agent_uris@, parallel),
{
    let mut agents: Vec<Location> = Vec::new();
    let mut i: usize = 0;
    while i < agent_uris.len()
        invariant
            i <= agent_uris@.len(),
            agents@.len() == i,
            are_agents(agents@, text::views(agent_uris@).subrange(0, i as int)),
        decreases agent_uris@.len() - i,
    {
        let uri = &agent_uris[i];
        let mut agent = Location::bare(agent_uri(uri));
        agent.contact_raw = Some(uri.clone());
        let ghost before = agents@;
        let ghost added = agent;
        agents.push(agent);
        proof {
            let names = text::views(agent_uris@);
            assert forall|j: int| 0 <= j < agents@.len() implies is_agent(
                #[trigger] agents@[j],
                names.subrange(0, i + 1)[j],
            ) by {
                if j < i {
                    assert(agents@[j] == before[j]);
                    assert(names.subrange(0, i as int)[j] == names.subrange(0, i + 1)[j]);
                }
            }
        }
        i += 1;
    }
    assert(text::views(agent_uris@).subrange(0, agent_uris@.len() as int) =~= text::views(
        agent_uris@,
    ));
    let name = match &plan.label {
        Some(label) => label.clone(),
        None => plan.queue_name.clone(),
    };
    let hold = match &plan.hold {
        Some(hold) => Some(hold.clone()),
        None => None,
    };
    let fallback = match &plan.fallback {
        Some(action) => Some(action.clone()),
        None => None,
    };
    let voice_prompts = match &plan.voice_prompts {
        Some(prompts) => Some(clone_pairs(prompts)),
        None => None,
    };
    QueueConfig {
        name,
        accept_immediately: plan.accept_immediately,
        hold,
        fallback,
        voice_prompts,
        ring_timeout: plan.ring_timeout,
        agents,
        parallel,
    }
}

/// The name of an application decides what is planned, and an application that is not
/// known is not planned: a menu for `ivr`, a mailbox for `voicemail`, and so on.
pub proof fn name_decides_the_application(
    plan: Option<AppPlan>,
    app_name: Seq<char>,
    params: Option<Json>,
    has_mailboxes: bool,
    pending: Option<PendingQueue>,
)
    requires
        is_app_plan(plan, app_name, params, has_mailboxes, pending),
    ensures
        plan matches Some(AppPlan::StepIvr { .. }) ==> app_name == "ivr"@,
        plan matches Some(AppPlan::IvrFile { .. }) ==> app_name == "ivr"@,
        plan matches Some(AppPlan::Voicemail { .. }) ==> app_name == "voicemail"@,
        (plan matches Some(AppPlan::CheckVoicemail)) <==> app_name == "check_voicemail"@
            && has_mailboxes,
        (plan matches Some(AppPlan::Conference { .. })) <==> app_name == "conference"@ && params is Some,
        (plan matches Some(AppPlan::Queue { .. })) <==> app_name == "queue"@ && pending is Some,
        app_name != "ivr"@ && app_name != "voicemail"@ && app_name != "check_voicemail"@ && app_name
            != "conference"@ && app_name != "queue"@ ==> plan is None,
        params is None && (app_name == "ivr"@ || app_name == "voicemail"@) ==> plan is None,
{
    reveal_strlit("ivr");
    reveal_strlit("voicemail");
    reveal_strlit("check_voicemail");
    reveal_strlit("conference");
    reveal_strlit("queue");
    assert("ivr"@.len() == 3);
    assert("voicemail"@.len() == 9);
    assert("check_voicemail"@.len() == 15);
    assert("conference"@.len() == 10);
    assert("queue"@.len() == 5);
}

/// A menu is fetched step by step exactly where its mode says so and it names an address;
/// else it is taken from the file that is named. It needs one of the two.
pub proof fn menu_is_fetched_or_read(plan: Option<AppPlan>, params: Json, pending: Option<PendingQueue>)
    requires
        is_app_plan(plan, "ivr"@, Some(params), false, pending),
    ensures
        params.member("mode"@) matches Some(Json::Text(m)) && m@ == "step"@ && (
        params.member("url"@) matches Some(Json::Text(u))) ==> (
        plan matches Some(AppPlan::StepIvr { url, .. }) && url@
            == params.member("url"@)->0->Text_0@),
        plan matches Some(AppPlan::StepIvr { .. }) ==> text_at(Some(params), "mode"@) == Some("step"@),
        params.member("url"@) is None && (params.member("file"@) matches Some(Json::Text(f))) ==> (
        plan matches Some(AppPlan::IvrFile { file, tts }) && file@
            == params.member("file"@)->0->Text_0@ && value_of(tts) == params.member("tts"@)),
        params.member("mode"@) is None && (params.member("file"@) matches Some(Json::Text(f))) ==> (
        plan matches Some(AppPlan::IvrFile { file, .. }) && file@
            == params.member("file"@)->0->Text_0@),
        params.member("url"@) is None && params.member("file"@) is None ==> plan is None,
        plan matches Some(AppPlan::StepIvr { name, tts, retry, .. }) ==> value_of(tts) == params.member(
            "tts"@,
        ) && (params.member("name"@) matches Some(Json::Text(n)) ==> name@ == n@) && (
        params.member("name"@) is None ==> name@ == "step_ivr"@) && (retry is Some
            <==> params.member("retry"@) is Some),
{
}

/// A step that does not come is asked for again as often and as soon as the parameters
/// say, else three times with a second between; the delay counts where no timeout is
/// given. At last what they name is done, else the call is hung up with the error prompt.
pub proof fn retry_is_what_is_asked(plan: RetryPlan, retry: Json)
    requires
        is_retry_plan(plan, retry),
    ensures
        number_at(Some(retry), "max_retries"@) matches Some(n) && n <= 0xFFFF_FFFF ==> plan.max_retries
            == number_at(Some(retry), "max_retries"@)->0,
        retry.member("max_retries"@) is None ==> plan.max_retries == 3,
        number_at(Some(retry), "timeout_ms"@) matches Some(n) ==> plan.timeout_ms == n,
        retry.member("timeout_ms"@) is None ==> (number_at(Some(retry), "delay_ms"@) matches Some(n)
            ==> plan.timeout_ms == n),
        retry.member("timeout_ms"@) is None && retry.member("delay_ms"@) is None ==> plan.timeout_ms
            == 1000,
        retry.member("fallback"@) matches Some(action) ==> (
        plan.fallback matches RetryFallback::Given(given) && *given == action),
        retry.member("fallback"@) is None ==> (
        plan.fallback matches RetryFallback::HangUp { prompt } && prompt@ == "sounds/error.wav"@),
{
}

/// A mailbox is that of the extension that is named, with the greeting that is named; a
/// conference without a name is the default one.
pub proof fn mailbox_and_room_are_the_named(
    mailbox: Option<AppPlan>,
    room: Option<AppPlan>,
    params: Json,
    pending: Option<PendingQueue>,
)
    requires
        is_app_plan(mailbox, "voicemail"@, Some(params), false, pending),
        is_app_plan(room, "conference"@, Some(params), false, pending),
    ensures
        params.member("extension"@) matches Some(Json::Text(e)) ==> (
        mailbox matches Some(AppPlan::Voicemail { extension, greeting_path }) && extension@ == e@ && (
        params.member("greeting_path"@) matches Some(Json::Text(g)) ==> text::opt_text(greeting_path)
            == Some(g@)) && (params.member("greeting_path"@) is None ==> greeting_path is None)),
        params.member("extension"@) is None ==> mailbox is None,
        params.member("id"@) matches Some(Json::Text(i)) ==> (
        room matches Some(AppPlan::Conference { id }) && id@ == i@),
        params.member("id"@) is None ==> (room matches Some(AppPlan::Conference { id }) && id@
            == "default"@),
{
    reveal_strlit("ivr");
    reveal_strlit("voicemail");
    reveal_strlit("check_voicemail");
    reveal_strlit("conference");
    reveal_strlit("queue");
    assert("ivr"@.len() == 3);
    assert("voicemail"@.len() == 9);
    assert("check_voicemail"@.len() == 15);
    assert("conference"@.len() == 10);
    assert("queue"@.len() == 5);
}

/// The members of an object that are texts are taken with their names, in order, and the
/// others are left out.
pub proof fn text_members_are_taken_in_order(
    entries: Seq<(String, Json)>,
    key: String,
    value: Json,
)
    ensures
        value.text() matches Some(t) ==> text_members(entries.push((key, value))) == text_members(
            entries,
        ).push((key@, t)),
        value.text() is None ==> text_members(entries.push((key, value))) == text_members(entries),
        text_members(Seq::empty()).len() == 0,
{
    assert(entries.push((key, value)).drop_last() =~= entries);
}

/// A queue that waits is left waiting by every application but its own.
pub proof fn only_the_queue_takes_the_waiting(app_name: Seq<char>, pending: Option<PendingQueue>)
    ensures
        app_name != "queue"@ ==> pending_after(app_name, pending) == pending,
        pending_after("queue"@, pending) is None,
{
}

/// An agent is dialled at the address that is written wherever it can be read, with or
/// without a scheme; the address of nobody is dialled only where neither can.
pub proof fn agent_is_dialled_as_written(uri: Seq<char>)
    ensures
        parsed_uri(uri) matches Some(u) ==> agent_aor(uri) == u,
        parsed_uri(uri) is None ==> (parsed_uri("sip:"@ + uri) matches Some(u) ==> agent_aor(uri)
            == u),
        parsed_uri(uri) is None && parsed_uri("sip:"@ + uri) is None ==> agent_aor(uri).host
            == "localhost"@ && agent_aor(uri).auth is None && agent_aor(uri).port is None,
{
}

/// A queue runs under its label where it has one, with the agents in the order in which
/// they were resolved, each under its own name, and otherwise as it was planned.
pub proof fn queue_runs_as_planned(
    c: QueueConfig,
    plan: QueuePlan,
    agent_uris: Seq<String>,
    parallel: bool,
    i: int,
)
    requires
        is_queue_config(c, plan, agent_uris, parallel),
        0 <= i < agent_uris.len(),
    ensures
        plan.label matches Some(label) ==> c.name == label,
        plan.label is None ==> c.name == plan.queue_name,
        c.parallel == parallel,
        c.accept_immediately == plan.accept_immediately,
        c.hold == plan.hold,
        c.fallback == plan.fallback,
        c.ring_timeout == plan.ring_timeout,
        c.voice_prompts is Some <==> plan.voice_prompts is Some,
        c.agents@.len() == agent_uris.len(),
        c.agents@[i].aor@ == agent_aor(agent_uris[i]@),
        text::opt_text(c.agents@[i].contact_raw) == Some(agent_uris[i]@),
{
    assert(text::views(agent_uris)[i] == agent_uris[i]@);
    assert(is_agent(c.agents@[i], text::views(agent_uris)[i]));
}

/// A menu is read as steps only in step mode, from the provider that is set up for it.
pub proof fn steps_need_their_provider(
    provider: Option<StepProvider>,
    tree: Option<FileMenu>,
    steps: Option<FileMenu>,
)
    requires
        call_ensures(file_menu, (false, provider), tree),
        call_ensures(file_menu, (true, provider), steps),
    ensures
        tree is Some && tree->0 is Tree,
        steps is None <==> provider is None,
        provider matches Some(p) ==> steps == Some(FileMenu::Steps(p)),
{
}

} // verus!
