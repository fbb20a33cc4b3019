//! The routes of a proxy: which calls they take and where they send them.

use crate::conditions::{
    apply_match_filters, canonical_key, filtered_conditions_are_final, finalize_match_conditions,
    header_after, header_text, last_entry_of_a_part_counts, name_speaks_of_its_part, names_header,
    normalize_rewrite_rules, part_after, sanitize_metadata_string, Field, MatchConditions,
    RewriteRules,
};
use crate::json::Json;
use crate::paths;
use crate::text;
use crate::trunk::ConfigOrigin;
use vstd::prelude::*;

verus! {

/// The trunk, or the trunks, that a route sends calls to.
pub enum DestConfig {
    Single(String),
    Multiple(Vec<String>),
}

/// What a route does with a call.
pub struct RouteAction {
    pub dest: Option<DestConfig>,
    pub select: String,
    pub hash_key: Option<String>,
    pub queue: Option<String>,
    pub app: Option<String>,
    pub app_params: Option<Json>,
}

impl RouteAction {
    /// An action that does nothing.
    pub fn new() -> (r: RouteAction)
        ensures
            r.dest is None,
            r.select@.len() == 0,
            r.hash_key is None,
            r.queue is None,
            r.app is None,
            r.app_params is None,
    {
        proof {
            reveal_strlit("");
        }
        RouteAction {
            dest: None,
            select: "".to_owned(),
            hash_key: None,
            queue: None,
            app: None,
            app_params: None,
        }
    }
}

pub struct RouteRule {
    pub name: String,
    pub description: Option<String>,
    pub priority: i32,
    pub source_trunks: Vec<String>,
    pub source_trunk_ids: Vec<i64>,
    pub match_conditions: MatchConditions,
    pub rewrite: Option<RewriteRules>,
    pub action: RouteAction,
    pub disabled: Option<bool>,
    pub policy: Option<String>,
    pub origin: ConfigOrigin,
    pub codecs: Vec<String>,
    pub disable_ice_servers: Option<bool>,
}

/// The name of an IVR as a file name: letters, digits, hyphens and underscores stay, and
/// everything else becomes an underscore.
pub open spec fn ivr_filename(name: Seq<char>) -> Seq<char> {
    name.map_values(
        |c: char|
            if text::char_is_alphanumeric(c) || c == '-' || c == '_' {
                c
            } else {
                '_'
            },
    )
}

/// The file name of an IVR. It holds no slash, no backslash and no dot: the file stays in
/// its directory.
pub fn sanitize_ivr_filename(name: &str) -> (r: String)
    ensures
        r@ == ivr_filename(name@),
        r@.len() == name@.len(),
        !r@.contains('/'),
        !r@.contains('\\'),
        !r@.contains('.'),
{
    let chars = text::chars_of(name);
    let mut kept: Vec<char> = Vec::new();
    let mut i: usize = 0;
    while i < chars.len()
        invariant
            i <= chars@.len(),
            chars@ == name@,
            kept@ =~= ivr_filename(name@).subrange(0, i as int),
            forall|j: int|
                0 <= j < i ==> (#[trigger] kept@[j]) != '/' && kept@[j] != '\\' && kept@[j] != '.',
        decreases chars@.len() - i,
    {
        let c = chars[i];
        if text::is_alphanumeric(c) || c == '-' || c == '_' {
            kept.push(c);
        } else {
            kept.push('_');
        }
        i += 1;
    }
    let r = text::text_of(&kept, 0, kept.len());
    assert(r@ =~= ivr_filename(name@));
    assert(r@ =~= kept@);
    r
}

/// The file of an IVR that was written by hand, by the name of the IVR as a file name.
pub open spec fn hand_written_file(dir: Seq<char>, file: Seq<char>) -> Seq<char> {
    paths::joined_path(dir, file + ".toml"@)
}

/// The file of an IVR that was generated, by the name of the IVR as a file name.
pub open spec fn generated_file(dir: Seq<char>, file: Seq<char>) -> Seq<char> {
    paths::joined_path(dir, file + ".generated.toml"@)
}

/// The two files that an IVR may be in: the one that was written by hand, and the one
/// that was generated.
pub fn ivr_candidates(name: &str, ivr_dir: &str) -> (r: (String, String))
    ensures
        r.0@ == hand_written_file(ivr_dir@, ivr_filename(name@)),
        r.1@ == generated_file(ivr_dir@, ivr_filename(name@)),
{
    let file = sanitize_ivr_filename(name);
    (
        paths::join(ivr_dir, &text::concat(&file, ".toml")),
        paths::join(ivr_dir, &text::concat(&file, ".generated.toml")),
    )
}

/// The file of an IVR: the one that was written by hand, unless only the generated one is
/// there.
pub fn resolve_ivr_name_to_path(
    name: &str,
    ivr_dir: &str,
    hand_written_exists: bool,
    generated_exists: bool,
) -> (r: String)
    ensures
        r@ == (if !hand_written_exists && generated_exists {
            generated_file(ivr_dir@, ivr_filename(name@))
        } else {
            hand_written_file(ivr_dir@, ivr_filename(name@))
        }),
{
    let (hand_written, generated) = ivr_candidates(name, ivr_dir);
    if hand_written_exists {
        return hand_written;
    }
    if generated_exists {
        return generated;
    }
    hand_written
}

/// What the metadata of a route say about its target.
pub struct RouteMetadataAction {
    pub target_type: Option<String>,
    pub queue_file: Option<String>,
    pub voicemail_extension: Option<String>,
    pub ivr_file: Option<String>,
}

/// Where IVRs are kept, and which files of the IVR in question are there.
pub struct IvrDir {
    pub dir: String,
    pub hand_written_exists: bool,
    pub generated_exists: bool,
}

/// The kind of target that the metadata name.
pub open spec fn target_type(meta: RouteMetadataAction) -> Seq<char> {
    match meta.target_type {
        Some(t) => text::ascii_lower(text::trimmed(t@)),
        None => "sip_trunk"@,
    }
}

/// The text without the blanks around it, where anything is left.
pub open spec fn sanitized(value: Option<String>) -> Option<Seq<char>> {
    match value {
        Some(raw) => if text::trimmed(raw@).len() > 0 {
            Some(text::trimmed(raw@))
        } else {
            None
        },
        None => None,
    }
}

/// The file that an IVR is taken from.
pub open spec fn ivr_path(file: Seq<char>, ivr: Option<IvrDir>) -> Seq<char> {
    match ivr {
        Some(d) => if !d.hand_written_exists && d.generated_exists {
            generated_file(d.dir@, ivr_filename(file))
        } else {
            hand_written_file(d.dir@, ivr_filename(file))
        },
        None => file,
    }
}

/// The parameters are an object with this one text.
pub open spec fn is_single_param(params: Option<Json>, key: Seq<char>, value: Seq<char>) -> bool {
    &&& params matches Some(Json::Object(entries))
    &&& entries@.len() == 1
    &&& entries@[0].0@ == key
    &&& entries@[0].1.text() == Some(value)
}

fn single_param(key: &str, value: String) -> (r: Json)
    ensures
        is_single_param(Some(r), key@, value@),
{
    let mut entries: Vec<(String, Json)> = Vec::new();
    entries.push((key.to_owned(), Json::Text(value)));
    Json::Object(entries)
}

/// Enters into an action what the metadata of its route say about the target: a queue, a
/// mailbox or an IVR. Any other target leaves the action as it is.
pub fn apply_route_metadata(
    action: &mut RouteAction,
    meta: RouteMetadataAction,
    ivr_dir: &Option<IvrDir>,
)
    ensures
        final(action).dest == old(action).dest,
        final(action).select == old(action).select,
        final(action).hash_key == old(action).hash_key,
        if target_type(meta) == "queue"@ {
            &&& final(action).app == old(action).app
            &&& final(action).app_params == old(action).app_params
            &&& match sanitized(meta.queue_file) {
                Some(path) => text::opt_text(final(action).queue) == Some(path),
                None => final(action).queue == old(action).queue,
            }
        } else if target_type(meta) == "voicemail"@ {
            &&& final(action).queue == old(action).queue
            &&& text::opt_text(final(action).app) == Some("voicemail"@)
            &&& is_single_param(
                final(action).app_params,
                "extension"@,
                match sanitized(meta.voicemail_extension) {
                    Some(ext) => ext,
                    None => Seq::empty(),
                },
            )
        } else if target_type(meta) == "ivr"@ && sanitized(meta.ivr_file) is Some {
            &&& final(action).queue == old(action).queue
            &&& text::opt_text(final(action).app) == Some("ivr"@)
            &&& is_single_param(
                final(action).app_params,
                "file"@,
                ivr_path(sanitized(meta.ivr_file)->0, *ivr_dir),
            )
        } else {
            *final(action) == *old(action)
        },
{
    let kind = match &meta.target_type {
        Some(t) => text::to_ascii_lowercase(&text::trim(t)),
        None => "sip_trunk".to_owned(),
    };
    proof {
        reveal_strlit("queue");
        reveal_strlit("voicemail");
        reveal_strlit("ivr");
    }
    if text::same(&kind, "queue") {
        if let Some(path) = sanitize_metadata_string(meta.queue_file) {
            action.queue = Some(path);
        }
    } else if text::same(&kind, "voicemail") {
        let ext = match sanitize_metadata_string(meta.voicemail_extension) {
            Some(ext) => ext,
            None => {
                proof {
                    reveal_strlit("");
                    assert(""@ =~= Seq::empty());
                }
                "".to_owned()
            },
        };
        action.app = Some("voicemail".to_owned());
        action.app_params = Some(single_param("extension", ext));
    } else if text::same(&kind, "ivr") {
        if let Some(file) = sanitize_metadata_string(meta.ivr_file) {
            let path = match ivr_dir {
                Some(d) => resolve_ivr_name_to_path(
                    &file,
                    &d.dir,
                    d.hand_written_exists,
                    d.generated_exists,
                ),
                None => file,
            };
            action.app = Some("ivr".to_owned());
            action.app_params = Some(single_param("file", path));
        }
    }
}

/// A route as it is stored. The filters are given in the order in which they are walked.
pub struct RouteModel {
    pub name: String,
    pub description: Option<String>,
    pub priority: i32,
    pub is_active: bool,
    pub selection_strategy: String,
    pub hash_key: Option<String>,
    pub source_trunk_id: Option<i64>,
    pub source_pattern: Option<String>,
    pub destination_pattern: Option<String>,
    pub header_filters: Option<Vec<(String, String)>>,
    pub rewrite_rules: Option<RewriteRules>,
    pub target_trunks: Vec<String>,
    pub metadata: Option<RouteMetadataAction>,
}

/// The text of a pattern, where it is not empty.
pub open spec fn pattern(p: Option<String>) -> Option<Seq<char>> {
    match p {
        Some(s) => if s@.len() > 0 {
            Some(s@)
        } else {
            None
        },
        None => None,
    }
}

/// What the patterns and the filters of a route say of a part of the request.
pub open spec fn filtered_part(
    source_pattern: Option<String>,
    destination_pattern: Option<String>,
    filters: Option<Vec<(String, String)>>,
    f: Field,
) -> Option<Seq<char>> {
    let written = match f {
        Field::FromUser => pattern(source_pattern),
        Field::ToUser => pattern(destination_pattern),
        _ => None,
    };
    match filters {
        Some(entries) => part_after(true, entries@, f, written),
        None => written,
    }
}

/// What the filters of a route say of a header.
pub open spec fn filtered_header(filters: Option<Vec<(String, String)>>, name: Seq<char>) -> Option<
    Seq<char>,
> {
    match filters {
        Some(entries) => header_after(true, entries@, name),
        None => None,
    }
}

/// The conditions are those of the route: its patterns, its filters, and no aliases.
pub open spec fn are_conditions(
    c: MatchConditions,
    source_pattern: Option<String>,
    destination_pattern: Option<String>,
    filters: Option<Vec<(String, String)>>,
) -> bool {
    &&& c.headers.wf()
    &&& c.from is None && c.caller is None && c.to is None && c.callee is None
    &&& forall|f: Field| #[trigger]
        c.field(f) == filtered_part(source_pattern, destination_pattern, filters, f)
    &&& forall|k: Seq<char>| #[trigger]
        header_text(c.headers, k) == filtered_header(filters, k)
}

fn conditions_of(
    source_pattern: &Option<String>,
    destination_pattern: &Option<String>,
    filters: &Option<Vec<(String, String)>>,
) -> (r: MatchConditions)
    ensures
        are_conditions(r, *source_pattern, *destination_pattern, *filters),
{
    let mut c = MatchConditions::new();
    let ghost fresh = c;
    if let Some(p) = source_pattern {
        if !p.as_str().is_empty() {
            c.from_user = Some(p.clone());
        }
    }
    if let Some(p) = destination_pattern {
        if !p.as_str().is_empty() {
            c.to_user = Some(p.clone());
        }
    }
    let ghost written = c;
    assert forall|f: Field| #[trigger] written.field(f) == (match f {
        Field::FromUser => pattern(*source_pattern),
        Field::ToUser => pattern(*destination_pattern),
        _ => None,
    }) by {
        assert(fresh.field(f) is None);
    }
    let ghost entries: Seq<(String, String)> = match filters {
        Some(entries) => entries@,
        None => Seq::empty(),
    };
    if let Some(entries) = filters {
        apply_match_filters(&mut c, entries);
    }
    let ghost raw = c;
    proof {
        assert forall|f: Field| #[trigger] raw.field(f) == filtered_part(
            *source_pattern,
            *destination_pattern,
            *filters,
            f,
        ) by {
            assert(written.field(f) == written.field(f));
        }
        assert forall|k: Seq<char>| #[trigger]
            header_text(raw.headers, k) == header_after(true, entries, k) by {
            assert(raw.headers.value(k) == raw.headers.value(k));
        }
    }
    finalize_match_conditions(&mut c);
    proof {
        filtered_conditions_are_final(raw, entries, c);
        assert forall|f: Field| #[trigger] c.field(f) == filtered_part(
            *source_pattern,
            *destination_pattern,
            *filters,
            f,
        ) by {
            assert(raw.field(f) == c.field(f));
        }
        assert forall|k: Seq<char>| #[trigger]
            header_text(c.headers, k) == filtered_header(*filters, k) by {
            assert(header_text(raw.headers, k) == header_text(c.headers, k));
        }
    }
    c
}

/// The name of the trunk with this number: the last one counts.
pub open spec fn trunk_name(lookup: Seq<(i64, String)>, id: i64) -> Option<String>
    decreases lookup.len(),
{
    if lookup.len() == 0 {
        None
    } else if lookup.last().0 == id {
        Some(lookup.last().1)
    } else {
        trunk_name(lookup.drop_last(), id)
    }
}

fn find_trunk_name(lookup: &Vec<(i64, String)>, id: i64) -> (r: Option<String>)
    ensures
        r == trunk_name(lookup@, id),
{
    let mut n: usize = lookup.len();
    assert(lookup@.subrange(0, lookup@.len() as int) =~= lookup@);
    while n > 0
        invariant
            n <= lookup@.len(),
            trunk_name(lookup@.subrange(0, n as int), id) == trunk_name(lookup@, id),
        decreases n,
    {
        if lookup[n - 1].0 == id {
            return Some(lookup[n - 1].1.clone());
        }
        assert(lookup@.subrange(0, n as int).drop_last() =~= lookup@.subrange(0, n - 1));
        n -= 1;
    }
    None
}

/// The destination is that of the trunks: none, the one, or all of them.
pub open spec fn is_dest(dest: Option<DestConfig>, trunks: Seq<String>) -> bool {
    if trunks.len() == 0 {
        dest is None
    } else if trunks.len() == 1 {
        dest == Some(DestConfig::Single(trunks[0]))
    } else {
        dest matches Some(DestConfig::Multiple(all)) && all@ == trunks
    }
}

/// The rewrite is that of the route, in its one form.
pub open spec fn is_rewrite_of(r: Option<RewriteRules>, rules: Option<RewriteRules>) -> bool {
    match rules {
        None => r is None,
        Some(before) => {
            &&& r matches Some(after)
            &&& after.headers.wf()
            &&& forall|f: Field| #[trigger]
                after.field(f) == part_after(false, before.headers.entries@, f, before.field(f))
            &&& forall|k: Seq<char>| #[trigger]
                header_text(after.headers, k) == header_after(false, before.headers.entries@, k)
        },
    }
}

/// The action is that of the route: its trunks and how one of them is chosen, or what its
/// metadata name in their place.
pub open spec fn is_action_of(a: RouteAction, model: RouteModel, ivr_dir: Option<IvrDir>) -> bool {
    &&& is_dest(a.dest, model.target_trunks@)
    &&& a.select == model.selection_strategy
    &&& a.hash_key == model.hash_key
    &&& match model.metadata {
        None => a.queue is None && a.app is None && a.app_params is None,
        Some(meta) => if target_type(meta) == "queue"@ {
            text::opt_text(a.queue) == sanitized(meta.queue_file) && a.app is None && a.app_params is None
        } else if target_type(meta) == "voicemail"@ {
            a.queue is None && text::opt_text(a.app) == Some("voicemail"@) && is_single_param(
                a.app_params,
                "extension"@,
                match sanitized(meta.voicemail_extension) {
                    Some(ext) => ext,
                    None => Seq::empty(),
                },
            )
        } else if target_type(meta) == "ivr"@ && sanitized(meta.ivr_file) is Some {
            a.queue is None && text::opt_text(a.app) == Some("ivr"@) && is_single_param(
                a.app_params,
                "file"@,
                ivr_path(sanitized(meta.ivr_file)->0, ivr_dir),
            )
        } else {
            a.queue is None && a.app is None && a.app_params is None
        },
    }
}

/// The route of a stored model. `trunk_lookup` gives the names of the trunks by their
/// numbers.
pub fn convert_route(
    model: RouteModel,
    trunk_lookup: &Vec<(i64, String)>,
    ivr_dir: &Option<IvrDir>,
) -> (r: RouteRule)
    ensures
        r.name == model.name,
        r.description == model.description,
        r.priority == model.priority,
        are_conditions(
            r.match_conditions,
            model.source_pattern,
            model.destination_pattern,
            model.header_filters,
        ),
        is_rewrite_of(r.rewrite, model.rewrite_rules),
        is_action_of(r.action, model, *ivr_dir),
        match model.source_trunk_id {
            None => r.source_trunk_ids@.len() == 0 && r.source_trunks@.len() == 0,
            Some(id) => {
                &&& r.source_trunk_ids@ == seq![id]
                &&& r.source_trunks@ == (match trunk_name(trunk_lookup@, id) {
                    Some(name) => seq![name],
                    None => Seq::<String>::empty(),
                })
            },
        },
        r.disabled == Some(!model.is_active),
        r.policy is None,
        r.origin is Embedded,
        r.codecs@.len() == 0,
        r.disable_ice_servers is None,
{
    let match_conditions = conditions_of(
        &model.source_pattern,
        &model.destination_pattern,
        &model.header_filters,
    );
    let rewrite = match model.rewrite_rules {
        Some(rules) => {
            let mut rules = rules;
            normalize_rewrite_rules(&mut rules);
            Some(rules)
        },
        None => None,
    };
    let mut trunks = model.target_trunks;
    let dest = if trunks.len() == 0 {
        None
    } else if trunks.len() == 1 {
        Some(DestConfig::Single(trunks.remove(0)))
    } else {
        Some(DestConfig::Multiple(trunks))
    };
    let mut action = RouteAction::new();
    action.dest = dest;
    action.select = model.selection_strategy;
    action.hash_key = model.hash_key;
    if let Some(meta) = model.metadata {
        apply_route_metadata(&mut action, meta, ivr_dir);
    }
    let mut source_trunks: Vec<String> = Vec::new();
    let mut source_trunk_ids: Vec<i64> = Vec::new();
    if let Some(id) = model.source_trunk_id {
        source_trunk_ids.push(id);
        if let Some(name) = find_trunk_name(trunk_lookup, id) {
            source_trunks.push(name);
        }
    }
    RouteRule {
        name: model.name,
        description: model.description,
        priority: model.priority,
        source_trunks,
        source_trunk_ids,
        match_conditions,
        rewrite,
        action,
        disabled: Some(!model.is_active),
        policy: None,
        origin: ConfigOrigin::Embedded,
        codecs: Vec::new(),
        disable_ice_servers: None,
    }
}

/// The place of the first route with this name.
pub open spec fn route_place(routes: Seq<RouteRule>, name: Seq<char>) -> Option<int>
    decreases routes.len(),
{
    if routes.len() == 0 {
        None
    } else {
        match route_place(routes.drop_last(), name) {
            Some(i) => Some(i),
            None => if routes.last().name@ == name {
                Some(routes.len() - 1)
            } else {
                None
            },
        }
    }
}

/// The routes with one more: it takes the place of the one of its name, else the last.
pub open spec fn upserted(routes: Seq<RouteRule>, route: RouteRule) -> Seq<RouteRule> {
    match route_place(routes, route.name@) {
        Some(i) => routes.update(i, route),
        None => routes.push(route),
    }
}

/// No two routes have one name.
pub open spec fn distinct_names(routes: Seq<RouteRule>) -> bool {
    forall|i: int, j: int|
        0 <= i < j < routes.len() ==> (#[trigger] routes[i]).name@ != (#[trigger] routes[j]).name@
}

proof fn route_place_is_first(routes: Seq<RouteRule>, name: Seq<char>)
    ensures
        route_place(routes, name) matches Some(i) ==> 0 <= i < routes.len() && routes[i].name@ == name
            && forall|j: int| 0 <= j < i ==> (#[trigger] routes[j]).name@ != name,
        route_place(routes, name) is None ==> forall|j: int|
            0 <= j < routes.len() ==> (#[trigger] routes[j]).name@ != name,
    decreases routes.len(),
{
    if routes.len() > 0 {
        let rest = routes.drop_last();
        route_place_is_first(rest, name);
        assert(forall|j: int| 0 <= j < rest.len() ==> (#[trigger] rest[j]) == routes[j]);
        if route_place(rest, name) is None {
            assert forall|j: int| 0 <= j < routes.len() - 1 implies (#[trigger] routes[j]).name@
                != name by {
                assert(rest[j].name@ != name);
            }
        } else {
            let i = route_place(rest, name)->0;
            assert forall|j: int| 0 <= j < i implies (#[trigger] routes[j]).name@ != name by {
                assert(rest[j].name@ != name);
            }
        }
    }
}

/// Routes with different names keep them different when one is added, and the route that
/// was added is the one of its name.
pub proof fn upsert_keeps_names_distinct(routes: Seq<RouteRule>, route: RouteRule)
    requires
        distinct_names(routes),
    ensures
        distinct_names(upserted(routes, route)),
        exists|i: int|
            0 <= i < upserted(routes, route).len() && #[trigger] upserted(routes, route)[i] == route,
{
    route_place_is_first(routes, route.name@);
    let after = upserted(routes, route);
    match route_place(routes, route.name@) {
        Some(i) => {
            assert(after[i] == route);
            assert forall|a: int, b: int| 0 <= a < b < after.len() implies (#[trigger] after[a]).name@
                != (#[trigger] after[b]).name@ by {
                assert(after[a].name@ == routes[a].name@);
                assert(after[b].name@ == routes[b].name@);
            }
        },
        None => {
            assert(after[routes.len() as int] == route);
            assert forall|a: int, b: int| 0 <= a < b < after.len() implies (#[trigger] after[a]).name@
                != (#[trigger] after[b]).name@ by {
                assert(after[a] == routes[a]);
                if b < routes.len() {
                    assert(after[b] == routes[b]);
                }
            }
        },
    }
}

/// Adds a route, in the place of the one of its name where there is one.
pub fn upsert_route(routes: &mut Vec<RouteRule>, route: RouteRule)
    ensures
        final(routes)@ == upserted(old(routes)@, route),
{
    let ghost before = routes@;
    let mut i: usize = 0;
    while i < routes.len()
        invariant
            i <= routes@.len(),
            routes@ == before,
            before == old(routes)@,
            forall|j: int| 0 <= j < i ==> (#[trigger] before[j]).name@ != route.name@,
        decreases routes@.len() - i,
    {
        if text::same(&routes[i].name, &route.name) {
            proof {
                route_place_is_first(before, route.name@);
                assert(before[i as int].name@ == route.name@);
            }
            routes.set(i, route);
            return ;
        }
        i += 1;
    }
    proof {
        route_place_is_first(before, route.name@);
    }
    routes.push(route);
}

/// The routes with others added one by one.
pub open spec fn all_upserted(routes: Seq<RouteRule>, more: Seq<RouteRule>) -> Seq<RouteRule>
    decreases more.len(),
{
    if more.len() == 0 {
        routes
    } else {
        upserted(all_upserted(routes, more.drop_last()), more.last())
    }
}

/// Adds routes one by one.
pub fn upsert_routes(routes: &mut Vec<RouteRule>, more: Vec<RouteRule>)
    ensures
        final(routes)@ == all_upserted(old(routes)@, more@),
{
    let ghost all = more@;
    let mut more = more;
    let ghost mut i: int = 0;
    assert(all.subrange(0, 0) =~= Seq::empty());
    assert(all.subrange(0, all.len() as int) =~= all);
    while more.len() > 0
        invariant
            0 <= i <= all.len(),
            more@ == all.subrange(i, all.len() as int),
            routes@ == all_upserted(old(routes)@, all.subrange(0, i)),
        decreases more@.len(),
    {
        let route = more.remove(0);
        proof {
            assert(route == all[i]);
            assert(all.subrange(0, i + 1).drop_last() =~= all.subrange(0, i));
            assert(all.subrange(0, i + 1).last() == all[i]);
            i = i + 1;
            assert(more@ =~= all.subrange(i, all.len() as int));
        }
        upsert_route(routes, route);
    }
    assert(all.subrange(0, i) =~= all);
}

/// The routes of this priority.
pub open spec fn of_priority(routes: Seq<RouteRule>, p: i32) -> Seq<RouteRule> {
    routes.filter(|r: RouteRule| r.priority == p)
}

/// Lower priorities come first.
pub open spec fn by_priority(routes: Seq<RouteRule>) -> bool {
    forall|i: int, j: int|
        0 <= i < j < routes.len() ==> (#[trigger] routes[i]).priority <= (#[trigger] routes[j]).priority
}

/// The routes by priority, those of one priority in the order that they had.
pub open spec fn is_stable_order(sorted: Seq<RouteRule>, routes: Seq<RouteRule>) -> bool {
    &&& sorted.len() == routes.len()
    &&& by_priority(sorted)
    &&& forall|p: i32| #[trigger] of_priority(sorted, p) == of_priority(routes, p)
}

proof fn filter_of_insert(s: Seq<RouteRule>, at: int, r: RouteRule, p: i32)
    requires
        0 <= at <= s.len(),
        forall|j: int| at <= j < s.len() ==> (#[trigger] s[j]).priority > r.priority,
    ensures
        of_priority(s.insert(at, r), p) == (if r.priority == p {
            of_priority(s, p).push(r)
        } else {
            of_priority(s, p)
        }),
    decreases s.len(),
{
    reveal(Seq::filter);
    let test = |x: RouteRule| x.priority == p;
    let t = s.insert(at, r);
    if at == s.len() {
        assert(t.drop_last() =~= s);
        assert(t.last() == r);
    } else {
        let last = s.last();
        let rest = s.drop_last();
        assert(forall|j: int| 0 <= j < rest.len() ==> (#[trigger] rest[j]) == s[j]);
        assert(t.drop_last() =~= rest.insert(at, r));
        assert(t.last() == last);
        assert(s[s.len() - 1].priority > r.priority);
        assert forall|j: int| at <= j < rest.len() implies (#[trigger] rest[j]).priority
            > r.priority by {
            assert(s[j].priority > r.priority);
        }
        filter_of_insert(rest, at, r, p);
        if r.priority == p {
            assert(last.priority != p);
        }
    }
}

/// Sorts routes by priority; those of one priority keep their order.
pub fn sort_by_priority(routes: Vec<RouteRule>) -> (r: Vec<RouteRule>)
    ensures
        is_stable_order(r@, routes@),
{
    let ghost all = routes@;
    let mut routes = routes;
    let mut sorted: Vec<RouteRule> = Vec::new();
    let ghost mut i: int = 0;
    assert(all.subrange(0, 0) =~= Seq::empty());
    assert(all.subrange(0, all.len() as int) =~= all);
    while routes.len() > 0
        invariant
            0 <= i <= all.len(),
            routes@ == all.subrange(i, all.len() as int),
            is_stable_order(sorted@, all.subrange(0, i)),
        decreases routes@.len(),
    {
        let route = routes.remove(0);
        let ghost before = sorted@;
        proof {
            assert(route == all[i]);
            assert(all.subrange(0, i + 1).drop_last() =~= all.subrange(0, i));
            assert(all.subrange(0, i + 1).last() == all[i]);
            i = i + 1;
            assert(routes@ =~= all.subrange(i, all.len() as int));
        }
        let mut at: usize = sorted.len();
        while at > 0 && sorted[at - 1].priority > route.priority
            invariant
                at <= sorted@.len(),
                sorted@ == before,
                by_priority(before),
                forall|j: int|
                    at <= j < before.len() ==> (#[trigger] before[j]).priority > route.priority,
            decreases at,
        {
            at -= 1;
        }
        sorted.insert(at, route);
        proof {
            let now = all.subrange(0, i);
            assert(sorted@ == before.insert(at as int, route));
            assert forall|a: int, b: int| 0 <= a < b < sorted@.len() implies (#[trigger] sorted@[a]).priority
                <= (#[trigger] sorted@[b]).priority by {
                if at > 0 {
                    assert(before[at - 1].priority <= route.priority);
                }
                if a < at && b < at {
                    assert(sorted@[a] == before[a] && sorted@[b] == before[b]);
                } else if a < at && b == at {
                    assert(sorted@[a] == before[a]);
                    assert(before[a].priority <= before[at - 1].priority);
                } else if a < at {
                    assert(sorted@[a] == before[a] && sorted@[b] == before[b - 1]);
                } else if a == at {
                    assert(sorted@[b] == before[b - 1]);
                } else {
                    assert(sorted@[a] == before[a - 1] && sorted@[b] == before[b - 1]);
                }
            }
            assert forall|p: i32| #[trigger] of_priority(sorted@, p) == of_priority(now, p) by {
                reveal(Seq::filter);
                filter_of_insert(before, at as int, route, p);
                assert(of_priority(before, p) == of_priority(all.subrange(0, i - 1), p));
            }
        }
    }
    assert(all.subrange(0, i) =~= all);
    sorted
}

/// A letter or a digit.
pub open spec fn is_slug_char(c: char) -> bool {
    text::is_ascii_letter(c) || text::is_ascii_digit(c)
}

/// The words of a name: its runs of letters and digits, in small letters.
pub open spec fn slug_words(name: Seq<char>) -> Seq<Seq<char>> {
    text::split(
        name.map_values(
            |c: char|
                if is_slug_char(c) {
                    text::lower_char(c)
                } else {
                    '-'
                },
        ),
        '-',
    ).filter(|w: Seq<char>| w.len() > 0)
}

/// The words of a name with hyphens between them.
pub open spec fn slug(name: Seq<char>) -> Seq<char> {
    text::joined(slug_words(name), "-"@)
}

/// The name of a queue as a key: its words, in small letters, with hyphens between them.
pub fn slugify_queue_name(name: &str) -> (r: String)
    ensures
        r@ == slug(name@),
{
    let chars = text::chars_of(name);
    let ghost plain = name@.map_values(
        |c: char|
            if is_slug_char(c) {
                text::lower_char(c)
            } else {
                '-'
            },
    );
    let mut mapped: Vec<char> = Vec::new();
    let mut i: usize = 0;
    while i < chars.len()
        invariant
            i <= chars@.len(),
            chars@ == name@,
            plain == name@.map_values(
                |c: char|
                    if is_slug_char(c) {
                        text::lower_char(c)
                    } else {
                        '-'
                    },
            ),
            mapped@ =~= plain.subrange(0, i as int),
        decreases chars@.len() - i,
    {
        let c = chars[i];
        assert(plain[i as int] == if is_slug_char(c) {
            text::lower_char(c)
        } else {
            '-'
        });
        let n: u32 = c as u32;
        let letter = (65 <= n && n <= 90) || (97 <= n && n <= 122);
        if letter || text::is_digit(c) {
            mapped.push(text::to_lower_char(c));
        } else {
            mapped.push('-');
        }
        i += 1;
    }
    assert(mapped@ =~= plain);
    let spaced = text::text_of(&mapped, 0, mapped.len());
    assert(spaced@ =~= plain);
    let pieces = text::split_on(&spaced, '-');
    let ghost all = text::views(pieces@);
    let ghost test = |w: Seq<char>| w.len() > 0;
    let mut words: Vec<String> = Vec::new();
    let mut j: usize = 0;
    proof {
        reveal(Seq::filter);
        assert(all.subrange(0, 0).filter(test) =~= Seq::empty());
        assert(text::views(words@) =~= Seq::empty());
    }
    while j < pieces.len()
        invariant
            j <= pieces@.len(),
            all == text::views(pieces@),
            test == (|w: Seq<char>| w.len() > 0),
            text::views(words@) == all.subrange(0, j as int).filter(test),
        decreases pieces@.len() - j,
    {
        proof {
            reveal(Seq::filter);
            let next = all.subrange(0, j + 1);
            assert(next.drop_last() =~= all.subrange(0, j as int));
            assert(next.last() == pieces@[j as int]@);
        }
        if !pieces[j].as_str().is_empty() {
            let ghost before = text::views(words@);
            words.push(pieces[j].clone());
            assert(text::views(words@) =~= before.push(pieces@[j as int]@));
        }
        j += 1;
    }
    assert(all.subrange(0, all.len() as int) =~= all);
    text::join(&words, "-")
}

/// The key of a queue, where its name has any letter or digit.
pub fn canonical_queue_key(name: &str) -> (r: Option<String>)
    ensures
        r is Some <==> slug(name@).len() > 0,
        r matches Some(key) ==> key@ == slug(name@),
{
    let key = slugify_queue_name(name);
    if key.as_str().is_empty() {
        None
    } else {
        Some(key)
    }
}

/// The last route of this name.
pub open spec fn last_named(routes: Seq<RouteRule>, name: Seq<char>) -> Option<RouteRule>
    decreases routes.len(),
{
    if routes.len() == 0 {
        None
    } else if routes.last().name@ == name {
        Some(routes.last())
    } else {
        last_named(routes.drop_last(), name)
    }
}

/// Of the routes that were loaded one after another, these are the last of each name, in
/// the order in which the names first occurred.
pub open spec fn is_last_of_each(routes: Seq<RouteRule>, loaded: Seq<RouteRule>) -> bool {
    &&& distinct_names(routes)
    &&& forall|i: int|
        0 <= i < routes.len() ==> last_named(loaded, (#[trigger] routes[i]).name@) == Some(routes[i])
    &&& forall|k: int|
        0 <= k < loaded.len() ==> route_place(routes, (#[trigger] loaded[k]).name@) is Some
    &&& forall|i: int, j: int|
        0 <= i < j < routes.len() ==> route_place(loaded, (#[trigger] routes[i]).name@)->0
            < route_place(loaded, (#[trigger] routes[j]).name@)->0
}

proof fn last_named_has_a_place(routes: Seq<RouteRule>, name: Seq<char>)
    ensures
        last_named(routes, name) is Some <==> route_place(routes, name) is Some,
        last_named(routes, name) matches Some(r) ==> r.name@ == name,
    decreases routes.len(),
{
    if routes.len() > 0 {
        last_named_has_a_place(routes.drop_last(), name);
    }
}

proof fn last_named_of_two(a: Seq<RouteRule>, b: Seq<RouteRule>, name: Seq<char>)
    ensures
        last_named(a + b, name) == (match last_named(b, name) {
            Some(r) => Some(r),
            None => last_named(a, name),
        }),
    decreases b.len(),
{
    if b.len() == 0 {
        assert(a + b =~= a);
    } else {
        assert((a + b).drop_last() =~= a + b.drop_last());
        assert((a + b).last() == b.last());
        last_named_of_two(a, b.drop_last(), name);
    }
}

proof fn route_place_of_two(a: Seq<RouteRule>, b: Seq<RouteRule>, name: Seq<char>)
    ensures
        route_place(a + b, name) == (match route_place(a, name) {
            Some(i) => Some(i),
            None => match route_place(b, name) {
                Some(j) => Some(a.len() + j),
                None => None,
            },
        }),
    decreases b.len(),
{
    if b.len() == 0 {
        assert(a + b =~= a);
    } else {
        assert((a + b).drop_last() =~= a + b.drop_last());
        assert((a + b).last() == b.last());
        route_place_of_two(a, b.drop_last(), name);
    }
}

proof fn upserting_one_keeps_the_last(routes: Seq<RouteRule>, loaded: Seq<RouteRule>, route: RouteRule)
    requires
        is_last_of_each(routes, loaded),
    ensures
        is_last_of_each(upserted(routes, route), loaded.push(route)),
{
    let after = upserted(routes, route);
    let more = loaded.push(route);
    let name = route.name@;
    assert(more.drop_last() =~= loaded);
    route_place_is_first(routes, name);
    route_place_is_first(loaded, name);
    upsert_keeps_names_distinct(routes, route);
    assert forall|i: int| 0 <= i < routes.len() implies route_place(
        more,
        (#[trigger] routes[i]).name@,
    ) == route_place(loaded, routes[i].name@) && route_place(loaded, routes[i].name@) is Some && 0
        <= route_place(loaded, routes[i].name@)->0 < loaded.len() by {
        last_named_has_a_place(loaded, routes[i].name@);
        route_place_is_first(loaded, routes[i].name@);
    }
    let place = route_place(routes, name);
    assert forall|i: int| 0 <= i < after.len() && i < routes.len() implies (#[trigger] after[i]).name@
        == routes[i].name@ by {}
    assert forall|i: int| 0 <= i < after.len() implies last_named(more, (#[trigger] after[i]).name@)
        == Some(after[i]) by {
        if i < routes.len() && place != Some(i) {
            assert(after[i] == routes[i]);
            if place is Some {
                assert(routes[place->0].name@ == name);
            }
            assert(routes[i].name@ != name);
        }
    }
    assert forall|k: int| 0 <= k < more.len() implies route_place(
        after,
        (#[trigger] more[k]).name@,
    ) is Some by {
        let n = more[k].name@;
        route_place_is_first(after, n);
        if n == name {
            if place is Some {
                assert(after[place->0].name@ == n);
            } else {
                assert(after[routes.len() as int].name@ == n);
            }
        } else {
            assert(more[k] == loaded[k]);
            route_place_is_first(routes, n);
            assert(after[route_place(routes, n)->0].name@ == n);
        }
    }
    if place is None && route_place(loaded, name) is Some {
        let k = route_place(loaded, name)->0;
        assert(route_place(routes, loaded[k].name@) is Some);
    }
    assert forall|i: int, j: int| 0 <= i < j < after.len() implies route_place(
        more,
        (#[trigger] after[i]).name@,
    )->0 < route_place(more, (#[trigger] after[j]).name@)->0 by {
        assert(after[i].name@ == routes[i].name@);
        if j < routes.len() {
            assert(after[j].name@ == routes[j].name@);
        } else {
            assert(route_place(more, name) == Some(loaded.len() as int));
        }
    }
}

/// Routes that are added one by one leave the last of each name.
pub proof fn upserting_keeps_the_last(routes: Seq<RouteRule>, loaded: Seq<RouteRule>, more: Seq<RouteRule>)
    requires
        is_last_of_each(routes, loaded),
    ensures
        is_last_of_each(all_upserted(routes, more), loaded + more),
    decreases more.len(),
{
    if more.len() == 0 {
        assert(loaded + more =~= loaded);
    } else {
        upserting_keeps_the_last(routes, loaded, more.drop_last());
        upserting_one_keeps_the_last(
            all_upserted(routes, more.drop_last()),
            loaded + more.drop_last(),
            more.last(),
        );
        assert((loaded + more.drop_last()).push(more.last()) =~= loaded + more);
    }
}

/// It is the same to add routes one by one, or the last of each name of them.
pub proof fn adding_the_last_of_each(
    routes: Seq<RouteRule>,
    loaded: Seq<RouteRule>,
    more: Seq<RouteRule>,
    all_of_more: Seq<RouteRule>,
)
    requires
        is_last_of_each(routes, loaded),
        is_last_of_each(more, all_of_more),
    ensures
        is_last_of_each(all_upserted(routes, more), loaded + all_of_more),
{
    upserting_keeps_the_last(routes, loaded, more);
    let after = all_upserted(routes, more);
    let short = loaded + more;
    let long = loaded + all_of_more;
    assert forall|n: Seq<char>|
        #![trigger last_named(more, n)]
        #![trigger last_named(all_of_more, n)]
        last_named(more, n) == last_named(all_of_more, n) && (route_place(more, n) is Some
            <==> route_place(all_of_more, n) is Some) by {
        last_named_has_a_place(more, n);
        last_named_has_a_place(all_of_more, n);
        route_place_is_first(more, n);
        route_place_is_first(all_of_more, n);
        if route_place(more, n) is Some {
            only_one_of_its_name(more, route_place(more, n)->0);
        } else if route_place(all_of_more, n) is Some {
            assert(all_of_more[route_place(all_of_more, n)->0].name@ == n);
        }
    }
    assert forall|i: int| 0 <= i < after.len() implies last_named(long, (#[trigger] after[i]).name@)
        == Some(after[i]) by {
        let n = after[i].name@;
        last_named_of_two(loaded, more, n);
        last_named_of_two(loaded, all_of_more, n);
        assert(last_named(more, n) == last_named(all_of_more, n));
    }
    assert forall|k: int| 0 <= k < long.len() implies route_place(
        after,
        (#[trigger] long[k]).name@,
    ) is Some by {
        let n = long[k].name@;
        if k < loaded.len() {
            assert(short[k].name@ == n);
        } else {
            assert(all_of_more[k - loaded.len()].name@ == n);
            route_place_is_first(more, n);
            let m = route_place(more, n)->0;
            assert(short[loaded.len() + m].name@ == n);
        }
    }
    assert forall|i: int, j: int| 0 <= i < j < after.len() implies route_place(
        long,
        (#[trigger] after[i]).name@,
    )->0 < route_place(long, (#[trigger] after[j]).name@)->0 by {
        let a = after[i].name@;
        let b = after[j].name@;
        assert(last_named(more, a) == last_named(all_of_more, a));
        assert(last_named(more, b) == last_named(all_of_more, b));
        route_place_of_two(loaded, more, a);
        route_place_of_two(loaded, more, b);
        route_place_of_two(loaded, all_of_more, a);
        route_place_of_two(loaded, all_of_more, b);
        last_named_has_a_place(short, a);
        last_named_has_a_place(short, b);
        route_place_is_first(loaded, a);
        route_place_is_first(loaded, b);
        route_place_is_first(more, a);
        route_place_is_first(more, b);
        route_place_is_first(all_of_more, a);
        route_place_is_first(all_of_more, b);
    }
}

proof fn only_one_of_its_name(routes: Seq<RouteRule>, i: int)
    requires
        distinct_names(routes),
        0 <= i < routes.len(),
    ensures
        last_named(routes, routes[i].name@) == Some(routes[i]),
    decreases routes.len(),
{
    if i < routes.len() - 1 {
        let rest = routes.drop_last();
        assert(forall|j: int| 0 <= j < rest.len() ==> (#[trigger] rest[j]) == routes[j]);
        only_one_of_its_name(rest, i);
    }
}

proof fn filter_keeps_order(s: Seq<RouteRule>, p: i32, i: int, j: int) -> (r: (int, int))
    requires
        0 <= i < j < s.len(),
        s[i].priority == p,
        s[j].priority == p,
    ensures
        0 <= r.0 < r.1 < of_priority(s, p).len(),
        of_priority(s, p)[r.0] == s[i],
        of_priority(s, p)[r.1] == s[j],
    decreases s.len(),
{
    reveal(Seq::filter);
    let rest = s.drop_last();
    if j < s.len() - 1 {
        filter_keeps_order(rest, p, i, j)
    } else {
        let a = filter_keeps_each(rest, p, i);
        (a, of_priority(rest, p).len() as int)
    }
}

proof fn filter_keeps_each(s: Seq<RouteRule>, p: i32, i: int) -> (r: int)
    requires
        0 <= i < s.len(),
        s[i].priority == p,
    ensures
        0 <= r < of_priority(s, p).len(),
        of_priority(s, p)[r] == s[i],
    decreases s.len(),
{
    reveal(Seq::filter);
    let rest = s.drop_last();
    if i < s.len() - 1 {
        filter_keeps_each(rest, p, i)
    } else {
        of_priority(rest, p).len() as int
    }
}

proof fn filtered_came_in_order(s: Seq<RouteRule>, p: i32, a: int, b: int) -> (r: (int, int))
    requires
        0 <= a < b < of_priority(s, p).len(),
    ensures
        0 <= r.0 < r.1 < s.len(),
        s[r.0] == of_priority(s, p)[a],
        s[r.1] == of_priority(s, p)[b],
    decreases s.len(),
{
    reveal(Seq::filter);
    let rest = s.drop_last();
    if b < of_priority(rest, p).len() {
        filtered_came_in_order(rest, p, a, b)
    } else {
        let i = filtered_came(rest, p, a);
        (i, s.len() - 1)
    }
}

proof fn filtered_came(s: Seq<RouteRule>, p: i32, a: int) -> (r: int)
    requires
        0 <= a < of_priority(s, p).len(),
    ensures
        0 <= r < s.len(),
        s[r] == of_priority(s, p)[a],
    decreases s.len(),
{
    reveal(Seq::filter);
    let rest = s.drop_last();
    if a < of_priority(rest, p).len() {
        filtered_came(rest, p, a)
    } else {
        s.len() - 1
    }
}

proof fn came_from(sorted: Seq<RouteRule>, routes: Seq<RouteRule>, i: int) -> (k: int)
    requires
        is_stable_order(sorted, routes),
        0 <= i < sorted.len(),
    ensures
        0 <= k < routes.len(),
        routes[k] == sorted[i],
{
    let p = sorted[i].priority;
    let a = filter_keeps_each(sorted, p, i);
    assert(of_priority(sorted, p) == of_priority(routes, p));
    filtered_came(routes, p, a)
}

proof fn came_in_order(sorted: Seq<RouteRule>, routes: Seq<RouteRule>, i: int, j: int) -> (r: (int, int))
    requires
        is_stable_order(sorted, routes),
        0 <= i < j < sorted.len(),
        sorted[i].priority == sorted[j].priority,
    ensures
        0 <= r.0 < r.1 < routes.len(),
        routes[r.0] == sorted[i],
        routes[r.1] == sorted[j],
{
    let p = sorted[i].priority;
    let (a, b) = filter_keeps_order(sorted, p, i, j);
    assert(of_priority(sorted, p) == of_priority(routes, p));
    filtered_came_in_order(routes, p, a, b)
}

/// Of the routes that were loaded, those that are put in order are the last of each name:
/// no name occurs twice, every name that was loaded occurs, lower priorities come first,
/// and of two routes of one priority the one whose name was loaded first.
pub proof fn ordered_routes_are_the_last_of_each_name(
    sorted: Seq<RouteRule>,
    routes: Seq<RouteRule>,
    loaded: Seq<RouteRule>,
)
    requires
        is_last_of_each(routes, loaded),
        is_stable_order(sorted, routes),
    ensures
        distinct_names(sorted),
        by_priority(sorted),
        forall|i: int|
            0 <= i < sorted.len() ==> last_named(loaded, (#[trigger] sorted[i]).name@) == Some(
                sorted[i],
            ),
        forall|k: int|
            0 <= k < loaded.len() ==> route_place(sorted, (#[trigger] loaded[k]).name@) is Some,
        forall|i: int, j: int|
            0 <= i < j < sorted.len() && (#[trigger] sorted[i]).priority == (#[trigger] sorted[j]).priority
                ==> route_place(loaded, sorted[i].name@)->0 < route_place(loaded, sorted[j].name@)->0,
{
    assert forall|i: int| 0 <= i < sorted.len() implies last_named(
        loaded,
        (#[trigger] sorted[i]).name@,
    ) == Some(sorted[i]) by {
        let k = came_from(sorted, routes, i);
        assert(routes[k] == sorted[i]);
    }
    assert forall|i: int, j: int| 0 <= i < j < sorted.len() implies (#[trigger] sorted[i]).name@ != (
    #[trigger] sorted[j]).name@ by {
        if sorted[i].priority == sorted[j].priority {
            let (k, m) = came_in_order(sorted, routes, i, j);
            assert(routes[k].name@ != routes[m].name@);
        } else {
            let k = came_from(sorted, routes, i);
            let m = came_from(sorted, routes, j);
            assert(k != m);
            assert(routes[k].name@ != routes[m].name@);
        }
    }
    assert forall|i: int, j: int|
        0 <= i < j < sorted.len() && (#[trigger] sorted[i]).priority == (#[trigger] sorted[j]).priority implies route_place(
        loaded,
        sorted[i].name@,
    )->0 < route_place(loaded, sorted[j].name@)->0 by {
        let (k, m) = came_in_order(sorted, routes, i, j);
        assert(routes[k] == sorted[i] && routes[m] == sorted[j]);
    }
    assert forall|k: int| 0 <= k < loaded.len() implies route_place(
        sorted,
        (#[trigger] loaded[k]).name@,
    ) is Some by {
        let n = loaded[k].name@;
        route_place_is_first(routes, n);
        route_place_is_first(sorted, n);
        let m = route_place(routes, n)->0;
        let p = routes[m].priority;
        let a = filter_keeps_each(routes, p, m);
        assert(of_priority(sorted, p) == of_priority(routes, p));
        let i = filtered_came(sorted, p, a);
        assert(sorted[i].name@ == n);
    }
}

/// The source pattern of a route is held against the user that calls and its destination
/// pattern against the user that is called; an empty pattern is none. Without filters no
/// other part and no header counts.
pub proof fn patterns_are_for_the_two_users(
    c: MatchConditions,
    source: Option<String>,
    destination: Option<String>,
)
    requires
        are_conditions(c, source, destination, None),
    ensures
        source matches Some(s) && s@.len() > 0 ==> text::opt_text(c.from_user) == text::opt_text(
            source,
        ),
        destination matches Some(s) && s@.len() > 0 ==> text::opt_text(c.to_user) == text::opt_text(
            destination,
        ),
        source is None || source->0@.len() == 0 ==> c.from_user is None,
        destination is None || destination->0@.len() == 0 ==> c.to_user is None,
        c.from_host is None && c.to_host is None && c.to_port is None,
        c.request_uri_user is None && c.request_uri_host is None && c.request_uri_port is None,
        c.from is None && c.caller is None && c.to is None && c.callee is None,
        forall|k: Seq<char>| #[trigger] header_text(c.headers, k) is None,
{
    assert(c.field(Field::FromUser) == text::opt_text(c.from_user));
    assert(c.field(Field::ToUser) == text::opt_text(c.to_user));
    assert(c.field(Field::FromHost) == text::opt_text(c.from_host));
    assert(c.field(Field::ToHost) == text::opt_text(c.to_host));
    assert(c.field(Field::ToPort) == text::opt_text(c.to_port));
    assert(c.field(Field::RequestUriUser) == text::opt_text(c.request_uri_user));
    assert(c.field(Field::RequestUriHost) == text::opt_text(c.request_uri_host));
    assert(c.field(Field::RequestUriPort) == text::opt_text(c.request_uri_port));
}

/// The last filter of a route that is not blank sets the part that it names, over any
/// pattern: one for `callee`, `to` or `to.user` the user that is called, one for
/// `caller`, `from` or `from.user` the user that calls, and so on; one that names no part
/// is a condition on the header of its name.
pub proof fn filter_sets_the_part_of_its_name(
    c: MatchConditions,
    source: Option<String>,
    destination: Option<String>,
    filters: Vec<(String, String)>,
)
    requires
        are_conditions(c, source, destination, Some(filters)),
        filters@.len() > 0,
        text::trimmed(filters@.last().1@).len() > 0,
    ensures
        ({
            let name = canonical_key(text::trimmed(filters@.last().0@));
            let set = Some(text::trimmed(filters@.last().1@));
            &&& name == "to.user"@ || name == "callee"@ || name == "to"@ ==> text::opt_text(c.to_user)
                == set
            &&& name == "from.user"@ || name == "caller"@ || name == "from"@ ==> text::opt_text(
                c.from_user,
            ) == set
            &&& name == "to.host"@ ==> text::opt_text(c.to_host) == set
            &&& name == "to.port"@ ==> text::opt_text(c.to_port) == set
            &&& name == "from.host"@ ==> text::opt_text(c.from_host) == set
            &&& name == "request.uri.user"@ ==> text::opt_text(c.request_uri_user) == set
            &&& name == "request.uri.host"@ ==> text::opt_text(c.request_uri_host) == set
            &&& name == "request.uri.port"@ ==> text::opt_text(c.request_uri_port) == set
            &&& names_header(true, filters@.last().0@) ==> header_text(
                c.headers,
                text::trimmed(filters@.last().0@),
            ) == set
        }),
{
    let entries = filters@;
    let rest = entries.drop_last();
    let (key, value) = entries.last();
    assert(rest.push((key, value)) =~= entries);
    name_speaks_of_its_part(key@);
    last_entry_of_a_part_counts(
        true,
        rest,
        key,
        value,
        Field::ToUser,
        text::trimmed(key@),
        pattern(destination),
    );
    last_entry_of_a_part_counts(
        true,
        rest,
        key,
        value,
        Field::FromUser,
        text::trimmed(key@),
        pattern(source),
    );
    assert(c.field(Field::FromUser) == text::opt_text(c.from_user));
    assert(c.field(Field::ToUser) == text::opt_text(c.to_user));
    assert(c.field(Field::FromHost) == text::opt_text(c.from_host));
    assert(c.field(Field::ToHost) == text::opt_text(c.to_host));
    assert(c.field(Field::ToPort) == text::opt_text(c.to_port));
    assert(c.field(Field::RequestUriUser) == text::opt_text(c.request_uri_user));
    assert(c.field(Field::RequestUriHost) == text::opt_text(c.request_uri_host));
    assert(c.field(Field::RequestUriPort) == text::opt_text(c.request_uri_port));
    assert(c.field(Field::ToHost) == part_after(true, entries, Field::ToHost, None));
    assert(c.field(Field::ToPort) == part_after(true, entries, Field::ToPort, None));
    assert(c.field(Field::FromHost) == part_after(true, entries, Field::FromHost, None));
    assert(header_text(c.headers, text::trimmed(key@)) == header_after(
        true,
        entries,
        text::trimmed(key@),
    ));
}

/// A route without a rewrite rewrites nothing, and one whose rewrite has no headers keeps
/// every part of it.
pub proof fn rewrite_keeps_its_parts(r: Option<RewriteRules>, rules: Option<RewriteRules>)
    requires
        is_rewrite_of(r, rules),
    ensures
        r is Some <==> rules is Some,
        rules matches Some(before) && before.headers.entries@.len() == 0 ==> {
            let before = rules->0;
            let after = r->0;
            &&& text::opt_text(after.from_user) == text::opt_text(before.from_user)
            &&& text::opt_text(after.from_host) == text::opt_text(before.from_host)
            &&& text::opt_text(after.to_user) == text::opt_text(before.to_user)
            &&& text::opt_text(after.to_host) == text::opt_text(before.to_host)
            &&& text::opt_text(after.to_port) == text::opt_text(before.to_port)
            &&& text::opt_text(after.request_uri_user) == text::opt_text(before.request_uri_user)
            &&& text::opt_text(after.request_uri_host) == text::opt_text(before.request_uri_host)
            &&& text::opt_text(after.request_uri_port) == text::opt_text(before.request_uri_port)
            &&& forall|k: Seq<char>| #[trigger] header_text(after.headers, k) is None
        },
{
    if rules is Some {
        let after = r->0;
        assert(after.field(Field::FromUser) == text::opt_text(after.from_user));
        assert(after.field(Field::ToUser) == text::opt_text(after.to_user));
        assert(after.field(Field::FromHost) == text::opt_text(after.from_host));
        assert(after.field(Field::ToHost) == text::opt_text(after.to_host));
        assert(after.field(Field::ToPort) == text::opt_text(after.to_port));
        assert(after.field(Field::RequestUriUser) == text::opt_text(after.request_uri_user));
        assert(after.field(Field::RequestUriHost) == text::opt_text(after.request_uri_host));
        assert(after.field(Field::RequestUriPort) == text::opt_text(after.request_uri_port));
    }
}

/// A route goes to every trunk that it names and to no other, whatever else it does; how
/// one is chosen stays as it was stored.
pub proof fn route_goes_to_its_trunks(a: RouteAction, model: RouteModel, ivr_dir: Option<IvrDir>)
    requires
        is_action_of(a, model, ivr_dir),
    ensures
        a.dest is None <==> model.target_trunks@.len() == 0,
        a.dest matches Some(DestConfig::Single(trunk)) ==> model.target_trunks@ == seq![trunk],
        a.dest matches Some(DestConfig::Multiple(trunks)) ==> trunks@ == model.target_trunks@
            && trunks@.len() >= 2,
        a.select == model.selection_strategy,
        a.hash_key == model.hash_key,
{
    if model.target_trunks@.len() == 1 {
        assert(model.target_trunks@ =~= seq![model.target_trunks@[0]]);
    }
}

/// A route is for a queue, for a mailbox or for an IVR by what its metadata say, in any
/// case and with blanks around it; it is for one of them at most, and without metadata,
/// or for a trunk, for none.
pub proof fn metadata_name_the_target(
    a: RouteAction,
    model: RouteModel,
    ivr_dir: Option<IvrDir>,
    kind: String,
)
    requires
        is_action_of(a, model, ivr_dir),
        model.metadata matches Some(meta) ==> meta.target_type == Some(kind),
    ensures
        ({
            let says = |word: Seq<char>|
                model.metadata is Some && text::ascii_lower(text::trimmed(kind@)) == word;
            &&& a.queue is Some ==> says("queue"@) && a.app is None
            &&& says("queue"@) && (model.metadata->0.queue_file matches Some(q) && text::trimmed(
                q@,
            ).len() > 0) ==> text::opt_text(a.queue) == Some(
                text::trimmed(model.metadata->0.queue_file->0@),
            )
            &&& a.app is Some <==> says("voicemail"@) || (says("ivr"@) && (
            model.metadata->0.ivr_file matches Some(f) && text::trimmed(f@).len() > 0))
            &&& says("voicemail"@) ==> text::opt_text(a.app) == Some("voicemail"@)
            &&& says("ivr"@) && a.app is Some ==> text::opt_text(a.app) == Some("ivr"@)
            &&& a.app_params is Some <==> a.app is Some
            &&& says("voicemail"@) && (model.metadata->0.voicemail_extension matches Some(e)
                && text::trimmed(e@).len() > 0) ==> (a.app_params matches Some(Json::Object(p))
                && p@.len() == 1 && p@[0].0@ == "extension"@ && p@[0].1.text() == Some(
                text::trimmed(model.metadata->0.voicemail_extension->0@),
            ))
            &&& says("ivr"@) && a.app is Some && ivr_dir is None ==> (
            a.app_params matches Some(Json::Object(p)) && p@.len() == 1 && p@[0].0@ == "file"@
                && p@[0].1.text() == Some(text::trimmed(model.metadata->0.ivr_file->0@)))
        }),
{
    reveal_strlit("queue");
    reveal_strlit("voicemail");
    reveal_strlit("ivr");
    reveal_strlit("sip_trunk");
    assert("queue"@.len() == 5);
    assert("voicemail"@.len() == 9);
    assert("ivr"@.len() == 3);
    assert("sip_trunk"@.len() == 9);
    assert("voicemail"@[0] == 'v');
    assert("sip_trunk"@[0] == 's');
}

/// A route whose metadata name no kind of target is for a trunk.
pub proof fn unnamed_target_is_a_trunk(meta: RouteMetadataAction)
    requires
        meta.target_type is None,
    ensures
        target_type(meta) != "queue"@,
        target_type(meta) != "voicemail"@,
        target_type(meta) != "ivr"@,
{
    reveal_strlit("queue");
    reveal_strlit("voicemail");
    reveal_strlit("ivr");
    reveal_strlit("sip_trunk");
    assert("queue"@.len() == 5);
    assert("voicemail"@.len() == 9);
    assert("ivr"@.len() == 3);
    assert("sip_trunk"@.len() == 9);
    assert("voicemail"@[0] == 'v');
    assert("sip_trunk"@[0] == 's');
}

/// The file name of an IVR is as long as its name, keeps its letters, digits, hyphens and
/// underscores where they are, and has an underscore everywhere else.
pub proof fn file_name_keeps_what_is_safe(name: Seq<char>, i: int)
    requires
        0 <= i < name.len(),
    ensures
        ivr_filename(name).len() == name.len(),
        text::char_is_alphanumeric(name[i]) || name[i] == '-' || name[i] == '_' ==> ivr_filename(
            name,
        )[i] == name[i],
        ivr_filename(name)[i] != name[i] ==> ivr_filename(name)[i] == '_',
        !text::char_is_alphanumeric(name[i]) && name[i] != '-' ==> ivr_filename(name)[i] == '_',
        ivr_filename(ivr_filename(name))[i] == ivr_filename(name)[i],
{
}

/// An IVR that was written by hand is taken from its own file whenever it is there, or
/// when no file is; the generated file counts only where it is the only one.
pub proof fn hand_written_ivr_comes_first(file: Seq<char>, dir: IvrDir)
    ensures
        dir.hand_written_exists || !dir.generated_exists ==> ivr_path(file, Some(dir))
            == paths::joined_path(dir.dir@, ivr_filename(file) + ".toml"@),
        !dir.hand_written_exists && dir.generated_exists ==> ivr_path(file, Some(dir))
            == paths::joined_path(dir.dir@, ivr_filename(file) + ".generated.toml"@),
        ivr_path(file, None) == file,
{
}

/// The trunk of a number is the one that was entered last under it; a number that no
/// entry has names none.
pub proof fn trunk_is_the_last_of_its_number(
    lookup: Seq<(i64, String)>,
    id: i64,
    name: String,
    other: i64,
)
    ensures
        trunk_name(lookup.push((id, name)), id) == Some(name),
        other != id ==> trunk_name(lookup.push((id, name)), other) == trunk_name(lookup, other),
        trunk_name(Seq::empty(), id) is None,
{
    assert(lookup.push((id, name)).drop_last() =~= lookup);
}

/// A route that is added takes the place of the one of its name, and else comes last;
/// every other route stays where it is.
pub proof fn added_route_replaces_its_namesake(
    routes: Seq<RouteRule>,
    route: RouteRule,
    i: int,
)
    requires
        distinct_names(routes),
        0 <= i < routes.len(),
    ensures
        upserted(routes, route)[i] == (if routes[i].name@ == route.name@ {
            route
        } else {
            routes[i]
        }),
        upserted(routes, route).len() == routes.len() || (upserted(routes, route).len()
            == routes.len() + 1 && upserted(routes, route).last() == route && routes[i].name@
            != route.name@),
{
    route_place_is_first(routes, route.name@);
}

/// Routes in order have the same routes as before, lower priorities first.
pub proof fn order_is_by_priority(sorted: Seq<RouteRule>, routes: Seq<RouteRule>, i: int, j: int)
    requires
        is_stable_order(sorted, routes),
        0 <= i < j < sorted.len(),
    ensures
        sorted.len() == routes.len(),
        sorted[i].priority <= sorted[j].priority,
        exists|k: int| 0 <= k < routes.len() && #[trigger] routes[k] == sorted[i],
        sorted[i].priority == sorted[j].priority ==> exists|a: int, b: int|
            0 <= a < b < routes.len() && #[trigger] routes[a] == sorted[i] && #[trigger] routes[b]
                == sorted[j],
{
    let k = came_from(sorted, routes, i);
    assert(routes[k] == sorted[i]);
    if sorted[i].priority == sorted[j].priority {
        let (a, b) = came_in_order(sorted, routes, i, j);
        assert(routes[a] == sorted[i] && routes[b] == sorted[j]);
    }
}

proof fn mapped_to_slug(name: Seq<char>) -> (m: Seq<char>)
    ensures
        m.len() == name.len(),
        forall|i: int|
            0 <= i < name.len() ==> #[trigger] m[i] == (if is_slug_char(name[i]) {
                text::lower_char(name[i])
            } else {
                '-'
            }),
        slug(name) == text::joined(
            text::split(m, '-').filter(|w: Seq<char>| w.len() > 0),
            "-"@,
        ),
{
    name.map_values(
        |c: char|
            if is_slug_char(c) {
                text::lower_char(c)
            } else {
                '-'
            },
    )
}

/// The key of a queue does not depend on the case of its name; a name of letters and
/// digits alone is its own key, in small letters; and one more word behind anything else
/// is one more word of the key, behind a hyphen.
pub proof fn key_of_a_queue_is_its_words(name: Seq<char>, gap: char, word: Seq<char>)
    requires
        !is_slug_char(gap),
        word.len() > 0,
        forall|i: int| 0 <= i < word.len() ==> is_slug_char(#[trigger] word[i]),
    ensures
        slug(text::ascii_lower(name)) == slug(name),
        slug(word) == text::ascii_lower(word),
        slug(name).len() > 0 ==> slug(name + seq![gap] + word) == slug(name) + "-"@
            + text::ascii_lower(word),
        slug_words(name).len() == 0 ==> slug(name + seq![gap] + word) == text::ascii_lower(word),
        slug(name + seq![gap]) == slug(name),
{
    reveal_strlit("-");
    let keep = |w: Seq<char>| w.len() > 0;
    let m = mapped_to_slug(name);
    let l = mapped_to_slug(text::ascii_lower(name));
    assert forall|i: int| 0 <= i < name.len() implies m[i] == l[i] by {
        text::lower_char_is_the_small_letter(name[i]);
        assert(text::ascii_lower(name)[i] == text::lower_char(name[i]));
    }
    assert(m =~= l);
    let w = mapped_to_slug(word);
    assert(w =~= text::ascii_lower(word));
    assert forall|i: int| 0 <= i < w.len() implies w[i] != '-' by {
        assert(is_slug_char(word[i]));
        text::lower_char_is_the_small_letter(word[i]);
    }
    assert(!w.contains('-'));
    text::lemma_split_plain(w, '-');
    assert(text::split(w, '-').filter(keep) =~= seq![w]) by {
        reveal_with_fuel(Seq::filter, 2);
        assert(seq![w].drop_last() =~= Seq::empty());
    }
    assert(text::joined(seq![w], "-"@) == w);
    let all = mapped_to_slug(name + seq![gap] + word);
    assert(all =~= m + seq!['-'] + w);
    text::lemma_split_push(m, w, '-');
    let pieces = text::split(m, '-');
    assert(pieces.push(w).filter(keep) =~= pieces.filter(keep).push(w)) by {
        reveal(Seq::filter);
        assert(pieces.push(w).drop_last() =~= pieces);
    }
    let words = pieces.filter(keep);
    assert(words.push(w).drop_last() =~= words);
    let ended = mapped_to_slug(name + seq![gap]);
    assert(ended =~= m + seq!['-'] + Seq::<char>::empty());
    text::lemma_split_push(m, Seq::empty(), '-');
    assert(pieces.push(Seq::empty()).filter(keep) =~= pieces.filter(keep)) by {
        reveal(Seq::filter);
        assert(pieces.push(Seq::empty()).drop_last() =~= pieces);
    }
    assert(words == slug_words(name)) by {
        assert(name.map_values(
            |c: char|
                if is_slug_char(c) {
                    text::lower_char(c)
                } else {
                    '-'
                },
        ) =~= m);
    }
}

/// What a stored target is decides where a route goes: a queue to its file, a mailbox to
/// voicemail, a menu to its app; nothing else changes where it goes, and where it was dialled
/// stays.
pub proof fn stored_target_decides_where_a_route_goes()
    ensures
        forall|a: &mut RouteAction, meta: RouteMetadataAction, dir: Option<IvrDir>| #[trigger]
            call_ensures(apply_route_metadata, (a, meta, &dir), ()) ==> {
                &&& final(a).dest == a.dest && final(a).select == a.select && final(a).hash_key
                    == a.hash_key
                &&& target_type(meta) == "queue"@ ==> final(a).app == a.app
                &&& target_type(meta) == "queue"@ && sanitized(meta.queue_file) is Some
                    ==> text::opt_text(final(a).queue) == sanitized(meta.queue_file)
                &&& target_type(meta) != "queue"@ ==> final(a).queue == a.queue
                &&& target_type(meta) == "voicemail"@ && "voicemail"@ != "queue"@
                    ==> text::opt_text(final(a).app) == Some("voicemail"@)
                &&& target_type(meta) != "queue"@ && target_type(meta) != "voicemail"@
                    && target_type(meta) != "ivr"@ ==> *final(a) == *a
            },
{
}

/// A menu that was written by hand comes before a generated one.
pub proof fn menu_by_hand_comes_first(
    name: &str,
    dir: &str,
    generated: bool,
    by_hand: String,
    only_generated: String,
    neither: String,
)
    requires
        call_ensures(resolve_ivr_name_to_path, (name, dir, true, generated), by_hand),
        call_ensures(resolve_ivr_name_to_path, (name, dir, false, true), only_generated),
        call_ensures(resolve_ivr_name_to_path, (name, dir, false, false), neither),
    ensures
        by_hand@ == neither@,
        by_hand@ == hand_written_file(dir@, ivr_filename(name@)),
        only_generated@ == generated_file(dir@, ivr_filename(name@)),
{
}

} // verus!
