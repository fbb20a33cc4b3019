//! The data that a proxy routes by: its trunks, queues, routes and access rules, and how
//! they are put together from the configuration, from files and from what was generated.

use crate::paths;
use crate::route::{
    adding_the_last_of_each, all_upserted, by_priority, canonical_queue_key, distinct_names,
    is_last_of_each, is_stable_order, last_named, ordered_routes_are_the_last_of_each_name,
    resolve_ivr_name_to_path, route_place, slug, sort_by_priority, upsert_routes,
    upserting_keeps_the_last, RouteRule,
};
use crate::table::{
    distinct_keys, key_set, keys_have_values, last_value, last_value_of_two,
    table_has_as_many_entries_as_keys, Table,
};
use crate::text;
use crate::trunk::{ConfigOrigin, TrunkConfig};
use crate::video::clone_texts;
use vstd::prelude::*;

verus! {

/// A queue that routes lead to; what it is set to is kept as written.
pub struct RouteQueueConfig {
    pub name: Option<String>,
    pub settings: String,
    pub origin: ConfigOrigin,
}

/// The part of the proxy's configuration that says where its data are.
pub struct ProxyConfig {
    pub trunks_files: Vec<String>,
    pub queues_files: Vec<String>,
    pub routes_files: Vec<String>,
    pub acl_files: Vec<String>,
    pub modules: Option<Vec<String>>,
    pub queue_dir: String,
    pub ivr_dir: String,
}

/// What is told of a file that was generated.
pub struct GeneratedFileMetrics {
    pub entries: usize,
    pub path: String,
    pub backup: Option<String>,
}

/// What is told of data that were loaded anew.
pub struct ReloadMetrics {
    pub total: usize,
    pub config_count: usize,
    pub file_count: usize,
    pub generated: Option<GeneratedFileMetrics>,
    pub files: Vec<String>,
    pub patterns: Vec<String>,
}

/// The trunks of a file.
pub struct TrunkFile {
    pub path: String,
    pub trunks: Vec<(String, TrunkConfig)>,
}

/// The routes of a file.
pub struct RouteFile {
    pub path: String,
    pub routes: Vec<RouteRule>,
}

/// The access rules of a file.
pub struct AclFile {
    pub path: String,
    pub rules: Vec<String>,
}

/// The value of a pattern holds a character that stands for others.
pub open spec fn is_glob_char(c: char) -> bool {
    c == '*' || c == '?' || c == '[' || c == ']' || c == '{' || c == '}'
}

pub open spec fn has_glob(value: Seq<char>) -> bool {
    exists|i: int| 0 <= i < value.len() && is_glob_char(#[trigger] value[i])
}

pub fn contains_glob_chars(value: &str) -> (r: bool)
    ensures
        r == has_glob(value@),
{
    let chars = text::chars_of(value);
    let mut i: usize = 0;
    while i < chars.len()
        invariant
            i <= chars@.len(),
            chars@ == value@,
            forall|j: int| 0 <= j < i ==> !is_glob_char(#[trigger] chars@[j]),
        decreases chars@.len() - i,
    {
        let c = chars[i];
        if c == '*' || c == '?' || c == '[' || c == ']' || c == '{' || c == '}' {
            assert(is_glob_char(chars@[i as int]));
            return true;
        }
        i += 1;
    }
    false
}

/// The file that goes with a pattern: the pattern itself where it names one file, else a
/// file of the default name in its directory, or in the default directory where it has
/// none.
pub open spec fn generated_beside(pattern: Seq<char>, dir: Seq<char>, name: Seq<char>) -> Seq<char> {
    if !has_glob(pattern) {
        pattern
    } else {
        match paths::parent_path(pattern) {
            Some(parent) => if parent.len() > 0 {
                paths::joined_path(parent, name)
            } else {
                paths::joined_path(dir, name)
            },
            None => paths::joined_path(dir, name),
        }
    }
}

/// The file that data are generated into: the one that goes with the first pattern that
/// is not blank, else the default one.
pub open spec fn generated_path(patterns: Seq<Seq<char>>, dir: Seq<char>, name: Seq<char>) -> Seq<char>
    decreases patterns.len(),
{
    if patterns.len() == 0 {
        paths::joined_path(dir, name)
    } else if text::trimmed(patterns[0]).len() == 0 {
        generated_path(patterns.drop_first(), dir, name)
    } else {
        generated_beside(patterns[0], dir, name)
    }
}

/// The file that data are generated into.
pub fn resolve_generated_path(patterns: &Vec<String>, default_dir: &str, default_name: &str) -> (r:
    Option<String>)
    ensures
        r matches Some(path) && path@ == generated_path(
            text::views(patterns@),
            default_dir@,
            default_name@,
        ),
{
    let ghost all = text::views(patterns@);
    let mut i: usize = 0;
    assert(all.subrange(0, all.len() as int) =~= all);
    while i < patterns.len()
        invariant
            i <= patterns@.len(),
            all == text::views(patterns@),
            generated_path(
                all.subrange(i as int, all.len() as int),
                default_dir@,
                default_name@,
            ) == generated_path(all, default_dir@, default_name@),
        decreases patterns@.len() - i,
    {
        let pattern = &patterns[i];
        proof {
            let rest = all.subrange(i as int, all.len() as int);
            assert(rest[0] == pattern@);
            assert(rest.drop_first() =~= all.subrange(i + 1, all.len() as int));
        }
        if !text::trim(pattern).as_str().is_empty() {
            if !contains_glob_chars(pattern) {
                return Some(pattern.clone());
            }
            return match paths::parent(pattern) {
                Some(parent) => {
                    if parent.as_str().is_empty() {
                        Some(paths::join(default_dir, default_name))
                    } else {
                        Some(paths::join(&parent, default_name))
                    }
                },
                None => Some(paths::join(default_dir, default_name)),
            };
        }
        i += 1;
    }
    Some(paths::join(default_dir, default_name))
}

/// The access rules are switched on.
pub open spec fn has_acl(modules: Option<Vec<String>>) -> bool {
    modules matches Some(list) && text::views(list@).contains("acl"@)
}

pub fn acl_enabled(modules: &Option<Vec<String>>) -> (r: bool)
    ensures
        r == has_acl(*modules),
{
    match modules {
        None => false,
        Some(list) => {
            let ghost names = text::views(list@);
            let mut i: usize = 0;
            while i < list.len()
                invariant
                    i <= list@.len(),
                    *modules == Some(*list),
                    names == text::views(list@),
                    forall|j: int| 0 <= j < i ==> (#[trigger] names[j]) != "acl"@,
                decreases list@.len() - i,
            {
                if text::same(&list[i], "acl") {
                    assert(names[i as int] == "acl"@);
                    return true;
                }
                i += 1;
            }
            false
        },
    }
}

/// The trunk, from somewhere else.
pub open spec fn trunk_from(t: TrunkConfig, origin: ConfigOrigin) -> TrunkConfig {
    TrunkConfig { origin, ..t }
}

pub open spec fn trunks_with_origin(entries: Seq<(String, TrunkConfig)>, origin: ConfigOrigin) -> Seq<
    (String, TrunkConfig),
> {
    entries.map_values(|e: (String, TrunkConfig)| (e.0, trunk_from(e.1, origin)))
}

/// The trunks of files, one file after another, each trunk with the file that it is from.
pub open spec fn file_trunks(files: Seq<TrunkFile>) -> Seq<(String, TrunkConfig)>
    decreases files.len(),
{
    if files.len() == 0 {
        Seq::empty()
    } else {
        file_trunks(files.drop_last()) + trunks_with_origin(
            files.last().trunks@,
            ConfigOrigin::File(files.last().path),
        )
    }
}

/// The texts, each where it stands first.
pub open spec fn distinct(names: Seq<Seq<char>>) -> Seq<Seq<char>>
    decreases names.len(),
{
    if names.len() == 0 {
        Seq::empty()
    } else {
        let before = distinct(names.drop_last());
        if before.contains(names.last()) {
            before
        } else {
            before.push(names.last())
        }
    }
}

fn push_distinct(names: &mut Vec<String>, name: String)
    ensures
        text::views(final(names)@) == (if text::views(old(names)@).contains(name@) {
            text::views(old(names)@)
        } else {
            text::views(old(names)@).push(name@)
        }),
{
    let ghost before = text::views(names@);
    let mut i: usize = 0;
    while i < names.len()
        invariant
            i <= names@.len(),
            names@ == old(names)@,
            before == text::views(names@),
            forall|j: int| 0 <= j < i ==> (#[trigger] before[j]) != name@,
        decreases names@.len() - i,
    {
        if text::same(&names[i], &name) {
            assert(before[i as int] == name@);
            return ;
        }
        i += 1;
    }
    names.push(name);
    assert(text::views(names@) =~= before.push(name@));
}

fn mark_trunks(trunks: Vec<(String, TrunkConfig)>, path: Option<&String>) -> (r: Vec<
    (String, TrunkConfig),
>)
    ensures
        r@ == trunks_with_origin(
            trunks@,
            match path {
                Some(p) => ConfigOrigin::File(*p),
                None => ConfigOrigin::Embedded,
            },
        ),
{
    let ghost all = trunks@;
    let ghost origin = match path {
        Some(p) => ConfigOrigin::File(*p),
        None => ConfigOrigin::Embedded,
    };
    let mut trunks = trunks;
    let mut r: Vec<(String, TrunkConfig)> = Vec::new();
    let ghost mut i: int = 0;
    assert(all.subrange(0, all.len() as int) =~= all);
    while trunks.len() > 0
        invariant
            0 <= i <= all.len(),
            trunks@ == all.subrange(i, all.len() as int),
            origin == (match path {
                Some(p) => ConfigOrigin::File(*p),
                None => ConfigOrigin::Embedded,
            }),
            r@ == trunks_with_origin(all, origin).subrange(0, i),
        decreases trunks@.len(),
    {
        let (name, trunk) = trunks.remove(0);
        let mut trunk = trunk;
        assert((name, trunk) == all[i]);
        trunk.origin = match path {
            Some(p) => ConfigOrigin::File(p.clone()),
            None => ConfigOrigin::Embedded,
        };
        assert(trunk == trunk_from(all[i].1, origin));
        r.push((name, trunk));
        proof {
            assert(trunks_with_origin(all, origin)[i] == (name, trunk));
            i = i + 1;
            assert(trunks@ =~= all.subrange(i, all.len() as int));
        }
    }
    assert(r@ =~= trunks_with_origin(all, origin));
    r
}

pub open spec fn trunk_paths(files: Seq<TrunkFile>) -> Seq<Seq<char>> {
    files.map_values(|f: TrunkFile| f.path@)
}

/// Puts the trunks of files together: a later one takes the place of an earlier one of
/// its name. The paths are told, each once.
pub fn load_trunks_from_files(files: Vec<TrunkFile>) -> (r: (Table<TrunkConfig>, Vec<String>))
    ensures
        r.0.wf(),
        forall|k: Seq<char>| #[trigger] r.0.value(k) == last_value(file_trunks(files@), k),
        r.0.entries@.len() == key_set(file_trunks(files@)).len(),
        text::views(r.1@) == distinct(trunk_paths(files@)),
{
    let ghost all = files@;
    let mut files = files;
    let mut trunks: Table<TrunkConfig> = Table::new();
    let mut paths: Vec<String> = Vec::new();
    let ghost mut i: int = 0;
    proof {
        assert(all.subrange(0, all.len() as int) =~= all);
        assert(all.subrange(0, 0) =~= Seq::empty());
        assert(text::views(paths@) =~= Seq::empty());
    }
    while files.len() > 0
        invariant
            0 <= i <= all.len(),
            files@ == all.subrange(i, all.len() as int),
            trunks.wf(),
            forall|k: Seq<char>| #[trigger]
                trunks.value(k) == last_value(file_trunks(all.subrange(0, i)), k),
            text::views(paths@) == distinct(trunk_paths(all.subrange(0, i))),
        decreases files@.len(),
    {
        let file = files.remove(0);
        let ghost before = file_trunks(all.subrange(0, i));
        let ghost added = trunks_with_origin(file.trunks@, ConfigOrigin::File(file.path));
        proof {
            assert(file == all[i]);
            assert(all.subrange(0, i + 1).drop_last() =~= all.subrange(0, i));
            assert(all.subrange(0, i + 1).last() == all[i]);
            assert(trunk_paths(all.subrange(0, i + 1)).drop_last() =~= trunk_paths(
                all.subrange(0, i),
            ));
            i = i + 1;
            assert(files@ =~= all.subrange(i, all.len() as int));
        }
        push_distinct(&mut paths, file.path.clone());
        let entries = mark_trunks(file.trunks, Some(&file.path));
        trunks.insert_all(entries);
        proof {
            assert forall|k: Seq<char>| #[trigger]
                trunks.value(k) == last_value(file_trunks(all.subrange(0, i)), k) by {
                last_value_of_two(before, added, k);
            }
        }
    }
    assert(all.subrange(0, i) =~= all);
    proof {
        size_is_key_count(trunks, file_trunks(all));
    }
    (trunks, paths)
}

proof fn size_is_key_count<V>(table: Table<V>, entries: Seq<(String, V)>)
    requires
        table.wf(),
        forall|k: Seq<char>| #[trigger] table.value(k) == last_value(entries, k),
    ensures
        table.entries@.len() == key_set(entries).len(),
{
    table_has_as_many_entries_as_keys(table.entries@);
    assert forall|k: Seq<char>|
        key_set(table.entries@).contains(k) <==> key_set(entries).contains(k) by {
        keys_have_values(table.entries@, k);
        keys_have_values(entries, k);
        assert(table.value(k) == last_value(entries, k));
    }
    assert(key_set(table.entries@) =~= key_set(entries));
}

/// The data that a proxy routes by.
pub struct ProxyDataContext {
    pub config: ProxyConfig,
    pub trunks: Table<TrunkConfig>,
    pub queues: Table<RouteQueueConfig>,
    pub routes: Vec<RouteRule>,
    pub acl_rules: Vec<String>,
}

/// All trunks, in the order in which they are entered: those of the configuration, those
/// of files, those that were generated.
pub open spec fn all_trunks(
    embedded: Seq<(String, TrunkConfig)>,
    files: Seq<TrunkFile>,
    generated: Seq<TrunkFile>,
) -> Seq<(String, TrunkConfig)> {
    trunks_with_origin(embedded, ConfigOrigin::Embedded) + file_trunks(files) + file_trunks(
        generated,
    )
}

/// The queues of the configuration.
pub open spec fn queues_with_origin(entries: Seq<(String, RouteQueueConfig)>, origin: ConfigOrigin) -> Seq<
    (String, RouteQueueConfig),
> {
    entries.map_values(
        |e: (String, RouteQueueConfig)| (e.0, RouteQueueConfig { origin, ..e.1 }),
    )
}

/// The file that a queue is taken to be from: the first whose path holds its key, else
/// all of them.
pub open spec fn queue_path(key: Seq<char>, paths: Seq<Seq<char>>, patterns: Seq<Seq<char>>) -> Seq<char>
    decreases paths.len(),
{
    if paths.len() == 0 {
        text::joined(patterns, ", "@)
    } else if text::contains(paths[0], key) {
        paths[0]
    } else {
        queue_path(key, paths.drop_first(), patterns)
    }
}

/// The path is that of a file.
pub open spec fn is_from_path(origin: ConfigOrigin, path: Seq<char>) -> bool {
    origin matches ConfigOrigin::File(p) && p@ == path
}

/// The queue is the one that was read, with the file that it is taken to be from.
pub open spec fn is_file_queue(
    q: (String, RouteQueueConfig),
    read: (String, RouteQueueConfig),
    paths: Seq<Seq<char>>,
    patterns: Seq<Seq<char>>,
) -> bool {
    &&& q.0 == read.0
    &&& q.1.name == read.1.name
    &&& q.1.settings == read.1.settings
    &&& is_from_path(q.1.origin, queue_path(read.0@, paths, patterns))
}

/// What was found out about a queue.
pub enum QueueLookup<'a> {
    /// There is no such queue.
    Missing,
    Found(&'a RouteQueueConfig),
    /// It may be in this file.
    ReadFile { path: String },
    /// It may be known under this name.
    Retry { reference: String },
}

/// The reference names a queue by its number.
pub open spec fn is_numbered(reference: Seq<char>) -> bool {
    text::starts_with(reference, "db-"@) && text::writes_i64(reference.skip("db-"@.len() as int))
}

/// A queue goes by this key.
pub open spec fn goes_by(entry: (String, RouteQueueConfig), key: Seq<char>) -> bool {
    slug(entry.0@) == key || (entry.1.name matches Some(n) && slug(n@) == key)
}

/// The first queue that goes by a key.
pub open spec fn queue_by_key(entries: Seq<(String, RouteQueueConfig)>, key: Seq<char>) -> Option<
    RouteQueueConfig,
>
    decreases entries.len(),
{
    if entries.len() == 0 {
        None
    } else if goes_by(entries[0], key) {
        Some(entries[0].1)
    } else {
        queue_by_key(entries.drop_first(), key)
    }
}

/// The access rules where none are given.
pub open spec fn is_open_acl(rules: Seq<Seq<char>>) -> bool {
    rules == seq!["allow all"@, "deny all"@]
}

/// The rules, or the open ones where there are none.
pub open spec fn acl_or_open(rules: Seq<Seq<char>>) -> Seq<Seq<char>> {
    if rules.len() == 0 {
        seq!["allow all"@, "deny all"@]
    } else {
        rules
    }
}

/// The rules of files, one file after another.
pub open spec fn file_rules(files: Seq<AclFile>) -> Seq<String>
    decreases files.len(),
{
    if files.len() == 0 {
        Seq::empty()
    } else {
        file_rules(files.drop_last()) + files.last().rules@
    }
}

pub open spec fn acl_paths(files: Seq<AclFile>) -> Seq<Seq<char>> {
    files.map_values(|f: AclFile| f.path@)
}

/// The route, from somewhere else.
pub open spec fn routes_with_origin(routes: Seq<RouteRule>, origin: ConfigOrigin) -> Seq<RouteRule> {
    routes.map_values(|r: RouteRule| RouteRule { origin, ..r })
}

/// The routes of files, one file after another, each in the place of an earlier one of
/// its name.
pub open spec fn file_routes(files: Seq<RouteFile>) -> Seq<RouteRule>
    decreases files.len(),
{
    if files.len() == 0 {
        Seq::empty()
    } else {
        all_upserted(
            file_routes(files.drop_last()),
            routes_with_origin(files.last().routes@, ConfigOrigin::File(files.last().path)),
        )
    }
}

pub open spec fn route_paths(files: Seq<RouteFile>) -> Seq<Seq<char>> {
    files.map_values(|f: RouteFile| f.path@)
}

/// All routes, before they are put in order.
pub open spec fn all_routes(
    embedded: Option<Vec<RouteRule>>,
    files: Seq<RouteFile>,
    generated: Seq<RouteFile>,
) -> Seq<RouteRule> {
    let first = match embedded {
        Some(routes) => all_upserted(
            Seq::empty(),
            routes_with_origin(routes@, ConfigOrigin::Embedded),
        ),
        None => Seq::empty(),
    };
    all_upserted(all_upserted(first, file_routes(files)), file_routes(generated))
}

fn mark_routes(routes: Vec<RouteRule>, path: Option<&String>) -> (r: Vec<RouteRule>)
    ensures
        r@ == routes_with_origin(
            routes@,
            match path {
                Some(p) => ConfigOrigin::File(*p),
                None => ConfigOrigin::Embedded,
            },
        ),
{
    let ghost all = routes@;
    let ghost origin = match path {
        Some(p) => ConfigOrigin::File(*p),
        None => ConfigOrigin::Embedded,
    };
    let mut routes = routes;
    let mut r: Vec<RouteRule> = Vec::new();
    let ghost mut i: int = 0;
    assert(all.subrange(0, all.len() as int) =~= all);
    while routes.len() > 0
        invariant
            0 <= i <= all.len(),
            routes@ == all.subrange(i, all.len() as int),
            origin == (match path {
                Some(p) => ConfigOrigin::File(*p),
                None => ConfigOrigin::Embedded,
            }),
            r@ == routes_with_origin(all, origin).subrange(0, i),
        decreases routes@.len(),
    {
        let mut route = routes.remove(0);
        assert(route == all[i]);
        route.origin = match path {
            Some(p) => ConfigOrigin::File(p.clone()),
            None => ConfigOrigin::Embedded,
        };
        r.push(route);
        proof {
            assert(routes_with_origin(all, origin)[i] == route);
            i = i + 1;
            assert(routes@ =~= all.subrange(i, all.len() as int));
        }
    }
    assert(r@ =~= routes_with_origin(all, origin));
    r
}

/// Puts the routes of files together. The paths are told, each once.
pub fn load_routes_from_files(files: Vec<RouteFile>) -> (r: (Vec<RouteRule>, Vec<String>))
    ensures
        r.0@ == file_routes(files@),
        text::views(r.1@) == distinct(route_paths(files@)),
{
    let ghost all = files@;
    let mut files = files;
    let mut routes: Vec<RouteRule> = Vec::new();
    let mut paths: Vec<String> = Vec::new();
    let ghost mut i: int = 0;
    proof {
        assert(all.subrange(0, all.len() as int) =~= all);
        assert(all.subrange(0, 0) =~= Seq::empty());
        assert(text::views(paths@) =~= Seq::empty());
    }
    while files.len() > 0
        invariant
            0 <= i <= all.len(),
            files@ == all.subrange(i, all.len() as int),
            routes@ == file_routes(all.subrange(0, i)),
            text::views(paths@) == distinct(route_paths(all.subrange(0, i))),
        decreases files@.len(),
    {
        let file = files.remove(0);
        proof {
            assert(file == all[i]);
            assert(all.subrange(0, i + 1).drop_last() =~= all.subrange(0, i));
            assert(all.subrange(0, i + 1).last() == all[i]);
            assert(route_paths(all.subrange(0, i + 1)).drop_last() =~= route_paths(
                all.subrange(0, i),
            ));
            i = i + 1;
            assert(files@ =~= all.subrange(i, all.len() as int));
        }
        push_distinct(&mut paths, file.path.clone());
        let marked = mark_routes(file.routes, Some(&file.path));
        upsert_routes(&mut routes, marked);
    }
    assert(all.subrange(0, i) =~= all);
    (routes, paths)
}

/// Puts the access rules of files together. The paths are told, each once.
pub fn load_acl_rules_from_files(files: Vec<AclFile>) -> (r: (Vec<String>, Vec<String>))
    ensures
        r.0@ == file_rules(files@),
        text::views(r.1@) == distinct(acl_paths(files@)),
{
    let ghost all = files@;
    let mut files = files;
    let mut rules: Vec<String> = Vec::new();
    let mut paths: Vec<String> = Vec::new();
    let ghost mut i: int = 0;
    proof {
        assert(all.subrange(0, all.len() as int) =~= all);
        assert(all.subrange(0, 0) =~= Seq::empty());
        assert(text::views(paths@) =~= Seq::empty());
    }
    while files.len() > 0
        invariant
            0 <= i <= all.len(),
            files@ == all.subrange(i, all.len() as int),
            rules@ == file_rules(all.subrange(0, i)),
            text::views(paths@) == distinct(acl_paths(all.subrange(0, i))),
        decreases files@.len(),
    {
        let file = files.remove(0);
        proof {
            assert(file == all[i]);
            assert(all.subrange(0, i + 1).drop_last() =~= all.subrange(0, i));
            assert(all.subrange(0, i + 1).last() == all[i]);
            assert(acl_paths(all.subrange(0, i + 1)).drop_last() =~= acl_paths(all.subrange(0, i)));
            i = i + 1;
            assert(files@ =~= all.subrange(i, all.len() as int));
        }
        push_distinct(&mut paths, file.path);
        let mut more = file.rules;
        let ghost before = rules@;
        let ghost added = more@;
        rules.append(&mut more);
        assert(rules@ =~= before + added);
    }
    assert(all.subrange(0, i) =~= all);
    (rules, paths)
}

fn open_acl() -> (r: Vec<String>)
    ensures
        is_open_acl(text::views(r@)),
{
    let mut r: Vec<String> = Vec::new();
    r.push("allow all".to_owned());
    r.push("deny all".to_owned());
    assert(text::views(r@) =~= seq!["allow all"@, "deny all"@]);
    r
}

/// Marks queues with the files that they are taken to be from.
fn mark_queues(
    queues: Vec<(String, RouteQueueConfig)>,
    paths: &Vec<String>,
    patterns: &Vec<String>,
) -> (r: Vec<(String, RouteQueueConfig)>)
    ensures
        r@.len() == queues@.len(),
        forall|i: int|
            0 <= i < r@.len() ==> is_file_queue(
                #[trigger] r@[i],
                queues@[i],
                text::views(paths@),
                text::views(patterns@),
            ),
{
    let ghost all = queues@;
    let mut queues = queues;
    let mut r: Vec<(String, RouteQueueConfig)> = Vec::new();
    let ghost mut i: int = 0;
    assert(all.subrange(0, all.len() as int) =~= all);
    while queues.len() > 0
        invariant
            0 <= i <= all.len(),
            queues@ == all.subrange(i, all.len() as int),
            r@.len() == i,
            forall|j: int|
                0 <= j < i ==> is_file_queue(
                    #[trigger] r@[j],
                    all[j],
                    text::views(paths@),
                    text::views(patterns@),
                ),
        decreases queues@.len(),
    {
        let (key, queue) = queues.remove(0);
        let mut queue = queue;
        assert((key, queue) == all[i]);
        let path = path_of_queue(&key, paths, patterns);
        queue.origin = ConfigOrigin::File(path);
        r.push((key, queue));
        proof {
            i = i + 1;
            assert(queues@ =~= all.subrange(i, all.len() as int));
        }
    }
    r
}

/// The file that a queue is taken to be from.
pub fn path_of_queue(key: &str, paths: &Vec<String>, patterns: &Vec<String>) -> (r: String)
    ensures
        r@ == queue_path(key@, text::views(paths@), text::views(patterns@)),
{
    let ghost all = text::views(paths@);
    let mut i: usize = 0;
    assert(all.subrange(0, all.len() as int) =~= all);
    while i < paths.len()
        invariant
            i <= paths@.len(),
            all == text::views(paths@),
            queue_path(key@, all.subrange(i as int, all.len() as int), text::views(patterns@))
                == queue_path(key@, all, text::views(patterns@)),
        decreases paths@.len() - i,
    {
        proof {
            let rest = all.subrange(i as int, all.len() as int);
            assert(rest[0] == paths@[i as int]@);
            assert(rest.drop_first() =~= all.subrange(i + 1, all.len() as int));
        }
        if text::has(&paths[i], key) {
            return paths[i].clone();
        }
        i += 1;
    }
    text::join(patterns, ", ")
}

/// Queues that were read from files, and the files.
pub struct QueueFiles {
    pub queues: Vec<(String, RouteQueueConfig)>,
    pub paths: Vec<String>,
}

/// Queues that were read from the file that is generated.
pub struct GeneratedQueues {
    pub path: String,
    pub queues: Vec<(String, RouteQueueConfig)>,
}

/// Why data cannot be loaded anew. What cannot be written or read is fatal; only a file
/// that was generated some time before, and not now, is left out where it cannot be read.
pub open spec fn reload_failure<T>(
    exported: Result<Option<GeneratedFileMetrics>, String>,
    files: Result<Vec<T>, String>,
    generated: Result<Vec<T>, String>,
) -> Option<String> {
    match (exported, files, generated) {
        (Err(e), _, _) => Some(e),
        (Ok(_), Err(e), _) => Some(e),
        (Ok(Some(_)), Ok(_), Err(e)) => Some(e),
        _ => None,
    }
}

/// The files that could be read.
pub open spec fn what_was_read<T>(files: Result<Vec<T>, String>) -> Seq<T> {
    match files {
        Ok(f) => f@,
        Err(_) => Seq::empty(),
    }
}

fn read_all<T>(
    exported: Result<Option<GeneratedFileMetrics>, String>,
    files: Result<Vec<T>, String>,
    generated: Result<Vec<T>, String>,
) -> (r: Result<(Option<GeneratedFileMetrics>, Vec<T>, Vec<T>), String>)
    ensures
        match reload_failure(exported, files, generated) {
            Some(e) => r matches Err(x) && x == e,
            None => r matches Ok(all) && all.0 == exported->Ok_0 && all.1@ == what_was_read(files)
                && all.2@ == what_was_read(generated),
        },
{
    let exported = exported?;
    let files = files?;
    let generated = match generated {
        Ok(g) => g,
        Err(e) => if exported.is_some() {
            return Err(e);
        } else {
            Vec::new()
        },
    };
    Ok((exported, files, generated))
}

/// How the data stand once the trunks were loaded anew, and what is told of it.
pub open spec fn trunks_reloaded(
    before: ProxyDataContext,
    after: ProxyDataContext,
    embedded: Seq<(String, TrunkConfig)>,
    files: Seq<TrunkFile>,
    generated: Seq<TrunkFile>,
    exported: Option<GeneratedFileMetrics>,
    metrics: ReloadMetrics,
) -> bool {
    let all = all_trunks(embedded, files, generated);
    &&& forall|k: Seq<char>| #[trigger] after.trunks.value(k) == last_value(all, k)
    &&& after == (ProxyDataContext { trunks: after.trunks, ..before })
    &&& metrics.total == key_set(all).len()
    &&& metrics.config_count == embedded.len()
    &&& metrics.file_count == key_set(file_trunks(files)).len()
    &&& metrics.generated == exported
    &&& text::views(metrics.files@) == distinct(trunk_paths(files))
    &&& metrics.patterns@ == before.config.trunks_files@
}

/// How the data stand once the routes were loaded anew, and what is told of it.
pub open spec fn routes_reloaded(
    before: ProxyDataContext,
    after: ProxyDataContext,
    embedded: Option<Vec<RouteRule>>,
    files: Seq<RouteFile>,
    generated: Seq<RouteFile>,
    exported: Option<GeneratedFileMetrics>,
    metrics: ReloadMetrics,
) -> bool {
    &&& is_stable_order(after.routes@, all_routes(embedded, files, generated))
    &&& after == (ProxyDataContext { routes: after.routes, ..before })
    &&& metrics.total == after.routes@.len()
    &&& metrics.config_count == (match embedded {
        Some(routes) => routes@.len(),
        None => 0,
    })
    &&& metrics.file_count == file_routes(files).len()
    &&& metrics.generated == exported
    &&& text::views(metrics.files@) == distinct(route_paths(files))
    &&& metrics.patterns@ == before.config.routes_files@
}

/// How the data stand once the access rules were loaded anew, and what is told of it.
pub open spec fn rules_reloaded(
    before: ProxyDataContext,
    after: ProxyDataContext,
    embedded: Option<Vec<String>>,
    files: Seq<AclFile>,
    generated: Seq<AclFile>,
    metrics: ReloadMetrics,
) -> bool {
    &&& text::views(after.acl_rules@) == acl_or_open(
        text::views(all_rules(embedded, files, generated)),
    )
    &&& after == (ProxyDataContext { acl_rules: after.acl_rules, ..before })
    &&& metrics.total == after.acl_rules@.len()
    &&& metrics.config_count == (match embedded {
        Some(rules) => rules@.len(),
        None => 0,
    })
    &&& metrics.file_count == file_rules(files).len() + file_rules(generated).len()
    &&& metrics.generated is None
    &&& text::views(metrics.files@) == distinct(acl_paths(files)) + distinct(acl_paths(generated))
    &&& metrics.patterns@ == before.config.acl_files@
}

impl ProxyDataContext {
    pub open spec fn wf(self) -> bool {
        self.trunks.wf() && self.queues.wf()
    }

    /// A context without any data.
    pub fn new(config: ProxyConfig) -> (r: ProxyDataContext)
        ensures
            r.wf(),
            r.config == config,
            forall|k: Seq<char>| #[trigger] r.trunks.value(k) is None,
            forall|k: Seq<char>| #[trigger] r.queues.value(k) is None,
            r.routes@.len() == 0,
            r.acl_rules@.len() == 0,
    {
        ProxyDataContext {
            config,
            trunks: Table::new(),
            queues: Table::new(),
            routes: Vec::new(),
            acl_rules: Vec::new(),
        }
    }

    pub fn config(&self) -> (r: &ProxyConfig)
        ensures
            *r == self.config,
    {
        &self.config
    }

    pub fn update_config(&mut self, config: ProxyConfig)
        ensures
            *final(self) == (ProxyDataContext { config, ..*old(self) }),
    {
        self.config = config;
    }

    pub fn trunks_snapshot(&self) -> (r: &Table<TrunkConfig>)
        ensures
            *r == self.trunks,
    {
        &self.trunks
    }

    pub fn get_trunk(&self, name: &str) -> (r: Option<&TrunkConfig>)
        ensures
            r is Some <==> self.trunks.value(name@) is Some,
            r matches Some(t) ==> self.trunks.value(name@) == Some(*t),
    {
        self.trunks.get(name)
    }

    pub fn routes_snapshot(&self) -> (r: &Vec<RouteRule>)
        ensures
            *r == self.routes,
    {
        &self.routes
    }

    pub fn queues_snapshot(&self) -> (r: &Table<RouteQueueConfig>)
        ensures
            *r == self.queues,
    {
        &self.queues
    }

    pub fn acl_rules_snapshot(&self) -> (r: &Vec<String>)
        ensures
            *r == self.acl_rules,
    {
        &self.acl_rules
    }

    /// Where the file of a queue is, by a reference that is not blank.
    pub fn queue_file_path(&self, reference: &str) -> (r: Option<String>)
        ensures
            r is Some <==> text::trimmed(reference@).len() > 0,
            r matches Some(path) ==> path@ == paths::joined_path(
                self.config.queue_dir@,
                text::trimmed(reference@),
            ),
    {
        let trimmed = text::trim(reference);
        if trimmed.as_str().is_empty() {
            return None;
        }
        Some(paths::join(&self.config.queue_dir, &trimmed))
    }

    /// Looks a queue up: by its number where the reference has one, else its file is to
    /// be read.
    pub fn resolve_queue_config<'a>(&'a self, reference: &str) -> (r: QueueLookup<'a>)
        ensures
            if text::trimmed(reference@).len() == 0 {
                r is Missing
            } else if is_numbered(reference@) && self.queues.value(reference@) is Some {
                r matches QueueLookup::Found(q) && self.queues.value(reference@) == Some(*q)
            } else {
                r matches QueueLookup::ReadFile { path } && path@ == paths::joined_path(
                    self.config.queue_dir@,
                    text::trimmed(reference@),
                )
            },
    {
        let trimmed = text::trim(reference);
        if trimmed.as_str().is_empty() {
            return QueueLookup::Missing;
        }
        if let Some(id) = text::strip_prefix(reference, "db-") {
            if text::is_i64(&id) {
                if let Some(queue) = self.queues.get(reference) {
                    return QueueLookup::Found(queue);
                }
            }
        }
        QueueLookup::ReadFile { path: paths::join(&self.config.queue_dir, &trimmed) }
    }

    /// Goes on with a queue whose file is not there: a plain number is tried as the
    /// number of a queue, anything else as the name of one.
    pub fn after_missing_queue_file<'a>(&'a self, reference: &str) -> (r: QueueLookup<'a>)
        requires
            text::trimmed(reference@).len() > 0,
        ensures
            if text::all_digits(reference@) {
                r matches QueueLookup::Retry { reference: again } && again@ == "db-"@ + reference@
            } else if slug(reference@).len() == 0 {
                r is Missing
            } else {
                match queue_by_key(self.queues.entries@, slug(reference@)) {
                    Some(queue) => r matches QueueLookup::Found(q) && *q == queue,
                    None => r is Missing,
                }
            },
    {
        if text::only_digits(reference) {
            return QueueLookup::Retry { reference: text::concat("db-", reference) };
        }
        let key = match canonical_queue_key(reference) {
            Some(key) => key,
            None => {
                return QueueLookup::Missing;
            },
        };
        let ghost all = self.queues.entries@;
        let mut i: usize = 0;
        assert(all.subrange(0, all.len() as int) =~= all);
        while i < self.queues.entries.len()
            invariant
                i <= self.queues.entries@.len(),
                all == self.queues.entries@,
                !text::all_digits(reference@),
                key@ == slug(reference@),
                key@.len() > 0,
                queue_by_key(all.subrange(i as int, all.len() as int), key@) == queue_by_key(
                    all,
                    key@,
                ),
            decreases self.queues.entries@.len() - i,
        {
            proof {
                let rest = all.subrange(i as int, all.len() as int);
                assert(rest[0] == all[i as int]);
                assert(rest.drop_first() =~= all.subrange(i + 1, all.len() as int));
            }
            let by_key = match canonical_queue_key(&self.queues.entries[i].0) {
                Some(existing) => text::same(&existing, &key),
                None => false,
            };
            let by_name = match &self.queues.entries[i].1.name {
                Some(name) => match canonical_queue_key(name) {
                    Some(existing) => text::same(&existing, &key),
                    None => false,
                },
                None => false,
            };
            assert((by_key || by_name) == goes_by(all[i as int], key@));
            if by_key || by_name {
                return QueueLookup::Found(&self.queues.entries[i].1);
            }
            i += 1;
        }
        QueueLookup::Missing
    }

    /// The file of an IVR.
    pub fn resolve_ivr_file(
        &self,
        ivr_name: &str,
        hand_written_exists: bool,
        generated_exists: bool,
    ) -> (r: String)
        ensures
            r@ == (if !hand_written_exists && generated_exists {
                crate::route::generated_file(
                    self.config.ivr_dir@,
                    crate::route::ivr_filename(ivr_name@),
                )
            } else {
                crate::route::hand_written_file(
                    self.config.ivr_dir@,
                    crate::route::ivr_filename(ivr_name@),
                )
            }),
    {
        resolve_ivr_name_to_path(
            ivr_name,
            &self.config.ivr_dir,
            hand_written_exists,
            generated_exists,
        )
    }

    fn put_trunks_together(
        &mut self,
        embedded: Vec<(String, TrunkConfig)>,
        files: Vec<TrunkFile>,
        generated: Vec<TrunkFile>,
        exported: Option<GeneratedFileMetrics>,
    ) -> (r: ReloadMetrics)
        requires
            old(self).wf(),
        ensures
            final(self).wf(),
            trunks_reloaded(*old(self), *final(self), embedded@, files@, generated@, exported, r),
    {
        let ghost all = all_trunks(embedded@, files@, generated@);
        let ghost first = trunks_with_origin(embedded@, ConfigOrigin::Embedded);
        let ghost second = file_trunks(files@);
        let ghost third = file_trunks(generated@);
        let config_count: usize = embedded.len();
        let mut trunks: Table<TrunkConfig> = Table::new();
        trunks.insert_all(mark_trunks(embedded, None));
        let (from_files, paths) = load_trunks_from_files(files);
        let file_count: usize = from_files.entries.len();
        let ghost file_table = from_files.entries@;
        trunks.insert_all(from_files.entries);
        let (from_generated, _) = load_trunks_from_files(generated);
        let ghost generated_table = from_generated.entries@;
        trunks.insert_all(from_generated.entries);
        proof {
            assert forall|k: Seq<char>| #[trigger] trunks.value(k) == last_value(all, k) by {
                last_value_of_two(first + second, third, k);
                last_value_of_two(first, second, k);
                last_is_only(file_table, k);
                last_is_only(generated_table, k);
                assert(from_files.value(k) == last_value(second, k));
                assert(from_generated.value(k) == last_value(third, k));
            }
            size_is_key_count(trunks, all);
        }
        let total: usize = trunks.entries.len();
        self.trunks = trunks;
        ReloadMetrics {
            total,
            config_count,
            file_count,
            generated: exported,
            files: paths,
            patterns: clone_texts(&self.config.trunks_files),
        }
    }

    /// Puts the trunks together anew: a trunk of a file takes the place of one of the
    /// configuration of its name, and one that was generated that of both. Where that
    /// fails, the trunks stay as they were.
    pub fn reload_trunks(
        &mut self,
        embedded: Vec<(String, TrunkConfig)>,
        exported: Result<Option<GeneratedFileMetrics>, String>,
        files: Result<Vec<TrunkFile>, String>,
        generated: Result<Vec<TrunkFile>, String>,
    ) -> (r: Result<ReloadMetrics, String>)
        requires
            old(self).wf(),
        ensures
            final(self).wf(),
            match reload_failure(exported, files, generated) {
                Some(e) => r == Err::<ReloadMetrics, String>(e) && *final(self) == *old(self),
                None => r matches Ok(metrics) && trunks_reloaded(
                    *old(self),
                    *final(self),
                    embedded@,
                    what_was_read(files),
                    what_was_read(generated),
                    exported->Ok_0,
                    metrics,
                ),
            },
    {
        let (exported, files, generated) = read_all(exported, files, generated)?;
        Ok(self.put_trunks_together(embedded, files, generated, exported))
    }

    /// Puts the queues together anew. Files that could not be read give none.
    pub fn reload_queues(
        &mut self,
        embedded: Vec<(String, RouteQueueConfig)>,
        files: Option<QueueFiles>,
        generated: Option<GeneratedQueues>,
    ) -> (r: ReloadMetrics)
        requires
            old(self).wf(),
        ensures
            final(self).wf(),
            exists|marked: Seq<(String, RouteQueueConfig)>|
                {
                    &&& #[trigger] are_file_queues(
                        marked,
                        files,
                        text::views(old(self).config.queues_files@),
                    )
                    &&& forall|k: Seq<char>| #[trigger]
                        final(self).queues.value(k) == last_value(
                            queues_with_origin(embedded@, ConfigOrigin::Embedded) + marked
                                + generated_queues(generated),
                            k,
                        )
                    &&& r.total == key_set(
                        queues_with_origin(embedded@, ConfigOrigin::Embedded) + marked
                            + generated_queues(generated),
                    ).len()
                },
            final(self).config == old(self).config,
            final(self).trunks == old(self).trunks,
            final(self).routes == old(self).routes,
            final(self).acl_rules == old(self).acl_rules,
            r.config_count == embedded@.len(),
            r.file_count == (match files {
                Some(f) => f.queues@.len(),
                None => 0,
            }) + generated_queues(generated).len(),
            r.generated is None,
            text::views(r.files@) == (match files {
                Some(f) => text::views(f.paths@),
                None => Seq::empty(),
            }) + (match generated {
                Some(g) => seq![g.path@],
                None => Seq::empty(),
            }),
            r.patterns@ == old(self).config.queues_files@,
    {
        let ghost first = queues_with_origin(embedded@, ConfigOrigin::Embedded);
        let ghost third = generated_queues(generated);
        let ghost asked = files;
        let ghost patterns = text::views(self.config.queues_files@);
        let config_count: usize = embedded.len();
        let mut queues: Table<RouteQueueConfig> = Table::new();
        queues.insert_all(mark_embedded_queues(embedded));
        let mut paths: Vec<String> = Vec::new();
        let mut loaded: Vec<(String, RouteQueueConfig)> = Vec::new();
        assert(text::views(paths@) =~= Seq::empty());
        if let Some(f) = files {
            loaded = mark_queues(f.queues, &f.paths, &self.config.queues_files);
            paths = f.paths;
        }
        let ghost second = loaded@;
        assert(are_file_queues(second, asked, patterns));
        let ghost before = text::views(paths@);
        if let Some(g) = generated {
            let mut more = g.queues;
            loaded.append(&mut more);
            paths.push(g.path);
            assert(text::views(paths@) =~= before + seq![g.path@]);
        } else {
            assert(text::views(paths@) =~= before + Seq::<Seq<char>>::empty());
        }
        assert(loaded@ =~= second + third);
        let file_count: usize = loaded.len();
        queues.insert_all(loaded);
        proof {
            assert forall|k: Seq<char>| #[trigger]
                queues.value(k) == last_value(first + second + third, k) by {
                last_value_of_two(first, second + third, k);
                assert(first + (second + third) =~= first + second + third);
            }
            size_is_key_count(queues, first + second + third);
        }
        let total: usize = queues.entries.len();
        self.queues = queues;
        ReloadMetrics {
            total,
            config_count,
            file_count,
            generated: None,
            files: paths,
            patterns: clone_texts(&self.config.queues_files),
        }
    }

    fn put_routes_together(
        &mut self,
        embedded: Option<Vec<RouteRule>>,
        files: Vec<RouteFile>,
        generated: Vec<RouteFile>,
        exported: Option<GeneratedFileMetrics>,
    ) -> (r: ReloadMetrics)
        requires
            old(self).wf(),
        ensures
            final(self).wf(),
            routes_reloaded(*old(self), *final(self), embedded, files@, generated@, exported, r),
    {
        let mut routes: Vec<RouteRule> = Vec::new();
        let mut config_count: usize = 0;
        if let Some(more) = embedded {
            config_count = more.len();
            upsert_routes(&mut routes, mark_routes(more, None));
        }
        let (from_files, paths) = load_routes_from_files(files);
        let file_count: usize = from_files.len();
        upsert_routes(&mut routes, from_files);
        let (from_generated, _) = load_routes_from_files(generated);
        upsert_routes(&mut routes, from_generated);
        let sorted = sort_by_priority(routes);
        let total: usize = sorted.len();
        self.routes = sorted;
        ReloadMetrics {
            total,
            config_count,
            file_count,
            generated: exported,
            files: paths,
            patterns: clone_texts(&self.config.routes_files),
        }
    }

    /// Puts the routes together anew, in the order of their priorities. Where that fails,
    /// the routes stay as they were.
    pub fn reload_routes(
        &mut self,
        embedded: Option<Vec<RouteRule>>,
        exported: Result<Option<GeneratedFileMetrics>, String>,
        files: Result<Vec<RouteFile>, String>,
        generated: Result<Vec<RouteFile>, String>,
    ) -> (r: Result<ReloadMetrics, String>)
        requires
            old(self).wf(),
        ensures
            final(self).wf(),
            match reload_failure(exported, files, generated) {
                Some(e) => r == Err::<ReloadMetrics, String>(e) && *final(self) == *old(self),
                None => r matches Ok(metrics) && routes_reloaded(
                    *old(self),
                    *final(self),
                    embedded,
                    what_was_read(files),
                    what_was_read(generated),
                    exported->Ok_0,
                    metrics,
                ),
            },
    {
        let (exported, files, generated) = read_all(exported, files, generated)?;
        Ok(self.put_routes_together(embedded, files, generated, exported))
    }

    fn put_rules_together(
        &mut self,
        embedded: Option<Vec<String>>,
        files: Vec<AclFile>,
        generated: Vec<AclFile>,
    ) -> (r: ReloadMetrics)
        requires
            old(self).wf(),
        ensures
            final(self).wf(),
            rules_reloaded(*old(self), *final(self), embedded, files@, generated@, r),
    {
        let ghost whole = all_rules(embedded, files@, generated@);
        let mut rules: Vec<String> = Vec::new();
        let mut config_count: usize = 0;
        if let Some(more) = embedded {
            config_count = more.len();
            rules = more;
        }
        let ghost first = rules@;
        let (from_files, paths) = load_acl_rules_from_files(files);
        let mut from_files = from_files;
        let mut paths = paths;
        let (from_generated, generated_paths) = load_acl_rules_from_files(generated);
        let mut from_generated = from_generated;
        let mut generated_paths = generated_paths;
        let ghost second = from_files@;
        let ghost third = from_generated@;
        rules.append(&mut from_files);
        rules.append(&mut from_generated);
        assert(rules@ =~= first + second + third);
        assert(rules@ =~= whole);
        let file_count: usize = rules.len() - config_count;
        let ghost p = paths@;
        let ghost q = generated_paths@;
        paths.append(&mut generated_paths);
        assert(text::views(paths@) =~= text::views(p) + text::views(q));
        if rules.len() == 0 {
            rules = open_acl();
        }
        let total: usize = rules.len();
        self.acl_rules = rules;
        ReloadMetrics {
            total,
            config_count,
            file_count,
            generated: None,
            files: paths,
            patterns: clone_texts(&self.config.acl_files),
        }
    }

    /// Puts the access rules together anew: those of the configuration, those of files,
    /// those that were generated; where there are none, everybody is let in. Where a file
    /// cannot be read, the rules stay as they were.
    pub fn reload_acl_rules(
        &mut self,
        embedded: Option<Vec<String>>,
        files: Result<Vec<AclFile>, String>,
        generated: Result<Vec<AclFile>, String>,
    ) -> (r: Result<ReloadMetrics, String>)
        requires
            old(self).wf(),
        ensures
            final(self).wf(),
            match (files, generated) {
                (Err(e), _) => r == Err::<ReloadMetrics, String>(e) && *final(self) == *old(self),
                (Ok(_), Err(e)) => r == Err::<ReloadMetrics, String>(e) && *final(self) == *old(self),
                (Ok(from_files), Ok(from_generated)) => r matches Ok(metrics) && rules_reloaded(
                    *old(self),
                    *final(self),
                    embedded,
                    from_files@,
                    from_generated@,
                    metrics,
                ),
            },
    {
        let files = files?;
        let generated = generated?;
        Ok(self.put_rules_together(embedded, files, generated))
    }

    /// Sets the access rules; where there are none, everybody is let in.
    pub fn set_acl_rules(&mut self, rules: Vec<String>)
        ensures
            text::views(final(self).acl_rules@) == acl_or_open(text::views(rules@)),
            final(self).config == old(self).config,
            final(self).trunks == old(self).trunks,
            final(self).queues == old(self).queues,
            final(self).routes == old(self).routes,
    {
        if rules.len() == 0 {
            self.acl_rules = open_acl();
        } else {
            self.acl_rules = rules;
        }
    }

    /// The names of the trunks by their numbers, for those that have one.
    pub fn trunk_lookup(&self) -> (r: Vec<(i64, String)>)
        ensures
            r@ == numbered_trunks(self.trunks.entries@),
    {
        let ghost all = self.trunks.entries@;
        let mut r: Vec<(i64, String)> = Vec::new();
        let mut i: usize = 0;
        assert(all.subrange(0, 0) =~= Seq::empty());
        while i < self.trunks.entries.len()
            invariant
                i <= self.trunks.entries@.len(),
                all == self.trunks.entries@,
                r@ == numbered_trunks(all.subrange(0, i as int)),
            decreases self.trunks.entries@.len() - i,
        {
            proof {
                assert(all.subrange(0, i + 1).drop_last() =~= all.subrange(0, i as int));
                assert(all.subrange(0, i + 1).last() == all[i as int]);
            }
            if let Some(id) = self.trunks.entries[i].1.id {
                r.push((id, self.trunks.entries[i].0.clone()));
            }
            i += 1;
        }
        assert(all.subrange(0, all.len() as int) =~= all);
        r
    }
}

/// The numbers and names of the trunks that have a number.
pub open spec fn numbered_trunks(entries: Seq<(String, TrunkConfig)>) -> Seq<(i64, String)>
    decreases entries.len(),
{
    if entries.len() == 0 {
        Seq::empty()
    } else {
        let before = numbered_trunks(entries.drop_last());
        match entries.last().1.id {
            Some(id) => before.push((id, entries.last().0)),
            None => before,
        }
    }
}

/// The queues that were generated.
pub open spec fn generated_queues(generated: Option<GeneratedQueues>) -> Seq<
    (String, RouteQueueConfig),
> {
    match generated {
        Some(g) => g.queues@,
        None => Seq::empty(),
    }
}

/// The queues are those that were read from files, with the files that they are taken to
/// be from.
pub open spec fn are_file_queues(
    marked: Seq<(String, RouteQueueConfig)>,
    files: Option<QueueFiles>,
    patterns: Seq<Seq<char>>,
) -> bool {
    match files {
        None => marked.len() == 0,
        Some(f) => marked.len() == f.queues@.len() && forall|i: int|
            0 <= i < marked.len() ==> is_file_queue(
                #[trigger] marked[i],
                f.queues@[i],
                text::views(f.paths@),
                patterns,
            ),
    }
}

/// All access rules: those of the configuration, those of files, those that were
/// generated.
pub open spec fn all_rules(
    embedded: Option<Vec<String>>,
    files: Seq<AclFile>,
    generated: Seq<AclFile>,
) -> Seq<String> {
    (match embedded {
        Some(rules) => rules@,
        None => Seq::empty(),
    }) + file_rules(files) + file_rules(generated)
}

fn mark_embedded_queues(queues: Vec<(String, RouteQueueConfig)>) -> (r: Vec<
    (String, RouteQueueConfig),
>)
    ensures
        r@ == queues_with_origin(queues@, ConfigOrigin::Embedded),
{
    let ghost all = queues@;
    let mut queues = queues;
    let mut r: Vec<(String, RouteQueueConfig)> = Vec::new();
    let ghost mut i: int = 0;
    assert(all.subrange(0, all.len() as int) =~= all);
    while queues.len() > 0
        invariant
            0 <= i <= all.len(),
            queues@ == all.subrange(i, all.len() as int),
            r@ == queues_with_origin(all, ConfigOrigin::Embedded).subrange(0, i),
        decreases queues@.len(),
    {
        let (key, queue) = queues.remove(0);
        let mut queue = queue;
        assert((key, queue) == all[i]);
        queue.origin = ConfigOrigin::Embedded;
        r.push((key, queue));
        proof {
            assert(queues_with_origin(all, ConfigOrigin::Embedded)[i] == (key, queue));
            i = i + 1;
            assert(queues@ =~= all.subrange(i, all.len() as int));
        }
    }
    assert(r@ =~= queues_with_origin(all, ConfigOrigin::Embedded));
    r
}

proof fn last_is_only<V>(entries: Seq<(String, V)>, key: Seq<char>)
    requires
        distinct_keys(entries),
    ensures
        last_value(entries, key) == crate::table::lookup(entries, key),
    decreases entries.len(),
{
    crate::table::lookup_finds(entries, key);
    if entries.len() > 0 {
        let rest = entries.drop_last();
        assert(forall|j: int| 0 <= j < rest.len() ==> (#[trigger] rest[j]) == entries[j]);
        last_is_only(rest, key);
        crate::table::lookup_finds(rest, key);
        let last = entries.len() - 1;
        if crate::table::lookup(entries, key) is Some {
            let i = choose|i: int|
                0 <= i < entries.len() && (#[trigger] entries[i]).0@ == key && entries[i].1
                    == crate::table::lookup(entries, key)->0;
            if entries[last].0@ == key {
                assert(i == last);
            } else {
                assert(rest[i].0@ == key);
                let j = choose|j: int|
                    0 <= j < rest.len() && (#[trigger] rest[j]).0@ == key && rest[j].1
                        == crate::table::lookup(rest, key)->0;
                assert(entries[j].0@ == key);
                assert(i == j);
            }
        } else {
            assert(entries[last].0@ != key);
            if crate::table::lookup(rest, key) is Some {
                let j = choose|j: int|
                    0 <= j < rest.len() && (#[trigger] rest[j]).0@ == key && rest[j].1
                        == crate::table::lookup(rest, key)->0;
                assert(entries[j].0@ == key);
            }
        }
    }
}

/// Where a trunk was generated, the generated one counts; else the one of the last file
/// that has it; else that of the configuration.
pub proof fn later_sources_win(
    embedded: Seq<(String, TrunkConfig)>,
    files: Seq<TrunkFile>,
    generated: Seq<TrunkFile>,
    name: Seq<char>,
)
    ensures
        last_value(all_trunks(embedded, files, generated), name) == (match last_value(
            file_trunks(generated),
            name,
        ) {
            Some(t) => Some(t),
            None => match last_value(file_trunks(files), name) {
                Some(t) => Some(t),
                None => last_value(trunks_with_origin(embedded, ConfigOrigin::Embedded), name),
            },
        }),
{
    let first = trunks_with_origin(embedded, ConfigOrigin::Embedded);
    last_value_of_two(first + file_trunks(files), file_trunks(generated), name);
    last_value_of_two(first, file_trunks(files), name);
}

/// Where a queue was generated, the generated one counts; else the one of the files; else
/// that of the configuration.
pub proof fn later_sources_of_queues_win(
    embedded: Seq<(String, RouteQueueConfig)>,
    marked: Seq<(String, RouteQueueConfig)>,
    generated: Option<GeneratedQueues>,
    name: Seq<char>,
)
    ensures
        last_value(
            queues_with_origin(embedded, ConfigOrigin::Embedded) + marked + generated_queues(generated),
            name,
        ) == (match last_value(generated_queues(generated), name) {
            Some(q) => Some(q),
            None => match last_value(marked, name) {
                Some(q) => Some(q),
                None => last_value(queues_with_origin(embedded, ConfigOrigin::Embedded), name),
            },
        }),
{
    let first = queues_with_origin(embedded, ConfigOrigin::Embedded);
    last_value_of_two(first + marked, generated_queues(generated), name);
    last_value_of_two(first, marked, name);
}

/// A queue is looked up under another name once at most: the name that a plain number is
/// tried as is no plain number.
pub proof fn number_is_tried_once(reference: Seq<char>)
    ensures
        !text::all_digits("db-"@ + reference),
{
    reveal_strlit("db-");
    assert(("db-"@ + reference)[0] == 'd');
}

/// There are always access rules.
pub proof fn acl_is_never_empty(rules: Seq<Seq<char>>)
    ensures
        acl_or_open(rules).len() > 0,
{
}

/// The routes of files as they stand there, one file after another.
pub open spec fn routes_of_files(files: Seq<RouteFile>) -> Seq<RouteRule>
    decreases files.len(),
{
    if files.len() == 0 {
        Seq::empty()
    } else {
        routes_of_files(files.drop_last()) + routes_with_origin(
            files.last().routes@,
            ConfigOrigin::File(files.last().path),
        )
    }
}

/// Every route that is loaded, one after another: those of the configuration, those of
/// files, those that were generated.
pub open spec fn loaded_routes(
    embedded: Option<Vec<RouteRule>>,
    files: Seq<RouteFile>,
    generated: Seq<RouteFile>,
) -> Seq<RouteRule> {
    (match embedded {
        Some(routes) => routes_with_origin(routes@, ConfigOrigin::Embedded),
        None => Seq::empty(),
    }) + routes_of_files(files) + routes_of_files(generated)
}

proof fn files_give_the_last_of_each(files: Seq<RouteFile>)
    ensures
        is_last_of_each(file_routes(files), routes_of_files(files)),
    decreases files.len(),
{
    if files.len() > 0 {
        files_give_the_last_of_each(files.drop_last());
        upserting_keeps_the_last(
            file_routes(files.drop_last()),
            routes_of_files(files.drop_last()),
            routes_with_origin(files.last().routes@, ConfigOrigin::File(files.last().path)),
        );
    }
}

/// Routes that were loaded anew are the last of each name that was loaded: no name occurs
/// twice, every name that was loaded occurs, with what its last source says of it. Lower
/// priorities come first, and of two routes of one priority the one whose name was loaded
/// first.
pub proof fn reloaded_routes_are_the_last_of_each_name(
    before: ProxyDataContext,
    after: ProxyDataContext,
    embedded: Option<Vec<RouteRule>>,
    files: Seq<RouteFile>,
    generated: Seq<RouteFile>,
    exported: Option<GeneratedFileMetrics>,
    metrics: ReloadMetrics,
)
    requires
        routes_reloaded(before, after, embedded, files, generated, exported, metrics),
    ensures
        distinct_names(after.routes@),
        by_priority(after.routes@),
        forall|i: int|
            0 <= i < after.routes@.len() ==> last_named(
                loaded_routes(embedded, files, generated),
                (#[trigger] after.routes@[i]).name@,
            ) == Some(after.routes@[i]),
        forall|k: int|
            0 <= k < loaded_routes(embedded, files, generated).len() ==> route_place(
                after.routes@,
                (#[trigger] loaded_routes(embedded, files, generated)[k]).name@,
            ) is Some,
        forall|i: int, j: int|
            0 <= i < j < after.routes@.len() && (#[trigger] after.routes@[i]).priority == (
            #[trigger] after.routes@[j]).priority ==> route_place(
                loaded_routes(embedded, files, generated),
                after.routes@[i].name@,
            )->0 < route_place(
                loaded_routes(embedded, files, generated),
                after.routes@[j].name@,
            )->0,
        metrics.total == after.routes@.len(),
{
    let marked = match embedded {
        Some(routes) => routes_with_origin(routes@, ConfigOrigin::Embedded),
        None => Seq::empty(),
    };
    let none = Seq::<RouteRule>::empty();
    assert(is_last_of_each(none, none));
    upserting_keeps_the_last(none, none, marked);
    assert(none + marked =~= marked);
    let first = all_upserted(none, marked);
    files_give_the_last_of_each(files);
    files_give_the_last_of_each(generated);
    adding_the_last_of_each(first, marked, file_routes(files), routes_of_files(files));
    let second = all_upserted(first, file_routes(files));
    adding_the_last_of_each(
        second,
        marked + routes_of_files(files),
        file_routes(generated),
        routes_of_files(generated),
    );
    ordered_routes_are_the_last_of_each_name(
        after.routes@,
        all_routes(embedded, files, generated),
        loaded_routes(embedded, files, generated),
    );
}

/// Access rules that were loaded anew are all that were loaded, in that order; where there
/// are none, everybody is let in. Every rule that was loaded is counted once.
pub proof fn reloaded_rules_are_all_that_were_loaded(
    before: ProxyDataContext,
    after: ProxyDataContext,
    embedded: Option<Vec<String>>,
    files: Seq<AclFile>,
    generated: Seq<AclFile>,
    metrics: ReloadMetrics,
)
    requires
        rules_reloaded(before, after, embedded, files, generated, metrics),
    ensures
        all_rules(embedded, files, generated).len() > 0 ==> text::views(after.acl_rules@)
            == text::views(all_rules(embedded, files, generated)),
        all_rules(embedded, files, generated).len() == 0 ==> text::views(after.acl_rules@) == seq![
            "allow all"@,
            "deny all"@,
        ],
        metrics.config_count + metrics.file_count == all_rules(embedded, files, generated).len(),
        metrics.total == text::views(after.acl_rules@).len(),
        metrics.total > 0,
{
    acl_is_never_empty(text::views(all_rules(embedded, files, generated)));
}

/// A path that names one file is that file; one with characters that stand for others is
/// replaced by a file of the default name in the same directory, or in the default one.
pub proof fn generated_file_goes_beside_the_pattern(
    pattern: Seq<char>,
    dir: Seq<char>,
    name: Seq<char>,
    rest: Seq<Seq<char>>,
)
    ensures
        !has_glob(pattern) ==> generated_beside(pattern, dir, name) == pattern,
        has_glob(pattern) ==> (paths::parent_path(pattern) matches Some(parent) && parent.len() > 0
            ==> generated_beside(pattern, dir, name) == paths::joined_path(
            paths::parent_path(pattern)->0,
            name,
        )),
        has_glob(pattern) && (paths::parent_path(pattern) is None || paths::parent_path(
            pattern,
        )->0.len() == 0) ==> generated_beside(pattern, dir, name) == paths::joined_path(dir, name),
        text::trimmed(pattern).len() > 0 ==> generated_path(seq![pattern] + rest, dir, name)
            == generated_beside(pattern, dir, name),
        text::trimmed(pattern).len() == 0 ==> generated_path(seq![pattern] + rest, dir, name)
            == generated_path(rest, dir, name),
        generated_path(Seq::empty(), dir, name) == paths::joined_path(dir, name),
{
    assert((seq![pattern] + rest).drop_first() =~= rest);
}

/// A star, a question mark, or a bracket or brace of either side anywhere in a value makes
/// it a pattern, and nothing else does.
pub proof fn pattern_holds_a_wildcard(value: Seq<char>, i: int)
    requires
        0 <= i < value.len(),
    ensures
        value[i] == '*' || value[i] == '?' || value[i] == '[' || value[i] == ']' || value[i] == '{'
            || value[i] == '}' ==> has_glob(value),
        !value.contains('*') && !value.contains('?') && !value.contains('[') && !value.contains(']')
            && !value.contains('{') && !value.contains('}') ==> !has_glob(value),
{
    if has_glob(value) {
        let k = choose|k: int| 0 <= k < value.len() && is_glob_char(#[trigger] value[k]);
        assert(value.contains(value[k]));
    } else {
        assert(!is_glob_char(value[i]));
    }
}

/// The access rules are on exactly where their module is listed.
pub proof fn rules_are_on_where_listed(list: Vec<String>, i: int)
    requires
        0 <= i < list@.len(),
    ensures
        list@[i]@ == "acl"@ ==> has_acl(Some(list)),
        !has_acl(None),
        (forall|k: int| 0 <= k < list@.len() ==> (#[trigger] list@[k])@ != "acl"@) ==> !has_acl(
            Some(list),
        ),
{
    assert(text::views(list@)[i] == list@[i]@);
    if has_acl(Some(list)) {
        let k = choose|k: int|
            0 <= k < text::views(list@).len() && text::views(list@)[k] == "acl"@;
        assert(list@[k]@ == "acl"@);
    }
}

/// A trunk that is loaded keeps everything but where it is from: the file that it stood
/// in, or the configuration.
pub proof fn loaded_trunk_tells_its_file(
    files: Seq<TrunkFile>,
    file: TrunkFile,
    i: int,
    embedded: Seq<(String, TrunkConfig)>,
    k: int,
)
    requires
        0 <= i < file.trunks@.len(),
        0 <= k < embedded.len(),
    ensures
        ({
            let all = file_trunks(files.push(file));
            let at = file_trunks(files).len() + i;
            &&& all.len() == file_trunks(files).len() + file.trunks@.len()
            &&& all[at].0 == file.trunks@[i].0
            &&& all[at].1.origin == ConfigOrigin::File(file.path)
            &&& all[at].1 == (TrunkConfig { origin: all[at].1.origin, ..file.trunks@[i].1 })
            &&& forall|j: int|
                0 <= j < file_trunks(files).len() ==> #[trigger] all[j] == file_trunks(files)[j]
        }),
        trunks_with_origin(embedded, ConfigOrigin::Embedded)[k].1.origin is Embedded,
        trunks_with_origin(embedded, ConfigOrigin::Embedded)[k].0 == embedded[k].0,
        trunks_with_origin(embedded, ConfigOrigin::Embedded)[k].1.dest == embedded[k].1.dest,
        file_trunks(Seq::empty()).len() == 0,
{
    assert(files.push(file).drop_last() =~= files);
}

/// A route that is loaded keeps everything but where it is from.
pub proof fn loaded_route_tells_its_file(
    files: Seq<RouteFile>,
    file: RouteFile,
    i: int,
)
    requires
        0 <= i < file.routes@.len(),
    ensures
        ({
            let all = routes_of_files(files.push(file));
            let at = routes_of_files(files).len() + i;
            &&& all.len() == routes_of_files(files).len() + file.routes@.len()
            &&& all[at].origin == ConfigOrigin::File(file.path)
            &&& all[at] == (RouteRule { origin: all[at].origin, ..file.routes@[i] })
        }),
        routes_with_origin(file.routes@, ConfigOrigin::Embedded)[i].origin is Embedded,
        routes_with_origin(file.routes@, ConfigOrigin::Embedded)[i].name == file.routes@[i].name,
{
    assert(files.push(file).drop_last() =~= files);
}

/// Names that are told are told once each, all of them, in the order in which they first
/// came.
pub proof fn names_are_told_once(names: Seq<Seq<char>>)
    ensures
        forall|i: int, j: int|
            0 <= i < j < distinct(names).len() ==> #[trigger] distinct(names)[i]
                != #[trigger] distinct(names)[j],
        forall|k: int| 0 <= k < names.len() ==> distinct(names).contains(#[trigger] names[k]),
        forall|i: int|
            0 <= i < distinct(names).len() ==> names.contains(#[trigger] distinct(names)[i]),
        distinct(names).len() <= names.len(),
        names.len() > 0 ==> distinct(names).len() > 0 && distinct(names)[0] == names[0],
    decreases names.len(),
{
    if names.len() > 0 {
        let rest = names.drop_last();
        let before = distinct(rest);
        names_are_told_once(rest);
        let all = distinct(names);
        assert forall|i: int, j: int| 0 <= i < j < all.len() implies #[trigger] all[i]
            != #[trigger] all[j] by {
            if j < before.len() {
                assert(before[i] != before[j]);
            } else {
                assert(all[i] == before[i]);
                assert(before.contains(before[i]));
            }
        }
        assert forall|k: int| 0 <= k < names.len() implies all.contains(#[trigger] names[k]) by {
            if k < rest.len() {
                assert(rest[k] == names[k]);
                let w = choose|w: int| 0 <= w < before.len() && before[w] == names[k];
                assert(all[w] == names[k]);
            } else if before.contains(names.last()) {
                let w = choose|w: int| 0 <= w < before.len() && before[w] == names.last();
                assert(all[w] == names[k]);
            } else {
                assert(all[all.len() - 1] == names[k]);
            }
        }
        assert forall|i: int| 0 <= i < all.len() implies names.contains(#[trigger] all[i]) by {
            if i < before.len() {
                assert(rest.contains(before[i]));
                let w = choose|w: int| 0 <= w < rest.len() && rest[w] == before[i];
                assert(names[w] == all[i]);
            } else {
                assert(names[names.len() - 1] == all[i]);
            }
        }
        if rest.len() > 0 {
            assert(rest[0] == names[0]);
        }
    }
}

/// A queue is taken to be from the first file whose path has its key in it; where no path
/// has, all patterns are named.
pub proof fn queue_is_from_the_first_path_with_its_key(
    key: Seq<char>,
    path: Seq<char>,
    paths: Seq<Seq<char>>,
    patterns: Seq<Seq<char>>,
)
    ensures
        text::contains(path, key) ==> queue_path(key, seq![path] + paths, patterns) == path,
        !text::contains(path, key) ==> queue_path(key, seq![path] + paths, patterns) == queue_path(
            key,
            paths,
            patterns,
        ),
        queue_path(key, Seq::empty(), patterns) == text::joined(patterns, ", "@),
{
    assert((seq![path] + paths).drop_first() =~= paths);
}

/// A queue of a file stays what was read of it, from the file that it is taken to be from.
pub proof fn queue_of_a_file_stays_what_was_read(
    marked: Seq<(String, RouteQueueConfig)>,
    files: QueueFiles,
    patterns: Seq<Seq<char>>,
    i: int,
)
    requires
        are_file_queues(marked, Some(files), patterns),
        0 <= i < files.queues@.len(),
    ensures
        marked.len() == files.queues@.len(),
        marked[i].0 == files.queues@[i].0,
        marked[i].1.name == files.queues@[i].1.name,
        marked[i].1.settings == files.queues@[i].1.settings,
        marked[i].1.origin matches ConfigOrigin::File(p) && p@ == queue_path(
            files.queues@[i].0@,
            text::views(files.paths@),
            patterns,
        ),
{
    assert(is_file_queue(marked[i], files.queues@[i], text::views(files.paths@), patterns));
}

/// A reference names a queue by number exactly where a number stands behind the mark of
/// stored queues.
pub proof fn numbered_reference_has_its_mark(n: nat, reference: Seq<char>)
    ensures
        n <= 0x7FFF_FFFF_FFFF_FFFF ==> is_numbered("db-"@ + text::decimal(n)),
        is_numbered(reference) ==> text::starts_with(reference, "db-"@),
        !is_numbered(text::decimal(n)),
{
    reveal_strlit("db-");
    text::decimal_is_read_back(n, 0);
    text::text_has_its_parts("db-"@, text::decimal(n), Seq::empty());
    let r = "db-"@ + text::decimal(n);
    assert(r.skip(3) =~= text::decimal(n));
    if text::starts_with(text::decimal(n), "db-"@) {
        assert(text::decimal(n).subrange(0, 3)[0] == 'd');
        assert(text::is_ascii_digit(text::decimal(n)[0]));
    }
}

/// A queue goes by its key and by its name, both in the form of a key; of several the
/// first is found.
pub proof fn queue_is_found_by_key_or_name(
    entry: (String, RouteQueueConfig),
    rest: Seq<(String, RouteQueueConfig)>,
    key: Seq<char>,
)
    ensures
        goes_by(entry, slug(entry.0@)),
        entry.1.name matches Some(n) ==> goes_by(entry, slug(n@)),
        entry.1.name is None ==> (goes_by(entry, key) <==> key == slug(entry.0@)),
        goes_by(entry, key) ==> queue_by_key(seq![entry] + rest, key) == Some(entry.1),
        !goes_by(entry, key) ==> queue_by_key(seq![entry] + rest, key) == queue_by_key(rest, key),
        queue_by_key(Seq::empty(), key) is None,
{
    assert((seq![entry] + rest).drop_first() =~= rest);
}

/// Rules that are given stand as they are; only where there are none everybody is let in,
/// by a rule before the one that lets nobody in.
pub proof fn rules_stand_as_given(rules: Seq<Seq<char>>, none: Seq<Seq<char>>)
    requires
        none.len() == 0,
    ensures
        rules.len() > 0 ==> acl_or_open(rules) == rules,
        acl_or_open(none).len() == 2 && acl_or_open(none)[0] == "allow all"@ && acl_or_open(none)[1]
            == "deny all"@,
        is_open_acl(acl_or_open(none)),
{
}

/// The rules of the configuration come first, then those of files in the order of the
/// files, then those that were generated.
pub proof fn rules_keep_the_order_of_their_sources(
    embedded: Vec<String>,
    files: Seq<AclFile>,
    file: AclFile,
    generated: Seq<AclFile>,
)
    ensures
        all_rules(Some(embedded), files, generated) == embedded@ + file_rules(files) + file_rules(
            generated,
        ),
        all_rules(None, files, generated) =~= file_rules(files) + file_rules(generated),
        file_rules(files.push(file)) == file_rules(files) + file.rules@,
        file_rules(Seq::empty()).len() == 0,
{
    assert(files.push(file).drop_last() =~= files);
}

/// What cannot be written makes loading fail before what cannot be read, and that before a
/// generated file; a generated file that was not written now fails nothing. The first of
/// the failures is told.
pub proof fn first_failure_is_told(
    e: String,
    exported: Option<GeneratedFileMetrics>,
    files: Result<Vec<TrunkFile>, String>,
    generated: Result<Vec<TrunkFile>, String>,
)
    ensures
        reload_failure(Err(e), files, generated) == Some(e),
        files matches Err(x) ==> reload_failure(Ok(exported), files, generated) == Some(x),
        files is Ok && exported is None ==> reload_failure(Ok(exported), files, generated) is None,
        files is Ok && exported is Some ==> (generated matches Err(x) ==> reload_failure(
            Ok(exported),
            files,
            generated,
        ) == Some(x)),
        files is Ok && generated is Ok ==> reload_failure(Ok(exported), files, generated) is None,
        files matches Ok(f) ==> what_was_read(files) == f@,
        files is Err ==> what_was_read(files).len() == 0,
{
}

/// Loading trunks anew touches nothing but the trunks, and counts each name once.
pub proof fn reloading_trunks_touches_trunks_alone(
    before: ProxyDataContext,
    after: ProxyDataContext,
    embedded: Seq<(String, TrunkConfig)>,
    files: Seq<TrunkFile>,
    generated: Seq<TrunkFile>,
    exported: Option<GeneratedFileMetrics>,
    metrics: ReloadMetrics,
    name: Seq<char>,
)
    requires
        trunks_reloaded(before, after, embedded, files, generated, exported, metrics),
    ensures
        after.config == before.config,
        after.queues == before.queues,
        after.routes == before.routes,
        after.acl_rules == before.acl_rules,
        metrics.generated == exported,
        metrics.config_count == embedded.len(),
        metrics.patterns@ == before.config.trunks_files@,
        last_value(file_trunks(generated), name) matches Some(t) ==> after.trunks.value(name) == Some(t),
        last_value(file_trunks(generated), name) is None ==> (last_value(
            file_trunks(files),
            name,
        ) matches Some(t) ==> after.trunks.value(name) == Some(t)),
        last_value(file_trunks(generated), name) is None && last_value(file_trunks(files), name) is None
            ==> (after.trunks.value(name) is Some <==> last_value(embedded, name) is Some),
{
    later_sources_win(embedded, files, generated, name);
    origin_keeps_names(embedded, name);
}

proof fn origin_keeps_names(embedded: Seq<(String, TrunkConfig)>, name: Seq<char>)
    ensures
        last_value(trunks_with_origin(embedded, ConfigOrigin::Embedded), name) is Some <==> last_value(
            embedded,
            name,
        ) is Some,
    decreases embedded.len(),
{
    if embedded.len() > 0 {
        origin_keeps_names(embedded.drop_last(), name);
        assert(trunks_with_origin(embedded, ConfigOrigin::Embedded).drop_last()
            =~= trunks_with_origin(embedded.drop_last(), ConfigOrigin::Embedded));
    }
}

/// Loading routes or rules anew touches nothing else.
pub proof fn reloading_routes_and_rules_touches_them_alone(
    before: ProxyDataContext,
    routed: ProxyDataContext,
    ruled: ProxyDataContext,
    routes: Option<Vec<RouteRule>>,
    route_files: Seq<RouteFile>,
    generated_routes: Seq<RouteFile>,
    exported: Option<GeneratedFileMetrics>,
    route_metrics: ReloadMetrics,
    rules: Option<Vec<String>>,
    rule_files: Seq<AclFile>,
    generated_rules: Seq<AclFile>,
    rule_metrics: ReloadMetrics,
)
    requires
        routes_reloaded(
            before,
            routed,
            routes,
            route_files,
            generated_routes,
            exported,
            route_metrics,
        ),
        rules_reloaded(before, ruled, rules, rule_files, generated_rules, rule_metrics),
    ensures
        routed.trunks == before.trunks && routed.queues == before.queues && routed.acl_rules
            == before.acl_rules && routed.config == before.config,
        ruled.trunks == before.trunks && ruled.queues == before.queues && ruled.routes
            == before.routes && ruled.config == before.config,
        route_metrics.generated == exported,
        rule_metrics.generated is None,
        route_metrics.config_count == (if routes is Some {
            routes->0@.len()
        } else {
            0
        }),
        rule_metrics.config_count == (if rules is Some {
            rules->0@.len()
        } else {
            0
        }),
        route_metrics.patterns@ == before.config.routes_files@,
        rule_metrics.patterns@ == before.config.acl_files@,
{
}

/// The numbers of trunks are told with their own names, for exactly those that have one.
pub proof fn numbered_trunks_go_by_their_names(
    entries: Seq<(String, TrunkConfig)>,
    name: String,
    t: TrunkConfig,
)
    ensures
        t.id matches Some(id) ==> numbered_trunks(entries.push((name, t))) == numbered_trunks(
            entries,
        ).push((id, name)) && crate::route::trunk_name(
            numbered_trunks(entries.push((name, t))),
            id,
        ) == Some(name),
        t.id is None ==> numbered_trunks(entries.push((name, t))) == numbered_trunks(entries),
        numbered_trunks(Seq::empty()).len() == 0,
{
    assert(entries.push((name, t)).drop_last() =~= entries);
    if t.id is Some {
        crate::route::trunk_is_the_last_of_its_number(
            numbered_trunks(entries),
            t.id->0,
            name,
            t.id->0,
        );
    }
}

/// A queue is looked up in its file, but for a numbered one that is loaded; a reference of
/// white space is to nothing. Where the file is missing, a number is tried as a numbered
/// queue, and a name under its key.
pub proof fn queue_is_looked_up_by_its_reference(
    data: ProxyDataContext,
    reference: &str,
    first: QueueLookup,
    then: QueueLookup,
    path: Option<String>,
)
    requires
        call_ensures(ProxyDataContext::resolve_queue_config, (&data, reference), first),
        call_ensures(ProxyDataContext::after_missing_queue_file, (&data, reference), then),
        call_ensures(ProxyDataContext::queue_file_path, (&data, reference), path),
        text::trimmed(reference@).len() > 0,
    ensures
        first is Found || first is ReadFile,
        first matches QueueLookup::Found(q) ==> is_numbered(reference@) && data.queues.value(
            reference@,
        ) == Some(*q),
        first matches QueueLookup::ReadFile { path: file } ==> path is Some && file@ == path->0@,
        is_numbered(reference@) && data.queues.value(reference@) is Some ==> first is Found,
        then is Retry <==> text::all_digits(reference@),
        then matches QueueLookup::Retry { reference: again } ==> again@ == "db-"@ + reference@,
        !(then is ReadFile),
{
}

/// A menu that was written by hand comes before a generated one of the same name.
pub proof fn hand_written_menu_comes_first(
    data: ProxyDataContext,
    name: &str,
    written: bool,
    by_hand: String,
    only_generated: String,
    neither: String,
)
    requires
        call_ensures(ProxyDataContext::resolve_ivr_file, (&data, name, true, written), by_hand),
        call_ensures(ProxyDataContext::resolve_ivr_file, (&data, name, false, true), only_generated),
        call_ensures(ProxyDataContext::resolve_ivr_file, (&data, name, false, false), neither),
    ensures
        by_hand@ == neither@,
        by_hand@ == crate::route::hand_written_file(
            data.config.ivr_dir@,
            crate::route::ivr_filename(name@),
        ),
        only_generated@ == crate::route::generated_file(
            data.config.ivr_dir@,
            crate::route::ivr_filename(name@),
        ),
{
}

/// What is told of routes that were loaded anew names each file that gave any, once.
pub proof fn reload_of_routes_names_its_files(
    before: ProxyDataContext,
    after: ProxyDataContext,
    embedded: Option<Vec<RouteRule>>,
    files: Seq<RouteFile>,
    generated: Seq<RouteFile>,
    exported: Option<GeneratedFileMetrics>,
    metrics: ReloadMetrics,
)
    requires
        routes_reloaded(before, after, embedded, files, generated, exported, metrics),
    ensures
        text::views(metrics.files@) == distinct(route_paths(files)),
        metrics.patterns@ == before.config.routes_files@,
        metrics.generated == exported,
        after.config == before.config && after.trunks == before.trunks && after.queues
            == before.queues && after.acl_rules == before.acl_rules,
        metrics.total == after.routes@.len(),
{
}

} // verus!
