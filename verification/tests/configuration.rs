use proxy_call::conditions::{
    apply_match_filters, canonical_condition_key, finalize_match_conditions, handle_match_key,
    handle_rewrite_key, normalize_rewrite_rules, sanitize_metadata_string, set_field,
    MatchConditions, RewriteRules,
};
use proxy_call::data::{
    contains_glob_chars, path_of_queue, resolve_generated_path, AclFile, GeneratedFileMetrics,
    GeneratedQueues, ProxyConfig, ProxyDataContext, QueueFiles, QueueLookup, RouteFile,
    RouteQueueConfig, TrunkFile,
};
use proxy_call::idset::IdSet;
use proxy_call::json::{extract_string_array, parse_json, strings_exactly, to_low32, Json};
use proxy_call::paths;
use proxy_call::route::{
    canonical_queue_key, convert_route, ivr_candidates, resolve_ivr_name_to_path, sort_by_priority,
    upsert_route, upsert_routes, DestConfig, IvrDir, RouteAction, RouteMetadataAction, RouteModel,
    RouteRule,
};
use proxy_call::table::Table;
use proxy_call::text;
use proxy_call::trunk::{
    convert_trunk, find_trunk_by_ip, find_trunks_by_ip, sbc_config_from_metadata, CacPolicy,
    CallIdMode, ConfigOrigin, MediaMode, TrunkConfig, TrunkDirection, TrunkModel, VideoPolicy,
};

fn s(value: &str) -> String {
    value.to_string()
}

fn config() -> ProxyConfig {
    ProxyConfig {
        trunks_files: vec![s("trunks/*.toml")],
        queues_files: vec![s("queues/*.toml")],
        routes_files: Vec::new(),
        acl_files: Vec::new(),
        modules: None,
        queue_dir: s("config/queue"),
        ivr_dir: s("config/ivr"),
    }
}

fn queue(name: Option<&str>) -> RouteQueueConfig {
    RouteQueueConfig { name: name.map(s), settings: s(""), origin: ConfigOrigin::Embedded }
}

fn route(name: &str, priority: i32) -> RouteRule {
    RouteRule {
        name: s(name),
        description: None,
        priority,
        source_trunks: Vec::new(),
        source_trunk_ids: Vec::new(),
        match_conditions: MatchConditions::new(),
        rewrite: None,
        action: RouteAction::new(),
        disabled: None,
        policy: None,
        origin: ConfigOrigin::Embedded,
        codecs: Vec::new(),
        disable_ice_servers: None,
    }
}

fn names(routes: &[RouteRule]) -> Vec<String> {
    routes.iter().map(|r| r.name.clone()).collect()
}

fn stored_trunk(name: &str) -> TrunkModel {
    TrunkModel {
        id: 7,
        name: s(name),
        sip_server: None,
        outbound_proxy: Some(s("sip:proxy.example.com")),
        sip_transport: s("tcp"),
        direction: TrunkDirection::Inbound,
        auth_username: Some(s("u")),
        auth_password: None,
        is_active: false,
        max_concurrent: Some(-1),
        max_cps: Some(12),
        allowed_ips: parse_json("[\"192.0.2.1\", 5, \"gw.example.com\"]"),
        did_numbers: None,
        incoming_from_user_prefix: None,
        incoming_to_user_prefix: None,
        register_enabled: false,
        register_expires: None,
        register_extra_headers: None,
        rewrite_hostport: true,
        metadata: None,
        header_rules: None,
        recording: None,
    }
}

fn stored_route() -> RouteModel {
    RouteModel {
        name: s("r1"),
        description: None,
        priority: 5,
        is_active: true,
        selection_strategy: s("rr"),
        hash_key: None,
        source_trunk_id: Some(3),
        source_pattern: Some(s("^1")),
        destination_pattern: Some(s("^2")),
        header_filters: Some(vec![
            (s("from_host"), s(" example.com ")),
            (s("X-Tag"), s("a")),
            (s("caller"), s("^9")),
        ]),
        rewrite_rules: None,
        target_trunks: vec![s("t1"), s("t2")],
        metadata: None,
    }
}

#[test]
fn blank_values_set_nothing() {
    let mut field = Some(s("old"));
    set_field(&mut field, "  ");
    assert_eq!(field, Some(s("old")));
    set_field(&mut field, " new ");
    assert_eq!(field, Some(s("new")));
    assert_eq!(sanitize_metadata_string(Some(s(" x "))), Some(s("x")));
    assert_eq!(sanitize_metadata_string(Some(s("  "))), None);
    assert_eq!(canonical_condition_key(" Request_URI-User "), "request.uri.user");
}

#[test]
fn conditions_speak_of_parts_or_headers() {
    let mut c = MatchConditions::new();
    assert!(handle_match_key(&mut c, "Caller", " 100 "));
    assert_eq!(c.from_user, Some(s("100")));
    assert!(handle_match_key(&mut c, "  ", "x"));
    assert!(!handle_match_key(&mut c, "X-Tag", "x"));
    let mut rules = RewriteRules::new();
    assert!(handle_rewrite_key(&mut rules, "to.port", "5060"));
    assert_eq!(rules.to_port, Some(s("5060")));
    assert!(!handle_rewrite_key(&mut rules, "caller", "100"));
}

#[test]
fn filtered_conditions_are_final() {
    let mut c = MatchConditions::new();
    let filters = vec![
        (s("to-host"), s("example.com")),
        (s("header.X-Tag"), s("a")),
        (s("X-Other"), s(" b ")),
        (s("X-Blank"), s("  ")),
    ];
    apply_match_filters(&mut c, &filters);
    let before: Vec<(String, String)> =
        c.headers.entries.iter().map(|(k, v)| (k.clone(), v.clone())).collect();
    finalize_match_conditions(&mut c);
    let once: Vec<(String, String)> =
        c.headers.entries.iter().map(|(k, v)| (k.clone(), v.clone())).collect();
    finalize_match_conditions(&mut c);
    let twice: Vec<(String, String)> =
        c.headers.entries.iter().map(|(k, v)| (k.clone(), v.clone())).collect();
    assert_eq!(before, once);
    assert_eq!(once, twice);
    assert_eq!(c.to_host, Some(s("example.com")));
    assert!(c.headers.entries.iter().any(|(_, v)| v == "b"));
    assert!(!c.headers.entries.iter().any(|(k, _)| k.contains("Blank")));
}

#[test]
fn aliases_give_way_to_the_parts_that_they_stand_for() {
    let mut c = MatchConditions::new();
    c.caller = Some(s("1"));
    c.to = Some(s("2"));
    finalize_match_conditions(&mut c);
    assert_eq!(c.from_user, Some(s("1")));
    assert_eq!(c.to_user, Some(s("2")));
    assert!(c.caller.is_none() && c.to.is_none() && c.from.is_none() && c.callee.is_none());
    let mut rules = RewriteRules::new();
    rules.headers.insert(s("from.user"), s("7"));
    rules.headers.insert(s("X-Keep"), s("k"));
    normalize_rewrite_rules(&mut rules);
    assert_eq!(rules.from_user, Some(s("7")));
    assert_eq!(rules.headers.entries.len(), 1);
}

#[test]
fn generated_files_go_beside_the_patterns() {
    assert!(contains_glob_chars("a/*.toml"));
    assert!(!contains_glob_chars("a/b.toml"));
    let path = |patterns: &[&str]| {
        let list: Vec<String> = patterns.iter().map(|p| s(p)).collect();
        resolve_generated_path(&list, "config", "x.generated.toml")
    };
    assert_eq!(path(&["trunks/a.toml"]), Some(s("trunks/a.toml")));
    assert_eq!(path(&["trunks/*.toml"]), Some(s("trunks/x.generated.toml")));
    assert_eq!(path(&["*.toml"]), Some(s("config/x.generated.toml")));
    assert_eq!(path(&["  ", "t/?.toml"]), Some(s("t/x.generated.toml")));
    assert_eq!(path(&[]), Some(s("config/x.generated.toml")));
}

#[test]
fn paths_are_taken_apart_and_put_together() {
    assert_eq!(paths::join("a", "b"), "a/b");
    assert_eq!(paths::join("a/", "b"), "a/b");
    assert_eq!(paths::join("a", "/b"), "/b");
    assert_eq!(paths::parent("a/b/c"), Some(s("a/b")));
    assert_eq!(paths::parent("c"), Some(s("")));
    assert_eq!(paths::parent("/"), None);
    assert_eq!(paths::file_name("a/b.toml"), Some(s("b.toml")));
    assert_eq!(paths::file_name("a/.."), None);
    assert_eq!(paths::with_file_name("a/b.toml", "c"), "a/c");
    let backup = paths::backup_name("a/b.toml", "20240101");
    assert_eq!(backup, "a/b.toml.20240101.bak");
    assert_eq!(paths::parent(&backup), paths::parent("a/b.toml"));
}

#[test]
fn later_sources_of_trunks_win() {
    let mut context = ProxyDataContext::new(config());
    let trunk = |dest: &str| TrunkConfig::bare(s(dest));
    let metrics = context.reload_trunks(
        vec![(s("a"), trunk("sip:e1")), (s("b"), trunk("sip:e2"))],
        Ok(Some(GeneratedFileMetrics { entries: 1, path: s("trunks/g.toml"), backup: None })),
        Ok(vec![TrunkFile { path: s("trunks/f.toml"), trunks: vec![(s("b"), trunk("sip:f2")), (s("c"), trunk("sip:f3"))] }]),
        Ok(vec![TrunkFile { path: s("trunks/g.toml"), trunks: vec![(s("c"), trunk("sip:g3"))] }]),
    ).unwrap();
    assert_eq!(context.get_trunk("a").unwrap().dest, "sip:e1");
    assert_eq!(context.get_trunk("b").unwrap().dest, "sip:f2");
    assert_eq!(context.get_trunk("c").unwrap().dest, "sip:g3");
    assert!(matches!(&context.get_trunk("a").unwrap().origin, ConfigOrigin::Embedded));
    assert!(
        matches!(&context.get_trunk("b").unwrap().origin, ConfigOrigin::File(p) if p == "trunks/f.toml")
    );
    assert_eq!((metrics.total, metrics.config_count, metrics.file_count), (3, 2, 2));
    assert_eq!(metrics.files, vec![s("trunks/f.toml")]);
    assert_eq!(metrics.patterns, vec![s("trunks/*.toml")]);
    assert_eq!(metrics.generated.map(|g| g.entries), Some(1));
    assert!(context.trunk_lookup().is_empty());
}

#[test]
fn routes_are_put_in_order_and_keep_their_names_distinct() {
    let mut context = ProxyDataContext::new(config());
    let metrics = context.reload_routes(
        Some(vec![route("a", 10), route("b", 5), route("a", 1)]),
        Ok(None),
        Ok(vec![RouteFile { path: s("r.toml"), routes: vec![route("c", 5)] }]),
        Ok(Vec::new()),
    ).unwrap();
    assert_eq!(names(context.routes_snapshot()), vec!["a", "b", "c"]);
    assert_eq!(context.routes_snapshot()[0].priority, 1);
    assert_eq!((metrics.total, metrics.config_count, metrics.file_count), (3, 3, 1));
    let mut routes = vec![route("x", 1)];
    upsert_route(&mut routes, route("y", 2));
    upsert_routes(&mut routes, vec![route("x", 9), route("z", 3)]);
    assert_eq!(names(&routes), vec!["x", "y", "z"]);
    assert_eq!(routes[0].priority, 9);
    assert_eq!(names(&sort_by_priority(routes)), vec!["y", "z", "x"]);
}

#[test]
fn the_last_source_of_a_route_counts_in_the_place_of_the_first() {
    let mut context = ProxyDataContext::new(config());
    let metrics = context.reload_routes(
        Some(vec![route("a", 7), route("b", 7)]),
        Ok(None),
        Ok(vec![
            RouteFile { path: s("1.toml"), routes: vec![route("c", 7), route("a", 7)] },
            RouteFile { path: s("2.toml"), routes: vec![route("c", 7)] },
        ]),
        Ok(vec![RouteFile { path: s("g.toml"), routes: vec![route("b", 7), route("d", 0)] }]),
    ).unwrap();
    assert_eq!(names(context.routes_snapshot()), vec!["d", "a", "b", "c"]);
    let origins: Vec<&str> = context
        .routes_snapshot()
        .iter()
        .map(|r| match &r.origin {
            ConfigOrigin::File(path) => path.as_str(),
            ConfigOrigin::Embedded => "",
        })
        .collect();
    assert_eq!(origins, vec!["g.toml", "1.toml", "g.toml", "2.toml"]);
    assert_eq!((metrics.total, metrics.config_count, metrics.file_count), (4, 2, 2));
}

#[test]
fn data_that_cannot_be_loaded_anew_stay_as_they_were() {
    let mut context = ProxyDataContext::new(config());
    let exported = || GeneratedFileMetrics { entries: 1, path: s("g.toml"), backup: None };
    let trunk = |dest: &str| TrunkConfig::bare(s(dest));
    assert!(context.reload_trunks(vec![(s("a"), trunk("sip:a"))], Ok(None), Ok(Vec::new()), Ok(Vec::new())).is_ok());
    let failed = context.reload_trunks(Vec::new(), Err(s("disk")), Err(s("files")), Err(s("generated")));
    assert_eq!(failed.err(), Some(s("disk")));
    let failed = context.reload_trunks(Vec::new(), Ok(None), Err(s("files")), Err(s("generated")));
    assert_eq!(failed.err(), Some(s("files")));
    let failed = context.reload_trunks(Vec::new(), Ok(Some(exported())), Ok(Vec::new()), Err(s("generated")));
    assert_eq!(failed.err(), Some(s("generated")));
    assert_eq!(context.get_trunk("a").unwrap().dest, "sip:a");
    let left_out = context.reload_trunks(Vec::new(), Ok(None), Ok(Vec::new()), Err(s("generated")));
    assert_eq!(left_out.map(|m| m.total), Ok(0));
    assert!(context.get_trunk("a").is_none());

    assert!(context.reload_routes(Some(vec![route("a", 1)]), Ok(None), Ok(Vec::new()), Ok(Vec::new())).is_ok());
    let failed = context.reload_routes(None, Ok(Some(exported())), Ok(Vec::new()), Err(s("generated")));
    assert_eq!(failed.err(), Some(s("generated")));
    assert_eq!(names(context.routes_snapshot()), vec!["a"]);
    let left_out = context.reload_routes(None, Ok(None), Ok(Vec::new()), Err(s("generated")));
    assert_eq!(left_out.map(|m| m.total), Ok(0));

    context.set_acl_rules(vec![s("deny all")]);
    let failed = context.reload_acl_rules(None, Err(s("files")), Err(s("generated")));
    assert_eq!(failed.err(), Some(s("files")));
    let failed = context.reload_acl_rules(None, Ok(Vec::new()), Err(s("generated")));
    assert_eq!(failed.err(), Some(s("generated")));
    assert_eq!(context.acl_rules_snapshot(), &vec![s("deny all")]);
}

#[test]
fn there_are_always_access_rules() {
    let mut context = ProxyDataContext::new(config());
    let metrics = context.reload_acl_rules(None, Ok(Vec::new()), Ok(Vec::new())).unwrap();
    assert_eq!(context.acl_rules_snapshot(), &vec![s("allow all"), s("deny all")]);
    assert_eq!(metrics.total, 2);
    let metrics = context.reload_acl_rules(
        Some(vec![s("deny 192.0.2.1")]),
        Ok(vec![AclFile { path: s("a.toml"), rules: vec![s("allow all")] }]),
        Ok(vec![AclFile { path: s("g.toml"), rules: vec![s("deny all")] }]),
    ).unwrap();
    assert_eq!(context.acl_rules_snapshot(), &vec![s("deny 192.0.2.1"), s("allow all"), s("deny all")]);
    assert_eq!((metrics.total, metrics.config_count, metrics.file_count), (3, 1, 2));
    assert_eq!(metrics.files, vec![s("a.toml"), s("g.toml")]);
    context.set_acl_rules(Vec::new());
    assert_eq!(context.acl_rules_snapshot().len(), 2);
}

#[test]
fn later_sources_of_queues_count() {
    let mut context = ProxyDataContext::new(config());
    let metrics = context.reload_queues(
        vec![(s("a"), queue(Some("e"))), (s("b"), queue(Some("e"))), (s("c"), queue(Some("e")))],
        Some(QueueFiles {
            queues: vec![(s("b"), queue(Some("f"))), (s("c"), queue(Some("f")))],
            paths: vec![s("queues/b.toml")],
        }),
        Some(GeneratedQueues { path: s("queues/g.toml"), queues: vec![(s("c"), queue(Some("g")))] }),
    );
    let name = |key: &str| context.queues_snapshot().get(key).and_then(|q| q.name.clone());
    assert_eq!(name("a"), Some(s("e")));
    assert_eq!(name("b"), Some(s("f")));
    assert_eq!(name("c"), Some(s("g")));
    assert_eq!((metrics.total, metrics.config_count, metrics.file_count), (3, 3, 3));
    assert_eq!(metrics.files, vec![s("queues/b.toml"), s("queues/g.toml")]);
}

#[test]
fn queues_are_found_by_number_file_or_name() {
    let mut context = ProxyDataContext::new(config());
    let metrics = context.reload_queues(
        vec![(s("sales"), queue(Some("Sales Team")))],
        Some(QueueFiles { queues: vec![(s("help"), queue(None))], paths: vec![s("queues/help.toml")] }),
        Some(GeneratedQueues { path: s("queues/g.toml"), queues: vec![(s("db-7"), queue(Some("Seven")))] }),
    );
    assert_eq!(metrics.total, 3);
    assert!(matches!(context.resolve_queue_config("  "), QueueLookup::Missing));
    assert!(matches!(context.resolve_queue_config("db-7"), QueueLookup::Found(_)));
    assert!(matches!(
        context.resolve_queue_config(" help.toml "),
        QueueLookup::ReadFile { path } if path == "config/queue/help.toml"
    ));
    assert!(matches!(
        context.after_missing_queue_file("7"),
        QueueLookup::Retry { reference } if reference == "db-7"
    ));
    assert!(matches!(
        context.after_missing_queue_file("SALES_team"),
        QueueLookup::Found(q) if q.name.as_deref() == Some("Sales Team")
    ));
    assert!(matches!(context.after_missing_queue_file("??"), QueueLookup::Missing));
    assert!(matches!(context.after_missing_queue_file("nobody"), QueueLookup::Missing));
    assert!(
        matches!(&context.queues_snapshot().get("help").unwrap().origin, ConfigOrigin::File(p) if p == "queues/help.toml")
    );
    assert_eq!(context.queue_file_path(" a "), Some(s("config/queue/a")));
    assert_eq!(context.queue_file_path(" "), None);
    assert_eq!(path_of_queue("x", &vec![s("a.toml")], &vec![s("p"), s("q")]), "p, q");
    assert_eq!(canonical_queue_key("Sales Team"), Some(s("sales-team")));
    assert_eq!(canonical_queue_key("??"), None);
}

#[test]
fn a_menu_is_in_the_file_that_is_there() {
    assert_eq!(
        ivr_candidates("Main Menu", "ivr"),
        (s("ivr/Main_Menu.toml"), s("ivr/Main_Menu.generated.toml"))
    );
    assert_eq!(resolve_ivr_name_to_path("m", "ivr", true, true), "ivr/m.toml");
    assert_eq!(resolve_ivr_name_to_path("m", "ivr", false, true), "ivr/m.generated.toml");
    assert_eq!(resolve_ivr_name_to_path("m", "ivr", false, false), "ivr/m.toml");
    let context = ProxyDataContext::new(config());
    assert_eq!(context.resolve_ivr_file("m", false, true), "config/ivr/m.generated.toml");
}

#[test]
fn a_stored_route_becomes_a_rule() {
    let rule = convert_route(stored_route(), &vec![(3, s("carrier"))], &None);
    assert_eq!(rule.source_trunks, vec![s("carrier")]);
    assert_eq!(rule.source_trunk_ids, vec![3]);
    assert!(matches!(&rule.action.dest, Some(DestConfig::Multiple(t)) if t.len() == 2));
    assert_eq!(rule.action.select, "rr");
    assert_eq!(rule.match_conditions.from_user, Some(s("^9")));
    assert_eq!(rule.match_conditions.to_user, Some(s("^2")));
    assert_eq!(rule.match_conditions.from_host, Some(s("example.com")));
    assert_eq!(rule.match_conditions.headers.entries.len(), 1);
    let mut single = stored_route();
    single.target_trunks = vec![s("t1")];
    single.is_active = false;
    single.metadata = Some(RouteMetadataAction {
        target_type: Some(s("ivr")),
        queue_file: None,
        voicemail_extension: None,
        ivr_file: Some(s("Main Menu")),
    });
    let dir = Some(IvrDir { dir: s("ivr"), hand_written_exists: false, generated_exists: true });
    let rule = convert_route(single, &Vec::new(), &dir);
    assert!(matches!(&rule.action.dest, Some(DestConfig::Single(t)) if t == "t1"));
    assert_eq!(rule.action.app.as_deref(), Some("ivr"));
    assert!(rule.source_trunks.is_empty());
    assert_eq!(rule.disabled, Some(true));
}

#[test]
fn a_stored_trunk_becomes_a_configuration() {
    let (name, trunk) = convert_trunk(stored_trunk("t")).unwrap();
    assert_eq!(name, "t");
    assert_eq!(trunk.dest, "sip:proxy.example.com");
    assert_eq!(trunk.id, Some(7));
    assert_eq!(trunk.disabled, Some(true));
    assert_eq!(trunk.max_calls, Some(u32::MAX));
    assert_eq!(trunk.max_cps, Some(12));
    assert_eq!(trunk.inbound_hosts, vec![s("192.0.2.1"), s("gw.example.com")]);
    assert!(trunk.rewrite_hostport);
}

#[test]
fn settings_of_the_border_controller_are_read() {
    let meta = parse_json(
        "{\"sbc\": {\"call_id_mode\": \"rewrite\", \"cac_policy\": \"overflow\", \"media_mode\": \"bypass\", \"video_policy\": \"strip\", \"audio_codecs\": [\"pcmu\"], \"video_codecs\": [\"h264\"]}}",
    )
    .unwrap();
    let c = sbc_config_from_metadata(&meta, None);
    assert_eq!(c.call_id_mode, Some(CallIdMode::Rewrite));
    assert_eq!(c.cac_policy, Some(CacPolicy::Overflow));
    assert_eq!(c.media_mode, Some(MediaMode::Bypass));
    assert_eq!(c.video_policy, Some(VideoPolicy::Strip));
    assert_eq!(c.codec, vec![s("pcmu"), s("h264")]);
    let empty = sbc_config_from_metadata(&Json::Null, None);
    assert!(empty.call_id_mode.is_none() && empty.codec.is_empty());
}

#[test]
fn an_outbound_trunk_takes_no_call() {
    let mut trunks: Table<TrunkConfig> = Table::new();
    let mut inbound = TrunkConfig::bare(s("sip:192.0.2.1"));
    inbound.inbound_hosts = vec![s("192.0.2.1")];
    let mut outbound = TrunkConfig::bare(s("sip:192.0.2.1"));
    outbound.inbound_hosts = vec![s("192.0.2.1")];
    outbound.direction = Some(TrunkDirection::Outbound);
    trunks.insert(s("out"), outbound);
    trunks.insert(s("in"), inbound);
    let mut hosts = IdSet::new();
    hosts.insert(s("192.0.2.1"));
    assert_eq!(find_trunks_by_ip(&trunks, &hosts), vec![s("in")]);
    assert_eq!(find_trunk_by_ip(&trunks, &hosts), Some(s("in")));
    assert_eq!(find_trunk_by_ip(&trunks, &IdSet::new()), None);
}

#[test]
fn a_table_holds_each_key_once() {
    let mut t: Table<u32> = Table::new();
    t.insert(s("a"), 1);
    t.insert(s("b"), 2);
    t.insert(s("a"), 3);
    assert_eq!(t.entries.len(), 2);
    assert_eq!(t.get("a"), Some(&3));
    assert_eq!(t.keys(), vec![s("a"), s("b")]);
    t.insert_all(vec![(s("c"), 4), (s("b"), 5)]);
    assert_eq!(t.get("b"), Some(&5));
    assert_eq!(t.remove("a"), Some(3));
    assert_eq!(t.remove("a"), None);
    assert!(!t.contains_key("a"));
    let mut set = IdSet::new();
    set.insert(s("x"));
    set.insert(s("x"));
    assert_eq!(set.items.len(), 1);
    set.extend(&vec![s("y"), s("x"), s("y")]);
    assert!(set.remove("x") && !set.remove("x"));
    assert_eq!(set.drain(), vec![s("y")]);
}

#[test]
fn texts_are_taken_apart() {
    assert_eq!(text::trim("\u{a0} a b \n"), "a b");
    assert_eq!(text::lines_of("a\r\nb\n\nc"), vec!["a", "b", "", "c"]);
    assert_eq!(text::lines_of("a\n"), vec!["a"]);
    assert_eq!(text::split_on("a,b,,c", ','), vec!["a", "b", "", "c"]);
    assert_eq!(text::decimal_text(0), "0");
    assert_eq!(text::decimal_text(u64::MAX), "18446744073709551615");
    assert_eq!(text::parse_up_to("+12", 20), Some(12));
    assert_eq!(text::parse_up_to("21", 20), None);
    assert_eq!(text::parse_up_to("", 20), None);
    assert_eq!(text::parse_u16("65535"), Some(65535));
    assert_eq!(text::parse_u16("65536"), None);
    assert!(text::is_i64("-9223372036854775808"));
    assert!(!text::is_i64("9223372036854775808"));
    assert_eq!(text::last_position("a-b-", "-"), Some(3));
    assert_eq!(text::strip_prefix("sip:a", "sip:"), Some(s("a")));
    assert!(text::eq_ignore_ascii_case("AbC", "aBc"));
    assert_eq!(text::join(&vec![s("a"), s("b")], ", "), "a, b");
}

#[test]
fn lists_of_texts_are_read_from_json() {
    let list = parse_json("[\"a\", 1, \"b\"]");
    assert_eq!(extract_string_array(&list), vec![s("a"), s("b")]);
    assert!(strings_exactly(&list.unwrap()).is_none());
    assert_eq!(strings_exactly(&parse_json("[\"a\"]").unwrap()), Some(vec![s("a")]));
    assert_eq!(to_low32(0x1_0000_0005), 5);
}
