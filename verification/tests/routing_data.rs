use proxy_call::data::acl_enabled;
use proxy_call::json::{Json, JsonNumber};
use proxy_call::route::{apply_route_metadata, slugify_queue_name, RouteAction, RouteMetadataAction};
use proxy_call::table::Table;
use proxy_call::trunk::{
    any_inbound_hosts, convert_trunk, sbc_config_from_metadata, TrunkConfig, TrunkDirection,
    TrunkModel,
};

fn text(value: &str) -> Json {
    Json::Text(value.to_string())
}

fn object(entries: Vec<(&str, Json)>) -> Json {
    Json::Object(entries.into_iter().map(|(k, v)| (k.to_string(), v)).collect())
}

fn stored_trunk(id: i64, name: &str, server: &str, metadata: Option<Json>) -> TrunkModel {
    TrunkModel {
        id,
        name: name.to_string(),
        sip_server: Some(server.to_string()),
        outbound_proxy: None,
        sip_transport: "udp".to_string(),
        direction: TrunkDirection::Bidirectional,
        auth_username: None,
        auth_password: None,
        is_active: true,
        max_concurrent: None,
        max_cps: None,
        allowed_ips: None,
        did_numbers: None,
        incoming_from_user_prefix: None,
        incoming_to_user_prefix: None,
        register_enabled: false,
        register_expires: None,
        register_extra_headers: None,
        rewrite_hostport: false,
        metadata,
        header_rules: None,
        recording: None,
    }
}

#[test]
fn slugify_queue_name_strips_whitespace() {
    assert_eq!(slugify_queue_name("  Sales Support  "), "sales-support");
    assert_eq!(slugify_queue_name("UPPER_case"), "upper-case");
    assert_eq!(slugify_queue_name("..special??"), "special");
}

#[test]
fn route_metadata_sets_queue_fields() {
    let mut action = RouteAction::new();
    let meta = RouteMetadataAction {
        target_type: Some("queue".to_string()),
        queue_file: Some("queues/support.toml".to_string()),
        voicemail_extension: None,
        ivr_file: None,
    };
    apply_route_metadata(&mut action, meta, &None);
    assert_eq!(action.queue.as_deref(), Some("queues/support.toml"));
}

#[test]
fn route_metadata_sets_voicemail_fields() {
    let mut action = RouteAction::new();
    let meta = RouteMetadataAction {
        target_type: Some("voicemail".to_string()),
        queue_file: None,
        voicemail_extension: Some("1001".to_string()),
        ivr_file: None,
    };
    apply_route_metadata(&mut action, meta, &None);
    assert_eq!(action.app.as_deref(), Some("voicemail"));
    let params = action.app_params.unwrap();
    assert_eq!(params.get("extension").unwrap().as_str().unwrap(), "1001");
}

#[test]
fn route_metadata_sets_ivr_fields() {
    let mut action = RouteAction::new();
    let meta = RouteMetadataAction {
        target_type: Some("ivr".to_string()),
        queue_file: None,
        voicemail_extension: None,
        ivr_file: Some("config/ivr/main.toml".to_string()),
    };
    apply_route_metadata(&mut action, meta, &None);
    assert_eq!(action.app.as_deref(), Some("ivr"));
    let params = action.app_params.unwrap();
    assert_eq!(params.get("file").unwrap().as_str().unwrap(), "config/ivr/main.toml");
}

#[test]
fn acl_module_presence_check() {
    assert!(!acl_enabled(&None), "None modules → acl not enabled");
    assert!(
        !acl_enabled(&Some(vec!["recording".to_string()])),
        "modules without acl → not enabled"
    );
    assert!(
        acl_enabled(&Some(vec!["acl".to_string(), "recording".to_string()])),
        "modules with acl → enabled"
    );
    assert!(acl_enabled(&Some(vec!["acl".to_string()])), "only acl → enabled");
}

#[test]
fn trunk_with_inbound_hosts_detected() {
    let mut trunks: Table<TrunkConfig> = Table::new();

    let no_hosts = TrunkConfig::bare("sip:192.0.2.1".to_string());
    let mut with_hosts = TrunkConfig::bare("sip:192.0.2.2".to_string());
    with_hosts.inbound_hosts = vec!["203.0.113.1".to_string()];

    trunks.insert("no-hosts".to_string(), no_hosts);
    assert!(!any_inbound_hosts(&trunks), "no trunk has inbound_hosts");

    trunks.insert("with-hosts".to_string(), with_hosts);
    assert!(
        any_inbound_hosts(&trunks),
        "one trunk has inbound_hosts — warning should fire"
    );
}

#[test]
fn sbc_config_extracts_ringback_from_metadata() {
    let meta = object(vec![(
        "sbc",
        object(vec![(
            "ringback",
            object(vec![
                ("busy", text("/sounds/busy.wav")),
                ("reject", text("/sounds/reject.wav")),
                ("play_duration_secs", Json::Number(JsonNumber::Unsigned(5))),
            ]),
        )]),
    )]);
    let cfg = sbc_config_from_metadata(&meta, None);
    let rb = cfg.ringback.as_ref().expect("ringback should be parsed");
    assert_eq!(rb.busy, Some("/sounds/busy.wav".to_string()));
    assert_eq!(rb.reject, Some("/sounds/reject.wav".to_string()));
    assert_eq!(rb.play_duration_secs, Some(5));
}

#[test]
fn sbc_config_ringback_absent_when_not_in_metadata() {
    let meta = object(vec![("sbc", object(vec![("media_mode", text("bypass"))]))]);
    let cfg = sbc_config_from_metadata(&meta, None);
    assert!(
        cfg.ringback.is_none(),
        "no ringback field → ringback should be None"
    );
}

#[test]
fn convert_trunk_merges_sbc_ringback() {
    let model = stored_trunk(
        1,
        "test",
        "sip:1.2.3.4:5060",
        Some(object(vec![(
            "sbc",
            object(vec![(
                "ringback",
                object(vec![
                    ("offline", text("/sounds/offline.wav")),
                    ("notfound", text("/sounds/notfound.wav")),
                ]),
            )]),
        )])),
    );
    let (_, trunk) = convert_trunk(model).expect("should convert");
    let rb = trunk.ringback.as_ref().expect("ringback should be merged");
    assert_eq!(rb.offline, Some("/sounds/offline.wav".to_string()));
    assert_eq!(rb.notfound, Some("/sounds/notfound.wav".to_string()));
}

#[test]
fn convert_trunk_no_ringback_without_sbc_metadata() {
    let model = stored_trunk(2, "test-no-sbc", "sip:5.6.7.8:5060", None);
    let (_, trunk) = convert_trunk(model).expect("should convert");
    assert!(trunk.ringback.is_none(), "no metadata → no ringback");
}
