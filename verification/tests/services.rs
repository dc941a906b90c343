use ferroq::adapter::AdapterState;
use ferroq::config::{
    AccountConfig, AppConfig, BackendConfig, LoggingConfig, OneBotV11Config, ProtocolsConfig,
    ServerConfig, StorageConfig,
};
use ferroq::echo::{echoed, should_echo, EchoConfig, EchoMessage, EchoSegment};
use ferroq::error::GatewayError;
use ferroq::json::{JsonNumber, JsonValue};
use ferroq::json_text::to_json_text;
use ferroq::management::{
    accounts_reply, adapter_action_reply, apply_reload, failed_code_reply, failed_reply,
    redact_config,
};
use ferroq::manager::{check_add, not_found_error, AdapterRegistry};
use ferroq::shared_config::SharedConfig;
use ferroq::stats::{prometheus_text, AdapterSnapshot, RuntimeStats};
use ferroq::storage::{cleanup_modifier, plan_query, MessageQuery, SqlValue};
use ferroq::time::timestamp_from_secs;

fn sj(v: &JsonValue) -> serde_json::Value {
    match v {
        JsonValue::Null => serde_json::Value::Null,
        JsonValue::Bool(b) => serde_json::Value::Bool(*b),
        JsonValue::Number(JsonNumber::PosInt(u)) => serde_json::Value::from(*u),
        JsonValue::Number(JsonNumber::NegInt(i)) => serde_json::Value::from(*i),
        JsonValue::Number(JsonNumber::Float { bits, .. }) => {
            serde_json::Value::from(f64::from_bits(*bits))
        }
        JsonValue::Str(s) => serde_json::Value::String(s.clone()),
        JsonValue::Array(a) => serde_json::Value::Array(a.iter().map(sj).collect()),
        JsonValue::Object(es) => {
            serde_json::Value::Object(es.iter().map(|(k, v)| (k.clone(), sj(v))).collect())
        }
    }
}

fn config(token: &str, backend_token: &str) -> AppConfig {
    let mut server = ServerConfig::default();
    server.access_token = token.to_string();
    let mut backend = BackendConfig::new("lagrange", "ws://localhost:1234");
    backend.access_token = backend_token.to_string();
    let mut protocols = ProtocolsConfig::default();
    protocols.onebot_v11 = Some(OneBotV11Config::enabled_default());
    AppConfig {
        server,
        accounts: vec![AccountConfig { name: "bot1".to_string(), backend, fallback: None }],
        protocols,
        storage: StorageConfig::default(),
        logging: LoggingConfig::default(),
    }
}

fn snapshot(name: &str, healthy: bool, ms: Option<u64>) -> AdapterSnapshot {
    AdapterSnapshot {
        name: name.to_string(),
        backend_type: "lagrange".to_string(),
        url: "ws://x".to_string(),
        state: AdapterState::Connected,
        self_id: Some(1),
        healthy,
        health_check_ms: ms,
        last_health_check: None,
    }
}

// ---------------------------------------------------------------------------
// Management
// ---------------------------------------------------------------------------

#[test]
fn reload_with_valid_config_file() {
    let cfg = config("new-token", "");
    let mut shared = SharedConfig::new("old-token".into());
    let (reply, rate) = apply_reload(&cfg, &mut shared, false);
    let json = sj(&reply);
    assert_eq!(json["status"], "ok");
    assert_eq!(json["changes"][0], "access_token updated");
    assert_eq!(shared.access_token(), "new-token");
    assert_eq!(rate, None);
}

#[test]
fn reload_with_rate_limiter_reports_settings() {
    let cfg = config("t", "");
    let mut shared = SharedConfig::new("t".into());
    let (reply, rate) = apply_reload(&cfg, &mut shared, true);
    let json = sj(&reply);
    assert_eq!(json["changes"][0], "rate_limit updated: rps=100, burst=200");
    assert_eq!(rate, Some((100, 200)));
}

#[test]
fn reload_with_invalid_config_is_refused() {
    let mut cfg = config("new", "");
    cfg.server.port = 0;
    let mut shared = SharedConfig::new("old".into());
    let (reply, rate) = apply_reload(&cfg, &mut shared, true);
    let json = sj(&reply);
    assert_eq!(json["status"], "failed");
    assert_eq!(json["message"], "configuration has validation errors");
    assert_eq!(shared.access_token(), "old");
    assert_eq!(rate, None);
}

#[test]
fn config_endpoint_redacts_secrets() {
    let mut cfg = config("super-secret", "backend-secret");
    redact_config(&mut cfg);
    assert_eq!(cfg.server.access_token, "***");
    assert_eq!(cfg.accounts[0].backend.access_token, "***");
    assert_eq!(cfg.accounts[0].name, "bot1");
    let mut open = config("", "");
    redact_config(&mut open);
    assert_eq!(open.server.access_token, "");
}

#[test]
fn redaction_keeps_every_other_field() {
    let mut cfg = config("super-secret", "");
    cfg.server.dashboard = true;
    cfg.server.port = 9090;
    cfg.accounts[0].backend.reconnect_interval = 17;
    cfg.accounts[0].backend.health_check_interval = 23;
    let mut fallback = BackendConfig::new("official", "wss://backup.example");
    fallback.access_token = "fb-secret".to_string();
    fallback.reconnect_interval = 31;
    cfg.accounts[0].fallback = Some(fallback);
    cfg.storage.max_days = 12;
    redact_config(&mut cfg);
    assert_eq!(cfg.server.access_token, "***");
    assert!(cfg.server.dashboard);
    assert_eq!(cfg.server.port, 9090);
    assert_eq!(cfg.accounts[0].backend.access_token, "");
    assert_eq!(cfg.accounts[0].backend.reconnect_interval, 17);
    assert_eq!(cfg.accounts[0].backend.health_check_interval, 23);
    assert_eq!(cfg.accounts[0].backend.url, "ws://localhost:1234");
    let fb = cfg.accounts[0].fallback.as_ref().unwrap();
    assert_eq!(fb.access_token, "***");
    assert_eq!(fb.reconnect_interval, 31);
    assert_eq!(fb.backend_type, "official");
    assert_eq!(fb.url, "wss://backup.example");
    assert_eq!(cfg.storage.max_days, 12);
}

#[test]
fn failed_replies() {
    assert_eq!(
        to_json_text(&failed_reply("no config path")),
        r#"{"message":"no config path","status":"failed"}"#
    );
    assert_eq!(
        to_json_text(&failed_code_reply(2, "m")),
        r#"{"message":"m","retcode":2,"status":"failed"}"#
    );
}

#[test]
fn remove_adapter_not_found() {
    let reply = adapter_action_reply("nonexistent", "removed", Err(not_found_error("nonexistent")));
    let json = sj(&reply);
    assert_eq!(json["status"], "failed");
    assert!(json["message"].as_str().unwrap().contains("not found"));
}

#[test]
fn adapter_added_reply() {
    let json = sj(&adapter_action_reply("bot", "added", Ok(())));
    assert_eq!(json["status"], "ok");
    assert_eq!(json["message"], "adapter 'bot' added");
}

#[test]
fn add_adapter_unknown_backend_type() {
    let registry: AdapterRegistry<u8> = AdapterRegistry::new();
    let err = check_add(&registry, "bot", "unknown").unwrap_err();
    let json = sj(&adapter_action_reply("bot", "added", Err(err)));
    assert_eq!(json["status"], "failed");
    assert!(json["message"].as_str().unwrap().contains("unknown backend type"));
}

#[test]
fn registry_keeps_names_unique() {
    let mut registry: AdapterRegistry<u8> = AdapterRegistry::new();
    registry.insert("a".to_string(), 1);
    registry.insert("b".to_string(), 2);
    registry.insert("a".to_string(), 3);
    assert_eq!(registry.list_names(), vec!["a".to_string(), "b".to_string()]);
    assert!(check_add(&registry, "a", "lagrange").is_err());
    assert!(check_add(&registry, "c", "napcat").is_ok());
    assert_eq!(registry.remove("a"), Some(3));
    assert_eq!(registry.remove("a"), None);
    assert!(!registry.has("a"));
    assert!(registry.has("b"));
}

#[test]
fn accounts_lists_registered_adapters() {
    let json = sj(&accounts_reply(&vec![snapshot("bot-a", true, Some(5))]));
    assert_eq!(json["status"], "ok");
    assert_eq!(json["data"][0]["name"], "bot-a");
    assert_eq!(json["data"][0]["state"], "connected");
    assert_eq!(json["data"][0]["self_id"], 1);
}

#[test]
fn accounts_returns_empty_list() {
    let json = sj(&accounts_reply(&Vec::new()));
    assert_eq!(json["status"], "ok");
    assert_eq!(json["data"].as_array().unwrap().len(), 0);
}

#[test]
fn error_kinds_are_classified() {
    assert!(GatewayError::Connection("x".into()).is_connection_error());
    assert!(GatewayError::WebSocket("x".into()).is_connection_error());
    assert!(!GatewayError::Http("x".into()).is_connection_error());
    let e = GatewayError::BackendApi { action: "a".into(), retcode: -3, message: "m".into() };
    assert_eq!(e.to_text(), "backend API error: a returned code -3: m");
}

// ---------------------------------------------------------------------------
// Statistics
// ---------------------------------------------------------------------------

#[test]
fn stats_returns_health_response() {
    let mut stats = RuntimeStats::with_storage(true);
    stats.record_event();
    stats.record_event();
    stats.record_api_call();
    stats.ws_connect();
    stats.ws_connect();
    stats.ws_disconnect();
    stats.record_message_stored();
    stats.update_adapters(vec![snapshot("a", true, Some(3)), snapshot("b", false, None)]);
    let h = stats.health_at(12);
    assert_eq!(h.status, "ok");
    assert_eq!(h.version, "0.1.0");
    assert_eq!(h.uptime_secs, 12);
    assert_eq!(h.events_total, 2);
    assert_eq!(h.api_calls_total, 1);
    assert_eq!(h.ws_connections, 1);
    assert_eq!(h.ws_connections_total, 2);
    assert_eq!(h.messages_stored, 1);
    assert!(h.storage_enabled);
    assert_eq!(h.healthy_adapters, 1);
    assert_eq!(h.total_adapters, 2);
}

#[test]
fn connection_gauge_wraps_like_an_atomic() {
    let mut stats = RuntimeStats::new();
    stats.ws_disconnect();
    assert_eq!(stats.health_at(0).ws_connections, u64::MAX);
    stats.ws_connect();
    assert_eq!(stats.health_at(0).ws_connections, 0);
}

#[test]
fn prometheus_exposition() {
    let mut stats = RuntimeStats::new();
    stats.record_event();
    stats.update_adapters(vec![snapshot("a", true, Some(3))]);
    let text = prometheus_text(&stats.health_at(5));
    assert!(text.starts_with(
        "# HELP ferroq_uptime_seconds Gateway uptime in seconds.\n# TYPE ferroq_uptime_seconds gauge\nferroq_uptime_seconds 5\n\n"
    ));
    assert!(text.contains("ferroq_events_total 1\n"));
    assert!(text.contains("ferroq_adapter_healthy{name=\"a\",type=\"lagrange\",state=\"connected\"} 1\n"));
    assert!(text.contains("ferroq_adapter_health_check_ms{name=\"a\"} 3\n"));
}

// ---------------------------------------------------------------------------
// Storage
// ---------------------------------------------------------------------------

fn empty_query() -> MessageQuery {
    MessageQuery {
        self_id: None,
        group_id: None,
        user_id: None,
        message_type: None,
        keyword: None,
        limit: None,
        offset: None,
        after: None,
        before: None,
    }
}

#[test]
fn query_with_filters() {
    let mut q = empty_query();
    q.group_id = Some(111);
    q.keyword = Some("hi".to_string());
    let plan = plan_query(&q);
    assert_eq!(plan.where_clause, "WHERE group_id = ? AND raw_message LIKE ?");
    assert_eq!(plan.binds.len(), 2);
    assert!(matches!(&plan.binds[0], SqlValue::Int(111)));
    assert!(matches!(&plan.binds[1], SqlValue::Text(t) if t == "%hi%"));
    assert_eq!(plan.count_sql, "SELECT COUNT(*) FROM messages WHERE group_id = ? AND raw_message LIKE ?");
    assert_eq!(plan.limit, 50);
    assert_eq!(plan.offset, 0);
}

#[test]
fn pagination() {
    let mut q = empty_query();
    q.limit = Some(1000);
    q.offset = Some(20);
    let plan = plan_query(&q);
    assert_eq!(plan.where_clause, "");
    assert_eq!(plan.limit, 500);
    assert_eq!(plan.offset, 20);
    assert!(plan.select_sql.ends_with("LIMIT 500 OFFSET 20"));
}

#[test]
fn time_bounds_are_rfc3339() {
    let mut q = empty_query();
    q.after = timestamp_from_secs(1700000000);
    let plan = plan_query(&q);
    assert!(matches!(&plan.binds[0], SqlValue::Text(t) if t == "2023-11-14T22:13:20+00:00"));
}

#[test]
fn cleanup_modifier_text() {
    assert_eq!(cleanup_modifier(30), "-30 days");
}

#[test]
fn timestamps_out_of_range_are_refused() {
    assert!(timestamp_from_secs(0).is_some());
    assert!(timestamp_from_secs(i64::MAX).is_none());
    assert!(timestamp_from_secs(8_210_266_876_799).is_some());
    assert!(timestamp_from_secs(8_210_266_876_800).is_none());
    assert!(timestamp_from_secs(-8_334_601_228_800).is_some());
    assert!(timestamp_from_secs(-8_334_601_228_801).is_none());
}

#[test]
fn upper_case_url_scheme_is_accepted() {
    let mut cfg = config("", "");
    cfg.accounts[0].backend.url = "WS://127.0.0.1:8081".to_string();
    let issues = ferroq::validation::validate(&cfg);
    assert!(!ferroq::validation::has_errors(&issues));
}

// ---------------------------------------------------------------------------
// Echo plugin
// ---------------------------------------------------------------------------

#[test]
fn echo_plugin_decisions() {
    let mut cfg = EchoConfig::defaults();
    let msg = EchoMessage {
        message_type: "group".to_string(),
        message: vec![EchoSegment::Other, EchoSegment::Text("hello".to_string())],
        raw_message: "hello".to_string(),
    };
    assert!(should_echo(&cfg, &msg));
    let out = echoed(&cfg, msg.clone());
    assert_eq!(out.raw_message, "[echo] hello");
    assert!(matches!(&out.message[1], EchoSegment::Text(t) if t == "[echo] hello"));
    cfg.keyword = "ping".to_string();
    assert!(!should_echo(&cfg, &msg));
    cfg.keyword = "ell".to_string();
    cfg.echo_group = false;
    assert!(!should_echo(&cfg, &msg));
}
