use ferroq::api::ApiResponse;
use ferroq::config::{
    AccountConfig, AppConfig, BackendConfig, LoggingConfig, OneBotV11Config, ProtocolsConfig,
    ServerConfig, StorageConfig,
};
use ferroq::json::{JsonNumber, JsonValue};
use ferroq::json_text::to_json_text;
use ferroq::message::{segment_to_json, segments_to_raw_string, MessageSegment};
use ferroq::plugin::{PluginInfo, PluginResult};
use ferroq::validation::{has_errors, supported_scheme, validate, Severity, ValidationIssue};

fn jv(v: &serde_json::Value) -> JsonValue {
    match v {
        serde_json::Value::Null => JsonValue::Null,
        serde_json::Value::Bool(b) => JsonValue::Bool(*b),
        serde_json::Value::Number(n) => {
            if let Some(u) = n.as_u64() {
                JsonValue::Number(JsonNumber::PosInt(u))
            } else if let Some(i) = n.as_i64() {
                JsonValue::Number(JsonNumber::NegInt(i))
            } else {
                let f = n.as_f64().unwrap();
                JsonValue::Number(JsonNumber::Float { bits: f.to_bits(), text: n.to_string() })
            }
        }
        serde_json::Value::String(s) => JsonValue::Str(s.clone()),
        serde_json::Value::Array(a) => JsonValue::Array(a.iter().map(jv).collect()),
        serde_json::Value::Object(m) => {
            JsonValue::Object(m.iter().map(|(k, v)| (k.clone(), jv(v))).collect())
        }
    }
}

fn parse(text: &str) -> JsonValue {
    jv(&serde_json::from_str(text).unwrap())
}

fn minimal_valid_config() -> AppConfig {
    let mut server = ServerConfig::default();
    server.port = 8080;
    let mut protocols = ProtocolsConfig::default();
    protocols.onebot_v11 = Some(OneBotV11Config::enabled_default());
    AppConfig {
        server,
        accounts: vec![AccountConfig {
            name: "main".to_string(),
            backend: BackendConfig::new("lagrange", "ws://127.0.0.1:8081/onebot/v11/ws"),
            fallback: None,
        }],
        protocols,
        storage: StorageConfig::default(),
        logging: LoggingConfig::default(),
    }
}

fn any_issue(issues: &[ValidationIssue], f: impl Fn(&ValidationIssue) -> bool) -> bool {
    issues.iter().any(|i| f(i))
}

#[test]
fn api_response_ok() {
    let resp = ApiResponse::ok(parse(r#"{"message_id": 12345}"#));
    assert_eq!(resp.status, "ok");
    assert_eq!(resp.retcode, 0);
}

#[test]
fn api_response_fail() {
    let resp = ApiResponse::fail(1400, "bad request".to_string());
    assert_eq!(resp.status, "failed");
    assert_eq!(resp.retcode, 1400);
    assert_eq!(resp.message, "bad request");
}

#[test]
fn default_server_config() {
    let config = ServerConfig::default();
    assert_eq!(config.host, "0.0.0.0");
    assert_eq!(config.port, 8080);
    assert!(config.dashboard);
}

#[test]
fn segment_json_roundtrip() {
    let seg = MessageSegment::text("hello world");
    let json = to_json_text(&segment_to_json(&seg));
    assert!(json.contains("text"));
    assert!(json.contains("hello world"));
    assert_eq!(json, r#"{"data":{"text":"hello world"},"type":"text"}"#);
}

#[test]
fn url_scheme_check_on_lowered_text() {
    assert!(supported_scheme("ws://127.0.0.1:8081"));
    assert!(supported_scheme("wss://example.com"));
    assert!(supported_scheme("http://example.com"));
    assert!(supported_scheme("https://example.com"));
    assert!(!supported_scheme("ftp://example.com"));
    assert!(!supported_scheme("WS://upper.case"));
    assert!(!supported_scheme(""));
}

#[test]
fn segments_to_raw() {
    let segments = vec![
        MessageSegment::text("Hello "),
        MessageSegment::at("123456"),
        MessageSegment::text(" world"),
    ];
    let raw = segments_to_raw_string(&segments);
    assert_eq!(raw, "Hello [CQ:at,qq=123456] world");
}

#[test]
fn plugin_result_round_trip() {
    assert_eq!(PluginResult::from_i32(PluginResult::Continue.to_i32()), PluginResult::Continue);
    assert_eq!(PluginResult::from_i32(PluginResult::Handled.to_i32()), PluginResult::Handled);
    assert_eq!(PluginResult::from_i32(PluginResult::Drop.to_i32()), PluginResult::Drop);
}

#[test]
fn plugin_info_default() {
    let info = PluginInfo::default();
    assert_eq!(info.name, "unknown");
    assert_eq!(info.version, "0.0.0");
}

#[test]
fn valid_config_has_no_errors() {
    let config = minimal_valid_config();
    let issues = validate(&config);
    assert!(!has_errors(&issues), "unexpected errors: {issues:?}");
}

#[test]
fn empty_accounts_warns() {
    let mut config = minimal_valid_config();
    config.accounts.clear();
    let issues = validate(&config);
    assert!(any_issue(&issues, |i| i.path == "accounts" && i.severity == Severity::Warning));
}

#[test]
fn duplicate_account_names() {
    let mut config = minimal_valid_config();
    let dup = config.accounts[0].clone();
    config.accounts.push(dup);
    let issues = validate(&config);
    assert!(has_errors(&issues));
    assert!(any_issue(&issues, |i| i.message.contains("duplicate")));
}

#[test]
fn empty_backend_url_is_error() {
    let mut config = minimal_valid_config();
    config.accounts[0].backend.url = String::new();
    let issues = validate(&config);
    assert!(has_errors(&issues));
    assert!(any_issue(&issues, |i| i.path.contains("url")));
}

#[test]
fn invalid_url_scheme() {
    let mut config = minimal_valid_config();
    config.accounts[0].backend.url = "ftp://localhost".into();
    let issues = validate(&config);
    assert!(has_errors(&issues));
    assert!(any_issue(&issues, |i| i.message.contains("scheme")));
}

#[test]
fn no_protocols_warns() {
    let mut config = minimal_valid_config();
    config.protocols = ProtocolsConfig::default();
    let issues = validate(&config);
    assert!(any_issue(&issues, |i| i.path == "protocols" && i.severity == Severity::Warning));
}

#[test]
fn zero_reconnect_interval_warns() {
    let mut config = minimal_valid_config();
    config.accounts[0].backend.reconnect_interval = 0;
    let issues = validate(&config);
    assert!(any_issue(&issues, |i| i.message.contains("reconnect_interval")));
}

// ---------------------------------------------------------------------------
// Further cases
// ---------------------------------------------------------------------------

#[test]
fn plugin_result_codes_are_fixed() {
    assert_eq!(PluginResult::Continue.to_i32(), 0);
    assert_eq!(PluginResult::Handled.to_i32(), 1);
    assert_eq!(PluginResult::Drop.to_i32(), 2);
    assert_eq!(PluginResult::Error("x".to_string()).to_i32(), -1);
    assert_eq!(
        PluginResult::from_i32(7),
        PluginResult::Error("unknown result code: 7".to_string())
    );
    assert_eq!(
        PluginResult::from_i32(-1),
        PluginResult::Error("unknown result code: -1".to_string())
    );
}

#[test]
fn raw_string_of_every_segment_kind() {
    let segments = vec![
        MessageSegment::Face { id: "14".to_string() },
        MessageSegment::Reply { id: "5".to_string() },
        MessageSegment::Image { file: "a.png".to_string(), url: None },
        MessageSegment::Record { file: "v.amr".to_string(), url: None },
        MessageSegment::Video { file: "m.mp4".to_string(), url: None },
        MessageSegment::Poke { poke_type: "1".to_string(), id: "2".to_string() },
        MessageSegment::Unknown,
    ];
    let raw = segments_to_raw_string(&segments);
    assert_eq!(
        raw,
        "[CQ:face,id=14][CQ:reply,id=5][CQ:image,file=a.png][CQ:unknown][CQ:unknown][CQ:unknown][CQ:unknown]"
    );
}

#[test]
fn validation_issue_text() {
    let issue = ValidationIssue {
        severity: Severity::Error,
        path: "server.port".to_string(),
        message: "port must not be 0".to_string(),
    };
    assert_eq!(issue.to_text(), "[ERROR] server.port: port must not be 0");
}

#[test]
fn zero_port_is_error() {
    let mut config = minimal_valid_config();
    config.server.port = 0;
    let issues = validate(&config);
    assert!(has_errors(&issues));
    assert!(any_issue(&issues, |i| i.path == "server.port"));
}

#[test]
fn unknown_backend_type_warns() {
    let mut config = minimal_valid_config();
    config.accounts[0].backend.backend_type = "weird".to_string();
    let issues = validate(&config);
    assert!(!has_errors(&issues));
    assert!(any_issue(&issues, |i| i.path == "accounts[0].backend.type"
        && i.severity == Severity::Warning
        && i.message == "unknown backend type \"weird\". Known types: lagrange, napcat, official, mock"));
}

#[test]
fn empty_account_name_is_error() {
    let mut config = minimal_valid_config();
    config.accounts[0].name = String::new();
    let issues = validate(&config);
    assert!(has_errors(&issues));
}

#[test]
fn warnings_alone_are_not_errors() {
    let mut config = minimal_valid_config();
    config.accounts.clear();
    let issues = validate(&config);
    assert!(!issues.is_empty());
    assert!(!has_errors(&issues));
}

#[test]
fn api_response_with_echo_keeps_echo() {
    let resp = ApiResponse::ok(JsonValue::Null).with_echo(Some(parse(r#""e1""#)));
    match resp.echo {
        Some(JsonValue::Str(s)) => assert_eq!(s, "e1"),
        _ => panic!("expected echo"),
    }
}
