use ferroq::adapter::{AdapterInfo, AdapterState};
use ferroq::api::ApiResponse;
use ferroq::config::{AccountConfig, BackendConfig};
use ferroq::dedup::DedupFilter;
use ferroq::error::GatewayError;
use ferroq::event::{Event, MetaEvent};
use ferroq::json::{JsonNumber, JsonValue};
use ferroq::json_text::to_json_text;
use ferroq::servers::{
    checked_snapshot, forward_step, initial_snapshot, read_signal_op, satori_answer_signal,
    satori_http_reply, satori_identify, satori_read_call, satori_ready, satori_self_id,
    satori_token_ok, v11_http_reply, v11_invalid_request, v11_ws_reply, v12_action_reply,
    v12_error_response, v12_named_action, v12_overloaded, v12_read_action, v12_token_ok,
    ForwardStep,
};
use ferroq::startup::{error_count, log_filter, plan_account, refusal_message, BackendKind};
use ferroq::time::timestamp_from_secs;
use ferroq::validation::{Severity, ValidationIssue};

fn jv(v: &serde_json::Value) -> JsonValue {
    match v {
        serde_json::Value::Null => JsonValue::Null,
        serde_json::Value::Bool(b) => JsonValue::Bool(*b),
        serde_json::Value::Number(n) => {
            if let Some(u) = n.as_u64() {
                JsonValue::Number(JsonNumber::PosInt(u))
            } else if let Some(i) = n.as_i64() {
                JsonValue::Number(JsonNumber::NegInt(i))
            } else {
                let f = n.as_f64().unwrap();
                JsonValue::Number(JsonNumber::Float { bits: f.to_bits(), text: n.to_string() })
            }
        }
        serde_json::Value::String(s) => JsonValue::Str(s.clone()),
        serde_json::Value::Array(a) => JsonValue::Array(a.iter().map(jv).collect()),
        serde_json::Value::Object(m) => {
            JsonValue::Object(m.iter().map(|(k, v)| (k.clone(), jv(v))).collect())
        }
    }
}

fn parse(text: &str) -> JsonValue {
    jv(&serde_json::from_str(text).unwrap())
}

fn meta(self_id: i64) -> Event {
    Event::Meta(MetaEvent {
        id: 0,
        time: timestamp_from_secs(1700000000).unwrap(),
        self_id,
        meta_event_type: "heartbeat".to_string(),
        sub_type: String::new(),
        extra: JsonValue::Object(Vec::new()),
    })
}

#[test]
fn v11_replies() {
    let ok = ApiResponse::ok(parse(r#"{"a": 1}"#));
    let r = v11_http_reply(Ok(ok));
    assert_eq!(r.status, "ok");
    let r = v11_http_reply(Err(GatewayError::Internal("no adapters registered".to_string())));
    assert_eq!(r.retcode, 1400);
    assert_eq!(r.message, "internal error: no adapters registered");
    let r = v11_ws_reply(Err(GatewayError::Connection("x".to_string())), Some(parse("7")));
    assert_eq!(r.retcode, 1400);
    assert_eq!(to_json_text(r.echo.as_ref().unwrap()), "7");
    let r = v11_ws_reply(Ok(ApiResponse::ok(JsonValue::Null).with_echo(Some(parse("1")))), None);
    assert!(r.echo.is_none());
    let r = v11_invalid_request("expected value at line 1 column 1");
    assert_eq!(r.message, "invalid request: expected value at line 1 column 1");
}

#[test]
fn v12_authentication() {
    assert!(v12_token_ok("", None, None));
    assert!(v12_token_ok("t", Some("Bearer t"), None));
    assert!(!v12_token_ok("t", Some("t"), None));
    assert!(v12_token_ok("t", Some("Bearer x"), Some("t")));
    assert!(!v12_token_ok("t", None, Some("x")));
}

#[test]
fn v12_error_reply_shape() {
    let r = v12_error_response(10001, "bad", Some(parse(r#""e""#)));
    assert_eq!(
        to_json_text(&r),
        r#"{"data":null,"echo":"e","message":"bad","retcode":10001,"status":"failed"}"#
    );
    let r = v12_overloaded(None);
    assert_eq!(
        to_json_text(&r),
        r#"{"data":null,"echo":null,"message":"too many in-flight WS API requests","retcode":20002,"status":"failed"}"#
    );
}

#[test]
fn v12_actions_read_and_answered() {
    let raw = parse(r#"{"action": "get_self_info", "params": {}, "echo": 3}"#);
    let (action, echo, req) = v12_read_action(raw).unwrap();
    assert_eq!(action, "get_self_info");
    assert_eq!(req.action, "get_login_info");
    assert_eq!(to_json_text(echo.as_ref().unwrap()), "3");
    let resp = ApiResponse::ok(parse(r#"{"user_id": 5, "nickname": "b"}"#));
    let reply = v12_action_reply(&action, Ok(resp), echo);
    let text = to_json_text(&reply);
    assert!(text.contains(r#""user_id":"5""#));
    let err = v12_read_action(parse(r#"{"echo": "z"}"#)).err().unwrap();
    assert_eq!(
        to_json_text(&err),
        r#"{"data":null,"echo":"z","message":"internal error: missing action field","retcode":10001,"status":"failed"}"#
    );
    let failed = v12_action_reply("x", Err(GatewayError::Internal("down".to_string())), None);
    assert!(to_json_text(&failed).contains(r#""retcode":20002"#));
    let named = v12_named_action("send_message", parse(r#"{"a": 1}"#));
    assert_eq!(to_json_text(&named), r#"{"action":"send_message","params":{"a":1}}"#);
}

#[test]
fn satori_http_flow() {
    assert!(satori_token_ok("", None));
    assert!(satori_token_ok("t", Some("Bearer t")));
    assert!(!satori_token_ok("t", Some("t")));
    assert_eq!(satori_self_id(Some("123")), Some(123));
    assert_eq!(satori_self_id(Some("abc")), None);
    assert_eq!(satori_self_id(None), None);
    let req = satori_read_call("login.get", None, Some(9)).unwrap();
    assert_eq!(req.action, "get_login_info");
    assert_eq!(req.self_id, Some(9));
    let (code, body) = satori_read_call("x.y", None, None).err().unwrap();
    assert_eq!(code, 404);
    assert_eq!(to_json_text(&body), r#"{"message":"internal error: unsupported Satori API: x.y"}"#);
    let (code, body) = satori_http_reply("login.get", Err(GatewayError::Internal("e".to_string())));
    assert_eq!(code, 500);
    assert_eq!(to_json_text(&body), r#"{"message":"internal error: e"}"#);
    let (code, _) = satori_http_reply("login.get", Ok(ApiResponse::ok(parse("{}"))));
    assert_eq!(code, 200);
}

#[test]
fn satori_ws_handshake() {
    let identify = parse(r#"{"op": 3, "body": {"token": "t", "sn": 12}}"#);
    assert_eq!(read_signal_op(&identify), 3);
    assert_eq!(satori_identify(&identify, "t"), (true, 12));
    assert_eq!(satori_identify(&identify, "u"), (false, 12));
    assert_eq!(satori_identify(&parse(r#"{"op": 3}"#), ""), (true, 0));
    assert_eq!(read_signal_op(&parse(r#"{"op": "x"}"#)), 255);
    assert_eq!(to_json_text(&satori_ready()), r#"{"body":{"logins":[],"proxy_urls":[]},"op":4}"#);
    let pong = satori_answer_signal(&parse(r#"{"op": 1}"#)).unwrap();
    assert_eq!(to_json_text(&pong), r#"{"op":2}"#);
    assert!(satori_answer_signal(&parse(r#"{"op": 5}"#)).is_none());
}

#[test]
fn forwarder_drops_duplicates_and_counts() {
    let mut dedup = Some(DedupFilter::new(60));
    let ev = meta(1);
    assert!(matches!(forward_step(&mut dedup, &ev, 998), ForwardStep::Publish { count: 999, progress: false }));
    assert!(matches!(forward_step(&mut dedup, &ev, 999), ForwardStep::Drop));
    let mut none: Option<DedupFilter> = None;
    assert!(matches!(forward_step(&mut none, &ev, 999), ForwardStep::Publish { count: 1000, progress: true }));
    assert!(matches!(forward_step(&mut none, &ev, u64::MAX), ForwardStep::Publish { count: 0, progress: true }));
}

#[test]
fn snapshots_of_adapters() {
    let info = AdapterInfo {
        name: "a".to_string(),
        backend_type: "lagrange".to_string(),
        url: "ws://a".to_string(),
        state: AdapterState::Connected,
        self_id: Some(3),
    };
    let s = initial_snapshot(info.clone());
    assert!(s.healthy);
    assert_eq!(s.health_check_ms, None);
    let s = checked_snapshot(info, false, 12, 1700000000);
    assert!(!s.healthy);
    assert_eq!(s.health_check_ms, Some(12));
    assert_eq!(s.last_health_check, Some(1700000000));
}

#[test]
fn startup_decisions() {
    assert_eq!(
        log_filter("debug"),
        "ferroq=debug,ferroq_core=debug,ferroq_gateway=debug,ferroq_web=debug"
    );
    let issues = vec![
        ValidationIssue { severity: Severity::Error, path: "a".into(), message: "m".into() },
        ValidationIssue { severity: Severity::Warning, path: "b".into(), message: "m".into() },
        ValidationIssue { severity: Severity::Error, path: "c".into(), message: "m".into() },
    ];
    assert_eq!(error_count(&issues), 2);
    assert_eq!(refusal_message(2), "configuration has 2 error(s) \u{2014} fix them and restart");
    let mut account = AccountConfig {
        name: "main".to_string(),
        backend: BackendConfig::new("napcat", "ws://x"),
        fallback: Some(BackendConfig::new("official", "http://y")),
    };
    let plan = plan_account(&account).unwrap();
    assert_eq!(plan.primary, BackendKind::WebSocket);
    assert_eq!(plan.fallback, Some(("main-fallback".to_string(), BackendKind::Official)));
    account.fallback = Some(BackendConfig::new("mock", "ws://z"));
    assert_eq!(plan_account(&account).unwrap().fallback, None);
    account.backend = BackendConfig::new("mock", "ws://z");
    assert!(plan_account(&account).is_none());
}
