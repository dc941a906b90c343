use ferroq::adapter::{AdapterInfo, AdapterState};
use ferroq::api::{ApiRequest, ApiResponse};
use ferroq::auth::check_token;
use ferroq::dedup::DedupFilter;
use ferroq::error::GatewayError;
use ferroq::event::{Event, MessageEvent, MessageType, MetaEvent, NoticeEvent, Sender};
use ferroq::failover::{
    after_primary, combine_connect, combine_disconnect, combined_info, health_after_primary, FailoverStep,
};
use ferroq::json::{JsonNumber, JsonValue};
use ferroq::lagrange::{
    auth_header, classify_frame, learn_self_id, next_echo, read_api_reply, reconnect_step, timeout_error, FrameKind,
    LinkAction, LinkEvent,
};
use ferroq::message::MessageSegment;
use ferroq::official::{
    build_action_url, candidate_modes, maybe_update_self_id_from_response, parse_api_response,
    probe_self_id, truncate_body, ApiPathMode,
};
use ferroq::plugin_engine::PluginEngine;
use ferroq::router::ApiRouter;
use ferroq::shared_config::SharedConfig;
use ferroq::time::timestamp_from_secs;
use ferroq::tuning::{parse_env_usize, ws_api_max_in_flight, ws_outbound_queue_capacity};

fn jv(v: &serde_json::Value) -> JsonValue {
    match v {
        serde_json::Value::Null => JsonValue::Null,
        serde_json::Value::Bool(b) => JsonValue::Bool(*b),
        serde_json::Value::Number(n) => {
            if let Some(u) = n.as_u64() {
                JsonValue::Number(JsonNumber::PosInt(u))
            } else if let Some(i) = n.as_i64() {
                JsonValue::Number(JsonNumber::NegInt(i))
            } else {
                let f = n.as_f64().unwrap();
                JsonValue::Number(JsonNumber::Float { bits: f.to_bits(), text: n.to_string() })
            }
        }
        serde_json::Value::String(s) => JsonValue::Str(s.clone()),
        serde_json::Value::Array(a) => JsonValue::Array(a.iter().map(jv).collect()),
        serde_json::Value::Object(m) => {
            JsonValue::Object(m.iter().map(|(k, v)| (k.clone(), jv(v))).collect())
        }
    }
}

fn sj(v: &JsonValue) -> serde_json::Value {
    match v {
        JsonValue::Null => serde_json::Value::Null,
        JsonValue::Bool(b) => serde_json::Value::Bool(*b),
        JsonValue::Number(JsonNumber::PosInt(u)) => serde_json::Value::from(*u),
        JsonValue::Number(JsonNumber::NegInt(i)) => serde_json::Value::from(*i),
        JsonValue::Number(JsonNumber::Float { bits, .. }) => {
            serde_json::Value::from(f64::from_bits(*bits))
        }
        JsonValue::Str(s) => serde_json::Value::String(s.clone()),
        JsonValue::Array(a) => serde_json::Value::Array(a.iter().map(sj).collect()),
        JsonValue::Object(es) => {
            serde_json::Value::Object(es.iter().map(|(k, v)| (k.clone(), sj(v))).collect())
        }
    }
}

fn parse(text: &str) -> JsonValue {
    jv(&serde_json::from_str(text).unwrap())
}

fn make_message_event(self_id: i64, message_id: i64) -> Event {
    Event::Message(Box::new(MessageEvent {
        id: 0,
        time: timestamp_from_secs(1700000000).unwrap(),
        self_id,
        message_type: MessageType::Group,
        sub_type: "normal".to_string(),
        message_id,
        user_id: 999,
        group_id: Some(100),
        message: vec![MessageSegment::Text { text: "hello".to_string() }],
        raw_message: "hello".to_string(),
        sender: Sender {
            user_id: 999,
            nickname: "test".to_string(),
            card: None,
            sex: None,
            age: None,
            area: None,
            level: None,
            role: None,
            title: None,
        },
        font: 0,
    }))
}

fn make_meta_event(self_id: i64, meta_type: &str) -> Event {
    Event::Meta(MetaEvent {
        id: 0,
        time: timestamp_from_secs(1700000000).unwrap(),
        self_id,
        meta_event_type: meta_type.to_string(),
        sub_type: String::new(),
        extra: parse(r#"{"status": {"online": true}}"#),
    })
}

fn make_notice_event(self_id: i64, notice_type: &str) -> Event {
    Event::Notice(NoticeEvent {
        id: 0,
        time: timestamp_from_secs(1700000000).unwrap(),
        self_id,
        notice_type: notice_type.to_string(),
        sub_type: "".to_string(),
        extra: parse(r#"{"user_id": 12345}"#),
    })
}

fn request(self_id: Option<i64>) -> ApiRequest {
    ApiRequest { action: "test".into(), params: JsonValue::Null, echo: None, self_id }
}

fn info(name: &str, backend_type: &str, state: AdapterState, self_id: Option<i64>) -> AdapterInfo {
    AdapterInfo {
        name: name.to_string(),
        backend_type: backend_type.to_string(),
        url: format!("ws://{name}"),
        state,
        self_id,
    }
}

// ---------------------------------------------------------------------------
// Deduplication
// ---------------------------------------------------------------------------

#[test]
fn identical_message_is_duplicate() {
    let mut filter = DedupFilter::new(60);
    let ev1 = make_message_event(100, 1001);
    let ev2 = make_message_event(100, 1001);
    assert!(!filter.is_duplicate(&ev1), "first event should pass");
    assert!(filter.is_duplicate(&ev2), "same message_id should be duplicate");
    assert_eq!(filter.duplicates_total(), 1);
    assert_eq!(filter.checked_total(), 2);
}

#[test]
fn different_messages_are_not_duplicates() {
    let mut filter = DedupFilter::new(60);
    let ev1 = make_message_event(100, 1001);
    let ev2 = make_message_event(100, 1002);
    assert!(!filter.is_duplicate(&ev1));
    assert!(!filter.is_duplicate(&ev2));
    assert_eq!(filter.duplicates_total(), 0);
}

#[test]
fn different_self_id_not_duplicate() {
    let mut filter = DedupFilter::new(60);
    let ev1 = make_message_event(100, 1001);
    let ev2 = make_message_event(200, 1001);
    assert!(!filter.is_duplicate(&ev1));
    assert!(!filter.is_duplicate(&ev2));
    assert_eq!(filter.duplicates_total(), 0);
}

#[test]
fn meta_event_dedup() {
    let mut filter = DedupFilter::new(60);
    let ev1 = make_meta_event(100, "heartbeat");
    let ev2 = make_meta_event(100, "heartbeat");
    assert!(!filter.is_duplicate(&ev1));
    assert!(filter.is_duplicate(&ev2));
}

#[test]
fn meta_event_dedup_keys_on_type_and_second() {
    let mut filter = DedupFilter::new(60);
    let ev1 = make_meta_event(100, "heartbeat");
    let ev2 = Event::Meta(MetaEvent {
        id: 1,
        time: timestamp_from_secs(1700000000).unwrap(),
        self_id: 100,
        meta_event_type: "heartbeat".to_string(),
        sub_type: "other".to_string(),
        extra: parse(r#"{"status": {"online": false}, "interval": 5000}"#),
    });
    let ev3 = make_meta_event(100, "lifecycle");
    let ev4 = make_meta_event(101, "heartbeat");
    assert!(!filter.is_duplicate(&ev1));
    assert!(filter.is_duplicate(&ev2));
    assert!(!filter.is_duplicate(&ev3));
    assert!(!filter.is_duplicate(&ev4));
    assert_eq!(filter.duplicates_total(), 1);
    assert_eq!(filter.checked_total(), 4);
}

#[test]
fn notice_event_dedup() {
    let mut filter = DedupFilter::new(60);
    let ev1 = make_notice_event(100, "group_increase");
    let ev2 = make_notice_event(100, "group_increase");
    assert!(!filter.is_duplicate(&ev1));
    assert!(filter.is_duplicate(&ev2));
}

#[test]
fn expired_fingerprint_allows_new_event() {
    let mut filter = DedupFilter::new(0);
    let ev1 = make_message_event(100, 1001);
    let ev2 = make_message_event(100, 1001);
    assert!(!filter.is_duplicate(&ev1));
    let _ = filter.is_duplicate(&ev2);
}

#[test]
fn counters_track_correctly() {
    let mut filter = DedupFilter::new(60);
    let ev = make_message_event(100, 42);
    assert!(!filter.is_duplicate(&ev));
    assert!(filter.is_duplicate(&ev));
    assert!(filter.is_duplicate(&ev));
    assert_eq!(filter.checked_total(), 3);
    assert_eq!(filter.duplicates_total(), 2);
}

#[test]
fn window_decides_with_explicit_clock() {
    let mut filter = DedupFilter::new(10);
    let ev = make_message_event(1, 1);
    assert!(!filter.is_duplicate_at(&ev, 1_000_000_000));
    assert!(filter.is_duplicate_at(&ev, 5_000_000_000));
    // Eleven seconds after the first sighting the fingerprint has expired.
    assert!(!filter.is_duplicate_at(&ev, 12_000_000_000));
    assert_eq!(filter.checked_total(), 3);
    assert_eq!(filter.duplicates_total(), 1);
}

// ---------------------------------------------------------------------------
// Shared configuration and authentication
// ---------------------------------------------------------------------------

#[test]
fn get_and_set_access_token() {
    let mut cfg = SharedConfig::new("initial".into());
    assert_eq!(cfg.access_token(), "initial");
    cfg.set_access_token("updated".into());
    assert_eq!(cfg.access_token(), "updated");
}

#[test]
fn empty_token_means_no_auth() {
    let cfg = SharedConfig::new(String::new());
    assert!(cfg.access_token().is_empty());
}

#[test]
fn no_token_configured_allows_all() {
    assert!(check_token("", None, None));
}

#[test]
fn valid_bearer_header() {
    assert!(check_token("secret123", Some("Bearer secret123"), None));
}

#[test]
fn valid_query_param() {
    assert!(check_token("secret123", None, Some("access_token=secret123")));
}

#[test]
fn invalid_token_rejected() {
    assert!(!check_token("secret123", Some("Bearer wrong"), None));
}

#[test]
fn missing_token_rejected() {
    assert!(!check_token("secret123", None, None));
}

#[test]
fn plain_header_token_accepted() {
    assert!(check_token("mytoken", Some("mytoken"), None));
}

#[test]
fn query_token_among_other_pairs() {
    assert!(check_token("t", None, Some("a=1&access_token=t&b=2")));
    assert!(!check_token("t", None, Some("a=1&access_token=u")));
    assert!(!check_token("t", None, Some("token=t")));
}

// ---------------------------------------------------------------------------
// Routing
// ---------------------------------------------------------------------------

#[test]
fn associate_self_id_routes_correctly() {
    let mut router: ApiRouter<&str> = ApiRouter::new();
    router.register("bot-a", None);
    router.register("bot-b", None);
    assert_eq!(*router.route(&request(None)).unwrap(), "bot-a");
    router.associate_self_id(99, 1);
    assert_eq!(*router.route(&request(Some(99))).unwrap(), "bot-b");
}

#[test]
fn register_with_known_self_id() {
    let mut router: ApiRouter<&str> = ApiRouter::new();
    router.register("known-bot", Some(42));
    assert_eq!(*router.route(&request(Some(42))).unwrap(), "known-bot");
}

#[test]
fn unknown_self_id_uses_default() {
    let mut router: ApiRouter<&str> = ApiRouter::new();
    router.register("a", Some(1));
    router.register("b", Some(2));
    assert_eq!(*router.route(&request(Some(3))).unwrap(), "a");
    assert_eq!(*router.route(&request(Some(2))).unwrap(), "b");
}

#[test]
fn adapters_keep_their_registration_order() {
    let mut router: ApiRouter<&str> = ApiRouter::new();
    router.register("first", None);
    router.register("second", None);
    router.register("third", None);
    router.associate_self_id(7, 2);
    router.associate_self_id(8, 1);
    assert_eq!(*router.route(&request(None)).unwrap(), "first");
    assert_eq!(*router.route(&request(Some(7))).unwrap(), "third");
    assert_eq!(*router.route(&request(Some(8))).unwrap(), "second");
    router.associate_self_id(7, 0);
    assert_eq!(*router.route(&request(Some(7))).unwrap(), "first");
}

#[test]
fn empty_router_has_no_default() {
    let router: ApiRouter<&str> = ApiRouter::new();
    let err = router.route(&request(None)).unwrap_err();
    assert_eq!(err.to_text(), "internal error: no adapters registered");
}

// ---------------------------------------------------------------------------
// Failover
// ---------------------------------------------------------------------------

#[test]
fn failover_routes_to_primary_when_healthy() {
    let resp = ApiResponse::ok(parse(r#"{"adapter": "primary"}"#));
    match after_primary(Ok(resp)) {
        FailoverStep::Done(Ok(r)) => assert_eq!(sj(&r.data)["adapter"], "primary"),
        _ => panic!("expected the primary's answer"),
    }
}

#[test]
fn failover_health_asks_fallback_only_when_primary_is_down() {
    assert_eq!(health_after_primary(true), Some(true));
    assert_eq!(health_after_primary(false), None);
}

#[test]
fn failover_falls_back_on_connection_error() {
    let step = after_primary(Err(GatewayError::Connection("connection lost".to_string())));
    assert!(matches!(step, FailoverStep::TryFallback));
    let step = after_primary(Err(GatewayError::WebSocket("closed".to_string())));
    assert!(matches!(step, FailoverStep::TryFallback));
}

#[test]
fn failover_does_not_fall_back_on_logic_error() {
    let resp = ApiResponse {
        status: "failed".into(),
        retcode: 100,
        data: JsonValue::Null,
        message: "action not supported".into(),
        echo: None,
    };
    match after_primary(Ok(resp)) {
        FailoverStep::Done(Ok(r)) => {
            assert_eq!(r.status, "failed");
            assert_eq!(r.retcode, 100);
        }
        _ => panic!("expected the primary's answer"),
    }
    let err = GatewayError::BackendApi {
        action: "x".to_string(),
        retcode: 1,
        message: "m".to_string(),
    };
    assert!(matches!(after_primary(Err(err)), FailoverStep::Done(Err(_))));
}

#[test]
fn failover_connect_succeeds_if_either_connects() {
    let e = || GatewayError::Connection("down".to_string());
    assert!(combine_connect(Ok(()), Err(e())).is_ok());
    assert!(combine_connect(Err(e()), Ok(())).is_ok());
    let both = combine_connect(Err(e()), Err(GatewayError::Http("h".to_string())));
    assert_eq!(both.unwrap_err().to_text(), "backend connection error: down");
}

#[test]
fn failover_disconnect() {
    assert!(combine_disconnect(Ok(()), Ok(())).is_ok());
    let r = combine_disconnect(Ok(()), Err(GatewayError::Internal("f".to_string())));
    assert_eq!(r.unwrap_err().to_text(), "internal error: f");
}

#[test]
fn failover_info_shows_combined_type() {
    let p = info("primary", "lagrange", AdapterState::Disconnected, None);
    let f = info("fallback", "napcat", AdapterState::Connected, Some(7));
    let i = combined_info("main", &p, &f);
    assert_eq!(i.name, "main");
    assert_eq!(i.backend_type, "lagrange+napcat");
    assert_eq!(i.url, "ws://primary");
    assert_eq!(i.state, AdapterState::Connected);
    assert_eq!(i.self_id, Some(7));
}

// ---------------------------------------------------------------------------
// Official HTTP backend
// ---------------------------------------------------------------------------

#[test]
fn candidate_modes_order() {
    let modes = candidate_modes(None, "http://h/{action}");
    assert_eq!(
        modes,
        vec![
            ApiPathMode::Template,
            ApiPathMode::ApiPrefixed,
            ApiPathMode::DirectAction,
            ApiPathMode::LegacyBody
        ]
    );
    let modes = candidate_modes(Some(ApiPathMode::LegacyBody), "http://h");
    assert_eq!(
        modes,
        vec![ApiPathMode::LegacyBody, ApiPathMode::ApiPrefixed, ApiPathMode::DirectAction]
    );
}

#[test]
fn action_urls() {
    assert_eq!(build_action_url("http://h/", "send", ApiPathMode::ApiPrefixed), "http://h/api/send");
    assert_eq!(build_action_url("http://h/api/", "send", ApiPathMode::ApiPrefixed), "http://h/api/send");
    assert_eq!(build_action_url("http://h//", "send", ApiPathMode::DirectAction), "http://h/send");
    assert_eq!(build_action_url("http://h/", "send", ApiPathMode::LegacyBody), "http://h");
    assert_eq!(
        build_action_url("http://h/x/{action}?k={action}", "go", ApiPathMode::Template),
        "http://h/x/go?k=go"
    );
}

#[test]
fn body_truncation() {
    assert_eq!(truncate_body("abcdef", 3), "abc...");
    assert_eq!(truncate_body("abc", 3), "abc");
}

#[test]
fn official_response_variants() {

    let r = parse_api_response("a", 200, "  ", None, Err("x".to_string()), Some(parse(r#""e""#))).unwrap();
    assert_eq!(r.status, "ok");
    assert_eq!(r.retcode, 0);
    let body = r#"{"retcode": 3, "data": {"k": 1}}"#;
    let r = parse_api_response("a", 200, body, None, Ok(parse(body)), Some(parse(r#""e""#))).unwrap();
    assert_eq!(r.status, "ok");
    assert_eq!(r.retcode, 3);
    assert_eq!(sj(&r.data)["k"], 1);
    let r = parse_api_response("a", 200, "oops", None, Err("bad".to_string()), None);
    assert_eq!(r.unwrap_err().to_text(), "http error: invalid JSON response for a: bad");
    let r = parse_api_response("a", 404, "nope", None, Err("bad".to_string()), None);
    assert_eq!(
        r.unwrap_err().to_text(),
        "http error: official API call failed: action=a, status=404 Not Found, body=nope"
    );
}

#[test]
fn self_id_learned_from_login_info() {
    let resp = ApiResponse::ok(parse(r#"{"user_id": 5, "nickname": "b"}"#));
    assert_eq!(maybe_update_self_id_from_response("get_login_info", &resp, None), Some(5));
    assert_eq!(maybe_update_self_id_from_response("send_msg", &resp, Some(1)), Some(1));
    assert_eq!(probe_self_id(&resp), Some(5));
    let failed = ApiResponse::fail(1, "x".to_string());
    assert_eq!(probe_self_id(&failed), None);
}

// ---------------------------------------------------------------------------
// Lagrange / NapCat WebSocket backend
// ---------------------------------------------------------------------------

#[test]
fn frames_are_classified() {
    assert_eq!(classify_frame(&parse(r#"{"status": "ok", "echo": "1"}"#)), FrameKind::ApiResponse);
    assert_eq!(classify_frame(&parse(r#"{"post_type": "message"}"#)), FrameKind::Event);
    assert_eq!(classify_frame(&parse(r#"{"x": 1}"#)), FrameKind::Unknown);
}

#[test]
fn api_reply_read() {
    let (key, resp) = read_api_reply(&parse(r#"{"status": "ok", "retcode": 0, "echo": 17, "data": null}"#)).unwrap();
    assert_eq!(key, "17");
    assert_eq!(resp.status, "ok");
    let (key, resp) = read_api_reply(&parse(r#"{"echo": "abc"}"#)).unwrap();
    assert_eq!(key, "abc");
    assert_eq!(resp.status, "unknown");
    assert_eq!(resp.retcode, -1);
    assert!(read_api_reply(&parse(r#"{"echo": [1]}"#)).is_none());
}

#[test]
fn lagrange_helpers() {
    assert_eq!(learn_self_id(None, 5), Some(5));
    assert_eq!(learn_self_id(Some(3), 5), Some(3));
    assert_eq!(next_echo(41), ("41".to_string(), 42));
    assert_eq!(next_echo(u64::MAX), (u64::MAX.to_string(), 0));
    assert_eq!(auth_header("tok"), Some("Bearer tok".to_string()));
    assert_eq!(auth_header(""), None);
    assert_eq!(timeout_error("send").to_text(), "backend connection error: API call 'send' timed out after 30s");
}

// ---------------------------------------------------------------------------
// Tuning
// ---------------------------------------------------------------------------

#[test]
fn tuning_values() {
    assert_eq!(ws_outbound_queue_capacity(None), 1024);
    assert_eq!(ws_outbound_queue_capacity(Some("10")), 64);
    assert_eq!(ws_outbound_queue_capacity(Some("100000")), 65536);
    assert_eq!(ws_outbound_queue_capacity(Some("2048")), 2048);
    assert_eq!(ws_outbound_queue_capacity(Some("abc")), 1024);
    assert_eq!(ws_api_max_in_flight(None), 64);
    assert_eq!(ws_api_max_in_flight(Some("0")), 1);
    assert_eq!(parse_env_usize(Some("+7"), 1, 0, 10), 7);
    assert_eq!(parse_env_usize(Some(" 7"), 1, 0, 10), 1);
}

// ---------------------------------------------------------------------------
// Plugins
// ---------------------------------------------------------------------------

#[test]
fn plugin_engine_creates() {
    let engine = PluginEngine::new();
    assert!(engine.is_ok());
}

#[test]
fn plugin_engine_list_empty() {
    let engine = PluginEngine::new().unwrap();
    let plugins = engine.list_plugins();
    assert!(plugins.is_empty());
}

#[test]
fn lost_link_is_retried_until_it_connects() {
    let (s, a) = reconnect_step(AdapterState::Connected, LinkEvent::Lost, 5);
    assert_eq!((s, a), (AdapterState::Reconnecting, LinkAction::Wait(5)));
    let (s, a) = reconnect_step(s, LinkEvent::Tick, 5);
    assert_eq!((s, a), (AdapterState::Reconnecting, LinkAction::Connect));
    let (s, a) = reconnect_step(s, LinkEvent::ConnectFailed, 5);
    assert_eq!((s, a), (AdapterState::Reconnecting, LinkAction::Wait(5)));
    let (s, a) = reconnect_step(s, LinkEvent::Tick, 5);
    assert_eq!(a, LinkAction::Connect);
    let (s, a) = reconnect_step(s, LinkEvent::ConnectOk, 5);
    assert_eq!((s, a), (AdapterState::Connected, LinkAction::Install));
}

#[test]
fn disconnected_adapter_is_not_reconnected() {
    assert_eq!(
        reconnect_step(AdapterState::Disconnected, LinkEvent::Lost, 5),
        (AdapterState::Disconnected, LinkAction::Idle)
    );
    assert_eq!(
        reconnect_step(AdapterState::Disconnected, LinkEvent::Tick, 5),
        (AdapterState::Disconnected, LinkAction::Idle)
    );
    assert_eq!(
        reconnect_step(AdapterState::Connected, LinkEvent::Tick, 5),
        (AdapterState::Connected, LinkAction::Idle)
    );
}
