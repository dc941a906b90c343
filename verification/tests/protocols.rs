use ferroq::api::ApiResponse;
use ferroq::event::{Event, MessageEvent, MessageType, MetaEvent, NoticeEvent, Sender};
use ferroq::json::{JsonNumber, JsonValue};
use ferroq::json_text::to_json_text;
use ferroq::message::MessageSegment;
use ferroq::onebot_v11::{event_to_json, parse_event, parse_event_with};
use ferroq::onebot_v12::{
    event_to_json as event_to_v12_json, parse_v12_action, segments_to_v12, translate_v12_action,
};
use ferroq::satori::{event_to_satori, event_to_signal, parse_satori_api, translate_response};
use ferroq::satori_elements::{
    escape_attr, escape_satori_text, parse_satori_elements, segments_to_satori_elements,
    unescape_attr, unescape_satori_text,
};
use ferroq::time::timestamp_from_secs;

fn jv(v: &serde_json::Value) -> JsonValue {
    match v {
        serde_json::Value::Null => JsonValue::Null,
        serde_json::Value::Bool(b) => JsonValue::Bool(*b),
        serde_json::Value::Number(n) => {
            if let Some(u) = n.as_u64() {
                JsonValue::Number(JsonNumber::PosInt(u))
            } else if let Some(i) = n.as_i64() {
                JsonValue::Number(JsonNumber::NegInt(i))
            } else {
                let f = n.as_f64().unwrap();
                JsonValue::Number(JsonNumber::Float { bits: f.to_bits(), text: n.to_string() })
            }
        }
        serde_json::Value::String(s) => JsonValue::Str(s.clone()),
        serde_json::Value::Array(a) => JsonValue::Array(a.iter().map(jv).collect()),
        serde_json::Value::Object(m) => {
            JsonValue::Object(m.iter().map(|(k, v)| (k.clone(), jv(v))).collect())
        }
    }
}

fn sj(v: &JsonValue) -> serde_json::Value {
    match v {
        JsonValue::Null => serde_json::Value::Null,
        JsonValue::Bool(b) => serde_json::Value::Bool(*b),
        JsonValue::Number(JsonNumber::PosInt(u)) => serde_json::Value::from(*u),
        JsonValue::Number(JsonNumber::NegInt(i)) => serde_json::Value::from(*i),
        JsonValue::Number(JsonNumber::Float { bits, .. }) => {
            serde_json::Value::from(f64::from_bits(*bits))
        }
        JsonValue::Str(s) => serde_json::Value::String(s.clone()),
        JsonValue::Array(a) => serde_json::Value::Array(a.iter().map(sj).collect()),
        JsonValue::Object(es) => {
            serde_json::Value::Object(es.iter().map(|(k, v)| (k.clone(), sj(v))).collect())
        }
    }
}

fn parse(text: &str) -> JsonValue {
    jv(&serde_json::from_str(text).unwrap())
}

fn sender(user_id: i64, nickname: &str, card: Option<&str>) -> Sender {
    Sender {
        user_id,
        nickname: nickname.to_string(),
        card: card.map(|c| c.to_string()),
        sex: None,
        age: None,
        area: None,
        level: None,
        role: None,
        title: None,
    }
}

fn group_message(self_id: i64, message_id: i64, message: Vec<MessageSegment>, raw: &str) -> Event {
    Event::Message(Box::new(MessageEvent {
        id: 0,
        time: timestamp_from_secs(1700000000).unwrap(),
        self_id,
        message_type: MessageType::Group,
        sub_type: "normal".to_string(),
        message_id,
        user_id: 789,
        group_id: Some(111),
        message,
        raw_message: raw.to_string(),
        sender: sender(789, "test", None),
        font: 0,
    }))
}

fn sample_message_event() -> Event {
    Event::Message(Box::new(MessageEvent {
        id: 0,
        time: timestamp_from_secs(1700000000).unwrap(),
        self_id: 123456,
        message_type: MessageType::Group,
        sub_type: "normal".to_string(),
        message_id: 99,
        user_id: 789,
        group_id: Some(111),
        message: vec![
            MessageSegment::Text { text: "hello ".to_string() },
            MessageSegment::At { qq: "456".to_string() },
        ],
        raw_message: "hello [CQ:at,qq=456]".to_string(),
        sender: sender(789, "TestUser", Some("CardName")),
        font: 0,
    }))
}

// ---------------------------------------------------------------------------
// OneBot v11
// ---------------------------------------------------------------------------

#[test]
fn parse_group_message() {
    let raw = parse(
        r#"{
            "post_type": "message",
            "message_type": "group",
            "sub_type": "normal",
            "time": 1700000000,
            "self_id": 123456,
            "message_id": 99,
            "user_id": 789,
            "group_id": 111,
            "raw_message": "hello",
            "font": 0,
            "message": [
                {"type": "text", "data": {"text": "hello"}}
            ],
            "sender": {
                "user_id": 789,
                "nickname": "test",
                "card": "test card",
                "role": "member"
            }
        }"#,
    );
    let event = parse_event(raw).expect("should parse");
    assert_eq!(event.self_id(), 123456);
    if let Event::Message(msg) = event {
        assert_eq!(msg.message_type, MessageType::Group);
        assert_eq!(msg.group_id, Some(111));
        assert_eq!(msg.message.len(), 1);
        assert_eq!(msg.sender.nickname, "test");
    } else {
        panic!("expected Message event");
    }
}

#[test]
fn parse_meta_heartbeat() {
    let raw = parse(
        r#"{
            "post_type": "meta_event",
            "meta_event_type": "heartbeat",
            "time": 1700000000,
            "self_id": 123456,
            "status": {"online": true},
            "interval": 5000
        }"#,
    );
    let event = parse_event(raw).expect("should parse");
    if let Event::Meta(meta) = event {
        assert_eq!(meta.meta_event_type, "heartbeat");
    } else {
        panic!("expected Meta event");
    }
}

#[test]
fn parse_notice_event() {
    let raw = parse(
        r#"{
            "post_type": "notice",
            "notice_type": "group_increase",
            "sub_type": "approve",
            "time": 1700000000,
            "self_id": 123456,
            "group_id": 111,
            "user_id": 789,
            "operator_id": 456
        }"#,
    );
    let event = parse_event(raw).expect("should parse");
    assert!(matches!(event, Event::Notice(_)));
}

#[test]
fn notice_post_round_trips_member_for_member() {
    let text = r#"{"group_id":111,"notice_type":"group_increase","operator_id":456,"post_type":"notice","self_id":123456,"sub_type":"approve","time":1700000000,"user_id":789}"#;
    let event = parse_event(parse(text)).expect("should parse");
    assert_eq!(to_json_text(&event_to_json(&event)), text);
    let meta = r#"{"interval":5000,"meta_event_type":"heartbeat","post_type":"meta_event","self_id":1,"time":1}"#;
    let event = parse_event(parse(meta)).expect("should parse");
    assert_eq!(to_json_text(&event_to_json(&event)), meta);
}

#[test]
fn event_roundtrip() {
    let raw = parse(
        r#"{
            "post_type": "message",
            "message_type": "private",
            "sub_type": "friend",
            "time": 1700000000,
            "self_id": 100,
            "message_id": 1,
            "user_id": 200,
            "raw_message": "hi",
            "font": 0,
            "message": [{"type": "text", "data": {"text": "hi"}}],
            "sender": {"user_id": 200, "nickname": "u"}
        }"#,
    );
    let event = parse_event(raw).expect("parse");
    let json = sj(&event_to_json(&event));
    assert_eq!(json["post_type"], "message");
    assert_eq!(json["self_id"], 100);
}

#[test]
fn parse_multiple_segments() {
    let raw = parse(
        r#"{
            "post_type": "message",
            "message_type": "group",
            "sub_type": "normal",
            "time": 1700000000,
            "self_id": 100,
            "message_id": 1,
            "user_id": 200,
            "group_id": 300,
            "raw_message": "[CQ:at,qq=123] hello",
            "font": 0,
            "message": [
                {"type": "at", "data": {"qq": "123"}},
                {"type": "text", "data": {"text": " hello"}},
                {"type": "image", "data": {"file": "abc.jpg", "url": "https://example.com/abc.jpg"}}
            ],
            "sender": {"user_id": 200, "nickname": "test"}
        }"#,
    );
    let event = parse_event(raw).unwrap();
    if let Event::Message(msg) = event {
        assert_eq!(msg.message.len(), 3);
        assert!(matches!(&msg.message[0], MessageSegment::At { qq } if qq == "123"));
        assert!(matches!(&msg.message[1], MessageSegment::Text { text } if text == " hello"));
        assert!(
            matches!(&msg.message[2], MessageSegment::Image { file, url } if file == "abc.jpg" && url.is_some())
        );
    } else {
        panic!("expected Message event");
    }
}

#[test]
fn parse_event_rejects_missing_post_type() {
    let raw = parse(r#"{"time": 1700000000, "self_id": 1}"#);
    let err = parse_event(raw).unwrap_err();
    assert_eq!(err.to_text(), "internal error: missing post_type");
}

#[test]
fn parse_event_rejects_unknown_post_type() {
    let raw = parse(r#"{"post_type": "weird", "self_id": 1}"#);
    let err = parse_event(raw).unwrap_err();
    assert_eq!(err.to_text(), "internal error: unknown post_type: weird");
}

#[test]
fn parse_event_with_uses_clock_only_without_time() {
    let now = timestamp_from_secs(42).unwrap();
    let raw = parse(r#"{"post_type": "notice", "notice_type": "poke", "self_id": 7}"#);
    let event = parse_event_with(raw, 5, now).unwrap();
    assert_eq!(event.time().timestamp(), 42);
    let raw = parse(r#"{"post_type": "notice", "notice_type": "poke", "self_id": 7, "time": 1000}"#);
    let event = parse_event_with(raw, 5, now).unwrap();
    assert_eq!(event.time().timestamp(), 1000);
}

#[test]
fn far_future_time_is_kept() {
    let raw = parse(r#"{"post_type": "meta_event", "meta_event_type": "heartbeat", "self_id": 1, "time": 8100000000000}"#);
    let event = parse_event(raw).unwrap();
    assert_eq!(event.time().timestamp(), 8_100_000_000_000);
    assert_eq!(sj(&event_to_json(&event))["time"], 8_100_000_000_000i64);
}

#[test]
fn event_to_json_restores_v11_fields() {
    let event = sample_message_event();
    let json = sj(&event_to_json(&event));
    assert_eq!(json["post_type"], "message");
    assert_eq!(json["message_type"], "group");
    assert_eq!(json["group_id"], 111);
    assert_eq!(json["message_id"], 99);
    assert_eq!(json["time"], 1700000000);
    assert_eq!(json["sender"]["card"], "CardName");
    assert_eq!(json["message"][1]["type"], "at");
    assert_eq!(json["message"][1]["data"]["qq"], "456");
}

// ---------------------------------------------------------------------------
// OneBot v12
// ---------------------------------------------------------------------------

#[test]
fn event_to_v12_message() {
    let event = group_message(
        123456,
        99,
        vec![MessageSegment::Text { text: "hello".to_string() }],
        "hello",
    );
    let json = sj(&event_to_v12_json(&event));
    assert_eq!(json["type"], "message");
    assert_eq!(json["detail_type"], "group");
    assert_eq!(json["self"]["platform"], "qq");
    assert_eq!(json["self"]["user_id"], "123456");
    assert_eq!(json["user_id"], "789");
    assert_eq!(json["group_id"], "111");
    assert_eq!(json["message_id"], "99");
    let msg = json["message"].as_array().unwrap();
    assert_eq!(msg.len(), 1);
    assert_eq!(msg[0]["type"], "text");
    assert_eq!(msg[0]["data"]["text"], "hello");
}

#[test]
fn v12_event_time_is_fractional_seconds() {
    let event = group_message(1, 2, vec![], "");
    let json = sj(&event_to_v12_json(&event));
    assert_eq!(json["time"], serde_json::Value::from(1700000000.0f64));
}

#[test]
fn v12_at_segment_uses_mention() {
    let segs = vec![MessageSegment::At { qq: "123".to_string() }];
    let json = sj(&segments_to_v12(&segs));
    let arr = json.as_array().unwrap();
    assert_eq!(arr[0]["type"], "mention");
    assert_eq!(arr[0]["data"]["user_id"], "123");
}

#[test]
fn v12_face_and_reply_segments() {
    let segs = vec![MessageSegment::Face { id: "14".to_string() }];
    let json = sj(&segments_to_v12(&segs));
    assert_eq!(json[0]["type"], "qq.face");
    assert_eq!(json[0]["data"]["id"], "14");
}

#[test]
fn translate_send_message_group() {
    let params = parse(
        r#"{
            "detail_type": "group",
            "group_id": "12345",
            "message": [{"type": "text", "data": {"text": "hi"}}]
        }"#,
    );
    let (action, translated) = translate_v12_action("send_message", params);
    let translated = sj(&translated);
    assert_eq!(action, "send_group_msg");
    assert_eq!(translated["group_id"], 12345);
    assert_eq!(translated["message_type"], "group");
}

#[test]
fn translate_get_self_info() {
    let (action, _) = translate_v12_action("get_self_info", JsonValue::Object(Vec::new()));
    assert_eq!(action, "get_login_info");
}

#[test]
fn translate_unknown_v12_action_passes_through() {
    let (action, params) = translate_v12_action("custom_thing", parse(r#"{"a": 1}"#));
    assert_eq!(action, "custom_thing");
    assert_eq!(sj(&params)["a"], 1);
}

#[test]
fn parse_v12_action_request() {
    let raw = parse(
        r#"{
            "action": "send_message",
            "params": {
                "detail_type": "private",
                "user_id": "789",
                "message": [{"type": "text", "data": {"text": "hello"}}]
            },
            "echo": "abc",
            "self": {
                "platform": "qq",
                "user_id": "123456"
            }
        }"#,
    );
    let req = parse_v12_action(raw).unwrap();
    assert_eq!(req.action, "send_private_msg");
    assert_eq!(req.self_id, Some(123456));
    assert_eq!(req.echo.as_ref().map(sj), Some(serde_json::Value::String("abc".to_string())));
}

#[test]
fn parse_v12_action_without_action_fails() {
    let raw = parse(r#"{"params": {}}"#);
    let err = parse_v12_action(raw).unwrap_err();
    assert_eq!(err.to_text(), "internal error: missing action field");
}

// ---------------------------------------------------------------------------
// Satori
// ---------------------------------------------------------------------------

#[test]
fn event_to_satori_message_created() {
    let event = sample_message_event();
    let json = sj(&event_to_satori(&event, 42));
    assert_eq!(json["sn"], 42);
    assert_eq!(json["type"], "message-created");
    assert_eq!(json["login"]["platform"], "qq");
    assert_eq!(json["channel"]["id"], "111");
    assert_eq!(json["channel"]["type"], 0);
    assert_eq!(json["user"]["id"], "789");
    assert_eq!(json["message"]["id"], "99");
    assert!(json["guild"]["id"].as_str().is_some());
    let content = json["message"]["content"].as_str().unwrap();
    assert!(content.contains("hello "));
    assert!(content.contains(r#"<at id="456" />"#));
}

#[test]
fn event_signal_wrapping() {
    let event = sample_message_event();
    let signal = sj(&event_to_signal(&event, 1));
    assert_eq!(signal["op"], 0);
    assert!(signal["body"]["sn"].is_number());
}

#[test]
fn segments_to_elements_roundtrip() {
    let segments = vec![
        MessageSegment::Text { text: "hi <world>".to_string() },
        MessageSegment::At { qq: "123".to_string() },
        MessageSegment::Image {
            file: "https://example.com/a.png".to_string(),
            url: Some("https://example.com/a.png".to_string()),
        },
    ];
    let elements = segments_to_satori_elements(&segments);
    assert!(elements.contains("hi &lt;world&gt;"));
    assert!(elements.contains(r#"<at id="123" />"#));
    assert!(elements.contains(r#"<img src="https://example.com/a.png" />"#));
    let parsed = parse_satori_elements(&elements);
    assert_eq!(parsed.len(), 3);
    assert_eq!(parsed[0], MessageSegment::Text { text: "hi <world>".to_string() });
    assert_eq!(parsed[1], MessageSegment::At { qq: "123".to_string() });
    match &parsed[2] {
        MessageSegment::Image { file, .. } => {
            assert_eq!(file, "https://example.com/a.png");
        }
        _ => panic!("expected Image segment"),
    }
}

#[test]
fn reply_segments_round_trip_through_elements() {
    let segments = vec![
        MessageSegment::Reply { id: "4242".to_string() },
        MessageSegment::Text { text: "see above".to_string() },
        MessageSegment::Reply { id: "a\"b".to_string() },
    ];
    let elements = segments_to_satori_elements(&segments);
    assert!(elements.starts_with(r#"<quote><message id="4242" /></quote>"#));
    assert!(elements.contains(r#"<message id="a&quot;b" />"#));
    assert_eq!(parse_satori_elements(&elements), segments);
    let forwarded = segments_to_satori_elements(&[MessageSegment::Reply { id: "forward-1".to_string() }]);
    assert_eq!(
        parse_satori_elements(&forwarded),
        vec![MessageSegment::Forward { id: "forward-1".to_string() }]
    );
}

#[test]
fn parse_at_all() {
    let content = r#"<at type="all" />"#;
    let segs = parse_satori_elements(content);
    assert_eq!(segs.len(), 1);
    assert_eq!(segs[0], MessageSegment::At { qq: "all".to_string() });
}

#[test]
fn translate_message_create() {
    let body = parse(r#"{"channel_id": "12345", "content": "hello <at id=\"789\" />"}"#);
    let req = parse_satori_api("message.create", body, Some(123)).unwrap();
    assert_eq!(req.action, "send_group_msg");
    assert_eq!(sj(&req.params)["group_id"], 12345);
    assert_eq!(req.self_id, Some(123));
}

#[test]
fn translate_login_get() {
    let body = parse("{}");
    let req = parse_satori_api("login.get", body, None).unwrap();
    assert_eq!(req.action, "get_login_info");
}

#[test]
fn translate_unknown_satori_method_fails() {
    let err = parse_satori_api("nope.nope", parse("{}"), None).unwrap_err();
    assert_eq!(err.to_text(), "internal error: unsupported Satori API: nope.nope");
}

#[test]
fn translate_response_login() {
    let resp = ApiResponse::ok(parse(r#"{"user_id": 123456, "nickname": "Bot"}"#));
    let result = sj(&translate_response("login.get", resp));
    assert_eq!(result["platform"], "qq");
    assert_eq!(result["user"]["id"], "123456");
    assert_eq!(result["user"]["name"], "Bot");
    assert_eq!(result["status"], 1);
}

#[test]
fn escape_round_trips() {
    let text = "a < b && c > \"d\" 'e'";
    assert_eq!(escape_satori_text(text), "a &lt; b &amp;&amp; c &gt; \"d\" 'e'");
    assert_eq!(unescape_satori_text(&escape_satori_text(text)), text);
    assert_eq!(escape_attr(text), "a &lt; b &amp;&amp; c &gt; &quot;d&quot; 'e'");
    assert_eq!(unescape_attr(&escape_attr(text)), text);
    assert_eq!(unescape_satori_text("&#39;x&#39;"), "'x'");
}

#[test]
fn elements_of_rich_segments() {
    let segments = vec![
        MessageSegment::Face { id: "14".to_string() },
        MessageSegment::Reply { id: "9".to_string() },
        MessageSegment::At { qq: "all".to_string() },
        MessageSegment::Record { file: "v.amr".to_string(), url: None },
    ];
    let elements = segments_to_satori_elements(&segments);
    assert_eq!(
        elements,
        r#"<emoji id="14" /><quote><message id="9" /></quote><at type="all" /><audio src="v.amr" />"#
    );
}

#[test]
fn rich_segments_read_back() {
    let segments = vec![
        MessageSegment::Face { id: "14".to_string() },
        MessageSegment::Text { text: "a & b".to_string() },
        MessageSegment::Forward { id: "f\"1".to_string() },
        MessageSegment::Record { file: "v.amr".to_string(), url: None },
    ];
    let parsed = parse_satori_elements(&segments_to_satori_elements(&segments));
    assert_eq!(
        parsed,
        vec![
            MessageSegment::Face { id: "14".to_string() },
            MessageSegment::Text { text: "a & b".to_string() },
            MessageSegment::Forward { id: "f\"1".to_string() },
            MessageSegment::Record { file: "v.amr".to_string(), url: Some("v.amr".to_string()) },
        ]
    );
}

#[test]
fn adjacent_texts_read_back_as_one() {
    let segments = vec![
        MessageSegment::Text { text: "a".to_string() },
        MessageSegment::Text { text: "b".to_string() },
    ];
    let parsed = parse_satori_elements(&segments_to_satori_elements(&segments));
    assert_eq!(parsed, vec![MessageSegment::Text { text: "ab".to_string() }]);
}

// ---------------------------------------------------------------------------
// JSON text
// ---------------------------------------------------------------------------

#[test]
fn json_text_matches_serde_json() {
    let text = r#"{"b": [1, -2, 2.5, true, null], "a": "x\"y\n\u0001", "c": {}}"#;
    let value: serde_json::Value = serde_json::from_str(text).unwrap();
    assert_eq!(to_json_text(&jv(&value)), serde_json::to_string(&value).unwrap());
}

#[test]
fn parsed_events_get_a_fresh_id_and_the_clock_time() {
    let raw = parse(r#"{"post_type": "notice", "notice_type": "poke", "self_id": 7}"#);
    let event = parse_event(raw).unwrap();
    assert!(event.time().timestamp() > 1_700_000_000);
    if let Event::Notice(n) = &event {
        assert_eq!((n.id >> 76) & 0xf, 4);
        assert_eq!((n.id >> 62) & 3, 2);
    } else {
        panic!("expected Notice event");
    }
}

#[test]
fn v12_event_id_is_uuid_text() {
    let event = group_message(1, 2, vec![], "");
    let json = sj(&event_to_v12_json(&event));
    assert_eq!(json["id"], "00000000-0000-0000-0000-000000000000");
}

#[test]
fn v12_event_id_text_is_hyphenated_lower_hex() {
    let mut event = group_message(1, 2, vec![], "");
    if let Event::Message(m) = &mut event {
        m.id = 0x67e5504410b1426f9247bb680e5fe0c8;
    }
    let json = sj(&event_to_v12_json(&event));
    assert_eq!(json["id"], "67e55044-10b1-426f-9247-bb680e5fe0c8");
}

#[test]
fn meta_and_notice_events_keep_extra() {
    let meta = Event::Meta(MetaEvent {
        id: 0,
        time: timestamp_from_secs(1).unwrap(),
        self_id: 5,
        meta_event_type: "heartbeat".to_string(),
        sub_type: String::new(),
        extra: parse(r#"{"interval": 5000}"#),
    });
    let json = sj(&event_to_json(&meta));
    assert_eq!(json["post_type"], "meta_event");
    assert_eq!(json["interval"], 5000);
    let notice = Event::Notice(NoticeEvent {
        id: 0,
        time: timestamp_from_secs(1).unwrap(),
        self_id: 5,
        notice_type: "group_increase".to_string(),
        sub_type: "approve".to_string(),
        extra: parse(r#"{"user_id": 12345}"#),
    });
    let json = sj(&event_to_json(&notice));
    assert_eq!(json["post_type"], "notice");
    assert_eq!(json["self_id"], 5);
    assert_eq!(json["user_id"], 12345);
}
