//! OneBot v12 conversion: gateway events to v12 JSON (string identifiers,
//! a `self` object, `type`/`detail_type`), v12 action requests to the v11
//! actions the backends understand, and v11 responses back to v12.

use vstd::prelude::*;

use crate::api::{ApiRequest, ApiResponse, RequestV, ResponseV, opt_json_view};
use crate::error::{ErrorV, GatewayError};
use crate::event::{
    Event, EventV, MessageEvent, MessageEventV, MessageType, MetaEvent, NoticeEvent, OtherEventV,
    RequestEvent,
};
use crate::ieee::{int_as_float, int_as_float_json};
use crate::json::{
    entries_view, group_json_view, jget, jint, jobj, jset, jstr, object_from, object_insert, ostr,
    str_or_empty, values_view, Json, JsonValue,
};
use crate::message::{opt_str_view, segs_view, MessageSegment, Seg};
use crate::satori::{dec_json, id_text, id_text_of, jdec, pair, str_value};
use crate::text::{owned, parse_i64_spec, parse_i64_str, str_eq};
use crate::time::{uuid_text, uuid_to_string};

verus! {

// ---------------------------------------------------------------------------
// Segments
// ---------------------------------------------------------------------------

/// `{"type": name, "data": data}`.
pub open spec fn v12_tagged(name: Seq<char>, data: Json) -> Json {
    jobj(seq![("type"@, jstr(name)), ("data"@, data)])
}

/// The data of a media segment: `file_id`, and `url` when present.
pub open spec fn v12_media(file: Seq<char>, url: Option<Seq<char>>) -> Json {
    match url {
        Some(u) => jobj(seq![("file_id"@, jstr(file)), ("url"@, jstr(u))]),
        None => jobj(seq![("file_id"@, jstr(file))]),
    }
}

/// One data entry holding a string.
pub open spec fn v12_one(k: Seq<char>, v: Seq<char>) -> Json {
    jobj(seq![(k, jstr(v))])
}

/// The OneBot v12 form of a segment: mentions become `mention`, voice
/// records `voice`, and QQ-specific segments take a `qq.` prefix.
pub open spec fn v12_segment(s: Seg) -> Json {
    match s {
        Seg::Text { text } => v12_tagged("text"@, v12_one("text"@, text)),
        Seg::Image { file, url } => v12_tagged("image"@, v12_media(file, url)),
        Seg::At { qq } => v12_tagged("mention"@, v12_one("user_id"@, qq)),
        Seg::Face { id } => v12_tagged("qq.face"@, v12_one("id"@, id)),
        Seg::Reply { id } => v12_tagged("reply"@, v12_one("message_id"@, id)),
        Seg::Record { file, url } => v12_tagged("voice"@, v12_media(file, url)),
        Seg::Video { file, url } => v12_tagged("video"@, v12_media(file, url)),
        Seg::Forward { id } => v12_tagged("qq.forward"@, v12_one("id"@, id)),
        Seg::Json { data } => v12_tagged("qq.json"@, v12_one("data"@, data)),
        Seg::Xml { data } => v12_tagged("qq.xml"@, v12_one("data"@, data)),
        Seg::Poke { poke_type, id } => v12_tagged(
            "qq.poke"@,
            jobj(seq![("type"@, jstr(poke_type)), ("id"@, jstr(id))]),
        ),
        Seg::Unknown => v12_tagged("unknown"@, jobj(Seq::empty())),
    }
}

/// The OneBot v12 array form of a segment list.
pub open spec fn v12_segments(s: Seq<Seg>) -> Json {
    Json::Arr(Seq::new(s.len(), |i: int| v12_segment(s[i])))
}

fn one(k: &str, v: &String) -> (r: JsonValue)
    ensures
        r@ == v12_one(k@, v@),
{
    let mut kvs: Vec<(String, JsonValue)> = Vec::new();
    kvs.push(pair(k, JsonValue::Str(v.clone())));
    assert(entries_view(kvs@) =~= seq![(k@, jstr(v@))]);
    object_from(kvs)
}

fn tagged(name: &str, data: JsonValue) -> (r: JsonValue)
    ensures
        r@ == v12_tagged(name@, data@),
{
    let ghost d = data@;
    let mut kvs: Vec<(String, JsonValue)> = Vec::new();
    kvs.push(pair("type", str_value(name)));
    kvs.push(pair("data", data));
    assert(entries_view(kvs@) =~= seq![("type"@, jstr(name@)), ("data"@, d)]);
    object_from(kvs)
}

fn media(file: &String, url: &Option<String>) -> (r: JsonValue)
    ensures
        r@ == v12_media(file@, opt_str_view(*url)),
{
    let mut kvs: Vec<(String, JsonValue)> = Vec::new();
    kvs.push(pair("file_id", JsonValue::Str(file.clone())));
    match url {
        Some(u) => {
            kvs.push(pair("url", JsonValue::Str(u.clone())));
            assert(entries_view(kvs@) =~= seq![("file_id"@, jstr(file@)), ("url"@, jstr(u@))]);
        },
        None => {
            assert(entries_view(kvs@) =~= seq![("file_id"@, jstr(file@))]);
        },
    }
    object_from(kvs)
}

fn segment_to_v12(seg: &MessageSegment) -> (r: JsonValue)
    ensures
        r@ == v12_segment(seg@),
{
    match seg {
        MessageSegment::Text { text } => tagged("text", one("text", text)),
        MessageSegment::Image { file, url } => tagged("image", media(file, url)),
        MessageSegment::At { qq } => tagged("mention", one("user_id", qq)),
        MessageSegment::Face { id } => tagged("qq.face", one("id", id)),
        MessageSegment::Reply { id } => tagged("reply", one("message_id", id)),
        MessageSegment::Record { file, url } => tagged("voice", media(file, url)),
        MessageSegment::Video { file, url } => tagged("video", media(file, url)),
        MessageSegment::Forward { id } => tagged("qq.forward", one("id", id)),
        MessageSegment::Json { data } => tagged("qq.json", one("data", data)),
        MessageSegment::Xml { data } => tagged("qq.xml", one("data", data)),
        MessageSegment::Poke { poke_type, id } => {
            let mut kvs: Vec<(String, JsonValue)> = Vec::new();
            kvs.push(pair("type", JsonValue::Str(poke_type.clone())));
            kvs.push(pair("id", JsonValue::Str(id.clone())));
            assert(entries_view(kvs@) =~= seq![("type"@, jstr(poke_type@)), ("id"@, jstr(id@))]);
            tagged("qq.poke", object_from(kvs))
        },
        MessageSegment::Unknown => {
            let kvs: Vec<(String, JsonValue)> = Vec::new();
            assert(entries_view(kvs@) =~= Seq::<(Seq<char>, Json)>::empty());
            tagged("unknown", object_from(kvs))
        },
    }
}

/// Converts message segments to the OneBot v12 array form.
pub fn segments_to_v12(segments: &[MessageSegment]) -> (r: JsonValue)
    ensures
        r@ == v12_segments(segs_view(segments@)),
{
    broadcast use group_json_view;

    let mut out: Vec<JsonValue> = Vec::new();
    let mut i: usize = 0;
    while i < segments.len()
        invariant
            i <= segments.len(),
            out@.len() == i,
            forall|j: int| 0 <= j < i ==> (#[trigger] out@[j])@ == v12_segment(segments@[j]@),
        decreases segments.len() - i,
    {
        out.push(segment_to_v12(&segments[i]));
        i = i + 1;
    }
    assert(values_view(out@) =~= v12_segments(segs_view(segments@))->Arr_0);
    JsonValue::Array(out)
}

// ---------------------------------------------------------------------------
// Events
// ---------------------------------------------------------------------------

/// The v12 `self` object of an account.
pub open spec fn self_json(self_id: i64) -> Json {
    jobj(seq![("platform"@, jstr("qq"@)), ("user_id"@, jdec(self_id))])
}

fn self_object(self_id: i64) -> (r: JsonValue)
    ensures
        r@ == self_json(self_id),
{
    let mut kvs: Vec<(String, JsonValue)> = Vec::new();
    kvs.push(pair("platform", str_value("qq")));
    kvs.push(pair("user_id", dec_json(self_id)));
    assert(entries_view(kvs@) =~= seq![("platform"@, jstr("qq"@)), ("user_id"@, jdec(self_id))]);
    object_from(kvs)
}

/// The entries every v12 event carries.
pub open spec fn v12_head(id: u128, secs: i64, ty: Seq<char>, detail: Seq<char>, sub_type: Seq<char>, self_id: i64) -> Seq<(Seq<char>, Json)> {
    seq![
        ("id"@, jstr(uuid_text(id))),
        ("time"@, int_as_float_json(secs)),
        ("type"@, jstr(ty)),
        ("detail_type"@, jstr(detail)),
        ("sub_type"@, jstr(sub_type)),
        ("self"@, self_json(self_id)),
    ]
}

fn head(id: u128, secs: i64, ty: &str, detail: &str, sub_type: &String, self_id: i64) -> (r: Vec<(String, JsonValue)>)
    requires
        -crate::time::SECS_BOUND < secs < crate::time::SECS_BOUND,
    ensures
        entries_view(r@) == v12_head(id, secs, ty@, detail@, sub_type@, self_id),
{
    let mut kvs: Vec<(String, JsonValue)> = Vec::new();
    kvs.push(pair("id", JsonValue::Str(uuid_to_string(id))));
    kvs.push(pair("time", int_as_float(secs)));
    kvs.push(pair("type", str_value(ty)));
    kvs.push(pair("detail_type", str_value(detail)));
    kvs.push(pair("sub_type", JsonValue::Str(sub_type.clone())));
    kvs.push(pair("self", self_object(self_id)));
    assert(entries_view(kvs@) =~= v12_head(id, secs, ty@, detail@, sub_type@, self_id));
    kvs
}

/// The v12 detail type of a message type.
pub open spec fn detail_of(t: MessageType) -> Seq<char> {
    match t {
        MessageType::Private => "private"@,
        MessageType::Group => "group"@,
    }
}

/// The v12 JSON of a message event.
pub open spec fn v12_message_json(m: MessageEventV) -> Json {
    let base = v12_head(m.id, m.time.secs(), "message"@, detail_of(m.message_type), m.sub_type, m.self_id)
        + seq![
        ("message_id"@, jdec(m.message_id)),
        ("message"@, v12_segments(m.message)),
        ("alt_message"@, jstr(m.raw_message)),
        ("user_id"@, jdec(m.user_id)),
    ];
    match m.group_id {
        Some(g) => jobj(base.push(("group_id"@, jdec(g)))),
        None => jobj(base),
    }
}

/// The v12 detail type of a meta event type: lifecycle events are
/// connect events; other types keep their name.
pub open spec fn meta_detail(t: Seq<char>) -> Seq<char> {
    if t == "lifecycle"@ {
        "connect"@
    } else {
        t
    }
}

/// The v12 JSON of a non-message event.
pub open spec fn v12_other_json(o: OtherEventV, ty: Seq<char>, detail: Seq<char>) -> Json {
    jobj(v12_head(o.id, o.time.secs(), ty, detail, o.sub_type, o.self_id))
}

/// The OneBot v12 JSON of a gateway event.
pub open spec fn v12_event_json(e: EventV) -> Json {
    match e {
        EventV::Message(m) => v12_message_json(m),
        EventV::Notice(o) => v12_other_json(o, "notice"@, o.kind),
        EventV::Request(o) => v12_other_json(o, "request"@, o.kind),
        EventV::Meta(o) => v12_other_json(o, "meta"@, meta_detail(o.kind)),
    }
}

fn message_event_to_v12(msg: &MessageEvent) -> (r: JsonValue)
    ensures
        r@ == v12_message_json(msg@),
{
    let detail = match msg.message_type {
        MessageType::Private => "private",
        MessageType::Group => "group",
    };
    let mut kvs = head(msg.id, msg.time.timestamp(), "message", detail, &msg.sub_type, msg.self_id);
    let ghost h = entries_view(kvs@);
    let segs = segments_to_v12(msg.message.as_slice());
    let ghost sv = segs@;
    kvs.push(pair("message_id", dec_json(msg.message_id)));
    kvs.push(pair("message", segs));
    kvs.push(pair("alt_message", JsonValue::Str(msg.raw_message.clone())));
    kvs.push(pair("user_id", dec_json(msg.user_id)));
    let ghost base = h + seq![
        ("message_id"@, jdec(msg.message_id)),
        ("message"@, sv),
        ("alt_message"@, jstr(msg.raw_message@)),
        ("user_id"@, jdec(msg.user_id)),
    ];
    assert(entries_view(kvs@) =~= base);
    match msg.group_id {
        Some(g) => {
            kvs.push(pair("group_id", dec_json(g)));
            assert(entries_view(kvs@) =~= base.push(("group_id"@, jdec(g))));
        },
        None => {},
    }
    object_from(kvs)
}

fn notice_event_to_v12(evt: &NoticeEvent) -> (r: JsonValue)
    ensures
        r@ == v12_other_json(evt@, "notice"@, evt@.kind),
{
    let kvs = head(evt.id, evt.time.timestamp(), "notice", evt.notice_type.as_str(), &evt.sub_type, evt.self_id);
    object_from(kvs)
}

fn request_event_to_v12(evt: &RequestEvent) -> (r: JsonValue)
    ensures
        r@ == v12_other_json(evt@, "request"@, evt@.kind),
{
    let kvs = head(evt.id, evt.time.timestamp(), "request", evt.request_type.as_str(), &evt.sub_type, evt.self_id);
    object_from(kvs)
}

fn meta_event_to_v12(evt: &MetaEvent) -> (r: JsonValue)
    ensures
        r@ == v12_other_json(evt@, "meta"@, meta_detail(evt@.kind)),
{
    let t = evt.meta_event_type.as_str();
    let detail = if str_eq(t, "heartbeat") {
        "heartbeat"
    } else if str_eq(t, "lifecycle") {
        "connect"
    } else {
        t
    };
    proof {
        reveal_strlit("heartbeat");
        reveal_strlit("lifecycle");
    }
    assert("heartbeat"@[0] != "lifecycle"@[0]);
    assert(detail@ == meta_detail(evt@.kind));
    let kvs = head(evt.id, evt.time.timestamp(), "meta", detail, &evt.sub_type, evt.self_id);
    object_from(kvs)
}

/// Converts a gateway event into OneBot v12 JSON.
pub fn event_to_json(event: &Event) -> (r: JsonValue)
    ensures
        r@ == v12_event_json(event@),
{
    match event {
        Event::Message(msg) => message_event_to_v12(msg),
        Event::Notice(evt) => notice_event_to_v12(evt),
        Event::Request(evt) => request_event_to_v12(evt),
        Event::Meta(evt) => meta_event_to_v12(evt),
    }
}

// ---------------------------------------------------------------------------
// v12 actions -> v11 actions
// ---------------------------------------------------------------------------

/// An integer given as a decimal string member.
pub open spec fn int_str_member(v: Json, k: Seq<char>) -> Option<i64> {
    match ostr(jget(v, k)) {
        Some(s) => parse_i64_spec(s),
        None => None,
    }
}

/// One integer entry when the value is present.
pub open spec fn opt_int(k: Seq<char>, v: Option<i64>) -> Seq<(Seq<char>, Json)> {
    match v {
        Some(i) => seq![(k, jint(i))],
        None => Seq::empty(),
    }
}

/// The detail type of a `send_message` call (`private` when absent).
pub open spec fn detail_type_of(params: Json) -> Seq<char> {
    match ostr(jget(params, "detail_type"@)) {
        Some(d) => d,
        None => "private"@,
    }
}

/// The v11 send action for a detail type.
pub open spec fn send_action_for(detail: Seq<char>) -> Seq<char> {
    if detail == "group"@ {
        "send_group_msg"@
    } else if detail == "private"@ {
        "send_private_msg"@
    } else {
        "send_msg"@
    }
}

/// The v11 parameters of a `send_message` call: numeric group and user
/// ids, the message type, and the message as given.
pub open spec fn send_params(params: Json) -> Json {
    jobj(
        opt_int("group_id"@, int_str_member(params, "group_id"@)) + opt_int(
            "user_id"@,
            int_str_member(params, "user_id"@),
        ) + seq![("message_type"@, jstr(detail_type_of(params)))] + match jget(params, "message"@) {
            Some(m) => seq![("message"@, m)],
            None => Seq::empty(),
        },
    )
}

/// The v11 name of a v12 action that only needs renaming.
pub open spec fn renamed_action(a: Seq<char>) -> Seq<char> {
    if a == "get_self_info"@ {
        "get_login_info"@
    } else if a == "get_user_info"@ {
        "get_stranger_info"@
    } else if a == "leave_group"@ {
        "set_group_leave"@
    } else if a == "kick_group_member"@ {
        "set_group_kick"@
    } else if a == "ban_group_member"@ {
        "set_group_ban"@
    } else {
        a
    }
}

/// The v11 action and parameters for a v12 action.
pub open spec fn v12_translation(action: Seq<char>, params: Json) -> (Seq<char>, Json) {
    if action == "send_message"@ {
        (send_action_for(detail_type_of(params)), send_params(params))
    } else if action == "get_message"@ {
        (
            "get_msg"@,
            match int_str_member(params, "message_id"@) {
                Some(id) => jset(params, "message_id"@, jint(id)),
                None => params,
            },
        )
    } else {
        (renamed_action(action), params)
    }
}

fn int_str_member_of(v: &JsonValue, key: &str) -> (r: Option<i64>)
    ensures
        r == int_str_member(v@, key@),
{
    match v.get(key) {
        Some(x) => match x.as_str() {
            Some(s) => parse_i64_str(s.as_str()),
            None => None,
        },
        None => None,
    }
}

fn push_opt_int(kvs: &mut Vec<(String, JsonValue)>, k: &str, v: Option<i64>)
    ensures
        entries_view(final(kvs)@) == entries_view(old(kvs)@) + opt_int(k@, v),
{
    match v {
        Some(i) => {
            kvs.push(pair(k, JsonValue::from_i64(i)));
        },
        None => {},
    }
    assert(entries_view(kvs@) =~= entries_view(old(kvs)@) + opt_int(k@, v));
}

fn renamed(action: &str) -> (r: String)
    ensures
        r@ == renamed_action(action@),
{
    if str_eq(action, "get_self_info") {
        owned("get_login_info")
    } else if str_eq(action, "get_user_info") {
        owned("get_stranger_info")
    } else if str_eq(action, "leave_group") {
        owned("set_group_leave")
    } else if str_eq(action, "kick_group_member") {
        owned("set_group_kick")
    } else if str_eq(action, "ban_group_member") {
        owned("set_group_ban")
    } else {
        owned(action)
    }
}

/// Translates a v12 action name and parameters into their v11 equivalents.
pub fn translate_v12_action(action: &str, params: JsonValue) -> (r: (String, JsonValue))
    ensures
        (r.0@, r.1@) == v12_translation(action@, params@),
{
    broadcast use group_json_view;

    if str_eq(action, "send_message") {
        let detail = match params.get("detail_type") {
            Some(v) => match v.as_str() {
                Some(d) => d.clone(),
                None => owned("private"),
            },
            None => owned("private"),
        };
        assert(detail@ == detail_type_of(params@));
        let name = if str_eq(detail.as_str(), "group") {
            "send_group_msg"
        } else if str_eq(detail.as_str(), "private") {
            "send_private_msg"
        } else {
            "send_msg"
        };
        let mut kvs: Vec<(String, JsonValue)> = Vec::new();
        push_opt_int(&mut kvs, "group_id", int_str_member_of(&params, "group_id"));
        push_opt_int(&mut kvs, "user_id", int_str_member_of(&params, "user_id"));
        let ghost a = entries_view(kvs@);
        kvs.push(pair("message_type", JsonValue::Str(detail)));
        let ghost b = entries_view(kvs@);
        assert(b =~= a + seq![("message_type"@, jstr(detail_type_of(params@)))]);
        match params.get("message") {
            Some(m) => {
                kvs.push(pair("message", m.copy()));
            },
            None => {},
        }
        assert(entries_view(kvs@) =~= b + match jget(params@, "message"@) {
            Some(m) => seq![("message"@, m)],
            None => Seq::empty(),
        });
        (owned(name), object_from(kvs))
    } else if str_eq(action, "get_message") {
        match int_str_member_of(&params, "message_id") {
            Some(id) => {
                let p = match params {
                    JsonValue::Object(es) => {
                        let mut es = es;
                        object_insert(&mut es, owned("message_id"), JsonValue::from_i64(id));
                        JsonValue::Object(es)
                    },
                    other => other,
                };
                (owned("get_msg"), p)
            },
            None => (owned("get_msg"), params),
        }
    } else {
        (renamed(action), params)
    }
}

/// The gateway request a v12 action request denotes: its action
/// translated, its parameters (an empty object when absent) translated,
/// its echo, and the account from `self.user_id` when that is a decimal
/// string.
pub open spec fn v12_request(raw: Json) -> Result<RequestV, ErrorV> {
    match ostr(jget(raw, "action"@)) {
        None => Err(ErrorV::Internal("missing action field"@)),
        Some(action) => {
            let params = match jget(raw, "params"@) {
                Some(p) => p,
                None => jobj(Seq::empty()),
            };
            let t = v12_translation(action, params);
            Ok(
                RequestV {
                    action: t.0,
                    params: t.1,
                    echo: jget(raw, "echo"@),
                    self_id: match jget(raw, "self"@) {
                        Some(s) => int_str_member(s, "user_id"@),
                        None => None,
                    },
                },
            )
        },
    }
}

/// Parses a v12 action request into a gateway API request.
pub fn parse_v12_action(raw: JsonValue) -> (r: Result<ApiRequest, GatewayError>)
    ensures
        match r {
            Ok(req) => v12_request(raw@) == Ok::<RequestV, ErrorV>(req@),
            Err(e) => v12_request(raw@) == Err::<RequestV, ErrorV>(e@),
        },
{
    broadcast use group_json_view;

    let action = match raw.get("action") {
        Some(v) => match v.as_str() {
            Some(a) => a.clone(),
            None => {
                return Err(GatewayError::internal("missing action field"));
            },
        },
        None => {
            return Err(GatewayError::internal("missing action field"));
        },
    };
    let params = match raw.get("params") {
        Some(p) => p.copy(),
        None => JsonValue::empty_object(),
    };
    let echo = match raw.get("echo") {
        Some(e) => Some(e.copy()),
        None => None,
    };
    let self_id = match raw.get("self") {
        Some(s) => int_str_member_of(s, "user_id"),
        None => None,
    };
    let (translated_action, translated_params) = translate_v12_action(action.as_str(), params);
    let req = ApiRequest { action: translated_action, params: translated_params, echo, self_id };
    assert(opt_json_view(req.echo) == jget(raw@, "echo"@));
    Ok(req)
}

// ---------------------------------------------------------------------------
// v11 responses -> v12
// ---------------------------------------------------------------------------

/// The data of a v11 response as v12 expects it: the login information
/// gets a string `user_id` and the nickname as `user_name` and
/// `user_displayname`; other data passes unchanged.
pub open spec fn v12_data(action: Seq<char>, data: Json) -> Json {
    if action == "get_self_info"@ || action == "get_login_info"@ {
        match jget(data, "user_id"@) {
            Some(u) => {
                let name = match jget(data, "nickname"@) {
                    Some(n) => n,
                    None => jstr(Seq::empty()),
                };
                jobj(seq![("user_id"@, jstr(id_text(u))), ("user_name"@, name), ("user_displayname"@, name)])
            },
            None => data,
        }
    } else {
        data
    }
}

/// The v12 response object for a v11 response.
pub open spec fn v12_response(action: Seq<char>, resp: ResponseV) -> Json {
    jobj(
        seq![
            ("status"@, jstr(resp.status)),
            ("retcode"@, jint(resp.retcode as i64)),
            ("data"@, v12_data(action, resp.data)),
            ("message"@, jstr(resp.message)),
            ("echo"@, echo_or_null(resp.echo)),
        ],
    )
}

/// An echo value, or null when absent.
pub open spec fn echo_or_null(o: Option<Json>) -> Json {
    match o {
        Some(e) => e,
        None => Json::Null,
    }
}

/// Translates a v11 API response to the v12 format.
pub fn translate_v11_response(action: &str, resp: ApiResponse) -> (r: JsonValue)
    ensures
        r@ == v12_response(action@, resp@),
{
    let ghost rv = resp@;
    let ApiResponse { status, retcode, data, message, echo } = resp;
    let data = if str_eq(action, "get_self_info") || str_eq(action, "get_login_info") {
        match data.get("user_id") {
            Some(u) => {
                let uid = id_text_of(u);
                let name = match data.get("nickname") {
                    Some(n) => n.copy(),
                    None => JsonValue::Str(String::new()),
                };
                let ghost nv = name@;
                let name2 = name.copy();
                let mut kvs: Vec<(String, JsonValue)> = Vec::new();
                kvs.push(pair("user_id", JsonValue::Str(uid)));
                kvs.push(pair("user_name", name));
                kvs.push(pair("user_displayname", name2));
                assert(entries_view(kvs@) =~= seq![
                    ("user_id"@, jstr(id_text(jget(rv.data, "user_id"@)->0))),
                    ("user_name"@, nv),
                    ("user_displayname"@, nv),
                ]);
                object_from(kvs)
            },
            None => data,
        }
    } else {
        data
    };
    let ghost dv = data@;
    assert(dv == v12_data(action@, rv.data));
    let echo_v = match echo {
        Some(e) => e,
        None => JsonValue::Null,
    };
    let ghost ev = echo_v@;
    assert(ev == echo_or_null(rv.echo));
    let mut kvs: Vec<(String, JsonValue)> = Vec::new();
    kvs.push(pair("status", JsonValue::Str(status)));
    kvs.push(pair("retcode", JsonValue::from_i64(retcode as i64)));
    kvs.push(pair("data", data));
    kvs.push(pair("message", JsonValue::Str(message)));
    kvs.push(pair("echo", echo_v));
    assert(entries_view(kvs@) =~= seq![
        ("status"@, jstr(rv.status)),
        ("retcode"@, jint(rv.retcode as i64)),
        ("data"@, dv),
        ("message"@, jstr(rv.message)),
        ("echo"@, ev),
    ]);
    object_from(kvs)
}

/// A v12 action is carried out by its v11 counterpart: `ban_group_member`
/// by `set_group_ban`, `kick_group_member` by `set_group_kick`,
/// `leave_group` by `set_group_leave`, `get_user_info` by
/// `get_stranger_info` and `get_self_info` by `get_login_info`, each with
/// the parameters unchanged; `get_message` by `get_msg`; `send_message` by
/// `send_group_msg` for a group, `send_private_msg` for a private chat (or
/// no detail type) and `send_msg` otherwise; any other action keeps its
/// name and parameters.
pub proof fn lemma_v12_action_table(action: Seq<char>, params: Json)
    ensures
        action == "ban_group_member"@ ==> v12_translation(action, params) == ("set_group_ban"@, params),
        action == "kick_group_member"@ ==> v12_translation(action, params) == ("set_group_kick"@, params),
        action == "leave_group"@ ==> v12_translation(action, params) == ("set_group_leave"@, params),
        action == "get_user_info"@ ==> v12_translation(action, params) == ("get_stranger_info"@, params),
        action == "get_self_info"@ ==> v12_translation(action, params) == ("get_login_info"@, params),
        action == "get_message"@ ==> v12_translation(action, params).0 == "get_msg"@,
        action == "send_message"@ ==> v12_translation(action, params).0 == (match ostr(
            jget(params, "detail_type"@),
        ) {
            Some(d) => if d == "group"@ {
                "send_group_msg"@
            } else if d == "private"@ {
                "send_private_msg"@
            } else {
                "send_msg"@
            },
            None => "send_private_msg"@,
        }),
        !(action == "ban_group_member"@ || action == "kick_group_member"@ || action == "leave_group"@ || action
            == "get_user_info"@ || action == "get_self_info"@ || action == "get_message"@ || action
            == "send_message"@) ==> v12_translation(action, params) == (action, params),
{
    reveal_strlit("ban_group_member");
    reveal_strlit("kick_group_member");
    reveal_strlit("leave_group");
    reveal_strlit("get_user_info");
    reveal_strlit("get_self_info");
    reveal_strlit("get_message");
    reveal_strlit("send_message");
    reveal_strlit("group");
    reveal_strlit("private");
    assert("ban_group_member"@.len() == 16 && "kick_group_member"@.len() == 17 && "leave_group"@.len() == 11
        && "get_user_info"@.len() == 13 && "get_self_info"@.len() == 13 && "get_message"@.len() == 11
        && "send_message"@.len() == 12 && "group"@.len() == 5 && "private"@.len() == 7);
    assert("get_user_info"@[4] != "get_self_info"@[4]);
    assert("leave_group"@[0] != "get_message"@[0]);
}

} // verus!
