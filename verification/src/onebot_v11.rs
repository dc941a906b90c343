//! OneBot v11 events: parsing raw backend JSON into gateway events, and
//! writing gateway events back as OneBot v11 JSON.

use vstd::prelude::*;

use crate::error::{ErrorV, GatewayError};
use crate::event::{
    Event, EventV, MessageEvent, MessageEventV, MessageType, MetaEvent, NoticeEvent, OtherEventV,
    RequestEvent, Sender, SenderV,
};
use crate::json::{
    entries_view, group_json_view, jas_array, jget, jget_opt, jint, jobj, jset, jstr, object_from,
    object_insert,
    oi64, ostr, str_or_empty, values_view, Json, JsonValue, NumV, last_value, lemma_jobj_get, lemma_last_value_skip,
    lemma_jset_same, lemma_jset_then_jget, sorted_object,
};
use crate::json_text::{num_text, to_json_text};
use crate::message::{opt_str_view, segments_to_json, segs_json, segs_view, MessageSegment, Seg};
use crate::text::{owned, push_str, str_eq, string_from_chars};
use crate::time::{now_utc, new_event_id, timestamp_from_secs, utc_representable, Timestamp};

verus! {

// ---------------------------------------------------------------------------
// Member readers
// ---------------------------------------------------------------------------

/// An optional string member.
pub open spec fn opt_str_member(v: Option<Json>, k: Seq<char>) -> Option<Seq<char>> {
    ostr(jget_opt(v, k))
}

/// An integer member, or 0.
pub open spec fn i64_or_zero(o: Option<Json>) -> i64 {
    match oi64(o) {
        Some(i) => i,
        None => 0,
    }
}

/// The text of an identifier member of a segment: a string as it is, a
/// number in decimal, `"0"` for any other value, empty when absent.
pub open spec fn seg_id_text(o: Option<Json>) -> Seq<char> {
    match o {
        Some(Json::Str(s)) => s,
        Some(Json::Num(n)) => num_text(n),
        Some(_) => "0"@,
        None => Seq::empty(),
    }
}

fn string_member(v: &JsonValue, key: &str) -> (r: String)
    ensures
        r@ == str_or_empty(jget(v@, key@)),
{
    match v.get(key) {
        Some(x) => match x.as_str() {
            Some(s) => s.clone(),
            None => String::new(),
        },
        None => String::new(),
    }
}

fn opt_string_member(v: &JsonValue, key: &str) -> (r: Option<String>)
    ensures
        opt_str_view(r) == ostr(jget(v@, key@)),
{
    match v.get(key) {
        Some(x) => match x.as_str() {
            Some(s) => Some(s.clone()),
            None => None,
        },
        None => None,
    }
}

fn i64_member(v: &JsonValue, key: &str) -> (r: Option<i64>)
    ensures
        r == oi64(jget(v@, key@)),
{
    match v.get(key) {
        Some(x) => x.as_i64(),
        None => None,
    }
}

fn seg_id(data: &JsonValue, key: &str) -> (r: String)
    ensures
        r@ == seg_id_text(jget(data@, key@)),
{
    match data.get(key) {
        Some(x) => match x {
            JsonValue::Str(s) => s.clone(),
            JsonValue::Number(_) => to_json_text(x),
            _ => owned("0"),
        },
        None => String::new(),
    }
}

// ---------------------------------------------------------------------------
// Segments
// ---------------------------------------------------------------------------

/// The segment a OneBot v11 `{type, data}` pair denotes; `None` for an
/// unknown type, or a text segment without a string `text`.
pub open spec fn v11_segment(t: Seq<char>, data: Json) -> Option<Seg> {
    if t == "text"@ {
        match ostr(jget(data, "text"@)) {
            Some(text) => Some(Seg::Text { text }),
            None => None,
        }
    } else if t == "image"@ {
        Some(Seg::Image { file: str_or_empty(jget(data, "file"@)), url: ostr(jget(data, "url"@)) })
    } else if t == "at"@ {
        Some(Seg::At { qq: seg_id_text(jget(data, "qq"@)) })
    } else if t == "face"@ {
        Some(Seg::Face { id: seg_id_text(jget(data, "id"@)) })
    } else if t == "reply"@ {
        Some(Seg::Reply { id: seg_id_text(jget(data, "id"@)) })
    } else if t == "record"@ {
        Some(Seg::Record { file: str_or_empty(jget(data, "file"@)), url: ostr(jget(data, "url"@)) })
    } else if t == "video"@ {
        Some(Seg::Video { file: str_or_empty(jget(data, "file"@)), url: ostr(jget(data, "url"@)) })
    } else if t == "forward"@ {
        Some(Seg::Forward { id: str_or_empty(jget(data, "id"@)) })
    } else if t == "json"@ {
        Some(Seg::Json { data: str_or_empty(jget(data, "data"@)) })
    } else if t == "xml"@ {
        Some(Seg::Xml { data: str_or_empty(jget(data, "data"@)) })
    } else if t == "poke"@ {
        Some(
            Seg::Poke {
                poke_type: str_or_empty(jget(data, "type"@)),
                id: str_or_empty(jget(data, "id"@)),
            },
        )
    } else {
        None
    }
}

/// Parses a single message segment.
pub fn parse_single_segment(seg_type: &str, data: &JsonValue) -> (r: Option<MessageSegment>)
    ensures
        match r {
            Some(s) => v11_segment(seg_type@, data@) == Some(s@),
            None => v11_segment(seg_type@, data@) is None,
        },
{
    if str_eq(seg_type, "text") {
        match data.get("text") {
            Some(x) => match x.as_str() {
                Some(s) => Some(MessageSegment::Text { text: s.clone() }),
                None => None,
            },
            None => None,
        }
    } else if str_eq(seg_type, "image") {
        Some(
            MessageSegment::Image {
                file: string_member(data, "file"),
                url: opt_string_member(data, "url"),
            },
        )
    } else if str_eq(seg_type, "at") {
        Some(MessageSegment::At { qq: seg_id(data, "qq") })
    } else if str_eq(seg_type, "face") {
        Some(MessageSegment::Face { id: seg_id(data, "id") })
    } else if str_eq(seg_type, "reply") {
        Some(MessageSegment::Reply { id: seg_id(data, "id") })
    } else if str_eq(seg_type, "record") {
        Some(
            MessageSegment::Record {
                file: string_member(data, "file"),
                url: opt_string_member(data, "url"),
            },
        )
    } else if str_eq(seg_type, "video") {
        Some(
            MessageSegment::Video {
                file: string_member(data, "file"),
                url: opt_string_member(data, "url"),
            },
        )
    } else if str_eq(seg_type, "forward") {
        Some(MessageSegment::Forward { id: string_member(data, "id") })
    } else if str_eq(seg_type, "json") {
        Some(MessageSegment::Json { data: string_member(data, "data") })
    } else if str_eq(seg_type, "xml") {
        Some(MessageSegment::Xml { data: string_member(data, "data") })
    } else if str_eq(seg_type, "poke") {
        Some(
            MessageSegment::Poke {
                poke_type: string_member(data, "type"),
                id: string_member(data, "id"),
            },
        )
    } else {
        None
    }
}

/// The segment an array item denotes: it needs a string `type`; a missing
/// `data` reads as null.
pub open spec fn item_segment(item: Json) -> Option<Seg> {
    match ostr(jget(item, "type"@)) {
        Some(t) => v11_segment(
            t,
            match jget(item, "data"@) {
                Some(d) => d,
                None => Json::Null,
            },
        ),
        None => None,
    }
}

/// The segments of an array of items, in order, skipping the items that
/// denote none.
pub open spec fn items_segments(items: Seq<Json>) -> Seq<Seg>
    decreases items.len(),
{
    if items.len() == 0 {
        Seq::empty()
    } else {
        items_segments(items.drop_last()) + match item_segment(items.last()) {
            Some(s) => seq![s],
            None => Seq::empty(),
        }
    }
}

/// The segments of a raw event's `message`: an array is read item by item;
/// a string becomes one text segment; anything else gives none.
pub open spec fn v11_message(raw: Json) -> Seq<Seg> {
    match jget(raw, "message"@) {
        Some(Json::Arr(items)) => items_segments(items),
        Some(Json::Str(s)) => seq![Seg::Text { text: s }],
        _ => Seq::empty(),
    }
}

/// Parses the message segments of a raw event.
pub fn parse_message_segments(raw: &JsonValue) -> (r: Vec<MessageSegment>)
    ensures
        segs_view(r@) == v11_message(raw@),
{
    broadcast use group_json_view;

    let mut out: Vec<MessageSegment> = Vec::new();
    match raw.get("message") {
        Some(m) => match m {
            JsonValue::Array(arr) => {
                let ghost items = values_view(arr@);
                let mut i: usize = 0;
                while i < arr.len()
                    invariant
                        i <= arr.len(),
                        items == values_view(arr@),
                        segs_view(out@) == items_segments(items.take(i as int)),
                    decreases arr.len() - i,
                {
                    let item = &arr[i];
                    let ghost before = out@;
                    match item.get("type") {
                        Some(t) => match t.as_str() {
                            Some(ts) => {
                                let null = JsonValue::Null;
                                let data = match item.get("data") {
                                    Some(d) => d,
                                    None => &null,
                                };
                                match parse_single_segment(ts.as_str(), data) {
                                    Some(seg) => {
                                        out.push(seg);
                                    },
                                    None => {},
                                }
                            },
                            None => {},
                        },
                        None => {},
                    }
                    proof {
                        assert(items.take(i + 1).drop_last() =~= items.take(i as int));
                        assert(items.take(i + 1).last() == item@);
                        assert(segs_view(out@) =~= items_segments(items.take(i + 1)));
                    }
                    i = i + 1;
                }
                assert(items.take(arr.len() as int) =~= items);
            },
            JsonValue::Str(s) => {
                out.push(MessageSegment::Text { text: s.clone() });
                assert(segs_view(out@) =~= seq![Seg::Text { text: s@ }]);
            },
            _ => {
                assert(segs_view(out@) =~= Seq::<Seg>::empty());
            },
        },
        None => {
            assert(segs_view(out@) =~= Seq::<Seg>::empty());
        },
    }
    out
}

// ---------------------------------------------------------------------------
// Sender
// ---------------------------------------------------------------------------

/// The sender described by a raw event's `sender` object; absent members
/// read as 0, empty or none.
pub open spec fn v11_sender(raw: Json) -> SenderV {
    let s = jget(raw, "sender"@);
    SenderV {
        user_id: i64_or_zero(jget_opt(s, "user_id"@)),
        nickname: str_or_empty(jget_opt(s, "nickname"@)),
        card: opt_str_member(s, "card"@),
        sex: opt_str_member(s, "sex"@),
        age: match oi64(jget_opt(s, "age"@)) {
            Some(a) => Some(a as i32),
            None => None,
        },
        area: opt_str_member(s, "area"@),
        level: opt_str_member(s, "level"@),
        role: opt_str_member(s, "role"@),
        title: opt_str_member(s, "title"@),
    }
}

/// Parses the sender of a raw event.
pub fn parse_sender(raw: &JsonValue) -> (r: Sender)
    ensures
        r@ == v11_sender(raw@),
{
    let null = JsonValue::Null;
    let s = match raw.get("sender") {
        Some(v) => v,
        None => &null,
    };
    let ghost so = jget(raw@, "sender"@);
    assert(forall|k: Seq<char>| jget_opt(so, k) == jget(s@, k));
    let age = match i64_member(s, "age") {
        Some(a) => Some(a as i32),
        None => None,
    };
    Sender {
        user_id: match i64_member(s, "user_id") {
            Some(u) => u,
            None => 0,
        },
        nickname: string_member(s, "nickname"),
        card: opt_string_member(s, "card"),
        sex: opt_string_member(s, "sex"),
        age,
        area: opt_string_member(s, "area"),
        level: opt_string_member(s, "level"),
        role: opt_string_member(s, "role"),
        title: opt_string_member(s, "title"),
    }
}

// ---------------------------------------------------------------------------
// Events
// ---------------------------------------------------------------------------

/// The time of a raw event: its `time` in whole seconds when representable
/// (and within the timestamp range), else `now`.
pub open spec fn v11_time(raw: Json, now: Timestamp) -> Timestamp {
    match oi64(jget(raw, "time"@)) {
        Some(ts) => if utc_representable(ts) {
            Timestamp::at_secs(ts)
        } else {
            now
        },
        None => now,
    }
}

/// Reads the time of a raw event, with `now` as the fallback.
pub fn parse_time(raw: &JsonValue, now: Timestamp) -> (r: Timestamp)
    ensures
        r == v11_time(raw@, now),
{
    match i64_member(raw, "time") {
        Some(ts) => match timestamp_from_secs(ts) {
            Some(t) => t,
            None => now,
        },
        None => now,
    }
}

/// The message event a raw `message` post denotes.
pub open spec fn v11_message_event(raw: Json, id: u128, self_id: i64, time: Timestamp) -> MessageEventV {
    MessageEventV {
        id,
        time,
        self_id,
        message_type: if ostr(jget(raw, "message_type"@)) == Some("group"@) {
            MessageType::Group
        } else {
            MessageType::Private
        },
        sub_type: str_or_empty(jget(raw, "sub_type"@)),
        message_id: i64_or_zero(jget(raw, "message_id"@)),
        user_id: i64_or_zero(jget(raw, "user_id"@)),
        group_id: oi64(jget(raw, "group_id"@)),
        message: v11_message(raw),
        raw_message: str_or_empty(jget(raw, "raw_message"@)),
        sender: v11_sender(raw),
        font: i64_or_zero(jget(raw, "font"@)) as i32,
    }
}

/// A notice, request or meta event: its type from `type_key`, its sub-type,
/// and the whole raw object as extra data.
pub open spec fn v11_other_event(raw: Json, type_key: Seq<char>, id: u128, self_id: i64, time: Timestamp) -> OtherEventV {
    OtherEventV {
        id,
        time,
        self_id,
        kind: str_or_empty(jget(raw, type_key)),
        sub_type: str_or_empty(jget(raw, "sub_type"@)),
        extra: raw,
    }
}

/// The gateway event a raw OneBot v11 post denotes, given the identifier
/// for the new event and the current time.
pub open spec fn v11_event(raw: Json, id: u128, now: Timestamp) -> Result<EventV, ErrorV> {
    let self_id = i64_or_zero(jget(raw, "self_id"@));
    let time = v11_time(raw, now);
    match ostr(jget(raw, "post_type"@)) {
        None => Err(ErrorV::Internal("missing post_type"@)),
        Some(pt) => if pt == "message"@ || pt == "message_sent"@ {
            Ok(EventV::Message(v11_message_event(raw, id, self_id, time)))
        } else if pt == "notice"@ {
            Ok(EventV::Notice(v11_other_event(raw, "notice_type"@, id, self_id, time)))
        } else if pt == "request"@ {
            Ok(EventV::Request(v11_other_event(raw, "request_type"@, id, self_id, time)))
        } else if pt == "meta_event"@ {
            Ok(EventV::Meta(v11_other_event(raw, "meta_event_type"@, id, self_id, time)))
        } else {
            Err(ErrorV::Internal("unknown post_type: "@ + pt))
        },
    }
}

/// The view of an event result.
pub open spec fn event_result_view(r: Result<Event, GatewayError>) -> Result<EventV, ErrorV> {
    match r {
        Ok(e) => Ok(e@),
        Err(e) => Err(e@),
    }
}

fn parse_message_event(raw: &JsonValue, id: u128, self_id: i64, time: Timestamp) -> (r: MessageEvent)
    ensures
        r@ == v11_message_event(raw@, id, self_id, time),
{
    let message_type = match raw.get("message_type") {
        Some(v) => match v.as_str() {
            Some(s) => if str_eq(s.as_str(), "group") {
                MessageType::Group
            } else {
                MessageType::Private
            },
            None => MessageType::Private,
        },
        None => MessageType::Private,
    };
    let font: i64 = match i64_member(raw, "font") {
        Some(f) => f,
        None => 0,
    };
    MessageEvent {
        id,
        time,
        self_id,
        message_type,
        sub_type: string_member(raw, "sub_type"),
        message_id: match i64_member(raw, "message_id") {
            Some(m) => m,
            None => 0,
        },
        user_id: match i64_member(raw, "user_id") {
            Some(u) => u,
            None => 0,
        },
        group_id: i64_member(raw, "group_id"),
        message: parse_message_segments(raw),
        raw_message: string_member(raw, "raw_message"),
        sender: parse_sender(raw),
        font: font as i32,
    }
}

fn unknown_post_type(pt: &str) -> (r: GatewayError)
    ensures
        r@ == ErrorV::Internal("unknown post_type: "@ + pt@),
{
    let mut buf: Vec<char> = Vec::new();
    push_str(&mut buf, "unknown post_type: ");
    push_str(&mut buf, pt);
    GatewayError::Internal(string_from_chars(buf.as_slice()))
}

/// Parses a raw OneBot v11 post into a gateway event, with the given
/// identifier for the new event and `now` as the time of a post without a
/// usable `time`.
pub fn parse_event_with(raw: JsonValue, id: u128, now: Timestamp) -> (r: Result<Event, GatewayError>)
    ensures
        event_result_view(r) == v11_event(raw@, id, now),
{
    let post_type = match raw.get("post_type") {
        Some(v) => match v.as_str() {
            Some(s) => s.clone(),
            None => {
                return Err(GatewayError::internal("missing post_type"));
            },
        },
        None => {
            return Err(GatewayError::internal("missing post_type"));
        },
    };
    let self_id = match i64_member(&raw, "self_id") {
        Some(s) => s,
        None => 0,
    };
    let time = parse_time(&raw, now);
    let pt = post_type.as_str();
    if str_eq(pt, "message") || str_eq(pt, "message_sent") {
        let m = parse_message_event(&raw, id, self_id, time);
        Ok(Event::Message(Box::new(m)))
    } else if str_eq(pt, "notice") {
        let notice_type = string_member(&raw, "notice_type");
        let sub_type = string_member(&raw, "sub_type");
        Ok(Event::Notice(NoticeEvent { id, time, self_id, notice_type, sub_type, extra: raw }))
    } else if str_eq(pt, "request") {
        let request_type = string_member(&raw, "request_type");
        let sub_type = string_member(&raw, "sub_type");
        Ok(Event::Request(RequestEvent { id, time, self_id, request_type, sub_type, extra: raw }))
    } else if str_eq(pt, "meta_event") {
        let meta_event_type = string_member(&raw, "meta_event_type");
        let sub_type = string_member(&raw, "sub_type");
        Ok(Event::Meta(MetaEvent { id, time, self_id, meta_event_type, sub_type, extra: raw }))
    } else {
        Err(unknown_post_type(pt))
    }
}

/// Parses a raw OneBot v11 post into a gateway event with a fresh random
/// identifier; a post without a usable `time` gets the current time.
pub fn parse_event(raw: JsonValue) -> (r: Result<Event, GatewayError>)
    ensures
        exists|id: u128, now: Timestamp|
            event_result_view(r) == v11_event(raw@, id, now) && (id >> 76u128) & 0xfu128 == 4 && (id >> 62u128)
                & 3u128 == 2 && now.secs() >= 0 && now.nanos() < 1_000_000_000,
{
    let id = new_event_id();
    let now = now_utc();
    let r = parse_event_with(raw, id, now);
    assert(event_result_view(r) == v11_event(raw@, id, now));
    r
}

// ---------------------------------------------------------------------------
// Events -> OneBot v11 JSON
// ---------------------------------------------------------------------------

/// The JSON name of a message type.
pub open spec fn message_type_name(t: MessageType) -> Seq<char> {
    match t {
        MessageType::Private => "private"@,
        MessageType::Group => "group"@,
    }
}

/// One string entry when the value is present.
pub open spec fn opt_str_entry(k: Seq<char>, v: Option<Seq<char>>) -> Seq<(Seq<char>, Json)> {
    match v {
        Some(s) => seq![(k, jstr(s))],
        None => Seq::empty(),
    }
}

/// The JSON form of a sender; absent optional fields are left out.
pub open spec fn sender_json(s: SenderV) -> Json {
    jobj(
        seq![("user_id"@, jint(s.user_id)), ("nickname"@, jstr(s.nickname))] + opt_str_entry(
            "card"@,
            s.card,
        ) + opt_str_entry("sex"@, s.sex) + match s.age {
            Some(a) => seq![("age"@, jint(a as i64))],
            None => Seq::empty(),
        } + opt_str_entry("area"@, s.area) + opt_str_entry("level"@, s.level) + opt_str_entry(
            "role"@,
            s.role,
        ) + opt_str_entry("title"@, s.title),
    )
}

/// The OneBot v11 JSON of a message event.
pub open spec fn v11_message_json(m: MessageEventV) -> Json {
    let base = seq![
        ("post_type"@, jstr("message"@)),
        ("message_type"@, jstr(message_type_name(m.message_type))),
        ("sub_type"@, jstr(m.sub_type)),
        ("time"@, jint(m.time.secs())),
        ("self_id"@, jint(m.self_id)),
        ("message_id"@, jint(m.message_id)),
        ("user_id"@, jint(m.user_id)),
        ("message"@, segs_json(m.message)),
        ("raw_message"@, jstr(m.raw_message)),
        ("font"@, jint(m.font as i64)),
        ("sender"@, sender_json(m.sender)),
    ];
    match m.group_id {
        Some(g) => jobj(base.push(("group_id"@, jint(g)))),
        None => jobj(base),
    }
}

/// The extra data of a non-message event with its post type, time and
/// account written into it (when it is an object).
pub open spec fn stamped_json(o: OtherEventV, post_type: Seq<char>) -> Json {
    jset(
        jset(jset(o.extra, "post_type"@, jstr(post_type)), "time"@, jint(o.time.secs())),
        "self_id"@,
        jint(o.self_id),
    )
}

/// The OneBot v11 JSON of a gateway event.
pub open spec fn v11_event_json(e: EventV) -> Json {
    match e {
        EventV::Message(m) => v11_message_json(m),
        EventV::Notice(o) => stamped_json(o, "notice"@),
        EventV::Request(o) => stamped_json(o, "request"@),
        EventV::Meta(o) => stamped_json(o, "meta_event"@),
    }
}

fn push_opt_str(kvs: &mut Vec<(String, JsonValue)>, k: &str, v: &Option<String>)
    ensures
        entries_view(final(kvs)@) == entries_view(old(kvs)@) + opt_str_entry(k@, opt_str_view(*v)),
{
    match v {
        Some(s) => {
            kvs.push((owned(k), JsonValue::Str(s.clone())));
        },
        None => {},
    }
    assert(entries_view(kvs@) =~= entries_view(old(kvs)@) + opt_str_entry(k@, opt_str_view(*v)));
}

/// The JSON form of a sender.
pub fn sender_to_json(s: &Sender) -> (r: JsonValue)
    ensures
        r@ == sender_json(s@),
{
    let mut kvs: Vec<(String, JsonValue)> = Vec::new();
    kvs.push((owned("user_id"), JsonValue::from_i64(s.user_id)));
    kvs.push((owned("nickname"), JsonValue::Str(s.nickname.clone())));
    let ghost a = entries_view(kvs@);
    assert(a =~= seq![("user_id"@, jint(s.user_id)), ("nickname"@, jstr(s.nickname@))]);
    push_opt_str(&mut kvs, "card", &s.card);
    push_opt_str(&mut kvs, "sex", &s.sex);
    let ghost b = entries_view(kvs@);
    match s.age {
        Some(age) => {
            kvs.push((owned("age"), JsonValue::from_i64(age as i64)));
        },
        None => {},
    }
    let ghost c = entries_view(kvs@);
    assert(c =~= b + match s.age {
        Some(a) => seq![("age"@, jint(a as i64))],
        None => Seq::empty(),
    });
    push_opt_str(&mut kvs, "area", &s.area);
    push_opt_str(&mut kvs, "level", &s.level);
    push_opt_str(&mut kvs, "role", &s.role);
    push_opt_str(&mut kvs, "title", &s.title);
    assert(entries_view(kvs@) =~= seq![("user_id"@, jint(s.user_id)), ("nickname"@, jstr(s.nickname@))]
        + opt_str_entry("card"@, s@.card) + opt_str_entry("sex"@, s@.sex) + match s@.age {
        Some(a) => seq![("age"@, jint(a as i64))],
        None => Seq::empty(),
    } + opt_str_entry("area"@, s@.area) + opt_str_entry("level"@, s@.level) + opt_str_entry(
        "role"@,
        s@.role,
    ) + opt_str_entry("title"@, s@.title));
    object_from(kvs)
}

fn stamp(extra: &JsonValue, post_type: &str, secs: i64, self_id: i64) -> (r: JsonValue)
    ensures
        r@ == jset(
            jset(jset(extra@, "post_type"@, jstr(post_type@)), "time"@, jint(secs)),
            "self_id"@,
            jint(self_id),
        ),
{
    broadcast use group_json_view;

    match extra.copy() {
        JsonValue::Object(es) => {
            let mut es = es;
            object_insert(&mut es, owned("post_type"), JsonValue::from_str(post_type));
            object_insert(&mut es, owned("time"), JsonValue::from_i64(secs));
            object_insert(&mut es, owned("self_id"), JsonValue::from_i64(self_id));
            JsonValue::Object(es)
        },
        other => other,
    }
}

/// Converts a gateway event back to OneBot v11 JSON.
pub fn event_to_json(event: &Event) -> (r: JsonValue)
    ensures
        r@ == v11_event_json(event@),
{
    match event {
        Event::Message(msg) => {
            let ghost m = (**msg)@;
            let message = segments_to_json(&msg.message);
            let ghost mv = message@;
            let sender = sender_to_json(&msg.sender);
            let ghost sv = sender@;
            let mtype = match msg.message_type {
                MessageType::Private => "private",
                MessageType::Group => "group",
            };
            let mut kvs: Vec<(String, JsonValue)> = Vec::new();
            kvs.push((owned("post_type"), JsonValue::from_str("message")));
            kvs.push((owned("message_type"), JsonValue::from_str(mtype)));
            kvs.push((owned("sub_type"), JsonValue::Str(msg.sub_type.clone())));
            kvs.push((owned("time"), JsonValue::from_i64(msg.time.timestamp())));
            kvs.push((owned("self_id"), JsonValue::from_i64(msg.self_id)));
            kvs.push((owned("message_id"), JsonValue::from_i64(msg.message_id)));
            kvs.push((owned("user_id"), JsonValue::from_i64(msg.user_id)));
            kvs.push((owned("message"), message));
            kvs.push((owned("raw_message"), JsonValue::Str(msg.raw_message.clone())));
            kvs.push((owned("font"), JsonValue::from_i64(msg.font as i64)));
            kvs.push((owned("sender"), sender));
            let ghost base = seq![
                ("post_type"@, jstr("message"@)),
                ("message_type"@, jstr(message_type_name(m.message_type))),
                ("sub_type"@, jstr(m.sub_type)),
                ("time"@, jint(m.time.secs())),
                ("self_id"@, jint(m.self_id)),
                ("message_id"@, jint(m.message_id)),
                ("user_id"@, jint(m.user_id)),
                ("message"@, mv),
                ("raw_message"@, jstr(m.raw_message)),
                ("font"@, jint(m.font as i64)),
                ("sender"@, sv),
            ];
            assert(entries_view(kvs@) =~= base);
            match msg.group_id {
                Some(g) => {
                    kvs.push((owned("group_id"), JsonValue::from_i64(g)));
                    assert(entries_view(kvs@) =~= base.push(("group_id"@, jint(g))));
                },
                None => {},
            }
            object_from(kvs)
        },
        Event::Notice(evt) => stamp(&evt.extra, "notice", evt.time.timestamp(), evt.self_id),
        Event::Request(evt) => stamp(&evt.extra, "request", evt.time.timestamp(), evt.self_id),
        Event::Meta(evt) => stamp(&evt.extra, "meta_event", evt.time.timestamp(), evt.self_id),
    }
}


// ---------------------------------------------------------------------------
// Reading and writing back
// ---------------------------------------------------------------------------

/// The post type an event is written back with: `message_sent` posts are
/// written as `message`.
pub open spec fn written_post_type(pt: Seq<char>) -> Seq<char> {
    if pt == "message_sent"@ {
        "message"@
    } else {
        pt
    }
}

/// A OneBot v11 post read into an event and written back as OneBot v11
/// keeps its post type (`message_sent` becomes `message`), its account
/// (0 when it had none) and its time (the clock's when it had none).
pub proof fn lemma_v11_round_trip(raw: Json, id: u128, now: Timestamp)
    requires
        sorted_object(raw),
        v11_event(raw, id, now) is Ok,
    ensures
        ({
            let out = v11_event_json(v11_event(raw, id, now)->Ok_0);
            &&& jget(out, "post_type"@) == Some(jstr(written_post_type(ostr(jget(raw, "post_type"@))->0)))
            &&& jget(out, "self_id"@) == Some(jint(i64_or_zero(jget(raw, "self_id"@))))
            &&& jget(out, "time"@) == Some(jint(v11_time(raw, now).secs()))
        }),
{
    reveal_strlit("post_type");
    reveal_strlit("time");
    reveal_strlit("self_id");
    reveal_strlit("message_sent");
    reveal_strlit("message");
    let e = v11_event(raw, id, now)->Ok_0;
    let pt = ostr(jget(raw, "post_type"@))->0;
    let self_id = i64_or_zero(jget(raw, "self_id"@));
    let time = v11_time(raw, now);
    match e {
        EventV::Message(m) => {
            lemma_message_json_fields(m);
        },
        EventV::Notice(o) => {
            lemma_stamped_fields(o, "notice"@);
        },
        EventV::Request(o) => {
            lemma_stamped_fields(o, "request"@);
        },
        EventV::Meta(o) => {
            lemma_stamped_fields(o, "meta_event"@);
        },
    }
}

proof fn lemma_stamped_fields(o: OtherEventV, post_type: Seq<char>)
    requires
        sorted_object(o.extra),
    ensures
        jget(stamped_json(o, post_type), "post_type"@) == Some(jstr(post_type)),
        jget(stamped_json(o, post_type), "self_id"@) == Some(jint(o.self_id)),
        jget(stamped_json(o, post_type), "time"@) == Some(jint(o.time.secs())),
{
    reveal_strlit("post_type");
    reveal_strlit("time");
    reveal_strlit("self_id");
    let j1 = jset(o.extra, "post_type"@, jstr(post_type));
    let j2 = jset(j1, "time"@, jint(o.time.secs()));
    lemma_jset_then_jget(o.extra, "post_type"@, jstr(post_type), "post_type"@);
    lemma_jset_then_jget(j1, "time"@, jint(o.time.secs()), "post_type"@);
    lemma_jset_then_jget(j1, "time"@, jint(o.time.secs()), "time"@);
    lemma_jset_then_jget(j2, "self_id"@, jint(o.self_id), "post_type"@);
    lemma_jset_then_jget(j2, "self_id"@, jint(o.self_id), "time"@);
    lemma_jset_then_jget(j2, "self_id"@, jint(o.self_id), "self_id"@);
}

proof fn lemma_message_json_fields(m: MessageEventV)
    ensures
        jget(v11_message_json(m), "post_type"@) == Some(jstr("message"@)),
        jget(v11_message_json(m), "self_id"@) == Some(jint(m.self_id)),
        jget(v11_message_json(m), "time"@) == Some(jint(m.time.secs())),
{
    reveal_strlit("post_type");
    reveal_strlit("message_type");
    reveal_strlit("sub_type");
    reveal_strlit("time");
    reveal_strlit("self_id");
    reveal_strlit("message_id");
    reveal_strlit("user_id");
    reveal_strlit("message");
    reveal_strlit("raw_message");
    reveal_strlit("font");
    reveal_strlit("sender");
    reveal_strlit("group_id");
    assert("self_id"@[0] != "user_id"@[0]);
    assert("self_id"@[0] != "message"@[0]);
    assert("time"@[0] != "font"@[0]);
    let base = seq![
        ("post_type"@, jstr("message"@)),
        ("message_type"@, jstr(message_type_name(m.message_type))),
        ("sub_type"@, jstr(m.sub_type)),
        ("time"@, jint(m.time.secs())),
        ("self_id"@, jint(m.self_id)),
        ("message_id"@, jint(m.message_id)),
        ("user_id"@, jint(m.user_id)),
        ("message"@, segs_json(m.message)),
        ("raw_message"@, jstr(m.raw_message)),
        ("font"@, jint(m.font as i64)),
        ("sender"@, sender_json(m.sender)),
    ];
    let kvs = match m.group_id {
        Some(g) => base.push(("group_id"@, jint(g))),
        None => base,
    };
    assert(v11_message_json(m) == jobj(kvs));
    assert forall|j: int| 1 <= j < kvs.len() implies (#[trigger] kvs[j]).0 != "post_type"@ by {
        assert(kvs[j].0.len() != "post_type"@.len());
    }
    lemma_last_value_skip(kvs, "post_type"@, 1, kvs.len() as int);
    reveal_with_fuel(last_value, 13);
    lemma_jobj_get(kvs, "post_type"@);
    lemma_jobj_get(kvs, "self_id"@);
    lemma_jobj_get(kvs, "time"@);
}

/// A notice, request or meta-event post (an object with sorted keys whose
/// post type, account and time are stored as a string and integers, the
/// time within the calendar's range) read into an event and written back
/// as OneBot v11 is the same post, member for member.
pub proof fn lemma_v11_post_round_trip(raw: Json, id: u128, now: Timestamp, pt: Seq<char>, self_id: i64, ts: i64)
    requires
        sorted_object(raw),
        pt == "notice"@ || pt == "request"@ || pt == "meta_event"@,
        jget(raw, "post_type"@) == Some(jstr(pt)),
        jget(raw, "self_id"@) == Some(jint(self_id)),
        jget(raw, "time"@) == Some(jint(ts)),
        utc_representable(ts),
    ensures
        v11_event(raw, id, now) matches Ok(e) && v11_event_json(e) == raw,
{
    reveal_strlit("notice");
    reveal_strlit("request");
    reveal_strlit("meta_event");
    reveal_strlit("message");
    reveal_strlit("message_sent");
    Timestamp::lemma_at_secs(ts);
    assert(oi64(jget(raw, "time"@)) == Some(ts));
    assert(oi64(jget(raw, "self_id"@)) == Some(self_id));
    assert(v11_time(raw, now) == Timestamp::at_secs(ts));
    assert(pt != "message"@ && pt != "message_sent"@) by {
        assert("message"@.len() == 7 && "message_sent"@.len() == 12);
        assert("notice"@.len() == 6 && "request"@.len() == 7 && "meta_event"@.len() == 10);
        if pt == "request"@ {
            assert("request"@[0] != "message"@[0]);
        }
    }
    lemma_jset_same(raw, "post_type"@, jstr(pt));
    lemma_jset_same(raw, "time"@, jint(ts));
    lemma_jset_same(raw, "self_id"@, jint(self_id));
}

} // verus!
