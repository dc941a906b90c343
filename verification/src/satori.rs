//! Satori protocol conversion: gateway events to Satori event bodies and
//! WebSocket signals, Satori HTTP API calls (`resource.method` plus a JSON
//! body) to OneBot v11 actions, and OneBot v11 responses back to Satori
//! resources.

use vstd::prelude::*;

use crate::api::{ApiRequest, ApiResponse, RequestV, ResponseV};
use crate::error::{ErrorV, GatewayError};
use crate::event::{
    Event, EventV, MessageEvent, MessageEventV, MessageType, MetaEvent, NoticeEvent, OtherEventV,
    RequestEvent, Sender, SenderV,
};
use crate::json::{
    entries_view, group_json_view, jget, jint, jobj, jstr, juint, object_from, ostr, ou64,
    str_or_empty, values_view, Json, JsonValue, last_value, lemma_jobj_get,
};
use crate::json_text::{json_text, num_text, to_json_text};
use crate::message::{segments_to_json, segs_json, segs_view, opt_str_view};
use crate::satori_elements::{
    elements_spec, parse_elements_spec, parse_satori_elements, segments_to_satori_elements,
};
use crate::text::{
    chars_of, i64_to_string, int_decimal, owned, parse_i64_spec, parse_i64_str, push_str, str_eq,
    string_from_chars, u64_to_string, nat_decimal,
};

verus! {

// ---------------------------------------------------------------------------
// Opcodes
// ---------------------------------------------------------------------------

/// WebSocket signal opcodes of the Satori protocol.
#[derive(Debug, Clone, Copy, PartialEq, Eq)]
pub enum Opcode {
    /// Server to client: an event.
    Event,
    /// Client to server: heartbeat ping.
    Ping,
    /// Server to client: heartbeat pong.
    Pong,
    /// Client to server: authentication.
    Identify,
    /// Server to client: authentication accepted.
    Ready,
    /// Server to client: metadata update.
    Meta,
}

/// The wire number of an opcode.
pub open spec fn opcode_number(op: Opcode) -> u8 {
    match op {
        Opcode::Event => 0,
        Opcode::Ping => 1,
        Opcode::Pong => 2,
        Opcode::Identify => 3,
        Opcode::Ready => 4,
        Opcode::Meta => 5,
    }
}

impl Opcode {
    /// The wire number of this opcode.
    pub fn as_u8(&self) -> (r: u8)
        ensures
            r == opcode_number(*self),
    {
        match self {
            Opcode::Event => 0,
            Opcode::Ping => 1,
            Opcode::Pong => 2,
            Opcode::Identify => 3,
            Opcode::Ready => 4,
            Opcode::Meta => 5,
        }
    }
}

// ---------------------------------------------------------------------------
// Small JSON builders
// ---------------------------------------------------------------------------

/// The decimal text of an integer as a JSON string.
pub open spec fn jdec(i: i64) -> Json {
    jstr(int_decimal(i as int))
}

pub(crate) fn dec_json(i: i64) -> (r: JsonValue)
    ensures
        r@ == jdec(i),
{
    JsonValue::Str(i64_to_string(i))
}

pub(crate) fn pair(k: &str, v: JsonValue) -> (r: (String, JsonValue))
    ensures
        r.0@ == k@,
        r.1@ == v@,
{
    (owned(k), v)
}

pub(crate) fn str_value(s: &str) -> (r: JsonValue)
    ensures
        r@ == jstr(s@),
{
    JsonValue::Str(owned(s))
}

// ---------------------------------------------------------------------------
// Events -> Satori
// ---------------------------------------------------------------------------

/// The Satori login object for an account.
pub open spec fn login_json(self_id: i64) -> Json {
    jobj(
        seq![
            ("sn"@, jint(0)),
            ("platform"@, jstr("qq"@)),
            ("user"@, jobj(seq![("id"@, jdec(self_id)), ("name"@, jdec(self_id))])),
            ("status"@, jint(1)),
        ],
    )
}

fn login_object(self_id: i64) -> (r: JsonValue)
    ensures
        r@ == login_json(self_id),
{
    let mut user: Vec<(String, JsonValue)> = Vec::new();
    user.push(pair("id", dec_json(self_id)));
    user.push(pair("name", dec_json(self_id)));
    assert(entries_view(user@) =~= seq![("id"@, jdec(self_id)), ("name"@, jdec(self_id))]);
    let user = object_from(user);
    let ghost uv = user@;
    let mut kvs: Vec<(String, JsonValue)> = Vec::new();
    kvs.push(pair("sn", JsonValue::from_i64(0)));
    kvs.push(pair("platform", str_value("qq")));
    kvs.push(pair("user", user));
    kvs.push(pair("status", JsonValue::from_i64(1)));
    assert(entries_view(kvs@) =~= seq![
        ("sn"@, jint(0)),
        ("platform"@, jstr("qq"@)),
        ("user"@, uv),
        ("status"@, jint(1)),
    ]);
    object_from(kvs)
}

/// The entries naming a user: nickname when non-empty, card when present
/// and non-empty.
pub open spec fn user_extra(s: Option<SenderV>) -> Seq<(Seq<char>, Json)> {
    match s {
        Some(s) => (if s.nickname.len() > 0 {
            seq![("name"@, jstr(s.nickname))]
        } else {
            Seq::empty()
        }) + (match s.card {
            Some(c) => if c.len() > 0 {
                seq![("nick"@, jstr(c))]
            } else {
                Seq::empty()
            },
            None => Seq::empty(),
        }),
        None => Seq::empty(),
    }
}

/// The Satori user object.
pub open spec fn user_json(user_id: i64, s: Option<SenderV>) -> Json {
    jobj(seq![("id"@, jdec(user_id))] + user_extra(s))
}

/// The view of an optional sender.
pub open spec fn opt_sender_view(s: Option<&Sender>) -> Option<SenderV> {
    match s {
        Some(x) => Some(x@),
        None => None,
    }
}

fn user_object(user_id: i64, sender: Option<&Sender>) -> (r: JsonValue)
    ensures
        r@ == user_json(user_id, opt_sender_view(sender)),
{
    let mut kvs: Vec<(String, JsonValue)> = Vec::new();
    kvs.push(pair("id", dec_json(user_id)));
    let ghost base = entries_view(kvs@);
    match sender {
        Some(s) => {
            if !s.nickname.as_str().is_empty() {
                kvs.push(pair("name", JsonValue::Str(s.nickname.clone())));
            }
            let ghost mid = entries_view(kvs@);
            match &s.card {
                Some(card) => {
                    if !card.as_str().is_empty() {
                        kvs.push(pair("nick", JsonValue::Str(card.clone())));
                    }
                },
                None => {},
            }
            assert(entries_view(kvs@) =~= seq![("id"@, jdec(user_id))] + user_extra(
                opt_sender_view(sender),
            ));
        },
        None => {
            assert(entries_view(kvs@) =~= seq![("id"@, jdec(user_id))] + user_extra(
                opt_sender_view(sender),
            ));
        },
    }
    object_from(kvs)
}

/// The Satori channel of a message: the group (a text channel) or the
/// sender (a direct channel).
pub open spec fn channel_json(m: MessageEventV) -> Json {
    match m.message_type {
        MessageType::Group => jobj(seq![("id"@, jdec(group_or_zero(m))), ("type"@, jint(0))]),
        MessageType::Private => jobj(seq![("id"@, jdec(m.user_id)), ("type"@, jint(1))]),
    }
}

/// The group of a message, or 0 when it has none.
pub open spec fn group_or_zero(m: MessageEventV) -> i64 {
    match m.group_id {
        Some(g) => g,
        None => 0,
    }
}

fn channel_object(msg: &MessageEvent) -> (r: JsonValue)
    ensures
        r@ == channel_json(msg@),
{
    let mut kvs: Vec<(String, JsonValue)> = Vec::new();
    match msg.message_type {
        MessageType::Group => {
            let gid = match msg.group_id {
                Some(g) => g,
                None => 0,
            };
            kvs.push(pair("id", dec_json(gid)));
            kvs.push(pair("type", JsonValue::from_i64(0)));
            assert(entries_view(kvs@) =~= seq![("id"@, jdec(gid)), ("type"@, jint(0))]);
            assert(channel_json(msg@) == jobj(seq![("id"@, jdec(gid)), ("type"@, jint(0))]));
        },
        MessageType::Private => {
            kvs.push(pair("id", dec_json(msg.user_id)));
            kvs.push(pair("type", JsonValue::from_i64(1)));
            assert(entries_view(kvs@) =~= seq![("id"@, jdec(msg.user_id)), ("type"@, jint(1))]);
            assert(channel_json(msg@) == jobj(seq![("id"@, jdec(msg.user_id)), ("type"@, jint(1))]));
        },
    }
    object_from(kvs)
}

/// The Satori guild of a group message.
pub open spec fn guild_json(m: MessageEventV) -> Option<Json> {
    match m.message_type {
        MessageType::Group => Some(jobj(seq![("id"@, jdec(group_or_zero(m)))])),
        MessageType::Private => None,
    }
}

fn guild_object(msg: &MessageEvent) -> (r: Option<JsonValue>)
    ensures
        match r {
            Some(v) => guild_json(msg@) == Some(v@),
            None => guild_json(msg@) is None,
        },
{
    match msg.message_type {
        MessageType::Group => {
            let gid = match msg.group_id {
                Some(g) => g,
                None => 0,
            };
            let mut kvs: Vec<(String, JsonValue)> = Vec::new();
            kvs.push(pair("id", dec_json(gid)));
            assert(entries_view(kvs@) =~= seq![("id"@, jdec(gid))]);
            Some(object_from(kvs))
        },
        MessageType::Private => None,
    }
}

/// The member object of a group message: the sender's card as `nick` when
/// present and non-empty.
pub open spec fn member_json(s: SenderV) -> Json {
    match s.card {
        Some(c) => if c.len() > 0 {
            jobj(seq![("nick"@, jstr(c))])
        } else {
            jobj(Seq::empty())
        },
        None => jobj(Seq::empty()),
    }
}

/// The Satori `message-created` body of a message event.
pub open spec fn message_created_json(m: MessageEventV, sn: u64) -> Json {
    let user = user_json(m.user_id, Some(m.sender));
    let base = seq![
        ("sn"@, juint(sn)),
        ("type"@, jstr("message-created"@)),
        ("timestamp"@, jint(m.time.millis() as i64)),
        ("login"@, login_json(m.self_id)),
        ("channel"@, channel_json(m)),
        ("user"@, user),
        ("message"@, jobj(
            seq![
                ("id"@, jdec(m.message_id)),
                ("content"@, jstr(elements_spec(m.message))),
                ("user"@, user),
                ("created_at"@, jint(m.time.millis() as i64)),
            ],
        )),
    ];
    match guild_json(m) {
        Some(g) => jobj(base + seq![("guild"@, g), ("member"@, member_json(m.sender))]),
        None => jobj(base),
    }
}

fn message_event_to_satori(msg: &MessageEvent, sn: u64) -> (r: JsonValue)
    ensures
        r@ == message_created_json(msg@, sn),
{
    let content = segments_to_satori_elements(msg.message.as_slice());
    let millis = msg.time.timestamp_millis();
    let ghost m = msg@;
    let ghost user_v = user_json(msg.user_id, Some(msg.sender@));
    let mut inner: Vec<(String, JsonValue)> = Vec::new();
    inner.push(pair("id", dec_json(msg.message_id)));
    inner.push(pair("content", JsonValue::Str(content)));
    inner.push(pair("user", user_object(msg.user_id, Some(&msg.sender))));
    inner.push(pair("created_at", JsonValue::from_i64(millis)));
    assert(entries_view(inner@) =~= seq![
        ("id"@, jdec(m.message_id)),
        ("content"@, jstr(elements_spec(m.message))),
        ("user"@, user_v),
        ("created_at"@, jint(m.time.millis() as i64)),
    ]);
    let message = object_from(inner);
    let ghost message_v = message@;
    let mut kvs: Vec<(String, JsonValue)> = Vec::new();
    kvs.push(pair("sn", JsonValue::from_u64(sn)));
    kvs.push(pair("type", str_value("message-created")));
    kvs.push(pair("timestamp", JsonValue::from_i64(millis)));
    kvs.push(pair("login", login_object(msg.self_id)));
    kvs.push(pair("channel", channel_object(msg)));
    kvs.push(pair("user", user_object(msg.user_id, Some(&msg.sender))));
    kvs.push(pair("message", message));
    let ghost base = seq![
        ("sn"@, juint(sn)),
        ("type"@, jstr("message-created"@)),
        ("timestamp"@, jint(m.time.millis() as i64)),
        ("login"@, login_json(m.self_id)),
        ("channel"@, channel_json(m)),
        ("user"@, user_v),
        ("message"@, message_v),
    ];
    assert(entries_view(kvs@) =~= base);
    match guild_object(msg) {
        Some(g) => {
            let ghost gv = g@;
            kvs.push(pair("guild", g));
            let mut member: Vec<(String, JsonValue)> = Vec::new();
            match &msg.sender.card {
                Some(card) => {
                    if !card.as_str().is_empty() {
                        member.push(pair("nick", JsonValue::Str(card.clone())));
                        assert(entries_view(member@) =~= seq![("nick"@, jstr(card@))]);
                    } else {
                        assert(entries_view(member@) =~= Seq::<(Seq<char>, Json)>::empty());
                    }
                },
                None => {
                    assert(entries_view(member@) =~= Seq::<(Seq<char>, Json)>::empty());
                },
            }
            let member = object_from(member);
            assert(member@ == member_json(m.sender));
            kvs.push(pair("member", member));
            assert(entries_view(kvs@) =~= base + seq![("guild"@, gv), ("member"@, member_json(m.sender))]);
        },
        None => {},
    }
    object_from(kvs)
}

/// The Satori event type for a notice type.
pub open spec fn notice_satori_type(t: Seq<char>) -> Seq<char> {
    if t == "group_increase"@ {
        "guild-member-added"@
    } else if t == "group_decrease"@ {
        "guild-member-removed"@
    } else if t == "group_ban"@ {
        "guild-member-updated"@
    } else if t == "group_recall"@ {
        "message-deleted"@
    } else if t == "friend_recall"@ {
        "message-deleted"@
    } else if t == "group_admin"@ {
        "guild-member-updated"@
    } else if t == "notify"@ {
        "interaction/button"@
    } else {
        "internal"@
    }
}

/// The Satori event type for a request type.
pub open spec fn request_satori_type(t: Seq<char>) -> Seq<char> {
    if t == "friend"@ {
        "friend-request"@
    } else if t == "group"@ {
        "guild-member-request"@
    } else {
        "internal"@
    }
}

/// The Satori event type for a meta event type.
pub open spec fn meta_satori_type(t: Seq<char>) -> Seq<char> {
    if t == "lifecycle"@ {
        "login-updated"@
    } else {
        "internal"@
    }
}

/// The Satori body of a non-message event with the given Satori type.
pub open spec fn plain_event_json(o: OtherEventV, satori_type: Seq<char>, sn: u64) -> Json {
    jobj(
        seq![
            ("sn"@, juint(sn)),
            ("type"@, jstr(satori_type)),
            ("timestamp"@, jint(o.time.millis() as i64)),
            ("login"@, login_json(o.self_id)),
        ],
    )
}

fn plain_event(self_id: i64, millis: i64, satori_type: &str, sn: u64) -> (r: JsonValue)
    ensures
        r@ == jobj(
            seq![
                ("sn"@, juint(sn)),
                ("type"@, jstr(satori_type@)),
                ("timestamp"@, jint(millis)),
                ("login"@, login_json(self_id)),
            ],
        ),
{
    let mut kvs: Vec<(String, JsonValue)> = Vec::new();
    kvs.push(pair("sn", JsonValue::from_u64(sn)));
    kvs.push(pair("type", str_value(satori_type)));
    kvs.push(pair("timestamp", JsonValue::from_i64(millis)));
    kvs.push(pair("login", login_object(self_id)));
    assert(entries_view(kvs@) =~= seq![
        ("sn"@, juint(sn)),
        ("type"@, jstr(satori_type@)),
        ("timestamp"@, jint(millis)),
        ("login"@, login_json(self_id)),
    ]);
    object_from(kvs)
}

fn notice_type_of(t: &str) -> (r: &'static str)
    ensures
        r@ == notice_satori_type(t@),
{
    if str_eq(t, "group_increase") {
        "guild-member-added"
    } else if str_eq(t, "group_decrease") {
        "guild-member-removed"
    } else if str_eq(t, "group_ban") {
        "guild-member-updated"
    } else if str_eq(t, "group_recall") {
        "message-deleted"
    } else if str_eq(t, "friend_recall") {
        "message-deleted"
    } else if str_eq(t, "group_admin") {
        "guild-member-updated"
    } else if str_eq(t, "notify") {
        "interaction/button"
    } else {
        "internal"
    }
}

fn notice_event_to_satori(evt: &NoticeEvent, sn: u64) -> (r: JsonValue)
    ensures
        r@ == plain_event_json(evt@, notice_satori_type(evt@.kind), sn),
{
    let t = notice_type_of(evt.notice_type.as_str());
    plain_event(evt.self_id, evt.time.timestamp_millis(), t, sn)
}

fn request_event_to_satori(evt: &RequestEvent, sn: u64) -> (r: JsonValue)
    ensures
        r@ == plain_event_json(evt@, request_satori_type(evt@.kind), sn),
{
    let t = if str_eq(evt.request_type.as_str(), "friend") {
        "friend-request"
    } else if str_eq(evt.request_type.as_str(), "group") {
        "guild-member-request"
    } else {
        "internal"
    };
    plain_event(evt.self_id, evt.time.timestamp_millis(), t, sn)
}

fn meta_event_to_satori(evt: &MetaEvent, sn: u64) -> (r: JsonValue)
    ensures
        r@ == plain_event_json(evt@, meta_satori_type(evt@.kind), sn),
{
    let t = if str_eq(evt.meta_event_type.as_str(), "lifecycle") {
        "login-updated"
    } else {
        "internal"
    };
    plain_event(evt.self_id, evt.time.timestamp_millis(), t, sn)
}

/// The Satori event body of a gateway event.
pub open spec fn satori_event_json(e: EventV, sn: u64) -> Json {
    match e {
        EventV::Message(m) => message_created_json(m, sn),
        EventV::Notice(o) => plain_event_json(o, notice_satori_type(o.kind), sn),
        EventV::Request(o) => plain_event_json(o, request_satori_type(o.kind), sn),
        EventV::Meta(o) => plain_event_json(o, meta_satori_type(o.kind), sn),
    }
}

/// Converts a gateway event into a Satori event body.
pub fn event_to_satori(event: &Event, sn: u64) -> (r: JsonValue)
    ensures
        r@ == satori_event_json(event@, sn),
{
    match event {
        Event::Message(msg) => message_event_to_satori(msg, sn),
        Event::Notice(evt) => notice_event_to_satori(evt, sn),
        Event::Request(evt) => request_event_to_satori(evt, sn),
        Event::Meta(evt) => meta_event_to_satori(evt, sn),
    }
}

/// The full WebSocket signal carrying an event: `{"op": 0, "body": ...}`.
pub open spec fn signal_json(e: EventV, sn: u64) -> Json {
    jobj(
        seq![("op"@, juint(opcode_number(Opcode::Event) as u64)), ("body"@, satori_event_json(e, sn))],
    )
}

/// Converts a gateway event into a Satori event signal.
pub fn event_to_signal(event: &Event, sn: u64) -> (r: JsonValue)
    ensures
        r@ == signal_json(event@, sn),
{
    let body = event_to_satori(event, sn);
    let ghost bv = body@;
    let op = Opcode::Event.as_u8();
    let mut kvs: Vec<(String, JsonValue)> = Vec::new();
    kvs.push(pair("op", JsonValue::from_u64(op as u64)));
    kvs.push(pair("body", body));
    assert(entries_view(kvs@) =~= seq![
        ("op"@, juint(opcode_number(Opcode::Event) as u64)),
        ("body"@, bv),
    ]);
    object_from(kvs)
}

// ---------------------------------------------------------------------------
// Satori API -> OneBot v11 actions
// ---------------------------------------------------------------------------

/// An integer given as a decimal string member.
pub open spec fn int_member(body: Json, k: Seq<char>) -> Option<i64> {
    match ostr(jget(body, k)) {
        Some(s) => parse_i64_spec(s),
        None => None,
    }
}

/// One integer entry when the value is present.
pub open spec fn opt_int_entry(k: Seq<char>, v: Option<i64>) -> Seq<(Seq<char>, Json)> {
    match v {
        Some(i) => seq![(k, jint(i))],
        None => Seq::empty(),
    }
}

/// `duration` (milliseconds) as whole seconds, when it is an unsigned integer.
pub open spec fn duration_entry(body: Json) -> Seq<(Seq<char>, Json)> {
    match ou64(jget(body, "duration"@)) {
        Some(d) => seq![("duration"@, juint(d / 1000))],
        None => Seq::empty(),
    }
}

/// The `send_*` action for a `message.create` call: a numeric channel is a
/// group, anything else goes to `send_msg`.
pub open spec fn message_create_action(body: Json) -> (Seq<char>, Json) {
    let message = segs_json(parse_elements_spec(str_or_empty(jget(body, "content"@))));
    match parse_i64_spec(str_or_empty(jget(body, "channel_id"@))) {
        Some(id) => ("send_group_msg"@, jobj(seq![("group_id"@, jint(id)), ("message"@, message)])),
        None => ("send_msg"@, jobj(seq![("message"@, message)])),
    }
}

/// The OneBot v11 action and parameters for a Satori `resource.method`
/// call, or `None` when the call is not supported.
pub open spec fn satori_action(rm: Seq<char>, body: Json) -> Option<(Seq<char>, Json)> {
    let group_from_guild = opt_int_entry("group_id"@, int_member(body, "guild_id"@));
    let user = opt_int_entry("user_id"@, int_member(body, "user_id"@));
    if rm == "message.create"@ {
        Some(message_create_action(body))
    } else if rm == "message.get"@ {
        Some(("get_msg"@, jobj(opt_int_entry("message_id"@, int_member(body, "message_id"@)))))
    } else if rm == "message.delete"@ {
        Some(("delete_msg"@, jobj(opt_int_entry("message_id"@, int_member(body, "message_id"@)))))
    } else if rm == "channel.get"@ {
        Some(("get_group_info"@, jobj(opt_int_entry("group_id"@, int_member(body, "channel_id"@)))))
    } else if rm == "channel.list"@ {
        Some(("get_group_list"@, jobj(Seq::empty())))
    } else if rm == "guild.get"@ {
        Some(("get_group_info"@, jobj(group_from_guild)))
    } else if rm == "guild.list"@ {
        Some(("get_group_list"@, jobj(Seq::empty())))
    } else if rm == "guild.member.get"@ {
        Some(("get_group_member_info"@, jobj(group_from_guild + user)))
    } else if rm == "guild.member.list"@ {
        Some(("get_group_member_list"@, jobj(group_from_guild)))
    } else if rm == "guild.member.kick"@ {
        Some(("set_group_kick"@, jobj(group_from_guild + user)))
    } else if rm == "guild.member.mute"@ {
        Some(("set_group_ban"@, jobj(group_from_guild + user + duration_entry(body))))
    } else if rm == "user.get"@ {
        Some(("get_stranger_info"@, jobj(user)))
    } else if rm == "friend.list"@ {
        Some(("get_friend_list"@, jobj(Seq::empty())))
    } else if rm == "login.get"@ {
        Some(("get_login_info"@, jobj(Seq::empty())))
    } else {
        None
    }
}

/// The error for an unsupported call.
pub open spec fn unsupported_satori(rm: Seq<char>) -> ErrorV {
    ErrorV::Internal("unsupported Satori API: "@ + rm)
}

fn str_member(body: &JsonValue, key: &str) -> (r: String)
    ensures
        r@ == str_or_empty(jget(body@, key@)),
{
    match body.get(key) {
        Some(v) => match v.as_str() {
            Some(s) => s.clone(),
            None => String::new(),
        },
        None => String::new(),
    }
}

fn int_member_of(body: &JsonValue, key: &str) -> (r: Option<i64>)
    ensures
        r == int_member(body@, key@),
{
    match body.get(key) {
        Some(v) => match v.as_str() {
            Some(s) => parse_i64_str(s.as_str()),
            None => None,
        },
        None => None,
    }
}

fn push_int_entry(kvs: &mut Vec<(String, JsonValue)>, k: &str, v: Option<i64>)
    ensures
        entries_view(final(kvs)@) == entries_view(old(kvs)@) + opt_int_entry(k@, v),
{
    match v {
        Some(i) => {
            kvs.push(pair(k, JsonValue::from_i64(i)));
        },
        None => {},
    }
    assert(entries_view(kvs@) =~= entries_view(old(kvs)@) + opt_int_entry(k@, v));
}

fn int_params(body: &JsonValue, k: &str, src: &str) -> (r: JsonValue)
    ensures
        r@ == jobj(opt_int_entry(k@, int_member(body@, src@))),
{
    let mut kvs: Vec<(String, JsonValue)> = Vec::new();
    push_int_entry(&mut kvs, k, int_member_of(body, src));
    assert(entries_view(kvs@) =~= opt_int_entry(k@, int_member(body@, src@)));
    object_from(kvs)
}

fn empty_params() -> (r: JsonValue)
    ensures
        r@ == jobj(Seq::empty()),
{
    let kvs: Vec<(String, JsonValue)> = Vec::new();
    assert(entries_view(kvs@) =~= Seq::<(Seq<char>, Json)>::empty());
    object_from(kvs)
}

fn member_params(body: &JsonValue, with_user: bool, with_duration: bool) -> (r: JsonValue)
    ensures
        r@ == jobj(
            opt_int_entry("group_id"@, int_member(body@, "guild_id"@)) + (if with_user {
                opt_int_entry("user_id"@, int_member(body@, "user_id"@))
            } else {
                Seq::empty()
            }) + (if with_duration {
                duration_entry(body@)
            } else {
                Seq::empty()
            }),
        ),
{
    let mut kvs: Vec<(String, JsonValue)> = Vec::new();
    push_int_entry(&mut kvs, "group_id", int_member_of(body, "guild_id"));
    let ghost a = entries_view(kvs@);
    if with_user {
        push_int_entry(&mut kvs, "user_id", int_member_of(body, "user_id"));
    }
    let ghost b = entries_view(kvs@);
    if with_duration {
        match body.get("duration") {
            Some(v) => match v.as_u64() {
                Some(d) => {
                    kvs.push(pair("duration", JsonValue::from_u64(d / 1000)));
                },
                None => {},
            },
            None => {},
        }
        assert(entries_view(kvs@) =~= b + duration_entry(body@));
    }
    assert(entries_view(kvs@) =~= opt_int_entry("group_id"@, int_member(body@, "guild_id"@)) + (
    if with_user {
        opt_int_entry("user_id"@, int_member(body@, "user_id"@))
    } else {
        Seq::empty()
    }) + (if with_duration {
        duration_entry(body@)
    } else {
        Seq::empty()
    }));
    object_from(kvs)
}

fn message_create(body: &JsonValue) -> (r: (String, JsonValue))
    ensures
        (r.0@, r.1@) == message_create_action(body@),
{
    let channel_id = str_member(body, "channel_id");
    let content = str_member(body, "content");
    let segments = parse_satori_elements(content.as_str());
    let message = segments_to_json(&segments);
    let ghost mv = message@;
    let mut kvs: Vec<(String, JsonValue)> = Vec::new();
    match parse_i64_str(channel_id.as_str()) {
        Some(id) => {
            kvs.push(pair("group_id", JsonValue::from_i64(id)));
            kvs.push(pair("message", message));
            assert(entries_view(kvs@) =~= seq![("group_id"@, jint(id)), ("message"@, mv)]);
            (owned("send_group_msg"), object_from(kvs))
        },
        None => {
            kvs.push(pair("message", message));
            assert(entries_view(kvs@) =~= seq![("message"@, mv)]);
            (owned("send_msg"), object_from(kvs))
        },
    }
}

fn unsupported(rm: &str) -> (r: GatewayError)
    ensures
        r@ == unsupported_satori(rm@),
{
    let mut buf: Vec<char> = Vec::new();
    push_str(&mut buf, "unsupported Satori API: ");
    push_str(&mut buf, rm);
    GatewayError::Internal(string_from_chars(buf.as_slice()))
}

/// Translates a Satori `resource.method` call and its body into a OneBot
/// v11 action and parameters.
fn translate_satori_api(rm: &str, body: JsonValue) -> (r: Result<(String, JsonValue), GatewayError>)
    ensures
        match r {
            Ok((a, p)) => satori_action(rm@, body@) == Some((a@, p@)),
            Err(e) => satori_action(rm@, body@) is None && e@ == unsupported_satori(rm@),
        },
{
    let b = &body;
    if str_eq(rm, "message.create") {
        Ok(message_create(b))
    } else if str_eq(rm, "message.get") {
        Ok((owned("get_msg"), int_params(b, "message_id", "message_id")))
    } else if str_eq(rm, "message.delete") {
        Ok((owned("delete_msg"), int_params(b, "message_id", "message_id")))
    } else if str_eq(rm, "channel.get") {
        Ok((owned("get_group_info"), int_params(b, "group_id", "channel_id")))
    } else if str_eq(rm, "channel.list") {
        Ok((owned("get_group_list"), empty_params()))
    } else if str_eq(rm, "guild.get") {
        let p = member_params(b, false, false);
        assert(opt_int_entry("group_id"@, int_member(body@, "guild_id"@)) + Seq::empty()
            + Seq::empty() =~= opt_int_entry("group_id"@, int_member(body@, "guild_id"@)));
        Ok((owned("get_group_info"), p))
    } else if str_eq(rm, "guild.list") {
        Ok((owned("get_group_list"), empty_params()))
    } else if str_eq(rm, "guild.member.get") {
        let p = member_params(b, true, false);
        assert(opt_int_entry("group_id"@, int_member(body@, "guild_id"@)) + opt_int_entry(
            "user_id"@,
            int_member(body@, "user_id"@),
        ) + Seq::empty() =~= opt_int_entry("group_id"@, int_member(body@, "guild_id"@))
            + opt_int_entry("user_id"@, int_member(body@, "user_id"@)));
        Ok((owned("get_group_member_info"), p))
    } else if str_eq(rm, "guild.member.list") {
        let p = member_params(b, false, false);
        assert(opt_int_entry("group_id"@, int_member(body@, "guild_id"@)) + Seq::empty()
            + Seq::empty() =~= opt_int_entry("group_id"@, int_member(body@, "guild_id"@)));
        Ok((owned("get_group_member_list"), p))
    } else if str_eq(rm, "guild.member.kick") {
        let p = member_params(b, true, false);
        assert(opt_int_entry("group_id"@, int_member(body@, "guild_id"@)) + opt_int_entry(
            "user_id"@,
            int_member(body@, "user_id"@),
        ) + Seq::empty() =~= opt_int_entry("group_id"@, int_member(body@, "guild_id"@))
            + opt_int_entry("user_id"@, int_member(body@, "user_id"@)));
        Ok((owned("set_group_kick"), p))
    } else if str_eq(rm, "guild.member.mute") {
        Ok((owned("set_group_ban"), member_params(b, true, true)))
    } else if str_eq(rm, "user.get") {
        Ok((owned("get_stranger_info"), int_params(b, "user_id", "user_id")))
    } else if str_eq(rm, "friend.list") {
        Ok((owned("get_friend_list"), empty_params()))
    } else if str_eq(rm, "login.get") {
        Ok((owned("get_login_info"), empty_params()))
    } else {
        Err(unsupported(rm))
    }
}

/// Parses a Satori API call (`resource.method`, JSON body, and the account
/// from the `Satori-User-ID` header) into a gateway API request.
pub fn parse_satori_api(rm: &str, body: JsonValue, self_id: Option<i64>) -> (r: Result<ApiRequest, GatewayError>)
    ensures
        match r {
            Ok(req) => satori_action(rm@, body@) matches Some((a, p)) && req@ == (RequestV {
                action: a,
                params: p,
                echo: None,
                self_id,
            }),
            Err(e) => satori_action(rm@, body@) is None && e@ == unsupported_satori(rm@),
        },
{
    match translate_satori_api(rm, body) {
        Ok((action, params)) => Ok(ApiRequest { action, params, echo: None, self_id }),
        Err(e) => Err(e),
    }
}

// ---------------------------------------------------------------------------
// OneBot v11 responses -> Satori resources
// ---------------------------------------------------------------------------

/// The text of an identifier value: a number in decimal, a string as it
/// is, anything else as compact JSON.
pub open spec fn id_text(v: Json) -> Seq<char> {
    match v {
        Json::Num(n) => num_text(n),
        Json::Str(s) => s,
        _ => json_text(v),
    }
}

/// The text of an optional identifier, empty when absent.
pub open spec fn id_or_empty(o: Option<Json>) -> Seq<char> {
    match o {
        Some(v) => id_text(v),
        None => Seq::empty(),
    }
}

/// `first` unless it is empty, then `second`.
pub open spec fn non_empty_or(first: Seq<char>, second: Seq<char>) -> Seq<char> {
    if first.len() == 0 {
        second
    } else {
        first
    }
}

/// A Satori channel (`with_type`) or guild built from a v11 group.
pub open spec fn group_item(g: Json, with_type: bool) -> Json {
    let id = jstr(id_or_empty(jget(g, "group_id"@)));
    let name = jstr(str_or_empty(jget(g, "group_name"@)));
    if with_type {
        jobj(seq![("id"@, id), ("type"@, jint(0)), ("name"@, name)])
    } else {
        jobj(seq![("id"@, id), ("name"@, name)])
    }
}

/// A Satori guild member built from a v11 member: the card, when set, is
/// the member's nick, else the nickname.
pub open spec fn member_item(m: Json) -> Json {
    let nick = str_or_empty(jget(m, "nickname"@));
    let card = str_or_empty(jget(m, "card"@));
    jobj(
        seq![
            ("user"@, jobj(seq![("id"@, jstr(id_or_empty(jget(m, "user_id"@)))), ("name"@, jstr(nick))])),
            ("nick"@, jstr(non_empty_or(card, nick))),
        ],
    )
}

/// A Satori user built from a v11 friend: the remark, when set, is the nick.
pub open spec fn friend_item(f: Json) -> Json {
    let nick = str_or_empty(jget(f, "nickname"@));
    let remark = str_or_empty(jget(f, "remark"@));
    jobj(
        seq![
            ("id"@, jstr(id_or_empty(jget(f, "user_id"@)))),
            ("name"@, jstr(nick)),
            ("nick"@, jstr(non_empty_or(remark, nick))),
        ],
    )
}

/// The kinds of list translated item by item.
pub enum ListKind {
    Channels,
    Guilds,
    Members,
    Friends,
}

/// One list item of the given kind.
pub open spec fn list_item(kind: ListKind, v: Json) -> Json {
    match kind {
        ListKind::Channels => group_item(v, true),
        ListKind::Guilds => group_item(v, false),
        ListKind::Members => member_item(v),
        ListKind::Friends => friend_item(v),
    }
}

/// `{"data": [...]}` with each item of an array translated; an empty list
/// when the data is not an array.
pub open spec fn list_json(kind: ListKind, data: Json) -> Json {
    match data {
        Json::Arr(a) => jobj(seq![("data"@, Json::Arr(Seq::new(a.len(), |i: int| list_item(kind, a[i]))))]),
        _ => jobj(seq![("data"@, Json::Arr(Seq::empty()))]),
    }
}

/// The Satori form of a successful v11 response's data.
pub open spec fn satori_result(rm: Seq<char>, data: Json) -> Json {
    if rm == "message.create"@ {
        Json::Arr(
            seq![jobj(seq![("id"@, jstr(id_or_empty(jget(data, "message_id"@)))), ("content"@, jstr(Seq::empty()))])],
        )
    } else if rm == "login.get"@ {
        jobj(
            seq![
                ("sn"@, jint(0)),
                ("platform"@, jstr("qq"@)),
                ("user"@, jobj(
                    seq![
                        ("id"@, jstr(id_or_empty(jget(data, "user_id"@)))),
                        ("name"@, jstr(str_or_empty(jget(data, "nickname"@)))),
                    ],
                )),
                ("status"@, jint(1)),
            ],
        )
    } else if rm == "user.get"@ {
        jobj(
            seq![
                ("id"@, jstr(id_or_empty(jget(data, "user_id"@)))),
                ("name"@, jstr(str_or_empty(jget(data, "nickname"@)))),
            ],
        )
    } else if rm == "channel.get"@ {
        group_item(data, true)
    } else if rm == "guild.get"@ {
        group_item(data, false)
    } else if rm == "channel.list"@ {
        list_json(ListKind::Channels, data)
    } else if rm == "guild.list"@ {
        list_json(ListKind::Guilds, data)
    } else if rm == "guild.member.get"@ {
        member_item(data)
    } else if rm == "guild.member.list"@ {
        list_json(ListKind::Members, data)
    } else if rm == "friend.list"@ {
        list_json(ListKind::Friends, data)
    } else {
        data
    }
}

/// The Satori form of a v11 response: a failed response's data passes
/// through unchanged.
pub open spec fn satori_response(rm: Seq<char>, resp: ResponseV) -> Json {
    if resp.retcode != 0 {
        resp.data
    } else {
        satori_result(rm, resp.data)
    }
}

pub(crate) fn id_text_of(v: &JsonValue) -> (r: String)
    ensures
        r@ == id_text(v@),
{
    match v {
        JsonValue::Number(_) => to_json_text(v),
        JsonValue::Str(s) => s.clone(),
        _ => to_json_text(v),
    }
}

fn id_member(v: &JsonValue, key: &str) -> (r: JsonValue)
    ensures
        r@ == jstr(id_or_empty(jget(v@, key@))),
{
    match v.get(key) {
        Some(x) => JsonValue::Str(id_text_of(x)),
        None => JsonValue::Str(String::new()),
    }
}

fn str_member_json(v: &JsonValue, key: &str) -> (r: JsonValue)
    ensures
        r@ == jstr(str_or_empty(jget(v@, key@))),
{
    JsonValue::Str(str_member(v, key))
}

fn group_item_of(g: &JsonValue, with_type: bool) -> (r: JsonValue)
    ensures
        r@ == group_item(g@, with_type),
{
    let id = id_member(g, "group_id");
    let name = str_member_json(g, "group_name");
    let ghost idv = id@;
    let ghost namev = name@;
    let mut kvs: Vec<(String, JsonValue)> = Vec::new();
    kvs.push(pair("id", id));
    if with_type {
        kvs.push(pair("type", JsonValue::from_i64(0)));
    }
    kvs.push(pair("name", name));
    if with_type {
        assert(entries_view(kvs@) =~= seq![("id"@, idv), ("type"@, jint(0)), ("name"@, namev)]);
    } else {
        assert(entries_view(kvs@) =~= seq![("id"@, idv), ("name"@, namev)]);
    }
    object_from(kvs)
}

fn member_item_of(m: &JsonValue) -> (r: JsonValue)
    ensures
        r@ == member_item(m@),
{
    let nick = str_member(m, "nickname");
    let card = str_member(m, "card");
    let id = id_member(m, "user_id");
    let ghost idv = id@;
    let mut user: Vec<(String, JsonValue)> = Vec::new();
    user.push(pair("id", id));
    user.push(pair("name", JsonValue::Str(nick.clone())));
    assert(entries_view(user@) =~= seq![("id"@, idv), ("name"@, jstr(nick@))]);
    let user = object_from(user);
    let ghost uv = user@;
    let shown = if card.as_str().is_empty() {
        nick
    } else {
        card
    };
    let mut kvs: Vec<(String, JsonValue)> = Vec::new();
    kvs.push(pair("user", user));
    kvs.push(pair("nick", JsonValue::Str(shown)));
    assert(entries_view(kvs@) =~= seq![
        ("user"@, uv),
        ("nick"@, jstr(non_empty_or(str_or_empty(jget(m@, "card"@)), str_or_empty(jget(m@, "nickname"@))))),
    ]);
    object_from(kvs)
}

fn friend_item_of(f: &JsonValue) -> (r: JsonValue)
    ensures
        r@ == friend_item(f@),
{
    let nick = str_member(f, "nickname");
    let remark = str_member(f, "remark");
    let id = id_member(f, "user_id");
    let ghost idv = id@;
    let ghost nv = nick@;
    let shown = if remark.as_str().is_empty() {
        nick.clone()
    } else {
        remark
    };
    let mut kvs: Vec<(String, JsonValue)> = Vec::new();
    kvs.push(pair("id", id));
    kvs.push(pair("name", JsonValue::Str(nick)));
    kvs.push(pair("nick", JsonValue::Str(shown)));
    assert(entries_view(kvs@) =~= seq![
        ("id"@, idv),
        ("name"@, jstr(nv)),
        ("nick"@, jstr(non_empty_or(str_or_empty(jget(f@, "remark"@)), nv))),
    ]);
    object_from(kvs)
}

fn list_item_of(kind: &ListKind, v: &JsonValue) -> (r: JsonValue)
    ensures
        r@ == list_item(*kind, v@),
{
    match kind {
        ListKind::Channels => group_item_of(v, true),
        ListKind::Guilds => group_item_of(v, false),
        ListKind::Members => member_item_of(v),
        ListKind::Friends => friend_item_of(v),
    }
}

fn list_of(kind: ListKind, data: &JsonValue) -> (r: JsonValue)
    ensures
        r@ == list_json(kind, data@),
{
    broadcast use group_json_view;

    let items = match data.as_array() {
        Some(arr) => {
            let mut out: Vec<JsonValue> = Vec::new();
            let mut i: usize = 0;
            while i < arr.len()
                invariant
                    i <= arr.len(),
                    data@ == Json::Arr(values_view(arr@)),
                    out@.len() == i,
                    forall|j: int| 0 <= j < i ==> (#[trigger] out@[j])@ == list_item(kind, arr@[j]@),
                decreases arr.len() - i,
            {
                out.push(list_item_of(&kind, &arr[i]));
                i = i + 1;
            }
            assert(values_view(out@) =~= Seq::new(
                values_view(arr@).len(),
                |j: int| list_item(kind, values_view(arr@)[j]),
            ));
            out
        },
        None => {
            let out: Vec<JsonValue> = Vec::new();
            assert(values_view(out@) =~= Seq::<Json>::empty());
            out
        },
    };
    let ghost iv = values_view(items@);
    let mut kvs: Vec<(String, JsonValue)> = Vec::new();
    kvs.push(pair("data", JsonValue::Array(items)));
    assert(entries_view(kvs@) =~= seq![("data"@, Json::Arr(iv))]);
    object_from(kvs)
}

/// Translates a OneBot v11 response into the Satori result for a
/// `resource.method` call.
pub fn translate_response(rm: &str, resp: ApiResponse) -> (r: JsonValue)
    ensures
        r@ == satori_response(rm@, resp@),
{
    broadcast use group_json_view;

    if resp.retcode != 0 {
        return resp.data;
    }
    let data = &resp.data;
    if str_eq(rm, "message.create") {
        let id = id_member(data, "message_id");
        let ghost idv = id@;
        let mut kvs: Vec<(String, JsonValue)> = Vec::new();
        kvs.push(pair("id", id));
        kvs.push(pair("content", JsonValue::Str(String::new())));
        assert(entries_view(kvs@) =~= seq![("id"@, idv), ("content"@, jstr(Seq::empty()))]);
        let item = object_from(kvs);
        let ghost itv = item@;
        let mut arr: Vec<JsonValue> = Vec::new();
        arr.push(item);
        assert(values_view(arr@) =~= seq![itv]);
        JsonValue::Array(arr)
    } else if str_eq(rm, "login.get") {
        let id = id_member(data, "user_id");
        let name = str_member_json(data, "nickname");
        let ghost idv = id@;
        let ghost nv = name@;
        let mut user: Vec<(String, JsonValue)> = Vec::new();
        user.push(pair("id", id));
        user.push(pair("name", name));
        assert(entries_view(user@) =~= seq![("id"@, idv), ("name"@, nv)]);
        let user = object_from(user);
        let ghost uv = user@;
        let mut kvs: Vec<(String, JsonValue)> = Vec::new();
        kvs.push(pair("sn", JsonValue::from_i64(0)));
        kvs.push(pair("platform", str_value("qq")));
        kvs.push(pair("user", user));
        kvs.push(pair("status", JsonValue::from_i64(1)));
        assert(entries_view(kvs@) =~= seq![
            ("sn"@, jint(0)),
            ("platform"@, jstr("qq"@)),
            ("user"@, uv),
            ("status"@, jint(1)),
        ]);
        object_from(kvs)
    } else if str_eq(rm, "user.get") {
        let id = id_member(data, "user_id");
        let name = str_member_json(data, "nickname");
        let ghost idv = id@;
        let ghost nv = name@;
        let mut kvs: Vec<(String, JsonValue)> = Vec::new();
        kvs.push(pair("id", id));
        kvs.push(pair("name", name));
        assert(entries_view(kvs@) =~= seq![("id"@, idv), ("name"@, nv)]);
        object_from(kvs)
    } else if str_eq(rm, "channel.get") {
        group_item_of(data, true)
    } else if str_eq(rm, "guild.get") {
        group_item_of(data, false)
    } else if str_eq(rm, "channel.list") {
        list_of(ListKind::Channels, data)
    } else if str_eq(rm, "guild.list") {
        list_of(ListKind::Guilds, data)
    } else if str_eq(rm, "guild.member.get") {
        member_item_of(data)
    } else if str_eq(rm, "guild.member.list") {
        list_of(ListKind::Members, data)
    } else if str_eq(rm, "friend.list") {
        list_of(ListKind::Friends, data)
    } else {
        resp.data
    }
}

// ---------------------------------------------------------------------------
// Laws: the OneBot-to-Satori tables
// ---------------------------------------------------------------------------

proof fn lemma_plain_type(o: OtherEventV, t: Seq<char>, sn: u64)
    ensures
        jget(plain_event_json(o, t, sn), "type"@) == Some(jstr(t)),
        jget(plain_event_json(o, t, sn), "sn"@) == Some(juint(sn)),
        jget(plain_event_json(o, t, sn), "timestamp"@) == Some(jint(o.time.millis() as i64)),
        jget(plain_event_json(o, t, sn), "login"@) == Some(login_json(o.self_id)),
{
    reveal_strlit("type");
    reveal_strlit("login");
    reveal_strlit("timestamp");
    reveal_strlit("sn");
    let kvs = seq![
        ("sn"@, juint(sn)),
        ("type"@, jstr(t)),
        ("timestamp"@, jint(o.time.millis() as i64)),
        ("login"@, login_json(o.self_id)),
    ];
    lemma_jobj_get(kvs, "type"@);
    lemma_jobj_get(kvs, "sn"@);
    lemma_jobj_get(kvs, "timestamp"@);
    lemma_jobj_get(kvs, "login"@);
    assert("sn"@.len() == 2 && "type"@.len() == 4 && "timestamp"@.len() == 9 && "login"@.len() == 5);
    assert(last_value(kvs, "login"@, 4) == Some(login_json(o.self_id)));
    assert(last_value(kvs, "timestamp"@, 3) == Some(jint(o.time.millis() as i64)));
    assert(last_value(kvs, "timestamp"@, 4) == last_value(kvs, "timestamp"@, 3));
    assert(last_value(kvs, "type"@, 2) == Some(jstr(t)));
    assert(last_value(kvs, "type"@, 3) == last_value(kvs, "type"@, 2));
    assert(last_value(kvs, "type"@, 4) == last_value(kvs, "type"@, 3));
    assert(last_value(kvs, "sn"@, 1) == Some(juint(sn)));
    assert(last_value(kvs, "sn"@, 2) == last_value(kvs, "sn"@, 1));
    assert(last_value(kvs, "sn"@, 3) == last_value(kvs, "sn"@, 2));
    assert(last_value(kvs, "sn"@, 4) == last_value(kvs, "sn"@, 3));
}

/// The Satori event of a notice has the type the OneBot-to-Satori table
/// gives its notice type: a member joining a group is `guild-member-added`,
/// one leaving `guild-member-removed`, a mute or an admin change
/// `guild-member-updated`, a recall in a group or between friends
/// `message-deleted`, a `notify` notice `interaction/button`, and any other
/// notice `internal`.
pub proof fn lemma_notice_event_types(o: OtherEventV, sn: u64)
    ensures
        ({
            let ty = jget(satori_event_json(EventV::Notice(o), sn), "type"@);
            let k = o.kind;
            &&& k == "group_increase"@ ==> ty == Some(jstr("guild-member-added"@))
            &&& k == "group_decrease"@ ==> ty == Some(jstr("guild-member-removed"@))
            &&& k == "group_ban"@ ==> ty == Some(jstr("guild-member-updated"@))
            &&& k == "group_admin"@ ==> ty == Some(jstr("guild-member-updated"@))
            &&& k == "group_recall"@ ==> ty == Some(jstr("message-deleted"@))
            &&& k == "friend_recall"@ ==> ty == Some(jstr("message-deleted"@))
            &&& k == "notify"@ ==> ty == Some(jstr("interaction/button"@))
            &&& !(k == "group_increase"@ || k == "group_decrease"@ || k == "group_ban"@ || k == "group_admin"@
                || k == "group_recall"@ || k == "friend_recall"@ || k == "notify"@) ==> ty == Some(
                jstr("internal"@),
            )
        }),
        jget(satori_event_json(EventV::Notice(o), sn), "sn"@) == Some(juint(sn)),
        jget(satori_event_json(EventV::Notice(o), sn), "timestamp"@) == Some(jint(o.time.millis() as i64)),
        jget(satori_event_json(EventV::Notice(o), sn), "login"@) == Some(login_json(o.self_id)),
{
    reveal_strlit("group_increase");
    reveal_strlit("group_decrease");
    reveal_strlit("group_ban");
    reveal_strlit("group_admin");
    reveal_strlit("group_recall");
    reveal_strlit("friend_recall");
    reveal_strlit("notify");
    lemma_plain_type(o, notice_satori_type(o.kind), sn);
    let k = o.kind;
    assert("group_decrease"@ != "group_increase"@) by {
        assert("group_decrease"@[6] != "group_increase"@[6]);
    }
    assert("group_increase"@.len() == 14 && "group_decrease"@.len() == 14 && "group_ban"@.len() == 9
        && "group_admin"@.len() == 11 && "group_recall"@.len() == 12 && "friend_recall"@.len() == 13
        && "notify"@.len() == 6);
    if k == "group_decrease"@ {
        assert(notice_satori_type(k) == "guild-member-removed"@);
    } else if k == "group_ban"@ {
        assert(notice_satori_type(k) == "guild-member-updated"@);
    } else if k == "group_admin"@ {
        assert(notice_satori_type(k) == "guild-member-updated"@);
    } else if k == "group_recall"@ {
        assert(notice_satori_type(k) == "message-deleted"@);
    } else if k == "friend_recall"@ {
        assert(notice_satori_type(k) == "message-deleted"@);
    } else if k == "notify"@ {
        assert(notice_satori_type(k) == "interaction/button"@);
    }
}

/// The Satori event of a request is `friend-request` for a friend request,
/// `guild-member-request` for a request to join a group, and `internal`
/// otherwise; that of a meta event is `login-updated` for a lifecycle
/// event and `internal` otherwise.
pub proof fn lemma_request_and_meta_event_types(o: OtherEventV, sn: u64)
    ensures
        ({
            let ty = jget(satori_event_json(EventV::Request(o), sn), "type"@);
            &&& o.kind == "friend"@ ==> ty == Some(jstr("friend-request"@))
            &&& o.kind == "group"@ ==> ty == Some(jstr("guild-member-request"@))
            &&& !(o.kind == "friend"@ || o.kind == "group"@) ==> ty == Some(jstr("internal"@))
        }),
        ({
            let ty = jget(satori_event_json(EventV::Meta(o), sn), "type"@);
            &&& o.kind == "lifecycle"@ ==> ty == Some(jstr("login-updated"@))
            &&& o.kind != "lifecycle"@ ==> ty == Some(jstr("internal"@))
        }),
{
    reveal_strlit("friend");
    reveal_strlit("group");
    reveal_strlit("lifecycle");
    assert("friend"@.len() == 6 && "group"@.len() == 5);
    lemma_plain_type(o, request_satori_type(o.kind), sn);
    lemma_plain_type(o, meta_satori_type(o.kind), sn);
}

/// An optional integer as an optional JSON number.
pub open spec fn int_json(v: Option<i64>) -> Option<Json> {
    match v {
        Some(i) => Some(jint(i)),
        None => None,
    }
}

/// The integer entries an object is built from, looked up by key.
proof fn lemma_int_entries(
    k1: Seq<char>,
    v1: Option<i64>,
    k2: Seq<char>,
    v2: Option<i64>,
    tail: Seq<(Seq<char>, Json)>,
    k: Seq<char>,
)
    requires
        k1 != k2,
        forall|j: int| 0 <= j < tail.len() ==> (#[trigger] tail[j]).0 != k1 && tail[j].0 != k2,
        tail.len() <= 1,
    ensures
        k == k1 ==> jget(jobj(opt_int_entry(k1, v1) + opt_int_entry(k2, v2) + tail), k) == int_json(v1),
        k == k2 ==> jget(jobj(opt_int_entry(k1, v1) + opt_int_entry(k2, v2) + tail), k) == int_json(v2),
        jget(jobj(opt_int_entry(k1, v1)), k1) == int_json(v1),
{
    let kvs = opt_int_entry(k1, v1) + opt_int_entry(k2, v2) + tail;
    lemma_jobj_get(kvs, k);
    lemma_jobj_get(opt_int_entry(k1, v1), k1);
    reveal_with_fuel(last_value, 4);
    assert(opt_int_entry(k1, v1).len() <= 1);
    assert(opt_int_entry(k2, v2).len() <= 1);
    if tail.len() == 1 {
        assert(kvs[kvs.len() - 1] == tail[0]);
    }
}

/// A Satori call is carried out by the OneBot v11 action of the table,
/// whatever its body: `message.get` by `get_msg` and `message.delete` by
/// `delete_msg` (each with the message id of the body), `channel.get` and
/// `guild.get` by `get_group_info` (with the channel's or the guild's id as
/// the group id), `channel.list` and `guild.list` by `get_group_list`,
/// `guild.member.get` by `get_group_member_info`, `guild.member.list` by
/// `get_group_member_list`, `guild.member.kick` by `set_group_kick` and
/// `guild.member.mute` by `set_group_ban` (with the guild as the group and
/// the user), `user.get` by `get_stranger_info`, `friend.list` by
/// `get_friend_list`, `login.get` by `get_login_info`, and `message.create`
/// by `send_group_msg` or `send_msg`; any other call is not supported.
pub proof fn lemma_satori_action_table(rm: Seq<char>, body: Json)
    ensures
        rm == "message.get"@ ==> (satori_action(rm, body) matches Some((a, p)) && a == "get_msg"@ && jget(
            p,
            "message_id"@,
        ) == int_json(int_member(body, "message_id"@))),
        rm == "message.delete"@ ==> (satori_action(rm, body) matches Some((a, p)) && a == "delete_msg"@
            && jget(p, "message_id"@) == int_json(int_member(body, "message_id"@))),
        rm == "channel.get"@ ==> (satori_action(rm, body) matches Some((a, p)) && a == "get_group_info"@
            && jget(p, "group_id"@) == int_json(int_member(body, "channel_id"@))),
        rm == "guild.get"@ ==> (satori_action(rm, body) matches Some((a, p)) && a == "get_group_info"@ && jget(
            p,
            "group_id"@,
        ) == int_json(int_member(body, "guild_id"@))),
        rm == "channel.list"@ ==> (satori_action(rm, body) matches Some((a, _)) && a == "get_group_list"@),
        rm == "guild.list"@ ==> (satori_action(rm, body) matches Some((a, _)) && a == "get_group_list"@),
        rm == "guild.member.get"@ ==> (satori_action(rm, body) matches Some((a, p)) && a
            == "get_group_member_info"@ && jget(p, "group_id"@) == int_json(int_member(body, "guild_id"@))
            && jget(p, "user_id"@) == int_json(int_member(body, "user_id"@))),
        rm == "guild.member.list"@ ==> (satori_action(rm, body) matches Some((a, p)) && a
            == "get_group_member_list"@ && jget(p, "group_id"@) == int_json(int_member(body, "guild_id"@))),
        rm == "guild.member.kick"@ ==> (satori_action(rm, body) matches Some((a, p)) && a == "set_group_kick"@
            && jget(p, "group_id"@) == int_json(int_member(body, "guild_id"@)) && jget(p, "user_id"@)
            == int_json(int_member(body, "user_id"@))),
        rm == "guild.member.mute"@ ==> (satori_action(rm, body) matches Some((a, p)) && a == "set_group_ban"@
            && jget(p, "group_id"@) == int_json(int_member(body, "guild_id"@)) && jget(p, "user_id"@)
            == int_json(int_member(body, "user_id"@))),
        rm == "user.get"@ ==> (satori_action(rm, body) matches Some((a, p)) && a == "get_stranger_info"@ && jget(
            p,
            "user_id"@,
        ) == int_json(int_member(body, "user_id"@))),
        rm == "friend.list"@ ==> (satori_action(rm, body) matches Some((a, _)) && a == "get_friend_list"@),
        rm == "login.get"@ ==> (satori_action(rm, body) matches Some((a, _)) && a == "get_login_info"@),
        rm == "message.create"@ ==> (satori_action(rm, body) matches Some((a, _)) && (a == "send_group_msg"@ || a
            == "send_msg"@)),
        rm == "message.create"@ ==> (satori_action(rm, body) matches Some((a, p)) && (a == "send_group_msg"@
            <==> parse_i64_spec(str_or_empty(jget(body, "channel_id"@))) is Some) && jget(p, "group_id"@)
            == int_json(parse_i64_spec(str_or_empty(jget(body, "channel_id"@))))),
        !(rm == "message.create"@ || rm == "message.get"@ || rm == "message.delete"@ || rm == "channel.get"@
            || rm == "channel.list"@ || rm == "guild.get"@ || rm == "guild.list"@ || rm == "guild.member.get"@
            || rm == "guild.member.list"@ || rm == "guild.member.kick"@ || rm == "guild.member.mute"@ || rm
            == "user.get"@ || rm == "friend.list"@ || rm == "login.get"@) ==> satori_action(rm, body) is None,
{
    lemma_call_names_distinct();
    lemma_satori_action_names(rm, body);
    reveal_strlit("group_id");
    reveal_strlit("user_id");
    reveal_strlit("duration");
    reveal_strlit("message_id");
    assert("message_id"@.len() == 10 && "user_id"@.len() == 7 && "group_id"@.len() == 8);
    assert("duration"@[0] != "group_id"@[0] && "duration"@.len() != "user_id"@.len());
    let g = int_member(body, "guild_id"@);
    let u = int_member(body, "user_id"@);
    let empty = Seq::<(Seq<char>, Json)>::empty();
    lemma_int_entries("message_id"@, int_member(body, "message_id"@), "user_id"@, None, empty, "message_id"@);
    lemma_int_entries("group_id"@, int_member(body, "channel_id"@), "user_id"@, None, empty, "group_id"@);
    lemma_int_entries("group_id"@, g, "user_id"@, u, empty, "group_id"@);
    lemma_int_entries("group_id"@, g, "user_id"@, u, empty, "user_id"@);
    lemma_int_entries("user_id"@, u, "group_id"@, None, empty, "user_id"@);
    assert(opt_int_entry("group_id"@, g) + opt_int_entry("user_id"@, u) + empty =~= opt_int_entry("group_id"@, g)
        + opt_int_entry("user_id"@, u));
    let d = duration_entry(body);
    assert forall|j: int| 0 <= j < d.len() implies (#[trigger] d[j]).0 != "group_id"@ && d[j].0 != "user_id"@ by {
        assert(d[j].0 == "duration"@);
    }
    lemma_int_entries("group_id"@, g, "user_id"@, u, d, "group_id"@);
    lemma_int_entries("group_id"@, g, "user_id"@, u, d, "user_id"@);
    reveal_strlit("message");
    reveal_strlit("send_group_msg");
    reveal_strlit("send_msg");
    assert("send_group_msg"@.len() != "send_msg"@.len());
    assert("message"@.len() != "group_id"@.len());
    let message = segs_json(parse_elements_spec(str_or_empty(jget(body, "content"@))));
    match parse_i64_spec(str_or_empty(jget(body, "channel_id"@))) {
        Some(id) => {
            let kvs = seq![("group_id"@, jint(id)), ("message"@, message)];
            lemma_jobj_get(kvs, "group_id"@);
            reveal_with_fuel(last_value, 3);
        },
        None => {
            let kvs = seq![("message"@, message)];
            lemma_jobj_get(kvs, "group_id"@);
            reveal_with_fuel(last_value, 2);
        },
    }
}

/// The Satori call names are distinct.
proof fn lemma_call_names_distinct()
    ensures
        "message.create"@ != "message.get"@,
        "message.create"@ != "message.delete"@,
        "message.get"@ != "message.delete"@,
        "message.get"@ != "channel.get"@,
        "message.get"@ != "friend.list"@,
        "channel.get"@ != "friend.list"@,
        "guild.get"@ != "login.get"@,
        "guild.member.list"@ != "guild.member.kick"@,
        "guild.member.list"@ != "guild.member.mute"@,
        "guild.member.kick"@ != "guild.member.mute"@,
        "message.create"@.len() == 14 && "message.get"@.len() == 11 && "message.delete"@.len() == 14
            && "channel.get"@.len() == 11 && "channel.list"@.len() == 12 && "guild.get"@.len() == 9
            && "guild.list"@.len() == 10 && "guild.member.get"@.len() == 16 && "guild.member.list"@.len() == 17
            && "guild.member.kick"@.len() == 17 && "guild.member.mute"@.len() == 17 && "user.get"@.len() == 8
            && "friend.list"@.len() == 11 && "login.get"@.len() == 9,
{
    reveal_strlit("message.create");
    reveal_strlit("message.get");
    reveal_strlit("message.delete");
    reveal_strlit("channel.get");
    reveal_strlit("channel.list");
    reveal_strlit("guild.get");
    reveal_strlit("guild.list");
    reveal_strlit("guild.member.get");
    reveal_strlit("guild.member.list");
    reveal_strlit("guild.member.kick");
    reveal_strlit("guild.member.mute");
    reveal_strlit("user.get");
    reveal_strlit("friend.list");
    reveal_strlit("login.get");
    assert("message.create"@.len() == 14 && "message.get"@.len() == 11 && "message.delete"@.len() == 14
        && "channel.get"@.len() == 11 && "channel.list"@.len() == 12 && "guild.get"@.len() == 9
        && "guild.list"@.len() == 10 && "guild.member.get"@.len() == 16 && "guild.member.list"@.len() == 17
        && "guild.member.kick"@.len() == 17 && "guild.member.mute"@.len() == 17 && "user.get"@.len() == 8
        && "friend.list"@.len() == 11 && "login.get"@.len() == 9);
    assert("message.create"@[8] != "message.delete"@[8]);
    assert("message.get"@[0] != "channel.get"@[0]);
    assert("message.get"@[0] != "friend.list"@[0]);
    assert("channel.get"@[0] != "friend.list"@[0]);
    assert("guild.get"@[0] != "login.get"@[0]);
    assert("guild.member.list"@[13] != "guild.member.kick"@[13]);
    assert("guild.member.list"@[13] != "guild.member.mute"@[13]);
    assert("guild.member.kick"@[13] != "guild.member.mute"@[13]);
}

/// Which action names the table gives.
proof fn lemma_satori_action_names(rm: Seq<char>, body: Json)
    ensures
        rm == "message.get"@ ==> (satori_action(rm, body) matches Some((a, _)) && a == "get_msg"@),
        rm == "message.delete"@ ==> (satori_action(rm, body) matches Some((a, _)) && a == "delete_msg"@),
        rm == "channel.get"@ ==> (satori_action(rm, body) matches Some((a, _)) && a == "get_group_info"@),
        rm == "guild.get"@ ==> (satori_action(rm, body) matches Some((a, _)) && a == "get_group_info"@),
        rm == "channel.list"@ ==> (satori_action(rm, body) matches Some((a, _)) && a == "get_group_list"@),
        rm == "guild.list"@ ==> (satori_action(rm, body) matches Some((a, _)) && a == "get_group_list"@),
        rm == "guild.member.get"@ ==> (satori_action(rm, body) matches Some((a, _)) && a
            == "get_group_member_info"@),
        rm == "guild.member.list"@ ==> (satori_action(rm, body) matches Some((a, _)) && a
            == "get_group_member_list"@),
        rm == "guild.member.kick"@ ==> (satori_action(rm, body) matches Some((a, _)) && a == "set_group_kick"@),
        rm == "guild.member.mute"@ ==> (satori_action(rm, body) matches Some((a, _)) && a == "set_group_ban"@),
        rm == "user.get"@ ==> (satori_action(rm, body) matches Some((a, _)) && a == "get_stranger_info"@),
        rm == "friend.list"@ ==> (satori_action(rm, body) matches Some((a, _)) && a == "get_friend_list"@),
        rm == "login.get"@ ==> (satori_action(rm, body) matches Some((a, _)) && a == "get_login_info"@),
        rm == "message.create"@ ==> (satori_action(rm, body) matches Some((a, _)) && (a == "send_group_msg"@ || a
            == "send_msg"@)),
{
    lemma_call_names_distinct();
}

} // verus!
