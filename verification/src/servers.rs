//! The decisions of the upstream protocol servers: how a OneBot v11, OneBot
//! v12 or Satori client request is authenticated, turned into an API call,
//! and answered; the Satori WebSocket handshake; and what the event
//! forwarder does with each event from a backend.

use vstd::prelude::*;

use crate::adapter::{AdapterInfo, AdapterState};
use crate::api::{opt_json_view, ApiRequest, ApiResponse, RequestV, ResponseV};
use crate::dedup::{check_step, fingerprint_spec, inc, is_dup, DedupFilter, DedupV};
use crate::error::{error_text, ErrorV, GatewayError};
use crate::event::Event;
use crate::failover::response_result_view;
use crate::json::{entries_view, values_view, group_json_view, jget, jint, jobj, jstr, juint, ou64, ostr, object_from, Json, JsonValue};
use crate::onebot_v12::{parse_v12_action, translate_v11_response, v12_request, v12_response};
use crate::satori::{pair, parse_satori_api, satori_action, satori_response, str_value, translate_response, unsupported_satori};
use crate::stats::AdapterSnapshot;
use crate::text::{chars_of, chars_eq, has_prefix, owned, parse_i64_spec, parse_i64_str, push_str, starts_with, string_from_chars};

verus! {

// ---------------------------------------------------------------------------
// OneBot v11 server
// ---------------------------------------------------------------------------

/// The retcode of a OneBot v11 call that could not be routed.
pub const ROUTE_FAILED_RETCODE: i32 = 1400;

/// The answer to an HTTP API call: the backend's response, or a failure
/// (retcode 1400) with the routing error's text.
pub open spec fn v11_http_answer(outcome: Result<ResponseV, ErrorV>) -> ResponseV {
    match outcome {
        Ok(r) => r,
        Err(e) => ResponseV { status: "failed"@, retcode: 1400, data: Json::Null, message: error_text(e), echo: None },
    }
}

/// Answers a OneBot v11 HTTP API call from its routing outcome.
pub fn v11_http_reply(outcome: Result<ApiResponse, GatewayError>) -> (r: ApiResponse)
    ensures
        r@ == v11_http_answer(response_result_view(outcome)),
{
    match outcome {
        Ok(resp) => resp,
        Err(e) => ApiResponse::fail(ROUTE_FAILED_RETCODE, e.to_text()),
    }
}

/// Answers a OneBot v11 WebSocket API call: as over HTTP, with the
/// request's echo (or none) in place of the response's.
pub fn v11_ws_reply(outcome: Result<ApiResponse, GatewayError>, echo: Option<JsonValue>) -> (r: ApiResponse)
    ensures
        r@ == (ResponseV { echo: opt_json_view(echo), ..v11_http_answer(response_result_view(outcome)) }),
{
    v11_http_reply(outcome).with_echo(echo)
}

/// The answer to a legacy HTTP API call whose body is not a request;
/// `detail` says why.
pub fn v11_invalid_request(detail: &str) -> (r: ApiResponse)
    ensures
        r@ == (ResponseV {
            status: "failed"@,
            retcode: 1400,
            data: Json::Null,
            message: "invalid request: "@ + detail@,
            echo: None,
        }),
{
    let mut buf: Vec<char> = Vec::new();
    push_str(&mut buf, "invalid request: ");
    push_str(&mut buf, detail);
    ApiResponse::fail(ROUTE_FAILED_RETCODE, string_from_chars(buf.as_slice()))
}

// ---------------------------------------------------------------------------
// OneBot v12 server
// ---------------------------------------------------------------------------

/// Whether a OneBot v12 request may pass: no token is set, its
/// `Authorization` header is `Bearer <token>`, or its `access_token` query
/// parameter is the token.
pub open spec fn v12_allowed(token: Seq<char>, authorization: Option<Seq<char>>, query_token: Option<Seq<char>>) -> bool {
    token.len() == 0 || (authorization matches Some(a) && has_prefix(a, "Bearer "@) && a.skip(7) == token) || (
    query_token matches Some(q) && q == token)
}

/// The view of an optional string slice.
pub open spec fn opt_str_view(o: Option<&str>) -> Option<Seq<char>> {
    match o {
        Some(s) => Some(s@),
        None => None,
    }
}

/// Whether a header value is `Bearer <token>`.
fn bearer_matches(value: &str, token: &Vec<char>) -> (r: bool)
    ensures
        r == (has_prefix(value@, "Bearer "@) && value@.skip(7) == token@),
{
    let v = chars_of(value);
    let prefix = chars_of("Bearer ");
    proof {
        reveal_strlit("Bearer ");
    }
    if !starts_with(v.as_slice(), prefix.as_slice()) {
        return false;
    }
    let mut rest: Vec<char> = Vec::new();
    let mut i: usize = 7;
    while i < v.len()
        invariant
            7 <= i <= v.len(),
            rest@ == v@.subrange(7, i as int),
        decreases v.len() - i,
    {
        rest.push(v[i]);
        i = i + 1;
    }
    assert(rest@ =~= value@.skip(7));
    chars_eq(rest.as_slice(), token.as_slice())
}

/// Authenticates a OneBot v12 request.
pub fn v12_token_ok(token: &str, authorization: Option<&str>, query_token: Option<&str>) -> (r: bool)
    ensures
        r == v12_allowed(token@, opt_str_view(authorization), opt_str_view(query_token)),
{
    let t = chars_of(token);
    if t.len() == 0 {
        return true;
    }
    if let Some(a) = authorization {
        if bearer_matches(a, &t) {
            return true;
        }
    }
    match query_token {
        Some(q) => {
            let qv = chars_of(q);
            chars_eq(qv.as_slice(), t.as_slice())
        },
        None => false,
    }
}

/// The retcode of a OneBot v12 action that could not be parsed.
pub const BAD_REQUEST_RETCODE: i32 = 10001;

/// The retcode of a OneBot v12 action that could not be carried out.
pub const HANDLER_FAILED_RETCODE: i32 = 20002;

/// An optional JSON value, `null` when absent.
pub open spec fn or_null(o: Option<Json>) -> Json {
    match o {
        Some(j) => j,
        None => Json::Null,
    }
}

/// A OneBot v12 failure reply.
pub open spec fn v12_error_json(retcode: i32, message: Seq<char>, echo: Option<Json>) -> Json {
    jobj(
        seq![
            ("status"@, jstr("failed"@)),
            ("retcode"@, jint(retcode as i64)),
            ("data"@, Json::Null),
            ("message"@, jstr(message)),
            ("echo"@, or_null(echo)),
        ],
    )
}

/// Builds a OneBot v12 failure reply.
pub fn v12_error_response(retcode: i32, message: &str, echo: Option<JsonValue>) -> (r: JsonValue)
    ensures
        r@ == v12_error_json(retcode, message@, opt_json_view(echo)),
{
    broadcast use group_json_view;

    let e = match echo {
        Some(j) => j,
        None => JsonValue::Null,
    };
    let mut kvs: Vec<(String, JsonValue)> = Vec::new();
    kvs.push(pair("status", str_value("failed")));
    kvs.push(pair("retcode", JsonValue::from_i64(retcode as i64)));
    kvs.push(pair("data", JsonValue::Null));
    kvs.push(pair("message", str_value(message)));
    kvs.push(pair("echo", e));
    assert(entries_view(kvs@) =~= seq![
        ("status"@, jstr("failed"@)),
        ("retcode"@, jint(retcode as i64)),
        ("data"@, Json::Null),
        ("message"@, jstr(message@)),
        ("echo"@, or_null(opt_json_view(echo))),
    ]);
    object_from(kvs)
}

/// The action name an action object asks for (empty when absent).
pub open spec fn action_name(raw: Json) -> Seq<char> {
    match ostr(jget(raw, "action"@)) {
        Some(a) => a,
        None => Seq::empty(),
    }
}

/// A OneBot v12 action object, read: the action name it asks for, its
/// echo, and the API call; or the failure reply (retcode 10001) when it is
/// not a valid action.
pub open spec fn v12_action_read(raw: Json) -> Result<(Seq<char>, Option<Json>, RequestV), Json> {
    match v12_request(raw) {
        Ok(req) => Ok((action_name(raw), jget(raw, "echo"@), req)),
        Err(e) => Err(v12_error_json(10001, error_text(e), jget(raw, "echo"@))),
    }
}

/// Reads a OneBot v12 action object into the API call it asks for.
pub fn v12_read_action(raw: JsonValue) -> (r: Result<(String, Option<JsonValue>, ApiRequest), JsonValue>)
    ensures
        match r {
            Ok((a, echo, req)) => v12_action_read(raw@) == Ok::<_, Json>((a@, opt_json_view(echo), req@)),
            Err(reply) => v12_action_read(raw@) == Err::<(Seq<char>, Option<Json>, RequestV), Json>(reply@),
        },
{
    broadcast use group_json_view;

    let action = match raw.get("action") {
        Some(v) => match v.as_str() {
            Some(s) => s.clone(),
            None => String::new(),
        },
        None => String::new(),
    };
    let echo = match raw.get("echo") {
        Some(e) => Some(e.copy()),
        None => None,
    };
    let ghost rv = raw@;
    match parse_v12_action(raw) {
        Ok(req) => Ok((action, echo, req)),
        Err(e) => {
            let t = e.to_text();
            let ghost ev = opt_json_view(echo);
            let reply = v12_error_response(BAD_REQUEST_RETCODE, t.as_str(), echo);
            assert(ev == jget(rv, "echo"@));
            Err(reply)
        },
    }
}

/// The answer to a routed OneBot v12 action: the backend's response in v12
/// form, or a failure (retcode 20002) with the routing error's text.
pub open spec fn v12_answer(action: Seq<char>, outcome: Result<ResponseV, ErrorV>, echo: Option<Json>) -> Json {
    match outcome {
        Ok(r) => v12_response(action, r),
        Err(e) => v12_error_json(20002, error_text(e), echo),
    }
}

/// Answers a routed OneBot v12 action.
pub fn v12_action_reply(action: &str, outcome: Result<ApiResponse, GatewayError>, echo: Option<JsonValue>) -> (r: JsonValue)
    ensures
        r@ == v12_answer(action@, response_result_view(outcome), opt_json_view(echo)),
{
    match outcome {
        Ok(resp) => translate_v11_response(action, resp),
        Err(e) => {
            let t = e.to_text();
            v12_error_response(HANDLER_FAILED_RETCODE, t.as_str(), echo)
        },
    }
}

/// The answer to a WebSocket action refused because too many are in
/// flight.
pub fn v12_overloaded(echo: Option<JsonValue>) -> (r: JsonValue)
    ensures
        r@ == v12_error_json(20002, "too many in-flight WS API requests"@, opt_json_view(echo)),
{
    v12_error_response(HANDLER_FAILED_RETCODE, "too many in-flight WS API requests", echo)
}

/// The action object for `POST /action/<action>` with a parameter body.
pub fn v12_named_action(action: &str, params: JsonValue) -> (r: JsonValue)
    ensures
        r@ == jobj(seq![("action"@, jstr(action@)), ("params"@, params@)]),
{
    let ghost pv = params@;
    let mut kvs: Vec<(String, JsonValue)> = Vec::new();
    kvs.push(pair("action", str_value(action)));
    kvs.push(pair("params", params));
    assert(entries_view(kvs@) =~= seq![("action"@, jstr(action@)), ("params"@, pv)]);
    object_from(kvs)
}

// ---------------------------------------------------------------------------
// Satori server
// ---------------------------------------------------------------------------

/// Whether a Satori request may pass: no token is set, or its
/// `Authorization` header is `Bearer <token>`.
pub open spec fn satori_allowed(token: Seq<char>, authorization: Option<Seq<char>>) -> bool {
    token.len() == 0 || (authorization matches Some(a) && has_prefix(a, "Bearer "@) && a.skip(7) == token)
}

/// Authenticates a Satori HTTP request.
pub fn satori_token_ok(token: &str, authorization: Option<&str>) -> (r: bool)
    ensures
        r == satori_allowed(token@, opt_str_view(authorization)),
{
    let t = chars_of(token);
    if t.len() == 0 {
        return true;
    }
    match authorization {
        Some(a) => bearer_matches(a, &t),
        None => false,
    }
}

/// The account a `Satori-User-ID` header names: its value read as an
/// integer, none when absent or not an integer.
pub fn satori_self_id(header: Option<&str>) -> (r: Option<i64>)
    ensures
        r == match header {
            Some(h) => parse_i64_spec(h@),
            None => None,
        },
{
    match header {
        Some(h) => parse_i64_str(h),
        None => None,
    }
}

/// `{"message": message}`, the body of a Satori HTTP error.
pub open spec fn satori_error_json(message: Seq<char>) -> Json {
    jobj(seq![("message"@, jstr(message))])
}

/// Builds the body of a Satori HTTP error.
pub fn satori_error_body(message: &str) -> (r: JsonValue)
    ensures
        r@ == satori_error_json(message@),
{
    let mut kvs: Vec<(String, JsonValue)> = Vec::new();
    kvs.push(pair("message", str_value(message)));
    assert(entries_view(kvs@) =~= seq![("message"@, jstr(message@))]);
    object_from(kvs)
}

/// A Satori HTTP call read: the API call, or the HTTP status (404) and body
/// of the error when the method is not supported. An empty body stands
/// for an empty object.
pub open spec fn satori_call(rm: Seq<char>, body: Option<Json>, self_id: Option<i64>) -> Result<RequestV, (u16, Json)> {
    let b = match body {
        Some(j) => j,
        None => Json::Obj(Seq::empty()),
    };
    match satori_action(rm, b) {
        Some((a, p)) => Ok(RequestV { action: a, params: p, echo: None, self_id }),
        None => Err((404u16, satori_error_json(error_text(unsupported_satori(rm))))),
    }
}

/// Reads a Satori HTTP call (`body` is `None` when the request body was
/// empty).
pub fn satori_read_call(rm: &str, body: Option<JsonValue>, self_id: Option<i64>) -> (r: Result<ApiRequest, (u16, JsonValue)>)
    ensures
        match r {
            Ok(req) => satori_call(rm@, opt_json_view(body), self_id) == Ok::<RequestV, (u16, Json)>(req@),
            Err((code, reply)) => satori_call(rm@, opt_json_view(body), self_id) == Err::<RequestV, (u16, Json)>((code, reply@)),
        },
{
    let b = match body {
        Some(j) => j,
        None => JsonValue::empty_object(),
    };
    match parse_satori_api(rm, b, self_id) {
        Ok(req) => Ok(req),
        Err(e) => {
            let t = e.to_text();
            Err((404, satori_error_body(t.as_str())))
        },
    }
}

/// The answer to a routed Satori HTTP call: status 200 and the response in
/// Satori form, or status 500 and the routing error's text.
pub open spec fn satori_answer(rm: Seq<char>, outcome: Result<ResponseV, ErrorV>) -> (u16, Json) {
    match outcome {
        Ok(r) => (200u16, satori_response(rm, r)),
        Err(e) => (500u16, satori_error_json(error_text(e))),
    }
}

/// Answers a routed Satori HTTP call.
pub fn satori_http_reply(rm: &str, outcome: Result<ApiResponse, GatewayError>) -> (r: (u16, JsonValue))
    ensures
        (r.0, r.1@) == satori_answer(rm@, response_result_view(outcome)),
{
    match outcome {
        Ok(resp) => (200, translate_response(rm, resp)),
        Err(e) => {
            let t = e.to_text();
            (500, satori_error_body(t.as_str()))
        },
    }
}

/// The opcode of a Satori signal (255 when it has none).
pub open spec fn signal_op(signal: Json) -> u64 {
    match ou64(jget(signal, "op"@)) {
        Some(op) => op,
        None => 255,
    }
}

/// Reads the opcode of a Satori signal.
pub fn read_signal_op(signal: &JsonValue) -> (r: u64)
    ensures
        r == signal_op(signal@),
{
    match signal.get("op") {
        Some(o) => match o.as_u64() {
            Some(n) => n,
            None => 255,
        },
        None => 255,
    }
}

/// What an IDENTIFY signal gives: whether its token is accepted, and the
/// sequence number it resumes from (0 when absent).
pub open spec fn identify_outcome(signal: Json, required_token: Seq<char>) -> (bool, u64) {
    let body = jget(signal, "body"@);
    let token = match body {
        Some(b) => match ostr(jget(b, "token"@)) {
            Some(t) => t,
            None => Seq::empty(),
        },
        None => Seq::empty(),
    };
    let sn = match body {
        Some(b) => match ou64(jget(b, "sn"@)) {
            Some(n) => n,
            None => 0,
        },
        None => 0,
    };
    (required_token.len() == 0 || token == required_token, sn)
}

/// Checks an IDENTIFY signal against the required token.
pub fn satori_identify(signal: &JsonValue, required_token: &str) -> (r: (bool, u64))
    ensures
        r == identify_outcome(signal@, required_token@),
{
    broadcast use group_json_view;

    let (token, sn) = match signal.get("body") {
        Some(b) => {
            let t = match b.get("token") {
                Some(v) => match v.as_str() {
                    Some(s) => s.clone(),
                    None => String::new(),
                },
                None => String::new(),
            };
            let n: u64 = match b.get("sn") {
                Some(v) => match v.as_u64() {
                    Some(n) => n,
                    None => 0,
                },
                None => 0,
            };
            (t, n)
        },
        None => (String::new(), 0),
    };
    let req = chars_of(required_token);
    if req.len() == 0 {
        return (true, sn);
    }
    let tv = chars_of(token.as_str());
    (chars_eq(tv.as_slice(), req.as_slice()), sn)
}

/// The READY signal, with no logins and no proxy URLs.
pub open spec fn ready_json() -> Json {
    jobj(
        seq![
            ("op"@, juint(4)),
            ("body"@, jobj(seq![("logins"@, Json::Arr(Seq::empty())), ("proxy_urls"@, Json::Arr(Seq::empty()))])),
        ],
    )
}

/// Builds the READY signal.
pub fn satori_ready() -> (r: JsonValue)
    ensures
        r@ == ready_json(),
{
    broadcast use group_json_view;

    let logins: Vec<JsonValue> = Vec::new();
    let proxies: Vec<JsonValue> = Vec::new();
    assert(values_view(logins@) =~= Seq::<Json>::empty());
    assert(values_view(proxies@) =~= Seq::<Json>::empty());
    let mut body: Vec<(String, JsonValue)> = Vec::new();
    body.push(pair("logins", JsonValue::Array(logins)));
    body.push(pair("proxy_urls", JsonValue::Array(proxies)));
    assert(entries_view(body@) =~= seq![("logins"@, Json::Arr(Seq::empty())), ("proxy_urls"@, Json::Arr(Seq::empty()))]);
    let b = object_from(body);
    let mut kvs: Vec<(String, JsonValue)> = Vec::new();
    kvs.push(pair("op", JsonValue::from_u64(4)));
    kvs.push(pair("body", b));
    assert(entries_view(kvs@) =~= seq![
        ("op"@, juint(4)),
        ("body"@, jobj(seq![("logins"@, Json::Arr(Seq::empty())), ("proxy_urls"@, Json::Arr(Seq::empty()))])),
    ]);
    object_from(kvs)
}

/// The answer to a signal from an identified client: PONG for a PING,
/// nothing for anything else.
pub open spec fn signal_answer(signal: Json) -> Option<Json> {
    if signal_op(signal) == 1 {
        Some(jobj(seq![("op"@, juint(2))]))
    } else {
        None
    }
}

/// Answers a signal from an identified client.
pub fn satori_answer_signal(signal: &JsonValue) -> (r: Option<JsonValue>)
    ensures
        opt_json_view(r) == signal_answer(signal@),
{
    if read_signal_op(signal) == 1 {
        let mut kvs: Vec<(String, JsonValue)> = Vec::new();
        kvs.push(pair("op", JsonValue::from_u64(2)));
        assert(entries_view(kvs@) =~= seq![("op"@, juint(2))]);
        Some(object_from(kvs))
    } else {
        None
    }
}

// ---------------------------------------------------------------------------
// Event forwarding and adapter snapshots
// ---------------------------------------------------------------------------

/// What the forwarder does with an event from a backend.
pub enum ForwardStep {
    /// The event was seen before: drop it.
    Drop,
    /// Publish the event; `count` events have now been forwarded, and
    /// `progress` says whether that count is a multiple of 1000.
    Publish { count: u64, progress: bool },
}

/// Decides on an event from a backend: with a filter, a duplicate is
/// dropped; otherwise the forwarded count goes up (wrapping) and the event
/// is published.
pub fn forward_step(dedup: &mut Option<DedupFilter>, event: &Event, count: u64) -> (r: ForwardStep)
    ensures
        match (*old(dedup), *final(dedup)) {
            (Some(f0), Some(f1)) => exists|now: u128|
                now >= f0@.clock && f1@ == (DedupV { clock: now, ..check_step(f0@, fingerprint_spec(event@), now) })
                    && ((r is Drop) == is_dup(f0@, fingerprint_spec(event@), now)),
            (None, None) => r is Publish,
            _ => false,
        },
        match r {
            ForwardStep::Drop => true,
            ForwardStep::Publish { count: c, progress } => c == inc(count) && progress == (c % 1000 == 0),
        },
{
    let dup = match dedup {
        Some(f) => f.is_duplicate(event),
        None => false,
    };
    if dup {
        return ForwardStep::Drop;
    }
    let c = count.wrapping_add(1);
    ForwardStep::Publish { count: c, progress: c % 1000 == 0 }
}

/// The snapshot of an adapter before any health check: healthy when
/// connected.
pub fn initial_snapshot(info: AdapterInfo) -> (r: AdapterSnapshot)
    ensures
        r.name == info.name,
        r.backend_type == info.backend_type,
        r.url == info.url,
        r.state == info.state,
        r.self_id == info.self_id,
        r.healthy == (info.state == AdapterState::Connected),
        r.health_check_ms is None,
        r.last_health_check is None,
{
    let healthy = info.state == AdapterState::Connected;
    AdapterSnapshot {
        name: info.name,
        backend_type: info.backend_type,
        url: info.url,
        state: info.state,
        self_id: info.self_id,
        healthy,
        health_check_ms: None,
        last_health_check: None,
    }
}

/// The snapshot of an adapter after a health check that took `latency_ms`
/// and finished at Unix time `now`.
pub fn checked_snapshot(info: AdapterInfo, healthy: bool, latency_ms: u64, now: u64) -> (r: AdapterSnapshot)
    ensures
        r.name == info.name,
        r.backend_type == info.backend_type,
        r.url == info.url,
        r.state == info.state,
        r.self_id == info.self_id,
        r.healthy == healthy,
        r.health_check_ms == Some(latency_ms),
        r.last_health_check == Some(now),
{
    AdapterSnapshot {
        name: info.name,
        backend_type: info.backend_type,
        url: info.url,
        state: info.state,
        self_id: info.self_id,
        healthy,
        health_check_ms: Some(latency_ms),
        last_health_check: Some(now),
    }
}

} // verus!
