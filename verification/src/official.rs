//! The official Bot API backend over HTTP: how action URLs are formed for
//! each API path layout, the order in which layouts are tried, and how a
//! backend's HTTP reply becomes an API response.

use vstd::prelude::*;

use crate::adapter::{state_name, AdapterState};
use crate::api::{copy_opt_json, opt_json_view, ApiResponse, ResponseV};
use crate::error::{ErrorV, GatewayError};
use crate::json::{group_json_view, jas_i64, jget, oi64, ostr, str_or_empty, Json, JsonValue};
use crate::satori_elements::{replace_all, replace_all_chars};
use crate::text::{
    chars_of, has_prefix, int_decimal, owned, push_chars, push_int_decimal, push_str, str_eq,
    string_from_chars, trim_chars, trim_spec,
};

verus! {

/// How action calls are addressed on a backend.
#[derive(Debug, Clone, Copy, PartialEq, Eq, Structural)]
pub enum ApiPathMode {
    /// The base URL contains `{action}`, replaced by the action name.
    Template,
    /// POST `<base>/api/<action>`.
    ApiPrefixed,
    /// POST `<base>/<action>`.
    DirectAction,
    /// POST `<base>` with the whole request as the body.
    LegacyBody,
}

/// The layouts to try, in order: the preferred one (the last that worked),
/// the template layout when the URL has an `{action}` placeholder, then the
/// prefixed, direct and legacy layouts, each once.
pub open spec fn candidate_modes_spec(preferred: Option<ApiPathMode>, has_template: bool) -> Seq<ApiPathMode> {
    let m0: Seq<ApiPathMode> = match preferred {
        Some(m) => seq![m],
        None => Seq::empty(),
    };
    let m1 = if has_template && !m0.contains(ApiPathMode::Template) {
        m0.push(ApiPathMode::Template)
    } else {
        m0
    };
    let m2 = if !m1.contains(ApiPathMode::ApiPrefixed) {
        m1.push(ApiPathMode::ApiPrefixed)
    } else {
        m1
    };
    let m3 = if !m2.contains(ApiPathMode::DirectAction) {
        m2.push(ApiPathMode::DirectAction)
    } else {
        m2
    };
    if !m3.contains(ApiPathMode::LegacyBody) {
        m3.push(ApiPathMode::LegacyBody)
    } else {
        m3
    }
}

fn contains_mode(v: &Vec<ApiPathMode>, m: ApiPathMode) -> (r: bool)
    ensures
        r == v@.contains(m),
{
    let mut i: usize = 0;
    while i < v.len()
        invariant
            i <= v.len(),
            forall|j: int| 0 <= j < i ==> v@[j] != m,
        decreases v.len() - i,
    {
        if v[i] == m {
            assert(v@[i as int] == m);
            return true;
        }
        i = i + 1;
    }
    false
}

/// The layouts to try for a backend URL, given the preferred layout.
pub fn candidate_modes(preferred: Option<ApiPathMode>, url: &str) -> (r: Vec<ApiPathMode>)
    ensures
        r@ == candidate_modes_spec(preferred, crate::text::contains_seq(url@, "{action}"@)),
{
    let mut modes: Vec<ApiPathMode> = Vec::new();
    match preferred {
        Some(m) => modes.push(m),
        None => {},
    }
    let u = chars_of(url);
    let p = chars_of("{action}");
    if crate::text::contains_chars(u.as_slice(), p.as_slice()) && !contains_mode(&modes, ApiPathMode::Template) {
        modes.push(ApiPathMode::Template);
    }
    if !contains_mode(&modes, ApiPathMode::ApiPrefixed) {
        modes.push(ApiPathMode::ApiPrefixed);
    }
    if !contains_mode(&modes, ApiPathMode::DirectAction) {
        modes.push(ApiPathMode::DirectAction);
    }
    if !contains_mode(&modes, ApiPathMode::LegacyBody) {
        modes.push(ApiPathMode::LegacyBody);
    }
    modes
}

/// `s` without its trailing `/` characters.
pub open spec fn trim_slashes(s: Seq<char>) -> Seq<char>
    decreases s.len(),
{
    if s.len() > 0 && s.last() == '/' {
        trim_slashes(s.drop_last())
    } else {
        s
    }
}

/// Whether `s` ends with `suffix`.
pub open spec fn has_suffix(s: Seq<char>, suffix: Seq<char>) -> bool {
    suffix.len() <= s.len() && s.subrange(s.len() - suffix.len(), s.len() as int) == suffix
}

/// The URL an action is posted to under a layout.
pub open spec fn action_url(url: Seq<char>, action: Seq<char>, mode: ApiPathMode) -> Seq<char> {
    let base = trim_slashes(url);
    match mode {
        ApiPathMode::Template => replace_all(url, "{action}"@, action),
        ApiPathMode::ApiPrefixed => if has_suffix(base, "/api"@) {
            base + "/"@ + action
        } else {
            base + "/api/"@ + action
        },
        ApiPathMode::DirectAction => base + "/"@ + action,
        ApiPathMode::LegacyBody => base,
    }
}

fn base_url(url: &Vec<char>) -> (r: Vec<char>)
    ensures
        r@ == trim_slashes(url@),
{
    let mut n: usize = url.len();
    assert(url@.take(url.len() as int) =~= url@);
    while n > 0 && url[n - 1] == '/'
        invariant
            n <= url.len(),
            trim_slashes(url@) == trim_slashes(url@.take(n as int)),
        decreases n,
    {
        assert(url@.take(n as int).drop_last() =~= url@.take(n - 1));
        n = n - 1;
    }
    proof {
        if n > 0 {
            assert(url@.take(n as int).last() == url@[n - 1]);
        }
    }
    assert(trim_slashes(url@) == url@.take(n as int));
    let mut out: Vec<char> = Vec::new();
    let mut i: usize = 0;
    while i < n
        invariant
            i <= n <= url.len(),
            out@ == url@.take(i as int),
            trim_slashes(url@) == url@.take(n as int),
        decreases n - i,
    {
        out.push(url[i]);
        assert(url@.take(i + 1) =~= url@.take(i as int).push(url@[i as int]));
        i = i + 1;
    }
    out
}

fn ends_with(s: &Vec<char>, suffix: &str) -> (r: bool)
    ensures
        r == has_suffix(s@, suffix@),
{
    let p = chars_of(suffix);
    if p.len() > s.len() {
        return false;
    }
    let off = s.len() - p.len();
    let mut i: usize = 0;
    while i < p.len()
        invariant
            i <= p.len(),
            p@ == suffix@,
            off + p.len() == s.len(),
            forall|j: int| 0 <= j < i ==> s@[off + j] == p@[j],
        decreases p.len() - i,
    {
        if s[off + i] != p[i] {
            assert(s@.subrange(off as int, s.len() as int)[i as int] != p@[i as int]);
            assert(s@.subrange(off as int, s.len() as int) != suffix@);
            return false;
        }
        i = i + 1;
    }
    assert(s@.subrange(off as int, s.len() as int) =~= p@);
    true
}

/// The URL an action is posted to under a layout.
pub fn build_action_url(url: &str, action: &str, mode: ApiPathMode) -> (r: String)
    ensures
        r@ == action_url(url@, action@, mode),
{
    let u = chars_of(url);
    let base = base_url(&u);
    let mut out: Vec<char> = Vec::new();
    match mode {
        ApiPathMode::Template => {
            proof {
                reveal_strlit("{action}");
            }
            out = replace_all_chars(&u, "{action}", action);
        },
        ApiPathMode::ApiPrefixed => {
            push_chars(&mut out, &base);
            if ends_with(&base, "/api") {
                push_str(&mut out, "/");
            } else {
                push_str(&mut out, "/api/");
            }
            push_str(&mut out, action);
        },
        ApiPathMode::DirectAction => {
            push_chars(&mut out, &base);
            push_str(&mut out, "/");
            push_str(&mut out, action);
        },
        ApiPathMode::LegacyBody => {
            push_chars(&mut out, &base);
        },
    }
    assert(out@ =~= action_url(url@, action@, mode));
    string_from_chars(out.as_slice())
}

/// The first `max_chars` characters of `body`, followed by `...` when it
/// is longer.
pub open spec fn truncated(body: Seq<char>, max_chars: nat) -> Seq<char> {
    if body.len() > max_chars {
        body.take(max_chars as int) + "..."@
    } else {
        body
    }
}

/// Shortens a response body for an error message.
pub fn truncate_body(body: &str, max_chars: usize) -> (r: String)
    ensures
        r@ == truncated(body@, max_chars as nat),
{
    let cs = chars_of(body);
    let mut out: Vec<char> = Vec::new();
    let mut i: usize = 0;
    while i < cs.len()
        invariant
            i <= cs.len(),
            i <= max_chars,
            cs@ == body@,
            out@ == cs@.take(i as int),
        decreases cs.len() - i,
    {
        if i >= max_chars {
            push_str(&mut out, "...");
            assert(out@ =~= truncated(body@, max_chars as nat));
            return string_from_chars(out.as_slice());
        }
        out.push(cs[i]);
        assert(cs@.take(i + 1) =~= cs@.take(i as int).push(cs@[i as int]));
        i = i + 1;
    }
    assert(cs@.take(cs.len() as int) =~= cs@);
    string_from_chars(out.as_slice())
}

/// The text of an HTTP status, as the HTTP library writes it (code and
/// reason phrase).
pub uninterp spec fn status_line(code: u16) -> Seq<char>;

/// The text of an HTTP status code.
///
/// Trusted: calls `reqwest::StatusCode::from_u16` and its `Display`, which
/// writes the code and its canonical reason phrase; every code in
/// 100..=999 is accepted. The contract names the text as a function of the
/// code.
#[verifier::external_body]
fn status_text(code: u16) -> (r: String)
    requires
        100 <= code <= 999,
    ensures
        r@ == status_line(code),
{
    match reqwest::StatusCode::from_u16(code) {
        Ok(s) => s.to_string(),
        Err(_) => String::new(),
    }
}

/// The API response (or error) for a backend's HTTP reply to an action
/// call: `code` is the HTTP status, `body` the text, `typed` the body read
/// as an API response (when it is one), `value` the body read as JSON (or
/// why it is not JSON), `echo` the request's echo.
pub open spec fn official_response(
    action: Seq<char>,
    code: u16,
    body: Seq<char>,
    typed: Option<ResponseV>,
    value: Result<Json, Seq<char>>,
    echo: Option<Json>,
) -> Result<ResponseV, ErrorV> {
    if !(200 <= code <= 299) {
        Err(
            ErrorV::Http(
                "official API call failed: action="@ + action + ", status="@ + status_line(code)
                    + ", body="@ + truncated(body, 256),
            ),
        )
    } else if trim_spec(body).len() == 0 {
        Ok(ResponseV { status: "ok"@, retcode: 0, data: Json::Null, message: Seq::empty(), echo })
    } else {
        match typed {
            Some(t) => Ok(
                if t.echo is None {
                    ResponseV { echo, ..t }
                } else {
                    t
                },
            ),
            None => match value {
                Err(e) => Err(ErrorV::Http("invalid JSON response for "@ + action + ": "@ + e)),
                Ok(v) => Ok(
                    ResponseV {
                        status: match ostr(jget(v, "status"@)) {
                            Some(s) => s,
                            None => "ok"@,
                        },
                        retcode: (match oi64(jget(v, "retcode"@)) {
                            Some(c) => c,
                            None => 0,
                        }) as i32,
                        data: match jget(v, "data"@) {
                            Some(d) => d,
                            None => v,
                        },
                        message: str_or_empty(jget(v, "message"@)),
                        echo: match jget(v, "echo"@) {
                            Some(e) => Some(e),
                            None => echo,
                        },
                    },
                ),
            },
        }
    }
}

/// The view of an optional response.
pub open spec fn opt_response_view(o: Option<ApiResponse>) -> Option<ResponseV> {
    match o {
        Some(r) => Some(r@),
        None => None,
    }
}

/// The view of a parse outcome.
pub open spec fn parse_view(p: Result<JsonValue, String>) -> Result<Json, Seq<char>> {
    match p {
        Ok(v) => Ok(v@),
        Err(e) => Err(e@),
    }
}

/// Turns a backend's HTTP reply to an action call into an API response.
pub fn parse_api_response(
    action: &str,
    code: u16,
    body: &str,
    typed: Option<ApiResponse>,
    value: Result<JsonValue, String>,
    request_echo: Option<JsonValue>,
) -> (r: Result<ApiResponse, GatewayError>)
    requires
        100 <= code <= 999,
    ensures
        match r {
            Ok(resp) => official_response(
                action@,
                code,
                body@,
                opt_response_view(typed),
                parse_view(value),
                opt_json_view(request_echo),
            ) == Ok::<ResponseV, ErrorV>(resp@),
            Err(e) => official_response(
                action@,
                code,
                body@,
                opt_response_view(typed),
                parse_view(value),
                opt_json_view(request_echo),
            ) == Err::<ResponseV, ErrorV>(e@),
        },
{
    if !(200 <= code && code <= 299) {
        let mut buf: Vec<char> = Vec::new();
        push_str(&mut buf, "official API call failed: action=");
        push_str(&mut buf, action);
        push_str(&mut buf, ", status=");
        let st = status_text(code);
        push_str(&mut buf, st.as_str());
        push_str(&mut buf, ", body=");
        let t = truncate_body(body, 256);
        push_str(&mut buf, t.as_str());
        assert(buf@ =~= "official API call failed: action="@ + action@ + ", status="@ + status_line(code)
            + ", body="@ + truncated(body@, 256));
        return Err(GatewayError::Http(string_from_chars(buf.as_slice())));
    }
    let bc = chars_of(body);
    let trimmed = trim_chars(bc.as_slice());
    if trimmed.len() == 0 {
        return Ok(ApiResponse::ok(JsonValue::Null).with_echo(request_echo));
    }
    match typed {
        Some(resp) => {
            if resp.echo.is_none() {
                let mut resp = resp;
                resp.echo = request_echo;
                Ok(resp)
            } else {
                Ok(resp)
            }
        },
        None => match value {
            Err(e) => {
                let mut buf: Vec<char> = Vec::new();
                push_str(&mut buf, "invalid JSON response for ");
                push_str(&mut buf, action);
                push_str(&mut buf, ": ");
                push_str(&mut buf, e.as_str());
                assert(buf@ =~= "invalid JSON response for "@ + action@ + ": "@ + e@);
                Err(GatewayError::Http(string_from_chars(buf.as_slice())))
            },
            Ok(v) => {
                let status = match v.get("status") {
                    Some(s) => match s.as_str() {
                        Some(t) => t.clone(),
                        None => owned("ok"),
                    },
                    None => owned("ok"),
                };
                let code64: i64 = match v.get("retcode") {
                    Some(c) => match c.as_i64() {
                        Some(x) => x,
                        None => 0,
                    },
                    None => 0,
                };
                let message = match v.get("message") {
                    Some(m) => match m.as_str() {
                        Some(t) => t.clone(),
                        None => String::new(),
                    },
                    None => String::new(),
                };
                let echo = match v.get("echo") {
                    Some(e) => Some(e.copy()),
                    None => request_echo,
                };
                let data = match v.get("data") {
                    Some(d) => d.copy(),
                    None => v.copy(),
                };
                Ok(ApiResponse { status, retcode: code64 as i32, data, message, echo })
            },
        },
    }
}

/// The account learned from a response: a `get_login_info` reply with an
/// integer `user_id` names it; anything else keeps the current one.
pub open spec fn learned_self_id(action: Seq<char>, data: Json, current: Option<i64>) -> Option<i64> {
    if action == "get_login_info"@ {
        match oi64(jget(data, "user_id"@)) {
            Some(id) => Some(id),
            None => current,
        }
    } else {
        current
    }
}

/// The account known after a response to an action call.
pub fn maybe_update_self_id_from_response(action: &str, response: &ApiResponse, current: Option<i64>) -> (r: Option<i64>)
    ensures
        r == learned_self_id(action@, response@.data, current),
{
    if !str_eq(action, "get_login_info") {
        return current;
    }
    match response.data.get("user_id") {
        Some(v) => match v.as_i64() {
            Some(id) => Some(id),
            None => current,
        },
        None => current,
    }
}

/// The account a probe learns: the `user_id` of a successful
/// `get_login_info` reply.
pub fn probe_self_id(resp: &ApiResponse) -> (r: Option<i64>)
    ensures
        r == (if resp@.retcode == 0 {
            oi64(jget(resp@.data, "user_id"@))
        } else {
            None
        }),
{
    if resp.retcode != 0 {
        return None;
    }
    match resp.data.get("user_id") {
        Some(v) => v.as_i64(),
        None => None,
    }
}

/// The error for a call to an adapter that is not connected.
pub open spec fn not_connected(name: Seq<char>, state: AdapterState) -> ErrorV {
    ErrorV::Connection("adapter '"@ + name + "' is not connected (state: "@ + state_name(state) + ")"@)
}

/// The error for a call to an adapter that is not connected.
pub fn not_connected_error(name: &str, state: AdapterState) -> (r: GatewayError)
    ensures
        r@ == not_connected(name@, state),
{
    let mut buf: Vec<char> = Vec::new();
    push_str(&mut buf, "adapter '");
    push_str(&mut buf, name);
    push_str(&mut buf, "' is not connected (state: ");
    push_str(&mut buf, state.as_str());
    push_str(&mut buf, ")");
    assert(buf@ =~= "adapter '"@ + name@ + "' is not connected (state: "@ + state_name(state) + ")"@);
    GatewayError::Connection(string_from_chars(buf.as_slice()))
}

/// The error when no layout could be tried.
pub fn no_mode_error(name: &str, action: &str) -> (r: GatewayError)
    ensures
        r@ == ErrorV::Http("official backend '"@ + name@ + "' request failed for action '"@ + action@ + "'"@),
{
    let mut buf: Vec<char> = Vec::new();
    push_str(&mut buf, "official backend '");
    push_str(&mut buf, name);
    push_str(&mut buf, "' request failed for action '");
    push_str(&mut buf, action);
    push_str(&mut buf, "'");
    assert(buf@ =~= "official backend '"@ + name@ + "' request failed for action '"@ + action@ + "'"@);
    GatewayError::Http(string_from_chars(buf.as_slice()))
}

} // verus!
