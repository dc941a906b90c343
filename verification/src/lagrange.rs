//! The Lagrange (OneBot v11 over WebSocket) backend: how its frames are
//! told apart, how API replies are matched to their calls by echo, and
//! the account an adapter learns from the events it receives.

use vstd::prelude::*;

use crate::adapter::AdapterState;
use crate::api::{ApiResponse, ResponseV};
use crate::error::ErrorV;
use crate::dedup::inc;
use crate::json::{group_json_view, jget, oi64, ostr, ou64, str_or_empty, Json, JsonValue};
use crate::text::{digit_char, int_decimal, nat_decimal, owned, push_str, string_from_chars, u64_to_string};

verus! {

/// What a frame from the backend is.
#[derive(Debug, Clone, Copy, PartialEq, Eq, Structural)]
pub enum FrameKind {
    /// A reply to an API call: it has `status` and `echo`.
    ApiResponse,
    /// An event: it has `post_type`.
    Event,
    /// Anything else.
    Unknown,
}

/// The kind of a frame.
pub open spec fn frame_kind(j: Json) -> FrameKind {
    if jget(j, "status"@) is Some && jget(j, "echo"@) is Some {
        FrameKind::ApiResponse
    } else if jget(j, "post_type"@) is Some {
        FrameKind::Event
    } else {
        FrameKind::Unknown
    }
}

/// Tells what a frame from the backend is.
pub fn classify_frame(json: &JsonValue) -> (r: FrameKind)
    ensures
        r == frame_kind(json@),
{
    if json.get("status").is_some() && json.get("echo").is_some() {
        FrameKind::ApiResponse
    } else if json.get("post_type").is_some() {
        FrameKind::Event
    } else {
        FrameKind::Unknown
    }
}

/// The key matching a reply to its call: a string echo as it is, an
/// unsigned integer echo in decimal; `None` for any other echo.
pub open spec fn echo_key(j: Json) -> Option<Seq<char>> {
    match ostr(jget(j, "echo"@)) {
        Some(s) => Some(s),
        None => match ou64(jget(j, "echo"@)) {
            Some(n) => Some(nat_decimal(n as nat)),
            None => None,
        },
    }
}

/// The API response a reply frame carries: status (`unknown` when
/// absent), return code (-1 when absent), data, message and echo.
pub open spec fn reply_response(j: Json) -> ResponseV {
    ResponseV {
        status: match ostr(jget(j, "status"@)) {
            Some(s) => s,
            None => "unknown"@,
        },
        retcode: (match oi64(jget(j, "retcode"@)) {
            Some(c) => c,
            None => -1i64,
        }) as i32,
        data: match jget(j, "data"@) {
            Some(d) => d,
            None => Json::Null,
        },
        message: str_or_empty(jget(j, "message"@)),
        echo: jget(j, "echo"@),
    }
}

/// Reads an API reply frame: its echo key and the response, or `None`
/// when the echo is neither a string nor an unsigned integer.
pub fn read_api_reply(json: &JsonValue) -> (r: Option<(String, ApiResponse)>)
    ensures
        match r {
            Some((k, resp)) => echo_key(json@) == Some(k@) && resp@ == reply_response(json@),
            None => echo_key(json@) is None,
        },
{
    let key = match json.get("echo") {
        Some(e) => match e.as_str() {
            Some(s) => s.clone(),
            None => match e.as_u64() {
                Some(n) => u64_to_string(n),
                None => {
                    return None;
                },
            },
        },
        None => {
            return None;
        },
    };
    let status = match json.get("status") {
        Some(s) => match s.as_str() {
            Some(t) => t.clone(),
            None => owned("unknown"),
        },
        None => owned("unknown"),
    };
    let code: i64 = match json.get("retcode") {
        Some(c) => match c.as_i64() {
            Some(x) => x,
            None => -1,
        },
        None => -1,
    };
    let data = match json.get("data") {
        Some(d) => d.copy(),
        None => JsonValue::Null,
    };
    let message = match json.get("message") {
        Some(m) => match m.as_str() {
            Some(t) => t.clone(),
            None => String::new(),
        },
        None => String::new(),
    };
    let echo = match json.get("echo") {
        Some(e) => Some(e.copy()),
        None => None,
    };
    Some((key, ApiResponse { status, retcode: code as i32, data, message, echo }))
}

/// The account an adapter knows after an event from `event_self_id`: the
/// first account seen is kept.
pub fn learn_self_id(current: Option<i64>, event_self_id: i64) -> (r: Option<i64>)
    ensures
        r == (match current {
            Some(s) => Some(s),
            None => Some(event_self_id),
        }),
{
    match current {
        Some(s) => Some(s),
        None => Some(event_self_id),
    }
}

/// The echo for the next API call, and the counter after it: the counter
/// in decimal, then the counter incremented (wrapping).
pub fn next_echo(counter: u64) -> (r: (String, u64))
    ensures
        r.0@ == nat_decimal(counter as nat),
        r.1 == inc(counter),
{
    (u64_to_string(counter), counter.wrapping_add(1))
}

proof fn lemma_decimal_len(n: nat)
    ensures
        nat_decimal(n).len() >= 1,
        n >= 10 ==> nat_decimal(n).len() >= 2,
    decreases n,
{
    if n >= 10 {
        lemma_decimal_len(n / 10);
    }
}

/// Different numbers have different decimal texts.
proof fn lemma_decimal_injective(a: nat, b: nat)
    requires
        nat_decimal(a) == nat_decimal(b),
    ensures
        a == b,
    decreases a + b,
{
    lemma_decimal_len(a);
    lemma_decimal_len(b);
    if a < 10 && b < 10 {
        assert(nat_decimal(a)[0] == nat_decimal(b)[0]);
        assert(nat_decimal(a)[0] == digit_char(a));
        assert(nat_decimal(b)[0] == digit_char(b));
        assert((((a + 48) as u8) as char) as u32 == a + 48);
        assert((((b + 48) as u8) as char) as u32 == b + 48);
    } else if a >= 10 && b >= 10 {
        assert(nat_decimal(a).last() == nat_decimal(b).last());
        assert((((a % 10 + 48) as u8) as char) as u32 == a % 10 + 48);
        assert((((b % 10 + 48) as u8) as char) as u32 == b % 10 + 48);
        assert(nat_decimal(a).last() == digit_char(a % 10));
        assert(nat_decimal(b).last() == digit_char(b % 10));
        assert(a % 10 == b % 10);
        assert(nat_decimal(a).drop_last() =~= nat_decimal(a / 10));
        assert(nat_decimal(b).drop_last() =~= nat_decimal(b / 10));
        lemma_decimal_injective(a / 10, b / 10);
        assert(a == (a / 10) * 10 + a % 10) by (nonlinear_arith);
        assert(b == (b / 10) * 10 + b % 10) by (nonlinear_arith);
    } else if a < 10 {
        assert(nat_decimal(a).len() != nat_decimal(b).len());
    } else {
        assert(nat_decimal(a).len() != nat_decimal(b).len());
    }
}

/// Echoes are unique: two API calls made with different counters (as the
/// counter runs through its values one call after another) carry different
/// echoes.
pub proof fn lemma_echo_unique(c1: u64, c2: u64)
    requires
        c1 != c2,
    ensures
        nat_decimal(c1 as nat) != nat_decimal(c2 as nat),
{
    if nat_decimal(c1 as nat) == nat_decimal(c2 as nat) {
        lemma_decimal_injective(c1 as nat, c2 as nat);
    }
}

/// The `Authorization` header for a backend token: `Bearer <token>`, none
/// when the token is empty.
pub fn auth_header(token: &str) -> (r: Option<String>)
    ensures
        match r {
            Some(h) => token@.len() > 0 && h@ == "Bearer "@ + token@,
            None => token@.len() == 0,
        },
{
    if token.is_empty() {
        return None;
    }
    let mut buf: Vec<char> = Vec::new();
    push_str(&mut buf, "Bearer ");
    push_str(&mut buf, token);
    Some(string_from_chars(buf.as_slice()))
}

/// The error for an API call left unanswered for 30 seconds.
pub fn timeout_error(action: &str) -> (r: crate::error::GatewayError)
    ensures
        r@ == ErrorV::Connection("API call '"@ + action@ + "' timed out after 30s"@),
{
    let mut buf: Vec<char> = Vec::new();
    push_str(&mut buf, "API call '");
    push_str(&mut buf, action);
    push_str(&mut buf, "' timed out after 30s");
    assert(buf@ =~= "API call '"@ + action@ + "' timed out after 30s"@);
    crate::error::GatewayError::Connection(string_from_chars(buf.as_slice()))
}

// ---------------------------------------------------------------------------
// Keeping the link up
// ---------------------------------------------------------------------------

/// What the link supervisor observes.
#[derive(Debug, Clone, Copy, PartialEq, Eq, Structural)]
pub enum LinkEvent {
    /// The connection to the backend ended.
    Lost,
    /// A wait has elapsed.
    Tick,
    /// A connection attempt succeeded.
    ConnectOk,
    /// A connection attempt failed.
    ConnectFailed,
}

/// What the link supervisor does next.
#[derive(Debug, Clone, Copy, PartialEq, Eq, Structural)]
pub enum LinkAction {
    /// Wait this many seconds, then observe a tick.
    Wait(u64),
    /// Try to connect to the backend.
    Connect,
    /// Install the new connection's reader and writer.
    Install,
    /// Nothing: the supervisor stops.
    Idle,
}

/// The supervisor's next state and action: a lost connection of a
/// connected adapter makes it reconnecting and waits the reconnect
/// interval; each elapsed wait while reconnecting tries to connect; a
/// successful attempt makes the adapter connected and installs the
/// connection; a failed one waits the interval again. Anything else (an
/// adapter disconnected on purpose, for one) changes nothing and stops.
pub open spec fn reconnect_spec(state: AdapterState, event: LinkEvent, interval_secs: u64) -> (AdapterState, LinkAction) {
    match event {
        LinkEvent::Lost => if state == AdapterState::Connected {
            (AdapterState::Reconnecting, LinkAction::Wait(interval_secs))
        } else {
            (state, LinkAction::Idle)
        },
        LinkEvent::Tick => if state == AdapterState::Reconnecting {
            (AdapterState::Reconnecting, LinkAction::Connect)
        } else {
            (state, LinkAction::Idle)
        },
        LinkEvent::ConnectOk => (AdapterState::Connected, LinkAction::Install),
        LinkEvent::ConnectFailed => (AdapterState::Reconnecting, LinkAction::Wait(interval_secs)),
    }
}

/// Decides the supervisor's next state and action.
pub fn reconnect_step(state: AdapterState, event: LinkEvent, interval_secs: u64) -> (r: (AdapterState, LinkAction))
    ensures
        r == reconnect_spec(state, event, interval_secs),
{
    match event {
        LinkEvent::Lost => if state == AdapterState::Connected {
            (AdapterState::Reconnecting, LinkAction::Wait(interval_secs))
        } else {
            (state, LinkAction::Idle)
        },
        LinkEvent::Tick => if state == AdapterState::Reconnecting {
            (AdapterState::Reconnecting, LinkAction::Connect)
        } else {
            (state, LinkAction::Idle)
        },
        LinkEvent::ConnectOk => (AdapterState::Connected, LinkAction::Install),
        LinkEvent::ConnectFailed => (AdapterState::Reconnecting, LinkAction::Wait(interval_secs)),
    }
}

/// The state and actions after a run of events from a starting state.
pub open spec fn reconnect_run(state: AdapterState, events: Seq<LinkEvent>, interval_secs: u64) -> (AdapterState, Seq<LinkAction>)
    decreases events.len(),
{
    if events.len() == 0 {
        (state, Seq::empty())
    } else {
        let (s, acts) = reconnect_run(state, events.drop_last(), interval_secs);
        let (s2, a) = reconnect_spec(s, events.last(), interval_secs);
        (s2, acts.push(a))
    }
}

/// The events of a lost link followed by `failures` failed attempts, each
/// attempt after an elapsed wait.
pub open spec fn retry_events(failures: nat) -> Seq<LinkEvent>
    decreases failures,
{
    if failures == 0 {
        seq![LinkEvent::Lost]
    } else {
        retry_events((failures - 1) as nat).push(LinkEvent::Tick).push(LinkEvent::ConnectFailed)
    }
}

/// What the supervisor does over those events: wait the interval, then
/// for each failed attempt connect and wait the interval again.
pub open spec fn retry_actions(failures: nat, interval_secs: u64) -> Seq<LinkAction>
    decreases failures,
{
    if failures == 0 {
        seq![LinkAction::Wait(interval_secs)]
    } else {
        retry_actions((failures - 1) as nat, interval_secs).push(LinkAction::Connect).push(
            LinkAction::Wait(interval_secs),
        )
    }
}

proof fn lemma_retries(interval_secs: u64, failures: nat)
    ensures
        reconnect_run(AdapterState::Connected, retry_events(failures), interval_secs) == (
        AdapterState::Reconnecting,
        retry_actions(failures, interval_secs),
        ),
    decreases failures,
{
    let w = LinkAction::Wait(interval_secs);
    if failures == 0 {
        let e = seq![LinkEvent::Lost];
        assert(e.drop_last() =~= Seq::<LinkEvent>::empty());
        assert(e.last() == LinkEvent::Lost);
        assert(reconnect_run(AdapterState::Connected, Seq::<LinkEvent>::empty(), interval_secs) == (
            AdapterState::Connected,
            Seq::<LinkAction>::empty(),
        ));
        assert(retry_events(0) == e);
        assert(retry_actions(0, interval_secs) == seq![w]);
        let r = reconnect_run(AdapterState::Connected, e, interval_secs);
        assert(r.1 =~= seq![w]);
    } else {
        let f1 = (failures - 1) as nat;
        lemma_retries(interval_secs, f1);
        let pre = retry_events(f1);
        let e1 = pre.push(LinkEvent::Tick);
        let e2 = e1.push(LinkEvent::ConnectFailed);
        assert(e2.drop_last() =~= e1);
        assert(e1.drop_last() =~= pre);
        let r1 = reconnect_run(AdapterState::Connected, e1, interval_secs);
        assert(r1.0 == AdapterState::Reconnecting);
        assert(r1.1 =~= retry_actions(f1, interval_secs).push(LinkAction::Connect));
        let r2 = reconnect_run(AdapterState::Connected, e2, interval_secs);
        assert(r2.0 == AdapterState::Reconnecting);
        assert(r2.1 =~= retry_actions(failures, interval_secs));
    }
}

/// A connected adapter that loses its connection is reconnected: it waits
/// the reconnect interval and tries to connect; each failed attempt is
/// followed by another wait of the interval and another attempt; the first
/// attempt that succeeds installs the connection and makes the adapter
/// connected again. Here `failures` attempts fail before one succeeds.
pub proof fn lemma_lost_link_is_restored(interval_secs: u64, failures: nat)
    ensures
        reconnect_run(
            AdapterState::Connected,
            retry_events(failures).push(LinkEvent::Tick).push(LinkEvent::ConnectOk),
            interval_secs,
        ) == (AdapterState::Connected, retry_actions(failures, interval_secs).push(LinkAction::Connect).push(
            LinkAction::Install,
        )),
        retry_actions(failures, interval_secs).len() == 2 * failures + 1,
{
    lemma_retries(interval_secs, failures);
    lemma_retry_len(interval_secs, failures);
    let e1 = retry_events(failures).push(LinkEvent::Tick);
    let e2 = e1.push(LinkEvent::ConnectOk);
    assert(e2.drop_last() =~= e1);
    assert(e1.drop_last() =~= retry_events(failures));
    let r1 = reconnect_run(AdapterState::Connected, e1, interval_secs);
    assert(r1.1 =~= retry_actions(failures, interval_secs).push(LinkAction::Connect));
    let r2 = reconnect_run(AdapterState::Connected, e2, interval_secs);
    assert(r2.0 == AdapterState::Connected);
    assert(r2.1 =~= retry_actions(failures, interval_secs).push(LinkAction::Connect).push(LinkAction::Install));
}

proof fn lemma_retry_len(interval_secs: u64, failures: nat)
    ensures
        retry_actions(failures, interval_secs).len() == 2 * failures + 1,
    decreases failures,
{
    if failures > 0 {
        lemma_retry_len(interval_secs, (failures - 1) as nat);
    }
}

} // verus!
