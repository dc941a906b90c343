//! The management API's decisions: applying a reloaded configuration,
//! redacting secrets before a configuration is shown, and the replies of
//! the account and adapter endpoints.

use vstd::prelude::*;

use crate::adapter::state_name;
use crate::config::{AccountConfig, AppConfig, BackendConfig};
use crate::error::{error_text, ErrorV, GatewayError};
use crate::json::{entries_view, group_json_view, jint, jobj, jstr, object_from, values_view, Json, JsonValue};
use crate::satori::{pair, str_value};
use crate::shared_config::SharedConfig;
use crate::stats::AdapterSnapshot;
use crate::text::{nat_decimal, owned, push_nat_decimal, push_str, str_eq, string_from_chars};
use crate::validation::{config_issues, issue_text, issues_view, validate, IssueV, Severity};

verus! {

/// The texts of the first `n` issues of a severity, as JSON strings.
pub open spec fn texts_with(issues: Seq<IssueV>, sev: Severity, n: int) -> Seq<Json>
    decreases n,
{
    if n <= 0 || n > issues.len() {
        Seq::empty()
    } else {
        texts_with(issues, sev, n - 1) + if issues[n - 1].severity == sev {
            seq![jstr(issue_text(issues[n - 1]))]
        } else {
            Seq::empty()
        }
    }
}

/// The changes a reload applies: a new access token, and new rate-limit
/// settings when rate limiting runs.
pub open spec fn reload_changes(c: AppConfig, current_token: Seq<char>, has_rate_limiter: bool) -> Seq<Json> {
    (if c.server.access_token@ != current_token {
        seq![jstr("access_token updated"@)]
    } else {
        Seq::empty()
    }) + (if has_rate_limiter {
        seq![
            jstr(
                "rate_limit updated: rps="@ + nat_decimal(c.server.rate_limit.requests_per_second as nat)
                    + ", burst="@ + nat_decimal(c.server.rate_limit.burst as nat),
            ),
        ]
    } else {
        Seq::empty()
    })
}

/// The reply to a reload of configuration `c`: refused, with the errors and
/// warnings, when validation finds errors; otherwise the changes applied
/// and the warnings.
pub open spec fn reload_reply(c: AppConfig, current_token: Seq<char>, has_rate_limiter: bool) -> Json {
    let issues = config_issues(c);
    let errors = texts_with(issues, Severity::Error, issues.len() as int);
    let warnings = texts_with(issues, Severity::Warning, issues.len() as int);
    if errors.len() > 0 {
        jobj(
            seq![
                ("status"@, jstr("failed"@)),
                ("message"@, jstr("configuration has validation errors"@)),
                ("errors"@, Json::Arr(errors)),
                ("warnings"@, Json::Arr(warnings)),
            ],
        )
    } else {
        jobj(
            seq![
                ("status"@, jstr("ok"@)),
                ("message"@, jstr("configuration reloaded"@)),
                ("changes"@, Json::Arr(reload_changes(c, current_token, has_rate_limiter))),
                ("warnings"@, Json::Arr(warnings)),
                ("note"@, jstr("adapter and protocol changes require restart"@)),
            ],
        )
    }
}

/// Whether a reload of `c` is accepted (validation finds no error).
pub open spec fn reload_accepted(c: AppConfig) -> bool {
    let issues = config_issues(c);
    texts_with(issues, Severity::Error, issues.len() as int).len() == 0
}

fn issue_texts(issues: &Vec<crate::validation::ValidationIssue>, sev: Severity) -> (r: Vec<JsonValue>)
    ensures
        values_view(r@) == texts_with(issues_view(issues@), sev, issues@.len() as int),
{
    broadcast use group_json_view;

    let ghost iv = issues_view(issues@);
    let mut out: Vec<JsonValue> = Vec::new();
    let mut i: usize = 0;
    while i < issues.len()
        invariant
            i <= issues.len(),
            iv == issues_view(issues@),
            values_view(out@) == texts_with(iv, sev, i as int),
        decreases issues.len() - i,
    {
        if issues[i].severity == sev {
            let t = issues[i].to_text();
            out.push(JsonValue::Str(t));
        }
        assert(values_view(out@) =~= texts_with(iv, sev, i + 1));
        i = i + 1;
    }
    out
}

/// Applies a reloaded, parsed configuration: validates it, and when it
/// has no errors updates the access token. Returns the reply and, when
/// rate limiting runs and the reload is accepted, the new rate-limit
/// settings (requests per second, burst) to apply.
pub fn apply_reload(config: &AppConfig, shared: &mut SharedConfig, has_rate_limiter: bool) -> (r: (JsonValue, Option<(u32, u32)>))
    ensures
        r.0@ == reload_reply(*config, old(shared)@, has_rate_limiter),
        final(shared)@ == (if reload_accepted(*config) {
            config.server.access_token@
        } else {
            old(shared)@
        }),
        r.1 == (if reload_accepted(*config) && has_rate_limiter {
            Some((config.server.rate_limit.requests_per_second, config.server.rate_limit.burst))
        } else {
            None
        }),
{
    broadcast use group_json_view;

    let issues = validate(config);
    let errors = issue_texts(&issues, Severity::Error);
    let warnings = issue_texts(&issues, Severity::Warning);
    let ghost ev = values_view(errors@);
    let ghost wv = values_view(warnings@);
    if errors.len() > 0 {
        let mut kvs: Vec<(String, JsonValue)> = Vec::new();
        kvs.push(pair("status", str_value("failed")));
        kvs.push(pair("message", str_value("configuration has validation errors")));
        kvs.push(pair("errors", JsonValue::Array(errors)));
        kvs.push(pair("warnings", JsonValue::Array(warnings)));
        assert(entries_view(kvs@) =~= seq![
            ("status"@, jstr("failed"@)),
            ("message"@, jstr("configuration has validation errors"@)),
            ("errors"@, Json::Arr(ev)),
            ("warnings"@, Json::Arr(wv)),
        ]);
        return (object_from(kvs), None);
    }
    let ghost current = shared@;
    let mut changes: Vec<JsonValue> = Vec::new();
    let token = shared.access_token();
    if !str_eq(config.server.access_token.as_str(), token.as_str()) {
        shared.set_access_token(config.server.access_token.clone());
        changes.push(str_value("access_token updated"));
    }
    let ghost c1 = values_view(changes@);
    let mut update: Option<(u32, u32)> = None;
    if has_rate_limiter {
        let rps = config.server.rate_limit.requests_per_second;
        let burst = config.server.rate_limit.burst;
        let mut buf: Vec<char> = Vec::new();
        push_str(&mut buf, "rate_limit updated: rps=");
        push_nat_decimal(&mut buf, rps as u64);
        push_str(&mut buf, ", burst=");
        push_nat_decimal(&mut buf, burst as u64);
        changes.push(JsonValue::Str(string_from_chars(buf.as_slice())));
        update = Some((rps, burst));
    }
    let ghost cv = values_view(changes@);
    assert(cv =~= reload_changes(*config, current, has_rate_limiter));
    let mut kvs: Vec<(String, JsonValue)> = Vec::new();
    kvs.push(pair("status", str_value("ok")));
    kvs.push(pair("message", str_value("configuration reloaded")));
    kvs.push(pair("changes", JsonValue::Array(changes)));
    kvs.push(pair("warnings", JsonValue::Array(warnings)));
    kvs.push(pair("note", str_value("adapter and protocol changes require restart")));
    assert(entries_view(kvs@) =~= seq![
        ("status"@, jstr("ok"@)),
        ("message"@, jstr("configuration reloaded"@)),
        ("changes"@, Json::Arr(cv)),
        ("warnings"@, Json::Arr(wv)),
        ("note"@, jstr("adapter and protocol changes require restart"@)),
    ]);
    (object_from(kvs), update)
}

/// `"***"` when a secret is set, otherwise the empty string.
pub open spec fn redacted(s: Seq<char>) -> Seq<char> {
    if s.len() > 0 {
        "***"@
    } else {
        s
    }
}

fn redact(s: &mut String)
    ensures
        final(s)@ == redacted(old(s)@),
{
    if !s.as_str().is_empty() {
        *s = owned("***");
    }
}

/// A backend with its access token redacted and every other setting kept.
pub open spec fn backend_redacted(n: BackendConfig, o: BackendConfig) -> bool {
    &&& n.access_token@ == redacted(o.access_token@)
    &&& n.backend_type == o.backend_type
    &&& n.url == o.url
    &&& n.reconnect_interval == o.reconnect_interval
    &&& n.health_check_interval == o.health_check_interval
}

/// An account with its backends' tokens redacted and everything else kept.
pub open spec fn account_redacted(n: AccountConfig, o: AccountConfig) -> bool {
    &&& n.name == o.name
    &&& backend_redacted(n.backend, o.backend)
    &&& match (n.fallback, o.fallback) {
        (Some(f), Some(g)) => backend_redacted(f, g),
        (None, None) => true,
        _ => false,
    }
}

/// A configuration with every access token redacted and every other field
/// as it was.
pub open spec fn config_redacted(n: AppConfig, o: AppConfig) -> bool {
    &&& n.server.access_token@ == redacted(o.server.access_token@)
    &&& n.server.host == o.server.host
    &&& n.server.port == o.server.port
    &&& n.server.dashboard == o.server.dashboard
    &&& n.server.rate_limit == o.server.rate_limit
    &&& n.accounts@.len() == o.accounts@.len()
    &&& forall|i: int| 0 <= i < o.accounts@.len() ==> account_redacted(#[trigger] n.accounts@[i], o.accounts@[i])
    &&& n.protocols == o.protocols
    &&& n.storage == o.storage
    &&& n.logging == o.logging
}

/// Replaces every access token set in a configuration (the server's, each
/// backend's and each fallback's) with `***`; nothing else changes.
pub fn redact_config(config: &mut AppConfig)
    ensures
        config_redacted(*final(config), *old(config)),
{
    redact(&mut config.server.access_token);
    let mut accounts = Vec::new();
    std::mem::swap(&mut accounts, &mut config.accounts);
    let ghost orig = accounts@;
    let mut out: Vec<AccountConfig> = Vec::new();
    let mut rest = accounts;
    let total = rest.len();
    let mut k: usize = 0;
    while rest.len() > 0
        invariant
            k + rest@.len() == total,
            total == orig.len(),
            rest@ == orig.skip(k as int),
            out@.len() == k,
            forall|i: int| 0 <= i < k ==> account_redacted(#[trigger] out@[i], orig[i]),
        decreases rest.len(),
    {
        let ghost before = rest@;
        let mut a = rest.remove(0);
        assert(before[0] == orig[k as int]);
        assert(rest@ =~= orig.skip(k + 1));
        redact(&mut a.backend.access_token);
        match a.fallback {
            Some(mut f) => {
                redact(&mut f.access_token);
                a.fallback = Some(f);
            },
            None => {},
        }
        assert(account_redacted(a, orig[k as int]));
        out.push(a);
        k = k + 1;
    }
    config.accounts = out;
}

/// `{"status": "failed", "message": message}`.
pub fn failed_reply(message: &str) -> (r: JsonValue)
    ensures
        r@ == jobj(seq![("status"@, jstr("failed"@)), ("message"@, jstr(message@))]),
{
    let mut kvs: Vec<(String, JsonValue)> = Vec::new();
    kvs.push(pair("status", str_value("failed")));
    kvs.push(pair("message", str_value(message)));
    assert(entries_view(kvs@) =~= seq![("status"@, jstr("failed"@)), ("message"@, jstr(message@))]);
    object_from(kvs)
}

/// `{"status": "failed", "retcode": code, "message": message}`.
pub fn failed_code_reply(code: i64, message: &str) -> (r: JsonValue)
    ensures
        r@ == jobj(seq![("status"@, jstr("failed"@)), ("retcode"@, jint(code)), ("message"@, jstr(message@))]),
{
    let mut kvs: Vec<(String, JsonValue)> = Vec::new();
    kvs.push(pair("status", str_value("failed")));
    kvs.push(pair("retcode", JsonValue::from_i64(code)));
    kvs.push(pair("message", str_value(message)));
    assert(entries_view(kvs@) =~= seq![("status"@, jstr("failed"@)), ("retcode"@, jint(code)), ("message"@, jstr(message@))]);
    object_from(kvs)
}

/// The reply of an adapter endpoint (`verb` is `added`, `removed` or
/// `reconnected`): success names the adapter; failure gives the error's
/// text with code 2.
pub open spec fn adapter_reply(name: Seq<char>, verb: Seq<char>, outcome: Result<(), ErrorV>) -> Json {
    match outcome {
        Ok(()) => jobj(
            seq![("status"@, jstr("ok"@)), ("message"@, jstr("adapter '"@ + name + "' "@ + verb))],
        ),
        Err(e) => jobj(
            seq![("status"@, jstr("failed"@)), ("retcode"@, jint(2)), ("message"@, jstr(error_text(e)))],
        ),
    }
}

/// The reply of an adapter endpoint.
pub fn adapter_action_reply(name: &str, verb: &str, outcome: Result<(), GatewayError>) -> (r: JsonValue)
    ensures
        r@ == adapter_reply(name@, verb@, crate::failover::unit_view(outcome)),
{
    match outcome {
        Ok(()) => {
            let mut buf: Vec<char> = Vec::new();
            push_str(&mut buf, "adapter '");
            push_str(&mut buf, name);
            push_str(&mut buf, "' ");
            push_str(&mut buf, verb);
            let msg = string_from_chars(buf.as_slice());
            let mut kvs: Vec<(String, JsonValue)> = Vec::new();
            kvs.push(pair("status", str_value("ok")));
            kvs.push(pair("message", JsonValue::Str(msg)));
            assert(entries_view(kvs@) =~= seq![
                ("status"@, jstr("ok"@)),
                ("message"@, jstr("adapter '"@ + name@ + "' "@ + verb@)),
            ]);
            object_from(kvs)
        },
        Err(e) => {
            let t = e.to_text();
            failed_code_reply(2, t.as_str())
        },
    }
}

/// One account entry of the account list.
pub open spec fn account_json(a: AdapterSnapshot) -> Json {
    jobj(
        seq![
            ("name"@, jstr(a.name@)),
            ("backend_type"@, jstr(a.backend_type@)),
            ("url"@, jstr(a.url@)),
            ("state"@, jstr(state_name(a.state))),
            ("self_id"@, opt_int_json(a.self_id)),
        ],
    )
}

/// An optional integer as JSON (null when absent).
pub open spec fn opt_int_json(o: Option<i64>) -> Json {
    match o {
        Some(s) => jint(s),
        None => Json::Null,
    }
}

fn account_entry(a: &AdapterSnapshot) -> (r: JsonValue)
    ensures
        r@ == account_json(*a),
{
    let self_id = match a.self_id {
        Some(s) => JsonValue::from_i64(s),
        None => JsonValue::Null,
    };
    let ghost sv = self_id@;
    let mut kvs: Vec<(String, JsonValue)> = Vec::new();
    kvs.push(pair("name", JsonValue::Str(a.name.clone())));
    kvs.push(pair("backend_type", JsonValue::Str(a.backend_type.clone())));
    kvs.push(pair("url", JsonValue::Str(a.url.clone())));
    kvs.push(pair("state", str_value(a.state.as_str())));
    kvs.push(pair("self_id", self_id));
    assert(entries_view(kvs@) =~= seq![
        ("name"@, jstr(a.name@)),
        ("backend_type"@, jstr(a.backend_type@)),
        ("url"@, jstr(a.url@)),
        ("state"@, jstr(state_name(a.state))),
        ("self_id"@, sv),
    ]);
    object_from(kvs)
}

/// The reply of the account list: `{"status": "ok", "data": [...]}`.
pub fn accounts_reply(adapters: &Vec<AdapterSnapshot>) -> (r: JsonValue)
    ensures
        r@ == jobj(
            seq![
                ("status"@, jstr("ok"@)),
                ("data"@, Json::Arr(Seq::new(adapters@.len(), |i: int| account_json(adapters@[i])))),
            ],
        ),
{
    broadcast use group_json_view;

    let mut items: Vec<JsonValue> = Vec::new();
    let mut i: usize = 0;
    while i < adapters.len()
        invariant
            i <= adapters.len(),
            items@.len() == i,
            forall|j: int| 0 <= j < i ==> (#[trigger] items@[j])@ == account_json(adapters@[j]),
        decreases adapters.len() - i,
    {
        items.push(account_entry(&adapters[i]));
        i = i + 1;
    }
    let ghost iv = values_view(items@);
    assert(iv =~= Seq::new(adapters@.len(), |i: int| account_json(adapters@[i])));
    let mut kvs: Vec<(String, JsonValue)> = Vec::new();
    kvs.push(pair("status", str_value("ok")));
    kvs.push(pair("data", JsonValue::Array(items)));
    assert(entries_view(kvs@) =~= seq![("status"@, jstr("ok"@)), ("data"@, Json::Arr(iv))]);
    object_from(kvs)
}

} // verus!
