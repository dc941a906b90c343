//! Configuration validation: every issue found in a loaded configuration,
//! errors and warnings, in one pass.

use vstd::prelude::*;

use crate::config::{AppConfig, BackendConfig, OneBotV11Config, ProtocolsConfig, ServerConfig, AccountConfig};
use crate::text::{
    chars_of, has_prefix, is_blank, nat_decimal, push_nat_decimal, push_str, starts_with,
    str_eq, string_from_chars, to_lowercase, trim_spec, unicode_lowercase,
};

verus! {

/// Severity of a validation issue.
#[derive(Debug, Clone, Copy, PartialEq, Eq, Structural)]
pub enum Severity {
    /// The configuration is invalid and will prevent startup.
    Error,
    /// The configuration is suspicious but may work.
    Warning,
}

/// A validation issue.
#[derive(Debug, Clone)]
pub struct ValidationIssue {
    pub severity: Severity,
    /// Dotted path of the offending setting.
    pub path: String,
    pub message: String,
}

/// The mathematical form of a validation issue.
pub struct IssueV {
    pub severity: Severity,
    pub path: Seq<char>,
    pub message: Seq<char>,
}

impl View for ValidationIssue {
    type V = IssueV;

    open spec fn view(&self) -> IssueV {
        IssueV { severity: self.severity, path: self.path@, message: self.message@ }
    }
}

/// The mathematical form of a list of issues.
pub open spec fn issues_view(s: Seq<ValidationIssue>) -> Seq<IssueV> {
    Seq::new(s.len(), |i: int| s[i]@)
}

pub open spec fn issue(severity: Severity, path: Seq<char>, message: Seq<char>) -> IssueV {
    IssueV { severity, path, message }
}

/// The text form of an issue: `[ERROR] path: message` or
/// `[WARN] path: message`.
pub open spec fn issue_text(i: IssueV) -> Seq<char> {
    "["@ + (match i.severity {
        Severity::Error => "ERROR"@,
        Severity::Warning => "WARN"@,
    }) + "] "@ + i.path + ": "@ + i.message
}

impl ValidationIssue {
    /// The text form of this issue.
    pub fn to_text(&self) -> (r: String)
        ensures
            r@ == issue_text(self@),
    {
        let mut buf: Vec<char> = Vec::new();
        push_str(&mut buf, "[");
        match self.severity {
            Severity::Error => push_str(&mut buf, "ERROR"),
            Severity::Warning => push_str(&mut buf, "WARN"),
        }
        push_str(&mut buf, "] ");
        push_str(&mut buf, self.path.as_str());
        push_str(&mut buf, ": ");
        push_str(&mut buf, self.message.as_str());
        assert(buf@ =~= issue_text(self@));
        string_from_chars(buf.as_slice())
    }
}

fn push_issue(issues: &mut Vec<ValidationIssue>, severity: Severity, path: Vec<char>, message: Vec<char>)
    ensures
        issues_view(final(issues)@) == issues_view(old(issues)@).push(issue(severity, path@, message@)),
{
    issues.push(
        ValidationIssue {
            severity,
            path: string_from_chars(path.as_slice()),
            message: string_from_chars(message.as_slice()),
        },
    );
    assert(issues_view(issues@) =~= issues_view(old(issues)@).push(issue(severity, path@, message@)));
}

fn push_static_issue(issues: &mut Vec<ValidationIssue>, severity: Severity, path: &str, message: &str)
    ensures
        issues_view(final(issues)@) == issues_view(old(issues)@).push(issue(severity, path@, message@)),
{
    push_issue(issues, severity, chars_of(path), chars_of(message));
}

fn joined(a: &Vec<char>, b: &str) -> (r: Vec<char>)
    ensures
        r@ == a@ + b@,
{
    let mut r = a.clone();
    push_str(&mut r, b);
    r
}

// ---------------------------------------------------------------------------
// Server
// ---------------------------------------------------------------------------

/// The issues of the server settings: a zero port and an empty host are
/// errors.
pub open spec fn server_issues(s: ServerConfig) -> Seq<IssueV> {
    (if s.port == 0 {
        seq![issue(Severity::Error, "server.port"@, "port must be > 0"@)]
    } else {
        Seq::empty()
    }) + (if s.host@.len() == 0 {
        seq![issue(Severity::Error, "server.host"@, "host must not be empty"@)]
    } else {
        Seq::empty()
    })
}

/// Appends the issues of the server settings.
pub fn validate_server(config: &AppConfig, issues: &mut Vec<ValidationIssue>)
    ensures
        issues_view(final(issues)@) == issues_view(old(issues)@) + server_issues(config.server),
{
    let ghost start = issues_view(issues@);
    if config.server.port == 0 {
        push_static_issue(issues, Severity::Error, "server.port", "port must be > 0");
    }
    let ghost mid = issues_view(issues@);
    if config.server.host.as_str().is_empty() {
        push_static_issue(issues, Severity::Error, "server.host", "host must not be empty");
    }
    assert(issues_view(issues@) =~= start + server_issues(config.server));
}

// ---------------------------------------------------------------------------
// Backends
// ---------------------------------------------------------------------------

/// The backend types the gateway knows.
pub open spec fn known_backend_type(t: Seq<char>) -> bool {
    t == "lagrange"@ || t == "napcat"@ || t == "official"@ || t == "mock"@
}

/// Whether lower-case URL text starts with a supported scheme.
pub open spec fn scheme_supported(l: Seq<char>) -> bool {
    has_prefix(l, "ws://"@) || has_prefix(l, "wss://"@) || has_prefix(l, "http://"@) || has_prefix(
        l,
        "https://"@,
    )
}

/// Whether a URL (compared case-insensitively) starts with a supported
/// scheme.
pub open spec fn valid_scheme(url: Seq<char>) -> bool {
    scheme_supported(unicode_lowercase(url))
}

/// Whether a URL, already in lower case, starts with `ws://`, `wss://`,
/// `http://` or `https://`.
pub fn supported_scheme(lowered: &str) -> (r: bool)
    ensures
        r == scheme_supported(lowered@),
{
    let l = chars_of(lowered);
    starts_with(l.as_slice(), chars_of("ws://").as_slice()) || starts_with(l.as_slice(), chars_of("wss://").as_slice())
        || starts_with(l.as_slice(), chars_of("http://").as_slice()) || starts_with(
        l.as_slice(),
        chars_of("https://").as_slice(),
    )
}

/// The issues of a backend at `path`: an unknown type and a zero reconnect
/// interval are warnings; an empty URL or one with an unsupported scheme is
/// an error.
pub open spec fn backend_issues(b: BackendConfig, path: Seq<char>) -> Seq<IssueV> {
    (if !known_backend_type(b.backend_type@) {
        seq![
            issue(
                Severity::Warning,
                path + ".type"@,
                "unknown backend type \""@ + b.backend_type@ + "\". Known types: lagrange, napcat, official, mock"@,
            ),
        ]
    } else {
        Seq::empty()
    }) + (if b.url@.len() == 0 {
        seq![issue(Severity::Error, path + ".url"@, "backend URL must not be empty"@)]
    } else if !valid_scheme(b.url@) {
        seq![
            issue(
                Severity::Error,
                path + ".url"@,
                "invalid URL scheme in \""@ + b.url@ + "\". Expected ws://, wss://, http://, or https://"@,
            ),
        ]
    } else {
        Seq::empty()
    }) + (if b.reconnect_interval == 0 {
        seq![
            issue(
                Severity::Warning,
                path + ".reconnect_interval"@,
                "reconnect_interval is 0 — this will cause tight reconnect loops"@,
            ),
        ]
    } else {
        Seq::empty()
    })
}

/// Appends the issues of a backend whose settings sit at `path`.
pub fn validate_backend(backend: &BackendConfig, path: &Vec<char>, issues: &mut Vec<ValidationIssue>)
    ensures
        issues_view(final(issues)@) == issues_view(old(issues)@) + backend_issues(*backend, path@),
{
    let ghost start = issues_view(issues@);
    let t = backend.backend_type.as_str();
    let known = str_eq(t, "lagrange") || str_eq(t, "napcat") || str_eq(t, "official") || str_eq(t, "mock");
    if !known {
        let mut msg: Vec<char> = Vec::new();
        push_str(&mut msg, "unknown backend type \"");
        push_str(&mut msg, t);
        push_str(&mut msg, "\". Known types: lagrange, napcat, official, mock");
        assert(msg@ =~= "unknown backend type \""@ + backend.backend_type@
            + "\". Known types: lagrange, napcat, official, mock"@);
        push_issue(issues, Severity::Warning, joined(path, ".type"), msg);
    }
    let ghost a = issues_view(issues@);
    if backend.url.as_str().is_empty() {
        push_issue(issues, Severity::Error, joined(path, ".url"), chars_of("backend URL must not be empty"));
    } else {
        let lower = to_lowercase(backend.url.as_str());
        if !supported_scheme(lower.as_str()) {
            let mut msg: Vec<char> = Vec::new();
            push_str(&mut msg, "invalid URL scheme in \"");
            push_str(&mut msg, backend.url.as_str());
            push_str(&mut msg, "\". Expected ws://, wss://, http://, or https://");
            assert(msg@ =~= "invalid URL scheme in \""@ + backend.url@
                + "\". Expected ws://, wss://, http://, or https://"@);
            push_issue(issues, Severity::Error, joined(path, ".url"), msg);
        }
    }
    let ghost b = issues_view(issues@);
    if backend.reconnect_interval == 0 {
        push_issue(
            issues,
            Severity::Warning,
            joined(path, ".reconnect_interval"),
            chars_of("reconnect_interval is 0 — this will cause tight reconnect loops"),
        );
    }
    assert(issues_view(issues@) =~= start + backend_issues(*backend, path@));
}

// ---------------------------------------------------------------------------
// Accounts
// ---------------------------------------------------------------------------

/// `accounts[i]`.
pub open spec fn account_prefix(i: nat) -> Seq<char> {
    "accounts["@ + nat_decimal(i) + "]"@
}

/// Whether an earlier account has the same name as account `i`.
pub open spec fn name_seen_before(accts: Seq<AccountConfig>, i: int) -> bool {
    exists|j: int| 0 <= j < i && accts[j].name@ == accts[i].name@
}

/// The issues of account `i`: a blank name, a name used by an earlier
/// account, and the issues of its backend and fallback.
pub open spec fn account_issues(accts: Seq<AccountConfig>, i: int) -> Seq<IssueV> {
    let a = accts[i];
    let p = account_prefix(i as nat);
    (if trim_spec(a.name@).len() == 0 {
        seq![issue(Severity::Error, p + ".name"@, "account name must not be empty"@)]
    } else {
        Seq::empty()
    }) + (if name_seen_before(accts, i) {
        seq![issue(Severity::Error, p + ".name"@, "duplicate account name: \""@ + a.name@ + "\""@)]
    } else {
        Seq::empty()
    }) + backend_issues(a.backend, p + ".backend"@) + (match a.fallback {
        Some(f) => backend_issues(f, p + ".fallback"@),
        None => Seq::empty(),
    })
}

/// The issues of the first `n` accounts, in order.
pub open spec fn accounts_issues_upto(accts: Seq<AccountConfig>, n: int) -> Seq<IssueV>
    decreases n,
{
    if n <= 0 {
        Seq::empty()
    } else {
        accounts_issues_upto(accts, n - 1) + account_issues(accts, n - 1)
    }
}

/// The issues of the account list: a warning when there are none,
/// otherwise each account's issues in order.
pub open spec fn accounts_issues(accts: Seq<AccountConfig>) -> Seq<IssueV> {
    if accts.len() == 0 {
        seq![
            issue(
                Severity::Warning,
                "accounts"@,
                "no accounts configured — the gateway will have no backends"@,
            ),
        ]
    } else {
        accounts_issues_upto(accts, accts.len() as int)
    }
}

fn validate_account(accts: &Vec<AccountConfig>, i: usize, issues: &mut Vec<ValidationIssue>)
    requires
        i < accts.len(),
    ensures
        issues_view(final(issues)@) == issues_view(old(issues)@) + account_issues(accts@, i as int),
{
    let ghost before = issues_view(issues@);
    let account = &accts[i];
    let mut prefix: Vec<char> = Vec::new();
    push_str(&mut prefix, "accounts[");
    push_nat_decimal(&mut prefix, i as u64);
    push_str(&mut prefix, "]");
    assert(prefix@ =~= account_prefix(i as nat));
    if is_blank(account.name.as_str()) {
        push_issue(issues, Severity::Error, joined(&prefix, ".name"), chars_of("account name must not be empty"));
    }
    let ghost a = issues_view(issues@);
    let mut seen = false;
    let mut j: usize = 0;
    while j < i
        invariant
            j <= i < accts.len(),
            *account == accts@[i as int],
            seen <==> exists|k: int| 0 <= k < j && accts@[k].name@ == accts@[i as int].name@,
        decreases i - j,
    {
        if str_eq(accts[j].name.as_str(), account.name.as_str()) {
            assert(accts@[j as int].name@ == accts@[i as int].name@);
            seen = true;
        }
        j = j + 1;
    }
    assert(seen == name_seen_before(accts@, i as int));
    if seen {
        let mut msg: Vec<char> = Vec::new();
        push_str(&mut msg, "duplicate account name: \"");
        push_str(&mut msg, account.name.as_str());
        push_str(&mut msg, "\"");
        assert(msg@ =~= "duplicate account name: \""@ + account.name@ + "\""@);
        push_issue(issues, Severity::Error, joined(&prefix, ".name"), msg);
    }
    let ghost b = issues_view(issues@);
    validate_backend(&account.backend, &joined(&prefix, ".backend"), issues);
    let ghost c = issues_view(issues@);
    match &account.fallback {
        Some(f) => {
            validate_backend(f, &joined(&prefix, ".fallback"), issues);
        },
        None => {},
    }
    assert(issues_view(issues@) =~= before + account_issues(accts@, i as int));
}

/// Appends the issues of the account list.
pub fn validate_accounts(config: &AppConfig, issues: &mut Vec<ValidationIssue>)
    ensures
        issues_view(final(issues)@) == issues_view(old(issues)@) + accounts_issues(config.accounts@),
{
    let ghost start = issues_view(issues@);
    let accts = &config.accounts;
    if accts.len() == 0 {
        push_static_issue(
            issues,
            Severity::Warning,
            "accounts",
            "no accounts configured — the gateway will have no backends",
        );
        return;
    }
    let mut i: usize = 0;
    while i < accts.len()
        invariant
            i <= accts.len(),
            accts@ == config.accounts@,
            issues_view(issues@) == start + accounts_issues_upto(accts@, i as int),
        decreases accts.len() - i,
    {
        validate_account(accts, i, issues);
        assert(issues_view(issues@) =~= start + accounts_issues_upto(accts@, i + 1));
        i = i + 1;
    }
}

// ---------------------------------------------------------------------------
// Protocols
// ---------------------------------------------------------------------------

/// Whether any protocol server is enabled.
pub open spec fn any_protocol(p: ProtocolsConfig) -> bool {
    (p.onebot_v11 matches Some(c) && c.enabled) || (p.onebot_v12 matches Some(c) && c.enabled) || (
    p.milky matches Some(c) && c.enabled) || (p.satori matches Some(c) && c.enabled)
}

/// The issues of an enabled OneBot v11 server: a warning when no transport
/// is on, an error for each reverse WebSocket or POST target without a URL.
pub open spec fn onebot_v11_issues(c: OneBotV11Config) -> Seq<IssueV> {
    (if !c.http && !c.ws && c.ws_reverse@.len() == 0 && c.http_post@.len() == 0 {
        seq![
            issue(
                Severity::Warning,
                "protocols.onebot_v11"@,
                "OneBot v11 is enabled but no transport (http/ws/ws_reverse/http_post) is active"@,
            ),
        ]
    } else {
        Seq::empty()
    }) + target_issues("protocols.onebot_v11.ws_reverse["@, "reverse WS target URL must not be empty"@,
        Seq::new(c.ws_reverse@.len(), |i: int| c.ws_reverse@[i].url@), c.ws_reverse@.len() as int)
        + target_issues(
        "protocols.onebot_v11.http_post["@,
        "HTTP POST target URL must not be empty"@,
        Seq::new(c.http_post@.len(), |i: int| c.http_post@[i].url@),
        c.http_post@.len() as int,
    )
}

/// An error for each of the first `n` target URLs that is empty.
pub open spec fn target_issues(prefix: Seq<char>, message: Seq<char>, urls: Seq<Seq<char>>, n: int) -> Seq<IssueV>
    decreases n,
{
    if n <= 0 {
        Seq::empty()
    } else {
        target_issues(prefix, message, urls, n - 1) + if urls[n - 1].len() == 0 {
            seq![issue(Severity::Error, prefix + nat_decimal((n - 1) as nat) + "].url"@, message)]
        } else {
            Seq::empty()
        }
    }
}

/// The issues of the protocol settings.
pub open spec fn protocols_issues(p: ProtocolsConfig) -> Seq<IssueV> {
    (if !any_protocol(p) {
        seq![
            issue(
                Severity::Warning,
                "protocols"@,
                "no protocol servers enabled — upstream bot frameworks cannot connect"@,
            ),
        ]
    } else {
        Seq::empty()
    }) + match p.onebot_v11 {
        Some(c) => if c.enabled {
            onebot_v11_issues(c)
        } else {
            Seq::empty()
        },
        None => Seq::empty(),
    }
}

fn push_target_issue(issues: &mut Vec<ValidationIssue>, prefix: &str, i: usize, message: &str)
    ensures
        issues_view(final(issues)@) == issues_view(old(issues)@).push(
            issue(Severity::Error, prefix@ + nat_decimal(i as nat) + "].url"@, message@),
        ),
{
    let mut path: Vec<char> = Vec::new();
    push_str(&mut path, prefix);
    push_nat_decimal(&mut path, i as u64);
    push_str(&mut path, "].url");
    assert(path@ =~= prefix@ + nat_decimal(i as nat) + "].url"@);
    push_issue(issues, Severity::Error, path, chars_of(message));
}

/// Appends the issues of an enabled OneBot v11 server.
pub fn validate_onebot_v11(config: &OneBotV11Config, issues: &mut Vec<ValidationIssue>)
    ensures
        issues_view(final(issues)@) == issues_view(old(issues)@) + onebot_v11_issues(*config),
{
    let ghost start = issues_view(issues@);
    if !config.http && !config.ws && config.ws_reverse.len() == 0 && config.http_post.len() == 0 {
        push_static_issue(
            issues,
            Severity::Warning,
            "protocols.onebot_v11",
            "OneBot v11 is enabled but no transport (http/ws/ws_reverse/http_post) is active",
        );
    }
    let ghost a = issues_view(issues@);
    let ghost wurls = Seq::new(config.ws_reverse@.len(), |i: int| config.ws_reverse@[i].url@);
    let mut i: usize = 0;
    while i < config.ws_reverse.len()
        invariant
            i <= config.ws_reverse.len(),
            wurls == Seq::new(config.ws_reverse@.len(), |i: int| config.ws_reverse@[i].url@),
            issues_view(issues@) == a + target_issues(
                "protocols.onebot_v11.ws_reverse["@,
                "reverse WS target URL must not be empty"@,
                wurls,
                i as int,
            ),
        decreases config.ws_reverse.len() - i,
    {
        let ghost before = issues_view(issues@);
        if config.ws_reverse[i].url.as_str().is_empty() {
            push_target_issue(issues, "protocols.onebot_v11.ws_reverse[", i, "reverse WS target URL must not be empty");
        }
        assert(issues_view(issues@) =~= a + target_issues(
            "protocols.onebot_v11.ws_reverse["@,
            "reverse WS target URL must not be empty"@,
            wurls,
            i + 1,
        ));
        i = i + 1;
    }
    let ghost b = issues_view(issues@);
    let ghost purls = Seq::new(config.http_post@.len(), |i: int| config.http_post@[i].url@);
    let mut i: usize = 0;
    while i < config.http_post.len()
        invariant
            i <= config.http_post.len(),
            purls == Seq::new(config.http_post@.len(), |i: int| config.http_post@[i].url@),
            issues_view(issues@) == b + target_issues(
                "protocols.onebot_v11.http_post["@,
                "HTTP POST target URL must not be empty"@,
                purls,
                i as int,
            ),
        decreases config.http_post.len() - i,
    {
        if config.http_post[i].url.as_str().is_empty() {
            push_target_issue(issues, "protocols.onebot_v11.http_post[", i, "HTTP POST target URL must not be empty");
        }
        assert(issues_view(issues@) =~= b + target_issues(
            "protocols.onebot_v11.http_post["@,
            "HTTP POST target URL must not be empty"@,
            purls,
            i + 1,
        ));
        i = i + 1;
    }
    assert(issues_view(issues@) =~= start + onebot_v11_issues(*config));
}

/// Appends the issues of the protocol settings.
pub fn validate_protocols(config: &AppConfig, issues: &mut Vec<ValidationIssue>)
    ensures
        issues_view(final(issues)@) == issues_view(old(issues)@) + protocols_issues(config.protocols),
{
    let ghost start = issues_view(issues@);
    let p = &config.protocols;
    let any = (match &p.onebot_v11 {
        Some(c) => c.enabled,
        None => false,
    }) || (match &p.onebot_v12 {
        Some(c) => c.enabled,
        None => false,
    }) || (match &p.milky {
        Some(c) => c.enabled,
        None => false,
    }) || (match &p.satori {
        Some(c) => c.enabled,
        None => false,
    });
    if !any {
        push_static_issue(
            issues,
            Severity::Warning,
            "protocols",
            "no protocol servers enabled — upstream bot frameworks cannot connect",
        );
    }
    let ghost a = issues_view(issues@);
    match &p.onebot_v11 {
        Some(ob) => {
            if ob.enabled {
                validate_onebot_v11(ob, issues);
            }
        },
        None => {},
    }
    assert(issues_view(issues@) =~= start + protocols_issues(config.protocols));
}

// ---------------------------------------------------------------------------
// Whole configuration
// ---------------------------------------------------------------------------

/// Every issue of a configuration: server, accounts, then protocols.
pub open spec fn config_issues(c: AppConfig) -> Seq<IssueV> {
    server_issues(c.server) + accounts_issues(c.accounts@) + protocols_issues(c.protocols)
}

/// Validates the full configuration, returning every issue found.
pub fn validate(config: &AppConfig) -> (r: Vec<ValidationIssue>)
    ensures
        issues_view(r@) == config_issues(*config),
{
    let mut issues: Vec<ValidationIssue> = Vec::new();
    assert(issues_view(issues@) =~= Seq::<IssueV>::empty());
    validate_server(config, &mut issues);
    validate_accounts(config, &mut issues);
    validate_protocols(config, &mut issues);
    assert(issues_view(issues@) =~= config_issues(*config));
    issues
}

/// Whether any issue is an error (not just a warning).
pub open spec fn any_error(issues: Seq<IssueV>) -> bool {
    exists|i: int| 0 <= i < issues.len() && issues[i].severity == Severity::Error
}

/// Whether the issues include an error.
pub fn has_errors(issues: &[ValidationIssue]) -> (r: bool)
    ensures
        r == any_error(issues_view(issues@)),
{
    let mut i: usize = 0;
    while i < issues.len()
        invariant
            i <= issues.len(),
            forall|j: int| 0 <= j < i ==> issues@[j].severity != Severity::Error,
        decreases issues.len() - i,
    {
        if issues[i].severity == Severity::Error {
            assert(issues_view(issues@)[i as int].severity == Severity::Error);
            return true;
        }
        i = i + 1;
    }
    assert(!any_error(issues_view(issues@)));
    false
}

proof fn lemma_upto_contains(accts: Seq<AccountConfig>, n: int, i: int, x: IssueV)
    requires
        0 <= i < n <= accts.len(),
        account_issues(accts, i).contains(x),
    ensures
        accounts_issues_upto(accts, n).contains(x),
    decreases n,
{
    let m = choose|m: int| 0 <= m < account_issues(accts, i).len() && account_issues(accts, i)[m] == x;
    let pre = accounts_issues_upto(accts, n - 1);
    if i == n - 1 {
        assert(accounts_issues_upto(accts, n)[pre.len() + m] == x);
    } else {
        lemma_upto_contains(accts, n - 1, i, x);
        let k = choose|k: int| 0 <= k < pre.len() && pre[k] == x;
        assert(accounts_issues_upto(accts, n)[k] == x);
    }
}

/// A fallback backend is checked as a primary one is: every issue a backend
/// with its settings has is reported for the account's fallback (under
/// `accounts[i].fallback`); in particular an empty fallback URL, or one
/// with a scheme other than ws, wss, http or https, is an error at
/// `accounts[i].fallback.url`, and the configuration has errors.
pub proof fn lemma_fallback_is_validated(c: AppConfig, i: int)
    requires
        0 <= i < c.accounts@.len(),
        c.accounts@[i].fallback is Some,
    ensures
        forall|x: IssueV|
            #[trigger] backend_issues(c.accounts@[i].fallback->0, account_prefix(i as nat) + ".fallback"@).contains(x)
                ==> config_issues(c).contains(x),
        ({
            let f = c.accounts@[i].fallback->0;
            (f.url@.len() == 0 || !valid_scheme(f.url@)) ==> (exists|k: int|
                0 <= k < config_issues(c).len() && (#[trigger] config_issues(c)[k]).severity == Severity::Error
                    && config_issues(c)[k].path == account_prefix(i as nat) + ".fallback"@ + ".url"@)
                && any_error(config_issues(c))
        }),
{
    let accts = c.accounts@;
    let f = accts[i].fallback->0;
    let p = account_prefix(i as nat);
    let fb = backend_issues(f, p + ".fallback"@);
    let ai = account_issues(accts, i);
    let head = ai.len() - fb.len();
    assert(ai.subrange(head, ai.len() as int) =~= fb);
    let s = server_issues(c.server);
    let ac = accounts_issues(accts);
    assert forall|x: IssueV| #[trigger] fb.contains(x) implies config_issues(c).contains(x) by {
        let m = choose|m: int| 0 <= m < fb.len() && fb[m] == x;
        assert(ai[head + m] == x);
        lemma_upto_contains(accts, accts.len() as int, i, x);
        let k = choose|k: int| 0 <= k < ac.len() && ac[k] == x;
        assert(config_issues(c)[s.len() + k] == x);
    }
    if f.url@.len() == 0 || !valid_scheme(f.url@) {
        let w = if !known_backend_type(f.backend_type@) {
            1int
        } else {
            0int
        };
        let x = fb[w];
        assert(x.severity == Severity::Error && x.path == p + ".fallback"@ + ".url"@);
        assert(fb.contains(x));
        let k = choose|k: int| 0 <= k < config_issues(c).len() && config_issues(c)[k] == x;
        assert(config_issues(c)[k].severity == Severity::Error);
    }
}

/// An account's backend is checked: every issue its settings have is
/// reported under `accounts[i].backend`; in particular an empty URL, or
/// one with a scheme other than ws, wss, http or https, is an error at
/// `accounts[i].backend.url`, and the configuration has errors.
pub proof fn lemma_backend_is_validated(c: AppConfig, i: int)
    requires
        0 <= i < c.accounts@.len(),
    ensures
        forall|x: IssueV|
            #[trigger] backend_issues(c.accounts@[i].backend, account_prefix(i as nat) + ".backend"@).contains(x)
                ==> config_issues(c).contains(x),
        ({
            let b = c.accounts@[i].backend;
            (b.url@.len() == 0 || !valid_scheme(b.url@)) ==> (exists|k: int|
                0 <= k < config_issues(c).len() && (#[trigger] config_issues(c)[k]).severity == Severity::Error
                    && config_issues(c)[k].path == account_prefix(i as nat) + ".backend"@ + ".url"@)
                && any_error(config_issues(c))
        }),
{
    let accts = c.accounts@;
    let b = accts[i].backend;
    let p = account_prefix(i as nat);
    let pb = backend_issues(b, p + ".backend"@);
    let ai = account_issues(accts, i);
    let n1: int = if trim_spec(accts[i].name@).len() == 0 {
        1
    } else {
        0
    };
    let n2: int = if name_seen_before(accts, i) {
        1
    } else {
        0
    };
    let h = n1 + n2;
    assert(ai.subrange(h, h + pb.len()) =~= pb);
    let s = server_issues(c.server);
    let ac = accounts_issues(accts);
    assert forall|x: IssueV| #[trigger] pb.contains(x) implies config_issues(c).contains(x) by {
        let m = choose|m: int| 0 <= m < pb.len() && pb[m] == x;
        assert(ai[h + m] == x);
        lemma_upto_contains(accts, accts.len() as int, i, x);
        let k = choose|k: int| 0 <= k < ac.len() && ac[k] == x;
        assert(config_issues(c)[s.len() + k] == x);
    }
    if b.url@.len() == 0 || !valid_scheme(b.url@) {
        let w = if !known_backend_type(b.backend_type@) {
            1int
        } else {
            0int
        };
        let x = pb[w];
        assert(x.severity == Severity::Error && x.path == p + ".backend"@ + ".url"@);
        assert(pb.contains(x));
        let k = choose|k: int| 0 <= k < config_issues(c).len() && config_issues(c)[k] == x;
        assert(config_issues(c)[k].severity == Severity::Error);
    }
}

} // verus!
