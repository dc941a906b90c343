//! The decisions taken when the gateway starts: the log filter, whether the
//! configuration is good enough to run, and which adapters each configured
//! account gets.

use vstd::prelude::*;

use crate::config::{AccountConfig, BackendConfig};
use crate::text::{nat_decimal, owned, push_nat_decimal, push_str, str_eq, string_from_chars};
use crate::validation::{issues_view, IssueV, Severity, ValidationIssue};

verus! {

/// The tracing filter for a log level: the level for each of the
/// gateway's crates.
pub open spec fn log_filter_text(level: Seq<char>) -> Seq<char> {
    "ferroq="@ + level + ",ferroq_core="@ + level + ",ferroq_gateway="@ + level + ",ferroq_web="@ + level
}

/// Builds the tracing filter for a log level.
pub fn log_filter(level: &str) -> (r: String)
    ensures
        r@ == log_filter_text(level@),
{
    let mut buf: Vec<char> = Vec::new();
    push_str(&mut buf, "ferroq=");
    push_str(&mut buf, level);
    push_str(&mut buf, ",ferroq_core=");
    push_str(&mut buf, level);
    push_str(&mut buf, ",ferroq_gateway=");
    push_str(&mut buf, level);
    push_str(&mut buf, ",ferroq_web=");
    push_str(&mut buf, level);
    string_from_chars(buf.as_slice())
}

/// The number of errors among the first `n` issues.
pub open spec fn errors_in(issues: Seq<IssueV>, n: int) -> nat
    decreases n,
{
    if n <= 0 || n > issues.len() {
        0
    } else {
        errors_in(issues, n - 1) + if issues[n - 1].severity == Severity::Error {
            1nat
        } else {
            0nat
        }
    }
}

proof fn lemma_errors_in_bound(issues: Seq<IssueV>, n: int)
    requires
        0 <= n <= issues.len(),
    ensures
        errors_in(issues, n) <= n,
    decreases n,
{
    if n > 0 {
        lemma_errors_in_bound(issues, n - 1);
    }
}

/// Counts the errors among validation issues.
pub fn error_count(issues: &[ValidationIssue]) -> (r: usize)
    ensures
        r == errors_in(issues_view(issues@), issues@.len() as int),
{
    let ghost iv = issues_view(issues@);
    let mut n: usize = 0;
    let mut i: usize = 0;
    while i < issues.len()
        invariant
            i <= issues.len(),
            iv == issues_view(issues@),
            iv.len() == issues@.len(),
            n == errors_in(iv, i as int),
        decreases issues.len() - i,
    {
        proof {
            lemma_errors_in_bound(iv, i as int);
        }
        assert(iv[i as int].severity == issues@[i as int].severity);
        if issues[i].severity == Severity::Error {
            n = n + 1;
        }
        i = i + 1;
    }
    n
}

/// The message that stops a start with a configuration that has errors.
pub open spec fn refusal_text(errors: nat) -> Seq<char> {
    "configuration has "@ + nat_decimal(errors) + " error(s) \u{2014} fix them and restart"@
}

/// Builds the message that stops a start with `errors` configuration
/// errors.
pub fn refusal_message(errors: usize) -> (r: String)
    ensures
        r@ == refusal_text(errors as nat),
{
    let mut buf: Vec<char> = Vec::new();
    push_str(&mut buf, "configuration has ");
    push_nat_decimal(&mut buf, errors as u64);
    push_str(&mut buf, " error(s) \u{2014} fix them and restart");
    string_from_chars(buf.as_slice())
}

/// How a backend is reached.
#[derive(Debug, Clone, Copy, PartialEq, Eq, Structural)]
pub enum BackendKind {
    /// A OneBot v11 forward WebSocket (Lagrange or NapCat).
    WebSocket,
    /// The official HTTP API.
    Official,
}

/// The kind of a backend type; `None` for a type the gateway cannot run.
pub open spec fn kind_of(t: Seq<char>) -> Option<BackendKind> {
    if t == "lagrange"@ || t == "napcat"@ {
        Some(BackendKind::WebSocket)
    } else if t == "official"@ {
        Some(BackendKind::Official)
    } else {
        None
    }
}

/// Tells the kind of a backend.
pub fn backend_kind(b: &BackendConfig) -> (r: Option<BackendKind>)
    ensures
        r == kind_of(b.backend_type@),
{
    let t = b.backend_type.as_str();
    if str_eq(t, "lagrange") || str_eq(t, "napcat") {
        Some(BackendKind::WebSocket)
    } else if str_eq(t, "official") {
        Some(BackendKind::Official)
    } else {
        None
    }
}

/// The adapters an account gets: its primary backend, and a fallback
/// adapter (named after the account with `-fallback`) that is put behind a
/// failover pair.
pub struct AdapterPlan {
    pub primary: BackendKind,
    pub fallback: Option<(String, BackendKind)>,
}

/// The plan for an account: none when its backend type is unknown; a
/// fallback of unknown type is ignored.
pub open spec fn plan_of(name: Seq<char>, primary: Seq<char>, fallback: Option<Seq<char>>) -> Option<(BackendKind, Option<(Seq<char>, BackendKind)>)> {
    match kind_of(primary) {
        None => None,
        Some(p) => Some(
            (
                p,
                match fallback {
                    Some(f) => match kind_of(f) {
                        Some(k) => Some((name + "-fallback"@, k)),
                        None => None,
                    },
                    None => None,
                },
            ),
        ),
    }
}

/// The view of a plan.
pub open spec fn plan_view(p: Option<AdapterPlan>) -> Option<(BackendKind, Option<(Seq<char>, BackendKind)>)> {
    match p {
        Some(a) => Some(
            (
                a.primary,
                match a.fallback {
                    Some((n, k)) => Some((n@, k)),
                    None => None,
                },
            ),
        ),
        None => None,
    }
}

/// The backend type of an optional fallback.
pub open spec fn fallback_type(f: Option<BackendConfig>) -> Option<Seq<char>> {
    match f {
        Some(b) => Some(b.backend_type@),
        None => None,
    }
}

/// Plans the adapters of an account.
pub fn plan_account(account: &AccountConfig) -> (r: Option<AdapterPlan>)
    ensures
        plan_view(r) == plan_of(account.name@, account.backend.backend_type@, fallback_type(account.fallback)),
{
    let primary = match backend_kind(&account.backend) {
        Some(k) => k,
        None => {
            return None;
        },
    };
    let fallback = match &account.fallback {
        Some(fb) => match backend_kind(fb) {
            Some(k) => {
                let mut buf: Vec<char> = Vec::new();
                push_str(&mut buf, account.name.as_str());
                push_str(&mut buf, "-fallback");
                Some((string_from_chars(buf.as_slice()), k))
            },
            None => None,
        },
        None => None,
    };
    Some(AdapterPlan { primary, fallback })
}

} // verus!
