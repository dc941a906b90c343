//! Access-token authentication of upstream requests.
//!
//! A request passes when no token is configured, when its `Authorization`
//! header is `Bearer <token>` or the bare token, or when its query string
//! has an `access_token=<token>` pair.

use vstd::prelude::*;

use crate::satori_elements::{find_char, find_from, lemma_find_from, sub_chars};
use crate::text::{chars_eq, chars_of, has_prefix, starts_with};

verus! {

/// The token upstream requests must present (empty: no authentication).
#[derive(Clone)]
pub struct AuthState {
    pub token: std::sync::Arc<String>,
}

/// Whether a query pair (`key=value`, split at its first `=`) is
/// `access_token` with the token as its value.
pub open spec fn pair_grants(p: Seq<char>, token: Seq<char>) -> bool {
    let e = find_from(p, 0, '=');
    e < p.len() && p.take(e) == "access_token"@ && p.skip(e + 1) == token
}

/// Whether some `&`-separated pair of a query string grants access.
pub open spec fn query_grants(q: Seq<char>, token: Seq<char>) -> bool
    decreases q.len(),
{
    let e = find_from(q, 0, '&');
    pair_grants(q.take(e), token) || (0 <= e < q.len() && query_grants(q.skip(e + 1), token))
}

/// Whether an `Authorization` header value grants access.
pub open spec fn header_grants(v: Seq<char>, token: Seq<char>) -> bool {
    (has_prefix(v, "Bearer "@) && v.skip(7) == token) || v == token
}

/// Whether a request passes authentication.
pub open spec fn request_allowed(token: Seq<char>, authorization: Option<Seq<char>>, query: Option<Seq<char>>) -> bool {
    token.len() == 0 || (authorization matches Some(v) && header_grants(v, token)) || (
    query matches Some(q) && query_grants(q, token))
}

/// The view of an optional string slice.
pub open spec fn opt_chars(o: Option<&str>) -> Option<Seq<char>> {
    match o {
        Some(s) => Some(s@),
        None => None,
    }
}

fn pair_ok(p: &[char], token: &[char]) -> (r: bool)
    ensures
        r == pair_grants(p@, token@),
{
    proof {
        lemma_find_from(p@, 0, '=');
    }
    let e = find_char(p, 0, '=');
    if e >= p.len() {
        return false;
    }
    let key = sub_chars(p, 0, e);
    let val = sub_chars(p, e + 1, p.len());
    assert(key@ =~= p@.take(e as int));
    assert(val@ =~= p@.skip(e + 1));
    let name = chars_of("access_token");
    chars_eq(key.as_slice(), name.as_slice()) && chars_eq(val.as_slice(), token)
}

fn query_ok(q: &[char], token: &[char]) -> (r: bool)
    ensures
        r == query_grants(q@, token@),
{
    let mut start: usize = 0;
    let ghost full = q@;
    assert(full.skip(0) =~= full);
    while start <= q.len()
        invariant
            start <= q.len(),
            full == q@,
            query_grants(full, token@) == query_grants(full.skip(start as int), token@),
        decreases q.len() + 1 - start,
    {
        let ghost rest = full.skip(start as int);
        proof {
            lemma_find_from(q@, start as int, '&');
            lemma_find_from(rest, 0, '&');
            lemma_find_shift(q@, start as int, '&');
        }
        let e = find_char(q, start, '&');
        let pair = sub_chars(q, start, e);
        assert(pair@ =~= rest.take(e - start));
        if pair_ok(pair.as_slice(), token) {
            return true;
        }
        if e >= q.len() {
            return false;
        }
        assert(rest.skip(e - start + 1) =~= full.skip(e + 1));
        start = e + 1;
    }
    false
}

proof fn lemma_find_shift(s: Seq<char>, start: int, c: char)
    requires
        0 <= start <= s.len(),
    ensures
        find_from(s.skip(start), 0, c) == find_from(s, start, c) - start,
    decreases s.len() - start,
{
    let t = s.skip(start);
    if start < s.len() && s[start] != c {
        lemma_find_shift(s, start + 1, c);
        lemma_find_from_offset(t, 0, c);
        assert(t.skip(1) =~= s.skip(start + 1));
    }
}

proof fn lemma_find_from_offset(t: Seq<char>, i: int, c: char)
    requires
        0 <= i < t.len(),
        t[i] != c,
    ensures
        find_from(t, i, c) == find_from(t.skip(i + 1), 0, c) + i + 1,
    decreases t.len() - i,
{
    let u = t.skip(i + 1);
    lemma_find_skip(t, i + 1, c);
}

proof fn lemma_find_skip(t: Seq<char>, k: int, c: char)
    requires
        0 <= k <= t.len(),
    ensures
        find_from(t, k, c) == find_from(t.skip(k), 0, c) + k,
    decreases t.len() - k,
{
    let u = t.skip(k);
    if k < t.len() && t[k] != c {
        lemma_find_skip(t, k + 1, c);
        lemma_find_skip(u, 1, c);
        assert(u.skip(1) =~= t.skip(k + 1));
    }
}

/// Whether a request passes authentication, given the configured token,
/// its `Authorization` header (when present and readable as text) and its
/// query string.
pub fn check_token(token: &str, authorization: Option<&str>, query: Option<&str>) -> (r: bool)
    ensures
        r == request_allowed(token@, opt_chars(authorization), opt_chars(query)),
{
    let t = chars_of(token);
    if t.len() == 0 {
        return true;
    }
    match authorization {
        Some(value) => {
            let v = chars_of(value);
            let prefix = chars_of("Bearer ");
            if starts_with(v.as_slice(), prefix.as_slice()) {
                proof {
                    reveal_strlit("Bearer ");
                }
                let bearer = sub_chars(v.as_slice(), 7, v.len());
                assert(bearer@ =~= v@.skip(7));
                if chars_eq(bearer.as_slice(), t.as_slice()) {
                    return true;
                }
            }
            if chars_eq(v.as_slice(), t.as_slice()) {
                return true;
            }
        },
        None => {},
    }
    match query {
        Some(q) => {
            let qc = chars_of(q);
            query_ok(qc.as_slice(), t.as_slice())
        },
        None => false,
    }
}

} // verus!
