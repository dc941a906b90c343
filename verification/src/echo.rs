//! The echo plugin's logic: which message events it answers, and the
//! message it makes of them (the configured prefix put before the first
//! text segment and before the raw message).

use vstd::prelude::*;

use crate::text::{contains_chars, contains_seq, chars_of, owned, push_str, str_eq, string_from_chars};

verus! {

/// The default prefix put before echoed text.
pub fn default_prefix() -> (r: String)
    ensures
        r@ == "[echo] "@,
{
    owned("[echo] ")
}

/// `true`, the default of the group and private switches.
pub fn default_true() -> (r: bool)
    ensures
        r,
{
    true
}

/// The echo plugin's configuration.
#[derive(Debug, Clone)]
pub struct EchoConfig {
    /// Text put before echoed text.
    pub prefix: String,
    /// Only messages whose text contains this are echoed (empty: all).
    pub keyword: String,
    /// Whether group messages are echoed.
    pub echo_group: bool,
    /// Whether private messages are echoed.
    pub echo_private: bool,
}

impl EchoConfig {
    /// The defaults: prefix `[echo] `, no keyword, groups and private
    /// chats both echoed.
    pub fn defaults() -> (r: EchoConfig)
        ensures
            r.prefix@ == "[echo] "@,
            r.keyword@.len() == 0,
            r.echo_group,
            r.echo_private,
    {
        EchoConfig { prefix: default_prefix(), keyword: String::new(), echo_group: default_true(), echo_private: default_true() }
    }
}

/// A message segment as the plugin sees it.
#[derive(Debug, Clone)]
pub enum EchoSegment {
    Text(String),
    Other,
}

/// A message event as the plugin sees it.
#[derive(Debug, Clone)]
pub struct EchoMessage {
    pub message_type: String,
    pub message: Vec<EchoSegment>,
    pub raw_message: String,
}

/// Whether some text segment contains the keyword.
pub open spec fn has_keyword(segs: Seq<EchoSegment>, keyword: Seq<char>) -> bool {
    exists|i: int| 0 <= i < segs.len() && text_has(#[trigger] segs[i], keyword)
}

/// Whether a segment is text containing the keyword.
pub open spec fn text_has(s: EchoSegment, keyword: Seq<char>) -> bool {
    s matches EchoSegment::Text(t) && contains_seq(t@, keyword)
}

/// Whether a message is echoed: its chat kind is enabled, and it holds the
/// keyword when one is set.
pub open spec fn should_echo_spec(cfg: EchoConfig, m: EchoMessage) -> bool {
    !(m.message_type@ == "group"@ && !cfg.echo_group) && !(m.message_type@ == "private"@ && !cfg.echo_private)
        && (cfg.keyword@.len() == 0 || has_keyword(m.message@, cfg.keyword@))
}

/// Whether the plugin echoes a message.
pub fn should_echo(cfg: &EchoConfig, m: &EchoMessage) -> (r: bool)
    ensures
        r == should_echo_spec(*cfg, *m),
{
    if str_eq(m.message_type.as_str(), "group") && !cfg.echo_group {
        return false;
    }
    if str_eq(m.message_type.as_str(), "private") && !cfg.echo_private {
        return false;
    }
    if cfg.keyword.as_str().is_empty() {
        return true;
    }
    let k = chars_of(cfg.keyword.as_str());
    let mut i: usize = 0;
    while i < m.message.len()
        invariant
            i <= m.message.len(),
            k@ == cfg.keyword@,
            !(m.message_type@ == "group"@ && !cfg.echo_group),
            !(m.message_type@ == "private"@ && !cfg.echo_private),
            forall|j: int| 0 <= j < i ==> !text_has(#[trigger] m.message@[j], k@),
        decreases m.message.len() - i,
    {
        match &m.message[i] {
            EchoSegment::Text(t) => {
                let tc = chars_of(t.as_str());
                if contains_chars(tc.as_slice(), k.as_slice()) {
                    assert(text_has(m.message@[i as int], k@));
                    return true;
                }
            },
            EchoSegment::Other => {},
        }
        i = i + 1;
    }
    proof {
        if has_keyword(m.message@, cfg.keyword@) {
            let j = choose|j: int| 0 <= j < m.message@.len() && text_has(#[trigger] m.message@[j], cfg.keyword@);
            assert(!text_has(m.message@[j], k@));
        }
    }
    false
}

/// The index of the first text segment, or the length.
pub open spec fn first_text(segs: Seq<EchoSegment>, i: int) -> int
    decreases segs.len() - i,
{
    if i < 0 || i >= segs.len() {
        segs.len() as int
    } else if segs[i] is Text {
        i
    } else {
        first_text(segs, i + 1)
    }
}

fn concat(a: &String, b: &String) -> (r: String)
    ensures
        r@ == a@ + b@,
{
    let mut buf: Vec<char> = Vec::new();
    push_str(&mut buf, a.as_str());
    push_str(&mut buf, b.as_str());
    string_from_chars(buf.as_slice())
}

/// The echoed message: the prefix before the first text segment (the other
/// segments unchanged) and before the raw message.
pub fn echoed(cfg: &EchoConfig, m: EchoMessage) -> (r: EchoMessage)
    ensures
        r.message_type@ == m.message_type@,
        r.raw_message@ == cfg.prefix@ + m.raw_message@,
        r.message@.len() == m.message@.len(),
        forall|i: int| 0 <= i < m.message@.len() ==> {
            let t = first_text(m.message@, 0);
            if i == t {
                (#[trigger] r.message@[i]) matches EchoSegment::Text(x) && m.message@[i] matches EchoSegment::Text(y) && x@ == cfg.prefix@ + y@
            } else {
                match (r.message@[i], m.message@[i]) {
                    (EchoSegment::Text(x), EchoSegment::Text(y)) => x@ == y@,
                    (EchoSegment::Other, EchoSegment::Other) => true,
                    _ => false,
                }
            }
        },
{
    let EchoMessage { message_type, message, raw_message } = m;
    let ghost orig = message@;
    let mut out: Vec<EchoSegment> = Vec::new();
    let mut done = false;
    let mut i: usize = 0;
    proof {
        lemma_first_text_bound(orig, 0);
    }
    while i < message.len()
        invariant
            i <= message.len(),
            message@ == orig,
            out@.len() == i,
            done <==> first_text(orig, 0) < i,
            first_text(orig, 0) <= orig.len(),
            !done ==> first_text(orig, 0) == first_text(orig, i as int),
            forall|j: int| 0 <= j < i ==> {
                if j == first_text(orig, 0) {
                    (#[trigger] out@[j]) matches EchoSegment::Text(x) && orig[j] matches EchoSegment::Text(y) && x@ == cfg.prefix@ + y@
                } else {
                    match (out@[j], orig[j]) {
                        (EchoSegment::Text(x), EchoSegment::Text(y)) => x@ == y@,
                        (EchoSegment::Other, EchoSegment::Other) => true,
                        _ => false,
                    }
                }
            },
        decreases message.len() - i,
    {
        proof {
            lemma_first_text_bound(orig, i as int);
        }
        match &message[i] {
            EchoSegment::Text(t) => {
                if !done {
                    out.push(EchoSegment::Text(concat(&cfg.prefix, t)));
                    done = true;
                } else {
                    out.push(EchoSegment::Text(t.clone()));
                }
            },
            EchoSegment::Other => {
                out.push(EchoSegment::Other);
            },
        }
        i = i + 1;
    }
    EchoMessage { message_type, message: out, raw_message: concat(&cfg.prefix, &raw_message) }
}

proof fn lemma_first_text_bound(s: Seq<EchoSegment>, i: int)
    requires
        0 <= i <= s.len(),
    ensures
        i <= first_text(s, i) <= s.len(),
        first_text(s, i) < s.len() ==> s[first_text(s, i)] is Text,
    decreases s.len() - i,
{
    if i < s.len() && !(s[i] is Text) {
        lemma_first_text_bound(s, i + 1);
    }
}

} // verus!
