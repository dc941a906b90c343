//! Satori message content: the HTML-like element encoding of message
//! segments, and the parser that reads it back.
//!
//! Text is written with `&`, `<` and `>` escaped; mentions, images, audio,
//! video, emoji, quotes and forwards are written as self-closing elements
//! whose attribute values escape `&`, `"`, `<` and `>`.

use vstd::prelude::*;

use crate::message::{opt_str_view, MessageSegment, Seg, segs_view};
use crate::text::{
    chars_of, has_prefix, contains_seq, matches_at, contains_chars, push_chars, push_str,
    starts_with, string_from_chars, is_whitespace, unicode_white_space, trim_spec, trim_chars,
    chars_eq,
};

verus! {

// ---------------------------------------------------------------------------
// Escaping
// ---------------------------------------------------------------------------

/// The escaped form of one text character.
pub open spec fn esc_text_char(c: char) -> Seq<char> {
    if c == '&' {
        "&amp;"@
    } else if c == '<' {
        "&lt;"@
    } else if c == '>' {
        "&gt;"@
    } else {
        seq![c]
    }
}

/// The escaped form of one attribute-value character.
pub open spec fn esc_attr_char(c: char) -> Seq<char> {
    if c == '&' {
        "&amp;"@
    } else if c == '"' {
        "&quot;"@
    } else if c == '<' {
        "&lt;"@
    } else if c == '>' {
        "&gt;"@
    } else {
        seq![c]
    }
}

/// Text with `&`, `<`, `>` replaced by `&amp;`, `&lt;`, `&gt;`.
pub open spec fn escape_text(s: Seq<char>) -> Seq<char>
    decreases s.len(),
{
    if s.len() == 0 {
        Seq::empty()
    } else {
        escape_text(s.drop_last()) + esc_text_char(s.last())
    }
}

/// An attribute value with `&`, `"`, `<`, `>` replaced by their entities.
pub open spec fn escape_attr_spec(s: Seq<char>) -> Seq<char>
    decreases s.len(),
{
    if s.len() == 0 {
        Seq::empty()
    } else {
        escape_attr_spec(s.drop_last()) + esc_attr_char(s.last())
    }
}

fn escape_with(s: &str, attr: bool) -> (r: Vec<char>)
    ensures
        r@ == (if attr {
            escape_attr_spec(s@)
        } else {
            escape_text(s@)
        }),
{
    let v = chars_of(s);
    let mut out: Vec<char> = Vec::new();
    let mut i: usize = 0;
    while i < v.len()
        invariant
            i <= v.len(),
            v@ == s@,
            out@ == (if attr {
                escape_attr_spec(v@.take(i as int))
            } else {
                escape_text(v@.take(i as int))
            }),
        decreases v.len() - i,
    {
        let c = v[i];
        if c == '&' {
            push_str(&mut out, "&amp;");
        } else if c == '<' {
            push_str(&mut out, "&lt;");
        } else if c == '>' {
            push_str(&mut out, "&gt;");
        } else if attr && c == '"' {
            push_str(&mut out, "&quot;");
        } else {
            out.push(c);
        }
        proof {
            assert(v@.take(i + 1).drop_last() =~= v@.take(i as int));
            assert(v@.take(i + 1).last() == c);
        }
        i = i + 1;
        assert(out@ =~= (if attr {
            escape_attr_spec(v@.take(i as int))
        } else {
            escape_text(v@.take(i as int))
        }));
    }
    assert(v@.take(v.len() as int) =~= v@);
    out
}

/// Escapes `&`, `<` and `>` in message text.
pub fn escape_satori_text(s: &str) -> (r: String)
    ensures
        r@ == escape_text(s@),
{
    let v = escape_with(s, false);
    string_from_chars(v.as_slice())
}

/// Escapes `&`, `"`, `<` and `>` in an attribute value.
pub fn escape_attr(s: &str) -> (r: String)
    ensures
        r@ == escape_attr_spec(s@),
{
    let v = escape_with(s, true);
    string_from_chars(v.as_slice())
}

/// `s` with every occurrence of `pat` (scanning left to right, without
/// overlap) replaced by `rep`, as `str::replace` does.
pub open spec fn replace_all(s: Seq<char>, pat: Seq<char>, rep: Seq<char>) -> Seq<char>
    decreases s.len(),
{
    if s.len() == 0 || pat.len() == 0 {
        s
    } else if has_prefix(s, pat) {
        rep + replace_all(s.skip(pat.len() as int), pat, rep)
    } else {
        seq![s[0]] + replace_all(s.drop_first(), pat, rep)
    }
}

/// Entities decoded in turn: `&lt;`, `&gt;`, `&quot;`, `&#39;`, then `&amp;`.
pub open spec fn unescape_spec(s: Seq<char>) -> Seq<char> {
    replace_all(
        replace_all(
            replace_all(replace_all(replace_all(s, "&lt;"@, "<"@), "&gt;"@, ">"@), "&quot;"@, "\""@),
            "&#39;"@,
            "'"@,
        ),
        "&amp;"@,
        "&"@,
    )
}

proof fn lemma_replace_all_skip(s: Seq<char>, pat: Seq<char>, rep: Seq<char>, i: int)
    requires
        0 <= i <= s.len(),
        pat.len() > 0,
    ensures
        i < s.len() && has_prefix(s.skip(i), pat) ==> replace_all(s.skip(i), pat, rep) == rep
            + replace_all(s.skip(i + pat.len()), pat, rep),
        i < s.len() && !has_prefix(s.skip(i), pat) ==> replace_all(s.skip(i), pat, rep) == seq![
            s[i],
        ] + replace_all(s.skip(i + 1), pat, rep),
{
    if i < s.len() {
        if has_prefix(s.skip(i), pat) {
            assert(s.skip(i).skip(pat.len() as int) =~= s.skip(i + pat.len()));
        }
        assert(s.skip(i).drop_first() =~= s.skip(i + 1));
    }
}

pub(crate) fn replace_all_chars(s: &Vec<char>, pat: &str, rep: &str) -> (r: Vec<char>)
    requires
        pat@.len() > 0,
    ensures
        r@ == replace_all(s@, pat@, rep@),
{
    let p = chars_of(pat);
    let rp = chars_of(rep);
    let mut out: Vec<char> = Vec::new();
    let mut i: usize = 0;
    assert(s@.skip(0) =~= s@);
    while i < s.len()
        invariant
            i <= s.len(),
            p@ == pat@,
            rp@ == rep@,
            p@.len() > 0,
            out@ + replace_all(s@.skip(i as int), pat@, rep@) == replace_all(s@, pat@, rep@),
        decreases s.len() - i,
    {
        proof {
            lemma_replace_all_skip(s@, pat@, rep@, i as int);
        }
        if matches_at(s.as_slice(), p.as_slice(), i) {
            proof {
                assert(s@.skip(i as int).subrange(0, pat@.len() as int) =~= s@.subrange(
                    i as int,
                    i + pat@.len(),
                ));
            }
            let ghost before = out@;
            push_chars(&mut out, &rp);
            i = i + p.len();
            assert(out@ + replace_all(s@.skip(i as int), pat@, rep@) =~= before + (rep@
                + replace_all(s@.skip(i as int), pat@, rep@)));
        } else {
            proof {
                if has_prefix(s@.skip(i as int), pat@) {
                    assert(s@.skip(i as int).subrange(0, pat@.len() as int) =~= s@.subrange(
                        i as int,
                        i + pat@.len(),
                    ));
                }
            }
            let ghost before = out@;
            out.push(s[i]);
            i = i + 1;
            assert(out@ + replace_all(s@.skip(i as int), pat@, rep@) =~= before + (seq![
                s@[i - 1],
            ] + replace_all(s@.skip(i as int), pat@, rep@)));
        }
    }
    assert(s@.skip(s.len() as int) =~= Seq::<char>::empty());
    assert(out@ =~= out@ + replace_all(s@.skip(i as int), pat@, rep@));
    out
}

fn unescape_chars(s: &Vec<char>) -> (r: Vec<char>)
    ensures
        r@ == unescape_spec(s@),
{
    proof {
        reveal_strlit("&lt;");
        reveal_strlit("&gt;");
        reveal_strlit("&quot;");
        reveal_strlit("&#39;");
        reveal_strlit("&amp;");
    }
    let a = replace_all_chars(s, "&lt;", "<");
    let b = replace_all_chars(&a, "&gt;", ">");
    let c = replace_all_chars(&b, "&quot;", "\"");
    let d = replace_all_chars(&c, "&#39;", "'");
    replace_all_chars(&d, "&amp;", "&")
}

/// Decodes `&lt;`, `&gt;`, `&quot;`, `&#39;` and `&amp;` (in that order).
pub fn unescape_satori_text(s: &str) -> (r: String)
    ensures
        r@ == unescape_spec(s@),
{
    let v = chars_of(s);
    let u = unescape_chars(&v);
    string_from_chars(u.as_slice())
}

/// Decodes an attribute value (the same entities as text).
pub fn unescape_attr(s: &str) -> (r: String)
    ensures
        r@ == unescape_spec(s@),
{
    unescape_satori_text(s)
}

// ---------------------------------------------------------------------------
// Escaping round trip
// ---------------------------------------------------------------------------

/// One character escaped: `&` always, `<`, `>` and `"` as chosen.
pub open spec fn esc_char_with(c: char, lt: bool, gt: bool, quot: bool) -> Seq<char> {
    if c == '&' {
        "&amp;"@
    } else if c == '<' && lt {
        "&lt;"@
    } else if c == '>' && gt {
        "&gt;"@
    } else if c == '"' && quot {
        "&quot;"@
    } else {
        seq![c]
    }
}

/// A string escaped character by character, front to back.
pub open spec fn esc_with(t: Seq<char>, lt: bool, gt: bool, quot: bool) -> Seq<char>
    decreases t.len(),
{
    if t.len() == 0 {
        Seq::empty()
    } else {
        esc_char_with(t[0], lt, gt, quot) + esc_with(t.drop_first(), lt, gt, quot)
    }
}

proof fn lemma_esc_with_push(a: Seq<char>, c: char, lt: bool, gt: bool, quot: bool)
    ensures
        esc_with(a.push(c), lt, gt, quot) == esc_with(a, lt, gt, quot) + esc_char_with(c, lt, gt, quot),
    decreases a.len(),
{
    if a.len() == 0 {
        assert(a.push(c).drop_first() =~= Seq::<char>::empty());
        assert(a.push(c)[0] == c);
        assert(esc_with(Seq::<char>::empty(), lt, gt, quot) == Seq::<char>::empty());
        assert(esc_with(a.push(c), lt, gt, quot) =~= esc_char_with(c, lt, gt, quot));
    } else {
        lemma_esc_with_push(a.drop_first(), c, lt, gt, quot);
        assert(a.push(c).drop_first() =~= a.drop_first().push(c));
        assert(esc_with(a.push(c), lt, gt, quot) =~= esc_char_with(a[0], lt, gt, quot) + (esc_with(
            a.drop_first(),
            lt,
            gt,
            quot,
        ) + esc_char_with(c, lt, gt, quot)));
    }
}

proof fn lemma_escape_text_is(t: Seq<char>)
    ensures
        escape_text(t) == esc_with(t, true, true, false),
    decreases t.len(),
{
    if t.len() > 0 {
        lemma_escape_text_is(t.drop_last());
        lemma_esc_with_push(t.drop_last(), t.last(), true, true, false);
        assert(t.drop_last().push(t.last()) =~= t);
    }
}

proof fn lemma_escape_attr_is(t: Seq<char>)
    ensures
        escape_attr_spec(t) == esc_with(t, true, true, true),
    decreases t.len(),
{
    if t.len() > 0 {
        lemma_escape_attr_is(t.drop_last());
        lemma_esc_with_push(t.drop_last(), t.last(), true, true, true);
        assert(t.drop_last().push(t.last()) =~= t);
    }
}

proof fn lemma_ra_pattern(r: Seq<char>, pat: Seq<char>, rep: Seq<char>)
    requires
        pat.len() > 0,
    ensures
        replace_all(pat + r, pat, rep) == rep + replace_all(r, pat, rep),
{
    let s = pat + r;
    assert(s.subrange(0, pat.len() as int) =~= pat);
    assert(s.skip(pat.len() as int) =~= r);
}

proof fn lemma_ra_pass(b: Seq<char>, r: Seq<char>, pat: Seq<char>, rep: Seq<char>)
    requires
        b.len() > 0,
        pat.len() > 1,
        pat[0] == '&',
        !has_prefix(b + r, pat),
        forall|k: int| 1 <= k < b.len() ==> b[k] != '&',
    ensures
        replace_all(b + r, pat, rep) == b + replace_all(r, pat, rep),
    decreases b.len(),
{
    let s = b + r;
    assert(s.drop_first() =~= b.drop_first() + r);
    if b.len() > 1 {
        let b1 = b.drop_first();
        assert(b1[0] == b[1]);
        assert((b1 + r)[0] != pat[0]);
        assert(!has_prefix(b1 + r, pat)) by {
            if has_prefix(b1 + r, pat) {
                assert((b1 + r).subrange(0, pat.len() as int)[0] == pat[0]);
            }
        }
        lemma_ra_pass(b1, r, pat, rep);
        assert(seq![b[0]] + (b1 + replace_all(r, pat, rep)) =~= b + replace_all(r, pat, rep));
    } else {
        assert(b.drop_first() =~= Seq::<char>::empty());
        assert(b.drop_first() + r =~= r);
        assert(seq![b[0]] + replace_all(r, pat, rep) =~= b + replace_all(r, pat, rep));
    }
}

proof fn lemma_not_prefix_at(s: Seq<char>, pat: Seq<char>, k: int)
    requires
        0 <= k < pat.len(),
        k < s.len(),
        s[k] != pat[k],
    ensures
        !has_prefix(s, pat),
{
    if has_prefix(s, pat) {
        assert(s.subrange(0, pat.len() as int)[k] == pat[k]);
    }
}

/// One decoding pass over an escaped string: replacing `pat` (one of the
/// entities) by `rep` turns the blocks equal to `pat` back into their
/// character and leaves every other block as it is.
proof fn lemma_pass_block(c: char, rest: Seq<char>, lt: bool, gt: bool, quot: bool, pat: Seq<char>, rep: Seq<char>)
    requires
        pat == "&lt;"@ || pat == "&gt;"@ || pat == "&quot;"@ || pat == "&#39;"@ || pat == "&amp;"@,
    ensures
        replace_all(esc_char_with(c, lt, gt, quot) + rest, pat, rep) == (if esc_char_with(c, lt, gt, quot)
            == pat {
            rep
        } else {
            esc_char_with(c, lt, gt, quot)
        }) + replace_all(rest, pat, rep),
{
    reveal_strlit("&lt;");
    reveal_strlit("&gt;");
    reveal_strlit("&quot;");
    reveal_strlit("&#39;");
    reveal_strlit("&amp;");
    let b = esc_char_with(c, lt, gt, quot);
    if b == pat {
        lemma_ra_pattern(rest, pat, rep);
    } else {
        let s = b + rest;
        assert(b.len() > 0);
        assert(s[0] == b[0]);
        if b[0] != '&' {
            lemma_not_prefix_at(s, pat, 0);
        } else {
            assert(s[1] == b[1]);
            if b[1] == pat[1] {
                assert(b == pat);
            }
            lemma_not_prefix_at(s, pat, 1);
        }
        lemma_ra_pass(b, rest, pat, rep);
    }
}

proof fn lemma_pass(t: Seq<char>, lt: bool, gt: bool, quot: bool, pat: Seq<char>, rep: Seq<char>, lt2: bool, gt2: bool, quot2: bool)
    requires
        pat == "&lt;"@ || pat == "&gt;"@ || pat == "&quot;"@ || pat == "&#39;"@ || pat == "&amp;"@,
        forall|c: char|
            #[trigger] esc_char_with(c, lt, gt, quot) == pat ==> rep == esc_char_with(c, lt2, gt2, quot2),
        forall|c: char|
            #[trigger] esc_char_with(c, lt, gt, quot) != pat ==> esc_char_with(c, lt, gt, quot) == esc_char_with(c, lt2, gt2, quot2),
    ensures
        replace_all(esc_with(t, lt, gt, quot), pat, rep) == esc_with(t, lt2, gt2, quot2),
    decreases t.len(),
{
    if t.len() > 0 {
        let c = t[0];
        let r = t.drop_first();
        lemma_pass(r, lt, gt, quot, pat, rep, lt2, gt2, quot2);
        lemma_pass_block(c, esc_with(r, lt, gt, quot), lt, gt, quot, pat, rep);
    }
}

proof fn lemma_amp_pass(t: Seq<char>)
    ensures
        replace_all(esc_with(t, false, false, false), "&amp;"@, "&"@) == t,
    decreases t.len(),
{
    reveal_strlit("&amp;");
    reveal_strlit("&");
    if t.len() > 0 {
        let c = t[0];
        let r = t.drop_first();
        lemma_amp_pass(r);
        lemma_pass_block(c, esc_with(r, false, false, false), false, false, false, "&amp;"@, "&"@);
        assert(seq![c] + r =~= t);
    }
}

proof fn lemma_unescape_esc(t: Seq<char>, quot: bool)
    ensures
        unescape_spec(esc_with(t, true, true, quot)) == t,
{
    reveal_strlit("&lt;");
    reveal_strlit("&gt;");
    reveal_strlit("&quot;");
    reveal_strlit("&#39;");
    reveal_strlit("&amp;");
    reveal_strlit("<");
    reveal_strlit(">");
    reveal_strlit("\"");
    reveal_strlit("'");
    assert forall|c: char| #[trigger] esc_char_with(c, true, true, quot) == "&lt;"@ implies "<"@
        == esc_char_with(c, false, true, quot) by {
        if c != '<' {
            if c == '&' {
                assert("&amp;"@[1] != "&lt;"@[1]);
            } else if c == '>' {
                assert("&gt;"@[1] != "&lt;"@[1]);
            } else if c == '"' && quot {
                assert("&quot;"@[1] != "&lt;"@[1]);
            } else {
                assert(seq![c].len() != "&lt;"@.len());
            }
        }
    }
    assert forall|c: char| #[trigger] esc_char_with(c, true, true, quot) != "&lt;"@ implies esc_char_with(
        c,
        true,
        true,
        quot,
    ) == esc_char_with(c, false, true, quot) by {}
    lemma_pass(t, true, true, quot, "&lt;"@, "<"@, false, true, quot);
    assert forall|c: char| #[trigger] esc_char_with(c, false, true, quot) == "&gt;"@ implies ">"@
        == esc_char_with(c, false, false, quot) by {
        if c != '>' {
            if c == '&' {
                assert("&amp;"@[1] != "&gt;"@[1]);
            } else if c == '"' && quot {
                assert("&quot;"@[1] != "&gt;"@[1]);
            } else {
                assert(seq![c].len() != "&gt;"@.len());
            }
        }
    }
    assert forall|c: char| #[trigger] esc_char_with(c, false, true, quot) != "&gt;"@ implies esc_char_with(
        c,
        false,
        true,
        quot,
    ) == esc_char_with(c, false, false, quot) by {}
    lemma_pass(t, false, true, quot, "&gt;"@, ">"@, false, false, quot);
    assert forall|c: char| #[trigger] esc_char_with(c, false, false, quot) == "&quot;"@ implies "\""@
        == esc_char_with(c, false, false, false) by {
        if !(c == '"' && quot) {
            if c == '&' {
                assert("&amp;"@[1] != "&quot;"@[1]);
            } else {
                assert(seq![c].len() != "&quot;"@.len());
            }
        }
    }
    assert forall|c: char| #[trigger] esc_char_with(c, false, false, quot) != "&quot;"@ implies esc_char_with(
        c,
        false,
        false,
        quot,
    ) == esc_char_with(c, false, false, false) by {}
    lemma_pass(t, false, false, quot, "&quot;"@, "\""@, false, false, false);
    assert forall|c: char| #[trigger] esc_char_with(c, false, false, false) == "&#39;"@ implies "'"@
        == esc_char_with(c, false, false, false) by {
        if c == '&' {
            assert("&amp;"@[1] != "&#39;"@[1]);
        } else {
            assert(seq![c].len() != "&#39;"@.len());
        }
    }
    lemma_pass(t, false, false, false, "&#39;"@, "'"@, false, false, false);
    lemma_amp_pass(t);
}

/// Unescaping escaped text gives the text back.
pub proof fn lemma_text_round_trip(t: Seq<char>)
    ensures
        unescape_spec(escape_text(t)) == t,
{
    lemma_escape_text_is(t);
    lemma_unescape_esc(t, false);
}

/// Unescaping an escaped attribute value gives the value back.
pub proof fn lemma_attr_round_trip(t: Seq<char>)
    ensures
        unescape_spec(escape_attr_spec(t)) == t,
{
    lemma_escape_attr_is(t);
    lemma_unescape_esc(t, true);
}

// ---------------------------------------------------------------------------
// Segments -> elements
// ---------------------------------------------------------------------------

/// The source of a media segment: its URL if present, else its file.
pub open spec fn media_src(file: Seq<char>, url: Option<Seq<char>>) -> Seq<char> {
    match url {
        Some(u) => u,
        None => file,
    }
}

/// `<name attr="escaped value" />`.
pub open spec fn elem1(name: Seq<char>, attr: Seq<char>, value: Seq<char>) -> Seq<char> {
    "<"@ + name + " "@ + attr + "=\""@ + escape_attr_spec(value) + "\" />"@
}

/// The element encoding of one segment.
pub open spec fn seg_element(s: Seg) -> Seq<char> {
    match s {
        Seg::Text { text } => escape_text(text),
        Seg::At { qq } => if qq == "all"@ {
            "<at type=\"all\" />"@
        } else {
            elem1("at"@, "id"@, qq)
        },
        Seg::Image { file, url } => elem1("img"@, "src"@, media_src(file, url)),
        Seg::Face { id } => elem1("emoji"@, "id"@, id),
        Seg::Reply { id } => "<quote><message id=\""@ + escape_attr_spec(id) + "\" /></quote>"@,
        Seg::Record { file, url } => elem1("audio"@, "src"@, media_src(file, url)),
        Seg::Video { file, url } => elem1("video"@, "src"@, media_src(file, url)),
        Seg::Forward { id } => "<message id=\""@ + escape_attr_spec(id) + "\" forward />"@,
        Seg::Json { data } => escape_text(data),
        Seg::Xml { data } => escape_text(data),
        Seg::Poke { poke_type, id } => "<qq:poke type=\""@ + escape_attr_spec(poke_type)
            + "\" id=\""@ + escape_attr_spec(id) + "\" />"@,
        Seg::Unknown => Seq::empty(),
    }
}

/// The element encoding of a segment list: the encodings, concatenated.
pub open spec fn elements_spec(s: Seq<Seg>) -> Seq<char>
    decreases s.len(),
{
    if s.len() == 0 {
        Seq::empty()
    } else {
        elements_spec(s.drop_last()) + seg_element(s.last())
    }
}

fn push_elem1(out: &mut Vec<char>, name: &str, attr: &str, value: &str)
    ensures
        final(out)@ == old(out)@ + elem1(name@, attr@, value@),
{
    let ghost start = out@;
    push_str(out, "<");
    push_str(out, name);
    push_str(out, " ");
    push_str(out, attr);
    push_str(out, "=\"");
    let e = escape_with(value, true);
    push_chars(out, &e);
    push_str(out, "\" />");
    assert(out@ =~= start + elem1(name@, attr@, value@));
}

fn src_of<'a>(file: &'a String, url: &'a Option<String>) -> (r: &'a String)
    ensures
        r@ == media_src(file@, opt_str_view(*url)),
{
    match url {
        Some(u) => u,
        None => file,
    }
}

fn push_element(out: &mut Vec<char>, seg: &MessageSegment)
    ensures
        final(out)@ == old(out)@ + seg_element(seg@),
{
    let ghost start = out@;
    match seg {
        MessageSegment::Text { text } => {
            let e = escape_with(text.as_str(), false);
            push_chars(out, &e);
        },
        MessageSegment::At { qq } => {
            if crate::text::str_eq(qq.as_str(), "all") {
                push_str(out, "<at type=\"all\" />");
            } else {
                push_elem1(out, "at", "id", qq.as_str());
            }
        },
        MessageSegment::Image { file, url } => {
            push_elem1(out, "img", "src", src_of(file, url).as_str());
        },
        MessageSegment::Face { id } => {
            push_elem1(out, "emoji", "id", id.as_str());
        },
        MessageSegment::Reply { id } => {
            push_str(out, "<quote><message id=\"");
            let e = escape_with(id.as_str(), true);
            push_chars(out, &e);
            push_str(out, "\" /></quote>");
            assert(out@ =~= start + seg_element(seg@));
        },
        MessageSegment::Record { file, url } => {
            push_elem1(out, "audio", "src", src_of(file, url).as_str());
        },
        MessageSegment::Video { file, url } => {
            push_elem1(out, "video", "src", src_of(file, url).as_str());
        },
        MessageSegment::Forward { id } => {
            push_str(out, "<message id=\"");
            let e = escape_with(id.as_str(), true);
            push_chars(out, &e);
            push_str(out, "\" forward />");
            assert(out@ =~= start + seg_element(seg@));
        },
        MessageSegment::Json { data } => {
            let e = escape_with(data.as_str(), false);
            push_chars(out, &e);
        },
        MessageSegment::Xml { data } => {
            let e = escape_with(data.as_str(), false);
            push_chars(out, &e);
        },
        MessageSegment::Poke { poke_type, id } => {
            push_str(out, "<qq:poke type=\"");
            let e1 = escape_with(poke_type.as_str(), true);
            push_chars(out, &e1);
            push_str(out, "\" id=\"");
            let e2 = escape_with(id.as_str(), true);
            push_chars(out, &e2);
            push_str(out, "\" />");
            assert(out@ =~= start + seg_element(seg@));
        },
        MessageSegment::Unknown => {
            assert(out@ =~= start + seg_element(seg@));
        },
    }
}

/// Encodes message segments as Satori elements: escaped text, `<at id=".."
/// />` (or `<at type="all" />`), `<img src=".." />`, `<emoji id=".." />`,
/// `<quote><message id=".." /></quote>`, `<audio src=".." />`,
/// `<video src=".." />`, `<message id=".." forward />`,
/// `<qq:poke type=".." id=".." />`; JSON and XML payloads as escaped text;
/// unknown segments as nothing.
pub fn segments_to_satori_elements(segments: &[MessageSegment]) -> (r: String)
    ensures
        r@ == elements_spec(segs_view(segments@)),
{
    let mut out: Vec<char> = Vec::new();
    let mut i: usize = 0;
    while i < segments.len()
        invariant
            i <= segments.len(),
            out@ == elements_spec(segs_view(segments@).take(i as int)),
        decreases segments.len() - i,
    {
        push_element(&mut out, &segments[i]);
        proof {
            let t = segs_view(segments@).take(i + 1);
            assert(t.drop_last() =~= segs_view(segments@).take(i as int));
        }
        i = i + 1;
    }
    assert(segs_view(segments@).take(segments.len() as int) =~= segs_view(segments@));
    string_from_chars(out.as_slice())
}

// ---------------------------------------------------------------------------
// Elements -> segments
// ---------------------------------------------------------------------------

/// First index at or after `i` that is not whitespace (or the length).
pub open spec fn ws_end(s: Seq<char>, i: int) -> int
    decreases s.len() - i,
{
    if 0 <= i < s.len() && unicode_white_space(s[i]) {
        ws_end(s, i + 1)
    } else {
        i
    }
}

/// First index at or after `i` holding `=`, `/` or whitespace (or the length).
pub open spec fn name_end(s: Seq<char>, i: int) -> int
    decreases s.len() - i,
{
    if 0 <= i < s.len() && s[i] != '=' && !unicode_white_space(s[i]) && s[i] != '/' {
        name_end(s, i + 1)
    } else {
        i
    }
}

/// First index at or after `i` holding `/` or whitespace (or the length).
pub open spec fn value_end(s: Seq<char>, i: int) -> int
    decreases s.len() - i,
{
    if 0 <= i < s.len() && !unicode_white_space(s[i]) && s[i] != '/' {
        value_end(s, i + 1)
    } else {
        i
    }
}

/// First index at or after `i` holding `c` (or the length).
pub open spec fn find_from(s: Seq<char>, i: int, c: char) -> int
    decreases s.len() - i,
{
    if 0 <= i < s.len() && s[i] != c {
        find_from(s, i + 1, c)
    } else {
        i
    }
}

/// The end of a whitespace run lies in bounds, on a non-whitespace character.
pub proof fn lemma_ws_end(s: Seq<char>, i: int)
    requires
        0 <= i <= s.len(),
    ensures
        i <= ws_end(s, i) <= s.len(),
        ws_end(s, i) < s.len() ==> !unicode_white_space(s[ws_end(s, i)]),
    decreases s.len() - i,
{
    if i < s.len() && unicode_white_space(s[i]) {
        lemma_ws_end(s, i + 1);
    }
}

/// The end of an attribute name lies in bounds.
pub proof fn lemma_name_end(s: Seq<char>, i: int)
    requires
        0 <= i <= s.len(),
    ensures
        i <= name_end(s, i) <= s.len(),
    decreases s.len() - i,
{
    if i < s.len() && s[i] != '=' && !unicode_white_space(s[i]) && s[i] != '/' {
        lemma_name_end(s, i + 1);
    }
}

/// The end of an unquoted value lies in bounds.
pub proof fn lemma_value_end(s: Seq<char>, i: int)
    requires
        0 <= i <= s.len(),
    ensures
        i <= value_end(s, i) <= s.len(),
    decreases s.len() - i,
{
    if i < s.len() && !unicode_white_space(s[i]) && s[i] != '/' {
        lemma_value_end(s, i + 1);
    }
}

/// The search for a character stops at the first occurrence, or at the end.
pub proof fn lemma_find_from(s: Seq<char>, i: int, c: char)
    requires
        0 <= i <= s.len(),
    ensures
        i <= find_from(s, i, c) <= s.len(),
        find_from(s, i, c) < s.len() ==> s[find_from(s, i, c)] == c,
        forall|j: int| i <= j < find_from(s, i, c) ==> s[j] != c,
    decreases s.len() - i,
{
    if i < s.len() && s[i] != c {
        lemma_find_from(s, i + 1, c);
    }
}

/// The attributes read from position `i` on, as (name, value) pairs in
/// the order read: whitespace is skipped, a name runs up to `=`, `/` or
/// whitespace, a quoted value runs to the matching quote and is
/// entity-decoded, an unquoted value runs up to `/` or whitespace and is
/// kept as is, and a name without `=` gets the empty value; any other
/// character is skipped.
pub open spec fn attrs_from(s: Seq<char>, i: int) -> Seq<(Seq<char>, Seq<char>)>
    decreases s.len() - i,
{
    if i < 0 || i >= s.len() {
        Seq::empty()
    } else {
        let j = ws_end(s, i);
        proof {
            lemma_ws_end(s, i);
        }
        let k = name_end(s, j);
        proof {
            lemma_name_end(s, j);
        }
        if k == j {
            if j >= s.len() {
                Seq::empty()
            } else {
                attrs_from(s, j + 1)
            }
        } else {
            let name = s.subrange(j, k);
            if k < s.len() && s[k] == '=' {
                let q = k + 1;
                if q < s.len() && (s[q] == '"' || s[q] == '\'') {
                    let e = find_from(s, q + 1, s[q]);
                    proof {
                        lemma_find_from(s, q + 1, s[q]);
                    }
                    let next = if e < s.len() {
                        e + 1
                    } else {
                        s.len() as int
                    };
                    seq![(name, unescape_spec(s.subrange(q + 1, e)))] + attrs_from(s, next)
                } else {
                    let e = value_end(s, q);
                    proof {
                        lemma_value_end(s, q);
                    }
                    seq![(name, s.subrange(q, e))] + attrs_from(s, e)
                }
            } else {
                seq![(name, Seq::empty())] + attrs_from(s, k)
            }
        }
    }
}

/// The attributes of an attribute list (surrounding whitespace removed).
pub open spec fn parse_attrs_spec(s: Seq<char>) -> Seq<(Seq<char>, Seq<char>)> {
    attrs_from(trim_spec(s), 0)
}

/// The value of the last attribute named `k`, if any (later attributes
/// replace earlier ones of the same name).
pub open spec fn attr_get(a: Seq<(Seq<char>, Seq<char>)>, k: Seq<char>) -> Option<Seq<char>>
    decreases a.len(),
{
    if a.len() == 0 {
        None
    } else if a.last().0 == k {
        Some(a.last().1)
    } else {
        attr_get(a.drop_last(), k)
    }
}

/// The mathematical form of an attribute list.
pub open spec fn attrs_view(a: Seq<(Vec<char>, Vec<char>)>) -> Seq<(Seq<char>, Seq<char>)> {
    Seq::new(a.len(), |i: int| (a[i].0@, a[i].1@))
}

fn scan_ws(s: &[char], i: usize) -> (r: usize)
    requires
        i <= s.len(),
    ensures
        r == ws_end(s@, i as int),
        i <= r <= s.len(),
{
    let mut j = i;
    while j < s.len() && is_whitespace(s[j])
        invariant
            i <= j <= s.len(),
            ws_end(s@, i as int) == ws_end(s@, j as int),
        decreases s.len() - j,
    {
        j = j + 1;
    }
    j
}

fn scan_name(s: &[char], i: usize) -> (r: usize)
    requires
        i <= s.len(),
    ensures
        r == name_end(s@, i as int),
        i <= r <= s.len(),
{
    let mut j = i;
    while j < s.len() && s[j] != '=' && !is_whitespace(s[j]) && s[j] != '/'
        invariant
            i <= j <= s.len(),
            name_end(s@, i as int) == name_end(s@, j as int),
        decreases s.len() - j,
    {
        j = j + 1;
    }
    j
}

fn scan_value(s: &[char], i: usize) -> (r: usize)
    requires
        i <= s.len(),
    ensures
        r == value_end(s@, i as int),
        i <= r <= s.len(),
{
    let mut j = i;
    while j < s.len() && !is_whitespace(s[j]) && s[j] != '/'
        invariant
            i <= j <= s.len(),
            value_end(s@, i as int) == value_end(s@, j as int),
        decreases s.len() - j,
    {
        j = j + 1;
    }
    j
}

pub(crate) fn find_char(s: &[char], i: usize, c: char) -> (r: usize)
    requires
        i <= s.len(),
    ensures
        r == find_from(s@, i as int, c),
        i <= r <= s.len(),
{
    let mut j = i;
    while j < s.len() && s[j] != c
        invariant
            i <= j <= s.len(),
            find_from(s@, i as int, c) == find_from(s@, j as int, c),
        decreases s.len() - j,
    {
        j = j + 1;
    }
    j
}

pub(crate) fn sub_chars(s: &[char], from: usize, to: usize) -> (r: Vec<char>)
    requires
        from <= to <= s.len(),
    ensures
        r@ == s@.subrange(from as int, to as int),
{
    let mut out: Vec<char> = Vec::new();
    let mut i = from;
    while i < to
        invariant
            from <= i <= to,
            to <= s.len(),
            out@ == s@.subrange(from as int, i as int),
        decreases to - i,
    {
        out.push(s[i]);
        i = i + 1;
        assert(out@ =~= s@.subrange(from as int, i as int));
    }
    out
}

/// Parses simple XML-like attributes such as ` id="123" name="foo"`.
pub fn parse_attrs(input: &[char]) -> (r: Vec<(Vec<char>, Vec<char>)>)
    ensures
        attrs_view(r@) == parse_attrs_spec(input@),
{
    let t = trim_chars(input);
    let s = t.as_slice();
    let mut out: Vec<(Vec<char>, Vec<char>)> = Vec::new();
    let mut i: usize = 0;
    loop
        invariant
            i <= s.len(),
            s@ == trim_spec(input@),
            attrs_view(out@) + attrs_from(s@, i as int) == attrs_from(s@, 0),
        ensures
            attrs_view(out@) == attrs_from(s@, 0),
        decreases s.len() - i,
    {
        if i >= s.len() {
            assert(attrs_view(out@) + attrs_from(s@, i as int) =~= attrs_view(out@));
            break;
        }
        let ghost before = attrs_view(out@);
        let ghost cur = attrs_from(s@, i as int);
        let j = scan_ws(s, i);
        let k = scan_name(s, j);
        if k == j {
            if j >= s.len() {
                assert(attrs_view(out@) + attrs_from(s@, i as int) =~= attrs_view(out@));
                break;
            }
            i = j + 1;
        } else {
            let name = sub_chars(s, j, k);
            if k < s.len() && s[k] == '=' {
                let q = k + 1;
                if q < s.len() && (s[q] == '"' || s[q] == '\'') {
                    let e = find_char(s, q + 1, s[q]);
                    let raw = sub_chars(s, q + 1, e);
                    let value = unescape_chars(&raw);
                    let next = if e < s.len() {
                        e + 1
                    } else {
                        s.len()
                    };
                    out.push((name, value));
                    i = next;
                } else {
                    let e = scan_value(s, q);
                    let value = sub_chars(s, q, e);
                    out.push((name, value));
                    i = e;
                }
            } else {
                out.push((name, Vec::new()));
                i = k;
            }
            proof {
                let nv = attrs_view(out@);
                assert(nv =~= before.push(nv.last()));
                assert(cur == seq![nv.last()] + attrs_from(s@, i as int));
                assert(nv + attrs_from(s@, i as int) =~= before + cur);
            }
        }
    }
    out
}

/// The value of the last attribute named `key`, if any.
fn attr_lookup(a: &Vec<(Vec<char>, Vec<char>)>, key: &str) -> (r: Option<Vec<char>>)
    ensures
        match r {
            Some(v) => attr_get(attrs_view(a@), key@) == Some(v@),
            None => attr_get(attrs_view(a@), key@) is None,
        },
{
    let k = chars_of(key);
    let ghost av = attrs_view(a@);
    let mut n: usize = a.len();
    assert(av.take(n as int) =~= av);
    while n > 0
        invariant
            n <= a.len(),
            k@ == key@,
            av == attrs_view(a@),
            attr_get(av, key@) == attr_get(av.take(n as int), key@),
        decreases n,
    {
        let ghost t = av.take(n as int);
        assert(t.last() == (a@[n - 1].0@, a@[n - 1].1@));
        assert(t.drop_last() =~= av.take(n - 1));
        if chars_eq(a[n - 1].0.as_slice(), k.as_slice()) {
            let v = sub_chars(a[n - 1].1.as_slice(), 0, a[n - 1].1.len());
            assert(a@[n - 1].1@.subrange(0, a@[n - 1].1@.len() as int) =~= a@[n - 1].1@);
            return Some(v);
        }
        n = n - 1;
    }
    None
}

/// `t` without its trailing `/` characters.
pub open spec fn trim_end_slash(t: Seq<char>) -> Seq<char>
    decreases t.len(),
{
    if t.len() > 0 && t.last() == '/' {
        trim_end_slash(t.drop_last())
    } else {
        t
    }
}

/// The body of a tag with surrounding whitespace and trailing `/` removed.
pub open spec fn tag_core(tag: Seq<char>) -> Seq<char> {
    trim_spec(trim_end_slash(trim_spec(tag)))
}

/// The segment a tag denotes, if any: `at` (type `all`/`here`, else `id`),
/// `img`/`audio`/`video` (by `src`, used as both file and URL), `emoji`
/// (by `id`), and `message` (a forward when it has a `forward` attribute or
/// the tag mentions `forward`, else a reply; both by `id`). Closing tags
/// and other elements denote nothing.
pub open spec fn tag_segment(tag: Seq<char>) -> Option<Seg> {
    let t = tag_core(tag);
    if has_prefix(t, "at"@) {
        let a = parse_attrs_spec(t.skip(2));
        match attr_get(a, "type"@) {
            Some(ty) if ty == "all"@ || ty == "here"@ => Some(Seg::At { qq: ty }),
            _ => match attr_get(a, "id"@) {
                Some(id) => Some(Seg::At { qq: id }),
                None => None,
            },
        }
    } else if has_prefix(t, "img"@) {
        match attr_get(parse_attrs_spec(t.skip(3)), "src"@) {
            Some(src) => Some(Seg::Image { file: src, url: Some(src) }),
            None => None,
        }
    } else if has_prefix(t, "audio"@) {
        match attr_get(parse_attrs_spec(t.skip(5)), "src"@) {
            Some(src) => Some(Seg::Record { file: src, url: Some(src) }),
            None => None,
        }
    } else if has_prefix(t, "video"@) {
        match attr_get(parse_attrs_spec(t.skip(5)), "src"@) {
            Some(src) => Some(Seg::Video { file: src, url: Some(src) }),
            None => None,
        }
    } else if has_prefix(t, "emoji"@) {
        match attr_get(parse_attrs_spec(t.skip(5)), "id"@) {
            Some(id) => Some(Seg::Face { id }),
            None => None,
        }
    } else if has_prefix(t, "message"@) {
        let a = parse_attrs_spec(t.skip(7));
        match attr_get(a, "id"@) {
            Some(id) => if attr_get(a, "forward"@) is Some || contains_seq(t, "forward"@) {
                Some(Seg::Forward { id })
            } else {
                Some(Seg::Reply { id })
            },
            None => None,
        }
    } else {
        None
    }
}

fn trim_slash(t: &Vec<char>) -> (r: Vec<char>)
    ensures
        r@ == trim_end_slash(t@),
{
    let mut n = t.len();
    assert(t@.take(n as int) =~= t@);
    while n > 0 && t[n - 1] == '/'
        invariant
            n <= t.len(),
            trim_end_slash(t@) == trim_end_slash(t@.take(n as int)),
        decreases n,
    {
        assert(t@.take(n as int).drop_last() =~= t@.take(n - 1));
        n = n - 1;
    }
    sub_chars(t.as_slice(), 0, n)
}

fn string_of(v: &Vec<char>) -> (r: String)
    ensures
        r@ == v@,
{
    string_from_chars(v.as_slice())
}

fn attrs_after(t: &Vec<char>, n: usize) -> (r: Vec<(Vec<char>, Vec<char>)>)
    requires
        n <= t@.len(),
    ensures
        attrs_view(r@) == parse_attrs_spec(t@.skip(n as int)),
{
    let rest = sub_chars(t.as_slice(), n, t.len());
    assert(t@.subrange(n as int, t@.len() as int) =~= t@.skip(n as int));
    parse_attrs(rest.as_slice())
}

/// Parses one element tag into the segment it denotes.
pub fn parse_satori_tag(tag: &[char]) -> (r: Option<MessageSegment>)
    ensures
        match r {
            Some(seg) => tag_segment(tag@) == Some(seg@),
            None => tag_segment(tag@) is None,
        },
{
    let t1 = trim_chars(tag);
    let t2 = trim_slash(&t1);
    let t = trim_chars(t2.as_slice());
    assert(t@ == tag_core(tag@));
    let at = chars_of("at");
    let img = chars_of("img");
    let audio = chars_of("audio");
    let video = chars_of("video");
    let emoji = chars_of("emoji");
    let message = chars_of("message");
    proof {
        reveal_strlit("at");
        reveal_strlit("img");
        reveal_strlit("audio");
        reveal_strlit("video");
        reveal_strlit("emoji");
        reveal_strlit("message");
    }
    if starts_with(t.as_slice(), at.as_slice()) {
        let a = attrs_after(&t, 2);
        match attr_lookup(&a, "type") {
            Some(ty) => {
                let all = chars_of("all");
                let here = chars_of("here");
                if chars_eq(ty.as_slice(), all.as_slice()) || chars_eq(
                    ty.as_slice(),
                    here.as_slice(),
                ) {
                    return Some(MessageSegment::At { qq: string_of(&ty) });
                }
            },
            None => {},
        }
        match attr_lookup(&a, "id") {
            Some(id) => Some(MessageSegment::At { qq: string_of(&id) }),
            None => None,
        }
    } else if starts_with(t.as_slice(), img.as_slice()) {
        let a = attrs_after(&t, 3);
        match attr_lookup(&a, "src") {
            Some(src) => Some(
                MessageSegment::Image { file: string_of(&src), url: Some(string_of(&src)) },
            ),
            None => None,
        }
    } else if starts_with(t.as_slice(), audio.as_slice()) {
        let a = attrs_after(&t, 5);
        match attr_lookup(&a, "src") {
            Some(src) => Some(
                MessageSegment::Record { file: string_of(&src), url: Some(string_of(&src)) },
            ),
            None => None,
        }
    } else if starts_with(t.as_slice(), video.as_slice()) {
        let a = attrs_after(&t, 5);
        match attr_lookup(&a, "src") {
            Some(src) => Some(
                MessageSegment::Video { file: string_of(&src), url: Some(string_of(&src)) },
            ),
            None => None,
        }
    } else if starts_with(t.as_slice(), emoji.as_slice()) {
        let a = attrs_after(&t, 5);
        match attr_lookup(&a, "id") {
            Some(id) => Some(MessageSegment::Face { id: string_of(&id) }),
            None => None,
        }
    } else if starts_with(t.as_slice(), message.as_slice()) {
        let a = attrs_after(&t, 7);
        let fw = chars_of("forward");
        let is_forward = attr_lookup(&a, "forward").is_some() || contains_chars(
            t.as_slice(),
            fw.as_slice(),
        );
        match attr_lookup(&a, "id") {
            Some(id) => {
                if is_forward {
                    Some(MessageSegment::Forward { id: string_of(&id) })
                } else {
                    Some(MessageSegment::Reply { id: string_of(&id) })
                }
            },
            None => None,
        }
    } else {
        None
    }
}

/// The text segment for accumulated raw text, if any.
pub open spec fn flush_text(buf: Seq<char>) -> Seq<Seg> {
    if buf.len() > 0 {
        seq![Seg::Text { text: unescape_spec(buf) }]
    } else {
        Seq::empty()
    }
}

/// The segments of an optional segment.
pub open spec fn opt_seg(o: Option<Seg>) -> Seq<Seg> {
    match o {
        Some(x) => seq![x],
        None => Seq::empty(),
    }
}

/// Position after a construct that ends at `c` (the closing character's
/// index, or the length when there is none).
pub open spec fn after(s: Seq<char>, c: int) -> int {
    if c < s.len() {
        c + 1
    } else {
        s.len() as int
    }
}

/// The segments read from position `i` on, with `buf` the raw text
/// accumulated so far: a `<` ends the text and starts a tag running to
/// the next `>`; a `&` starts an entity copied raw up to and including the
/// next `;`; any other character is text. Text is entity-decoded when it is
/// flushed.
pub open spec fn parse_from(s: Seq<char>, i: int, buf: Seq<char>) -> Seq<Seg>
    decreases s.len() - i,
{
    if i < 0 || i >= s.len() {
        flush_text(buf)
    } else if s[i] == '<' {
        let c = find_from(s, i + 1, '>');
        proof {
            lemma_find_from(s, i + 1, '>');
        }
        flush_text(buf) + opt_seg(tag_segment(s.subrange(i + 1, c))) + parse_from(
            s,
            after(s, c),
            Seq::empty(),
        )
    } else if s[i] == '&' {
        let c = find_from(s, i + 1, ';');
        proof {
            lemma_find_from(s, i + 1, ';');
        }
        parse_from(s, after(s, c), buf + s.subrange(i, after(s, c)))
    } else {
        parse_from(s, i + 1, buf.push(s[i]))
    }
}

/// The segments a Satori element string denotes.
pub open spec fn parse_elements_spec(s: Seq<char>) -> Seq<Seg> {
    parse_from(s, 0, Seq::empty())
}

proof fn lemma_escape_text_no_tag(t: Seq<char>)
    ensures
        forall|j: int| 0 <= j < escape_text(t).len() ==> escape_text(t)[j] != '<',
        t.len() > 0 ==> escape_text(t).len() > 0,
    decreases t.len(),
{
    reveal_strlit("&amp;");
    reveal_strlit("&lt;");
    reveal_strlit("&gt;");
    if t.len() > 0 {
        lemma_escape_text_no_tag(t.drop_last());
        let a = escape_text(t.drop_last());
        let b = esc_text_char(t.last());
        assert forall|j: int| 0 <= j < (a + b).len() implies (a + b)[j] != '<' by {
            if j >= a.len() {
                assert((a + b)[j] == b[j - a.len()]);
            }
        }
    }
}

/// Text without tags is read as raw text, entity-decoded at the end.
proof fn lemma_parse_without_tags(s: Seq<char>, i: int, buf: Seq<char>)
    requires
        0 <= i <= s.len(),
        forall|j: int| i <= j < s.len() ==> s[j] != '<',
    ensures
        parse_from(s, i, buf) == flush_text(buf + s.subrange(i, s.len() as int)),
    decreases s.len() - i,
{
    if i < s.len() {
        if s[i] == '&' {
            lemma_find_from(s, i + 1, ';');
            let a = after(s, find_from(s, i + 1, ';'));
            lemma_parse_without_tags(s, a, buf + s.subrange(i, a));
            assert(buf + s.subrange(i, a) + s.subrange(a, s.len() as int) =~= buf + s.subrange(i, s.len() as int));
        } else {
            lemma_parse_without_tags(s, i + 1, buf.push(s[i]));
            assert(buf.push(s[i]) + s.subrange(i + 1, s.len() as int) =~= buf + s.subrange(i, s.len() as int));
        }
    } else {
        assert(buf + s.subrange(i, i) =~= buf);
    }
}

/// Non-empty text, escaped and read back as Satori elements, is one text
/// segment holding the text.
pub proof fn lemma_text_element_round_trip(t: Seq<char>)
    requires
        t.len() > 0,
    ensures
        parse_elements_spec(escape_text(t)) == seq![Seg::Text { text: t }],
{
    let e = escape_text(t);
    lemma_escape_text_no_tag(t);
    lemma_parse_without_tags(e, 0, Seq::empty());
    assert(Seq::<char>::empty() + e.subrange(0, e.len() as int) =~= e);
    lemma_text_round_trip(t);
}

/// Reads a tag starting at the `<` at `i`: its content up to the next `>`
/// and the position after it.
pub fn read_tag(s: &[char], i: usize) -> (r: (Vec<char>, usize))
    requires
        i < s.len(),
    ensures
        r.0@ == s@.subrange(i + 1, find_from(s@, i + 1, '>')),
        r.1 == after(s@, find_from(s@, i + 1, '>')),
{
    let c = find_char(s, i + 1, '>');
    let content = sub_chars(s, i + 1, c);
    let next = if c < s.len() {
        c + 1
    } else {
        s.len()
    };
    (content, next)
}

/// Reads an entity starting at the `&` at `i`: its raw text up to and
/// including the next `;`, and the position after it.
pub fn read_entity(s: &[char], i: usize) -> (r: (Vec<char>, usize))
    requires
        i < s.len(),
    ensures
        r.1 == after(s@, find_from(s@, i + 1, ';')),
        r.0@ == s@.subrange(i as int, r.1 as int),
{
    let c = find_char(s, i + 1, ';');
    let next = if c < s.len() {
        c + 1
    } else {
        s.len()
    };
    let raw = sub_chars(s, i, next);
    (raw, next)
}

fn flush(out: &mut Vec<MessageSegment>, buf: &Vec<char>)
    ensures
        segs_view(final(out)@) == segs_view(old(out)@) + flush_text(buf@),
{
    if buf.len() > 0 {
        let u = unescape_chars(buf);
        out.push(MessageSegment::Text { text: string_of(&u) });
    }
    assert(segs_view(out@) =~= segs_view(old(out)@) + flush_text(buf@));
}

/// Parses a Satori element string back into message segments.
pub fn parse_satori_elements(content: &str) -> (r: Vec<MessageSegment>)
    ensures
        segs_view(r@) == parse_elements_spec(content@),
{
    let v = chars_of(content);
    let s = v.as_slice();
    let mut out: Vec<MessageSegment> = Vec::new();
    let mut buf: Vec<char> = Vec::new();
    let mut i: usize = 0;
    while i < s.len()
        invariant
            i <= s.len(),
            s@ == content@,
            segs_view(out@) + parse_from(s@, i as int, buf@) == parse_elements_spec(content@),
        decreases s.len() - i,
    {
        let ghost before = segs_view(out@);
        let ghost cur = parse_from(s@, i as int, buf@);
        proof {
            lemma_find_from(s@, i + 1, '>');
            lemma_find_from(s@, i + 1, ';');
        }
        if s[i] == '<' {
            flush(&mut out, &buf);
            buf = Vec::new();
            let (tag, next) = read_tag(s, i);
            let ghost mid = segs_view(out@);
            match parse_satori_tag(tag.as_slice()) {
                Some(seg) => {
                    out.push(seg);
                },
                None => {},
            }
            i = next;
            proof {
                assert(segs_view(out@) =~= mid + opt_seg(tag_segment(tag@)));
                assert(buf@ =~= Seq::<char>::empty());
                assert(segs_view(out@) + parse_from(s@, i as int, buf@) =~= before + cur);
            }
        } else if s[i] == '&' {
            let (raw, next) = read_entity(s, i);
            push_chars(&mut buf, &raw);
            i = next;
        } else {
            buf.push(s[i]);
            i = i + 1;
        }
    }
    flush(&mut out, &buf);
    assert(segs_view(out@) =~= parse_elements_spec(content@));
    out
}

} // verus!
