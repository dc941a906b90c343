//! The round trip of Satori elements: segments written as elements and
//! read back give the segments again (media in the form the reader gives
//! them), for every list of segments that the element form can carry.

use vstd::prelude::*;

use crate::message::Seg;
use crate::satori_elements::{
    after, attr_get, attrs_from, elem1, elements_spec, esc_attr_char, esc_text_char,
    escape_attr_spec, escape_text, find_from, flush_text, lemma_attr_round_trip, lemma_find_from,
    lemma_text_round_trip, media_src, name_end, opt_seg, parse_attrs_spec, parse_elements_spec,
    parse_from, seg_element, tag_core, tag_segment, trim_end_slash, unescape_spec, ws_end,
};
use crate::text::{
    contains_seq, has_prefix, leading_white, occurs_at, trailing_white, trim_spec, unicode_white_space,
};

verus! {

// ---------------------------------------------------------------------------
// Characters of escaped text and attribute values
// ---------------------------------------------------------------------------

/// Escaped text has no `<`, and every `&` in it is closed by a later `;`.
proof fn lemma_escape_text_safe(t: Seq<char>)
    ensures
        forall|j: int| 0 <= j < escape_text(t).len() ==> escape_text(t)[j] != '<',
        forall|j: int|
            0 <= j < escape_text(t).len() && escape_text(t)[j] == '&' ==> exists|m: int|
                j < m < escape_text(t).len() && escape_text(t)[m] == ';',
        t.len() > 0 ==> escape_text(t).len() > 0,
    decreases t.len(),
{
    reveal_strlit("&amp;");
    reveal_strlit("&lt;");
    reveal_strlit("&gt;");
    if t.len() > 0 {
        lemma_escape_text_safe(t.drop_last());
        let a = escape_text(t.drop_last());
        let b = esc_text_char(t.last());
        let e = a + b;
        assert(escape_text(t) == e);
        assert forall|j: int| 0 <= j < e.len() implies e[j] != '<' by {
            if j >= a.len() {
                assert(e[j] == b[j - a.len()]);
            }
        }
        assert forall|j: int| 0 <= j < e.len() && e[j] == '&' implies exists|m: int| j < m < e.len() && e[m] == ';' by {
            if j < a.len() {
                assert(e[j] == a[j]);
                let m = choose|m: int| j < m < a.len() && a[m] == ';';
                assert(e[m] == a[m]);
            } else {
                assert(e[j] == b[j - a.len()]);
                let last = e.len() - 1;
                assert(e[last] == b[b.len() - 1]);
            }
        }
    }
}

/// An escaped attribute value has no `"`, `<` or `>`.
proof fn lemma_escape_attr_clean(v: Seq<char>)
    ensures
        forall|j: int|
            0 <= j < escape_attr_spec(v).len() ==> escape_attr_spec(v)[j] != '"' && escape_attr_spec(v)[j]
                != '<' && escape_attr_spec(v)[j] != '>',
    decreases v.len(),
{
    reveal_strlit("&amp;");
    reveal_strlit("&quot;");
    reveal_strlit("&lt;");
    reveal_strlit("&gt;");
    if v.len() > 0 {
        lemma_escape_attr_clean(v.drop_last());
        let a = escape_attr_spec(v.drop_last());
        let b = esc_attr_char(v.last());
        assert forall|j: int| 0 <= j < (a + b).len() implies (a + b)[j] != '"' && (a + b)[j] != '<' && (a
            + b)[j] != '>' by {
            if j >= a.len() {
                assert((a + b)[j] == b[j - a.len()]);
            }
        }
    }
}

// ---------------------------------------------------------------------------
// Reading text
// ---------------------------------------------------------------------------

/// A stretch without tags, whose entities all close inside it, is read as
/// raw text.
proof fn lemma_parse_text_region(s: Seq<char>, i: int, k: int, buf: Seq<char>)
    requires
        0 <= i <= k <= s.len(),
        forall|j: int| i <= j < k ==> s[j] != '<',
        forall|j: int| i <= j < k && s[j] == '&' ==> exists|m: int| j < m < k && s[m] == ';',
    ensures
        parse_from(s, i, buf) == parse_from(s, k, buf + s.subrange(i, k)),
    decreases k - i,
{
    if i < k {
        if s[i] == '&' {
            lemma_find_from(s, i + 1, ';');
            let w = choose|m: int| i < m < k && s[m] == ';';
            let c = find_from(s, i + 1, ';');
            assert(c <= w);
            let a = after(s, c);
            assert(a == c + 1);
            lemma_parse_text_region(s, a, k, buf + s.subrange(i, a));
            assert(buf + s.subrange(i, a) + s.subrange(a, k) =~= buf + s.subrange(i, k));
        } else {
            lemma_parse_text_region(s, i + 1, k, buf.push(s[i]));
            assert(buf.push(s[i]) + s.subrange(i + 1, k) =~= buf + s.subrange(i, k));
        }
    } else {
        assert(buf + s.subrange(i, i) =~= buf);
    }
}


// ---------------------------------------------------------------------------
// Reading a tag
// ---------------------------------------------------------------------------

proof fn lemma_trim_clean(s: Seq<char>)
    requires
        s.len() > 0,
        !unicode_white_space(s[0]),
        !unicode_white_space(s.last()),
    ensures
        trim_spec(s) == s,
{
    assert(leading_white(s) == 0);
    assert(s.skip(0) =~= s);
    assert(trailing_white(s) == 0);
    assert(s.take(s.len() as int) =~= s);
}

proof fn lemma_trim_trailing_one(s: Seq<char>)
    requires
        s.len() > 1,
        !unicode_white_space(s[0]),
        unicode_white_space(s.last()),
        !unicode_white_space(s[s.len() - 2]),
    ensures
        trim_spec(s) == s.drop_last(),
{
    assert(leading_white(s) == 0);
    assert(s.skip(0) =~= s);
    assert(s.drop_last().last() == s[s.len() - 2]);
    assert(trailing_white(s.drop_last()) == 0);
    assert(trailing_white(s) == 1);
    assert(s.take(s.len() - 1) =~= s.drop_last());
}

proof fn lemma_trim_leading_one(s: Seq<char>)
    requires
        s.len() > 1,
        unicode_white_space(s[0]),
        !unicode_white_space(s[1]),
        !unicode_white_space(s.last()),
    ensures
        trim_spec(s) == s.skip(1),
{
    assert(s.drop_first()[0] == s[1]);
    assert(leading_white(s.drop_first()) == 0);
    assert(leading_white(s) == 1);
    let t = s.skip(1);
    assert(t.last() == s.last());
    assert(trailing_white(t) == 0);
    assert(t.take(t.len() as int) =~= t);
}

proof fn lemma_name_end_run(s: Seq<char>, i: int, k: int)
    requires
        0 <= i <= k < s.len(),
        forall|j: int| i <= j < k ==> s[j] != '=' && !unicode_white_space(s[j]) && s[j] != '/',
        s[k] == '=',
    ensures
        name_end(s, i) == k,
    decreases k - i,
{
    if i < k {
        lemma_name_end_run(s, i + 1, k);
    }
}

proof fn lemma_find_from_run(s: Seq<char>, i: int, k: int, c: char)
    requires
        0 <= i <= k < s.len(),
        forall|j: int| i <= j < k ==> s[j] != c,
        s[k] == c,
    ensures
        find_from(s, i, c) == k,
    decreases k - i,
{
    if i < k {
        lemma_find_from_run(s, i + 1, k, c);
    }
}

/// Whether `a` can be an attribute name: non-empty, with no `=`, `/` or
/// whitespace.
pub open spec fn attr_name_ok(a: Seq<char>) -> bool {
    a.len() > 0 && forall|j: int| 0 <= j < a.len() ==> a[j] != '=' && !unicode_white_space(#[trigger] a[j]) && a[j] != '/'
}

/// One quoted attribute reads back as its name and unescaped value.
proof fn lemma_attrs_one(attr: Seq<char>, v: Seq<char>)
    requires
        attr_name_ok(attr),
    ensures
        attrs_from(attr + "=\""@ + escape_attr_spec(v) + "\""@, 0) == seq![(attr, v)],
{
    reveal_strlit("=\"");
    reveal_strlit("\"");
    let e = escape_attr_spec(v);
    lemma_escape_attr_clean(v);
    let b = attr + "=\""@ + e + "\""@;
    let n = attr.len() as int;
    assert(b[0] == attr[0]);
    assert(ws_end(b, 0) == 0);
    assert forall|j: int| 0 <= j < n implies b[j] != '=' && !unicode_white_space(b[j]) && b[j] != '/' by {
        assert(b[j] == attr[j]);
    }
    assert(b[n] == '=');
    lemma_name_end_run(b, 0, n);
    assert(b[n + 1] == '"');
    assert forall|j: int| n + 2 <= j < n + 2 + e.len() implies b[j] != '"' by {
        assert(b[j] == e[j - n - 2]);
    }
    assert(b[n + 2 + e.len()] == '"');
    lemma_find_from_run(b, n + 2, n + 2 + e.len(), '"');
    assert(b.subrange(0, n) =~= attr);
    assert(b.subrange(n + 2, n + 2 + e.len()) =~= e);
    lemma_attr_round_trip(v);
    assert(attrs_from(b, b.len() as int) =~= Seq::<(Seq<char>, Seq<char>)>::empty());
    assert(attrs_from(b, 0) =~= seq![(attr, v)]);
}

proof fn lemma_name_end_to_end(s: Seq<char>, i: int)
    requires
        0 <= i <= s.len(),
        forall|j: int| i <= j < s.len() ==> s[j] != '=' && !unicode_white_space(s[j]) && s[j] != '/',
    ensures
        name_end(s, i) == s.len(),
    decreases s.len() - i,
{
    if i < s.len() {
        lemma_name_end_to_end(s, i + 1);
    }
}

/// A quoted attribute followed by more text: the attribute is read first,
/// and reading goes on right after its closing quote.
proof fn lemma_attrs_first(attr: Seq<char>, v: Seq<char>, rest: Seq<char>)
    requires
        attr_name_ok(attr),
    ensures
        attrs_from(attr + "=\""@ + escape_attr_spec(v) + "\""@ + rest, 0) == seq![(attr, v)] + attrs_from(
            attr + "=\""@ + escape_attr_spec(v) + "\""@ + rest,
            (attr + "=\""@ + escape_attr_spec(v) + "\""@).len() as int,
        ),
{
    reveal_strlit("=\"");
    reveal_strlit("\"");
    let e = escape_attr_spec(v);
    lemma_escape_attr_clean(v);
    let b0 = attr + "=\""@ + e + "\""@;
    let b = b0 + rest;
    let n = attr.len() as int;
    assert(b[0] == attr[0]);
    assert(ws_end(b, 0) == 0);
    assert forall|j: int| 0 <= j < n implies b[j] != '=' && !unicode_white_space(b[j]) && b[j] != '/' by {
        assert(b[j] == attr[j]);
    }
    assert(b[n] == '=');
    lemma_name_end_run(b, 0, n);
    assert(b[n + 1] == '"');
    assert forall|j: int| n + 2 <= j < n + 2 + e.len() implies b[j] != '"' by {
        assert(b[j] == e[j - n - 2]);
    }
    assert(b[n + 2 + e.len()] == '"');
    lemma_find_from_run(b, n + 2, n + 2 + e.len(), '"');
    assert(b.subrange(0, n) =~= attr);
    assert(b.subrange(n + 2, n + 2 + e.len()) =~= e);
    lemma_attr_round_trip(v);
}

/// A space and a bare attribute name at the end read as the name with an
/// empty value.
proof fn lemma_attrs_bare(s: Seq<char>, i: int, name: Seq<char>)
    requires
        0 <= i <= s.len(),
        s.subrange(i, s.len() as int) == " "@ + name,
        attr_name_ok(name),
    ensures
        attrs_from(s, i) == seq![(name, Seq::<char>::empty())],
{
    reveal_strlit(" ");
    let r = s.subrange(i, s.len() as int);
    assert(r.len() == name.len() + 1);
    assert(s[i] == r[0]);
    assert(s[i] == ' ');
    assert(s[i + 1] == r[1]);
    assert(s[i + 1] == name[0]);
    assert(ws_end(s, i + 1) == i + 1);
    assert(ws_end(s, i) == i + 1);
    assert forall|j: int| i + 1 <= j < s.len() implies s[j] != '=' && !unicode_white_space(s[j]) && s[j] != '/' by {
        assert(s[j] == r[j - i]);
        assert(s[j] == name[j - i - 1]);
    }
    lemma_name_end_to_end(s, i + 1);
    assert(s.subrange(i + 1, s.len() as int) =~= name) by {
        assert forall|j: int| 0 <= j < name.len() implies s.subrange(i + 1, s.len() as int)[j] == name[j] by {
            assert(s[i + 1 + j] == r[j + 1]);
        }
    }
    assert(attrs_from(s, s.len() as int) =~= Seq::<(Seq<char>, Seq<char>)>::empty());
    assert(attrs_from(s, i) =~= seq![(name, Seq::<char>::empty())]);
}

/// The inside of the tag `elem1` writes, without its angle brackets.
pub open spec fn elem1_inner(name: Seq<char>, attr: Seq<char>, v: Seq<char>) -> Seq<char> {
    name + " "@ + attr + "=\""@ + escape_attr_spec(v) + "\" /"@
}

/// The conditions on a tag name and attribute name for `elem1`.
pub open spec fn elem1_names_ok(name: Seq<char>, attr: Seq<char>) -> bool {
    &&& name.len() > 0
    &&& !unicode_white_space(name[0])
    &&& forall|j: int| 0 <= j < name.len() ==> name[j] != '>'
    &&& attr_name_ok(attr)
    &&& forall|j: int| 0 <= j < attr.len() ==> attr[j] != '>'
}

proof fn lemma_elem1_no_gt(name: Seq<char>, attr: Seq<char>, v: Seq<char>)
    requires
        elem1_names_ok(name, attr),
    ensures
        forall|j: int| 0 <= j < elem1_inner(name, attr, v).len() ==> #[trigger] elem1_inner(name, attr, v)[j] != '>',
        elem1(name, attr, v) == "<"@ + elem1_inner(name, attr, v) + ">"@,
{
    reveal_strlit(" ");
    reveal_strlit("=\"");
    reveal_strlit("\" /");
    reveal_strlit("<");
    reveal_strlit(">");
    reveal_strlit("\" />");
    let e = escape_attr_spec(v);
    lemma_escape_attr_clean(v);
    let t = elem1_inner(name, attr, v);
    let nl = name.len() as int;
    let al = attr.len() as int;
    assert forall|j: int| 0 <= j < t.len() implies #[trigger] t[j] != '>' by {
        if j < nl {
            assert(t[j] == name[j]);
        } else if j == nl {
            assert(t[j] == ' ');
        } else if j < nl + 1 + al {
            assert(t[j] == attr[j - nl - 1]);
        } else if j < nl + 1 + al + 2 {
        } else if j < nl + 1 + al + 2 + e.len() {
            assert(t[j] == e[j - nl - 3 - al]);
        }
    }
    assert(elem1(name, attr, v) =~= "<"@ + t + ">"@);
}

proof fn lemma_elem1_core(name: Seq<char>, attr: Seq<char>, v: Seq<char>)
    requires
        elem1_names_ok(name, attr),
    ensures
        tag_core(elem1_inner(name, attr, v)) == name + " "@ + attr + "=\""@ + escape_attr_spec(v) + "\""@,
{
    reveal_strlit(" ");
    reveal_strlit("=\"");
    reveal_strlit("\" /");
    reveal_strlit("\"");
    reveal_strlit(" /");
    let e = escape_attr_spec(v);
    let b = attr + "=\""@ + e + "\""@;
    let t = elem1_inner(name, attr, v);
    assert(t =~= name + " "@ + b + " /"@);
    assert(t[0] == name[0]);
    assert(t.last() == '/');
    lemma_trim_clean(t);
    let u = t.drop_last();
    assert(u =~= name + " "@ + b + " "@);
    assert(u.last() == ' ');
    assert(trim_end_slash(u) == u);
    assert(trim_end_slash(t) == u);
    assert(u[0] == name[0]);
    assert(u[u.len() - 2] == '"');
    lemma_trim_trailing_one(u);
    assert(u.drop_last() =~= name + " "@ + b);
}

/// The tag `elem1` writes has the given name and one attribute holding the
/// value.
proof fn lemma_elem1_tag(name: Seq<char>, attr: Seq<char>, v: Seq<char>)
    requires
        elem1_names_ok(name, attr),
    ensures
        tag_core(elem1_inner(name, attr, v)) == name + " "@ + attr + "=\""@ + escape_attr_spec(v) + "\""@,
        parse_attrs_spec(tag_core(elem1_inner(name, attr, v)).skip(name.len() as int)) == seq![(attr, v)],
        elem1(name, attr, v) == "<"@ + elem1_inner(name, attr, v) + ">"@,
        forall|j: int| 0 <= j < elem1_inner(name, attr, v).len() ==> #[trigger] elem1_inner(name, attr, v)[j] != '>',
{
    reveal_strlit(" ");
    reveal_strlit("=\"");
    reveal_strlit("\"");
    lemma_elem1_no_gt(name, attr, v);
    lemma_elem1_core(name, attr, v);
    let b = attr + "=\""@ + escape_attr_spec(v) + "\""@;
    let c = name + " "@ + b;
    let a = c.skip(name.len() as int);
    assert(a =~= " "@ + b);
    assert(a[0] == ' ');
    assert(a[1] == attr[0]);
    assert(a.last() == '"');
    assert(!unicode_white_space(attr[0]));
    assert(unicode_white_space(a[0]));
    assert(!unicode_white_space(a.last()));
    lemma_trim_leading_one(a);
    assert(a.skip(1) =~= b);
    assert(trim_spec(a) == b);
    lemma_attrs_one(attr, v);
    assert(attrs_from(b, 0) == seq![(attr, v)]);
    assert(parse_attrs_spec(a) == seq![(attr, v)]);
    assert(tag_core(elem1_inner(name, attr, v)) == c);
}


// ---------------------------------------------------------------------------
// Segments written as one tag
// ---------------------------------------------------------------------------

/// What a segment reads back as: a media segment takes its source as both
/// its file and its URL; every other segment is unchanged.
pub open spec fn read_back(s: Seg) -> Seg {
    match s {
        Seg::Image { file, url } => Seg::Image { file: media_src(file, url), url: Some(media_src(file, url)) },
        Seg::Record { file, url } => Seg::Record { file: media_src(file, url), url: Some(media_src(file, url)) },
        Seg::Video { file, url } => Seg::Video { file: media_src(file, url), url: Some(media_src(file, url)) },
        _ => s,
    }
}

/// Whether a segment is written as a single self-closing tag: a mention,
/// an image, a voice record, a video, a face or a forwarded message.
pub open spec fn is_tag_seg(s: Seg) -> bool {
    s is At || s is Image || s is Record || s is Video || s is Face || s is Forward
}

/// The inside of the tag a tag segment is written as.
pub open spec fn tag_inner(s: Seg) -> Seq<char> {
    match s {
        Seg::At { qq } => if qq == "all"@ {
            elem1_inner("at"@, "type"@, "all"@)
        } else {
            elem1_inner("at"@, "id"@, qq)
        },
        Seg::Image { file, url } => elem1_inner("img"@, "src"@, media_src(file, url)),
        Seg::Record { file, url } => elem1_inner("audio"@, "src"@, media_src(file, url)),
        Seg::Video { file, url } => elem1_inner("video"@, "src"@, media_src(file, url)),
        Seg::Face { id } => elem1_inner("emoji"@, "id"@, id),
        Seg::Forward { id } => "message id=\""@ + escape_attr_spec(id) + "\" forward /"@,
        _ => Seq::empty(),
    }
}

proof fn lemma_names_ok()
    ensures
        elem1_names_ok("at"@, "id"@),
        elem1_names_ok("at"@, "type"@),
        elem1_names_ok("img"@, "src"@),
        elem1_names_ok("audio"@, "src"@),
        elem1_names_ok("video"@, "src"@),
        elem1_names_ok("emoji"@, "id"@),
{
    reveal_strlit("at");
    reveal_strlit("id");
    reveal_strlit("type");
    reveal_strlit("img");
    reveal_strlit("src");
    reveal_strlit("audio");
    reveal_strlit("video");
    reveal_strlit("emoji");
}

proof fn lemma_attr_get_one(name: Seq<char>, v: Seq<char>, k: Seq<char>)
    ensures
        attr_get(seq![(name, v)], k) == if name == k {
            Some(v)
        } else {
            None::<Seq<char>>
        },
{
    let a = seq![(name, v)];
    assert(a.last() == (name, v));
    assert(a.drop_last() =~= Seq::<(Seq<char>, Seq<char>)>::empty());
    assert(attr_get(Seq::<(Seq<char>, Seq<char>)>::empty(), k) is None);
}

proof fn lemma_at_tag(qq: Seq<char>)
    ensures
        seg_element(Seg::At { qq }) == "<"@ + tag_inner(Seg::At { qq }) + ">"@,
        forall|j: int| 0 <= j < tag_inner(Seg::At { qq }).len() ==> #[trigger] tag_inner(Seg::At { qq })[j] != '>',
        tag_segment(tag_inner(Seg::At { qq })) == Some(Seg::At { qq }),
{
    reveal_strlit("at");
    reveal_strlit("id");
    reveal_strlit("type");
    reveal_strlit("all");
    reveal_strlit("here");
    lemma_names_ok();
    if qq == "all"@ {
        lemma_elem1_tag("at"@, "type"@, "all"@);
        reveal_with_fuel(escape_attr_spec, 4);
        assert(escape_attr_spec("all"@) =~= "all"@) by {
            assert("all"@.drop_last() =~= "al"@) by { reveal_strlit("al"); }
            assert("al"@.drop_last() =~= "a"@) by { reveal_strlit("a"); }
            reveal_strlit("al");
            reveal_strlit("a");
            assert("a"@.drop_last() =~= Seq::<char>::empty());
        }
        reveal_strlit("<at type=\"all\" />");
        reveal_strlit("<");
        reveal_strlit(" ");
        reveal_strlit("=\"");
        reveal_strlit("\" />");
        assert(seg_element(Seg::At { qq }) =~= elem1("at"@, "type"@, "all"@));
        let t = tag_core(tag_inner(Seg::At { qq }));
        assert(t.subrange(0, 2) =~= "at"@);
        lemma_attr_get_one("type"@, "all"@, "type"@);
    } else {
        lemma_elem1_tag("at"@, "id"@, qq);
        let t = tag_core(tag_inner(Seg::At { qq }));
        assert(t.subrange(0, 2) =~= "at"@);
        assert("id"@ != "type"@) by {
            assert("id"@.len() != "type"@.len());
        }
        lemma_attr_get_one("id"@, qq, "type"@);
        lemma_attr_get_one("id"@, qq, "id"@);
    }
}

proof fn lemma_img_tag(file: Seq<char>, url: Option<Seq<char>>)
    ensures
        seg_element(Seg::Image { file, url }) == "<"@ + tag_inner(Seg::Image { file, url }) + ">"@,
        forall|j: int| 0 <= j < tag_inner(Seg::Image { file, url }).len() ==> #[trigger] tag_inner(Seg::Image { file, url })[j] != '>',
        tag_segment(tag_inner(Seg::Image { file, url })) == Some(read_back(Seg::Image { file, url })),
{
    reveal_strlit("at");
    reveal_strlit("img");
    reveal_strlit("src");
    lemma_names_ok();
    let src = media_src(file, url);
    lemma_elem1_tag("img"@, "src"@, src);
    let t = tag_core(tag_inner(Seg::Image { file, url }));
    assert(t[0] == 'i');
    assert(!has_prefix(t, "at"@)) by {
        assert(t.subrange(0, 2)[0] != "at"@[0]);
    }
    assert(t.subrange(0, 3) =~= "img"@);
    lemma_attr_get_one("src"@, src, "src"@);
}

proof fn lemma_audio_tag(file: Seq<char>, url: Option<Seq<char>>)
    ensures
        seg_element(Seg::Record { file, url }) == "<"@ + tag_inner(Seg::Record { file, url }) + ">"@,
        forall|j: int| 0 <= j < tag_inner(Seg::Record { file, url }).len() ==> #[trigger] tag_inner(Seg::Record { file, url })[j] != '>',
        tag_segment(tag_inner(Seg::Record { file, url })) == Some(read_back(Seg::Record { file, url })),
{
    reveal_strlit("at");
    reveal_strlit("img");
    reveal_strlit("audio");
    reveal_strlit("src");
    lemma_names_ok();
    let src = media_src(file, url);
    lemma_elem1_tag("audio"@, "src"@, src);
    let t = tag_core(tag_inner(Seg::Record { file, url }));
    assert(t[0] == 'a' && t[1] == 'u');
    assert(!has_prefix(t, "at"@)) by {
        assert(t.subrange(0, 2)[1] != "at"@[1]);
    }
    assert(!has_prefix(t, "img"@)) by {
        assert(t.subrange(0, 3)[0] != "img"@[0]);
    }
    assert(t.subrange(0, 5) =~= "audio"@);
    lemma_attr_get_one("src"@, src, "src"@);
}

proof fn lemma_video_tag(file: Seq<char>, url: Option<Seq<char>>)
    ensures
        seg_element(Seg::Video { file, url }) == "<"@ + tag_inner(Seg::Video { file, url }) + ">"@,
        forall|j: int| 0 <= j < tag_inner(Seg::Video { file, url }).len() ==> #[trigger] tag_inner(Seg::Video { file, url })[j] != '>',
        tag_segment(tag_inner(Seg::Video { file, url })) == Some(read_back(Seg::Video { file, url })),
{
    reveal_strlit("at");
    reveal_strlit("img");
    reveal_strlit("audio");
    reveal_strlit("video");
    reveal_strlit("src");
    lemma_names_ok();
    let src = media_src(file, url);
    lemma_elem1_tag("video"@, "src"@, src);
    let t = tag_core(tag_inner(Seg::Video { file, url }));
    assert(t[0] == 'v');
    assert(!has_prefix(t, "at"@)) by {
        assert(t.subrange(0, 2)[0] != "at"@[0]);
    }
    assert(!has_prefix(t, "img"@)) by {
        assert(t.subrange(0, 3)[0] != "img"@[0]);
    }
    assert(!has_prefix(t, "audio"@)) by {
        assert(t.subrange(0, 5)[0] != "audio"@[0]);
    }
    assert(t.subrange(0, 5) =~= "video"@);
    lemma_attr_get_one("src"@, src, "src"@);
}

proof fn lemma_emoji_tag(id: Seq<char>)
    ensures
        seg_element(Seg::Face { id }) == "<"@ + tag_inner(Seg::Face { id }) + ">"@,
        forall|j: int| 0 <= j < tag_inner(Seg::Face { id }).len() ==> #[trigger] tag_inner(Seg::Face { id })[j] != '>',
        tag_segment(tag_inner(Seg::Face { id })) == Some(Seg::Face { id }),
{
    reveal_strlit("at");
    reveal_strlit("img");
    reveal_strlit("audio");
    reveal_strlit("video");
    reveal_strlit("emoji");
    reveal_strlit("id");
    lemma_names_ok();
    lemma_elem1_tag("emoji"@, "id"@, id);
    let t = tag_core(tag_inner(Seg::Face { id }));
    assert(t[0] == 'e');
    assert(!has_prefix(t, "at"@)) by {
        assert(t.subrange(0, 2)[0] != "at"@[0]);
    }
    assert(!has_prefix(t, "img"@)) by {
        assert(t.subrange(0, 3)[0] != "img"@[0]);
    }
    assert(!has_prefix(t, "audio"@)) by {
        assert(t.subrange(0, 5)[0] != "audio"@[0]);
    }
    assert(!has_prefix(t, "video"@)) by {
        assert(t.subrange(0, 5)[0] != "video"@[0]);
    }
    assert(t.subrange(0, 5) =~= "emoji"@);
    lemma_attr_get_one("id"@, id, "id"@);
}

proof fn lemma_forward_tag_core(id: Seq<char>)
    ensures
        tag_core(tag_inner(Seg::Forward { id })) == "message"@ + " "@ + ("id"@ + "=\""@ + escape_attr_spec(id)
            + "\""@) + " forward"@,
{
    reveal_strlit("message id=\"");
    reveal_strlit("\" forward /");
    reveal_strlit("message");
    reveal_strlit(" ");
    reveal_strlit("id");
    reveal_strlit("=\"");
    reveal_strlit("\"");
    reveal_strlit(" forward");
    let e = escape_attr_spec(id);
    let b = "id"@ + "=\""@ + e + "\""@;
    let t = tag_inner(Seg::Forward { id });
    assert(t =~= "message"@ + " "@ + b + " forward"@ + " /"@) by {
        reveal_strlit(" /");
    }
    reveal_strlit(" /");
    assert(t[0] == 'm');
    assert(t.last() == '/');
    lemma_trim_clean(t);
    let u = t.drop_last();
    assert(u =~= "message"@ + " "@ + b + " forward"@ + " "@);
    assert(u.last() == ' ');
    assert(trim_end_slash(u) == u);
    assert(trim_end_slash(t) == u);
    assert(u[0] == 'm');
    assert(u[u.len() - 2] == 'd');
    lemma_trim_trailing_one(u);
    assert(u.drop_last() =~= "message"@ + " "@ + b + " forward"@);
}

#[verifier::rlimit(40)]
proof fn lemma_forward_tag(id: Seq<char>)
    ensures
        seg_element(Seg::Forward { id }) == "<"@ + tag_inner(Seg::Forward { id }) + ">"@,
        forall|j: int| 0 <= j < tag_inner(Seg::Forward { id }).len() ==> #[trigger] tag_inner(Seg::Forward { id })[j] != '>',
        tag_segment(tag_inner(Seg::Forward { id })) == Some(Seg::Forward { id }),
{
    reveal_strlit("<message id=\"");
    reveal_strlit("\" forward />");
    reveal_strlit("message id=\"");
    reveal_strlit("\" forward /");
    reveal_strlit("<");
    reveal_strlit(">");
    reveal_strlit("at");
    reveal_strlit("img");
    reveal_strlit("audio");
    reveal_strlit("video");
    reveal_strlit("emoji");
    reveal_strlit("message");
    reveal_strlit(" ");
    reveal_strlit("id");
    reveal_strlit("=\"");
    reveal_strlit("\"");
    reveal_strlit(" forward");
    reveal_strlit("forward");
    let e = escape_attr_spec(id);
    lemma_escape_attr_clean(id);
    let t = tag_inner(Seg::Forward { id });
    assert(seg_element(Seg::Forward { id }) =~= "<"@ + t + ">"@);
    assert forall|j: int| 0 <= j < t.len() implies #[trigger] t[j] != '>' by {
        if 12 <= j < 12 + e.len() {
            assert(t[j] == e[j - 12]);
        }
    }
    lemma_forward_tag_core(id);
    let b = "id"@ + "=\""@ + e + "\""@;
    let c = tag_core(t);
    assert(c[0] == 'm');
    assert(!has_prefix(c, "at"@)) by {
        assert(c.subrange(0, 2)[0] != "at"@[0]);
    }
    assert(!has_prefix(c, "img"@)) by {
        assert(c.subrange(0, 3)[0] != "img"@[0]);
    }
    assert(!has_prefix(c, "audio"@)) by {
        assert(c.subrange(0, 5)[0] != "audio"@[0]);
    }
    assert(!has_prefix(c, "video"@)) by {
        assert(c.subrange(0, 5)[0] != "video"@[0]);
    }
    assert(!has_prefix(c, "emoji"@)) by {
        assert(c.subrange(0, 5)[0] != "emoji"@[0]);
    }
    assert(c.subrange(0, 7) =~= "message"@);
    let a = c.skip(7);
    let b2 = b + " forward"@;
    assert(a =~= " "@ + b2);
    assert(a[0] == ' ');
    assert(a[1] == 'i');
    assert(a.last() == 'd');
    lemma_trim_leading_one(a);
    assert(a.skip(1) =~= b2);
    lemma_names_ok();
    lemma_attrs_first("id"@, id, " forward"@);
    assert(attr_name_ok("forward"@));
    assert(b2.subrange(b.len() as int, b2.len() as int) =~= " "@ + "forward"@);
    lemma_attrs_bare(b2, b.len() as int, "forward"@);
    let attrs = seq![("id"@, id), ("forward"@, Seq::<char>::empty())];
    assert(parse_attrs_spec(a) =~= attrs);
    assert("forward"@ != "id"@) by {
        assert("forward"@.len() != "id"@.len());
    }
    assert(attrs.drop_last() =~= seq![("id"@, id)]);
    lemma_attr_get_one("id"@, id, "id"@);
    assert(attr_get(attrs, "id"@) == Some(id));
    assert(attr_get(attrs, "forward"@) == Some(Seq::<char>::empty()));
}

/// A tag segment is written as `<`, a tag without `>`, and `>`; the tag
/// reads back as the segment.
proof fn lemma_tag_seg(s: Seg)
    requires
        is_tag_seg(s),
    ensures
        seg_element(s) == "<"@ + tag_inner(s) + ">"@,
        forall|j: int| 0 <= j < tag_inner(s).len() ==> #[trigger] tag_inner(s)[j] != '>',
        tag_segment(tag_inner(s)) == Some(read_back(s)),
{
    match s {
        Seg::At { qq } => lemma_at_tag(qq),
        Seg::Image { file, url } => lemma_img_tag(file, url),
        Seg::Record { file, url } => lemma_audio_tag(file, url),
        Seg::Video { file, url } => lemma_video_tag(file, url),
        Seg::Face { id } => lemma_emoji_tag(id),
        Seg::Forward { id } => lemma_forward_tag(id),
        _ => {},
    }
}

// ---------------------------------------------------------------------------
// A quoted reply
// ---------------------------------------------------------------------------

/// An escaped attribute value that ends in a run without `;` comes from a
/// value ending in the same run.
proof fn lemma_escape_attr_suffix(v: Seq<char>, p: Seq<char>)
    requires
        forall|j: int| 0 <= j < p.len() ==> p[j] != ';',
        p.len() <= escape_attr_spec(v).len(),
        escape_attr_spec(v).subrange(escape_attr_spec(v).len() - p.len(), escape_attr_spec(v).len() as int)
            == p,
    ensures
        p.len() <= v.len(),
        v.subrange(v.len() - p.len(), v.len() as int) == p,
    decreases v.len(),
{
    let e = escape_attr_spec(v);
    if p.len() == 0 {
        assert(v.subrange(v.len() as int, v.len() as int) =~= p);
    } else if v.len() == 0 {
        assert(e.len() == 0);
    } else {
        reveal_strlit("&amp;");
        reveal_strlit("&quot;");
        reveal_strlit("&lt;");
        reveal_strlit("&gt;");
        let c = v.last();
        let w = v.drop_last();
        let ew = escape_attr_spec(w);
        let k = esc_attr_char(c);
        assert(e == ew + k);
        assert(e.last() == p.last()) by {
            assert(e.subrange(e.len() - p.len(), e.len() as int)[p.len() - 1] == e.last());
        }
        if c == '&' || c == '"' || c == '<' || c == '>' {
            assert(k.last() == ';');
            assert(e.last() == k.last());
        } else {
            assert(k =~= seq![c]);
            let q = p.drop_last();
            assert(ew.subrange(ew.len() - q.len(), ew.len() as int) =~= q) by {
                assert forall|j: int| 0 <= j < q.len() implies ew.subrange(
                    ew.len() - q.len(),
                    ew.len() as int,
                )[j] == q[j] by {
                    assert(e.subrange(e.len() - p.len(), e.len() as int)[j] == p[j]);
                }
            }
            lemma_escape_attr_suffix(w, q);
            assert(v.subrange(v.len() - p.len(), v.len() as int) =~= w.subrange(
                w.len() - q.len(),
                w.len() as int,
            ).push(c));
        }
    }
}

/// `forward` occurs in an escaped attribute value only where it occurs in
/// the value itself: the escapes hold neither an `f` nor a run of seven
/// characters free of `&` and `;`.
proof fn lemma_escape_attr_forward(v: Seq<char>, i: int)
    requires
        occurs_at(escape_attr_spec(v), "forward"@, i),
    ensures
        contains_seq(v, "forward"@),
    decreases v.len(),
{
    reveal_strlit("forward");
    let fw = "forward"@;
    let e = escape_attr_spec(v);
    if v.len() == 0 {
        assert(e.len() == 0);
    } else {
        let c = v.last();
        let w = v.drop_last();
        let ew = escape_attr_spec(w);
        let k = esc_attr_char(c);
        let b = ew.len() as int;
        assert(e == ew + k);
        if i + 7 <= b {
            assert(ew.subrange(i, i + 7) =~= e.subrange(i, i + 7));
            lemma_escape_attr_forward(w, i);
            let j = choose|j: int| occurs_at(w, fw, j);
            assert(v.subrange(j, j + 7) =~= w.subrange(j, j + 7));
            assert(occurs_at(v, fw, j));
        } else if c == '&' || c == '"' || c == '<' || c == '>' {
            reveal_strlit("&amp;");
            reveal_strlit("&quot;");
            reveal_strlit("&lt;");
            reveal_strlit("&gt;");
            assert(k[0] == '&');
            assert(k.len() <= 6);
            assert(e[b] == '&');
            assert(e.subrange(i, i + 7)[b - i] == e[b]);
        } else {
            assert(k =~= seq![c]);
            assert(i + 7 == b + 1);
            let p = fw.take(6);
            assert(ew.subrange(b - 6, b) =~= p) by {
                assert forall|j: int| 0 <= j < 6 implies ew.subrange(b - 6, b)[j] == p[j] by {
                    assert(e.subrange(i, i + 7)[j] == fw[j]);
                }
            }
            lemma_escape_attr_suffix(w, p);
            assert(c == 'd') by {
                assert(e.subrange(i, i + 7)[6] == e[b]);
            }
            assert(fw =~= p.push('d'));
            assert(v.subrange(v.len() - 7, v.len() as int) =~= w.subrange(
                w.len() - 6,
                w.len() as int,
            ).push(c));
            assert(occurs_at(v, fw, v.len() - 7));
        }
    }
}

/// The middle tag of a quoted reply reads back as the reply, when its id
/// does not mention `forward`.
proof fn lemma_reply_message_tag(id: Seq<char>)
    requires
        !contains_seq(id, "forward"@),
    ensures
        tag_segment(elem1_inner("message"@, "id"@, id)) == Some(Seg::Reply { id }),
        forall|j: int| 0 <= j < elem1_inner("message"@, "id"@, id).len() ==> #[trigger] elem1_inner(
            "message"@,
            "id"@,
            id,
        )[j] != '>',
{
    reveal_strlit("at");
    reveal_strlit("img");
    reveal_strlit("audio");
    reveal_strlit("video");
    reveal_strlit("emoji");
    reveal_strlit("message");
    reveal_strlit("id");
    reveal_strlit("forward");
    reveal_strlit(" ");
    reveal_strlit("=\"");
    reveal_strlit("\"");
    assert(elem1_names_ok("message"@, "id"@));
    lemma_elem1_tag("message"@, "id"@, id);
    let fw = "forward"@;
    let e = escape_attr_spec(id);
    let pre = "message"@ + " "@ + "id"@ + "=\""@;
    let c = tag_core(elem1_inner("message"@, "id"@, id));
    assert(c == pre + e + "\""@);
    assert(pre =~= seq!['m', 'e', 's', 's', 'a', 'g', 'e', ' ', 'i', 'd', '=', '"']);
    assert(c[0] == 'm');
    assert(!has_prefix(c, "at"@)) by {
        assert(c.subrange(0, 2)[0] != "at"@[0]);
    }
    assert(!has_prefix(c, "img"@)) by {
        assert(c.subrange(0, 3)[0] != "img"@[0]);
    }
    assert(!has_prefix(c, "audio"@)) by {
        assert(c.subrange(0, 5)[0] != "audio"@[0]);
    }
    assert(!has_prefix(c, "video"@)) by {
        assert(c.subrange(0, 5)[0] != "video"@[0]);
    }
    assert(!has_prefix(c, "emoji"@)) by {
        assert(c.subrange(0, 5)[0] != "emoji"@[0]);
    }
    assert(c.subrange(0, 7) =~= "message"@);
    assert("forward"@ != "id"@) by {
        assert("forward"@.len() != "id"@.len());
    }
    lemma_attr_get_one("id"@, id, "id"@);
    lemma_attr_get_one("id"@, id, "forward"@);
    assert(!contains_seq(c, fw)) by {
        if contains_seq(c, fw) {
            let i = choose|i: int| occurs_at(c, fw, i);
            assert(c.subrange(i, i + 7)[0] == c[i]);
            assert(c.subrange(i, i + 7)[6] == c[i + 6]);
            if i < 12 {
                assert(c[i] == pre[i]);
            } else if i + 7 == c.len() {
                assert(c[i + 6] == '"');
            } else {
                assert(e.subrange(i - 12, i - 5) =~= c.subrange(i, i + 7));
                lemma_escape_attr_forward(id, i - 12);
            }
        }
    }
}

/// The opening and closing `quote` tags read back as nothing.
proof fn lemma_quote_tags()
    ensures
        tag_segment("quote"@) is None,
        tag_segment("/quote"@) is None,
{
    reveal_strlit("quote");
    reveal_strlit("/quote");
    reveal_strlit("at");
    reveal_strlit("img");
    reveal_strlit("audio");
    reveal_strlit("video");
    reveal_strlit("emoji");
    reveal_strlit("message");
    let q = "quote"@;
    lemma_trim_clean(q);
    assert(trim_end_slash(q) == q);
    assert(tag_core(q) == q);
    assert(!has_prefix(q, "at"@)) by {
        assert(q.subrange(0, 2)[0] != "at"@[0]);
    }
    assert(!has_prefix(q, "img"@)) by {
        assert(q.subrange(0, 3)[0] != "img"@[0]);
    }
    assert(!has_prefix(q, "audio"@)) by {
        assert(q.subrange(0, 5)[0] != "audio"@[0]);
    }
    assert(!has_prefix(q, "video"@)) by {
        assert(q.subrange(0, 5)[0] != "video"@[0]);
    }
    assert(!has_prefix(q, "emoji"@)) by {
        assert(q.subrange(0, 5)[0] != "emoji"@[0]);
    }
    assert(!has_prefix(q, "message"@));
    let r = "/quote"@;
    lemma_trim_clean(r);
    assert(trim_end_slash(r) == r);
    assert(tag_core(r) == r);
    assert(!has_prefix(r, "at"@)) by {
        assert(r.subrange(0, 2)[0] != "at"@[0]);
    }
    assert(!has_prefix(r, "img"@)) by {
        assert(r.subrange(0, 3)[0] != "img"@[0]);
    }
    assert(!has_prefix(r, "audio"@)) by {
        assert(r.subrange(0, 5)[0] != "audio"@[0]);
    }
    assert(!has_prefix(r, "video"@)) by {
        assert(r.subrange(0, 5)[0] != "video"@[0]);
    }
    assert(!has_prefix(r, "emoji"@)) by {
        assert(r.subrange(0, 5)[0] != "emoji"@[0]);
    }
    assert(!has_prefix(r, "message"@)) by {
        assert(r.subrange(0, 6)[0] != "message"@[0]);
    }
}

/// A reply is written as three tags: an opening `quote`, the message tag
/// and a closing `quote`.
proof fn lemma_reply_parts(id: Seq<char>)
    ensures
        seg_element(Seg::Reply { id }) == "<"@ + "quote"@ + ">"@ + ("<"@ + elem1_inner("message"@, "id"@, id)
            + ">"@) + ("<"@ + "/quote"@ + ">"@),
{
    reveal_strlit("<quote><message id=\"");
    reveal_strlit("\" /></quote>");
    reveal_strlit("<");
    reveal_strlit(">");
    reveal_strlit("quote");
    reveal_strlit("/quote");
    reveal_strlit("message");
    reveal_strlit(" ");
    reveal_strlit("id");
    reveal_strlit("=\"");
    reveal_strlit("\" /");
    assert(seg_element(Seg::Reply { id }) =~= "<"@ + "quote"@ + ">"@ + ("<"@ + elem1_inner(
        "message"@,
        "id"@,
        id,
    ) + ">"@) + ("<"@ + "/quote"@ + ">"@));
}

/// Reading a tag with no `>` inside it, closed by `>`.
proof fn lemma_parse_one_tag(s: Seq<char>, p: int, w: Seq<char>)
    requires
        0 <= p,
        p + w.len() + 2 <= s.len(),
        s[p] == '<',
        s.subrange(p + 1, p + 1 + w.len()) == w,
        forall|j: int| 0 <= j < w.len() ==> w[j] != '>',
        s[p + 1 + w.len()] == '>',
    ensures
        parse_from(s, p, Seq::empty()) == opt_seg(tag_segment(w)) + parse_from(
            s,
            p + w.len() + 2,
            Seq::empty(),
        ),
{
    let c = p + 1 + w.len();
    assert forall|j: int| p + 1 <= j < c implies s[j] != '>' by {
        assert(s[j] == s.subrange(p + 1, c)[j - p - 1]);
    }
    lemma_find_from_run(s, p + 1, c, '>');
    assert(after(s, c) == c + 1);
    assert(flush_text(Seq::<char>::empty()) =~= Seq::<Seg>::empty());
    assert(parse_from(s, p, Seq::empty()) =~= opt_seg(tag_segment(w)) + parse_from(
        s,
        c + 1,
        Seq::empty(),
    ));
}

/// Where a string holds `x` at `p`, each tag of `x` lies at its place.
proof fn lemma_reply_at(s: Seq<char>, p: int, w: Seq<char>)
    requires
        0 <= p,
        p + w.len() + 17 <= s.len(),
        s.subrange(p, p + w.len() + 17) == "<"@ + "quote"@ + ">"@ + ("<"@ + w + ">"@) + ("<"@ + "/quote"@
            + ">"@),
    ensures
        s[p] == '<',
        s.subrange(p + 1, p + 6) == "quote"@,
        s[p + 6] == '>',
        s[p + 7] == '<',
        s.subrange(p + 8, p + 8 + w.len()) == w,
        s[p + 8 + w.len()] == '>',
        s[p + 9 + w.len()] == '<',
        s.subrange(p + 10 + w.len(), p + 16 + w.len()) == "/quote"@,
        s[p + 16 + w.len()] == '>',
{
    reveal_strlit("<");
    reveal_strlit(">");
    reveal_strlit("quote");
    reveal_strlit("/quote");
    let x = s.subrange(p, p + w.len() + 17);
    let l = w.len() as int;
    assert(s[p] == x[0]);
    assert(s[p + 6] == x[6]);
    assert(s[p + 7] == x[7]);
    assert(s[p + 8 + l] == x[8 + l]);
    assert(s[p + 9 + l] == x[9 + l]);
    assert(s[p + 16 + l] == x[16 + l]);
    assert(s.subrange(p + 1, p + 6) =~= x.subrange(1, 6));
    assert(s.subrange(p + 8, p + 8 + l) =~= x.subrange(8, 8 + l));
    assert(s.subrange(p + 10 + l, p + 16 + l) =~= x.subrange(10 + l, 16 + l));
}

/// A reply segment stands written at its offset.
proof fn lemma_reply_place(segs: Seq<Seg>, n: int)
    requires
        0 <= n < segs.len(),
        segs[n] is Reply,
    ensures
        offset(segs, n + 1) == offset(segs, n) + elem1_inner("message"@, "id"@, segs[n]->Reply_id).len()
            + 17,
        offset(segs, n) + elem1_inner("message"@, "id"@, segs[n]->Reply_id).len() + 17 <= elements_spec(
            segs,
        ).len(),
        elements_spec(segs).subrange(
            offset(segs, n),
            offset(segs, n) + elem1_inner("message"@, "id"@, segs[n]->Reply_id).len() + 17,
        ) == "<"@ + "quote"@ + ">"@ + ("<"@ + elem1_inner("message"@, "id"@, segs[n]->Reply_id) + ">"@)
            + ("<"@ + "/quote"@ + ">"@),
{
    reveal_strlit("quote");
    reveal_strlit("/quote");
    reveal_strlit("<");
    reveal_strlit(">");
    let s = elements_spec(segs);
    let p = offset(segs, n);
    let id = segs[n]->Reply_id;
    lemma_split(segs, n);
    lemma_reply_parts(id);
    let el = seg_element(segs[n]);
    assert(el.len() == elem1_inner("message"@, "id"@, id).len() + 17);
    assert(s.subrange(p, p + el.len()) =~= el);
}

#[verifier::rlimit(60)]
proof fn lemma_parse_reply_seg(segs: Seq<Seg>, n: int)
    requires
        0 <= n < segs.len(),
        segs[n] matches Seg::Reply { id } && !contains_seq(id, "forward"@),
    ensures
        parse_from(elements_spec(segs), offset(segs, n), Seq::empty()) == seq![segs[n]]
            + parse_from(elements_spec(segs), offset(segs, n + 1), Seq::empty()),
{
    reveal_strlit("quote");
    reveal_strlit("/quote");
    let s = elements_spec(segs);
    let p = offset(segs, n);
    let id = segs[n]->Reply_id;
    let w = elem1_inner("message"@, "id"@, id);
    let l = w.len() as int;
    lemma_reply_place(segs, n);
    lemma_reply_at(s, p, w);
    lemma_reply_message_tag(id);
    lemma_quote_tags();
    lemma_parse_one_tag(s, p, "quote"@);
    lemma_parse_one_tag(s, p + 7, w);
    lemma_parse_one_tag(s, p + 9 + l, "/quote"@);
    assert(opt_seg(None::<Seg>) =~= Seq::<Seg>::empty());
    assert(opt_seg(Some(segs[n])) =~= seq![segs[n]]);
}

// ---------------------------------------------------------------------------
// Lists of segments
// ---------------------------------------------------------------------------

proof fn lemma_elements_append(a: Seq<Seg>, b: Seq<Seg>)
    ensures
        elements_spec(a + b) == elements_spec(a) + elements_spec(b),
    decreases b.len(),
{
    if b.len() == 0 {
        assert(a + b =~= a);
        assert(elements_spec(a) + elements_spec(b) =~= elements_spec(a));
    } else {
        lemma_elements_append(a, b.drop_last());
        assert((a + b).drop_last() =~= a + b.drop_last());
        assert((a + b).last() == b.last());
        assert(elements_spec(a) + elements_spec(b) =~= elements_spec(a) + elements_spec(b.drop_last()) + seg_element(b.last()));
    }
}

proof fn lemma_elements_one(x: Seg)
    ensures
        elements_spec(seq![x]) == seg_element(x),
{
    assert(seq![x].drop_last() =~= Seq::<Seg>::empty());
    assert(seq![x].last() == x);
    assert(elements_spec(Seq::<Seg>::empty()) == Seq::<char>::empty());
    assert(Seq::<char>::empty() + seg_element(x) =~= seg_element(x));
}

/// The offset in the written string where segment `n` starts.
pub open spec fn offset(segs: Seq<Seg>, n: int) -> int {
    elements_spec(segs.take(n)).len() as int
}

/// The written string splits at every segment boundary.
proof fn lemma_split(segs: Seq<Seg>, n: int)
    requires
        0 <= n < segs.len(),
    ensures
        elements_spec(segs) == elements_spec(segs.take(n)) + seg_element(segs[n]) + elements_spec(segs.skip(n + 1)),
        offset(segs, n + 1) == offset(segs, n) + seg_element(segs[n]).len(),
        n + 1 < segs.len() ==> elements_spec(segs.skip(n + 1)) == seg_element(segs[n + 1]) + elements_spec(segs.skip(n + 2)),
{
    assert(segs =~= segs.take(n) + seq![segs[n]] + segs.skip(n + 1));
    lemma_elements_append(segs.take(n) + seq![segs[n]], segs.skip(n + 1));
    lemma_elements_append(segs.take(n), seq![segs[n]]);
    lemma_elements_one(segs[n]);
    assert(segs.take(n + 1) =~= segs.take(n) + seq![segs[n]]);
    if n + 1 < segs.len() {
        assert(segs.skip(n + 1) =~= seq![segs[n + 1]] + segs.skip(n + 2));
        lemma_elements_append(seq![segs[n + 1]], segs.skip(n + 2));
        lemma_elements_one(segs[n + 1]);
    }
}

/// Whether the element form carries a segment: non-empty text, a segment
/// written as one tag, or a reply whose id does not mention `forward`.
pub open spec fn carried(s: Seg) -> bool {
    ||| is_tag_seg(s)
    ||| (s matches Seg::Text { text } && text.len() > 0)
    ||| (s matches Seg::Reply { id } && !contains_seq(id, "forward"@))
}

/// Whether a list of segments survives being written as elements: every
/// segment is carried, and no two texts stand side by side (they would be
/// read back as one).
pub open spec fn element_list_ok(segs: Seq<Seg>) -> bool {
    &&& forall|i: int| 0 <= i < segs.len() ==> carried(#[trigger] segs[i])
    &&& forall|i: int| 0 <= i < segs.len() - 1 ==> !(#[trigger] segs[i] is Text && segs[i + 1] is Text)
}

/// The segments a list reads back as.
pub open spec fn read_back_all(segs: Seq<Seg>) -> Seq<Seg> {
    segs.map_values(|s: Seg| read_back(s))
}

/// Reading from a tag onward does not depend on the text gathered before
/// it, except that the text comes first.
proof fn lemma_parse_at_tag(s: Seq<char>, i: int, buf: Seq<char>)
    requires
        0 <= i < s.len(),
        s[i] == '<',
    ensures
        parse_from(s, i, buf) == flush_text(buf) + parse_from(s, i, Seq::empty()),
{
    assert(flush_text(Seq::<char>::empty()) =~= Seq::<Seg>::empty());
    let rest = opt_seg(tag_segment(s.subrange(i + 1, find_from(s, i + 1, '>')))) + parse_from(
        s,
        after(s, find_from(s, i + 1, '>')),
        Seq::empty(),
    );
    assert(parse_from(s, i, Seq::empty()) =~= rest);
    assert(parse_from(s, i, buf) =~= flush_text(buf) + rest);
}

proof fn lemma_parse_tag_seg(segs: Seq<Seg>, n: int)
    requires
        0 <= n < segs.len(),
        is_tag_seg(segs[n]),
    ensures
        parse_from(elements_spec(segs), offset(segs, n), Seq::empty()) == seq![read_back(segs[n])]
            + parse_from(elements_spec(segs), offset(segs, n + 1), Seq::empty()),
{
    let s = elements_spec(segs);
    let p = offset(segs, n);
    let inner = tag_inner(segs[n]);
    lemma_split(segs, n);
    lemma_tag_seg(segs[n]);
    reveal_strlit("<");
    reveal_strlit(">");
    let el = seg_element(segs[n]);
    assert(el =~= "<"@ + inner + ">"@);
    assert(s[p] == el[0]);
    assert(s[p] == '<');
    let c = p + 1 + inner.len();
    assert(s[c] == el[(inner.len() + 1) as int]);
    assert(s[c] == '>');
    assert forall|j: int| p + 1 <= j < c implies s[j] != '>' by {
        assert(s[j] == el[j - p]);
        assert(el[j - p] == inner[j - p - 1]);
    }
    lemma_find_from_run(s, p + 1, c, '>');
    assert(s.subrange(p + 1, c) =~= inner);
    assert(after(s, c) == offset(segs, n + 1));
    assert(flush_text(Seq::<char>::empty()) =~= Seq::<Seg>::empty());
    assert(opt_seg(Some(read_back(segs[n]))) =~= seq![read_back(segs[n])]);
}

proof fn lemma_parse_text_seg(segs: Seq<Seg>, n: int)
    requires
        0 <= n < segs.len(),
        segs[n] matches Seg::Text { text } && text.len() > 0,
        n + 1 < segs.len() ==> is_tag_seg(segs[n + 1]) || segs[n + 1] is Reply,
    ensures
        parse_from(elements_spec(segs), offset(segs, n), Seq::empty()) == seq![segs[n]]
            + parse_from(elements_spec(segs), offset(segs, n + 1), Seq::empty()),
{
    let s = elements_spec(segs);
    let p = offset(segs, n);
    let t = segs[n]->Text_text;
    let e = escape_text(t);
    lemma_split(segs, n);
    lemma_escape_text_safe(t);
    assert(seg_element(segs[n]) == e);
    let k = offset(segs, n + 1);
    assert forall|j: int| p <= j < k implies s[j] != '<' by {
        assert(s[j] == e[j - p]);
    }
    assert forall|j: int| p <= j < k && s[j] == '&' implies exists|m: int| j < m < k && s[m] == ';' by {
        assert(s[j] == e[j - p]);
        let w = choose|m: int| j - p < m < e.len() && e[m] == ';';
        assert(s[w + p] == e[w]);
    }
    lemma_parse_text_region(s, p, k, Seq::empty());
    assert(Seq::<char>::empty() + s.subrange(p, k) =~= e);
    lemma_text_round_trip(t);
    assert(flush_text(e) == seq![segs[n]]);
    if n + 1 < segs.len() {
        reveal_strlit("<");
        if segs[n + 1] is Reply {
            lemma_reply_parts(segs[n + 1]->Reply_id);
        } else {
            lemma_tag_seg(segs[n + 1]);
        }
        assert(s[k] == seg_element(segs[n + 1])[0]);
        assert(s[k] == '<');
        lemma_parse_at_tag(s, k, e);
    } else {
        assert(segs.take(segs.len() as int) =~= segs);
        assert(k == s.len());
        assert(parse_from(s, k, Seq::empty()) =~= Seq::<Seg>::empty());
    }
}

proof fn lemma_parse_segments(segs: Seq<Seg>, n: int)
    requires
        element_list_ok(segs),
        0 <= n <= segs.len(),
    ensures
        parse_from(elements_spec(segs), offset(segs, n), Seq::empty()) == read_back_all(segs.skip(n)),
    decreases segs.len() - n,
{
    let s = elements_spec(segs);
    if n == segs.len() {
        assert(segs.take(n) =~= segs);
        assert(read_back_all(segs.skip(n)) =~= Seq::<Seg>::empty());
        assert(parse_from(s, s.len() as int, Seq::empty()) =~= Seq::<Seg>::empty());
    } else {
        lemma_parse_segments(segs, n + 1);
        assert(carried(segs[n]));
        assert(read_back_all(segs.skip(n)) =~= seq![read_back(segs[n])] + read_back_all(segs.skip(n + 1)));
        if is_tag_seg(segs[n]) {
            lemma_parse_tag_seg(segs, n);
        } else if segs[n] is Reply {
            lemma_parse_reply_seg(segs, n);
        } else {
            if n + 1 < segs.len() {
                assert(carried(segs[n + 1]));
                assert(!(segs[n] is Text && segs[n + 1] is Text));
            }
            lemma_parse_text_seg(segs, n);
        }
    }
}

/// Segments that the element form carries (non-empty texts, mentions,
/// images, voice records, videos, faces, forwarded messages, and replies
/// whose id does not mention `forward`, with no two texts side by side),
/// written as Satori elements and read back, are the same segments; a media
/// segment comes back with its source as both file and URL.
pub proof fn lemma_elements_round_trip(segs: Seq<Seg>)
    requires
        element_list_ok(segs),
    ensures
        parse_elements_spec(elements_spec(segs)) == read_back_all(segs),
{
    lemma_parse_segments(segs, 0);
    assert(segs.take(0) =~= Seq::<Seg>::empty());
    assert(segs.skip(0) =~= segs);
}

} // verus!
