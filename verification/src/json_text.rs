//! The compact text form of a JSON value (no whitespace, object entries in
//! their stored order), as JSON values are written on the wire: the same
//! text `serde_json::to_string` writes for the value. The library writes it
//! itself because its JSON model is its own type, which carries no serde
//! implementation; `app/` converts to `serde_json` values only at its edges.

use vstd::prelude::*;

use crate::json::{entries_view, group_json_view, values_view, Json, JsonNumber, JsonValue, NumV};
use crate::text::{digit_char, int_decimal, nat_decimal, push_chars, push_int_decimal,
    push_nat_decimal, push_str, chars_of, string_from_chars};

verus! {

/// A lower-case hexadecimal digit.
pub open spec fn hex_digit(d: nat) -> char {
    if d < 10 {
        digit_char(d)
    } else {
        ((d + 87) as u8) as char
    }
}

/// The escaped form of one character inside a JSON string: quote,
/// backslash and the control characters are escaped, the short forms used
/// where JSON has them.
pub open spec fn esc_json_char(c: char) -> Seq<char> {
    if c == '"' {
        "\\\""@
    } else if c == '\\' {
        "\\\\"@
    } else if c == '\n' {
        "\\n"@
    } else if c == '\r' {
        "\\r"@
    } else if c == '\t' {
        "\\t"@
    } else if c == '\x08' {
        "\\b"@
    } else if c == '\x0C' {
        "\\f"@
    } else if (c as u32) < 0x20 {
        "\\u00"@ + seq![hex_digit(((c as u32) / 16) as nat), hex_digit(((c as u32) % 16) as nat)]
    } else {
        seq![c]
    }
}

/// The escaped body of a JSON string.
pub open spec fn json_str_body(s: Seq<char>) -> Seq<char>
    decreases s.len(),
{
    if s.len() == 0 {
        Seq::empty()
    } else {
        json_str_body(s.drop_last()) + esc_json_char(s.last())
    }
}

/// A quoted JSON string.
pub open spec fn json_str_text(s: Seq<char>) -> Seq<char> {
    "\""@ + json_str_body(s) + "\""@
}

/// The text of a JSON number.
pub open spec fn num_text(n: NumV) -> Seq<char> {
    match n {
        NumV::PosInt(u) => nat_decimal(u as nat),
        NumV::NegInt(i) => int_decimal(i as int),
        NumV::Float { text, .. } => text,
    }
}

/// The compact text of a JSON value.
pub open spec fn json_text(j: Json) -> Seq<char>
    decreases j, 0int,
{
    match j {
        Json::Null => "null"@,
        Json::Bool(b) => if b {
            "true"@
        } else {
            "false"@
        },
        Json::Num(n) => num_text(n),
        Json::Str(s) => json_str_text(s),
        Json::Arr(a) => "["@ + items_text(a, a.len() as int) + "]"@,
        Json::Obj(es) => "{"@ + entries_text(es, es.len() as int) + "}"@,
    }
}

/// The first `n` items of an array, separated by commas.
pub open spec fn items_text(a: Seq<Json>, n: int) -> Seq<char>
    decreases a, n,
{
    if n <= 0 || n > a.len() {
        Seq::empty()
    } else if n == 1 {
        json_text(a[0])
    } else {
        items_text(a, n - 1) + ","@ + json_text(a[n - 1])
    }
}

/// One object entry: `"key":value`.
pub open spec fn entry_text(k: Seq<char>, v: Json) -> Seq<char> {
    json_str_text(k) + ":"@ + json_text(v)
}

/// The first `n` entries of an object, separated by commas.
pub open spec fn entries_text(es: Seq<(Seq<char>, Json)>, n: int) -> Seq<char>
    decreases es, n,
{
    if n <= 0 || n > es.len() {
        Seq::empty()
    } else {
        proof {
            assert(decreases_to!(es => es[n - 1]));
        }
        let e = es[n - 1];
        if n == 1 {
            json_str_text(e.0) + ":"@ + json_text(e.1)
        } else {
            entries_text(es, n - 1) + ","@ + json_str_text(e.0) + ":"@ + json_text(e.1)
        }
    }
}

fn hex(d: u32) -> (c: char)
    requires
        d < 16,
    ensures
        c == hex_digit(d as nat),
{
    if d < 10 {
        let b: u8 = (d as u8) + 48u8;
        b as char
    } else {
        let b: u8 = (d as u8) + 87u8;
        b as char
    }
}

/// Appends the escaped form of `c`.
fn push_esc_char(buf: &mut Vec<char>, c: char)
    ensures
        final(buf)@ == old(buf)@ + esc_json_char(c),
{
    if c == '"' {
        push_str(buf, "\\\"");
    } else if c == '\\' {
        push_str(buf, "\\\\");
    } else if c == '\n' {
        push_str(buf, "\\n");
    } else if c == '\r' {
        push_str(buf, "\\r");
    } else if c == '\t' {
        push_str(buf, "\\t");
    } else if c == '\x08' {
        push_str(buf, "\\b");
    } else if c == '\x0C' {
        push_str(buf, "\\f");
    } else if (c as u32) < 0x20 {
        let ghost start = buf@;
        push_str(buf, "\\u00");
        let v: u32 = c as u32;
        buf.push(hex(v / 16));
        buf.push(hex(v % 16));
        assert(buf@ =~= start + esc_json_char(c));
    } else {
        buf.push(c);
    }
}

/// Appends a quoted, escaped JSON string.
pub fn push_json_str(buf: &mut Vec<char>, s: &str)
    ensures
        final(buf)@ == old(buf)@ + json_str_text(s@),
{
    let ghost start = buf@;
    let cs = chars_of(s);
    proof {
        reveal_strlit("\"");
        assert(cs@.take(0) =~= Seq::<char>::empty());
    }
    buf.push('"');
    let mut i: usize = 0;
    while i < cs.len()
        invariant
            i <= cs.len(),
            cs@ == s@,
            buf@ == start + "\""@ + json_str_body(cs@.take(i as int)),
        decreases cs.len() - i,
    {
        push_esc_char(buf, cs[i]);
        proof {
            assert(cs@.take(i + 1).drop_last() =~= cs@.take(i as int));
        }
        i = i + 1;
    }
    buf.push('"');
    assert(cs@.take(cs.len() as int) =~= cs@);
    assert(buf@ =~= start + json_str_text(s@));
}

/// Appends the text of a number.
fn push_num(buf: &mut Vec<char>, n: &JsonNumber)
    ensures
        final(buf)@ == old(buf)@ + num_text(crate::json::num_view(*n)),
{
    match n {
        JsonNumber::PosInt(u) => push_nat_decimal(buf, *u),
        JsonNumber::NegInt(i) => push_int_decimal(buf, *i),
        JsonNumber::Float { text, .. } => push_str(buf, text.as_str()),
    }
}

/// Appends the compact text of a JSON value.
pub fn push_json(buf: &mut Vec<char>, v: &JsonValue)
    ensures
        final(buf)@ == old(buf)@ + json_text(v@),
    decreases v,
{
    broadcast use group_json_view;

    let ghost start = buf@;
    match v {
        JsonValue::Null => push_str(buf, "null"),
        JsonValue::Bool(b) => {
            if *b {
                push_str(buf, "true");
            } else {
                push_str(buf, "false");
            }
        },
        JsonValue::Number(n) => push_num(buf, n),
        JsonValue::Str(s) => push_json_str(buf, s.as_str()),
        JsonValue::Array(a) => {
            let ghost av = values_view(a@);
            proof {
                reveal_strlit("[");
                reveal_strlit("]");
                reveal_strlit(",");
            }
            buf.push('[');
            let mut i: usize = 0;
            while i < a.len()
                invariant
                    i <= a.len(),
                    *v == JsonValue::Array(*a),
                    av == values_view(a@),
                    buf@ == start + "["@ + items_text(av, i as int),
                decreases a.len() - i,
            {
                proof {
                    assert(decreases_to!(*v => (*v)->Array_0));
                    assert(decreases_to!((*v)->Array_0 => (*v)->Array_0@));
                    assert(decreases_to!(a@ => a@[i as int]));
                }
                let ghost before = buf@;
                if i > 0 {
                    buf.push(',');
                }
                push_json(buf, &a[i]);
                proof {
                    reveal_strlit(",");
                    assert(av[i as int] == a@[i as int]@);
                    if i == 0 {
                        assert(buf@ =~= start + "["@ + items_text(av, 1));
                    } else {
                        assert(items_text(av, i + 1) == items_text(av, i as int) + ","@ + json_text(
                            av[i as int],
                        ));
                        assert(buf@ =~= start + "["@ + items_text(av, i + 1));
                    }
                }
                i = i + 1;
            }
            buf.push(']');
            assert(buf@ =~= start + json_text(v@));
        },
        JsonValue::Object(es) => {
            let ghost ev = entries_view(es@);
            proof {
                reveal_strlit("{");
                reveal_strlit("}");
                reveal_strlit(",");
                reveal_strlit(":");
            }
            buf.push('{');
            let mut i: usize = 0;
            while i < es.len()
                invariant
                    i <= es.len(),
                    *v == JsonValue::Object(*es),
                    ev == entries_view(es@),
                    buf@ == start + "{"@ + entries_text(ev, i as int),
                decreases es.len() - i,
            {
                proof {
                    assert(decreases_to!(*v => (*v)->Object_0));
                    assert(decreases_to!((*v)->Object_0 => (*v)->Object_0@));
                    assert(decreases_to!(es@ => es@[i as int]));
                    assert(decreases_to!(es@[i as int] => es@[i as int].1));
                }
                if i > 0 {
                    buf.push(',');
                }
                push_json_str(buf, es[i].0.as_str());
                buf.push(':');
                push_json(buf, &es[i].1);
                proof {
                    reveal_strlit(",");
                    reveal_strlit(":");
                    assert(ev[i as int] == (es@[i as int].0@, es@[i as int].1@));
                    if i == 0 {
                        assert(buf@ =~= start + "{"@ + entries_text(ev, 1));
                    } else {
                        assert(entries_text(ev, i + 1) == entries_text(ev, i as int) + ","@
                            + json_str_text(ev[i as int].0) + ":"@ + json_text(ev[i as int].1));
                        assert(buf@ =~= start + "{"@ + entries_text(ev, i + 1));
                    }
                }
                i = i + 1;
            }
            buf.push('}');
            assert(buf@ =~= start + json_text(v@));
        },
    }
}

/// The compact text of a JSON value.
pub fn to_json_text(v: &JsonValue) -> (r: String)
    ensures
        r@ == json_text(v@),
{
    let mut buf: Vec<char> = Vec::new();
    push_json(&mut buf, v);
    assert(buf@ =~= json_text(v@));
    string_from_chars(buf.as_slice())
}

} // verus!
