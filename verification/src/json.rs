//! A JSON value model.
//!
//! The gateway reads and writes JSON everywhere: backend events, API
//! parameters and responses. `JsonValue` holds such a value as plain data.
//! Numbers keep the three shapes JSON numbers take when read (non-negative
//! integers, negative integers, and finite floating-point numbers, the
//! latter held by their IEEE-754 bits together with their shortest decimal
//! text), and objects keep their entries in ascending key order, as a sorted
//! map does.

use vstd::prelude::*;

use crate::text::{chars_eq, chars_of, owned};

verus! {

/// A JSON number.
#[derive(Clone, PartialEq, Eq, Debug)]
pub enum JsonNumber {
    /// A non-negative integer.
    PosInt(u64),
    /// A negative integer.
    NegInt(i64),
    /// A finite floating-point number: its IEEE-754 bits and its shortest
    /// round-trip decimal text.
    Float { bits: u64, text: String },
}

/// The mathematical form of a JSON number.
pub enum NumV {
    PosInt(u64),
    NegInt(i64),
    Float { bits: u64, text: Seq<char> },
}

/// The mathematical form of a JSON number.
pub open spec fn num_view(n: JsonNumber) -> NumV {
    match n {
        JsonNumber::PosInt(u) => NumV::PosInt(u),
        JsonNumber::NegInt(i) => NumV::NegInt(i),
        JsonNumber::Float { bits, text } => NumV::Float { bits, text: text@ },
    }
}

impl JsonNumber {
    /// A copy of this number.
    pub fn copy(&self) -> (r: JsonNumber)
        ensures
            num_view(r) == num_view(*self),
    {
        match self {
            JsonNumber::PosInt(u) => JsonNumber::PosInt(*u),
            JsonNumber::NegInt(i) => JsonNumber::NegInt(*i),
            JsonNumber::Float { bits, text } => JsonNumber::Float { bits: *bits, text: text.clone() },
        }
    }
}

/// A JSON value.
#[derive(Debug)]
pub enum JsonValue {
    Null,
    Bool(bool),
    Number(JsonNumber),
    Str(String),
    Array(Vec<JsonValue>),
    /// Entries in ascending key order.
    Object(Vec<(String, JsonValue)>),
}

/// The mathematical form of a JSON value.
pub enum Json {
    Null,
    Bool(bool),
    Num(NumV),
    Str(Seq<char>),
    Arr(Seq<Json>),
    Obj(Seq<(Seq<char>, Json)>),
}

/// The mathematical form of a JSON value.
pub open spec fn json_view(v: JsonValue) -> Json
    decreases v,
{
    match v {
        JsonValue::Null => Json::Null,
        JsonValue::Bool(b) => Json::Bool(b),
        JsonValue::Number(n) => Json::Num(num_view(n)),
        JsonValue::Str(s) => Json::Str(s@),
        JsonValue::Array(a) => Json::Arr(
            Seq::new(
                a@.len(),
                |i: int|
                    {
                        if 0 <= i < a@.len() {
                            proof {
                                assert(decreases_to!(a => a@));
                                assert(decreases_to!(a@ => a@[i]));
                            }
                            json_view(a@[i])
                        } else {
                            Json::Null
                        }
                    },
            ),
        ),
        JsonValue::Object(o) => Json::Obj(
            Seq::new(
                o@.len(),
                |i: int|
                    {
                        if 0 <= i < o@.len() {
                            proof {
                                assert(decreases_to!(o => o@));
                                assert(decreases_to!(o@ => o@[i]));
                                assert(decreases_to!(o@[i] => o@[i].1));
                            }
                            (o@[i].0@, json_view(o@[i].1))
                        } else {
                            (Seq::empty(), Json::Null)
                        }
                    },
            ),
        ),
    }
}

impl View for JsonValue {
    type V = Json;

    open spec fn view(&self) -> Json {
        json_view(*self)
    }
}

/// The mathematical form of a list of JSON values.
pub open spec fn values_view(a: Seq<JsonValue>) -> Seq<Json> {
    Seq::new(a.len(), |i: int| json_view(a[i]))
}

/// The mathematical form of a list of object entries.
pub open spec fn entries_view(o: Seq<(String, JsonValue)>) -> Seq<(Seq<char>, Json)> {
    Seq::new(o.len(), |i: int| (o[i].0@, json_view(o[i].1)))
}

pub broadcast proof fn lemma_array_view(a: Vec<JsonValue>)
    ensures
        #[trigger] json_view(JsonValue::Array(a)) == Json::Arr(values_view(a@)),
{
    let v = json_view(JsonValue::Array(a));
    let x = v->Arr_0;
    assert(x.len() == a@.len());
    assert forall|i: int| 0 <= i < x.len() implies x[i] == json_view(a@[i]) by {}
    assert(x =~= values_view(a@));
}

pub broadcast proof fn lemma_object_view(o: Vec<(String, JsonValue)>)
    ensures
        #[trigger] json_view(JsonValue::Object(o)) == Json::Obj(entries_view(o@)),
{
    let v = json_view(JsonValue::Object(o));
    let x = v->Obj_0;
    assert(x.len() == o@.len());
    assert forall|i: int| 0 <= i < x.len() implies x[i] == (o@[i].0@, json_view(o@[i].1)) by {}
    assert(x =~= entries_view(o@));
}

pub broadcast group group_json_view {
    lemma_array_view,
    lemma_object_view,
}

// ---------------------------------------------------------------------------
// Key order
// ---------------------------------------------------------------------------

/// Lexicographic order on character sequences (the order of `String`).
pub open spec fn chars_lt(a: Seq<char>, b: Seq<char>) -> bool
    decreases a.len(),
{
    if a.len() == 0 {
        b.len() > 0
    } else if b.len() == 0 {
        false
    } else if a[0] != b[0] {
        a[0] < b[0]
    } else {
        chars_lt(a.drop_first(), b.drop_first())
    }
}

/// Three-way outcome of a key comparison.
pub enum KeyOrder {
    Less,
    Equal,
    Greater,
}

/// Compares two character sequences lexicographically.
pub fn compare_chars(a: &[char], b: &[char]) -> (r: KeyOrder)
    ensures
        r is Less <==> chars_lt(a@, b@),
        r is Equal <==> a@ == b@,
        r is Greater <==> chars_lt(b@, a@),
{
    let mut i: usize = 0;
    assert(a@.skip(0) =~= a@);
    assert(b@.skip(0) =~= b@);
    assert(a@.take(0) =~= b@.take(0));
    while i < a.len() && i < b.len() && a[i] == b[i]
        invariant
            i <= a.len(),
            i <= b.len(),
            a@.take(i as int) == b@.take(i as int),
            chars_lt(a@, b@) == chars_lt(a@.skip(i as int), b@.skip(i as int)),
            chars_lt(b@, a@) == chars_lt(b@.skip(i as int), a@.skip(i as int)),
        decreases a.len() - i,
    {
        assert(a@.skip(i as int).drop_first() =~= a@.skip(i + 1));
        assert(b@.skip(i as int).drop_first() =~= b@.skip(i + 1));
        assert(a@.take(i + 1) =~= a@.take(i as int).push(a@[i as int]));
        assert(b@.take(i + 1) =~= b@.take(i as int).push(b@[i as int]));
        i = i + 1;
    }
    if i < a.len() && i < b.len() {
        assert(a@.skip(i as int)[0] == a@[i as int]);
        assert(b@.skip(i as int)[0] == b@[i as int]);
        if a[i] < b[i] {
            KeyOrder::Less
        } else {
            KeyOrder::Greater
        }
    } else if i < b.len() {
        assert(a@ =~= a@.take(i as int));
        assert(a@.skip(i as int).len() == 0);
        KeyOrder::Less
    } else if i < a.len() {
        assert(b@ =~= b@.take(i as int));
        assert(b@.skip(i as int).len() == 0);
        KeyOrder::Greater
    } else {
        assert(a@ =~= a@.take(i as int));
        assert(b@ =~= b@.take(i as int));
        assert(a@.skip(i as int).len() == 0);
        KeyOrder::Equal
    }
}

// ---------------------------------------------------------------------------
// Objects
// ---------------------------------------------------------------------------

/// Index of the first entry at or after `i` whose key is `k`, if any.
pub open spec fn find_key_from(es: Seq<(Seq<char>, Json)>, k: Seq<char>, i: int) -> Option<int>
    decreases es.len() - i,
{
    if i < 0 || i >= es.len() {
        None
    } else if es[i].0 == k {
        Some(i)
    } else {
        find_key_from(es, k, i + 1)
    }
}

/// The value stored under key `k`, if any.
pub open spec fn obj_lookup(es: Seq<(Seq<char>, Json)>, k: Seq<char>) -> Option<Json> {
    match find_key_from(es, k, 0) {
        Some(i) => Some(es[i].1),
        None => None,
    }
}

/// Position at or after `i` of the first entry whose key is not below `k`.
pub open spec fn insert_pos_from(es: Seq<(Seq<char>, Json)>, k: Seq<char>, i: int) -> int
    decreases es.len() - i,
{
    if i < 0 || i >= es.len() {
        es.len() as int
    } else if !chars_lt(es[i].0, k) {
        i
    } else {
        insert_pos_from(es, k, i + 1)
    }
}

/// The entries after storing `v` under `k`, keeping ascending key order.
pub open spec fn obj_insert(es: Seq<(Seq<char>, Json)>, k: Seq<char>, v: Json) -> Seq<(Seq<char>, Json)> {
    let p = insert_pos_from(es, k, 0);
    if 0 <= p < es.len() && es[p].0 == k {
        es.update(p, (k, v))
    } else {
        es.insert(p, (k, v))
    }
}

/// The entries obtained by storing each pair of `kvs` in turn, starting empty.
pub open spec fn obj_build(kvs: Seq<(Seq<char>, Json)>) -> Seq<(Seq<char>, Json)>
    decreases kvs.len(),
{
    if kvs.len() == 0 {
        Seq::empty()
    } else {
        obj_insert(obj_build(kvs.drop_last()), kvs.last().0, kvs.last().1)
    }
}

/// A JSON object holding the given pairs (later pairs win on repeated keys).
pub open spec fn jobj(kvs: Seq<(Seq<char>, Json)>) -> Json {
    Json::Obj(obj_build(kvs))
}

/// `j` with `v` stored under `k` when `j` is an object; otherwise `j`.
pub open spec fn jset(j: Json, k: Seq<char>, v: Json) -> Json {
    match j {
        Json::Obj(es) => Json::Obj(obj_insert(es, k, v)),
        _ => j,
    }
}

// ---------------------------------------------------------------------------
// Accessors (as serde_json's `Value::get`, `as_str`, `as_i64`, ...)
// ---------------------------------------------------------------------------

/// The member `k` of an object; `None` for any other value.
pub open spec fn jget(j: Json, k: Seq<char>) -> Option<Json> {
    match j {
        Json::Obj(es) => obj_lookup(es, k),
        _ => None,
    }
}

/// The member `k` of an optional value.
pub open spec fn jget_opt(j: Option<Json>, k: Seq<char>) -> Option<Json> {
    match j {
        Some(v) => jget(v, k),
        None => None,
    }
}

pub open spec fn jas_str(j: Json) -> Option<Seq<char>> {
    match j {
        Json::Str(s) => Some(s),
        _ => None,
    }
}

pub open spec fn jas_bool(j: Json) -> Option<bool> {
    match j {
        Json::Bool(b) => Some(b),
        _ => None,
    }
}

pub open spec fn jas_i64(j: Json) -> Option<i64> {
    match j {
        Json::Num(NumV::PosInt(n)) => if n <= i64::MAX as u64 {
            Some(n as i64)
        } else {
            None
        },
        Json::Num(NumV::NegInt(n)) => Some(n),
        _ => None,
    }
}

pub open spec fn jas_u64(j: Json) -> Option<u64> {
    match j {
        Json::Num(NumV::PosInt(n)) => Some(n),
        Json::Num(NumV::NegInt(n)) => if n >= 0 {
            Some(n as u64)
        } else {
            None
        },
        _ => None,
    }
}

pub open spec fn jas_array(j: Json) -> Option<Seq<Json>> {
    match j {
        Json::Arr(a) => Some(a),
        _ => None,
    }
}

/// Optional chaining helpers over `Option<Json>`.
pub open spec fn ostr(j: Option<Json>) -> Option<Seq<char>> {
    match j {
        Some(v) => jas_str(v),
        None => None,
    }
}

pub open spec fn oi64(j: Option<Json>) -> Option<i64> {
    match j {
        Some(v) => jas_i64(v),
        None => None,
    }
}

pub open spec fn ou64(j: Option<Json>) -> Option<u64> {
    match j {
        Some(v) => jas_u64(v),
        None => None,
    }
}

/// A string member's text, or the empty string when absent or not a string.
pub open spec fn str_or_empty(o: Option<Json>) -> Seq<char> {
    match ostr(o) {
        Some(s) => s,
        None => Seq::empty(),
    }
}

/// The JSON number for a signed integer (non-negative values are stored as
/// non-negative integers).
pub open spec fn num_of_i64(i: i64) -> NumV {
    if i < 0 {
        NumV::NegInt(i)
    } else {
        NumV::PosInt(i as u64)
    }
}

pub open spec fn jint(i: i64) -> Json {
    Json::Num(num_of_i64(i))
}

pub open spec fn juint(u: u64) -> Json {
    Json::Num(NumV::PosInt(u))
}

pub open spec fn jstr(s: Seq<char>) -> Json {
    Json::Str(s)
}

/// Whether the number is well formed: negative integers are negative.
pub open spec fn number_wf(n: NumV) -> bool {
    match n {
        NumV::NegInt(v) => v < 0,
        _ => true,
    }
}

impl JsonValue {
    /// A number value from a signed integer.
    pub fn from_i64(i: i64) -> (r: JsonValue)
        ensures
            r@ == jint(i),
    {
        if i < 0 {
            JsonValue::Number(JsonNumber::NegInt(i))
        } else {
            JsonValue::Number(JsonNumber::PosInt(i as u64))
        }
    }

    /// A number value from an unsigned integer.
    pub fn from_u64(u: u64) -> (r: JsonValue)
        ensures
            r@ == juint(u),
    {
        JsonValue::Number(JsonNumber::PosInt(u))
    }

    /// A string value holding the characters of `s`.
    pub fn from_str(s: &str) -> (r: JsonValue)
        ensures
            r@ == jstr(s@),
    {
        JsonValue::Str(owned(s))
    }

    /// An empty object.
    pub fn empty_object() -> (r: JsonValue)
        ensures
            r@ == Json::Obj(Seq::empty()),
    {
        let v: Vec<(String, JsonValue)> = Vec::new();
        proof {
            broadcast use group_json_view;

            assert(entries_view(v@) =~= Seq::empty());
        }
        JsonValue::Object(v)
    }

    /// The member `key` of an object; `None` for any other value.
    pub fn get(&self, key: &str) -> (r: Option<&JsonValue>)
        ensures
            match r {
                Some(v) => jget(self@, key@) == Some(v@),
                None => jget(self@, key@) is None,
            },
    {
        broadcast use group_json_view;

        match self {
            JsonValue::Object(es) => {
                let k = chars_of(key);
                let ghost ev = entries_view(es@);
                proof {
                    lemma_object_view(*es);
                }
                let mut i: usize = 0;
                while i < es.len()
                    invariant
                        i <= es.len(),
                        k@ == key@,
                        self@ == Json::Obj(ev),
                        ev == entries_view(es@),
                        find_key_from(ev, key@, 0) == find_key_from(ev, key@, i as int),
                    decreases es.len() - i,
                {
                    let kc = chars_of(es[i].0.as_str());
                    assert(ev[i as int].0 == kc@);
                    if chars_eq(kc.as_slice(), k.as_slice()) {
                        return Some(&es[i].1);
                    }
                    assert(ev[i as int].0 != key@);
                    assert(find_key_from(ev, key@, i as int) == find_key_from(ev, key@, i + 1));
                    i = i + 1;
                }
                None
            },
            _ => None,
        }
    }

    pub fn as_str(&self) -> (r: Option<&String>)
        ensures
            match r {
                Some(s) => jas_str(self@) == Some(s@),
                None => jas_str(self@) is None,
            },
    {
        match self {
            JsonValue::Str(s) => Some(s),
            _ => None,
        }
    }

    pub fn as_bool(&self) -> (r: Option<bool>)
        ensures
            r == jas_bool(self@),
    {
        match self {
            JsonValue::Bool(b) => Some(*b),
            _ => None,
        }
    }

    pub fn as_i64(&self) -> (r: Option<i64>)
        ensures
            r == jas_i64(self@),
    {
        match self {
            JsonValue::Number(JsonNumber::PosInt(n)) => {
                if *n <= 0x7fff_ffff_ffff_ffffu64 {
                    Some(*n as i64)
                } else {
                    None
                }
            },
            JsonValue::Number(JsonNumber::NegInt(n)) => Some(*n),
            _ => None,
        }
    }

    pub fn as_u64(&self) -> (r: Option<u64>)
        ensures
            r == jas_u64(self@),
    {
        match self {
            JsonValue::Number(JsonNumber::PosInt(n)) => Some(*n),
            JsonValue::Number(JsonNumber::NegInt(n)) => {
                if *n >= 0 {
                    Some(*n as u64)
                } else {
                    None
                }
            },
            _ => None,
        }
    }

    pub fn as_array(&self) -> (r: Option<&Vec<JsonValue>>)
        ensures
            match r {
                Some(a) => jas_array(self@) == Some(values_view(a@)),
                None => jas_array(self@) is None,
            },
    {
        broadcast use group_json_view;

        match self {
            JsonValue::Array(a) => Some(a),
            _ => None,
        }
    }

    pub fn is_object(&self) -> (r: bool)
        ensures
            r == (self@ is Obj),
    {
        match self {
            JsonValue::Object(_) => true,
            _ => false,
        }
    }

    /// A deep copy.
    pub fn copy(&self) -> (r: JsonValue)
        ensures
            r@ == self@,
        decreases self,
    {
        broadcast use group_json_view;

        match self {
            JsonValue::Null => JsonValue::Null,
            JsonValue::Bool(b) => JsonValue::Bool(*b),
            JsonValue::Number(n) => JsonValue::Number(n.copy()),
            JsonValue::Str(s) => JsonValue::Str(s.clone()),
            JsonValue::Array(a) => {
                let mut out: Vec<JsonValue> = Vec::new();
                let mut i: usize = 0;
                while i < a.len()
                    invariant
                        i <= a.len(),
                        *self == JsonValue::Array(*a),
                        out@.len() == i,
                        values_view(out@) == values_view(a@).take(i as int),
                    decreases a.len() - i,
                {
                    proof {
                        assert(decreases_to!(*self => (*self)->Array_0));
                        assert(decreases_to!((*self)->Array_0 => (*self)->Array_0@));
                        assert(decreases_to!(a@ => a@[i as int]));
                    }
                    let c = a[i].copy();
                    let ghost prev = out@;
                    out.push(c);
                    proof {
                        assert(out@ == prev.push(c));
                        assert forall|j: int| 0 <= j < out@.len() implies values_view(out@)[j]
                            == values_view(a@)[j] by {
                            if j < prev.len() {
                                assert(values_view(prev)[j] == values_view(a@).take(i as int)[j]);
                            }
                        }
                    }
                    i = i + 1;
                    assert(values_view(out@) =~= values_view(a@).take(i as int));
                }
                assert(values_view(a@).take(a.len() as int) =~= values_view(a@));
                JsonValue::Array(out)
            },
            JsonValue::Object(es) => {
                let mut out: Vec<(String, JsonValue)> = Vec::new();
                let mut i: usize = 0;
                while i < es.len()
                    invariant
                        i <= es.len(),
                        *self == JsonValue::Object(*es),
                        out@.len() == i,
                        entries_view(out@) == entries_view(es@).take(i as int),
                    decreases es.len() - i,
                {
                    proof {
                        assert(decreases_to!(*self => (*self)->Object_0));
                        assert(decreases_to!((*self)->Object_0 => (*self)->Object_0@));
                        assert(decreases_to!(es@ => es@[i as int]));
                        assert(decreases_to!(es@[i as int] => es@[i as int].1));
                    }
                    let k = es[i].0.clone();
                    let c = es[i].1.copy();
                    let ghost prev = out@;
                    out.push((k, c));
                    proof {
                        assert(out@ == prev.push((k, c)));
                        assert forall|j: int| 0 <= j < out@.len() implies entries_view(out@)[j]
                            == entries_view(es@)[j] by {
                            if j < prev.len() {
                                assert(entries_view(prev)[j] == entries_view(es@).take(
                                    i as int,
                                )[j]);
                            }
                        }
                    }
                    i = i + 1;
                    assert(entries_view(out@) =~= entries_view(es@).take(i as int));
                }
                assert(entries_view(es@).take(es.len() as int) =~= entries_view(es@));
                JsonValue::Object(out)
            },
        }
    }
}

/// Stores `value` under `key`, keeping ascending key order.
pub fn object_insert(es: &mut Vec<(String, JsonValue)>, key: String, value: JsonValue)
    ensures
        entries_view(final(es)@) == obj_insert(entries_view(old(es)@), key@, value@),
{
    let ghost ev = entries_view(es@);
    let ghost old_es = es@;
    let k = chars_of(key.as_str());
    let mut i: usize = 0;
    let mut found = false;
    loop
        invariant_except_break
            !found,
        invariant
            i <= es.len(),
            k@ == key@,
            es@ == old_es,
            ev == entries_view(es@),
            insert_pos_from(ev, key@, 0) == insert_pos_from(ev, key@, i as int),
        ensures
            i <= es.len(),
            es@ == old_es,
            insert_pos_from(ev, key@, 0) == i as int,
            found <==> (i < es.len() && ev[i as int].0 == key@),
        decreases es.len() - i,
    {
        if i >= es.len() {
            break;
        }
        let kc = chars_of(es[i].0.as_str());
        assert(ev[i as int].0 == kc@);
        match compare_chars(kc.as_slice(), k.as_slice()) {
            KeyOrder::Less => {
                i = i + 1;
            },
            KeyOrder::Equal => {
                found = true;
                break;
            },
            KeyOrder::Greater => {
                break;
            },
        }
    }
    if found {
        es.remove(i);
        es.insert(i, (key, value));
        assert(es@ =~= old_es.update(i as int, (key, value)));
    } else {
        es.insert(i, (key, value));
        assert(es@ =~= old_es.insert(i as int, (key, value)));
    }
    assert(entries_view(es@) =~= obj_insert(ev, key@, value@));
}

/// Builds an object from pairs stored in turn.
pub fn object_from(kvs: Vec<(String, JsonValue)>) -> (r: JsonValue)
    ensures
        r@ == jobj(entries_view(kvs@)),
{
    broadcast use group_json_view;

    let ghost kv = entries_view(kvs@);
    let mut es: Vec<(String, JsonValue)> = Vec::new();
    let mut rest = kvs;
    let total = rest.len();
    let mut n: usize = 0;
    assert(entries_view(es@) =~= obj_build(kv.take(0)));
    while rest.len() > 0
        invariant
            n + rest.len() == total,
            total == kv.len(),
            entries_view(rest@) == kv.skip(n as int),
            entries_view(es@) == obj_build(kv.take(n as int)),
        decreases rest.len(),
    {
        let ghost before = entries_view(rest@);
        let (k, v) = rest.remove(0);
        proof {
            assert(before[0] == kv[n as int]);
            assert(kv.take(n + 1).drop_last() =~= kv.take(n as int));
            assert(kv.take(n + 1).last() == kv[n as int]);
            assert(entries_view(rest@) =~= before.skip(1));
            assert(before.skip(1) =~= kv.skip(n + 1));
        }
        object_insert(&mut es, k, v);
        n = n + 1;
    }
    assert(kv.take(total as int) =~= kv);
    JsonValue::Object(es)
}


// ---------------------------------------------------------------------------
// Laws of objects: key order and reading what was stored
// ---------------------------------------------------------------------------

/// No key is below itself.
pub proof fn lemma_chars_lt_irreflexive(a: Seq<char>)
    ensures
        !chars_lt(a, a),
    decreases a.len(),
{
    if a.len() > 0 {
        lemma_chars_lt_irreflexive(a.drop_first());
    }
}

/// Key order is transitive.
pub proof fn lemma_chars_lt_transitive(a: Seq<char>, b: Seq<char>, c: Seq<char>)
    requires
        chars_lt(a, b),
        chars_lt(b, c),
    ensures
        chars_lt(a, c),
    decreases a.len(),
{
    if a.len() > 0 && b.len() > 0 && c.len() > 0 && a[0] == b[0] && b[0] == c[0] {
        lemma_chars_lt_transitive(a.drop_first(), b.drop_first(), c.drop_first());
    }
}

/// Of two different keys, one is below the other.
pub proof fn lemma_chars_lt_total(a: Seq<char>, b: Seq<char>)
    requires
        a != b,
    ensures
        chars_lt(a, b) || chars_lt(b, a),
    decreases a.len(),
{
    if a.len() > 0 && b.len() > 0 && a[0] == b[0] {
        if a.drop_first() == b.drop_first() {
            assert(a.len() == b.len()) by {
                assert(a.drop_first().len() == b.drop_first().len());
            }
            assert(a =~= b) by {
                assert forall|i: int| 0 <= i < a.len() implies a[i] == b[i] by {
                    if i > 0 {
                        assert(a[i] == a.drop_first()[i - 1]);
                        assert(b[i] == b.drop_first()[i - 1]);
                    }
                }
            }
        }
        lemma_chars_lt_total(a.drop_first(), b.drop_first());
    } else if a.len() == 0 && b.len() == 0 {
        assert(a =~= b);
    }
}

/// Entries whose keys ascend strictly (so no key occurs twice): the form
/// of every object the library builds.
pub open spec fn keys_sorted(es: Seq<(Seq<char>, Json)>) -> bool {
    forall|i: int, j: int| #![trigger es[i], es[j]] 0 <= i < j < es.len() ==> chars_lt(es[i].0, es[j].0)
}

proof fn lemma_find_key(es: Seq<(Seq<char>, Json)>, k: Seq<char>, i: int)
    requires
        0 <= i <= es.len(),
    ensures
        match find_key_from(es, k, i) {
            Some(j) => i <= j < es.len() && es[j].0 == k,
            None => forall|m: int| i <= m < es.len() ==> (#[trigger] es[m]).0 != k,
        },
        forall|m: int| i <= m < es.len() && (#[trigger] es[m]).0 == k ==> find_key_from(es, k, i) is Some,
    decreases es.len() - i,
{
    if i < es.len() {
        lemma_find_key(es, k, i + 1);
    }
}

/// In sorted entries, the value found under a key is the one stored at the
/// key's position; a key stored nowhere has no value.
proof fn lemma_lookup_sorted(es: Seq<(Seq<char>, Json)>, k: Seq<char>)
    requires
        keys_sorted(es),
    ensures
        forall|j: int| 0 <= j < es.len() && (#[trigger] es[j]).0 == k ==> obj_lookup(es, k) == Some(es[j].1),
        (forall|j: int| 0 <= j < es.len() ==> (#[trigger] es[j]).0 != k) ==> obj_lookup(es, k) is None,
{
    lemma_find_key(es, k, 0);
    assert forall|j: int| 0 <= j < es.len() && (#[trigger] es[j]).0 == k implies obj_lookup(es, k) == Some(es[j].1) by {
        let f = find_key_from(es, k, 0)->0;
        if f != j {
            if f < j {
                assert(chars_lt(es[f].0, es[j].0));
            } else {
                assert(chars_lt(es[j].0, es[f].0));
            }
            lemma_chars_lt_irreflexive(k);
        }
    }
}

proof fn lemma_insert_pos(es: Seq<(Seq<char>, Json)>, k: Seq<char>, i: int)
    requires
        0 <= i <= es.len(),
    ensures
        i <= insert_pos_from(es, k, i) <= es.len(),
        forall|j: int| i <= j < insert_pos_from(es, k, i) ==> chars_lt((#[trigger] es[j]).0, k),
        insert_pos_from(es, k, i) < es.len() ==> !chars_lt(es[insert_pos_from(es, k, i)].0, k),
    decreases es.len() - i,
{
    if i < es.len() {
        lemma_insert_pos(es, k, i + 1);
    }
}

/// Storing a value keeps the keys sorted, and afterwards the key holds the
/// value while every other key holds what it held before.
pub proof fn lemma_insert_then_lookup(es: Seq<(Seq<char>, Json)>, k: Seq<char>, v: Json, k2: Seq<char>)
    requires
        keys_sorted(es),
    ensures
        keys_sorted(obj_insert(es, k, v)),
        obj_lookup(obj_insert(es, k, v), k2) == if k2 == k {
            Some(v)
        } else {
            obj_lookup(es, k2)
        },
{
    let p = insert_pos_from(es, k, 0);
    lemma_insert_pos(es, k, 0);
    let es2 = obj_insert(es, k, v);
    // Every entry from position p on has a key at or above k.
    assert forall|j: int| p < j < es.len() implies chars_lt(k, (#[trigger] es[j]).0) by {
        assert(chars_lt(es[p].0, es[j].0));
        if es[p].0 == k {
        } else {
            lemma_chars_lt_total(es[p].0, k);
            lemma_chars_lt_transitive(k, es[p].0, es[j].0);
        }
    }
    if 0 <= p < es.len() && es[p].0 == k {
        assert(es2 == es.update(p, (k, v)));
        assert(keys_sorted(es2)) by {
            assert forall|i: int, j: int| #![trigger es2[i], es2[j]] 0 <= i < j < es2.len() implies chars_lt(es2[i].0, es2[j].0) by {
                assert(es2[i].0 == es[i].0);
                assert(es2[j].0 == es[j].0);
                assert(chars_lt(es[i].0, es[j].0));
            }
        }
        lemma_lookup_sorted(es, k2);
        lemma_lookup_sorted(es2, k2);
        if k2 == k {
            assert(es2[p].0 == k2);
        } else {
            assert forall|j: int| 0 <= j < es.len() && (#[trigger] es[j]).0 == k2 implies obj_lookup(es2, k2) == Some(es[j].1) by {
                assert(es2[j] == es[j]);
            }
            if forall|j: int| 0 <= j < es.len() ==> (#[trigger] es[j]).0 != k2 {
                assert forall|j: int| 0 <= j < es2.len() implies (#[trigger] es2[j]).0 != k2 by {
                    if j != p {
                        assert(es2[j] == es[j]);
                    }
                }
            } else {
                let w = choose|j: int| 0 <= j < es.len() && (#[trigger] es[j]).0 == k2;
                assert(es2[w] == es[w]);
            }
        }
    } else {
        assert(es2 == es.insert(p, (k, v)));
        assert forall|j: int| p <= j < es.len() implies chars_lt(k, (#[trigger] es[j]).0) by {
            if j == p {
                lemma_chars_lt_total(es[p].0, k);
            }
        }
        assert(keys_sorted(es2)) by {
            assert forall|i: int, j: int| #![trigger es2[i], es2[j]] 0 <= i < j < es2.len() implies chars_lt(es2[i].0, es2[j].0) by {
                if j < p {
                    assert(es2[i] == es[i] && es2[j] == es[j]);
                    assert(chars_lt(es[i].0, es[j].0));
                } else if j == p {
                    assert(es2[i] == es[i]);
                    assert(chars_lt(es[i].0, k));
                } else if i < p {
                    assert(es2[i] == es[i] && es2[j] == es[j - 1]);
                    assert(chars_lt(es[i].0, k));
                    assert(chars_lt(k, es[j - 1].0));
                    lemma_chars_lt_transitive(es[i].0, k, es[j - 1].0);
                } else if i == p {
                    assert(es2[j] == es[j - 1]);
                    assert(chars_lt(k, es[j - 1].0));
                } else {
                    assert(es2[i] == es[i - 1] && es2[j] == es[j - 1]);
                    assert(chars_lt(es[i - 1].0, es[j - 1].0));
                }
            }
        }
        lemma_lookup_sorted(es, k2);
        lemma_lookup_sorted(es2, k2);
        if k2 == k {
            assert(es2[p] == (k, v));
        } else {
            if forall|j: int| 0 <= j < es.len() ==> (#[trigger] es[j]).0 != k2 {
                assert forall|j: int| 0 <= j < es2.len() implies (#[trigger] es2[j]).0 != k2 by {
                    if j < p {
                        assert(es2[j] == es[j]);
                    } else if j > p {
                        assert(es2[j] == es[j - 1]);
                    }
                }
            } else {
                let w = choose|j: int| 0 <= j < es.len() && (#[trigger] es[j]).0 == k2;
                if w < p {
                    assert(es2[w] == es[w]);
                } else {
                    assert(es2[w + 1] == es[w]);
                }
            }
        }
    }
}

/// The value of the last pair with key `k` among the first `n` pairs.
pub open spec fn last_value(kvs: Seq<(Seq<char>, Json)>, k: Seq<char>, n: int) -> Option<Json>
    decreases n,
{
    if n <= 0 || n > kvs.len() {
        None
    } else if kvs[n - 1].0 == k {
        Some(kvs[n - 1].1)
    } else {
        last_value(kvs, k, n - 1)
    }
}

/// Pairs with other keys after position `m` do not change the last value
/// of a key.
pub proof fn lemma_last_value_skip(kvs: Seq<(Seq<char>, Json)>, k: Seq<char>, m: int, n: int)
    requires
        0 <= m <= n <= kvs.len(),
        forall|j: int| m <= j < n ==> (#[trigger] kvs[j]).0 != k,
    ensures
        last_value(kvs, k, n) == last_value(kvs, k, m),
    decreases n - m,
{
    if n > m {
        lemma_last_value_skip(kvs, k, m, n - 1);
    }
}

/// An object built from pairs has sorted keys, and each key holds the
/// value of the last pair that names it.
pub proof fn lemma_build_then_lookup(kvs: Seq<(Seq<char>, Json)>, k: Seq<char>)
    ensures
        keys_sorted(obj_build(kvs)),
        obj_lookup(obj_build(kvs), k) == last_value(kvs, k, kvs.len() as int),
    decreases kvs.len(),
{
    if kvs.len() == 0 {
        assert(obj_build(kvs) =~= Seq::<(Seq<char>, Json)>::empty());
    } else {
        let init = kvs.drop_last();
        lemma_build_then_lookup(init, k);
        lemma_insert_then_lookup(obj_build(init), kvs.last().0, kvs.last().1, k);
        assert forall|n: int| 0 <= n <= init.len() implies last_value(init, k, n) == last_value(kvs, k, n) by {
            lemma_last_value_prefix(kvs, k, n);
        }
    }
}

proof fn lemma_last_value_prefix(kvs: Seq<(Seq<char>, Json)>, k: Seq<char>, n: int)
    requires
        kvs.len() > 0,
        0 <= n <= kvs.len() - 1,
    ensures
        last_value(kvs.drop_last(), k, n) == last_value(kvs, k, n),
    decreases n,
{
    if n > 0 {
        lemma_last_value_prefix(kvs, k, n - 1);
    }
}

/// Reading a member of an object built from pairs gives the value of the
/// last pair with that key, or nothing when no pair names it.
pub proof fn lemma_jobj_get(kvs: Seq<(Seq<char>, Json)>, k: Seq<char>)
    ensures
        jget(jobj(kvs), k) == last_value(kvs, k, kvs.len() as int),
{
    lemma_build_then_lookup(kvs, k);
}

/// Whether a JSON value is an object with sorted keys.
pub open spec fn sorted_object(j: Json) -> bool {
    j matches Json::Obj(es) && keys_sorted(es)
}

/// Storing a member into an object with sorted keys keeps it so; reading
/// the member back gives what was stored, and every other member is
/// unchanged.
pub proof fn lemma_jset_then_jget(j: Json, k: Seq<char>, v: Json, k2: Seq<char>)
    requires
        sorted_object(j),
    ensures
        sorted_object(jset(j, k, v)),
        jget(jset(j, k, v), k2) == if k2 == k {
            Some(v)
        } else {
            jget(j, k2)
        },
{
    lemma_insert_then_lookup(j->Obj_0, k, v, k2);
}

/// Storing into a member the value it already holds leaves an object
/// with sorted keys as it is.
pub proof fn lemma_jset_same(j: Json, k: Seq<char>, v: Json)
    requires
        sorted_object(j),
        jget(j, k) == Some(v),
    ensures
        jset(j, k, v) == j,
{
    let es = j->Obj_0;
    lemma_find_key(es, k, 0);
    let f = find_key_from(es, k, 0)->0;
    assert(es[f].0 == k && es[f].1 == v);
    lemma_insert_pos(es, k, 0);
    let p = insert_pos_from(es, k, 0);
    lemma_chars_lt_irreflexive(k);
    if p > f {
        assert(chars_lt(es[f].0, k));
    } else if p < f {
        assert(chars_lt(es[p].0, es[f].0));
    }
    assert(p == f);
    assert(es.update(p, (k, v)) =~= es);
}

} // verus!
