//! Event deduplication.
//!
//! With failover, the primary and the fallback backend of an account may
//! both deliver the same event. `DedupFilter` remembers recently seen event
//! fingerprints for a time window and reports repeats within the window as
//! duplicates.
//!
//! Fingerprints: a message event is identified by `(self_id, message_id)`
//! (account in the high 64 bits, message id in the low 64 bits); any other
//! event by two SipHash passes (the standard library's default hasher)
//! over its account, type, sub-type, second and extra data.

use std::collections::hash_map::DefaultHasher;
use std::collections::HashMap;
use std::hash::Hasher;

use vstd::prelude::*;
use vstd::std_specs::hash::{spec_hash_map_iter, DefaultHasherAdditionalSpecFns};
use vstd::std_specs::iter::IteratorSpec;

use crate::event::{Event, EventV, OtherEventV};
use crate::json::{entries_view, group_json_view, values_view, Json, JsonNumber, JsonValue, NumV};
use crate::text::chars_of;

verus! {

// ---------------------------------------------------------------------------
// Byte encodings
// ---------------------------------------------------------------------------

/// 256 to the power `k`.
pub open spec fn pow256(k: nat) -> nat
    decreases k,
{
    if k == 0 {
        1
    } else {
        256 * pow256((k - 1) as nat)
    }
}

/// The eight little-endian bytes of a 64-bit value.
pub open spec fn le_bytes(x: u64) -> Seq<u8> {
    Seq::new(8, |k: int| ((x as nat / pow256(k as nat)) % 256) as u8)
}

/// The UTF-8 encoding of one character.
pub open spec fn utf8_char(c: char) -> Seq<u8> {
    let v = c as u32;
    if v < 0x80 {
        seq![v as u8]
    } else if v < 0x800 {
        seq![(0xC0 + v / 64) as u8, (0x80 + v % 64) as u8]
    } else if v < 0x10000 {
        seq![(0xE0 + v / 4096) as u8, (0x80 + (v / 64) % 64) as u8, (0x80 + v % 64) as u8]
    } else {
        seq![
            (0xF0 + v / 262144) as u8,
            (0x80 + (v / 4096) % 64) as u8,
            (0x80 + (v / 64) % 64) as u8,
            (0x80 + v % 64) as u8,
        ]
    }
}

/// The UTF-8 encoding of a string.
pub open spec fn utf8(s: Seq<char>) -> Seq<u8>
    decreases s.len(),
{
    if s.len() == 0 {
        Seq::empty()
    } else {
        utf8(s.drop_last()) + utf8_char(s.last())
    }
}

fn push_le_bytes(out: &mut Vec<u8>, x: u64)
    ensures
        final(out)@ == old(out)@ + le_bytes(x),
{
    let ghost start = out@;
    let mut v: u64 = x;
    let mut k: usize = 0;
    assert(pow256(0) == 1);
    assert(x as nat / 1 == x as nat);
    assert(out@.subrange(0, start.len() as int) =~= start);
    while k < 8
        invariant
            k <= 8,
            out@.len() == start.len() + k,
            out@.subrange(0, start.len() as int) == start,
            v as nat == x as nat / pow256(k as nat),
            forall|j: int| 0 <= j < k ==> #[trigger] out@[start.len() + j] == ((x as nat / pow256(j as nat)) % 256) as u8,
        decreases 8 - k,
    {
        proof {
            assert(pow256((k + 1) as nat) == 256 * pow256(k as nat));
            assert(pow256(k as nat) > 0) by {
                lemma_pow256_pos(k as nat);
            }
            vstd::arithmetic::div_mod::lemma_div_denominator(x as int, pow256(k as nat) as int, 256);
            assert(pow256(k as nat) * 256 == 256 * pow256(k as nat)) by (nonlinear_arith);
        }
        out.push((v % 256) as u8);
        v = v / 256;
        k = k + 1;
    }
    assert forall|j: int| 0 <= j < out@.len() implies out@[j] == (start + le_bytes(x))[j] by {
        if j >= start.len() {
            let t = j - start.len();
            assert(out@[start.len() + t] == ((x as nat / pow256(t as nat)) % 256) as u8);
        } else {
            assert(out@.subrange(0, start.len() as int)[j] == start[j]);
        }
    }
    assert(out@ =~= start + le_bytes(x));
}

proof fn lemma_pow256_pos(k: nat)
    ensures
        pow256(k) > 0,
    decreases k,
{
    if k > 0 {
        lemma_pow256_pos((k - 1) as nat);
    }
}

fn push_utf8_char(out: &mut Vec<u8>, c: char)
    ensures
        final(out)@ == old(out)@ + utf8_char(c),
{
    let v: u32 = c as u32;
    if v < 0x80 {
        out.push(v as u8);
    } else if v < 0x800 {
        out.push((0xC0 + v / 64) as u8);
        out.push((0x80 + v % 64) as u8);
    } else if v < 0x10000 {
        out.push((0xE0 + v / 4096) as u8);
        out.push((0x80 + (v / 64) % 64) as u8);
        out.push((0x80 + v % 64) as u8);
    } else {
        out.push((0xF0 + v / 262144) as u8);
        out.push((0x80 + (v / 4096) % 64) as u8);
        out.push((0x80 + (v / 64) % 64) as u8);
        out.push((0x80 + v % 64) as u8);
    }
    assert(out@ =~= old(out)@ + utf8_char(c));
}

/// The UTF-8 bytes of a string.
pub fn utf8_bytes(s: &str) -> (r: Vec<u8>)
    ensures
        r@ == utf8(s@),
{
    let cs = chars_of(s);
    let mut out: Vec<u8> = Vec::new();
    let mut i: usize = 0;
    while i < cs.len()
        invariant
            i <= cs.len(),
            cs@ == s@,
            out@ == utf8(cs@.take(i as int)),
        decreases cs.len() - i,
    {
        push_utf8_char(&mut out, cs[i]);
        assert(cs@.take(i + 1).drop_last() =~= cs@.take(i as int));
        i = i + 1;
    }
    assert(cs@.take(cs.len() as int) =~= cs@);
    out
}

// ---------------------------------------------------------------------------
// Hashing
// ---------------------------------------------------------------------------

/// The writes that hash a string: its UTF-8 bytes, then the byte `0xFF`.
pub open spec fn str_writes(s: Seq<char>) -> Seq<Seq<u8>> {
    seq![utf8(s), seq![0xFFu8]]
}

/// The writes that hash a signed integer: its little-endian bytes.
pub open spec fn i64_writes(i: i64) -> Seq<Seq<u8>> {
    seq![le_bytes(i as u64)]
}

/// The writes that hash a JSON number: a kind byte (0 for a number that
/// fits `i64`, 1 for a larger unsigned one, 2 for a float) and the
/// number's 64 bits.
pub open spec fn num_writes(n: NumV) -> Seq<Seq<u8>> {
    match n {
        NumV::PosInt(u) => if u <= i64::MAX as u64 {
            seq![seq![2u8], seq![0u8], le_bytes(u)]
        } else {
            seq![seq![2u8], seq![1u8], le_bytes(u)]
        },
        NumV::NegInt(i) => seq![seq![2u8], seq![0u8], le_bytes(i as u64)],
        NumV::Float { bits, .. } => seq![seq![2u8], seq![2u8], le_bytes(bits)],
    }
}

/// The writes that hash a JSON value: a tag byte per kind, then the
/// contents (collections prefixed by their length).
pub open spec fn json_writes(j: Json) -> Seq<Seq<u8>>
    decreases j, 0int,
{
    match j {
        Json::Null => seq![seq![0u8]],
        Json::Bool(b) => seq![seq![1u8], seq![if b { 1u8 } else { 0u8 }]],
        Json::Num(n) => num_writes(n),
        Json::Str(s) => seq![seq![3u8]] + str_writes(s),
        Json::Arr(a) => seq![seq![4u8], le_bytes(a.len() as u64)] + items_writes(a, a.len() as int),
        Json::Obj(es) => seq![seq![5u8], le_bytes(es.len() as u64)] + entries_writes(es, es.len() as int),
    }
}

/// The writes of the first `n` items.
pub open spec fn items_writes(a: Seq<Json>, n: int) -> Seq<Seq<u8>>
    decreases a, n,
{
    if n <= 0 || n > a.len() {
        Seq::empty()
    } else {
        items_writes(a, n - 1) + json_writes(a[n - 1])
    }
}

/// The writes of the first `n` entries: each key, then its value.
pub open spec fn entries_writes(es: Seq<(Seq<char>, Json)>, n: int) -> Seq<Seq<u8>>
    decreases es, n,
{
    if n <= 0 || n > es.len() {
        Seq::empty()
    } else {
        proof {
            assert(decreases_to!(es => es[n - 1]));
        }
        let e = es[n - 1];
        entries_writes(es, n - 1) + str_writes(e.0) + json_writes(e.1)
    }
}

fn write_bytes(h: &mut DefaultHasher, bytes: Vec<u8>)
    ensures
        final(h)@ == old(h)@.push(bytes@),
{
    h.write(bytes.as_slice());
}

fn write_byte(h: &mut DefaultHasher, b: u8)
    ensures
        final(h)@ == old(h)@.push(seq![b]),
{
    let mut v: Vec<u8> = Vec::new();
    v.push(b);
    assert(v@ =~= seq![b]);
    write_bytes(h, v);
}

fn write_u64(h: &mut DefaultHasher, x: u64)
    ensures
        final(h)@ == old(h)@.push(le_bytes(x)),
{
    let mut v: Vec<u8> = Vec::new();
    push_le_bytes(&mut v, x);
    assert(v@ =~= le_bytes(x));
    write_bytes(h, v);
}

fn write_str(h: &mut DefaultHasher, s: &str)
    ensures
        final(h)@ == old(h)@ + str_writes(s@),
{
    write_bytes(h, utf8_bytes(s));
    write_byte(h, 0xFF);
    assert(h@ =~= old(h)@ + str_writes(s@));
}

fn write_num(h: &mut DefaultHasher, n: &JsonNumber)
    ensures
        final(h)@ == old(h)@ + num_writes(crate::json::num_view(*n)),
{
    write_byte(h, 2);
    match n {
        JsonNumber::PosInt(u) => {
            if *u <= 0x7fff_ffff_ffff_ffffu64 {
                write_byte(h, 0);
            } else {
                write_byte(h, 1);
            }
            write_u64(h, *u);
        },
        JsonNumber::NegInt(i) => {
            write_byte(h, 0);
            write_u64(h, *i as u64);
        },
        JsonNumber::Float { bits, .. } => {
            write_byte(h, 2);
            write_u64(h, *bits);
        },
    }
    assert(h@ =~= old(h)@ + num_writes(crate::json::num_view(*n)));
}

/// Feeds a JSON value into a hasher.
pub fn hash_json_value(value: &JsonValue, h: &mut DefaultHasher)
    ensures
        final(h)@ == old(h)@ + json_writes(value@),
    decreases value,
{
    broadcast use group_json_view;

    let ghost start = h@;
    match value {
        JsonValue::Null => {
            write_byte(h, 0);
            assert(h@ =~= start + json_writes(value@));
        },
        JsonValue::Bool(b) => {
            write_byte(h, 1);
            write_byte(h, if *b { 1 } else { 0 });
            assert(h@ =~= start + json_writes(value@));
        },
        JsonValue::Number(n) => write_num(h, n),
        JsonValue::Str(s) => {
            write_byte(h, 3);
            write_str(h, s.as_str());
            assert(h@ =~= start + json_writes(value@));
        },
        JsonValue::Array(a) => {
            let ghost av = values_view(a@);
            write_byte(h, 4);
            write_u64(h, a.len() as u64);
            let ghost head = h@;
            let mut i: usize = 0;
            while i < a.len()
                invariant
                    i <= a.len(),
                    *value == JsonValue::Array(*a),
                    av == values_view(a@),
                    h@ == head + items_writes(av, i as int),
                decreases a.len() - i,
            {
                proof {
                    assert(decreases_to!(*value => (*value)->Array_0));
                    assert(decreases_to!((*value)->Array_0 => (*value)->Array_0@));
                    assert(decreases_to!(a@ => a@[i as int]));
                }
                hash_json_value(&a[i], h);
                proof {
                    assert(av[i as int] == a@[i as int]@);
                    assert(h@ =~= head + items_writes(av, i + 1));
                }
                i = i + 1;
            }
            assert(h@ =~= start + json_writes(value@));
        },
        JsonValue::Object(es) => {
            let ghost ev = entries_view(es@);
            write_byte(h, 5);
            write_u64(h, es.len() as u64);
            let ghost head = h@;
            let mut i: usize = 0;
            while i < es.len()
                invariant
                    i <= es.len(),
                    *value == JsonValue::Object(*es),
                    ev == entries_view(es@),
                    h@ == head + entries_writes(ev, i as int),
                decreases es.len() - i,
            {
                proof {
                    assert(decreases_to!(*value => (*value)->Object_0));
                    assert(decreases_to!((*value)->Object_0 => (*value)->Object_0@));
                    assert(decreases_to!(es@ => es@[i as int]));
                    assert(decreases_to!(es@[i as int] => es@[i as int].1));
                }
                write_str(h, es[i].0.as_str());
                hash_json_value(&es[i].1, h);
                proof {
                    assert(ev[i as int] == (es@[i as int].0@, es@[i as int].1@));
                    assert(h@ =~= head + entries_writes(ev, i + 1));
                }
                i = i + 1;
            }
            assert(h@ =~= start + json_writes(value@));
        },
    }
}

/// The first hash pass over a non-message event.
pub open spec fn first_pass(self_id: i64, ty: Seq<char>, sub_type: Seq<char>, ts: i64, extra: Json) -> Seq<Seq<u8>> {
    i64_writes(self_id) + str_writes(ty) + str_writes(sub_type) + i64_writes(ts) + json_writes(extra)
}

/// The second hash pass, seeded with the first pass's result.
pub open spec fn second_pass(lo: u64, self_id: i64, ts: i64, extra: Json) -> Seq<Seq<u8>> {
    seq![le_bytes(lo)] + i64_writes(self_id) + i64_writes(ts) + json_writes(extra)
}

/// The 128-bit fingerprint of a non-message event: the second pass's hash
/// in the high 64 bits, the first pass's in the low 64 bits.
pub open spec fn non_message_fingerprint(self_id: i64, ty: Seq<char>, sub_type: Seq<char>, ts: i64, extra: Json) -> u128 {
    let lo = DefaultHasher::spec_finish(first_pass(self_id, ty, sub_type, ts, extra));
    let hi = DefaultHasher::spec_finish(second_pass(lo, self_id, ts, extra));
    (hi as nat * 0x1_0000_0000_0000_0000 + lo as nat) as u128
}

/// Fingerprints a non-message event.
pub fn hash_non_message(self_id: i64, event_type: &str, sub_type: &str, timestamp: i64, extra: &JsonValue) -> (r: u128)
    ensures
        r == non_message_fingerprint(self_id, event_type@, sub_type@, timestamp, extra@),
{
    let mut h = DefaultHasher::new();
    write_u64(&mut h, self_id as u64);
    write_str(&mut h, event_type);
    write_str(&mut h, sub_type);
    write_u64(&mut h, timestamp as u64);
    hash_json_value(extra, &mut h);
    assert(h@ =~= first_pass(self_id, event_type@, sub_type@, timestamp, extra@));
    let lo = h.finish();
    let mut h2 = DefaultHasher::new();
    write_u64(&mut h2, lo);
    write_u64(&mut h2, self_id as u64);
    write_u64(&mut h2, timestamp as u64);
    hash_json_value(extra, &mut h2);
    assert(h2@ =~= second_pass(lo, self_id, timestamp, extra@));
    let hi = h2.finish();
    (hi as u128) * 0x1_0000_0000_0000_0000u128 + (lo as u128)
}

/// The fingerprint of an event: a message by (account, message id); a
/// notice or request by (account, type, sub-type, second) with its extra
/// data hashed in; a meta event by (account, type, second) alone, so that
/// the same heartbeat from two adapters is one event.
pub open spec fn fingerprint_spec(e: EventV) -> u128 {
    match e {
        EventV::Message(m) => ((m.self_id as u64) as nat * 0x1_0000_0000_0000_0000 + (
        m.message_id as u64) as nat) as u128,
        EventV::Notice(o) => other_fingerprint(o),
        EventV::Request(o) => other_fingerprint(o),
        EventV::Meta(o) => non_message_fingerprint(o.self_id, o.kind, Seq::empty(), o.time.secs(), Json::Null),
    }
}

/// A 128-bit value made of a high and a low 64-bit half determines both
/// halves.
proof fn lemma_pair_injective(h1: u64, l1: u64, h2: u64, l2: u64)
    requires
        h1 as nat * 0x1_0000_0000_0000_0000 + l1 as nat == h2 as nat * 0x1_0000_0000_0000_0000 + l2 as nat,
    ensures
        h1 == h2,
        l1 == l2,
{
    if h1 < h2 {
        assert(h1 as nat * 0x1_0000_0000_0000_0000 + 0x1_0000_0000_0000_0000 <= h2 as nat * 0x1_0000_0000_0000_0000)
            by (nonlinear_arith)
            requires
                h1 < h2,
        ;
    } else if h2 < h1 {
        assert(h2 as nat * 0x1_0000_0000_0000_0000 + 0x1_0000_0000_0000_0000 <= h1 as nat * 0x1_0000_0000_0000_0000)
            by (nonlinear_arith)
            requires
                h2 < h1,
        ;
    }
}

/// The hasher's 64-bit result on the bytes a non-message event is hashed
/// from: its account, type, sub-type, second and extra data.
pub open spec fn event_bytes_hash(self_id: i64, ty: Seq<char>, sub_type: Seq<char>, ts: i64, extra: Json) -> u64 {
    DefaultHasher::spec_finish(
        i64_writes(self_id) + str_writes(ty) + str_writes(sub_type) + i64_writes(ts) + json_writes(extra),
    )
}

proof fn lemma_low_half(self_id: i64, ty: Seq<char>, sub_type: Seq<char>, ts: i64, extra: Json)
    ensures
        non_message_fingerprint(self_id, ty, sub_type, ts, extra) as nat % 0x1_0000_0000_0000_0000
            == event_bytes_hash(self_id, ty, sub_type, ts, extra) as nat,
{
    let lo = DefaultHasher::spec_finish(first_pass(self_id, ty, sub_type, ts, extra));
    let hi = DefaultHasher::spec_finish(second_pass(lo, self_id, ts, extra));
    assert(first_pass(self_id, ty, sub_type, ts, extra) == i64_writes(self_id) + str_writes(ty) + str_writes(
        sub_type,
    ) + i64_writes(ts) + json_writes(extra));
    assert((hi as nat) * 0x1_0000_0000_0000_0000 + (lo as nat) < 0x1_0000_0000_0000_0000_0000_0000_0000_0000)
        by (nonlinear_arith);
    assert(((hi as nat) * 0x1_0000_0000_0000_0000 + (lo as nat)) % 0x1_0000_0000_0000_0000 == lo as nat)
        by (nonlinear_arith);
}

/// Notices are keyed on their extra data as well as on account, type,
/// sub-type and second: two notices (or two requests) share a fingerprint
/// only when the hasher gives the same result for the bytes of both, which
/// carry each event's extra data; notices that differ only in their extra
/// data are told apart unless the hash collides.
pub proof fn lemma_notice_fingerprint_covers_extra(a: OtherEventV, b: OtherEventV)
    ensures
        fingerprint_spec(EventV::Notice(a)) == fingerprint_spec(EventV::Notice(b)) ==> event_bytes_hash(
            a.self_id,
            a.kind,
            a.sub_type,
            a.time.secs(),
            a.extra,
        ) == event_bytes_hash(b.self_id, b.kind, b.sub_type, b.time.secs(), b.extra),
        fingerprint_spec(EventV::Request(a)) == fingerprint_spec(EventV::Request(b)) ==> event_bytes_hash(
            a.self_id,
            a.kind,
            a.sub_type,
            a.time.secs(),
            a.extra,
        ) == event_bytes_hash(b.self_id, b.kind, b.sub_type, b.time.secs(), b.extra),
{
    lemma_low_half(a.self_id, a.kind, a.sub_type, a.time.secs(), a.extra);
    lemma_low_half(b.self_id, b.kind, b.sub_type, b.time.secs(), b.extra);
}

/// Message events are keyed on (account, message id) exactly: two messages
/// share a fingerprint if and only if they share both.
pub proof fn lemma_message_fingerprints_distinct(a: EventV, b: EventV)
    requires
        a is Message,
        b is Message,
    ensures
        fingerprint_spec(a) == fingerprint_spec(b) <==> (a->Message_0.self_id == b->Message_0.self_id
            && a->Message_0.message_id == b->Message_0.message_id),
{
    let (ma, mb) = (a->Message_0, b->Message_0);
    let (h1, l1) = (ma.self_id as u64, ma.message_id as u64);
    let (h2, l2) = (mb.self_id as u64, mb.message_id as u64);
    assert((h1 as nat) * 0x1_0000_0000_0000_0000 + (l1 as nat) < 0x1_0000_0000_0000_0000_0000_0000_0000_0000)
        by (nonlinear_arith);
    assert((h2 as nat) * 0x1_0000_0000_0000_0000 + (l2 as nat) < 0x1_0000_0000_0000_0000_0000_0000_0000_0000)
        by (nonlinear_arith);
    if fingerprint_spec(a) == fingerprint_spec(b) {
        lemma_pair_injective(h1, l1, h2, l2);
        let (x1, y1, x2, y2) = (ma.self_id, ma.message_id, mb.self_id, mb.message_id);
        assert(x1 as u64 == x2 as u64 ==> x1 == x2) by (bit_vector);
        assert(y1 as u64 == y2 as u64 ==> y1 == y2) by (bit_vector);
    }
}

/// The fingerprint of a non-message event.
pub open spec fn other_fingerprint(o: OtherEventV) -> u128 {
    non_message_fingerprint(o.self_id, o.kind, o.sub_type, o.time.secs(), o.extra)
}

/// Computes the fingerprint of an event.
pub fn fingerprint(event: &Event) -> (r: u128)
    ensures
        r == fingerprint_spec(event@),
{
    match event {
        Event::Message(msg) => {
            let hi = msg.self_id as u64;
            let lo = msg.message_id as u64;
            (hi as u128) * 0x1_0000_0000_0000_0000u128 + (lo as u128)
        },
        Event::Notice(n) => hash_non_message(
            n.self_id,
            n.notice_type.as_str(),
            n.sub_type.as_str(),
            n.time.timestamp(),
            &n.extra,
        ),
        Event::Request(r) => hash_non_message(
            r.self_id,
            r.request_type.as_str(),
            r.sub_type.as_str(),
            r.time.timestamp(),
            &r.extra,
        ),
        Event::Meta(m) => {
            proof {
                reveal_strlit("");
                assert(""@ =~= Seq::<char>::empty());
            }
            hash_non_message(m.self_id, m.meta_event_type.as_str(), "", m.time.timestamp(), &JsonValue::Null)
        },
    }
}

// ---------------------------------------------------------------------------
// The filter
// ---------------------------------------------------------------------------

#[verifier::external_type_specification]
#[verifier::external_body]
pub struct ExInstant(std::time::Instant);

/// The current instant of the monotonic clock.
///
/// Trusted: calls `std::time::Instant::now()`. Nothing is promised of the
/// value.
#[verifier::external_body]
pub(crate) fn instant_now() -> (r: std::time::Instant) {
    std::time::Instant::now()
}

/// Nanoseconds elapsed on the monotonic clock since `start`.
///
/// Trusted: calls `Instant::elapsed` and reads the duration in
/// nanoseconds. The value depends on the clock; what holds of every value
/// is that a duration (whole seconds in a `u64`, then fewer than 10^9
/// nanoseconds) is below 2^64 seconds.
#[verifier::external_body]
pub(crate) fn elapsed_nanos(start: &std::time::Instant) -> (r: u128)
    ensures
        r < 18_446_744_073_709_551_616u128 * 1_000_000_000u128,
{
    start.elapsed().as_nanos()
}

/// Time-windowed event deduplication filter.
pub struct DedupFilter {
    /// Window in seconds: a fingerprint seen less than this long ago makes
    /// an event a duplicate.
    window_secs: u64,
    /// Reference point of the monotonic clock.
    start: std::time::Instant,
    /// Fingerprints with the time (nanoseconds since `start`) they were
    /// last recorded.
    seen: HashMap<u128, u128>,
    /// Duplicates suppressed.
    duplicates: u64,
    /// Events checked.
    checked: u64,
    /// Time of the last eviction sweep (nanoseconds since `start`).
    last_eviction_ns: u64,
    /// Minimum seconds between eviction sweeps.
    eviction_interval_secs: u64,
    /// The latest clock reading a check was made at (nanoseconds since
    /// `start`).
    clock: u128,
}

/// The mathematical form of a filter.
pub struct DedupV {
    pub window_secs: u64,
    pub seen: Map<u128, u128>,
    pub duplicates: u64,
    pub checked: u64,
    pub last_eviction_ns: u64,
    pub eviction_interval_secs: u64,
    pub clock: u128,
}

impl View for DedupFilter {
    type V = DedupV;

    closed spec fn view(&self) -> DedupV {
        DedupV {
            window_secs: self.window_secs,
            seen: self.seen@,
            duplicates: self.duplicates,
            checked: self.checked,
            last_eviction_ns: self.last_eviction_ns,
            eviction_interval_secs: self.eviction_interval_secs,
            clock: self.clock,
        }
    }
}

/// Nanoseconds from `ts` to `now`, zero when `now` is earlier.
pub open spec fn elapsed(now: u128, ts: u128) -> int {
    if now >= ts {
        now - ts
    } else {
        0
    }
}

/// Whether a time recorded at `ts` is still within the window at `now`.
pub open spec fn live(window_secs: u64, now: u128, ts: u128) -> bool {
    elapsed(now, ts) < window_secs * 1_000_000_000
}

/// The entries still within the window at `now`.
pub open spec fn live_entries(s: Map<u128, u128>, now: u128, window_secs: u64) -> Map<u128, u128> {
    Map::new(|fp: u128| s.contains_key(fp) && live(window_secs, now, s[fp]), |fp: u128| s[fp])
}

/// The seconds between eviction sweeps for a window: the window, at least
/// ten seconds.
pub open spec fn interval_for(window_secs: u64) -> u64 {
    if window_secs > 10 {
        window_secs
    } else {
        10
    }
}

/// Whether an eviction sweep is due at `now`: the sweep interval (in
/// nanoseconds, read as a 64-bit count) has passed since the last sweep
/// (the clock, too, read as a 64-bit count of nanoseconds).
pub open spec fn sweep_due(d: DedupV, now: u128) -> bool {
    let n = now as u64;
    let interval = (d.eviction_interval_secs * 1_000_000_000) as u64;
    (if n >= d.last_eviction_ns {
        n - d.last_eviction_ns
    } else {
        0
    }) >= interval
}

/// The filter after recording a fingerprint at `now` and sweeping when due.
pub open spec fn record(d: DedupV, fp: u128, now: u128) -> DedupV {
    let s = d.seen.insert(fp, now);
    if sweep_due(d, now) {
        DedupV { seen: live_entries(s, now, d.window_secs), last_eviction_ns: now as u64, ..d }
    } else {
        DedupV { seen: s, ..d }
    }
}

/// `x + 1`, wrapping at 2^64.
pub open spec fn inc(x: u64) -> u64 {
    if x == u64::MAX {
        0
    } else {
        (x + 1) as u64
    }
}

/// Whether an event with fingerprint `fp` at `now` is a duplicate: its
/// fingerprint was recorded within the window.
pub open spec fn is_dup(d: DedupV, fp: u128, now: u128) -> bool {
    d.seen.contains_key(fp) && live(d.window_secs, now, d.seen[fp])
}

/// The filter after checking an event with fingerprint `fp` at `now`: the
/// check is counted; a duplicate is counted and changes nothing else; a
/// new event is recorded.
pub open spec fn check_step(d: DedupV, fp: u128, now: u128) -> DedupV {
    let d1 = DedupV { checked: inc(d.checked), ..d };
    if is_dup(d, fp, now) {
        DedupV { duplicates: inc(d.duplicates), ..d1 }
    } else {
        record(d1, fp, now)
    }
}

/// Within the window, a repeated event is a duplicate: an event that was
/// new when checked at `t1` is reported as a duplicate when it comes again
/// at a time `t2` less than the window later.
pub proof fn lemma_repeat_within_window(d: DedupV, fp: u128, t1: u128, t2: u128)
    requires
        t1 <= t2,
        t2 - t1 < d.window_secs * 1_000_000_000,
        !is_dup(d, fp, t1),
    ensures
        is_dup(check_step(d, fp, t1), fp, t2),
{
    let d1 = DedupV { checked: inc(d.checked), ..d };
    let s = d1.seen.insert(fp, t1);
    assert(s.contains_key(fp) && s[fp] == t1);
    if sweep_due(d1, t1) {
        assert(live_entries(s, t1, d.window_secs).contains_key(fp));
    }
}

/// A fingerprint never recorded is not a duplicate.
pub proof fn lemma_first_sighting(d: DedupV, fp: u128, now: u128)
    requires
        !d.seen.contains_key(fp),
    ensures
        !is_dup(d, fp, now),
        check_step(d, fp, now).duplicates == d.duplicates,
        check_step(d, fp, now).checked == inc(d.checked),
{
}

/// The filter after a run of checks, each a fingerprint with the clock
/// reading it was checked at.
pub open spec fn run_checks(d: DedupV, calls: Seq<(u128, u128)>) -> DedupV
    decreases calls.len(),
{
    if calls.len() == 0 {
        d
    } else {
        check_step(run_checks(d, calls.drop_last()), calls.last().0, calls.last().1)
    }
}

/// Whether check `i` of a run reports a duplicate.
pub open spec fn dup_in_run(d: DedupV, calls: Seq<(u128, u128)>, i: int) -> bool {
    is_dup(run_checks(d, calls.take(i)), calls[i].0, calls[i].1)
}

/// The latest check before `n` of the fingerprint `fp` that reported a new
/// event.
pub open spec fn last_new(d: DedupV, calls: Seq<(u128, u128)>, n: int, fp: u128) -> Option<int>
    decreases n,
{
    if n <= 0 {
        None
    } else if calls[n - 1].0 == fp && !dup_in_run(d, calls, n - 1) {
        Some(n - 1)
    } else {
        last_new(d, calls, n - 1, fp)
    }
}

/// Whether the clock readings of a run never go backwards.
pub open spec fn readings_ordered(calls: Seq<(u128, u128)>) -> bool {
    forall|i: int, j: int| 0 <= i <= j < calls.len() ==> #[trigger] calls[i].1 <= #[trigger] calls[j].1
}

proof fn lemma_last_new_range(d: DedupV, calls: Seq<(u128, u128)>, n: int, fp: u128)
    requires
        n <= calls.len(),
    ensures
        last_new(d, calls, n, fp) matches Some(j) ==> 0 <= j < n && calls[j].0 == fp,
    decreases n,
{
    if n > 0 {
        lemma_last_new_range(d, calls, n - 1, fp);
    }
}

proof fn lemma_run_step(d: DedupV, calls: Seq<(u128, u128)>, n: int)
    requires
        0 < n <= calls.len(),
    ensures
        run_checks(d, calls.take(n)) == check_step(run_checks(d, calls.take(n - 1)), calls[n - 1].0, calls[n - 1].1),
{
    assert(calls.take(n).drop_last() =~= calls.take(n - 1));
    assert(calls.take(n).last() == calls[n - 1]);
}

/// What the table holds after `n` checks of a run from an empty table: each
/// fingerprint it holds maps to the reading of the latest check of it that
/// was new, and a fingerprint whose latest new check it no longer holds
/// was already outside the window at the last reading.
proof fn lemma_run_table(d: DedupV, calls: Seq<(u128, u128)>, n: int)
    requires
        d.seen == Map::<u128, u128>::empty(),
        readings_ordered(calls),
        0 <= n <= calls.len(),
    ensures
        run_checks(d, calls.take(n)).window_secs == d.window_secs,
        forall|fp: u128| #[trigger]
            run_checks(d, calls.take(n)).seen.contains_key(fp) ==> (last_new(d, calls, n, fp) matches Some(j)
                && run_checks(d, calls.take(n)).seen[fp] == calls[j].1),
        forall|fp: u128|
            #[trigger] last_new(d, calls, n, fp) matches Some(j) ==> (!run_checks(d, calls.take(n)).seen.contains_key(fp)
                ==> n > 0 && !live(d.window_secs, calls[n - 1].1, calls[j].1)),
    decreases n,
{
    if n == 0 {
        assert(calls.take(0) =~= Seq::<(u128, u128)>::empty());
    } else {
        let m = n - 1;
        lemma_run_table(d, calls, m);
        lemma_run_step(d, calls, n);
        let prev = run_checks(d, calls.take(m));
        let cur = run_checks(d, calls.take(n));
        let (fp0, t) = calls[m];
        let w = d.window_secs;
        let dup = dup_in_run(d, calls, m);
        assert forall|fp: u128| #[trigger] cur.seen.contains_key(fp) implies (last_new(d, calls, n, fp) matches Some(j)
            && cur.seen[fp] == calls[j].1) by {
            lemma_last_new_range(d, calls, m, fp);
            if dup || fp != fp0 {
                assert(prev.seen.contains_key(fp));
            }
        }
        assert forall|fp: u128|
            #[trigger] last_new(d, calls, n, fp) is Some implies (!cur.seen.contains_key(fp) ==> n > 0 && !live(
                w,
                calls[n - 1].1,
                calls[last_new(d, calls, n, fp)->0].1,
            )) by {
            lemma_last_new_range(d, calls, m, fp);
            let j = last_new(d, calls, n, fp)->0;
            if !dup && fp == fp0 {
                assert(j == m);
            } else {
                assert(last_new(d, calls, n, fp) == last_new(d, calls, m, fp));
                if prev.seen.contains_key(fp) {
                    assert(prev.seen[fp] == calls[j].1);
                } else {
                    assert(calls[j].1 <= calls[m - 1].1);
                    assert(calls[m - 1].1 <= calls[m].1);
                }
            }
        }
    }
}

/// Over a run of checks from an empty filter, with clock readings that
/// never go backwards, a check reports a duplicate exactly when an earlier
/// check of the same fingerprint reported a new event less than the window
/// before, counting from the latest such check (duplicates do not renew
/// the window).
pub proof fn lemma_run_duplicates(d: DedupV, calls: Seq<(u128, u128)>, i: int)
    requires
        d.seen == Map::<u128, u128>::empty(),
        readings_ordered(calls),
        0 <= i < calls.len(),
    ensures
        dup_in_run(d, calls, i) <==> (last_new(d, calls, i, calls[i].0) matches Some(j) && calls[i].1 - calls[j].1
            < d.window_secs * 1_000_000_000),
{
    lemma_run_table(d, calls, i);
    lemma_last_new_range(d, calls, i, calls[i].0);
    let fp = calls[i].0;
    let s = run_checks(d, calls.take(i)).seen;
    if last_new(d, calls, i, fp) is Some {
        let j = last_new(d, calls, i, fp)->0;
        assert(calls[j].1 <= calls[i].1);
        if !s.contains_key(fp) {
            assert(calls[j].1 <= calls[i - 1].1);
            assert(calls[i - 1].1 <= calls[i].1);
        }
    }
}

impl DedupFilter {
    /// A filter with the given window, in seconds.
    pub fn new(window_secs: u64) -> (r: DedupFilter)
        ensures
            r@.window_secs == window_secs,
            r@.seen == Map::<u128, u128>::empty(),
            r@.duplicates == 0,
            r@.checked == 0,
            r@.last_eviction_ns == 0,
            r@.clock == 0,
            r@.eviction_interval_secs == interval_for(window_secs),
    {
        DedupFilter {
            window_secs,
            start: instant_now(),
            seen: HashMap::new(),
            duplicates: 0,
            checked: 0,
            last_eviction_ns: 0,
            clock: 0,
            eviction_interval_secs: if window_secs > 10 {
                window_secs
            } else {
                10
            },
        }
    }

    /// Removes the entries no longer within the window at `now`.
    fn evict(&mut self, now: u128)
        ensures
            final(self)@ == (DedupV { seen: live_entries(old(self)@.seen, now, old(self)@.window_secs), ..old(self)@ }),
    {
        broadcast use vstd::std_specs::hash::group_hash_axioms;
        let ghost m = self.seen@;
        let ghost w = self.window_secs;
        let window: u128 = self.window_secs as u128 * 1_000_000_000u128;
        let mut kept: HashMap<u128, u128> = HashMap::new();
        let ghost mut n: int = 0;
        for (fp, ts) in it: self.seen.iter()
            invariant
                m == self.seen@,
                w == self.window_secs,
                window == w * 1_000_000_000,
                n == it.index(),
                it.seq() == spec_hash_map_iter(&self.seen).remaining(),
                forall|k: u128| #[trigger]
                    kept@.contains_key(k) ==> m.contains_key(k) && kept@[k] == m[k] && live(w, now, m[k]),
                forall|j: int|
                    0 <= j < n && live(w, now, m[*spec_hash_map_iter(&self.seen).remaining()[j].0])
                        ==> #[trigger] kept@.contains_key(*spec_hash_map_iter(&self.seen).remaining()[j].0),
        {
            proof {
                let v = spec_hash_map_iter(&self.seen).remaining();
                assert(m.contains_key(*v[n].0) && m[*v[n].0] == *v[n].1);
            }
            let el: u128 = if now >= *ts {
                now - *ts
            } else {
                0
            };
            if el < window {
                kept.insert(*fp, *ts);
            }
            proof {
                n = n + 1;
            }
        }
        proof {
            let v = spec_hash_map_iter(&self.seen).remaining();
            assert forall|k: u128| #[trigger] m.contains_key(k) && live(w, now, m[k]) implies kept@.contains_key(k) by {
                assert(v.contains((&k, &m[k])));
                let j = choose|j: int| 0 <= j < v.len() && v[j] == (&k, &m[k]);
                assert(*v[j].0 == k);
            }
            assert(kept@ =~= live_entries(m, now, w));
        }
        self.seen = kept;
    }

    /// Sweeps expired entries when a sweep is due.
    fn maybe_evict(&mut self, now: u128)
        ensures
            final(self)@ == (if sweep_due(old(self)@, now) {
                DedupV {
                    seen: live_entries(old(self)@.seen, now, old(self)@.window_secs),
                    last_eviction_ns: now as u64,
                    ..old(self)@
                }
            } else {
                old(self)@
            }),
    {
        let now_ns = now as u64;
        let interval_ns = (self.eviction_interval_secs as u128 * 1_000_000_000u128) as u64;
        let since = now_ns.saturating_sub(self.last_eviction_ns);
        if since < interval_ns {
            return;
        }
        self.last_eviction_ns = now_ns;
        self.evict(now);
    }

    /// Checks an event at time `now` (nanoseconds on the filter's clock):
    /// returns whether it is a duplicate to drop, and records it otherwise.
    pub fn is_duplicate_at(&mut self, event: &Event, now: u128) -> (r: bool)
        ensures
            r == is_dup(old(self)@, fingerprint_spec(event@), now),
            final(self)@ == check_step(old(self)@, fingerprint_spec(event@), now),
    {
        broadcast use vstd::std_specs::hash::group_hash_axioms;
        self.checked = self.checked.wrapping_add(1);
        let fp = fingerprint(event);
        match self.seen.get(&fp) {
            Some(ts) => {
                let ts: u128 = *ts;
                let el: u128 = if now >= ts {
                    now - ts
                } else {
                    0
                };
                if el < self.window_secs as u128 * 1_000_000_000u128 {
                    self.duplicates = self.duplicates.wrapping_add(1);
                    return true;
                }
            },
            None => {},
        }
        self.seen.insert(fp, now);
        self.maybe_evict(now);
        false
    }

    /// Checks an event now: returns whether it is a duplicate to drop, and
    /// records it otherwise.
    ///
    /// The check is made at the monotonic clock's reading, or at the
    /// filter's clock when that is later (a monotonic clock never goes
    /// back, so it is not); the time used becomes the filter's clock, so
    /// successive checks are made at times that never go backwards.
    pub fn is_duplicate(&mut self, event: &Event) -> (r: bool)
        ensures
            exists|now: u128|
                now >= old(self)@.clock && r == is_dup(old(self)@, fingerprint_spec(event@), now) && final(self)@
                    == (DedupV { clock: now, ..check_step(old(self)@, fingerprint_spec(event@), now) }),
    {
        let reading = elapsed_nanos(&self.start);
        let now = if reading < self.clock {
            self.clock
        } else {
            reading
        };
        let r = self.is_duplicate_at(event, now);
        self.clock = now;
        r
    }

    /// Duplicates suppressed so far.
    pub fn duplicates_total(&self) -> (r: u64)
        ensures
            r == self@.duplicates,
    {
        self.duplicates
    }

    /// Events checked so far.
    pub fn checked_total(&self) -> (r: u64)
        ensures
            r == self@.checked,
    {
        self.checked
    }
}

} // verus!
