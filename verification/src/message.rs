//! Message segments: the parts of a chat message (text, mentions, images,
//! ...) in a backend-neutral form, their CQ-code rendering and their JSON
//! form (`{"type": ..., "data": {...}}`).

use vstd::prelude::*;

use crate::json::{
    group_json_view, jobj, jstr, object_from, Json, JsonValue, entries_view,
};
use crate::text::{owned, push_chars, push_str, string_from_chars, chars_of};

verus! {

/// A segment of a message.
#[derive(Debug, Clone, PartialEq)]
pub enum MessageSegment {
    /// Plain text.
    Text { text: String },
    /// An image: a URL, file path or base64 payload, and an optional URL.
    Image { file: String, url: Option<String> },
    /// A mention of a user id, or `all`.
    At { qq: String },
    /// A face / emoji.
    Face { id: String },
    /// A reply to (quote of) a message.
    Reply { id: String },
    /// A voice record.
    Record { file: String, url: Option<String> },
    /// A video.
    Video { file: String, url: Option<String> },
    /// A forwarded message node.
    Forward { id: String },
    /// A JSON rich message.
    Json { data: String },
    /// An XML rich message.
    Xml { data: String },
    /// A poke.
    Poke { poke_type: String, id: String },
    /// Any other segment.
    Unknown,
}

/// The mathematical form of a message segment.
pub enum Seg {
    Text { text: Seq<char> },
    Image { file: Seq<char>, url: Option<Seq<char>> },
    At { qq: Seq<char> },
    Face { id: Seq<char> },
    Reply { id: Seq<char> },
    Record { file: Seq<char>, url: Option<Seq<char>> },
    Video { file: Seq<char>, url: Option<Seq<char>> },
    Forward { id: Seq<char> },
    Json { data: Seq<char> },
    Xml { data: Seq<char> },
    Poke { poke_type: Seq<char>, id: Seq<char> },
    Unknown,
}

/// The characters of an optional string.
pub open spec fn opt_str_view(o: Option<String>) -> Option<Seq<char>> {
    match o {
        Some(s) => Some(s@),
        None => None,
    }
}

impl View for MessageSegment {
    type V = Seg;

    open spec fn view(&self) -> Seg {
        match self {
            MessageSegment::Text { text } => Seg::Text { text: text@ },
            MessageSegment::Image { file, url } => Seg::Image { file: file@, url: opt_str_view(*url) },
            MessageSegment::At { qq } => Seg::At { qq: qq@ },
            MessageSegment::Face { id } => Seg::Face { id: id@ },
            MessageSegment::Reply { id } => Seg::Reply { id: id@ },
            MessageSegment::Record { file, url } => Seg::Record {
                file: file@,
                url: opt_str_view(*url),
            },
            MessageSegment::Video { file, url } => Seg::Video { file: file@, url: opt_str_view(*url) },
            MessageSegment::Forward { id } => Seg::Forward { id: id@ },
            MessageSegment::Json { data } => Seg::Json { data: data@ },
            MessageSegment::Xml { data } => Seg::Xml { data: data@ },
            MessageSegment::Poke { poke_type, id } => Seg::Poke { poke_type: poke_type@, id: id@ },
            MessageSegment::Unknown => Seg::Unknown,
        }
    }
}

/// The mathematical form of a list of segments.
pub open spec fn segs_view(s: Seq<MessageSegment>) -> Seq<Seg> {
    Seq::new(s.len(), |i: int| s[i]@)
}

/// A copy of an optional string.
pub fn copy_opt_string(o: &Option<String>) -> (r: Option<String>)
    ensures
        opt_str_view(r) == opt_str_view(*o),
{
    match o {
        Some(s) => Some(s.clone()),
        None => None,
    }
}

impl MessageSegment {
    /// A text segment.
    pub fn text(text: &str) -> (r: MessageSegment)
        ensures
            r@ == (Seg::Text { text: text@ }),
    {
        MessageSegment::Text { text: owned(text) }
    }

    /// A mention segment.
    pub fn at(qq: &str) -> (r: MessageSegment)
        ensures
            r@ == (Seg::At { qq: qq@ }),
    {
        MessageSegment::At { qq: owned(qq) }
    }

    /// An image segment from a URL or file, with no separate URL.
    pub fn image(file: &str) -> (r: MessageSegment)
        ensures
            r@ == (Seg::Image { file: file@, url: None }),
    {
        MessageSegment::Image { file: owned(file), url: None }
    }

    /// A copy of this segment.
    pub fn copy(&self) -> (r: MessageSegment)
        ensures
            r@ == self@,
    {
        match self {
            MessageSegment::Text { text } => MessageSegment::Text { text: text.clone() },
            MessageSegment::Image { file, url } => MessageSegment::Image {
                file: file.clone(),
                url: copy_opt_string(url),
            },
            MessageSegment::At { qq } => MessageSegment::At { qq: qq.clone() },
            MessageSegment::Face { id } => MessageSegment::Face { id: id.clone() },
            MessageSegment::Reply { id } => MessageSegment::Reply { id: id.clone() },
            MessageSegment::Record { file, url } => MessageSegment::Record {
                file: file.clone(),
                url: copy_opt_string(url),
            },
            MessageSegment::Video { file, url } => MessageSegment::Video {
                file: file.clone(),
                url: copy_opt_string(url),
            },
            MessageSegment::Forward { id } => MessageSegment::Forward { id: id.clone() },
            MessageSegment::Json { data } => MessageSegment::Json { data: data.clone() },
            MessageSegment::Xml { data } => MessageSegment::Xml { data: data.clone() },
            MessageSegment::Poke { poke_type, id } => MessageSegment::Poke {
                poke_type: poke_type.clone(),
                id: id.clone(),
            },
            MessageSegment::Unknown => MessageSegment::Unknown,
        }
    }
}

/// A copy of a list of segments.
pub fn copy_segments(s: &Vec<MessageSegment>) -> (r: Vec<MessageSegment>)
    ensures
        segs_view(r@) == segs_view(s@),
{
    let mut out: Vec<MessageSegment> = Vec::new();
    let mut i: usize = 0;
    while i < s.len()
        invariant
            i <= s.len(),
            out@.len() == i,
            forall|j: int| 0 <= j < i ==> (#[trigger] out@[j])@ == s@[j]@,
        decreases s.len() - i,
    {
        out.push(s[i].copy());
        i = i + 1;
    }
    assert(segs_view(out@) =~= segs_view(s@));
    out
}

// ---------------------------------------------------------------------------
// CQ-code rendering
// ---------------------------------------------------------------------------

/// The CQ-code rendering of one segment.
pub open spec fn cq_piece(s: Seg) -> Seq<char> {
    match s {
        Seg::Text { text } => text,
        Seg::At { qq } => "[CQ:at,qq="@ + qq + "]"@,
        Seg::Image { file, .. } => "[CQ:image,file="@ + file + "]"@,
        Seg::Face { id } => "[CQ:face,id="@ + id + "]"@,
        Seg::Reply { id } => "[CQ:reply,id="@ + id + "]"@,
        _ => "[CQ:unknown]"@,
    }
}

/// The CQ-code rendering of a list of segments: the pieces, concatenated.
pub open spec fn cq_string(s: Seq<Seg>) -> Seq<char>
    decreases s.len(),
{
    if s.len() == 0 {
        Seq::empty()
    } else {
        cq_string(s.drop_last()) + cq_piece(s.last())
    }
}

fn push_cq_piece(buf: &mut Vec<char>, seg: &MessageSegment)
    ensures
        final(buf)@ == old(buf)@ + cq_piece(seg@),
{
    let ghost start = buf@;
    match seg {
        MessageSegment::Text { text } => {
            push_str(buf, text.as_str());
        },
        MessageSegment::At { qq } => {
            push_str(buf, "[CQ:at,qq=");
            push_str(buf, qq.as_str());
            push_str(buf, "]");
            assert(buf@ =~= start + ("[CQ:at,qq="@ + qq@ + "]"@));
        },
        MessageSegment::Image { file, .. } => {
            push_str(buf, "[CQ:image,file=");
            push_str(buf, file.as_str());
            push_str(buf, "]");
            assert(buf@ =~= start + ("[CQ:image,file="@ + file@ + "]"@));
        },
        MessageSegment::Face { id } => {
            push_str(buf, "[CQ:face,id=");
            push_str(buf, id.as_str());
            push_str(buf, "]");
            assert(buf@ =~= start + ("[CQ:face,id="@ + id@ + "]"@));
        },
        MessageSegment::Reply { id } => {
            push_str(buf, "[CQ:reply,id=");
            push_str(buf, id.as_str());
            push_str(buf, "]");
            assert(buf@ =~= start + ("[CQ:reply,id="@ + id@ + "]"@));
        },
        _ => {
            push_str(buf, "[CQ:unknown]");
        },
    }
}

/// Renders a segment list as a CQ-code string: text as is, mentions,
/// images, faces and replies as `[CQ:...]` codes, anything else as
/// `[CQ:unknown]`.
pub fn segments_to_raw_string(segments: &[MessageSegment]) -> (r: String)
    ensures
        r@ == cq_string(segs_view(segments@)),
{
    let mut buf: Vec<char> = Vec::new();
    let mut i: usize = 0;
    while i < segments.len()
        invariant
            i <= segments.len(),
            buf@ == cq_string(segs_view(segments@).take(i as int)),
        decreases segments.len() - i,
    {
        push_cq_piece(&mut buf, &segments[i]);
        proof {
            let t = segs_view(segments@).take(i + 1);
            assert(t.drop_last() =~= segs_view(segments@).take(i as int));
        }
        i = i + 1;
    }
    assert(segs_view(segments@).take(segments.len() as int) =~= segs_view(segments@));
    string_from_chars(buf.as_slice())
}

// ---------------------------------------------------------------------------
// JSON form
// ---------------------------------------------------------------------------

/// The `data` object of a segment carrying a file and an optional URL.
pub open spec fn file_data_json(file: Seq<char>, url: Option<Seq<char>>) -> Json {
    match url {
        Some(u) => jobj(seq![("file"@, jstr(file)), ("url"@, jstr(u))]),
        None => jobj(seq![("file"@, jstr(file))]),
    }
}

/// The JSON form of a segment: `{"type": <name>, "data": {...}}`, with
/// absent URLs left out; the catch-all segment is `{"type": "Unknown"}`.
pub open spec fn seg_json(s: Seg) -> Json {
    match s {
        Seg::Text { text } => tagged("text"@, jobj(seq![("text"@, jstr(text))])),
        Seg::Image { file, url } => tagged("image"@, file_data_json(file, url)),
        Seg::At { qq } => tagged("at"@, jobj(seq![("qq"@, jstr(qq))])),
        Seg::Face { id } => tagged("face"@, jobj(seq![("id"@, jstr(id))])),
        Seg::Reply { id } => tagged("reply"@, jobj(seq![("id"@, jstr(id))])),
        Seg::Record { file, url } => tagged("record"@, file_data_json(file, url)),
        Seg::Video { file, url } => tagged("video"@, file_data_json(file, url)),
        Seg::Forward { id } => tagged("forward"@, jobj(seq![("id"@, jstr(id))])),
        Seg::Json { data } => tagged("json"@, jobj(seq![("data"@, jstr(data))])),
        Seg::Xml { data } => tagged("xml"@, jobj(seq![("data"@, jstr(data))])),
        Seg::Poke { poke_type, id } => tagged(
            "poke"@,
            jobj(seq![("type"@, jstr(poke_type)), ("id"@, jstr(id))]),
        ),
        Seg::Unknown => jobj(seq![("type"@, jstr("Unknown"@))]),
    }
}

/// `{"type": name, "data": data}`.
pub open spec fn tagged(name: Seq<char>, data: Json) -> Json {
    jobj(seq![("type"@, jstr(name)), ("data"@, data)])
}

fn kv(k: &str, v: JsonValue) -> (r: (String, JsonValue))
    ensures
        r.0@ == k@,
        r.1@ == v@,
{
    (owned(k), v)
}

fn str_json(s: &String) -> (r: JsonValue)
    ensures
        r@ == jstr(s@),
{
    JsonValue::Str(s.clone())
}

fn one_field(k: &str, v: &String) -> (r: JsonValue)
    ensures
        r@ == jobj(seq![(k@, jstr(v@))]),
{
    let mut kvs: Vec<(String, JsonValue)> = Vec::new();
    kvs.push(kv(k, str_json(v)));
    assert(entries_view(kvs@) =~= seq![(k@, jstr(v@))]);
    object_from(kvs)
}

fn tagged_json(name: &str, data: JsonValue) -> (r: JsonValue)
    ensures
        r@ == tagged(name@, data@),
{
    let ghost d = data@;
    let mut kvs: Vec<(String, JsonValue)> = Vec::new();
    kvs.push(kv("type", JsonValue::from_str(name)));
    kvs.push(kv("data", data));
    assert(entries_view(kvs@) =~= seq![("type"@, jstr(name@)), ("data"@, d)]);
    object_from(kvs)
}

fn file_data(file: &String, url: &Option<String>) -> (r: JsonValue)
    ensures
        r@ == file_data_json(file@, opt_str_view(*url)),
{
    let mut kvs: Vec<(String, JsonValue)> = Vec::new();
    kvs.push(kv("file", str_json(file)));
    match url {
        Some(u) => {
            kvs.push(kv("url", str_json(u)));
            assert(entries_view(kvs@) =~= seq![("file"@, jstr(file@)), ("url"@, jstr(u@))]);
        },
        None => {
            assert(entries_view(kvs@) =~= seq![("file"@, jstr(file@))]);
        },
    }
    object_from(kvs)
}

/// The JSON form of a segment.
pub fn segment_to_json(seg: &MessageSegment) -> (r: JsonValue)
    ensures
        r@ == seg_json(seg@),
{
    match seg {
        MessageSegment::Text { text } => tagged_json("text", one_field("text", text)),
        MessageSegment::Image { file, url } => tagged_json("image", file_data(file, url)),
        MessageSegment::At { qq } => tagged_json("at", one_field("qq", qq)),
        MessageSegment::Face { id } => tagged_json("face", one_field("id", id)),
        MessageSegment::Reply { id } => tagged_json("reply", one_field("id", id)),
        MessageSegment::Record { file, url } => tagged_json("record", file_data(file, url)),
        MessageSegment::Video { file, url } => tagged_json("video", file_data(file, url)),
        MessageSegment::Forward { id } => tagged_json("forward", one_field("id", id)),
        MessageSegment::Json { data } => tagged_json("json", one_field("data", data)),
        MessageSegment::Xml { data } => tagged_json("xml", one_field("data", data)),
        MessageSegment::Poke { poke_type, id } => {
            let mut kvs: Vec<(String, JsonValue)> = Vec::new();
            kvs.push(kv("type", str_json(poke_type)));
            kvs.push(kv("id", str_json(id)));
            assert(entries_view(kvs@) =~= seq![("type"@, jstr(poke_type@)), ("id"@, jstr(id@))]);
            tagged_json("poke", object_from(kvs))
        },
        MessageSegment::Unknown => {
            let mut kvs: Vec<(String, JsonValue)> = Vec::new();
            kvs.push(kv("type", JsonValue::from_str("Unknown")));
            assert(entries_view(kvs@) =~= seq![("type"@, jstr("Unknown"@))]);
            object_from(kvs)
        },
    }
}

/// The JSON array form of a list of segments.
pub open spec fn segs_json(s: Seq<Seg>) -> Json {
    Json::Arr(Seq::new(s.len(), |i: int| seg_json(s[i])))
}

/// The JSON array form of a list of segments.
pub fn segments_to_json(segs: &Vec<MessageSegment>) -> (r: JsonValue)
    ensures
        r@ == segs_json(segs_view(segs@)),
{
    broadcast use group_json_view;

    let mut out: Vec<JsonValue> = Vec::new();
    let mut i: usize = 0;
    while i < segs.len()
        invariant
            i <= segs.len(),
            out@.len() == i,
            forall|j: int| 0 <= j < i ==> (#[trigger] out@[j])@ == seg_json(segs@[j]@),
        decreases segs.len() - i,
    {
        out.push(segment_to_json(&segs[i]));
        i = i + 1;
    }
    let r = JsonValue::Array(out);
    assert(crate::json::values_view(out@) =~= segs_json(segs_view(segs@))->Arr_0);
    r
}

} // verus!
