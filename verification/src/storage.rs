//! Message storage: the rows stored for message events, and the SQL (with
//! its bound values) of message history queries.

use vstd::prelude::*;

use crate::event::{MessageEvent, MessageType};
use crate::onebot_v11::message_type_name;
use crate::text::{nat_decimal, owned, push_chars, push_nat_decimal, push_str, string_from_chars, chars_of};
use crate::time::{rfc3339_text, to_rfc3339, Timestamp};

verus! {

/// Filters of a message history query.
#[derive(Debug)]
pub struct MessageQuery {
    /// Bot account.
    pub self_id: Option<i64>,
    pub group_id: Option<i64>,
    /// Sender.
    pub user_id: Option<i64>,
    /// `private` or `group`.
    pub message_type: Option<String>,
    /// Text searched for in the raw message.
    pub keyword: Option<String>,
    /// Maximum number of results (default 50, at most 500).
    pub limit: Option<u32>,
    /// Offset for pagination.
    pub offset: Option<u32>,
    /// Earliest time.
    pub after: Option<Timestamp>,
    /// Latest time.
    pub before: Option<Timestamp>,
}

/// A value bound to a query placeholder.
#[derive(Debug)]
pub enum SqlValue {
    Int(i64),
    Text(String),
}

/// The mathematical form of a bound value.
pub enum SqlV {
    Int(i64),
    Text(Seq<char>),
}

impl View for SqlValue {
    type V = SqlV;

    open spec fn view(&self) -> SqlV {
        match self {
            SqlValue::Int(i) => SqlV::Int(*i),
            SqlValue::Text(s) => SqlV::Text(s@),
        }
    }
}

/// The statements of a history query.
#[derive(Debug)]
pub struct QueryPlan {
    /// `WHERE ...`, or empty without filters.
    pub where_clause: String,
    /// Values for the placeholders, in order.
    pub binds: Vec<SqlValue>,
    /// Statement counting the matching messages.
    pub count_sql: String,
    /// Statement fetching one page of matching messages, newest first.
    pub select_sql: String,
    pub limit: u32,
    pub offset: u32,
}

/// One filter condition with its bound value.
pub open spec fn cond(present: bool, c: Seq<char>, v: SqlV) -> Seq<(Seq<char>, SqlV)> {
    if present {
        seq![(c, v)]
    } else {
        Seq::empty()
    }
}

/// The view of an optional string.
pub open spec fn ostr_view(o: Option<String>) -> Option<Seq<char>> {
    match o {
        Some(s) => Some(s@),
        None => None,
    }
}

/// The filter conditions of a query, in order, with their values: the
/// keyword is matched anywhere in the raw message, times as RFC 3339 text.
pub open spec fn conditions(q: MessageQuery) -> Seq<(Seq<char>, SqlV)> {
    cond(q.self_id is Some, "self_id = ?"@, SqlV::Int(q.self_id->0)) + cond(
        q.group_id is Some,
        "group_id = ?"@,
        SqlV::Int(q.group_id->0),
    ) + cond(q.user_id is Some, "user_id = ?"@, SqlV::Int(q.user_id->0)) + cond(
        q.message_type is Some,
        "message_type = ?"@,
        SqlV::Text(q.message_type->0@),
    ) + cond(
        q.keyword is Some,
        "raw_message LIKE ?"@,
        SqlV::Text("%"@ + q.keyword->0@ + "%"@),
    ) + cond(
        q.after is Some,
        "time >= ?"@,
        SqlV::Text(rfc3339_text(q.after->0.secs(), q.after->0.nanos())),
    ) + cond(
        q.before is Some,
        "time <= ?"@,
        SqlV::Text(rfc3339_text(q.before->0.secs(), q.before->0.nanos())),
    )
}

/// The first `n` conditions joined with ` AND `.
pub open spec fn joined_conditions(c: Seq<(Seq<char>, SqlV)>, n: int) -> Seq<char>
    decreases n,
{
    if n <= 0 || n > c.len() {
        Seq::empty()
    } else if n == 1 {
        c[0].0
    } else {
        joined_conditions(c, n - 1) + " AND "@ + c[n - 1].0
    }
}

/// The `WHERE` clause of a query.
pub open spec fn where_text(q: MessageQuery) -> Seq<char> {
    let c = conditions(q);
    if c.len() == 0 {
        Seq::empty()
    } else {
        "WHERE "@ + joined_conditions(c, c.len() as int)
    }
}

/// The page size of a query: 50 by default, at most 500.
pub open spec fn page_limit(q: MessageQuery) -> u32 {
    let l = match q.limit {
        Some(l) => l,
        None => 50,
    };
    if l > 500 {
        500
    } else {
        l
    }
}

/// The offset of a query.
pub open spec fn page_offset(q: MessageQuery) -> u32 {
    match q.offset {
        Some(o) => o,
        None => 0,
    }
}

/// The statement counting matching messages.
pub open spec fn count_sql_text(q: MessageQuery) -> Seq<char> {
    "SELECT COUNT(*) FROM messages "@ + where_text(q)
}

/// The statement fetching a page of matching messages, newest first.
pub open spec fn select_sql_text(q: MessageQuery) -> Seq<char> {
    "SELECT id, time, self_id, message_type, message_id, user_id, group_id,\n                        raw_message, sender_nickname, raw_json\n                 FROM messages "@
        + where_text(q) + "\n                 ORDER BY time DESC\n                 LIMIT "@ + nat_decimal(
        page_limit(q) as nat,
    ) + " OFFSET "@ + nat_decimal(page_offset(q) as nat)
}

/// The conditions held by parallel lists of condition texts and values.
pub open spec fn cond_views(conds: Seq<Vec<char>>, binds: Seq<SqlValue>) -> Seq<(Seq<char>, SqlV)> {
    Seq::new(conds.len(), |i: int| (conds[i]@, binds[i]@))
}

fn push_cond(conds: &mut Vec<Vec<char>>, binds: &mut Vec<SqlValue>, c: &str, v: SqlValue)
    requires
        old(conds)@.len() == old(binds)@.len(),
    ensures
        final(conds)@.len() == final(binds)@.len(),
        cond_views(final(conds)@, final(binds)@) == cond_views(old(conds)@, old(binds)@).push((c@, v@)),
{
    conds.push(chars_of(c));
    binds.push(v);
    assert(cond_views(conds@, binds@) =~= cond_views(old(conds)@, old(binds)@).push((c@, v@)));
}

fn build_conditions(q: &MessageQuery) -> (r: (Vec<Vec<char>>, Vec<SqlValue>))
    ensures
        r.0@.len() == r.1@.len(),
        cond_views(r.0@, r.1@) == conditions(*q),
{
    let mut conds: Vec<Vec<char>> = Vec::new();
    let mut binds: Vec<SqlValue> = Vec::new();
    assert(cond_views(conds@, binds@) =~= Seq::<(Seq<char>, SqlV)>::empty());
    let ghost a0 = cond_views(conds@, binds@);
    match q.self_id {
        Some(v) => push_cond(&mut conds, &mut binds, "self_id = ?", SqlValue::Int(v)),
        None => {},
    }
    let ghost a1 = cond_views(conds@, binds@);
    assert(a1 =~= a0 + cond(q.self_id is Some, "self_id = ?"@, SqlV::Int(q.self_id->0)));
    match q.group_id {
        Some(v) => push_cond(&mut conds, &mut binds, "group_id = ?", SqlValue::Int(v)),
        None => {},
    }
    let ghost a2 = cond_views(conds@, binds@);
    assert(a2 =~= a1 + cond(q.group_id is Some, "group_id = ?"@, SqlV::Int(q.group_id->0)));
    match q.user_id {
        Some(v) => push_cond(&mut conds, &mut binds, "user_id = ?", SqlValue::Int(v)),
        None => {},
    }
    let ghost a3 = cond_views(conds@, binds@);
    assert(a3 =~= a2 + cond(q.user_id is Some, "user_id = ?"@, SqlV::Int(q.user_id->0)));
    match &q.message_type {
        Some(mt) => push_cond(&mut conds, &mut binds, "message_type = ?", SqlValue::Text(mt.clone())),
        None => {},
    }
    let ghost a4 = cond_views(conds@, binds@);
    assert(a4 =~= a3 + cond(q.message_type is Some, "message_type = ?"@, SqlV::Text(q.message_type->0@)));
    match &q.keyword {
        Some(kw) => {
            let mut pat: Vec<char> = Vec::new();
            push_str(&mut pat, "%");
            push_str(&mut pat, kw.as_str());
            push_str(&mut pat, "%");
            assert(pat@ =~= "%"@ + kw@ + "%"@);
            push_cond(&mut conds, &mut binds, "raw_message LIKE ?", SqlValue::Text(string_from_chars(pat.as_slice())));
        },
        None => {},
    }
    let ghost a5 = cond_views(conds@, binds@);
    assert(a5 =~= a4 + cond(q.keyword is Some, "raw_message LIKE ?"@, SqlV::Text("%"@ + q.keyword->0@ + "%"@)));
    match &q.after {
        Some(t) => push_cond(&mut conds, &mut binds, "time >= ?", SqlValue::Text(to_rfc3339(t))),
        None => {},
    }
    let ghost a6 = cond_views(conds@, binds@);
    assert(a6 =~= a5 + cond(q.after is Some, "time >= ?"@, SqlV::Text(rfc3339_text(q.after->0.secs(), q.after->0.nanos()))));
    match &q.before {
        Some(t) => push_cond(&mut conds, &mut binds, "time <= ?", SqlValue::Text(to_rfc3339(t))),
        None => {},
    }
    let ghost a7 = cond_views(conds@, binds@);
    assert(a7 =~= a6 + cond(q.before is Some, "time <= ?"@, SqlV::Text(rfc3339_text(q.before->0.secs(), q.before->0.nanos()))));
    assert(a7 =~= conditions(*q));
    (conds, binds)
}

fn where_of(conds: &Vec<Vec<char>>, Ghost(c): Ghost<Seq<(Seq<char>, SqlV)>>) -> (r: Vec<char>)
    requires
        conds@.len() == c.len(),
        forall|j: int| 0 <= j < c.len() ==> (#[trigger] conds@[j])@ == c[j].0,
    ensures
        r@ == (if c.len() == 0 {
            Seq::empty()
        } else {
            "WHERE "@ + joined_conditions(c, c.len() as int)
        }),
{
    let mut w: Vec<char> = Vec::new();
    if conds.len() > 0 {
        push_str(&mut w, "WHERE ");
        let ghost head = w@;
        let mut i: usize = 0;
        while i < conds.len()
            invariant
                i <= conds.len(),
                conds@.len() == c.len(),
                forall|j: int| 0 <= j < c.len() ==> (#[trigger] conds@[j])@ == c[j].0,
                w@ == head + joined_conditions(c, i as int),
            decreases conds.len() - i,
        {
            if i > 0 {
                push_str(&mut w, " AND ");
            }
            push_chars(&mut w, &conds[i]);
            proof {
                if i == 0 {
                    assert(w@ =~= head + joined_conditions(c, 1));
                } else {
                    assert(w@ =~= head + joined_conditions(c, i + 1));
                }
            }
            i = i + 1;
        }
    }
    w
}

/// Plans a message history query: its filters as conditions with bound
/// values, the counting statement, and the page statement.
pub fn plan_query(q: &MessageQuery) -> (r: QueryPlan)
    ensures
        r.where_clause@ == where_text(*q),
        r.binds@.len() == conditions(*q).len(),
        forall|i: int| 0 <= i < r.binds@.len() ==> (#[trigger] r.binds@[i])@ == conditions(*q)[i].1,
        r.count_sql@ == count_sql_text(*q),
        r.select_sql@ == select_sql_text(*q),
        r.limit == page_limit(*q),
        r.offset == page_offset(*q),
{
    let (conds, binds) = build_conditions(q);
    let ghost c = conditions(*q);
    assert forall|j: int| 0 <= j < c.len() implies (#[trigger] conds@[j])@ == c[j].0 by {
        assert(cond_views(conds@, binds@)[j] == c[j]);
    }
    assert forall|j: int| 0 <= j < binds@.len() implies (#[trigger] binds@[j])@ == c[j].1 by {
        assert(cond_views(conds@, binds@)[j] == c[j]);
    }
    let w = where_of(&conds, Ghost(c));
    assert(w@ == where_text(*q));
    let limit_raw: u32 = match q.limit {
        Some(l) => l,
        None => 50,
    };
    let limit: u32 = if limit_raw > 500 {
        500
    } else {
        limit_raw
    };
    let offset: u32 = match q.offset {
        Some(o) => o,
        None => 0,
    };
    let mut count: Vec<char> = Vec::new();
    push_str(&mut count, "SELECT COUNT(*) FROM messages ");
    push_chars(&mut count, &w);
    let mut select: Vec<char> = Vec::new();
    push_str(
        &mut select,
        "SELECT id, time, self_id, message_type, message_id, user_id, group_id,\n                        raw_message, sender_nickname, raw_json\n                 FROM messages ",
    );
    push_chars(&mut select, &w);
    push_str(&mut select, "\n                 ORDER BY time DESC\n                 LIMIT ");
    push_nat_decimal(&mut select, limit as u64);
    push_str(&mut select, " OFFSET ");
    push_nat_decimal(&mut select, offset as u64);
    assert(select@ =~= select_sql_text(*q));
    assert(count@ =~= count_sql_text(*q));
    QueryPlan {
        where_clause: string_from_chars(w.as_slice()),
        binds,
        count_sql: string_from_chars(count.as_slice()),
        select_sql: string_from_chars(select.as_slice()),
        limit,
        offset,
    }
}

/// The stored fields of a message event (its full JSON is stored beside
/// them).
#[derive(Debug)]
pub struct MessageRow {
    /// RFC 3339 text of the event time.
    pub time: String,
    pub self_id: i64,
    /// `private` or `group`.
    pub message_type: String,
    pub message_id: i64,
    pub user_id: i64,
    pub group_id: Option<i64>,
    pub raw_message: String,
    pub sender_nickname: String,
}

/// The stored fields of a message event.
pub fn message_row(event: &MessageEvent) -> (r: MessageRow)
    ensures
        r.time@ == rfc3339_text(event.time.secs(), event.time.nanos()),
        r.self_id == event.self_id,
        r.message_type@ == message_type_name(event.message_type),
        r.message_id == event.message_id,
        r.user_id == event.user_id,
        r.group_id == event.group_id,
        r.raw_message@ == event.raw_message@,
        r.sender_nickname@ == event.sender.nickname@,
{
    MessageRow {
        time: to_rfc3339(&event.time),
        self_id: event.self_id,
        message_type: match event.message_type {
            MessageType::Private => owned("private"),
            MessageType::Group => owned("group"),
        },
        message_id: event.message_id,
        user_id: event.user_id,
        group_id: event.group_id,
        raw_message: event.raw_message.clone(),
        sender_nickname: event.sender.nickname.clone(),
    }
}

/// The SQLite date modifier selecting messages older than `max_days`:
/// `-<max_days> days`.
pub fn cleanup_modifier(max_days: u32) -> (r: String)
    ensures
        r@ == "-"@ + nat_decimal(max_days as nat) + " days"@,
{
    let mut buf: Vec<char> = Vec::new();
    push_str(&mut buf, "-");
    push_nat_decimal(&mut buf, max_days as u64);
    push_str(&mut buf, " days");
    assert(buf@ =~= "-"@ + nat_decimal(max_days as nat) + " days"@);
    string_from_chars(buf.as_slice())
}

} // verus!
