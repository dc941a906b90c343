//! Gateway events: the superset of what the supported backends report,
//! normalized into one form.

use vstd::prelude::*;

use crate::json::{Json, JsonValue};
use crate::message::{segs_view, opt_str_view, MessageSegment, Seg};
use crate::time::Timestamp;

verus! {

/// Message type: private or group.
#[derive(Debug, Clone, Copy, PartialEq, Eq, Structural)]
pub enum MessageType {
    Private,
    Group,
}

/// Information about the sender of a message.
#[derive(Debug, Clone)]
pub struct Sender {
    pub user_id: i64,
    pub nickname: String,
    pub card: Option<String>,
    pub sex: Option<String>,
    pub age: Option<i32>,
    pub area: Option<String>,
    pub level: Option<String>,
    pub role: Option<String>,
    pub title: Option<String>,
}

/// A message event.
#[derive(Debug)]
pub struct MessageEvent {
    /// Event identifier (a UUID).
    pub id: u128,
    pub time: Timestamp,
    pub self_id: i64,
    pub message_type: MessageType,
    pub sub_type: String,
    pub message_id: i64,
    pub user_id: i64,
    pub group_id: Option<i64>,
    pub message: Vec<MessageSegment>,
    pub raw_message: String,
    pub sender: Sender,
    pub font: i32,
}

/// A notice event (member changes, recalls, pokes, ...).
#[derive(Debug)]
pub struct NoticeEvent {
    pub id: u128,
    pub time: Timestamp,
    pub self_id: i64,
    pub notice_type: String,
    pub sub_type: String,
    /// The remaining fields of the event.
    pub extra: JsonValue,
}

/// A request event (friend request, group invitation, ...).
#[derive(Debug)]
pub struct RequestEvent {
    pub id: u128,
    pub time: Timestamp,
    pub self_id: i64,
    pub request_type: String,
    pub sub_type: String,
    pub extra: JsonValue,
}

/// A meta event (lifecycle, heartbeat).
#[derive(Debug)]
pub struct MetaEvent {
    pub id: u128,
    pub time: Timestamp,
    pub self_id: i64,
    pub meta_event_type: String,
    pub sub_type: String,
    pub extra: JsonValue,
}

/// An event dispatched through the gateway.
#[derive(Debug)]
pub enum Event {
    Message(Box<MessageEvent>),
    Notice(NoticeEvent),
    Request(RequestEvent),
    Meta(MetaEvent),
}

/// The mathematical form of a sender.
pub struct SenderV {
    pub user_id: i64,
    pub nickname: Seq<char>,
    pub card: Option<Seq<char>>,
    pub sex: Option<Seq<char>>,
    pub age: Option<i32>,
    pub area: Option<Seq<char>>,
    pub level: Option<Seq<char>>,
    pub role: Option<Seq<char>>,
    pub title: Option<Seq<char>>,
}

/// The mathematical form of a message event.
pub struct MessageEventV {
    pub id: u128,
    pub time: Timestamp,
    pub self_id: i64,
    pub message_type: MessageType,
    pub sub_type: Seq<char>,
    pub message_id: i64,
    pub user_id: i64,
    pub group_id: Option<i64>,
    pub message: Seq<Seg>,
    pub raw_message: Seq<char>,
    pub sender: SenderV,
    pub font: i32,
}

/// The mathematical form of a notice, request or meta event: `kind` is the
/// notice type, request type or meta event type respectively.
pub struct OtherEventV {
    pub id: u128,
    pub time: Timestamp,
    pub self_id: i64,
    pub kind: Seq<char>,
    pub sub_type: Seq<char>,
    pub extra: Json,
}

/// The mathematical form of an event.
pub enum EventV {
    Message(MessageEventV),
    Notice(OtherEventV),
    Request(OtherEventV),
    Meta(OtherEventV),
}

impl View for Sender {
    type V = SenderV;

    open spec fn view(&self) -> SenderV {
        SenderV {
            user_id: self.user_id,
            nickname: self.nickname@,
            card: opt_str_view(self.card),
            sex: opt_str_view(self.sex),
            age: self.age,
            area: opt_str_view(self.area),
            level: opt_str_view(self.level),
            role: opt_str_view(self.role),
            title: opt_str_view(self.title),
        }
    }
}

impl View for MessageEvent {
    type V = MessageEventV;

    open spec fn view(&self) -> MessageEventV {
        MessageEventV {
            id: self.id,
            time: self.time,
            self_id: self.self_id,
            message_type: self.message_type,
            sub_type: self.sub_type@,
            message_id: self.message_id,
            user_id: self.user_id,
            group_id: self.group_id,
            message: segs_view(self.message@),
            raw_message: self.raw_message@,
            sender: self.sender@,
            font: self.font,
        }
    }
}

impl View for NoticeEvent {
    type V = OtherEventV;

    open spec fn view(&self) -> OtherEventV {
        OtherEventV {
            id: self.id,
            time: self.time,
            self_id: self.self_id,
            kind: self.notice_type@,
            sub_type: self.sub_type@,
            extra: self.extra@,
        }
    }
}

impl View for RequestEvent {
    type V = OtherEventV;

    open spec fn view(&self) -> OtherEventV {
        OtherEventV {
            id: self.id,
            time: self.time,
            self_id: self.self_id,
            kind: self.request_type@,
            sub_type: self.sub_type@,
            extra: self.extra@,
        }
    }
}

impl View for MetaEvent {
    type V = OtherEventV;

    open spec fn view(&self) -> OtherEventV {
        OtherEventV {
            id: self.id,
            time: self.time,
            self_id: self.self_id,
            kind: self.meta_event_type@,
            sub_type: self.sub_type@,
            extra: self.extra@,
        }
    }
}

impl View for Event {
    type V = EventV;

    open spec fn view(&self) -> EventV {
        match self {
            Event::Message(m) => EventV::Message((**m)@),
            Event::Notice(n) => EventV::Notice(n@),
            Event::Request(r) => EventV::Request(r@),
            Event::Meta(m) => EventV::Meta(m@),
        }
    }
}

/// The account that generated an event.
pub open spec fn event_self_id(e: EventV) -> i64 {
    match e {
        EventV::Message(m) => m.self_id,
        EventV::Notice(o) => o.self_id,
        EventV::Request(o) => o.self_id,
        EventV::Meta(o) => o.self_id,
    }
}

/// The time of an event.
pub open spec fn event_time(e: EventV) -> Timestamp {
    match e {
        EventV::Message(m) => m.time,
        EventV::Notice(o) => o.time,
        EventV::Request(o) => o.time,
        EventV::Meta(o) => o.time,
    }
}

impl Event {
    /// The account (self_id) that generated this event.
    pub fn self_id(&self) -> (r: i64)
        ensures
            r == event_self_id(self@),
    {
        match self {
            Event::Message(e) => e.self_id,
            Event::Notice(e) => e.self_id,
            Event::Request(e) => e.self_id,
            Event::Meta(e) => e.self_id,
        }
    }

    /// The time of this event.
    pub fn time(&self) -> (r: Timestamp)
        ensures
            r == event_time(self@),
    {
        match self {
            Event::Message(e) => e.time,
            Event::Notice(e) => e.time,
            Event::Request(e) => e.time,
            Event::Meta(e) => e.time,
        }
    }
}

} // verus!
