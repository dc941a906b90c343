//! API requests and responses in the OneBot v11 action shape.

use vstd::prelude::*;

use crate::json::{Json, JsonValue};
use crate::text::owned;

verus! {

/// An API request from an upstream client.
#[derive(Debug)]
pub struct ApiRequest {
    /// Action name, e.g. `send_group_msg`.
    pub action: String,
    /// Parameters for the action.
    pub params: JsonValue,
    /// Optional echo for request tracking.
    pub echo: Option<JsonValue>,
    /// The account (self_id) the request targets, if any.
    pub self_id: Option<i64>,
}

/// An API response for an upstream client.
#[derive(Debug)]
pub struct ApiResponse {
    /// `ok` or `failed`.
    pub status: String,
    /// 0 on success.
    pub retcode: i32,
    /// Response data.
    pub data: JsonValue,
    /// Human-readable message.
    pub message: String,
    /// The request's echo.
    pub echo: Option<JsonValue>,
}

/// The mathematical form of an API request.
pub struct RequestV {
    pub action: Seq<char>,
    pub params: Json,
    pub echo: Option<Json>,
    pub self_id: Option<i64>,
}

/// The mathematical form of an API response.
pub struct ResponseV {
    pub status: Seq<char>,
    pub retcode: i32,
    pub data: Json,
    pub message: Seq<char>,
    pub echo: Option<Json>,
}

/// The mathematical form of an optional JSON value.
pub open spec fn opt_json_view(o: Option<JsonValue>) -> Option<Json> {
    match o {
        Some(v) => Some(v@),
        None => None,
    }
}

impl View for ApiRequest {
    type V = RequestV;

    open spec fn view(&self) -> RequestV {
        RequestV {
            action: self.action@,
            params: self.params@,
            echo: opt_json_view(self.echo),
            self_id: self.self_id,
        }
    }
}

impl View for ApiResponse {
    type V = ResponseV;

    open spec fn view(&self) -> ResponseV {
        ResponseV {
            status: self.status@,
            retcode: self.retcode,
            data: self.data@,
            message: self.message@,
            echo: opt_json_view(self.echo),
        }
    }
}

/// A copy of an optional JSON value.
pub fn copy_opt_json(o: &Option<JsonValue>) -> (r: Option<JsonValue>)
    ensures
        opt_json_view(r) == opt_json_view(*o),
{
    match o {
        Some(v) => Some(v.copy()),
        None => None,
    }
}

impl ApiRequest {
    /// A copy of this request.
    pub fn copy(&self) -> (r: ApiRequest)
        ensures
            r@ == self@,
    {
        ApiRequest {
            action: self.action.clone(),
            params: self.params.copy(),
            echo: copy_opt_json(&self.echo),
            self_id: self.self_id,
        }
    }
}

impl ApiResponse {
    /// A successful response carrying `data`.
    pub fn ok(data: JsonValue) -> (r: ApiResponse)
        ensures
            r@ == (ResponseV {
                status: "ok"@,
                retcode: 0,
                data: data@,
                message: Seq::empty(),
                echo: None,
            }),
    {
        ApiResponse {
            status: owned("ok"),
            retcode: 0,
            data,
            message: String::new(),
            echo: None,
        }
    }

    /// A failed response with the given code and message.
    pub fn fail(retcode: i32, message: String) -> (r: ApiResponse)
        ensures
            r@ == (ResponseV {
                status: "failed"@,
                retcode,
                data: Json::Null,
                message: message@,
                echo: None,
            }),
    {
        ApiResponse {
            status: owned("failed"),
            retcode,
            data: JsonValue::Null,
            message,
            echo: None,
        }
    }

    /// This response with its echo set to `echo`.
    pub fn with_echo(self, echo: Option<JsonValue>) -> (r: ApiResponse)
        ensures
            r@ == (ResponseV { echo: opt_json_view(echo), ..self@ }),
    {
        let mut s = self;
        s.echo = echo;
        s
    }

    /// A copy of this response.
    pub fn copy(&self) -> (r: ApiResponse)
        ensures
            r@ == self@,
    {
        ApiResponse {
            status: self.status.clone(),
            retcode: self.retcode,
            data: self.data.copy(),
            message: self.message.clone(),
            echo: copy_opt_json(&self.echo),
        }
    }
}

} // verus!
