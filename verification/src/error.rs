//! The gateway's error type and its text form.

use vstd::prelude::*;

use crate::text::{int_decimal, owned, push_int_decimal, push_str, string_from_chars};

verus! {

/// Top-level gateway error.
#[derive(Debug, Clone)]
pub enum GatewayError {
    /// Backend connection failed.
    Connection(String),
    /// The backend answered with an error.
    BackendApi { action: String, retcode: i32, message: String },
    /// Configuration error.
    Config(String),
    /// Serialization / deserialization error, with its text.
    Serialization(String),
    /// WebSocket error.
    WebSocket(String),
    /// HTTP error.
    Http(String),
    /// Storage error.
    Storage(String),
    /// Plugin error.
    Plugin(String),
    /// Authentication error.
    Auth(String),
    /// The requested account was not found.
    AccountNotFound(String),
    /// Internal error.
    Internal(String),
}

/// The mathematical form of a gateway error.
pub enum ErrorV {
    Connection(Seq<char>),
    BackendApi { action: Seq<char>, retcode: i32, message: Seq<char> },
    Config(Seq<char>),
    Serialization(Seq<char>),
    WebSocket(Seq<char>),
    Http(Seq<char>),
    Storage(Seq<char>),
    Plugin(Seq<char>),
    Auth(Seq<char>),
    AccountNotFound(Seq<char>),
    Internal(Seq<char>),
}

impl View for GatewayError {
    type V = ErrorV;

    open spec fn view(&self) -> ErrorV {
        match self {
            GatewayError::Connection(s) => ErrorV::Connection(s@),
            GatewayError::BackendApi { action, retcode, message } => ErrorV::BackendApi {
                action: action@,
                retcode: *retcode,
                message: message@,
            },
            GatewayError::Config(s) => ErrorV::Config(s@),
            GatewayError::Serialization(s) => ErrorV::Serialization(s@),
            GatewayError::WebSocket(s) => ErrorV::WebSocket(s@),
            GatewayError::Http(s) => ErrorV::Http(s@),
            GatewayError::Storage(s) => ErrorV::Storage(s@),
            GatewayError::Plugin(s) => ErrorV::Plugin(s@),
            GatewayError::Auth(s) => ErrorV::Auth(s@),
            GatewayError::AccountNotFound(s) => ErrorV::AccountNotFound(s@),
            GatewayError::Internal(s) => ErrorV::Internal(s@),
        }
    }
}

/// The text form of an error.
pub open spec fn error_text(e: ErrorV) -> Seq<char> {
    match e {
        ErrorV::Connection(s) => "backend connection error: "@ + s,
        ErrorV::BackendApi { action, retcode, message } => "backend API error: "@ + action
            + " returned code "@ + int_decimal(retcode as int) + ": "@ + message,
        ErrorV::Config(s) => "configuration error: "@ + s,
        ErrorV::Serialization(s) => "serialization error: "@ + s,
        ErrorV::WebSocket(s) => "websocket error: "@ + s,
        ErrorV::Http(s) => "http error: "@ + s,
        ErrorV::Storage(s) => "storage error: "@ + s,
        ErrorV::Plugin(s) => "plugin error: "@ + s,
        ErrorV::Auth(s) => "authentication error: "@ + s,
        ErrorV::AccountNotFound(s) => "account not found: "@ + s,
        ErrorV::Internal(s) => "internal error: "@ + s,
    }
}

fn prefixed(prefix: &str, s: &String) -> (r: String)
    ensures
        r@ == prefix@ + s@,
{
    let mut buf: Vec<char> = Vec::new();
    push_str(&mut buf, prefix);
    push_str(&mut buf, s.as_str());
    assert(buf@ =~= prefix@ + s@);
    string_from_chars(buf.as_slice())
}

impl GatewayError {
    /// An internal error with the given message.
    pub fn internal(msg: &str) -> (r: GatewayError)
        ensures
            r@ == ErrorV::Internal(msg@),
    {
        GatewayError::Internal(owned(msg))
    }

    /// The text form of this error.
    pub fn to_text(&self) -> (r: String)
        ensures
            r@ == error_text(self@),
    {
        match self {
            GatewayError::Connection(s) => prefixed("backend connection error: ", s),
            GatewayError::BackendApi { action, retcode, message } => {
                let mut buf: Vec<char> = Vec::new();
                push_str(&mut buf, "backend API error: ");
                push_str(&mut buf, action.as_str());
                push_str(&mut buf, " returned code ");
                push_int_decimal(&mut buf, *retcode as i64);
                push_str(&mut buf, ": ");
                push_str(&mut buf, message.as_str());
                assert(buf@ =~= error_text(self@));
                string_from_chars(buf.as_slice())
            },
            GatewayError::Config(s) => prefixed("configuration error: ", s),
            GatewayError::Serialization(s) => prefixed("serialization error: ", s),
            GatewayError::WebSocket(s) => prefixed("websocket error: ", s),
            GatewayError::Http(s) => prefixed("http error: ", s),
            GatewayError::Storage(s) => prefixed("storage error: ", s),
            GatewayError::Plugin(s) => prefixed("plugin error: ", s),
            GatewayError::Auth(s) => prefixed("authentication error: ", s),
            GatewayError::AccountNotFound(s) => prefixed("account not found: ", s),
            GatewayError::Internal(s) => prefixed("internal error: ", s),
        }
    }

    /// Whether this error means the backend is unreachable (a connection or
    /// WebSocket failure) rather than a backend logic error.
    pub fn is_connection_error(&self) -> (r: bool)
        ensures
            r <==> (self@ is Connection || self@ is WebSocket),
    {
        match self {
            GatewayError::Connection(_) | GatewayError::WebSocket(_) => true,
            _ => false,
        }
    }
}

} // verus!
