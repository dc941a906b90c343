//! Backend adapter state and information.

use vstd::prelude::*;

use crate::text::owned;

verus! {

/// Connection state of a backend adapter.
#[derive(Debug, Clone, Copy, PartialEq, Eq, Structural)]
pub enum AdapterState {
    Disconnected,
    Connecting,
    Connected,
    Reconnecting,
    Failed,
}

/// The lower-case name of a state.
pub open spec fn state_name(s: AdapterState) -> Seq<char> {
    match s {
        AdapterState::Disconnected => "disconnected"@,
        AdapterState::Connecting => "connecting"@,
        AdapterState::Connected => "connected"@,
        AdapterState::Reconnecting => "reconnecting"@,
        AdapterState::Failed => "failed"@,
    }
}

impl AdapterState {
    /// The lower-case name of this state.
    pub fn as_str(&self) -> (r: &'static str)
        ensures
            r@ == state_name(*self),
    {
        match self {
            AdapterState::Disconnected => "disconnected",
            AdapterState::Connecting => "connecting",
            AdapterState::Connected => "connected",
            AdapterState::Reconnecting => "reconnecting",
            AdapterState::Failed => "failed",
        }
    }

    /// The lower-case name of this state, owned.
    pub fn to_text(&self) -> (r: String)
        ensures
            r@ == state_name(*self),
    {
        owned(self.as_str())
    }
}

/// Information about an adapter.
#[derive(Debug, Clone)]
pub struct AdapterInfo {
    /// Adapter name (the account name from the configuration).
    pub name: String,
    /// Backend type.
    pub backend_type: String,
    /// Backend URL.
    pub url: String,
    /// Current connection state.
    pub state: AdapterState,
    /// The bot account, once known.
    pub self_id: Option<i64>,
}

} // verus!
