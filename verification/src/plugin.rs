//! Plugin interface types: the result a plugin hook returns, its integer
//! encoding across the plugin boundary, plugin metadata and hooks.

use vstd::prelude::*;

use crate::json::{Json, JsonValue};
use crate::text::{int_decimal, owned, push_int_decimal, push_str, string_from_chars};

verus! {

/// Name of the plugin export that returns the plugin's metadata.
pub const PLUGIN_INFO: &'static str = "ferroq_plugin_info";

/// Name of the plugin export called once after loading.
pub const PLUGIN_INIT: &'static str = "ferroq_plugin_init";

/// Name of the plugin export called for each event.
pub const ON_EVENT: &'static str = "ferroq_on_event";

/// Name of the plugin export called for each API call.
pub const ON_API_CALL: &'static str = "ferroq_on_api_call";

/// Name of the plugin export that allocates guest memory.
pub const ALLOC: &'static str = "ferroq_alloc";

/// Name of the plugin export that frees guest memory.
pub const DEALLOC: &'static str = "ferroq_dealloc";

/// What a plugin hook decided.
#[derive(Debug, Clone, PartialEq, Eq)]
pub enum PluginResult {
    /// Pass the (possibly modified) data on to the next plugin or the
    /// default handling.
    Continue,
    /// The plugin handled it; skip further processing.
    Handled,
    /// Drop the event or request silently.
    Drop,
    /// The plugin failed, with a message.
    Error(String),
}

/// The mathematical form of a plugin result.
pub enum ResultV {
    Continue,
    Handled,
    Drop,
    Error(Seq<char>),
}

impl View for PluginResult {
    type V = ResultV;

    open spec fn view(&self) -> ResultV {
        match self {
            PluginResult::Continue => ResultV::Continue,
            PluginResult::Handled => ResultV::Handled,
            PluginResult::Drop => ResultV::Drop,
            PluginResult::Error(m) => ResultV::Error(m@),
        }
    }
}

/// The integer code of a result: 0 continue, 1 handled, 2 drop, -1 error.
pub open spec fn result_code(r: ResultV) -> i32 {
    match r {
        ResultV::Continue => 0i32,
        ResultV::Handled => 1i32,
        ResultV::Drop => 2i32,
        ResultV::Error(_) => -1i32,
    }
}

/// The result an integer code denotes; any code other than 0, 1, 2 is an
/// error naming the code.
pub open spec fn result_of_code(code: i32) -> ResultV {
    if code == 0 {
        ResultV::Continue
    } else if code == 1 {
        ResultV::Handled
    } else if code == 2 {
        ResultV::Drop
    } else {
        ResultV::Error("unknown result code: "@ + int_decimal(code as int))
    }
}

impl PluginResult {
    /// The integer code of this result.
    pub fn to_i32(&self) -> (r: i32)
        ensures
            r == result_code(self@),
    {
        match self {
            PluginResult::Continue => 0,
            PluginResult::Handled => 1,
            PluginResult::Drop => 2,
            PluginResult::Error(_) => -1,
        }
    }

    /// The result an integer code denotes.
    pub fn from_i32(code: i32) -> (r: PluginResult)
        ensures
            r@ == result_of_code(code),
    {
        if code == 0 {
            PluginResult::Continue
        } else if code == 1 {
            PluginResult::Handled
        } else if code == 2 {
            PluginResult::Drop
        } else {
            let mut buf: Vec<char> = Vec::new();
            push_str(&mut buf, "unknown result code: ");
            push_int_decimal(&mut buf, code as i64);
            assert(buf@ =~= "unknown result code: "@ + int_decimal(code as int));
            PluginResult::Error(string_from_chars(buf.as_slice()))
        }
    }
}

/// Encoding a non-error result and decoding the code gives the result back.
pub proof fn lemma_result_round_trip(r: ResultV)
    requires
        !(r is Error),
    ensures
        result_of_code(result_code(r)) == r,
{
}

/// Decoding one of the codes 0, 1, 2 and encoding the result gives the
/// code back; every other code decodes to an error, encoded as -1.
pub proof fn lemma_code_round_trip(code: i32)
    ensures
        0 <= code <= 2 ==> result_code(result_of_code(code)) == code,
        !(0 <= code <= 2) ==> result_code(result_of_code(code)) == -1,
{
}

/// Plugin metadata.
#[derive(Debug, Clone)]
pub struct PluginInfo {
    pub name: String,
    pub version: String,
    pub description: String,
    pub author: String,
}

impl Default for PluginInfo {
    fn default() -> (r: PluginInfo)
        ensures
            r.name@ == "unknown"@,
            r.version@ == "0.0.0"@,
            r.description@ == Seq::<char>::empty(),
            r.author@ == Seq::<char>::empty(),
    {
        PluginInfo {
            name: owned("unknown"),
            version: owned("0.0.0"),
            description: String::new(),
            author: String::new(),
        }
    }
}

/// The hooks a plugin can register.
#[derive(Debug, Clone, Copy, PartialEq, Eq, Structural)]
pub enum PluginHook {
    /// Called for each event before it is broadcast.
    OnEvent,
    /// Called for each API call before it is routed to a backend.
    OnApiCall,
    /// Called for each API response before it is returned.
    OnApiResponse,
}

/// Per-plugin configuration passed at initialisation.
#[derive(Debug)]
pub struct PluginRuntimeConfig {
    /// Arbitrary JSON configuration.
    pub config: JsonValue,
}

impl Default for PluginRuntimeConfig {
    fn default() -> (r: PluginRuntimeConfig)
        ensures
            r.config@ == Json::Null,
    {
        PluginRuntimeConfig { config: JsonValue::Null }
    }
}

} // verus!
