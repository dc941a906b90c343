//! The plugin engine of a build without WebAssembly plugin support: it
//! loads nothing and lets every event and API call continue.

use vstd::prelude::*;

use crate::api::ApiRequest;
use crate::event::Event;
use crate::json::JsonValue;
use crate::plugin::{PluginInfo, PluginResult, ResultV};

verus! {

/// A plugin to load.
#[derive(Debug)]
pub struct PluginConfig {
    /// Path of the WebAssembly file.
    pub path: String,
    /// Whether the plugin is loaded.
    pub enabled: bool,
    /// Configuration handed to the plugin.
    pub config: JsonValue,
}

/// The plugin engine.
pub struct PluginEngine;

impl PluginEngine {
    /// A plugin engine.
    pub fn new() -> (r: Result<PluginEngine, String>)
        ensures
            r is Ok,
    {
        Ok(PluginEngine)
    }

    /// Loads plugins: without plugin support the configuration is ignored.
    pub fn load_plugins(&self, configs: &[PluginConfig]) -> (r: Result<(), String>)
        ensures
            r is Ok,
    {
        Ok(())
    }

    /// The loaded plugins: none.
    pub fn list_plugins(&self) -> (r: Vec<PluginInfo>)
        ensures
            r@.len() == 0,
    {
        Vec::new()
    }

    /// Runs the plugins on an event: it continues unchanged.
    pub fn process_event(&self, event: &mut Event) -> (r: PluginResult)
        ensures
            r@ == ResultV::Continue,
            *final(event) == *old(event),
    {
        PluginResult::Continue
    }

    /// Runs the plugins on an API call: it continues unchanged.
    pub fn process_api_call(&self, request: &mut ApiRequest) -> (r: PluginResult)
        ensures
            r@ == ResultV::Continue,
            *final(request) == *old(request),
    {
        PluginResult::Continue
    }

    /// Enables or disables a plugin by name: there is none to change.
    pub fn set_plugin_enabled(&self, name: &str, enabled: bool) -> (r: bool)
        ensures
            !r,
    {
        false
    }
}

impl Default for PluginEngine {
    fn default() -> (r: PluginEngine) {
        PluginEngine
    }
}

} // verus!
