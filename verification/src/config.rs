//! The gateway configuration: server, accounts and their backends,
//! protocol servers, storage and logging, with the documented defaults.

use vstd::prelude::*;

use crate::message::opt_str_view;
use crate::text::owned;

verus! {

/// Root configuration.
#[derive(Debug, Clone)]
pub struct AppConfig {
    pub server: ServerConfig,
    pub accounts: Vec<AccountConfig>,
    pub protocols: ProtocolsConfig,
    pub storage: StorageConfig,
    pub logging: LoggingConfig,
}

/// HTTP / WebSocket server configuration.
#[derive(Debug, Clone)]
pub struct ServerConfig {
    /// Listen address.
    pub host: String,
    /// Listen port.
    pub port: u16,
    /// Global access token for upstream clients (empty: no authentication).
    pub access_token: String,
    /// Whether the web dashboard is served.
    pub dashboard: bool,
    /// Rate limiting.
    pub rate_limit: RateLimitConfig,
}

/// Rate limiting configuration.
#[derive(Debug, Clone)]
pub struct RateLimitConfig {
    pub enabled: bool,
    /// Sustained requests per second.
    pub requests_per_second: u32,
    /// Burst size.
    pub burst: u32,
}

/// A bot account backed by a protocol backend.
#[derive(Debug, Clone)]
pub struct AccountConfig {
    /// Human-readable name.
    pub name: String,
    /// Primary backend.
    pub backend: BackendConfig,
    /// Optional fallback backend used when the primary fails.
    pub fallback: Option<BackendConfig>,
}

/// A backend connection.
#[derive(Debug, Clone)]
pub struct BackendConfig {
    /// Backend type: `lagrange`, `napcat`, `official` or `mock`.
    pub backend_type: String,
    /// Connection URL.
    pub url: String,
    /// Access token for the backend.
    pub access_token: String,
    /// Seconds between reconnection attempts.
    pub reconnect_interval: u64,
    /// Seconds between health checks.
    pub health_check_interval: u64,
}

/// Protocol servers exposed to upstream bot frameworks.
#[derive(Debug, Clone)]
pub struct ProtocolsConfig {
    pub onebot_v11: Option<OneBotV11Config>,
    pub onebot_v12: Option<OneBotV12Config>,
    pub milky: Option<MilkyConfig>,
    pub satori: Option<SatoriConfig>,
}

/// OneBot v11 server configuration.
#[derive(Debug, Clone)]
pub struct OneBotV11Config {
    pub enabled: bool,
    /// Serve the HTTP API.
    pub http: bool,
    /// Serve forward WebSocket.
    pub ws: bool,
    /// Reverse WebSocket targets.
    pub ws_reverse: Vec<WsReverseTarget>,
    /// HTTP POST event targets.
    pub http_post: Vec<HttpPostTarget>,
}

/// A reverse WebSocket target.
#[derive(Debug, Clone)]
pub struct WsReverseTarget {
    pub url: String,
    pub access_token: String,
}

/// An HTTP POST target.
#[derive(Debug, Clone)]
pub struct HttpPostTarget {
    pub url: String,
    /// Secret for the HMAC signature.
    pub secret: String,
}

/// OneBot v12 server configuration.
#[derive(Debug, Clone)]
pub struct OneBotV12Config {
    pub enabled: bool,
}

/// Milky server configuration.
#[derive(Debug, Clone)]
pub struct MilkyConfig {
    pub enabled: bool,
}

/// Satori server configuration.
#[derive(Debug, Clone)]
pub struct SatoriConfig {
    pub enabled: bool,
}

/// Message storage configuration.
#[derive(Debug, Clone)]
pub struct StorageConfig {
    pub enabled: bool,
    /// Path of the SQLite database.
    pub path: String,
    /// Days to keep messages (0: forever).
    pub max_days: u32,
}

/// Logging configuration.
#[derive(Debug, Clone)]
pub struct LoggingConfig {
    /// Log level filter.
    pub level: String,
    /// Log file path.
    pub file: Option<String>,
    /// Whether to log to the console.
    pub console: bool,
}

// ---------------------------------------------------------------------------
// Defaults
// ---------------------------------------------------------------------------

/// The default listen address.
pub fn default_host() -> (r: String)
    ensures
        r@ == "0.0.0.0"@,
{
    owned("0.0.0.0")
}

/// The default listen port.
pub fn default_port() -> (r: u16)
    ensures
        r == 8080,
{
    8080
}

/// `true`, the default of the boolean switches that are on unless turned off.
pub fn default_true() -> (r: bool)
    ensures
        r,
{
    true
}

/// The default seconds between reconnection attempts.
pub fn default_reconnect_interval() -> (r: u64)
    ensures
        r == 5,
{
    5
}

/// The default seconds between health checks.
pub fn default_health_check_interval() -> (r: u64)
    ensures
        r == 30,
{
    30
}

/// The default database path.
pub fn default_storage_path() -> (r: String)
    ensures
        r@ == "./data/messages.db"@,
{
    owned("./data/messages.db")
}

/// The default retention in days.
pub fn default_max_days() -> (r: u32)
    ensures
        r == 30,
{
    30
}

/// The default log level.
pub fn default_log_level() -> (r: String)
    ensures
        r@ == "info"@,
{
    owned("info")
}

/// The default sustained requests per second.
pub fn default_rps() -> (r: u32)
    ensures
        r == 100,
{
    100
}

/// The default burst size.
pub fn default_burst() -> (r: u32)
    ensures
        r == 200,
{
    200
}

impl Default for ServerConfig {
    fn default() -> (r: ServerConfig)
        ensures
            r.host@ == "0.0.0.0"@,
            r.port == 8080,
            r.access_token@ == Seq::<char>::empty(),
            r.dashboard,
            !r.rate_limit.enabled,
            r.rate_limit.requests_per_second == 100,
            r.rate_limit.burst == 200,
    {
        ServerConfig {
            host: default_host(),
            port: default_port(),
            access_token: String::new(),
            dashboard: true,
            rate_limit: RateLimitConfig::default(),
        }
    }
}

impl Default for RateLimitConfig {
    fn default() -> (r: RateLimitConfig)
        ensures
            !r.enabled,
            r.requests_per_second == 100,
            r.burst == 200,
    {
        RateLimitConfig { enabled: false, requests_per_second: default_rps(), burst: default_burst() }
    }
}

impl Default for ProtocolsConfig {
    fn default() -> (r: ProtocolsConfig)
        ensures
            r.onebot_v11 is None,
            r.onebot_v12 is None,
            r.milky is None,
            r.satori is None,
    {
        ProtocolsConfig { onebot_v11: None, onebot_v12: None, milky: None, satori: None }
    }
}

impl Default for StorageConfig {
    fn default() -> (r: StorageConfig)
        ensures
            !r.enabled,
            r.path@ == "./data/messages.db"@,
            r.max_days == 30,
    {
        StorageConfig { enabled: false, path: default_storage_path(), max_days: default_max_days() }
    }
}

impl Default for LoggingConfig {
    fn default() -> (r: LoggingConfig)
        ensures
            r.level@ == "info"@,
            r.file is None,
            r.console,
    {
        LoggingConfig { level: default_log_level(), file: None, console: true }
    }
}

impl OneBotV11Config {
    /// A OneBot v11 server with the defaults: enabled, HTTP and forward
    /// WebSocket on, no reverse or POST targets.
    pub fn enabled_default() -> (r: OneBotV11Config)
        ensures
            r.enabled,
            r.http,
            r.ws,
            r.ws_reverse@.len() == 0,
            r.http_post@.len() == 0,
    {
        OneBotV11Config {
            enabled: default_true(),
            http: default_true(),
            ws: default_true(),
            ws_reverse: Vec::new(),
            http_post: Vec::new(),
        }
    }
}

impl BackendConfig {
    /// A backend of the given type and URL, with no token and the default
    /// intervals.
    pub fn new(backend_type: &str, url: &str) -> (r: BackendConfig)
        ensures
            r.backend_type@ == backend_type@,
            r.url@ == url@,
            r.access_token@ == Seq::<char>::empty(),
            r.reconnect_interval == 5,
            r.health_check_interval == 30,
    {
        BackendConfig {
            backend_type: owned(backend_type),
            url: owned(url),
            access_token: String::new(),
            reconnect_interval: default_reconnect_interval(),
            health_check_interval: default_health_check_interval(),
        }
    }
}

} // verus!
