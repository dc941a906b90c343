//! Runtime statistics: counters kept by the gateway, the health report
//! built from them, and its Prometheus text exposition.

use vstd::prelude::*;

use crate::adapter::{state_name, AdapterState};
use crate::dedup::{elapsed_nanos, inc, instant_now};
use crate::text::{nat_decimal, owned, push_nat_decimal, push_str, string_from_chars};

verus! {

/// The gateway's version.
pub const VERSION: &'static str = "0.1.0";

/// Whole seconds elapsed on the monotonic clock since `start`.
fn elapsed_secs(start: &std::time::Instant) -> (r: u64) {
    let ns = elapsed_nanos(start);
    (ns / 1_000_000_000) as u64
}

/// The status of one adapter at a point in time.
#[derive(Debug)]
pub struct AdapterSnapshot {
    pub name: String,
    pub backend_type: String,
    pub url: String,
    pub state: AdapterState,
    pub self_id: Option<i64>,
    /// Whether the last health check succeeded.
    pub healthy: bool,
    /// Latency of the last health check in milliseconds.
    pub health_check_ms: Option<u64>,
    /// Unix time of the last health check.
    pub last_health_check: Option<u64>,
}

/// Whether two snapshots agree field by field.
pub open spec fn same_snapshot(a: AdapterSnapshot, b: AdapterSnapshot) -> bool {
    &&& a.name@ == b.name@
    &&& a.backend_type@ == b.backend_type@
    &&& a.url@ == b.url@
    &&& a.state == b.state
    &&& a.self_id == b.self_id
    &&& a.healthy == b.healthy
    &&& a.health_check_ms == b.health_check_ms
    &&& a.last_health_check == b.last_health_check
}

impl AdapterSnapshot {
    /// A copy of this snapshot.
    pub fn copy(&self) -> (r: AdapterSnapshot)
        ensures
            same_snapshot(r, *self),
    {
        AdapterSnapshot {
            name: self.name.clone(),
            backend_type: self.backend_type.clone(),
            url: self.url.clone(),
            state: self.state,
            self_id: self.self_id,
            healthy: self.healthy,
            health_check_ms: self.health_check_ms,
            last_health_check: self.last_health_check,
        }
    }
}

/// The health report.
#[derive(Debug)]
pub struct HealthResponse {
    pub status: &'static str,
    pub version: &'static str,
    pub uptime_secs: u64,
    pub events_total: u64,
    pub api_calls_total: u64,
    pub ws_connections: u64,
    pub ws_connections_total: u64,
    pub messages_stored: u64,
    pub storage_enabled: bool,
    pub healthy_adapters: usize,
    pub total_adapters: usize,
    pub adapters: Vec<AdapterSnapshot>,
}

/// Runtime statistics.
pub struct RuntimeStats {
    start_time: std::time::Instant,
    /// Events forwarded through the bus.
    events_total: u64,
    /// API calls routed.
    api_calls_total: u64,
    /// Open forward WebSocket connections.
    ws_connections: u64,
    /// Forward WebSocket connections served.
    ws_connections_total: u64,
    /// Messages persisted to storage.
    messages_stored: u64,
    storage_enabled: bool,
    adapters: Vec<AdapterSnapshot>,
}

/// `x - 1`, wrapping at zero.
pub open spec fn dec1(x: u64) -> u64 {
    if x == 0 {
        u64::MAX
    } else {
        (x - 1) as u64
    }
}

/// The number of healthy adapters among the first `n`.
pub open spec fn count_healthy(s: Seq<AdapterSnapshot>, n: int) -> nat
    decreases n,
{
    if n <= 0 || n > s.len() {
        0
    } else {
        count_healthy(s, n - 1) + if s[n - 1].healthy {
            1nat
        } else {
            0nat
        }
    }
}

/// The mathematical form of the statistics.
pub struct StatsV {
    pub events_total: u64,
    pub api_calls_total: u64,
    pub ws_connections: u64,
    pub ws_connections_total: u64,
    pub messages_stored: u64,
    pub storage_enabled: bool,
    pub adapters: Seq<AdapterSnapshot>,
}

impl View for RuntimeStats {
    type V = StatsV;

    closed spec fn view(&self) -> StatsV {
        StatsV {
            events_total: self.events_total,
            api_calls_total: self.api_calls_total,
            ws_connections: self.ws_connections,
            ws_connections_total: self.ws_connections_total,
            messages_stored: self.messages_stored,
            storage_enabled: self.storage_enabled,
            adapters: self.adapters@,
        }
    }
}

impl RuntimeStats {
    /// Statistics with storage disabled.
    pub fn new() -> (r: RuntimeStats)
        ensures
            r@.events_total == 0,
            r@.api_calls_total == 0,
            r@.ws_connections == 0,
            r@.ws_connections_total == 0,
            r@.messages_stored == 0,
            !r@.storage_enabled,
            r@.adapters.len() == 0,
    {
        RuntimeStats::with_storage(false)
    }

    /// Statistics with the given storage flag, all counters at zero.
    pub fn with_storage(storage_enabled: bool) -> (r: RuntimeStats)
        ensures
            r@.events_total == 0,
            r@.api_calls_total == 0,
            r@.ws_connections == 0,
            r@.ws_connections_total == 0,
            r@.messages_stored == 0,
            r@.storage_enabled == storage_enabled,
            r@.adapters.len() == 0,
    {
        RuntimeStats {
            start_time: instant_now(),
            events_total: 0,
            api_calls_total: 0,
            ws_connections: 0,
            ws_connections_total: 0,
            messages_stored: 0,
            storage_enabled,
            adapters: Vec::new(),
        }
    }

    /// Counts a forwarded event.
    pub fn record_event(&mut self)
        ensures
            final(self)@.events_total == inc(old(self)@.events_total),
            final(self)@.api_calls_total == old(self)@.api_calls_total,
            final(self)@.ws_connections == old(self)@.ws_connections,
            final(self)@.ws_connections_total == old(self)@.ws_connections_total,
            final(self)@.messages_stored == old(self)@.messages_stored,
            final(self)@.storage_enabled == old(self)@.storage_enabled,
            final(self)@.adapters == old(self)@.adapters,
    {
        self.events_total = self.events_total.wrapping_add(1);
    }

    /// Counts a routed API call.
    pub fn record_api_call(&mut self)
        ensures
            final(self)@.api_calls_total == inc(old(self)@.api_calls_total),
            final(self)@.events_total == old(self)@.events_total,
            final(self)@.ws_connections == old(self)@.ws_connections,
            final(self)@.ws_connections_total == old(self)@.ws_connections_total,
            final(self)@.messages_stored == old(self)@.messages_stored,
            final(self)@.storage_enabled == old(self)@.storage_enabled,
            final(self)@.adapters == old(self)@.adapters,
    {
        self.api_calls_total = self.api_calls_total.wrapping_add(1);
    }

    /// Counts an opened WebSocket connection.
    pub fn ws_connect(&mut self)
        ensures
            final(self)@.ws_connections == inc(old(self)@.ws_connections),
            final(self)@.ws_connections_total == inc(old(self)@.ws_connections_total),
            final(self)@.events_total == old(self)@.events_total,
            final(self)@.api_calls_total == old(self)@.api_calls_total,
            final(self)@.messages_stored == old(self)@.messages_stored,
            final(self)@.storage_enabled == old(self)@.storage_enabled,
            final(self)@.adapters == old(self)@.adapters,
    {
        self.ws_connections = self.ws_connections.wrapping_add(1);
        self.ws_connections_total = self.ws_connections_total.wrapping_add(1);
    }

    /// Counts a closed WebSocket connection.
    pub fn ws_disconnect(&mut self)
        ensures
            final(self)@.ws_connections == dec1(old(self)@.ws_connections),
            final(self)@.ws_connections_total == old(self)@.ws_connections_total,
            final(self)@.events_total == old(self)@.events_total,
            final(self)@.api_calls_total == old(self)@.api_calls_total,
            final(self)@.messages_stored == old(self)@.messages_stored,
            final(self)@.storage_enabled == old(self)@.storage_enabled,
            final(self)@.adapters == old(self)@.adapters,
    {
        self.ws_connections = self.ws_connections.wrapping_sub(1);
    }

    /// Counts a stored message.
    pub fn record_message_stored(&mut self)
        ensures
            final(self)@.messages_stored == inc(old(self)@.messages_stored),
            final(self)@.events_total == old(self)@.events_total,
            final(self)@.api_calls_total == old(self)@.api_calls_total,
            final(self)@.ws_connections == old(self)@.ws_connections,
            final(self)@.ws_connections_total == old(self)@.ws_connections_total,
            final(self)@.storage_enabled == old(self)@.storage_enabled,
            final(self)@.adapters == old(self)@.adapters,
    {
        self.messages_stored = self.messages_stored.wrapping_add(1);
    }

    /// Replaces the adapter snapshots.
    pub fn update_adapters(&mut self, snapshots: Vec<AdapterSnapshot>)
        ensures
            final(self)@.adapters == snapshots@,
            final(self)@.events_total == old(self)@.events_total,
            final(self)@.api_calls_total == old(self)@.api_calls_total,
            final(self)@.ws_connections == old(self)@.ws_connections,
            final(self)@.ws_connections_total == old(self)@.ws_connections_total,
            final(self)@.messages_stored == old(self)@.messages_stored,
            final(self)@.storage_enabled == old(self)@.storage_enabled,
    {
        self.adapters = snapshots;
    }

    /// The health report for a given uptime.
    pub fn health_at(&self, uptime_secs: u64) -> (r: HealthResponse)
        ensures
            r.status@ == "ok"@,
            r.version@ == VERSION@,
            r.uptime_secs == uptime_secs,
            r.events_total == self@.events_total,
            r.api_calls_total == self@.api_calls_total,
            r.ws_connections == self@.ws_connections,
            r.ws_connections_total == self@.ws_connections_total,
            r.messages_stored == self@.messages_stored,
            r.storage_enabled == self@.storage_enabled,
            r.adapters@.len() == self@.adapters.len(),
            forall|i: int| 0 <= i < r.adapters@.len() ==> same_snapshot(#[trigger] r.adapters@[i], self@.adapters[i]),
            r.total_adapters == self@.adapters.len(),
            r.healthy_adapters == count_healthy(self@.adapters, self@.adapters.len() as int),
    {
        let mut adapters: Vec<AdapterSnapshot> = Vec::new();
        let mut healthy: usize = 0;
        let mut i: usize = 0;
        while i < self.adapters.len()
            invariant
                i <= self.adapters.len(),
                adapters@.len() == i,
                healthy == count_healthy(self.adapters@, i as int),
                healthy <= i,
                forall|j: int| 0 <= j < i ==> same_snapshot(#[trigger] adapters@[j], self.adapters@[j]),
            decreases self.adapters.len() - i,
        {
            if self.adapters[i].healthy {
                healthy = healthy + 1;
            }
            adapters.push(self.adapters[i].copy());
            i = i + 1;
        }
        HealthResponse {
            status: "ok",
            version: VERSION,
            uptime_secs,
            events_total: self.events_total,
            api_calls_total: self.api_calls_total,
            ws_connections: self.ws_connections,
            ws_connections_total: self.ws_connections_total,
            messages_stored: self.messages_stored,
            storage_enabled: self.storage_enabled,
            healthy_adapters: healthy,
            total_adapters: self.adapters.len(),
            adapters,
        }
    }

    /// The health report now.
    pub fn health(&self) -> (r: HealthResponse)
        ensures
            r.status@ == "ok"@,
            r.version@ == VERSION@,
            r.events_total == self@.events_total,
            r.api_calls_total == self@.api_calls_total,
            r.ws_connections == self@.ws_connections,
            r.ws_connections_total == self@.ws_connections_total,
            r.messages_stored == self@.messages_stored,
            r.storage_enabled == self@.storage_enabled,
            r.adapters@.len() == self@.adapters.len(),
            forall|i: int| 0 <= i < r.adapters@.len() ==> same_snapshot(#[trigger] r.adapters@[i], self@.adapters[i]),
            r.total_adapters == self@.adapters.len(),
            r.healthy_adapters == count_healthy(self@.adapters, self@.adapters.len() as int),
    {
        let up = elapsed_secs(&self.start_time);
        self.health_at(up)
    }

    /// The Prometheus text exposition of the current statistics.
    pub fn prometheus_metrics(&self) -> (r: String)
        ensures
            exists|up: u64| r@ == stats_text(self@, up),
    {
        let h = self.health();
        let r = prometheus_text(&h);
        proof {
            let n = h.adapters@.len() as int;
            lemma_lines_same(h.adapters@, self@.adapters, n);
            assert(r@ == stats_text(self@, h.uptime_secs));
        }
        r
    }
}

impl Default for RuntimeStats {
    fn default() -> (r: RuntimeStats)
        ensures
            r@.events_total == 0,
            r@.api_calls_total == 0,
            r@.ws_connections == 0,
            r@.ws_connections_total == 0,
            r@.messages_stored == 0,
            !r@.storage_enabled,
            r@.adapters.len() == 0,
    {
        RuntimeStats::new()
    }
}

// ---------------------------------------------------------------------------
// Prometheus text
// ---------------------------------------------------------------------------

/// One metric: its help and type lines, then `name value` and a blank line.
pub open spec fn metric_block(help: Seq<char>, ty: Seq<char>, name: Seq<char>, v: nat) -> Seq<char> {
    help + ty + name + " "@ + nat_decimal(v) + "\n\n"@
}

/// The per-adapter health line.
pub open spec fn adapter_healthy_line(a: AdapterSnapshot) -> Seq<char> {
    "ferroq_adapter_healthy{name=\""@ + a.name@ + "\",type=\""@ + a.backend_type@ + "\",state=\""@
        + state_name(a.state) + "\"} "@ + (if a.healthy {
        "1"@
    } else {
        "0"@
    }) + "\n"@
}

/// The per-adapter latency line, when a latency was measured.
pub open spec fn adapter_latency_line(a: AdapterSnapshot) -> Seq<char> {
    match a.health_check_ms {
        Some(ms) => "ferroq_adapter_health_check_ms{name=\""@ + a.name@ + "\"} "@ + nat_decimal(ms as nat)
            + "\n"@,
        None => Seq::empty(),
    }
}

/// The health lines of the first `n` adapters.
pub open spec fn healthy_lines(s: Seq<AdapterSnapshot>, n: int) -> Seq<char>
    decreases n,
{
    if n <= 0 || n > s.len() {
        Seq::empty()
    } else {
        healthy_lines(s, n - 1) + adapter_healthy_line(s[n - 1])
    }
}

/// The latency lines of the first `n` adapters.
pub open spec fn latency_lines(s: Seq<AdapterSnapshot>, n: int) -> Seq<char>
    decreases n,
{
    if n <= 0 || n > s.len() {
        Seq::empty()
    } else {
        latency_lines(s, n - 1) + adapter_latency_line(s[n - 1])
    }
}

/// The gateway-wide figures of a report.
pub struct GaugesV {
    pub uptime_secs: u64,
    pub events_total: u64,
    pub api_calls_total: u64,
    pub ws_connections: u64,
    pub ws_connections_total: u64,
    pub messages_stored: u64,
    pub storage_enabled: bool,
    pub total_adapters: usize,
    pub healthy_adapters: usize,
}

/// The gateway-wide figures of a health report.
pub open spec fn gauges_of(h: HealthResponse) -> GaugesV {
    GaugesV {
        uptime_secs: h.uptime_secs,
        events_total: h.events_total,
        api_calls_total: h.api_calls_total,
        ws_connections: h.ws_connections,
        ws_connections_total: h.ws_connections_total,
        messages_stored: h.messages_stored,
        storage_enabled: h.storage_enabled,
        total_adapters: h.total_adapters,
        healthy_adapters: h.healthy_adapters,
    }
}

/// The gateway-wide metrics.
pub open spec fn gateway_metrics(h: GaugesV) -> Seq<char> {
    metric_block(
        "# HELP ferroq_uptime_seconds Gateway uptime in seconds.\n"@,
        "# TYPE ferroq_uptime_seconds gauge\n"@,
        "ferroq_uptime_seconds"@,
        h.uptime_secs as nat,
    ) + metric_block(
        "# HELP ferroq_events_total Total events forwarded through the bus.\n"@,
        "# TYPE ferroq_events_total counter\n"@,
        "ferroq_events_total"@,
        h.events_total as nat,
    ) + metric_block(
        "# HELP ferroq_api_calls_total Total API calls routed.\n"@,
        "# TYPE ferroq_api_calls_total counter\n"@,
        "ferroq_api_calls_total"@,
        h.api_calls_total as nat,
    ) + metric_block(
        "# HELP ferroq_ws_connections_active Active WebSocket connections.\n"@,
        "# TYPE ferroq_ws_connections_active gauge\n"@,
        "ferroq_ws_connections_active"@,
        h.ws_connections as nat,
    ) + metric_block(
        "# HELP ferroq_ws_connections_total Total WebSocket connections served (lifetime).\n"@,
        "# TYPE ferroq_ws_connections_total counter\n"@,
        "ferroq_ws_connections_total"@,
        h.ws_connections_total as nat,
    ) + metric_block(
        "# HELP ferroq_messages_stored_total Total messages persisted to storage.\n"@,
        "# TYPE ferroq_messages_stored_total counter\n"@,
        "ferroq_messages_stored_total"@,
        h.messages_stored as nat,
    ) + metric_block(
        "# HELP ferroq_storage_enabled Whether message storage is enabled (1=yes, 0=no).\n"@,
        "# TYPE ferroq_storage_enabled gauge\n"@,
        "ferroq_storage_enabled"@,
        if h.storage_enabled {
            1nat
        } else {
            0nat
        },
    ) + metric_block(
        "# HELP ferroq_adapters_total Total number of backend adapters.\n"@,
        "# TYPE ferroq_adapters_total gauge\n"@,
        "ferroq_adapters_total"@,
        h.total_adapters as nat,
    ) + metric_block(
        "# HELP ferroq_adapters_healthy Number of healthy backend adapters.\n"@,
        "# TYPE ferroq_adapters_healthy gauge\n"@,
        "ferroq_adapters_healthy"@,
        h.healthy_adapters as nat,
    )
}

/// The per-adapter metrics, present when there are adapters.
pub open spec fn adapter_metrics(s: Seq<AdapterSnapshot>) -> Seq<char> {
    if s.len() == 0 {
        Seq::empty()
    } else {
        "# HELP ferroq_adapter_healthy Whether a backend adapter is healthy (1=yes, 0=no).\n"@
            + "# TYPE ferroq_adapter_healthy gauge\n"@ + healthy_lines(s, s.len() as int) + "\n"@
            + "# HELP ferroq_adapter_health_check_ms Latency of the last health check in milliseconds.\n"@
            + "# TYPE ferroq_adapter_health_check_ms gauge\n"@ + latency_lines(s, s.len() as int) + "\n"@
    }
}

/// The Prometheus text exposition of a health report.
pub open spec fn metrics_text(h: HealthResponse) -> Seq<char> {
    gateway_metrics(gauges_of(h)) + adapter_metrics(h.adapters@)
}

/// The Prometheus text exposition of statistics at a given uptime.
pub open spec fn stats_text(st: StatsV, up: u64) -> Seq<char> {
    let s = st.adapters;
    gateway_metrics(
        GaugesV {
            uptime_secs: up,
            events_total: st.events_total,
            api_calls_total: st.api_calls_total,
            ws_connections: st.ws_connections,
            ws_connections_total: st.ws_connections_total,
            messages_stored: st.messages_stored,
            storage_enabled: st.storage_enabled,
            healthy_adapters: count_healthy(s, s.len() as int) as usize,
            total_adapters: s.len() as usize,
        },
    ) + adapter_metrics(s)
}

proof fn lemma_lines_same(a: Seq<AdapterSnapshot>, b: Seq<AdapterSnapshot>, n: int)
    requires
        a.len() == b.len(),
        0 <= n <= a.len(),
        forall|i: int| 0 <= i < a.len() ==> same_snapshot(#[trigger] a[i], b[i]),
    ensures
        healthy_lines(a, n) == healthy_lines(b, n),
        latency_lines(a, n) == latency_lines(b, n),
    decreases n,
{
    if n > 0 {
        lemma_lines_same(a, b, n - 1);
        assert(same_snapshot(a[n - 1], b[n - 1]));
    }
}

fn push_metric(buf: &mut Vec<char>, help: &str, ty: &str, name: &str, v: u64)
    ensures
        final(buf)@ == old(buf)@ + metric_block(help@, ty@, name@, v as nat),
{
    let ghost start = buf@;
    push_str(buf, help);
    push_str(buf, ty);
    push_str(buf, name);
    push_str(buf, " ");
    push_nat_decimal(buf, v);
    push_str(buf, "\n\n");
    assert(buf@ =~= start + metric_block(help@, ty@, name@, v as nat));
}

fn push_gateway_metrics(buf: &mut Vec<char>, h: &HealthResponse)
    ensures
        final(buf)@ == old(buf)@ + gateway_metrics(gauges_of(*h)),
{
    let ghost start = buf@;
    push_metric(
        buf,
        "# HELP ferroq_uptime_seconds Gateway uptime in seconds.\n",
        "# TYPE ferroq_uptime_seconds gauge\n",
        "ferroq_uptime_seconds",
        h.uptime_secs,
    );
    push_metric(
        buf,
        "# HELP ferroq_events_total Total events forwarded through the bus.\n",
        "# TYPE ferroq_events_total counter\n",
        "ferroq_events_total",
        h.events_total,
    );
    push_metric(
        buf,
        "# HELP ferroq_api_calls_total Total API calls routed.\n",
        "# TYPE ferroq_api_calls_total counter\n",
        "ferroq_api_calls_total",
        h.api_calls_total,
    );
    push_metric(
        buf,
        "# HELP ferroq_ws_connections_active Active WebSocket connections.\n",
        "# TYPE ferroq_ws_connections_active gauge\n",
        "ferroq_ws_connections_active",
        h.ws_connections,
    );
    push_metric(
        buf,
        "# HELP ferroq_ws_connections_total Total WebSocket connections served (lifetime).\n",
        "# TYPE ferroq_ws_connections_total counter\n",
        "ferroq_ws_connections_total",
        h.ws_connections_total,
    );
    push_metric(
        buf,
        "# HELP ferroq_messages_stored_total Total messages persisted to storage.\n",
        "# TYPE ferroq_messages_stored_total counter\n",
        "ferroq_messages_stored_total",
        h.messages_stored,
    );
    push_metric(
        buf,
        "# HELP ferroq_storage_enabled Whether message storage is enabled (1=yes, 0=no).\n",
        "# TYPE ferroq_storage_enabled gauge\n",
        "ferroq_storage_enabled",
        if h.storage_enabled {
            1
        } else {
            0
        },
    );
    push_metric(
        buf,
        "# HELP ferroq_adapters_total Total number of backend adapters.\n",
        "# TYPE ferroq_adapters_total gauge\n",
        "ferroq_adapters_total",
        h.total_adapters as u64,
    );
    push_metric(
        buf,
        "# HELP ferroq_adapters_healthy Number of healthy backend adapters.\n",
        "# TYPE ferroq_adapters_healthy gauge\n",
        "ferroq_adapters_healthy",
        h.healthy_adapters as u64,
    );
    assert(buf@ =~= start + gateway_metrics(gauges_of(*h)));
}

fn push_adapter_healthy(buf: &mut Vec<char>, a: &AdapterSnapshot)
    ensures
        final(buf)@ == old(buf)@ + adapter_healthy_line(*a),
{
    let ghost start = buf@;
    push_str(buf, "ferroq_adapter_healthy{name=\"");
    push_str(buf, a.name.as_str());
    push_str(buf, "\",type=\"");
    push_str(buf, a.backend_type.as_str());
    push_str(buf, "\",state=\"");
    push_str(buf, a.state.as_str());
    push_str(buf, "\"} ");
    if a.healthy {
        push_str(buf, "1");
    } else {
        push_str(buf, "0");
    }
    push_str(buf, "\n");
    assert(buf@ =~= start + adapter_healthy_line(*a));
}

fn push_adapter_latency(buf: &mut Vec<char>, a: &AdapterSnapshot)
    ensures
        final(buf)@ == old(buf)@ + adapter_latency_line(*a),
{
    let ghost start = buf@;
    match a.health_check_ms {
        Some(ms) => {
            push_str(buf, "ferroq_adapter_health_check_ms{name=\"");
            push_str(buf, a.name.as_str());
            push_str(buf, "\"} ");
            push_nat_decimal(buf, ms);
            push_str(buf, "\n");
        },
        None => {},
    }
    assert(buf@ =~= start + adapter_latency_line(*a));
}

/// Renders a health report in the Prometheus text exposition format.
pub fn prometheus_text(h: &HealthResponse) -> (r: String)
    ensures
        r@ == metrics_text(*h),
{
    let mut buf: Vec<char> = Vec::new();
    push_gateway_metrics(&mut buf, h);
    let ghost g = buf@;
    let s = &h.adapters;
    if s.len() > 0 {
        push_str(&mut buf, "# HELP ferroq_adapter_healthy Whether a backend adapter is healthy (1=yes, 0=no).\n");
        push_str(&mut buf, "# TYPE ferroq_adapter_healthy gauge\n");
        let ghost b0 = buf@;
        let mut i: usize = 0;
        while i < s.len()
            invariant
                i <= s.len(),
                buf@ == b0 + healthy_lines(s@, i as int),
            decreases s.len() - i,
        {
            push_adapter_healthy(&mut buf, &s[i]);
            assert(buf@ =~= b0 + healthy_lines(s@, i + 1));
            i = i + 1;
        }
        push_str(&mut buf, "\n");
        push_str(&mut buf, "# HELP ferroq_adapter_health_check_ms Latency of the last health check in milliseconds.\n");
        push_str(&mut buf, "# TYPE ferroq_adapter_health_check_ms gauge\n");
        let ghost b1 = buf@;
        let mut i: usize = 0;
        while i < s.len()
            invariant
                i <= s.len(),
                buf@ == b1 + latency_lines(s@, i as int),
            decreases s.len() - i,
        {
            push_adapter_latency(&mut buf, &s[i]);
            assert(buf@ =~= b1 + latency_lines(s@, i + 1));
            i = i + 1;
        }
        push_str(&mut buf, "\n");
    }
    assert(buf@ =~= metrics_text(*h));
    string_from_chars(buf.as_slice())
}

} // verus!
