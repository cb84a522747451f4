//! Warmup heartbeat state machine.
//!
//! A periodic minimal generation request keeps the model resident so the
//! first real request never pays a cold start. The timing loop and the
//! request itself live outside the library; this module owns the decisions:
//! whether a cycle may ping, and how a completed ping updates the published
//! statistics. Ping failures are recorded as a latency like any other
//! outcome and never escalate.

use vstd::prelude::*;
use crate::ollama::render_generate_request;
use crate::ollama::spec_generate_request;

verus! {

/// Configuration of one heartbeat run: model, interval between pings in
/// seconds, and the endpoint address. Immutable while the run lives.
#[derive(Debug, Clone)]
pub struct WarmupConfig {
    pub model: String,
    pub interval_secs: u64,
    pub ollama_url: String,
}

impl Default for WarmupConfig {
    fn default() -> (r: Self)
        ensures
            r.model@ == "llama3.2:3b"@,
            r.interval_secs == 30,
            r.ollama_url@ == "http://localhost:11434"@,
    {
        WarmupConfig {
            model: String::from_str("llama3.2:3b"),
            interval_secs: 30,
            ollama_url: String::from_str("http://localhost:11434"),
        }
    }
}

/// The statistics published after each heartbeat; every update replaces the
/// previous value wholesale.
#[derive(Debug, Clone)]
pub struct WarmupStats {
    pub heartbeat_count: u64,
    pub last_latency_ms: u64,
    pub is_running: bool,
    pub is_paused: bool,
}

impl Default for WarmupStats {
    fn default() -> (r: Self)
        ensures
            r.heartbeat_count == 0,
            r.last_latency_ms == 0,
            !r.is_running,
            !r.is_paused,
    {
        WarmupStats { heartbeat_count: 0, last_latency_ms: 0, is_running: false, is_paused: false }
    }
}

/// Token budget for one warmup ping: the smallest practical request.
pub const WARMUP_NUM_PREDICT: u64 = 5;

/// Whether a cycle of a heartbeat in this state performs a ping.
pub open spec fn spec_cycle_wants_ping(running: bool, paused: bool) -> bool {
    running && !paused
}

/// A paused heartbeat pings on no cycle, whatever else its state holds, so
/// its counter cannot advance until it is resumed.
pub proof fn lemma_paused_cycle_skips(running: bool)
    ensures
        !spec_cycle_wants_ping(running, true),
{
}

/// The heartbeat state machine: stopped or running, with an orthogonal
/// paused flag sampled at each cycle boundary.
pub struct WarmupService {
    config: WarmupConfig,
    running: bool,
    paused: bool,
    stats: WarmupStats,
}

impl WarmupService {
    pub closed spec fn config_spec(self) -> WarmupConfig {
        self.config
    }

    pub closed spec fn running_spec(self) -> bool {
        self.running
    }

    pub closed spec fn paused_spec(self) -> bool {
        self.paused
    }

    pub closed spec fn stats_spec(self) -> WarmupStats {
        self.stats
    }

    pub fn new(config: WarmupConfig) -> (r: Self)
        ensures
            r.config_spec() == config,
            !r.running_spec(),
            !r.paused_spec(),
            r.stats_spec().heartbeat_count == 0,
            r.stats_spec().last_latency_ms == 0,
            !r.stats_spec().is_running,
            !r.stats_spec().is_paused,
    {
        WarmupService { config, running: false, paused: false, stats: WarmupStats::default() }
    }

    /// Marks the run started. Starting an already running service changes
    /// nothing: it is idempotent, not an error.
    pub fn start(&mut self)
        ensures
            final(self).running_spec(),
            final(self).paused_spec() == old(self).paused_spec(),
            final(self).config_spec() == old(self).config_spec(),
            final(self).stats_spec() == old(self).stats_spec(),
            final(self).stats_spec().heartbeat_count >= old(self).stats_spec().heartbeat_count,
    {
        self.running = true;
    }

    /// Signals the loop to exit at its next cycle boundary.
    pub fn stop(&mut self)
        ensures
            !final(self).running_spec(),
            final(self).paused_spec() == old(self).paused_spec(),
            final(self).config_spec() == old(self).config_spec(),
            final(self).stats_spec() == old(self).stats_spec(),
            final(self).stats_spec().heartbeat_count >= old(self).stats_spec().heartbeat_count,
    {
        self.running = false;
    }

    /// Suspends pinging from the next cycle boundary on; an in-flight
    /// request is not interrupted.
    pub fn pause(&mut self)
        ensures
            final(self).paused_spec(),
            final(self).running_spec() == old(self).running_spec(),
            final(self).config_spec() == old(self).config_spec(),
            final(self).stats_spec() == old(self).stats_spec(),
            final(self).stats_spec().heartbeat_count >= old(self).stats_spec().heartbeat_count,
    {
        self.paused = true;
    }

    pub fn resume(&mut self)
        ensures
            !final(self).paused_spec(),
            final(self).running_spec() == old(self).running_spec(),
            final(self).config_spec() == old(self).config_spec(),
            final(self).stats_spec() == old(self).stats_spec(),
            final(self).stats_spec().heartbeat_count >= old(self).stats_spec().heartbeat_count,
    {
        self.paused = false;
    }

    /// Whether the cycle that just woke up performs a ping: only a running,
    /// unpaused heartbeat does.
    pub fn cycle_wants_ping(&self) -> (r: bool)
        ensures
            r == spec_cycle_wants_ping(self.running_spec(), self.paused_spec()),
    {
        self.running && !self.paused
    }

    /// Records one completed ping: the counter advances by exactly one and
    /// a fresh statistics value is published. The measured round trip is
    /// recorded whether the ping succeeded or failed.
    pub fn record_heartbeat(&mut self, latency_ms: u64)
        requires
            spec_cycle_wants_ping(old(self).running_spec(), old(self).paused_spec()),
            old(self).stats_spec().heartbeat_count < u64::MAX,
        ensures
            final(self).running_spec() == old(self).running_spec(),
            final(self).paused_spec() == old(self).paused_spec(),
            final(self).config_spec() == old(self).config_spec(),
            final(self).stats_spec().heartbeat_count == old(self).stats_spec().heartbeat_count
                + 1,
            final(self).stats_spec().heartbeat_count >= old(self).stats_spec().heartbeat_count,
            final(self).stats_spec().last_latency_ms == latency_ms,
            final(self).stats_spec().is_running,
            !final(self).stats_spec().is_paused,
    {
        let count = self.stats.heartbeat_count;
        self.stats = WarmupStats {
            heartbeat_count: count + 1,
            last_latency_ms: latency_ms,
            is_running: true,
            is_paused: self.paused,
        };
    }

    /// The request body of one warmup ping: the fixed minimal prompt, no
    /// streaming, deterministic temperature, smallest token budget.
    pub fn ping_body(&self) -> (r: String)
        ensures
            r@ == spec_generate_request(
                self.config_spec().model@,
                "Ready"@,
                false,
                0,
                WARMUP_NUM_PREDICT as int,
            ),
    {
        render_generate_request(self.config.model.as_str(), "Ready", false, 0, WARMUP_NUM_PREDICT)
    }

    /// The most recently published statistics.
    pub fn stats(&self) -> (r: &WarmupStats)
        ensures
            *r == self.stats_spec(),
    {
        &self.stats
    }

    pub fn is_running(&self) -> (r: bool)
        ensures
            r == self.running_spec(),
    {
        self.running
    }

    pub fn is_paused(&self) -> (r: bool)
        ensures
            r == self.paused_spec(),
    {
        self.paused
    }

    /// The configured run, for the caller that owns the timing loop.
    pub fn config(&self) -> (r: &WarmupConfig)
        ensures
            *r == self.config_spec(),
    {
        &self.config
    }
}

impl Default for WarmupService {
    fn default() -> (r: Self)
        ensures
            r.config_spec().model@ == "llama3.2:3b"@,
            r.config_spec().interval_secs == 30,
            r.config_spec().ollama_url@ == "http://localhost:11434"@,
            !r.running_spec(),
            !r.paused_spec(),
            r.stats_spec().heartbeat_count == 0,
    {
        WarmupService::new(WarmupConfig::default())
    }
}

} // verus!
