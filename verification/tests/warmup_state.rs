use stratus_core::warmup::WarmupConfig;
use stratus_core::warmup::WarmupService;

#[test]
fn test_warmup_config_default() {
    let config = WarmupConfig::default();
    assert_eq!(config.interval_secs, 30);
    assert_eq!(config.model, "llama3.2:3b");
}

#[test]
fn start_is_idempotent() {
    let mut service = WarmupService::default();
    assert!(!service.is_running());
    service.start();
    assert!(service.is_running());
    // Starting again is a no-op, not an error.
    service.start();
    assert!(service.is_running());
    service.stop();
    assert!(!service.is_running());
}

#[test]
fn counter_is_monotonic_across_a_run() {
    let mut service = WarmupService::new(WarmupConfig::default());
    service.start();
    let mut previous = service.stats().heartbeat_count;
    for latency in [120u64, 80, 250] {
        assert!(service.cycle_wants_ping());
        service.record_heartbeat(latency);
        let count = service.stats().heartbeat_count;
        assert!(count >= previous);
        assert_eq!(count, previous + 1);
        assert_eq!(service.stats().last_latency_ms, latency);
        previous = count;
    }
    assert_eq!(service.stats().heartbeat_count, 3);
    assert!(service.stats().is_running);
}

#[test]
fn pause_blocks_the_next_cycle_until_resume() {
    let mut service = WarmupService::default();
    service.start();
    service.record_heartbeat(90);
    assert_eq!(service.stats().heartbeat_count, 1);

    service.pause();
    assert!(service.is_paused());
    // The next cycle boundary sees the paused flag and performs no ping,
    // so the counter cannot advance.
    assert!(!service.cycle_wants_ping());
    assert_eq!(service.stats().heartbeat_count, 1);

    service.resume();
    assert!(!service.is_paused());
    assert!(service.cycle_wants_ping());
    service.record_heartbeat(75);
    assert_eq!(service.stats().heartbeat_count, 2);
}

#[test]
fn stopped_service_wants_no_ping() {
    let service = WarmupService::default();
    assert!(!service.cycle_wants_ping());
}

#[test]
fn failed_ping_is_recorded_like_any_other() {
    // A failed ping still yields a round-trip measurement; it is recorded
    // and counted, and nothing escalates.
    let mut service = WarmupService::default();
    service.start();
    service.record_heartbeat(15_000);
    assert_eq!(service.stats().heartbeat_count, 1);
    assert_eq!(service.stats().last_latency_ms, 15_000);
    assert!(service.is_running());
}

#[test]
fn ping_body_is_the_minimal_deterministic_request() {
    let service = WarmupService::default();
    assert_eq!(
        service.ping_body(),
        "{\"model\":\"llama3.2:3b\",\"prompt\":\"Ready\",\"stream\":false,\"options\":{\"temperature\":0.0,\"num_predict\":5}}"
    );
}
