use stratus_core::telemetry::FlightPhase;
use stratus_core::telemetry::Telemetry;
use stratus_core::telemetry::TelemetryCache;
use stratus_core::telemetry::TelemetryError;
use stratus_core::telemetry::feet_from_cm;
use stratus_core::telemetry::flight_phase;
use stratus_core::telemetry::knots_from_cmps;

#[test]
fn altitude_conversion_truncates_toward_zero() {
    // 457.20 m is 1500.00048 ft.
    assert_eq!(feet_from_cm(45_720), 1500);
    // 3.00 m is 9.84 ft.
    assert_eq!(feet_from_cm(300), 9);
    assert_eq!(feet_from_cm(0), 0);
    // -1.00 m is -3.28 ft.
    assert_eq!(feet_from_cm(-100), -3);
}

#[test]
fn speed_conversion_truncates_toward_zero() {
    // 25.73 m/s is 50.015 kts.
    assert_eq!(knots_from_cmps(2_573), 50);
    assert_eq!(knots_from_cmps(0), 0);
    // -1.00 m/s is -1.94 kts.
    assert_eq!(knots_from_cmps(-100), -1);
}

#[test]
fn phase_classification_matches_thresholds() {
    let mut t = Telemetry::default();
    t.state.on_ground = true;
    t.position.altitude_msl_cm = 45_720;
    assert_eq!(flight_phase(&t), FlightPhase::OnGround);

    t.state.on_ground = false;
    // 300 m is 984 ft: airborne below a thousand feet.
    t.position.altitude_msl_cm = 30_000;
    assert_eq!(flight_phase(&t), FlightPhase::InPattern);

    t.position.altitude_msl_cm = 45_720;
    assert_eq!(flight_phase(&t), FlightPhase::InFlight);
}

#[test]
fn defaults_are_zeroed() {
    let t = Telemetry::default();
    assert_eq!(t.timestamp, 0);
    assert_eq!(t.simulator, "");
    assert_eq!(t.position.altitude_msl_cm, 0);
    assert_eq!(t.speed.ground_speed_cmps, 0);
    assert_eq!(t.radios.com1_hz, 0);
    assert_eq!(t.transponder.code, 0);
    assert!(!t.state.on_ground);
    assert!(!t.state.paused);
}

#[test]
fn parse_failure_leaves_cached_snapshot_untouched() {
    // Scenario: the telemetry file turns into invalid JSON; the read fails
    // with a parse error and the previously cached snapshot stays exactly
    // as it was.
    let mut cache = TelemetryCache::new();
    assert!(cache.latest().is_none());

    let mut snapshot = Telemetry::default();
    snapshot.timestamp = 42;
    assert!(cache.apply(Ok(snapshot)).is_none());
    assert_eq!(cache.latest().as_ref().unwrap().timestamp, 42);

    let err = cache.apply(Err(TelemetryError::ParseError(String::from(
        "expected value at line 1 column 1",
    ))));
    assert!(matches!(err, Some(TelemetryError::ParseError(_))));
    assert_eq!(cache.latest().as_ref().unwrap().timestamp, 42);
}

#[test]
fn error_variants_round_trip_through_the_cache() {
    let mut cache = TelemetryCache::new();
    let read = cache.apply(Err(TelemetryError::ReadError(String::from("missing"))));
    assert!(matches!(read, Some(TelemetryError::ReadError(_))));
    let watch = cache.apply(Err(TelemetryError::WatchError(String::from("watch failed"))));
    assert!(matches!(watch, Some(TelemetryError::WatchError(_))));
    assert!(cache.latest().is_none());
}
