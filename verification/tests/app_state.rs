use stratus_core::appstate::Command;
use stratus_core::appstate::Message;
use stratus_core::appstate::OllamaStatus;
use stratus_core::appstate::StratusApp;
use stratus_core::appstate::connection_text;
use stratus_core::appstate::mhz_text;
use stratus_core::appstate::ollama_text;
use stratus_core::appstate::telemetry_panel_lines;
use stratus_core::telemetry::Telemetry;

#[test]
fn initial_state_requests_an_endpoint_probe() {
    let (app, command) = StratusApp::new();
    assert_eq!(command, Command::CheckOllama);
    assert_eq!(app.comm_log.len(), 1);
    assert_eq!(app.comm_log[0].speaker, "SYSTEM");
    assert_eq!(
        app.comm_log[0].message,
        "Stratus ATC initialized. Waiting for X-Plane connection..."
    );
    assert!(!app.connected);
    assert_eq!(app.ollama_status, OllamaStatus::Unknown);
    assert_eq!(app.input_text, "");
    assert_eq!(OllamaStatus::default(), OllamaStatus::Unknown);
}

#[test]
fn typing_updates_the_draft_line() {
    let (mut app, _) = StratusApp::new();
    let command = app.update(Message::InputChanged(String::from("request taxi")), false);
    assert_eq!(command, Command::Idle);
    assert_eq!(app.input_text, "request taxi");
    assert_eq!(app.comm_log.len(), 1);
}

#[test]
fn sending_logs_pilot_line_and_acknowledgement() {
    let (mut app, _) = StratusApp::new();
    let _ = app.update(Message::InputChanged(String::from("request taxi")), false);
    let command = app.update(Message::SendMessage, false);
    assert_eq!(command, Command::Idle);
    assert_eq!(app.input_text, "");
    assert_eq!(app.comm_log.len(), 3);
    assert_eq!(app.comm_log[1].speaker, "PILOT");
    assert_eq!(app.comm_log[1].message, "request taxi");
    assert_eq!(app.comm_log[2].speaker, "ATC");
    assert_eq!(app.comm_log[2].message, "Roger, request taxi");
}

#[test]
fn sending_blank_input_changes_nothing() {
    let (mut app, _) = StratusApp::new();
    let _ = app.update(Message::InputChanged(String::from("   \n")), false);
    let _ = app.update(Message::SendMessage, false);
    assert_eq!(app.comm_log.len(), 1);
    assert_eq!(app.input_text, "   \n");
}

#[test]
fn telemetry_success_connects_and_stores_the_snapshot() {
    let (mut app, _) = StratusApp::new();
    let mut snapshot = Telemetry::default();
    snapshot.timestamp = 7;
    let command = app.update(Message::TelemetryUpdated(Ok(snapshot)), false);
    assert_eq!(command, Command::Idle);
    assert!(app.connected);
    assert_eq!(app.telemetry.timestamp, 7);
}

#[test]
fn telemetry_failure_disconnects_only_when_stale() {
    let (mut app, _) = StratusApp::new();
    let _ = app.update(Message::TelemetryUpdated(Ok(Telemetry::default())), false);
    assert!(app.connected);
    let _ = app.update(Message::TelemetryUpdated(Err(String::from("no file"))), false);
    assert!(app.connected);
    let _ = app.update(Message::TelemetryUpdated(Err(String::from("no file"))), true);
    assert!(!app.connected);
}

#[test]
fn endpoint_probe_outcome_sets_the_indicator() {
    let (mut app, _) = StratusApp::new();
    let _ = app.update(Message::OllamaStatusChanged(true), false);
    assert_eq!(app.ollama_status, OllamaStatus::Connected);
    let _ = app.update(Message::OllamaStatusChanged(false), false);
    assert_eq!(app.ollama_status, OllamaStatus::Disconnected);
}

#[test]
fn timers_map_to_commands() {
    let (mut app, _) = StratusApp::new();
    assert_eq!(app.update(Message::Tick, false), Command::ReadTelemetry);
    assert_eq!(app.update(Message::CheckOllama, false), Command::CheckOllama);
    assert_eq!(app.comm_log.len(), 1);
}

#[test]
fn header_texts_follow_the_indicators() {
    assert_eq!(connection_text(true), "Connected to X-Plane");
    assert_eq!(connection_text(false), "Waiting for X-Plane...");
    assert_eq!(ollama_text(OllamaStatus::Connected), "Ollama Ready");
    assert_eq!(ollama_text(OllamaStatus::Disconnected), "Ollama Offline");
    assert_eq!(ollama_text(OllamaStatus::Unknown), "Checking Ollama...");
}

#[test]
fn telemetry_panel_renders_derived_readings() {
    let mut t = Telemetry::default();
    t.position.altitude_msl_cm = 45_720;
    t.orientation.heading_mag_deg = 275;
    t.speed.ground_speed_cmps = 2_573;
    t.speed.ias_ckts = 9_550;
    t.transponder.code = 75;
    t.radios.com1_hz = 118_300_000;
    let lines = telemetry_panel_lines(&t);
    assert_eq!(lines.len(), 7);
    assert_eq!(lines[0], "TELEMETRY");
    assert_eq!(lines[1], "ALT: 1500 ft");
    assert_eq!(lines[2], "HDG: 275 deg");
    assert_eq!(lines[3], "GS: 50 kts");
    assert_eq!(lines[4], "IAS: 95 kts");
    assert_eq!(lines[5], "XPDR: 0075");
    assert_eq!(lines[6], "COM1: 118.300");
    assert_eq!(mhz_text(121_507_250), "121.507");
}

#[test]
fn comm_log_lines_tag_each_entry() {
    let (mut app, _) = StratusApp::new();
    let _ = app.update(Message::InputChanged(String::from("radio check")), false);
    let _ = app.update(Message::SendMessage, false);
    let lines = app.comm_log_lines();
    assert_eq!(lines.len(), 3);
    assert_eq!(lines[0], "SYSTEM: Stratus ATC initialized. Waiting for X-Plane connection...");
    assert_eq!(lines[1], "PILOT: radio check");
    assert_eq!(lines[2], "ATC: Roger, radio check");
}
