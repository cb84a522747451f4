use stratus_core::atc::AtcEngine;
use stratus_core::atc::HISTORY_CEILING;
use stratus_core::atc::Speaker;
use stratus_core::telemetry::FlightState;
use stratus_core::telemetry::Orientation;
use stratus_core::telemetry::Position;
use stratus_core::telemetry::Radios;
use stratus_core::telemetry::Speed;
use stratus_core::telemetry::Telemetry;
use stratus_core::telemetry::Transponder;

fn cruise_telemetry() -> Telemetry {
    Telemetry {
        timestamp: 1700000000,
        simulator: String::from("X-Plane"),
        aircraft: String::from("C172"),
        position: Position {
            latitude_udeg: 47_600_000,
            longitude_udeg: -122_300_000,
            altitude_msl_cm: 45_720,
            altitude_agl_cm: 40_000,
        },
        orientation: Orientation {
            heading_mag_deg: 90,
            heading_true_deg: 105,
            pitch_cdeg: 150,
            roll_cdeg: -20,
        },
        speed: Speed {
            ground_speed_cmps: 2_573,
            ias_ckts: 9_500,
            tas_cmps: 2_600,
            vertical_speed_fpm: 0,
        },
        radios: Radios {
            com1_hz: 118_300_000,
            com1_standby_hz: 121_500_000,
            com2_hz: 119_100_000,
            com2_standby_hz: 0,
            nav1_hz: 110_300_000,
            nav2_hz: 0,
        },
        transponder: Transponder { code: 1200, mode: 3 },
        state: FlightState { on_ground: false, paused: false },
    }
}

#[test]
fn system_prompt_renders_derived_fields() {
    let engine = AtcEngine::new("N123AB", "Cessna 172");
    let prompt = engine.build_system_prompt(&cruise_telemetry());
    let expected = "You are an FAA Air Traffic Controller. Respond with proper ATC phraseology.\n\nAIRCRAFT: N123AB (Cessna 172)\nPOSITION: in flight at 1500 ft MSL, heading 90 deg, 50 kts\nSQUAWK: 1200\n\nRULES:\n1. Use standard FAA phraseology\n2. Be concise - real ATC is brief\n3. Include callsign in every transmission\n4. If unclear, ask pilot to \"say again\"\n\nRespond ONLY with what ATC would say. No explanations.";
    assert_eq!(prompt, expected);
}

#[test]
fn system_prompt_pads_short_squawk_and_sees_ground() {
    let mut telemetry = cruise_telemetry();
    telemetry.transponder.code = 75;
    telemetry.state.on_ground = true;
    let engine = AtcEngine::new("N1", "Cub");
    let prompt = engine.build_system_prompt(&telemetry);
    assert!(prompt.contains("SQUAWK: 0075\n"));
    assert!(prompt.contains("POSITION: on the ground at 1500 ft MSL"));
}

#[test]
fn full_prompt_embeds_history_and_cue() {
    let mut engine = AtcEngine::new("N123AB", "Cessna 172");
    let telemetry = cruise_telemetry();
    let prompt = engine.begin_exchange("request say again", &telemetry);
    let system = engine.build_system_prompt(&telemetry);
    let expected = format!(
        "{}\n\nCONVERSATION:\nPILOT: request say again\nPILOT: request say again\nATC:",
        system
    );
    assert_eq!(prompt, expected);
    assert_eq!(engine.history().len(), 1);
    assert_eq!(engine.history()[0].speaker, Speaker::Pilot);
    assert_eq!(engine.history()[0].message, "request say again");
}

#[test]
fn completed_exchange_records_trimmed_reply() {
    let mut engine = AtcEngine::new("N123AB", "Cessna 172");
    let telemetry = cruise_telemetry();
    let _ = engine.begin_exchange("radio check", &telemetry);
    let reply = engine.complete_exchange("  N123AB, read you five by five. \n");
    assert_eq!(reply, "N123AB, read you five by five.");
    assert_eq!(engine.history().len(), 2);
    assert_eq!(engine.history()[1].speaker, Speaker::Atc);
    assert_eq!(engine.history()[1].message, "N123AB, read you five by five.");
}

#[test]
fn pilot_entry_survives_failed_generation() {
    let mut engine = AtcEngine::new("N123AB", "Cessna 172");
    let telemetry = cruise_telemetry();
    let _ = engine.begin_exchange("request taxi", &telemetry);
    // Generation failed: no completion. The pilot's words are already in
    // the history, so a retry does not duplicate them.
    assert_eq!(engine.history().len(), 1);
    assert_eq!(engine.history()[0].speaker, Speaker::Pilot);
    let _ = engine.begin_exchange("say again, tower", &telemetry);
    assert_eq!(engine.history().len(), 2);
    assert_eq!(engine.history()[1].message, "say again, tower");
}

#[test]
fn history_is_capped_by_dropping_oldest_pairs() {
    let mut engine = AtcEngine::new("N123AB", "Cessna 172");
    let telemetry = cruise_telemetry();
    for i in 1..=11 {
        let _ = engine.begin_exchange(&format!("pilot {}", i), &telemetry);
        let _ = engine.complete_exchange(&format!("atc {}", i));
        assert!(engine.history().len() <= HISTORY_CEILING);
    }
    let history = engine.history();
    assert_eq!(history.len(), HISTORY_CEILING);
    // The oldest pilot/controller pair is gone; alternation is preserved.
    assert_eq!(history[0].message, "pilot 2");
    assert_eq!(history[1].message, "atc 2");
    for (k, entry) in history.iter().enumerate() {
        let expected = if k % 2 == 0 { Speaker::Pilot } else { Speaker::Atc };
        assert_eq!(entry.speaker, expected);
    }
    assert_eq!(history[HISTORY_CEILING - 1].message, "atc 11");
}

#[test]
fn format_history_tags_and_joins_lines() {
    let mut engine = AtcEngine::new("N1", "Cub");
    let telemetry = cruise_telemetry();
    assert_eq!(engine.format_history(), "");
    let _ = engine.begin_exchange("ready to copy", &telemetry);
    let _ = engine.complete_exchange("N1, cleared as filed.");
    assert_eq!(engine.format_history(), "PILOT: ready to copy\nATC: N1, cleared as filed.");
}

#[test]
fn clear_history_empties_the_log() {
    let mut engine = AtcEngine::new("N1", "Cub").with_model("llama3.2:3b");
    let telemetry = cruise_telemetry();
    let _ = engine.begin_exchange("hello", &telemetry);
    let _ = engine.complete_exchange("hi");
    engine.clear_history();
    assert!(engine.history().is_empty());
    assert_eq!(engine.ollama().model, "llama3.2:3b");
}
