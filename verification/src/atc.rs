//! Conversation engine: bounded dialogue history and deterministic prompt
//! construction from the latest telemetry snapshot.
//!
//! An exchange is split around the generation request: `begin_exchange`
//! records the pilot's words and renders the full prompt, and once a reply
//! has been obtained `complete_exchange` records it and applies the history
//! trim policy. The pilot's entry is kept even when generation fails, so a
//! retry never duplicates it.

use vstd::prelude::*;
use crate::ollama::OllamaClient;
use crate::telemetry::FlightPhase;
use crate::telemetry::Telemetry;
use crate::telemetry::feet_from_cm;
use crate::telemetry::flight_phase;
use crate::telemetry::knots_from_cmps;
use crate::telemetry::spec_feet_from_cm;
use crate::telemetry::spec_flight_phase;
use crate::telemetry::spec_knots_from_cmps;
use crate::text::i64_to_string;
use crate::text::int_rep;
use crate::text::pad4_rep;
use crate::text::push_char;
use crate::text::trim_spec;
use crate::text::trim_str;
use crate::text::u64_to_padded4;

verus! {

/// Who said a line of the dialogue.
#[derive(Debug, Clone, PartialEq, Eq, Structural)]
pub enum Speaker {
    Pilot,
    Atc,
}

/// One line of the dialogue, stamped with the Unix time it was recorded.
#[derive(Debug, Clone)]
pub struct ConversationEntry {
    pub speaker: Speaker,
    pub message: String,
    pub timestamp: i64,
}

/// The history never holds more than this many entries once an exchange has
/// been completed; beyond it, the oldest pair is dropped.
pub const HISTORY_CEILING: usize = 20;

/// Relies on `chrono::Utc::now().timestamp()`: the current Unix time in
/// seconds. The outcome depends on the clock, so nothing is promised of it.
#[verifier::external_body]
fn unix_now() -> i64 {
    chrono::Utc::now().timestamp()
}

/// The scene-setting words for a flight phase.
pub open spec fn spec_phase_phrase(p: FlightPhase) -> Seq<char> {
    match p {
        FlightPhase::OnGround => "on the ground"@,
        FlightPhase::InPattern => "in the pattern"@,
        FlightPhase::InFlight => "in flight"@,
    }
}

pub fn phase_phrase(p: FlightPhase) -> (r: &'static str)
    ensures
        r@ == spec_phase_phrase(p),
{
    match p {
        FlightPhase::OnGround => "on the ground",
        FlightPhase::InPattern => "in the pattern",
        FlightPhase::InFlight => "in flight",
    }
}

/// The instruction template: role, aircraft, derived position line, squawk,
/// and the phraseology rules.
pub open spec fn spec_system_prompt(
    callsign: Seq<char>,
    aircraft_type: Seq<char>,
    t: Telemetry,
) -> Seq<char> {
    "You are an FAA Air Traffic Controller. Respond with proper ATC phraseology.\n\nAIRCRAFT: "@
        + callsign + " ("@ + aircraft_type + ")\nPOSITION: "@ + spec_phase_phrase(
        spec_flight_phase(t),
    ) + " at "@ + int_rep(spec_feet_from_cm(t.position.altitude_msl_cm as int)) + " ft MSL, heading "@
        + int_rep(t.orientation.heading_mag_deg as int) + " deg, "@ + int_rep(
        spec_knots_from_cmps(t.speed.ground_speed_cmps as int),
    ) + " kts\nSQUAWK: "@ + pad4_rep(t.transponder.code as int)
        + "\n\nRULES:\n1. Use standard FAA phraseology\n2. Be concise - real ATC is brief\n3. Include callsign in every transmission\n4. If unclear, ask pilot to \"say again\"\n\nRespond ONLY with what ATC would say. No explanations."@
}

/// The tag a history line starts with.
pub open spec fn spec_speaker_tag(s: Speaker) -> Seq<char> {
    if s == Speaker::Pilot {
        "PILOT: "@
    } else {
        "ATC: "@
    }
}

/// The dialogue history, one tagged line per entry, joined with line breaks.
pub open spec fn spec_history_lines(h: Seq<ConversationEntry>) -> Seq<char>
    decreases h.len(),
{
    if h.len() == 0 {
        Seq::empty()
    } else if h.len() == 1 {
        spec_speaker_tag(h[0].speaker) + h[0].message@
    } else {
        spec_history_lines(h.drop_last()) + seq!['\n'] + spec_speaker_tag(h.last().speaker)
            + h.last().message@
    }
}

/// The complete prompt for one exchange: system prompt, recorded history
/// (already including the pilot's new line), and the cue for the reply.
pub open spec fn spec_full_prompt(
    callsign: Seq<char>,
    aircraft_type: Seq<char>,
    t: Telemetry,
    history: Seq<ConversationEntry>,
    pilot: Seq<char>,
) -> Seq<char> {
    spec_system_prompt(callsign, aircraft_type, t) + "\n\nCONVERSATION:\n"@ + spec_history_lines(
        history,
    ) + "\nPILOT: "@ + pilot + "\nATC:"@
}

/// The speakers alternate, pilot first.
pub open spec fn alternating(h: Seq<ConversationEntry>) -> bool {
    forall|k: int|
        0 <= k < h.len() ==> h[k].speaker == (if k % 2 == 0 {
            Speaker::Pilot
        } else {
            Speaker::Atc
        })
}

/// Dropping the two oldest entries of an alternating history removes one
/// complete pilot/controller pair and preserves the alternating order.
pub proof fn lemma_trim_preserves_alternation(h: Seq<ConversationEntry>)
    requires
        alternating(h),
        h.len() >= 2,
    ensures
        alternating(h.subrange(2, h.len() as int)),
        h.subrange(2, h.len() as int).len() == h.len() - 2,
        h[0].speaker == Speaker::Pilot,
        h[1].speaker == Speaker::Atc,
{
    let t = h.subrange(2, h.len() as int);
    assert forall|k: int| 0 <= k < t.len() implies t[k].speaker == (if k % 2 == 0 {
        Speaker::Pilot
    } else {
        Speaker::Atc
    }) by {
        assert(t[k] == h[k + 2]);
        assert((k + 2) % 2 == k % 2) by (nonlinear_arith)
            requires
                k >= 0,
        ;
    }
}

/// The conversation engine: the endpoint configuration, the bounded
/// history, and the aircraft identity the prompts speak of.
pub struct AtcEngine {
    ollama: OllamaClient,
    conversation_history: Vec<ConversationEntry>,
    callsign: String,
    aircraft_type: String,
}

impl AtcEngine {
    pub closed spec fn history_spec(self) -> Seq<ConversationEntry> {
        self.conversation_history@
    }

    pub closed spec fn callsign_spec(self) -> Seq<char> {
        self.callsign@
    }

    pub closed spec fn aircraft_spec(self) -> Seq<char> {
        self.aircraft_type@
    }

    pub closed spec fn ollama_spec(self) -> OllamaClient {
        self.ollama
    }

    pub fn new(callsign: &str, aircraft_type: &str) -> (r: Self)
        ensures
            r.history_spec() == Seq::<ConversationEntry>::empty(),
            r.callsign_spec() == callsign@,
            r.aircraft_spec() == aircraft_type@,
            r.ollama_spec().model@ == "llama3.2"@,
            r.ollama_spec().base_url@ == "http://localhost:11434"@,
    {
        AtcEngine {
            ollama: OllamaClient::default(),
            conversation_history: Vec::new(),
            callsign: String::from_str(callsign),
            aircraft_type: String::from_str(aircraft_type),
        }
    }

    pub fn with_model(self, model: &str) -> (r: Self)
        ensures
            r.history_spec() == self.history_spec(),
            r.callsign_spec() == self.callsign_spec(),
            r.aircraft_spec() == self.aircraft_spec(),
            r.ollama_spec().model@ == model@,
            r.ollama_spec().base_url@ == "http://localhost:11434"@,
    {
        AtcEngine {
            ollama: OllamaClient::new(model),
            conversation_history: self.conversation_history,
            callsign: self.callsign,
            aircraft_type: self.aircraft_type,
        }
    }

    /// The endpoint configuration, for the caller that performs the request.
    pub fn ollama(&self) -> (r: &OllamaClient)
        ensures
            *r == self.ollama_spec(),
    {
        &self.ollama
    }

    /// Renders the instruction template from the snapshot: altitude in feet
    /// from centimetres, ground speed in knots, and the coarse flight phase.
    pub fn build_system_prompt(&self, telemetry: &Telemetry) -> (r: String)
        requires
            telemetry.wf(),
        ensures
            r@ == spec_system_prompt(self.callsign_spec(), self.aircraft_spec(), *telemetry),
    {
        let altitude_ft = feet_from_cm(telemetry.position.altitude_msl_cm);
        let heading = telemetry.orientation.heading_mag_deg;
        let ground_speed_kts = knots_from_cmps(telemetry.speed.ground_speed_cmps);
        let phase = phase_phrase(flight_phase(telemetry));

        let mut s = String::from_str(
            "You are an FAA Air Traffic Controller. Respond with proper ATC phraseology.\n\nAIRCRAFT: ",
        );
        s.append(self.callsign.as_str());
        s.append(" (");
        s.append(self.aircraft_type.as_str());
        s.append(")\nPOSITION: ");
        s.append(phase);
        s.append(" at ");
        let alt_text = i64_to_string(altitude_ft);
        s.append(alt_text.as_str());
        s.append(" ft MSL, heading ");
        let heading_text = i64_to_string(heading as i64);
        s.append(heading_text.as_str());
        s.append(" deg, ");
        let speed_text = i64_to_string(ground_speed_kts);
        s.append(speed_text.as_str());
        s.append(" kts\nSQUAWK: ");
        let squawk_text = u64_to_padded4(telemetry.transponder.code as u64);
        s.append(squawk_text.as_str());
        s.append(
            "\n\nRULES:\n1. Use standard FAA phraseology\n2. Be concise - real ATC is brief\n3. Include callsign in every transmission\n4. If unclear, ask pilot to \"say again\"\n\nRespond ONLY with what ATC would say. No explanations.",
        );
        s
    }

    /// The recorded history as tagged lines for the prompt.
    pub fn format_history(&self) -> (r: String)
        ensures
            r@ == spec_history_lines(self.history_spec()),
    {
        let h = &self.conversation_history;
        let mut s = String::new();
        let mut i: usize = 0;
        proof {
            assert(h@.subrange(0, 0) =~= Seq::<ConversationEntry>::empty());
        }
        while i < h.len()
            invariant
                0 <= i <= h@.len(),
                s@ == spec_history_lines(h@.subrange(0, i as int)),
            decreases h@.len() - i,
        {
            let ghost pre = h@.subrange(0, i as int);
            if i > 0 {
                push_char(&mut s, '\n');
            }
            let e = &h[i];
            match e.speaker {
                Speaker::Pilot => s.append("PILOT: "),
                Speaker::Atc => s.append("ATC: "),
            }
            s.append(e.message.as_str());
            proof {
                let post = h@.subrange(0, i + 1 as int);
                assert(post.drop_last() =~= pre);
                assert(post.last() == h@[i as int]);
                assert(post[0] == h@[0]);
                if i == 0 {
                    assert(s@ =~= spec_speaker_tag(post[0].speaker) + post[0].message@);
                } else {
                    assert(s@ =~= spec_history_lines(pre) + seq!['\n'] + spec_speaker_tag(
                        post.last().speaker,
                    ) + post.last().message@);
                }
            }
            i = i + 1;
        }
        proof {
            assert(h@.subrange(0, h@.len() as int) =~= h@);
        }
        s
    }

    /// Records the pilot's words and renders the complete prompt for the
    /// generation request. The history grows by exactly this one entry.
    pub fn begin_exchange(&mut self, pilot_message: &str, telemetry: &Telemetry) -> (prompt:
        String)
        requires
            telemetry.wf(),
        ensures
            final(self).callsign_spec() == old(self).callsign_spec(),
            final(self).aircraft_spec() == old(self).aircraft_spec(),
            final(self).ollama_spec() == old(self).ollama_spec(),
            final(self).history_spec().len() == old(self).history_spec().len() + 1,
            final(self).history_spec().drop_last() == old(self).history_spec(),
            final(self).history_spec().last().speaker == Speaker::Pilot,
            final(self).history_spec().last().message@ == pilot_message@,
            prompt@ == spec_full_prompt(
                old(self).callsign_spec(),
                old(self).aircraft_spec(),
                *telemetry,
                final(self).history_spec(),
                pilot_message@,
            ),
    {
        let ts = unix_now();
        self.conversation_history.push(
            ConversationEntry {
                speaker: Speaker::Pilot,
                message: String::from_str(pilot_message),
                timestamp: ts,
            },
        );
        proof {
            assert(self.conversation_history@.drop_last() =~= old(self).conversation_history@);
        }
        let mut prompt = self.build_system_prompt(telemetry);
        let history = self.format_history();
        prompt.append("\n\nCONVERSATION:\n");
        prompt.append(history.as_str());
        prompt.append("\nPILOT: ");
        prompt.append(pilot_message);
        prompt.append("\nATC:");
        prompt
    }

    /// Records the generated reply, trimmed, and applies the trim policy:
    /// when the history exceeds its ceiling, the two oldest entries are
    /// dropped. A history at most one over the ceiling on entry is within
    /// the ceiling afterwards.
    pub fn complete_exchange(&mut self, response: &str) -> (r: String)
        ensures
            r@ == trim_spec(response@),
            final(self).callsign_spec() == old(self).callsign_spec(),
            final(self).aircraft_spec() == old(self).aircraft_spec(),
            final(self).ollama_spec() == old(self).ollama_spec(),
            final(self).history_spec().len() > 0,
            final(self).history_spec().last().speaker == Speaker::Atc,
            final(self).history_spec().last().message@ == trim_spec(response@),
            old(self).history_spec().len() + 1 <= HISTORY_CEILING ==> {
                &&& final(self).history_spec().len() == old(self).history_spec().len() + 1
                &&& final(self).history_spec().drop_last() == old(self).history_spec()
            },
            old(self).history_spec().len() + 1 > HISTORY_CEILING ==> {
                &&& final(self).history_spec().len() == old(self).history_spec().len() - 1
                &&& final(self).history_spec().drop_last() == old(self).history_spec().subrange(
                    2,
                    old(self).history_spec().len() as int,
                )
            },
            old(self).history_spec().len() <= HISTORY_CEILING + 1
                ==> final(self).history_spec().len() <= HISTORY_CEILING,
    {
        let trimmed = trim_str(response);
        let ts = unix_now();
        let message = trimmed.clone();
        self.conversation_history.push(
            ConversationEntry { speaker: Speaker::Atc, message, timestamp: ts },
        );
        let ghost pushed = self.conversation_history@;
        proof {
            assert(pushed.drop_last() =~= old(self).conversation_history@);
        }
        if self.conversation_history.len() > HISTORY_CEILING {
            self.conversation_history.remove(0);
            self.conversation_history.remove(0);
            proof {
                assert(self.conversation_history@ =~= pushed.subrange(2, pushed.len() as int));
                assert(self.conversation_history@.drop_last()
                    =~= old(self).conversation_history@.subrange(
                    2,
                    old(self).conversation_history@.len() as int,
                ));
                assert(self.conversation_history@.last() == pushed.last());
            }
        }
        trimmed
    }

    /// The recorded dialogue, oldest first.
    pub fn history(&self) -> (r: &Vec<ConversationEntry>)
        ensures
            r@ == self.history_spec(),
    {
        &self.conversation_history
    }

    pub fn clear_history(&mut self)
        ensures
            final(self).history_spec() == Seq::<ConversationEntry>::empty(),
            final(self).callsign_spec() == old(self).callsign_spec(),
            final(self).aircraft_spec() == old(self).aircraft_spec(),
            final(self).ollama_spec() == old(self).ollama_spec(),
    {
        self.conversation_history.clear();
    }
}

} // verus!
