//! Pure state of the desktop surface, updated message by message.
//!
//! The rendering shell owns the windows and timers; it forwards each event
//! here as a message and performs whatever command comes back (read the
//! telemetry file, probe the endpoint). Every state transition is decided
//! in this module.

use vstd::prelude::*;
use crate::telemetry::Telemetry;
use crate::telemetry::feet_from_cm;
use crate::telemetry::knots_from_cmps;
use crate::telemetry::spec_feet_from_cm;
use crate::telemetry::spec_knots_from_cmps;
use crate::telemetry::spec_whole_from_centi;
use crate::telemetry::whole_from_centi;
use crate::text::i64_to_string;
use crate::text::int_rep;
use crate::text::pad3_rep;
use crate::text::pad4_rep;
use crate::text::trim_spec;
use crate::text::trim_str;
use crate::text::u64_to_padded3;
use crate::text::u64_to_padded4;

verus! {

/// One line of the communications log.
#[derive(Debug, Clone)]
pub struct CommEntry {
    pub speaker: String,
    pub message: String,
}

/// What is known about the model endpoint.
#[derive(Debug, Clone, PartialEq, Eq, Structural)]
pub enum OllamaStatus {
    Unknown,
    Connected,
    Disconnected,
}

impl Default for OllamaStatus {
    fn default() -> (r: Self)
        ensures
            r == OllamaStatus::Unknown,
    {
        OllamaStatus::Unknown
    }
}

/// An event delivered to the application state.
#[derive(Debug)]
pub enum Message {
    InputChanged(String),
    SendMessage,
    TelemetryUpdated(Result<Telemetry, String>),
    OllamaStatusChanged(bool),
    Tick,
    CheckOllama,
}

/// What the shell should do after an update.
#[derive(Debug, Clone, Copy, PartialEq, Eq, Structural)]
pub enum Command {
    Idle,
    ReadTelemetry,
    CheckOllama,
}

/// The application state: the draft input line, the communications log,
/// the latest snapshot, and the two link indicators.
pub struct StratusApp {
    pub input_text: String,
    pub comm_log: Vec<CommEntry>,
    pub telemetry: Telemetry,
    pub connected: bool,
    pub ollama_status: OllamaStatus,
}

impl StratusApp {
    /// The initial state: a single system line in the log, nothing
    /// connected yet, and an immediate endpoint probe requested.
    pub fn new() -> (r: (StratusApp, Command))
        ensures
            r.0.input_text@ == Seq::<char>::empty(),
            r.0.comm_log@.len() == 1,
            r.0.comm_log@[0].speaker@ == "SYSTEM"@,
            r.0.comm_log@[0].message@
                == "Stratus ATC initialized. Waiting for X-Plane connection..."@,
            !r.0.connected,
            r.0.ollama_status == OllamaStatus::Unknown,
            r.0.telemetry.wf(),
            r.1 == Command::CheckOllama,
    {
        let mut comm_log: Vec<CommEntry> = Vec::new();
        comm_log.push(
            CommEntry {
                speaker: String::from_str("SYSTEM"),
                message: String::from_str(
                    "Stratus ATC initialized. Waiting for X-Plane connection...",
                ),
            },
        );
        let app = StratusApp {
            input_text: String::new(),
            comm_log,
            telemetry: Telemetry::default(),
            connected: false,
            ollama_status: OllamaStatus::Unknown,
        };
        (app, Command::CheckOllama)
    }

    /// Applies one message. `telemetry_stale` reports whether the last
    /// successful snapshot is older than the staleness window; it matters
    /// only when a telemetry read failed.
    pub fn update(&mut self, message: Message, telemetry_stale: bool) -> (cmd: Command)
        ensures
            (match message {
                Message::InputChanged(t) => {
                    &&& final(self).input_text@ == t@
                    &&& final(self).comm_log@ == old(self).comm_log@
                    &&& final(self).telemetry == old(self).telemetry
                    &&& final(self).connected == old(self).connected
                    &&& final(self).ollama_status == old(self).ollama_status
                    &&& cmd == Command::Idle
                },
                Message::SendMessage => {
                    &&& (if trim_spec(old(self).input_text@).len() == 0 {
                        *final(self) == *old(self)
                    } else {
                        let n = old(self).comm_log@.len() as int;
                        &&& final(self).input_text@ == Seq::<char>::empty()
                        &&& final(self).comm_log@.len() == n + 2
                        &&& final(self).comm_log@.subrange(0, n) == old(self).comm_log@
                        &&& final(self).comm_log@[n].speaker@ == "PILOT"@
                        &&& final(self).comm_log@[n].message@ == old(self).input_text@
                        &&& final(self).comm_log@[n + 1].speaker@ == "ATC"@
                        &&& final(self).comm_log@[n + 1].message@ == "Roger, "@ + old(
                            self,
                        ).input_text@
                        &&& final(self).telemetry == old(self).telemetry
                        &&& final(self).connected == old(self).connected
                        &&& final(self).ollama_status == old(self).ollama_status
                    })
                    &&& cmd == Command::Idle
                },
                Message::TelemetryUpdated(outcome) => {
                    &&& (match outcome {
                        Ok(t) => {
                            &&& final(self).telemetry == t
                            &&& final(self).connected
                            &&& final(self).input_text@ == old(self).input_text@
                            &&& final(self).comm_log@ == old(self).comm_log@
                            &&& final(self).ollama_status == old(self).ollama_status
                        },
                        Err(_) => {
                            &&& final(self).connected == (if telemetry_stale {
                                false
                            } else {
                                old(self).connected
                            })
                            &&& final(self).input_text@ == old(self).input_text@
                            &&& final(self).comm_log@ == old(self).comm_log@
                            &&& final(self).telemetry == old(self).telemetry
                            &&& final(self).ollama_status == old(self).ollama_status
                        },
                    })
                    &&& cmd == Command::Idle
                },
                Message::OllamaStatusChanged(available) => {
                    &&& final(self).ollama_status == (if available {
                        OllamaStatus::Connected
                    } else {
                        OllamaStatus::Disconnected
                    })
                    &&& final(self).input_text@ == old(self).input_text@
                    &&& final(self).comm_log@ == old(self).comm_log@
                    &&& final(self).telemetry == old(self).telemetry
                    &&& final(self).connected == old(self).connected
                    &&& cmd == Command::Idle
                },
                Message::Tick => *final(self) == *old(self) && cmd == Command::ReadTelemetry,
                Message::CheckOllama => *final(self) == *old(self) && cmd == Command::CheckOllama,
            }),
    {
        match message {
            Message::InputChanged(text) => {
                self.input_text = text;
                Command::Idle
            },
            Message::SendMessage => {
                let trimmed = trim_str(self.input_text.as_str());
                if trimmed.as_str().unicode_len() > 0 {
                    let ghost n = self.comm_log@.len() as int;
                    let pilot_message = self.input_text.clone();
                    let mut roger = String::from_str("Roger, ");
                    roger.append(self.input_text.as_str());
                    self.comm_log.push(
                        CommEntry { speaker: String::from_str("PILOT"), message: pilot_message },
                    );
                    self.comm_log.push(
                        CommEntry { speaker: String::from_str("ATC"), message: roger },
                    );
                    self.input_text = String::new();
                    proof {
                        assert(self.comm_log@.subrange(0, n) =~= old(self).comm_log@);
                    }
                }
                Command::Idle
            },
            Message::TelemetryUpdated(outcome) => {
                match outcome {
                    Ok(t) => {
                        self.telemetry = t;
                        self.connected = true;
                    },
                    Err(_) => {
                        if telemetry_stale {
                            self.connected = false;
                        }
                    },
                }
                Command::Idle
            },
            Message::OllamaStatusChanged(available) => {
                self.ollama_status = if available {
                    OllamaStatus::Connected
                } else {
                    OllamaStatus::Disconnected
                };
                Command::Idle
            },
            Message::Tick => Command::ReadTelemetry,
            Message::CheckOllama => Command::CheckOllama,
        }
    }

    /// The communications log as lines of text, oldest first.
    pub fn comm_log_lines(&self) -> (r: Vec<String>)
        ensures
            r@.len() == self.comm_log@.len(),
            forall|k: int| 0 <= k < r@.len() ==> r@[k]@ == spec_comm_line(self.comm_log@[k]),
    {
        let mut lines: Vec<String> = Vec::new();
        let mut i: usize = 0;
        while i < self.comm_log.len()
            invariant
                0 <= i <= self.comm_log@.len(),
                lines@.len() == i,
                forall|k: int| 0 <= k < i ==> lines@[k]@ == spec_comm_line(self.comm_log@[k]),
            decreases self.comm_log@.len() - i,
        {
            lines.push(comm_line_text(&self.comm_log[i]));
            i = i + 1;
        }
        lines
    }
}

/// The header line for the simulator link.
pub fn connection_text(connected: bool) -> (r: &'static str)
    ensures
        connected ==> r@ == "Connected to X-Plane"@,
        !connected ==> r@ == "Waiting for X-Plane..."@,
{
    if connected {
        "Connected to X-Plane"
    } else {
        "Waiting for X-Plane..."
    }
}

/// The header line for the model endpoint.
pub fn ollama_text(status: OllamaStatus) -> (r: &'static str)
    ensures
        (match status {
            OllamaStatus::Connected => r@ == "Ollama Ready"@,
            OllamaStatus::Disconnected => r@ == "Ollama Offline"@,
            OllamaStatus::Unknown => r@ == "Checking Ollama..."@,
        }),
{
    match status {
        OllamaStatus::Connected => "Ollama Ready",
        OllamaStatus::Disconnected => "Ollama Offline",
        OllamaStatus::Unknown => "Checking Ollama...",
    }
}

/// A frequency in megahertz with three decimals, from hertz.
pub open spec fn spec_mhz_text(hz: int) -> Seq<char> {
    int_rep(hz / 1000000) + seq!['.'] + pad3_rep((hz / 1000) % 1000)
}

pub fn mhz_text(hz: i32) -> (r: String)
    requires
        hz >= 0,
    ensures
        r@ == spec_mhz_text(hz as int),
{
    let whole: u64 = (hz as u64) / 1000000;
    let frac: u64 = ((hz as u64) / 1000) % 1000;
    let mut s = i64_to_string(whole as i64);
    crate::text::push_char(&mut s, '.');
    let frac_text = u64_to_padded3(frac);
    s.append(frac_text.as_str());
    s
}

/// The text of the telemetry panel, one line per reading: derived altitude,
/// heading, speeds, transponder code, and the active frequency.
pub fn telemetry_panel_lines(t: &Telemetry) -> (r: Vec<String>)
    requires
        t.wf(),
        t.radios.com1_hz >= 0,
    ensures
        r@.len() == 7,
        r@[0]@ == "TELEMETRY"@,
        r@[1]@ == "ALT: "@ + int_rep(spec_feet_from_cm(t.position.altitude_msl_cm as int))
            + " ft"@,
        r@[2]@ == "HDG: "@ + int_rep(t.orientation.heading_mag_deg as int) + " deg"@,
        r@[3]@ == "GS: "@ + int_rep(spec_knots_from_cmps(t.speed.ground_speed_cmps as int))
            + " kts"@,
        r@[4]@ == "IAS: "@ + int_rep(spec_whole_from_centi(t.speed.ias_ckts as int)) + " kts"@,
        r@[5]@ == "XPDR: "@ + pad4_rep(t.transponder.code as int),
        r@[6]@ == "COM1: "@ + spec_mhz_text(t.radios.com1_hz as int),
{
    let mut lines: Vec<String> = Vec::new();
    lines.push(String::from_str("TELEMETRY"));

    let mut alt = String::from_str("ALT: ");
    let alt_text = i64_to_string(feet_from_cm(t.position.altitude_msl_cm));
    alt.append(alt_text.as_str());
    alt.append(" ft");
    lines.push(alt);

    let mut hdg = String::from_str("HDG: ");
    let hdg_text = i64_to_string(t.orientation.heading_mag_deg as i64);
    hdg.append(hdg_text.as_str());
    hdg.append(" deg");
    lines.push(hdg);

    let mut gs = String::from_str("GS: ");
    let gs_text = i64_to_string(knots_from_cmps(t.speed.ground_speed_cmps));
    gs.append(gs_text.as_str());
    gs.append(" kts");
    lines.push(gs);

    let mut ias = String::from_str("IAS: ");
    let ias_text = i64_to_string(whole_from_centi(t.speed.ias_ckts));
    ias.append(ias_text.as_str());
    ias.append(" kts");
    lines.push(ias);

    let mut xpdr = String::from_str("XPDR: ");
    let xpdr_text = u64_to_padded4(t.transponder.code as u64);
    xpdr.append(xpdr_text.as_str());
    lines.push(xpdr);

    let mut com1 = String::from_str("COM1: ");
    let com1_text = mhz_text(t.radios.com1_hz);
    com1.append(com1_text.as_str());
    lines.push(com1);

    lines
}

/// How one communications-log entry reads as a line of text.
pub open spec fn spec_comm_line(e: CommEntry) -> Seq<char> {
    e.speaker@ + ": "@ + e.message@
}

pub fn comm_line_text(e: &CommEntry) -> (r: String)
    ensures
        r@ == spec_comm_line(*e),
{
    let mut s = e.speaker.clone();
    s.append(": ");
    s.append(e.message.as_str());
    s
}

} // verus!
