//! Integer model of the simulator telemetry snapshot.
//!
//! The producer writes positions and speeds as fractional values; this
//! library keeps them as scaled integers (centimetres, centimetres per
//! second, hundredths of a degree), which is what the dialogue logic reads.
//! Unit conversions and the coarse flight-phase classification live here.

use vstd::prelude::*;

verus! {

/// Failures of the telemetry channel. The payload carries the underlying
/// description as plain text from the caller that touched the file system.
#[derive(Debug, Clone)]
pub enum TelemetryError {
    ReadError(String),
    ParseError(String),
    WatchError(String),
}

/// Aircraft position: latitude and longitude in microdegrees, altitudes in
/// centimetres.
#[derive(Debug, Clone)]
pub struct Position {
    pub latitude_udeg: i64,
    pub longitude_udeg: i64,
    pub altitude_msl_cm: i64,
    pub altitude_agl_cm: i64,
}

/// Aircraft orientation: headings in whole degrees, pitch and roll in
/// hundredths of a degree.
#[derive(Debug, Clone)]
pub struct Orientation {
    pub heading_mag_deg: i32,
    pub heading_true_deg: i32,
    pub pitch_cdeg: i32,
    pub roll_cdeg: i32,
}

/// Aircraft speeds: ground and true airspeed in centimetres per second,
/// indicated airspeed in hundredths of a knot, vertical speed in feet per
/// minute.
#[derive(Debug, Clone)]
pub struct Speed {
    pub ground_speed_cmps: i32,
    pub ias_ckts: i32,
    pub tas_cmps: i32,
    pub vertical_speed_fpm: i32,
}

/// Tuned radio frequencies in hertz.
#[derive(Debug, Clone)]
pub struct Radios {
    pub com1_hz: i32,
    pub com1_standby_hz: i32,
    pub com2_hz: i32,
    pub com2_standby_hz: i32,
    pub nav1_hz: i32,
    pub nav2_hz: i32,
}

/// Transponder code and mode.
#[derive(Debug, Clone)]
pub struct Transponder {
    pub code: i32,
    pub mode: i32,
}

/// Flight-state flags.
#[derive(Debug, Clone)]
pub struct FlightState {
    pub on_ground: bool,
    pub paused: bool,
}

/// One complete, immutable snapshot of simulator state.
#[derive(Debug, Clone)]
pub struct Telemetry {
    pub timestamp: i64,
    pub simulator: String,
    pub aircraft: String,
    pub position: Position,
    pub orientation: Orientation,
    pub speed: Speed,
    pub radios: Radios,
    pub transponder: Transponder,
    pub state: FlightState,
}

impl Telemetry {
    /// Sanity bounds on a snapshot: altitudes within a thousand kilometres
    /// of the datum, and a transponder code of at most four digits. These
    /// keep every derived quantity inside machine integers.
    pub open spec fn wf(self) -> bool {
        &&& -1000000000000 <= self.position.altitude_msl_cm <= 1000000000000
        &&& -1000000000000 <= self.position.altitude_agl_cm <= 1000000000000
        &&& 0 <= self.transponder.code < 10000
    }
}

impl Default for Position {
    fn default() -> (r: Self)
        ensures
            r.latitude_udeg == 0 && r.longitude_udeg == 0 && r.altitude_msl_cm == 0
                && r.altitude_agl_cm == 0,
    {
        Position { latitude_udeg: 0, longitude_udeg: 0, altitude_msl_cm: 0, altitude_agl_cm: 0 }
    }
}

impl Default for Orientation {
    fn default() -> (r: Self)
        ensures
            r.heading_mag_deg == 0 && r.heading_true_deg == 0 && r.pitch_cdeg == 0 && r.roll_cdeg
                == 0,
    {
        Orientation { heading_mag_deg: 0, heading_true_deg: 0, pitch_cdeg: 0, roll_cdeg: 0 }
    }
}

impl Default for Speed {
    fn default() -> (r: Self)
        ensures
            r.ground_speed_cmps == 0 && r.ias_ckts == 0 && r.tas_cmps == 0 && r.vertical_speed_fpm
                == 0,
    {
        Speed { ground_speed_cmps: 0, ias_ckts: 0, tas_cmps: 0, vertical_speed_fpm: 0 }
    }
}

impl Default for Radios {
    fn default() -> (r: Self)
        ensures
            r.com1_hz == 0 && r.com1_standby_hz == 0 && r.com2_hz == 0 && r.com2_standby_hz == 0
                && r.nav1_hz == 0 && r.nav2_hz == 0,
    {
        Radios {
            com1_hz: 0,
            com1_standby_hz: 0,
            com2_hz: 0,
            com2_standby_hz: 0,
            nav1_hz: 0,
            nav2_hz: 0,
        }
    }
}

impl Default for Transponder {
    fn default() -> (r: Self)
        ensures
            r.code == 0 && r.mode == 0,
    {
        Transponder { code: 0, mode: 0 }
    }
}

impl Default for FlightState {
    fn default() -> (r: Self)
        ensures
            !r.on_ground && !r.paused,
    {
        FlightState { on_ground: false, paused: false }
    }
}

impl Default for Telemetry {
    fn default() -> (r: Self)
        ensures
            r.timestamp == 0,
            r.simulator@ == Seq::<char>::empty(),
            r.aircraft@ == Seq::<char>::empty(),
            r.position.altitude_msl_cm == 0,
            r.position.altitude_agl_cm == 0,
            r.speed.ground_speed_cmps == 0,
            r.orientation.heading_mag_deg == 0,
            r.transponder.code == 0,
            !r.state.on_ground,
            !r.state.paused,
            r.wf(),
    {
        Telemetry {
            timestamp: 0,
            simulator: String::new(),
            aircraft: String::new(),
            position: Position::default(),
            orientation: Orientation::default(),
            speed: Speed::default(),
            radios: Radios::default(),
            transponder: Transponder::default(),
            state: FlightState::default(),
        }
    }
}

/// Feet per metre, scaled: one metre is 3.28084 feet, so one centimetre
/// is 328084 ten-millionths of a foot.
pub open spec fn spec_feet_from_cm(cm: int) -> int {
    if cm >= 0 {
        (cm * 328084) / 10000000
    } else {
        -(((-cm) * 328084) / 10000000)
    }
}

/// Altitude in whole feet from centimetres, truncated toward zero.
pub fn feet_from_cm(cm: i64) -> (r: i64)
    requires
        -1000000000000 <= cm <= 1000000000000,
    ensures
        r == spec_feet_from_cm(cm as int),
{
    if cm >= 0 {
        let q: u64 = ((cm as u64) * 328084) / 10000000;
        q as i64
    } else {
        let q: u64 = (((-cm) as u64) * 328084) / 10000000;
        -(q as i64)
    }
}

/// Knots per metre per second, scaled: one metre per second is 1.94384
/// knots, so one centimetre per second is 194384 ten-millionths of a knot.
pub open spec fn spec_knots_from_cmps(cmps: int) -> int {
    if cmps >= 0 {
        (cmps * 194384) / 10000000
    } else {
        -(((-cmps) * 194384) / 10000000)
    }
}

/// Ground speed in whole knots from centimetres per second, truncated
/// toward zero.
pub fn knots_from_cmps(cmps: i32) -> (r: i64)
    ensures
        r == spec_knots_from_cmps(cmps as int),
{
    if cmps >= 0 {
        let q: u64 = ((cmps as u64) * 194384) / 10000000;
        q as i64
    } else {
        let m: i64 = -(cmps as i64);
        let q: u64 = ((m as u64) * 194384) / 10000000;
        -(q as i64)
    }
}

/// Whole units from hundredths, truncated toward zero.
pub open spec fn spec_whole_from_centi(c: int) -> int {
    if c >= 0 {
        c / 100
    } else {
        -((-c) / 100)
    }
}

pub fn whole_from_centi(c: i32) -> (r: i64)
    ensures
        r == spec_whole_from_centi(c as int),
{
    if c >= 0 {
        let q: u64 = (c as u64) / 100;
        q as i64
    } else {
        let m: i64 = -(c as i64);
        let q: u64 = (m as u64) / 100;
        -(q as i64)
    }
}

/// Coarse flight phase used to set the scene for the controller.
#[derive(Clone, Copy, Debug, PartialEq, Eq, Structural)]
pub enum FlightPhase {
    OnGround,
    InPattern,
    InFlight,
}

/// On the ground when the ground flag is set; in the pattern when airborne
/// below a thousand feet; in flight otherwise.
pub open spec fn spec_flight_phase(t: Telemetry) -> FlightPhase {
    if t.state.on_ground {
        FlightPhase::OnGround
    } else if spec_feet_from_cm(t.position.altitude_msl_cm as int) < 1000 {
        FlightPhase::InPattern
    } else {
        FlightPhase::InFlight
    }
}

pub fn flight_phase(t: &Telemetry) -> (r: FlightPhase)
    requires
        t.wf(),
    ensures
        r == spec_flight_phase(*t),
{
    if t.state.on_ground {
        FlightPhase::OnGround
    } else if feet_from_cm(t.position.altitude_msl_cm) < 1000 {
        FlightPhase::InPattern
    } else {
        FlightPhase::InFlight
    }
}

/// The most recent successfully read snapshot. A failed read never touches
/// it: there is no implicit fallback.
pub struct TelemetryCache {
    latest: Option<Telemetry>,
}

impl TelemetryCache {
    pub closed spec fn cached(self) -> Option<Telemetry> {
        self.latest
    }

    pub fn new() -> (r: Self)
        ensures
            r.cached() is None,
    {
        TelemetryCache { latest: None }
    }

    /// Records the outcome of one read: a snapshot replaces the cache
    /// wholesale, an error is handed back and leaves the cache untouched.
    pub fn apply(&mut self, outcome: Result<Telemetry, TelemetryError>) -> (r: Option<
        TelemetryError,
    >)
        ensures
            (match outcome {
                Ok(t) => final(self).cached() == Some(t) && r is None,
                Err(e) => *final(self) == *old(self) && r == Some(e),
            }),
    {
        match outcome {
            Ok(t) => {
                self.latest = Some(t);
                None
            },
            Err(e) => Some(e),
        }
    }

    /// The cached snapshot, if any read has succeeded yet.
    pub fn latest(&self) -> (r: &Option<Telemetry>)
        ensures
            *r == self.cached(),
    {
        &self.latest
    }
}

} // verus!
