//! Session and lap aggregation: the state machine that folds the decoded
//! packet stream into upload-ready records.
//!
//! Session fields arrive scattered across packet kinds and are merged into
//! one accumulating snapshot; lap boundaries are detected from the lap
//! packet's current-lap number; telemetry samples are collected per lap
//! while the tracked car is on a flying lap.  Timestamps are Unix
//! milliseconds supplied by the caller; distances keep the wire's IEEE-754
//! bit patterns.

use std::collections::BTreeMap;

use vstd::prelude::*;

use crate::assists::Assists;
use crate::packet::car_telemetry::CarTelemetryData;
use crate::packet::header::PacketHeader;
use crate::packet::lap::LapData;
use crate::packet::session::PacketSessionData;
use crate::packet::Packet;

verus! {

/// One car-telemetry capture, keyed by the elapsed lap time it was taken at.
#[derive(Debug, Clone, Copy, PartialEq, Eq)]
pub struct TelemetrySample {
    /// Elapsed lap time the sample was taken at, in milliseconds.
    pub current_lap_time_in_ms: u32,
    /// Speed of the car in kilometres per hour.
    pub speed: u16,
    /// Throttle applied, as IEEE-754 bits.
    pub throttle: u32,
    /// Steering, as IEEE-754 bits.
    pub steer: u32,
    /// Brake applied, as IEEE-754 bits.
    pub brake: u32,
    /// Clutch applied, 0 to 100.
    pub clutch: u8,
    /// Gear selected.
    pub gear: i8,
    /// Engine revolutions per minute.
    pub engine_rpm: u16,
    /// DRS state: 0 off, 1 on.
    pub drs: u8,
    /// Brake temperature per wheel in degrees Celsius.
    pub brakes_temperature: [u16; 4],
    /// Tyre surface temperature per wheel in degrees Celsius.
    pub tyres_surface_temperature: [u8; 4],
    /// Tyre inner temperature per wheel in degrees Celsius.
    pub tyres_inner_temperature: [u8; 4],
    /// Tyre pressure per wheel in PSI, as IEEE-754 bits.
    pub tyres_pressure: [u32; 4],
    /// Driving surface per wheel.
    pub surface_type: [u8; 4],
}

/// The sample captured from one car's telemetry record at the given lap
/// time.
pub open spec fn sample_of(data: CarTelemetryData, lap_time_in_ms: u32) -> TelemetrySample {
    TelemetrySample {
        current_lap_time_in_ms: lap_time_in_ms,
        speed: data.speed,
        throttle: data.throttle,
        steer: data.steer,
        brake: data.brake,
        clutch: data.clutch,
        gear: data.gear,
        engine_rpm: data.engine_rpm,
        drs: data.drs,
        brakes_temperature: data.brakes_temperature,
        tyres_surface_temperature: data.tyres_surface_temperature,
        tyres_inner_temperature: data.tyres_inner_temperature,
        tyres_pressure: data.tyres_pressure,
        surface_type: data.surface_type,
    }
}

impl TelemetrySample {
    /// Captures one car's telemetry record at the given lap time.
    pub fn new(data: CarTelemetryData, lap_time_in_ms: u32) -> (r: TelemetrySample)
        ensures
            r == sample_of(data, lap_time_in_ms),
    {
        TelemetrySample {
            current_lap_time_in_ms: lap_time_in_ms,
            speed: data.speed,
            throttle: data.throttle,
            steer: data.steer,
            brake: data.brake,
            clutch: data.clutch,
            gear: data.gear,
            engine_rpm: data.engine_rpm,
            drs: data.drs,
            brakes_temperature: data.brakes_temperature,
            tyres_surface_temperature: data.tyres_surface_temperature,
            tyres_inner_temperature: data.tyres_inner_temperature,
            tyres_pressure: data.tyres_pressure,
            surface_type: data.surface_type,
        }
    }
}

/// The in-progress lap of the tracked car.
#[derive(Debug, Clone)]
pub struct Lap {
    /// Lap number, stored post-decrement: one less than the wire's
    /// current-lap number.
    pub lap_number: u8,
    /// Current (or, once finalized, last) lap time in milliseconds.
    pub lap_time_in_ms: u32,
    /// Driver status of the tracked car: 1 means a flying lap.
    pub driver_status: u8,
    /// Sector 1 time in milliseconds.
    pub sector1_time_in_ms: u16,
    /// Sector 2 time in milliseconds.
    pub sector2_time_in_ms: u16,
    /// Whether the lap has been invalidated.
    pub lap_invalid: bool,
    /// Snapshot of the assists at the last merge.
    pub assists: Option<Assists>,
    /// Total session distance in metres, as IEEE-754 bits.
    pub total_distance: u32,
    /// Telemetry samples keyed by elapsed lap time in milliseconds; a later
    /// sample at an equal key overwrites the earlier one.
    pub car_telemetry: BTreeMap<u32, TelemetrySample>,
}

/// The stored lap number for a wire current-lap number: one less, floored
/// at zero.
pub open spec fn post_decrement(n: u8) -> u8 {
    if n >= 1 {
        (n - 1) as u8
    } else {
        0
    }
}

/// Whether `l` is a freshly opened lap for the given wire record and
/// assists snapshot: fields taken from the record, the number stored
/// post-decrement, and no samples yet.
pub open spec fn lap_opened_from(l: Lap, ld: LapData, assists: Option<Assists>) -> bool {
    &&& l.lap_number == post_decrement(ld.current_lap_num)
    &&& l.lap_time_in_ms == ld.current_lap_time_in_ms
    &&& l.driver_status == ld.driver_status
    &&& l.sector1_time_in_ms == ld.sector1_time_in_ms
    &&& l.sector2_time_in_ms == ld.sector2_time_in_ms
    &&& l.lap_invalid == (ld.current_lap_invalid != 0)
    &&& l.assists == assists
    &&& l.total_distance == ld.total_distance
    &&& l.car_telemetry@ == Map::<u32, TelemetrySample>::empty()
}

impl Lap {
    /// Opens a lap from a wire record and an assists snapshot.  The lap
    /// number is stored post-decrement (floored at zero), so the first
    /// incoming lap one is stored as lap zero.
    pub fn new(lap_data: LapData, assists: Option<Assists>) -> (r: Lap)
        ensures
            lap_opened_from(r, lap_data, assists),
    {
        let lap_number = if lap_data.current_lap_num >= 1 {
            lap_data.current_lap_num - 1
        } else {
            0
        };
        Lap {
            lap_number,
            lap_time_in_ms: lap_data.current_lap_time_in_ms,
            driver_status: lap_data.driver_status,
            sector1_time_in_ms: lap_data.sector1_time_in_ms,
            sector2_time_in_ms: lap_data.sector2_time_in_ms,
            lap_invalid: lap_data.current_lap_invalid != 0,
            assists,
            total_distance: lap_data.total_distance,
            car_telemetry: BTreeMap::new(),
        }
    }
}

/// What the caller must do after a packet has been absorbed.
#[derive(Debug)]
pub enum SessionAction {
    /// Nothing to send.
    Idle,
    /// The session is ready for its first backend registration: build the
    /// registration payload and submit it, then report the returned remote
    /// id through `set_session_uid` on success.
    Register,
    /// A lap has been finalized and is handed over by value: build its
    /// payload and submit it once; a failure is logged and the lap dropped.
    PostLap(Lap),
    /// The session has ended: submit the end-of-session summary with
    /// bounded retry.
    EndSession,
}

/// The accumulating state of one telemetry session, bounded by the
/// session-started and session-ended events.
#[derive(Debug)]
pub struct Session {
    /// Remote session identifier; absent until backend registration
    /// succeeds.
    pub session_uid: Option<String>,
    /// Index of the tracked car in the per-car arrays.
    pub player_car_index: u8,
    /// When the session started, in Unix milliseconds.
    pub start_date: i64,
    /// When the session ended, in Unix milliseconds; absent while running.
    pub end_date: Option<i64>,
    /// Total distance in metres, as IEEE-754 bits; from lap packets.
    pub total_distance: Option<u32>,
    /// Weather; from session packets.
    pub weather: Option<u8>,
    /// Local time of day in minutes; from session packets.
    pub time_of_day: Option<u32>,
    /// Total laps in the race; from session packets.
    pub total_laps: Option<u8>,
    /// Track identifier; from session packets.
    pub track_id: Option<i8>,
    /// Merged driver assists; absent until a source packet has been seen.
    pub assists: Option<Assists>,
    /// The in-progress lap, if one has been opened.
    pub current_lap: Option<Lap>,
}

/// A session as freshly created from a header and a start time.
pub open spec fn fresh_session(header: PacketHeader, start_ms: i64) -> Session {
    Session {
        session_uid: None,
        player_car_index: header.player_car_index,
        start_date: start_ms,
        end_date: None,
        total_distance: None,
        weather: None,
        time_of_day: None,
        total_laps: None,
        track_id: None,
        assists: None,
        current_lap: None,
    }
}

/// Whether the session is due for its first backend registration when the
/// next session packet arrives.
pub open spec fn registration_pending(s: Session) -> bool {
    s.initialised() && s.session_uid is None
}

/// The assists value after merging a session packet's eight fields:
/// last-write-wins on those eight, while traction control and anti-lock
/// brakes keep whatever a car status packet has contributed.
pub open spec fn assists_after_session(old_assists: Option<Assists>, p: PacketSessionData) -> Assists {
    let kept = match old_assists {
        None => (None::<u8>, None::<bool>),
        Some(a) => (a.traction_control, a.anti_lock_brakes),
    };
    Assists {
        steering_assist: Some(p.steering_assist),
        braking_assist: Some(p.braking_assist),
        gearbox_assist: Some(p.gearbox_assist),
        pit_assist: Some(p.pit_assist),
        pit_release_assist: Some(p.pit_release_assist),
        ers_assist: Some(p.ers_assist),
        drs_assist: Some(p.drs_assist),
        dynamic_racing_line: Some(p.dynamic_racing_line),
        traction_control: kept.0,
        anti_lock_brakes: kept.1,
    }
}

/// Relates the session before and after absorbing a session packet as an
/// update source: the four snapshot fields and the eight session-sourced
/// assists overwritten, everything else kept.  When assists had already
/// been populated, the in-progress lap's snapshot is refreshed too.
pub open spec fn session_packet_merged(s1: Session, s2: Session, p: PacketSessionData) -> bool {
    let a = assists_after_session(s1.assists, p);
    &&& s2.weather == Some(p.weather)
    &&& s2.time_of_day == Some(p.time_of_day)
    &&& s2.total_laps == Some(p.total_laps)
    &&& s2.track_id == Some(p.track_id)
    &&& s2.assists == Some(a)
    &&& (match s1.assists {
        None => s2.current_lap == s1.current_lap,
        Some(_) => match s1.current_lap {
            None => s2.current_lap is None,
            Some(l) => s2.current_lap == Some(Lap { assists: Some(a), ..l }),
        },
    })
    &&& s2.session_uid == s1.session_uid
    &&& s2.player_car_index == s1.player_car_index
    &&& s2.start_date == s1.start_date
    &&& s2.end_date == s1.end_date
    &&& s2.total_distance == s1.total_distance
}

/// Relates the session before and after absorbing a car status packet: the
/// two car-status-sourced assists of the tracked car overwritten, the lap
/// snapshot refreshed when assists had already been populated, everything
/// else kept.  An out-of-range tracked index leaves the state untouched.
pub open spec fn car_status_merged(
    s1: Session,
    s2: Session,
    p: crate::packet::car_status::PacketCarStatusData,
) -> bool {
    if s1.player_car_index >= 22 {
        s2 == s1
    } else {
        let data = p.car_status_data@[s1.player_car_index as int];
        let traction = Some(data.traction_control);
        let anti_lock = Some(data.anti_lock_brakes != 0);
        &&& (match s1.assists {
            None => {
                &&& s2.assists == Some(
                    Assists {
                        steering_assist: None,
                        braking_assist: None,
                        gearbox_assist: None,
                        pit_assist: None,
                        pit_release_assist: None,
                        ers_assist: None,
                        drs_assist: None,
                        dynamic_racing_line: None,
                        traction_control: traction,
                        anti_lock_brakes: anti_lock,
                    },
                )
                &&& s2.current_lap == s1.current_lap
            },
            Some(a) => {
                let merged = Assists { traction_control: traction, anti_lock_brakes: anti_lock, ..a };
                &&& s2.assists == Some(merged)
                &&& (match s1.current_lap {
                    None => s2.current_lap is None,
                    Some(l) => s2.current_lap == Some(Lap { assists: Some(merged), ..l }),
                })
            },
        })
        &&& s2.session_uid == s1.session_uid
        &&& s2.player_car_index == s1.player_car_index
        &&& s2.start_date == s1.start_date
        &&& s2.end_date == s1.end_date
        &&& s2.total_distance == s1.total_distance
        &&& s2.weather == s1.weather
        &&& s2.time_of_day == s1.time_of_day
        &&& s2.total_laps == s1.total_laps
        &&& s2.track_id == s1.track_id
    }
}

/// The session fields a lap packet never touches.
pub open spec fn lap_packet_keeps_rest(s1: Session, s2: Session) -> bool {
    &&& s2.session_uid == s1.session_uid
    &&& s2.player_car_index == s1.player_car_index
    &&& s2.start_date == s1.start_date
    &&& s2.end_date == s1.end_date
    &&& s2.weather == s1.weather
    &&& s2.time_of_day == s1.time_of_day
    &&& s2.total_laps == s1.total_laps
    &&& s2.track_id == s1.track_id
    &&& s2.assists == s1.assists
}

/// Relates state and action across a lap packet.  The tracked car's total
/// distance is always recorded; then the incoming current-lap number is
/// compared to the in-progress lap: the same lap updates in place, exactly
/// one ahead finalizes the lap for upload (with the wire's last-lap time)
/// and opens the next, and any other jump discards the lap without upload
/// and opens a fresh one from the incoming record.
pub open spec fn lap_packet_applied(
    s1: Session,
    s2: Session,
    p: crate::packet::lap::PacketLapData,
    r: SessionAction,
) -> bool {
    if s1.player_car_index >= 22 {
        s2 == s1 && r is Idle
    } else {
        let ld = p.lap_data@[s1.player_car_index as int];
        &&& s2.total_distance == Some(ld.total_distance)
        &&& lap_packet_keeps_rest(s1, s2)
        &&& (match s1.current_lap {
            None => {
                &&& r is Idle
                &&& s2.current_lap matches Some(l) && lap_opened_from(l, ld, s1.assists)
            },
            Some(l) => {
                if ld.current_lap_num == l.lap_number + 1 {
                    &&& r is Idle
                    &&& s2.current_lap == Some(
                        Lap {
                            lap_time_in_ms: ld.current_lap_time_in_ms,
                            sector1_time_in_ms: ld.sector1_time_in_ms,
                            sector2_time_in_ms: ld.sector2_time_in_ms,
                            driver_status: ld.driver_status,
                            lap_invalid: ld.current_lap_invalid != 0,
                            ..l
                        },
                    )
                } else if ld.current_lap_num == l.lap_number + 2 {
                    &&& r matches SessionAction::PostLap(finished) && finished == Lap {
                        lap_time_in_ms: ld.last_lap_time_in_ms,
                        ..l
                    }
                    &&& s2.current_lap matches Some(nl) && lap_opened_from(nl, ld, s1.assists)
                } else {
                    &&& r is Idle
                    &&& s2.current_lap matches Some(nl) && lap_opened_from(nl, ld, s1.assists)
                }
            },
        })
    }
}

/// Relates state and action across a car telemetry packet: while a lap is
/// in progress and the tracked car is on a flying lap, one sample keyed by
/// the lap's current time is inserted (overwriting an equal key);
/// otherwise nothing changes.
pub open spec fn telemetry_applied(
    s1: Session,
    s2: Session,
    p: crate::packet::car_telemetry::PacketCarTelemetryData,
) -> bool {
    if s1.player_car_index >= 22 {
        s2 == s1
    } else {
        match s1.current_lap {
            None => s2 == s1,
            Some(l) => {
                if l.driver_status == 1 {
                    let sample = sample_of(
                        p.car_telemetry_data@[s1.player_car_index as int],
                        l.lap_time_in_ms,
                    );
                    &&& s2.current_lap matches Some(l2)
                    &&& l2.car_telemetry@ == l.car_telemetry@.insert(l.lap_time_in_ms, sample)
                    &&& l2.lap_number == l.lap_number
                    &&& l2.lap_time_in_ms == l.lap_time_in_ms
                    &&& l2.driver_status == l.driver_status
                    &&& l2.sector1_time_in_ms == l.sector1_time_in_ms
                    &&& l2.sector2_time_in_ms == l.sector2_time_in_ms
                    &&& l2.lap_invalid == l.lap_invalid
                    &&& l2.assists == l.assists
                    &&& l2.total_distance == l.total_distance
                    &&& lap_packet_keeps_rest(s1, s2)
                    &&& s2.total_distance == s1.total_distance
                } else {
                    s2 == s1
                }
            },
        }
    }
}

/// Relates the session state before and after absorbing one packet, and
/// the action the caller must take.  A session packet either triggers the
/// one-time registration (when the session is initialised and
/// unregistered; the state is left alone so a failed attempt is simply
/// retried on the next session packet) or is merged as an update source.
/// Car status packets merge the tracked car's two traction assists.  Lap
/// packets update, finalize or discard the in-progress lap.  Car telemetry
/// packets sample the tracked car on flying laps.  Every other kind leaves
/// the state untouched.
pub open spec fn session_step(s1: Session, s2: Session, packet: Packet, r: SessionAction) -> bool {
    match packet {
        Packet::Session(p) => {
            &&& (registration_pending(s1) ==> r is Register && s2 == s1)
            &&& (!registration_pending(s1) ==> r is Idle && session_packet_merged(s1, s2, p))
        },
        Packet::CarStatus(p) => r is Idle && car_status_merged(s1, s2, p),
        Packet::Lap(p) => lap_packet_applied(s1, s2, p, r),
        Packet::CarTelemetry(p) => r is Idle && telemetry_applied(s1, s2, p),
        _ => r is Idle && s2 == s1,
    }
}

impl Session {
    /// Whether the session is ready for backend registration: at least one
    /// of the five optional snapshot fields is populated, and the assists
    /// value is present and itself reports initialised.
    pub open spec fn initialised(self) -> bool {
        match self.assists {
            None => false,
            Some(a) => (self.total_distance is Some || self.weather is Some
                || self.time_of_day is Some || self.total_laps is Some
                || self.track_id is Some) && a.any_set(),
        }
    }

    /// A fresh session for the given header, started at the given Unix
    /// millisecond timestamp.
    pub fn new(header: &PacketHeader, start_ms: i64) -> (r: Session)
        ensures
            r == fresh_session(*header, start_ms),
    {
        Session {
            session_uid: None,
            player_car_index: header.player_car_index,
            start_date: start_ms,
            end_date: None,
            total_distance: None,
            weather: None,
            time_of_day: None,
            total_laps: None,
            track_id: None,
            assists: None,
            current_lap: None,
        }
    }

    /// Whether the session is ready for backend registration.
    pub fn is_initialised(&self) -> (r: bool)
        ensures
            r == self.initialised(),
    {
        match &self.assists {
            None => false,
            Some(assists) => {
                (self.total_distance.is_some() || self.weather.is_some()
                    || self.time_of_day.is_some() || self.total_laps.is_some()
                    || self.track_id.is_some()) && assists.is_initialised()
            },
        }
    }

    /// Stores the remote session identifier returned by a successful
    /// backend registration.
    pub fn set_session_uid(&mut self, uid: String)
        ensures
            *final(self) == (Session { session_uid: Some(uid), ..*old(self) }),
    {
        self.session_uid = Some(uid);
    }

    /// Absorbs one decoded packet and says what the caller must send.
    ///
    /// A session packet either triggers the one-time registration (when the
    /// session is initialised and unregistered; the state is left alone so a
    /// failed attempt is simply retried on the next session packet) or is
    /// merged as an update source.  Car status packets merge the two
    /// traction assists of the tracked car.  Lap packets update, finalize or
    /// discard the in-progress lap.  Car telemetry packets sample the
    /// tracked car on flying laps.  Every other kind leaves the state
    /// untouched.
    pub fn handle_packet(&mut self, packet: &Packet) -> (r: SessionAction)
        ensures
            session_step(*old(self), *final(self), *packet, r),
    {
        match packet {
            Packet::Session(p) => {
                if self.is_initialised() && self.session_uid.is_none() {
                    SessionAction::Register
                } else {
                    self.weather = Some(p.weather);
                    self.time_of_day = Some(p.time_of_day);
                    self.total_laps = Some(p.total_laps);
                    self.track_id = Some(p.track_id);
                    if self.assists.is_none() {
                        self.assists = Some(Assists::from_session(*p));
                    } else {
                        let mut a = self.assists.unwrap();
                        a.steering_assist = Some(p.steering_assist);
                        a.braking_assist = Some(p.braking_assist);
                        a.gearbox_assist = Some(p.gearbox_assist);
                        a.pit_assist = Some(p.pit_assist);
                        a.pit_release_assist = Some(p.pit_release_assist);
                        a.ers_assist = Some(p.ers_assist);
                        a.drs_assist = Some(p.drs_assist);
                        a.dynamic_racing_line = Some(p.dynamic_racing_line);
                        self.assists = Some(a);
                        if a.is_initialised() && self.current_lap.is_some() {
                            self.current_lap.as_mut().unwrap().assists = Some(a);
                        }
                    }
                    SessionAction::Idle
                }
            },
            Packet::CarStatus(p) => {
                let idx = self.player_car_index;
                if idx < 22 {
                    let data = p.car_status_data[idx as usize];
                    if self.assists.is_none() {
                        self.assists = Some(Assists::from_car_status(*p, idx));
                    } else {
                        let mut a = self.assists.unwrap();
                        a.anti_lock_brakes = Some(data.anti_lock_brakes != 0);
                        a.traction_control = Some(data.traction_control);
                        self.assists = Some(a);
                        if a.is_initialised() && self.current_lap.is_some() {
                            self.current_lap.as_mut().unwrap().assists = Some(a);
                        }
                    }
                }
                SessionAction::Idle
            },
            Packet::Lap(p) => {
                let idx = self.player_car_index;
                if idx >= 22 {
                    SessionAction::Idle
                } else {
                    let ld = p.lap_data[idx as usize];
                    self.total_distance = Some(ld.total_distance);
                    if self.current_lap.is_none() {
                        self.current_lap = Some(Lap::new(ld, self.assists));
                        SessionAction::Idle
                    } else {
                        let stored = self.current_lap.as_ref().unwrap().lap_number;
                        if ld.current_lap_num as u16 == stored as u16 + 1 {
                            let lap = self.current_lap.as_mut().unwrap();
                            lap.lap_time_in_ms = ld.current_lap_time_in_ms;
                            lap.sector1_time_in_ms = ld.sector1_time_in_ms;
                            lap.sector2_time_in_ms = ld.sector2_time_in_ms;
                            lap.driver_status = ld.driver_status;
                            lap.lap_invalid = ld.current_lap_invalid != 0;
                            SessionAction::Idle
                        } else if ld.current_lap_num as u16 == stored as u16 + 2 {
                            let mut finished = self.current_lap.take().unwrap();
                            finished.lap_time_in_ms = ld.last_lap_time_in_ms;
                            self.current_lap = Some(Lap::new(ld, self.assists));
                            SessionAction::PostLap(finished)
                        } else {
                            self.current_lap = Some(Lap::new(ld, self.assists));
                            SessionAction::Idle
                        }
                    }
                }
            },
            Packet::CarTelemetry(p) => {
                let idx = self.player_car_index;
                if idx < 22 && self.current_lap.is_some() {
                    let lap = self.current_lap.as_mut().unwrap();
                    if lap.driver_status == 1 {
                        let sample = TelemetrySample::new(
                            p.car_telemetry_data[idx as usize],
                            lap.lap_time_in_ms,
                        );
                        lap.car_telemetry.insert(sample.current_lap_time_in_ms, sample);
                    }
                }
                SessionAction::Idle
            },
            _ => SessionAction::Idle,
        }
    }
}

impl Session {
    /// The end-of-session summary for this session, once its end time has
    /// been stamped.
    pub fn end_request(&self) -> (r: crate::request::SessionEndRequest)
        requires
            self.end_date is Some,
        ensures
            r == (crate::request::SessionEndRequest {
                total_laps: self.total_laps,
                end_date: self.end_date.unwrap(),
                total_distance: self.total_distance,
            }),
    {
        crate::request::SessionEndRequest {
            total_laps: self.total_laps,
            end_date: *self.end_date.as_ref().unwrap(),
            total_distance: self.total_distance,
        }
    }
}

/// The snapshot sent to register a session with the backend.
#[derive(Debug, Clone, PartialEq, Eq)]
pub struct JSONTelemetrySession {
    /// Remote session identifier, if already known.
    pub uid: Option<String>,
    /// Index of the tracked car.
    pub player_car_index: u8,
    /// When the session started, in Unix milliseconds.
    pub start_date: i64,
    /// When the session ended, in Unix milliseconds, if it has.
    pub end_date: Option<i64>,
    /// Total distance in metres, as IEEE-754 bits.
    pub total_distance: u32,
    /// Weather.
    pub weather: u8,
    /// Local time of day in minutes.
    pub time_of_day: u32,
    /// Total laps in the race.
    pub total_laps: u8,
    /// Track identifier.
    pub track_id: i8,
    /// The sixteen-bit assists mask.
    pub assists: u16,
}

/// Whether every field the registration payload needs is populated: the
/// five snapshot fields and all ten assists.
pub open spec fn registration_ready(s: Session) -> bool {
    &&& s.total_distance is Some
    &&& s.weather is Some
    &&& s.time_of_day is Some
    &&& s.total_laps is Some
    &&& s.track_id is Some
    &&& s.assists matches Some(a) && a.all_set()
}

impl JSONTelemetrySession {
    /// Builds the registration payload from a session.  Succeeds exactly
    /// when every snapshot field and all ten assists are populated; an
    /// incomplete session is a recoverable error, never a crash, so a
    /// registration attempt on it is simply skipped.
    pub fn try_from_session(value: &Session) -> (r: Result<JSONTelemetrySession, &'static str>)
        ensures
            registration_ready(*value) ==> (r matches Ok(j) && {
                &&& (j.uid is Some <==> value.session_uid is Some)
                &&& (value.session_uid matches Some(u) ==> j.uid matches Some(v) && v@ == u@)
                &&& j.player_car_index == value.player_car_index
                &&& j.start_date == value.start_date
                &&& j.end_date == value.end_date
                &&& j.total_distance == value.total_distance.unwrap()
                &&& j.weather == value.weather.unwrap()
                &&& j.time_of_day == value.time_of_day.unwrap()
                &&& j.total_laps == value.total_laps.unwrap()
                &&& j.track_id == value.track_id.unwrap()
                &&& j.assists == value.assists.unwrap().mask_of()
            }),
            !registration_ready(*value) ==> (r matches Err(m) && m@
                == "Session is not initialised!"@),
    {
        if self_ready(value) {
            let mask = match value.assists.as_ref().unwrap().get_mask() {
                Ok(m) => m,
                Err(_) => {
                    return Err("Session is not initialised!");
                },
            };
            Ok(JSONTelemetrySession {
                uid: clone_opt_string(&value.session_uid),
                player_car_index: value.player_car_index,
                start_date: value.start_date,
                end_date: value.end_date,
                total_distance: *value.total_distance.as_ref().unwrap(),
                weather: *value.weather.as_ref().unwrap(),
                time_of_day: *value.time_of_day.as_ref().unwrap(),
                total_laps: *value.total_laps.as_ref().unwrap(),
                track_id: *value.track_id.as_ref().unwrap(),
                assists: mask,
            })
        } else {
            Err("Session is not initialised!")
        }
    }
}

/// Whether the session has everything the registration payload needs.
fn self_ready(value: &Session) -> (r: bool)
    ensures
        r == registration_ready(*value),
{
    value.total_distance.is_some() && value.weather.is_some() && value.time_of_day.is_some()
        && value.total_laps.is_some() && value.track_id.is_some() && value.assists.is_some()
        && value.assists.as_ref().unwrap().is_complete()
}

/// Clones an optional string, preserving its characters.
fn clone_opt_string(s: &Option<String>) -> (r: Option<String>)
    ensures
        r is Some <==> *s is Some,
        *s matches Some(u) ==> (r matches Some(v) && v@ == u@),
{
    match s {
        Some(v) => Some(v.clone()),
        None => None,
    }
}

} // verus!
