//! Upload payloads and backend responses.
//!
//! A finalized lap and an ended session each become a plain payload value
//! here; the HTTP transport that carries them lives outside the library.

use vstd::prelude::*;

use crate::session::{Lap, TelemetrySample};
use std::collections::BTreeMap;

verus! {

/// What the backend returns for a successful session registration.
#[derive(Debug, Clone, PartialEq, Eq)]
pub struct ApiSessionResponse {
    /// Outcome reported by the backend.
    pub status: String,
    /// The remote identifier assigned to the session.
    pub session_uid: String,
}

/// What the backend returns for a successful lap submission.
#[derive(Debug, Clone, PartialEq, Eq)]
pub struct ApiLapResponse {
    /// Outcome reported by the backend.
    pub status: String,
}

/// The end-of-session summary submitted with bounded retry.
#[derive(Debug, Clone, Copy, PartialEq, Eq)]
pub struct SessionEndRequest {
    /// Total laps of the race, when a session packet reported it.
    pub total_laps: Option<u8>,
    /// When the session ended, in Unix milliseconds.
    pub end_date: i64,
    /// Total distance in metres as IEEE-754 bits, when a lap packet
    /// reported it.
    pub total_distance: Option<u32>,
}

/// The sector 3 time derived from a lap: the lap time less the first two
/// sectors, floored at zero and truncated to sixteen bits.
pub open spec fn sector3_of(lap_time_in_ms: u32, s1: u16, s2: u16) -> u16 {
    (if lap_time_in_ms >= s1 + s2 {
        (lap_time_in_ms - (s1 + s2)) as u32
    } else {
        0u32
    }) as u16
}

/// The payload submitted for one finalized lap.
#[derive(Debug, Clone, PartialEq, Eq)]
pub struct ApiLapRequest {
    /// Lap number as reported to the backend: the stored post-decrement
    /// number plus one, saturated at 255.
    pub lap_number: u8,
    /// Lap time in milliseconds.
    pub lap_time_in_ms: u32,
    /// Sector 1 time in milliseconds.
    pub sector1_time_in_ms: u16,
    /// Sector 2 time in milliseconds.
    pub sector2_time_in_ms: u16,
    /// Sector 3 time in milliseconds, derived from the other three times.
    pub sector3_time_in_ms: u16,
    /// Whether the lap was invalidated.
    pub lap_invalid: bool,
    /// The sixteen-bit assists mask of the lap's snapshot.
    pub assists: u16,
    /// Total session distance in metres, as IEEE-754 bits; sent every lap
    /// so the backend stays up to date.
    pub total_distance: u32,
    /// The lap's telemetry samples, keyed by elapsed lap time.
    pub car_telemetry: BTreeMap<u32, TelemetrySample>,
}

impl ApiLapRequest {
    /// Builds the upload payload for a finalized lap, taking the lap by
    /// value.  Succeeds exactly when the lap carries a fully populated
    /// assists snapshot, whose mask the payload needs; an incomplete
    /// snapshot is a recoverable error, never a crash.
    pub fn new(lap: Lap) -> (r: Result<ApiLapRequest, &'static str>)
        ensures
            (lap.assists matches Some(a) && a.all_set()) ==> (r matches Ok(q) && {
                &&& q.lap_number == (if lap.lap_number < 255 {
                    (lap.lap_number + 1) as u8
                } else {
                    255u8
                })
                &&& q.lap_time_in_ms == lap.lap_time_in_ms
                &&& q.sector1_time_in_ms == lap.sector1_time_in_ms
                &&& q.sector2_time_in_ms == lap.sector2_time_in_ms
                &&& q.sector3_time_in_ms == sector3_of(
                    lap.lap_time_in_ms,
                    lap.sector1_time_in_ms,
                    lap.sector2_time_in_ms,
                )
                &&& q.lap_invalid == lap.lap_invalid
                &&& q.assists == lap.assists.unwrap().mask_of()
                &&& q.total_distance == lap.total_distance
                &&& q.car_telemetry == lap.car_telemetry
            }),
            !(lap.assists matches Some(a) && a.all_set()) ==> (r matches Err(m) && m@
                == "Assists are not initialised!"@),
    {
        let mask = match &lap.assists {
            Some(a) => match a.get_mask() {
                Ok(m) => m,
                Err(e) => {
                    return Err(e);
                },
            },
            None => {
                return Err("Assists are not initialised!");
            },
        };
        let lap_number = if lap.lap_number < 255 {
            lap.lap_number + 1
        } else {
            255
        };
        let sum = lap.sector1_time_in_ms as u32 + lap.sector2_time_in_ms as u32;
        let sector3 = (if lap.lap_time_in_ms >= sum {
            lap.lap_time_in_ms - sum
        } else {
            0u32
        }) as u16;
        Ok(ApiLapRequest {
            lap_number,
            lap_time_in_ms: lap.lap_time_in_ms,
            sector1_time_in_ms: lap.sector1_time_in_ms,
            sector2_time_in_ms: lap.sector2_time_in_ms,
            sector3_time_in_ms: sector3,
            lap_invalid: lap.lap_invalid,
            assists: mask,
            total_distance: lap.total_distance,
            car_telemetry: lap.car_telemetry,
        })
    }
}

} // verus!
