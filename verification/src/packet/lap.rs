//! Lap data packet: lap state of all cars.

use vstd::prelude::*;

use crate::bytes::{
    enc_each, le16, le32, le8, lemma_concat_split, lemma_enc_each_injective, lemma_enc_each_len,
    lemma_enc_each_push, lemma_le16_injective, lemma_le32_injective, lemma_le8_injective,
    lemma_subrange_adjacent, read_u16, read_u32, read_u8, write_u16, write_u32, write_u8,
};
use super::header::{
    decode_header_at, enc_header, encode_header_into, lemma_enc_header_injective, PacketHeader,
};
use super::{packet_id_code, PacketError, PacketID};

verus! {

/// Wire width in bytes.
pub const LAP_DATA_LEN: usize = 50;

/// Lap state of one car.  Distances travel as IEEE-754 bits; the flag
/// fields travel as single bytes holding zero or one.
#[derive(Debug, Clone, Copy, PartialEq, Eq)]
pub struct LapData {
    /// Last lap time in milliseconds.
    pub last_lap_time_in_ms: u32,
    /// Current time around the lap in milliseconds.
    pub current_lap_time_in_ms: u32,
    /// Sector 1 time in milliseconds.
    pub sector1_time_in_ms: u16,
    /// Sector 1 whole minute part.
    pub sector1_time_minutes: u8,
    /// Sector 2 time in milliseconds.
    pub sector2_time_in_ms: u16,
    /// Sector 2 whole minute part.
    pub sector2_time_minutes: u8,
    /// Delta to the car in front in milliseconds.
    pub delta_to_car_in_front_in_ms: u16,
    /// Delta to the race leader in milliseconds.
    pub delta_to_race_leader_in_ms: u16,
    /// Distance around the current lap in metres, as IEEE-754 bits.
    pub lap_distance: u32,
    /// Total distance in the session in metres, as IEEE-754 bits.
    pub total_distance: u32,
    /// Safety car delta in seconds, as IEEE-754 bits.
    pub safety_car_delta: u32,
    /// Race position of the car.
    pub car_position: u8,
    /// Current lap number.
    pub current_lap_num: u8,
    /// Pit status: 0 none, 1 pitting, 2 in pit area.
    pub pit_status: u8,
    /// Pit stops taken in this race.
    pub num_pit_stops: u8,
    /// Current sector: 0, 1 or 2.
    pub sector: u8,
    /// Whether the current lap is invalid: 0 valid, 1 invalid.
    pub current_lap_invalid: u8,
    /// Accumulated time penalties in seconds.
    pub penalties: u8,
    /// Accumulated warnings.
    pub total_warnings: u8,
    /// Accumulated corner-cutting warnings.
    pub corner_cutting_warnings: u8,
    /// Drive-through penalties left to serve.
    pub num_unserved_drive_through_pens: u8,
    /// Stop-go penalties left to serve.
    pub num_unserved_stop_go_pens: u8,
    /// Grid position the car started in.
    pub grid_position: u8,
    /// Driver status: 0 in garage, 1 flying lap, 2 in lap, 3 out lap, 4 on track.
    pub driver_status: u8,
    /// Result status.
    pub result_status: u8,
    /// Whether the pit lane timer is active: 0 or 1.
    pub pit_lane_timer_active: u8,
    /// Current time spent in the pit lane in milliseconds.
    pub pit_lane_time_in_lane_in_ms: u16,
    /// Time of the actual pit stop in milliseconds.
    pub pit_stop_timer_in_ms: u16,
    /// Whether a penalty should be served at this stop: 0 or 1.
    pub pit_stop_should_serve_pen: u8,
}

/// Wire encoding.
pub open spec fn enc_lap_data(v: LapData) -> Seq<u8> {
    le32(v.last_lap_time_in_ms) + (le32(v.current_lap_time_in_ms) + (le16(v.sector1_time_in_ms) + (le8(v.sector1_time_minutes) + (le16(v.sector2_time_in_ms) + (le8(v.sector2_time_minutes) + (le16(v.delta_to_car_in_front_in_ms) + (le16(v.delta_to_race_leader_in_ms) + (le32(v.lap_distance) + (le32(v.total_distance) + (le32(v.safety_car_delta) + (le8(v.car_position) + (le8(v.current_lap_num) + (le8(v.pit_status) + (le8(v.num_pit_stops) + (le8(v.sector) + (le8(v.current_lap_invalid) + (le8(v.penalties) + (le8(v.total_warnings) + (le8(v.corner_cutting_warnings) + (le8(v.num_unserved_drive_through_pens) + (le8(v.num_unserved_stop_go_pens) + (le8(v.grid_position) + (le8(v.driver_status) + (le8(v.result_status) + (le8(v.pit_lane_timer_active) + (le16(v.pit_lane_time_in_lane_in_ms) + (le16(v.pit_stop_timer_in_ms) + (le8(v.pit_stop_should_serve_pen)))))))))))))))))))))))))))))
}

/// The element encoding, as a function value.
pub open spec fn enc_lap_data_fn() -> spec_fn(LapData) -> Seq<u8> {
    |v: LapData| enc_lap_data(v)
}

/// The encoding is 50 bytes long.
pub proof fn lemma_enc_lap_data_len(v: LapData)
    ensures
        enc_lap_data(v).len() == LAP_DATA_LEN,
{
}

/// An encoding determines the value: the round-trip guarantee.
pub proof fn lemma_enc_lap_data_injective(a: LapData, b: LapData)
    requires
        enc_lap_data(a) == enc_lap_data(b),
    ensures
        a == b,
{
    let ta28 = le8(a.pit_stop_should_serve_pen);
    let tb28 = le8(b.pit_stop_should_serve_pen);
    let ta27 = le16(a.pit_stop_timer_in_ms) + ta28;
    let tb27 = le16(b.pit_stop_timer_in_ms) + tb28;
    let ta26 = le16(a.pit_lane_time_in_lane_in_ms) + ta27;
    let tb26 = le16(b.pit_lane_time_in_lane_in_ms) + tb27;
    let ta25 = le8(a.pit_lane_timer_active) + ta26;
    let tb25 = le8(b.pit_lane_timer_active) + tb26;
    let ta24 = le8(a.result_status) + ta25;
    let tb24 = le8(b.result_status) + tb25;
    let ta23 = le8(a.driver_status) + ta24;
    let tb23 = le8(b.driver_status) + tb24;
    let ta22 = le8(a.grid_position) + ta23;
    let tb22 = le8(b.grid_position) + tb23;
    let ta21 = le8(a.num_unserved_stop_go_pens) + ta22;
    let tb21 = le8(b.num_unserved_stop_go_pens) + tb22;
    let ta20 = le8(a.num_unserved_drive_through_pens) + ta21;
    let tb20 = le8(b.num_unserved_drive_through_pens) + tb21;
    let ta19 = le8(a.corner_cutting_warnings) + ta20;
    let tb19 = le8(b.corner_cutting_warnings) + tb20;
    let ta18 = le8(a.total_warnings) + ta19;
    let tb18 = le8(b.total_warnings) + tb19;
    let ta17 = le8(a.penalties) + ta18;
    let tb17 = le8(b.penalties) + tb18;
    let ta16 = le8(a.current_lap_invalid) + ta17;
    let tb16 = le8(b.current_lap_invalid) + tb17;
    let ta15 = le8(a.sector) + ta16;
    let tb15 = le8(b.sector) + tb16;
    let ta14 = le8(a.num_pit_stops) + ta15;
    let tb14 = le8(b.num_pit_stops) + tb15;
    let ta13 = le8(a.pit_status) + ta14;
    let tb13 = le8(b.pit_status) + tb14;
    let ta12 = le8(a.current_lap_num) + ta13;
    let tb12 = le8(b.current_lap_num) + tb13;
    let ta11 = le8(a.car_position) + ta12;
    let tb11 = le8(b.car_position) + tb12;
    let ta10 = le32(a.safety_car_delta) + ta11;
    let tb10 = le32(b.safety_car_delta) + tb11;
    let ta9 = le32(a.total_distance) + ta10;
    let tb9 = le32(b.total_distance) + tb10;
    let ta8 = le32(a.lap_distance) + ta9;
    let tb8 = le32(b.lap_distance) + tb9;
    let ta7 = le16(a.delta_to_race_leader_in_ms) + ta8;
    let tb7 = le16(b.delta_to_race_leader_in_ms) + tb8;
    let ta6 = le16(a.delta_to_car_in_front_in_ms) + ta7;
    let tb6 = le16(b.delta_to_car_in_front_in_ms) + tb7;
    let ta5 = le8(a.sector2_time_minutes) + ta6;
    let tb5 = le8(b.sector2_time_minutes) + tb6;
    let ta4 = le16(a.sector2_time_in_ms) + ta5;
    let tb4 = le16(b.sector2_time_in_ms) + tb5;
    let ta3 = le8(a.sector1_time_minutes) + ta4;
    let tb3 = le8(b.sector1_time_minutes) + tb4;
    let ta2 = le16(a.sector1_time_in_ms) + ta3;
    let tb2 = le16(b.sector1_time_in_ms) + tb3;
    let ta1 = le32(a.current_lap_time_in_ms) + ta2;
    let tb1 = le32(b.current_lap_time_in_ms) + tb2;
    assert(le32(a.last_lap_time_in_ms) + ta1 == enc_lap_data(a));
    assert(le32(b.last_lap_time_in_ms) + tb1 == enc_lap_data(b));
    lemma_concat_split(le32(a.last_lap_time_in_ms), ta1, le32(b.last_lap_time_in_ms), tb1);
    lemma_le32_injective(a.last_lap_time_in_ms, b.last_lap_time_in_ms);
    lemma_concat_split(le32(a.current_lap_time_in_ms), ta2, le32(b.current_lap_time_in_ms), tb2);
    lemma_le32_injective(a.current_lap_time_in_ms, b.current_lap_time_in_ms);
    lemma_concat_split(le16(a.sector1_time_in_ms), ta3, le16(b.sector1_time_in_ms), tb3);
    lemma_le16_injective(a.sector1_time_in_ms, b.sector1_time_in_ms);
    lemma_concat_split(le8(a.sector1_time_minutes), ta4, le8(b.sector1_time_minutes), tb4);
    lemma_le8_injective(a.sector1_time_minutes, b.sector1_time_minutes);
    lemma_concat_split(le16(a.sector2_time_in_ms), ta5, le16(b.sector2_time_in_ms), tb5);
    lemma_le16_injective(a.sector2_time_in_ms, b.sector2_time_in_ms);
    lemma_concat_split(le8(a.sector2_time_minutes), ta6, le8(b.sector2_time_minutes), tb6);
    lemma_le8_injective(a.sector2_time_minutes, b.sector2_time_minutes);
    lemma_concat_split(le16(a.delta_to_car_in_front_in_ms), ta7, le16(b.delta_to_car_in_front_in_ms), tb7);
    lemma_le16_injective(a.delta_to_car_in_front_in_ms, b.delta_to_car_in_front_in_ms);
    lemma_concat_split(le16(a.delta_to_race_leader_in_ms), ta8, le16(b.delta_to_race_leader_in_ms), tb8);
    lemma_le16_injective(a.delta_to_race_leader_in_ms, b.delta_to_race_leader_in_ms);
    lemma_concat_split(le32(a.lap_distance), ta9, le32(b.lap_distance), tb9);
    lemma_le32_injective(a.lap_distance, b.lap_distance);
    lemma_concat_split(le32(a.total_distance), ta10, le32(b.total_distance), tb10);
    lemma_le32_injective(a.total_distance, b.total_distance);
    lemma_concat_split(le32(a.safety_car_delta), ta11, le32(b.safety_car_delta), tb11);
    lemma_le32_injective(a.safety_car_delta, b.safety_car_delta);
    lemma_concat_split(le8(a.car_position), ta12, le8(b.car_position), tb12);
    lemma_le8_injective(a.car_position, b.car_position);
    lemma_concat_split(le8(a.current_lap_num), ta13, le8(b.current_lap_num), tb13);
    lemma_le8_injective(a.current_lap_num, b.current_lap_num);
    lemma_concat_split(le8(a.pit_status), ta14, le8(b.pit_status), tb14);
    lemma_le8_injective(a.pit_status, b.pit_status);
    lemma_concat_split(le8(a.num_pit_stops), ta15, le8(b.num_pit_stops), tb15);
    lemma_le8_injective(a.num_pit_stops, b.num_pit_stops);
    lemma_concat_split(le8(a.sector), ta16, le8(b.sector), tb16);
    lemma_le8_injective(a.sector, b.sector);
    lemma_concat_split(le8(a.current_lap_invalid), ta17, le8(b.current_lap_invalid), tb17);
    lemma_le8_injective(a.current_lap_invalid, b.current_lap_invalid);
    lemma_concat_split(le8(a.penalties), ta18, le8(b.penalties), tb18);
    lemma_le8_injective(a.penalties, b.penalties);
    lemma_concat_split(le8(a.total_warnings), ta19, le8(b.total_warnings), tb19);
    lemma_le8_injective(a.total_warnings, b.total_warnings);
    lemma_concat_split(le8(a.corner_cutting_warnings), ta20, le8(b.corner_cutting_warnings), tb20);
    lemma_le8_injective(a.corner_cutting_warnings, b.corner_cutting_warnings);
    lemma_concat_split(le8(a.num_unserved_drive_through_pens), ta21, le8(b.num_unserved_drive_through_pens), tb21);
    lemma_le8_injective(a.num_unserved_drive_through_pens, b.num_unserved_drive_through_pens);
    lemma_concat_split(le8(a.num_unserved_stop_go_pens), ta22, le8(b.num_unserved_stop_go_pens), tb22);
    lemma_le8_injective(a.num_unserved_stop_go_pens, b.num_unserved_stop_go_pens);
    lemma_concat_split(le8(a.grid_position), ta23, le8(b.grid_position), tb23);
    lemma_le8_injective(a.grid_position, b.grid_position);
    lemma_concat_split(le8(a.driver_status), ta24, le8(b.driver_status), tb24);
    lemma_le8_injective(a.driver_status, b.driver_status);
    lemma_concat_split(le8(a.result_status), ta25, le8(b.result_status), tb25);
    lemma_le8_injective(a.result_status, b.result_status);
    lemma_concat_split(le8(a.pit_lane_timer_active), ta26, le8(b.pit_lane_timer_active), tb26);
    lemma_le8_injective(a.pit_lane_timer_active, b.pit_lane_timer_active);
    lemma_concat_split(le16(a.pit_lane_time_in_lane_in_ms), ta27, le16(b.pit_lane_time_in_lane_in_ms), tb27);
    lemma_le16_injective(a.pit_lane_time_in_lane_in_ms, b.pit_lane_time_in_lane_in_ms);
    lemma_concat_split(le16(a.pit_stop_timer_in_ms), ta28, le16(b.pit_stop_timer_in_ms), tb28);
    lemma_le16_injective(a.pit_stop_timer_in_ms, b.pit_stop_timer_in_ms);
    lemma_le8_injective(a.pit_stop_should_serve_pen, b.pit_stop_should_serve_pen);
}

impl LapData {
    /// A record with every field zero.
    pub fn zeroed() -> (r: LapData)
        ensures
            r == (LapData {
                    last_lap_time_in_ms: 0,
                    current_lap_time_in_ms: 0,
                    sector1_time_in_ms: 0,
                    sector1_time_minutes: 0,
                    sector2_time_in_ms: 0,
                    sector2_time_minutes: 0,
                    delta_to_car_in_front_in_ms: 0,
                    delta_to_race_leader_in_ms: 0,
                    lap_distance: 0,
                    total_distance: 0,
                    safety_car_delta: 0,
                    car_position: 0,
                    current_lap_num: 0,
                    pit_status: 0,
                    num_pit_stops: 0,
                    sector: 0,
                    current_lap_invalid: 0,
                    penalties: 0,
                    total_warnings: 0,
                    corner_cutting_warnings: 0,
                    num_unserved_drive_through_pens: 0,
                    num_unserved_stop_go_pens: 0,
                    grid_position: 0,
                    driver_status: 0,
                    result_status: 0,
                    pit_lane_timer_active: 0,
                    pit_lane_time_in_lane_in_ms: 0,
                    pit_stop_timer_in_ms: 0,
                    pit_stop_should_serve_pen: 0,
            }),
    {
        LapData {
            last_lap_time_in_ms: 0,
            current_lap_time_in_ms: 0,
            sector1_time_in_ms: 0,
            sector1_time_minutes: 0,
            sector2_time_in_ms: 0,
            sector2_time_minutes: 0,
            delta_to_car_in_front_in_ms: 0,
            delta_to_race_leader_in_ms: 0,
            lap_distance: 0,
            total_distance: 0,
            safety_car_delta: 0,
            car_position: 0,
            current_lap_num: 0,
            pit_status: 0,
            num_pit_stops: 0,
            sector: 0,
            current_lap_invalid: 0,
            penalties: 0,
            total_warnings: 0,
            corner_cutting_warnings: 0,
            num_unserved_drive_through_pens: 0,
            num_unserved_stop_go_pens: 0,
            grid_position: 0,
            driver_status: 0,
            result_status: 0,
            pit_lane_timer_active: 0,
            pit_lane_time_in_lane_in_ms: 0,
            pit_stop_timer_in_ms: 0,
            pit_stop_should_serve_pen: 0,
        }
    }
}

/// Decodes one record at the cursor.
#[verifier::rlimit(100)]
fn decode_lap_data_at(buf: &[u8], pos: &mut usize) -> (r: LapData)
    requires
        *old(pos) + LAP_DATA_LEN <= buf@.len(),
    ensures
        *final(pos) == *old(pos) + LAP_DATA_LEN,
        enc_lap_data(r) == buf@.subrange(*old(pos) as int, *final(pos) as int),
{
    let ghost start = *pos;
    let last_lap_time_in_ms = read_u32(buf, pos);
    let current_lap_time_in_ms = read_u32(buf, pos);
    let sector1_time_in_ms = read_u16(buf, pos);
    let sector1_time_minutes = read_u8(buf, pos);
    let sector2_time_in_ms = read_u16(buf, pos);
    let sector2_time_minutes = read_u8(buf, pos);
    let delta_to_car_in_front_in_ms = read_u16(buf, pos);
    let delta_to_race_leader_in_ms = read_u16(buf, pos);
    let lap_distance = read_u32(buf, pos);
    let total_distance = read_u32(buf, pos);
    let safety_car_delta = read_u32(buf, pos);
    let car_position = read_u8(buf, pos);
    let current_lap_num = read_u8(buf, pos);
    let pit_status = read_u8(buf, pos);
    let num_pit_stops = read_u8(buf, pos);
    let sector = read_u8(buf, pos);
    let current_lap_invalid = read_u8(buf, pos);
    let penalties = read_u8(buf, pos);
    let total_warnings = read_u8(buf, pos);
    let corner_cutting_warnings = read_u8(buf, pos);
    let num_unserved_drive_through_pens = read_u8(buf, pos);
    let num_unserved_stop_go_pens = read_u8(buf, pos);
    let grid_position = read_u8(buf, pos);
    let driver_status = read_u8(buf, pos);
    let result_status = read_u8(buf, pos);
    let pit_lane_timer_active = read_u8(buf, pos);
    let pit_lane_time_in_lane_in_ms = read_u16(buf, pos);
    let pit_stop_timer_in_ms = read_u16(buf, pos);
    let pit_stop_should_serve_pen = read_u8(buf, pos);
    let r = LapData {
        last_lap_time_in_ms,
        current_lap_time_in_ms,
        sector1_time_in_ms,
        sector1_time_minutes,
        sector2_time_in_ms,
        sector2_time_minutes,
        delta_to_car_in_front_in_ms,
        delta_to_race_leader_in_ms,
        lap_distance,
        total_distance,
        safety_car_delta,
        car_position,
        current_lap_num,
        pit_status,
        num_pit_stops,
        sector,
        current_lap_invalid,
        penalties,
        total_warnings,
        corner_cutting_warnings,
        num_unserved_drive_through_pens,
        num_unserved_stop_go_pens,
        grid_position,
        driver_status,
        result_status,
        pit_lane_timer_active,
        pit_lane_time_in_lane_in_ms,
        pit_stop_timer_in_ms,
        pit_stop_should_serve_pen,
    };
    proof {
        assert(enc_lap_data(r) =~= buf@.subrange(start as int, start as int + LAP_DATA_LEN as int));
    }
    r
}

/// Appends the wire encoding.
#[verifier::rlimit(100)]
fn encode_lap_data_into(v: &LapData, out: &mut Vec<u8>)
    ensures
        final(out)@ == old(out)@ + enc_lap_data(*v),
{
    write_u32(out, v.last_lap_time_in_ms);
    write_u32(out, v.current_lap_time_in_ms);
    write_u16(out, v.sector1_time_in_ms);
    write_u8(out, v.sector1_time_minutes);
    write_u16(out, v.sector2_time_in_ms);
    write_u8(out, v.sector2_time_minutes);
    write_u16(out, v.delta_to_car_in_front_in_ms);
    write_u16(out, v.delta_to_race_leader_in_ms);
    write_u32(out, v.lap_distance);
    write_u32(out, v.total_distance);
    write_u32(out, v.safety_car_delta);
    write_u8(out, v.car_position);
    write_u8(out, v.current_lap_num);
    write_u8(out, v.pit_status);
    write_u8(out, v.num_pit_stops);
    write_u8(out, v.sector);
    write_u8(out, v.current_lap_invalid);
    write_u8(out, v.penalties);
    write_u8(out, v.total_warnings);
    write_u8(out, v.corner_cutting_warnings);
    write_u8(out, v.num_unserved_drive_through_pens);
    write_u8(out, v.num_unserved_stop_go_pens);
    write_u8(out, v.grid_position);
    write_u8(out, v.driver_status);
    write_u8(out, v.result_status);
    write_u8(out, v.pit_lane_timer_active);
    write_u16(out, v.pit_lane_time_in_lane_in_ms);
    write_u16(out, v.pit_stop_timer_in_ms);
    write_u8(out, v.pit_stop_should_serve_pen);
    proof {
        assert(out@ =~= old(out)@ + enc_lap_data(*v));
    }
}

/// Wire width in bytes.
pub const PACKET_LAP_LEN: usize = 1131;

/// Lap data packet: lap state of every car in the session.
#[derive(Debug, Clone, Copy, PartialEq, Eq)]
pub struct PacketLapData {
    /// Packet header.
    pub header: PacketHeader,
    /// Lap data for all cars.
    pub lap_data: [LapData; 22],
    /// Index of the personal-best car in time trial.
    pub time_trial_personal_best_car_idx: u8,
    /// Index of the rival car in time trial.
    pub time_trial_rival_car_idx: u8,
}

/// Wire encoding.
pub open spec fn enc_packet_lap(v: PacketLapData) -> Seq<u8> {
    enc_header(v.header) + (enc_each(v.lap_data@, enc_lap_data_fn()) + (le8(v.time_trial_personal_best_car_idx) + (le8(v.time_trial_rival_car_idx))))
}

/// The encoding is 1131 bytes long.
pub proof fn lemma_enc_packet_lap_len(v: PacketLapData)
    ensures
        enc_packet_lap(v).len() == PACKET_LAP_LEN,
{
    assert forall|x: LapData| (#[trigger] enc_lap_data_fn()(x)).len() == LAP_DATA_LEN by {
        lemma_enc_lap_data_len(x);
    }
    lemma_enc_each_len(v.lap_data@, enc_lap_data_fn(), LAP_DATA_LEN as nat);
}

/// An encoding determines the value: the round-trip guarantee.
pub proof fn lemma_enc_packet_lap_injective(a: PacketLapData, b: PacketLapData)
    requires
        enc_packet_lap(a) == enc_packet_lap(b),
    ensures
        a == b,
{
    assert forall|x: LapData| (#[trigger] enc_lap_data_fn()(x)).len() == LAP_DATA_LEN by {
        lemma_enc_lap_data_len(x);
    }
    lemma_enc_each_len(a.lap_data@, enc_lap_data_fn(), LAP_DATA_LEN as nat);
    lemma_enc_each_len(b.lap_data@, enc_lap_data_fn(), LAP_DATA_LEN as nat);
    let ta3 = le8(a.time_trial_rival_car_idx);
    let tb3 = le8(b.time_trial_rival_car_idx);
    let ta2 = le8(a.time_trial_personal_best_car_idx) + ta3;
    let tb2 = le8(b.time_trial_personal_best_car_idx) + tb3;
    let ta1 = enc_each(a.lap_data@, enc_lap_data_fn()) + ta2;
    let tb1 = enc_each(b.lap_data@, enc_lap_data_fn()) + tb2;
    assert(enc_header(a.header) + ta1 == enc_packet_lap(a));
    assert(enc_header(b.header) + tb1 == enc_packet_lap(b));
    lemma_concat_split(enc_header(a.header), ta1, enc_header(b.header), tb1);
    lemma_enc_header_injective(a.header, b.header);
    lemma_concat_split(enc_each(a.lap_data@, enc_lap_data_fn()), ta2, enc_each(b.lap_data@, enc_lap_data_fn()), tb2);
    assert forall|x: LapData, y: LapData|
        #[trigger] enc_lap_data_fn()(x) == #[trigger] enc_lap_data_fn()(y) implies x == y by {
        lemma_enc_lap_data_injective(x, y);
    }
    lemma_enc_each_injective(a.lap_data@, b.lap_data@, enc_lap_data_fn(), LAP_DATA_LEN as nat);
    assert(a.lap_data =~= b.lap_data);
    lemma_concat_split(le8(a.time_trial_personal_best_car_idx), ta3, le8(b.time_trial_personal_best_car_idx), tb3);
    lemma_le8_injective(a.time_trial_personal_best_car_idx, b.time_trial_personal_best_car_idx);
    lemma_le8_injective(a.time_trial_rival_car_idx, b.time_trial_rival_car_idx);
}

/// Decodes the packet body at the cursor.
fn decode_packet_lap_at(buf: &[u8], pos: &mut usize) -> (r: PacketLapData)
    requires
        *old(pos) + PACKET_LAP_LEN <= buf@.len(),
    ensures
        *final(pos) == *old(pos) + PACKET_LAP_LEN,
        enc_packet_lap(r) == buf@.subrange(*old(pos) as int, *final(pos) as int),
{
    let ghost start = *pos;
    let header = decode_header_at(buf, pos);
    let lap_data = decode_lap_data_array(buf, pos);
    let time_trial_personal_best_car_idx = read_u8(buf, pos);
    let time_trial_rival_car_idx = read_u8(buf, pos);
    let r = PacketLapData {
        header,
        lap_data,
        time_trial_personal_best_car_idx,
        time_trial_rival_car_idx,
    };
    proof {
        assert(enc_packet_lap(r) =~= buf@.subrange(start as int, start as int + PACKET_LAP_LEN as int));
    }
    r
}

/// Decodes the 22-element array of records at the cursor.
fn decode_lap_data_array(buf: &[u8], pos: &mut usize) -> (r: [LapData; 22])
    requires
        *old(pos) + 22 * LAP_DATA_LEN <= buf@.len(),
    ensures
        *final(pos) == *old(pos) + 22 * LAP_DATA_LEN,
        enc_each(r@, enc_lap_data_fn()) == buf@.subrange(*old(pos) as int, *final(pos) as int),
{
    let ghost start = *pos;
    let z = LapData::zeroed();
    let mut arr = [z; 22];
    proof {
        assert(arr@.take(0) =~= Seq::<LapData>::empty());
        assert(buf@.subrange(start as int, start as int) =~= Seq::<u8>::empty());
    }
    for i in 0..22
        invariant
            *pos == start + i * LAP_DATA_LEN,
            start + 22 * LAP_DATA_LEN <= buf@.len(),
            arr@.len() == 22,
            enc_each(arr@.take(i as int), enc_lap_data_fn()) == buf@.subrange(
                start as int,
                *pos as int,
            ),
    {
        let ghost prev = arr@;
        let ghost p0 = *pos;
        let v = decode_lap_data_at(buf, pos);
        arr[i] = v;
        proof {
            assert(arr@.take(i as int) =~= prev.take(i as int));
            assert(arr@.take(i as int + 1) =~= prev.take(i as int).push(v));
            lemma_enc_each_push(prev.take(i as int), enc_lap_data_fn(), v);
            assert(enc_lap_data_fn()(v) == enc_lap_data(v));
            lemma_subrange_adjacent(buf@, start as int, p0 as int, p0 as int + LAP_DATA_LEN as int);
        }
    }
    proof {
        assert(arr@.take(22) =~= arr@);
    }
    arr
}

/// Appends the wire encoding.
fn encode_packet_lap_into(v: &PacketLapData, out: &mut Vec<u8>)
    ensures
        final(out)@ == old(out)@ + enc_packet_lap(*v),
{
    encode_header_into(&v.header, out);
    let ghost beforelap_data = out@;
    proof {
        assert(v.lap_data@.take(0) =~= Seq::<LapData>::empty());
        assert(out@ =~= beforelap_data + enc_each(v.lap_data@.take(0), enc_lap_data_fn()));
    }
    for i in 0..22
        invariant
            v.lap_data@.len() == 22,
            out@ == beforelap_data + enc_each(v.lap_data@.take(i as int), enc_lap_data_fn()),
    {
        encode_lap_data_into(&v.lap_data[i], out);
        proof {
            assert(v.lap_data@.take(i as int + 1) =~= v.lap_data@.take(i as int).push(
                v.lap_data@[i as int],
            ));
            lemma_enc_each_push(v.lap_data@.take(i as int), enc_lap_data_fn(), v.lap_data@[i as int]);
            assert(enc_lap_data_fn()(v.lap_data@[i as int]) == enc_lap_data(v.lap_data@[i as int]));
            assert(out@ =~= beforelap_data + enc_each(v.lap_data@.take(i as int + 1), enc_lap_data_fn()));
        }
    }
    proof {
        assert(v.lap_data@.take(22) =~= v.lap_data@);
    }
    write_u8(out, v.time_trial_personal_best_car_idx);
    write_u8(out, v.time_trial_rival_car_idx);
    proof {
        assert(out@ =~= old(out)@ + enc_packet_lap(*v));
    }
}

impl PacketLapData {
    /// Decodes a packet of this kind from a datagram; fails with the
    /// short-buffer error exactly when fewer than 1131 bytes are given.
    pub fn from_bytes(buf: &[u8]) -> (r: Result<PacketLapData, PacketError>)
        ensures
            buf@.len() >= PACKET_LAP_LEN ==> (r matches Ok(p) && enc_packet_lap(p)
                == buf@.subrange(0, PACKET_LAP_LEN as int)),
            buf@.len() < PACKET_LAP_LEN ==> r == Err::<PacketLapData, PacketError>(
                PacketError::ShortBuffer,
            ),
    {
        if buf.len() < PACKET_LAP_LEN {
            return Err(PacketError::ShortBuffer);
        }
        let mut pos: usize = 0;
        let p = decode_packet_lap_at(buf, &mut pos);
        Ok(p)
    }

    /// The full wire encoding of this packet.
    pub fn to_bytes(&self) -> (r: Vec<u8>)
        ensures
            r@ == enc_packet_lap(*self),
    {
        let mut out: Vec<u8> = Vec::new();
        encode_packet_lap_into(self, &mut out);
        proof {
            assert(Seq::<u8>::empty() + enc_packet_lap(*self) =~= enc_packet_lap(*self));
        }
        out
    }

    /// The packet's header.
    pub fn header(&self) -> (r: PacketHeader)
        ensures
            r == self.header,
    {
        self.header
    }

    /// The packet kind named by the header's packet-id byte.
    pub fn packet_id(&self) -> (r: Result<PacketID, PacketError>)
        ensures
            self.header.packet_id <= 13 ==> (r matches Ok(id) && packet_id_code(id)
                == self.header.packet_id),
            self.header.packet_id > 13 ==> r == Err::<PacketID, PacketError>(
                PacketError::InvalidPacketID(self.header.packet_id),
            ),
    {
        self.header.packet_id()
    }
}

} // verus!
