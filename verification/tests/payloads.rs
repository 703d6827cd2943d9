//! Upload payload construction and the whole-game aggregation.

use telemetry::{
    ApiLapRequest, Assists, GameSession, JSONTelemetrySession, Lap, LapData, Packet,
    PacketHeader, PacketLapData, PacketMotionData, PacketMotionExData, PacketSessionData,
    PacketSessionHistoryData, Session, SessionEndRequest,
};

fn header(packet_id: u8) -> PacketHeader {
    PacketHeader {
        packet_format: 2023,
        game_year: 23,
        game_major_version: 1,
        game_minor_version: 18,
        packet_version: 1,
        packet_id,
        session_uid: 42,
        session_time: 0,
        frame_identifier: 1,
        overall_frame_identifier: 1,
        player_car_index: 1,
        secondary_player_car_index: 255,
    }
}

fn complete_assists() -> Assists {
    Assists {
        steering_assist: Some(1),
        braking_assist: Some(2),
        gearbox_assist: Some(3),
        pit_assist: Some(0),
        pit_release_assist: Some(0),
        ers_assist: Some(1),
        drs_assist: Some(1),
        dynamic_racing_line: Some(2),
        traction_control: Some(1),
        anti_lock_brakes: Some(true),
    }
}

fn lap_data(current_lap_num: u8) -> LapData {
    let packet = PacketLapData::from_bytes(&vec![0u8; 1131]).unwrap();
    let mut ld = packet.lap_data[0];
    ld.current_lap_num = current_lap_num;
    ld.current_lap_time_in_ms = 95_500;
    ld.sector1_time_in_ms = 20_000;
    ld.sector2_time_in_ms = 30_000;
    ld.total_distance = 0x4580_0000;
    ld
}

#[test]
fn lap_request_reports_the_pre_decrement_number_and_sector_three() {
    let lap = Lap::new(lap_data(4), Some(complete_assists()));
    assert_eq!(lap.lap_number, 3);
    let req = ApiLapRequest::new(lap).unwrap();
    assert_eq!(req.lap_number, 4);
    assert_eq!(req.lap_time_in_ms, 95_500);
    assert_eq!(req.sector1_time_in_ms, 20_000);
    assert_eq!(req.sector2_time_in_ms, 30_000);
    // sector 3 is the remainder of the lap time
    assert_eq!(req.sector3_time_in_ms, 45_500);
    assert_eq!(req.assists, complete_assists().get_mask().unwrap());
    assert_eq!(req.total_distance, 0x4580_0000);
    assert!(!req.lap_invalid);
}

#[test]
fn lap_request_without_complete_assists_is_a_recoverable_error() {
    let lap = Lap::new(lap_data(2), None);
    assert_eq!(ApiLapRequest::new(lap), Err("Assists are not initialised!"));
    let mut partial = complete_assists();
    partial.drs_assist = None;
    let lap = Lap::new(lap_data(2), Some(partial));
    assert_eq!(ApiLapRequest::new(lap), Err("Assists are not initialised!"));
}

#[test]
fn lap_request_floors_sector_three_at_zero() {
    let mut ld = lap_data(2);
    ld.current_lap_time_in_ms = 10;
    let lap = Lap::new(ld, Some(complete_assists()));
    let req = ApiLapRequest::new(lap).unwrap();
    assert_eq!(req.sector3_time_in_ms, 0);
}

#[test]
fn registration_payload_needs_every_snapshot_field() {
    let mut s = Session::new(&header(3), 1_700_000_000_000);
    assert_eq!(
        JSONTelemetrySession::try_from_session(&s),
        Err("Session is not initialised!")
    );
    s.weather = Some(2);
    s.time_of_day = Some(840);
    s.total_laps = Some(5);
    s.track_id = Some(7);
    s.total_distance = Some(0x4580_0000);
    s.assists = Some(complete_assists());
    let j = JSONTelemetrySession::try_from_session(&s).unwrap();
    assert_eq!(j.player_car_index, 1);
    assert_eq!(j.start_date, 1_700_000_000_000);
    assert_eq!(j.weather, 2);
    assert_eq!(j.time_of_day, 840);
    assert_eq!(j.total_laps, 5);
    assert_eq!(j.track_id, 7);
    assert_eq!(j.total_distance, 0x4580_0000);
    assert_eq!(j.assists, complete_assists().get_mask().unwrap());
    assert_eq!(j.uid, None);
}

#[test]
fn end_request_carries_the_summary() {
    let mut s = Session::new(&header(3), 0);
    s.total_laps = Some(5);
    s.total_distance = Some(0x4580_0000);
    s.end_date = Some(1_700_000_123_456);
    assert_eq!(
        s.end_request(),
        SessionEndRequest {
            total_laps: Some(5),
            end_date: 1_700_000_123_456,
            total_distance: Some(0x4580_0000),
        }
    );
}

#[test]
fn game_session_mirrors_headers_and_snapshots() {
    let mut g = GameSession::new(500);
    assert_eq!(g.start_date, 500);
    let mut sp = PacketSessionData::from_bytes(&vec![0u8; 644]).unwrap();
    sp.header = header(1);
    sp.session_type = 10;
    sp.ai_difficulty = 90;
    g.handle_packet(&Packet::Session(sp));
    assert_eq!(g.session_uid, 42);
    assert_eq!(g.player_car_index, 1);
    assert_eq!(g.session_data.session_type, 10);
    assert_eq!(g.session_data.ai_difficulty, 90);
}

#[test]
fn game_session_keeps_the_tracked_cars_history_and_motion() {
    let mut g = GameSession::new(0);
    let mut hist = PacketSessionHistoryData::from_bytes(&vec![0u8; 1460]).unwrap();
    hist.header = header(11);
    hist.car_idx = 1;
    hist.lap_history_data[0].lap_time_in_ms = 91_000;
    g.handle_packet(&Packet::SessionHistory(hist));
    assert_eq!(g.laps.len(), 100);
    assert_eq!(g.laps[0].lap_time_in_ms, 91_000);

    // a history packet for another car is ignored
    let mut other = hist;
    other.car_idx = 5;
    other.lap_history_data[0].lap_time_in_ms = 1;
    g.handle_packet(&Packet::SessionHistory(other));
    assert_eq!(g.laps[0].lap_time_in_ms, 91_000);

    let mut motion = PacketMotionData::from_bytes(&vec![0u8; 1349]).unwrap();
    motion.header = header(0);
    motion.car_motion_data[1].world_position_x = 0x1234;
    g.handle_packet(&Packet::Motion(motion));
    assert_eq!(g.motion_data.len(), 1);
    assert_eq!(g.motion_data[0].world_position_x, 0x1234);

    let mut ex = PacketMotionExData::from_bytes(&vec![0u8; 217]).unwrap();
    ex.header = header(13);
    ex.wheel_speed = [5, 6, 7, 8];
    g.handle_packet(&Packet::MotionEx(ex));
    assert_eq!(g.motion_data_ex.len(), 1);
    assert_eq!(g.motion_data_ex[0].wheel_speed, [5, 6, 7, 8]);
}
