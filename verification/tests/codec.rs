//! Round trips, short-buffer failures and packet-id dispatch for the codec.

use telemetry::{
    Packet, PacketCarDamageData, PacketCarSetupData, PacketCarStatusData, PacketCarTelemetryData,
    PacketError, PacketFinalClassificationData, PacketHeader, PacketID, PacketLapData,
    PacketLobbyInfoData, PacketMotionData, PacketMotionExData, PacketParticipantsData,
    PacketSessionData, PacketSessionHistoryData, PacketTyreSetData,
};

fn sample_header(packet_id: u8) -> PacketHeader {
    PacketHeader {
        packet_format: 2023,
        game_year: 23,
        game_major_version: 1,
        game_minor_version: 18,
        packet_version: 1,
        packet_id,
        session_uid: 0x0123_4567_89ab_cdef,
        session_time: 0x41a8_0000, // 21.0 as bits
        frame_identifier: 7777,
        overall_frame_identifier: 8888,
        player_car_index: 19,
        secondary_player_car_index: 255,
    }
}

#[test]
fn header_round_trip() {
    let h = sample_header(6);
    let bytes = h.to_bytes();
    assert_eq!(bytes.len(), 29);
    let back = PacketHeader::from_bytes(&bytes).unwrap();
    assert_eq!(back, h);
}

#[test]
fn header_short_buffer() {
    let h = sample_header(0);
    let bytes = h.to_bytes();
    assert_eq!(
        PacketHeader::from_bytes(&bytes[..28]),
        Err(PacketError::ShortBuffer)
    );
    assert_eq!(PacketHeader::from_bytes(&[]), Err(PacketError::ShortBuffer));
}

#[test]
fn header_wire_layout_is_little_endian() {
    let h = sample_header(2);
    let bytes = h.to_bytes();
    // packet_format 2023 = 0x07e7 little-endian
    assert_eq!(bytes[0], 0xe7);
    assert_eq!(bytes[1], 0x07);
    assert_eq!(bytes[6], 2); // packet id sits at offset 6
    assert_eq!(bytes[27], 19);
    assert_eq!(bytes[28], 255);
}

#[test]
fn packet_id_conversion_bounds() {
    for v in 0u8..=13 {
        let id = PacketID::try_from(v).unwrap();
        assert_eq!(id.code(), v);
    }
    assert_eq!(PacketID::try_from(14), Err(PacketError::InvalidPacketID(14)));
    assert_eq!(
        PacketID::try_from(255),
        Err(PacketError::InvalidPacketID(255))
    );
}

#[test]
fn motion_round_trip() {
    let mut p = PacketMotionData::from_bytes(&vec![0u8; 1349]).unwrap();
    p.header = sample_header(0);
    p.car_motion_data[3].world_position_x = 0xdead_beef;
    p.car_motion_data[3].world_forward_dir_x = -12345;
    p.car_motion_data[21].m_roll = 42;
    let bytes = p.to_bytes();
    assert_eq!(bytes.len(), 1349);
    assert_eq!(PacketMotionData::from_bytes(&bytes).unwrap(), p);
}

#[test]
fn motion_direction_components_are_not_rescaled() {
    let mut p = PacketMotionData::from_bytes(&vec![0u8; 1349]).unwrap();
    p.car_motion_data[0].world_forward_dir_y = 32767;
    let bytes = p.to_bytes();
    let back = PacketMotionData::from_bytes(&bytes).unwrap();
    assert_eq!(back.car_motion_data[0].world_forward_dir_y, 32767);
}

#[test]
fn session_round_trip() {
    let mut p = PacketSessionData::from_bytes(&vec![0u8; 644]).unwrap();
    p.header = sample_header(1);
    p.weather = 3;
    p.track_temperature = -5;
    p.total_laps = 57;
    p.track_id = 4;
    p.time_of_day = 901;
    p.marshal_zones[20].zone_flag = -1;
    p.weather_forecast_samples[55].rain_percentage = 88;
    p.steering_assist = 1;
    p.num_red_flag_periods = 2;
    let bytes = p.to_bytes();
    assert_eq!(bytes.len(), 644);
    assert_eq!(PacketSessionData::from_bytes(&bytes).unwrap(), p);
}

#[test]
fn lap_round_trip() {
    let mut p = PacketLapData::from_bytes(&vec![0u8; 1131]).unwrap();
    p.header = sample_header(2);
    p.lap_data[19].current_lap_num = 4;
    p.lap_data[19].current_lap_time_in_ms = 83_456;
    p.lap_data[19].current_lap_invalid = 1;
    p.time_trial_rival_car_idx = 9;
    let bytes = p.to_bytes();
    assert_eq!(bytes.len(), 1131);
    assert_eq!(PacketLapData::from_bytes(&bytes).unwrap(), p);
}

#[test]
fn participants_round_trip() {
    let mut p = PacketParticipantsData::from_bytes(&vec![0u8; 1306]).unwrap();
    p.header = sample_header(4);
    p.num_active_cars_u8 = 20;
    p.participants[0].name[0] = b'V';
    p.participants[0].name[47] = 0;
    p.participants[11].nationality = 13;
    let bytes = p.to_bytes();
    assert_eq!(bytes.len(), 1306);
    assert_eq!(PacketParticipantsData::from_bytes(&bytes).unwrap(), p);
}

#[test]
fn car_setups_round_trip() {
    let mut p = PacketCarSetupData::from_bytes(&vec![0u8; 1107]).unwrap();
    p.header = sample_header(5);
    p.car_setups[7].front_wing = 31;
    p.car_setups[7].fuel_load = 0x4248_0000;
    let bytes = p.to_bytes();
    assert_eq!(bytes.len(), 1107);
    assert_eq!(PacketCarSetupData::from_bytes(&bytes).unwrap(), p);
}

#[test]
fn car_telemetry_round_trip() {
    let mut p = PacketCarTelemetryData::from_bytes(&vec![0u8; 1352]).unwrap();
    p.header = sample_header(6);
    p.car_telemetry_data[19].speed = 312;
    p.car_telemetry_data[19].gear = -1;
    p.car_telemetry_data[19].brakes_temperature = [900, 901, 902, 903];
    p.suggested_gear = 3;
    let bytes = p.to_bytes();
    assert_eq!(bytes.len(), 1352);
    assert_eq!(PacketCarTelemetryData::from_bytes(&bytes).unwrap(), p);
}

#[test]
fn car_status_round_trip() {
    let mut p = PacketCarStatusData::from_bytes(&vec![0u8; 1239]).unwrap();
    p.header = sample_header(7);
    p.car_status_data[19].traction_control = 2;
    p.car_status_data[19].anti_lock_brakes = 1;
    p.car_status_data[19].vehicle_fia_flags = -1;
    let bytes = p.to_bytes();
    assert_eq!(bytes.len(), 1239);
    assert_eq!(PacketCarStatusData::from_bytes(&bytes).unwrap(), p);
}

#[test]
fn final_classification_round_trip() {
    let mut p = PacketFinalClassificationData::from_bytes(&vec![0u8; 1020]).unwrap();
    p.header = sample_header(8);
    p.num_cars = 20;
    p.classification_data[0].position = 1;
    p.classification_data[0].total_race_time = 0x40a2_3456_789a_bcde;
    p.classification_data[0].tyre_stints_actual[7] = 16;
    let bytes = p.to_bytes();
    assert_eq!(bytes.len(), 1020);
    assert_eq!(PacketFinalClassificationData::from_bytes(&bytes).unwrap(), p);
}

#[test]
fn lobby_info_round_trip() {
    let mut p = PacketLobbyInfoData::from_bytes(&vec![0u8; 1218]).unwrap();
    p.header = sample_header(9);
    p.num_players = 2;
    p.lobby_players[1].car_number = 44;
    p.lobby_players[1].name[0] = b'L';
    let bytes = p.to_bytes();
    assert_eq!(bytes.len(), 1218);
    assert_eq!(PacketLobbyInfoData::from_bytes(&bytes).unwrap(), p);
}

#[test]
fn car_damage_round_trip() {
    let mut p = PacketCarDamageData::from_bytes(&vec![0u8; 953]).unwrap();
    p.header = sample_header(10);
    p.car_damage_data[19].tyres_wear = [1, 2, 3, 4];
    p.car_damage_data[19].engine_blown = 1;
    let bytes = p.to_bytes();
    assert_eq!(bytes.len(), 953);
    assert_eq!(PacketCarDamageData::from_bytes(&bytes).unwrap(), p);
}

#[test]
fn session_history_round_trip() {
    let mut p = PacketSessionHistoryData::from_bytes(&vec![0u8; 1460]).unwrap();
    p.header = sample_header(11);
    p.car_idx = 19;
    p.num_laps = 2;
    p.lap_history_data[1].lap_time_in_ms = 92_001;
    p.lap_history_data[1].lap_valid_bit_flags = 0x0f;
    p.tyre_stints_history_data[0].end_lap = 255;
    let bytes = p.to_bytes();
    assert_eq!(bytes.len(), 1460);
    assert_eq!(PacketSessionHistoryData::from_bytes(&bytes).unwrap(), p);
}

#[test]
fn tyre_sets_round_trip() {
    let mut p = PacketTyreSetData::from_bytes(&vec![0u8; 231]).unwrap();
    p.header = sample_header(12);
    p.car_idx = 19;
    p.tyre_set_data[4].lap_delta_time = -321;
    p.fitted_idx = 4;
    let bytes = p.to_bytes();
    assert_eq!(bytes.len(), 231);
    assert_eq!(PacketTyreSetData::from_bytes(&bytes).unwrap(), p);
}

#[test]
fn motion_ex_round_trip() {
    let mut p = PacketMotionExData::from_bytes(&vec![0u8; 217]).unwrap();
    p.header = sample_header(13);
    p.wheel_speed = [10, 20, 30, 40];
    p.front_wheels_angle = 0x3f00_0000;
    let bytes = p.to_bytes();
    assert_eq!(bytes.len(), 217);
    assert_eq!(PacketMotionExData::from_bytes(&bytes).unwrap(), p);
}

#[test]
fn every_kind_fails_short_on_a_tiny_buffer() {
    let few = [0u8; 10];
    assert_eq!(PacketMotionData::from_bytes(&few), Err(PacketError::ShortBuffer));
    assert_eq!(PacketSessionData::from_bytes(&few), Err(PacketError::ShortBuffer));
    assert_eq!(PacketLapData::from_bytes(&few), Err(PacketError::ShortBuffer));
    assert_eq!(
        telemetry::PacketEventData::from_bytes(&few),
        Err(PacketError::ShortBuffer)
    );
    assert_eq!(
        PacketParticipantsData::from_bytes(&few),
        Err(PacketError::ShortBuffer)
    );
    assert_eq!(PacketCarSetupData::from_bytes(&few), Err(PacketError::ShortBuffer));
    assert_eq!(
        PacketCarTelemetryData::from_bytes(&few),
        Err(PacketError::ShortBuffer)
    );
    assert_eq!(PacketCarStatusData::from_bytes(&few), Err(PacketError::ShortBuffer));
    assert_eq!(
        PacketFinalClassificationData::from_bytes(&few),
        Err(PacketError::ShortBuffer)
    );
    assert_eq!(PacketLobbyInfoData::from_bytes(&few), Err(PacketError::ShortBuffer));
    assert_eq!(PacketCarDamageData::from_bytes(&few), Err(PacketError::ShortBuffer));
    assert_eq!(
        PacketSessionHistoryData::from_bytes(&few),
        Err(PacketError::ShortBuffer)
    );
    assert_eq!(PacketTyreSetData::from_bytes(&few), Err(PacketError::ShortBuffer));
    assert_eq!(PacketMotionExData::from_bytes(&few), Err(PacketError::ShortBuffer));
    assert_eq!(Packet::from_bytes(&few), Err(PacketError::ShortBuffer));
}

#[test]
fn dispatcher_selects_the_kind_of_the_header() {
    let mut p = PacketSessionData::from_bytes(&vec![0u8; 644]).unwrap();
    p.header = sample_header(1);
    p.weather = 5;
    let bytes = p.to_bytes();
    match Packet::from_bytes(&bytes).unwrap() {
        Packet::Session(d) => {
            assert_eq!(d, p);
            assert_eq!(d.packet_id().unwrap(), PacketID::Session);
        }
        other => panic!("wrong variant: {:?}", other),
    }
}

#[test]
fn dispatcher_rejects_unknown_packet_id() {
    let h = sample_header(99);
    let mut bytes = h.to_bytes();
    bytes.extend_from_slice(&[0u8; 700]);
    assert_eq!(
        Packet::from_bytes(&bytes),
        Err(PacketError::InvalidPacketID(99))
    );
}

#[test]
fn dispatcher_rejects_truncated_body() {
    let mut p = PacketLapData::from_bytes(&vec![0u8; 1131]).unwrap();
    p.header = sample_header(2);
    let bytes = p.to_bytes();
    assert_eq!(
        Packet::from_bytes(&bytes[..1000]),
        Err(PacketError::ShortBuffer)
    );
}

#[test]
fn packet_header_accessor_is_uniform() {
    let mut p = PacketCarStatusData::from_bytes(&vec![0u8; 1239]).unwrap();
    p.header = sample_header(7);
    let bytes = p.to_bytes();
    let packet = Packet::from_bytes(&bytes).unwrap();
    assert_eq!(packet.header(), p.header);
    assert_eq!(packet.packet_id().unwrap(), PacketID::CarStatus);
}
