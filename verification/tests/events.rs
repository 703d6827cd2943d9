//! Event sub-protocol: code dispatch, payload round trips and error cases.

use telemetry::{
    EventDataDetails, InfringementType, Packet, PacketError, PacketEventData, PacketHeader,
    Penalty, PenaltyType,
};

fn event_header() -> PacketHeader {
    PacketHeader {
        packet_format: 2023,
        game_year: 23,
        game_major_version: 1,
        game_minor_version: 18,
        packet_version: 1,
        packet_id: 3,
        session_uid: 42,
        session_time: 0,
        frame_identifier: 1,
        overall_frame_identifier: 1,
        player_car_index: 0,
        secondary_player_car_index: 255,
    }
}

fn event_buffer(code: &[u8; 4], payload: &[u8]) -> Vec<u8> {
    let mut bytes = event_header().to_bytes();
    bytes.extend_from_slice(code);
    bytes.extend_from_slice(payload);
    bytes
}

#[test]
fn ssta_decodes_to_zero_payload_session_started() {
    let bytes = event_buffer(b"SSTA", &[0u8; 12]);
    let p = PacketEventData::from_bytes(&bytes).unwrap();
    assert_eq!(p.event_details, EventDataDetails::SessionStarted);
    assert_eq!(&p.event_string_code, b"SSTA");
}

#[test]
fn unknown_code_reports_its_length_and_text() {
    let bytes = event_buffer(b"ZZZZ", &[0u8; 12]);
    match PacketEventData::from_bytes(&bytes) {
        Err(PacketError::EventCodeOutOfBounds(len, code)) => {
            assert_eq!(len, 4);
            assert_eq!(&code, b"ZZZZ");
        }
        other => panic!("expected the out-of-bounds error, got {:?}", other),
    }
}

#[test]
fn all_zero_payload_codes_decode() {
    let cases: [(&[u8; 4], EventDataDetails); 7] = [
        (b"SSTA", EventDataDetails::SessionStarted),
        (b"SEND", EventDataDetails::SessionEnded),
        (b"DRSE", EventDataDetails::DRSEnabled),
        (b"DRSD", EventDataDetails::DRSDisabled),
        (b"CHQF", EventDataDetails::ChequeredFlag),
        (b"LGOT", EventDataDetails::LightsOut),
        (b"REDL", EventDataDetails::RedFlag),
    ];
    for (code, expected) in cases {
        let bytes = event_buffer(code, &[]);
        let p = PacketEventData::from_bytes(&bytes).unwrap();
        assert_eq!(p.event_details, expected);
    }
}

#[test]
fn fastest_lap_round_trip() {
    let bytes = event_buffer(b"FTLP", &[7, 0x00, 0x00, 0xb4, 0x42]);
    let p = PacketEventData::from_bytes(&bytes).unwrap();
    match p.event_details {
        EventDataDetails::FastestLap(f) => {
            assert_eq!(f.vehicle_idx, 7);
            assert_eq!(f.lap_time, 0x42b4_0000); // 90.0 as bits
        }
        other => panic!("wrong payload: {:?}", other),
    }
    let back = p.to_bytes();
    assert_eq!(back, &bytes[..38]);
    assert_eq!(PacketEventData::from_bytes(&back).unwrap(), p);
}

#[test]
fn penalty_round_trip() {
    let p = PacketEventData {
        header: event_header(),
        event_string_code: *b"PENL",
        event_details: EventDataDetails::Penalty(Penalty {
            penalty_type: PenaltyType::TimePenalty,
            infringement_type: InfringementType::CornerCuttingGainedTime,
            vehicle_idx: 3,
            other_vehicle_idx: 255,
            time: 5,
            lap_num: 12,
            places_gained: 0,
        }),
    };
    let bytes = p.to_bytes();
    assert_eq!(bytes.len(), 40);
    assert_eq!(PacketEventData::from_bytes(&bytes).unwrap(), p);
}

#[test]
fn penalty_with_unknown_variant_byte_is_a_decode_error() {
    // penalty type byte 200 names no variant
    let bytes = event_buffer(b"PENL", &[200, 0, 3, 255, 5, 12, 0]);
    assert_eq!(
        PacketEventData::from_bytes(&bytes),
        Err(PacketError::EventDecodeError)
    );
}

#[test]
fn event_payload_too_short_is_a_short_buffer() {
    let bytes = event_buffer(b"SPTP", &[0u8; 5]);
    assert_eq!(
        PacketEventData::from_bytes(&bytes),
        Err(PacketError::ShortBuffer)
    );
}

#[test]
fn overtake_and_buttons_round_trip() {
    let bytes = event_buffer(b"OVTK", &[4, 9]);
    let p = PacketEventData::from_bytes(&bytes).unwrap();
    match p.event_details {
        EventDataDetails::Overtake(o) => {
            assert_eq!(o.overtaking_vehicle_idx, 4);
            assert_eq!(o.being_overtaken_vehicle_idx, 9);
        }
        other => panic!("wrong payload: {:?}", other),
    }
    let bytes = event_buffer(b"BUTN", &[0x01, 0x02, 0x00, 0x00]);
    let p = PacketEventData::from_bytes(&bytes).unwrap();
    match p.event_details {
        EventDataDetails::Buttons(b) => assert_eq!(b.button_status, 0x0201),
        other => panic!("wrong payload: {:?}", other),
    }
}

#[test]
fn dispatcher_routes_events() {
    let bytes = event_buffer(b"SEND", &[0u8; 12]);
    match Packet::from_bytes(&bytes).unwrap() {
        Packet::Event(e) => assert_eq!(e.event_details, EventDataDetails::SessionEnded),
        other => panic!("wrong variant: {:?}", other),
    }
}

#[test]
fn penalty_and_infringement_codes_round_trip() {
    for b in 0u8..=15 {
        let v = PenaltyType::try_from(b).unwrap();
        assert_eq!(v.code(), b);
    }
    assert!(PenaltyType::try_from(16).is_none());
    for b in 0u8..=54 {
        let v = InfringementType::try_from(b).unwrap();
        assert_eq!(v.code(), b);
    }
    assert!(InfringementType::try_from(55).is_none());
}
