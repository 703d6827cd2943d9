//! Lap transitions, registration gating and the end-to-end tracker
//! scenarios, with the upload pipeline mocked by inspecting actions.

use telemetry::{
    EventDataDetails, Packet, PacketCarStatusData, PacketCarTelemetryData, PacketEventData,
    PacketHeader, PacketLapData, PacketSessionData, Session, SessionAction, SessionTracker,
};

fn header(packet_id: u8) -> PacketHeader {
    PacketHeader {
        packet_format: 2023,
        game_year: 23,
        game_major_version: 1,
        game_minor_version: 18,
        packet_version: 1,
        packet_id,
        session_uid: 42,
        session_time: 0,
        frame_identifier: 1,
        overall_frame_identifier: 1,
        player_car_index: 0,
        secondary_player_car_index: 255,
    }
}

fn session_packet() -> PacketSessionData {
    let mut p = PacketSessionData::from_bytes(&vec![0u8; 644]).unwrap();
    p.header = header(1);
    p.weather = 2;
    p.time_of_day = 840;
    p.total_laps = 5;
    p.track_id = 7;
    p.gearbox_assist = 3;
    p
}

fn car_status_packet() -> PacketCarStatusData {
    let mut p = PacketCarStatusData::from_bytes(&vec![0u8; 1239]).unwrap();
    p.header = header(7);
    p.car_status_data[0].traction_control = 2;
    p.car_status_data[0].anti_lock_brakes = 1;
    p
}

fn lap_packet(current_lap_num: u8, current_ms: u32, last_ms: u32) -> PacketLapData {
    let mut p = PacketLapData::from_bytes(&vec![0u8; 1131]).unwrap();
    p.header = header(2);
    p.lap_data[0].current_lap_num = current_lap_num;
    p.lap_data[0].current_lap_time_in_ms = current_ms;
    p.lap_data[0].last_lap_time_in_ms = last_ms;
    p.lap_data[0].driver_status = 1;
    p.lap_data[0].sector1_time_in_ms = 20_000;
    p.lap_data[0].sector2_time_in_ms = 30_000;
    p
}

fn telemetry_packet() -> PacketCarTelemetryData {
    let mut p = PacketCarTelemetryData::from_bytes(&vec![0u8; 1352]).unwrap();
    p.header = header(6);
    p.car_telemetry_data[0].speed = 280;
    p
}

fn event_packet(details: EventDataDetails, code: &[u8; 4]) -> PacketEventData {
    PacketEventData {
        header: header(3),
        event_string_code: *code,
        event_details: details,
    }
}

#[test]
fn lap_plus_one_finalizes_and_opens_the_next() {
    let mut s = Session::new(&header(3), 0);
    // open the third lap: stored post-decrement as 2
    assert!(matches!(
        s.handle_packet(&Packet::Lap(lap_packet(3, 1000, 0))),
        SessionAction::Idle
    ));
    assert_eq!(s.current_lap.as_ref().unwrap().lap_number, 2);
    // the next lap number finalizes it, with the wire's last-lap time
    match s.handle_packet(&Packet::Lap(lap_packet(4, 500, 95_000))) {
        SessionAction::PostLap(finished) => {
            assert_eq!(finished.lap_number, 2);
            assert_eq!(finished.lap_time_in_ms, 95_000);
        }
        other => panic!("expected a finalized lap, got {:?}", other),
    }
    assert_eq!(s.current_lap.as_ref().unwrap().lap_number, 3);
}

#[test]
fn same_lap_updates_in_place_without_upload() {
    let mut s = Session::new(&header(3), 0);
    s.handle_packet(&Packet::Lap(lap_packet(3, 1000, 0)));
    let action = s.handle_packet(&Packet::Lap(lap_packet(3, 2000, 0)));
    assert!(matches!(action, SessionAction::Idle));
    let lap = s.current_lap.as_ref().unwrap();
    assert_eq!(lap.lap_number, 2);
    assert_eq!(lap.lap_time_in_ms, 2000);
}

#[test]
fn lap_skip_discards_without_upload() {
    let mut s = Session::new(&header(3), 0);
    s.handle_packet(&Packet::Lap(lap_packet(3, 1000, 0)));
    // a jump of two laps: the in-progress lap is dropped, not uploaded
    let action = s.handle_packet(&Packet::Lap(lap_packet(6, 700, 90_000)));
    assert!(matches!(action, SessionAction::Idle));
    assert_eq!(s.current_lap.as_ref().unwrap().lap_number, 5);
}

#[test]
fn lap_regression_discards_without_upload() {
    let mut s = Session::new(&header(3), 0);
    s.handle_packet(&Packet::Lap(lap_packet(5, 1000, 0)));
    let action = s.handle_packet(&Packet::Lap(lap_packet(2, 700, 0)));
    assert!(matches!(action, SessionAction::Idle));
    assert_eq!(s.current_lap.as_ref().unwrap().lap_number, 1);
}

#[test]
fn registration_waits_until_initialised() {
    let mut s = Session::new(&header(3), 0);
    let mut registrations = 0;
    // first session packet: nothing merged yet, so no registration; it
    // becomes the merge source instead
    if matches!(
        s.handle_packet(&Packet::Session(session_packet())),
        SessionAction::Register
    ) {
        registrations += 1;
    }
    assert!(s.is_initialised());
    // car status merges the traction assists; never a registration trigger
    if matches!(
        s.handle_packet(&Packet::CarStatus(car_status_packet())),
        SessionAction::Register
    ) {
        registrations += 1;
    }
    let a = s.assists.as_ref().unwrap();
    assert_eq!(a.traction_control, Some(2));
    assert_eq!(a.anti_lock_brakes, Some(true));
    assert!(a.is_complete());
    // the next session packet finds the session initialised and unregistered
    if matches!(
        s.handle_packet(&Packet::Session(session_packet())),
        SessionAction::Register
    ) {
        registrations += 1;
    }
    assert_eq!(registrations, 1);
    // a failed attempt stores nothing, so the next session packet retries
    assert!(matches!(
        s.handle_packet(&Packet::Session(session_packet())),
        SessionAction::Register
    ));
    // once the remote id is stored, session packets merge again
    s.set_session_uid("remote-1".to_string());
    assert!(matches!(
        s.handle_packet(&Packet::Session(session_packet())),
        SessionAction::Idle
    ));
}

#[test]
fn car_status_alone_does_not_initialise() {
    let mut s = Session::new(&header(3), 0);
    // assists from a car status packet alone, with every snapshot field
    // unset, leave the session uninitialised
    s.handle_packet(&Packet::CarStatus(car_status_packet()));
    assert!(s.assists.is_some());
    assert!(!s.is_initialised());
    // so the first session packet still merges instead of registering
    assert!(matches!(
        s.handle_packet(&Packet::Session(session_packet())),
        SessionAction::Idle
    ));
    assert!(s.is_initialised());
    // and the next one triggers the registration
    assert!(matches!(
        s.handle_packet(&Packet::Session(session_packet())),
        SessionAction::Register
    ));
}

#[test]
fn telemetry_samples_collect_on_flying_laps_only() {
    let mut s = Session::new(&header(3), 0);
    s.handle_packet(&Packet::Lap(lap_packet(1, 4000, 0)));
    assert!(matches!(
        s.handle_packet(&Packet::CarTelemetry(telemetry_packet())),
        SessionAction::Idle
    ));
    assert_eq!(s.current_lap.as_ref().unwrap().car_telemetry.len(), 1);
    let sample = s.current_lap.as_ref().unwrap().car_telemetry[&4000];
    assert_eq!(sample.speed, 280);
    // a second sample at the same lap time overwrites the first
    let mut faster = telemetry_packet();
    faster.car_telemetry_data[0].speed = 301;
    s.handle_packet(&Packet::CarTelemetry(faster));
    assert_eq!(s.current_lap.as_ref().unwrap().car_telemetry.len(), 1);
    assert_eq!(s.current_lap.as_ref().unwrap().car_telemetry[&4000].speed, 301);
    // off a flying lap nothing is collected
    let mut garage = lap_packet(1, 5000, 0);
    garage.lap_data[0].driver_status = 0;
    s.handle_packet(&Packet::Lap(garage));
    s.handle_packet(&Packet::CarTelemetry(telemetry_packet()));
    assert_eq!(s.current_lap.as_ref().unwrap().car_telemetry.len(), 1);
}

#[test]
fn three_laps_and_an_ending_make_two_lap_uploads_and_five_end_attempts() {
    let mut tracker = SessionTracker::new();
    let mut lap_uploads = 0;
    let mut end_actions = 0;

    let started = event_packet(EventDataDetails::SessionStarted, b"SSTA");
    assert!(matches!(
        tracker.handle_packet(&Packet::Event(started), 1_000),
        SessionAction::Idle
    ));
    assert!(tracker.current_session.is_some());
    tracker.registration_complete("remote-7".to_string());

    for lap_num in 1u8..=3 {
        for _ in 0..3 {
            tracker.handle_packet(&Packet::CarTelemetry(telemetry_packet()), 1_500);
        }
        match tracker.handle_packet(
            &Packet::Lap(lap_packet(lap_num, 1000, 90_000 + lap_num as u32)),
            2_000,
        ) {
            SessionAction::PostLap(finished) => {
                lap_uploads += 1;
                assert!(!finished.car_telemetry.is_empty());
            }
            SessionAction::Idle => {}
            other => panic!("unexpected action {:?}", other),
        }
    }
    assert_eq!(lap_uploads, 2);

    let ended = event_packet(EventDataDetails::SessionEnded, b"SEND");
    let mut attempts = 0;
    if matches!(
        tracker.handle_packet(&Packet::Event(ended), 9_000),
        SessionAction::EndSession
    ) {
        end_actions += 1;
        // the transport always fails: count the attempts until the budget
        // is exhausted
        attempts += 1;
        while tracker.end_attempt_failed() {
            attempts += 1;
        }
    }
    assert_eq!(end_actions, 1);
    assert_eq!(attempts, 5);
    assert!(tracker.current_session.is_none());
}

#[test]
fn ending_an_unregistered_session_discards_it_silently() {
    let mut tracker = SessionTracker::new();
    let started = event_packet(EventDataDetails::SessionStarted, b"SSTA");
    tracker.handle_packet(&Packet::Event(started), 0);
    let ended = event_packet(EventDataDetails::SessionEnded, b"SEND");
    assert!(matches!(
        tracker.handle_packet(&Packet::Event(ended), 10),
        SessionAction::Idle
    ));
    assert!(tracker.current_session.is_none());
}

#[test]
fn events_without_a_session_are_no_ops() {
    let mut tracker = SessionTracker::new();
    let ended = event_packet(EventDataDetails::SessionEnded, b"SEND");
    assert!(matches!(
        tracker.handle_packet(&Packet::Event(ended), 0),
        SessionAction::Idle
    ));
    assert!(matches!(
        tracker.handle_packet(&Packet::Lap(lap_packet(1, 0, 0)), 0),
        SessionAction::Idle
    ));
    assert!(tracker.current_session.is_none());
}

#[test]
fn end_attempt_success_discards_the_session() {
    let mut tracker = SessionTracker::new();
    let started = event_packet(EventDataDetails::SessionStarted, b"SSTA");
    tracker.handle_packet(&Packet::Event(started), 0);
    tracker.registration_complete("remote-9".to_string());
    let ended = event_packet(EventDataDetails::SessionEnded, b"SEND");
    assert!(matches!(
        tracker.handle_packet(&Packet::Event(ended), 77),
        SessionAction::EndSession
    ));
    assert_eq!(
        tracker.current_session.as_ref().unwrap().end_date,
        Some(77)
    );
    tracker.end_attempt_succeeded();
    assert!(tracker.current_session.is_none());
}

#[test]
fn session_merge_is_last_write_wins_and_non_destructive() {
    let mut s = Session::new(&header(3), 0);
    s.handle_packet(&Packet::Session(session_packet()));
    s.handle_packet(&Packet::CarStatus(car_status_packet()));
    // a later session packet rewrites its eight fields but keeps the two
    // car-status-sourced ones
    let mut update = session_packet();
    update.gearbox_assist = 1;
    s.set_session_uid("remote-2".to_string());
    s.handle_packet(&Packet::Session(update));
    let a = s.assists.as_ref().unwrap();
    assert_eq!(a.gearbox_assist, Some(1));
    assert_eq!(a.traction_control, Some(2));
    assert_eq!(a.anti_lock_brakes, Some(true));
}
