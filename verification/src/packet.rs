//! Packet kinds, decode errors, and the envelope dispatcher.

pub mod car_damage;
pub mod car_setups;
pub mod car_status;
pub mod car_telemetry;
pub mod event;
pub mod final_classification;
pub mod header;
pub mod lap;
pub mod lobby_info;
pub mod motion;
pub mod motion_ex;
pub mod participants;
pub mod session;
pub mod session_history;
pub mod tyre_sets;

use vstd::prelude::*;

use self::car_damage::{enc_packet_car_damage, PacketCarDamageData, PACKET_CAR_DAMAGE_LEN};
use self::car_setups::{enc_packet_car_setups, PacketCarSetupData, PACKET_CAR_SETUPS_LEN};
use self::car_status::{enc_packet_car_status, PacketCarStatusData, PACKET_CAR_STATUS_LEN};
use self::car_telemetry::{
    enc_packet_car_telemetry, PacketCarTelemetryData, PACKET_CAR_TELEMETRY_LEN,
};
use self::event::{
    enc_packet_event, event_payload_len, known_event_code, penalty_bytes_ok, PacketEventData,
    PACKET_EVENT_BASE_LEN,
};
use self::final_classification::{
    enc_packet_final_classification, PacketFinalClassificationData, PACKET_FINAL_CLASSIFICATION_LEN,
};
use self::header::{enc_header, PacketHeader, HEADER_LEN};
use self::lap::{enc_packet_lap, PacketLapData, PACKET_LAP_LEN};
use self::lobby_info::{enc_packet_lobby_info, PacketLobbyInfoData, PACKET_LOBBY_INFO_LEN};
use self::motion::{enc_packet_motion, PacketMotionData, PACKET_MOTION_LEN};
use self::motion_ex::{enc_packet_motion_ex, PacketMotionExData, PACKET_MOTION_EX_LEN};
use self::participants::{enc_packet_participants, PacketParticipantsData, PACKET_PARTICIPANTS_LEN};
use self::session::{enc_packet_session, PacketSessionData, PACKET_SESSION_LEN};
use self::session_history::{
    enc_packet_session_history, PacketSessionHistoryData, PACKET_SESSION_HISTORY_LEN,
};
use self::tyre_sets::{enc_packet_tyre_sets, PacketTyreSetData, PACKET_TYRE_SETS_LEN};

verus! {


/// Discriminant of a packet kind, carried in the header's packet-id byte.
#[derive(Debug, Clone, Copy, PartialEq, Eq)]
pub enum PacketID {
    Motion,
    Session,
    Lap,
    Event,
    Participants,
    CarSetups,
    CarTelemetry,
    CarStatus,
    FinalClassification,
    LobbyInfo,
    CarDamage,
    SessionHistory,
    TyreSets,
    MotionEx,
}

/// How a datagram can fail to decode.
#[derive(Debug, Clone, Copy, PartialEq, Eq)]
pub enum PacketError {
    /// The buffer holds fewer bytes than the selected layout needs.
    ShortBuffer,
    /// The header's packet-id byte names no known packet kind.
    InvalidPacketID(u8),
    /// The event code is not in the dispatch table; carries the code's byte
    /// length and the code itself.
    EventCodeOutOfBounds(usize, [u8; 4]),
    /// The event payload bytes name no known variant of an enumerated field.
    EventDecodeError,
}

/// The raw byte that selects each packet kind.
pub open spec fn packet_id_code(id: PacketID) -> u8 {
    match id {
        PacketID::Motion => 0,
        PacketID::Session => 1,
        PacketID::Lap => 2,
        PacketID::Event => 3,
        PacketID::Participants => 4,
        PacketID::CarSetups => 5,
        PacketID::CarTelemetry => 6,
        PacketID::CarStatus => 7,
        PacketID::FinalClassification => 8,
        PacketID::LobbyInfo => 9,
        PacketID::CarDamage => 10,
        PacketID::SessionHistory => 11,
        PacketID::TyreSets => 12,
        PacketID::MotionEx => 13,
    }
}

impl PacketID {
    /// Maps a raw packet-id byte to its packet kind: defined exactly for the
    /// byte values zero through thirteen, and an error carrying the offending
    /// byte otherwise.
    pub fn try_from(val: u8) -> (r: Result<PacketID, PacketError>)
        ensures
            val <= 13 ==> (r matches Ok(id) && packet_id_code(id) == val),
            val > 13 ==> r == Err::<PacketID, PacketError>(PacketError::InvalidPacketID(val)),
    {
        match val {
            0 => Ok(PacketID::Motion),
            1 => Ok(PacketID::Session),
            2 => Ok(PacketID::Lap),
            3 => Ok(PacketID::Event),
            4 => Ok(PacketID::Participants),
            5 => Ok(PacketID::CarSetups),
            6 => Ok(PacketID::CarTelemetry),
            7 => Ok(PacketID::CarStatus),
            8 => Ok(PacketID::FinalClassification),
            9 => Ok(PacketID::LobbyInfo),
            10 => Ok(PacketID::CarDamage),
            11 => Ok(PacketID::SessionHistory),
            12 => Ok(PacketID::TyreSets),
            13 => Ok(PacketID::MotionEx),
            _ => Err(PacketError::InvalidPacketID(val)),
        }
    }

    /// The raw byte value of this packet kind.
    pub fn code(&self) -> (r: u8)
        ensures
            r == packet_id_code(*self),
    {
        match self {
            PacketID::Motion => 0,
            PacketID::Session => 1,
            PacketID::Lap => 2,
            PacketID::Event => 3,
            PacketID::Participants => 4,
            PacketID::CarSetups => 5,
            PacketID::CarTelemetry => 6,
            PacketID::CarStatus => 7,
            PacketID::FinalClassification => 8,
            PacketID::LobbyInfo => 9,
            PacketID::CarDamage => 10,
            PacketID::SessionHistory => 11,
            PacketID::TyreSets => 12,
            PacketID::MotionEx => 13,
        }
    }
}

/// A fully decoded datagram: one variant per packet kind.  The bare
/// `Header` variant exists for completeness; the dispatcher never yields
/// it.  Invariant of every decoded value: the variant matches the
/// header's packet-id byte.
#[derive(Debug, Clone, Copy, PartialEq, Eq)]
pub enum Packet {
    Header(PacketHeader),
    Motion(PacketMotionData),
    Session(PacketSessionData),
    Lap(PacketLapData),
    Event(PacketEventData),
    Participants(PacketParticipantsData),
    CarSetups(PacketCarSetupData),
    CarTelemetry(PacketCarTelemetryData),
    CarStatus(PacketCarStatusData),
    FinalClassification(PacketFinalClassificationData),
    LobbyInfo(PacketLobbyInfoData),
    CarDamage(PacketCarDamageData),
    SessionHistory(PacketSessionHistoryData),
    TyreSets(PacketTyreSetData),
    MotionEx(PacketMotionExData),
}

/// The header carried by any packet value.
pub open spec fn packet_header_of(p: Packet) -> PacketHeader {
    match p {
        Packet::Header(h) => h,
        Packet::Motion(d) => d.header,
        Packet::Session(d) => d.header,
        Packet::Lap(d) => d.header,
        Packet::Event(d) => d.header,
        Packet::Participants(d) => d.header,
        Packet::CarSetups(d) => d.header,
        Packet::CarTelemetry(d) => d.header,
        Packet::CarStatus(d) => d.header,
        Packet::FinalClassification(d) => d.header,
        Packet::LobbyInfo(d) => d.header,
        Packet::CarDamage(d) => d.header,
        Packet::SessionHistory(d) => d.header,
        Packet::TyreSets(d) => d.header,
        Packet::MotionEx(d) => d.header,
    }
}

impl Packet {
    /// Decodes a datagram: the header first, then the per-kind decoder
    /// selected by the packet-id byte (at offset 6 of the wire header).
    /// The chosen variant always matches that byte.
    pub fn from_bytes(buf: &[u8]) -> (r: Result<Packet, PacketError>)
        ensures
            buf@.len() < HEADER_LEN ==> r == Err::<Packet, PacketError>(
                PacketError::ShortBuffer,
            ),
            buf@.len() >= HEADER_LEN && buf@[6] > 13 ==> r == Err::<Packet, PacketError>(
                PacketError::InvalidPacketID(buf@[6]),
            ),
            buf@.len() >= HEADER_LEN && buf@[6] == 0 ==> {
                &&& buf@.len() >= PACKET_MOTION_LEN ==> (r matches Ok(p) && p matches Packet::Motion(d)
                    && enc_packet_motion(d) == buf@.subrange(0, PACKET_MOTION_LEN as int))
                &&& buf@.len() < PACKET_MOTION_LEN ==> r == Err::<Packet, PacketError>(
                    PacketError::ShortBuffer,
                )
            },
            buf@.len() >= HEADER_LEN && buf@[6] == 1 ==> {
                &&& buf@.len() >= PACKET_SESSION_LEN ==> (r matches Ok(p) && p matches Packet::Session(d)
                    && enc_packet_session(d) == buf@.subrange(0, PACKET_SESSION_LEN as int))
                &&& buf@.len() < PACKET_SESSION_LEN ==> r == Err::<Packet, PacketError>(
                    PacketError::ShortBuffer,
                )
            },
            buf@.len() >= HEADER_LEN && buf@[6] == 2 ==> {
                &&& buf@.len() >= PACKET_LAP_LEN ==> (r matches Ok(p) && p matches Packet::Lap(d)
                    && enc_packet_lap(d) == buf@.subrange(0, PACKET_LAP_LEN as int))
                &&& buf@.len() < PACKET_LAP_LEN ==> r == Err::<Packet, PacketError>(
                    PacketError::ShortBuffer,
                )
            },
            buf@.len() >= HEADER_LEN && buf@[6] == 4 ==> {
                &&& buf@.len() >= PACKET_PARTICIPANTS_LEN ==> (r matches Ok(p) && p matches Packet::Participants(d)
                    && enc_packet_participants(d) == buf@.subrange(0, PACKET_PARTICIPANTS_LEN as int))
                &&& buf@.len() < PACKET_PARTICIPANTS_LEN ==> r == Err::<Packet, PacketError>(
                    PacketError::ShortBuffer,
                )
            },
            buf@.len() >= HEADER_LEN && buf@[6] == 5 ==> {
                &&& buf@.len() >= PACKET_CAR_SETUPS_LEN ==> (r matches Ok(p) && p matches Packet::CarSetups(d)
                    && enc_packet_car_setups(d) == buf@.subrange(0, PACKET_CAR_SETUPS_LEN as int))
                &&& buf@.len() < PACKET_CAR_SETUPS_LEN ==> r == Err::<Packet, PacketError>(
                    PacketError::ShortBuffer,
                )
            },
            buf@.len() >= HEADER_LEN && buf@[6] == 6 ==> {
                &&& buf@.len() >= PACKET_CAR_TELEMETRY_LEN ==> (r matches Ok(p) && p matches Packet::CarTelemetry(d)
                    && enc_packet_car_telemetry(d) == buf@.subrange(0, PACKET_CAR_TELEMETRY_LEN as int))
                &&& buf@.len() < PACKET_CAR_TELEMETRY_LEN ==> r == Err::<Packet, PacketError>(
                    PacketError::ShortBuffer,
                )
            },
            buf@.len() >= HEADER_LEN && buf@[6] == 7 ==> {
                &&& buf@.len() >= PACKET_CAR_STATUS_LEN ==> (r matches Ok(p) && p matches Packet::CarStatus(d)
                    && enc_packet_car_status(d) == buf@.subrange(0, PACKET_CAR_STATUS_LEN as int))
                &&& buf@.len() < PACKET_CAR_STATUS_LEN ==> r == Err::<Packet, PacketError>(
                    PacketError::ShortBuffer,
                )
            },
            buf@.len() >= HEADER_LEN && buf@[6] == 8 ==> {
                &&& buf@.len() >= PACKET_FINAL_CLASSIFICATION_LEN ==> (r matches Ok(p) && p matches Packet::FinalClassification(d)
                    && enc_packet_final_classification(d) == buf@.subrange(0, PACKET_FINAL_CLASSIFICATION_LEN as int))
                &&& buf@.len() < PACKET_FINAL_CLASSIFICATION_LEN ==> r == Err::<Packet, PacketError>(
                    PacketError::ShortBuffer,
                )
            },
            buf@.len() >= HEADER_LEN && buf@[6] == 9 ==> {
                &&& buf@.len() >= PACKET_LOBBY_INFO_LEN ==> (r matches Ok(p) && p matches Packet::LobbyInfo(d)
                    && enc_packet_lobby_info(d) == buf@.subrange(0, PACKET_LOBBY_INFO_LEN as int))
                &&& buf@.len() < PACKET_LOBBY_INFO_LEN ==> r == Err::<Packet, PacketError>(
                    PacketError::ShortBuffer,
                )
            },
            buf@.len() >= HEADER_LEN && buf@[6] == 10 ==> {
                &&& buf@.len() >= PACKET_CAR_DAMAGE_LEN ==> (r matches Ok(p) && p matches Packet::CarDamage(d)
                    && enc_packet_car_damage(d) == buf@.subrange(0, PACKET_CAR_DAMAGE_LEN as int))
                &&& buf@.len() < PACKET_CAR_DAMAGE_LEN ==> r == Err::<Packet, PacketError>(
                    PacketError::ShortBuffer,
                )
            },
            buf@.len() >= HEADER_LEN && buf@[6] == 11 ==> {
                &&& buf@.len() >= PACKET_SESSION_HISTORY_LEN ==> (r matches Ok(p) && p matches Packet::SessionHistory(d)
                    && enc_packet_session_history(d) == buf@.subrange(0, PACKET_SESSION_HISTORY_LEN as int))
                &&& buf@.len() < PACKET_SESSION_HISTORY_LEN ==> r == Err::<Packet, PacketError>(
                    PacketError::ShortBuffer,
                )
            },
            buf@.len() >= HEADER_LEN && buf@[6] == 12 ==> {
                &&& buf@.len() >= PACKET_TYRE_SETS_LEN ==> (r matches Ok(p) && p matches Packet::TyreSets(d)
                    && enc_packet_tyre_sets(d) == buf@.subrange(0, PACKET_TYRE_SETS_LEN as int))
                &&& buf@.len() < PACKET_TYRE_SETS_LEN ==> r == Err::<Packet, PacketError>(
                    PacketError::ShortBuffer,
                )
            },
            buf@.len() >= HEADER_LEN && buf@[6] == 13 ==> {
                &&& buf@.len() >= PACKET_MOTION_EX_LEN ==> (r matches Ok(p) && p matches Packet::MotionEx(d)
                    && enc_packet_motion_ex(d) == buf@.subrange(0, PACKET_MOTION_EX_LEN as int))
                &&& buf@.len() < PACKET_MOTION_EX_LEN ==> r == Err::<Packet, PacketError>(
                    PacketError::ShortBuffer,
                )
            },
            buf@.len() >= HEADER_LEN && buf@[6] == 3 ==> {
                let c = buf@.subrange(29, 33);
                &&& buf@.len() >= PACKET_EVENT_BASE_LEN && !known_event_code(c) ==> (r matches Err(
                    PacketError::EventCodeOutOfBounds(n, cc),
                ) && n == 4 && cc@ == c)
                &&& buf@.len() < PACKET_EVENT_BASE_LEN ==> r == Err::<Packet, PacketError>(
                    PacketError::ShortBuffer,
                )
                &&& buf@.len() >= PACKET_EVENT_BASE_LEN && known_event_code(c) && buf@.len()
                    < PACKET_EVENT_BASE_LEN + event_payload_len(c) ==> r == Err::<
                    Packet,
                    PacketError,
                >(PacketError::ShortBuffer)
                &&& buf@.len() >= PACKET_EVENT_BASE_LEN + event_payload_len(c) && c == seq![
                    80u8,
                    69u8,
                    78u8,
                    76u8,
                ] && !penalty_bytes_ok(buf@, 33) ==> r == Err::<Packet, PacketError>(
                    PacketError::EventDecodeError,
                )
                &&& known_event_code(c) && buf@.len() >= PACKET_EVENT_BASE_LEN
                    + event_payload_len(c) && (c == seq![80u8, 69u8, 78u8, 76u8]
                    ==> penalty_bytes_ok(buf@, 33)) ==> (r matches Ok(p) && p matches Packet::Event(d)
                    && d.wf() && enc_packet_event(d) == buf@.subrange(
                    0,
                    PACKET_EVENT_BASE_LEN + event_payload_len(c),
                ))
            },
            r matches Ok(p) ==> packet_header_of(p).packet_id == buf@[6],
    {
        let header = match PacketHeader::from_bytes(buf) {
            Ok(h) => h,
            Err(e) => {
                return Err(e);
            },
        };
        proof {
            assert(enc_header(header)[6] == header.packet_id);
            assert(buf@.subrange(0, HEADER_LEN as int)[6] == buf@[6]);
        }
        match PacketID::try_from(header.packet_id) {
            Ok(PacketID::Motion) => match motion::PacketMotionData::from_bytes(buf) {
                Ok(d) => Ok(Packet::Motion(d)),
                Err(e) => Err(e),
            },
            Ok(PacketID::Session) => match session::PacketSessionData::from_bytes(buf) {
                Ok(d) => Ok(Packet::Session(d)),
                Err(e) => Err(e),
            },
            Ok(PacketID::Lap) => match lap::PacketLapData::from_bytes(buf) {
                Ok(d) => Ok(Packet::Lap(d)),
                Err(e) => Err(e),
            },
            Ok(PacketID::Event) => match PacketEventData::from_bytes(buf) {
                Ok(d) => Ok(Packet::Event(d)),
                Err(e) => Err(e),
            },
            Ok(PacketID::Participants) => match participants::PacketParticipantsData::from_bytes(buf) {
                Ok(d) => Ok(Packet::Participants(d)),
                Err(e) => Err(e),
            },
            Ok(PacketID::CarSetups) => match car_setups::PacketCarSetupData::from_bytes(buf) {
                Ok(d) => Ok(Packet::CarSetups(d)),
                Err(e) => Err(e),
            },
            Ok(PacketID::CarTelemetry) => match car_telemetry::PacketCarTelemetryData::from_bytes(buf) {
                Ok(d) => Ok(Packet::CarTelemetry(d)),
                Err(e) => Err(e),
            },
            Ok(PacketID::CarStatus) => match car_status::PacketCarStatusData::from_bytes(buf) {
                Ok(d) => Ok(Packet::CarStatus(d)),
                Err(e) => Err(e),
            },
            Ok(PacketID::FinalClassification) => match final_classification::PacketFinalClassificationData::from_bytes(buf) {
                Ok(d) => Ok(Packet::FinalClassification(d)),
                Err(e) => Err(e),
            },
            Ok(PacketID::LobbyInfo) => match lobby_info::PacketLobbyInfoData::from_bytes(buf) {
                Ok(d) => Ok(Packet::LobbyInfo(d)),
                Err(e) => Err(e),
            },
            Ok(PacketID::CarDamage) => match car_damage::PacketCarDamageData::from_bytes(buf) {
                Ok(d) => Ok(Packet::CarDamage(d)),
                Err(e) => Err(e),
            },
            Ok(PacketID::SessionHistory) => match session_history::PacketSessionHistoryData::from_bytes(buf) {
                Ok(d) => Ok(Packet::SessionHistory(d)),
                Err(e) => Err(e),
            },
            Ok(PacketID::TyreSets) => match tyre_sets::PacketTyreSetData::from_bytes(buf) {
                Ok(d) => Ok(Packet::TyreSets(d)),
                Err(e) => Err(e),
            },
            Ok(PacketID::MotionEx) => match motion_ex::PacketMotionExData::from_bytes(buf) {
                Ok(d) => Ok(Packet::MotionEx(d)),
                Err(e) => Err(e),
            },
            Err(e) => Err(e),
        }
    }

    /// The header of this packet, whatever the variant.
    pub fn header(&self) -> (r: PacketHeader)
        ensures
            r == packet_header_of(*self),
    {
        match self {
            Packet::Header(h) => h.header(),
            Packet::Motion(d) => d.header(),
            Packet::Session(d) => d.header(),
            Packet::Lap(d) => d.header(),
            Packet::Event(d) => d.header(),
            Packet::Participants(d) => d.header(),
            Packet::CarSetups(d) => d.header(),
            Packet::CarTelemetry(d) => d.header(),
            Packet::CarStatus(d) => d.header(),
            Packet::FinalClassification(d) => d.header(),
            Packet::LobbyInfo(d) => d.header(),
            Packet::CarDamage(d) => d.header(),
            Packet::SessionHistory(d) => d.header(),
            Packet::TyreSets(d) => d.header(),
            Packet::MotionEx(d) => d.header(),
        }
    }

    /// The packet kind named by the header's packet-id byte.
    pub fn packet_id(&self) -> (r: Result<PacketID, PacketError>)
        ensures
            packet_header_of(*self).packet_id <= 13 ==> (r matches Ok(id)
                && packet_id_code(id) == packet_header_of(*self).packet_id),
            packet_header_of(*self).packet_id > 13 ==> r == Err::<PacketID, PacketError>(
                PacketError::InvalidPacketID(packet_header_of(*self).packet_id),
            ),
    {
        match self {
            Packet::Header(h) => h.packet_id(),
            Packet::Motion(d) => d.packet_id(),
            Packet::Session(d) => d.packet_id(),
            Packet::Lap(d) => d.packet_id(),
            Packet::Event(d) => d.packet_id(),
            Packet::Participants(d) => d.packet_id(),
            Packet::CarSetups(d) => d.packet_id(),
            Packet::CarTelemetry(d) => d.packet_id(),
            Packet::CarStatus(d) => d.packet_id(),
            Packet::FinalClassification(d) => d.packet_id(),
            Packet::LobbyInfo(d) => d.packet_id(),
            Packet::CarDamage(d) => d.packet_id(),
            Packet::SessionHistory(d) => d.packet_id(),
            Packet::TyreSets(d) => d.packet_id(),
            Packet::MotionEx(d) => d.packet_id(),
        }
    }
}

} // verus!
