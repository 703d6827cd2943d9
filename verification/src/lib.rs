//! Decoder, encoder and session tracker for a fixed-layout binary telemetry
//! protocol: fourteen packet kinds share a common little-endian header, an
//! event packet dispatches on a four-byte code, and a session state machine
//! folds the decoded stream into upload-ready lap and session records.

pub mod assists;
pub mod auth;
pub mod bytes;
pub mod game_session;
pub mod packet;
pub mod request;
pub mod session;
pub mod tracker;

pub use assists::Assists;
pub use game_session::{GameSession, MotionExData, SessionData};
pub use packet::car_damage::{CarDamageData, PacketCarDamageData};
pub use packet::car_setups::{CarSetupData, PacketCarSetupData};
pub use packet::car_status::{CarStatusData, PacketCarStatusData};
pub use packet::car_telemetry::{CarTelemetryData, PacketCarTelemetryData};
pub use packet::event::{
    Buttons, DriveThroughPenaltyServed, EventDataDetails, FastestLap, Flashback,
    InfringementType, Overtake, PacketEventData, Penalty, PenaltyType, RaceWinner, Retirement,
    SpeedTrap, StartLights, StopGoPenaltyServed, TeamMateInPits,
};
pub use packet::final_classification::{FinalClassificationData, PacketFinalClassificationData};
pub use packet::header::PacketHeader;
pub use packet::lap::{LapData, PacketLapData};
pub use packet::lobby_info::{LobbyInfoData, PacketLobbyInfoData};
pub use packet::motion::{CarMotionData, PacketMotionData};
pub use packet::motion_ex::PacketMotionExData;
pub use packet::participants::{PacketParticipantsData, ParticipantData};
pub use packet::session::{MarshalZone, PacketSessionData, WeatherForecastSample};
pub use packet::session_history::{
    LapHistoryData, PacketSessionHistoryData, TyreStintHistoryData,
};
pub use packet::tyre_sets::{PacketTyreSetData, TyreSetData};
pub use packet::{Packet, PacketError, PacketID};
pub use request::{ApiLapRequest, ApiLapResponse, ApiSessionResponse, SessionEndRequest};
pub use session::{
    JSONTelemetrySession, Lap, Session, SessionAction, TelemetrySample,
};
pub use tracker::SessionTracker;
pub use auth::{ErrorResponse, TokenResponse};
