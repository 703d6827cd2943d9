//! Event packet: a four-byte ASCII code after the header selects one of
//! nineteen payload shapes, twelve with a fixed layout and seven with none.

use vstd::prelude::*;

use crate::bytes::{
    le32, le8, lemma_concat_split, lemma_le32_injective, lemma_le8_injective, read_bytes,
    read_u32, read_u8, write_bytes, write_u32, write_u8,
};
use super::header::{
    decode_header_at, enc_header, encode_header_into, lemma_enc_header_injective, PacketHeader,
};
use super::{packet_id_code, PacketError, PacketID};

verus! {

/// Wire width of the header plus the four-byte event code.
pub const PACKET_EVENT_BASE_LEN: usize = 33;

/// PenaltyType on the wire: one byte selecting a variant.
#[derive(Debug, Clone, Copy, PartialEq, Eq)]
pub enum PenaltyType {
    DriveThrough,
    StopGo,
    GridPenalty,
    PenaltyReminder,
    TimePenalty,
    Warning,
    Disqualified,
    RemovedFromFormationLap,
    ParkedTooLongTimer,
    TyreRegulation,
    ThisLapInvalidated,
    ThisAndNextLapInvalidated,
    ThisAndPreviousLapInvalidated,
    ThisAndPreviousLapInvalidatedWithoutReason,
    Retired,
    BlackFlagTimer,
}

/// The raw byte of each penalty type variant.
pub open spec fn penalty_code(v: PenaltyType) -> u8 {
    match v {
        PenaltyType::DriveThrough => 0,
        PenaltyType::StopGo => 1,
        PenaltyType::GridPenalty => 2,
        PenaltyType::PenaltyReminder => 3,
        PenaltyType::TimePenalty => 4,
        PenaltyType::Warning => 5,
        PenaltyType::Disqualified => 6,
        PenaltyType::RemovedFromFormationLap => 7,
        PenaltyType::ParkedTooLongTimer => 8,
        PenaltyType::TyreRegulation => 9,
        PenaltyType::ThisLapInvalidated => 10,
        PenaltyType::ThisAndNextLapInvalidated => 11,
        PenaltyType::ThisAndPreviousLapInvalidated => 12,
        PenaltyType::ThisAndPreviousLapInvalidatedWithoutReason => 13,
        PenaltyType::Retired => 14,
        PenaltyType::BlackFlagTimer => 15,
    }
}

/// The variant named by a raw byte, when there is one.
pub open spec fn penalty_of_code(b: u8) -> Option<PenaltyType> {
    match b {
        0 => Some(PenaltyType::DriveThrough),
        1 => Some(PenaltyType::StopGo),
        2 => Some(PenaltyType::GridPenalty),
        3 => Some(PenaltyType::PenaltyReminder),
        4 => Some(PenaltyType::TimePenalty),
        5 => Some(PenaltyType::Warning),
        6 => Some(PenaltyType::Disqualified),
        7 => Some(PenaltyType::RemovedFromFormationLap),
        8 => Some(PenaltyType::ParkedTooLongTimer),
        9 => Some(PenaltyType::TyreRegulation),
        10 => Some(PenaltyType::ThisLapInvalidated),
        11 => Some(PenaltyType::ThisAndNextLapInvalidated),
        12 => Some(PenaltyType::ThisAndPreviousLapInvalidated),
        13 => Some(PenaltyType::ThisAndPreviousLapInvalidatedWithoutReason),
        14 => Some(PenaltyType::Retired),
        15 => Some(PenaltyType::BlackFlagTimer),
        _ => None,
    }
}

impl PenaltyType {
    /// The raw byte value of this variant.
    pub fn code(&self) -> (r: u8)
        ensures
            r == penalty_code(*self),
    {
        match self {
            PenaltyType::DriveThrough => 0,
            PenaltyType::StopGo => 1,
            PenaltyType::GridPenalty => 2,
            PenaltyType::PenaltyReminder => 3,
            PenaltyType::TimePenalty => 4,
            PenaltyType::Warning => 5,
            PenaltyType::Disqualified => 6,
            PenaltyType::RemovedFromFormationLap => 7,
            PenaltyType::ParkedTooLongTimer => 8,
            PenaltyType::TyreRegulation => 9,
            PenaltyType::ThisLapInvalidated => 10,
            PenaltyType::ThisAndNextLapInvalidated => 11,
            PenaltyType::ThisAndPreviousLapInvalidated => 12,
            PenaltyType::ThisAndPreviousLapInvalidatedWithoutReason => 13,
            PenaltyType::Retired => 14,
            PenaltyType::BlackFlagTimer => 15,
        }
    }

    /// The variant selected by a raw byte: defined exactly for the
    /// byte values zero through 15.
    pub fn try_from(b: u8) -> (r: Option<PenaltyType>)
        ensures
            r == penalty_of_code(b),
            (r matches Some(v) && penalty_code(v) == b) || (r is None && b > 15),
    {
        match b {
            0 => Some(PenaltyType::DriveThrough),
            1 => Some(PenaltyType::StopGo),
            2 => Some(PenaltyType::GridPenalty),
            3 => Some(PenaltyType::PenaltyReminder),
            4 => Some(PenaltyType::TimePenalty),
            5 => Some(PenaltyType::Warning),
            6 => Some(PenaltyType::Disqualified),
            7 => Some(PenaltyType::RemovedFromFormationLap),
            8 => Some(PenaltyType::ParkedTooLongTimer),
            9 => Some(PenaltyType::TyreRegulation),
            10 => Some(PenaltyType::ThisLapInvalidated),
            11 => Some(PenaltyType::ThisAndNextLapInvalidated),
            12 => Some(PenaltyType::ThisAndPreviousLapInvalidated),
            13 => Some(PenaltyType::ThisAndPreviousLapInvalidatedWithoutReason),
            14 => Some(PenaltyType::Retired),
            15 => Some(PenaltyType::BlackFlagTimer),
            _ => None,
        }
    }
}

/// The raw byte determines the variant.
pub proof fn lemma_penalty_code_injective(a: PenaltyType, b: PenaltyType)
    requires
        penalty_code(a) == penalty_code(b),
    ensures
        a == b,
{
}

/// InfringementType on the wire: one byte selecting a variant.
#[derive(Debug, Clone, Copy, PartialEq, Eq)]
pub enum InfringementType {
    BlockingBySlowDriving,
    BlockingByWrongWayDriving,
    ReversingOffTheStartLine,
    BigCollision,
    SmallCollision,
    CollisionFailedToHandBackPositionSingle,
    CollisionFailedToHandBackPositionMultiple,
    CornerCuttingGainedTime,
    CornerCuttingOvertakeSingle,
    CornerCuttingOvertakeMultiple,
    CrossedPitExitLane,
    IgnoringBlueFlags,
    IgnoringYellowFlags,
    IgnoringDriveThrough,
    TooManyDriveThroughs,
    DriveThroughReminderServeWithinNLaps,
    DriveThroughReminderServeThisLap,
    PitLaneSpeeding,
    ParkedForTooLong,
    IgnoringTyreRegulations,
    TooManyPenalties,
    MultipleWarnings,
    ApproachingDisqualification,
    TyreRegulationsSelectSingle,
    TyreRegulationsSelectMultiple,
    LapInvalidatedCornerCutting,
    LapInvalidatedRunningWide,
    CornerCuttingRanWideGaintedTimeMinor,
    CornerCuttingRanWideGaintedTimeSignificant,
    CornerCuttingRanWideGaintedTimeExtreme,
    LapInvalidatedWallRiding,
    LapInvalidatedFlashbackUsed,
    LapInvalidatedResetToTrack,
    BlockingThePitlane,
    JumpStart,
    SafetyCarToCarCollision,
    SafetyCarIllegalOvertake,
    SafetyCarExceedingAllowedPace,
    VirtualSafetyCarExceedingAllowedPace,
    FormationLapBelowAllowedSpeed,
    FormationLapParking,
    RetiredMechanicalFailure,
    RetiredTerminallyDamaged,
    SafetyCarFallingTooFarBack,
    BlackFlagTimer,
    UnservedStopGoPenalty,
    UnservedDriveThroughPenalty,
    EngineComponentChange,
    GearboxChange,
    ParcFermeChange,
    LeagueGridPenalty,
    RetryPenalty,
    IllegalTimeGain,
    MandatoryPistop,
    AttributeAssigned,
}

/// The raw byte of each infringement type variant.
pub open spec fn infringement_code(v: InfringementType) -> u8 {
    match v {
        InfringementType::BlockingBySlowDriving => 0,
        InfringementType::BlockingByWrongWayDriving => 1,
        InfringementType::ReversingOffTheStartLine => 2,
        InfringementType::BigCollision => 3,
        InfringementType::SmallCollision => 4,
        InfringementType::CollisionFailedToHandBackPositionSingle => 5,
        InfringementType::CollisionFailedToHandBackPositionMultiple => 6,
        InfringementType::CornerCuttingGainedTime => 7,
        InfringementType::CornerCuttingOvertakeSingle => 8,
        InfringementType::CornerCuttingOvertakeMultiple => 9,
        InfringementType::CrossedPitExitLane => 10,
        InfringementType::IgnoringBlueFlags => 11,
        InfringementType::IgnoringYellowFlags => 12,
        InfringementType::IgnoringDriveThrough => 13,
        InfringementType::TooManyDriveThroughs => 14,
        InfringementType::DriveThroughReminderServeWithinNLaps => 15,
        InfringementType::DriveThroughReminderServeThisLap => 16,
        InfringementType::PitLaneSpeeding => 17,
        InfringementType::ParkedForTooLong => 18,
        InfringementType::IgnoringTyreRegulations => 19,
        InfringementType::TooManyPenalties => 20,
        InfringementType::MultipleWarnings => 21,
        InfringementType::ApproachingDisqualification => 22,
        InfringementType::TyreRegulationsSelectSingle => 23,
        InfringementType::TyreRegulationsSelectMultiple => 24,
        InfringementType::LapInvalidatedCornerCutting => 25,
        InfringementType::LapInvalidatedRunningWide => 26,
        InfringementType::CornerCuttingRanWideGaintedTimeMinor => 27,
        InfringementType::CornerCuttingRanWideGaintedTimeSignificant => 28,
        InfringementType::CornerCuttingRanWideGaintedTimeExtreme => 29,
        InfringementType::LapInvalidatedWallRiding => 30,
        InfringementType::LapInvalidatedFlashbackUsed => 31,
        InfringementType::LapInvalidatedResetToTrack => 32,
        InfringementType::BlockingThePitlane => 33,
        InfringementType::JumpStart => 34,
        InfringementType::SafetyCarToCarCollision => 35,
        InfringementType::SafetyCarIllegalOvertake => 36,
        InfringementType::SafetyCarExceedingAllowedPace => 37,
        InfringementType::VirtualSafetyCarExceedingAllowedPace => 38,
        InfringementType::FormationLapBelowAllowedSpeed => 39,
        InfringementType::FormationLapParking => 40,
        InfringementType::RetiredMechanicalFailure => 41,
        InfringementType::RetiredTerminallyDamaged => 42,
        InfringementType::SafetyCarFallingTooFarBack => 43,
        InfringementType::BlackFlagTimer => 44,
        InfringementType::UnservedStopGoPenalty => 45,
        InfringementType::UnservedDriveThroughPenalty => 46,
        InfringementType::EngineComponentChange => 47,
        InfringementType::GearboxChange => 48,
        InfringementType::ParcFermeChange => 49,
        InfringementType::LeagueGridPenalty => 50,
        InfringementType::RetryPenalty => 51,
        InfringementType::IllegalTimeGain => 52,
        InfringementType::MandatoryPistop => 53,
        InfringementType::AttributeAssigned => 54,
    }
}

/// The variant named by a raw byte, when there is one.
pub open spec fn infringement_of_code(b: u8) -> Option<InfringementType> {
    match b {
        0 => Some(InfringementType::BlockingBySlowDriving),
        1 => Some(InfringementType::BlockingByWrongWayDriving),
        2 => Some(InfringementType::ReversingOffTheStartLine),
        3 => Some(InfringementType::BigCollision),
        4 => Some(InfringementType::SmallCollision),
        5 => Some(InfringementType::CollisionFailedToHandBackPositionSingle),
        6 => Some(InfringementType::CollisionFailedToHandBackPositionMultiple),
        7 => Some(InfringementType::CornerCuttingGainedTime),
        8 => Some(InfringementType::CornerCuttingOvertakeSingle),
        9 => Some(InfringementType::CornerCuttingOvertakeMultiple),
        10 => Some(InfringementType::CrossedPitExitLane),
        11 => Some(InfringementType::IgnoringBlueFlags),
        12 => Some(InfringementType::IgnoringYellowFlags),
        13 => Some(InfringementType::IgnoringDriveThrough),
        14 => Some(InfringementType::TooManyDriveThroughs),
        15 => Some(InfringementType::DriveThroughReminderServeWithinNLaps),
        16 => Some(InfringementType::DriveThroughReminderServeThisLap),
        17 => Some(InfringementType::PitLaneSpeeding),
        18 => Some(InfringementType::ParkedForTooLong),
        19 => Some(InfringementType::IgnoringTyreRegulations),
        20 => Some(InfringementType::TooManyPenalties),
        21 => Some(InfringementType::MultipleWarnings),
        22 => Some(InfringementType::ApproachingDisqualification),
        23 => Some(InfringementType::TyreRegulationsSelectSingle),
        24 => Some(InfringementType::TyreRegulationsSelectMultiple),
        25 => Some(InfringementType::LapInvalidatedCornerCutting),
        26 => Some(InfringementType::LapInvalidatedRunningWide),
        27 => Some(InfringementType::CornerCuttingRanWideGaintedTimeMinor),
        28 => Some(InfringementType::CornerCuttingRanWideGaintedTimeSignificant),
        29 => Some(InfringementType::CornerCuttingRanWideGaintedTimeExtreme),
        30 => Some(InfringementType::LapInvalidatedWallRiding),
        31 => Some(InfringementType::LapInvalidatedFlashbackUsed),
        32 => Some(InfringementType::LapInvalidatedResetToTrack),
        33 => Some(InfringementType::BlockingThePitlane),
        34 => Some(InfringementType::JumpStart),
        35 => Some(InfringementType::SafetyCarToCarCollision),
        36 => Some(InfringementType::SafetyCarIllegalOvertake),
        37 => Some(InfringementType::SafetyCarExceedingAllowedPace),
        38 => Some(InfringementType::VirtualSafetyCarExceedingAllowedPace),
        39 => Some(InfringementType::FormationLapBelowAllowedSpeed),
        40 => Some(InfringementType::FormationLapParking),
        41 => Some(InfringementType::RetiredMechanicalFailure),
        42 => Some(InfringementType::RetiredTerminallyDamaged),
        43 => Some(InfringementType::SafetyCarFallingTooFarBack),
        44 => Some(InfringementType::BlackFlagTimer),
        45 => Some(InfringementType::UnservedStopGoPenalty),
        46 => Some(InfringementType::UnservedDriveThroughPenalty),
        47 => Some(InfringementType::EngineComponentChange),
        48 => Some(InfringementType::GearboxChange),
        49 => Some(InfringementType::ParcFermeChange),
        50 => Some(InfringementType::LeagueGridPenalty),
        51 => Some(InfringementType::RetryPenalty),
        52 => Some(InfringementType::IllegalTimeGain),
        53 => Some(InfringementType::MandatoryPistop),
        54 => Some(InfringementType::AttributeAssigned),
        _ => None,
    }
}

impl InfringementType {
    /// The raw byte value of this variant.
    pub fn code(&self) -> (r: u8)
        ensures
            r == infringement_code(*self),
    {
        match self {
            InfringementType::BlockingBySlowDriving => 0,
            InfringementType::BlockingByWrongWayDriving => 1,
            InfringementType::ReversingOffTheStartLine => 2,
            InfringementType::BigCollision => 3,
            InfringementType::SmallCollision => 4,
            InfringementType::CollisionFailedToHandBackPositionSingle => 5,
            InfringementType::CollisionFailedToHandBackPositionMultiple => 6,
            InfringementType::CornerCuttingGainedTime => 7,
            InfringementType::CornerCuttingOvertakeSingle => 8,
            InfringementType::CornerCuttingOvertakeMultiple => 9,
            InfringementType::CrossedPitExitLane => 10,
            InfringementType::IgnoringBlueFlags => 11,
            InfringementType::IgnoringYellowFlags => 12,
            InfringementType::IgnoringDriveThrough => 13,
            InfringementType::TooManyDriveThroughs => 14,
            InfringementType::DriveThroughReminderServeWithinNLaps => 15,
            InfringementType::DriveThroughReminderServeThisLap => 16,
            InfringementType::PitLaneSpeeding => 17,
            InfringementType::ParkedForTooLong => 18,
            InfringementType::IgnoringTyreRegulations => 19,
            InfringementType::TooManyPenalties => 20,
            InfringementType::MultipleWarnings => 21,
            InfringementType::ApproachingDisqualification => 22,
            InfringementType::TyreRegulationsSelectSingle => 23,
            InfringementType::TyreRegulationsSelectMultiple => 24,
            InfringementType::LapInvalidatedCornerCutting => 25,
            InfringementType::LapInvalidatedRunningWide => 26,
            InfringementType::CornerCuttingRanWideGaintedTimeMinor => 27,
            InfringementType::CornerCuttingRanWideGaintedTimeSignificant => 28,
            InfringementType::CornerCuttingRanWideGaintedTimeExtreme => 29,
            InfringementType::LapInvalidatedWallRiding => 30,
            InfringementType::LapInvalidatedFlashbackUsed => 31,
            InfringementType::LapInvalidatedResetToTrack => 32,
            InfringementType::BlockingThePitlane => 33,
            InfringementType::JumpStart => 34,
            InfringementType::SafetyCarToCarCollision => 35,
            InfringementType::SafetyCarIllegalOvertake => 36,
            InfringementType::SafetyCarExceedingAllowedPace => 37,
            InfringementType::VirtualSafetyCarExceedingAllowedPace => 38,
            InfringementType::FormationLapBelowAllowedSpeed => 39,
            InfringementType::FormationLapParking => 40,
            InfringementType::RetiredMechanicalFailure => 41,
            InfringementType::RetiredTerminallyDamaged => 42,
            InfringementType::SafetyCarFallingTooFarBack => 43,
            InfringementType::BlackFlagTimer => 44,
            InfringementType::UnservedStopGoPenalty => 45,
            InfringementType::UnservedDriveThroughPenalty => 46,
            InfringementType::EngineComponentChange => 47,
            InfringementType::GearboxChange => 48,
            InfringementType::ParcFermeChange => 49,
            InfringementType::LeagueGridPenalty => 50,
            InfringementType::RetryPenalty => 51,
            InfringementType::IllegalTimeGain => 52,
            InfringementType::MandatoryPistop => 53,
            InfringementType::AttributeAssigned => 54,
        }
    }

    /// The variant selected by a raw byte: defined exactly for the
    /// byte values zero through 54.
    pub fn try_from(b: u8) -> (r: Option<InfringementType>)
        ensures
            r == infringement_of_code(b),
            (r matches Some(v) && infringement_code(v) == b) || (r is None && b > 54),
    {
        match b {
            0 => Some(InfringementType::BlockingBySlowDriving),
            1 => Some(InfringementType::BlockingByWrongWayDriving),
            2 => Some(InfringementType::ReversingOffTheStartLine),
            3 => Some(InfringementType::BigCollision),
            4 => Some(InfringementType::SmallCollision),
            5 => Some(InfringementType::CollisionFailedToHandBackPositionSingle),
            6 => Some(InfringementType::CollisionFailedToHandBackPositionMultiple),
            7 => Some(InfringementType::CornerCuttingGainedTime),
            8 => Some(InfringementType::CornerCuttingOvertakeSingle),
            9 => Some(InfringementType::CornerCuttingOvertakeMultiple),
            10 => Some(InfringementType::CrossedPitExitLane),
            11 => Some(InfringementType::IgnoringBlueFlags),
            12 => Some(InfringementType::IgnoringYellowFlags),
            13 => Some(InfringementType::IgnoringDriveThrough),
            14 => Some(InfringementType::TooManyDriveThroughs),
            15 => Some(InfringementType::DriveThroughReminderServeWithinNLaps),
            16 => Some(InfringementType::DriveThroughReminderServeThisLap),
            17 => Some(InfringementType::PitLaneSpeeding),
            18 => Some(InfringementType::ParkedForTooLong),
            19 => Some(InfringementType::IgnoringTyreRegulations),
            20 => Some(InfringementType::TooManyPenalties),
            21 => Some(InfringementType::MultipleWarnings),
            22 => Some(InfringementType::ApproachingDisqualification),
            23 => Some(InfringementType::TyreRegulationsSelectSingle),
            24 => Some(InfringementType::TyreRegulationsSelectMultiple),
            25 => Some(InfringementType::LapInvalidatedCornerCutting),
            26 => Some(InfringementType::LapInvalidatedRunningWide),
            27 => Some(InfringementType::CornerCuttingRanWideGaintedTimeMinor),
            28 => Some(InfringementType::CornerCuttingRanWideGaintedTimeSignificant),
            29 => Some(InfringementType::CornerCuttingRanWideGaintedTimeExtreme),
            30 => Some(InfringementType::LapInvalidatedWallRiding),
            31 => Some(InfringementType::LapInvalidatedFlashbackUsed),
            32 => Some(InfringementType::LapInvalidatedResetToTrack),
            33 => Some(InfringementType::BlockingThePitlane),
            34 => Some(InfringementType::JumpStart),
            35 => Some(InfringementType::SafetyCarToCarCollision),
            36 => Some(InfringementType::SafetyCarIllegalOvertake),
            37 => Some(InfringementType::SafetyCarExceedingAllowedPace),
            38 => Some(InfringementType::VirtualSafetyCarExceedingAllowedPace),
            39 => Some(InfringementType::FormationLapBelowAllowedSpeed),
            40 => Some(InfringementType::FormationLapParking),
            41 => Some(InfringementType::RetiredMechanicalFailure),
            42 => Some(InfringementType::RetiredTerminallyDamaged),
            43 => Some(InfringementType::SafetyCarFallingTooFarBack),
            44 => Some(InfringementType::BlackFlagTimer),
            45 => Some(InfringementType::UnservedStopGoPenalty),
            46 => Some(InfringementType::UnservedDriveThroughPenalty),
            47 => Some(InfringementType::EngineComponentChange),
            48 => Some(InfringementType::GearboxChange),
            49 => Some(InfringementType::ParcFermeChange),
            50 => Some(InfringementType::LeagueGridPenalty),
            51 => Some(InfringementType::RetryPenalty),
            52 => Some(InfringementType::IllegalTimeGain),
            53 => Some(InfringementType::MandatoryPistop),
            54 => Some(InfringementType::AttributeAssigned),
            _ => None,
        }
    }
}

/// The raw byte determines the variant.
pub proof fn lemma_infringement_code_injective(a: InfringementType, b: InfringementType)
    requires
        infringement_code(a) == infringement_code(b),
    ensures
        a == b,
{
}
/// FastestLap event payload.
#[derive(Debug, Clone, Copy, PartialEq, Eq)]
pub struct FastestLap {
    /// Vehicle index of the car achieving the fastest lap.
    pub vehicle_idx: u8,
    /// Lap time in seconds, as IEEE-754 bits.
    pub lap_time: u32,
}

/// Wire encoding.
pub open spec fn enc_fastest_lap(v: FastestLap) -> Seq<u8> {
    le8(v.vehicle_idx) + (le32(v.lap_time))
}

/// The encoding is 5 bytes long.
pub proof fn lemma_enc_fastest_lap_len(v: FastestLap)
    ensures
        enc_fastest_lap(v).len() == 5,
{
}

/// An encoding determines the value.
pub proof fn lemma_enc_fastest_lap_injective(a: FastestLap, b: FastestLap)
    requires
        enc_fastest_lap(a) == enc_fastest_lap(b),
    ensures
        a == b,
{
    let ta1 = le32(a.lap_time);
    let tb1 = le32(b.lap_time);
    assert(le8(a.vehicle_idx) + ta1 == enc_fastest_lap(a));
    assert(le8(b.vehicle_idx) + tb1 == enc_fastest_lap(b));
    lemma_concat_split(le8(a.vehicle_idx), ta1, le8(b.vehicle_idx), tb1);
    lemma_le8_injective(a.vehicle_idx, b.vehicle_idx);
    lemma_le32_injective(a.lap_time, b.lap_time);
}

/// Decodes this payload at the cursor.
fn decode_fastest_lap_at(buf: &[u8], pos: &mut usize) -> (r: FastestLap)
    requires
        *old(pos) + 5 <= buf@.len(),
    ensures
        *final(pos) == *old(pos) + 5,
        enc_fastest_lap(r) == buf@.subrange(*old(pos) as int, *final(pos) as int),
{
    let ghost start = *pos;
    let vehicle_idx = read_u8(buf, pos);
    let lap_time = read_u32(buf, pos);
    let r = FastestLap {
        vehicle_idx,
        lap_time,
    };
    proof {
        assert(enc_fastest_lap(r) =~= buf@.subrange(start as int, start as int + 5));
    }
    r
}

/// Appends the wire encoding.
fn encode_fastest_lap_into(v: &FastestLap, out: &mut Vec<u8>)
    ensures
        final(out)@ == old(out)@ + enc_fastest_lap(*v),
{
    write_u8(out, v.vehicle_idx);
    write_u32(out, v.lap_time);
    proof {
        assert(out@ =~= old(out)@ + enc_fastest_lap(*v));
    }
}

/// Retirement event payload.
#[derive(Debug, Clone, Copy, PartialEq, Eq)]
pub struct Retirement {
    /// Vehicle index of the car retiring.
    pub vehicle_idx: u8,
}

/// Wire encoding.
pub open spec fn enc_retirement(v: Retirement) -> Seq<u8> {
    le8(v.vehicle_idx)
}

/// The encoding is 1 bytes long.
pub proof fn lemma_enc_retirement_len(v: Retirement)
    ensures
        enc_retirement(v).len() == 1,
{
}

/// An encoding determines the value.
pub proof fn lemma_enc_retirement_injective(a: Retirement, b: Retirement)
    requires
        enc_retirement(a) == enc_retirement(b),
    ensures
        a == b,
{
    lemma_le8_injective(a.vehicle_idx, b.vehicle_idx);
}

/// Decodes this payload at the cursor.
fn decode_retirement_at(buf: &[u8], pos: &mut usize) -> (r: Retirement)
    requires
        *old(pos) + 1 <= buf@.len(),
    ensures
        *final(pos) == *old(pos) + 1,
        enc_retirement(r) == buf@.subrange(*old(pos) as int, *final(pos) as int),
{
    let ghost start = *pos;
    let vehicle_idx = read_u8(buf, pos);
    let r = Retirement {
        vehicle_idx,
    };
    proof {
        assert(enc_retirement(r) =~= buf@.subrange(start as int, start as int + 1));
    }
    r
}

/// Appends the wire encoding.
fn encode_retirement_into(v: &Retirement, out: &mut Vec<u8>)
    ensures
        final(out)@ == old(out)@ + enc_retirement(*v),
{
    write_u8(out, v.vehicle_idx);
    proof {
        assert(out@ =~= old(out)@ + enc_retirement(*v));
    }
}

/// TeamMateInPits event payload.
#[derive(Debug, Clone, Copy, PartialEq, Eq)]
pub struct TeamMateInPits {
    /// Vehicle index of the team mate.
    pub vehicle_idx: u8,
}

/// Wire encoding.
pub open spec fn enc_team_mate_in_pits(v: TeamMateInPits) -> Seq<u8> {
    le8(v.vehicle_idx)
}

/// The encoding is 1 bytes long.
pub proof fn lemma_enc_team_mate_in_pits_len(v: TeamMateInPits)
    ensures
        enc_team_mate_in_pits(v).len() == 1,
{
}

/// An encoding determines the value.
pub proof fn lemma_enc_team_mate_in_pits_injective(a: TeamMateInPits, b: TeamMateInPits)
    requires
        enc_team_mate_in_pits(a) == enc_team_mate_in_pits(b),
    ensures
        a == b,
{
    lemma_le8_injective(a.vehicle_idx, b.vehicle_idx);
}

/// Decodes this payload at the cursor.
fn decode_team_mate_in_pits_at(buf: &[u8], pos: &mut usize) -> (r: TeamMateInPits)
    requires
        *old(pos) + 1 <= buf@.len(),
    ensures
        *final(pos) == *old(pos) + 1,
        enc_team_mate_in_pits(r) == buf@.subrange(*old(pos) as int, *final(pos) as int),
{
    let ghost start = *pos;
    let vehicle_idx = read_u8(buf, pos);
    let r = TeamMateInPits {
        vehicle_idx,
    };
    proof {
        assert(enc_team_mate_in_pits(r) =~= buf@.subrange(start as int, start as int + 1));
    }
    r
}

/// Appends the wire encoding.
fn encode_team_mate_in_pits_into(v: &TeamMateInPits, out: &mut Vec<u8>)
    ensures
        final(out)@ == old(out)@ + enc_team_mate_in_pits(*v),
{
    write_u8(out, v.vehicle_idx);
    proof {
        assert(out@ =~= old(out)@ + enc_team_mate_in_pits(*v));
    }
}

/// RaceWinner event payload.
#[derive(Debug, Clone, Copy, PartialEq, Eq)]
pub struct RaceWinner {
    /// Vehicle index of the race winner.
    pub vehicle_idx: u8,
}

/// Wire encoding.
pub open spec fn enc_race_winner(v: RaceWinner) -> Seq<u8> {
    le8(v.vehicle_idx)
}

/// The encoding is 1 bytes long.
pub proof fn lemma_enc_race_winner_len(v: RaceWinner)
    ensures
        enc_race_winner(v).len() == 1,
{
}

/// An encoding determines the value.
pub proof fn lemma_enc_race_winner_injective(a: RaceWinner, b: RaceWinner)
    requires
        enc_race_winner(a) == enc_race_winner(b),
    ensures
        a == b,
{
    lemma_le8_injective(a.vehicle_idx, b.vehicle_idx);
}

/// Decodes this payload at the cursor.
fn decode_race_winner_at(buf: &[u8], pos: &mut usize) -> (r: RaceWinner)
    requires
        *old(pos) + 1 <= buf@.len(),
    ensures
        *final(pos) == *old(pos) + 1,
        enc_race_winner(r) == buf@.subrange(*old(pos) as int, *final(pos) as int),
{
    let ghost start = *pos;
    let vehicle_idx = read_u8(buf, pos);
    let r = RaceWinner {
        vehicle_idx,
    };
    proof {
        assert(enc_race_winner(r) =~= buf@.subrange(start as int, start as int + 1));
    }
    r
}

/// Appends the wire encoding.
fn encode_race_winner_into(v: &RaceWinner, out: &mut Vec<u8>)
    ensures
        final(out)@ == old(out)@ + enc_race_winner(*v),
{
    write_u8(out, v.vehicle_idx);
    proof {
        assert(out@ =~= old(out)@ + enc_race_winner(*v));
    }
}

/// Penalty event payload.
#[derive(Debug, Clone, Copy, PartialEq, Eq)]
pub struct Penalty {
    /// Penalty type.
    pub penalty_type: PenaltyType,
    /// Infringement type.
    pub infringement_type: InfringementType,
    /// Vehicle index of the car the penalty applies to.
    pub vehicle_idx: u8,
    /// Vehicle index of the other car involved.
    pub other_vehicle_idx: u8,
    /// Time gained or spent in seconds.
    pub time: u8,
    /// Lap the penalty occurred on.
    pub lap_num: u8,
    /// Places gained by this.
    pub places_gained: u8,
}

/// Wire encoding.
pub open spec fn enc_penalty(v: Penalty) -> Seq<u8> {
    le8(penalty_code(v.penalty_type)) + (le8(infringement_code(v.infringement_type)) + (le8(v.vehicle_idx) + (le8(v.other_vehicle_idx) + (le8(v.time) + (le8(v.lap_num) + (le8(v.places_gained)))))))
}

/// The encoding is 7 bytes long.
pub proof fn lemma_enc_penalty_len(v: Penalty)
    ensures
        enc_penalty(v).len() == 7,
{
}

/// An encoding determines the value.
pub proof fn lemma_enc_penalty_injective(a: Penalty, b: Penalty)
    requires
        enc_penalty(a) == enc_penalty(b),
    ensures
        a == b,
{
    let ta6 = le8(a.places_gained);
    let tb6 = le8(b.places_gained);
    let ta5 = le8(a.lap_num) + ta6;
    let tb5 = le8(b.lap_num) + tb6;
    let ta4 = le8(a.time) + ta5;
    let tb4 = le8(b.time) + tb5;
    let ta3 = le8(a.other_vehicle_idx) + ta4;
    let tb3 = le8(b.other_vehicle_idx) + tb4;
    let ta2 = le8(a.vehicle_idx) + ta3;
    let tb2 = le8(b.vehicle_idx) + tb3;
    let ta1 = le8(infringement_code(a.infringement_type)) + ta2;
    let tb1 = le8(infringement_code(b.infringement_type)) + tb2;
    assert(le8(penalty_code(a.penalty_type)) + ta1 == enc_penalty(a));
    assert(le8(penalty_code(b.penalty_type)) + tb1 == enc_penalty(b));
    lemma_concat_split(le8(penalty_code(a.penalty_type)), ta1, le8(penalty_code(b.penalty_type)), tb1);
    lemma_le8_injective(penalty_code(a.penalty_type), penalty_code(b.penalty_type));
    lemma_penalty_code_injective(a.penalty_type, b.penalty_type);
    lemma_concat_split(le8(infringement_code(a.infringement_type)), ta2, le8(infringement_code(b.infringement_type)), tb2);
    lemma_le8_injective(infringement_code(a.infringement_type), infringement_code(b.infringement_type));
    lemma_infringement_code_injective(a.infringement_type, b.infringement_type);
    lemma_concat_split(le8(a.vehicle_idx), ta3, le8(b.vehicle_idx), tb3);
    lemma_le8_injective(a.vehicle_idx, b.vehicle_idx);
    lemma_concat_split(le8(a.other_vehicle_idx), ta4, le8(b.other_vehicle_idx), tb4);
    lemma_le8_injective(a.other_vehicle_idx, b.other_vehicle_idx);
    lemma_concat_split(le8(a.time), ta5, le8(b.time), tb5);
    lemma_le8_injective(a.time, b.time);
    lemma_concat_split(le8(a.lap_num), ta6, le8(b.lap_num), tb6);
    lemma_le8_injective(a.lap_num, b.lap_num);
    lemma_le8_injective(a.places_gained, b.places_gained);
}

/// Decodes a penalty payload at the cursor; the two leading bytes must
/// name known penalty and infringement variants.
fn decode_penalty_at(buf: &[u8], pos: &mut usize) -> (r: Option<Penalty>)
    requires
        *old(pos) + 7 <= buf@.len(),
    ensures
        r is Some ==> *final(pos) == *old(pos) + 7,
        r is None ==> *final(pos) == *old(pos),
        r matches Some(v) ==> enc_penalty(v) == buf@.subrange(
            *old(pos) as int,
            *old(pos) + 7,
        ),
        r is Some <==> penalty_bytes_ok(buf@, *old(pos) as int),
{
    let start = *pos;
    let b0 = read_u8(buf, pos);
    let b1 = read_u8(buf, pos);
    proof {
        assert(b0 == buf@[start as int]) by {
            assert(le8(b0)[0] == b0);
            assert(buf@.subrange(start as int, start as int + 1)[0] == buf@[start as int]);
        }
        assert(b1 == buf@[start as int + 1]) by {
            assert(le8(b1)[0] == b1);
            assert(buf@.subrange(start as int + 1, start as int + 2)[0] == buf@[start as int + 1]);
        }
    }
    let pt = PenaltyType::try_from(b0);
    let it = InfringementType::try_from(b1);
    match (pt, it) {
        (Some(penalty_type), Some(infringement_type)) => {
            let vehicle_idx = read_u8(buf, pos);
            let other_vehicle_idx = read_u8(buf, pos);
            let time = read_u8(buf, pos);
            let lap_num = read_u8(buf, pos);
            let places_gained = read_u8(buf, pos);
            let v = Penalty {
                penalty_type,
                infringement_type,
                vehicle_idx,
                other_vehicle_idx,
                time,
                lap_num,
                places_gained,
            };
            proof {
                assert(enc_penalty(v) =~= buf@.subrange(start as int, start as int + 7));
            }
            Some(v)
        },
        _ => {
            *pos = start;
            None
        },
    }
}

/// Appends the wire encoding.
fn encode_penalty_into(v: &Penalty, out: &mut Vec<u8>)
    ensures
        final(out)@ == old(out)@ + enc_penalty(*v),
{
    write_u8(out, v.penalty_type.code());
    write_u8(out, v.infringement_type.code());
    write_u8(out, v.vehicle_idx);
    write_u8(out, v.other_vehicle_idx);
    write_u8(out, v.time);
    write_u8(out, v.lap_num);
    write_u8(out, v.places_gained);
    proof {
        assert(out@ =~= old(out)@ + enc_penalty(*v));
    }
}

/// SpeedTrap event payload.
#[derive(Debug, Clone, Copy, PartialEq, Eq)]
pub struct SpeedTrap {
    /// Vehicle index of the car triggering the trap.
    pub vehicle_idx: u8,
    /// Top speed in kilometres per hour, as IEEE-754 bits.
    pub speed: u32,
    /// Whether this is the overall fastest of the session.
    pub is_overall_fastest_in_session: u8,
    /// Whether this is the driver's fastest of the session.
    pub is_driver_fastest_in_session: u8,
    /// Vehicle index of the fastest vehicle.
    pub fastest_vehicle_idx_in_session: u8,
    /// Speed of the fastest vehicle, as IEEE-754 bits.
    pub fastest_speed_in_session: u32,
}

/// Wire encoding.
pub open spec fn enc_speed_trap(v: SpeedTrap) -> Seq<u8> {
    le8(v.vehicle_idx) + (le32(v.speed) + (le8(v.is_overall_fastest_in_session) + (le8(v.is_driver_fastest_in_session) + (le8(v.fastest_vehicle_idx_in_session) + (le32(v.fastest_speed_in_session))))))
}

/// The encoding is 12 bytes long.
pub proof fn lemma_enc_speed_trap_len(v: SpeedTrap)
    ensures
        enc_speed_trap(v).len() == 12,
{
}

/// An encoding determines the value.
pub proof fn lemma_enc_speed_trap_injective(a: SpeedTrap, b: SpeedTrap)
    requires
        enc_speed_trap(a) == enc_speed_trap(b),
    ensures
        a == b,
{
    let ta5 = le32(a.fastest_speed_in_session);
    let tb5 = le32(b.fastest_speed_in_session);
    let ta4 = le8(a.fastest_vehicle_idx_in_session) + ta5;
    let tb4 = le8(b.fastest_vehicle_idx_in_session) + tb5;
    let ta3 = le8(a.is_driver_fastest_in_session) + ta4;
    let tb3 = le8(b.is_driver_fastest_in_session) + tb4;
    let ta2 = le8(a.is_overall_fastest_in_session) + ta3;
    let tb2 = le8(b.is_overall_fastest_in_session) + tb3;
    let ta1 = le32(a.speed) + ta2;
    let tb1 = le32(b.speed) + tb2;
    assert(le8(a.vehicle_idx) + ta1 == enc_speed_trap(a));
    assert(le8(b.vehicle_idx) + tb1 == enc_speed_trap(b));
    lemma_concat_split(le8(a.vehicle_idx), ta1, le8(b.vehicle_idx), tb1);
    lemma_le8_injective(a.vehicle_idx, b.vehicle_idx);
    lemma_concat_split(le32(a.speed), ta2, le32(b.speed), tb2);
    lemma_le32_injective(a.speed, b.speed);
    lemma_concat_split(le8(a.is_overall_fastest_in_session), ta3, le8(b.is_overall_fastest_in_session), tb3);
    lemma_le8_injective(a.is_overall_fastest_in_session, b.is_overall_fastest_in_session);
    lemma_concat_split(le8(a.is_driver_fastest_in_session), ta4, le8(b.is_driver_fastest_in_session), tb4);
    lemma_le8_injective(a.is_driver_fastest_in_session, b.is_driver_fastest_in_session);
    lemma_concat_split(le8(a.fastest_vehicle_idx_in_session), ta5, le8(b.fastest_vehicle_idx_in_session), tb5);
    lemma_le8_injective(a.fastest_vehicle_idx_in_session, b.fastest_vehicle_idx_in_session);
    lemma_le32_injective(a.fastest_speed_in_session, b.fastest_speed_in_session);
}

/// Decodes this payload at the cursor.
fn decode_speed_trap_at(buf: &[u8], pos: &mut usize) -> (r: SpeedTrap)
    requires
        *old(pos) + 12 <= buf@.len(),
    ensures
        *final(pos) == *old(pos) + 12,
        enc_speed_trap(r) == buf@.subrange(*old(pos) as int, *final(pos) as int),
{
    let ghost start = *pos;
    let vehicle_idx = read_u8(buf, pos);
    let speed = read_u32(buf, pos);
    let is_overall_fastest_in_session = read_u8(buf, pos);
    let is_driver_fastest_in_session = read_u8(buf, pos);
    let fastest_vehicle_idx_in_session = read_u8(buf, pos);
    let fastest_speed_in_session = read_u32(buf, pos);
    let r = SpeedTrap {
        vehicle_idx,
        speed,
        is_overall_fastest_in_session,
        is_driver_fastest_in_session,
        fastest_vehicle_idx_in_session,
        fastest_speed_in_session,
    };
    proof {
        assert(enc_speed_trap(r) =~= buf@.subrange(start as int, start as int + 12));
    }
    r
}

/// Appends the wire encoding.
fn encode_speed_trap_into(v: &SpeedTrap, out: &mut Vec<u8>)
    ensures
        final(out)@ == old(out)@ + enc_speed_trap(*v),
{
    write_u8(out, v.vehicle_idx);
    write_u32(out, v.speed);
    write_u8(out, v.is_overall_fastest_in_session);
    write_u8(out, v.is_driver_fastest_in_session);
    write_u8(out, v.fastest_vehicle_idx_in_session);
    write_u32(out, v.fastest_speed_in_session);
    proof {
        assert(out@ =~= old(out)@ + enc_speed_trap(*v));
    }
}

/// StartLights event payload.
#[derive(Debug, Clone, Copy, PartialEq, Eq)]
pub struct StartLights {
    /// Number of lights showing.
    pub num_lights: u8,
}

/// Wire encoding.
pub open spec fn enc_start_lights(v: StartLights) -> Seq<u8> {
    le8(v.num_lights)
}

/// The encoding is 1 bytes long.
pub proof fn lemma_enc_start_lights_len(v: StartLights)
    ensures
        enc_start_lights(v).len() == 1,
{
}

/// An encoding determines the value.
pub proof fn lemma_enc_start_lights_injective(a: StartLights, b: StartLights)
    requires
        enc_start_lights(a) == enc_start_lights(b),
    ensures
        a == b,
{
    lemma_le8_injective(a.num_lights, b.num_lights);
}

/// Decodes this payload at the cursor.
fn decode_start_lights_at(buf: &[u8], pos: &mut usize) -> (r: StartLights)
    requires
        *old(pos) + 1 <= buf@.len(),
    ensures
        *final(pos) == *old(pos) + 1,
        enc_start_lights(r) == buf@.subrange(*old(pos) as int, *final(pos) as int),
{
    let ghost start = *pos;
    let num_lights = read_u8(buf, pos);
    let r = StartLights {
        num_lights,
    };
    proof {
        assert(enc_start_lights(r) =~= buf@.subrange(start as int, start as int + 1));
    }
    r
}

/// Appends the wire encoding.
fn encode_start_lights_into(v: &StartLights, out: &mut Vec<u8>)
    ensures
        final(out)@ == old(out)@ + enc_start_lights(*v),
{
    write_u8(out, v.num_lights);
    proof {
        assert(out@ =~= old(out)@ + enc_start_lights(*v));
    }
}

/// DriveThroughPenaltyServed event payload.
#[derive(Debug, Clone, Copy, PartialEq, Eq)]
pub struct DriveThroughPenaltyServed {
    /// Vehicle index of the car serving the penalty.
    pub vehicle_idx: u8,
}

/// Wire encoding.
pub open spec fn enc_drive_through_penalty_served(v: DriveThroughPenaltyServed) -> Seq<u8> {
    le8(v.vehicle_idx)
}

/// The encoding is 1 bytes long.
pub proof fn lemma_enc_drive_through_penalty_served_len(v: DriveThroughPenaltyServed)
    ensures
        enc_drive_through_penalty_served(v).len() == 1,
{
}

/// An encoding determines the value.
pub proof fn lemma_enc_drive_through_penalty_served_injective(a: DriveThroughPenaltyServed, b: DriveThroughPenaltyServed)
    requires
        enc_drive_through_penalty_served(a) == enc_drive_through_penalty_served(b),
    ensures
        a == b,
{
    lemma_le8_injective(a.vehicle_idx, b.vehicle_idx);
}

/// Decodes this payload at the cursor.
fn decode_drive_through_penalty_served_at(buf: &[u8], pos: &mut usize) -> (r: DriveThroughPenaltyServed)
    requires
        *old(pos) + 1 <= buf@.len(),
    ensures
        *final(pos) == *old(pos) + 1,
        enc_drive_through_penalty_served(r) == buf@.subrange(*old(pos) as int, *final(pos) as int),
{
    let ghost start = *pos;
    let vehicle_idx = read_u8(buf, pos);
    let r = DriveThroughPenaltyServed {
        vehicle_idx,
    };
    proof {
        assert(enc_drive_through_penalty_served(r) =~= buf@.subrange(start as int, start as int + 1));
    }
    r
}

/// Appends the wire encoding.
fn encode_drive_through_penalty_served_into(v: &DriveThroughPenaltyServed, out: &mut Vec<u8>)
    ensures
        final(out)@ == old(out)@ + enc_drive_through_penalty_served(*v),
{
    write_u8(out, v.vehicle_idx);
    proof {
        assert(out@ =~= old(out)@ + enc_drive_through_penalty_served(*v));
    }
}

/// StopGoPenaltyServed event payload.
#[derive(Debug, Clone, Copy, PartialEq, Eq)]
pub struct StopGoPenaltyServed {
    /// Vehicle index of the car serving the penalty.
    pub vehicle_idx: u8,
}

/// Wire encoding.
pub open spec fn enc_stop_go_penalty_served(v: StopGoPenaltyServed) -> Seq<u8> {
    le8(v.vehicle_idx)
}

/// The encoding is 1 bytes long.
pub proof fn lemma_enc_stop_go_penalty_served_len(v: StopGoPenaltyServed)
    ensures
        enc_stop_go_penalty_served(v).len() == 1,
{
}

/// An encoding determines the value.
pub proof fn lemma_enc_stop_go_penalty_served_injective(a: StopGoPenaltyServed, b: StopGoPenaltyServed)
    requires
        enc_stop_go_penalty_served(a) == enc_stop_go_penalty_served(b),
    ensures
        a == b,
{
    lemma_le8_injective(a.vehicle_idx, b.vehicle_idx);
}

/// Decodes this payload at the cursor.
fn decode_stop_go_penalty_served_at(buf: &[u8], pos: &mut usize) -> (r: StopGoPenaltyServed)
    requires
        *old(pos) + 1 <= buf@.len(),
    ensures
        *final(pos) == *old(pos) + 1,
        enc_stop_go_penalty_served(r) == buf@.subrange(*old(pos) as int, *final(pos) as int),
{
    let ghost start = *pos;
    let vehicle_idx = read_u8(buf, pos);
    let r = StopGoPenaltyServed {
        vehicle_idx,
    };
    proof {
        assert(enc_stop_go_penalty_served(r) =~= buf@.subrange(start as int, start as int + 1));
    }
    r
}

/// Appends the wire encoding.
fn encode_stop_go_penalty_served_into(v: &StopGoPenaltyServed, out: &mut Vec<u8>)
    ensures
        final(out)@ == old(out)@ + enc_stop_go_penalty_served(*v),
{
    write_u8(out, v.vehicle_idx);
    proof {
        assert(out@ =~= old(out)@ + enc_stop_go_penalty_served(*v));
    }
}

/// Flashback event payload.
#[derive(Debug, Clone, Copy, PartialEq, Eq)]
pub struct Flashback {
    /// Frame identifier flashed back to.
    pub flashback_frame_identifier: u32,
    /// Session time flashed back to, as IEEE-754 bits.
    pub flashback_session_time: u32,
}

/// Wire encoding.
pub open spec fn enc_flashback(v: Flashback) -> Seq<u8> {
    le32(v.flashback_frame_identifier) + (le32(v.flashback_session_time))
}

/// The encoding is 8 bytes long.
pub proof fn lemma_enc_flashback_len(v: Flashback)
    ensures
        enc_flashback(v).len() == 8,
{
}

/// An encoding determines the value.
pub proof fn lemma_enc_flashback_injective(a: Flashback, b: Flashback)
    requires
        enc_flashback(a) == enc_flashback(b),
    ensures
        a == b,
{
    let ta1 = le32(a.flashback_session_time);
    let tb1 = le32(b.flashback_session_time);
    assert(le32(a.flashback_frame_identifier) + ta1 == enc_flashback(a));
    assert(le32(b.flashback_frame_identifier) + tb1 == enc_flashback(b));
    lemma_concat_split(le32(a.flashback_frame_identifier), ta1, le32(b.flashback_frame_identifier), tb1);
    lemma_le32_injective(a.flashback_frame_identifier, b.flashback_frame_identifier);
    lemma_le32_injective(a.flashback_session_time, b.flashback_session_time);
}

/// Decodes this payload at the cursor.
fn decode_flashback_at(buf: &[u8], pos: &mut usize) -> (r: Flashback)
    requires
        *old(pos) + 8 <= buf@.len(),
    ensures
        *final(pos) == *old(pos) + 8,
        enc_flashback(r) == buf@.subrange(*old(pos) as int, *final(pos) as int),
{
    let ghost start = *pos;
    let flashback_frame_identifier = read_u32(buf, pos);
    let flashback_session_time = read_u32(buf, pos);
    let r = Flashback {
        flashback_frame_identifier,
        flashback_session_time,
    };
    proof {
        assert(enc_flashback(r) =~= buf@.subrange(start as int, start as int + 8));
    }
    r
}

/// Appends the wire encoding.
fn encode_flashback_into(v: &Flashback, out: &mut Vec<u8>)
    ensures
        final(out)@ == old(out)@ + enc_flashback(*v),
{
    write_u32(out, v.flashback_frame_identifier);
    write_u32(out, v.flashback_session_time);
    proof {
        assert(out@ =~= old(out)@ + enc_flashback(*v));
    }
}

/// Buttons event payload.
#[derive(Debug, Clone, Copy, PartialEq, Eq)]
pub struct Buttons {
    /// Bit flags of the buttons being pressed.
    pub button_status: u32,
}

/// Wire encoding.
pub open spec fn enc_buttons(v: Buttons) -> Seq<u8> {
    le32(v.button_status)
}

/// The encoding is 4 bytes long.
pub proof fn lemma_enc_buttons_len(v: Buttons)
    ensures
        enc_buttons(v).len() == 4,
{
}

/// An encoding determines the value.
pub proof fn lemma_enc_buttons_injective(a: Buttons, b: Buttons)
    requires
        enc_buttons(a) == enc_buttons(b),
    ensures
        a == b,
{
    lemma_le32_injective(a.button_status, b.button_status);
}

/// Decodes this payload at the cursor.
fn decode_buttons_at(buf: &[u8], pos: &mut usize) -> (r: Buttons)
    requires
        *old(pos) + 4 <= buf@.len(),
    ensures
        *final(pos) == *old(pos) + 4,
        enc_buttons(r) == buf@.subrange(*old(pos) as int, *final(pos) as int),
{
    let ghost start = *pos;
    let button_status = read_u32(buf, pos);
    let r = Buttons {
        button_status,
    };
    proof {
        assert(enc_buttons(r) =~= buf@.subrange(start as int, start as int + 4));
    }
    r
}

/// Appends the wire encoding.
fn encode_buttons_into(v: &Buttons, out: &mut Vec<u8>)
    ensures
        final(out)@ == old(out)@ + enc_buttons(*v),
{
    write_u32(out, v.button_status);
    proof {
        assert(out@ =~= old(out)@ + enc_buttons(*v));
    }
}

/// Overtake event payload.
#[derive(Debug, Clone, Copy, PartialEq, Eq)]
pub struct Overtake {
    /// Vehicle index of the overtaking vehicle.
    pub overtaking_vehicle_idx: u8,
    /// Vehicle index of the vehicle being overtaken.
    pub being_overtaken_vehicle_idx: u8,
}

/// Wire encoding.
pub open spec fn enc_overtake(v: Overtake) -> Seq<u8> {
    le8(v.overtaking_vehicle_idx) + (le8(v.being_overtaken_vehicle_idx))
}

/// The encoding is 2 bytes long.
pub proof fn lemma_enc_overtake_len(v: Overtake)
    ensures
        enc_overtake(v).len() == 2,
{
}

/// An encoding determines the value.
pub proof fn lemma_enc_overtake_injective(a: Overtake, b: Overtake)
    requires
        enc_overtake(a) == enc_overtake(b),
    ensures
        a == b,
{
    let ta1 = le8(a.being_overtaken_vehicle_idx);
    let tb1 = le8(b.being_overtaken_vehicle_idx);
    assert(le8(a.overtaking_vehicle_idx) + ta1 == enc_overtake(a));
    assert(le8(b.overtaking_vehicle_idx) + tb1 == enc_overtake(b));
    lemma_concat_split(le8(a.overtaking_vehicle_idx), ta1, le8(b.overtaking_vehicle_idx), tb1);
    lemma_le8_injective(a.overtaking_vehicle_idx, b.overtaking_vehicle_idx);
    lemma_le8_injective(a.being_overtaken_vehicle_idx, b.being_overtaken_vehicle_idx);
}

/// Decodes this payload at the cursor.
fn decode_overtake_at(buf: &[u8], pos: &mut usize) -> (r: Overtake)
    requires
        *old(pos) + 2 <= buf@.len(),
    ensures
        *final(pos) == *old(pos) + 2,
        enc_overtake(r) == buf@.subrange(*old(pos) as int, *final(pos) as int),
{
    let ghost start = *pos;
    let overtaking_vehicle_idx = read_u8(buf, pos);
    let being_overtaken_vehicle_idx = read_u8(buf, pos);
    let r = Overtake {
        overtaking_vehicle_idx,
        being_overtaken_vehicle_idx,
    };
    proof {
        assert(enc_overtake(r) =~= buf@.subrange(start as int, start as int + 2));
    }
    r
}

/// Appends the wire encoding.
fn encode_overtake_into(v: &Overtake, out: &mut Vec<u8>)
    ensures
        final(out)@ == old(out)@ + enc_overtake(*v),
{
    write_u8(out, v.overtaking_vehicle_idx);
    write_u8(out, v.being_overtaken_vehicle_idx);
    proof {
        assert(out@ =~= old(out)@ + enc_overtake(*v));
    }
}
/// Details carried by an event, selected by the four-byte code.
#[derive(Debug, Clone, Copy, PartialEq, Eq)]
pub enum EventDataDetails {
    FastestLap(FastestLap),
    Retirement(Retirement),
    TeamMateInPits(TeamMateInPits),
    RaceWinner(RaceWinner),
    Penalty(Penalty),
    SpeedTrap(SpeedTrap),
    StartLights(StartLights),
    DriveThroughPenaltyServed(DriveThroughPenaltyServed),
    StopGoPenaltyServed(StopGoPenaltyServed),
    Flashback(Flashback),
    Buttons(Buttons),
    Overtake(Overtake),
    SessionStarted,
    SessionEnded,
    DRSEnabled,
    DRSDisabled,
    ChequeredFlag,
    LightsOut,
    RedFlag,
}

/// The four ASCII bytes that announce each event shape.
pub open spec fn event_code_of(d: EventDataDetails) -> Seq<u8> {
    match d {
        EventDataDetails::FastestLap(_) => seq![70u8, 84u8, 76u8, 80u8],
        EventDataDetails::Retirement(_) => seq![82u8, 84u8, 77u8, 84u8],
        EventDataDetails::TeamMateInPits(_) => seq![84u8, 77u8, 80u8, 84u8],
        EventDataDetails::RaceWinner(_) => seq![82u8, 67u8, 87u8, 78u8],
        EventDataDetails::Penalty(_) => seq![80u8, 69u8, 78u8, 76u8],
        EventDataDetails::SpeedTrap(_) => seq![83u8, 80u8, 84u8, 80u8],
        EventDataDetails::StartLights(_) => seq![83u8, 84u8, 76u8, 71u8],
        EventDataDetails::DriveThroughPenaltyServed(_) => seq![68u8, 84u8, 80u8, 78u8],
        EventDataDetails::StopGoPenaltyServed(_) => seq![83u8, 71u8, 80u8, 78u8],
        EventDataDetails::Flashback(_) => seq![70u8, 76u8, 66u8, 75u8],
        EventDataDetails::Buttons(_) => seq![66u8, 85u8, 84u8, 78u8],
        EventDataDetails::Overtake(_) => seq![79u8, 86u8, 84u8, 75u8],
        EventDataDetails::SessionStarted => seq![83u8, 83u8, 84u8, 65u8],
        EventDataDetails::SessionEnded => seq![83u8, 69u8, 78u8, 68u8],
        EventDataDetails::DRSEnabled => seq![68u8, 82u8, 83u8, 69u8],
        EventDataDetails::DRSDisabled => seq![68u8, 82u8, 83u8, 68u8],
        EventDataDetails::ChequeredFlag => seq![67u8, 72u8, 81u8, 70u8],
        EventDataDetails::LightsOut => seq![76u8, 71u8, 79u8, 84u8],
        EventDataDetails::RedFlag => seq![82u8, 69u8, 68u8, 76u8],
    }
}

/// Whether a four-byte code is in the dispatch table.
pub open spec fn known_event_code(c: Seq<u8>) -> bool {
    ||| c == seq![70u8, 84u8, 76u8, 80u8]
    ||| c == seq![82u8, 84u8, 77u8, 84u8]
    ||| c == seq![84u8, 77u8, 80u8, 84u8]
    ||| c == seq![82u8, 67u8, 87u8, 78u8]
    ||| c == seq![80u8, 69u8, 78u8, 76u8]
    ||| c == seq![83u8, 80u8, 84u8, 80u8]
    ||| c == seq![83u8, 84u8, 76u8, 71u8]
    ||| c == seq![68u8, 84u8, 80u8, 78u8]
    ||| c == seq![83u8, 71u8, 80u8, 78u8]
    ||| c == seq![70u8, 76u8, 66u8, 75u8]
    ||| c == seq![66u8, 85u8, 84u8, 78u8]
    ||| c == seq![79u8, 86u8, 84u8, 75u8]
    ||| c == seq![83u8, 83u8, 84u8, 65u8]
    ||| c == seq![83u8, 69u8, 78u8, 68u8]
    ||| c == seq![68u8, 82u8, 83u8, 69u8]
    ||| c == seq![68u8, 82u8, 83u8, 68u8]
    ||| c == seq![67u8, 72u8, 81u8, 70u8]
    ||| c == seq![76u8, 71u8, 79u8, 84u8]
    ||| c == seq![82u8, 69u8, 68u8, 76u8]
}

/// Wire width of the payload that follows each known code.
pub open spec fn event_payload_len(c: Seq<u8>) -> int {
    if c == seq![70u8, 84u8, 76u8, 80u8] {
        5
    } else if c == seq![80u8, 69u8, 78u8, 76u8] {
        7
    } else if c == seq![83u8, 80u8, 84u8, 80u8] {
        12
    } else if c == seq![70u8, 76u8, 66u8, 75u8] {
        8
    } else if c == seq![66u8, 85u8, 84u8, 78u8] {
        4
    } else if c == seq![79u8, 86u8, 84u8, 75u8] {
        2
    } else if c == seq![82u8, 84u8, 77u8, 84u8] || c == seq![84u8, 77u8, 80u8, 84u8] || c
        == seq![82u8, 67u8, 87u8, 78u8] || c == seq![83u8, 84u8, 76u8, 71u8] || c == seq![
        68u8,
        84u8,
        80u8,
        78u8,
    ] || c == seq![83u8, 71u8, 80u8, 78u8] {
        1
    } else {
        0
    }
}

/// Whether the two bytes at `i` name known penalty and infringement variants.
pub open spec fn penalty_bytes_ok(s: Seq<u8>, i: int) -> bool {
    penalty_of_code(s[i]) is Some && infringement_of_code(s[i + 1]) is Some
}

/// Wire encoding of the payload alone.
pub open spec fn enc_event_details(d: EventDataDetails) -> Seq<u8> {
    match d {
        EventDataDetails::FastestLap(v) => enc_fastest_lap(v),
        EventDataDetails::Retirement(v) => enc_retirement(v),
        EventDataDetails::TeamMateInPits(v) => enc_team_mate_in_pits(v),
        EventDataDetails::RaceWinner(v) => enc_race_winner(v),
        EventDataDetails::Penalty(v) => enc_penalty(v),
        EventDataDetails::SpeedTrap(v) => enc_speed_trap(v),
        EventDataDetails::StartLights(v) => enc_start_lights(v),
        EventDataDetails::DriveThroughPenaltyServed(v) => enc_drive_through_penalty_served(v),
        EventDataDetails::StopGoPenaltyServed(v) => enc_stop_go_penalty_served(v),
        EventDataDetails::Flashback(v) => enc_flashback(v),
        EventDataDetails::Buttons(v) => enc_buttons(v),
        EventDataDetails::Overtake(v) => enc_overtake(v),
        EventDataDetails::SessionStarted => Seq::empty(),
        EventDataDetails::SessionEnded => Seq::empty(),
        EventDataDetails::DRSEnabled => Seq::empty(),
        EventDataDetails::DRSDisabled => Seq::empty(),
        EventDataDetails::ChequeredFlag => Seq::empty(),
        EventDataDetails::LightsOut => Seq::empty(),
        EventDataDetails::RedFlag => Seq::empty(),
    }
}

/// Event packet: details of something that happened during the session.
#[derive(Debug, Clone, Copy, PartialEq, Eq)]
pub struct PacketEventData {
    /// Packet header.
    pub header: PacketHeader,
    /// The four-byte ASCII code that selected the payload shape.
    pub event_string_code: [u8; 4],
    /// The payload itself.
    pub event_details: EventDataDetails,
}

/// Wire encoding of an event packet.
pub open spec fn enc_packet_event(p: PacketEventData) -> Seq<u8> {
    enc_header(p.header) + (p.event_string_code@ + enc_event_details(p.event_details))
}

impl PacketEventData {
    /// The stored code matches the payload shape, as it does on every decoded
    /// packet.
    pub open spec fn wf(self) -> bool {
        self.event_string_code@ == event_code_of(self.event_details)
    }
}

/// The payload encoding is as long as the code says.
pub proof fn lemma_enc_event_details_len(d: EventDataDetails)
    ensures
        enc_event_details(d).len() == event_payload_len(event_code_of(d)),
{
}

/// A code in the table selects exactly one payload shape: equal codes on
/// well-formed packets mean the same variant.
pub proof fn lemma_event_code_determines_variant(d1: EventDataDetails, d2: EventDataDetails)
    requires
        event_code_of(d1) == event_code_of(d2),
    ensures
        (d1 matches EventDataDetails::FastestLap(_)) <==> (d2 matches EventDataDetails::FastestLap(_)),
        (d1 matches EventDataDetails::Retirement(_)) <==> (d2 matches EventDataDetails::Retirement(_)),
        (d1 matches EventDataDetails::TeamMateInPits(_)) <==> (d2 matches EventDataDetails::TeamMateInPits(_)),
        (d1 matches EventDataDetails::RaceWinner(_)) <==> (d2 matches EventDataDetails::RaceWinner(_)),
        (d1 matches EventDataDetails::Penalty(_)) <==> (d2 matches EventDataDetails::Penalty(_)),
        (d1 matches EventDataDetails::SpeedTrap(_)) <==> (d2 matches EventDataDetails::SpeedTrap(_)),
        (d1 matches EventDataDetails::StartLights(_)) <==> (d2 matches EventDataDetails::StartLights(_)),
        (d1 matches EventDataDetails::DriveThroughPenaltyServed(_)) <==> (d2 matches EventDataDetails::DriveThroughPenaltyServed(_)),
        (d1 matches EventDataDetails::StopGoPenaltyServed(_)) <==> (d2 matches EventDataDetails::StopGoPenaltyServed(_)),
        (d1 matches EventDataDetails::Flashback(_)) <==> (d2 matches EventDataDetails::Flashback(_)),
        (d1 matches EventDataDetails::Buttons(_)) <==> (d2 matches EventDataDetails::Buttons(_)),
        (d1 matches EventDataDetails::Overtake(_)) <==> (d2 matches EventDataDetails::Overtake(_)),
        d1 is SessionStarted <==> d2 is SessionStarted,
        d1 is SessionEnded <==> d2 is SessionEnded,
        d1 is DRSEnabled <==> d2 is DRSEnabled,
        d1 is DRSDisabled <==> d2 is DRSDisabled,
        d1 is ChequeredFlag <==> d2 is ChequeredFlag,
        d1 is LightsOut <==> d2 is LightsOut,
        d1 is RedFlag <==> d2 is RedFlag,
{
    let c1 = event_code_of(d1);
    let c2 = event_code_of(d2);
    assert(c1[0] == c2[0] && c1[1] == c2[1] && c1[2] == c2[2] && c1[3] == c2[3]);
}

/// An event-packet encoding determines the packet, for well-formed packets:
/// the round-trip guarantee.
pub proof fn lemma_enc_packet_event_injective(a: PacketEventData, b: PacketEventData)
    requires
        enc_packet_event(a) == enc_packet_event(b),
        a.wf(),
        b.wf(),
    ensures
        a == b,
{
    lemma_concat_split(
        enc_header(a.header),
        a.event_string_code@ + enc_event_details(a.event_details),
        enc_header(b.header),
        b.event_string_code@ + enc_event_details(b.event_details),
    );
    lemma_enc_header_injective(a.header, b.header);
    lemma_concat_split(
        a.event_string_code@,
        enc_event_details(a.event_details),
        b.event_string_code@,
        enc_event_details(b.event_details),
    );
    assert(a.event_string_code =~= b.event_string_code);
    lemma_event_code_determines_variant(a.event_details, b.event_details);
    match a.event_details {
        EventDataDetails::FastestLap(x) => {
            let y = b.event_details->FastestLap_0;
            lemma_enc_fastest_lap_injective(x, y);
        },
        EventDataDetails::Retirement(x) => {
            let y = b.event_details->Retirement_0;
            lemma_enc_retirement_injective(x, y);
        },
        EventDataDetails::TeamMateInPits(x) => {
            let y = b.event_details->TeamMateInPits_0;
            lemma_enc_team_mate_in_pits_injective(x, y);
        },
        EventDataDetails::RaceWinner(x) => {
            let y = b.event_details->RaceWinner_0;
            lemma_enc_race_winner_injective(x, y);
        },
        EventDataDetails::Penalty(x) => {
            let y = b.event_details->Penalty_0;
            lemma_enc_penalty_injective(x, y);
        },
        EventDataDetails::SpeedTrap(x) => {
            let y = b.event_details->SpeedTrap_0;
            lemma_enc_speed_trap_injective(x, y);
        },
        EventDataDetails::StartLights(x) => {
            let y = b.event_details->StartLights_0;
            lemma_enc_start_lights_injective(x, y);
        },
        EventDataDetails::DriveThroughPenaltyServed(x) => {
            let y = b.event_details->DriveThroughPenaltyServed_0;
            lemma_enc_drive_through_penalty_served_injective(x, y);
        },
        EventDataDetails::StopGoPenaltyServed(x) => {
            let y = b.event_details->StopGoPenaltyServed_0;
            lemma_enc_stop_go_penalty_served_injective(x, y);
        },
        EventDataDetails::Flashback(x) => {
            let y = b.event_details->Flashback_0;
            lemma_enc_flashback_injective(x, y);
        },
        EventDataDetails::Buttons(x) => {
            let y = b.event_details->Buttons_0;
            lemma_enc_buttons_injective(x, y);
        },
        EventDataDetails::Overtake(x) => {
            let y = b.event_details->Overtake_0;
            lemma_enc_overtake_injective(x, y);
        },
        EventDataDetails::SessionStarted => {
        },
        EventDataDetails::SessionEnded => {
        },
        EventDataDetails::DRSEnabled => {
        },
        EventDataDetails::DRSDisabled => {
        },
        EventDataDetails::ChequeredFlag => {
        },
        EventDataDetails::LightsOut => {
        },
        EventDataDetails::RedFlag => {
        },
    }
}

impl PacketEventData {
    /// Decodes an event packet.  Fails with the short-buffer error when fewer
    /// than 33 bytes are given, or when the code's payload does not fit; with
    /// the out-of-bounds error, carrying the code and its length, when the
    /// code is not in the dispatch table; and with the decode error when a
    /// penalty payload names no known variant.
    pub fn from_bytes(buf: &[u8]) -> (r: Result<PacketEventData, PacketError>)
        ensures
            buf@.len() < PACKET_EVENT_BASE_LEN ==> r == Err::<PacketEventData, PacketError>(
                PacketError::ShortBuffer,
            ),
            buf@.len() >= PACKET_EVENT_BASE_LEN && !known_event_code(
                buf@.subrange(29, 33),
            ) ==> (r matches Err(PacketError::EventCodeOutOfBounds(n, c)) && n == 4 && c@
                == buf@.subrange(29, 33)),
            buf@.len() >= PACKET_EVENT_BASE_LEN && known_event_code(buf@.subrange(29, 33))
                && buf@.len() < PACKET_EVENT_BASE_LEN + event_payload_len(
                buf@.subrange(29, 33),
            ) ==> r == Err::<PacketEventData, PacketError>(PacketError::ShortBuffer),
            buf@.len() >= PACKET_EVENT_BASE_LEN + event_payload_len(buf@.subrange(29, 33))
                && buf@.subrange(29, 33) == seq![80u8, 69u8, 78u8, 76u8] && !penalty_bytes_ok(
                buf@,
                33,
            ) ==> r == Err::<PacketEventData, PacketError>(PacketError::EventDecodeError),
            buf@.len() >= PACKET_EVENT_BASE_LEN && known_event_code(buf@.subrange(29, 33))
                && buf@.len() >= PACKET_EVENT_BASE_LEN + event_payload_len(buf@.subrange(29, 33))
                && (buf@.subrange(29, 33) == seq![80u8, 69u8, 78u8, 76u8] ==> penalty_bytes_ok(
                buf@,
                33,
            )) ==> (r matches Ok(p) && p.wf() && enc_packet_event(p) == buf@.subrange(
                0,
                PACKET_EVENT_BASE_LEN + event_payload_len(buf@.subrange(29, 33)),
            )),
    {
        if buf.len() < PACKET_EVENT_BASE_LEN {
            return Err(PacketError::ShortBuffer);
        }
        let mut pos: usize = 0;
        let header = decode_header_at(buf, &mut pos);
        let event_string_code = read_bytes::<4>(buf, &mut pos);
        proof {
            assert(event_string_code@ =~= buf@.subrange(29, 33));
        }
        let c0 = event_string_code[0];
        let c1 = event_string_code[1];
        let c2 = event_string_code[2];
        let c3 = event_string_code[3];
        proof {
            assert(event_string_code@ == seq![c0, c1, c2, c3]) by {
                assert(event_string_code@ =~= seq![c0, c1, c2, c3]);
            }
        }
        let n = buf.len();
        let details: EventDataDetails;
        if c0 == 70 && c1 == 84 && c2 == 76 && c3 == 80 {
            if n < 38 {
                return Err(PacketError::ShortBuffer);
            }
            details = EventDataDetails::FastestLap(decode_fastest_lap_at(buf, &mut pos));
        } else if c0 == 82 && c1 == 84 && c2 == 77 && c3 == 84 {
            if n < 34 {
                return Err(PacketError::ShortBuffer);
            }
            details = EventDataDetails::Retirement(decode_retirement_at(buf, &mut pos));
        } else if c0 == 84 && c1 == 77 && c2 == 80 && c3 == 84 {
            if n < 34 {
                return Err(PacketError::ShortBuffer);
            }
            details = EventDataDetails::TeamMateInPits(decode_team_mate_in_pits_at(buf, &mut pos));
        } else if c0 == 82 && c1 == 67 && c2 == 87 && c3 == 78 {
            if n < 34 {
                return Err(PacketError::ShortBuffer);
            }
            details = EventDataDetails::RaceWinner(decode_race_winner_at(buf, &mut pos));
        } else if c0 == 80 && c1 == 69 && c2 == 78 && c3 == 76 {
            if n < 40 {
                return Err(PacketError::ShortBuffer);
            }
            match decode_penalty_at(buf, &mut pos) {
                Some(v) => {
                    details = EventDataDetails::Penalty(v);
                },
                None => {
                    return Err(PacketError::EventDecodeError);
                },
            }
        } else if c0 == 83 && c1 == 80 && c2 == 84 && c3 == 80 {
            if n < 45 {
                return Err(PacketError::ShortBuffer);
            }
            details = EventDataDetails::SpeedTrap(decode_speed_trap_at(buf, &mut pos));
        } else if c0 == 83 && c1 == 84 && c2 == 76 && c3 == 71 {
            if n < 34 {
                return Err(PacketError::ShortBuffer);
            }
            details = EventDataDetails::StartLights(decode_start_lights_at(buf, &mut pos));
        } else if c0 == 68 && c1 == 84 && c2 == 80 && c3 == 78 {
            if n < 34 {
                return Err(PacketError::ShortBuffer);
            }
            details = EventDataDetails::DriveThroughPenaltyServed(
                decode_drive_through_penalty_served_at(buf, &mut pos),
            );
        } else if c0 == 83 && c1 == 71 && c2 == 80 && c3 == 78 {
            if n < 34 {
                return Err(PacketError::ShortBuffer);
            }
            details = EventDataDetails::StopGoPenaltyServed(
                decode_stop_go_penalty_served_at(buf, &mut pos),
            );
        } else if c0 == 70 && c1 == 76 && c2 == 66 && c3 == 75 {
            if n < 41 {
                return Err(PacketError::ShortBuffer);
            }
            details = EventDataDetails::Flashback(decode_flashback_at(buf, &mut pos));
        } else if c0 == 66 && c1 == 85 && c2 == 84 && c3 == 78 {
            if n < 37 {
                return Err(PacketError::ShortBuffer);
            }
            details = EventDataDetails::Buttons(decode_buttons_at(buf, &mut pos));
        } else if c0 == 79 && c1 == 86 && c2 == 84 && c3 == 75 {
            if n < 35 {
                return Err(PacketError::ShortBuffer);
            }
            details = EventDataDetails::Overtake(decode_overtake_at(buf, &mut pos));
        } else if c0 == 83 && c1 == 83 && c2 == 84 && c3 == 65 {
            details = EventDataDetails::SessionStarted;
        } else if c0 == 83 && c1 == 69 && c2 == 78 && c3 == 68 {
            details = EventDataDetails::SessionEnded;
        } else if c0 == 68 && c1 == 82 && c2 == 83 && c3 == 69 {
            details = EventDataDetails::DRSEnabled;
        } else if c0 == 68 && c1 == 82 && c2 == 83 && c3 == 68 {
            details = EventDataDetails::DRSDisabled;
        } else if c0 == 67 && c1 == 72 && c2 == 81 && c3 == 70 {
            details = EventDataDetails::ChequeredFlag;
        } else if c0 == 76 && c1 == 71 && c2 == 79 && c3 == 84 {
            details = EventDataDetails::LightsOut;
        } else if c0 == 82 && c1 == 69 && c2 == 68 && c3 == 76 {
            details = EventDataDetails::RedFlag;
        } else {
            return Err(PacketError::EventCodeOutOfBounds(4, event_string_code));
        }
        let p = PacketEventData { header, event_string_code, event_details: details };
        proof {
            assert(known_event_code(buf@.subrange(29, 33))) by {
                assert(event_code_of(p.event_details) == buf@.subrange(29, 33));
            }
            assert(enc_packet_event(p) =~= buf@.subrange(
                0,
                PACKET_EVENT_BASE_LEN + event_payload_len(buf@.subrange(29, 33)),
            ));
        }
        Ok(p)
    }

    /// The full wire encoding of this packet.
    pub fn to_bytes(&self) -> (r: Vec<u8>)
        ensures
            r@ == enc_packet_event(*self),
    {
        let mut out: Vec<u8> = Vec::new();
        encode_header_into(&self.header, &mut out);
        write_bytes::<4>(&mut out, &self.event_string_code);
        match &self.event_details {
            EventDataDetails::FastestLap(v) => encode_fastest_lap_into(v, &mut out),
            EventDataDetails::Retirement(v) => encode_retirement_into(v, &mut out),
            EventDataDetails::TeamMateInPits(v) => encode_team_mate_in_pits_into(v, &mut out),
            EventDataDetails::RaceWinner(v) => encode_race_winner_into(v, &mut out),
            EventDataDetails::Penalty(v) => encode_penalty_into(v, &mut out),
            EventDataDetails::SpeedTrap(v) => encode_speed_trap_into(v, &mut out),
            EventDataDetails::StartLights(v) => encode_start_lights_into(v, &mut out),
            EventDataDetails::DriveThroughPenaltyServed(v) => encode_drive_through_penalty_served_into(
                v,
                &mut out,
            ),
            EventDataDetails::StopGoPenaltyServed(v) => encode_stop_go_penalty_served_into(
                v,
                &mut out,
            ),
            EventDataDetails::Flashback(v) => encode_flashback_into(v, &mut out),
            EventDataDetails::Buttons(v) => encode_buttons_into(v, &mut out),
            EventDataDetails::Overtake(v) => encode_overtake_into(v, &mut out),
            EventDataDetails::SessionStarted => (),
            EventDataDetails::SessionEnded => (),
            EventDataDetails::DRSEnabled => (),
            EventDataDetails::DRSDisabled => (),
            EventDataDetails::ChequeredFlag => (),
            EventDataDetails::LightsOut => (),
            EventDataDetails::RedFlag => (),
        }
        proof {
            assert(out@ =~= enc_packet_event(*self));
        }
        out
    }

    /// The packet's header.
    pub fn header(&self) -> (r: PacketHeader)
        ensures
            r == self.header,
    {
        self.header
    }

    /// The packet kind named by the header's packet-id byte.
    pub fn packet_id(&self) -> (r: Result<PacketID, PacketError>)
        ensures
            self.header.packet_id <= 13 ==> (r matches Ok(id) && packet_id_code(id)
                == self.header.packet_id),
            self.header.packet_id > 13 ==> r == Err::<PacketID, PacketError>(
                PacketError::InvalidPacketID(self.header.packet_id),
            ),
    {
        self.header.packet_id()
    }
}

} // verus!
