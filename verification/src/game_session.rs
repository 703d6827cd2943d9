//! Whole-game aggregation: a running mirror of the session's headline data,
//! the tracked car's lap history, and its raw motion stream.

use vstd::prelude::*;

use crate::packet::motion::CarMotionData;
use crate::packet::motion_ex::PacketMotionExData;
use crate::packet::session::PacketSessionData;
use crate::packet::session_history::LapHistoryData;
use crate::packet::{packet_header_of, Packet};

verus! {

/// The headline fields mirrored from the latest session packet.
#[derive(Debug, Clone, Copy, PartialEq, Eq)]
pub struct SessionData {
    /// Session type.
    pub session_type: u8,
    /// Weather.
    pub weather: u8,
    /// Track temperature in degrees Celsius.
    pub track_temperature: i8,
    /// Air temperature in degrees Celsius.
    pub air_temperature: i8,
    /// Total laps in this race.
    pub total_laps: u8,
    /// Track identifier.
    pub track_id: i8,
    /// AI difficulty rating.
    pub ai_difficulty: u8,
    /// Steering assist setting.
    pub steering_assist: u8,
    /// Braking assist setting.
    pub braking_assist: u8,
    /// Gearbox assist setting.
    pub gearbox_assist: u8,
    /// Dynamic racing line setting.
    pub dynamic_racing_line: u8,
    /// Ruleset identifier.
    pub rule_set: u8,
    /// Total session duration in seconds.
    pub session_duration: u16,
}

impl SessionData {
    /// A record with every field zero.
    pub fn zeroed() -> (r: SessionData)
        ensures
            r == (SessionData {
                session_type: 0,
                weather: 0,
                track_temperature: 0,
                air_temperature: 0,
                total_laps: 0,
                track_id: 0,
                ai_difficulty: 0,
                steering_assist: 0,
                braking_assist: 0,
                gearbox_assist: 0,
                dynamic_racing_line: 0,
                rule_set: 0,
                session_duration: 0,
            }),
    {
        SessionData {
            session_type: 0,
            weather: 0,
            track_temperature: 0,
            air_temperature: 0,
            total_laps: 0,
            track_id: 0,
            ai_difficulty: 0,
            steering_assist: 0,
            braking_assist: 0,
            gearbox_assist: 0,
            dynamic_racing_line: 0,
            rule_set: 0,
            session_duration: 0,
        }
    }
}

/// The headline fields a session packet contributes.
pub open spec fn session_data_of(value: PacketSessionData) -> SessionData {
    SessionData {
        session_type: value.session_type,
        weather: value.weather,
        track_temperature: value.track_temperature,
        air_temperature: value.air_temperature,
        total_laps: value.total_laps,
        track_id: value.track_id,
        ai_difficulty: value.ai_difficulty,
        steering_assist: value.steering_assist,
        braking_assist: value.braking_assist,
        gearbox_assist: value.gearbox_assist,
        dynamic_racing_line: value.dynamic_racing_line,
        rule_set: value.rule_set,
        session_duration: value.session_duration,
    }
}

impl vstd::std_specs::convert::FromSpecImpl<PacketSessionData> for SessionData {
    open spec fn obeys_from_spec() -> bool {
        true
    }

    open spec fn from_spec(value: PacketSessionData) -> SessionData {
        session_data_of(value)
    }
}

impl From<PacketSessionData> for SessionData {
    /// The headline fields of a session packet.
    fn from(value: PacketSessionData) -> SessionData {
        SessionData {
            session_type: value.session_type,
            weather: value.weather,
            track_temperature: value.track_temperature,
            air_temperature: value.air_temperature,
            total_laps: value.total_laps,
            track_id: value.track_id,
            ai_difficulty: value.ai_difficulty,
            steering_assist: value.steering_assist,
            braking_assist: value.braking_assist,
            gearbox_assist: value.gearbox_assist,
            dynamic_racing_line: value.dynamic_racing_line,
            rule_set: value.rule_set,
            session_duration: value.session_duration,
        }
    }
}

/// Extended motion data of the player's car, without the envelope.  Every
/// field keeps the wire's IEEE-754 bits; per-wheel arrays are ordered rear
/// left, rear right, front left, front right.
#[derive(Debug, Clone, Copy, PartialEq, Eq)]
pub struct MotionExData {
    /// Suspension position per wheel.
    pub suspension_position: [u32; 4],
    /// Suspension velocity per wheel.
    pub suspension_velocity: [u32; 4],
    /// Suspension acceleration per wheel.
    pub suspension_acceleration: [u32; 4],
    /// Wheel speed.
    pub wheel_speed: [u32; 4],
    /// Slip ratio per wheel.
    pub wheel_slip_ratio: [u32; 4],
    /// Slip angle per wheel.
    pub wheel_slip_angle: [u32; 4],
    /// Lateral force per wheel.
    pub wheel_lat_force: [u32; 4],
    /// Longitudinal force per wheel.
    pub wheel_long_force: [u32; 4],
    /// Height of the centre of gravity above ground.
    pub height_of_cog_above_ground: u32,
    /// Local velocity in the X axis.
    pub local_velocity_x: u32,
    /// Local velocity in the Y axis.
    pub local_velocity_y: u32,
    /// Local velocity in the Z axis.
    pub local_velocity_z: u32,
    /// Angular velocity X component.
    pub angular_velocity_x: u32,
    /// Angular velocity Y component.
    pub angular_velocity_y: u32,
    /// Angular velocity Z component.
    pub angular_velocity_z: u32,
    /// Angular acceleration X component.
    pub angular_acceleration_x: u32,
    /// Angular acceleration Y component.
    pub angular_acceleration_y: u32,
    /// Angular acceleration Z component.
    pub angular_acceleration_z: u32,
    /// Current front wheels angle in radians.
    pub front_wheels_angle: u32,
    /// Vertical force per wheel.
    pub wheel_vert_force: [u32; 4],
}

/// The extended motion packet without its envelope.
pub open spec fn motion_ex_of(value: PacketMotionExData) -> MotionExData {
    MotionExData {
        suspension_position: value.suspension_position,
        suspension_velocity: value.suspension_velocity,
        suspension_acceleration: value.suspension_acceleration,
        wheel_speed: value.wheel_speed,
        wheel_slip_ratio: value.wheel_slip_ratio,
        wheel_slip_angle: value.wheel_slip_angle,
        wheel_lat_force: value.wheel_lat_force,
        wheel_long_force: value.wheel_long_force,
        height_of_cog_above_ground: value.height_of_cog_above_ground,
        local_velocity_x: value.local_velocity_x,
        local_velocity_y: value.local_velocity_y,
        local_velocity_z: value.local_velocity_z,
        angular_velocity_x: value.angular_velocity_x,
        angular_velocity_y: value.angular_velocity_y,
        angular_velocity_z: value.angular_velocity_z,
        angular_acceleration_x: value.angular_acceleration_x,
        angular_acceleration_y: value.angular_acceleration_y,
        angular_acceleration_z: value.angular_acceleration_z,
        front_wheels_angle: value.front_wheels_angle,
        wheel_vert_force: value.wheel_vert_force,
    }
}

impl vstd::std_specs::convert::FromSpecImpl<PacketMotionExData> for MotionExData {
    open spec fn obeys_from_spec() -> bool {
        true
    }

    open spec fn from_spec(value: PacketMotionExData) -> MotionExData {
        motion_ex_of(value)
    }
}

impl From<PacketMotionExData> for MotionExData {
    /// The extended motion packet without its envelope.
    fn from(value: PacketMotionExData) -> MotionExData {
        MotionExData {
            suspension_position: value.suspension_position,
            suspension_velocity: value.suspension_velocity,
            suspension_acceleration: value.suspension_acceleration,
            wheel_speed: value.wheel_speed,
            wheel_slip_ratio: value.wheel_slip_ratio,
            wheel_slip_angle: value.wheel_slip_angle,
            wheel_lat_force: value.wheel_lat_force,
            wheel_long_force: value.wheel_long_force,
            height_of_cog_above_ground: value.height_of_cog_above_ground,
            local_velocity_x: value.local_velocity_x,
            local_velocity_y: value.local_velocity_y,
            local_velocity_z: value.local_velocity_z,
            angular_velocity_x: value.angular_velocity_x,
            angular_velocity_y: value.angular_velocity_y,
            angular_velocity_z: value.angular_velocity_z,
            angular_acceleration_x: value.angular_acceleration_x,
            angular_acceleration_y: value.angular_acceleration_y,
            angular_acceleration_z: value.angular_acceleration_z,
            front_wheels_angle: value.front_wheels_angle,
            wheel_vert_force: value.wheel_vert_force,
        }
    }
}

/// Running aggregation over a whole game session: header identity, the
/// latest session snapshot, the tracked car's lap history and its motion
/// stream.
#[derive(Debug)]
pub struct GameSession {
    /// Unique identifier of the session, from the latest header.
    pub session_uid: u64,
    /// Index of the player's car, from the latest header.
    pub player_car_index: u8,
    /// When the aggregation started, in Unix milliseconds.
    pub start_date: i64,
    /// When the aggregation ended, if it has.
    pub end_date: Option<i64>,
    /// The latest session snapshot.
    pub session_data: SessionData,
    /// Lap history of the tracked car, from the latest history packet.
    pub laps: Vec<LapHistoryData>,
    /// Motion samples of the tracked car, one per motion packet.
    pub motion_data: Vec<CarMotionData>,
    /// Extended motion samples, one per extended motion packet.
    pub motion_data_ex: Vec<MotionExData>,
}

impl GameSession {
    /// An empty aggregation started at the given Unix millisecond
    /// timestamp.
    pub fn new(now_ms: i64) -> (r: GameSession)
        ensures
            r.session_uid == 0,
            r.player_car_index == 0,
            r.start_date == now_ms,
            r.end_date is None,
            r.session_data == (SessionData {
                session_type: 0,
                weather: 0,
                track_temperature: 0,
                air_temperature: 0,
                total_laps: 0,
                track_id: 0,
                ai_difficulty: 0,
                steering_assist: 0,
                braking_assist: 0,
                gearbox_assist: 0,
                dynamic_racing_line: 0,
                rule_set: 0,
                session_duration: 0,
            }),
            r.laps@ == Seq::<LapHistoryData>::empty(),
            r.motion_data@ == Seq::<CarMotionData>::empty(),
            r.motion_data_ex@ == Seq::<MotionExData>::empty(),
    {
        GameSession {
            session_uid: 0,
            player_car_index: 0,
            start_date: now_ms,
            end_date: None,
            session_data: SessionData::zeroed(),
            laps: Vec::new(),
            motion_data: Vec::new(),
            motion_data_ex: Vec::new(),
        }
    }

    /// Absorbs one decoded packet: the header identity is always refreshed;
    /// a session packet replaces the snapshot; a history packet for the
    /// tracked car replaces the lap history; motion packets append the
    /// tracked car's sample.
    pub fn handle_packet(&mut self, packet: &Packet)
        ensures
            final(self).session_uid == packet_header_of(*packet).session_uid,
            final(self).player_car_index == packet_header_of(*packet).player_car_index,
            final(self).start_date == old(self).start_date,
            final(self).end_date == old(self).end_date,
            packet matches Packet::Session(p) ==> ({
                &&& final(self).session_data == session_data_of(*p)
                &&& final(self).laps@ == old(self).laps@
                &&& final(self).motion_data@ == old(self).motion_data@
                &&& final(self).motion_data_ex@ == old(self).motion_data_ex@
            }),
            packet matches Packet::SessionHistory(p) ==> ({
                &&& (p.car_idx == p.header.player_car_index ==> final(self).laps@
                    == p.lap_history_data@)
                &&& (p.car_idx != p.header.player_car_index ==> final(self).laps@ == old(
                    self,
                ).laps@)
                &&& final(self).session_data == old(self).session_data
                &&& final(self).motion_data@ == old(self).motion_data@
                &&& final(self).motion_data_ex@ == old(self).motion_data_ex@
            }),
            packet matches Packet::Motion(p) ==> ({
                &&& (p.header.player_car_index < 22 ==> final(self).motion_data@ == old(
                    self,
                ).motion_data@.push(p.car_motion_data@[p.header.player_car_index as int]))
                &&& (p.header.player_car_index >= 22 ==> final(self).motion_data@ == old(
                    self,
                ).motion_data@)
                &&& final(self).session_data == old(self).session_data
                &&& final(self).laps@ == old(self).laps@
                &&& final(self).motion_data_ex@ == old(self).motion_data_ex@
            }),
            packet matches Packet::MotionEx(p) ==> ({
                &&& final(self).motion_data_ex@ == old(self).motion_data_ex@.push(
                    motion_ex_of(*p),
                )
                &&& final(self).session_data == old(self).session_data
                &&& final(self).laps@ == old(self).laps@
                &&& final(self).motion_data@ == old(self).motion_data@
            }),
            !(packet matches Packet::Session(_)) && !(packet matches Packet::SessionHistory(_))
                && !(packet matches Packet::Motion(_)) && !(packet matches Packet::MotionEx(_))
                ==> ({
                &&& final(self).session_data == old(self).session_data
                &&& final(self).laps@ == old(self).laps@
                &&& final(self).motion_data@ == old(self).motion_data@
                &&& final(self).motion_data_ex@ == old(self).motion_data_ex@
            }),
    {
        let header = packet.header();
        self.player_car_index = header.player_car_index;
        self.session_uid = header.session_uid;
        match packet {
            Packet::Session(p) => {
                self.session_data = SessionData::from(*p);
            },
            Packet::SessionHistory(p) => {
                if p.car_idx == self.player_car_index {
                    let mut laps: Vec<LapHistoryData> = Vec::new();
                    proof {
                        assert(laps@ =~= p.lap_history_data@.take(0));
                    }
                    for i in 0..100
                        invariant
                            laps@ == p.lap_history_data@.take(i as int),
                    {
                        laps.push(p.lap_history_data[i]);
                        proof {
                            assert(laps@ =~= p.lap_history_data@.take(i as int + 1));
                        }
                    }
                    proof {
                        assert(p.lap_history_data@.take(100) =~= p.lap_history_data@);
                    }
                    self.laps = laps;
                }
            },
            Packet::Motion(p) => {
                if self.player_car_index < 22 {
                    self.motion_data.push(p.car_motion_data[self.player_car_index as usize]);
                }
            },
            Packet::MotionEx(p) => {
                self.motion_data_ex.push(MotionExData::from(*p));
            },
            _ => {},
        }
    }
}

} // verus!
