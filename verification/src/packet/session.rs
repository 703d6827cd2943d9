//! Session packet: details of the session in progress.

use vstd::prelude::*;

use crate::bytes::{
    enc_each, le16, le32, le8, le_i8, lemma_concat_split, lemma_enc_each_injective,
    lemma_enc_each_len, lemma_enc_each_push, lemma_le16_injective, lemma_le32_injective,
    lemma_le8_injective, lemma_le_i8_injective, lemma_subrange_adjacent, read_i8, read_u16,
    read_u32, read_u8, write_i8, write_u16, write_u32, write_u8,
};
use super::header::{
    decode_header_at, enc_header, encode_header_into, lemma_enc_header_injective, PacketHeader,
};
use super::{packet_id_code, PacketError, PacketID};

verus! {

/// Wire width in bytes.
pub const MARSHAL_ZONE_LEN: usize = 5;

/// One marshal zone of the track.
#[derive(Debug, Clone, Copy, PartialEq, Eq)]
pub struct MarshalZone {
    /// Fraction of the lap where the zone starts, as IEEE-754 bits.
    pub zone_start: u32,
    /// Flag shown in the zone: -1 unknown, 0 none, 1 green, 2 blue, 3 yellow.
    pub zone_flag: i8,
}

/// Wire encoding.
pub open spec fn enc_marshal_zone(v: MarshalZone) -> Seq<u8> {
    le32(v.zone_start) + (le_i8(v.zone_flag))
}

/// The element encoding, as a function value.
pub open spec fn enc_marshal_zone_fn() -> spec_fn(MarshalZone) -> Seq<u8> {
    |v: MarshalZone| enc_marshal_zone(v)
}

/// The encoding is 5 bytes long.
pub proof fn lemma_enc_marshal_zone_len(v: MarshalZone)
    ensures
        enc_marshal_zone(v).len() == MARSHAL_ZONE_LEN,
{
}

/// An encoding determines the value: the round-trip guarantee.
pub proof fn lemma_enc_marshal_zone_injective(a: MarshalZone, b: MarshalZone)
    requires
        enc_marshal_zone(a) == enc_marshal_zone(b),
    ensures
        a == b,
{
    let ta1 = le_i8(a.zone_flag);
    let tb1 = le_i8(b.zone_flag);
    assert(le32(a.zone_start) + ta1 == enc_marshal_zone(a));
    assert(le32(b.zone_start) + tb1 == enc_marshal_zone(b));
    lemma_concat_split(le32(a.zone_start), ta1, le32(b.zone_start), tb1);
    lemma_le32_injective(a.zone_start, b.zone_start);
    lemma_le_i8_injective(a.zone_flag, b.zone_flag);
}

impl MarshalZone {
    /// A record with every field zero.
    pub fn zeroed() -> (r: MarshalZone)
        ensures
            r == (MarshalZone {
                    zone_start: 0,
                    zone_flag: 0,
            }),
    {
        MarshalZone {
            zone_start: 0,
            zone_flag: 0,
        }
    }
}

/// Decodes one record at the cursor.
fn decode_marshal_zone_at(buf: &[u8], pos: &mut usize) -> (r: MarshalZone)
    requires
        *old(pos) + MARSHAL_ZONE_LEN <= buf@.len(),
    ensures
        *final(pos) == *old(pos) + MARSHAL_ZONE_LEN,
        enc_marshal_zone(r) == buf@.subrange(*old(pos) as int, *final(pos) as int),
{
    let ghost start = *pos;
    let zone_start = read_u32(buf, pos);
    let zone_flag = read_i8(buf, pos);
    let r = MarshalZone {
        zone_start,
        zone_flag,
    };
    proof {
        assert(enc_marshal_zone(r) =~= buf@.subrange(start as int, start as int + MARSHAL_ZONE_LEN as int));
    }
    r
}

/// Appends the wire encoding.
fn encode_marshal_zone_into(v: &MarshalZone, out: &mut Vec<u8>)
    ensures
        final(out)@ == old(out)@ + enc_marshal_zone(*v),
{
    write_u32(out, v.zone_start);
    write_i8(out, v.zone_flag);
    proof {
        assert(out@ =~= old(out)@ + enc_marshal_zone(*v));
    }
}

/// Wire width in bytes.
pub const WEATHER_FORECAST_SAMPLE_LEN: usize = 8;

/// One weather forecast sample.
#[derive(Debug, Clone, Copy, PartialEq, Eq)]
pub struct WeatherForecastSample {
    /// Session the forecast is for.
    pub session_type: u8,
    /// Time in minutes the forecast is for.
    pub time_offset: u8,
    /// Forecast weather: 0 clear up to 5 storm.
    pub weather: u8,
    /// Track temperature in degrees Celsius.
    pub track_temperature: i8,
    /// Track temperature change: 0 up, 1 down, 2 none.
    pub track_temperature_change: i8,
    /// Air temperature in degrees Celsius.
    pub air_temperature: i8,
    /// Air temperature change: 0 up, 1 down, 2 none.
    pub air_temperature_change: i8,
    /// Rain percentage.
    pub rain_percentage: u8,
}

/// Wire encoding.
pub open spec fn enc_weather_forecast_sample(v: WeatherForecastSample) -> Seq<u8> {
    le8(v.session_type) + (le8(v.time_offset) + (le8(v.weather) + (le_i8(v.track_temperature) + (le_i8(v.track_temperature_change) + (le_i8(v.air_temperature) + (le_i8(v.air_temperature_change) + (le8(v.rain_percentage))))))))
}

/// The element encoding, as a function value.
pub open spec fn enc_weather_forecast_sample_fn() -> spec_fn(WeatherForecastSample) -> Seq<u8> {
    |v: WeatherForecastSample| enc_weather_forecast_sample(v)
}

/// The encoding is 8 bytes long.
pub proof fn lemma_enc_weather_forecast_sample_len(v: WeatherForecastSample)
    ensures
        enc_weather_forecast_sample(v).len() == WEATHER_FORECAST_SAMPLE_LEN,
{
}

/// An encoding determines the value: the round-trip guarantee.
pub proof fn lemma_enc_weather_forecast_sample_injective(a: WeatherForecastSample, b: WeatherForecastSample)
    requires
        enc_weather_forecast_sample(a) == enc_weather_forecast_sample(b),
    ensures
        a == b,
{
    let ta7 = le8(a.rain_percentage);
    let tb7 = le8(b.rain_percentage);
    let ta6 = le_i8(a.air_temperature_change) + ta7;
    let tb6 = le_i8(b.air_temperature_change) + tb7;
    let ta5 = le_i8(a.air_temperature) + ta6;
    let tb5 = le_i8(b.air_temperature) + tb6;
    let ta4 = le_i8(a.track_temperature_change) + ta5;
    let tb4 = le_i8(b.track_temperature_change) + tb5;
    let ta3 = le_i8(a.track_temperature) + ta4;
    let tb3 = le_i8(b.track_temperature) + tb4;
    let ta2 = le8(a.weather) + ta3;
    let tb2 = le8(b.weather) + tb3;
    let ta1 = le8(a.time_offset) + ta2;
    let tb1 = le8(b.time_offset) + tb2;
    assert(le8(a.session_type) + ta1 == enc_weather_forecast_sample(a));
    assert(le8(b.session_type) + tb1 == enc_weather_forecast_sample(b));
    lemma_concat_split(le8(a.session_type), ta1, le8(b.session_type), tb1);
    lemma_le8_injective(a.session_type, b.session_type);
    lemma_concat_split(le8(a.time_offset), ta2, le8(b.time_offset), tb2);
    lemma_le8_injective(a.time_offset, b.time_offset);
    lemma_concat_split(le8(a.weather), ta3, le8(b.weather), tb3);
    lemma_le8_injective(a.weather, b.weather);
    lemma_concat_split(le_i8(a.track_temperature), ta4, le_i8(b.track_temperature), tb4);
    lemma_le_i8_injective(a.track_temperature, b.track_temperature);
    lemma_concat_split(le_i8(a.track_temperature_change), ta5, le_i8(b.track_temperature_change), tb5);
    lemma_le_i8_injective(a.track_temperature_change, b.track_temperature_change);
    lemma_concat_split(le_i8(a.air_temperature), ta6, le_i8(b.air_temperature), tb6);
    lemma_le_i8_injective(a.air_temperature, b.air_temperature);
    lemma_concat_split(le_i8(a.air_temperature_change), ta7, le_i8(b.air_temperature_change), tb7);
    lemma_le_i8_injective(a.air_temperature_change, b.air_temperature_change);
    lemma_le8_injective(a.rain_percentage, b.rain_percentage);
}

impl WeatherForecastSample {
    /// A record with every field zero.
    pub fn zeroed() -> (r: WeatherForecastSample)
        ensures
            r == (WeatherForecastSample {
                    session_type: 0,
                    time_offset: 0,
                    weather: 0,
                    track_temperature: 0,
                    track_temperature_change: 0,
                    air_temperature: 0,
                    air_temperature_change: 0,
                    rain_percentage: 0,
            }),
    {
        WeatherForecastSample {
            session_type: 0,
            time_offset: 0,
            weather: 0,
            track_temperature: 0,
            track_temperature_change: 0,
            air_temperature: 0,
            air_temperature_change: 0,
            rain_percentage: 0,
        }
    }
}

/// Decodes one record at the cursor.
fn decode_weather_forecast_sample_at(buf: &[u8], pos: &mut usize) -> (r: WeatherForecastSample)
    requires
        *old(pos) + WEATHER_FORECAST_SAMPLE_LEN <= buf@.len(),
    ensures
        *final(pos) == *old(pos) + WEATHER_FORECAST_SAMPLE_LEN,
        enc_weather_forecast_sample(r) == buf@.subrange(*old(pos) as int, *final(pos) as int),
{
    let ghost start = *pos;
    let session_type = read_u8(buf, pos);
    let time_offset = read_u8(buf, pos);
    let weather = read_u8(buf, pos);
    let track_temperature = read_i8(buf, pos);
    let track_temperature_change = read_i8(buf, pos);
    let air_temperature = read_i8(buf, pos);
    let air_temperature_change = read_i8(buf, pos);
    let rain_percentage = read_u8(buf, pos);
    let r = WeatherForecastSample {
        session_type,
        time_offset,
        weather,
        track_temperature,
        track_temperature_change,
        air_temperature,
        air_temperature_change,
        rain_percentage,
    };
    proof {
        assert(enc_weather_forecast_sample(r) =~= buf@.subrange(start as int, start as int + WEATHER_FORECAST_SAMPLE_LEN as int));
    }
    r
}

/// Appends the wire encoding.
fn encode_weather_forecast_sample_into(v: &WeatherForecastSample, out: &mut Vec<u8>)
    ensures
        final(out)@ == old(out)@ + enc_weather_forecast_sample(*v),
{
    write_u8(out, v.session_type);
    write_u8(out, v.time_offset);
    write_u8(out, v.weather);
    write_i8(out, v.track_temperature);
    write_i8(out, v.track_temperature_change);
    write_i8(out, v.air_temperature);
    write_i8(out, v.air_temperature_change);
    write_u8(out, v.rain_percentage);
    proof {
        assert(out@ =~= old(out)@ + enc_weather_forecast_sample(*v));
    }
}

/// Wire width in bytes.
pub const PACKET_SESSION_LEN: usize = 644;

/// Session packet: details of the session in progress, including the
/// driver-assist settings that feed the assists mask.
#[derive(Debug, Clone, Copy, PartialEq, Eq)]
pub struct PacketSessionData {
    /// Packet header.
    pub header: PacketHeader,
    /// Weather: 0 clear up to 5 storm.
    pub weather: u8,
    /// Track temperature in degrees Celsius.
    pub track_temperature: i8,
    /// Air temperature in degrees Celsius.
    pub air_temperature: i8,
    /// Total number of laps in this race.
    pub total_laps: u8,
    /// Track length in metres.
    pub track_length: u16,
    /// Session type.
    pub session_type: u8,
    /// Track identifier, -1 for unknown.
    pub track_id: i8,
    /// Formula type.
    pub formula: u8,
    /// Time left in the session in seconds.
    pub session_time_left: u16,
    /// Total session duration in seconds.
    pub session_duration: u16,
    /// Pit speed limit in kilometres per hour.
    pub pit_speed_limit: u8,
    /// Whether the game is paused.
    pub game_paused: u8,
    /// Whether the player is spectating.
    pub is_spectating: u8,
    /// Index of the car being spectated.
    pub spectator_car_index: u8,
    /// SLI Pro support flag.
    pub sli_pro_native_support: u8,
    /// Number of marshal zones to follow.
    pub num_marshal_zones: u8,
    /// Marshal zones.
    pub marshal_zones: [MarshalZone; 21],
    /// Safety car status.
    pub safety_car_status: u8,
    /// Whether the game is online.
    pub network_game: u8,
    /// Number of forecast samples to follow.
    pub num_weather_forecast_samples: u8,
    /// Weather forecast samples.
    pub weather_forecast_samples: [WeatherForecastSample; 56],
    /// Forecast accuracy: 0 perfect, 1 approximate.
    pub forecast_accuracy: u8,
    /// AI difficulty rating.
    pub ai_difficulty: u8,
    /// Season identifier.
    pub season_link_identifier: u32,
    /// Weekend identifier.
    pub weekend_link_identifier: u32,
    /// Session identifier.
    pub session_link_identifier: u32,
    /// Ideal lap to pit on.
    pub pit_stop_window_ideal_lap: u8,
    /// Latest lap to pit on.
    pub pit_stop_window_latest_lap: u8,
    /// Predicted rejoin position.
    pub pit_stop_rejoin_position: u8,
    /// Steering assist: 0 off, 1 on.
    pub steering_assist: u8,
    /// Braking assist: 0 off, 1 low, 2 medium, 3 high.
    pub braking_assist: u8,
    /// Gearbox assist: 1 manual, 2 manual and suggested gear, 3 auto.
    pub gearbox_assist: u8,
    /// Pit assist: 0 off, 1 on.
    pub pit_assist: u8,
    /// Pit release assist: 0 off, 1 on.
    pub pit_release_assist: u8,
    /// ERS assist: 0 off, 1 on.
    pub ers_assist: u8,
    /// DRS assist: 0 off, 1 on.
    pub drs_assist: u8,
    /// Dynamic racing line: 0 off, 1 corners only, 2 full.
    pub dynamic_racing_line: u8,
    /// Racing line type: 0 flat, 1 three-dimensional.
    pub dynamic_racing_line_type: u8,
    /// Game mode identifier.
    pub game_mode: u8,
    /// Ruleset identifier.
    pub rule_set: u8,
    /// Local time of day, minutes since midnight.
    pub time_of_day: u32,
    /// Session length category.
    pub session_length: u8,
    /// Speed units of the lead player.
    pub speed_units_lead_player: u8,
    /// Temperature units of the lead player.
    pub temperature_units_lead_player: u8,
    /// Speed units of the secondary player.
    pub speed_units_secondary_player: u8,
    /// Temperature units of the secondary player.
    pub temperature_units_secondary_player: u8,
    /// Safety car periods so far.
    pub num_safety_car_periods: u8,
    /// Virtual safety car periods so far.
    pub num_virtual_safety_car_periods: u8,
    /// Red flags so far.
    pub num_red_flag_periods: u8,
}

/// Wire encoding.
pub open spec fn enc_packet_session(v: PacketSessionData) -> Seq<u8> {
    enc_header(v.header) + (le8(v.weather) + (le_i8(v.track_temperature) + (le_i8(v.air_temperature) + (le8(v.total_laps) + (le16(v.track_length) + (le8(v.session_type) + (le_i8(v.track_id) + (le8(v.formula) + (le16(v.session_time_left) + (le16(v.session_duration) + (le8(v.pit_speed_limit) + (le8(v.game_paused) + (le8(v.is_spectating) + (le8(v.spectator_car_index) + (le8(v.sli_pro_native_support) + (le8(v.num_marshal_zones) + (enc_each(v.marshal_zones@, enc_marshal_zone_fn()) + (le8(v.safety_car_status) + (le8(v.network_game) + (le8(v.num_weather_forecast_samples) + (enc_each(v.weather_forecast_samples@, enc_weather_forecast_sample_fn()) + (le8(v.forecast_accuracy) + (le8(v.ai_difficulty) + (le32(v.season_link_identifier) + (le32(v.weekend_link_identifier) + (le32(v.session_link_identifier) + (le8(v.pit_stop_window_ideal_lap) + (le8(v.pit_stop_window_latest_lap) + (le8(v.pit_stop_rejoin_position) + (le8(v.steering_assist) + (le8(v.braking_assist) + (le8(v.gearbox_assist) + (le8(v.pit_assist) + (le8(v.pit_release_assist) + (le8(v.ers_assist) + (le8(v.drs_assist) + (le8(v.dynamic_racing_line) + (le8(v.dynamic_racing_line_type) + (le8(v.game_mode) + (le8(v.rule_set) + (le32(v.time_of_day) + (le8(v.session_length) + (le8(v.speed_units_lead_player) + (le8(v.temperature_units_lead_player) + (le8(v.speed_units_secondary_player) + (le8(v.temperature_units_secondary_player) + (le8(v.num_safety_car_periods) + (le8(v.num_virtual_safety_car_periods) + (le8(v.num_red_flag_periods))))))))))))))))))))))))))))))))))))))))))))))))))
}

/// The encoding is 644 bytes long.
pub proof fn lemma_enc_packet_session_len(v: PacketSessionData)
    ensures
        enc_packet_session(v).len() == PACKET_SESSION_LEN,
{
    assert forall|x: MarshalZone| (#[trigger] enc_marshal_zone_fn()(x)).len() == MARSHAL_ZONE_LEN by {
        lemma_enc_marshal_zone_len(x);
    }
    lemma_enc_each_len(v.marshal_zones@, enc_marshal_zone_fn(), MARSHAL_ZONE_LEN as nat);
    assert forall|x: WeatherForecastSample| (#[trigger] enc_weather_forecast_sample_fn()(x)).len() == WEATHER_FORECAST_SAMPLE_LEN by {
        lemma_enc_weather_forecast_sample_len(x);
    }
    lemma_enc_each_len(v.weather_forecast_samples@, enc_weather_forecast_sample_fn(), WEATHER_FORECAST_SAMPLE_LEN as nat);
}

/// An encoding determines the value: the round-trip guarantee.
pub proof fn lemma_enc_packet_session_injective(a: PacketSessionData, b: PacketSessionData)
    requires
        enc_packet_session(a) == enc_packet_session(b),
    ensures
        a == b,
{
    assert forall|x: MarshalZone| (#[trigger] enc_marshal_zone_fn()(x)).len() == MARSHAL_ZONE_LEN by {
        lemma_enc_marshal_zone_len(x);
    }
    lemma_enc_each_len(a.marshal_zones@, enc_marshal_zone_fn(), MARSHAL_ZONE_LEN as nat);
    lemma_enc_each_len(b.marshal_zones@, enc_marshal_zone_fn(), MARSHAL_ZONE_LEN as nat);
    assert forall|x: WeatherForecastSample| (#[trigger] enc_weather_forecast_sample_fn()(x)).len() == WEATHER_FORECAST_SAMPLE_LEN by {
        lemma_enc_weather_forecast_sample_len(x);
    }
    lemma_enc_each_len(a.weather_forecast_samples@, enc_weather_forecast_sample_fn(), WEATHER_FORECAST_SAMPLE_LEN as nat);
    lemma_enc_each_len(b.weather_forecast_samples@, enc_weather_forecast_sample_fn(), WEATHER_FORECAST_SAMPLE_LEN as nat);
    let ta49 = le8(a.num_red_flag_periods);
    let tb49 = le8(b.num_red_flag_periods);
    let ta48 = le8(a.num_virtual_safety_car_periods) + ta49;
    let tb48 = le8(b.num_virtual_safety_car_periods) + tb49;
    let ta47 = le8(a.num_safety_car_periods) + ta48;
    let tb47 = le8(b.num_safety_car_periods) + tb48;
    let ta46 = le8(a.temperature_units_secondary_player) + ta47;
    let tb46 = le8(b.temperature_units_secondary_player) + tb47;
    let ta45 = le8(a.speed_units_secondary_player) + ta46;
    let tb45 = le8(b.speed_units_secondary_player) + tb46;
    let ta44 = le8(a.temperature_units_lead_player) + ta45;
    let tb44 = le8(b.temperature_units_lead_player) + tb45;
    let ta43 = le8(a.speed_units_lead_player) + ta44;
    let tb43 = le8(b.speed_units_lead_player) + tb44;
    let ta42 = le8(a.session_length) + ta43;
    let tb42 = le8(b.session_length) + tb43;
    let ta41 = le32(a.time_of_day) + ta42;
    let tb41 = le32(b.time_of_day) + tb42;
    let ta40 = le8(a.rule_set) + ta41;
    let tb40 = le8(b.rule_set) + tb41;
    let ta39 = le8(a.game_mode) + ta40;
    let tb39 = le8(b.game_mode) + tb40;
    let ta38 = le8(a.dynamic_racing_line_type) + ta39;
    let tb38 = le8(b.dynamic_racing_line_type) + tb39;
    let ta37 = le8(a.dynamic_racing_line) + ta38;
    let tb37 = le8(b.dynamic_racing_line) + tb38;
    let ta36 = le8(a.drs_assist) + ta37;
    let tb36 = le8(b.drs_assist) + tb37;
    let ta35 = le8(a.ers_assist) + ta36;
    let tb35 = le8(b.ers_assist) + tb36;
    let ta34 = le8(a.pit_release_assist) + ta35;
    let tb34 = le8(b.pit_release_assist) + tb35;
    let ta33 = le8(a.pit_assist) + ta34;
    let tb33 = le8(b.pit_assist) + tb34;
    let ta32 = le8(a.gearbox_assist) + ta33;
    let tb32 = le8(b.gearbox_assist) + tb33;
    let ta31 = le8(a.braking_assist) + ta32;
    let tb31 = le8(b.braking_assist) + tb32;
    let ta30 = le8(a.steering_assist) + ta31;
    let tb30 = le8(b.steering_assist) + tb31;
    let ta29 = le8(a.pit_stop_rejoin_position) + ta30;
    let tb29 = le8(b.pit_stop_rejoin_position) + tb30;
    let ta28 = le8(a.pit_stop_window_latest_lap) + ta29;
    let tb28 = le8(b.pit_stop_window_latest_lap) + tb29;
    let ta27 = le8(a.pit_stop_window_ideal_lap) + ta28;
    let tb27 = le8(b.pit_stop_window_ideal_lap) + tb28;
    let ta26 = le32(a.session_link_identifier) + ta27;
    let tb26 = le32(b.session_link_identifier) + tb27;
    let ta25 = le32(a.weekend_link_identifier) + ta26;
    let tb25 = le32(b.weekend_link_identifier) + tb26;
    let ta24 = le32(a.season_link_identifier) + ta25;
    let tb24 = le32(b.season_link_identifier) + tb25;
    let ta23 = le8(a.ai_difficulty) + ta24;
    let tb23 = le8(b.ai_difficulty) + tb24;
    let ta22 = le8(a.forecast_accuracy) + ta23;
    let tb22 = le8(b.forecast_accuracy) + tb23;
    let ta21 = enc_each(a.weather_forecast_samples@, enc_weather_forecast_sample_fn()) + ta22;
    let tb21 = enc_each(b.weather_forecast_samples@, enc_weather_forecast_sample_fn()) + tb22;
    let ta20 = le8(a.num_weather_forecast_samples) + ta21;
    let tb20 = le8(b.num_weather_forecast_samples) + tb21;
    let ta19 = le8(a.network_game) + ta20;
    let tb19 = le8(b.network_game) + tb20;
    let ta18 = le8(a.safety_car_status) + ta19;
    let tb18 = le8(b.safety_car_status) + tb19;
    let ta17 = enc_each(a.marshal_zones@, enc_marshal_zone_fn()) + ta18;
    let tb17 = enc_each(b.marshal_zones@, enc_marshal_zone_fn()) + tb18;
    let ta16 = le8(a.num_marshal_zones) + ta17;
    let tb16 = le8(b.num_marshal_zones) + tb17;
    let ta15 = le8(a.sli_pro_native_support) + ta16;
    let tb15 = le8(b.sli_pro_native_support) + tb16;
    let ta14 = le8(a.spectator_car_index) + ta15;
    let tb14 = le8(b.spectator_car_index) + tb15;
    let ta13 = le8(a.is_spectating) + ta14;
    let tb13 = le8(b.is_spectating) + tb14;
    let ta12 = le8(a.game_paused) + ta13;
    let tb12 = le8(b.game_paused) + tb13;
    let ta11 = le8(a.pit_speed_limit) + ta12;
    let tb11 = le8(b.pit_speed_limit) + tb12;
    let ta10 = le16(a.session_duration) + ta11;
    let tb10 = le16(b.session_duration) + tb11;
    let ta9 = le16(a.session_time_left) + ta10;
    let tb9 = le16(b.session_time_left) + tb10;
    let ta8 = le8(a.formula) + ta9;
    let tb8 = le8(b.formula) + tb9;
    let ta7 = le_i8(a.track_id) + ta8;
    let tb7 = le_i8(b.track_id) + tb8;
    let ta6 = le8(a.session_type) + ta7;
    let tb6 = le8(b.session_type) + tb7;
    let ta5 = le16(a.track_length) + ta6;
    let tb5 = le16(b.track_length) + tb6;
    let ta4 = le8(a.total_laps) + ta5;
    let tb4 = le8(b.total_laps) + tb5;
    let ta3 = le_i8(a.air_temperature) + ta4;
    let tb3 = le_i8(b.air_temperature) + tb4;
    let ta2 = le_i8(a.track_temperature) + ta3;
    let tb2 = le_i8(b.track_temperature) + tb3;
    let ta1 = le8(a.weather) + ta2;
    let tb1 = le8(b.weather) + tb2;
    assert(enc_header(a.header) + ta1 == enc_packet_session(a));
    assert(enc_header(b.header) + tb1 == enc_packet_session(b));
    lemma_concat_split(enc_header(a.header), ta1, enc_header(b.header), tb1);
    lemma_enc_header_injective(a.header, b.header);
    lemma_concat_split(le8(a.weather), ta2, le8(b.weather), tb2);
    lemma_le8_injective(a.weather, b.weather);
    lemma_concat_split(le_i8(a.track_temperature), ta3, le_i8(b.track_temperature), tb3);
    lemma_le_i8_injective(a.track_temperature, b.track_temperature);
    lemma_concat_split(le_i8(a.air_temperature), ta4, le_i8(b.air_temperature), tb4);
    lemma_le_i8_injective(a.air_temperature, b.air_temperature);
    lemma_concat_split(le8(a.total_laps), ta5, le8(b.total_laps), tb5);
    lemma_le8_injective(a.total_laps, b.total_laps);
    lemma_concat_split(le16(a.track_length), ta6, le16(b.track_length), tb6);
    lemma_le16_injective(a.track_length, b.track_length);
    lemma_concat_split(le8(a.session_type), ta7, le8(b.session_type), tb7);
    lemma_le8_injective(a.session_type, b.session_type);
    lemma_concat_split(le_i8(a.track_id), ta8, le_i8(b.track_id), tb8);
    lemma_le_i8_injective(a.track_id, b.track_id);
    lemma_concat_split(le8(a.formula), ta9, le8(b.formula), tb9);
    lemma_le8_injective(a.formula, b.formula);
    lemma_concat_split(le16(a.session_time_left), ta10, le16(b.session_time_left), tb10);
    lemma_le16_injective(a.session_time_left, b.session_time_left);
    lemma_concat_split(le16(a.session_duration), ta11, le16(b.session_duration), tb11);
    lemma_le16_injective(a.session_duration, b.session_duration);
    lemma_concat_split(le8(a.pit_speed_limit), ta12, le8(b.pit_speed_limit), tb12);
    lemma_le8_injective(a.pit_speed_limit, b.pit_speed_limit);
    lemma_concat_split(le8(a.game_paused), ta13, le8(b.game_paused), tb13);
    lemma_le8_injective(a.game_paused, b.game_paused);
    lemma_concat_split(le8(a.is_spectating), ta14, le8(b.is_spectating), tb14);
    lemma_le8_injective(a.is_spectating, b.is_spectating);
    lemma_concat_split(le8(a.spectator_car_index), ta15, le8(b.spectator_car_index), tb15);
    lemma_le8_injective(a.spectator_car_index, b.spectator_car_index);
    lemma_concat_split(le8(a.sli_pro_native_support), ta16, le8(b.sli_pro_native_support), tb16);
    lemma_le8_injective(a.sli_pro_native_support, b.sli_pro_native_support);
    lemma_concat_split(le8(a.num_marshal_zones), ta17, le8(b.num_marshal_zones), tb17);
    lemma_le8_injective(a.num_marshal_zones, b.num_marshal_zones);
    lemma_concat_split(enc_each(a.marshal_zones@, enc_marshal_zone_fn()), ta18, enc_each(b.marshal_zones@, enc_marshal_zone_fn()), tb18);
    assert forall|x: MarshalZone, y: MarshalZone|
        #[trigger] enc_marshal_zone_fn()(x) == #[trigger] enc_marshal_zone_fn()(y) implies x == y by {
        lemma_enc_marshal_zone_injective(x, y);
    }
    lemma_enc_each_injective(a.marshal_zones@, b.marshal_zones@, enc_marshal_zone_fn(), MARSHAL_ZONE_LEN as nat);
    assert(a.marshal_zones =~= b.marshal_zones);
    lemma_concat_split(le8(a.safety_car_status), ta19, le8(b.safety_car_status), tb19);
    lemma_le8_injective(a.safety_car_status, b.safety_car_status);
    lemma_concat_split(le8(a.network_game), ta20, le8(b.network_game), tb20);
    lemma_le8_injective(a.network_game, b.network_game);
    lemma_concat_split(le8(a.num_weather_forecast_samples), ta21, le8(b.num_weather_forecast_samples), tb21);
    lemma_le8_injective(a.num_weather_forecast_samples, b.num_weather_forecast_samples);
    lemma_concat_split(enc_each(a.weather_forecast_samples@, enc_weather_forecast_sample_fn()), ta22, enc_each(b.weather_forecast_samples@, enc_weather_forecast_sample_fn()), tb22);
    assert forall|x: WeatherForecastSample, y: WeatherForecastSample|
        #[trigger] enc_weather_forecast_sample_fn()(x) == #[trigger] enc_weather_forecast_sample_fn()(y) implies x == y by {
        lemma_enc_weather_forecast_sample_injective(x, y);
    }
    lemma_enc_each_injective(a.weather_forecast_samples@, b.weather_forecast_samples@, enc_weather_forecast_sample_fn(), WEATHER_FORECAST_SAMPLE_LEN as nat);
    assert(a.weather_forecast_samples =~= b.weather_forecast_samples);
    lemma_concat_split(le8(a.forecast_accuracy), ta23, le8(b.forecast_accuracy), tb23);
    lemma_le8_injective(a.forecast_accuracy, b.forecast_accuracy);
    lemma_concat_split(le8(a.ai_difficulty), ta24, le8(b.ai_difficulty), tb24);
    lemma_le8_injective(a.ai_difficulty, b.ai_difficulty);
    lemma_concat_split(le32(a.season_link_identifier), ta25, le32(b.season_link_identifier), tb25);
    lemma_le32_injective(a.season_link_identifier, b.season_link_identifier);
    lemma_concat_split(le32(a.weekend_link_identifier), ta26, le32(b.weekend_link_identifier), tb26);
    lemma_le32_injective(a.weekend_link_identifier, b.weekend_link_identifier);
    lemma_concat_split(le32(a.session_link_identifier), ta27, le32(b.session_link_identifier), tb27);
    lemma_le32_injective(a.session_link_identifier, b.session_link_identifier);
    lemma_concat_split(le8(a.pit_stop_window_ideal_lap), ta28, le8(b.pit_stop_window_ideal_lap), tb28);
    lemma_le8_injective(a.pit_stop_window_ideal_lap, b.pit_stop_window_ideal_lap);
    lemma_concat_split(le8(a.pit_stop_window_latest_lap), ta29, le8(b.pit_stop_window_latest_lap), tb29);
    lemma_le8_injective(a.pit_stop_window_latest_lap, b.pit_stop_window_latest_lap);
    lemma_concat_split(le8(a.pit_stop_rejoin_position), ta30, le8(b.pit_stop_rejoin_position), tb30);
    lemma_le8_injective(a.pit_stop_rejoin_position, b.pit_stop_rejoin_position);
    lemma_concat_split(le8(a.steering_assist), ta31, le8(b.steering_assist), tb31);
    lemma_le8_injective(a.steering_assist, b.steering_assist);
    lemma_concat_split(le8(a.braking_assist), ta32, le8(b.braking_assist), tb32);
    lemma_le8_injective(a.braking_assist, b.braking_assist);
    lemma_concat_split(le8(a.gearbox_assist), ta33, le8(b.gearbox_assist), tb33);
    lemma_le8_injective(a.gearbox_assist, b.gearbox_assist);
    lemma_concat_split(le8(a.pit_assist), ta34, le8(b.pit_assist), tb34);
    lemma_le8_injective(a.pit_assist, b.pit_assist);
    lemma_concat_split(le8(a.pit_release_assist), ta35, le8(b.pit_release_assist), tb35);
    lemma_le8_injective(a.pit_release_assist, b.pit_release_assist);
    lemma_concat_split(le8(a.ers_assist), ta36, le8(b.ers_assist), tb36);
    lemma_le8_injective(a.ers_assist, b.ers_assist);
    lemma_concat_split(le8(a.drs_assist), ta37, le8(b.drs_assist), tb37);
    lemma_le8_injective(a.drs_assist, b.drs_assist);
    lemma_concat_split(le8(a.dynamic_racing_line), ta38, le8(b.dynamic_racing_line), tb38);
    lemma_le8_injective(a.dynamic_racing_line, b.dynamic_racing_line);
    lemma_concat_split(le8(a.dynamic_racing_line_type), ta39, le8(b.dynamic_racing_line_type), tb39);
    lemma_le8_injective(a.dynamic_racing_line_type, b.dynamic_racing_line_type);
    lemma_concat_split(le8(a.game_mode), ta40, le8(b.game_mode), tb40);
    lemma_le8_injective(a.game_mode, b.game_mode);
    lemma_concat_split(le8(a.rule_set), ta41, le8(b.rule_set), tb41);
    lemma_le8_injective(a.rule_set, b.rule_set);
    lemma_concat_split(le32(a.time_of_day), ta42, le32(b.time_of_day), tb42);
    lemma_le32_injective(a.time_of_day, b.time_of_day);
    lemma_concat_split(le8(a.session_length), ta43, le8(b.session_length), tb43);
    lemma_le8_injective(a.session_length, b.session_length);
    lemma_concat_split(le8(a.speed_units_lead_player), ta44, le8(b.speed_units_lead_player), tb44);
    lemma_le8_injective(a.speed_units_lead_player, b.speed_units_lead_player);
    lemma_concat_split(le8(a.temperature_units_lead_player), ta45, le8(b.temperature_units_lead_player), tb45);
    lemma_le8_injective(a.temperature_units_lead_player, b.temperature_units_lead_player);
    lemma_concat_split(le8(a.speed_units_secondary_player), ta46, le8(b.speed_units_secondary_player), tb46);
    lemma_le8_injective(a.speed_units_secondary_player, b.speed_units_secondary_player);
    lemma_concat_split(le8(a.temperature_units_secondary_player), ta47, le8(b.temperature_units_secondary_player), tb47);
    lemma_le8_injective(a.temperature_units_secondary_player, b.temperature_units_secondary_player);
    lemma_concat_split(le8(a.num_safety_car_periods), ta48, le8(b.num_safety_car_periods), tb48);
    lemma_le8_injective(a.num_safety_car_periods, b.num_safety_car_periods);
    lemma_concat_split(le8(a.num_virtual_safety_car_periods), ta49, le8(b.num_virtual_safety_car_periods), tb49);
    lemma_le8_injective(a.num_virtual_safety_car_periods, b.num_virtual_safety_car_periods);
    lemma_le8_injective(a.num_red_flag_periods, b.num_red_flag_periods);
}

/// Decodes the packet body at the cursor.
#[verifier::rlimit(100)]
fn decode_packet_session_at(buf: &[u8], pos: &mut usize) -> (r: PacketSessionData)
    requires
        *old(pos) + PACKET_SESSION_LEN <= buf@.len(),
    ensures
        *final(pos) == *old(pos) + PACKET_SESSION_LEN,
        enc_packet_session(r) == buf@.subrange(*old(pos) as int, *final(pos) as int),
{
    let ghost start = *pos;
    let header = decode_header_at(buf, pos);
    let weather = read_u8(buf, pos);
    let track_temperature = read_i8(buf, pos);
    let air_temperature = read_i8(buf, pos);
    let total_laps = read_u8(buf, pos);
    let track_length = read_u16(buf, pos);
    let session_type = read_u8(buf, pos);
    let track_id = read_i8(buf, pos);
    let formula = read_u8(buf, pos);
    let session_time_left = read_u16(buf, pos);
    let session_duration = read_u16(buf, pos);
    let pit_speed_limit = read_u8(buf, pos);
    let game_paused = read_u8(buf, pos);
    let is_spectating = read_u8(buf, pos);
    let spectator_car_index = read_u8(buf, pos);
    let sli_pro_native_support = read_u8(buf, pos);
    let num_marshal_zones = read_u8(buf, pos);
    let marshal_zones = decode_marshal_zone_array(buf, pos);
    let safety_car_status = read_u8(buf, pos);
    let network_game = read_u8(buf, pos);
    let num_weather_forecast_samples = read_u8(buf, pos);
    let weather_forecast_samples = decode_weather_forecast_sample_array(buf, pos);
    let forecast_accuracy = read_u8(buf, pos);
    let ai_difficulty = read_u8(buf, pos);
    let season_link_identifier = read_u32(buf, pos);
    let weekend_link_identifier = read_u32(buf, pos);
    let session_link_identifier = read_u32(buf, pos);
    let pit_stop_window_ideal_lap = read_u8(buf, pos);
    let pit_stop_window_latest_lap = read_u8(buf, pos);
    let pit_stop_rejoin_position = read_u8(buf, pos);
    let steering_assist = read_u8(buf, pos);
    let braking_assist = read_u8(buf, pos);
    let gearbox_assist = read_u8(buf, pos);
    let pit_assist = read_u8(buf, pos);
    let pit_release_assist = read_u8(buf, pos);
    let ers_assist = read_u8(buf, pos);
    let drs_assist = read_u8(buf, pos);
    let dynamic_racing_line = read_u8(buf, pos);
    let dynamic_racing_line_type = read_u8(buf, pos);
    let game_mode = read_u8(buf, pos);
    let rule_set = read_u8(buf, pos);
    let time_of_day = read_u32(buf, pos);
    let session_length = read_u8(buf, pos);
    let speed_units_lead_player = read_u8(buf, pos);
    let temperature_units_lead_player = read_u8(buf, pos);
    let speed_units_secondary_player = read_u8(buf, pos);
    let temperature_units_secondary_player = read_u8(buf, pos);
    let num_safety_car_periods = read_u8(buf, pos);
    let num_virtual_safety_car_periods = read_u8(buf, pos);
    let num_red_flag_periods = read_u8(buf, pos);
    let r = PacketSessionData {
        header,
        weather,
        track_temperature,
        air_temperature,
        total_laps,
        track_length,
        session_type,
        track_id,
        formula,
        session_time_left,
        session_duration,
        pit_speed_limit,
        game_paused,
        is_spectating,
        spectator_car_index,
        sli_pro_native_support,
        num_marshal_zones,
        marshal_zones,
        safety_car_status,
        network_game,
        num_weather_forecast_samples,
        weather_forecast_samples,
        forecast_accuracy,
        ai_difficulty,
        season_link_identifier,
        weekend_link_identifier,
        session_link_identifier,
        pit_stop_window_ideal_lap,
        pit_stop_window_latest_lap,
        pit_stop_rejoin_position,
        steering_assist,
        braking_assist,
        gearbox_assist,
        pit_assist,
        pit_release_assist,
        ers_assist,
        drs_assist,
        dynamic_racing_line,
        dynamic_racing_line_type,
        game_mode,
        rule_set,
        time_of_day,
        session_length,
        speed_units_lead_player,
        temperature_units_lead_player,
        speed_units_secondary_player,
        temperature_units_secondary_player,
        num_safety_car_periods,
        num_virtual_safety_car_periods,
        num_red_flag_periods,
    };
    proof {
        let ghost t_red = le8(r.num_red_flag_periods);
        let ghost t_vsc = le8(r.num_virtual_safety_car_periods) + t_red;
        let ghost t_sc = le8(r.num_safety_car_periods) + t_vsc;
        let ghost t_tmpsec = le8(r.temperature_units_secondary_player) + t_sc;
        let ghost t_spdsec = le8(r.speed_units_secondary_player) + t_tmpsec;
        let ghost t_tmplead = le8(r.temperature_units_lead_player) + t_spdsec;
        let ghost t_spdlead = le8(r.speed_units_lead_player) + t_tmplead;
        let ghost t_length = le8(r.session_length) + t_spdlead;
        let ghost t_tod = le32(r.time_of_day) + t_length;
        let ghost t_rule = le8(r.rule_set) + t_tod;
        let ghost t_mode = le8(r.game_mode) + t_rule;
        let ghost t_linetype = le8(r.dynamic_racing_line_type) + t_mode;
        let ghost t_line = le8(r.dynamic_racing_line) + t_linetype;
        let ghost t_drs = le8(r.drs_assist) + t_line;
        let ghost t_ers = le8(r.ers_assist) + t_drs;
        let ghost t_pitrel = le8(r.pit_release_assist) + t_ers;
        let ghost t_pit = le8(r.pit_assist) + t_pitrel;
        let ghost t_gearbox = le8(r.gearbox_assist) + t_pit;
        let ghost t_braking = le8(r.braking_assist) + t_gearbox;
        let ghost t_steering = le8(r.steering_assist) + t_braking;
        let ghost t_rejoin = le8(r.pit_stop_rejoin_position) + t_steering;
        let ghost t_latest = le8(r.pit_stop_window_latest_lap) + t_rejoin;
        let ghost t_ideal = le8(r.pit_stop_window_ideal_lap) + t_latest;
        let ghost t_linkid = le32(r.session_link_identifier) + t_ideal;
        let ghost t_weekend = le32(r.weekend_link_identifier) + t_linkid;
        let ghost t_season = le32(r.season_link_identifier) + t_weekend;
        let ghost t_ai = le8(r.ai_difficulty) + t_season;
        let ghost t_accuracy = le8(r.forecast_accuracy) + t_ai;
        let ghost t_forecasts = enc_each(r.weather_forecast_samples@, enc_weather_forecast_sample_fn()) + t_accuracy;
        let ghost t_nforecast = le8(r.num_weather_forecast_samples) + t_forecasts;
        let ghost t_network = le8(r.network_game) + t_nforecast;
        let ghost t_safety = le8(r.safety_car_status) + t_network;
        assert(t_steering =~= buf@.subrange(
            start as int + 621,
            start as int + PACKET_SESSION_LEN as int,
        ));
        assert(t_safety =~= buf@.subrange(
            start as int + 153,
            start as int + PACKET_SESSION_LEN as int,
        ));
        assert(enc_packet_session(r) =~= buf@.subrange(start as int, start as int + PACKET_SESSION_LEN as int));
    }
    r
}

/// Decodes the 21-element array of records at the cursor.
fn decode_marshal_zone_array(buf: &[u8], pos: &mut usize) -> (r: [MarshalZone; 21])
    requires
        *old(pos) + 21 * MARSHAL_ZONE_LEN <= buf@.len(),
    ensures
        *final(pos) == *old(pos) + 21 * MARSHAL_ZONE_LEN,
        enc_each(r@, enc_marshal_zone_fn()) == buf@.subrange(*old(pos) as int, *final(pos) as int),
{
    let ghost start = *pos;
    let z = MarshalZone::zeroed();
    let mut arr = [z; 21];
    proof {
        assert(arr@.take(0) =~= Seq::<MarshalZone>::empty());
        assert(buf@.subrange(start as int, start as int) =~= Seq::<u8>::empty());
    }
    for i in 0..21
        invariant
            *pos == start + i * MARSHAL_ZONE_LEN,
            start + 21 * MARSHAL_ZONE_LEN <= buf@.len(),
            arr@.len() == 21,
            enc_each(arr@.take(i as int), enc_marshal_zone_fn()) == buf@.subrange(
                start as int,
                *pos as int,
            ),
    {
        let ghost prev = arr@;
        let ghost p0 = *pos;
        let v = decode_marshal_zone_at(buf, pos);
        arr[i] = v;
        proof {
            assert(arr@.take(i as int) =~= prev.take(i as int));
            assert(arr@.take(i as int + 1) =~= prev.take(i as int).push(v));
            lemma_enc_each_push(prev.take(i as int), enc_marshal_zone_fn(), v);
            assert(enc_marshal_zone_fn()(v) == enc_marshal_zone(v));
            lemma_subrange_adjacent(buf@, start as int, p0 as int, p0 as int + MARSHAL_ZONE_LEN as int);
        }
    }
    proof {
        assert(arr@.take(21) =~= arr@);
    }
    arr
}

/// Decodes the 56-element array of records at the cursor.
fn decode_weather_forecast_sample_array(buf: &[u8], pos: &mut usize) -> (r: [WeatherForecastSample; 56])
    requires
        *old(pos) + 56 * WEATHER_FORECAST_SAMPLE_LEN <= buf@.len(),
    ensures
        *final(pos) == *old(pos) + 56 * WEATHER_FORECAST_SAMPLE_LEN,
        enc_each(r@, enc_weather_forecast_sample_fn()) == buf@.subrange(*old(pos) as int, *final(pos) as int),
{
    let ghost start = *pos;
    let z = WeatherForecastSample::zeroed();
    let mut arr = [z; 56];
    proof {
        assert(arr@.take(0) =~= Seq::<WeatherForecastSample>::empty());
        assert(buf@.subrange(start as int, start as int) =~= Seq::<u8>::empty());
    }
    for i in 0..56
        invariant
            *pos == start + i * WEATHER_FORECAST_SAMPLE_LEN,
            start + 56 * WEATHER_FORECAST_SAMPLE_LEN <= buf@.len(),
            arr@.len() == 56,
            enc_each(arr@.take(i as int), enc_weather_forecast_sample_fn()) == buf@.subrange(
                start as int,
                *pos as int,
            ),
    {
        let ghost prev = arr@;
        let ghost p0 = *pos;
        let v = decode_weather_forecast_sample_at(buf, pos);
        arr[i] = v;
        proof {
            assert(arr@.take(i as int) =~= prev.take(i as int));
            assert(arr@.take(i as int + 1) =~= prev.take(i as int).push(v));
            lemma_enc_each_push(prev.take(i as int), enc_weather_forecast_sample_fn(), v);
            assert(enc_weather_forecast_sample_fn()(v) == enc_weather_forecast_sample(v));
            lemma_subrange_adjacent(buf@, start as int, p0 as int, p0 as int + WEATHER_FORECAST_SAMPLE_LEN as int);
        }
    }
    proof {
        assert(arr@.take(56) =~= arr@);
    }
    arr
}

/// Appends the wire encoding.
#[verifier::rlimit(100)]
fn encode_packet_session_into(v: &PacketSessionData, out: &mut Vec<u8>)
    ensures
        final(out)@ == old(out)@ + enc_packet_session(*v),
{
    encode_header_into(&v.header, out);
    write_u8(out, v.weather);
    write_i8(out, v.track_temperature);
    write_i8(out, v.air_temperature);
    write_u8(out, v.total_laps);
    write_u16(out, v.track_length);
    write_u8(out, v.session_type);
    write_i8(out, v.track_id);
    write_u8(out, v.formula);
    write_u16(out, v.session_time_left);
    write_u16(out, v.session_duration);
    write_u8(out, v.pit_speed_limit);
    write_u8(out, v.game_paused);
    write_u8(out, v.is_spectating);
    write_u8(out, v.spectator_car_index);
    write_u8(out, v.sli_pro_native_support);
    write_u8(out, v.num_marshal_zones);
    let ghost beforemarshal_zones = out@;
    proof {
        assert(v.marshal_zones@.take(0) =~= Seq::<MarshalZone>::empty());
        assert(out@ =~= beforemarshal_zones + enc_each(v.marshal_zones@.take(0), enc_marshal_zone_fn()));
    }
    for i in 0..21
        invariant
            v.marshal_zones@.len() == 21,
            out@ == beforemarshal_zones + enc_each(v.marshal_zones@.take(i as int), enc_marshal_zone_fn()),
    {
        encode_marshal_zone_into(&v.marshal_zones[i], out);
        proof {
            assert(v.marshal_zones@.take(i as int + 1) =~= v.marshal_zones@.take(i as int).push(
                v.marshal_zones@[i as int],
            ));
            lemma_enc_each_push(v.marshal_zones@.take(i as int), enc_marshal_zone_fn(), v.marshal_zones@[i as int]);
            assert(enc_marshal_zone_fn()(v.marshal_zones@[i as int]) == enc_marshal_zone(v.marshal_zones@[i as int]));
            assert(out@ =~= beforemarshal_zones + enc_each(v.marshal_zones@.take(i as int + 1), enc_marshal_zone_fn()));
        }
    }
    proof {
        assert(v.marshal_zones@.take(21) =~= v.marshal_zones@);
    }
    write_u8(out, v.safety_car_status);
    write_u8(out, v.network_game);
    write_u8(out, v.num_weather_forecast_samples);
    let ghost beforeweather_forecast_samples = out@;
    proof {
        assert(v.weather_forecast_samples@.take(0) =~= Seq::<WeatherForecastSample>::empty());
        assert(out@ =~= beforeweather_forecast_samples + enc_each(v.weather_forecast_samples@.take(0), enc_weather_forecast_sample_fn()));
    }
    for i in 0..56
        invariant
            v.weather_forecast_samples@.len() == 56,
            out@ == beforeweather_forecast_samples + enc_each(v.weather_forecast_samples@.take(i as int), enc_weather_forecast_sample_fn()),
    {
        encode_weather_forecast_sample_into(&v.weather_forecast_samples[i], out);
        proof {
            assert(v.weather_forecast_samples@.take(i as int + 1) =~= v.weather_forecast_samples@.take(i as int).push(
                v.weather_forecast_samples@[i as int],
            ));
            lemma_enc_each_push(v.weather_forecast_samples@.take(i as int), enc_weather_forecast_sample_fn(), v.weather_forecast_samples@[i as int]);
            assert(enc_weather_forecast_sample_fn()(v.weather_forecast_samples@[i as int]) == enc_weather_forecast_sample(v.weather_forecast_samples@[i as int]));
            assert(out@ =~= beforeweather_forecast_samples + enc_each(v.weather_forecast_samples@.take(i as int + 1), enc_weather_forecast_sample_fn()));
        }
    }
    proof {
        assert(v.weather_forecast_samples@.take(56) =~= v.weather_forecast_samples@);
    }
    write_u8(out, v.forecast_accuracy);
    write_u8(out, v.ai_difficulty);
    write_u32(out, v.season_link_identifier);
    write_u32(out, v.weekend_link_identifier);
    write_u32(out, v.session_link_identifier);
    write_u8(out, v.pit_stop_window_ideal_lap);
    write_u8(out, v.pit_stop_window_latest_lap);
    write_u8(out, v.pit_stop_rejoin_position);
    write_u8(out, v.steering_assist);
    write_u8(out, v.braking_assist);
    write_u8(out, v.gearbox_assist);
    write_u8(out, v.pit_assist);
    write_u8(out, v.pit_release_assist);
    write_u8(out, v.ers_assist);
    write_u8(out, v.drs_assist);
    write_u8(out, v.dynamic_racing_line);
    write_u8(out, v.dynamic_racing_line_type);
    write_u8(out, v.game_mode);
    write_u8(out, v.rule_set);
    write_u32(out, v.time_of_day);
    write_u8(out, v.session_length);
    write_u8(out, v.speed_units_lead_player);
    write_u8(out, v.temperature_units_lead_player);
    write_u8(out, v.speed_units_secondary_player);
    write_u8(out, v.temperature_units_secondary_player);
    write_u8(out, v.num_safety_car_periods);
    write_u8(out, v.num_virtual_safety_car_periods);
    write_u8(out, v.num_red_flag_periods);
    proof {
        assert(out@ =~= old(out)@ + enc_packet_session(*v));
    }
}

impl PacketSessionData {
    /// Decodes a packet of this kind from a datagram; fails with the
    /// short-buffer error exactly when fewer than 644 bytes are given.
    pub fn from_bytes(buf: &[u8]) -> (r: Result<PacketSessionData, PacketError>)
        ensures
            buf@.len() >= PACKET_SESSION_LEN ==> (r matches Ok(p) && enc_packet_session(p)
                == buf@.subrange(0, PACKET_SESSION_LEN as int)),
            buf@.len() < PACKET_SESSION_LEN ==> r == Err::<PacketSessionData, PacketError>(
                PacketError::ShortBuffer,
            ),
    {
        if buf.len() < PACKET_SESSION_LEN {
            return Err(PacketError::ShortBuffer);
        }
        let mut pos: usize = 0;
        let p = decode_packet_session_at(buf, &mut pos);
        Ok(p)
    }

    /// The full wire encoding of this packet.
    pub fn to_bytes(&self) -> (r: Vec<u8>)
        ensures
            r@ == enc_packet_session(*self),
    {
        let mut out: Vec<u8> = Vec::new();
        encode_packet_session_into(self, &mut out);
        proof {
            assert(Seq::<u8>::empty() + enc_packet_session(*self) =~= enc_packet_session(*self));
        }
        out
    }

    /// The packet's header.
    pub fn header(&self) -> (r: PacketHeader)
        ensures
            r == self.header,
    {
        self.header
    }

    /// The packet kind named by the header's packet-id byte.
    pub fn packet_id(&self) -> (r: Result<PacketID, PacketError>)
        ensures
            self.header.packet_id <= 13 ==> (r matches Ok(id) && packet_id_code(id)
                == self.header.packet_id),
            self.header.packet_id > 13 ==> r == Err::<PacketID, PacketError>(
                PacketError::InvalidPacketID(self.header.packet_id),
            ),
    {
        self.header.packet_id()
    }
}

} // verus!
