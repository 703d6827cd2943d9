//! Car status packet.

use vstd::prelude::*;

use crate::bytes::{
    enc_each, le16, le32, le8, le_i8, lemma_concat_split, lemma_enc_each_injective,
    lemma_enc_each_len, lemma_enc_each_push, lemma_le16_injective, lemma_le32_injective,
    lemma_le8_injective, lemma_le_i8_injective, lemma_subrange_adjacent, read_i8, read_u16,
    read_u32, read_u8, write_i8, write_u16, write_u32, write_u8,
};
use super::header::{
    decode_header_at, enc_header, encode_header_into, lemma_enc_header_injective, PacketHeader,
};
use super::{packet_id_code, PacketError, PacketID};

verus! {

/// Wire width in bytes.
pub const CAR_STATUS_LEN: usize = 55;

/// Status of one car: fuel, ERS, tyres and the two traction assists that
/// feed the assists mask.  Energies and masses travel as IEEE-754 bits.
#[derive(Debug, Clone, Copy, PartialEq, Eq)]
pub struct CarStatusData {
    /// Traction control level: 0 off, 1 medium, 2 full.
    pub traction_control: u8,
    /// Anti-lock brakes: 0 off, 1 on.
    pub anti_lock_brakes: u8,
    /// Fuel mix: 0 lean, 1 standard, 2 rich, 3 max.
    pub fuel_mix: u8,
    /// Front brake bias, percentage.
    pub front_brake_bias: u8,
    /// Pit limiter: 0 off, 1 on.
    pub pit_limiter_status: u8,
    /// Current fuel mass, as IEEE-754 bits.
    pub fuel_in_tank: u32,
    /// Fuel capacity, as IEEE-754 bits.
    pub fuel_capacity: u32,
    /// Fuel remaining in laps, as IEEE-754 bits.
    pub fuel_remaining_laps: u32,
    /// Rev limiter point.
    pub max_rpm: u16,
    /// Idle revolutions per minute.
    pub idle_rpm: u16,
    /// Maximum number of gears.
    pub max_gears: u8,
    /// Whether DRS is allowed: 0 no, 1 yes.
    pub drs_allowed: u8,
    /// DRS activation distance in metres; 0 unavailable.
    pub drs_activation_distance: u16,
    /// Actual tyre compound.
    pub actual_tyre_compound: u8,
    /// Visual tyre compound.
    pub visual_tyre_compound: u8,
    /// Age of the current tyres in laps.
    pub tyres_age_laps: u8,
    /// Flags shown to the car: -1 invalid, 0 none, 1 green, 2 blue, 3 yellow.
    pub vehicle_fia_flags: i8,
    /// Engine power of the combustion engine in watts, as IEEE-754 bits.
    pub engine_power_ice: u32,
    /// Engine power of the MGU-K in watts, as IEEE-754 bits.
    pub engine_power_mgu_k: u32,
    /// ERS energy store in joules, as IEEE-754 bits.
    pub ers_store_energy: u32,
    /// ERS deployment mode: 0 none, 1 medium, 2 hotlap, 3 overtake.
    pub ers_deploy_mode: u8,
    /// ERS harvested this lap by the MGU-K, as IEEE-754 bits.
    pub ers_harvested_this_lap_mgu_k: u32,
    /// ERS harvested this lap by the MGU-H, as IEEE-754 bits.
    pub ers_harvested_this_lap_mgu_h: u32,
    /// ERS deployed this lap, as IEEE-754 bits.
    pub ers_deployed_this_lap: u32,
    /// Whether the car is paused in a network game.
    pub network_paused: u8,
}

/// Wire encoding.
pub open spec fn enc_car_status(v: CarStatusData) -> Seq<u8> {
    le8(v.traction_control) + (le8(v.anti_lock_brakes) + (le8(v.fuel_mix) + (le8(v.front_brake_bias) + (le8(v.pit_limiter_status) + (le32(v.fuel_in_tank) + (le32(v.fuel_capacity) + (le32(v.fuel_remaining_laps) + (le16(v.max_rpm) + (le16(v.idle_rpm) + (le8(v.max_gears) + (le8(v.drs_allowed) + (le16(v.drs_activation_distance) + (le8(v.actual_tyre_compound) + (le8(v.visual_tyre_compound) + (le8(v.tyres_age_laps) + (le_i8(v.vehicle_fia_flags) + (le32(v.engine_power_ice) + (le32(v.engine_power_mgu_k) + (le32(v.ers_store_energy) + (le8(v.ers_deploy_mode) + (le32(v.ers_harvested_this_lap_mgu_k) + (le32(v.ers_harvested_this_lap_mgu_h) + (le32(v.ers_deployed_this_lap) + (le8(v.network_paused)))))))))))))))))))))))))
}

/// The element encoding, as a function value.
pub open spec fn enc_car_status_fn() -> spec_fn(CarStatusData) -> Seq<u8> {
    |v: CarStatusData| enc_car_status(v)
}

/// The encoding is 55 bytes long.
pub proof fn lemma_enc_car_status_len(v: CarStatusData)
    ensures
        enc_car_status(v).len() == CAR_STATUS_LEN,
{
}

/// An encoding determines the value: the round-trip guarantee.
pub proof fn lemma_enc_car_status_injective(a: CarStatusData, b: CarStatusData)
    requires
        enc_car_status(a) == enc_car_status(b),
    ensures
        a == b,
{
    let ta24 = le8(a.network_paused);
    let tb24 = le8(b.network_paused);
    let ta23 = le32(a.ers_deployed_this_lap) + ta24;
    let tb23 = le32(b.ers_deployed_this_lap) + tb24;
    let ta22 = le32(a.ers_harvested_this_lap_mgu_h) + ta23;
    let tb22 = le32(b.ers_harvested_this_lap_mgu_h) + tb23;
    let ta21 = le32(a.ers_harvested_this_lap_mgu_k) + ta22;
    let tb21 = le32(b.ers_harvested_this_lap_mgu_k) + tb22;
    let ta20 = le8(a.ers_deploy_mode) + ta21;
    let tb20 = le8(b.ers_deploy_mode) + tb21;
    let ta19 = le32(a.ers_store_energy) + ta20;
    let tb19 = le32(b.ers_store_energy) + tb20;
    let ta18 = le32(a.engine_power_mgu_k) + ta19;
    let tb18 = le32(b.engine_power_mgu_k) + tb19;
    let ta17 = le32(a.engine_power_ice) + ta18;
    let tb17 = le32(b.engine_power_ice) + tb18;
    let ta16 = le_i8(a.vehicle_fia_flags) + ta17;
    let tb16 = le_i8(b.vehicle_fia_flags) + tb17;
    let ta15 = le8(a.tyres_age_laps) + ta16;
    let tb15 = le8(b.tyres_age_laps) + tb16;
    let ta14 = le8(a.visual_tyre_compound) + ta15;
    let tb14 = le8(b.visual_tyre_compound) + tb15;
    let ta13 = le8(a.actual_tyre_compound) + ta14;
    let tb13 = le8(b.actual_tyre_compound) + tb14;
    let ta12 = le16(a.drs_activation_distance) + ta13;
    let tb12 = le16(b.drs_activation_distance) + tb13;
    let ta11 = le8(a.drs_allowed) + ta12;
    let tb11 = le8(b.drs_allowed) + tb12;
    let ta10 = le8(a.max_gears) + ta11;
    let tb10 = le8(b.max_gears) + tb11;
    let ta9 = le16(a.idle_rpm) + ta10;
    let tb9 = le16(b.idle_rpm) + tb10;
    let ta8 = le16(a.max_rpm) + ta9;
    let tb8 = le16(b.max_rpm) + tb9;
    let ta7 = le32(a.fuel_remaining_laps) + ta8;
    let tb7 = le32(b.fuel_remaining_laps) + tb8;
    let ta6 = le32(a.fuel_capacity) + ta7;
    let tb6 = le32(b.fuel_capacity) + tb7;
    let ta5 = le32(a.fuel_in_tank) + ta6;
    let tb5 = le32(b.fuel_in_tank) + tb6;
    let ta4 = le8(a.pit_limiter_status) + ta5;
    let tb4 = le8(b.pit_limiter_status) + tb5;
    let ta3 = le8(a.front_brake_bias) + ta4;
    let tb3 = le8(b.front_brake_bias) + tb4;
    let ta2 = le8(a.fuel_mix) + ta3;
    let tb2 = le8(b.fuel_mix) + tb3;
    let ta1 = le8(a.anti_lock_brakes) + ta2;
    let tb1 = le8(b.anti_lock_brakes) + tb2;
    assert(le8(a.traction_control) + ta1 == enc_car_status(a));
    assert(le8(b.traction_control) + tb1 == enc_car_status(b));
    lemma_concat_split(le8(a.traction_control), ta1, le8(b.traction_control), tb1);
    lemma_le8_injective(a.traction_control, b.traction_control);
    lemma_concat_split(le8(a.anti_lock_brakes), ta2, le8(b.anti_lock_brakes), tb2);
    lemma_le8_injective(a.anti_lock_brakes, b.anti_lock_brakes);
    lemma_concat_split(le8(a.fuel_mix), ta3, le8(b.fuel_mix), tb3);
    lemma_le8_injective(a.fuel_mix, b.fuel_mix);
    lemma_concat_split(le8(a.front_brake_bias), ta4, le8(b.front_brake_bias), tb4);
    lemma_le8_injective(a.front_brake_bias, b.front_brake_bias);
    lemma_concat_split(le8(a.pit_limiter_status), ta5, le8(b.pit_limiter_status), tb5);
    lemma_le8_injective(a.pit_limiter_status, b.pit_limiter_status);
    lemma_concat_split(le32(a.fuel_in_tank), ta6, le32(b.fuel_in_tank), tb6);
    lemma_le32_injective(a.fuel_in_tank, b.fuel_in_tank);
    lemma_concat_split(le32(a.fuel_capacity), ta7, le32(b.fuel_capacity), tb7);
    lemma_le32_injective(a.fuel_capacity, b.fuel_capacity);
    lemma_concat_split(le32(a.fuel_remaining_laps), ta8, le32(b.fuel_remaining_laps), tb8);
    lemma_le32_injective(a.fuel_remaining_laps, b.fuel_remaining_laps);
    lemma_concat_split(le16(a.max_rpm), ta9, le16(b.max_rpm), tb9);
    lemma_le16_injective(a.max_rpm, b.max_rpm);
    lemma_concat_split(le16(a.idle_rpm), ta10, le16(b.idle_rpm), tb10);
    lemma_le16_injective(a.idle_rpm, b.idle_rpm);
    lemma_concat_split(le8(a.max_gears), ta11, le8(b.max_gears), tb11);
    lemma_le8_injective(a.max_gears, b.max_gears);
    lemma_concat_split(le8(a.drs_allowed), ta12, le8(b.drs_allowed), tb12);
    lemma_le8_injective(a.drs_allowed, b.drs_allowed);
    lemma_concat_split(le16(a.drs_activation_distance), ta13, le16(b.drs_activation_distance), tb13);
    lemma_le16_injective(a.drs_activation_distance, b.drs_activation_distance);
    lemma_concat_split(le8(a.actual_tyre_compound), ta14, le8(b.actual_tyre_compound), tb14);
    lemma_le8_injective(a.actual_tyre_compound, b.actual_tyre_compound);
    lemma_concat_split(le8(a.visual_tyre_compound), ta15, le8(b.visual_tyre_compound), tb15);
    lemma_le8_injective(a.visual_tyre_compound, b.visual_tyre_compound);
    lemma_concat_split(le8(a.tyres_age_laps), ta16, le8(b.tyres_age_laps), tb16);
    lemma_le8_injective(a.tyres_age_laps, b.tyres_age_laps);
    lemma_concat_split(le_i8(a.vehicle_fia_flags), ta17, le_i8(b.vehicle_fia_flags), tb17);
    lemma_le_i8_injective(a.vehicle_fia_flags, b.vehicle_fia_flags);
    lemma_concat_split(le32(a.engine_power_ice), ta18, le32(b.engine_power_ice), tb18);
    lemma_le32_injective(a.engine_power_ice, b.engine_power_ice);
    lemma_concat_split(le32(a.engine_power_mgu_k), ta19, le32(b.engine_power_mgu_k), tb19);
    lemma_le32_injective(a.engine_power_mgu_k, b.engine_power_mgu_k);
    lemma_concat_split(le32(a.ers_store_energy), ta20, le32(b.ers_store_energy), tb20);
    lemma_le32_injective(a.ers_store_energy, b.ers_store_energy);
    lemma_concat_split(le8(a.ers_deploy_mode), ta21, le8(b.ers_deploy_mode), tb21);
    lemma_le8_injective(a.ers_deploy_mode, b.ers_deploy_mode);
    lemma_concat_split(le32(a.ers_harvested_this_lap_mgu_k), ta22, le32(b.ers_harvested_this_lap_mgu_k), tb22);
    lemma_le32_injective(a.ers_harvested_this_lap_mgu_k, b.ers_harvested_this_lap_mgu_k);
    lemma_concat_split(le32(a.ers_harvested_this_lap_mgu_h), ta23, le32(b.ers_harvested_this_lap_mgu_h), tb23);
    lemma_le32_injective(a.ers_harvested_this_lap_mgu_h, b.ers_harvested_this_lap_mgu_h);
    lemma_concat_split(le32(a.ers_deployed_this_lap), ta24, le32(b.ers_deployed_this_lap), tb24);
    lemma_le32_injective(a.ers_deployed_this_lap, b.ers_deployed_this_lap);
    lemma_le8_injective(a.network_paused, b.network_paused);
}

impl CarStatusData {
    /// A record with every field zero.
    pub fn zeroed() -> (r: CarStatusData)
        ensures
            r == (CarStatusData {
                    traction_control: 0,
                    anti_lock_brakes: 0,
                    fuel_mix: 0,
                    front_brake_bias: 0,
                    pit_limiter_status: 0,
                    fuel_in_tank: 0,
                    fuel_capacity: 0,
                    fuel_remaining_laps: 0,
                    max_rpm: 0,
                    idle_rpm: 0,
                    max_gears: 0,
                    drs_allowed: 0,
                    drs_activation_distance: 0,
                    actual_tyre_compound: 0,
                    visual_tyre_compound: 0,
                    tyres_age_laps: 0,
                    vehicle_fia_flags: 0,
                    engine_power_ice: 0,
                    engine_power_mgu_k: 0,
                    ers_store_energy: 0,
                    ers_deploy_mode: 0,
                    ers_harvested_this_lap_mgu_k: 0,
                    ers_harvested_this_lap_mgu_h: 0,
                    ers_deployed_this_lap: 0,
                    network_paused: 0,
            }),
    {
        CarStatusData {
            traction_control: 0,
            anti_lock_brakes: 0,
            fuel_mix: 0,
            front_brake_bias: 0,
            pit_limiter_status: 0,
            fuel_in_tank: 0,
            fuel_capacity: 0,
            fuel_remaining_laps: 0,
            max_rpm: 0,
            idle_rpm: 0,
            max_gears: 0,
            drs_allowed: 0,
            drs_activation_distance: 0,
            actual_tyre_compound: 0,
            visual_tyre_compound: 0,
            tyres_age_laps: 0,
            vehicle_fia_flags: 0,
            engine_power_ice: 0,
            engine_power_mgu_k: 0,
            ers_store_energy: 0,
            ers_deploy_mode: 0,
            ers_harvested_this_lap_mgu_k: 0,
            ers_harvested_this_lap_mgu_h: 0,
            ers_deployed_this_lap: 0,
            network_paused: 0,
        }
    }
}

/// Decodes one record at the cursor.
#[verifier::rlimit(100)]
fn decode_car_status_at(buf: &[u8], pos: &mut usize) -> (r: CarStatusData)
    requires
        *old(pos) + CAR_STATUS_LEN <= buf@.len(),
    ensures
        *final(pos) == *old(pos) + CAR_STATUS_LEN,
        enc_car_status(r) == buf@.subrange(*old(pos) as int, *final(pos) as int),
{
    let ghost start = *pos;
    let traction_control = read_u8(buf, pos);
    let anti_lock_brakes = read_u8(buf, pos);
    let fuel_mix = read_u8(buf, pos);
    let front_brake_bias = read_u8(buf, pos);
    let pit_limiter_status = read_u8(buf, pos);
    let fuel_in_tank = read_u32(buf, pos);
    let fuel_capacity = read_u32(buf, pos);
    let fuel_remaining_laps = read_u32(buf, pos);
    let max_rpm = read_u16(buf, pos);
    let idle_rpm = read_u16(buf, pos);
    let max_gears = read_u8(buf, pos);
    let drs_allowed = read_u8(buf, pos);
    let drs_activation_distance = read_u16(buf, pos);
    let actual_tyre_compound = read_u8(buf, pos);
    let visual_tyre_compound = read_u8(buf, pos);
    let tyres_age_laps = read_u8(buf, pos);
    let vehicle_fia_flags = read_i8(buf, pos);
    let engine_power_ice = read_u32(buf, pos);
    let engine_power_mgu_k = read_u32(buf, pos);
    let ers_store_energy = read_u32(buf, pos);
    let ers_deploy_mode = read_u8(buf, pos);
    let ers_harvested_this_lap_mgu_k = read_u32(buf, pos);
    let ers_harvested_this_lap_mgu_h = read_u32(buf, pos);
    let ers_deployed_this_lap = read_u32(buf, pos);
    let network_paused = read_u8(buf, pos);
    let r = CarStatusData {
        traction_control,
        anti_lock_brakes,
        fuel_mix,
        front_brake_bias,
        pit_limiter_status,
        fuel_in_tank,
        fuel_capacity,
        fuel_remaining_laps,
        max_rpm,
        idle_rpm,
        max_gears,
        drs_allowed,
        drs_activation_distance,
        actual_tyre_compound,
        visual_tyre_compound,
        tyres_age_laps,
        vehicle_fia_flags,
        engine_power_ice,
        engine_power_mgu_k,
        ers_store_energy,
        ers_deploy_mode,
        ers_harvested_this_lap_mgu_k,
        ers_harvested_this_lap_mgu_h,
        ers_deployed_this_lap,
        network_paused,
    };
    proof {
        assert(enc_car_status(r) =~= buf@.subrange(start as int, start as int + CAR_STATUS_LEN as int));
    }
    r
}

/// Appends the wire encoding.
#[verifier::rlimit(100)]
fn encode_car_status_into(v: &CarStatusData, out: &mut Vec<u8>)
    ensures
        final(out)@ == old(out)@ + enc_car_status(*v),
{
    write_u8(out, v.traction_control);
    write_u8(out, v.anti_lock_brakes);
    write_u8(out, v.fuel_mix);
    write_u8(out, v.front_brake_bias);
    write_u8(out, v.pit_limiter_status);
    write_u32(out, v.fuel_in_tank);
    write_u32(out, v.fuel_capacity);
    write_u32(out, v.fuel_remaining_laps);
    write_u16(out, v.max_rpm);
    write_u16(out, v.idle_rpm);
    write_u8(out, v.max_gears);
    write_u8(out, v.drs_allowed);
    write_u16(out, v.drs_activation_distance);
    write_u8(out, v.actual_tyre_compound);
    write_u8(out, v.visual_tyre_compound);
    write_u8(out, v.tyres_age_laps);
    write_i8(out, v.vehicle_fia_flags);
    write_u32(out, v.engine_power_ice);
    write_u32(out, v.engine_power_mgu_k);
    write_u32(out, v.ers_store_energy);
    write_u8(out, v.ers_deploy_mode);
    write_u32(out, v.ers_harvested_this_lap_mgu_k);
    write_u32(out, v.ers_harvested_this_lap_mgu_h);
    write_u32(out, v.ers_deployed_this_lap);
    write_u8(out, v.network_paused);
    proof {
        assert(out@ =~= old(out)@ + enc_car_status(*v));
    }
}

/// Wire width in bytes.
pub const PACKET_CAR_STATUS_LEN: usize = 1239;

/// Car status packet: the status of every car in the race.
#[derive(Debug, Clone, Copy, PartialEq, Eq)]
pub struct PacketCarStatusData {
    /// Packet header.
    pub header: PacketHeader,
    /// Status data for all cars.
    pub car_status_data: [CarStatusData; 22],
}

/// Wire encoding.
pub open spec fn enc_packet_car_status(v: PacketCarStatusData) -> Seq<u8> {
    enc_header(v.header) + (enc_each(v.car_status_data@, enc_car_status_fn()))
}

/// The encoding is 1239 bytes long.
pub proof fn lemma_enc_packet_car_status_len(v: PacketCarStatusData)
    ensures
        enc_packet_car_status(v).len() == PACKET_CAR_STATUS_LEN,
{
    assert forall|x: CarStatusData| (#[trigger] enc_car_status_fn()(x)).len() == CAR_STATUS_LEN by {
        lemma_enc_car_status_len(x);
    }
    lemma_enc_each_len(v.car_status_data@, enc_car_status_fn(), CAR_STATUS_LEN as nat);
}

/// An encoding determines the value: the round-trip guarantee.
pub proof fn lemma_enc_packet_car_status_injective(a: PacketCarStatusData, b: PacketCarStatusData)
    requires
        enc_packet_car_status(a) == enc_packet_car_status(b),
    ensures
        a == b,
{
    assert forall|x: CarStatusData| (#[trigger] enc_car_status_fn()(x)).len() == CAR_STATUS_LEN by {
        lemma_enc_car_status_len(x);
    }
    lemma_enc_each_len(a.car_status_data@, enc_car_status_fn(), CAR_STATUS_LEN as nat);
    lemma_enc_each_len(b.car_status_data@, enc_car_status_fn(), CAR_STATUS_LEN as nat);
    let ta1 = enc_each(a.car_status_data@, enc_car_status_fn());
    let tb1 = enc_each(b.car_status_data@, enc_car_status_fn());
    assert(enc_header(a.header) + ta1 == enc_packet_car_status(a));
    assert(enc_header(b.header) + tb1 == enc_packet_car_status(b));
    lemma_concat_split(enc_header(a.header), ta1, enc_header(b.header), tb1);
    lemma_enc_header_injective(a.header, b.header);
    assert forall|x: CarStatusData, y: CarStatusData|
        #[trigger] enc_car_status_fn()(x) == #[trigger] enc_car_status_fn()(y) implies x == y by {
        lemma_enc_car_status_injective(x, y);
    }
    lemma_enc_each_injective(a.car_status_data@, b.car_status_data@, enc_car_status_fn(), CAR_STATUS_LEN as nat);
    assert(a.car_status_data =~= b.car_status_data);
}

/// Decodes the packet body at the cursor.
fn decode_packet_car_status_at(buf: &[u8], pos: &mut usize) -> (r: PacketCarStatusData)
    requires
        *old(pos) + PACKET_CAR_STATUS_LEN <= buf@.len(),
    ensures
        *final(pos) == *old(pos) + PACKET_CAR_STATUS_LEN,
        enc_packet_car_status(r) == buf@.subrange(*old(pos) as int, *final(pos) as int),
{
    let ghost start = *pos;
    let header = decode_header_at(buf, pos);
    let car_status_data = decode_car_status_array(buf, pos);
    let r = PacketCarStatusData {
        header,
        car_status_data,
    };
    proof {
        assert(enc_packet_car_status(r) =~= buf@.subrange(start as int, start as int + PACKET_CAR_STATUS_LEN as int));
    }
    r
}

/// Decodes the 22-element array of records at the cursor.
fn decode_car_status_array(buf: &[u8], pos: &mut usize) -> (r: [CarStatusData; 22])
    requires
        *old(pos) + 22 * CAR_STATUS_LEN <= buf@.len(),
    ensures
        *final(pos) == *old(pos) + 22 * CAR_STATUS_LEN,
        enc_each(r@, enc_car_status_fn()) == buf@.subrange(*old(pos) as int, *final(pos) as int),
{
    let ghost start = *pos;
    let z = CarStatusData::zeroed();
    let mut arr = [z; 22];
    proof {
        assert(arr@.take(0) =~= Seq::<CarStatusData>::empty());
        assert(buf@.subrange(start as int, start as int) =~= Seq::<u8>::empty());
    }
    for i in 0..22
        invariant
            *pos == start + i * CAR_STATUS_LEN,
            start + 22 * CAR_STATUS_LEN <= buf@.len(),
            arr@.len() == 22,
            enc_each(arr@.take(i as int), enc_car_status_fn()) == buf@.subrange(
                start as int,
                *pos as int,
            ),
    {
        let ghost prev = arr@;
        let ghost p0 = *pos;
        let v = decode_car_status_at(buf, pos);
        arr[i] = v;
        proof {
            assert(arr@.take(i as int) =~= prev.take(i as int));
            assert(arr@.take(i as int + 1) =~= prev.take(i as int).push(v));
            lemma_enc_each_push(prev.take(i as int), enc_car_status_fn(), v);
            assert(enc_car_status_fn()(v) == enc_car_status(v));
            lemma_subrange_adjacent(buf@, start as int, p0 as int, p0 as int + CAR_STATUS_LEN as int);
        }
    }
    proof {
        assert(arr@.take(22) =~= arr@);
    }
    arr
}

/// Appends the wire encoding.
fn encode_packet_car_status_into(v: &PacketCarStatusData, out: &mut Vec<u8>)
    ensures
        final(out)@ == old(out)@ + enc_packet_car_status(*v),
{
    encode_header_into(&v.header, out);
    let ghost beforecar_status_data = out@;
    proof {
        assert(v.car_status_data@.take(0) =~= Seq::<CarStatusData>::empty());
        assert(out@ =~= beforecar_status_data + enc_each(v.car_status_data@.take(0), enc_car_status_fn()));
    }
    for i in 0..22
        invariant
            v.car_status_data@.len() == 22,
            out@ == beforecar_status_data + enc_each(v.car_status_data@.take(i as int), enc_car_status_fn()),
    {
        encode_car_status_into(&v.car_status_data[i], out);
        proof {
            assert(v.car_status_data@.take(i as int + 1) =~= v.car_status_data@.take(i as int).push(
                v.car_status_data@[i as int],
            ));
            lemma_enc_each_push(v.car_status_data@.take(i as int), enc_car_status_fn(), v.car_status_data@[i as int]);
            assert(enc_car_status_fn()(v.car_status_data@[i as int]) == enc_car_status(v.car_status_data@[i as int]));
            assert(out@ =~= beforecar_status_data + enc_each(v.car_status_data@.take(i as int + 1), enc_car_status_fn()));
        }
    }
    proof {
        assert(v.car_status_data@.take(22) =~= v.car_status_data@);
    }
    proof {
        assert(out@ =~= old(out)@ + enc_packet_car_status(*v));
    }
}

impl PacketCarStatusData {
    /// Decodes a packet of this kind from a datagram; fails with the
    /// short-buffer error exactly when fewer than 1239 bytes are given.
    pub fn from_bytes(buf: &[u8]) -> (r: Result<PacketCarStatusData, PacketError>)
        ensures
            buf@.len() >= PACKET_CAR_STATUS_LEN ==> (r matches Ok(p) && enc_packet_car_status(p)
                == buf@.subrange(0, PACKET_CAR_STATUS_LEN as int)),
            buf@.len() < PACKET_CAR_STATUS_LEN ==> r == Err::<PacketCarStatusData, PacketError>(
                PacketError::ShortBuffer,
            ),
    {
        if buf.len() < PACKET_CAR_STATUS_LEN {
            return Err(PacketError::ShortBuffer);
        }
        let mut pos: usize = 0;
        let p = decode_packet_car_status_at(buf, &mut pos);
        Ok(p)
    }

    /// The full wire encoding of this packet.
    pub fn to_bytes(&self) -> (r: Vec<u8>)
        ensures
            r@ == enc_packet_car_status(*self),
    {
        let mut out: Vec<u8> = Vec::new();
        encode_packet_car_status_into(self, &mut out);
        proof {
            assert(Seq::<u8>::empty() + enc_packet_car_status(*self) =~= enc_packet_car_status(*self));
        }
        out
    }

    /// The packet's header.
    pub fn header(&self) -> (r: PacketHeader)
        ensures
            r == self.header,
    {
        self.header
    }

    /// The packet kind named by the header's packet-id byte.
    pub fn packet_id(&self) -> (r: Result<PacketID, PacketError>)
        ensures
            self.header.packet_id <= 13 ==> (r matches Ok(id) && packet_id_code(id)
                == self.header.packet_id),
            self.header.packet_id > 13 ==> r == Err::<PacketID, PacketError>(
                PacketError::InvalidPacketID(self.header.packet_id),
            ),
    {
        self.header.packet_id()
    }
}

} // verus!
