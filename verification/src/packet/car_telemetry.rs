//! Car telemetry packet.

use vstd::prelude::*;

use crate::bytes::{
    enc_each, le16, le16x4, le32, le32x4, le8, le_i8, lemma_bytes_injective, lemma_concat_split,
    lemma_enc_each_injective, lemma_enc_each_len, lemma_enc_each_push, lemma_le16_injective,
    lemma_le16x4_injective, lemma_le32_injective, lemma_le32x4_injective, lemma_le8_injective,
    lemma_le_i8_injective, lemma_subrange_adjacent, read_bytes, read_i8, read_u16, read_u16x4,
    read_u32, read_u32x4, read_u8, write_bytes, write_i8, write_u16, write_u16x4, write_u32,
    write_u32x4, write_u8,
};
use super::header::{
    decode_header_at, enc_header, encode_header_into, lemma_enc_header_injective, PacketHeader,
};
use super::{packet_id_code, PacketError, PacketID};

verus! {

/// Wire width in bytes.
pub const CAR_TELEMETRY_LEN: usize = 60;

/// Telemetry of one car.  Pedal positions and tyre pressures travel as
/// IEEE-754 bits.
#[derive(Debug, Clone, Copy, PartialEq, Eq)]
pub struct CarTelemetryData {
    /// Speed of the car in kilometres per hour.
    pub speed: u16,
    /// Throttle applied, 0.0 to 1.0, as IEEE-754 bits.
    pub throttle: u32,
    /// Steering, -1.0 full left to 1.0 full right, as IEEE-754 bits.
    pub steer: u32,
    /// Brake applied, 0.0 to 1.0, as IEEE-754 bits.
    pub brake: u32,
    /// Clutch applied, 0 to 100.
    pub clutch: u8,
    /// Gear selected: 1 to 8, 0 neutral, -1 reverse.
    pub gear: i8,
    /// Engine revolutions per minute.
    pub engine_rpm: u16,
    /// DRS state: 0 off, 1 on.
    pub drs: u8,
    /// Rev lights indicator, percentage.
    pub rev_lights_percent: u8,
    /// Rev lights bit value.
    pub rev_lights_bit_value: u16,
    /// Brake temperature per wheel in degrees Celsius.
    pub brakes_temperature: [u16; 4],
    /// Tyre surface temperature per wheel in degrees Celsius.
    pub tyres_surface_temperature: [u8; 4],
    /// Tyre inner temperature per wheel in degrees Celsius.
    pub tyres_inner_temperature: [u8; 4],
    /// Engine temperature in degrees Celsius.
    pub engine_temperature: u16,
    /// Tyre pressure per wheel in PSI, as IEEE-754 bits.
    pub tyres_pressure: [u32; 4],
    /// Driving surface per wheel.
    pub surface_type: [u8; 4],
}

/// Wire encoding.
pub open spec fn enc_car_telemetry(v: CarTelemetryData) -> Seq<u8> {
    le16(v.speed) + (le32(v.throttle) + (le32(v.steer) + (le32(v.brake) + (le8(v.clutch) + (le_i8(v.gear) + (le16(v.engine_rpm) + (le8(v.drs) + (le8(v.rev_lights_percent) + (le16(v.rev_lights_bit_value) + (le16x4(v.brakes_temperature) + (v.tyres_surface_temperature@ + (v.tyres_inner_temperature@ + (le16(v.engine_temperature) + (le32x4(v.tyres_pressure) + (v.surface_type@)))))))))))))))
}

/// The element encoding, as a function value.
pub open spec fn enc_car_telemetry_fn() -> spec_fn(CarTelemetryData) -> Seq<u8> {
    |v: CarTelemetryData| enc_car_telemetry(v)
}

/// The encoding is 60 bytes long.
pub proof fn lemma_enc_car_telemetry_len(v: CarTelemetryData)
    ensures
        enc_car_telemetry(v).len() == CAR_TELEMETRY_LEN,
{
}

/// An encoding determines the value: the round-trip guarantee.
pub proof fn lemma_enc_car_telemetry_injective(a: CarTelemetryData, b: CarTelemetryData)
    requires
        enc_car_telemetry(a) == enc_car_telemetry(b),
    ensures
        a == b,
{
    let ta15 = a.surface_type@;
    let tb15 = b.surface_type@;
    let ta14 = le32x4(a.tyres_pressure) + ta15;
    let tb14 = le32x4(b.tyres_pressure) + tb15;
    let ta13 = le16(a.engine_temperature) + ta14;
    let tb13 = le16(b.engine_temperature) + tb14;
    let ta12 = a.tyres_inner_temperature@ + ta13;
    let tb12 = b.tyres_inner_temperature@ + tb13;
    let ta11 = a.tyres_surface_temperature@ + ta12;
    let tb11 = b.tyres_surface_temperature@ + tb12;
    let ta10 = le16x4(a.brakes_temperature) + ta11;
    let tb10 = le16x4(b.brakes_temperature) + tb11;
    let ta9 = le16(a.rev_lights_bit_value) + ta10;
    let tb9 = le16(b.rev_lights_bit_value) + tb10;
    let ta8 = le8(a.rev_lights_percent) + ta9;
    let tb8 = le8(b.rev_lights_percent) + tb9;
    let ta7 = le8(a.drs) + ta8;
    let tb7 = le8(b.drs) + tb8;
    let ta6 = le16(a.engine_rpm) + ta7;
    let tb6 = le16(b.engine_rpm) + tb7;
    let ta5 = le_i8(a.gear) + ta6;
    let tb5 = le_i8(b.gear) + tb6;
    let ta4 = le8(a.clutch) + ta5;
    let tb4 = le8(b.clutch) + tb5;
    let ta3 = le32(a.brake) + ta4;
    let tb3 = le32(b.brake) + tb4;
    let ta2 = le32(a.steer) + ta3;
    let tb2 = le32(b.steer) + tb3;
    let ta1 = le32(a.throttle) + ta2;
    let tb1 = le32(b.throttle) + tb2;
    assert(le16(a.speed) + ta1 == enc_car_telemetry(a));
    assert(le16(b.speed) + tb1 == enc_car_telemetry(b));
    lemma_concat_split(le16(a.speed), ta1, le16(b.speed), tb1);
    lemma_le16_injective(a.speed, b.speed);
    lemma_concat_split(le32(a.throttle), ta2, le32(b.throttle), tb2);
    lemma_le32_injective(a.throttle, b.throttle);
    lemma_concat_split(le32(a.steer), ta3, le32(b.steer), tb3);
    lemma_le32_injective(a.steer, b.steer);
    lemma_concat_split(le32(a.brake), ta4, le32(b.brake), tb4);
    lemma_le32_injective(a.brake, b.brake);
    lemma_concat_split(le8(a.clutch), ta5, le8(b.clutch), tb5);
    lemma_le8_injective(a.clutch, b.clutch);
    lemma_concat_split(le_i8(a.gear), ta6, le_i8(b.gear), tb6);
    lemma_le_i8_injective(a.gear, b.gear);
    lemma_concat_split(le16(a.engine_rpm), ta7, le16(b.engine_rpm), tb7);
    lemma_le16_injective(a.engine_rpm, b.engine_rpm);
    lemma_concat_split(le8(a.drs), ta8, le8(b.drs), tb8);
    lemma_le8_injective(a.drs, b.drs);
    lemma_concat_split(le8(a.rev_lights_percent), ta9, le8(b.rev_lights_percent), tb9);
    lemma_le8_injective(a.rev_lights_percent, b.rev_lights_percent);
    lemma_concat_split(le16(a.rev_lights_bit_value), ta10, le16(b.rev_lights_bit_value), tb10);
    lemma_le16_injective(a.rev_lights_bit_value, b.rev_lights_bit_value);
    lemma_concat_split(le16x4(a.brakes_temperature), ta11, le16x4(b.brakes_temperature), tb11);
    lemma_le16x4_injective(a.brakes_temperature, b.brakes_temperature);
    lemma_concat_split(a.tyres_surface_temperature@, ta12, b.tyres_surface_temperature@, tb12);
    lemma_bytes_injective(a.tyres_surface_temperature, b.tyres_surface_temperature);
    lemma_concat_split(a.tyres_inner_temperature@, ta13, b.tyres_inner_temperature@, tb13);
    lemma_bytes_injective(a.tyres_inner_temperature, b.tyres_inner_temperature);
    lemma_concat_split(le16(a.engine_temperature), ta14, le16(b.engine_temperature), tb14);
    lemma_le16_injective(a.engine_temperature, b.engine_temperature);
    lemma_concat_split(le32x4(a.tyres_pressure), ta15, le32x4(b.tyres_pressure), tb15);
    lemma_le32x4_injective(a.tyres_pressure, b.tyres_pressure);
    lemma_bytes_injective(a.surface_type, b.surface_type);
}

impl CarTelemetryData {
    /// A record with every field zero.
    pub fn zeroed() -> (r: CarTelemetryData)
        ensures
            r.speed == 0,
            r.throttle == 0,
            r.steer == 0,
            r.brake == 0,
            r.clutch == 0,
            r.gear == 0,
            r.engine_rpm == 0,
            r.drs == 0,
            r.rev_lights_percent == 0,
            r.rev_lights_bit_value == 0,
            forall|i: int| 0 <= i < 4 ==> #[trigger] r.brakes_temperature@[i] == 0,
            forall|i: int| 0 <= i < 4 ==> #[trigger] r.tyres_surface_temperature@[i] == 0,
            forall|i: int| 0 <= i < 4 ==> #[trigger] r.tyres_inner_temperature@[i] == 0,
            r.engine_temperature == 0,
            forall|i: int| 0 <= i < 4 ==> #[trigger] r.tyres_pressure@[i] == 0,
            forall|i: int| 0 <= i < 4 ==> #[trigger] r.surface_type@[i] == 0,
    {
        CarTelemetryData {
            speed: 0,
            throttle: 0,
            steer: 0,
            brake: 0,
            clutch: 0,
            gear: 0,
            engine_rpm: 0,
            drs: 0,
            rev_lights_percent: 0,
            rev_lights_bit_value: 0,
            brakes_temperature: [0u16; 4],
            tyres_surface_temperature: [0u8; 4],
            tyres_inner_temperature: [0u8; 4],
            engine_temperature: 0,
            tyres_pressure: [0u32; 4],
            surface_type: [0u8; 4],
        }
    }
}

/// Decodes one record at the cursor.
fn decode_car_telemetry_at(buf: &[u8], pos: &mut usize) -> (r: CarTelemetryData)
    requires
        *old(pos) + CAR_TELEMETRY_LEN <= buf@.len(),
    ensures
        *final(pos) == *old(pos) + CAR_TELEMETRY_LEN,
        enc_car_telemetry(r) == buf@.subrange(*old(pos) as int, *final(pos) as int),
{
    let ghost start = *pos;
    let speed = read_u16(buf, pos);
    let throttle = read_u32(buf, pos);
    let steer = read_u32(buf, pos);
    let brake = read_u32(buf, pos);
    let clutch = read_u8(buf, pos);
    let gear = read_i8(buf, pos);
    let engine_rpm = read_u16(buf, pos);
    let drs = read_u8(buf, pos);
    let rev_lights_percent = read_u8(buf, pos);
    let rev_lights_bit_value = read_u16(buf, pos);
    let brakes_temperature = read_u16x4(buf, pos);
    let tyres_surface_temperature = read_bytes::<4>(buf, pos);
    let tyres_inner_temperature = read_bytes::<4>(buf, pos);
    let engine_temperature = read_u16(buf, pos);
    let tyres_pressure = read_u32x4(buf, pos);
    let surface_type = read_bytes::<4>(buf, pos);
    let r = CarTelemetryData {
        speed,
        throttle,
        steer,
        brake,
        clutch,
        gear,
        engine_rpm,
        drs,
        rev_lights_percent,
        rev_lights_bit_value,
        brakes_temperature,
        tyres_surface_temperature,
        tyres_inner_temperature,
        engine_temperature,
        tyres_pressure,
        surface_type,
    };
    proof {
        assert(enc_car_telemetry(r) =~= buf@.subrange(start as int, start as int + CAR_TELEMETRY_LEN as int));
    }
    r
}

/// Appends the wire encoding.
fn encode_car_telemetry_into(v: &CarTelemetryData, out: &mut Vec<u8>)
    ensures
        final(out)@ == old(out)@ + enc_car_telemetry(*v),
{
    write_u16(out, v.speed);
    write_u32(out, v.throttle);
    write_u32(out, v.steer);
    write_u32(out, v.brake);
    write_u8(out, v.clutch);
    write_i8(out, v.gear);
    write_u16(out, v.engine_rpm);
    write_u8(out, v.drs);
    write_u8(out, v.rev_lights_percent);
    write_u16(out, v.rev_lights_bit_value);
    write_u16x4(out, &v.brakes_temperature);
    write_bytes::<4>(out, &v.tyres_surface_temperature);
    write_bytes::<4>(out, &v.tyres_inner_temperature);
    write_u16(out, v.engine_temperature);
    write_u32x4(out, &v.tyres_pressure);
    write_bytes::<4>(out, &v.surface_type);
    proof {
        assert(out@ =~= old(out)@ + enc_car_telemetry(*v));
    }
}

/// Wire width in bytes.
pub const PACKET_CAR_TELEMETRY_LEN: usize = 1352;

/// Car telemetry packet: driving telemetry for every car.
#[derive(Debug, Clone, Copy, PartialEq, Eq)]
pub struct PacketCarTelemetryData {
    /// Packet header.
    pub header: PacketHeader,
    /// Telemetry data for all cars.
    pub car_telemetry_data: [CarTelemetryData; 22],
    /// Index of the open MFD panel; 255 closed.
    pub mfd_panel_index: u8,
    /// MFD panel index for the secondary player.
    pub mfd_panel_index_secondary_player: u8,
    /// Suggested gear, 1 to 8; 0 none.
    pub suggested_gear: i8,
}

/// Wire encoding.
pub open spec fn enc_packet_car_telemetry(v: PacketCarTelemetryData) -> Seq<u8> {
    enc_header(v.header) + (enc_each(v.car_telemetry_data@, enc_car_telemetry_fn()) + (le8(v.mfd_panel_index) + (le8(v.mfd_panel_index_secondary_player) + (le_i8(v.suggested_gear)))))
}

/// The encoding is 1352 bytes long.
pub proof fn lemma_enc_packet_car_telemetry_len(v: PacketCarTelemetryData)
    ensures
        enc_packet_car_telemetry(v).len() == PACKET_CAR_TELEMETRY_LEN,
{
    assert forall|x: CarTelemetryData| (#[trigger] enc_car_telemetry_fn()(x)).len() == CAR_TELEMETRY_LEN by {
        lemma_enc_car_telemetry_len(x);
    }
    lemma_enc_each_len(v.car_telemetry_data@, enc_car_telemetry_fn(), CAR_TELEMETRY_LEN as nat);
}

/// An encoding determines the value: the round-trip guarantee.
pub proof fn lemma_enc_packet_car_telemetry_injective(a: PacketCarTelemetryData, b: PacketCarTelemetryData)
    requires
        enc_packet_car_telemetry(a) == enc_packet_car_telemetry(b),
    ensures
        a == b,
{
    assert forall|x: CarTelemetryData| (#[trigger] enc_car_telemetry_fn()(x)).len() == CAR_TELEMETRY_LEN by {
        lemma_enc_car_telemetry_len(x);
    }
    lemma_enc_each_len(a.car_telemetry_data@, enc_car_telemetry_fn(), CAR_TELEMETRY_LEN as nat);
    lemma_enc_each_len(b.car_telemetry_data@, enc_car_telemetry_fn(), CAR_TELEMETRY_LEN as nat);
    let ta4 = le_i8(a.suggested_gear);
    let tb4 = le_i8(b.suggested_gear);
    let ta3 = le8(a.mfd_panel_index_secondary_player) + ta4;
    let tb3 = le8(b.mfd_panel_index_secondary_player) + tb4;
    let ta2 = le8(a.mfd_panel_index) + ta3;
    let tb2 = le8(b.mfd_panel_index) + tb3;
    let ta1 = enc_each(a.car_telemetry_data@, enc_car_telemetry_fn()) + ta2;
    let tb1 = enc_each(b.car_telemetry_data@, enc_car_telemetry_fn()) + tb2;
    assert(enc_header(a.header) + ta1 == enc_packet_car_telemetry(a));
    assert(enc_header(b.header) + tb1 == enc_packet_car_telemetry(b));
    lemma_concat_split(enc_header(a.header), ta1, enc_header(b.header), tb1);
    lemma_enc_header_injective(a.header, b.header);
    lemma_concat_split(enc_each(a.car_telemetry_data@, enc_car_telemetry_fn()), ta2, enc_each(b.car_telemetry_data@, enc_car_telemetry_fn()), tb2);
    assert forall|x: CarTelemetryData, y: CarTelemetryData|
        #[trigger] enc_car_telemetry_fn()(x) == #[trigger] enc_car_telemetry_fn()(y) implies x == y by {
        lemma_enc_car_telemetry_injective(x, y);
    }
    lemma_enc_each_injective(a.car_telemetry_data@, b.car_telemetry_data@, enc_car_telemetry_fn(), CAR_TELEMETRY_LEN as nat);
    assert(a.car_telemetry_data =~= b.car_telemetry_data);
    lemma_concat_split(le8(a.mfd_panel_index), ta3, le8(b.mfd_panel_index), tb3);
    lemma_le8_injective(a.mfd_panel_index, b.mfd_panel_index);
    lemma_concat_split(le8(a.mfd_panel_index_secondary_player), ta4, le8(b.mfd_panel_index_secondary_player), tb4);
    lemma_le8_injective(a.mfd_panel_index_secondary_player, b.mfd_panel_index_secondary_player);
    lemma_le_i8_injective(a.suggested_gear, b.suggested_gear);
}

/// Decodes the packet body at the cursor.
fn decode_packet_car_telemetry_at(buf: &[u8], pos: &mut usize) -> (r: PacketCarTelemetryData)
    requires
        *old(pos) + PACKET_CAR_TELEMETRY_LEN <= buf@.len(),
    ensures
        *final(pos) == *old(pos) + PACKET_CAR_TELEMETRY_LEN,
        enc_packet_car_telemetry(r) == buf@.subrange(*old(pos) as int, *final(pos) as int),
{
    let ghost start = *pos;
    let header = decode_header_at(buf, pos);
    let car_telemetry_data = decode_car_telemetry_array(buf, pos);
    let mfd_panel_index = read_u8(buf, pos);
    let mfd_panel_index_secondary_player = read_u8(buf, pos);
    let suggested_gear = read_i8(buf, pos);
    let r = PacketCarTelemetryData {
        header,
        car_telemetry_data,
        mfd_panel_index,
        mfd_panel_index_secondary_player,
        suggested_gear,
    };
    proof {
        assert(enc_packet_car_telemetry(r) =~= buf@.subrange(start as int, start as int + PACKET_CAR_TELEMETRY_LEN as int));
    }
    r
}

/// Decodes the 22-element array of records at the cursor.
fn decode_car_telemetry_array(buf: &[u8], pos: &mut usize) -> (r: [CarTelemetryData; 22])
    requires
        *old(pos) + 22 * CAR_TELEMETRY_LEN <= buf@.len(),
    ensures
        *final(pos) == *old(pos) + 22 * CAR_TELEMETRY_LEN,
        enc_each(r@, enc_car_telemetry_fn()) == buf@.subrange(*old(pos) as int, *final(pos) as int),
{
    let ghost start = *pos;
    let z = CarTelemetryData::zeroed();
    let mut arr = [z; 22];
    proof {
        assert(arr@.take(0) =~= Seq::<CarTelemetryData>::empty());
        assert(buf@.subrange(start as int, start as int) =~= Seq::<u8>::empty());
    }
    for i in 0..22
        invariant
            *pos == start + i * CAR_TELEMETRY_LEN,
            start + 22 * CAR_TELEMETRY_LEN <= buf@.len(),
            arr@.len() == 22,
            enc_each(arr@.take(i as int), enc_car_telemetry_fn()) == buf@.subrange(
                start as int,
                *pos as int,
            ),
    {
        let ghost prev = arr@;
        let ghost p0 = *pos;
        let v = decode_car_telemetry_at(buf, pos);
        arr[i] = v;
        proof {
            assert(arr@.take(i as int) =~= prev.take(i as int));
            assert(arr@.take(i as int + 1) =~= prev.take(i as int).push(v));
            lemma_enc_each_push(prev.take(i as int), enc_car_telemetry_fn(), v);
            assert(enc_car_telemetry_fn()(v) == enc_car_telemetry(v));
            lemma_subrange_adjacent(buf@, start as int, p0 as int, p0 as int + CAR_TELEMETRY_LEN as int);
        }
    }
    proof {
        assert(arr@.take(22) =~= arr@);
    }
    arr
}

/// Appends the wire encoding.
fn encode_packet_car_telemetry_into(v: &PacketCarTelemetryData, out: &mut Vec<u8>)
    ensures
        final(out)@ == old(out)@ + enc_packet_car_telemetry(*v),
{
    encode_header_into(&v.header, out);
    let ghost beforecar_telemetry_data = out@;
    proof {
        assert(v.car_telemetry_data@.take(0) =~= Seq::<CarTelemetryData>::empty());
        assert(out@ =~= beforecar_telemetry_data + enc_each(v.car_telemetry_data@.take(0), enc_car_telemetry_fn()));
    }
    for i in 0..22
        invariant
            v.car_telemetry_data@.len() == 22,
            out@ == beforecar_telemetry_data + enc_each(v.car_telemetry_data@.take(i as int), enc_car_telemetry_fn()),
    {
        encode_car_telemetry_into(&v.car_telemetry_data[i], out);
        proof {
            assert(v.car_telemetry_data@.take(i as int + 1) =~= v.car_telemetry_data@.take(i as int).push(
                v.car_telemetry_data@[i as int],
            ));
            lemma_enc_each_push(v.car_telemetry_data@.take(i as int), enc_car_telemetry_fn(), v.car_telemetry_data@[i as int]);
            assert(enc_car_telemetry_fn()(v.car_telemetry_data@[i as int]) == enc_car_telemetry(v.car_telemetry_data@[i as int]));
            assert(out@ =~= beforecar_telemetry_data + enc_each(v.car_telemetry_data@.take(i as int + 1), enc_car_telemetry_fn()));
        }
    }
    proof {
        assert(v.car_telemetry_data@.take(22) =~= v.car_telemetry_data@);
    }
    write_u8(out, v.mfd_panel_index);
    write_u8(out, v.mfd_panel_index_secondary_player);
    write_i8(out, v.suggested_gear);
    proof {
        assert(out@ =~= old(out)@ + enc_packet_car_telemetry(*v));
    }
}

impl PacketCarTelemetryData {
    /// Decodes a packet of this kind from a datagram; fails with the
    /// short-buffer error exactly when fewer than 1352 bytes are given.
    pub fn from_bytes(buf: &[u8]) -> (r: Result<PacketCarTelemetryData, PacketError>)
        ensures
            buf@.len() >= PACKET_CAR_TELEMETRY_LEN ==> (r matches Ok(p) && enc_packet_car_telemetry(p)
                == buf@.subrange(0, PACKET_CAR_TELEMETRY_LEN as int)),
            buf@.len() < PACKET_CAR_TELEMETRY_LEN ==> r == Err::<PacketCarTelemetryData, PacketError>(
                PacketError::ShortBuffer,
            ),
    {
        if buf.len() < PACKET_CAR_TELEMETRY_LEN {
            return Err(PacketError::ShortBuffer);
        }
        let mut pos: usize = 0;
        let p = decode_packet_car_telemetry_at(buf, &mut pos);
        Ok(p)
    }

    /// The full wire encoding of this packet.
    pub fn to_bytes(&self) -> (r: Vec<u8>)
        ensures
            r@ == enc_packet_car_telemetry(*self),
    {
        let mut out: Vec<u8> = Vec::new();
        encode_packet_car_telemetry_into(self, &mut out);
        proof {
            assert(Seq::<u8>::empty() + enc_packet_car_telemetry(*self) =~= enc_packet_car_telemetry(*self));
        }
        out
    }

    /// The packet's header.
    pub fn header(&self) -> (r: PacketHeader)
        ensures
            r == self.header,
    {
        self.header
    }

    /// The packet kind named by the header's packet-id byte.
    pub fn packet_id(&self) -> (r: Result<PacketID, PacketError>)
        ensures
            self.header.packet_id <= 13 ==> (r matches Ok(id) && packet_id_code(id)
                == self.header.packet_id),
            self.header.packet_id > 13 ==> r == Err::<PacketID, PacketError>(
                PacketError::InvalidPacketID(self.header.packet_id),
            ),
    {
        self.header.packet_id()
    }
}

} // verus!
