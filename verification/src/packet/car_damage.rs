//! Car damage packet.

use vstd::prelude::*;

use crate::bytes::{
    enc_each, le32x4, le8, lemma_bytes_injective, lemma_concat_split, lemma_enc_each_injective,
    lemma_enc_each_len, lemma_enc_each_push, lemma_le32x4_injective, lemma_le8_injective,
    lemma_subrange_adjacent, read_bytes, read_u32x4, read_u8, write_bytes, write_u32x4, write_u8,
};
use super::header::{
    decode_header_at, enc_header, encode_header_into, lemma_enc_header_injective, PacketHeader,
};
use super::{packet_id_code, PacketError, PacketID};

verus! {

/// Wire width in bytes.
pub const CAR_DAMAGE_LEN: usize = 42;

/// Damage state of one car.  Percentages travel as bytes; tyre wear
/// travels as four IEEE-754 bit patterns, held here unconverted.
#[derive(Debug, Clone, Copy, PartialEq, Eq)]
pub struct CarDamageData {
    /// Tyre wear percentage per wheel, as IEEE-754 bits.
    pub tyres_wear: [u32; 4],
    /// Tyre damage percentage per wheel.
    pub tyres_damage: [u8; 4],
    /// Brake damage percentage per wheel.
    pub brakes_damage: [u8; 4],
    /// Front left wing damage percentage.
    pub front_left_wing_damage: u8,
    /// Front right wing damage percentage.
    pub front_right_wing_damage: u8,
    /// Rear wing damage percentage.
    pub rear_wing_damage: u8,
    /// Floor damage percentage.
    pub floor_damage: u8,
    /// Diffuser damage percentage.
    pub diffuser_damage: u8,
    /// Sidepod damage percentage.
    pub sidepod_damage: u8,
    /// DRS fault indicator.
    pub drs_fault: u8,
    /// ERS fault indicator.
    pub ers_fault: u8,
    /// Gearbox damage percentage.
    pub gear_box_damage: u8,
    /// Engine damage percentage.
    pub engine_damage: u8,
    /// MGU-H wear percentage.
    pub engine_mgu_h_wear: u8,
    /// Energy store wear percentage.
    pub engine_es_wear: u8,
    /// Control electronics wear percentage.
    pub engine_ce_wear: u8,
    /// Combustion engine wear percentage.
    pub engine_ice_wear: u8,
    /// MGU-K wear percentage.
    pub engine_mgu_k_wear: u8,
    /// Turbocharger wear percentage.
    pub engine_tc_wear: u8,
    /// Engine blown indicator.
    pub engine_blown: u8,
    /// Engine seized indicator.
    pub engine_seized: u8,
}

/// Wire encoding.
pub open spec fn enc_car_damage(v: CarDamageData) -> Seq<u8> {
    le32x4(v.tyres_wear) + (v.tyres_damage@ + (v.brakes_damage@ + (le8(v.front_left_wing_damage) + (le8(v.front_right_wing_damage) + (le8(v.rear_wing_damage) + (le8(v.floor_damage) + (le8(v.diffuser_damage) + (le8(v.sidepod_damage) + (le8(v.drs_fault) + (le8(v.ers_fault) + (le8(v.gear_box_damage) + (le8(v.engine_damage) + (le8(v.engine_mgu_h_wear) + (le8(v.engine_es_wear) + (le8(v.engine_ce_wear) + (le8(v.engine_ice_wear) + (le8(v.engine_mgu_k_wear) + (le8(v.engine_tc_wear) + (le8(v.engine_blown) + (le8(v.engine_seized)))))))))))))))))))))
}

/// The element encoding, as a function value.
pub open spec fn enc_car_damage_fn() -> spec_fn(CarDamageData) -> Seq<u8> {
    |v: CarDamageData| enc_car_damage(v)
}

/// The encoding is 42 bytes long.
pub proof fn lemma_enc_car_damage_len(v: CarDamageData)
    ensures
        enc_car_damage(v).len() == CAR_DAMAGE_LEN,
{
}

/// An encoding determines the value: the round-trip guarantee.
pub proof fn lemma_enc_car_damage_injective(a: CarDamageData, b: CarDamageData)
    requires
        enc_car_damage(a) == enc_car_damage(b),
    ensures
        a == b,
{
    let ta20 = le8(a.engine_seized);
    let tb20 = le8(b.engine_seized);
    let ta19 = le8(a.engine_blown) + ta20;
    let tb19 = le8(b.engine_blown) + tb20;
    let ta18 = le8(a.engine_tc_wear) + ta19;
    let tb18 = le8(b.engine_tc_wear) + tb19;
    let ta17 = le8(a.engine_mgu_k_wear) + ta18;
    let tb17 = le8(b.engine_mgu_k_wear) + tb18;
    let ta16 = le8(a.engine_ice_wear) + ta17;
    let tb16 = le8(b.engine_ice_wear) + tb17;
    let ta15 = le8(a.engine_ce_wear) + ta16;
    let tb15 = le8(b.engine_ce_wear) + tb16;
    let ta14 = le8(a.engine_es_wear) + ta15;
    let tb14 = le8(b.engine_es_wear) + tb15;
    let ta13 = le8(a.engine_mgu_h_wear) + ta14;
    let tb13 = le8(b.engine_mgu_h_wear) + tb14;
    let ta12 = le8(a.engine_damage) + ta13;
    let tb12 = le8(b.engine_damage) + tb13;
    let ta11 = le8(a.gear_box_damage) + ta12;
    let tb11 = le8(b.gear_box_damage) + tb12;
    let ta10 = le8(a.ers_fault) + ta11;
    let tb10 = le8(b.ers_fault) + tb11;
    let ta9 = le8(a.drs_fault) + ta10;
    let tb9 = le8(b.drs_fault) + tb10;
    let ta8 = le8(a.sidepod_damage) + ta9;
    let tb8 = le8(b.sidepod_damage) + tb9;
    let ta7 = le8(a.diffuser_damage) + ta8;
    let tb7 = le8(b.diffuser_damage) + tb8;
    let ta6 = le8(a.floor_damage) + ta7;
    let tb6 = le8(b.floor_damage) + tb7;
    let ta5 = le8(a.rear_wing_damage) + ta6;
    let tb5 = le8(b.rear_wing_damage) + tb6;
    let ta4 = le8(a.front_right_wing_damage) + ta5;
    let tb4 = le8(b.front_right_wing_damage) + tb5;
    let ta3 = le8(a.front_left_wing_damage) + ta4;
    let tb3 = le8(b.front_left_wing_damage) + tb4;
    let ta2 = a.brakes_damage@ + ta3;
    let tb2 = b.brakes_damage@ + tb3;
    let ta1 = a.tyres_damage@ + ta2;
    let tb1 = b.tyres_damage@ + tb2;
    assert(le32x4(a.tyres_wear) + ta1 == enc_car_damage(a));
    assert(le32x4(b.tyres_wear) + tb1 == enc_car_damage(b));
    lemma_concat_split(le32x4(a.tyres_wear), ta1, le32x4(b.tyres_wear), tb1);
    lemma_le32x4_injective(a.tyres_wear, b.tyres_wear);
    lemma_concat_split(a.tyres_damage@, ta2, b.tyres_damage@, tb2);
    lemma_bytes_injective(a.tyres_damage, b.tyres_damage);
    lemma_concat_split(a.brakes_damage@, ta3, b.brakes_damage@, tb3);
    lemma_bytes_injective(a.brakes_damage, b.brakes_damage);
    lemma_concat_split(le8(a.front_left_wing_damage), ta4, le8(b.front_left_wing_damage), tb4);
    lemma_le8_injective(a.front_left_wing_damage, b.front_left_wing_damage);
    lemma_concat_split(le8(a.front_right_wing_damage), ta5, le8(b.front_right_wing_damage), tb5);
    lemma_le8_injective(a.front_right_wing_damage, b.front_right_wing_damage);
    lemma_concat_split(le8(a.rear_wing_damage), ta6, le8(b.rear_wing_damage), tb6);
    lemma_le8_injective(a.rear_wing_damage, b.rear_wing_damage);
    lemma_concat_split(le8(a.floor_damage), ta7, le8(b.floor_damage), tb7);
    lemma_le8_injective(a.floor_damage, b.floor_damage);
    lemma_concat_split(le8(a.diffuser_damage), ta8, le8(b.diffuser_damage), tb8);
    lemma_le8_injective(a.diffuser_damage, b.diffuser_damage);
    lemma_concat_split(le8(a.sidepod_damage), ta9, le8(b.sidepod_damage), tb9);
    lemma_le8_injective(a.sidepod_damage, b.sidepod_damage);
    lemma_concat_split(le8(a.drs_fault), ta10, le8(b.drs_fault), tb10);
    lemma_le8_injective(a.drs_fault, b.drs_fault);
    lemma_concat_split(le8(a.ers_fault), ta11, le8(b.ers_fault), tb11);
    lemma_le8_injective(a.ers_fault, b.ers_fault);
    lemma_concat_split(le8(a.gear_box_damage), ta12, le8(b.gear_box_damage), tb12);
    lemma_le8_injective(a.gear_box_damage, b.gear_box_damage);
    lemma_concat_split(le8(a.engine_damage), ta13, le8(b.engine_damage), tb13);
    lemma_le8_injective(a.engine_damage, b.engine_damage);
    lemma_concat_split(le8(a.engine_mgu_h_wear), ta14, le8(b.engine_mgu_h_wear), tb14);
    lemma_le8_injective(a.engine_mgu_h_wear, b.engine_mgu_h_wear);
    lemma_concat_split(le8(a.engine_es_wear), ta15, le8(b.engine_es_wear), tb15);
    lemma_le8_injective(a.engine_es_wear, b.engine_es_wear);
    lemma_concat_split(le8(a.engine_ce_wear), ta16, le8(b.engine_ce_wear), tb16);
    lemma_le8_injective(a.engine_ce_wear, b.engine_ce_wear);
    lemma_concat_split(le8(a.engine_ice_wear), ta17, le8(b.engine_ice_wear), tb17);
    lemma_le8_injective(a.engine_ice_wear, b.engine_ice_wear);
    lemma_concat_split(le8(a.engine_mgu_k_wear), ta18, le8(b.engine_mgu_k_wear), tb18);
    lemma_le8_injective(a.engine_mgu_k_wear, b.engine_mgu_k_wear);
    lemma_concat_split(le8(a.engine_tc_wear), ta19, le8(b.engine_tc_wear), tb19);
    lemma_le8_injective(a.engine_tc_wear, b.engine_tc_wear);
    lemma_concat_split(le8(a.engine_blown), ta20, le8(b.engine_blown), tb20);
    lemma_le8_injective(a.engine_blown, b.engine_blown);
    lemma_le8_injective(a.engine_seized, b.engine_seized);
}

impl CarDamageData {
    /// A record with every field zero.
    pub fn zeroed() -> (r: CarDamageData)
        ensures
            forall|i: int| 0 <= i < 4 ==> #[trigger] r.tyres_wear@[i] == 0,
            forall|i: int| 0 <= i < 4 ==> #[trigger] r.tyres_damage@[i] == 0,
            forall|i: int| 0 <= i < 4 ==> #[trigger] r.brakes_damage@[i] == 0,
            r.front_left_wing_damage == 0,
            r.front_right_wing_damage == 0,
            r.rear_wing_damage == 0,
            r.floor_damage == 0,
            r.diffuser_damage == 0,
            r.sidepod_damage == 0,
            r.drs_fault == 0,
            r.ers_fault == 0,
            r.gear_box_damage == 0,
            r.engine_damage == 0,
            r.engine_mgu_h_wear == 0,
            r.engine_es_wear == 0,
            r.engine_ce_wear == 0,
            r.engine_ice_wear == 0,
            r.engine_mgu_k_wear == 0,
            r.engine_tc_wear == 0,
            r.engine_blown == 0,
            r.engine_seized == 0,
    {
        CarDamageData {
            tyres_wear: [0u32; 4],
            tyres_damage: [0u8; 4],
            brakes_damage: [0u8; 4],
            front_left_wing_damage: 0,
            front_right_wing_damage: 0,
            rear_wing_damage: 0,
            floor_damage: 0,
            diffuser_damage: 0,
            sidepod_damage: 0,
            drs_fault: 0,
            ers_fault: 0,
            gear_box_damage: 0,
            engine_damage: 0,
            engine_mgu_h_wear: 0,
            engine_es_wear: 0,
            engine_ce_wear: 0,
            engine_ice_wear: 0,
            engine_mgu_k_wear: 0,
            engine_tc_wear: 0,
            engine_blown: 0,
            engine_seized: 0,
        }
    }
}

/// Decodes one record at the cursor.
fn decode_car_damage_at(buf: &[u8], pos: &mut usize) -> (r: CarDamageData)
    requires
        *old(pos) + CAR_DAMAGE_LEN <= buf@.len(),
    ensures
        *final(pos) == *old(pos) + CAR_DAMAGE_LEN,
        enc_car_damage(r) == buf@.subrange(*old(pos) as int, *final(pos) as int),
{
    let ghost start = *pos;
    let tyres_wear = read_u32x4(buf, pos);
    let tyres_damage = read_bytes::<4>(buf, pos);
    let brakes_damage = read_bytes::<4>(buf, pos);
    let front_left_wing_damage = read_u8(buf, pos);
    let front_right_wing_damage = read_u8(buf, pos);
    let rear_wing_damage = read_u8(buf, pos);
    let floor_damage = read_u8(buf, pos);
    let diffuser_damage = read_u8(buf, pos);
    let sidepod_damage = read_u8(buf, pos);
    let drs_fault = read_u8(buf, pos);
    let ers_fault = read_u8(buf, pos);
    let gear_box_damage = read_u8(buf, pos);
    let engine_damage = read_u8(buf, pos);
    let engine_mgu_h_wear = read_u8(buf, pos);
    let engine_es_wear = read_u8(buf, pos);
    let engine_ce_wear = read_u8(buf, pos);
    let engine_ice_wear = read_u8(buf, pos);
    let engine_mgu_k_wear = read_u8(buf, pos);
    let engine_tc_wear = read_u8(buf, pos);
    let engine_blown = read_u8(buf, pos);
    let engine_seized = read_u8(buf, pos);
    let r = CarDamageData {
        tyres_wear,
        tyres_damage,
        brakes_damage,
        front_left_wing_damage,
        front_right_wing_damage,
        rear_wing_damage,
        floor_damage,
        diffuser_damage,
        sidepod_damage,
        drs_fault,
        ers_fault,
        gear_box_damage,
        engine_damage,
        engine_mgu_h_wear,
        engine_es_wear,
        engine_ce_wear,
        engine_ice_wear,
        engine_mgu_k_wear,
        engine_tc_wear,
        engine_blown,
        engine_seized,
    };
    proof {
        assert(enc_car_damage(r) =~= buf@.subrange(start as int, start as int + CAR_DAMAGE_LEN as int));
    }
    r
}

/// Appends the wire encoding.
fn encode_car_damage_into(v: &CarDamageData, out: &mut Vec<u8>)
    ensures
        final(out)@ == old(out)@ + enc_car_damage(*v),
{
    write_u32x4(out, &v.tyres_wear);
    write_bytes::<4>(out, &v.tyres_damage);
    write_bytes::<4>(out, &v.brakes_damage);
    write_u8(out, v.front_left_wing_damage);
    write_u8(out, v.front_right_wing_damage);
    write_u8(out, v.rear_wing_damage);
    write_u8(out, v.floor_damage);
    write_u8(out, v.diffuser_damage);
    write_u8(out, v.sidepod_damage);
    write_u8(out, v.drs_fault);
    write_u8(out, v.ers_fault);
    write_u8(out, v.gear_box_damage);
    write_u8(out, v.engine_damage);
    write_u8(out, v.engine_mgu_h_wear);
    write_u8(out, v.engine_es_wear);
    write_u8(out, v.engine_ce_wear);
    write_u8(out, v.engine_ice_wear);
    write_u8(out, v.engine_mgu_k_wear);
    write_u8(out, v.engine_tc_wear);
    write_u8(out, v.engine_blown);
    write_u8(out, v.engine_seized);
    proof {
        assert(out@ =~= old(out)@ + enc_car_damage(*v));
    }
}

/// Wire width in bytes.
pub const PACKET_CAR_DAMAGE_LEN: usize = 953;

/// Car damage packet: damage parameters for every car in the session.
#[derive(Debug, Clone, Copy, PartialEq, Eq)]
pub struct PacketCarDamageData {
    /// Packet header.
    pub header: PacketHeader,
    /// Damage data for all cars.
    pub car_damage_data: [CarDamageData; 22],
}

/// Wire encoding.
pub open spec fn enc_packet_car_damage(v: PacketCarDamageData) -> Seq<u8> {
    enc_header(v.header) + (enc_each(v.car_damage_data@, enc_car_damage_fn()))
}

/// The encoding is 953 bytes long.
pub proof fn lemma_enc_packet_car_damage_len(v: PacketCarDamageData)
    ensures
        enc_packet_car_damage(v).len() == PACKET_CAR_DAMAGE_LEN,
{
    assert forall|x: CarDamageData| (#[trigger] enc_car_damage_fn()(x)).len() == CAR_DAMAGE_LEN by {
        lemma_enc_car_damage_len(x);
    }
    lemma_enc_each_len(v.car_damage_data@, enc_car_damage_fn(), CAR_DAMAGE_LEN as nat);
}

/// An encoding determines the value: the round-trip guarantee.
pub proof fn lemma_enc_packet_car_damage_injective(a: PacketCarDamageData, b: PacketCarDamageData)
    requires
        enc_packet_car_damage(a) == enc_packet_car_damage(b),
    ensures
        a == b,
{
    assert forall|x: CarDamageData| (#[trigger] enc_car_damage_fn()(x)).len() == CAR_DAMAGE_LEN by {
        lemma_enc_car_damage_len(x);
    }
    lemma_enc_each_len(a.car_damage_data@, enc_car_damage_fn(), CAR_DAMAGE_LEN as nat);
    lemma_enc_each_len(b.car_damage_data@, enc_car_damage_fn(), CAR_DAMAGE_LEN as nat);
    let ta1 = enc_each(a.car_damage_data@, enc_car_damage_fn());
    let tb1 = enc_each(b.car_damage_data@, enc_car_damage_fn());
    assert(enc_header(a.header) + ta1 == enc_packet_car_damage(a));
    assert(enc_header(b.header) + tb1 == enc_packet_car_damage(b));
    lemma_concat_split(enc_header(a.header), ta1, enc_header(b.header), tb1);
    lemma_enc_header_injective(a.header, b.header);
    assert forall|x: CarDamageData, y: CarDamageData|
        #[trigger] enc_car_damage_fn()(x) == #[trigger] enc_car_damage_fn()(y) implies x == y by {
        lemma_enc_car_damage_injective(x, y);
    }
    lemma_enc_each_injective(a.car_damage_data@, b.car_damage_data@, enc_car_damage_fn(), CAR_DAMAGE_LEN as nat);
    assert(a.car_damage_data =~= b.car_damage_data);
}

/// Decodes the packet body at the cursor.
fn decode_packet_car_damage_at(buf: &[u8], pos: &mut usize) -> (r: PacketCarDamageData)
    requires
        *old(pos) + PACKET_CAR_DAMAGE_LEN <= buf@.len(),
    ensures
        *final(pos) == *old(pos) + PACKET_CAR_DAMAGE_LEN,
        enc_packet_car_damage(r) == buf@.subrange(*old(pos) as int, *final(pos) as int),
{
    let ghost start = *pos;
    let header = decode_header_at(buf, pos);
    let car_damage_data = decode_car_damage_array(buf, pos);
    let r = PacketCarDamageData {
        header,
        car_damage_data,
    };
    proof {
        assert(enc_packet_car_damage(r) =~= buf@.subrange(start as int, start as int + PACKET_CAR_DAMAGE_LEN as int));
    }
    r
}

/// Decodes the 22-element array of records at the cursor.
fn decode_car_damage_array(buf: &[u8], pos: &mut usize) -> (r: [CarDamageData; 22])
    requires
        *old(pos) + 22 * CAR_DAMAGE_LEN <= buf@.len(),
    ensures
        *final(pos) == *old(pos) + 22 * CAR_DAMAGE_LEN,
        enc_each(r@, enc_car_damage_fn()) == buf@.subrange(*old(pos) as int, *final(pos) as int),
{
    let ghost start = *pos;
    let z = CarDamageData::zeroed();
    let mut arr = [z; 22];
    proof {
        assert(arr@.take(0) =~= Seq::<CarDamageData>::empty());
        assert(buf@.subrange(start as int, start as int) =~= Seq::<u8>::empty());
    }
    for i in 0..22
        invariant
            *pos == start + i * CAR_DAMAGE_LEN,
            start + 22 * CAR_DAMAGE_LEN <= buf@.len(),
            arr@.len() == 22,
            enc_each(arr@.take(i as int), enc_car_damage_fn()) == buf@.subrange(
                start as int,
                *pos as int,
            ),
    {
        let ghost prev = arr@;
        let ghost p0 = *pos;
        let v = decode_car_damage_at(buf, pos);
        arr[i] = v;
        proof {
            assert(arr@.take(i as int) =~= prev.take(i as int));
            assert(arr@.take(i as int + 1) =~= prev.take(i as int).push(v));
            lemma_enc_each_push(prev.take(i as int), enc_car_damage_fn(), v);
            assert(enc_car_damage_fn()(v) == enc_car_damage(v));
            lemma_subrange_adjacent(buf@, start as int, p0 as int, p0 as int + CAR_DAMAGE_LEN as int);
        }
    }
    proof {
        assert(arr@.take(22) =~= arr@);
    }
    arr
}

/// Appends the wire encoding.
fn encode_packet_car_damage_into(v: &PacketCarDamageData, out: &mut Vec<u8>)
    ensures
        final(out)@ == old(out)@ + enc_packet_car_damage(*v),
{
    encode_header_into(&v.header, out);
    let ghost beforecar_damage_data = out@;
    proof {
        assert(v.car_damage_data@.take(0) =~= Seq::<CarDamageData>::empty());
        assert(out@ =~= beforecar_damage_data + enc_each(v.car_damage_data@.take(0), enc_car_damage_fn()));
    }
    for i in 0..22
        invariant
            v.car_damage_data@.len() == 22,
            out@ == beforecar_damage_data + enc_each(v.car_damage_data@.take(i as int), enc_car_damage_fn()),
    {
        encode_car_damage_into(&v.car_damage_data[i], out);
        proof {
            assert(v.car_damage_data@.take(i as int + 1) =~= v.car_damage_data@.take(i as int).push(
                v.car_damage_data@[i as int],
            ));
            lemma_enc_each_push(v.car_damage_data@.take(i as int), enc_car_damage_fn(), v.car_damage_data@[i as int]);
            assert(enc_car_damage_fn()(v.car_damage_data@[i as int]) == enc_car_damage(v.car_damage_data@[i as int]));
            assert(out@ =~= beforecar_damage_data + enc_each(v.car_damage_data@.take(i as int + 1), enc_car_damage_fn()));
        }
    }
    proof {
        assert(v.car_damage_data@.take(22) =~= v.car_damage_data@);
    }
    proof {
        assert(out@ =~= old(out)@ + enc_packet_car_damage(*v));
    }
}

impl PacketCarDamageData {
    /// Decodes a packet of this kind from a datagram; fails with the
    /// short-buffer error exactly when fewer than 953 bytes are given.
    pub fn from_bytes(buf: &[u8]) -> (r: Result<PacketCarDamageData, PacketError>)
        ensures
            buf@.len() >= PACKET_CAR_DAMAGE_LEN ==> (r matches Ok(p) && enc_packet_car_damage(p)
                == buf@.subrange(0, PACKET_CAR_DAMAGE_LEN as int)),
            buf@.len() < PACKET_CAR_DAMAGE_LEN ==> r == Err::<PacketCarDamageData, PacketError>(
                PacketError::ShortBuffer,
            ),
    {
        if buf.len() < PACKET_CAR_DAMAGE_LEN {
            return Err(PacketError::ShortBuffer);
        }
        let mut pos: usize = 0;
        let p = decode_packet_car_damage_at(buf, &mut pos);
        Ok(p)
    }

    /// The full wire encoding of this packet.
    pub fn to_bytes(&self) -> (r: Vec<u8>)
        ensures
            r@ == enc_packet_car_damage(*self),
    {
        let mut out: Vec<u8> = Vec::new();
        encode_packet_car_damage_into(self, &mut out);
        proof {
            assert(Seq::<u8>::empty() + enc_packet_car_damage(*self) =~= enc_packet_car_damage(*self));
        }
        out
    }

    /// The packet's header.
    pub fn header(&self) -> (r: PacketHeader)
        ensures
            r == self.header,
    {
        self.header
    }

    /// The packet kind named by the header's packet-id byte.
    pub fn packet_id(&self) -> (r: Result<PacketID, PacketError>)
        ensures
            self.header.packet_id <= 13 ==> (r matches Ok(id) && packet_id_code(id)
                == self.header.packet_id),
            self.header.packet_id > 13 ==> r == Err::<PacketID, PacketError>(
                PacketError::InvalidPacketID(self.header.packet_id),
            ),
    {
        self.header.packet_id()
    }
}

} // verus!
