//! Car setups packet.

use vstd::prelude::*;

use crate::bytes::{
    enc_each, le32, le8, lemma_concat_split, lemma_enc_each_injective, lemma_enc_each_len,
    lemma_enc_each_push, lemma_le32_injective, lemma_le8_injective, lemma_subrange_adjacent,
    read_u32, read_u8, write_u32, write_u8,
};
use super::header::{
    decode_header_at, enc_header, encode_header_into, lemma_enc_header_injective, PacketHeader,
};
use super::{packet_id_code, PacketError, PacketID};

verus! {

/// Wire width in bytes.
pub const CAR_SETUP_LEN: usize = 49;

/// Setup of one car.  Angles and pressures travel as IEEE-754 bits.
#[derive(Debug, Clone, Copy, PartialEq, Eq)]
pub struct CarSetupData {
    /// Front wing aero.
    pub front_wing: u8,
    /// Rear wing aero.
    pub rear_wing: u8,
    /// Differential adjustment on throttle, percentage.
    pub on_throttle: u8,
    /// Differential adjustment off throttle, percentage.
    pub off_throttle: u8,
    /// Front camber angle, as IEEE-754 bits.
    pub front_camber: u32,
    /// Rear camber angle, as IEEE-754 bits.
    pub rear_camber: u32,
    /// Front toe angle, as IEEE-754 bits.
    pub front_toe: u32,
    /// Rear toe angle, as IEEE-754 bits.
    pub rear_toe: u32,
    /// Front suspension.
    pub front_suspension: u8,
    /// Rear suspension.
    pub rear_suspension: u8,
    /// Front anti-roll bar.
    pub front_anti_roll_bar: u8,
    /// Rear anti-roll bar.
    pub rear_anti_roll_bar: u8,
    /// Front ride height.
    pub front_suspension_height: u8,
    /// Rear ride height.
    pub rear_suspension_height: u8,
    /// Brake pressure, percentage.
    pub brake_pressure: u8,
    /// Brake bias, percentage.
    pub brake_bias: u8,
    /// Rear left tyre pressure in PSI, as IEEE-754 bits.
    pub rear_left_tyre_pressure: u32,
    /// Rear right tyre pressure in PSI, as IEEE-754 bits.
    pub rear_right_tyre_pressure: u32,
    /// Front left tyre pressure in PSI, as IEEE-754 bits.
    pub front_left_tyre_pressure: u32,
    /// Front right tyre pressure in PSI, as IEEE-754 bits.
    pub front_right_tyre_pressure: u32,
    /// Ballast.
    pub ballast: u8,
    /// Fuel load, as IEEE-754 bits.
    pub fuel_load: u32,
}

/// Wire encoding.
pub open spec fn enc_car_setup(v: CarSetupData) -> Seq<u8> {
    le8(v.front_wing) + (le8(v.rear_wing) + (le8(v.on_throttle) + (le8(v.off_throttle) + (le32(v.front_camber) + (le32(v.rear_camber) + (le32(v.front_toe) + (le32(v.rear_toe) + (le8(v.front_suspension) + (le8(v.rear_suspension) + (le8(v.front_anti_roll_bar) + (le8(v.rear_anti_roll_bar) + (le8(v.front_suspension_height) + (le8(v.rear_suspension_height) + (le8(v.brake_pressure) + (le8(v.brake_bias) + (le32(v.rear_left_tyre_pressure) + (le32(v.rear_right_tyre_pressure) + (le32(v.front_left_tyre_pressure) + (le32(v.front_right_tyre_pressure) + (le8(v.ballast) + (le32(v.fuel_load))))))))))))))))))))))
}

/// The element encoding, as a function value.
pub open spec fn enc_car_setup_fn() -> spec_fn(CarSetupData) -> Seq<u8> {
    |v: CarSetupData| enc_car_setup(v)
}

/// The encoding is 49 bytes long.
pub proof fn lemma_enc_car_setup_len(v: CarSetupData)
    ensures
        enc_car_setup(v).len() == CAR_SETUP_LEN,
{
}

/// An encoding determines the value: the round-trip guarantee.
pub proof fn lemma_enc_car_setup_injective(a: CarSetupData, b: CarSetupData)
    requires
        enc_car_setup(a) == enc_car_setup(b),
    ensures
        a == b,
{
    let ta21 = le32(a.fuel_load);
    let tb21 = le32(b.fuel_load);
    let ta20 = le8(a.ballast) + ta21;
    let tb20 = le8(b.ballast) + tb21;
    let ta19 = le32(a.front_right_tyre_pressure) + ta20;
    let tb19 = le32(b.front_right_tyre_pressure) + tb20;
    let ta18 = le32(a.front_left_tyre_pressure) + ta19;
    let tb18 = le32(b.front_left_tyre_pressure) + tb19;
    let ta17 = le32(a.rear_right_tyre_pressure) + ta18;
    let tb17 = le32(b.rear_right_tyre_pressure) + tb18;
    let ta16 = le32(a.rear_left_tyre_pressure) + ta17;
    let tb16 = le32(b.rear_left_tyre_pressure) + tb17;
    let ta15 = le8(a.brake_bias) + ta16;
    let tb15 = le8(b.brake_bias) + tb16;
    let ta14 = le8(a.brake_pressure) + ta15;
    let tb14 = le8(b.brake_pressure) + tb15;
    let ta13 = le8(a.rear_suspension_height) + ta14;
    let tb13 = le8(b.rear_suspension_height) + tb14;
    let ta12 = le8(a.front_suspension_height) + ta13;
    let tb12 = le8(b.front_suspension_height) + tb13;
    let ta11 = le8(a.rear_anti_roll_bar) + ta12;
    let tb11 = le8(b.rear_anti_roll_bar) + tb12;
    let ta10 = le8(a.front_anti_roll_bar) + ta11;
    let tb10 = le8(b.front_anti_roll_bar) + tb11;
    let ta9 = le8(a.rear_suspension) + ta10;
    let tb9 = le8(b.rear_suspension) + tb10;
    let ta8 = le8(a.front_suspension) + ta9;
    let tb8 = le8(b.front_suspension) + tb9;
    let ta7 = le32(a.rear_toe) + ta8;
    let tb7 = le32(b.rear_toe) + tb8;
    let ta6 = le32(a.front_toe) + ta7;
    let tb6 = le32(b.front_toe) + tb7;
    let ta5 = le32(a.rear_camber) + ta6;
    let tb5 = le32(b.rear_camber) + tb6;
    let ta4 = le32(a.front_camber) + ta5;
    let tb4 = le32(b.front_camber) + tb5;
    let ta3 = le8(a.off_throttle) + ta4;
    let tb3 = le8(b.off_throttle) + tb4;
    let ta2 = le8(a.on_throttle) + ta3;
    let tb2 = le8(b.on_throttle) + tb3;
    let ta1 = le8(a.rear_wing) + ta2;
    let tb1 = le8(b.rear_wing) + tb2;
    assert(le8(a.front_wing) + ta1 == enc_car_setup(a));
    assert(le8(b.front_wing) + tb1 == enc_car_setup(b));
    lemma_concat_split(le8(a.front_wing), ta1, le8(b.front_wing), tb1);
    lemma_le8_injective(a.front_wing, b.front_wing);
    lemma_concat_split(le8(a.rear_wing), ta2, le8(b.rear_wing), tb2);
    lemma_le8_injective(a.rear_wing, b.rear_wing);
    lemma_concat_split(le8(a.on_throttle), ta3, le8(b.on_throttle), tb3);
    lemma_le8_injective(a.on_throttle, b.on_throttle);
    lemma_concat_split(le8(a.off_throttle), ta4, le8(b.off_throttle), tb4);
    lemma_le8_injective(a.off_throttle, b.off_throttle);
    lemma_concat_split(le32(a.front_camber), ta5, le32(b.front_camber), tb5);
    lemma_le32_injective(a.front_camber, b.front_camber);
    lemma_concat_split(le32(a.rear_camber), ta6, le32(b.rear_camber), tb6);
    lemma_le32_injective(a.rear_camber, b.rear_camber);
    lemma_concat_split(le32(a.front_toe), ta7, le32(b.front_toe), tb7);
    lemma_le32_injective(a.front_toe, b.front_toe);
    lemma_concat_split(le32(a.rear_toe), ta8, le32(b.rear_toe), tb8);
    lemma_le32_injective(a.rear_toe, b.rear_toe);
    lemma_concat_split(le8(a.front_suspension), ta9, le8(b.front_suspension), tb9);
    lemma_le8_injective(a.front_suspension, b.front_suspension);
    lemma_concat_split(le8(a.rear_suspension), ta10, le8(b.rear_suspension), tb10);
    lemma_le8_injective(a.rear_suspension, b.rear_suspension);
    lemma_concat_split(le8(a.front_anti_roll_bar), ta11, le8(b.front_anti_roll_bar), tb11);
    lemma_le8_injective(a.front_anti_roll_bar, b.front_anti_roll_bar);
    lemma_concat_split(le8(a.rear_anti_roll_bar), ta12, le8(b.rear_anti_roll_bar), tb12);
    lemma_le8_injective(a.rear_anti_roll_bar, b.rear_anti_roll_bar);
    lemma_concat_split(le8(a.front_suspension_height), ta13, le8(b.front_suspension_height), tb13);
    lemma_le8_injective(a.front_suspension_height, b.front_suspension_height);
    lemma_concat_split(le8(a.rear_suspension_height), ta14, le8(b.rear_suspension_height), tb14);
    lemma_le8_injective(a.rear_suspension_height, b.rear_suspension_height);
    lemma_concat_split(le8(a.brake_pressure), ta15, le8(b.brake_pressure), tb15);
    lemma_le8_injective(a.brake_pressure, b.brake_pressure);
    lemma_concat_split(le8(a.brake_bias), ta16, le8(b.brake_bias), tb16);
    lemma_le8_injective(a.brake_bias, b.brake_bias);
    lemma_concat_split(le32(a.rear_left_tyre_pressure), ta17, le32(b.rear_left_tyre_pressure), tb17);
    lemma_le32_injective(a.rear_left_tyre_pressure, b.rear_left_tyre_pressure);
    lemma_concat_split(le32(a.rear_right_tyre_pressure), ta18, le32(b.rear_right_tyre_pressure), tb18);
    lemma_le32_injective(a.rear_right_tyre_pressure, b.rear_right_tyre_pressure);
    lemma_concat_split(le32(a.front_left_tyre_pressure), ta19, le32(b.front_left_tyre_pressure), tb19);
    lemma_le32_injective(a.front_left_tyre_pressure, b.front_left_tyre_pressure);
    lemma_concat_split(le32(a.front_right_tyre_pressure), ta20, le32(b.front_right_tyre_pressure), tb20);
    lemma_le32_injective(a.front_right_tyre_pressure, b.front_right_tyre_pressure);
    lemma_concat_split(le8(a.ballast), ta21, le8(b.ballast), tb21);
    lemma_le8_injective(a.ballast, b.ballast);
    lemma_le32_injective(a.fuel_load, b.fuel_load);
}

impl CarSetupData {
    /// A record with every field zero.
    pub fn zeroed() -> (r: CarSetupData)
        ensures
            r == (CarSetupData {
                    front_wing: 0,
                    rear_wing: 0,
                    on_throttle: 0,
                    off_throttle: 0,
                    front_camber: 0,
                    rear_camber: 0,
                    front_toe: 0,
                    rear_toe: 0,
                    front_suspension: 0,
                    rear_suspension: 0,
                    front_anti_roll_bar: 0,
                    rear_anti_roll_bar: 0,
                    front_suspension_height: 0,
                    rear_suspension_height: 0,
                    brake_pressure: 0,
                    brake_bias: 0,
                    rear_left_tyre_pressure: 0,
                    rear_right_tyre_pressure: 0,
                    front_left_tyre_pressure: 0,
                    front_right_tyre_pressure: 0,
                    ballast: 0,
                    fuel_load: 0,
            }),
    {
        CarSetupData {
            front_wing: 0,
            rear_wing: 0,
            on_throttle: 0,
            off_throttle: 0,
            front_camber: 0,
            rear_camber: 0,
            front_toe: 0,
            rear_toe: 0,
            front_suspension: 0,
            rear_suspension: 0,
            front_anti_roll_bar: 0,
            rear_anti_roll_bar: 0,
            front_suspension_height: 0,
            rear_suspension_height: 0,
            brake_pressure: 0,
            brake_bias: 0,
            rear_left_tyre_pressure: 0,
            rear_right_tyre_pressure: 0,
            front_left_tyre_pressure: 0,
            front_right_tyre_pressure: 0,
            ballast: 0,
            fuel_load: 0,
        }
    }
}

/// Decodes one record at the cursor.
#[verifier::rlimit(50)]
fn decode_car_setup_at(buf: &[u8], pos: &mut usize) -> (r: CarSetupData)
    requires
        *old(pos) + CAR_SETUP_LEN <= buf@.len(),
    ensures
        *final(pos) == *old(pos) + CAR_SETUP_LEN,
        enc_car_setup(r) == buf@.subrange(*old(pos) as int, *final(pos) as int),
{
    let ghost start = *pos;
    let front_wing = read_u8(buf, pos);
    let rear_wing = read_u8(buf, pos);
    let on_throttle = read_u8(buf, pos);
    let off_throttle = read_u8(buf, pos);
    let front_camber = read_u32(buf, pos);
    let rear_camber = read_u32(buf, pos);
    let front_toe = read_u32(buf, pos);
    let rear_toe = read_u32(buf, pos);
    let front_suspension = read_u8(buf, pos);
    let rear_suspension = read_u8(buf, pos);
    let front_anti_roll_bar = read_u8(buf, pos);
    let rear_anti_roll_bar = read_u8(buf, pos);
    let front_suspension_height = read_u8(buf, pos);
    let rear_suspension_height = read_u8(buf, pos);
    let brake_pressure = read_u8(buf, pos);
    let brake_bias = read_u8(buf, pos);
    let rear_left_tyre_pressure = read_u32(buf, pos);
    let rear_right_tyre_pressure = read_u32(buf, pos);
    let front_left_tyre_pressure = read_u32(buf, pos);
    let front_right_tyre_pressure = read_u32(buf, pos);
    let ballast = read_u8(buf, pos);
    let fuel_load = read_u32(buf, pos);
    let r = CarSetupData {
        front_wing,
        rear_wing,
        on_throttle,
        off_throttle,
        front_camber,
        rear_camber,
        front_toe,
        rear_toe,
        front_suspension,
        rear_suspension,
        front_anti_roll_bar,
        rear_anti_roll_bar,
        front_suspension_height,
        rear_suspension_height,
        brake_pressure,
        brake_bias,
        rear_left_tyre_pressure,
        rear_right_tyre_pressure,
        front_left_tyre_pressure,
        front_right_tyre_pressure,
        ballast,
        fuel_load,
    };
    proof {
        assert(enc_car_setup(r) =~= buf@.subrange(start as int, start as int + CAR_SETUP_LEN as int));
    }
    r
}

/// Appends the wire encoding.
fn encode_car_setup_into(v: &CarSetupData, out: &mut Vec<u8>)
    ensures
        final(out)@ == old(out)@ + enc_car_setup(*v),
{
    write_u8(out, v.front_wing);
    write_u8(out, v.rear_wing);
    write_u8(out, v.on_throttle);
    write_u8(out, v.off_throttle);
    write_u32(out, v.front_camber);
    write_u32(out, v.rear_camber);
    write_u32(out, v.front_toe);
    write_u32(out, v.rear_toe);
    write_u8(out, v.front_suspension);
    write_u8(out, v.rear_suspension);
    write_u8(out, v.front_anti_roll_bar);
    write_u8(out, v.rear_anti_roll_bar);
    write_u8(out, v.front_suspension_height);
    write_u8(out, v.rear_suspension_height);
    write_u8(out, v.brake_pressure);
    write_u8(out, v.brake_bias);
    write_u32(out, v.rear_left_tyre_pressure);
    write_u32(out, v.rear_right_tyre_pressure);
    write_u32(out, v.front_left_tyre_pressure);
    write_u32(out, v.front_right_tyre_pressure);
    write_u8(out, v.ballast);
    write_u32(out, v.fuel_load);
    proof {
        assert(out@ =~= old(out)@ + enc_car_setup(*v));
    }
}

/// Wire width in bytes.
pub const PACKET_CAR_SETUPS_LEN: usize = 1107;

/// Car setups packet: the setup of each vehicle in the session.
#[derive(Debug, Clone, Copy, PartialEq, Eq)]
pub struct PacketCarSetupData {
    /// Packet header.
    pub header: PacketHeader,
    /// Setup data for all cars.
    pub car_setups: [CarSetupData; 22],
}

/// Wire encoding.
pub open spec fn enc_packet_car_setups(v: PacketCarSetupData) -> Seq<u8> {
    enc_header(v.header) + (enc_each(v.car_setups@, enc_car_setup_fn()))
}

/// The encoding is 1107 bytes long.
pub proof fn lemma_enc_packet_car_setups_len(v: PacketCarSetupData)
    ensures
        enc_packet_car_setups(v).len() == PACKET_CAR_SETUPS_LEN,
{
    assert forall|x: CarSetupData| (#[trigger] enc_car_setup_fn()(x)).len() == CAR_SETUP_LEN by {
        lemma_enc_car_setup_len(x);
    }
    lemma_enc_each_len(v.car_setups@, enc_car_setup_fn(), CAR_SETUP_LEN as nat);
}

/// An encoding determines the value: the round-trip guarantee.
pub proof fn lemma_enc_packet_car_setups_injective(a: PacketCarSetupData, b: PacketCarSetupData)
    requires
        enc_packet_car_setups(a) == enc_packet_car_setups(b),
    ensures
        a == b,
{
    assert forall|x: CarSetupData| (#[trigger] enc_car_setup_fn()(x)).len() == CAR_SETUP_LEN by {
        lemma_enc_car_setup_len(x);
    }
    lemma_enc_each_len(a.car_setups@, enc_car_setup_fn(), CAR_SETUP_LEN as nat);
    lemma_enc_each_len(b.car_setups@, enc_car_setup_fn(), CAR_SETUP_LEN as nat);
    let ta1 = enc_each(a.car_setups@, enc_car_setup_fn());
    let tb1 = enc_each(b.car_setups@, enc_car_setup_fn());
    assert(enc_header(a.header) + ta1 == enc_packet_car_setups(a));
    assert(enc_header(b.header) + tb1 == enc_packet_car_setups(b));
    lemma_concat_split(enc_header(a.header), ta1, enc_header(b.header), tb1);
    lemma_enc_header_injective(a.header, b.header);
    assert forall|x: CarSetupData, y: CarSetupData|
        #[trigger] enc_car_setup_fn()(x) == #[trigger] enc_car_setup_fn()(y) implies x == y by {
        lemma_enc_car_setup_injective(x, y);
    }
    lemma_enc_each_injective(a.car_setups@, b.car_setups@, enc_car_setup_fn(), CAR_SETUP_LEN as nat);
    assert(a.car_setups =~= b.car_setups);
}

/// Decodes the packet body at the cursor.
fn decode_packet_car_setups_at(buf: &[u8], pos: &mut usize) -> (r: PacketCarSetupData)
    requires
        *old(pos) + PACKET_CAR_SETUPS_LEN <= buf@.len(),
    ensures
        *final(pos) == *old(pos) + PACKET_CAR_SETUPS_LEN,
        enc_packet_car_setups(r) == buf@.subrange(*old(pos) as int, *final(pos) as int),
{
    let ghost start = *pos;
    let header = decode_header_at(buf, pos);
    let car_setups = decode_car_setup_array(buf, pos);
    let r = PacketCarSetupData {
        header,
        car_setups,
    };
    proof {
        assert(enc_packet_car_setups(r) =~= buf@.subrange(start as int, start as int + PACKET_CAR_SETUPS_LEN as int));
    }
    r
}

/// Decodes the 22-element array of records at the cursor.
fn decode_car_setup_array(buf: &[u8], pos: &mut usize) -> (r: [CarSetupData; 22])
    requires
        *old(pos) + 22 * CAR_SETUP_LEN <= buf@.len(),
    ensures
        *final(pos) == *old(pos) + 22 * CAR_SETUP_LEN,
        enc_each(r@, enc_car_setup_fn()) == buf@.subrange(*old(pos) as int, *final(pos) as int),
{
    let ghost start = *pos;
    let z = CarSetupData::zeroed();
    let mut arr = [z; 22];
    proof {
        assert(arr@.take(0) =~= Seq::<CarSetupData>::empty());
        assert(buf@.subrange(start as int, start as int) =~= Seq::<u8>::empty());
    }
    for i in 0..22
        invariant
            *pos == start + i * CAR_SETUP_LEN,
            start + 22 * CAR_SETUP_LEN <= buf@.len(),
            arr@.len() == 22,
            enc_each(arr@.take(i as int), enc_car_setup_fn()) == buf@.subrange(
                start as int,
                *pos as int,
            ),
    {
        let ghost prev = arr@;
        let ghost p0 = *pos;
        let v = decode_car_setup_at(buf, pos);
        arr[i] = v;
        proof {
            assert(arr@.take(i as int) =~= prev.take(i as int));
            assert(arr@.take(i as int + 1) =~= prev.take(i as int).push(v));
            lemma_enc_each_push(prev.take(i as int), enc_car_setup_fn(), v);
            assert(enc_car_setup_fn()(v) == enc_car_setup(v));
            lemma_subrange_adjacent(buf@, start as int, p0 as int, p0 as int + CAR_SETUP_LEN as int);
        }
    }
    proof {
        assert(arr@.take(22) =~= arr@);
    }
    arr
}

/// Appends the wire encoding.
fn encode_packet_car_setups_into(v: &PacketCarSetupData, out: &mut Vec<u8>)
    ensures
        final(out)@ == old(out)@ + enc_packet_car_setups(*v),
{
    encode_header_into(&v.header, out);
    let ghost beforecar_setups = out@;
    proof {
        assert(v.car_setups@.take(0) =~= Seq::<CarSetupData>::empty());
        assert(out@ =~= beforecar_setups + enc_each(v.car_setups@.take(0), enc_car_setup_fn()));
    }
    for i in 0..22
        invariant
            v.car_setups@.len() == 22,
            out@ == beforecar_setups + enc_each(v.car_setups@.take(i as int), enc_car_setup_fn()),
    {
        encode_car_setup_into(&v.car_setups[i], out);
        proof {
            assert(v.car_setups@.take(i as int + 1) =~= v.car_setups@.take(i as int).push(
                v.car_setups@[i as int],
            ));
            lemma_enc_each_push(v.car_setups@.take(i as int), enc_car_setup_fn(), v.car_setups@[i as int]);
            assert(enc_car_setup_fn()(v.car_setups@[i as int]) == enc_car_setup(v.car_setups@[i as int]));
            assert(out@ =~= beforecar_setups + enc_each(v.car_setups@.take(i as int + 1), enc_car_setup_fn()));
        }
    }
    proof {
        assert(v.car_setups@.take(22) =~= v.car_setups@);
    }
    proof {
        assert(out@ =~= old(out)@ + enc_packet_car_setups(*v));
    }
}

impl PacketCarSetupData {
    /// Decodes a packet of this kind from a datagram; fails with the
    /// short-buffer error exactly when fewer than 1107 bytes are given.
    pub fn from_bytes(buf: &[u8]) -> (r: Result<PacketCarSetupData, PacketError>)
        ensures
            buf@.len() >= PACKET_CAR_SETUPS_LEN ==> (r matches Ok(p) && enc_packet_car_setups(p)
                == buf@.subrange(0, PACKET_CAR_SETUPS_LEN as int)),
            buf@.len() < PACKET_CAR_SETUPS_LEN ==> r == Err::<PacketCarSetupData, PacketError>(
                PacketError::ShortBuffer,
            ),
    {
        if buf.len() < PACKET_CAR_SETUPS_LEN {
            return Err(PacketError::ShortBuffer);
        }
        let mut pos: usize = 0;
        let p = decode_packet_car_setups_at(buf, &mut pos);
        Ok(p)
    }

    /// The full wire encoding of this packet.
    pub fn to_bytes(&self) -> (r: Vec<u8>)
        ensures
            r@ == enc_packet_car_setups(*self),
    {
        let mut out: Vec<u8> = Vec::new();
        encode_packet_car_setups_into(self, &mut out);
        proof {
            assert(Seq::<u8>::empty() + enc_packet_car_setups(*self) =~= enc_packet_car_setups(*self));
        }
        out
    }

    /// The packet's header.
    pub fn header(&self) -> (r: PacketHeader)
        ensures
            r == self.header,
    {
        self.header
    }

    /// The packet kind named by the header's packet-id byte.
    pub fn packet_id(&self) -> (r: Result<PacketID, PacketError>)
        ensures
            self.header.packet_id <= 13 ==> (r matches Ok(id) && packet_id_code(id)
                == self.header.packet_id),
            self.header.packet_id > 13 ==> r == Err::<PacketID, PacketError>(
                PacketError::InvalidPacketID(self.header.packet_id),
            ),
    {
        self.header.packet_id()
    }
}

} // verus!
