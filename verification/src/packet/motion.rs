//! Motion packet: physics data for all cars.

use vstd::prelude::*;

use crate::bytes::{
    enc_each, le16, le32, le_i16, lemma_concat_split, lemma_enc_each_injective,
    lemma_enc_each_len, lemma_enc_each_push, lemma_le32_injective, lemma_le_i16_injective,
    lemma_subrange_adjacent, read_i16, read_u32, write_i16, write_u32,
};
use super::header::{
    decode_header_at, enc_header, encode_header_into, lemma_enc_header_injective, PacketHeader,
};
use super::{packet_id_code, PacketError, PacketID};

verus! {

/// Wire width in bytes.
pub const CAR_MOTION_LEN: usize = 60;

/// Physics state of one car.  Position, velocity and g-force components
/// travel as IEEE-754 bits; the normalised direction components travel as
/// signed 16-bit values and are not rescaled here (dividing by 32767 is
/// the consumer's responsibility).
#[derive(Debug, Clone, Copy, PartialEq, Eq)]
pub struct CarMotionData {
    /// World space X position in metres, as IEEE-754 bits.
    pub world_position_x: u32,
    /// World space Y position, as IEEE-754 bits.
    pub world_position_y: u32,
    /// World space Z position, as IEEE-754 bits.
    pub world_position_z: u32,
    /// World space X velocity in metres per second, as IEEE-754 bits.
    pub world_velocity_x: u32,
    /// World space Y velocity, as IEEE-754 bits.
    pub world_velocity_y: u32,
    /// World space Z velocity, as IEEE-754 bits.
    pub world_velocity_z: u32,
    /// World space forward X direction, normalised.
    pub world_forward_dir_x: i16,
    /// World space forward Y direction, normalised.
    pub world_forward_dir_y: i16,
    /// World space forward Z direction, normalised.
    pub world_forward_dir_z: i16,
    /// World space right X direction, normalised.
    pub world_right_dir_x: i16,
    /// World space right Y direction, normalised.
    pub world_right_dir_y: i16,
    /// World space right Z direction, normalised.
    pub world_right_dir_z: i16,
    /// Lateral g-force component, as IEEE-754 bits.
    pub g_force_lateral: u32,
    /// Longitudinal g-force component, as IEEE-754 bits.
    pub g_force_longitudinal: u32,
    /// Vertical g-force component, as IEEE-754 bits.
    pub g_force_vertical: u32,
    /// Yaw angle in radians, as IEEE-754 bits.
    pub m_yaw: u32,
    /// Pitch angle in radians, as IEEE-754 bits.
    pub m_pitch: u32,
    /// Roll angle in radians, as IEEE-754 bits.
    pub m_roll: u32,
}

/// Wire encoding.
pub open spec fn enc_car_motion(v: CarMotionData) -> Seq<u8> {
    le32(v.world_position_x) + (le32(v.world_position_y) + (le32(v.world_position_z) + (le32(v.world_velocity_x) + (le32(v.world_velocity_y) + (le32(v.world_velocity_z) + (le_i16(v.world_forward_dir_x) + (le_i16(v.world_forward_dir_y) + (le_i16(v.world_forward_dir_z) + (le_i16(v.world_right_dir_x) + (le_i16(v.world_right_dir_y) + (le_i16(v.world_right_dir_z) + (le32(v.g_force_lateral) + (le32(v.g_force_longitudinal) + (le32(v.g_force_vertical) + (le32(v.m_yaw) + (le32(v.m_pitch) + (le32(v.m_roll))))))))))))))))))
}

/// The element encoding, as a function value.
pub open spec fn enc_car_motion_fn() -> spec_fn(CarMotionData) -> Seq<u8> {
    |v: CarMotionData| enc_car_motion(v)
}

/// The encoding is 60 bytes long.
pub proof fn lemma_enc_car_motion_len(v: CarMotionData)
    ensures
        enc_car_motion(v).len() == CAR_MOTION_LEN,
{
}

/// An encoding determines the value: the round-trip guarantee.
pub proof fn lemma_enc_car_motion_injective(a: CarMotionData, b: CarMotionData)
    requires
        enc_car_motion(a) == enc_car_motion(b),
    ensures
        a == b,
{
    let ta17 = le32(a.m_roll);
    let tb17 = le32(b.m_roll);
    let ta16 = le32(a.m_pitch) + ta17;
    let tb16 = le32(b.m_pitch) + tb17;
    let ta15 = le32(a.m_yaw) + ta16;
    let tb15 = le32(b.m_yaw) + tb16;
    let ta14 = le32(a.g_force_vertical) + ta15;
    let tb14 = le32(b.g_force_vertical) + tb15;
    let ta13 = le32(a.g_force_longitudinal) + ta14;
    let tb13 = le32(b.g_force_longitudinal) + tb14;
    let ta12 = le32(a.g_force_lateral) + ta13;
    let tb12 = le32(b.g_force_lateral) + tb13;
    let ta11 = le_i16(a.world_right_dir_z) + ta12;
    let tb11 = le_i16(b.world_right_dir_z) + tb12;
    let ta10 = le_i16(a.world_right_dir_y) + ta11;
    let tb10 = le_i16(b.world_right_dir_y) + tb11;
    let ta9 = le_i16(a.world_right_dir_x) + ta10;
    let tb9 = le_i16(b.world_right_dir_x) + tb10;
    let ta8 = le_i16(a.world_forward_dir_z) + ta9;
    let tb8 = le_i16(b.world_forward_dir_z) + tb9;
    let ta7 = le_i16(a.world_forward_dir_y) + ta8;
    let tb7 = le_i16(b.world_forward_dir_y) + tb8;
    let ta6 = le_i16(a.world_forward_dir_x) + ta7;
    let tb6 = le_i16(b.world_forward_dir_x) + tb7;
    let ta5 = le32(a.world_velocity_z) + ta6;
    let tb5 = le32(b.world_velocity_z) + tb6;
    let ta4 = le32(a.world_velocity_y) + ta5;
    let tb4 = le32(b.world_velocity_y) + tb5;
    let ta3 = le32(a.world_velocity_x) + ta4;
    let tb3 = le32(b.world_velocity_x) + tb4;
    let ta2 = le32(a.world_position_z) + ta3;
    let tb2 = le32(b.world_position_z) + tb3;
    let ta1 = le32(a.world_position_y) + ta2;
    let tb1 = le32(b.world_position_y) + tb2;
    assert(le32(a.world_position_x) + ta1 == enc_car_motion(a));
    assert(le32(b.world_position_x) + tb1 == enc_car_motion(b));
    lemma_concat_split(le32(a.world_position_x), ta1, le32(b.world_position_x), tb1);
    lemma_le32_injective(a.world_position_x, b.world_position_x);
    lemma_concat_split(le32(a.world_position_y), ta2, le32(b.world_position_y), tb2);
    lemma_le32_injective(a.world_position_y, b.world_position_y);
    lemma_concat_split(le32(a.world_position_z), ta3, le32(b.world_position_z), tb3);
    lemma_le32_injective(a.world_position_z, b.world_position_z);
    lemma_concat_split(le32(a.world_velocity_x), ta4, le32(b.world_velocity_x), tb4);
    lemma_le32_injective(a.world_velocity_x, b.world_velocity_x);
    lemma_concat_split(le32(a.world_velocity_y), ta5, le32(b.world_velocity_y), tb5);
    lemma_le32_injective(a.world_velocity_y, b.world_velocity_y);
    lemma_concat_split(le32(a.world_velocity_z), ta6, le32(b.world_velocity_z), tb6);
    lemma_le32_injective(a.world_velocity_z, b.world_velocity_z);
    lemma_concat_split(le_i16(a.world_forward_dir_x), ta7, le_i16(b.world_forward_dir_x), tb7);
    lemma_le_i16_injective(a.world_forward_dir_x, b.world_forward_dir_x);
    lemma_concat_split(le_i16(a.world_forward_dir_y), ta8, le_i16(b.world_forward_dir_y), tb8);
    lemma_le_i16_injective(a.world_forward_dir_y, b.world_forward_dir_y);
    lemma_concat_split(le_i16(a.world_forward_dir_z), ta9, le_i16(b.world_forward_dir_z), tb9);
    lemma_le_i16_injective(a.world_forward_dir_z, b.world_forward_dir_z);
    lemma_concat_split(le_i16(a.world_right_dir_x), ta10, le_i16(b.world_right_dir_x), tb10);
    lemma_le_i16_injective(a.world_right_dir_x, b.world_right_dir_x);
    lemma_concat_split(le_i16(a.world_right_dir_y), ta11, le_i16(b.world_right_dir_y), tb11);
    lemma_le_i16_injective(a.world_right_dir_y, b.world_right_dir_y);
    lemma_concat_split(le_i16(a.world_right_dir_z), ta12, le_i16(b.world_right_dir_z), tb12);
    lemma_le_i16_injective(a.world_right_dir_z, b.world_right_dir_z);
    lemma_concat_split(le32(a.g_force_lateral), ta13, le32(b.g_force_lateral), tb13);
    lemma_le32_injective(a.g_force_lateral, b.g_force_lateral);
    lemma_concat_split(le32(a.g_force_longitudinal), ta14, le32(b.g_force_longitudinal), tb14);
    lemma_le32_injective(a.g_force_longitudinal, b.g_force_longitudinal);
    lemma_concat_split(le32(a.g_force_vertical), ta15, le32(b.g_force_vertical), tb15);
    lemma_le32_injective(a.g_force_vertical, b.g_force_vertical);
    lemma_concat_split(le32(a.m_yaw), ta16, le32(b.m_yaw), tb16);
    lemma_le32_injective(a.m_yaw, b.m_yaw);
    lemma_concat_split(le32(a.m_pitch), ta17, le32(b.m_pitch), tb17);
    lemma_le32_injective(a.m_pitch, b.m_pitch);
    lemma_le32_injective(a.m_roll, b.m_roll);
}

impl CarMotionData {
    /// A record with every field zero.
    pub fn zeroed() -> (r: CarMotionData)
        ensures
            r == (CarMotionData {
                    world_position_x: 0,
                    world_position_y: 0,
                    world_position_z: 0,
                    world_velocity_x: 0,
                    world_velocity_y: 0,
                    world_velocity_z: 0,
                    world_forward_dir_x: 0,
                    world_forward_dir_y: 0,
                    world_forward_dir_z: 0,
                    world_right_dir_x: 0,
                    world_right_dir_y: 0,
                    world_right_dir_z: 0,
                    g_force_lateral: 0,
                    g_force_longitudinal: 0,
                    g_force_vertical: 0,
                    m_yaw: 0,
                    m_pitch: 0,
                    m_roll: 0,
            }),
    {
        CarMotionData {
            world_position_x: 0,
            world_position_y: 0,
            world_position_z: 0,
            world_velocity_x: 0,
            world_velocity_y: 0,
            world_velocity_z: 0,
            world_forward_dir_x: 0,
            world_forward_dir_y: 0,
            world_forward_dir_z: 0,
            world_right_dir_x: 0,
            world_right_dir_y: 0,
            world_right_dir_z: 0,
            g_force_lateral: 0,
            g_force_longitudinal: 0,
            g_force_vertical: 0,
            m_yaw: 0,
            m_pitch: 0,
            m_roll: 0,
        }
    }
}

/// Decodes one record at the cursor.
#[verifier::rlimit(50)]
fn decode_car_motion_at(buf: &[u8], pos: &mut usize) -> (r: CarMotionData)
    requires
        *old(pos) + CAR_MOTION_LEN <= buf@.len(),
    ensures
        *final(pos) == *old(pos) + CAR_MOTION_LEN,
        enc_car_motion(r) == buf@.subrange(*old(pos) as int, *final(pos) as int),
{
    let ghost start = *pos;
    let world_position_x = read_u32(buf, pos);
    let world_position_y = read_u32(buf, pos);
    let world_position_z = read_u32(buf, pos);
    let world_velocity_x = read_u32(buf, pos);
    let world_velocity_y = read_u32(buf, pos);
    let world_velocity_z = read_u32(buf, pos);
    let world_forward_dir_x = read_i16(buf, pos);
    let world_forward_dir_y = read_i16(buf, pos);
    let world_forward_dir_z = read_i16(buf, pos);
    let world_right_dir_x = read_i16(buf, pos);
    let world_right_dir_y = read_i16(buf, pos);
    let world_right_dir_z = read_i16(buf, pos);
    let g_force_lateral = read_u32(buf, pos);
    let g_force_longitudinal = read_u32(buf, pos);
    let g_force_vertical = read_u32(buf, pos);
    let m_yaw = read_u32(buf, pos);
    let m_pitch = read_u32(buf, pos);
    let m_roll = read_u32(buf, pos);
    let r = CarMotionData {
        world_position_x,
        world_position_y,
        world_position_z,
        world_velocity_x,
        world_velocity_y,
        world_velocity_z,
        world_forward_dir_x,
        world_forward_dir_y,
        world_forward_dir_z,
        world_right_dir_x,
        world_right_dir_y,
        world_right_dir_z,
        g_force_lateral,
        g_force_longitudinal,
        g_force_vertical,
        m_yaw,
        m_pitch,
        m_roll,
    };
    proof {
        assert(enc_car_motion(r) =~= buf@.subrange(start as int, start as int + CAR_MOTION_LEN as int));
    }
    r
}

/// Appends the wire encoding.
fn encode_car_motion_into(v: &CarMotionData, out: &mut Vec<u8>)
    ensures
        final(out)@ == old(out)@ + enc_car_motion(*v),
{
    write_u32(out, v.world_position_x);
    write_u32(out, v.world_position_y);
    write_u32(out, v.world_position_z);
    write_u32(out, v.world_velocity_x);
    write_u32(out, v.world_velocity_y);
    write_u32(out, v.world_velocity_z);
    write_i16(out, v.world_forward_dir_x);
    write_i16(out, v.world_forward_dir_y);
    write_i16(out, v.world_forward_dir_z);
    write_i16(out, v.world_right_dir_x);
    write_i16(out, v.world_right_dir_y);
    write_i16(out, v.world_right_dir_z);
    write_u32(out, v.g_force_lateral);
    write_u32(out, v.g_force_longitudinal);
    write_u32(out, v.g_force_vertical);
    write_u32(out, v.m_yaw);
    write_u32(out, v.m_pitch);
    write_u32(out, v.m_roll);
    proof {
        assert(out@ =~= old(out)@ + enc_car_motion(*v));
    }
}

/// Wire width in bytes.
pub const PACKET_MOTION_LEN: usize = 1349;

/// Motion packet: physics data for every car being driven.
#[derive(Debug, Clone, Copy, PartialEq, Eq)]
pub struct PacketMotionData {
    /// Packet header.
    pub header: PacketHeader,
    /// Motion data for all cars.
    pub car_motion_data: [CarMotionData; 22],
}

/// Wire encoding.
pub open spec fn enc_packet_motion(v: PacketMotionData) -> Seq<u8> {
    enc_header(v.header) + (enc_each(v.car_motion_data@, enc_car_motion_fn()))
}

/// The encoding is 1349 bytes long.
pub proof fn lemma_enc_packet_motion_len(v: PacketMotionData)
    ensures
        enc_packet_motion(v).len() == PACKET_MOTION_LEN,
{
    assert forall|x: CarMotionData| (#[trigger] enc_car_motion_fn()(x)).len() == CAR_MOTION_LEN by {
        lemma_enc_car_motion_len(x);
    }
    lemma_enc_each_len(v.car_motion_data@, enc_car_motion_fn(), CAR_MOTION_LEN as nat);
}

/// An encoding determines the value: the round-trip guarantee.
pub proof fn lemma_enc_packet_motion_injective(a: PacketMotionData, b: PacketMotionData)
    requires
        enc_packet_motion(a) == enc_packet_motion(b),
    ensures
        a == b,
{
    assert forall|x: CarMotionData| (#[trigger] enc_car_motion_fn()(x)).len() == CAR_MOTION_LEN by {
        lemma_enc_car_motion_len(x);
    }
    lemma_enc_each_len(a.car_motion_data@, enc_car_motion_fn(), CAR_MOTION_LEN as nat);
    lemma_enc_each_len(b.car_motion_data@, enc_car_motion_fn(), CAR_MOTION_LEN as nat);
    let ta1 = enc_each(a.car_motion_data@, enc_car_motion_fn());
    let tb1 = enc_each(b.car_motion_data@, enc_car_motion_fn());
    assert(enc_header(a.header) + ta1 == enc_packet_motion(a));
    assert(enc_header(b.header) + tb1 == enc_packet_motion(b));
    lemma_concat_split(enc_header(a.header), ta1, enc_header(b.header), tb1);
    lemma_enc_header_injective(a.header, b.header);
    assert forall|x: CarMotionData, y: CarMotionData|
        #[trigger] enc_car_motion_fn()(x) == #[trigger] enc_car_motion_fn()(y) implies x == y by {
        lemma_enc_car_motion_injective(x, y);
    }
    lemma_enc_each_injective(a.car_motion_data@, b.car_motion_data@, enc_car_motion_fn(), CAR_MOTION_LEN as nat);
    assert(a.car_motion_data =~= b.car_motion_data);
}

/// Decodes the packet body at the cursor.
fn decode_packet_motion_at(buf: &[u8], pos: &mut usize) -> (r: PacketMotionData)
    requires
        *old(pos) + PACKET_MOTION_LEN <= buf@.len(),
    ensures
        *final(pos) == *old(pos) + PACKET_MOTION_LEN,
        enc_packet_motion(r) == buf@.subrange(*old(pos) as int, *final(pos) as int),
{
    let ghost start = *pos;
    let header = decode_header_at(buf, pos);
    let car_motion_data = decode_car_motion_array(buf, pos);
    let r = PacketMotionData {
        header,
        car_motion_data,
    };
    proof {
        assert(enc_packet_motion(r) =~= buf@.subrange(start as int, start as int + PACKET_MOTION_LEN as int));
    }
    r
}

/// Decodes the 22-element array of records at the cursor.
fn decode_car_motion_array(buf: &[u8], pos: &mut usize) -> (r: [CarMotionData; 22])
    requires
        *old(pos) + 22 * CAR_MOTION_LEN <= buf@.len(),
    ensures
        *final(pos) == *old(pos) + 22 * CAR_MOTION_LEN,
        enc_each(r@, enc_car_motion_fn()) == buf@.subrange(*old(pos) as int, *final(pos) as int),
{
    let ghost start = *pos;
    let z = CarMotionData::zeroed();
    let mut arr = [z; 22];
    proof {
        assert(arr@.take(0) =~= Seq::<CarMotionData>::empty());
        assert(buf@.subrange(start as int, start as int) =~= Seq::<u8>::empty());
    }
    for i in 0..22
        invariant
            *pos == start + i * CAR_MOTION_LEN,
            start + 22 * CAR_MOTION_LEN <= buf@.len(),
            arr@.len() == 22,
            enc_each(arr@.take(i as int), enc_car_motion_fn()) == buf@.subrange(
                start as int,
                *pos as int,
            ),
    {
        let ghost prev = arr@;
        let ghost p0 = *pos;
        let v = decode_car_motion_at(buf, pos);
        arr[i] = v;
        proof {
            assert(arr@.take(i as int) =~= prev.take(i as int));
            assert(arr@.take(i as int + 1) =~= prev.take(i as int).push(v));
            lemma_enc_each_push(prev.take(i as int), enc_car_motion_fn(), v);
            assert(enc_car_motion_fn()(v) == enc_car_motion(v));
            lemma_subrange_adjacent(buf@, start as int, p0 as int, p0 as int + CAR_MOTION_LEN as int);
        }
    }
    proof {
        assert(arr@.take(22) =~= arr@);
    }
    arr
}

/// Appends the wire encoding.
fn encode_packet_motion_into(v: &PacketMotionData, out: &mut Vec<u8>)
    ensures
        final(out)@ == old(out)@ + enc_packet_motion(*v),
{
    encode_header_into(&v.header, out);
    let ghost beforecar_motion_data = out@;
    proof {
        assert(v.car_motion_data@.take(0) =~= Seq::<CarMotionData>::empty());
        assert(out@ =~= beforecar_motion_data + enc_each(v.car_motion_data@.take(0), enc_car_motion_fn()));
    }
    for i in 0..22
        invariant
            v.car_motion_data@.len() == 22,
            out@ == beforecar_motion_data + enc_each(v.car_motion_data@.take(i as int), enc_car_motion_fn()),
    {
        encode_car_motion_into(&v.car_motion_data[i], out);
        proof {
            assert(v.car_motion_data@.take(i as int + 1) =~= v.car_motion_data@.take(i as int).push(
                v.car_motion_data@[i as int],
            ));
            lemma_enc_each_push(v.car_motion_data@.take(i as int), enc_car_motion_fn(), v.car_motion_data@[i as int]);
            assert(enc_car_motion_fn()(v.car_motion_data@[i as int]) == enc_car_motion(v.car_motion_data@[i as int]));
            assert(out@ =~= beforecar_motion_data + enc_each(v.car_motion_data@.take(i as int + 1), enc_car_motion_fn()));
        }
    }
    proof {
        assert(v.car_motion_data@.take(22) =~= v.car_motion_data@);
    }
    proof {
        assert(out@ =~= old(out)@ + enc_packet_motion(*v));
    }
}

impl PacketMotionData {
    /// Decodes a packet of this kind from a datagram; fails with the
    /// short-buffer error exactly when fewer than 1349 bytes are given.
    pub fn from_bytes(buf: &[u8]) -> (r: Result<PacketMotionData, PacketError>)
        ensures
            buf@.len() >= PACKET_MOTION_LEN ==> (r matches Ok(p) && enc_packet_motion(p)
                == buf@.subrange(0, PACKET_MOTION_LEN as int)),
            buf@.len() < PACKET_MOTION_LEN ==> r == Err::<PacketMotionData, PacketError>(
                PacketError::ShortBuffer,
            ),
    {
        if buf.len() < PACKET_MOTION_LEN {
            return Err(PacketError::ShortBuffer);
        }
        let mut pos: usize = 0;
        let p = decode_packet_motion_at(buf, &mut pos);
        Ok(p)
    }

    /// The full wire encoding of this packet.
    pub fn to_bytes(&self) -> (r: Vec<u8>)
        ensures
            r@ == enc_packet_motion(*self),
    {
        let mut out: Vec<u8> = Vec::new();
        encode_packet_motion_into(self, &mut out);
        proof {
            assert(Seq::<u8>::empty() + enc_packet_motion(*self) =~= enc_packet_motion(*self));
        }
        out
    }

    /// The packet's header.
    pub fn header(&self) -> (r: PacketHeader)
        ensures
            r == self.header,
    {
        self.header
    }

    /// The packet kind named by the header's packet-id byte.
    pub fn packet_id(&self) -> (r: Result<PacketID, PacketError>)
        ensures
            self.header.packet_id <= 13 ==> (r matches Ok(id) && packet_id_code(id)
                == self.header.packet_id),
            self.header.packet_id > 13 ==> r == Err::<PacketID, PacketError>(
                PacketError::InvalidPacketID(self.header.packet_id),
            ),
    {
        self.header.packet_id()
    }
}

} // verus!
