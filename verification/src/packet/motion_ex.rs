//! Extended motion packet.

use vstd::prelude::*;

use crate::bytes::{
    le32, le32x4, lemma_concat_split, lemma_le32_injective, lemma_le32x4_injective, read_u32,
    read_u32x4, write_u32, write_u32x4,
};
use super::header::{
    decode_header_at, enc_header, encode_header_into, lemma_enc_header_injective, PacketHeader,
};
use super::{packet_id_code, PacketError, PacketID};

verus! {

/// Wire width in bytes.
pub const PACKET_MOTION_EX_LEN: usize = 217;

/// Extended motion packet: extra physics data for the player's car.
/// Every field travels as IEEE-754 bits; per-wheel arrays are ordered
/// rear left, rear right, front left, front right.
#[derive(Debug, Clone, Copy, PartialEq, Eq)]
pub struct PacketMotionExData {
    /// Packet header.
    pub header: PacketHeader,
    /// Suspension position per wheel, as IEEE-754 bits.
    pub suspension_position: [u32; 4],
    /// Suspension velocity per wheel, as IEEE-754 bits.
    pub suspension_velocity: [u32; 4],
    /// Suspension acceleration per wheel, as IEEE-754 bits.
    pub suspension_acceleration: [u32; 4],
    /// Wheel speed, as IEEE-754 bits.
    pub wheel_speed: [u32; 4],
    /// Slip ratio per wheel, as IEEE-754 bits.
    pub wheel_slip_ratio: [u32; 4],
    /// Slip angle per wheel, as IEEE-754 bits.
    pub wheel_slip_angle: [u32; 4],
    /// Lateral force per wheel, as IEEE-754 bits.
    pub wheel_lat_force: [u32; 4],
    /// Longitudinal force per wheel, as IEEE-754 bits.
    pub wheel_long_force: [u32; 4],
    /// Height of the centre of gravity above ground, as IEEE-754 bits.
    pub height_of_cog_above_ground: u32,
    /// Local velocity in the X axis, as IEEE-754 bits.
    pub local_velocity_x: u32,
    /// Local velocity in the Y axis, as IEEE-754 bits.
    pub local_velocity_y: u32,
    /// Local velocity in the Z axis, as IEEE-754 bits.
    pub local_velocity_z: u32,
    /// Angular velocity X component, as IEEE-754 bits.
    pub angular_velocity_x: u32,
    /// Angular velocity Y component, as IEEE-754 bits.
    pub angular_velocity_y: u32,
    /// Angular velocity Z component, as IEEE-754 bits.
    pub angular_velocity_z: u32,
    /// Angular acceleration X component, as IEEE-754 bits.
    pub angular_acceleration_x: u32,
    /// Angular acceleration Y component, as IEEE-754 bits.
    pub angular_acceleration_y: u32,
    /// Angular acceleration Z component, as IEEE-754 bits.
    pub angular_acceleration_z: u32,
    /// Current front wheels angle in radians, as IEEE-754 bits.
    pub front_wheels_angle: u32,
    /// Vertical force per wheel, as IEEE-754 bits.
    pub wheel_vert_force: [u32; 4],
}

/// Wire encoding.
pub open spec fn enc_packet_motion_ex(v: PacketMotionExData) -> Seq<u8> {
    enc_header(v.header) + (le32x4(v.suspension_position) + (le32x4(v.suspension_velocity) + (le32x4(v.suspension_acceleration) + (le32x4(v.wheel_speed) + (le32x4(v.wheel_slip_ratio) + (le32x4(v.wheel_slip_angle) + (le32x4(v.wheel_lat_force) + (le32x4(v.wheel_long_force) + (le32(v.height_of_cog_above_ground) + (le32(v.local_velocity_x) + (le32(v.local_velocity_y) + (le32(v.local_velocity_z) + (le32(v.angular_velocity_x) + (le32(v.angular_velocity_y) + (le32(v.angular_velocity_z) + (le32(v.angular_acceleration_x) + (le32(v.angular_acceleration_y) + (le32(v.angular_acceleration_z) + (le32(v.front_wheels_angle) + (le32x4(v.wheel_vert_force)))))))))))))))))))))
}

/// The encoding is 217 bytes long.
pub proof fn lemma_enc_packet_motion_ex_len(v: PacketMotionExData)
    ensures
        enc_packet_motion_ex(v).len() == PACKET_MOTION_EX_LEN,
{
}

/// An encoding determines the value: the round-trip guarantee.
pub proof fn lemma_enc_packet_motion_ex_injective(a: PacketMotionExData, b: PacketMotionExData)
    requires
        enc_packet_motion_ex(a) == enc_packet_motion_ex(b),
    ensures
        a == b,
{
    let ta20 = le32x4(a.wheel_vert_force);
    let tb20 = le32x4(b.wheel_vert_force);
    let ta19 = le32(a.front_wheels_angle) + ta20;
    let tb19 = le32(b.front_wheels_angle) + tb20;
    let ta18 = le32(a.angular_acceleration_z) + ta19;
    let tb18 = le32(b.angular_acceleration_z) + tb19;
    let ta17 = le32(a.angular_acceleration_y) + ta18;
    let tb17 = le32(b.angular_acceleration_y) + tb18;
    let ta16 = le32(a.angular_acceleration_x) + ta17;
    let tb16 = le32(b.angular_acceleration_x) + tb17;
    let ta15 = le32(a.angular_velocity_z) + ta16;
    let tb15 = le32(b.angular_velocity_z) + tb16;
    let ta14 = le32(a.angular_velocity_y) + ta15;
    let tb14 = le32(b.angular_velocity_y) + tb15;
    let ta13 = le32(a.angular_velocity_x) + ta14;
    let tb13 = le32(b.angular_velocity_x) + tb14;
    let ta12 = le32(a.local_velocity_z) + ta13;
    let tb12 = le32(b.local_velocity_z) + tb13;
    let ta11 = le32(a.local_velocity_y) + ta12;
    let tb11 = le32(b.local_velocity_y) + tb12;
    let ta10 = le32(a.local_velocity_x) + ta11;
    let tb10 = le32(b.local_velocity_x) + tb11;
    let ta9 = le32(a.height_of_cog_above_ground) + ta10;
    let tb9 = le32(b.height_of_cog_above_ground) + tb10;
    let ta8 = le32x4(a.wheel_long_force) + ta9;
    let tb8 = le32x4(b.wheel_long_force) + tb9;
    let ta7 = le32x4(a.wheel_lat_force) + ta8;
    let tb7 = le32x4(b.wheel_lat_force) + tb8;
    let ta6 = le32x4(a.wheel_slip_angle) + ta7;
    let tb6 = le32x4(b.wheel_slip_angle) + tb7;
    let ta5 = le32x4(a.wheel_slip_ratio) + ta6;
    let tb5 = le32x4(b.wheel_slip_ratio) + tb6;
    let ta4 = le32x4(a.wheel_speed) + ta5;
    let tb4 = le32x4(b.wheel_speed) + tb5;
    let ta3 = le32x4(a.suspension_acceleration) + ta4;
    let tb3 = le32x4(b.suspension_acceleration) + tb4;
    let ta2 = le32x4(a.suspension_velocity) + ta3;
    let tb2 = le32x4(b.suspension_velocity) + tb3;
    let ta1 = le32x4(a.suspension_position) + ta2;
    let tb1 = le32x4(b.suspension_position) + tb2;
    assert(enc_header(a.header) + ta1 == enc_packet_motion_ex(a));
    assert(enc_header(b.header) + tb1 == enc_packet_motion_ex(b));
    lemma_concat_split(enc_header(a.header), ta1, enc_header(b.header), tb1);
    lemma_enc_header_injective(a.header, b.header);
    lemma_concat_split(le32x4(a.suspension_position), ta2, le32x4(b.suspension_position), tb2);
    lemma_le32x4_injective(a.suspension_position, b.suspension_position);
    lemma_concat_split(le32x4(a.suspension_velocity), ta3, le32x4(b.suspension_velocity), tb3);
    lemma_le32x4_injective(a.suspension_velocity, b.suspension_velocity);
    lemma_concat_split(le32x4(a.suspension_acceleration), ta4, le32x4(b.suspension_acceleration), tb4);
    lemma_le32x4_injective(a.suspension_acceleration, b.suspension_acceleration);
    lemma_concat_split(le32x4(a.wheel_speed), ta5, le32x4(b.wheel_speed), tb5);
    lemma_le32x4_injective(a.wheel_speed, b.wheel_speed);
    lemma_concat_split(le32x4(a.wheel_slip_ratio), ta6, le32x4(b.wheel_slip_ratio), tb6);
    lemma_le32x4_injective(a.wheel_slip_ratio, b.wheel_slip_ratio);
    lemma_concat_split(le32x4(a.wheel_slip_angle), ta7, le32x4(b.wheel_slip_angle), tb7);
    lemma_le32x4_injective(a.wheel_slip_angle, b.wheel_slip_angle);
    lemma_concat_split(le32x4(a.wheel_lat_force), ta8, le32x4(b.wheel_lat_force), tb8);
    lemma_le32x4_injective(a.wheel_lat_force, b.wheel_lat_force);
    lemma_concat_split(le32x4(a.wheel_long_force), ta9, le32x4(b.wheel_long_force), tb9);
    lemma_le32x4_injective(a.wheel_long_force, b.wheel_long_force);
    lemma_concat_split(le32(a.height_of_cog_above_ground), ta10, le32(b.height_of_cog_above_ground), tb10);
    lemma_le32_injective(a.height_of_cog_above_ground, b.height_of_cog_above_ground);
    lemma_concat_split(le32(a.local_velocity_x), ta11, le32(b.local_velocity_x), tb11);
    lemma_le32_injective(a.local_velocity_x, b.local_velocity_x);
    lemma_concat_split(le32(a.local_velocity_y), ta12, le32(b.local_velocity_y), tb12);
    lemma_le32_injective(a.local_velocity_y, b.local_velocity_y);
    lemma_concat_split(le32(a.local_velocity_z), ta13, le32(b.local_velocity_z), tb13);
    lemma_le32_injective(a.local_velocity_z, b.local_velocity_z);
    lemma_concat_split(le32(a.angular_velocity_x), ta14, le32(b.angular_velocity_x), tb14);
    lemma_le32_injective(a.angular_velocity_x, b.angular_velocity_x);
    lemma_concat_split(le32(a.angular_velocity_y), ta15, le32(b.angular_velocity_y), tb15);
    lemma_le32_injective(a.angular_velocity_y, b.angular_velocity_y);
    lemma_concat_split(le32(a.angular_velocity_z), ta16, le32(b.angular_velocity_z), tb16);
    lemma_le32_injective(a.angular_velocity_z, b.angular_velocity_z);
    lemma_concat_split(le32(a.angular_acceleration_x), ta17, le32(b.angular_acceleration_x), tb17);
    lemma_le32_injective(a.angular_acceleration_x, b.angular_acceleration_x);
    lemma_concat_split(le32(a.angular_acceleration_y), ta18, le32(b.angular_acceleration_y), tb18);
    lemma_le32_injective(a.angular_acceleration_y, b.angular_acceleration_y);
    lemma_concat_split(le32(a.angular_acceleration_z), ta19, le32(b.angular_acceleration_z), tb19);
    lemma_le32_injective(a.angular_acceleration_z, b.angular_acceleration_z);
    lemma_concat_split(le32(a.front_wheels_angle), ta20, le32(b.front_wheels_angle), tb20);
    lemma_le32_injective(a.front_wheels_angle, b.front_wheels_angle);
    lemma_le32x4_injective(a.wheel_vert_force, b.wheel_vert_force);
}

/// Decodes the packet body at the cursor.
#[verifier::rlimit(100)]
fn decode_packet_motion_ex_at(buf: &[u8], pos: &mut usize) -> (r: PacketMotionExData)
    requires
        *old(pos) + PACKET_MOTION_EX_LEN <= buf@.len(),
    ensures
        *final(pos) == *old(pos) + PACKET_MOTION_EX_LEN,
        enc_packet_motion_ex(r) == buf@.subrange(*old(pos) as int, *final(pos) as int),
{
    let ghost start = *pos;
    let header = decode_header_at(buf, pos);
    let suspension_position = read_u32x4(buf, pos);
    let suspension_velocity = read_u32x4(buf, pos);
    let suspension_acceleration = read_u32x4(buf, pos);
    let wheel_speed = read_u32x4(buf, pos);
    let wheel_slip_ratio = read_u32x4(buf, pos);
    let wheel_slip_angle = read_u32x4(buf, pos);
    let wheel_lat_force = read_u32x4(buf, pos);
    let wheel_long_force = read_u32x4(buf, pos);
    let height_of_cog_above_ground = read_u32(buf, pos);
    let local_velocity_x = read_u32(buf, pos);
    let local_velocity_y = read_u32(buf, pos);
    let local_velocity_z = read_u32(buf, pos);
    let angular_velocity_x = read_u32(buf, pos);
    let angular_velocity_y = read_u32(buf, pos);
    let angular_velocity_z = read_u32(buf, pos);
    let angular_acceleration_x = read_u32(buf, pos);
    let angular_acceleration_y = read_u32(buf, pos);
    let angular_acceleration_z = read_u32(buf, pos);
    let front_wheels_angle = read_u32(buf, pos);
    let wheel_vert_force = read_u32x4(buf, pos);
    let r = PacketMotionExData {
        header,
        suspension_position,
        suspension_velocity,
        suspension_acceleration,
        wheel_speed,
        wheel_slip_ratio,
        wheel_slip_angle,
        wheel_lat_force,
        wheel_long_force,
        height_of_cog_above_ground,
        local_velocity_x,
        local_velocity_y,
        local_velocity_z,
        angular_velocity_x,
        angular_velocity_y,
        angular_velocity_z,
        angular_acceleration_x,
        angular_acceleration_y,
        angular_acceleration_z,
        front_wheels_angle,
        wheel_vert_force,
    };
    proof {
        assert(le32(r.angular_velocity_x) + (le32(r.angular_velocity_y) + (le32(
            r.angular_velocity_z,
        ) + (le32(r.angular_acceleration_x) + (le32(r.angular_acceleration_y) + (le32(
            r.angular_acceleration_z,
        ) + (le32(r.front_wheels_angle) + (le32x4(r.wheel_vert_force)))))))) =~= buf@.subrange(
            start as int + 173,
            start as int + PACKET_MOTION_EX_LEN as int,
        ));
        assert(enc_packet_motion_ex(r) =~= buf@.subrange(start as int, start as int + PACKET_MOTION_EX_LEN as int));
    }
    r
}

/// Appends the wire encoding.
#[verifier::rlimit(100)]
fn encode_packet_motion_ex_into(v: &PacketMotionExData, out: &mut Vec<u8>)
    ensures
        final(out)@ == old(out)@ + enc_packet_motion_ex(*v),
{
    encode_header_into(&v.header, out);
    write_u32x4(out, &v.suspension_position);
    write_u32x4(out, &v.suspension_velocity);
    write_u32x4(out, &v.suspension_acceleration);
    write_u32x4(out, &v.wheel_speed);
    write_u32x4(out, &v.wheel_slip_ratio);
    write_u32x4(out, &v.wheel_slip_angle);
    write_u32x4(out, &v.wheel_lat_force);
    write_u32x4(out, &v.wheel_long_force);
    write_u32(out, v.height_of_cog_above_ground);
    write_u32(out, v.local_velocity_x);
    write_u32(out, v.local_velocity_y);
    write_u32(out, v.local_velocity_z);
    write_u32(out, v.angular_velocity_x);
    write_u32(out, v.angular_velocity_y);
    write_u32(out, v.angular_velocity_z);
    write_u32(out, v.angular_acceleration_x);
    write_u32(out, v.angular_acceleration_y);
    write_u32(out, v.angular_acceleration_z);
    write_u32(out, v.front_wheels_angle);
    write_u32x4(out, &v.wheel_vert_force);
    proof {
        assert(out@ =~= old(out)@ + enc_packet_motion_ex(*v));
    }
}

impl PacketMotionExData {
    /// Decodes a packet of this kind from a datagram; fails with the
    /// short-buffer error exactly when fewer than 217 bytes are given.
    pub fn from_bytes(buf: &[u8]) -> (r: Result<PacketMotionExData, PacketError>)
        ensures
            buf@.len() >= PACKET_MOTION_EX_LEN ==> (r matches Ok(p) && enc_packet_motion_ex(p)
                == buf@.subrange(0, PACKET_MOTION_EX_LEN as int)),
            buf@.len() < PACKET_MOTION_EX_LEN ==> r == Err::<PacketMotionExData, PacketError>(
                PacketError::ShortBuffer,
            ),
    {
        if buf.len() < PACKET_MOTION_EX_LEN {
            return Err(PacketError::ShortBuffer);
        }
        let mut pos: usize = 0;
        let p = decode_packet_motion_ex_at(buf, &mut pos);
        Ok(p)
    }

    /// The full wire encoding of this packet.
    pub fn to_bytes(&self) -> (r: Vec<u8>)
        ensures
            r@ == enc_packet_motion_ex(*self),
    {
        let mut out: Vec<u8> = Vec::new();
        encode_packet_motion_ex_into(self, &mut out);
        proof {
            assert(Seq::<u8>::empty() + enc_packet_motion_ex(*self) =~= enc_packet_motion_ex(*self));
        }
        out
    }

    /// The packet's header.
    pub fn header(&self) -> (r: PacketHeader)
        ensures
            r == self.header,
    {
        self.header
    }

    /// The packet kind named by the header's packet-id byte.
    pub fn packet_id(&self) -> (r: Result<PacketID, PacketError>)
        ensures
            self.header.packet_id <= 13 ==> (r matches Ok(id) && packet_id_code(id)
                == self.header.packet_id),
            self.header.packet_id > 13 ==> r == Err::<PacketID, PacketError>(
                PacketError::InvalidPacketID(self.header.packet_id),
            ),
    {
        self.header.packet_id()
    }
}

} // verus!
