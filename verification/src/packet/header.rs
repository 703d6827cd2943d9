//! The fixed leading envelope common to every packet kind.

use vstd::prelude::*;

use crate::bytes::{
    le8, le16, le32, le64, lemma_concat_split, lemma_le16_injective, lemma_le32_injective,
    lemma_le64_injective, lemma_le8_injective, read_u16, read_u32, read_u64, read_u8, write_u16,
    write_u32, write_u64, write_u8,
};
use super::{PacketError, PacketID};

verus! {

/// Wire width of the header in bytes.
pub const HEADER_LEN: usize = 29;

/// Fixed envelope at the start of every datagram.  All fields are
/// little-endian on the wire; `session_time` travels as the raw IEEE-754 bit
/// pattern of a 32-bit float and is held here unconverted.
#[derive(Debug, Clone, Copy, PartialEq, Eq)]
pub struct PacketHeader {
    /// Major revision of the packet format, e.g. 2023.
    pub packet_format: u16,
    /// Game year, last two digits.
    pub game_year: u8,
    /// Game major version.
    pub game_major_version: u8,
    /// Game minor version.
    pub game_minor_version: u8,
    /// Version of this packet kind.
    pub packet_version: u8,
    /// Identifier of the packet kind.
    pub packet_id: u8,
    /// Unique identifier of the session.
    pub session_uid: u64,
    /// Session timestamp, as IEEE-754 bits.
    pub session_time: u32,
    /// Identifier of the frame the data was retrieved on.
    pub frame_identifier: u32,
    /// Frame identifier that does not go back after a flashback.
    pub overall_frame_identifier: u32,
    /// Index of the player's car in the per-car arrays.
    pub player_car_index: u8,
    /// Index of the secondary player's car; 255 when absent.
    pub secondary_player_car_index: u8,
}

/// Wire encoding of a header.
pub open spec fn enc_header(h: PacketHeader) -> Seq<u8> {
    le16(h.packet_format) + (le8(h.game_year) + (le8(h.game_major_version) + (le8(
        h.game_minor_version,
    ) + (le8(h.packet_version) + (le8(h.packet_id) + (le64(h.session_uid) + (le32(h.session_time)
        + (le32(h.frame_identifier) + (le32(h.overall_frame_identifier) + (le8(h.player_car_index)
        + (le8(h.secondary_player_car_index))))))))))))
}

/// The header encoding is 29 bytes long.
pub proof fn lemma_enc_header_len(h: PacketHeader)
    ensures
        enc_header(h).len() == HEADER_LEN,
{
}

/// A header encoding determines the header: the round-trip guarantee at the
/// envelope level.
pub proof fn lemma_enc_header_injective(a: PacketHeader, b: PacketHeader)
    requires
        enc_header(a) == enc_header(b),
    ensures
        a == b,
{
    let ta12 = le8(a.secondary_player_car_index);
    let tb12 = le8(b.secondary_player_car_index);
    let ta11 = le8(a.player_car_index) + ta12;
    let tb11 = le8(b.player_car_index) + tb12;
    let ta10 = le32(a.overall_frame_identifier) + ta11;
    let tb10 = le32(b.overall_frame_identifier) + tb11;
    let ta9 = le32(a.frame_identifier) + ta10;
    let tb9 = le32(b.frame_identifier) + tb10;
    let ta8 = le32(a.session_time) + ta9;
    let tb8 = le32(b.session_time) + tb9;
    let ta7 = le64(a.session_uid) + ta8;
    let tb7 = le64(b.session_uid) + tb8;
    let ta6 = le8(a.packet_id) + ta7;
    let tb6 = le8(b.packet_id) + tb7;
    let ta5 = le8(a.packet_version) + ta6;
    let tb5 = le8(b.packet_version) + tb6;
    let ta4 = le8(a.game_minor_version) + ta5;
    let tb4 = le8(b.game_minor_version) + tb5;
    let ta3 = le8(a.game_major_version) + ta4;
    let tb3 = le8(b.game_major_version) + tb4;
    let ta2 = le8(a.game_year) + ta3;
    let tb2 = le8(b.game_year) + tb3;
    assert(le16(a.packet_format) + ta2 == enc_header(a));
    assert(le16(b.packet_format) + tb2 == enc_header(b));
    lemma_concat_split(le16(a.packet_format), ta2, le16(b.packet_format), tb2);
    lemma_le16_injective(a.packet_format, b.packet_format);
    lemma_concat_split(le8(a.game_year), ta3, le8(b.game_year), tb3);
    lemma_le8_injective(a.game_year, b.game_year);
    lemma_concat_split(le8(a.game_major_version), ta4, le8(b.game_major_version), tb4);
    lemma_le8_injective(a.game_major_version, b.game_major_version);
    lemma_concat_split(le8(a.game_minor_version), ta5, le8(b.game_minor_version), tb5);
    lemma_le8_injective(a.game_minor_version, b.game_minor_version);
    lemma_concat_split(le8(a.packet_version), ta6, le8(b.packet_version), tb6);
    lemma_le8_injective(a.packet_version, b.packet_version);
    lemma_concat_split(le8(a.packet_id), ta7, le8(b.packet_id), tb7);
    lemma_le8_injective(a.packet_id, b.packet_id);
    lemma_concat_split(le64(a.session_uid), ta8, le64(b.session_uid), tb8);
    lemma_le64_injective(a.session_uid, b.session_uid);
    lemma_concat_split(le32(a.session_time), ta9, le32(b.session_time), tb9);
    lemma_le32_injective(a.session_time, b.session_time);
    lemma_concat_split(le32(a.frame_identifier), ta10, le32(b.frame_identifier), tb10);
    lemma_le32_injective(a.frame_identifier, b.frame_identifier);
    lemma_concat_split(le32(a.overall_frame_identifier), ta11, le32(b.overall_frame_identifier), tb11);
    lemma_le32_injective(a.overall_frame_identifier, b.overall_frame_identifier);
    lemma_concat_split(le8(a.player_car_index), ta12, le8(b.player_car_index), tb12);
    lemma_le8_injective(a.player_car_index, b.player_car_index);
    lemma_le8_injective(a.secondary_player_car_index, b.secondary_player_car_index);
}

/// Decodes a header at the cursor.
pub fn decode_header_at(buf: &[u8], pos: &mut usize) -> (r: PacketHeader)
    requires
        *old(pos) + HEADER_LEN <= buf@.len(),
    ensures
        *final(pos) == *old(pos) + HEADER_LEN,
        enc_header(r) == buf@.subrange(*old(pos) as int, *final(pos) as int),
{
    let ghost start = *pos;
    let packet_format = read_u16(buf, pos);
    let game_year = read_u8(buf, pos);
    let game_major_version = read_u8(buf, pos);
    let game_minor_version = read_u8(buf, pos);
    let packet_version = read_u8(buf, pos);
    let packet_id = read_u8(buf, pos);
    let session_uid = read_u64(buf, pos);
    let session_time = read_u32(buf, pos);
    let frame_identifier = read_u32(buf, pos);
    let overall_frame_identifier = read_u32(buf, pos);
    let player_car_index = read_u8(buf, pos);
    let secondary_player_car_index = read_u8(buf, pos);
    let r = PacketHeader {
        packet_format,
        game_year,
        game_major_version,
        game_minor_version,
        packet_version,
        packet_id,
        session_uid,
        session_time,
        frame_identifier,
        overall_frame_identifier,
        player_car_index,
        secondary_player_car_index,
    };
    proof {
        assert(enc_header(r) =~= buf@.subrange(start as int, start as int + HEADER_LEN as int));
    }
    r
}

/// Appends the wire encoding of a header.
pub fn encode_header_into(h: &PacketHeader, out: &mut Vec<u8>)
    ensures
        final(out)@ == old(out)@ + enc_header(*h),
{
    write_u16(out, h.packet_format);
    write_u8(out, h.game_year);
    write_u8(out, h.game_major_version);
    write_u8(out, h.game_minor_version);
    write_u8(out, h.packet_version);
    write_u8(out, h.packet_id);
    write_u64(out, h.session_uid);
    write_u32(out, h.session_time);
    write_u32(out, h.frame_identifier);
    write_u32(out, h.overall_frame_identifier);
    write_u8(out, h.player_car_index);
    write_u8(out, h.secondary_player_car_index);
    proof {
        assert(out@ =~= old(out)@ + enc_header(*h));
    }
}

impl PacketHeader {
    /// Decodes a header from the start of a datagram; fails with the
    /// short-buffer error exactly when fewer than 29 bytes are given.
    pub fn from_bytes(buf: &[u8]) -> (r: Result<PacketHeader, PacketError>)
        ensures
            buf@.len() >= HEADER_LEN ==> (r matches Ok(h) && enc_header(h) == buf@.subrange(
                0,
                HEADER_LEN as int,
            )),
            buf@.len() < HEADER_LEN ==> r == Err::<PacketHeader, PacketError>(
                PacketError::ShortBuffer,
            ),
    {
        if buf.len() < HEADER_LEN {
            return Err(PacketError::ShortBuffer);
        }
        let mut pos: usize = 0;
        let h = decode_header_at(buf, &mut pos);
        Ok(h)
    }

    /// The full wire encoding of this header.
    pub fn to_bytes(&self) -> (r: Vec<u8>)
        ensures
            r@ == enc_header(*self),
    {
        let mut out: Vec<u8> = Vec::new();
        encode_header_into(self, &mut out);
        proof {
            assert(Seq::<u8>::empty() + enc_header(*self) =~= enc_header(*self));
        }
        out
    }

    /// This header, returned by value.
    pub fn header(&self) -> (r: PacketHeader)
        ensures
            r == *self,
    {
        *self
    }

    /// The packet kind named by the packet-id byte.
    pub fn packet_id(&self) -> (r: Result<PacketID, PacketError>)
        ensures
            self.packet_id <= 13 ==> (r matches Ok(id) && super::packet_id_code(id)
                == self.packet_id),
            self.packet_id > 13 ==> r == Err::<PacketID, PacketError>(
                PacketError::InvalidPacketID(self.packet_id),
            ),
    {
        PacketID::try_from(self.packet_id)
    }
}

} // verus!
