//! Final classification packet.

use vstd::prelude::*;

use crate::bytes::{
    enc_each, le32, le64, le8, lemma_bytes_injective, lemma_concat_split,
    lemma_enc_each_injective, lemma_enc_each_len, lemma_enc_each_push, lemma_le32_injective,
    lemma_le64_injective, lemma_le8_injective, lemma_subrange_adjacent, read_bytes, read_u32,
    read_u64, read_u8, write_bytes, write_u32, write_u64, write_u8,
};
use super::header::{
    decode_header_at, enc_header, encode_header_into, lemma_enc_header_injective, PacketHeader,
};
use super::{packet_id_code, PacketError, PacketID};

verus! {

/// Wire width in bytes.
pub const FINAL_CLASSIFICATION_LEN: usize = 45;

/// Final classification of one car.  The total race time travels as the
/// IEEE-754 bits of a 64-bit float.
#[derive(Debug, Clone, Copy, PartialEq, Eq)]
pub struct FinalClassificationData {
    /// Finishing position.
    pub position: u8,
    /// Laps completed.
    pub num_laps: u8,
    /// Grid position of the car.
    pub grid_position: u8,
    /// Points scored.
    pub points: u8,
    /// Pit stops made.
    pub num_pit_stops: u8,
    /// Result status.
    pub result_status: u8,
    /// Best lap time of the session in milliseconds.
    pub best_lap_time_in_ms: u32,
    /// Total race time in seconds without penalties, as IEEE-754 bits.
    pub total_race_time: u64,
    /// Total penalties accumulated in seconds.
    pub penalties_time: u8,
    /// Penalties applied to this driver.
    pub num_penalties: u8,
    /// Number of tyre stints.
    pub num_tyre_stints: u8,
    /// Actual tyres used per stint.
    pub tyre_stints_actual: [u8; 8],
    /// Visual tyres used per stint.
    pub tyre_stints_visual: [u8; 8],
    /// Lap each stint ends on.
    pub tyre_stints_end_laps: [u8; 8],
}

/// Wire encoding.
pub open spec fn enc_final_classification(v: FinalClassificationData) -> Seq<u8> {
    le8(v.position) + (le8(v.num_laps) + (le8(v.grid_position) + (le8(v.points) + (le8(v.num_pit_stops) + (le8(v.result_status) + (le32(v.best_lap_time_in_ms) + (le64(v.total_race_time) + (le8(v.penalties_time) + (le8(v.num_penalties) + (le8(v.num_tyre_stints) + (v.tyre_stints_actual@ + (v.tyre_stints_visual@ + (v.tyre_stints_end_laps@)))))))))))))
}

/// The element encoding, as a function value.
pub open spec fn enc_final_classification_fn() -> spec_fn(FinalClassificationData) -> Seq<u8> {
    |v: FinalClassificationData| enc_final_classification(v)
}

/// The encoding is 45 bytes long.
pub proof fn lemma_enc_final_classification_len(v: FinalClassificationData)
    ensures
        enc_final_classification(v).len() == FINAL_CLASSIFICATION_LEN,
{
}

/// An encoding determines the value: the round-trip guarantee.
pub proof fn lemma_enc_final_classification_injective(a: FinalClassificationData, b: FinalClassificationData)
    requires
        enc_final_classification(a) == enc_final_classification(b),
    ensures
        a == b,
{
    let ta13 = a.tyre_stints_end_laps@;
    let tb13 = b.tyre_stints_end_laps@;
    let ta12 = a.tyre_stints_visual@ + ta13;
    let tb12 = b.tyre_stints_visual@ + tb13;
    let ta11 = a.tyre_stints_actual@ + ta12;
    let tb11 = b.tyre_stints_actual@ + tb12;
    let ta10 = le8(a.num_tyre_stints) + ta11;
    let tb10 = le8(b.num_tyre_stints) + tb11;
    let ta9 = le8(a.num_penalties) + ta10;
    let tb9 = le8(b.num_penalties) + tb10;
    let ta8 = le8(a.penalties_time) + ta9;
    let tb8 = le8(b.penalties_time) + tb9;
    let ta7 = le64(a.total_race_time) + ta8;
    let tb7 = le64(b.total_race_time) + tb8;
    let ta6 = le32(a.best_lap_time_in_ms) + ta7;
    let tb6 = le32(b.best_lap_time_in_ms) + tb7;
    let ta5 = le8(a.result_status) + ta6;
    let tb5 = le8(b.result_status) + tb6;
    let ta4 = le8(a.num_pit_stops) + ta5;
    let tb4 = le8(b.num_pit_stops) + tb5;
    let ta3 = le8(a.points) + ta4;
    let tb3 = le8(b.points) + tb4;
    let ta2 = le8(a.grid_position) + ta3;
    let tb2 = le8(b.grid_position) + tb3;
    let ta1 = le8(a.num_laps) + ta2;
    let tb1 = le8(b.num_laps) + tb2;
    assert(le8(a.position) + ta1 == enc_final_classification(a));
    assert(le8(b.position) + tb1 == enc_final_classification(b));
    lemma_concat_split(le8(a.position), ta1, le8(b.position), tb1);
    lemma_le8_injective(a.position, b.position);
    lemma_concat_split(le8(a.num_laps), ta2, le8(b.num_laps), tb2);
    lemma_le8_injective(a.num_laps, b.num_laps);
    lemma_concat_split(le8(a.grid_position), ta3, le8(b.grid_position), tb3);
    lemma_le8_injective(a.grid_position, b.grid_position);
    lemma_concat_split(le8(a.points), ta4, le8(b.points), tb4);
    lemma_le8_injective(a.points, b.points);
    lemma_concat_split(le8(a.num_pit_stops), ta5, le8(b.num_pit_stops), tb5);
    lemma_le8_injective(a.num_pit_stops, b.num_pit_stops);
    lemma_concat_split(le8(a.result_status), ta6, le8(b.result_status), tb6);
    lemma_le8_injective(a.result_status, b.result_status);
    lemma_concat_split(le32(a.best_lap_time_in_ms), ta7, le32(b.best_lap_time_in_ms), tb7);
    lemma_le32_injective(a.best_lap_time_in_ms, b.best_lap_time_in_ms);
    lemma_concat_split(le64(a.total_race_time), ta8, le64(b.total_race_time), tb8);
    lemma_le64_injective(a.total_race_time, b.total_race_time);
    lemma_concat_split(le8(a.penalties_time), ta9, le8(b.penalties_time), tb9);
    lemma_le8_injective(a.penalties_time, b.penalties_time);
    lemma_concat_split(le8(a.num_penalties), ta10, le8(b.num_penalties), tb10);
    lemma_le8_injective(a.num_penalties, b.num_penalties);
    lemma_concat_split(le8(a.num_tyre_stints), ta11, le8(b.num_tyre_stints), tb11);
    lemma_le8_injective(a.num_tyre_stints, b.num_tyre_stints);
    lemma_concat_split(a.tyre_stints_actual@, ta12, b.tyre_stints_actual@, tb12);
    lemma_bytes_injective(a.tyre_stints_actual, b.tyre_stints_actual);
    lemma_concat_split(a.tyre_stints_visual@, ta13, b.tyre_stints_visual@, tb13);
    lemma_bytes_injective(a.tyre_stints_visual, b.tyre_stints_visual);
    lemma_bytes_injective(a.tyre_stints_end_laps, b.tyre_stints_end_laps);
}

impl FinalClassificationData {
    /// A record with every field zero.
    pub fn zeroed() -> (r: FinalClassificationData)
        ensures
            r.position == 0,
            r.num_laps == 0,
            r.grid_position == 0,
            r.points == 0,
            r.num_pit_stops == 0,
            r.result_status == 0,
            r.best_lap_time_in_ms == 0,
            r.total_race_time == 0,
            r.penalties_time == 0,
            r.num_penalties == 0,
            r.num_tyre_stints == 0,
            forall|i: int| 0 <= i < 8 ==> #[trigger] r.tyre_stints_actual@[i] == 0,
            forall|i: int| 0 <= i < 8 ==> #[trigger] r.tyre_stints_visual@[i] == 0,
            forall|i: int| 0 <= i < 8 ==> #[trigger] r.tyre_stints_end_laps@[i] == 0,
    {
        FinalClassificationData {
            position: 0,
            num_laps: 0,
            grid_position: 0,
            points: 0,
            num_pit_stops: 0,
            result_status: 0,
            best_lap_time_in_ms: 0,
            total_race_time: 0,
            penalties_time: 0,
            num_penalties: 0,
            num_tyre_stints: 0,
            tyre_stints_actual: [0u8; 8],
            tyre_stints_visual: [0u8; 8],
            tyre_stints_end_laps: [0u8; 8],
        }
    }
}

/// Decodes one record at the cursor.
fn decode_final_classification_at(buf: &[u8], pos: &mut usize) -> (r: FinalClassificationData)
    requires
        *old(pos) + FINAL_CLASSIFICATION_LEN <= buf@.len(),
    ensures
        *final(pos) == *old(pos) + FINAL_CLASSIFICATION_LEN,
        enc_final_classification(r) == buf@.subrange(*old(pos) as int, *final(pos) as int),
{
    let ghost start = *pos;
    let position = read_u8(buf, pos);
    let num_laps = read_u8(buf, pos);
    let grid_position = read_u8(buf, pos);
    let points = read_u8(buf, pos);
    let num_pit_stops = read_u8(buf, pos);
    let result_status = read_u8(buf, pos);
    let best_lap_time_in_ms = read_u32(buf, pos);
    let total_race_time = read_u64(buf, pos);
    let penalties_time = read_u8(buf, pos);
    let num_penalties = read_u8(buf, pos);
    let num_tyre_stints = read_u8(buf, pos);
    let tyre_stints_actual = read_bytes::<8>(buf, pos);
    let tyre_stints_visual = read_bytes::<8>(buf, pos);
    let tyre_stints_end_laps = read_bytes::<8>(buf, pos);
    let r = FinalClassificationData {
        position,
        num_laps,
        grid_position,
        points,
        num_pit_stops,
        result_status,
        best_lap_time_in_ms,
        total_race_time,
        penalties_time,
        num_penalties,
        num_tyre_stints,
        tyre_stints_actual,
        tyre_stints_visual,
        tyre_stints_end_laps,
    };
    proof {
        assert(enc_final_classification(r) =~= buf@.subrange(start as int, start as int + FINAL_CLASSIFICATION_LEN as int));
    }
    r
}

/// Appends the wire encoding.
fn encode_final_classification_into(v: &FinalClassificationData, out: &mut Vec<u8>)
    ensures
        final(out)@ == old(out)@ + enc_final_classification(*v),
{
    write_u8(out, v.position);
    write_u8(out, v.num_laps);
    write_u8(out, v.grid_position);
    write_u8(out, v.points);
    write_u8(out, v.num_pit_stops);
    write_u8(out, v.result_status);
    write_u32(out, v.best_lap_time_in_ms);
    write_u64(out, v.total_race_time);
    write_u8(out, v.penalties_time);
    write_u8(out, v.num_penalties);
    write_u8(out, v.num_tyre_stints);
    write_bytes::<8>(out, &v.tyre_stints_actual);
    write_bytes::<8>(out, &v.tyre_stints_visual);
    write_bytes::<8>(out, &v.tyre_stints_end_laps);
    proof {
        assert(out@ =~= old(out)@ + enc_final_classification(*v));
    }
}

/// Wire width in bytes.
pub const PACKET_FINAL_CLASSIFICATION_LEN: usize = 1020;

/// Final classification packet: the post-race results.
#[derive(Debug, Clone, Copy, PartialEq, Eq)]
pub struct PacketFinalClassificationData {
    /// Packet header.
    pub header: PacketHeader,
    /// Number of cars in the classification.
    pub num_cars: u8,
    /// Classification for all cars.
    pub classification_data: [FinalClassificationData; 22],
}

/// Wire encoding.
pub open spec fn enc_packet_final_classification(v: PacketFinalClassificationData) -> Seq<u8> {
    enc_header(v.header) + (le8(v.num_cars) + (enc_each(v.classification_data@, enc_final_classification_fn())))
}

/// The encoding is 1020 bytes long.
pub proof fn lemma_enc_packet_final_classification_len(v: PacketFinalClassificationData)
    ensures
        enc_packet_final_classification(v).len() == PACKET_FINAL_CLASSIFICATION_LEN,
{
    assert forall|x: FinalClassificationData| (#[trigger] enc_final_classification_fn()(x)).len() == FINAL_CLASSIFICATION_LEN by {
        lemma_enc_final_classification_len(x);
    }
    lemma_enc_each_len(v.classification_data@, enc_final_classification_fn(), FINAL_CLASSIFICATION_LEN as nat);
}

/// An encoding determines the value: the round-trip guarantee.
pub proof fn lemma_enc_packet_final_classification_injective(a: PacketFinalClassificationData, b: PacketFinalClassificationData)
    requires
        enc_packet_final_classification(a) == enc_packet_final_classification(b),
    ensures
        a == b,
{
    assert forall|x: FinalClassificationData| (#[trigger] enc_final_classification_fn()(x)).len() == FINAL_CLASSIFICATION_LEN by {
        lemma_enc_final_classification_len(x);
    }
    lemma_enc_each_len(a.classification_data@, enc_final_classification_fn(), FINAL_CLASSIFICATION_LEN as nat);
    lemma_enc_each_len(b.classification_data@, enc_final_classification_fn(), FINAL_CLASSIFICATION_LEN as nat);
    let ta2 = enc_each(a.classification_data@, enc_final_classification_fn());
    let tb2 = enc_each(b.classification_data@, enc_final_classification_fn());
    let ta1 = le8(a.num_cars) + ta2;
    let tb1 = le8(b.num_cars) + tb2;
    assert(enc_header(a.header) + ta1 == enc_packet_final_classification(a));
    assert(enc_header(b.header) + tb1 == enc_packet_final_classification(b));
    lemma_concat_split(enc_header(a.header), ta1, enc_header(b.header), tb1);
    lemma_enc_header_injective(a.header, b.header);
    lemma_concat_split(le8(a.num_cars), ta2, le8(b.num_cars), tb2);
    lemma_le8_injective(a.num_cars, b.num_cars);
    assert forall|x: FinalClassificationData, y: FinalClassificationData|
        #[trigger] enc_final_classification_fn()(x) == #[trigger] enc_final_classification_fn()(y) implies x == y by {
        lemma_enc_final_classification_injective(x, y);
    }
    lemma_enc_each_injective(a.classification_data@, b.classification_data@, enc_final_classification_fn(), FINAL_CLASSIFICATION_LEN as nat);
    assert(a.classification_data =~= b.classification_data);
}

/// Decodes the packet body at the cursor.
fn decode_packet_final_classification_at(buf: &[u8], pos: &mut usize) -> (r: PacketFinalClassificationData)
    requires
        *old(pos) + PACKET_FINAL_CLASSIFICATION_LEN <= buf@.len(),
    ensures
        *final(pos) == *old(pos) + PACKET_FINAL_CLASSIFICATION_LEN,
        enc_packet_final_classification(r) == buf@.subrange(*old(pos) as int, *final(pos) as int),
{
    let ghost start = *pos;
    let header = decode_header_at(buf, pos);
    let num_cars = read_u8(buf, pos);
    let classification_data = decode_final_classification_array(buf, pos);
    let r = PacketFinalClassificationData {
        header,
        num_cars,
        classification_data,
    };
    proof {
        assert(enc_packet_final_classification(r) =~= buf@.subrange(start as int, start as int + PACKET_FINAL_CLASSIFICATION_LEN as int));
    }
    r
}

/// Decodes the 22-element array of records at the cursor.
fn decode_final_classification_array(buf: &[u8], pos: &mut usize) -> (r: [FinalClassificationData; 22])
    requires
        *old(pos) + 22 * FINAL_CLASSIFICATION_LEN <= buf@.len(),
    ensures
        *final(pos) == *old(pos) + 22 * FINAL_CLASSIFICATION_LEN,
        enc_each(r@, enc_final_classification_fn()) == buf@.subrange(*old(pos) as int, *final(pos) as int),
{
    let ghost start = *pos;
    let z = FinalClassificationData::zeroed();
    let mut arr = [z; 22];
    proof {
        assert(arr@.take(0) =~= Seq::<FinalClassificationData>::empty());
        assert(buf@.subrange(start as int, start as int) =~= Seq::<u8>::empty());
    }
    for i in 0..22
        invariant
            *pos == start + i * FINAL_CLASSIFICATION_LEN,
            start + 22 * FINAL_CLASSIFICATION_LEN <= buf@.len(),
            arr@.len() == 22,
            enc_each(arr@.take(i as int), enc_final_classification_fn()) == buf@.subrange(
                start as int,
                *pos as int,
            ),
    {
        let ghost prev = arr@;
        let ghost p0 = *pos;
        let v = decode_final_classification_at(buf, pos);
        arr[i] = v;
        proof {
            assert(arr@.take(i as int) =~= prev.take(i as int));
            assert(arr@.take(i as int + 1) =~= prev.take(i as int).push(v));
            lemma_enc_each_push(prev.take(i as int), enc_final_classification_fn(), v);
            assert(enc_final_classification_fn()(v) == enc_final_classification(v));
            lemma_subrange_adjacent(buf@, start as int, p0 as int, p0 as int + FINAL_CLASSIFICATION_LEN as int);
        }
    }
    proof {
        assert(arr@.take(22) =~= arr@);
    }
    arr
}

/// Appends the wire encoding.
fn encode_packet_final_classification_into(v: &PacketFinalClassificationData, out: &mut Vec<u8>)
    ensures
        final(out)@ == old(out)@ + enc_packet_final_classification(*v),
{
    encode_header_into(&v.header, out);
    write_u8(out, v.num_cars);
    let ghost beforeclassification_data = out@;
    proof {
        assert(v.classification_data@.take(0) =~= Seq::<FinalClassificationData>::empty());
        assert(out@ =~= beforeclassification_data + enc_each(v.classification_data@.take(0), enc_final_classification_fn()));
    }
    for i in 0..22
        invariant
            v.classification_data@.len() == 22,
            out@ == beforeclassification_data + enc_each(v.classification_data@.take(i as int), enc_final_classification_fn()),
    {
        encode_final_classification_into(&v.classification_data[i], out);
        proof {
            assert(v.classification_data@.take(i as int + 1) =~= v.classification_data@.take(i as int).push(
                v.classification_data@[i as int],
            ));
            lemma_enc_each_push(v.classification_data@.take(i as int), enc_final_classification_fn(), v.classification_data@[i as int]);
            assert(enc_final_classification_fn()(v.classification_data@[i as int]) == enc_final_classification(v.classification_data@[i as int]));
            assert(out@ =~= beforeclassification_data + enc_each(v.classification_data@.take(i as int + 1), enc_final_classification_fn()));
        }
    }
    proof {
        assert(v.classification_data@.take(22) =~= v.classification_data@);
    }
    proof {
        assert(out@ =~= old(out)@ + enc_packet_final_classification(*v));
    }
}

impl PacketFinalClassificationData {
    /// Decodes a packet of this kind from a datagram; fails with the
    /// short-buffer error exactly when fewer than 1020 bytes are given.
    pub fn from_bytes(buf: &[u8]) -> (r: Result<PacketFinalClassificationData, PacketError>)
        ensures
            buf@.len() >= PACKET_FINAL_CLASSIFICATION_LEN ==> (r matches Ok(p) && enc_packet_final_classification(p)
                == buf@.subrange(0, PACKET_FINAL_CLASSIFICATION_LEN as int)),
            buf@.len() < PACKET_FINAL_CLASSIFICATION_LEN ==> r == Err::<PacketFinalClassificationData, PacketError>(
                PacketError::ShortBuffer,
            ),
    {
        if buf.len() < PACKET_FINAL_CLASSIFICATION_LEN {
            return Err(PacketError::ShortBuffer);
        }
        let mut pos: usize = 0;
        let p = decode_packet_final_classification_at(buf, &mut pos);
        Ok(p)
    }

    /// The full wire encoding of this packet.
    pub fn to_bytes(&self) -> (r: Vec<u8>)
        ensures
            r@ == enc_packet_final_classification(*self),
    {
        let mut out: Vec<u8> = Vec::new();
        encode_packet_final_classification_into(self, &mut out);
        proof {
            assert(Seq::<u8>::empty() + enc_packet_final_classification(*self) =~= enc_packet_final_classification(*self));
        }
        out
    }

    /// The packet's header.
    pub fn header(&self) -> (r: PacketHeader)
        ensures
            r == self.header,
    {
        self.header
    }

    /// The packet kind named by the header's packet-id byte.
    pub fn packet_id(&self) -> (r: Result<PacketID, PacketError>)
        ensures
            self.header.packet_id <= 13 ==> (r matches Ok(id) && packet_id_code(id)
                == self.header.packet_id),
            self.header.packet_id > 13 ==> r == Err::<PacketID, PacketError>(
                PacketError::InvalidPacketID(self.header.packet_id),
            ),
    {
        self.header.packet_id()
    }
}

} // verus!
